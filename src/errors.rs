//! Every way one invocation can fail. All of them are ordinary outcomes of
//! that invocation, never a reason to stop the host.

use vstd::prelude::*;

verus! {

/// Which budget ran out.
#[derive(Clone, Copy, Debug, PartialEq, Eq, Structural)]
pub enum GasSource {
    /// The ledger charged for host calls.
    HostCall,
    /// The engine's own execution-unit counter.
    Engine,
}

/// What made the guest trap.
#[derive(Clone, Debug, PartialEq, Eq)]
pub enum TrapCause {
    /// `host.allocate` was paid for, but the linear memory could not grow by
    /// `pages` pages (it reached its maximum, say).
    MemoryGrowth { pages: u64 },
    /// Any other fault the sandbox reported, in its own words.
    Fault(String),
}

#[derive(Clone, Debug, PartialEq, Eq)]
pub enum ContractError {
    /// The execution engine could not be created.
    EngineCreation(String),
    /// The module could not be read or is no valid module.
    LoadError(String),
    /// The module's imports do not match what the host provides, or its
    /// start-up failed.
    Instantiation(String),
    /// The module exports no function of this name.
    FunctionNotFound { name: String },
    /// The module exports no linear memory.
    MemoryNotFound,
    /// `len` bytes at `offset` do not fit in a memory of `memory_size` bytes.
    InvalidMemoryAccess { offset: u64, len: u64, memory_size: u64 },
    /// The bytes at the output record's offset are no pointer/length record.
    MalformedRecord { len: u64 },
    /// A payload could not be encoded or decoded.
    Serialization(String),
    /// A charge of `required` met a budget with `remaining` left.
    OutOfGas { required: u64, remaining: u64, source: GasSource },
    /// The guest stopped on a fault.
    GuestTrap(TrapCause),
}

} // verus!
