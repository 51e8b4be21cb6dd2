//! One contract and the decisions of one call into it: a fresh ledger per
//! instance, the placement of the input, the decoding of the output and the
//! accounting of what was spent.

use std::sync::Arc;
use vstd::prelude::*;
use crate::errors::{ContractError, GasSource, TrapCause};
use crate::gas::{DEFAULT_GAS_LIMIT, GasConfig, HostState};
use crate::memory::{bytes_result, output_at, read_output};

verus! {

/// The value handed to a contract's entry point.
#[derive(Clone, Debug, PartialEq, Eq)]
pub struct InputData {
    pub name: String,
}

/// The value a contract's entry point hands back.
#[derive(Clone, Debug, PartialEq, Eq)]
pub struct ContractOutput {
    pub message: String,
}

/// What one budget had at the start of a call and how much of it the call
/// spent.
#[derive(Clone, Copy, Debug, PartialEq, Eq, Structural)]
pub struct GasReceipt {
    pub initial: u64,
    pub consumed: u64,
}

impl GasReceipt {
    /// The receipt of a budget that went from `initial` to `remaining`.
    pub fn new(initial: u64, remaining: u64) -> (r: GasReceipt)
        requires
            remaining <= initial,
        ensures
            r.initial == initial,
            r.consumed == initial - remaining,
            r.consumed <= r.initial,
    {
        GasReceipt { initial, consumed: initial - remaining }
    }

    /// The receipt of a budget that went from `initial` to `remaining`, or
    /// `None` where the budget grew, which no call can make it do.
    pub fn measure(initial: u64, remaining: u64) -> (r: Option<GasReceipt>)
        ensures
            r is Some <==> remaining <= initial,
            r is Some ==> r->Some_0.initial == initial && r->Some_0.consumed == initial - remaining,
    {
        if remaining > initial {
            None
        } else {
            Some(GasReceipt::new(initial, remaining))
        }
    }

    /// The receipt of a host ledger: its limit, and what it has spent.
    pub fn of_ledger(state: &HostState) -> (r: GasReceipt)
        requires
            state.wf(),
        ensures
            r.initial == state.limit(),
            r.consumed == state.limit() - state.left(),
    {
        GasReceipt { initial: state.gas_limit(), consumed: state.consumed() }
    }
}

/// What a finished call yields before its payload is decoded: the payload's
/// bytes, what the engine's own counter spent, and what the host ledger spent.
#[derive(Clone, Debug, PartialEq, Eq)]
pub struct CallOutcome {
    pub payload: Vec<u8>,
    pub compute: GasReceipt,
    pub host: GasReceipt,
}

/// Collects what a call returned: the payload that the record at
/// `output_ptr` describes, read only from inside `mem`, with both receipts.
pub fn finish_call(mem: &[u8], output_ptr: u32, compute: GasReceipt, state: &HostState) -> (r: Result<
    CallOutcome,
    ContractError,
>)
    requires
        state.wf(),
    ensures
        output_at(mem@, output_ptr as nat) is Err ==> r == Err::<CallOutcome, ContractError>(
            output_at(mem@, output_ptr as nat)->Err_0,
        ),
        output_at(mem@, output_ptr as nat) is Ok ==> r is Ok && r->Ok_0.payload@ == output_at(
            mem@,
            output_ptr as nat,
        )->Ok_0 && r->Ok_0.compute == compute && r->Ok_0.host.initial == state.limit()
            && r->Ok_0.host.consumed == state.limit() - state.left(),
{
    let payload = read_output(mem, output_ptr);
    match payload {
        Ok(payload) => Ok(CallOutcome { payload, compute, host: GasReceipt::of_ledger(state) }),
        Err(e) => Err(e),
    }
}

/// The error for a call that the engine stopped: out of fuel, where its own
/// counter ran dry with `fuel_left` units left (the next instruction needed
/// at least one more), else a trap with the engine's own words.
pub fn classify_trap(out_of_fuel: bool, fuel_left: u64, message: String) -> (r: ContractError)
    ensures
        out_of_fuel ==> r == (ContractError::OutOfGas {
            required: if fuel_left < u64::MAX { (fuel_left + 1) as u64 } else { u64::MAX },
            remaining: fuel_left,
            source: GasSource::Engine,
        }),
        !out_of_fuel ==> r == (ContractError::GuestTrap(TrapCause::Fault(message))),
{
    if out_of_fuel {
        let required = if fuel_left < u64::MAX { fuel_left + 1 } else { u64::MAX };
        ContractError::OutOfGas { required, remaining: fuel_left, source: GasSource::Engine }
    } else {
        ContractError::GuestTrap(TrapCause::Fault(message))
    }
}

/// A contract module, named by its path, with the budget each call gets.
#[derive(Debug)]
pub struct ContractEngine {
    contract_path: String,
    gas_limit: u64,
    gas_config: GasConfig,
}

impl ContractEngine {
    /// Every cost of an engine's table is positive.
    #[verifier::type_invariant]
    spec fn costs_positive(&self) -> bool {
        self.gas_config.wf()
    }

    pub closed spec fn path(&self) -> String {
        self.contract_path
    }

    pub closed spec fn limit(&self) -> u64 {
        self.gas_limit
    }

    pub closed spec fn costs(&self) -> GasConfig {
        self.gas_config
    }

    /// An engine for the module at `contract_path`, with the default budget
    /// and costs.
    pub fn new(contract_path: String) -> (r: Arc<Self>)
        ensures
            r.path() == contract_path,
            r.limit() == DEFAULT_GAS_LIMIT,
            r.costs() == GasConfig::default_costs_spec(),
    {
        Arc::new(ContractEngine { contract_path, gas_limit: DEFAULT_GAS_LIMIT, gas_config: GasConfig::default_costs() })
    }

    /// An engine for the module at `contract_path` with its own budget.
    pub fn with_budget(contract_path: String, gas_limit: u64, gas_config: GasConfig) -> (r: Arc<Self>)
        requires
            gas_config.wf(),
        ensures
            r.path() == contract_path,
            r.limit() == gas_limit,
            r.costs() == gas_config,
    {
        Arc::new(ContractEngine { contract_path, gas_limit, gas_config })
    }

    pub fn contract_path(&self) -> (r: &String)
        ensures
            *r == self.path(),
    {
        &self.contract_path
    }

    pub fn gas_limit(&self) -> (r: u64)
        ensures
            r == self.limit(),
    {
        self.gas_limit
    }

    /// The ledger of a new instance: nothing spent, whatever other instances
    /// of this module have spent, since the engine itself never changes.
    pub fn host_state(&self) -> (r: HostState)
        ensures
            r.wf(),
            r.left() == self.limit(),
            r.limit() == self.limit(),
            r.costs() == self.costs(),
            !r.is_exhausted(),
    {
        proof {
            use_type_invariant(self);
        }
        HostState::new(self.gas_limit, self.gas_config)
    }
}

} // verus!
