//! The host function `host.allocate`: how many pages a request needs, what
//! it costs, and what the guest gets back once the memory has grown.

use vstd::prelude::*;
use crate::errors::{ContractError, GasSource, TrapCause};
use crate::gas::HostState;

verus! {

/// The sandbox's page granularity in bytes.
pub const PAGE_SIZE: u64 = 65536;

/// The number of pages that hold `size` bytes: `size / PAGE_SIZE` rounded up.
pub open spec fn pages_needed(size: nat) -> nat {
    ((size + 65535) / 65536) as nat
}

/// What growing by `pages` pages costs.
pub open spec fn page_charge(pages: nat, page_cost: nat) -> nat {
    pages * page_cost
}

/// What `host.allocate` hands back once the memory has (or has not) grown
/// by `pages`: the offset where the new region begins, which is the memory's
/// size before growing.
pub open spec fn granted(size_before: u64, grew: bool, pages: u64) -> Result<u32, ContractError> {
    if !grew {
        Err(ContractError::GuestTrap(TrapCause::MemoryGrowth { pages }))
    } else if size_before > u32::MAX {
        Err(ContractError::InvalidMemoryAccess { offset: size_before, len: 0, memory_size: size_before })
    } else {
        Ok(size_before as u32)
    }
}

/// The number of pages that hold `size` bytes.
pub fn pages_for(size: u32) -> (r: u64)
    ensures
        r == pages_needed(size as nat),
        r * 65536 >= size,
        r > 0 ==> (r - 1) * 65536 < size,
{
    let r: u64 = (size as u64 + 65535) / PAGE_SIZE;
    assert(r * 65536 >= size && (r > 0 ==> (r - 1) * 65536 < size)) by (nonlinear_arith)
        requires
            r == (size + 65535) / 65536,
    ;
    r
}

/// Handles a guest's request for `size` bytes (its `i32` argument read as
/// unsigned): charges the ledger `pages * memory_page_cost` for the pages
/// that hold them and returns how many pages the memory must grow by. A
/// refused charge leaves the budget as it was and becomes the guest's trap.
pub fn allocate(state: &mut HostState, size: u32) -> (r: Result<u64, ContractError>)
    requires
        old(state).wf(),
    ensures
        ({
            let cost = page_charge(pages_needed(size as nat), old(state).costs().memory_page_cost as nat);
            &&& *final(state) == old(state).charged(cost)
            &&& final(state).wf()
            &&& final(state).limit() == old(state).limit()
            &&& final(state).costs() == old(state).costs()
            &&& r is Ok <==> !old(state).is_exhausted() && cost <= old(state).left()
            &&& r is Ok ==> r->Ok_0 == pages_needed(size as nat) && final(state).left() == old(state).left()
                - cost
            &&& r is Err ==> final(state).left() == old(state).left() && final(state).is_exhausted() && r
                == Err::<u64, ContractError>(
                ContractError::OutOfGas {
                    required: if cost <= u64::MAX { cost as u64 } else { u64::MAX },
                    remaining: old(state).left() as u64,
                    source: GasSource::HostCall,
                },
            )
        }),
{
    let pages = pages_for(size);
    let page_cost = state.gas_config().memory_page_cost;
    match state.charge_product(pages, page_cost) {
        Ok(()) => Ok(pages),
        Err(e) => Err(e),
    }
}

/// What `host.allocate` returns once the memory has (or has not) grown by
/// `pages`. A memory that did not grow traps the guest, with a cause of its
/// own that tells it apart from running out of gas.
pub fn grant(size_before: u64, grew: bool, pages: u64) -> (r: Result<u32, ContractError>)
    ensures
        r == granted(size_before, grew, pages),
        !grew ==> r is Err && r->Err_0 is GuestTrap,
{
    if !grew {
        Err(ContractError::GuestTrap(TrapCause::MemoryGrowth { pages }))
    } else if size_before > u32::MAX as u64 {
        Err(ContractError::InvalidMemoryAccess { offset: size_before, len: 0, memory_size: size_before })
    } else {
        Ok(size_before as u32)
    }
}

/// A request for zero bytes, on a ledger that has refused nothing yet, asks
/// for no page, is charged nothing, leaves the ledger as it was, and hands
/// back the memory's size before the (empty) growth.
pub proof fn lemma_allocate_zero(state: HostState, size_before: u64)
    requires
        state.wf(),
        !state.is_exhausted(),
        size_before <= u32::MAX,
    ensures
        pages_needed(0) == 0,
        page_charge(pages_needed(0), state.costs().memory_page_cost as nat) == 0,
        state.accepts(0),
        state.charged(0).left() == state.left(),
        !state.charged(0).is_exhausted(),
        granted(size_before, true, 0) == Ok::<u32, ContractError>(size_before as u32),
{
    state.lemma_charged(0);
}

} // verus!
