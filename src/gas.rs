//! The gas ledger: a budget for host services that only ever shrinks, and
//! that refuses every charge once a charge has been refused.

use vstd::prelude::*;
use crate::errors::{ContractError, GasSource};

verus! {

/// The budget a ledger starts with unless the caller sets another.
pub const DEFAULT_GAS_LIMIT: u64 = 1_000_000;

/// What each kind of host service costs.
#[derive(Clone, Copy, Debug, PartialEq, Eq, Structural)]
pub struct GasConfig {
    pub memory_page_cost: u64,
    pub memory_read_cost: u64,
    pub memory_write_cost: u64,
    pub compute_cost: u64,
}

impl GasConfig {
    /// Every cost is a positive integer.
    pub open spec fn wf(self) -> bool {
        self.memory_page_cost > 0 && self.memory_read_cost > 0 && self.memory_write_cost > 0
            && self.compute_cost > 0
    }

    /// The costs used where a deployment sets none.
    pub open spec fn default_costs_spec() -> GasConfig {
        GasConfig { memory_page_cost: 1000, memory_read_cost: 1, memory_write_cost: 1, compute_cost: 1 }
    }

    pub fn default_costs() -> (r: GasConfig)
        ensures
            r == GasConfig::default_costs_spec(),
            r.wf(),
    {
        GasConfig { memory_page_cost: 1000, memory_read_cost: 1, memory_write_cost: 1, compute_cost: 1 }
    }
}

/// The state that host functions of one instance see: its ledger.
#[derive(Clone, Copy, Debug)]
pub struct HostState {
    gas_left: u64,
    gas_limit: u64,
    gas_config: GasConfig,
    exhausted: bool,
}

/// The sum of a sequence of charges.
pub open spec fn total(charges: Seq<u64>) -> nat
    decreases charges.len(),
{
    if charges.len() == 0 {
        0
    } else {
        total(charges.drop_last()) + charges.last() as nat
    }
}

impl HostState {
    pub closed spec fn left(self) -> nat {
        self.gas_left as nat
    }

    pub closed spec fn limit(self) -> nat {
        self.gas_limit as nat
    }

    pub closed spec fn costs(self) -> GasConfig {
        self.gas_config
    }

    /// Whether a charge has been refused: no later charge is accepted.
    pub closed spec fn is_exhausted(self) -> bool {
        self.exhausted
    }

    pub closed spec fn wf(self) -> bool {
        self.gas_left <= self.gas_limit
    }

    /// Whether a charge of `amount` is accepted.
    pub open spec fn accepts(self, amount: nat) -> bool {
        !self.is_exhausted() && amount <= self.left()
    }

    /// The ledger after a charge of `amount`, accepted or not.
    pub closed spec fn charged(self, amount: nat) -> HostState {
        if self.accepts(amount) {
            HostState { gas_left: (self.gas_left - amount) as u64, ..self }
        } else {
            HostState { exhausted: true, ..self }
        }
    }

    /// The ledger after a sequence of charges, in order.
    pub open spec fn charged_all(self, charges: Seq<u64>) -> HostState
        decreases charges.len(),
    {
        if charges.len() == 0 {
            self
        } else {
            self.charged_all(charges.drop_last()).charged(charges.last() as nat)
        }
    }

    /// What `charged` does to the observable parts of the ledger.
    pub proof fn lemma_charged(self, amount: nat)
        requires
            self.wf(),
        ensures
            self.charged(amount).wf(),
            self.charged(amount).limit() == self.limit(),
            self.charged(amount).costs() == self.costs(),
            self.accepts(amount) ==> self.charged(amount).left() == self.left() - amount
                && !self.charged(amount).is_exhausted(),
            !self.accepts(amount) ==> self.charged(amount).left() == self.left()
                && self.charged(amount).is_exhausted(),
    {
    }

    /// A fresh ledger: all of `gas_limit` is left.
    pub fn new(gas_limit: u64, gas_config: GasConfig) -> (r: HostState)
        requires
            gas_config.wf(),
        ensures
            r.wf(),
            r.left() == gas_limit,
            r.limit() == gas_limit,
            r.costs() == gas_config,
            !r.is_exhausted(),
    {
        HostState { gas_left: gas_limit, gas_limit, gas_config, exhausted: false }
    }

    /// Takes `amount` from the budget, or refuses it: then nothing is taken,
    /// the ledger is exhausted, and the error tells what was left.
    pub fn charge(&mut self, amount: u64) -> (r: Result<(), ContractError>)
        requires
            old(self).wf(),
        ensures
            *final(self) == old(self).charged(amount as nat),
            final(self).wf(),
            final(self).limit() == old(self).limit(),
            final(self).costs() == old(self).costs(),
            r is Ok <==> old(self).accepts(amount as nat),
            r is Ok ==> final(self).left() == old(self).left() - amount && !final(self).is_exhausted(),
            r is Err ==> final(self).left() == old(self).left() && final(self).is_exhausted() && r
                == Err::<(), ContractError>(
                ContractError::OutOfGas {
                    required: amount,
                    remaining: old(self).left() as u64,
                    source: GasSource::HostCall,
                },
            ),
    {
        if self.exhausted || amount > self.gas_left {
            self.exhausted = true;
            return Err(
                ContractError::OutOfGas {
                    required: amount,
                    remaining: self.gas_left,
                    source: GasSource::HostCall,
                },
            );
        }
        self.gas_left = self.gas_left - amount;
        Ok(())
    }

    /// Takes `count * unit` from the budget, or refuses it as `charge`
    /// does. A product too large for a `u64` is more than any budget holds:
    /// it is refused, and the error reports it as `u64::MAX`.
    pub fn charge_product(&mut self, count: u64, unit: u64) -> (r: Result<(), ContractError>)
        requires
            old(self).wf(),
        ensures
            *final(self) == old(self).charged(count as nat * unit as nat),
            final(self).wf(),
            final(self).limit() == old(self).limit(),
            final(self).costs() == old(self).costs(),
            r is Ok <==> old(self).accepts(count as nat * unit as nat),
            r is Ok ==> final(self).left() == old(self).left() - count * unit && !final(self).is_exhausted(),
            r is Err ==> final(self).left() == old(self).left() && final(self).is_exhausted() && r
                == Err::<(), ContractError>(
                ContractError::OutOfGas {
                    required: if count * unit <= u64::MAX { (count * unit) as u64 } else { u64::MAX },
                    remaining: old(self).left() as u64,
                    source: GasSource::HostCall,
                },
            ),
    {
        match count.checked_mul(unit) {
            Some(amount) => self.charge(amount),
            None => {
                assert(count * unit > u64::MAX);
                self.exhausted = true;
                Err(ContractError::OutOfGas { required: u64::MAX, remaining: self.gas_left, source: GasSource::HostCall })
            },
        }
    }

    pub fn gas_left(&self) -> (r: u64)
        ensures
            r == self.left(),
    {
        self.gas_left
    }

    pub fn gas_limit(&self) -> (r: u64)
        ensures
            r == self.limit(),
    {
        self.gas_limit
    }

    pub fn gas_config(&self) -> (r: GasConfig)
        ensures
            r == self.costs(),
    {
        self.gas_config
    }

    pub fn is_exhausted_now(&self) -> (r: bool)
        ensures
            r == self.is_exhausted(),
    {
        self.exhausted
    }

    /// How much of the budget has been spent.
    pub fn consumed(&self) -> (r: u64)
        requires
            self.wf(),
        ensures
            r == self.limit() - self.left(),
    {
        self.gas_limit - self.gas_left
    }
}

/// After any sequence of charges the budget has only shrunk and the limit
/// stands; where the charges together fit in what was left and the ledger
/// was not exhausted, each was accepted and exactly their sum is gone.
pub proof fn lemma_charges_sum(start: HostState, charges: Seq<u64>)
    requires
        start.wf(),
    ensures
        start.charged_all(charges).wf(),
        start.charged_all(charges).limit() == start.limit(),
        start.charged_all(charges).left() <= start.left(),
        !start.is_exhausted() && total(charges) <= start.left() ==> start.charged_all(charges).left()
            == start.left() - total(charges) && !start.charged_all(charges).is_exhausted(),
    decreases charges.len(),
{
    if charges.len() > 0 {
        let prefix = charges.drop_last();
        lemma_charges_sum(start, prefix);
        start.charged_all(prefix).lemma_charged(charges.last() as nat);
    }
}

} // verus!
