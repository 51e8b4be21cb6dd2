use contract_runner::bridge::{allocate, grant, pages_for, PAGE_SIZE};
use contract_runner::errors::{ContractError, GasSource, TrapCause};
use contract_runner::gas::{GasConfig, HostState, DEFAULT_GAS_LIMIT};

fn costs(page: u64) -> GasConfig {
    GasConfig { memory_page_cost: page, memory_read_cost: 1, memory_write_cost: 1, compute_cost: 1 }
}

#[test]
fn charges_sum_up() {
    let mut st = HostState::new(100, costs(1));
    let mut spent = 0u64;
    for c in [10u64, 20, 30] {
        assert_eq!(st.charge(c), Ok(()));
        spent += c;
        assert_eq!(st.gas_left(), 100 - spent);
    }
    assert_eq!(st.gas_left(), 40);
    assert_eq!(st.consumed(), 60);
    assert_eq!(st.gas_limit(), 100);
}

#[test]
fn refused_charge_leaves_budget() {
    let mut st = HostState::new(100, costs(1));
    assert_eq!(st.charge(60), Ok(()));
    assert_eq!(
        st.charge(41),
        Err(ContractError::OutOfGas { required: 41, remaining: 40, source: GasSource::HostCall })
    );
    assert_eq!(st.gas_left(), 40);
    assert!(st.is_exhausted_now());
}

#[test]
fn exhausted_ledger_refuses_everything() {
    let mut st = HostState::new(10, costs(1));
    assert!(st.charge(11).is_err());
    assert_eq!(
        st.charge(0),
        Err(ContractError::OutOfGas { required: 0, remaining: 10, source: GasSource::HostCall })
    );
    assert_eq!(st.gas_left(), 10);
}

#[test]
fn whole_budget_can_be_spent() {
    let mut st = HostState::new(DEFAULT_GAS_LIMIT, GasConfig::default_costs());
    assert_eq!(st.charge(DEFAULT_GAS_LIMIT), Ok(()));
    assert_eq!(st.gas_left(), 0);
    assert!(!st.is_exhausted_now());
    assert_eq!(st.charge(0), Ok(()));
    assert!(st.charge(1).is_err());
}

#[test]
fn pages_round_up() {
    assert_eq!(PAGE_SIZE, 65536);
    assert_eq!(pages_for(0), 0);
    assert_eq!(pages_for(1), 1);
    assert_eq!(pages_for(4096), 1);
    assert_eq!(pages_for(65536), 1);
    assert_eq!(pages_for(65537), 2);
    assert_eq!(pages_for(u32::MAX), 65536);
}

#[test]
fn allocate_zero_is_free() {
    let mut st = HostState::new(5000, costs(1000));
    assert_eq!(allocate(&mut st, 0), Ok(0));
    assert_eq!(st.gas_left(), 5000);
}

#[test]
fn allocate_charges_per_page() {
    let mut st = HostState::new(5000, costs(1000));
    assert_eq!(allocate(&mut st, 65537), Ok(2));
    assert_eq!(st.gas_left(), 3000);
    assert_eq!(allocate(&mut st, 10), Ok(1));
    assert_eq!(st.gas_left(), 2000);
}

#[test]
fn allocate_out_of_gas() {
    let mut st = HostState::new(1500, costs(1000));
    assert_eq!(
        allocate(&mut st, 65537),
        Err(ContractError::OutOfGas { required: 2000, remaining: 1500, source: GasSource::HostCall })
    );
    assert_eq!(st.gas_left(), 1500);
}

#[test]
fn allocate_cost_past_u64_is_refused() {
    let mut st = HostState::new(u64::MAX, costs(u64::MAX));
    assert_eq!(allocate(&mut st, 65536), Ok(1));
    assert_eq!(st.gas_left(), 0);
    let mut st = HostState::new(u64::MAX, costs(u64::MAX));
    assert_eq!(
        allocate(&mut st, 65537),
        Err(ContractError::OutOfGas { required: u64::MAX, remaining: u64::MAX, source: GasSource::HostCall })
    );
    assert_eq!(st.gas_left(), u64::MAX);
    assert!(st.is_exhausted_now());
}

#[test]
fn charge_product_multiplies() {
    let mut st = HostState::new(100, costs(1));
    assert_eq!(st.charge_product(7, 6), Ok(()));
    assert_eq!(st.gas_left(), 58);
    assert_eq!(
        st.charge_product(u64::MAX, 2),
        Err(ContractError::OutOfGas { required: u64::MAX, remaining: 58, source: GasSource::HostCall })
    );
    assert_eq!(st.gas_left(), 58);
}

#[test]
fn allocate_zero_after_refusal_traps() {
    let mut st = HostState::new(500, costs(1000));
    assert!(allocate(&mut st, 1).is_err());
    assert_eq!(
        allocate(&mut st, 0),
        Err(ContractError::OutOfGas { required: 0, remaining: 500, source: GasSource::HostCall })
    );
}

#[test]
fn grant_returns_old_size() {
    assert_eq!(grant(131072, true, 2), Ok(131072));
    assert_eq!(grant(0, true, 0), Ok(0));
}

#[test]
fn grant_reports_growth_failure() {
    assert_eq!(
        grant(131072, false, 2),
        Err(ContractError::GuestTrap(TrapCause::MemoryGrowth { pages: 2 }))
    );
    let huge = u32::MAX as u64 + 1;
    assert_eq!(
        grant(huge, true, 1),
        Err(ContractError::InvalidMemoryAccess { offset: huge, len: 0, memory_size: huge })
    );
}
