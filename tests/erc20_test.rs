use casper_ledger::{Address, ERC20Event, Error, ERC20, U256};

const NAME: &str = "ERC20";
const SYMBOL: &str = "ERC";
const DECIMALS: u8 = 8;

fn total_supply() -> U256 {
    U256::from_u64(1_000_000_000_000_000)
}

fn ali() -> Address {
    Address::account([1u8; 32])
}

fn bob() -> Address {
    Address::account([2u8; 32])
}

fn joe() -> Address {
    Address::account([3u8; 32])
}

fn deployed() -> ERC20 {
    ERC20::new(
        NAME.to_string(),
        SYMBOL.to_string(),
        DECIMALS,
        total_supply(),
        ali(),
    )
}

#[test]
fn should_deploy() {
    let contract = deployed();

    assert_eq!(contract.name(), NAME);
    assert_eq!(contract.symbol(), SYMBOL);
    assert_eq!(contract.decimals(), DECIMALS);
    assert_eq!(contract.total_supply(), total_supply());

    assert_eq!(contract.balance_of(ali()), total_supply());
}

#[test]
fn should_transfer_token() {
    let mut contract = deployed();

    let amount = U256::from_u64(1000_000_000_000);
    contract.transfer(ali(), bob(), amount).unwrap();
    assert_eq!(contract.balance_of(bob()), amount);
}

#[test]
fn should_not_transfer_token_to_zero_address() {
    let mut contract = deployed();

    let amount = U256::from_u64(1000_000_000_000);
    assert_eq!(
        contract.transfer(ali(), Address::null(), amount),
        Err(Error::ZeroAddress)
    );
}

#[test]
fn should_not_transfer_bigger_amount_than_balance() {
    let mut contract = deployed();

    let amount = total_supply().checked_add(&U256::from_u64(10)).unwrap();
    assert_eq!(
        contract.transfer(ali(), bob(), amount),
        Err(Error::InsufficientBalance)
    );
}

#[test]
fn should_approve_token() {
    let mut contract = deployed();

    let amount = U256::from_u64(1000_000_000_000);
    contract.approve(ali(), bob(), amount).unwrap();
    assert_eq!(contract.get_allowance(ali(), bob()), amount);
}

#[test]
fn should_not_approve_token_to_zero_address() {
    let mut contract = deployed();

    let amount = U256::from_u64(1000_000_000_000);
    assert_eq!(
        contract.approve(ali(), Address::null(), amount),
        Err(Error::ZeroAddress)
    );
}

fn scenario_token() -> ERC20 {
    ERC20::new(
        "Token".to_string(),
        "TKN".to_string(),
        18,
        U256::from_u64(1_000_000),
        ali(),
    )
}

#[test]
fn transfer_approve_and_transfer_from_scenario() {
    let carol = Address::account([4u8; 32]);
    let dave = Address::account([5u8; 32]);
    let mut t = scenario_token();

    t.transfer(ali(), bob(), U256::from_u64(1000)).unwrap();
    assert_eq!(t.balance_of(ali()), U256::from_u64(999_000));
    assert_eq!(t.balance_of(bob()), U256::from_u64(1000));
    assert_eq!(t.total_supply(), U256::from_u64(1_000_000));

    t.approve(ali(), carol, U256::from_u64(500)).unwrap();
    t.transfer_from(carol, ali(), dave, U256::from_u64(500)).unwrap();
    assert_eq!(t.get_allowance(ali(), carol), U256::zero());
    assert_eq!(t.balance_of(dave), U256::from_u64(500));
    assert_eq!(t.balance_of(ali()), U256::from_u64(998_500));

    assert_eq!(
        t.transfer_from(carol, ali(), dave, U256::from_u64(1)),
        Err(Error::InsufficientAllowance)
    );
    assert_eq!(t.balance_of(ali()), U256::from_u64(998_500));
    assert_eq!(t.balance_of(dave), U256::from_u64(500));
    assert_eq!(t.balance_of(bob()), U256::from_u64(1000));
}

#[test]
fn supply_equals_sum_of_balances_after_mixed_calls() {
    let mut t = scenario_token();
    t.transfer(ali(), bob(), U256::from_u64(300)).unwrap();
    t._mint(joe(), U256::from_u64(50)).unwrap();
    t._burn(ali(), U256::from_u64(20)).unwrap();
    t.transfer(bob(), joe(), U256::from_u64(100)).unwrap();
    assert_eq!(t.balance_of(ali()), U256::from_u64(999_680));
    assert_eq!(t.balance_of(bob()), U256::from_u64(200));
    assert_eq!(t.balance_of(joe()), U256::from_u64(150));
    assert_eq!(t.total_supply(), U256::from_u64(1_000_030));
}

#[test]
fn self_transfer_leaves_balance_unchanged() {
    let mut t = scenario_token();
    t.transfer(ali(), ali(), U256::from_u64(400)).unwrap();
    assert_eq!(t.balance_of(ali()), U256::from_u64(1_000_000));
    assert_eq!(t.total_supply(), U256::from_u64(1_000_000));
    assert_eq!(t.events().len(), 1);
}

#[test]
fn overdraft_fails_and_changes_nothing() {
    let mut t = scenario_token();
    t.approve(bob(), joe(), U256::from_u64(10)).unwrap();
    let events_before = t.events().len();
    assert_eq!(
        t.transfer(bob(), joe(), U256::from_u64(1)),
        Err(Error::InsufficientBalance)
    );
    assert_eq!(t._burn(bob(), U256::from_u64(1)), Err(Error::InsufficientBalance));
    assert_eq!(
        t.transfer_from(joe(), bob(), ali(), U256::from_u64(5)),
        Err(Error::InsufficientBalance)
    );
    assert_eq!(t.get_allowance(bob(), joe()), U256::from_u64(10));
    assert_eq!(t.balance_of(bob()), U256::zero());
    assert_eq!(t.events().len(), events_before);
}

#[test]
fn null_participants_are_rejected() {
    let null = Address::null();
    let mut t = scenario_token();
    assert_eq!(t.transfer(ali(), null, U256::from_u64(1)), Err(Error::ZeroAddress));
    assert_eq!(t.transfer(null, ali(), U256::from_u64(1)), Err(Error::ZeroAddress));
    assert_eq!(t.approve(null, bob(), U256::from_u64(1)), Err(Error::ZeroAddress));
    assert_eq!(t._mint(null, U256::from_u64(1)), Err(Error::ZeroAddress));
    assert_eq!(t._burn(null, U256::from_u64(1)), Err(Error::ZeroAddress));
    assert_eq!(t.events().len(), 0);
    assert_eq!(t.total_supply(), U256::from_u64(1_000_000));
}

#[test]
fn unlimited_allowance_is_never_decremented() {
    let mut t = scenario_token();
    t.approve(ali(), bob(), U256::max_value()).unwrap();
    t.transfer_from(bob(), ali(), joe(), U256::from_u64(1_000_000)).unwrap();
    assert_eq!(t.get_allowance(ali(), bob()), U256::max_value());
    assert_eq!(t.balance_of(joe()), U256::from_u64(1_000_000));
}

#[test]
fn allowance_decrements_by_spent_amount() {
    let mut t = scenario_token();
    t.approve(ali(), bob(), U256::from_u64(700)).unwrap();
    t.transfer_from(bob(), ali(), joe(), U256::from_u64(250)).unwrap();
    assert_eq!(t.get_allowance(ali(), bob()), U256::from_u64(450));
    assert_eq!(t.get_allowance(bob(), ali()), U256::zero());
}

#[test]
fn increase_and_decrease_allowance() {
    let mut t = scenario_token();
    t.increase_allowance(ali(), bob(), U256::from_u64(100)).unwrap();
    t.increase_allowance(ali(), bob(), U256::from_u64(20)).unwrap();
    assert_eq!(t.get_allowance(ali(), bob()), U256::from_u64(120));
    t.decrease_allowance(ali(), bob(), U256::from_u64(30)).unwrap();
    assert_eq!(t.get_allowance(ali(), bob()), U256::from_u64(90));
    assert_eq!(
        t.decrease_allowance(ali(), bob(), U256::from_u64(91)),
        Err(Error::InsufficientAllowance)
    );
    assert_eq!(t.get_allowance(ali(), bob()), U256::from_u64(90));
    assert_eq!(
        t.events().last(),
        Some(&ERC20Event::Approval {
            owner: ali(),
            spender: bob(),
            value: U256::from_u64(90)
        })
    );
}

#[test]
fn events_record_mint_and_burn() {
    let mut t = scenario_token();
    t._mint(bob(), U256::from_u64(5)).unwrap();
    t._burn(bob(), U256::from_u64(2)).unwrap();
    assert_eq!(
        t.events()[0],
        ERC20Event::Transfer {
            from: Address::null(),
            to: bob(),
            value: U256::from_u64(5)
        }
    );
    assert_eq!(
        t.events()[1],
        ERC20Event::Transfer {
            from: bob(),
            to: Address::null(),
            value: U256::from_u64(2)
        }
    );
    assert_eq!(t.events()[0].event_type(), "transfer");
    assert_eq!(t.balance_of(bob()), U256::from_u64(3));
}

#[test]
fn approve_is_absolute_and_repeatable() {
    let mut t = scenario_token();
    t.approve(ali(), bob(), U256::from_u64(40)).unwrap();
    t.approve(ali(), bob(), U256::from_u64(40)).unwrap();
    assert_eq!(t.get_allowance(ali(), bob()), U256::from_u64(40));
    t.approve(ali(), bob(), U256::from_u64(7)).unwrap();
    assert_eq!(t.get_allowance(ali(), bob()), U256::from_u64(7));
    assert_eq!(t.events()[0].event_type(), "approval");
}
