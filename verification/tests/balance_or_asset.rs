use liquid_staking::types::BalanceOrAsset;

type Value = BalanceOrAsset<u64, u32, u64>;

fn balance(amount: u64) -> Value {
    BalanceOrAsset::Balance { amount }
}

fn asset(id: u32, amount: u64) -> Value {
    BalanceOrAsset::Asset { id, amount }
}

#[test]
fn greater_or_equal_compares_amounts_of_one_kind() {
    assert!(balance(5).is_greater_or_equal(&balance(3)));
    assert!(balance(3).is_greater_or_equal(&balance(3)));
    assert!(!balance(2).is_greater_or_equal(&balance(3)));
    assert!(asset(1, 9).is_greater_or_equal(&asset(2, 4)));
    assert!(!asset(1, 3).is_greater_or_equal(&asset(1, 4)));
}

#[test]
fn balance_and_asset_never_compare() {
    assert!(!balance(100).is_greater_or_equal(&asset(1, 1)));
    assert!(!asset(1, 100).is_greater_or_equal(&balance(1)));
}

#[test]
fn same_currency_by_kind_and_id() {
    assert!(balance(1).is_same_currency(&balance(2)));
    assert!(asset(7, 1).is_same_currency(&asset(7, 2)));
    assert!(!asset(7, 1).is_same_currency(&asset(8, 1)));
    assert!(!balance(1).is_same_currency(&asset(7, 1)));
    assert!(!asset(7, 1).is_same_currency(&balance(1)));
}

#[test]
fn from_makes_a_balance() {
    let v: Value = BalanceOrAsset::from(42u64);
    assert_eq!(v, balance(42));
}

#[test]
fn into_amount_converts_either_kind() {
    let b: u128 = balance(42).into_amount();
    assert_eq!(b, 42);
    let a: u128 = asset(3, 17).into_amount();
    assert_eq!(a, 17);
    let w: BalanceOrAsset<u32, u8, u16> = BalanceOrAsset::Asset { id: 1, amount: 65535 };
    let x: u64 = w.into_amount();
    assert_eq!(x, 65535);
}
