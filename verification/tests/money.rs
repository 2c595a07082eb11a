use graphite_services::money::Money;
use graphite_services::money::MoneyError;

#[test]
fn money_is_a_non_negative_amount() {
    assert_eq!(Money::zero().get(), 0);
    assert_eq!(Money::new(1_500).unwrap().get(), 1_500);
    assert_eq!(Money::new(0).unwrap(), Money::zero());
    assert_eq!(Money::new(-1), Err(MoneyError::Negative));
    assert_eq!(Money::new(i64::MAX).unwrap().get(), i64::MAX);
}
