use toy_payments_engine::{Account, Amount};

#[test]
fn test_amount_new_keeps_mantissa_and_scale() {
    let a = Amount::new(-12345678, 7).unwrap();
    assert_eq!(a.mantissa(), -12345678);
    assert_eq!(a.scale(), 7);
    assert!(a.is_negative());
    assert!(!Amount::new(0, 3).unwrap().is_negative());
    assert!(!Amount::new(1, 28).unwrap().is_negative());
}

#[test]
fn test_amount_new_refuses_what_is_out_of_the_domain() {
    let max: i128 = 79_228_162_514_264_337_593_543_950_335;
    assert!(Amount::new(max, 0).is_some());
    assert!(Amount::new(-max, 28).is_some());
    assert!(Amount::new(max + 1, 0).is_none());
    assert!(Amount::new(-max - 1, 0).is_none());
    assert!(Amount::new(1, 29).is_none());
    assert!(Amount::new(i128::MAX, 0).is_none());
    assert!(Amount::new(i128::MIN, 0).is_none());
    assert!(Amount::new(0, u32::MAX).is_none());
}

#[test]
fn test_amount_constants() {
    let max: i128 = 79_228_162_514_264_337_593_543_950_335;
    assert_eq!(Amount::max().mantissa(), max);
    assert_eq!(Amount::max().scale(), 0);
    assert_eq!(Amount::zero().mantissa(), 0);
    assert_eq!(Amount::zero().scale(), 0);
    assert_eq!(Amount::default().mantissa(), 0);
    assert_eq!(Amount::from_int(-42).mantissa(), -42);
    assert_eq!(Amount::from_int(i64::MIN).mantissa(), i64::MIN as i128);
    assert_eq!(Amount::from_int(7).scale(), 0);
}

#[test]
fn test_amounts_are_equal_as_numbers() {
    assert_eq!(Amount::new(10, 1).unwrap(), Amount::new(1, 0).unwrap());
    assert_eq!(Amount::new(1, 0).unwrap(), Amount::new(1000, 3).unwrap());
    assert_eq!(Amount::new(0, 28).unwrap(), Amount::zero());
    assert_eq!(Amount::new(-1500, 3).unwrap(), Amount::new(-15, 1).unwrap());
    assert_eq!(
        Amount::new(10_000_000_000_000_000_000_000_000_000, 28).unwrap(),
        Amount::from_int(1)
    );
    assert_ne!(Amount::new(10, 1).unwrap(), Amount::new(10, 0).unwrap());
    assert_ne!(Amount::new(1, 0).unwrap(), Amount::new(-1, 0).unwrap());
    assert_ne!(Amount::new(1, 28).unwrap(), Amount::zero());
    assert_ne!(Amount::max(), Amount::new(1, 28).unwrap());
    assert_ne!(Amount::new(1, 28).unwrap(), Amount::max());
    assert_ne!(
        Amount::new(7_922_816_251_426_433_759_354_395_034, 0).unwrap(),
        Amount::new(79_228_162_514_264_337_593_543_950_335, 1).unwrap()
    );
    assert_eq!(
        Amount::new(7_922_816_251_426_433_759_354_395_033, 0).unwrap(),
        Amount::new(79_228_162_514_264_337_593_543_950_330, 1).unwrap()
    );
}

#[test]
fn test_checked_add_gives_the_decimal_sum() {
    let a = Amount::new(15005, 3).unwrap();
    let b = Amount::new(24996, 3).unwrap();
    let sum = a.checked_add(b).unwrap();
    assert_eq!(sum.mantissa(), 40001);
    assert_eq!(sum.scale(), 3);

    let c = Amount::new(-5, 0).unwrap();
    let d = Amount::new(25, 1).unwrap();
    let sum = c.checked_add(d).unwrap();
    assert_eq!(sum.mantissa(), -25);
    assert_eq!(sum.scale(), 1);

    assert!(Amount::max().checked_add(Amount::from_int(1)).is_none());
    assert_eq!(
        Amount::max().checked_add(Amount::from_int(-1)).unwrap().mantissa(),
        79_228_162_514_264_337_593_543_950_334
    );
}

#[test]
fn test_checked_sub_gives_the_decimal_difference() {
    let a = Amount::new(40001, 3).unwrap();
    let b = Amount::new(10002, 3).unwrap();
    let difference = a.checked_sub(b).unwrap();
    assert_eq!(difference.mantissa(), 29999);
    assert_eq!(difference.scale(), 3);

    let difference = Amount::zero().checked_sub(Amount::from_int(1)).unwrap();
    assert_eq!(difference.mantissa(), -1);
    assert!(difference.is_negative());

    let min = Amount::zero().checked_sub(Amount::max()).unwrap();
    assert!(min.checked_sub(Amount::from_int(1)).is_none());
    assert!(!Amount::from_int(3).checked_sub(Amount::from_int(3)).unwrap().is_negative());
}

#[test]
fn test_account_total() {
    let account = Account::new(Amount::new(905, 2).unwrap(), Amount::from_int(1), false);
    assert_eq!(account.total(), Some(Amount::new(1005, 2).unwrap()));
    let full = Account::new(Amount::max(), Amount::from_int(1), false);
    assert_eq!(full.total(), None);
    assert_eq!(Account::default().total(), Some(Amount::zero()));
}

#[test]
fn test_accounts_are_equal_as_numbers() {
    let a = Account::new(Amount::new(15, 1).unwrap(), Amount::new(0, 1).unwrap(), false);
    let b = Account::new(Amount::new(150, 2).unwrap(), Amount::zero(), false);
    assert_eq!(a, b);
    assert_ne!(a, Account::new(Amount::new(150, 2).unwrap(), Amount::zero(), true));
    assert_ne!(a, Account::new(Amount::new(151, 2).unwrap(), Amount::zero(), false));
    assert_ne!(a, Account::new(Amount::new(15, 1).unwrap(), Amount::from_int(1), false));
    assert_eq!(a.available, Amount::new(15, 1).unwrap());
    assert!(!a.locked);
}

#[test]
fn test_sum_is_rounded_where_it_does_not_fit() {
    let four_tenths = Amount::new(4, 1).unwrap();
    let five_tenths = Amount::new(5, 1).unwrap();
    assert_eq!(Amount::max().checked_add(four_tenths), Some(Amount::max()));
    assert_eq!(Amount::max().checked_sub(four_tenths), Some(Amount::max()));
    assert_eq!(Amount::max().checked_add(five_tenths), None);
    let below = Amount::new(79_228_162_514_264_337_593_543_950_334, 0).unwrap();
    assert_eq!(below.checked_add(five_tenths), Some(below));
}
