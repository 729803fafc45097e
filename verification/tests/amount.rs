use namada_rest::amount::Amount;

#[test]
fn amount_text_round_trip() {
    let amount = Amount::parse("1000000").expect("decimal text");
    assert_eq!(amount.to_string(), "1000000");
    assert_eq!(amount, Amount::from_u64(1_000_000));
}

#[test]
fn amount_round_trip_beyond_machine_words() {
    let text = "115792089237316195423570985008687907853269984665640564039457584007913129639935";
    let amount = Amount::parse(text).expect("decimal text");
    assert_eq!(amount.to_string(), text);
    let longer = format!("{}{}", text, text);
    let amount = Amount::parse(&longer).expect("decimal text");
    assert_eq!(amount.to_string(), longer);
}

#[test]
fn amount_zero() {
    assert_eq!(Amount::zero().to_string(), "0");
    assert_eq!(Amount::from_u64(0).to_string(), "0");
    assert_eq!(Amount::parse("0"), Some(Amount::zero()));
    assert!(Amount::zero().is_zero());
    assert!(!Amount::from_u64(1).is_zero());
}

#[test]
fn amount_from_u64_extremes() {
    assert_eq!(Amount::from_u64(7).to_string(), "7");
    assert_eq!(Amount::from_u64(10).to_string(), "10");
    assert_eq!(Amount::from_u64(u64::MAX).to_string(), "18446744073709551615");
}

#[test]
fn amount_parse_ignores_zeros_in_front() {
    assert_eq!(Amount::parse("007"), Some(Amount::from_u64(7)));
    assert_eq!(Amount::parse("000"), Some(Amount::zero()));
    assert_eq!(Amount::parse("007").map(|a| a.to_string()), Some("7".to_string()));
}

#[test]
fn amount_parse_refuses_what_is_not_decimal() {
    assert_eq!(Amount::parse(""), None);
    assert_eq!(Amount::parse("12a"), None);
    assert_eq!(Amount::parse("-1"), None);
    assert_eq!(Amount::parse("+1"), None);
    assert_eq!(Amount::parse("1.5"), None);
    assert_eq!(Amount::parse(" 1"), None);
    assert_eq!(Amount::parse("١٢"), None);
}

#[test]
fn amount_order() {
    let small = Amount::from_u64(999);
    let large = Amount::from_u64(1000);
    assert!(small.le(&large));
    assert!(!large.le(&small));
    assert!(small.le(&small));
    assert!(Amount::zero().le(&small));
    assert!(!small.le(&Amount::zero()));
    assert!(Amount::from_u64(1299).le(&Amount::from_u64(1300)));
    assert!(!Amount::from_u64(2100).le(&Amount::from_u64(1999)));
}

#[test]
fn amount_mul_add_small() {
    assert_eq!(Amount::from_u64(300).mul_add_small(2, 2), Amount::from_u64(602));
    assert_eq!(Amount::from_u64(300).mul_add_small(0, 0), Amount::zero());
    assert_eq!(Amount::zero().mul_add_small(5, 17), Amount::from_u64(17));
    assert_eq!(
        Amount::from_u64(u64::MAX).mul_add_small(u64::MAX, u64::MAX).to_string(),
        "340282366920938463444927863358058659840"
    );
}

#[test]
fn amount_div_small() {
    let (quotient, rest) = Amount::from_u64(602).div_small(3);
    assert_eq!(quotient, Amount::from_u64(200));
    assert_eq!(rest, 2);
    let (quotient, rest) = Amount::from_u64(2).div_small(3);
    assert_eq!(quotient, Amount::zero());
    assert_eq!(rest, 2);
    let big = Amount::parse("340282366920938463463374607431768211455").expect("decimal text");
    let (quotient, rest) = big.div_small(u64::MAX);
    assert_eq!(quotient.to_string(), "18446744073709551617");
    assert_eq!(rest, 0);
}

#[test]
fn amount_div_and_rem_pow10() {
    let amount = Amount::from_u64(1_234_567);
    assert_eq!(amount.div_pow10(3), Amount::from_u64(1_234));
    assert_eq!(amount.rem_pow10(3), 567);
    assert_eq!(amount.div_pow10(0), Amount::from_u64(1_234_567));
    assert_eq!(amount.rem_pow10(0), 0);
    assert_eq!(amount.div_pow10(7), Amount::zero());
    assert_eq!(amount.rem_pow10(7), 1_234_567);
    assert_eq!(amount.div_pow10(40), Amount::zero());
    assert_eq!(amount.rem_pow10(18), 1_234_567);
    assert_eq!(Amount::from_u64(1_000).rem_pow10(3), 0);
}

#[test]
fn amount_clone_is_the_same_amount() {
    let amount = Amount::parse("98765432109876543210").expect("decimal text");
    let copy = amount.clone();
    assert_eq!(copy, amount);
    assert_eq!(copy.to_string(), "98765432109876543210");
}
