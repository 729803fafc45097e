use namada_rest::amount::Amount;
use namada_rest::dec::Dec;

fn dec(negative: bool, raw: u64) -> Dec {
    Dec::new(negative, Amount::from_u64(raw))
}

#[test]
fn dec_text_of_whole_numbers() {
    assert_eq!(dec(false, 0).to_string(), "0");
    assert_eq!(dec(false, 1_000_000_000_000).to_string(), "1");
    assert_eq!(dec(false, 100_000_000_000_000).to_string(), "100");
    assert_eq!(dec(false, 10_000_000_000_000).to_string(), "10");
}

#[test]
fn dec_text_of_fractions() {
    assert_eq!(dec(false, 666_666_666_666).to_string(), "0.666666666666");
    assert_eq!(dec(false, 500_000_000_000).to_string(), "0.5");
    assert_eq!(dec(false, 50_000_000_000).to_string(), "0.05");
    assert_eq!(dec(false, 1).to_string(), "0.000000000001");
    assert_eq!(dec(false, 1_500_000_000_000).to_string(), "1.5");
    assert_eq!(dec(false, 120_030_000_000_000).to_string(), "120.03");
}

#[test]
fn dec_text_of_negatives() {
    assert_eq!(dec(true, 250_000_000_000).to_string(), "-0.25");
    assert_eq!(dec(true, 3_000_000_000_000).to_string(), "-3");
    assert_eq!(dec(true, 0).to_string(), "0");
    assert_eq!(dec(true, 0), dec(false, 0));
}

#[test]
fn dec_text_beyond_machine_words() {
    let raw = Amount::parse("123456789012345678901234567890000000000001").expect("decimal text");
    assert_eq!(Dec::new(false, raw).to_string(), "123456789012345678901234567890.000000000001");
}

#[test]
fn dec_share() {
    let share = Dec::share(&Amount::from_u64(200), &Amount::from_u64(300));
    assert_eq!(share.to_string(), "0.666666666666");
    let share = Dec::share(&Amount::from_u64(100), &Amount::from_u64(300));
    assert_eq!(share.to_string(), "0.333333333333");
    let share = Dec::share(&Amount::from_u64(5), &Amount::from_u64(7));
    assert_eq!(share.to_string(), "0.714285714285");
    let share = Dec::share(&Amount::from_u64(7), &Amount::from_u64(7));
    assert_eq!(share.to_string(), "1");
    let share = Dec::share(&Amount::zero(), &Amount::from_u64(7));
    assert_eq!(share.to_string(), "0");
}

#[test]
fn dec_share_of_large_amounts() {
    let whole = Amount::parse("300000000000000000000000000000000000000").expect("decimal text");
    let part = Amount::parse("200000000000000000000000000000000000000").expect("decimal text");
    assert_eq!(Dec::share(&part, &whole).to_string(), "0.666666666666");
}

#[test]
fn dec_parse_reads_what_is_written() {
    for (negative, raw) in [
        (false, 0u64),
        (false, 1),
        (false, 666_666_666_666),
        (false, 1_000_000_000_000),
        (false, 120_030_000_000_000),
        (true, 250_000_000_000),
        (true, 3_000_000_000_000),
        (true, 1),
    ] {
        let written = dec(negative, raw).to_string();
        assert_eq!(Dec::parse(&written), Some(dec(negative, raw)), "{}", written);
    }
}

#[test]
fn dec_parse_values() {
    assert_eq!(Dec::parse("1.5"), Some(dec(false, 1_500_000_000_000)));
    assert_eq!(Dec::parse("0.05"), Some(dec(false, 50_000_000_000)));
    assert_eq!(Dec::parse("-0.25"), Some(dec(true, 250_000_000_000)));
    assert_eq!(Dec::parse("007.500"), Some(dec(false, 7_500_000_000_000)));
    assert_eq!(Dec::parse("0.000000000001"), Some(dec(false, 1)));
    assert_eq!(Dec::parse("-0"), Some(dec(false, 0)));
    assert_eq!(Dec::parse("-0.0"), Some(dec(false, 0)));
    assert_eq!(Dec::parse("42"), Some(dec(false, 42_000_000_000_000)));
}

#[test]
fn dec_parse_refuses_what_is_no_decimal() {
    assert_eq!(Dec::parse(""), None);
    assert_eq!(Dec::parse("-"), None);
    assert_eq!(Dec::parse("."), None);
    assert_eq!(Dec::parse("1."), None);
    assert_eq!(Dec::parse(".5"), None);
    assert_eq!(Dec::parse("1.2.3"), None);
    assert_eq!(Dec::parse("--1"), None);
    assert_eq!(Dec::parse("+1"), None);
    assert_eq!(Dec::parse("1e3"), None);
    assert_eq!(Dec::parse("1,5"), None);
    assert_eq!(Dec::parse("0.0000000000001"), None);
    assert_eq!(Dec::parse("1.5 "), None);
}

#[test]
fn dec_parse_beyond_machine_words() {
    let text = "123456789012345678901234567890.000000000001";
    let parsed = Dec::parse(text).expect("the text of a decimal");
    assert_eq!(parsed.to_string(), text);
}

#[test]
fn dec_clone_is_the_same_decimal() {
    let original = dec(true, 1_250_000_000_000);
    let copy = original.clone();
    assert_eq!(copy, original);
    assert_eq!(copy.to_string(), "-1.25");
}
