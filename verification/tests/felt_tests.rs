use giza_benchmark::args::{try_process_args, FuncArg, FuncArgs};
use giza_benchmark::felt::{overflows_accumulator, parse_felt, Felt252};

const TWO_POW_256: &str =
    "115792089237316195423570985008687907853269984665640564039457584007913129639936";
const TWO_POW_256_MINUS_1: &str =
    "115792089237316195423570985008687907853269984665640564039457584007913129639935";
const TWO_POW_256_PLUS_3: &str =
    "115792089237316195423570985008687907853269984665640564039457584007913129639939";
const TWO_POW_256_PLUS_4: &str =
    "115792089237316195423570985008687907853269984665640564039457584007913129639940";

fn chars(s: &str) -> Vec<char> {
    s.chars().collect()
}

fn parse(s: &str) -> Option<Felt252> {
    let t = chars(s);
    parse_felt(&t, 0, t.len())
}

fn overflows(s: &str) -> bool {
    let t = chars(s);
    overflows_accumulator(&t, 0, t.len())
}

fn small(n: u64) -> Felt252 {
    let mut bytes = [0u8; 32];
    bytes[24..].copy_from_slice(&n.to_be_bytes());
    Felt252 { bytes }
}

#[test]
fn accumulator_overflow_is_detected() {
    assert!(overflows(TWO_POW_256));
    assert!(overflows(TWO_POW_256_PLUS_3));
    assert!(overflows(&format!("-{}", TWO_POW_256)));
    assert!(overflows(&format!("000{}", TWO_POW_256)));
    assert!(overflows(&format!("-00{}", TWO_POW_256)));
    assert!(overflows(&format!("{}5", TWO_POW_256)));
    assert!(overflows(&format!("{}x", TWO_POW_256_PLUS_3)));
}

#[test]
fn no_overflow_elsewhere() {
    assert!(!overflows(""));
    assert!(!overflows("-"));
    assert!(!overflows("12"));
    assert!(!overflows(TWO_POW_256_MINUS_1));
    assert!(!overflows(TWO_POW_256_PLUS_4));
    assert!(!overflows(&format!("x{}", TWO_POW_256)));
    assert!(!overflows(&format!("--{}", TWO_POW_256)));
    assert!(!overflows(&TWO_POW_256[..77]));
}

#[test]
fn overflow_checks_only_the_range() {
    let t = chars(&format!("1 {} 2", TWO_POW_256));
    assert!(overflows_accumulator(&t, 2, 80));
    assert!(!overflows_accumulator(&t, 0, 1));
    assert!(!overflows_accumulator(&t, 81, 82));
}

#[test]
fn overflowing_texts_are_refused_without_panic() {
    assert_eq!(parse(TWO_POW_256), None);
    assert_eq!(parse(&format!("-{}", TWO_POW_256)), None);
    assert_eq!(parse(&format!("0{}", TWO_POW_256)), None);
    assert_eq!(try_process_args(TWO_POW_256), None);
    assert_eq!(try_process_args(&format!("1 [{} 2]", TWO_POW_256)), None);
}

#[test]
fn literals_past_two_pow_256_are_refused() {
    assert_eq!(parse(TWO_POW_256_PLUS_4), None);
    assert_eq!(parse(&format!("{}0", TWO_POW_256_MINUS_1)), None);
    assert_eq!(try_process_args(TWO_POW_256_PLUS_4), None);
}

#[test]
fn largest_literal_is_reduced_by_the_field() {
    let expected = starknet_types_core::felt::Felt::from_dec_str(TWO_POW_256_MINUS_1).unwrap();
    let f = parse(TWO_POW_256_MINUS_1).unwrap();
    assert_eq!(f.bytes, expected.to_bytes_be());
    assert_eq!(
        try_process_args(TWO_POW_256_MINUS_1),
        Some(FuncArgs(vec![FuncArg::Single(f)]))
    );
    assert_eq!(parse(&format!("0000{}", TWO_POW_256_MINUS_1)), Some(f));
}

#[test]
fn small_literals_and_their_negations() {
    assert_eq!(parse("0"), Some(small(0)));
    assert_eq!(parse("007"), Some(small(7)));
    assert_eq!(parse("-0"), Some(small(0)));
    let mut p_minus_1 = [0u8; 32];
    p_minus_1[0] = 0x08;
    p_minus_1[7] = 0x11;
    assert_eq!(parse("-1"), Some(Felt252 { bytes: p_minus_1 }));
}

#[test]
fn the_prime_is_zero() {
    let p = "3618502788666131213697322783095070105623107215331596699973092056135872020481";
    assert_eq!(parse(p), Some(small(0)));
    let p_plus_5 = "3618502788666131213697322783095070105623107215331596699973092056135872020486";
    assert_eq!(parse(p_plus_5), Some(small(5)));
}

#[test]
fn non_literals_are_refused() {
    assert_eq!(parse(""), None);
    assert_eq!(parse("-"), None);
    assert_eq!(parse("--1"), None);
    assert_eq!(parse("1a"), None);
    assert_eq!(parse("+1"), None);
    assert_eq!(parse("\u{661}"), None);
}
