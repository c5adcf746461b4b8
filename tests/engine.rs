use webbed_site::engine::{
    calc_fib_iter, compute_fibonacci, fib_guarded, fib_text, FibError, MAX_STEPS,
    SCI_PRECISION,
};
use webbed_site::natural::BigNat;
use webbed_site::parse::parse_index_bytes;

fn text(n: usize) -> String {
    fib_text(n).unwrap()
}

#[test]
fn first_two_indices_give_one() {
    assert_eq!(text(0), "1");
    assert_eq!(text(1), "1");
}

#[test]
fn indexing_of_first_terms() {
    assert_eq!(text(2), "1");
    assert_eq!(text(3), "2");
    assert_eq!(text(4), "3");
    assert_eq!(text(5), "5");
    assert_eq!(text(6), "8");
    assert_eq!(text(10), "55");
    assert_eq!(text(50), "12586269025");
}

#[test]
fn recurrence_holds_on_a_range() {
    for n in 4..200usize {
        let a = fib_guarded(n).unwrap().limbs;
        let sum = fib_guarded(n - 1).unwrap().add(&fib_guarded(n - 2).unwrap()).limbs;
        assert_eq!(a, sum);
    }
}

#[test]
fn values_past_one_limb() {
    assert_eq!(text(94), "19740274219868223167");
    assert_eq!(text(100), "354224848179261915075");
    assert_eq!(fib_guarded(94).unwrap().limbs.len(), 2);
}

#[test]
fn ceiling_gives_recursion_error() {
    assert_eq!(fib_text(MAX_STEPS), Err(FibError::RecursionLimit));
    assert_eq!(fib_text(MAX_STEPS + 1), Err(FibError::RecursionLimit));
    assert_eq!(fib_text(usize::MAX), Err(FibError::RecursionLimit));
    assert!(fib_guarded(MAX_STEPS).is_err());
    assert_eq!(compute_fibonacci("4000"), Err(FibError::RecursionLimit));
}

#[test]
fn last_index_below_ceiling_succeeds() {
    assert_eq!(text(MAX_STEPS - 1), "2.46654110559437507392957009204e835");
}

#[test]
fn error_message() {
    assert_eq!(
        FibError::RecursionLimit.message(),
        "max recursion limit reached"
    );
}

#[test]
fn repeated_calls_agree() {
    let first = compute_fibonacci("77");
    let second = compute_fibonacci("77");
    assert_eq!(first, second);
    assert_eq!(first, Ok("5527939700884757".to_string()));
    assert_eq!(compute_fibonacci("4000"), compute_fibonacci("4000"));
}

#[test]
fn malformed_text_selects_index_zero() {
    assert_eq!(compute_fibonacci("abc"), Ok("1".to_string()));
    assert_eq!(compute_fibonacci(""), Ok("1".to_string()));
    assert_eq!(compute_fibonacci("-5"), Ok("1".to_string()));
    assert_eq!(compute_fibonacci(" 7"), Ok("1".to_string()));
    assert_eq!(compute_fibonacci("7"), Ok("13".to_string()));
    assert_eq!(compute_fibonacci("+7"), Ok("13".to_string()));
}

#[test]
fn long_values_keep_thirty_digits() {
    let s = text(200);
    assert_eq!(s, "2.80571172992510140037611932413e41");
    let mantissa = s.split('e').next().unwrap();
    let digits = mantissa.chars().filter(|c| c.is_ascii_digit()).count();
    assert_eq!(digits as u64, SCI_PRECISION);
}

#[test]
fn thirty_digit_value_is_written_in_full() {
    // fib(143) has exactly thirty digits.
    let s = text(143);
    assert_eq!(s.len(), 30);
    assert!(!s.contains('e'));
}

#[test]
fn server_engine_matches_guarded_engine() {
    assert_eq!(calc_fib_iter("0".to_string()), Ok("1".to_string()));
    assert_eq!(calc_fib_iter("1".to_string()), Ok("1".to_string()));
    assert_eq!(calc_fib_iter("2".to_string()), Ok("1".to_string()));
    assert_eq!(calc_fib_iter("12".to_string()), Ok("144".to_string()));
    assert_eq!(calc_fib_iter("abc".to_string()), Ok("1".to_string()));
    assert_eq!(calc_fib_iter("-3".to_string()), calc_fib_iter("0".to_string()));
    assert_eq!(
        calc_fib_iter("200".to_string()),
        Ok("2.80571172992510140037611932413e41".to_string())
    );
}

#[test]
fn server_engine_stops_at_ceiling() {
    assert_eq!(
        calc_fib_iter("4000".to_string()),
        Err(FibError::RecursionLimit)
    );
    let r = calc_fib_iter("10000".to_string());
    assert_eq!(r, Err(FibError::RecursionLimit));
    assert!(r.unwrap_err().message().contains("recursion limit"));
}

#[test]
fn parse_index_accepts_digits_only() {
    assert_eq!(parse_index_bytes(b"12"), Some(12));
    assert_eq!(parse_index_bytes(b"+12"), Some(12));
    assert_eq!(parse_index_bytes(b"007"), Some(7));
    assert_eq!(parse_index_bytes(b""), None);
    assert_eq!(parse_index_bytes(b"+"), None);
    assert_eq!(parse_index_bytes(b"-1"), None);
    assert_eq!(parse_index_bytes(b"1 "), None);
    assert_eq!(parse_index_bytes(b"1x2"), None);
}

#[test]
fn parse_index_overflow() {
    let max = usize::MAX.to_string();
    assert_eq!(parse_index_bytes(max.as_bytes()), Some(usize::MAX));
    let over = format!("{}0", usize::MAX);
    assert_eq!(parse_index_bytes(over.as_bytes()), None);
    assert_eq!(parse_index_bytes(b"99999999999999999999999"), None);
}

#[test]
fn natural_addition_carries() {
    let a = BigNat::from_u64(u64::MAX);
    let b = BigNat::from_u64(1);
    assert_eq!(a.add(&b).limbs, vec![0u64, 1u64]);
    assert_eq!(a.add(&a).limbs, vec![u64::MAX - 1, 1u64]);
}

#[test]
fn natural_scientific_text() {
    let n = BigNat::from_u64(123456);
    assert_eq!(n.to_sci(3), "1.23e5");
    assert_eq!(n.to_sci(30), "123456");
    assert_eq!(BigNat::from_u64(0).to_sci(30), "0");
}
