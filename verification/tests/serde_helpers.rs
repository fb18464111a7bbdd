use captcha_solvers::serde_helpers::{skip_if_false, skip_if_none, task_id_as_number};
use captcha_solvers::text::{parse_u64, u64_to_decimal};

#[test]
fn test_skip_if_false() {
    assert!(!skip_if_false(&true));
    assert!(skip_if_false(&false));
}

#[test]
fn test_skip_if_none() {
    assert!(skip_if_none(&None::<i32>));
    assert!(!skip_if_none(&Some(42)));
}

#[test]
fn numeric_task_ids_are_sent_as_numbers() {
    assert_eq!(task_id_as_number("54137240716"), Some(54137240716));
    assert_eq!(task_id_as_number("abc-123"), None);
    assert_eq!(task_id_as_number(""), None);
    assert_eq!(task_id_as_number("+7"), Some(7));
    assert_eq!(task_id_as_number("18446744073709551615"), Some(u64::MAX));
    assert_eq!(task_id_as_number("18446744073709551616"), None);
    assert_eq!(task_id_as_number("-1"), None);
}

#[test]
fn decimal_rendering_parses_back() {
    for n in [0u64, 7, 10, 99, 54137240716, u64::MAX] {
        let s = u64_to_decimal(n);
        assert_eq!(s, n.to_string());
        assert_eq!(parse_u64(&s), Some(n));
    }
}
