use captcha_solvers::errors::UnsupportedTaskError;
use captcha_solvers::TaskId;

#[test]
fn task_id_conversions() {
    let a = TaskId::from_str("37223a89-06ed-442c-a0b8-22067b79c5b4");
    assert_eq!(a.as_str(), "37223a89-06ed-442c-a0b8-22067b79c5b4");
    assert_eq!(a.as_ref(), a.as_str());
    assert_eq!(a.to_string(), "37223a89-06ed-442c-a0b8-22067b79c5b4");
    let b: TaskId = "37223a89-06ed-442c-a0b8-22067b79c5b4".into();
    assert_eq!(a, b);
    let c = TaskId::from("54137240716".to_string());
    assert_eq!(c.clone(), c);
    assert_ne!(a, c);
}

#[test]
fn unsupported_task_message_for_rucaptcha() {
    let e = UnsupportedTaskError::new("CloudflareChallenge", "RuCaptcha");
    assert_eq!(e.task_type, "CloudflareChallenge");
    assert_eq!(e.provider, "RuCaptcha");
    assert_eq!(
        e.message(),
        [
            "Task type 'CloudflareChallenge' is not supported by RuCaptcha. This",
            " task type is only available with other providers.",
        ]
        .concat()
    );
}

#[test]
fn unsupported_task_messages() {
    let e = UnsupportedTaskError::new("CloudflareChallenge", "CapMonster");
    assert_eq!(
        e.message(),
        [
            "Task type 'CloudflareChallenge' is not supported by CapMonster. This",
            " task type is only available with other providers.",
        ]
        .concat()
    );
    let e = UnsupportedTaskError::unsupported_fields("ImageToText", "CapMonster", vec!["phrase"]);
    assert_eq!(
        e.message(),
        "Task type 'ImageToText' is not supported by CapMonster. Unsupported fields: phrase"
    );
    let e = UnsupportedTaskError::unsupported_fields("X", "P", vec!["a", "b", "c"]);
    assert_eq!(e.message(), "Task type 'X' is not supported by P. Unsupported fields: a, b, c");
}
