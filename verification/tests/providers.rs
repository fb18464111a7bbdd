use captcha_solvers::errors::RetryableError;
use captcha_solvers::providers::capmonster::{
    validate_task, CapmonsterApiError, CapmonsterError, CapmonsterErrorCode, CapmonsterResponse,
    CapmonsterSolution, CapmonsterTask,
};
use captcha_solvers::providers::capsolver::{
    CapsolverApiError, CapsolverError, CapsolverErrorCode, CapsolverResponse, CapsolverSolution,
    CapsolverTask, TurnstileMetadata,
};
use captcha_solvers::providers::rucaptcha::{
    RucaptchaApiError, RucaptchaError, RucaptchaErrorCode, RucaptchaSolution, RucaptchaTask,
};
use captcha_solvers::providers::TaskCreationOutcome;
use captcha_solvers::proxy::{ProxyConfig, ProxyType};
use captcha_solvers::solutions::{ImageToTextSolution, ReCaptchaSolution, TurnstileSolution};
use captcha_solvers::tasks::{
    CaptchaTask, CloudflareChallenge, ImageToText, ReCaptchaV2, ReCaptchaV3, Turnstile,
    TurnstileChallenge, TurnstileWaitRoom,
};
use captcha_solvers::utils::response::{is_error_response, ApiResponse};
use captcha_solvers::TaskId;
use std::collections::HashMap;

// Error codes

#[test]
fn test_error_code_retryability() {
    assert!(CapsolverErrorCode::ServiceUnavailable.is_retryable());
    assert!(CapsolverErrorCode::RateLimit.is_retryable());
    assert!(CapsolverErrorCode::IpBanned.is_retryable());
    assert!(CapsolverErrorCode::KeyTempBlocked.is_retryable());

    assert!(!CapsolverErrorCode::ZeroBalance.is_retryable());
    assert!(!CapsolverErrorCode::KeyDeniedAccess.is_retryable());
    assert!(!CapsolverErrorCode::InvalidTaskData.is_retryable());
    assert!(!CapsolverErrorCode::TaskIdInvalid.is_retryable());
    assert!(!CapsolverErrorCode::Other("ERROR_SOMETHING_NEW".to_string()).is_retryable());
}

#[test]
fn tests_test_error_code_retryability() {
    assert!(RucaptchaErrorCode::NoSlotAvailable.is_retryable());

    assert!(!RucaptchaErrorCode::ZeroBalance.is_retryable());
    assert!(!RucaptchaErrorCode::CaptchaUnsolvable.is_retryable());
    assert!(!RucaptchaErrorCode::KeyDoesNotExist.is_retryable());
    assert!(!RucaptchaErrorCode::BadParameters.is_retryable());
    assert!(!RucaptchaErrorCode::NoSuchCaptchaId.is_retryable());
    assert!(!RucaptchaErrorCode::TaskNotSupported.is_retryable());
    assert!(!RucaptchaErrorCode::Unknown.is_retryable());

    assert!(RucaptchaErrorCode::NoSlotAvailable.should_retry_operation());
    assert!(RucaptchaErrorCode::CaptchaUnsolvable.should_retry_operation());

    assert!(!RucaptchaErrorCode::ZeroBalance.should_retry_operation());
    assert!(!RucaptchaErrorCode::KeyDoesNotExist.should_retry_operation());
}

#[test]
fn capsolver_codes_round_trip() {
    let all = [
        "ERROR_SERVICE_UNAVALIABLE",
        "ERROR_RATE_LIMIT",
        "ERROR_IP_BANNED",
        "ERROR_KEY_TEMP_BLOCKED",
        "ERROR_ZERO_BALANCE",
        "ERROR_KEY_DENIED_ACCESS",
        "ERROR_INVALID_TASK_DATA",
        "ERROR_BAD_REQUEST",
        "ERROR_TASKID_INVALID",
        "ERROR_TASK_NOT_FOUND",
        "ERROR_TASK_NOT_SUPPORTED",
        "ERROR_UNKNOWN_QUESTION",
        "ERROR_PROXY_BANNED",
        "ERROR_INVALID_IMAGE",
        "ERROR_PARSE_IMAGE_FAIL",
        "ERROR_TASK_TIMEOUT",
        "ERROR_CAPTCHA_UNSOLVABLE",
        "ERROR_SETTLEMENT_FAILED",
        "ERROR_NOT_A_CODE",
    ];
    for s in all {
        let code = CapsolverErrorCode::from_str(s);
        assert_eq!(code.as_str(), s);
        assert_eq!(CapsolverErrorCode::from_str(code.as_str()), code);
    }
    assert_eq!(
        CapsolverErrorCode::from_str("ERROR_SERVICE_UNAVALIABLE"),
        CapsolverErrorCode::ServiceUnavailable
    );
    assert_eq!(
        CapsolverErrorCode::from_str("whatever"),
        CapsolverErrorCode::Other("whatever".to_string())
    );
    assert!(CapsolverErrorCode::TaskNotFound.is_retryable());
}

#[test]
fn capmonster_codes_round_trip_and_alias() {
    assert_eq!(
        CapmonsterErrorCode::from_str("ERROR_SERVICE_UNAVALIABLE"),
        CapmonsterErrorCode::ServiceUnavailable
    );
    assert_eq!(
        CapmonsterErrorCode::ServiceUnavailable.as_str(),
        "ERROR_SERVICE_UNAVAILABLE"
    );
    for s in [
        "ERROR_SERVICE_UNAVAILABLE",
        "ERROR_RATE_LIMIT",
        "ERROR_NO_SLOT_AVAILABLE",
        "ERROR_KEY_DOES_NOT_EXIST",
        "ERROR_BAD_PROXY",
        "ERROR_TASK_TIMEOUT",
        "ERROR_CAPTCHA_UNSOLVABLE",
        "ERROR_X",
    ] {
        assert_eq!(CapmonsterErrorCode::from_str(s).as_str(), s);
    }
}

#[test]
fn capmonster_code_retry_levels() {
    for c in [CapmonsterErrorCode::ServiceUnavailable, CapmonsterErrorCode::RateLimit, CapmonsterErrorCode::IpBanned, CapmonsterErrorCode::KeyTempBlocked, CapmonsterErrorCode::NoSlotAvailable] {
        assert!(c.is_retryable());
        assert!(c.should_retry_operation());
    }
    for c in [CapmonsterErrorCode::TaskNotFound, CapmonsterErrorCode::TaskTimeout, CapmonsterErrorCode::CaptchaUnsolvable] {
        assert!(!c.is_retryable());
        assert!(c.should_retry_operation());
    }
    for c in [
        CapmonsterErrorCode::KeyDoesNotExist,
        CapmonsterErrorCode::ZeroBalance,
        CapmonsterErrorCode::KeyDeniedAccess,
        CapmonsterErrorCode::BadParameters,
        CapmonsterErrorCode::BadProxy,
        CapmonsterErrorCode::InvalidTaskData,
        CapmonsterErrorCode::BadRequest,
        CapmonsterErrorCode::TaskIdInvalid,
        CapmonsterErrorCode::TaskNotSupported,
        CapmonsterErrorCode::Other("X".to_string()),
    ] {
        assert!(!c.is_retryable());
        assert!(!c.should_retry_operation());
    }
}

#[test]
fn provider_error_classification() {
    let api = |code| CapmonsterError::Api(CapmonsterApiError {
        error_id: 1,
        error_code: code,
        error_description: None,
    });
    let e = api(CapmonsterErrorCode::CaptchaUnsolvable);
    assert!(!e.is_retryable());
    assert!(e.should_retry_operation());
    let e = CapmonsterError::InvalidTaskData("bad".to_string());
    assert!(!e.is_retryable());
    assert!(!e.should_retry_operation());
    let e = CapmonsterError::SolutionTimeout {
        timeout: std::time::Duration::from_secs(1),
        task_id: TaskId::from("t"),
    };
    assert!(!e.is_retryable());
    assert!(e.should_retry_operation());

    let e = CapsolverError::SolutionTimeout {
        timeout: std::time::Duration::from_secs(1),
        task_id: TaskId::from("t"),
    };
    assert!(e.is_retryable());
    assert!(e.should_retry_operation());
    let e = CapsolverError::Api(CapsolverApiError {
        error_id: 1,
        error_code: CapsolverErrorCode::ZeroBalance,
        error_description: None,
    });
    assert!(!e.is_retryable());
    assert!(!e.should_retry_operation());

    let e = RucaptchaError::SolutionTimeout {
        timeout: std::time::Duration::from_secs(1),
        task_id: TaskId::from("t"),
    };
    assert!(!e.is_retryable());
    assert!(e.should_retry_operation());
    let e = RucaptchaError::Api(RucaptchaApiError {
        error_id: 2,
        error_code: RucaptchaErrorCode::NoSlotAvailable,
        error_description: None,
    });
    assert!(e.is_retryable());
    assert!(e.should_retry_operation());
}

#[test]
fn api_error_messages() {
    let e = CapsolverApiError {
        error_id: 1,
        error_code: CapsolverErrorCode::ZeroBalance,
        error_description: Some("No funds".to_string()),
    };
    assert_eq!(e.message(), "Capsolver Error [1]: ERROR_ZERO_BALANCE - No funds");
    let e = CapmonsterApiError {
        error_id: 12,
        error_code: CapmonsterErrorCode::Other("ERROR_X".to_string()),
        error_description: None,
    };
    assert_eq!(e.message(), "CapMonster Error [12]: ERROR_X - No description");
    let e = RucaptchaApiError {
        error_id: 10,
        error_code: RucaptchaErrorCode::ZeroBalance,
        error_description: None,
    };
    assert_eq!(e.message(), "RuCaptcha Error [10]: Zero balance - No description");
    assert_eq!(RucaptchaErrorCode::PageUrl.to_string(), "Invalid page URL");
}

// Capsolver payloads

#[test]
fn test_task_display() {
    let task: CapsolverTask = ReCaptchaV2::new("url", "key").into();
    assert_eq!(task.to_string(), "ReCaptchaV2");

    let task: CapsolverTask = ReCaptchaV3::new("url", "key").into();
    assert_eq!(task.to_string(), "ReCaptchaV3");

    let task: CapsolverTask = Turnstile::new("url", "key").into();
    assert_eq!(task.to_string(), "Turnstile");

    let proxy = ProxyConfig::http("proxy", 8080);
    let task: CapsolverTask = CloudflareChallenge::new("url", proxy).into();
    assert_eq!(task.to_string(), "CloudflareChallenge");
}

#[test]
fn test_from_shared_recaptcha_v2() {
    let task = ReCaptchaV2::new("https://example.com", "key");
    let capsolver_task: CapsolverTask = task.into();
    assert!(matches!(capsolver_task, CapsolverTask::ReCaptchaV2TaskProxyLess { .. }));
}

#[test]
fn test_from_shared_recaptcha_v2_enterprise_with_proxy() {
    let proxy = ProxyConfig::http("192.168.1.1", 8080);
    let task = ReCaptchaV2::new("https://example.com", "key")
        .enterprise()
        .with_proxy(proxy);
    let capsolver_task: CapsolverTask = task.into();
    match capsolver_task {
        CapsolverTask::ReCaptchaV2EnterpriseTask { proxy_address, .. } => {
            assert_eq!(proxy_address, "192.168.1.1")
        }
        other => panic!("unexpected payload {:?}", other),
    }
}

#[test]
fn test_from_shared_turnstile() {
    let task = Turnstile::new("https://example.com", "key").with_action("login");
    let capsolver_task: CapsolverTask = task.into();
    match capsolver_task {
        CapsolverTask::AntiTurnstileTaskProxyLess { metadata: Some(m), .. } => {
            assert_eq!(m.action.as_deref(), Some("login"))
        }
        other => panic!("unexpected payload {:?}", other),
    }
}

#[test]
fn capsolver_payload_choice() {
    let proxy = ProxyConfig::socks5("192.168.1.1", 1080).with_auth("user", "pass");
    let v3: CapsolverTask = ReCaptchaV3::new("https://example.com", "key")
        .with_proxy(proxy.clone())
        .into();
    match v3 {
        CapsolverTask::ReCaptchaV3Task { proxy_type, proxy_port, proxy_login, .. } => {
            assert_eq!(proxy_type, ProxyType::Socks5);
            assert_eq!(proxy_port, 1080);
            assert_eq!(proxy_login.as_deref(), Some("user"));
        }
        other => panic!("unexpected payload {:?}", other),
    }
    let v3e: CapsolverTask = ReCaptchaV3::new("u", "k").enterprise().into();
    assert!(matches!(v3e, CapsolverTask::ReCaptchaV3EnterpriseTaskProxyLess { .. }));
    assert_eq!(v3e.to_string(), "ReCaptchaV3Enterprise");
    let v2: CapsolverTask = ReCaptchaV2::new("u", "k").invisible().with_proxy(proxy).into();
    match v2 {
        CapsolverTask::ReCaptchaV2TaskProxyLess { is_invisible, .. } => {
            assert_eq!(is_invisible, Some(true))
        }
        other => panic!("unexpected payload {:?}", other),
    }
    let t: CapsolverTask = Turnstile::new("u", "k").with_pagedata("p").into();
    assert!(matches!(t, CapsolverTask::AntiTurnstileTaskProxyLess { metadata: None, .. }));
    let m = TurnstileMetadata::default();
    assert!(m.action.is_none() && m.cdata.is_none());
}

#[test]
fn capsolver_rejects_tasks_it_has_no_payload_for() {
    let err = CapsolverTask::try_from(ImageToText::from_base64("x").into()).unwrap_err();
    assert_eq!(err.task_type, "ImageToText");
    assert_eq!(err.provider, "Capsolver");
    assert!(err.unsupported_fields.is_empty());
    assert_eq!(
        err.message(),
        [
            "Task type 'ImageToText' is not supported by Capsolver. This",
            " task type is only available with other providers.",
        ]
        .concat()
    );
    let ok = CapsolverTask::try_from(Turnstile::new("u", "k").into()).unwrap();
    assert_eq!(ok.name(), "Turnstile");
}

// CapMonster payloads

#[test]
fn test_recaptcha_v2_rejects_enterprise_fields_on_non_enterprise() {
    let task = ReCaptchaV2::new("https://example.com", "key")
        .with_action("verify")
        .with_api_domain("recaptcha.net");
    let result = CapmonsterTask::from_recaptcha_v2(task);
    assert!(result.is_err());
    let err = result.unwrap_err();
    assert!(err.unsupported_fields.contains(&"page_action"));
    assert!(err.unsupported_fields.contains(&"api_domain"));
}

#[test]
fn test_recaptcha_v2_rejects_data_s_on_enterprise() {
    let task = ReCaptchaV2::new("https://example.com", "key")
        .enterprise()
        .with_data_s_value("token");
    let result = CapmonsterTask::from_recaptcha_v2(task);
    assert!(result.is_err());
    let err = result.unwrap_err();
    assert!(err.unsupported_fields.contains(&"recaptcha_data_s_value"));
}

#[test]
fn test_recaptcha_v3_rejects_proxy() {
    let proxy = ProxyConfig::http("192.168.1.1", 8080);
    let task = ReCaptchaV3::new("https://example.com", "key").with_proxy(proxy);
    let result = CapmonsterTask::from_recaptcha_v3(task);
    assert!(result.is_err());
    let err = result.unwrap_err();
    assert!(err.unsupported_fields.contains(&"proxy"));
}

#[test]
fn test_recaptcha_v3_rejects_api_domain() {
    let task = ReCaptchaV3::new("https://example.com", "key").with_api_domain("recaptcha.net");
    let result = CapmonsterTask::from_recaptcha_v3(task);
    assert!(result.is_err());
    let err = result.unwrap_err();
    assert!(err.unsupported_fields.contains(&"api_domain"));
}

#[test]
fn test_recaptcha_v3_rejects_enterprise_payload() {
    let mut payload = HashMap::new();
    payload.insert("s".to_string(), serde_json::Value::String("value".to_string()));
    let task = ReCaptchaV3::new("https://example.com", "key").with_enterprise_payload(payload);
    let result = CapmonsterTask::from_recaptcha_v3(task);
    assert!(result.is_err());
    let err = result.unwrap_err();
    assert!(err.unsupported_fields.contains(&"enterprise_payload"));
}

#[test]
fn test_image_to_text_rejects_ocr_fields() {
    let task = ImageToText::from_base64("data")
        .case_sensitive()
        .numbers_only()
        .with_min_length(4);
    let result = CapmonsterTask::from_image_to_text(task);
    assert!(result.is_err());
    let err = result.unwrap_err();
    assert!(err.unsupported_fields.contains(&"case_sensitive"));
    assert!(err.unsupported_fields.contains(&"numeric"));
    assert!(err.unsupported_fields.contains(&"min_length"));
}

#[test]
fn test_image_to_text_display() {
    let task = CapmonsterTask::from_image_to_text(ImageToText::from_base64("data")).unwrap();
    assert_eq!(task.to_string(), "ImageToText");
}

#[test]
fn capmonster_unsupported_fields_are_listed_in_order() {
    let err = CapmonsterTask::from_recaptcha_v2(
        ReCaptchaV2::new("u", "k").with_action("a").with_api_domain("d"),
    )
    .unwrap_err();
    assert_eq!(err.unsupported_fields, vec!["page_action", "api_domain"]);
    assert_eq!(
        err.message(),
        "Task type 'ReCaptchaV2' is not supported by CapMonster. Unsupported fields: page_action, api_domain"
    );
    let err = CapmonsterTask::try_from(CloudflareChallenge::new("u", ProxyConfig::http("h", 1)).into())
        .unwrap_err();
    assert_eq!(err.task_type, "CloudflareChallenge");
    assert!(err.unsupported_fields.is_empty());
}

#[test]
fn capmonster_payloads_and_names() {
    let t = CapmonsterTask::try_from(
        TurnstileChallenge::token("u", "k", "managed", "d", "p", "ua").into(),
    )
    .unwrap();
    assert_eq!(t.to_string(), "TurnstileChallenge");
    match &t {
        CapmonsterTask::TurnstileTask { cloudflare_task_type, user_agent, page_data, .. } => {
            assert_eq!(cloudflare_task_type.as_deref(), Some("token"));
            assert_eq!(user_agent.as_deref(), Some("ua"));
            assert_eq!(page_data.as_deref(), Some("p"));
        }
        other => panic!("unexpected payload {:?}", other),
    }
    let proxy = ProxyConfig::http("127.0.0.1", 8080).with_auth("user", "pass");
    let w = CapmonsterTask::from_turnstile_wait_room(TurnstileWaitRoom::new(
        "u", "k", "base64-html", "ua", proxy.clone(),
    ));
    assert_eq!(w.name(), "TurnstileWaitRoom");
    let c = CapmonsterTask::from_turnstile_challenge(TurnstileChallenge::cf_clearance(
        "u", "k", "html", "ua", proxy,
    ));
    assert_eq!(c.name(), "TurnstileChallengeCfClearance");
    assert_eq!(CapmonsterTask::from_turnstile(Turnstile::new("u", "k")).name(), "Turnstile");
    let v3 = CapmonsterTask::from_recaptcha_v3(ReCaptchaV3::new("u", "k").enterprise()).unwrap();
    assert_eq!(v3.name(), "ReCaptchaV3Enterprise");
    let v2 = CapmonsterTask::from_recaptcha_v2(ReCaptchaV2::new("u", "k").enterprise()).unwrap();
    assert_eq!(v2.name(), "ReCaptchaV2Enterprise");
    let i = CapmonsterTask::from_image_to_text(ImageToText::from_base64("b").with_module("yandex"))
        .unwrap();
    match i {
        CapmonsterTask::ImageToTextTask { body, module } => {
            assert_eq!(body, "b");
            assert_eq!(module.as_deref(), Some("yandex"));
        }
        other => panic!("unexpected payload {:?}", other),
    }
}

fn invalid_message(task: &CapmonsterTask) -> Option<String> {
    match validate_task(task) {
        Ok(()) => None,
        Err(CapmonsterError::InvalidTaskData(m)) => Some(m),
        Err(other) => panic!("unexpected error {:?}", other),
    }
}

#[test]
fn capmonster_validation() {
    let score = |s: f32| {
        CapmonsterTask::from_recaptcha_v3(ReCaptchaV3::new("u", "k").with_min_score(s.to_bits()))
            .unwrap()
    };
    assert_eq!(invalid_message(&score(0.1)), None);
    assert_eq!(invalid_message(&score(0.5)), None);
    assert_eq!(invalid_message(&score(0.9)), None);
    let msg = Some("minScore must be in range 0.1..=0.9".to_string());
    assert_eq!(invalid_message(&score(0.05)), msg);
    assert_eq!(invalid_message(&score(0.95)), msg);
    assert_eq!(invalid_message(&score(-0.5)), msg);
    assert_eq!(invalid_message(&score(f32::NAN)), msg);
    let no_score = CapmonsterTask::from_recaptcha_v3(ReCaptchaV3::new("u", "k")).unwrap();
    assert_eq!(invalid_message(&no_score), None);

    let mut token = CapmonsterTask::from_turnstile_challenge(TurnstileChallenge::token(
        "u", "k", "a", "d", "p", "ua",
    ));
    assert_eq!(invalid_message(&token), None);
    if let CapmonsterTask::TurnstileTask { data, .. } = &mut token {
        *data = None;
    }
    assert_eq!(
        invalid_message(&token),
        Some("Turnstile challenge token mode requires pageAction, data, pageData and userAgent".to_string())
    );

    let mut clearance = CapmonsterTask::from_turnstile_challenge(TurnstileChallenge::cf_clearance(
        "u",
        "k",
        "html",
        "ua",
        ProxyConfig::http("h", 1),
    ));
    assert_eq!(invalid_message(&clearance), None);
    if let CapmonsterTask::TurnstileTask { proxy, .. } = &mut clearance {
        *proxy = None;
    }
    assert_eq!(
        invalid_message(&clearance),
        Some("Turnstile challenge cf_clearance mode requires htmlPageBase64, userAgent and proxy".to_string())
    );

    let mut room = CapmonsterTask::from_turnstile_wait_room(TurnstileWaitRoom::new(
        "u",
        "k",
        "html",
        "ua",
        ProxyConfig::http("h", 1),
    ));
    assert_eq!(invalid_message(&room), None);
    if let CapmonsterTask::TurnstileTask { html_page_base64, .. } = &mut room {
        *html_page_base64 = None;
    }
    assert_eq!(
        invalid_message(&room),
        Some("Turnstile wait_room mode requires htmlPageBase64, userAgent and proxy".to_string())
    );
    assert_eq!(invalid_message(&CapmonsterTask::from_turnstile(Turnstile::new("u", "k"))), None);
}

// RuCaptcha payloads

#[test]
fn types_test_task_display() {
    assert_eq!(RucaptchaTask::recaptcha_v2("url", "key").to_string(), "ReCaptchaV2");
    assert_eq!(
        RucaptchaTask::recaptcha_v3("url", "key", 0.9f32.to_bits()).to_string(),
        "ReCaptchaV3"
    );
    assert_eq!(
        RucaptchaTask::recaptcha_v3_enterprise("url", "key", 0.9f32.to_bits()).to_string(),
        "ReCaptchaV3Enterprise"
    );
    assert_eq!(RucaptchaTask::turnstile("url", "key").to_string(), "Turnstile");
}

#[test]
fn rucaptcha_constructors() {
    let proxy = ProxyConfig::https("10.0.0.1", 3128).with_auth("l", "p");
    match RucaptchaTask::recaptcha_v2_with_proxy("u", "k", proxy.clone()) {
        RucaptchaTask::RecaptchaV2Task { proxy_type, proxy_address, proxy_password, .. } => {
            assert_eq!(proxy_type, ProxyType::Https);
            assert_eq!(proxy_address, "10.0.0.1");
            assert_eq!(proxy_password.as_deref(), Some("p"));
        }
        other => panic!("unexpected payload {:?}", other),
    }
    assert!(matches!(
        RucaptchaTask::recaptcha_v2_invisible("u", "k"),
        RucaptchaTask::RecaptchaV2TaskProxyless { is_invisible: Some(true), .. }
    ));
    assert_eq!(
        RucaptchaTask::recaptcha_v2_enterprise_with_proxy("u", "k", proxy.clone()).name(),
        "ReCaptchaV2Enterprise"
    );
    assert_eq!(RucaptchaTask::recaptcha_v2_enterprise("u", "k").name(), "ReCaptchaV2Enterprise");
    match RucaptchaTask::recaptcha_v3_with_action("u", "k", 0.3f32.to_bits(), "login") {
        RucaptchaTask::RecaptchaV3TaskProxyless { min_score, page_action, .. } => {
            assert_eq!(f32::from_bits(min_score), 0.3);
            assert_eq!(page_action.as_deref(), Some("login"));
        }
        other => panic!("unexpected payload {:?}", other),
    }
    let meta = captcha_solvers::providers::rucaptcha::TurnstileMetadata {
        action: Some("a".to_string()),
        data: None,
        pagedata: Some("p".to_string()),
    };
    match RucaptchaTask::turnstile_with_metadata("u", "k", meta) {
        RucaptchaTask::TurnstileTaskProxyless { action, data, pagedata, .. } => {
            assert_eq!(action.as_deref(), Some("a"));
            assert!(data.is_none());
            assert_eq!(pagedata.as_deref(), Some("p"));
        }
        other => panic!("unexpected payload {:?}", other),
    }
    assert_eq!(RucaptchaTask::turnstile_with_proxy("u", "k", proxy).name(), "Turnstile");
}

#[test]
fn rucaptcha_conversion() {
    let v3 = RucaptchaTask::try_from(ReCaptchaV3::new("u", "k").into()).unwrap();
    match v3 {
        RucaptchaTask::RecaptchaV3TaskProxyless { min_score, is_enterprise, .. } => {
            assert_eq!(f32::from_bits(min_score), 0.3);
            assert!(is_enterprise.is_none());
        }
        other => panic!("unexpected payload {:?}", other),
    }
    let err = RucaptchaTask::try_from(
        ReCaptchaV3::new("u", "k").with_proxy(ProxyConfig::http("h", 1)).into(),
    )
    .unwrap_err();
    assert_eq!(err.unsupported_fields, vec!["proxy"]);
    assert_eq!(err.provider, "RuCaptcha");
    let t = RucaptchaTask::try_from(
        Turnstile::new("u", "k").with_cdata("c").with_proxy(ProxyConfig::socks5("h", 2)).into(),
    )
    .unwrap();
    match t {
        RucaptchaTask::TurnstileTask { data, proxy_port, .. } => {
            assert_eq!(data.as_deref(), Some("c"));
            assert_eq!(proxy_port, 2);
        }
        other => panic!("unexpected payload {:?}", other),
    }
    let err = RucaptchaTask::try_from(ImageToText::from_base64("x").into()).unwrap_err();
    assert_eq!(err.task_type, "ImageToText");
    let v2 = RucaptchaTask::try_from(ReCaptchaV2::new("u", "k").invisible().into()).unwrap();
    assert!(matches!(v2, RucaptchaTask::RecaptchaV2TaskProxyless { is_invisible: Some(true), .. }));
}

// Solutions and responses

fn recaptcha_solution(token: &str) -> ReCaptchaSolution {
    ReCaptchaSolution {
        g_recaptcha_response: token.to_string(),
        token: None,
        user_agent: None,
        sec_ch_ua: None,
        create_time: None,
        recaptcha_ca_t: Some("session".to_string()),
        recaptcha_ca_e: None,
    }
}

#[test]
fn solution_accessors() {
    let s = recaptcha_solution("tok");
    assert_eq!(s.token(), "tok");
    assert_eq!(s.session_cookie(), Some("session"));

    let t = TurnstileSolution {
        token: "cf-token".to_string(),
        cookies: Some(vec![
            ("other".to_string(), "x".to_string()),
            ("cf_clearance".to_string(), "clearance-value".to_string()),
        ]),
        user_agent: Some("Mozilla/5.0".to_string()),
    };
    assert_eq!(t.token(), "cf-token");
    assert_eq!(t.cf_clearance(), Some("clearance-value"));
    assert_eq!(t.cookies().map(|c| c.len()), Some(2));
    let bare = TurnstileSolution { token: "t".to_string(), cookies: None, user_agent: None };
    assert_eq!(bare.cf_clearance(), None);
    let no_clearance = TurnstileSolution {
        token: "t".to_string(),
        cookies: Some(vec![("a".to_string(), "b".to_string())]),
        user_agent: None,
    };
    assert_eq!(no_clearance.cf_clearance(), None);

    let mut built = TurnstileSolution::new("t".to_string(), None);
    built.set_cookie("cf_clearance".to_string(), "first".to_string());
    built.set_cookie("other".to_string(), "x".to_string());
    built.set_cookie("cf_clearance".to_string(), "second".to_string());
    assert_eq!(built.cookies().map(|c| c.len()), Some(2));
    assert_eq!(built.cf_clearance(), Some("second"));
    assert_eq!(built.token(), "t");

    let text = ImageToTextSolution { text: "ABC123".to_string() };
    assert_eq!(text.text(), "ABC123");
}

#[test]
fn provider_solution_variants() {
    let s = CapsolverSolution::ReCaptcha(recaptcha_solution("a"));
    assert!(s.as_recaptcha().is_some());
    assert!(s.as_turnstile().is_none());
    assert!(s.as_cloudflare_challenge().is_none());
    let s = s.try_into_turnstile().unwrap_err();
    assert_eq!(s.into_recaptcha().token(), "a");

    let m = CapmonsterSolution::ImageToText(ImageToTextSolution { text: "x".to_string() });
    assert!(m.as_image_to_text().is_some());
    let m = *m.try_into_recaptcha().unwrap_err();
    assert_eq!(m.into_image_to_text().text(), "x");

    let r = RucaptchaSolution::Turnstile(captcha_solvers::providers::rucaptcha::TurnstileSolution {
        token: "tt".to_string(),
    });
    assert_eq!(r.as_turnstile().unwrap().token(), "tt");
    assert_eq!(r.into_turnstile().token(), "tt");
}

#[test]
fn responses_and_outcomes() {
    assert!(!is_error_response(None));
    assert!(!is_error_response(Some(0)));
    assert!(is_error_response(Some(1)));
    let ok: ApiResponse<u32, String> = ApiResponse::Success(5);
    assert!(ok.is_success() && !ok.is_error());
    assert_eq!(ok.into_result(), Ok(5));
    let err: ApiResponse<u32, String> = ApiResponse::Error("e".to_string());
    assert!(err.is_error());
    assert_eq!(err.into_result(), Err("e".to_string()));

    let r: CapsolverResponse<u8> = CapsolverResponse::Success(1);
    assert_eq!(r.into_result().unwrap(), 1);
    let r: CapmonsterResponse<u8> = CapmonsterResponse::Error(CapmonsterApiError {
        error_id: 1,
        error_code: CapmonsterErrorCode::ZeroBalance,
        error_description: None,
    });
    assert!(r.into_result().is_err());

    let pending: TaskCreationOutcome<u8> = TaskCreationOutcome::Pending(TaskId::from("p"));
    assert!(pending.is_pending() && !pending.is_ready());
    assert_eq!(pending.task_id().as_str(), "p");
    assert_eq!(pending.into_solution(), None);
    let ready = TaskCreationOutcome::Ready { task_id: TaskId::from("r"), solution: 9u8 };
    assert!(ready.is_ready());
    assert_eq!(ready.task_id().as_str(), "r");
    assert_eq!(ready.into_solution(), Some(9));
}
