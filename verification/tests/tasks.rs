use base64::Engine;
use captcha_solvers::proxy::{ProxyConfig, ProxyType};
use captcha_solvers::tasks::{
    CaptchaTask, CloudflareChallenge, ImageToText, ReCaptchaV2, ReCaptchaV3, Turnstile,
    TurnstileChallenge, TurnstileChallengeMode, TurnstileWaitRoom,
};
use std::collections::HashMap;

fn standard(bytes: &[u8]) -> String {
    base64::engine::general_purpose::STANDARD.encode(bytes)
}

// Turnstile

#[test]
fn test_turnstile_new() {
    let task = Turnstile::new("https://example.com", "0x4AAAAAAA");
    assert_eq!(task.website_url(), "https://example.com");
    assert_eq!(task.website_key(), "0x4AAAAAAA");
    assert!(!task.has_proxy());
    assert_eq!(task.action(), None);
    assert_eq!(task.cdata(), None);
}

#[test]
fn test_turnstile_with_action() {
    let task = Turnstile::new("https://example.com", "key").with_action("login");
    assert_eq!(task.action(), Some("login"));
}

#[test]
fn test_turnstile_with_cdata() {
    let task = Turnstile::new("https://example.com", "key").with_cdata("custom-data");
    assert_eq!(task.cdata(), Some("custom-data"));
}

#[test]
fn test_turnstile_with_pagedata() {
    let task = Turnstile::new("https://example.com", "key").with_pagedata("page-data");
    assert_eq!(task.pagedata, Some("page-data".to_string()));
}

#[test]
fn test_turnstile_with_proxy() {
    let proxy = ProxyConfig::http("192.168.1.1", 8080);
    let task = Turnstile::new("https://example.com", "key").with_proxy(proxy);
    assert!(task.has_proxy());
    assert_eq!(task.proxy().unwrap().address, "192.168.1.1");
}

#[test]
fn test_turnstile_with_all_options() {
    let proxy = ProxyConfig::socks5("proxy.example.com", 1080);
    let task = Turnstile::new("https://example.com", "0x4AAAAAAA")
        .with_action("submit")
        .with_cdata("custom-data")
        .with_pagedata("page-data")
        .with_proxy(proxy);
    assert_eq!(task.website_url(), "https://example.com");
    assert_eq!(task.website_key(), "0x4AAAAAAA");
    assert_eq!(task.action(), Some("submit"));
    assert_eq!(task.cdata(), Some("custom-data"));
    assert_eq!(task.pagedata, Some("page-data".to_string()));
    assert!(task.has_proxy());
}

#[test]
fn test_turnstile_clone() {
    let task = Turnstile::new("https://example.com", "key").with_action("login");
    let cloned = task.clone();
    assert_eq!(cloned.website_url, task.website_url);
    assert_eq!(cloned.action, task.action);
}

// Cloudflare challenge

#[test]
fn test_cloudflare_challenge_new() {
    let proxy = ProxyConfig::http("192.168.1.1", 8080);
    let task = CloudflareChallenge::new("https://protected.com", proxy);
    assert_eq!(task.website_url(), "https://protected.com");
    assert_eq!(task.proxy().address, "192.168.1.1");
    assert_eq!(task.proxy().port, 8080);
    assert_eq!(task.user_agent(), None);
    assert_eq!(task.html(), None);
}

#[test]
fn test_cloudflare_challenge_with_user_agent() {
    let proxy = ProxyConfig::http("192.168.1.1", 8080);
    let task = CloudflareChallenge::new("https://example.com", proxy).with_user_agent("Mozilla/5.0");
    assert_eq!(task.user_agent(), Some("Mozilla/5.0"));
}

#[test]
fn test_cloudflare_challenge_with_html() {
    let proxy = ProxyConfig::http("192.168.1.1", 8080);
    let html = "<html>Just a moment...</html>";
    let task = CloudflareChallenge::new("https://example.com", proxy).with_html(html);
    assert_eq!(task.html(), Some(html));
}

#[test]
fn test_cloudflare_challenge_with_all_options() {
    let proxy = ProxyConfig::socks5("proxy.example.com", 1080).with_auth("user", "pass");
    let task = CloudflareChallenge::new("https://protected.com", proxy)
        .with_user_agent("Mozilla/5.0 (Windows NT 10.0)")
        .with_html("<html>Challenge page</html>");
    assert_eq!(task.website_url(), "https://protected.com");
    assert_eq!(task.proxy().proxy_type, ProxyType::Socks5);
    assert_eq!(task.proxy().login.as_deref(), Some("user"));
    assert_eq!(task.user_agent(), Some("Mozilla/5.0 (Windows NT 10.0)"));
    assert_eq!(task.html(), Some("<html>Challenge page</html>"));
}

#[test]
fn test_cloudflare_challenge_clone() {
    let proxy = ProxyConfig::http("192.168.1.1", 8080);
    let task = CloudflareChallenge::new("https://example.com", proxy).with_user_agent("Mozilla");
    let cloned = task.clone();
    assert_eq!(cloned.website_url, task.website_url);
    assert_eq!(cloned.user_agent, task.user_agent);
}

#[test]
fn test_cloudflare_challenge_proxy_types() {
    let http_proxy = ProxyConfig::http("192.168.1.1", 8080);
    let task = CloudflareChallenge::new("https://example.com", http_proxy);
    assert_eq!(task.proxy().proxy_type, ProxyType::Http);

    let socks5_proxy = ProxyConfig::socks5("192.168.1.1", 1080);
    let task = CloudflareChallenge::new("https://example.com", socks5_proxy);
    assert_eq!(task.proxy().proxy_type, ProxyType::Socks5);
}

// Turnstile challenge and waiting room

#[test]
fn test_token_mode_builder() {
    let task = TurnstileChallenge::token(
        "https://example.com",
        "site-key",
        "managed",
        "cdata",
        "pagedata",
        "Mozilla/5.0",
    );
    assert!(task.is_token_mode());
    assert_eq!(task.page_action.as_deref(), Some("managed"));
    assert_eq!(task.data.as_deref(), Some("cdata"));
    assert_eq!(task.page_data.as_deref(), Some("pagedata"));
    assert!(task.html_page_base64.is_none());
    assert!(task.proxy.is_none());
}

#[test]
fn test_cf_clearance_mode_builder() {
    let proxy = ProxyConfig::http("127.0.0.1", 8080).with_auth("user", "pass");
    let task = TurnstileChallenge::cf_clearance(
        "https://example.com",
        "site-key",
        "base64-html",
        "Mozilla/5.0",
        proxy,
    );
    assert!(task.is_cf_clearance_mode());
    assert_eq!(task.html_page_base64.as_deref(), Some("base64-html"));
    assert!(task.page_action.is_none());
    assert!(task.data.is_none());
    assert!(task.page_data.is_none());
    assert!(task.proxy.is_some());
}

#[test]
fn test_cloudflare_task_type_value() {
    assert_eq!(TurnstileChallengeMode::Token.as_cloudflare_task_type(), "token");
    assert_eq!(
        TurnstileChallengeMode::CfClearance.as_cloudflare_task_type(),
        "cf_clearance"
    );
}

#[test]
fn test_waitroom_task_builder() {
    let proxy = ProxyConfig::socks5("proxy.example.com", 1080).with_auth("u", "p");
    let task = TurnstileWaitRoom::new(
        "https://example.com",
        "site-key",
        "base64-html",
        "Mozilla/5.0",
        proxy,
    );
    assert_eq!(task.website_url, "https://example.com");
    assert_eq!(task.website_key, "site-key");
    assert_eq!(task.html_page_base64, "base64-html");
    assert_eq!(task.user_agent, "Mozilla/5.0");
    assert_eq!(task.proxy.address, "proxy.example.com");
    assert_eq!(task.proxy.port, 1080);
}

#[test]
fn challenge_api_js_url_and_proxy() {
    let task = TurnstileChallenge::token("u", "k", "a", "d", "p", "ua")
        .with_api_js_url("https://challenges.cloudflare.com/api.js")
        .with_proxy(ProxyConfig::http("h", 1));
    assert_eq!(
        task.api_js_url.as_deref(),
        Some("https://challenges.cloudflare.com/api.js")
    );
    assert!(task.proxy.is_some());
    assert!(!task.is_cf_clearance_mode());
}

// reCAPTCHA

#[test]
fn test_recaptcha_v2_new() {
    let task = ReCaptchaV2::new("https://example.com", "site-key");
    assert_eq!(task.website_url(), "https://example.com");
    assert_eq!(task.website_key(), "site-key");
    assert!(!task.is_invisible());
    assert!(!task.is_enterprise());
    assert!(!task.has_proxy());
}

#[test]
fn test_recaptcha_v2_invisible() {
    let task = ReCaptchaV2::new("https://example.com", "site-key").invisible();
    assert!(task.is_invisible());
    assert!(!task.is_enterprise());
}

#[test]
fn test_recaptcha_v2_enterprise() {
    let task = ReCaptchaV2::new("https://example.com", "site-key").enterprise();
    assert!(!task.is_invisible());
    assert!(task.is_enterprise());
}

#[test]
fn test_recaptcha_v2_invisible_enterprise() {
    let task = ReCaptchaV2::new("https://example.com", "site-key")
        .invisible()
        .enterprise();
    assert!(task.is_invisible());
    assert!(task.is_enterprise());
}

#[test]
fn test_recaptcha_v2_with_action() {
    let task = ReCaptchaV2::new("https://example.com", "site-key").with_action("submit");
    assert_eq!(task.page_action, Some("submit".to_string()));
}

#[test]
fn test_recaptcha_v2_with_enterprise_payload() {
    let mut payload = HashMap::new();
    payload.insert(
        "s".to_string(),
        serde_json::Value::String("SOME_TOKEN".to_string()),
    );
    let task =
        ReCaptchaV2::new("https://example.com", "site-key").with_enterprise_payload(payload.clone());
    assert!(task.is_enterprise());
    assert_eq!(task.enterprise_payload, Some(payload));
}

#[test]
fn test_recaptcha_v2_with_proxy() {
    let proxy = ProxyConfig::http("192.168.1.1", 8080);
    let task = ReCaptchaV2::new("https://example.com", "site-key").with_proxy(proxy.clone());
    assert!(task.has_proxy());
    assert_eq!(task.proxy().unwrap().address, "192.168.1.1");
    assert_eq!(task.proxy().unwrap().port, 8080);
}

#[test]
fn test_recaptcha_v2_with_all_options() {
    let proxy = ProxyConfig::socks5("proxy.example.com", 1080).with_auth("user", "pass");
    let task = ReCaptchaV2::new("https://example.com", "site-key")
        .invisible()
        .enterprise()
        .with_action("verify")
        .with_api_domain("recaptcha.net")
        .with_user_agent("Mozilla/5.0")
        .with_cookies("session=abc123")
        .with_proxy(proxy);
    assert!(task.is_invisible());
    assert!(task.is_enterprise());
    assert_eq!(task.page_action, Some("verify".to_string()));
    assert_eq!(task.api_domain, Some("recaptcha.net".to_string()));
    assert_eq!(task.user_agent, Some("Mozilla/5.0".to_string()));
    assert_eq!(task.cookies, Some("session=abc123".to_string()));
    assert!(task.has_proxy());
}

#[test]
fn test_recaptcha_v2_clone() {
    let task = ReCaptchaV2::new("https://example.com", "site-key")
        .invisible()
        .enterprise();
    let cloned = task.clone();
    assert_eq!(cloned.website_url, task.website_url);
    assert_eq!(cloned.is_invisible, task.is_invisible);
    assert_eq!(cloned.is_enterprise, task.is_enterprise);
}

#[test]
fn test_recaptcha_v3_new() {
    let task = ReCaptchaV3::new("https://example.com", "site-key");
    assert_eq!(task.website_url(), "https://example.com");
    assert_eq!(task.website_key(), "site-key");
    assert!(!task.is_enterprise());
    assert!(!task.has_proxy());
    assert_eq!(task.min_score(), None);
    assert_eq!(task.action(), None);
}

#[test]
fn test_recaptcha_v3_with_action() {
    let task = ReCaptchaV3::new("https://example.com", "site-key").with_action("login");
    assert_eq!(task.action(), Some("login"));
}

#[test]
fn test_recaptcha_v3_with_min_score() {
    let task = ReCaptchaV3::new("https://example.com", "site-key").with_min_score(0.9f32.to_bits());
    assert_eq!(task.min_score().map(f32::from_bits), Some(0.9));
}

#[test]
fn test_recaptcha_v3_enterprise() {
    let task = ReCaptchaV3::new("https://example.com", "site-key").enterprise();
    assert!(task.is_enterprise());
}

#[test]
fn test_recaptcha_v3_with_all_options() {
    let proxy = ProxyConfig::http("192.168.1.1", 8080);
    let task = ReCaptchaV3::new("https://example.com", "site-key")
        .enterprise()
        .with_action("submit")
        .with_min_score(0.7f32.to_bits())
        .with_api_domain("recaptcha.net")
        .with_proxy(proxy);
    assert!(task.is_enterprise());
    assert_eq!(task.action(), Some("submit"));
    assert_eq!(task.min_score().map(f32::from_bits), Some(0.7));
    assert_eq!(task.api_domain, Some("recaptcha.net".to_string()));
    assert!(task.has_proxy());
}

#[test]
fn test_recaptcha_v3_common_scores() {
    let low = ReCaptchaV3::new("https://example.com", "key").with_min_score(0.3f32.to_bits());
    let medium = ReCaptchaV3::new("https://example.com", "key").with_min_score(0.7f32.to_bits());
    let high = ReCaptchaV3::new("https://example.com", "key").with_min_score(0.9f32.to_bits());
    assert_eq!(low.min_score().map(f32::from_bits), Some(0.3));
    assert_eq!(medium.min_score().map(f32::from_bits), Some(0.7));
    assert_eq!(high.min_score().map(f32::from_bits), Some(0.9));
}

#[test]
fn v3_enterprise_payload_marks_enterprise() {
    let mut payload = HashMap::new();
    payload.insert("s".to_string(), serde_json::Value::Bool(true));
    let task = ReCaptchaV3::new("u", "k").with_enterprise_payload(payload.clone());
    assert!(task.is_enterprise());
    assert_eq!(task.enterprise_payload, Some(payload));
}

// Image to text

#[test]
fn test_image_to_text_from_bytes() {
    let bytes = vec![0x89, 0x50, 0x4E, 0x47];
    let task = ImageToText::from_bytes(&bytes);
    assert_eq!(task.body(), standard(&bytes));
    assert!(!task.is_case_sensitive());
    assert!(!task.is_phrase());
    assert!(!task.is_math());
    assert_eq!(task.numeric, 0);
}

#[test]
fn test_image_to_text_from_base64() {
    let task = ImageToText::from_base64("aVZCT1J3MEtHZ29B");
    assert_eq!(task.body(), "aVZCT1J3MEtHZ29B");
}

#[test]
fn test_image_to_text_with_options() {
    let task = ImageToText::from_base64("base64data")
        .case_sensitive()
        .phrase()
        .numbers_only()
        .with_min_length(4)
        .with_max_length(8);
    assert!(task.is_case_sensitive());
    assert!(task.is_phrase());
    assert_eq!(task.numeric, 1);
    assert_eq!(task.min_length, 4);
    assert_eq!(task.max_length, 8);
}

#[test]
fn test_image_to_text_with_website_url() {
    let task = ImageToText::from_base64("base64data").with_website_url("https://example.com");
    assert_eq!(task.website_url, Some("https://example.com".to_string()));
}

#[test]
fn test_image_to_text_with_module() {
    let task = ImageToText::from_base64("base64data").with_module("number");
    assert_eq!(task.module, Some("number".to_string()));
}

#[test]
fn test_image_to_text_numeric_variants() {
    assert_eq!(ImageToText::from_base64("x").numbers_only().numeric, 1);
    assert_eq!(ImageToText::from_base64("x").letters_only().numeric, 2);
    assert_eq!(ImageToText::from_base64("x").numbers_or_letters().numeric, 3);
    assert_eq!(ImageToText::from_base64("x").alphanumeric().numeric, 4);
}

#[test]
fn test_image_to_text_math() {
    let task = ImageToText::from_base64("base64data").math();
    assert!(task.is_math());
}

#[test]
fn test_image_to_text_with_comment() {
    let task = ImageToText::from_base64("base64data").with_comment("Enter red text only");
    assert_eq!(task.comment, Some("Enter red text only".to_string()));
}

#[test]
fn test_image_to_text_with_img_instructions_bytes() {
    let instruction_bytes = vec![0x89, 0x50, 0x4E, 0x47];
    let task =
        ImageToText::from_base64("base64data").with_img_instructions_bytes(&instruction_bytes);
    assert_eq!(task.img_instructions, Some(standard(&instruction_bytes)));
}

#[test]
fn test_image_to_text_clone() {
    let task = ImageToText::from_base64("base64data")
        .case_sensitive()
        .with_module("common");
    let cloned = task.clone();
    assert_eq!(cloned.body, task.body);
    assert_eq!(cloned.case_sensitive, task.case_sensitive);
    assert_eq!(cloned.module, task.module);
}

#[test]
fn image_bytes_are_base64_encoded_with_padding() {
    assert_eq!(ImageToText::from_bytes(b"").body(), "");
    assert_eq!(ImageToText::from_bytes(b"M").body(), "TQ==");
    assert_eq!(ImageToText::from_bytes(b"Ma").body(), "TWE=");
    assert_eq!(ImageToText::from_bytes(b"Man").body(), "TWFu");
    let task = ImageToText::from_base64("x").with_img_instructions("aW1n").with_numeric(3);
    assert_eq!(task.img_instructions.as_deref(), Some("aW1n"));
    assert_eq!(task.numeric, 3);
}

// The unified task

#[test]
fn captcha_task_names() {
    let name = |t: CaptchaTask| t.to_string();
    assert_eq!(name(ReCaptchaV2::new("u", "k").into()), "ReCaptchaV2");
    assert_eq!(name(ReCaptchaV2::new("u", "k").invisible().into()), "ReCaptchaV2Invisible");
    assert_eq!(name(ReCaptchaV2::new("u", "k").enterprise().into()), "ReCaptchaV2Enterprise");
    assert_eq!(
        name(ReCaptchaV2::new("u", "k").invisible().enterprise().into()),
        "ReCaptchaV2InvisibleEnterprise"
    );
    assert_eq!(name(ReCaptchaV3::new("u", "k").into()), "ReCaptchaV3");
    assert_eq!(name(ReCaptchaV3::new("u", "k").enterprise().into()), "ReCaptchaV3Enterprise");
    assert_eq!(name(Turnstile::new("u", "k").into()), "Turnstile");
    assert_eq!(
        name(CloudflareChallenge::new("u", ProxyConfig::http("h", 1)).into()),
        "CloudflareChallenge"
    );
    assert_eq!(
        name(TurnstileChallenge::token("u", "k", "a", "d", "p", "ua").into()),
        "TurnstileChallenge"
    );
    assert_eq!(
        name(TurnstileWaitRoom::new("u", "k", "h", "ua", ProxyConfig::http("h", 1)).into()),
        "TurnstileWaitRoom"
    );
    assert_eq!(name(ImageToText::from_base64("x").into()), "ImageToText");
}

#[test]
fn captcha_task_from_keeps_the_task() {
    let task = CaptchaTask::from(ReCaptchaV2::new("https://example.com", "site-key").enterprise());
    match task {
        CaptchaTask::ReCaptchaV2(t) => {
            assert_eq!(t.website_url, "https://example.com");
            assert!(t.is_enterprise);
        }
        _ => panic!("expected a reCAPTCHA V2 task"),
    }
}
