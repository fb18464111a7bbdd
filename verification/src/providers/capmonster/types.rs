//! CapMonster Cloud task payloads, their validation, and solutions.

use vstd::prelude::*;
use super::errors::CapmonsterError;
use crate::errors::{push_if, UnsupportedTaskError};
use crate::proxy::{ApiProxyFields, ProxyConfig};
use crate::tasks::turnstile_challenge::cloudflare_task_type;
use crate::tasks::{
    task_name, CaptchaTask, EnterprisePayload, ImageToText, ReCaptchaV2, ReCaptchaV3, Turnstile,
    TurnstileChallenge, TurnstileChallengeMode, TurnstileWaitRoom,
};
use crate::text::str_eq;

pub use crate::solutions::{ImageToTextSolution, ReCaptchaSolution, TurnstileSolution};

verus! {

/// A CapMonster `createTask` payload, one variant per task type. The
/// reCAPTCHA V3 `min_score` is the bit pattern of the `f32` score.
#[derive(Debug, Clone)]
pub enum CapmonsterTask {
    /// reCAPTCHA V2.
    RecaptchaV2Task {
        website_url: String,
        website_key: String,
        recaptcha_data_s_value: Option<String>,
        user_agent: Option<String>,
        cookies: Option<String>,
        is_invisible: Option<bool>,
        proxy: Option<ApiProxyFields>,
    },
    /// reCAPTCHA V2 Enterprise.
    RecaptchaV2EnterpriseTask {
        website_url: String,
        website_key: String,
        page_action: Option<String>,
        enterprise_payload: Option<EnterprisePayload>,
        api_domain: Option<String>,
        user_agent: Option<String>,
        cookies: Option<String>,
        is_invisible: Option<bool>,
        proxy: Option<ApiProxyFields>,
    },
    /// reCAPTCHA V3.
    RecaptchaV3TaskProxyless {
        website_url: String,
        website_key: String,
        min_score: Option<u32>,
        page_action: Option<String>,
        is_enterprise: Option<bool>,
    },
    /// reCAPTCHA V3 Enterprise.
    RecaptchaV3EnterpriseTask {
        website_url: String,
        website_key: String,
        min_score: Option<u32>,
        page_action: Option<String>,
    },
    /// Turnstile, Turnstile challenge and waiting room, told apart by
    /// `cloudflare_task_type`.
    TurnstileTask {
        website_url: String,
        website_key: String,
        page_action: Option<String>,
        data: Option<String>,
        page_data: Option<String>,
        cloudflare_task_type: Option<String>,
        api_js_url: Option<String>,
        html_page_base64: Option<String>,
        user_agent: Option<String>,
        proxy: Option<ApiProxyFields>,
    },
    /// Image to text.
    ImageToTextTask {
        body: String,
        module: Option<String>,
    },
}

/// The payload proxy fields of a proxy configuration.
pub open spec fn api_fields(p: ProxyConfig) -> ApiProxyFields {
    ApiProxyFields {
        proxy_type: p.proxy_type,
        proxy_address: p.address,
        proxy_port: p.port,
        proxy_login: p.login,
        proxy_password: p.password,
    }
}

/// The payload proxy fields of an optional proxy configuration.
pub open spec fn opt_api_fields(p: Option<ProxyConfig>) -> Option<ApiProxyFields> {
    match p {
        Some(q) => Some(api_fields(q)),
        None => None,
    }
}

fn to_api_fields(p: Option<ProxyConfig>) -> (f: Option<ApiProxyFields>)
    ensures
        f == opt_api_fields(p),
{
    match p {
        Some(q) => Some(q.into_api_proxy_fields()),
        None => None,
    }
}

/// The fields of a reCAPTCHA V2 task that CapMonster cannot carry, in order:
/// for an enterprise task the data-s value; otherwise the page action, the
/// API domain and the enterprise payload.
pub open spec fn capmonster_v2_unsupported(t: ReCaptchaV2) -> Seq<&'static str> {
    if t.is_enterprise {
        if t.recaptcha_data_s_value is Some {
            seq!["recaptcha_data_s_value"]
        } else {
            seq![]
        }
    } else {
        let a: Seq<&'static str> = if t.page_action is Some { seq!["page_action"] } else { seq![] };
        let b: Seq<&'static str> = if t.api_domain is Some { seq!["api_domain"] } else { seq![] };
        let c: Seq<&'static str> = if t.enterprise_payload is Some {
            seq!["enterprise_payload"]
        } else {
            seq![]
        };
        a + b + c
    }
}

/// The CapMonster payload of a reCAPTCHA V2 task whose fields CapMonster can
/// all carry.
pub open spec fn capmonster_v2(t: ReCaptchaV2) -> CapmonsterTask {
    let is_invisible = if t.is_invisible { Some(true) } else { None };
    if t.is_enterprise {
        CapmonsterTask::RecaptchaV2EnterpriseTask {
            website_url: t.website_url,
            website_key: t.website_key,
            page_action: t.page_action,
            enterprise_payload: t.enterprise_payload,
            api_domain: t.api_domain,
            user_agent: t.user_agent,
            cookies: t.cookies,
            is_invisible,
            proxy: opt_api_fields(t.proxy),
        }
    } else {
        CapmonsterTask::RecaptchaV2Task {
            website_url: t.website_url,
            website_key: t.website_key,
            recaptcha_data_s_value: t.recaptcha_data_s_value,
            user_agent: t.user_agent,
            cookies: t.cookies,
            is_invisible,
            proxy: opt_api_fields(t.proxy),
        }
    }
}

/// CapMonster's reCAPTCHA V2 payload, enterprise or not, carries the task's
/// proxy: it has proxy fields exactly when the task has a proxy, and then
/// they are that proxy's type, address, port, login and password. The page,
/// site key, user agent, cookies and invisibility go along unchanged, and the
/// payload is the enterprise one exactly for an enterprise task.
pub proof fn law_capmonster_v2_payload(t: ReCaptchaV2)
    ensures
        (capmonster_v2(t) is RecaptchaV2EnterpriseTask) == t.is_enterprise,
        (match capmonster_v2(t) {
            CapmonsterTask::RecaptchaV2Task {
                website_url,
                website_key,
                user_agent,
                cookies,
                is_invisible,
                proxy,
                ..
            }
            | CapmonsterTask::RecaptchaV2EnterpriseTask {
                website_url,
                website_key,
                user_agent,
                cookies,
                is_invisible,
                proxy,
                ..
            } => {
                &&& website_url == t.website_url
                &&& website_key == t.website_key
                &&& user_agent == t.user_agent
                &&& cookies == t.cookies
                &&& (is_invisible == Some(true)) == t.is_invisible
                &&& (proxy is Some) == (t.proxy is Some)
                &&& match t.proxy {
                    Some(p) => (proxy matches Some(f) && f.proxy_type == p.proxy_type
                        && f.proxy_address == p.address && f.proxy_port == p.port && f.proxy_login
                        == p.login && f.proxy_password == p.password),
                    None => true,
                }
            },
            _ => false,
        }),
{
}

/// The fields of a reCAPTCHA V3 task that CapMonster cannot carry, in order.
pub open spec fn capmonster_v3_unsupported(t: ReCaptchaV3) -> Seq<&'static str> {
    let a: Seq<&'static str> = if t.proxy is Some { seq!["proxy"] } else { seq![] };
    let b: Seq<&'static str> = if t.api_domain is Some { seq!["api_domain"] } else { seq![] };
    let c: Seq<&'static str> = if t.enterprise_payload is Some {
        seq!["enterprise_payload"]
    } else {
        seq![]
    };
    a + b + c
}

/// The CapMonster payload of a reCAPTCHA V3 task whose fields CapMonster can
/// all carry.
pub open spec fn capmonster_v3(t: ReCaptchaV3) -> CapmonsterTask {
    if t.is_enterprise {
        CapmonsterTask::RecaptchaV3EnterpriseTask {
            website_url: t.website_url,
            website_key: t.website_key,
            min_score: t.min_score,
            page_action: t.page_action,
        }
    } else {
        CapmonsterTask::RecaptchaV3TaskProxyless {
            website_url: t.website_url,
            website_key: t.website_key,
            min_score: t.min_score,
            page_action: t.page_action,
            is_enterprise: None,
        }
    }
}

/// The CapMonster payload of a Turnstile task.
pub open spec fn capmonster_turnstile(t: Turnstile) -> CapmonsterTask {
    CapmonsterTask::TurnstileTask {
        website_url: t.website_url,
        website_key: t.website_key,
        page_action: t.action,
        data: t.cdata,
        page_data: t.pagedata,
        cloudflare_task_type: None,
        api_js_url: None,
        html_page_base64: None,
        user_agent: None,
        proxy: opt_api_fields(t.proxy),
    }
}

/// The custom proxy a payload is sent through, if any.
pub open spec fn capmonster_payload_proxy(p: CapmonsterTask) -> Option<ProxyConfig> {
    match p {
        CapmonsterTask::RecaptchaV2Task { proxy, .. }
        | CapmonsterTask::RecaptchaV2EnterpriseTask { proxy, .. }
        | CapmonsterTask::TurnstileTask { proxy, .. } => match proxy {
            Some(f) => Some(
                ProxyConfig {
                    proxy_type: f.proxy_type,
                    address: f.proxy_address,
                    port: f.proxy_port,
                    login: f.proxy_login,
                    password: f.proxy_password,
                },
            ),
            None => None,
        },
        _ => None,
    }
}

/// Whether `p` is the CapMonster payload of the Turnstile challenge `t`: the
/// mode's task type, and the user agent always sent.
pub open spec fn is_capmonster_challenge(t: TurnstileChallenge, p: CapmonsterTask) -> bool {
    p matches CapmonsterTask::TurnstileTask {
        website_url,
        website_key,
        page_action,
        data,
        page_data,
        cloudflare_task_type: Some(task_type),
        api_js_url,
        html_page_base64,
        user_agent: Some(ua),
        proxy,
    } && website_url == t.website_url && website_key == t.website_key && page_action
        == t.page_action && data == t.data && page_data == t.page_data && task_type@
        == cloudflare_task_type(t.mode) && api_js_url == t.api_js_url && html_page_base64
        == t.html_page_base64 && ua == t.user_agent && proxy == opt_api_fields(t.proxy)
}

/// Whether `p` is the CapMonster payload of the waiting room `t`.
pub open spec fn is_capmonster_wait_room(t: TurnstileWaitRoom, p: CapmonsterTask) -> bool {
    p matches CapmonsterTask::TurnstileTask {
        website_url,
        website_key,
        page_action: None,
        data: None,
        page_data: None,
        cloudflare_task_type: Some(task_type),
        api_js_url: None,
        html_page_base64: Some(html),
        user_agent: Some(ua),
        proxy: Some(proxy),
    } && website_url == t.website_url && website_key == t.website_key && task_type@
        == "wait_room"@ && html == t.html_page_base64 && ua == t.user_agent && proxy == api_fields(
        t.proxy,
    )
}

/// The fields of an image-to-text task that CapMonster cannot carry, in
/// order.
pub open spec fn capmonster_image_unsupported(t: ImageToText) -> Seq<&'static str> {
    let a: Seq<&'static str> = if t.phrase { seq!["phrase"] } else { seq![] };
    let b: Seq<&'static str> = if t.case_sensitive { seq!["case_sensitive"] } else { seq![] };
    let c: Seq<&'static str> = if t.numeric != 0 { seq!["numeric"] } else { seq![] };
    let d: Seq<&'static str> = if t.math { seq!["math"] } else { seq![] };
    let e: Seq<&'static str> = if t.min_length > 0 { seq!["min_length"] } else { seq![] };
    let f: Seq<&'static str> = if t.max_length > 0 { seq!["max_length"] } else { seq![] };
    let g: Seq<&'static str> = if t.comment is Some { seq!["comment"] } else { seq![] };
    let h: Seq<&'static str> = if t.img_instructions is Some {
        seq!["img_instructions"]
    } else {
        seq![]
    };
    a + b + c + d + e + f + g + h
}

/// Whether `e` lists exactly `fields` as what CapMonster cannot carry of a
/// task of type `task_type`.
pub open spec fn capmonster_rejects(
    e: UnsupportedTaskError,
    task_type: Seq<char>,
    fields: Seq<&'static str>,
) -> bool {
    &&& e.task_type@ == task_type
    &&& e.provider@ == "CapMonster"@
    &&& e.unsupported_fields@ == fields
}

/// The display name of a payload's task kind.
pub open spec fn capmonster_task_name(t: CapmonsterTask) -> Seq<char> {
    match t {
        CapmonsterTask::RecaptchaV2Task { .. } => "ReCaptchaV2"@,
        CapmonsterTask::RecaptchaV2EnterpriseTask { .. } => "ReCaptchaV2Enterprise"@,
        CapmonsterTask::RecaptchaV3TaskProxyless { is_enterprise, .. } => if is_enterprise == Some(
            true,
        ) {
            "ReCaptchaV3Enterprise"@
        } else {
            "ReCaptchaV3"@
        },
        CapmonsterTask::RecaptchaV3EnterpriseTask { .. } => "ReCaptchaV3Enterprise"@,
        CapmonsterTask::TurnstileTask { cloudflare_task_type, .. } => match cloudflare_task_type {
            Some(k) => if k@ == "token"@ {
                "TurnstileChallenge"@
            } else if k@ == "cf_clearance"@ {
                "TurnstileChallengeCfClearance"@
            } else if k@ == "wait_room"@ {
                "TurnstileWaitRoom"@
            } else {
                "Turnstile"@
            },
            None => "Turnstile"@,
        },
        CapmonsterTask::ImageToTextTask { .. } => "ImageToText"@,
    }
}

/// CapMonster's reCAPTCHA V3 payload bears the task's own name, so it is
/// an enterprise one exactly for an enterprise task; it goes through no
/// custom proxy and keeps the page, site key, score and action.
pub proof fn law_capmonster_v3_payload(t: ReCaptchaV3)
    ensures
        capmonster_task_name(capmonster_v3(t)) == task_name(CaptchaTask::ReCaptchaV3(t)),
        capmonster_payload_proxy(capmonster_v3(t)) is None,
        (match capmonster_v3(t) {
            CapmonsterTask::RecaptchaV3TaskProxyless {
                website_url,
                website_key,
                min_score,
                page_action,
                ..
            }
            | CapmonsterTask::RecaptchaV3EnterpriseTask {
                website_url,
                website_key,
                min_score,
                page_action,
            } => {
                &&& website_url == t.website_url
                &&& website_key == t.website_key
                &&& min_score == t.min_score
                &&& page_action == t.page_action
            },
            _ => false,
        }),
{
}

/// CapMonster's Turnstile payload goes through exactly the task's proxy,
/// bears the plain Turnstile name, and carries the page, site key, action,
/// cdata and page data unchanged.
pub proof fn law_capmonster_turnstile_payload(t: Turnstile)
    ensures
        capmonster_payload_proxy(capmonster_turnstile(t)) == t.proxy,
        capmonster_task_name(capmonster_turnstile(t)) == task_name(CaptchaTask::Turnstile(t)),
        (match capmonster_turnstile(t) {
            CapmonsterTask::TurnstileTask { website_url, website_key, page_action, data, page_data, .. } => {
                &&& website_url == t.website_url
                &&& website_key == t.website_key
                &&& page_action == t.action
                &&& data == t.cdata
                &&& page_data == t.pagedata
            },
            _ => false,
        }),
{
}

/// The `minScore` range CapMonster takes, 0.1 to 0.9, as `f32` bit patterns:
/// for non-negative scores the bit patterns order as the values do, and
/// negative, NaN and infinite scores fall outside.
pub const MIN_SCORE_LOW_BITS: u32 = 0x3DCC_CCCD;

/// The bit pattern of the `f32` score 0.9.
pub const MIN_SCORE_HIGH_BITS: u32 = 0x3F66_6666;

/// Why CapMonster would refuse a payload, if it would: a V3 score outside
/// 0.1..=0.9, or a Turnstile challenge or waiting room that lacks a field
/// its mode needs.
pub open spec fn capmonster_task_problem(task: CapmonsterTask) -> Option<Seq<char>> {
    match task {
        CapmonsterTask::RecaptchaV3TaskProxyless { min_score: Some(s), .. }
        | CapmonsterTask::RecaptchaV3EnterpriseTask { min_score: Some(s), .. } => if !(
        MIN_SCORE_LOW_BITS <= s <= MIN_SCORE_HIGH_BITS) {
            Some("minScore must be in range 0.1..=0.9"@)
        } else {
            None
        },
        CapmonsterTask::TurnstileTask {
            cloudflare_task_type: Some(k),
            page_action,
            data,
            page_data,
            user_agent,
            html_page_base64,
            proxy,
            ..
        } => if k@ == "token"@ {
            if page_action is None || data is None || page_data is None || user_agent is None {
                Some(
                    "Turnstile challenge token mode requires pageAction, data, pageData and userAgent"@,
                )
            } else {
                None
            }
        } else if k@ == "cf_clearance"@ {
            if html_page_base64 is None || user_agent is None || proxy is None {
                Some(
                    "Turnstile challenge cf_clearance mode requires htmlPageBase64, userAgent and proxy"@,
                )
            } else {
                None
            }
        } else if k@ == "wait_room"@ {
            if html_page_base64 is None || user_agent is None || proxy is None {
                Some("Turnstile wait_room mode requires htmlPageBase64, userAgent and proxy"@)
            } else {
                None
            }
        } else {
            None
        },
        _ => None,
    }
}

/// Checks a payload against CapMonster's rules before it is sent.
pub fn validate_task(task: &CapmonsterTask) -> (r: Result<(), CapmonsterError>)
    ensures
        match capmonster_task_problem(*task) {
            None => r is Ok,
            Some(msg) => r matches Err(CapmonsterError::InvalidTaskData(m)) && m@ == msg,
        },
{
    match task {
        CapmonsterTask::RecaptchaV3TaskProxyless { min_score: Some(s), .. }
        | CapmonsterTask::RecaptchaV3EnterpriseTask { min_score: Some(s), .. } => {
            if !(MIN_SCORE_LOW_BITS <= *s && *s <= MIN_SCORE_HIGH_BITS) {
                return Err(
                    CapmonsterError::InvalidTaskData(
                        "minScore must be in range 0.1..=0.9".to_string(),
                    ),
                );
            }
            Ok(())
        },
        CapmonsterTask::TurnstileTask {
            cloudflare_task_type: Some(k),
            page_action,
            data,
            page_data,
            user_agent,
            html_page_base64,
            proxy,
            ..
        } => {
            if str_eq(k.as_str(), "token") {
                if page_action.is_none() || data.is_none() || page_data.is_none()
                    || user_agent.is_none() {
                    return Err(
                        CapmonsterError::InvalidTaskData(
                            "Turnstile challenge token mode requires pageAction, data, pageData and userAgent".to_string(),
                        ),
                    );
                }
            } else if str_eq(k.as_str(), "cf_clearance") {
                if html_page_base64.is_none() || user_agent.is_none() || proxy.is_none() {
                    return Err(
                        CapmonsterError::InvalidTaskData(
                            "Turnstile challenge cf_clearance mode requires htmlPageBase64, userAgent and proxy".to_string(),
                        ),
                    );
                }
            } else if str_eq(k.as_str(), "wait_room") {
                if html_page_base64.is_none() || user_agent.is_none() || proxy.is_none() {
                    return Err(
                        CapmonsterError::InvalidTaskData(
                            "Turnstile wait_room mode requires htmlPageBase64, userAgent and proxy".to_string(),
                        ),
                    );
                }
            }
            Ok(())
        },
        _ => Ok(()),
    }
}

/// Whether a Turnstile challenge has what its mode needs: in token mode the
/// action, data and page data; in `cf_clearance` mode the page HTML and a
/// proxy.
pub open spec fn challenge_complete(t: TurnstileChallenge) -> bool {
    match t.mode {
        TurnstileChallengeMode::Token => t.page_action is Some && t.data is Some && t.page_data is Some,
        TurnstileChallengeMode::CfClearance => t.html_page_base64 is Some && t.proxy is Some,
    }
}

/// CapMonster's validation refuses the payload of a Turnstile challenge
/// exactly when the challenge lacks what its mode needs.
pub proof fn law_challenge_validation(t: TurnstileChallenge, p: CapmonsterTask)
    requires
        is_capmonster_challenge(t, p),
    ensures
        (capmonster_task_problem(p) is None) <==> challenge_complete(t),
{
    reveal_strlit("token");
    reveal_strlit("cf_clearance");
    reveal_strlit("wait_room");
    assert("cf_clearance"@.len() != "token"@.len());
}

/// The payload of a waiting room always passes CapMonster's validation.
pub proof fn law_wait_room_validation(t: TurnstileWaitRoom, p: CapmonsterTask)
    requires
        is_capmonster_wait_room(t, p),
    ensures
        capmonster_task_problem(p) is None,
{
    reveal_strlit("token");
    reveal_strlit("cf_clearance");
    reveal_strlit("wait_room");
    assert("wait_room"@.len() != "token"@.len());
    assert("wait_room"@.len() != "cf_clearance"@.len());
}

/// CapMonster's validation of a reCAPTCHA V3 payload, enterprise or not,
/// goes by the score alone: a score that is set and lies outside 0.1..=0.9
/// (as bit patterns) is refused with the `minScore` message, and an unset or
/// in-range score passes.
pub proof fn law_capmonster_v3_score_check(p: CapmonsterTask)
    ensures
        (match p {
            CapmonsterTask::RecaptchaV3TaskProxyless { min_score, .. }
            | CapmonsterTask::RecaptchaV3EnterpriseTask { min_score, .. } => {
                &&& (min_score matches Some(s) && !(MIN_SCORE_LOW_BITS <= s
                    && s <= MIN_SCORE_HIGH_BITS)) ==> capmonster_task_problem(p) == Some(
                    "minScore must be in range 0.1..=0.9"@,
                )
                &&& !(min_score matches Some(s) && !(MIN_SCORE_LOW_BITS <= s
                    && s <= MIN_SCORE_HIGH_BITS)) ==> capmonster_task_problem(p) is None
            },
            _ => true,
        }),
{
}

/// The payload CapMonster is sent for any reCAPTCHA V3 task, enterprise or
/// not, is refused with the `minScore` message exactly when the task's score
/// is set and lies outside 0.1..=0.9.
pub proof fn law_capmonster_v3_task_score(t: ReCaptchaV3)
    ensures
        (t.min_score matches Some(s) && !(MIN_SCORE_LOW_BITS <= s && s <= MIN_SCORE_HIGH_BITS))
            ==> capmonster_task_problem(capmonster_v3(t)) == Some(
            "minScore must be in range 0.1..=0.9"@,
        ),
        !(t.min_score matches Some(s) && !(MIN_SCORE_LOW_BITS <= s && s <= MIN_SCORE_HIGH_BITS))
            ==> capmonster_task_problem(capmonster_v3(t)) is None,
{
}

impl CapmonsterTask {
    /// The display name of the payload's task kind.
    pub fn name(&self) -> (s: &'static str)
        ensures
            s@ == capmonster_task_name(*self),
    {
        match self {
            CapmonsterTask::RecaptchaV2Task { .. } => "ReCaptchaV2",
            CapmonsterTask::RecaptchaV2EnterpriseTask { .. } => "ReCaptchaV2Enterprise",
            CapmonsterTask::RecaptchaV3TaskProxyless { is_enterprise, .. } => match is_enterprise {
                Some(true) => "ReCaptchaV3Enterprise",
                _ => "ReCaptchaV3",
            },
            CapmonsterTask::RecaptchaV3EnterpriseTask { .. } => "ReCaptchaV3Enterprise",
            CapmonsterTask::TurnstileTask { cloudflare_task_type, .. } => match cloudflare_task_type {
                Some(k) => if str_eq(k.as_str(), "token") {
                    "TurnstileChallenge"
                } else if str_eq(k.as_str(), "cf_clearance") {
                    "TurnstileChallengeCfClearance"
                } else if str_eq(k.as_str(), "wait_room") {
                    "TurnstileWaitRoom"
                } else {
                    "Turnstile"
                },
                None => "Turnstile",
            },
            CapmonsterTask::ImageToTextTask { .. } => "ImageToText",
        }
    }

    /// The display name, as an owned string.
    pub fn to_string(&self) -> (s: String)
        ensures
            s@ == capmonster_task_name(*self),
    {
        self.name().to_string()
    }

    /// The CapMonster payload of a reCAPTCHA V2 task, or the fields that
    /// CapMonster cannot carry.
    pub fn from_recaptcha_v2(t: ReCaptchaV2) -> (r: Result<CapmonsterTask, UnsupportedTaskError>)
        ensures
            capmonster_v2_unsupported(t).len() == 0 ==> r == Ok::<_, UnsupportedTaskError>(
                capmonster_v2(t),
            ),
            capmonster_v2_unsupported(t).len() > 0 ==> (r matches Err(e) && capmonster_rejects(
                e,
                "ReCaptchaV2"@,
                capmonster_v2_unsupported(t),
            )),
    {
        let mut unsupported: Vec<&'static str> = Vec::new();
        if t.is_enterprise {
            push_if(&mut unsupported, t.recaptcha_data_s_value.is_some(), "recaptcha_data_s_value");
        } else {
            push_if(&mut unsupported, t.page_action.is_some(), "page_action");
            push_if(&mut unsupported, t.api_domain.is_some(), "api_domain");
            push_if(&mut unsupported, t.enterprise_payload.is_some(), "enterprise_payload");
        }
        proof {
            assert(unsupported@ =~= capmonster_v2_unsupported(t));
        }
        if unsupported.len() > 0 {
            return Err(UnsupportedTaskError::unsupported_fields("ReCaptchaV2", "CapMonster", unsupported));
        }
        let is_invisible = if t.is_invisible { Some(true) } else { None };
        let proxy = to_api_fields(t.proxy);
        if t.is_enterprise {
            Ok(CapmonsterTask::RecaptchaV2EnterpriseTask {
                website_url: t.website_url,
                website_key: t.website_key,
                page_action: t.page_action,
                enterprise_payload: t.enterprise_payload,
                api_domain: t.api_domain,
                user_agent: t.user_agent,
                cookies: t.cookies,
                is_invisible,
                proxy,
            })
        } else {
            Ok(CapmonsterTask::RecaptchaV2Task {
                website_url: t.website_url,
                website_key: t.website_key,
                recaptcha_data_s_value: t.recaptcha_data_s_value,
                user_agent: t.user_agent,
                cookies: t.cookies,
                is_invisible,
                proxy,
            })
        }
    }

    /// The CapMonster payload of a reCAPTCHA V3 task, or the fields that
    /// CapMonster cannot carry.
    pub fn from_recaptcha_v3(t: ReCaptchaV3) -> (r: Result<CapmonsterTask, UnsupportedTaskError>)
        ensures
            capmonster_v3_unsupported(t).len() == 0 ==> r == Ok::<_, UnsupportedTaskError>(
                capmonster_v3(t),
            ),
            capmonster_v3_unsupported(t).len() > 0 ==> (r matches Err(e) && capmonster_rejects(
                e,
                "ReCaptchaV3"@,
                capmonster_v3_unsupported(t),
            )),
    {
        let mut unsupported: Vec<&'static str> = Vec::new();
        push_if(&mut unsupported, t.proxy.is_some(), "proxy");
        push_if(&mut unsupported, t.api_domain.is_some(), "api_domain");
        push_if(&mut unsupported, t.enterprise_payload.is_some(), "enterprise_payload");
        proof {
            assert(unsupported@ =~= capmonster_v3_unsupported(t));
        }
        if unsupported.len() > 0 {
            return Err(UnsupportedTaskError::unsupported_fields("ReCaptchaV3", "CapMonster", unsupported));
        }
        if t.is_enterprise {
            Ok(CapmonsterTask::RecaptchaV3EnterpriseTask {
                website_url: t.website_url,
                website_key: t.website_key,
                min_score: t.min_score,
                page_action: t.page_action,
            })
        } else {
            Ok(CapmonsterTask::RecaptchaV3TaskProxyless {
                website_url: t.website_url,
                website_key: t.website_key,
                min_score: t.min_score,
                page_action: t.page_action,
                is_enterprise: None,
            })
        }
    }

    /// The CapMonster payload of a Turnstile task.
    pub fn from_turnstile(t: Turnstile) -> (r: CapmonsterTask)
        ensures
            r == capmonster_turnstile(t),
    {
        CapmonsterTask::TurnstileTask {
            website_url: t.website_url,
            website_key: t.website_key,
            page_action: t.action,
            data: t.cdata,
            page_data: t.pagedata,
            cloudflare_task_type: None,
            api_js_url: None,
            html_page_base64: None,
            user_agent: None,
            proxy: to_api_fields(t.proxy),
        }
    }

    /// The CapMonster payload of a Turnstile challenge.
    pub fn from_turnstile_challenge(t: TurnstileChallenge) -> (r: CapmonsterTask)
        ensures
            is_capmonster_challenge(t, r),
    {
        let cloudflare_task_type = Some(t.mode.as_cloudflare_task_type().to_string());
        CapmonsterTask::TurnstileTask {
            website_url: t.website_url,
            website_key: t.website_key,
            page_action: t.page_action,
            data: t.data,
            page_data: t.page_data,
            cloudflare_task_type,
            api_js_url: t.api_js_url,
            html_page_base64: t.html_page_base64,
            user_agent: Some(t.user_agent),
            proxy: to_api_fields(t.proxy),
        }
    }

    /// The CapMonster payload of a waiting room.
    pub fn from_turnstile_wait_room(t: TurnstileWaitRoom) -> (r: CapmonsterTask)
        ensures
            is_capmonster_wait_room(t, r),
    {
        CapmonsterTask::TurnstileTask {
            website_url: t.website_url,
            website_key: t.website_key,
            page_action: None,
            data: None,
            page_data: None,
            cloudflare_task_type: Some("wait_room".to_string()),
            api_js_url: None,
            html_page_base64: Some(t.html_page_base64),
            user_agent: Some(t.user_agent),
            proxy: Some(t.proxy.into_api_proxy_fields()),
        }
    }

    /// The CapMonster payload of an image-to-text task, or the options that
    /// CapMonster cannot carry. The website URL is not sent.
    pub fn from_image_to_text(t: ImageToText) -> (r: Result<CapmonsterTask, UnsupportedTaskError>)
        ensures
            capmonster_image_unsupported(t).len() == 0 ==> r == Ok::<_, UnsupportedTaskError>(
                CapmonsterTask::ImageToTextTask { body: t.body, module: t.module },
            ),
            capmonster_image_unsupported(t).len() > 0 ==> (r matches Err(e) && capmonster_rejects(
                e,
                "ImageToText"@,
                capmonster_image_unsupported(t),
            )),
    {
        let mut unsupported: Vec<&'static str> = Vec::new();
        push_if(&mut unsupported, t.phrase, "phrase");
        push_if(&mut unsupported, t.case_sensitive, "case_sensitive");
        push_if(&mut unsupported, t.numeric != 0, "numeric");
        push_if(&mut unsupported, t.math, "math");
        push_if(&mut unsupported, t.min_length > 0, "min_length");
        push_if(&mut unsupported, t.max_length > 0, "max_length");
        push_if(&mut unsupported, t.comment.is_some(), "comment");
        push_if(&mut unsupported, t.img_instructions.is_some(), "img_instructions");
        proof {
            assert(unsupported@ =~= capmonster_image_unsupported(t));
        }
        if unsupported.len() > 0 {
            return Err(UnsupportedTaskError::unsupported_fields("ImageToText", "CapMonster", unsupported));
        }
        Ok(CapmonsterTask::ImageToTextTask { body: t.body, module: t.module })
    }

    /// The CapMonster payload of any task. Full-page Cloudflare challenges
    /// are not supported (use a Turnstile challenge in `cf_clearance` mode).
    pub fn try_from(task: CaptchaTask) -> (r: Result<CapmonsterTask, UnsupportedTaskError>)
        ensures
            match task {
                CaptchaTask::ReCaptchaV2(t) => {
                    &&& capmonster_v2_unsupported(t).len() == 0 ==> r == Ok::<
                        _,
                        UnsupportedTaskError,
                    >(capmonster_v2(t))
                    &&& capmonster_v2_unsupported(t).len() > 0 ==> (r matches Err(e)
                        && capmonster_rejects(e, "ReCaptchaV2"@, capmonster_v2_unsupported(t)))
                },
                CaptchaTask::ReCaptchaV3(t) => {
                    &&& capmonster_v3_unsupported(t).len() == 0 ==> r == Ok::<
                        _,
                        UnsupportedTaskError,
                    >(capmonster_v3(t))
                    &&& capmonster_v3_unsupported(t).len() > 0 ==> (r matches Err(e)
                        && capmonster_rejects(e, "ReCaptchaV3"@, capmonster_v3_unsupported(t)))
                },
                CaptchaTask::Turnstile(t) => r == Ok::<_, UnsupportedTaskError>(
                    capmonster_turnstile(t),
                ),
                CaptchaTask::TurnstileChallenge(t) => r matches Ok(p) && is_capmonster_challenge(
                    t,
                    p,
                ),
                CaptchaTask::TurnstileWaitRoom(t) => r matches Ok(p) && is_capmonster_wait_room(
                    t,
                    p,
                ),
                CaptchaTask::CloudflareChallenge(_) => r matches Err(e) && e.whole_task_unsupported(
                    "CloudflareChallenge"@,
                    "CapMonster"@,
                ),
                CaptchaTask::ImageToText(t) => {
                    &&& capmonster_image_unsupported(t).len() == 0 ==> r == Ok::<
                        _,
                        UnsupportedTaskError,
                    >(CapmonsterTask::ImageToTextTask { body: t.body, module: t.module })
                    &&& capmonster_image_unsupported(t).len() > 0 ==> (r matches Err(e)
                        && capmonster_rejects(e, "ImageToText"@, capmonster_image_unsupported(t)))
                },
            },
    {
        match task {
            CaptchaTask::ReCaptchaV2(t) => Self::from_recaptcha_v2(t),
            CaptchaTask::ReCaptchaV3(t) => Self::from_recaptcha_v3(t),
            CaptchaTask::Turnstile(t) => Ok(Self::from_turnstile(t)),
            CaptchaTask::TurnstileChallenge(t) => Ok(Self::from_turnstile_challenge(t)),
            CaptchaTask::TurnstileWaitRoom(t) => Ok(Self::from_turnstile_wait_room(t)),
            CaptchaTask::CloudflareChallenge(_) => Err(
                UnsupportedTaskError::new("CloudflareChallenge", "CapMonster"),
            ),
            CaptchaTask::ImageToText(t) => Self::from_image_to_text(t),
        }
    }
}

/// A CapMonster solution.
#[derive(Debug, Clone)]
pub enum CapmonsterSolution {
    /// Image to text (tried first when reading a response: only it has a
    /// `text` field).
    ImageToText(ImageToTextSolution),
    /// reCAPTCHA (V2 or V3).
    ReCaptcha(ReCaptchaSolution),
    /// Turnstile and its challenge modes.
    Turnstile(TurnstileSolution),
}

impl crate::solutions::ProviderSolution for CapmonsterSolution {}

impl CapmonsterSolution {
    /// The reCAPTCHA solution, if this is one.
    pub fn as_recaptcha(&self) -> (r: Option<&ReCaptchaSolution>)
        ensures
            match self {
                CapmonsterSolution::ReCaptcha(s) => r == Some(s),
                _ => r is None,
            },
    {
        match self {
            CapmonsterSolution::ReCaptcha(s) => Some(s),
            _ => None,
        }
    }

    /// The reCAPTCHA solution, or the solution itself back.
    pub fn try_into_recaptcha(self) -> (r: Result<ReCaptchaSolution, Box<Self>>)
        ensures
            match self {
                CapmonsterSolution::ReCaptcha(s) => r == Ok::<_, Box<Self>>(s),
                _ => r matches Err(b) && *b == self,
            },
    {
        match self {
            CapmonsterSolution::ReCaptcha(s) => Ok(s),
            other => Err(Box::new(other)),
        }
    }

    /// The reCAPTCHA solution; the solution must be one.
    pub fn into_recaptcha(self) -> (r: ReCaptchaSolution)
        requires
            self is ReCaptcha,
        ensures
            self == CapmonsterSolution::ReCaptcha(r),
    {
        match self {
            CapmonsterSolution::ReCaptcha(s) => s,
            _ => unreached(),
        }
    }

    /// The Turnstile solution, if this is one.
    pub fn as_turnstile(&self) -> (r: Option<&TurnstileSolution>)
        ensures
            match self {
                CapmonsterSolution::Turnstile(s) => r == Some(s),
                _ => r is None,
            },
    {
        match self {
            CapmonsterSolution::Turnstile(s) => Some(s),
            _ => None,
        }
    }

    /// The Turnstile solution, or the solution itself back.
    pub fn try_into_turnstile(self) -> (r: Result<TurnstileSolution, Box<Self>>)
        ensures
            match self {
                CapmonsterSolution::Turnstile(s) => r == Ok::<_, Box<Self>>(s),
                _ => r matches Err(b) && *b == self,
            },
    {
        match self {
            CapmonsterSolution::Turnstile(s) => Ok(s),
            other => Err(Box::new(other)),
        }
    }

    /// The Turnstile solution; the solution must be one.
    pub fn into_turnstile(self) -> (r: TurnstileSolution)
        requires
            self is Turnstile,
        ensures
            self == CapmonsterSolution::Turnstile(r),
    {
        match self {
            CapmonsterSolution::Turnstile(s) => s,
            _ => unreached(),
        }
    }

    /// The image-to-text solution, if this is one.
    pub fn as_image_to_text(&self) -> (r: Option<&ImageToTextSolution>)
        ensures
            match self {
                CapmonsterSolution::ImageToText(s) => r == Some(s),
                _ => r is None,
            },
    {
        match self {
            CapmonsterSolution::ImageToText(s) => Some(s),
            _ => None,
        }
    }

    /// The image-to-text solution, or the solution itself back.
    pub fn try_into_image_to_text(self) -> (r: Result<ImageToTextSolution, Box<Self>>)
        ensures
            match self {
                CapmonsterSolution::ImageToText(s) => r == Ok::<_, Box<Self>>(s),
                _ => r matches Err(b) && *b == self,
            },
    {
        match self {
            CapmonsterSolution::ImageToText(s) => Ok(s),
            other => Err(Box::new(other)),
        }
    }

    /// The image-to-text solution; the solution must be one.
    pub fn into_image_to_text(self) -> (r: ImageToTextSolution)
        requires
            self is ImageToText,
        ensures
            self == CapmonsterSolution::ImageToText(r),
    {
        match self {
            CapmonsterSolution::ImageToText(s) => s,
            _ => unreached(),
        }
    }
}

} // verus!
