//! RuCaptcha task payloads and solutions.

use vstd::prelude::*;
use crate::errors::{push_if, UnsupportedTaskError};
use crate::proxy::{opt_view, ProxyConfig, ProxyType};
use crate::tasks::{task_name, CaptchaTask, ReCaptchaV2, ReCaptchaV3, Turnstile};

verus! {

/// A RuCaptcha `createTask` payload, one variant per task type. Proxy types
/// are sent in RuCaptcha's form (https as http).
#[derive(Debug, Clone)]
pub enum RucaptchaTask {
    /// reCAPTCHA V2 through RuCaptcha's own proxies.
    RecaptchaV2TaskProxyless {
        website_url: String,
        website_key: String,
        recaptcha_data_s_value: Option<String>,
        is_invisible: Option<bool>,
        user_agent: Option<String>,
        cookies: Option<String>,
        api_domain: Option<String>,
    },
    /// reCAPTCHA V2 through a custom proxy.
    RecaptchaV2Task {
        website_url: String,
        website_key: String,
        recaptcha_data_s_value: Option<String>,
        is_invisible: Option<bool>,
        user_agent: Option<String>,
        cookies: Option<String>,
        api_domain: Option<String>,
        proxy_type: ProxyType,
        proxy_address: String,
        proxy_port: u16,
        proxy_login: Option<String>,
        proxy_password: Option<String>,
    },
    /// reCAPTCHA V2 Enterprise through RuCaptcha's own proxies.
    RecaptchaV2EnterpriseTaskProxyless {
        website_url: String,
        website_key: String,
        enterprise_payload: Option<serde_json::Value>,
        is_invisible: Option<bool>,
        user_agent: Option<String>,
        cookies: Option<String>,
        api_domain: Option<String>,
    },
    /// reCAPTCHA V2 Enterprise through a custom proxy.
    RecaptchaV2EnterpriseTask {
        website_url: String,
        website_key: String,
        enterprise_payload: Option<serde_json::Value>,
        is_invisible: Option<bool>,
        user_agent: Option<String>,
        cookies: Option<String>,
        api_domain: Option<String>,
        proxy_type: ProxyType,
        proxy_address: String,
        proxy_port: u16,
        proxy_login: Option<String>,
        proxy_password: Option<String>,
    },
    /// reCAPTCHA V3 (enterprise when `is_enterprise` is `Some(true)`).
    /// `min_score` is the bit pattern of the `f32` score.
    RecaptchaV3TaskProxyless {
        website_url: String,
        website_key: String,
        min_score: u32,
        page_action: Option<String>,
        is_enterprise: Option<bool>,
        api_domain: Option<String>,
    },
    /// Cloudflare Turnstile through RuCaptcha's own proxies.
    TurnstileTaskProxyless {
        website_url: String,
        website_key: String,
        action: Option<String>,
        data: Option<String>,
        pagedata: Option<String>,
    },
    /// Cloudflare Turnstile through a custom proxy.
    TurnstileTask {
        website_url: String,
        website_key: String,
        action: Option<String>,
        data: Option<String>,
        pagedata: Option<String>,
        proxy_type: ProxyType,
        proxy_address: String,
        proxy_port: u16,
        proxy_login: Option<String>,
        proxy_password: Option<String>,
    },
}

/// Turnstile widget attributes.
#[derive(Debug, Clone)]
pub struct TurnstileMetadata {
    /// Value of `data-action`.
    pub action: Option<String>,
    /// Value of `data-cdata`.
    pub data: Option<String>,
    /// Value of `chlPageData`.
    pub pagedata: Option<String>,
}

impl Default for TurnstileMetadata {
    fn default() -> (m: Self)
        ensures
            m.action is None,
            m.data is None,
            m.pagedata is None,
    {
        TurnstileMetadata { action: None, data: None, pagedata: None }
    }
}

/// The bit pattern of the `f32` score 0.3, RuCaptcha's lowest V3 score, used
/// when a V3 task sets none.
pub const DEFAULT_MIN_SCORE_BITS: u32 = 0x3E99_999A;

/// The display name of a payload's task kind.
pub open spec fn rucaptcha_task_name(t: RucaptchaTask) -> Seq<char> {
    match t {
        RucaptchaTask::RecaptchaV2TaskProxyless { .. } => "ReCaptchaV2"@,
        RucaptchaTask::RecaptchaV2Task { .. } => "ReCaptchaV2"@,
        RucaptchaTask::RecaptchaV2EnterpriseTaskProxyless { .. } => "ReCaptchaV2Enterprise"@,
        RucaptchaTask::RecaptchaV2EnterpriseTask { .. } => "ReCaptchaV2Enterprise"@,
        RucaptchaTask::RecaptchaV3TaskProxyless { is_enterprise, .. } => if is_enterprise == Some(
            true,
        ) {
            "ReCaptchaV3Enterprise"@
        } else {
            "ReCaptchaV3"@
        },
        RucaptchaTask::TurnstileTaskProxyless { .. } => "Turnstile"@,
        RucaptchaTask::TurnstileTask { .. } => "Turnstile"@,
    }
}

/// The fields of a reCAPTCHA V2 task that RuCaptcha cannot carry, in
/// order: the page action, and for non-enterprise tasks the enterprise
/// payload; for enterprise tasks the data-s value and the enterprise payload
/// (which is not forwarded).
pub open spec fn rucaptcha_v2_unsupported(t: ReCaptchaV2) -> Seq<&'static str> {
    let a: Seq<&'static str> = if t.page_action is Some { seq!["page_action"] } else { seq![] };
    if t.is_enterprise {
        let b: Seq<&'static str> = if t.recaptcha_data_s_value is Some {
            seq!["recaptcha_data_s_value"]
        } else {
            seq![]
        };
        let c: Seq<&'static str> = if t.enterprise_payload is Some {
            seq!["enterprise_payload"]
        } else {
            seq![]
        };
        a + b + c
    } else {
        let c: Seq<&'static str> = if t.enterprise_payload is Some {
            seq!["enterprise_payload"]
        } else {
            seq![]
        };
        a + c
    }
}

/// The RuCaptcha payload of a reCAPTCHA V2 task whose fields RuCaptcha can
/// all carry.
pub open spec fn rucaptcha_v2(t: ReCaptchaV2) -> RucaptchaTask {
    let is_invisible = if t.is_invisible { Some(true) } else { None };
    if t.is_enterprise {
        match t.proxy {
            Some(p) => RucaptchaTask::RecaptchaV2EnterpriseTask {
                website_url: t.website_url,
                website_key: t.website_key,
                enterprise_payload: None,
                is_invisible,
                user_agent: t.user_agent,
                cookies: t.cookies,
                api_domain: t.api_domain,
                proxy_type: p.proxy_type,
                proxy_address: p.address,
                proxy_port: p.port,
                proxy_login: p.login,
                proxy_password: p.password,
            },
            None => RucaptchaTask::RecaptchaV2EnterpriseTaskProxyless {
                website_url: t.website_url,
                website_key: t.website_key,
                enterprise_payload: None,
                is_invisible,
                user_agent: t.user_agent,
                cookies: t.cookies,
                api_domain: t.api_domain,
            },
        }
    } else {
        match t.proxy {
            Some(p) => RucaptchaTask::RecaptchaV2Task {
                website_url: t.website_url,
                website_key: t.website_key,
                recaptcha_data_s_value: t.recaptcha_data_s_value,
                is_invisible,
                user_agent: t.user_agent,
                cookies: t.cookies,
                api_domain: t.api_domain,
                proxy_type: p.proxy_type,
                proxy_address: p.address,
                proxy_port: p.port,
                proxy_login: p.login,
                proxy_password: p.password,
            },
            None => RucaptchaTask::RecaptchaV2TaskProxyless {
                website_url: t.website_url,
                website_key: t.website_key,
                recaptcha_data_s_value: t.recaptcha_data_s_value,
                is_invisible,
                user_agent: t.user_agent,
                cookies: t.cookies,
                api_domain: t.api_domain,
            },
        }
    }
}

/// The custom proxy a payload is sent through, if any.
pub open spec fn rucaptcha_payload_proxy(p: RucaptchaTask) -> Option<ProxyConfig> {
    match p {
        RucaptchaTask::RecaptchaV2Task {
            proxy_type,
            proxy_address,
            proxy_port,
            proxy_login,
            proxy_password,
            ..
        }
        | RucaptchaTask::RecaptchaV2EnterpriseTask {
            proxy_type,
            proxy_address,
            proxy_port,
            proxy_login,
            proxy_password,
            ..
        }
        | RucaptchaTask::TurnstileTask {
            proxy_type,
            proxy_address,
            proxy_port,
            proxy_login,
            proxy_password,
            ..
        } => Some(
            ProxyConfig {
                proxy_type,
                address: proxy_address,
                port: proxy_port,
                login: proxy_login,
                password: proxy_password,
            },
        ),
        _ => None,
    }
}

/// RuCaptcha's reCAPTCHA V2 payload goes through exactly the task's proxy
/// (and through RuCaptcha's own proxies when the task has none), is the
/// enterprise one exactly for an enterprise task, and keeps the page, site
/// key, invisibility, user agent, cookies and API domain; a standard task
/// also keeps its data-s value.
pub proof fn law_rucaptcha_v2_payload(t: ReCaptchaV2)
    ensures
        rucaptcha_payload_proxy(rucaptcha_v2(t)) == t.proxy,
        (rucaptcha_v2(t) is RecaptchaV2EnterpriseTask || rucaptcha_v2(t) is RecaptchaV2EnterpriseTaskProxyless)
            == t.is_enterprise,
        (match rucaptcha_v2(t) {
            RucaptchaTask::RecaptchaV2TaskProxyless {
                website_url,
                website_key,
                is_invisible,
                user_agent,
                cookies,
                api_domain,
                ..
            }
            | RucaptchaTask::RecaptchaV2Task {
                website_url,
                website_key,
                is_invisible,
                user_agent,
                cookies,
                api_domain,
                ..
            }
            | RucaptchaTask::RecaptchaV2EnterpriseTaskProxyless {
                website_url,
                website_key,
                is_invisible,
                user_agent,
                cookies,
                api_domain,
                ..
            }
            | RucaptchaTask::RecaptchaV2EnterpriseTask {
                website_url,
                website_key,
                is_invisible,
                user_agent,
                cookies,
                api_domain,
                ..
            } => {
                &&& website_url == t.website_url
                &&& website_key == t.website_key
                &&& (is_invisible == Some(true)) == t.is_invisible
                &&& user_agent == t.user_agent
                &&& cookies == t.cookies
                &&& api_domain == t.api_domain
            },
            _ => false,
        }),
        (match rucaptcha_v2(t) {
            RucaptchaTask::RecaptchaV2TaskProxyless { recaptcha_data_s_value, .. }
            | RucaptchaTask::RecaptchaV2Task { recaptcha_data_s_value, .. } => recaptcha_data_s_value
                == t.recaptcha_data_s_value,
            _ => true,
        }),
{
}

/// The fields of a reCAPTCHA V3 task that RuCaptcha cannot carry, in order.
pub open spec fn rucaptcha_v3_unsupported(t: ReCaptchaV3) -> Seq<&'static str> {
    let a: Seq<&'static str> = if t.proxy is Some { seq!["proxy"] } else { seq![] };
    let b: Seq<&'static str> = if t.enterprise_payload is Some {
        seq!["enterprise_payload"]
    } else {
        seq![]
    };
    a + b
}

/// The RuCaptcha payload of a reCAPTCHA V3 task whose fields RuCaptcha can
/// all carry.
pub open spec fn rucaptcha_v3(t: ReCaptchaV3) -> RucaptchaTask {
    RucaptchaTask::RecaptchaV3TaskProxyless {
        website_url: t.website_url,
        website_key: t.website_key,
        min_score: match t.min_score {
            Some(s) => s,
            None => DEFAULT_MIN_SCORE_BITS,
        },
        page_action: t.page_action,
        is_enterprise: if t.is_enterprise { Some(true) } else { None },
        api_domain: t.api_domain,
    }
}

/// RuCaptcha's reCAPTCHA V3 payload marks enterprise exactly as the task
/// does, so it bears the task's own name (`ReCaptchaV3Enterprise` for an
/// enterprise task). It keeps the page, site key, action and API domain, and
/// sends the task's score or, when none is set, 0.3.
pub proof fn law_rucaptcha_v3_payload(t: ReCaptchaV3)
    ensures
        rucaptcha_task_name(rucaptcha_v3(t)) == task_name(CaptchaTask::ReCaptchaV3(t)),
        (match rucaptcha_v3(t) {
            RucaptchaTask::RecaptchaV3TaskProxyless {
                website_url,
                website_key,
                min_score,
                page_action,
                is_enterprise,
                api_domain,
            } => {
                &&& (is_enterprise == Some(true)) == t.is_enterprise
                &&& website_url == t.website_url
                &&& website_key == t.website_key
                &&& page_action == t.page_action
                &&& api_domain == t.api_domain
                &&& (t.min_score matches Some(s) ==> min_score == s)
                &&& (t.min_score is None ==> min_score == DEFAULT_MIN_SCORE_BITS)
            },
            _ => false,
        }),
{
}

/// The RuCaptcha payload of a Turnstile task.
pub open spec fn rucaptcha_turnstile(t: Turnstile) -> RucaptchaTask {
    match t.proxy {
        Some(p) => RucaptchaTask::TurnstileTask {
            website_url: t.website_url,
            website_key: t.website_key,
            action: t.action,
            data: t.cdata,
            pagedata: t.pagedata,
            proxy_type: p.proxy_type,
            proxy_address: p.address,
            proxy_port: p.port,
            proxy_login: p.login,
            proxy_password: p.password,
        },
        None => RucaptchaTask::TurnstileTaskProxyless {
            website_url: t.website_url,
            website_key: t.website_key,
            action: t.action,
            data: t.cdata,
            pagedata: t.pagedata,
        },
    }
}

/// RuCaptcha's Turnstile payload goes through exactly the task's proxy and
/// carries the page, site key, action, cdata and page data unchanged.
pub proof fn law_rucaptcha_turnstile_payload(t: Turnstile)
    ensures
        rucaptcha_payload_proxy(rucaptcha_turnstile(t)) == t.proxy,
        (match rucaptcha_turnstile(t) {
            RucaptchaTask::TurnstileTaskProxyless {
                website_url,
                website_key,
                action,
                data,
                pagedata,
            }
            | RucaptchaTask::TurnstileTask { website_url, website_key, action, data, pagedata, .. } => {
                &&& website_url == t.website_url
                &&& website_key == t.website_key
                &&& action == t.action
                &&& data == t.cdata
                &&& pagedata == t.pagedata
            },
            _ => false,
        }),
{
}

/// Whether `e` lists exactly `fields` as what RuCaptcha cannot carry of a
/// task of type `task_type`.
pub open spec fn rucaptcha_rejects(
    e: UnsupportedTaskError,
    task_type: Seq<char>,
    fields: Seq<&'static str>,
) -> bool {
    &&& e.task_type@ == task_type
    &&& e.provider@ == "RuCaptcha"@
    &&& e.unsupported_fields@ == fields
}

impl RucaptchaTask {
    /// A proxyless reCAPTCHA V2 task.
    pub fn recaptcha_v2(website_url: &str, website_key: &str) -> (t: Self)
        ensures
            t matches RucaptchaTask::RecaptchaV2TaskProxyless {
                website_url: u,
                website_key: k,
                recaptcha_data_s_value: None,
                is_invisible: None,
                user_agent: None,
                cookies: None,
                api_domain: None,
            } && u@ == website_url@ && k@ == website_key@,
    {
        RucaptchaTask::RecaptchaV2TaskProxyless {
            website_url: website_url.to_string(),
            website_key: website_key.to_string(),
            recaptcha_data_s_value: None,
            is_invisible: None,
            user_agent: None,
            cookies: None,
            api_domain: None,
        }
    }

    /// A proxyless invisible reCAPTCHA V2 task.
    pub fn recaptcha_v2_invisible(website_url: &str, website_key: &str) -> (t: Self)
        ensures
            t matches RucaptchaTask::RecaptchaV2TaskProxyless {
                website_url: u,
                website_key: k,
                recaptcha_data_s_value: None,
                is_invisible: Some(true),
                user_agent: None,
                cookies: None,
                api_domain: None,
            } && u@ == website_url@ && k@ == website_key@,
    {
        RucaptchaTask::RecaptchaV2TaskProxyless {
            website_url: website_url.to_string(),
            website_key: website_key.to_string(),
            recaptcha_data_s_value: None,
            is_invisible: Some(true),
            user_agent: None,
            cookies: None,
            api_domain: None,
        }
    }

    /// A reCAPTCHA V2 task through `proxy`.
    pub fn recaptcha_v2_with_proxy(website_url: &str, website_key: &str, proxy: ProxyConfig) -> (t:
        Self)
        ensures
            t matches RucaptchaTask::RecaptchaV2Task {
                website_url: u,
                website_key: k,
                recaptcha_data_s_value: None,
                is_invisible: None,
                user_agent: None,
                cookies: None,
                api_domain: None,
                proxy_type,
                proxy_address,
                proxy_port,
                proxy_login,
                proxy_password,
            } && u@ == website_url@ && k@ == website_key@ && proxy_type == proxy.proxy_type
                && proxy_address == proxy.address && proxy_port == proxy.port && proxy_login
                == proxy.login && proxy_password == proxy.password,
    {
        RucaptchaTask::RecaptchaV2Task {
            website_url: website_url.to_string(),
            website_key: website_key.to_string(),
            recaptcha_data_s_value: None,
            is_invisible: None,
            user_agent: None,
            cookies: None,
            api_domain: None,
            proxy_type: proxy.proxy_type,
            proxy_address: proxy.address,
            proxy_port: proxy.port,
            proxy_login: proxy.login,
            proxy_password: proxy.password,
        }
    }

    /// A proxyless reCAPTCHA V2 Enterprise task.
    pub fn recaptcha_v2_enterprise(website_url: &str, website_key: &str) -> (t: Self)
        ensures
            t matches RucaptchaTask::RecaptchaV2EnterpriseTaskProxyless {
                website_url: u,
                website_key: k,
                enterprise_payload: None,
                is_invisible: None,
                user_agent: None,
                cookies: None,
                api_domain: None,
            } && u@ == website_url@ && k@ == website_key@,
    {
        RucaptchaTask::RecaptchaV2EnterpriseTaskProxyless {
            website_url: website_url.to_string(),
            website_key: website_key.to_string(),
            enterprise_payload: None,
            is_invisible: None,
            user_agent: None,
            cookies: None,
            api_domain: None,
        }
    }

    /// A reCAPTCHA V2 Enterprise task through `proxy`.
    pub fn recaptcha_v2_enterprise_with_proxy(
        website_url: &str,
        website_key: &str,
        proxy: ProxyConfig,
    ) -> (t: Self)
        ensures
            t matches RucaptchaTask::RecaptchaV2EnterpriseTask {
                website_url: u,
                website_key: k,
                enterprise_payload: None,
                is_invisible: None,
                user_agent: None,
                cookies: None,
                api_domain: None,
                proxy_type,
                proxy_address,
                proxy_port,
                proxy_login,
                proxy_password,
            } && u@ == website_url@ && k@ == website_key@ && proxy_type == proxy.proxy_type
                && proxy_address == proxy.address && proxy_port == proxy.port && proxy_login
                == proxy.login && proxy_password == proxy.password,
    {
        RucaptchaTask::RecaptchaV2EnterpriseTask {
            website_url: website_url.to_string(),
            website_key: website_key.to_string(),
            enterprise_payload: None,
            is_invisible: None,
            user_agent: None,
            cookies: None,
            api_domain: None,
            proxy_type: proxy.proxy_type,
            proxy_address: proxy.address,
            proxy_port: proxy.port,
            proxy_login: proxy.login,
            proxy_password: proxy.password,
        }
    }

    /// A reCAPTCHA V3 task with the score whose `f32` bit pattern is
    /// `min_score`.
    pub fn recaptcha_v3(website_url: &str, website_key: &str, min_score: u32) -> (t: Self)
        ensures
            t matches RucaptchaTask::RecaptchaV3TaskProxyless {
                website_url: u,
                website_key: k,
                min_score: m,
                page_action: None,
                is_enterprise: None,
                api_domain: None,
            } && u@ == website_url@ && k@ == website_key@ && m == min_score,
    {
        RucaptchaTask::RecaptchaV3TaskProxyless {
            website_url: website_url.to_string(),
            website_key: website_key.to_string(),
            min_score,
            page_action: None,
            is_enterprise: None,
            api_domain: None,
        }
    }

    /// A reCAPTCHA V3 task with a page action.
    pub fn recaptcha_v3_with_action(
        website_url: &str,
        website_key: &str,
        min_score: u32,
        page_action: &str,
    ) -> (t: Self)
        ensures
            t matches RucaptchaTask::RecaptchaV3TaskProxyless {
                website_url: u,
                website_key: k,
                min_score: m,
                page_action: a,
                is_enterprise: None,
                api_domain: None,
            } && u@ == website_url@ && k@ == website_key@ && m == min_score && opt_view(a)
                == Some(page_action@),
    {
        RucaptchaTask::RecaptchaV3TaskProxyless {
            website_url: website_url.to_string(),
            website_key: website_key.to_string(),
            min_score,
            page_action: Some(page_action.to_string()),
            is_enterprise: None,
            api_domain: None,
        }
    }

    /// A reCAPTCHA V3 Enterprise task.
    pub fn recaptcha_v3_enterprise(website_url: &str, website_key: &str, min_score: u32) -> (t:
        Self)
        ensures
            t matches RucaptchaTask::RecaptchaV3TaskProxyless {
                website_url: u,
                website_key: k,
                min_score: m,
                page_action: None,
                is_enterprise: Some(true),
                api_domain: None,
            } && u@ == website_url@ && k@ == website_key@ && m == min_score,
    {
        RucaptchaTask::RecaptchaV3TaskProxyless {
            website_url: website_url.to_string(),
            website_key: website_key.to_string(),
            min_score,
            page_action: None,
            is_enterprise: Some(true),
            api_domain: None,
        }
    }

    /// A proxyless Turnstile task.
    pub fn turnstile(website_url: &str, website_key: &str) -> (t: Self)
        ensures
            t matches RucaptchaTask::TurnstileTaskProxyless {
                website_url: u,
                website_key: k,
                action: None,
                data: None,
                pagedata: None,
            } && u@ == website_url@ && k@ == website_key@,
    {
        RucaptchaTask::TurnstileTaskProxyless {
            website_url: website_url.to_string(),
            website_key: website_key.to_string(),
            action: None,
            data: None,
            pagedata: None,
        }
    }

    /// A proxyless Turnstile task with widget attributes.
    pub fn turnstile_with_metadata(
        website_url: &str,
        website_key: &str,
        metadata: TurnstileMetadata,
    ) -> (t: Self)
        ensures
            t matches RucaptchaTask::TurnstileTaskProxyless {
                website_url: u,
                website_key: k,
                action,
                data,
                pagedata,
            } && u@ == website_url@ && k@ == website_key@ && action == metadata.action && data
                == metadata.data && pagedata == metadata.pagedata,
    {
        RucaptchaTask::TurnstileTaskProxyless {
            website_url: website_url.to_string(),
            website_key: website_key.to_string(),
            action: metadata.action,
            data: metadata.data,
            pagedata: metadata.pagedata,
        }
    }

    /// A Turnstile task through `proxy`.
    pub fn turnstile_with_proxy(website_url: &str, website_key: &str, proxy: ProxyConfig) -> (t:
        Self)
        ensures
            t matches RucaptchaTask::TurnstileTask {
                website_url: u,
                website_key: k,
                action: None,
                data: None,
                pagedata: None,
                proxy_type,
                proxy_address,
                proxy_port,
                proxy_login,
                proxy_password,
            } && u@ == website_url@ && k@ == website_key@ && proxy_type == proxy.proxy_type
                && proxy_address == proxy.address && proxy_port == proxy.port && proxy_login
                == proxy.login && proxy_password == proxy.password,
    {
        RucaptchaTask::TurnstileTask {
            website_url: website_url.to_string(),
            website_key: website_key.to_string(),
            action: None,
            data: None,
            pagedata: None,
            proxy_type: proxy.proxy_type,
            proxy_address: proxy.address,
            proxy_port: proxy.port,
            proxy_login: proxy.login,
            proxy_password: proxy.password,
        }
    }

    /// The display name of the payload's task kind.
    pub fn name(&self) -> (s: &'static str)
        ensures
            s@ == rucaptcha_task_name(*self),
    {
        match self {
            RucaptchaTask::RecaptchaV2TaskProxyless { .. } => "ReCaptchaV2",
            RucaptchaTask::RecaptchaV2Task { .. } => "ReCaptchaV2",
            RucaptchaTask::RecaptchaV2EnterpriseTaskProxyless { .. } => "ReCaptchaV2Enterprise",
            RucaptchaTask::RecaptchaV2EnterpriseTask { .. } => "ReCaptchaV2Enterprise",
            RucaptchaTask::RecaptchaV3TaskProxyless { is_enterprise, .. } => match is_enterprise {
                Some(true) => "ReCaptchaV3Enterprise",
                _ => "ReCaptchaV3",
            },
            RucaptchaTask::TurnstileTaskProxyless { .. } => "Turnstile",
            RucaptchaTask::TurnstileTask { .. } => "Turnstile",
        }
    }

    /// The display name, as an owned string.
    pub fn to_string(&self) -> (s: String)
        ensures
            s@ == rucaptcha_task_name(*self),
    {
        self.name().to_string()
    }

    /// The RuCaptcha payload of a reCAPTCHA V2 task, or the fields that
    /// RuCaptcha cannot carry.
    pub fn from_recaptcha_v2(t: ReCaptchaV2) -> (r: Result<RucaptchaTask, UnsupportedTaskError>)
        ensures
            rucaptcha_v2_unsupported(t).len() == 0 ==> r == Ok::<_, UnsupportedTaskError>(
                rucaptcha_v2(t),
            ),
            rucaptcha_v2_unsupported(t).len() > 0 ==> (r matches Err(e) && rucaptcha_rejects(
                e,
                "ReCaptchaV2"@,
                rucaptcha_v2_unsupported(t),
            )),
    {
        let mut unsupported: Vec<&'static str> = Vec::new();
        push_if(&mut unsupported, t.page_action.is_some(), "page_action");
        if t.is_enterprise {
            push_if(&mut unsupported, t.recaptcha_data_s_value.is_some(), "recaptcha_data_s_value");
        }
        push_if(&mut unsupported, t.enterprise_payload.is_some(), "enterprise_payload");
        proof {
            assert(unsupported@ =~= rucaptcha_v2_unsupported(t));
        }
        if unsupported.len() > 0 {
            return Err(UnsupportedTaskError::unsupported_fields("ReCaptchaV2", "RuCaptcha", unsupported));
        }
        let is_invisible = if t.is_invisible { Some(true) } else { None };
        if t.is_enterprise {
            match t.proxy {
                Some(p) => Ok(RucaptchaTask::RecaptchaV2EnterpriseTask {
                    website_url: t.website_url,
                    website_key: t.website_key,
                    enterprise_payload: None,
                    is_invisible,
                    user_agent: t.user_agent,
                    cookies: t.cookies,
                    api_domain: t.api_domain,
                    proxy_type: p.proxy_type,
                    proxy_address: p.address,
                    proxy_port: p.port,
                    proxy_login: p.login,
                    proxy_password: p.password,
                }),
                None => Ok(RucaptchaTask::RecaptchaV2EnterpriseTaskProxyless {
                    website_url: t.website_url,
                    website_key: t.website_key,
                    enterprise_payload: None,
                    is_invisible,
                    user_agent: t.user_agent,
                    cookies: t.cookies,
                    api_domain: t.api_domain,
                }),
            }
        } else {
            match t.proxy {
                Some(p) => Ok(RucaptchaTask::RecaptchaV2Task {
                    website_url: t.website_url,
                    website_key: t.website_key,
                    recaptcha_data_s_value: t.recaptcha_data_s_value,
                    is_invisible,
                    user_agent: t.user_agent,
                    cookies: t.cookies,
                    api_domain: t.api_domain,
                    proxy_type: p.proxy_type,
                    proxy_address: p.address,
                    proxy_port: p.port,
                    proxy_login: p.login,
                    proxy_password: p.password,
                }),
                None => Ok(RucaptchaTask::RecaptchaV2TaskProxyless {
                    website_url: t.website_url,
                    website_key: t.website_key,
                    recaptcha_data_s_value: t.recaptcha_data_s_value,
                    is_invisible,
                    user_agent: t.user_agent,
                    cookies: t.cookies,
                    api_domain: t.api_domain,
                }),
            }
        }
    }

    /// The RuCaptcha payload of a reCAPTCHA V3 task, or the fields that
    /// RuCaptcha cannot carry.
    pub fn from_recaptcha_v3(t: ReCaptchaV3) -> (r: Result<RucaptchaTask, UnsupportedTaskError>)
        ensures
            rucaptcha_v3_unsupported(t).len() == 0 ==> r == Ok::<_, UnsupportedTaskError>(
                rucaptcha_v3(t),
            ),
            rucaptcha_v3_unsupported(t).len() > 0 ==> (r matches Err(e) && rucaptcha_rejects(
                e,
                "ReCaptchaV3"@,
                rucaptcha_v3_unsupported(t),
            )),
    {
        let mut unsupported: Vec<&'static str> = Vec::new();
        push_if(&mut unsupported, t.proxy.is_some(), "proxy");
        push_if(&mut unsupported, t.enterprise_payload.is_some(), "enterprise_payload");
        proof {
            assert(unsupported@ =~= rucaptcha_v3_unsupported(t));
        }
        if unsupported.len() > 0 {
            return Err(UnsupportedTaskError::unsupported_fields("ReCaptchaV3", "RuCaptcha", unsupported));
        }
        let min_score = match t.min_score {
            Some(s) => s,
            None => DEFAULT_MIN_SCORE_BITS,
        };
        Ok(RucaptchaTask::RecaptchaV3TaskProxyless {
            website_url: t.website_url,
            website_key: t.website_key,
            min_score,
            page_action: t.page_action,
            is_enterprise: if t.is_enterprise { Some(true) } else { None },
            api_domain: t.api_domain,
        })
    }

    /// The RuCaptcha payload of a Turnstile task.
    pub fn from_turnstile(t: Turnstile) -> (r: RucaptchaTask)
        ensures
            r == rucaptcha_turnstile(t),
    {
        match t.proxy {
            Some(p) => RucaptchaTask::TurnstileTask {
                website_url: t.website_url,
                website_key: t.website_key,
                action: t.action,
                data: t.cdata,
                pagedata: t.pagedata,
                proxy_type: p.proxy_type,
                proxy_address: p.address,
                proxy_port: p.port,
                proxy_login: p.login,
                proxy_password: p.password,
            },
            None => RucaptchaTask::TurnstileTaskProxyless {
                website_url: t.website_url,
                website_key: t.website_key,
                action: t.action,
                data: t.cdata,
                pagedata: t.pagedata,
            },
        }
    }

    /// The RuCaptcha payload of any task. Cloudflare challenges, Turnstile
    /// challenges, waiting rooms and image-to-text tasks are not supported.
    pub fn try_from(task: CaptchaTask) -> (r: Result<RucaptchaTask, UnsupportedTaskError>)
        ensures
            match task {
                CaptchaTask::ReCaptchaV2(t) => {
                    &&& rucaptcha_v2_unsupported(t).len() == 0 ==> r == Ok::<
                        _,
                        UnsupportedTaskError,
                    >(rucaptcha_v2(t))
                    &&& rucaptcha_v2_unsupported(t).len() > 0 ==> (r matches Err(e)
                        && rucaptcha_rejects(e, "ReCaptchaV2"@, rucaptcha_v2_unsupported(t)))
                },
                CaptchaTask::ReCaptchaV3(t) => {
                    &&& rucaptcha_v3_unsupported(t).len() == 0 ==> r == Ok::<
                        _,
                        UnsupportedTaskError,
                    >(rucaptcha_v3(t))
                    &&& rucaptcha_v3_unsupported(t).len() > 0 ==> (r matches Err(e)
                        && rucaptcha_rejects(e, "ReCaptchaV3"@, rucaptcha_v3_unsupported(t)))
                },
                CaptchaTask::Turnstile(t) => r == Ok::<_, UnsupportedTaskError>(
                    rucaptcha_turnstile(t),
                ),
                CaptchaTask::CloudflareChallenge(_) => r matches Err(e) && e.whole_task_unsupported(
                    "CloudflareChallenge"@,
                    "RuCaptcha"@,
                ),
                CaptchaTask::TurnstileChallenge(_) => r matches Err(e) && e.whole_task_unsupported(
                    "TurnstileChallenge"@,
                    "RuCaptcha"@,
                ),
                CaptchaTask::TurnstileWaitRoom(_) => r matches Err(e) && e.whole_task_unsupported(
                    "TurnstileWaitRoom"@,
                    "RuCaptcha"@,
                ),
                CaptchaTask::ImageToText(_) => r matches Err(e) && e.whole_task_unsupported(
                    "ImageToText"@,
                    "RuCaptcha"@,
                ),
            },
    {
        match task {
            CaptchaTask::ReCaptchaV2(t) => Self::from_recaptcha_v2(t),
            CaptchaTask::ReCaptchaV3(t) => Self::from_recaptcha_v3(t),
            CaptchaTask::Turnstile(t) => Ok(Self::from_turnstile(t)),
            CaptchaTask::CloudflareChallenge(_) => Err(
                UnsupportedTaskError::new("CloudflareChallenge", "RuCaptcha"),
            ),
            CaptchaTask::TurnstileChallenge(_) => Err(
                UnsupportedTaskError::new("TurnstileChallenge", "RuCaptcha"),
            ),
            CaptchaTask::TurnstileWaitRoom(_) => Err(
                UnsupportedTaskError::new("TurnstileWaitRoom", "RuCaptcha"),
            ),
            CaptchaTask::ImageToText(_) => Err(UnsupportedTaskError::new("ImageToText", "RuCaptcha")),
        }
    }
}

/// A RuCaptcha solution.
#[derive(Debug, Clone)]
pub enum RucaptchaSolution {
    /// reCAPTCHA (V2 or V3).
    ReCaptcha(ReCaptchaSolution),
    /// Turnstile.
    Turnstile(TurnstileSolution),
}

impl crate::solutions::ProviderSolution for RucaptchaSolution {}

impl RucaptchaSolution {
    /// The reCAPTCHA solution, if this is one.
    pub fn as_recaptcha(&self) -> (r: Option<&ReCaptchaSolution>)
        ensures
            match self {
                RucaptchaSolution::ReCaptcha(s) => r == Some(s),
                _ => r is None,
            },
    {
        match self {
            RucaptchaSolution::ReCaptcha(s) => Some(s),
            _ => None,
        }
    }

    /// The reCAPTCHA solution, or the solution itself back.
    pub fn try_into_recaptcha(self) -> (r: Result<ReCaptchaSolution, Self>)
        ensures
            match self {
                RucaptchaSolution::ReCaptcha(s) => r == Ok::<_, Self>(s),
                _ => r == Err::<ReCaptchaSolution, _>(self),
            },
    {
        match self {
            RucaptchaSolution::ReCaptcha(s) => Ok(s),
            other => Err(other),
        }
    }

    /// The reCAPTCHA solution; the solution must be one.
    pub fn into_recaptcha(self) -> (r: ReCaptchaSolution)
        requires
            self is ReCaptcha,
        ensures
            self == RucaptchaSolution::ReCaptcha(r),
    {
        match self {
            RucaptchaSolution::ReCaptcha(s) => s,
            RucaptchaSolution::Turnstile(_) => unreached(),
        }
    }

    /// The Turnstile solution, if this is one.
    pub fn as_turnstile(&self) -> (r: Option<&TurnstileSolution>)
        ensures
            match self {
                RucaptchaSolution::Turnstile(s) => r == Some(s),
                _ => r is None,
            },
    {
        match self {
            RucaptchaSolution::Turnstile(s) => Some(s),
            _ => None,
        }
    }

    /// The Turnstile solution, or the solution itself back.
    pub fn try_into_turnstile(self) -> (r: Result<TurnstileSolution, Self>)
        ensures
            match self {
                RucaptchaSolution::Turnstile(s) => r == Ok::<_, Self>(s),
                _ => r == Err::<TurnstileSolution, _>(self),
            },
    {
        match self {
            RucaptchaSolution::Turnstile(s) => Ok(s),
            other => Err(other),
        }
    }

    /// The Turnstile solution; the solution must be one.
    pub fn into_turnstile(self) -> (r: TurnstileSolution)
        requires
            self is Turnstile,
        ensures
            self == RucaptchaSolution::Turnstile(r),
    {
        match self {
            RucaptchaSolution::Turnstile(s) => s,
            RucaptchaSolution::ReCaptcha(_) => unreached(),
        }
    }
}

/// A RuCaptcha reCAPTCHA solution.
#[derive(Debug, Clone)]
pub struct ReCaptchaSolution {
    /// The token to submit as `g-recaptcha-response`.
    pub g_recaptcha_response: String,
    /// The same token under its other name, when sent.
    pub token: Option<String>,
}

impl ReCaptchaSolution {
    /// The reCAPTCHA token.
    pub fn token(&self) -> (s: &str)
        ensures
            s@ == self.g_recaptcha_response@,
    {
        self.g_recaptcha_response.as_str()
    }
}

/// A RuCaptcha Turnstile solution.
#[derive(Debug, Clone)]
pub struct TurnstileSolution {
    /// The Turnstile token.
    pub token: String,
}

impl TurnstileSolution {
    /// The Turnstile token.
    pub fn token(&self) -> (s: &str)
        ensures
            s@ == self.token@,
    {
        self.token.as_str()
    }
}

} // verus!
