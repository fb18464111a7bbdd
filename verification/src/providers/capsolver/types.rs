//! Capsolver task payloads and solutions.

use vstd::prelude::*;
use crate::errors::UnsupportedTaskError;
use crate::proxy::{ProxyConfig, ProxyType};
use crate::tasks::{task_name, CaptchaTask, CloudflareChallenge, EnterprisePayload, ReCaptchaV2, ReCaptchaV3, Turnstile};

pub use crate::solutions::{CloudflareChallengeSolution, ReCaptchaSolution, TurnstileSolution};

verus! {

/// A Capsolver `createTask` payload, one variant per task type.
#[derive(Debug, Clone)]
pub enum CapsolverTask {
    /// reCAPTCHA V2 through Capsolver's own proxies.
    ReCaptchaV2TaskProxyLess {
        website_url: String,
        website_key: String,
        page_action: Option<String>,
        recaptcha_data_s_value: Option<String>,
        is_invisible: Option<bool>,
        api_domain: Option<String>,
    },
    /// reCAPTCHA V2 Enterprise through a custom proxy.
    ReCaptchaV2EnterpriseTask {
        website_url: String,
        website_key: String,
        page_action: Option<String>,
        enterprise_payload: Option<EnterprisePayload>,
        is_invisible: Option<bool>,
        api_domain: Option<String>,
        proxy_type: ProxyType,
        proxy_address: String,
        proxy_port: u16,
        proxy_login: Option<String>,
        proxy_password: Option<String>,
    },
    /// reCAPTCHA V2 Enterprise through Capsolver's own proxies.
    ReCaptchaV2EnterpriseTaskProxyLess {
        website_url: String,
        website_key: String,
        page_action: Option<String>,
        enterprise_payload: Option<EnterprisePayload>,
        is_invisible: Option<bool>,
        api_domain: Option<String>,
    },
    /// reCAPTCHA V3 through a custom proxy.
    ReCaptchaV3Task {
        website_url: String,
        website_key: String,
        page_action: Option<String>,
        api_domain: Option<String>,
        proxy_type: ProxyType,
        proxy_address: String,
        proxy_port: u16,
        proxy_login: Option<String>,
        proxy_password: Option<String>,
    },
    /// reCAPTCHA V3 through Capsolver's own proxies.
    ReCaptchaV3TaskProxyLess {
        website_url: String,
        website_key: String,
        page_action: Option<String>,
        api_domain: Option<String>,
    },
    /// reCAPTCHA V3 Enterprise through a custom proxy.
    ReCaptchaV3EnterpriseTask {
        website_url: String,
        website_key: String,
        page_action: Option<String>,
        enterprise_payload: Option<EnterprisePayload>,
        api_domain: Option<String>,
        proxy_type: ProxyType,
        proxy_address: String,
        proxy_port: u16,
        proxy_login: Option<String>,
        proxy_password: Option<String>,
    },
    /// reCAPTCHA V3 Enterprise through Capsolver's own proxies.
    ReCaptchaV3EnterpriseTaskProxyLess {
        website_url: String,
        website_key: String,
        page_action: Option<String>,
        enterprise_payload: Option<EnterprisePayload>,
        api_domain: Option<String>,
    },
    /// Cloudflare Turnstile (Capsolver solves it without a custom proxy).
    AntiTurnstileTaskProxyLess {
        website_url: String,
        website_key: String,
        metadata: Option<TurnstileMetadata>,
    },
    /// Full-page Cloudflare challenge (needs a static or sticky proxy).
    AntiCloudflareTask {
        website_url: String,
        user_agent: Option<String>,
        html: Option<String>,
        proxy_type: ProxyType,
        proxy_address: String,
        proxy_port: u16,
        proxy_login: Option<String>,
        proxy_password: Option<String>,
    },
}

/// Turnstile widget attributes.
#[derive(Debug, Clone)]
pub struct TurnstileMetadata {
    /// Value of `data-action`.
    pub action: Option<String>,
    /// Value of `data-cdata`.
    pub cdata: Option<String>,
}

impl Default for TurnstileMetadata {
    fn default() -> (m: Self)
        ensures
            m.action is None,
            m.cdata is None,
    {
        TurnstileMetadata { action: None, cdata: None }
    }
}

/// `Some(true)` for an invisible widget, otherwise absent.
pub open spec fn invisible_flag(is_invisible: bool) -> Option<bool> {
    if is_invisible {
        Some(true)
    } else {
        None
    }
}

/// The Capsolver payload of a reCAPTCHA V2 task: enterprise tasks go through
/// the custom proxy when there is one; other V2 tasks always use Capsolver's
/// proxies (the custom proxy and enterprise fields are not sent).
pub open spec fn capsolver_v2(t: ReCaptchaV2) -> CapsolverTask {
    if t.is_enterprise {
        match t.proxy {
            Some(p) => CapsolverTask::ReCaptchaV2EnterpriseTask {
                website_url: t.website_url,
                website_key: t.website_key,
                page_action: t.page_action,
                enterprise_payload: t.enterprise_payload,
                is_invisible: invisible_flag(t.is_invisible),
                api_domain: t.api_domain,
                proxy_type: p.proxy_type,
                proxy_address: p.address,
                proxy_port: p.port,
                proxy_login: p.login,
                proxy_password: p.password,
            },
            None => CapsolverTask::ReCaptchaV2EnterpriseTaskProxyLess {
                website_url: t.website_url,
                website_key: t.website_key,
                page_action: t.page_action,
                enterprise_payload: t.enterprise_payload,
                is_invisible: invisible_flag(t.is_invisible),
                api_domain: t.api_domain,
            },
        }
    } else {
        CapsolverTask::ReCaptchaV2TaskProxyLess {
            website_url: t.website_url,
            website_key: t.website_key,
            page_action: t.page_action,
            recaptcha_data_s_value: t.recaptcha_data_s_value,
            is_invisible: invisible_flag(t.is_invisible),
            api_domain: t.api_domain,
        }
    }
}

/// The custom proxy a payload is sent through, if any.
pub open spec fn capsolver_payload_proxy(p: CapsolverTask) -> Option<ProxyConfig> {
    match p {
        CapsolverTask::ReCaptchaV2EnterpriseTask {
            proxy_type,
            proxy_address,
            proxy_port,
            proxy_login,
            proxy_password,
            ..
        }
        | CapsolverTask::ReCaptchaV3Task {
            proxy_type,
            proxy_address,
            proxy_port,
            proxy_login,
            proxy_password,
            ..
        }
        | CapsolverTask::ReCaptchaV3EnterpriseTask {
            proxy_type,
            proxy_address,
            proxy_port,
            proxy_login,
            proxy_password,
            ..
        }
        | CapsolverTask::AntiCloudflareTask {
            proxy_type,
            proxy_address,
            proxy_port,
            proxy_login,
            proxy_password,
            ..
        } => Some(
            ProxyConfig {
                proxy_type,
                address: proxy_address,
                port: proxy_port,
                login: proxy_login,
                password: proxy_password,
            },
        ),
        _ => None,
    }
}

/// Capsolver's reCAPTCHA V2 payload goes through the task's proxy for an
/// enterprise task and through Capsolver's own proxies otherwise; it is the
/// enterprise one exactly for an enterprise task, and keeps the page, site
/// key, action, invisibility and API domain, the enterprise payload of an
/// enterprise task and the data-s value of a standard one.
pub proof fn law_capsolver_v2_payload(t: ReCaptchaV2)
    ensures
        capsolver_payload_proxy(capsolver_v2(t)) == (if t.is_enterprise {
            t.proxy
        } else {
            None
        }),
        (match capsolver_v2(t) {
            CapsolverTask::ReCaptchaV2TaskProxyLess {
                website_url,
                website_key,
                page_action,
                is_invisible,
                api_domain,
                recaptcha_data_s_value,
            } => {
                &&& !t.is_enterprise
                &&& website_url == t.website_url
                &&& website_key == t.website_key
                &&& page_action == t.page_action
                &&& (is_invisible == Some(true)) == t.is_invisible
                &&& api_domain == t.api_domain
                &&& recaptcha_data_s_value == t.recaptcha_data_s_value
            },
            CapsolverTask::ReCaptchaV2EnterpriseTask {
                website_url,
                website_key,
                page_action,
                is_invisible,
                api_domain,
                enterprise_payload,
                ..
            }
            | CapsolverTask::ReCaptchaV2EnterpriseTaskProxyLess {
                website_url,
                website_key,
                page_action,
                is_invisible,
                api_domain,
                enterprise_payload,
            } => {
                &&& t.is_enterprise
                &&& website_url == t.website_url
                &&& website_key == t.website_key
                &&& page_action == t.page_action
                &&& (is_invisible == Some(true)) == t.is_invisible
                &&& api_domain == t.api_domain
                &&& enterprise_payload == t.enterprise_payload
            },
            _ => false,
        }),
{
}

/// The Capsolver payload of a reCAPTCHA V3 task, by enterprise flag and
/// proxy.
pub open spec fn capsolver_v3(t: ReCaptchaV3) -> CapsolverTask {
    match (t.is_enterprise, t.proxy) {
        (true, Some(p)) => CapsolverTask::ReCaptchaV3EnterpriseTask {
            website_url: t.website_url,
            website_key: t.website_key,
            page_action: t.page_action,
            enterprise_payload: t.enterprise_payload,
            api_domain: t.api_domain,
            proxy_type: p.proxy_type,
            proxy_address: p.address,
            proxy_port: p.port,
            proxy_login: p.login,
            proxy_password: p.password,
        },
        (true, None) => CapsolverTask::ReCaptchaV3EnterpriseTaskProxyLess {
            website_url: t.website_url,
            website_key: t.website_key,
            page_action: t.page_action,
            enterprise_payload: t.enterprise_payload,
            api_domain: t.api_domain,
        },
        (false, Some(p)) => CapsolverTask::ReCaptchaV3Task {
            website_url: t.website_url,
            website_key: t.website_key,
            page_action: t.page_action,
            api_domain: t.api_domain,
            proxy_type: p.proxy_type,
            proxy_address: p.address,
            proxy_port: p.port,
            proxy_login: p.login,
            proxy_password: p.password,
        },
        (false, None) => CapsolverTask::ReCaptchaV3TaskProxyLess {
            website_url: t.website_url,
            website_key: t.website_key,
            page_action: t.page_action,
            api_domain: t.api_domain,
        },
    }
}

/// Capsolver's reCAPTCHA V3 payload goes through exactly the task's proxy
/// (through Capsolver's own proxies when the task has none), bears the
/// task's own name, so it is an enterprise one exactly for an enterprise
/// task, and keeps the page, site key, action and API domain, and the
/// enterprise payload of an enterprise task.
pub proof fn law_capsolver_v3_payload(t: ReCaptchaV3)
    ensures
        capsolver_payload_proxy(capsolver_v3(t)) == t.proxy,
        capsolver_task_name(capsolver_v3(t)) == task_name(CaptchaTask::ReCaptchaV3(t)),
        (match capsolver_v3(t) {
            CapsolverTask::ReCaptchaV3Task { website_url, website_key, page_action, api_domain, .. }
            | CapsolverTask::ReCaptchaV3TaskProxyLess {
                website_url,
                website_key,
                page_action,
                api_domain,
            } => {
                &&& !t.is_enterprise
                &&& website_url == t.website_url
                &&& website_key == t.website_key
                &&& page_action == t.page_action
                &&& api_domain == t.api_domain
            },
            CapsolverTask::ReCaptchaV3EnterpriseTask {
                website_url,
                website_key,
                page_action,
                api_domain,
                enterprise_payload,
                ..
            }
            | CapsolverTask::ReCaptchaV3EnterpriseTaskProxyLess {
                website_url,
                website_key,
                page_action,
                api_domain,
                enterprise_payload,
            } => {
                &&& t.is_enterprise
                &&& website_url == t.website_url
                &&& website_key == t.website_key
                &&& page_action == t.page_action
                &&& api_domain == t.api_domain
                &&& enterprise_payload == t.enterprise_payload
            },
            _ => false,
        }),
{
}

/// The Capsolver payload of a Turnstile task: metadata only when an action
/// or cdata is set; page data and the proxy are not sent.
pub open spec fn capsolver_turnstile(t: Turnstile) -> CapsolverTask {
    CapsolverTask::AntiTurnstileTaskProxyLess {
        website_url: t.website_url,
        website_key: t.website_key,
        metadata: if t.action is Some || t.cdata is Some {
            Some(TurnstileMetadata { action: t.action, cdata: t.cdata })
        } else {
            None
        },
    }
}

/// Capsolver's Turnstile payload carries the widget's page, site key, action
/// and cdata unchanged: it has metadata exactly when the action or the cdata
/// is set, and the metadata then holds both as the task has them.
pub proof fn law_capsolver_turnstile_metadata(t: Turnstile)
    ensures
        (match capsolver_turnstile(t) {
            CapsolverTask::AntiTurnstileTaskProxyLess { website_url, website_key, metadata } => {
                &&& website_url == t.website_url
                &&& website_key == t.website_key
                &&& (metadata is Some) == (t.action is Some || t.cdata is Some)
                &&& (metadata matches Some(m) ==> m.action == t.action && m.cdata == t.cdata)
            },
            _ => false,
        }),
{
}

/// The Capsolver payload of a Cloudflare challenge task.
pub open spec fn capsolver_cloudflare(t: CloudflareChallenge) -> CapsolverTask {
    CapsolverTask::AntiCloudflareTask {
        website_url: t.website_url,
        user_agent: t.user_agent,
        html: t.html,
        proxy_type: t.proxy.proxy_type,
        proxy_address: t.proxy.address,
        proxy_port: t.proxy.port,
        proxy_login: t.proxy.login,
        proxy_password: t.proxy.password,
    }
}

/// Capsolver's Cloudflare challenge payload goes through the task's proxy
/// and keeps the page, user agent and page HTML.
pub proof fn law_capsolver_cloudflare_payload(t: CloudflareChallenge)
    ensures
        capsolver_payload_proxy(capsolver_cloudflare(t)) == Some(t.proxy),
        (match capsolver_cloudflare(t) {
            CapsolverTask::AntiCloudflareTask { website_url, user_agent, html, .. } => {
                &&& website_url == t.website_url
                &&& user_agent == t.user_agent
                &&& html == t.html
            },
            _ => false,
        }),
{
}

/// The display name of a payload's task kind.
pub open spec fn capsolver_task_name(t: CapsolverTask) -> Seq<char> {
    match t {
        CapsolverTask::ReCaptchaV2TaskProxyLess { .. } => "ReCaptchaV2"@,
        CapsolverTask::ReCaptchaV2EnterpriseTask { .. } => "ReCaptchaV2Enterprise"@,
        CapsolverTask::ReCaptchaV2EnterpriseTaskProxyLess { .. } => "ReCaptchaV2Enterprise"@,
        CapsolverTask::ReCaptchaV3Task { .. } => "ReCaptchaV3"@,
        CapsolverTask::ReCaptchaV3TaskProxyLess { .. } => "ReCaptchaV3"@,
        CapsolverTask::ReCaptchaV3EnterpriseTask { .. } => "ReCaptchaV3Enterprise"@,
        CapsolverTask::ReCaptchaV3EnterpriseTaskProxyLess { .. } => "ReCaptchaV3Enterprise"@,
        CapsolverTask::AntiTurnstileTaskProxyLess { .. } => "Turnstile"@,
        CapsolverTask::AntiCloudflareTask { .. } => "CloudflareChallenge"@,
    }
}

impl CapsolverTask {
    /// The display name of the payload's task kind.
    pub fn name(&self) -> (s: &'static str)
        ensures
            s@ == capsolver_task_name(*self),
    {
        match self {
            CapsolverTask::ReCaptchaV2TaskProxyLess { .. } => "ReCaptchaV2",
            CapsolverTask::ReCaptchaV2EnterpriseTask { .. } => "ReCaptchaV2Enterprise",
            CapsolverTask::ReCaptchaV2EnterpriseTaskProxyLess { .. } => "ReCaptchaV2Enterprise",
            CapsolverTask::ReCaptchaV3Task { .. } => "ReCaptchaV3",
            CapsolverTask::ReCaptchaV3TaskProxyLess { .. } => "ReCaptchaV3",
            CapsolverTask::ReCaptchaV3EnterpriseTask { .. } => "ReCaptchaV3Enterprise",
            CapsolverTask::ReCaptchaV3EnterpriseTaskProxyLess { .. } => "ReCaptchaV3Enterprise",
            CapsolverTask::AntiTurnstileTaskProxyLess { .. } => "Turnstile",
            CapsolverTask::AntiCloudflareTask { .. } => "CloudflareChallenge",
        }
    }

    /// The display name, as an owned string.
    pub fn to_string(&self) -> (s: String)
        ensures
            s@ == capsolver_task_name(*self),
    {
        self.name().to_string()
    }

    /// The Capsolver payload of any task. Turnstile challenges, waiting rooms
    /// and image-to-text tasks have no Capsolver payload here and give an
    /// `UnsupportedTaskError` naming the task type.
    pub fn try_from(task: CaptchaTask) -> (r: Result<CapsolverTask, UnsupportedTaskError>)
        ensures
            match task {
                CaptchaTask::ReCaptchaV2(t) => r == Ok::<_, UnsupportedTaskError>(capsolver_v2(t)),
                CaptchaTask::ReCaptchaV3(t) => r == Ok::<_, UnsupportedTaskError>(capsolver_v3(t)),
                CaptchaTask::Turnstile(t) => r == Ok::<_, UnsupportedTaskError>(capsolver_turnstile(t)),
                CaptchaTask::CloudflareChallenge(t) => r == Ok::<_, UnsupportedTaskError>(
                    capsolver_cloudflare(t),
                ),
                CaptchaTask::TurnstileChallenge(_) => r matches Err(e) && e.whole_task_unsupported(
                    "TurnstileChallenge"@,
                    "Capsolver"@,
                ),
                CaptchaTask::TurnstileWaitRoom(_) => r matches Err(e) && e.whole_task_unsupported(
                    "TurnstileWaitRoom"@,
                    "Capsolver"@,
                ),
                CaptchaTask::ImageToText(_) => r matches Err(e) && e.whole_task_unsupported(
                    "ImageToText"@,
                    "Capsolver"@,
                ),
            },
    {
        match task {
            CaptchaTask::ReCaptchaV2(t) => Ok(CapsolverTask::from(t)),
            CaptchaTask::ReCaptchaV3(t) => Ok(CapsolverTask::from(t)),
            CaptchaTask::Turnstile(t) => Ok(CapsolverTask::from(t)),
            CaptchaTask::CloudflareChallenge(t) => Ok(CapsolverTask::from(t)),
            CaptchaTask::TurnstileChallenge(_) => Err(
                UnsupportedTaskError::new("TurnstileChallenge", "Capsolver"),
            ),
            CaptchaTask::TurnstileWaitRoom(_) => Err(
                UnsupportedTaskError::new("TurnstileWaitRoom", "Capsolver"),
            ),
            CaptchaTask::ImageToText(_) => Err(UnsupportedTaskError::new("ImageToText", "Capsolver")),
        }
    }
}

impl From<ReCaptchaV2> for CapsolverTask {
    fn from(t: ReCaptchaV2) -> (r: Self) {
        let is_invisible = if t.is_invisible { Some(true) } else { None };
        if t.is_enterprise {
            match t.proxy {
                Some(p) => CapsolverTask::ReCaptchaV2EnterpriseTask {
                    website_url: t.website_url,
                    website_key: t.website_key,
                    page_action: t.page_action,
                    enterprise_payload: t.enterprise_payload,
                    is_invisible,
                    api_domain: t.api_domain,
                    proxy_type: p.proxy_type,
                    proxy_address: p.address,
                    proxy_port: p.port,
                    proxy_login: p.login,
                    proxy_password: p.password,
                },
                None => CapsolverTask::ReCaptchaV2EnterpriseTaskProxyLess {
                    website_url: t.website_url,
                    website_key: t.website_key,
                    page_action: t.page_action,
                    enterprise_payload: t.enterprise_payload,
                    is_invisible,
                    api_domain: t.api_domain,
                },
            }
        } else {
            CapsolverTask::ReCaptchaV2TaskProxyLess {
                website_url: t.website_url,
                website_key: t.website_key,
                page_action: t.page_action,
                recaptcha_data_s_value: t.recaptcha_data_s_value,
                is_invisible,
                api_domain: t.api_domain,
            }
        }
    }
}

impl vstd::std_specs::convert::FromSpecImpl<ReCaptchaV2> for CapsolverTask {
    open spec fn obeys_from_spec() -> bool {
        true
    }

    open spec fn from_spec(t: ReCaptchaV2) -> CapsolverTask {
        capsolver_v2(t)
    }
}

impl From<ReCaptchaV3> for CapsolverTask {
    fn from(t: ReCaptchaV3) -> (r: Self) {
        match (t.is_enterprise, t.proxy) {
            (true, Some(p)) => CapsolverTask::ReCaptchaV3EnterpriseTask {
                website_url: t.website_url,
                website_key: t.website_key,
                page_action: t.page_action,
                enterprise_payload: t.enterprise_payload,
                api_domain: t.api_domain,
                proxy_type: p.proxy_type,
                proxy_address: p.address,
                proxy_port: p.port,
                proxy_login: p.login,
                proxy_password: p.password,
            },
            (true, None) => CapsolverTask::ReCaptchaV3EnterpriseTaskProxyLess {
                website_url: t.website_url,
                website_key: t.website_key,
                page_action: t.page_action,
                enterprise_payload: t.enterprise_payload,
                api_domain: t.api_domain,
            },
            (false, Some(p)) => CapsolverTask::ReCaptchaV3Task {
                website_url: t.website_url,
                website_key: t.website_key,
                page_action: t.page_action,
                api_domain: t.api_domain,
                proxy_type: p.proxy_type,
                proxy_address: p.address,
                proxy_port: p.port,
                proxy_login: p.login,
                proxy_password: p.password,
            },
            (false, None) => CapsolverTask::ReCaptchaV3TaskProxyLess {
                website_url: t.website_url,
                website_key: t.website_key,
                page_action: t.page_action,
                api_domain: t.api_domain,
            },
        }
    }
}

impl vstd::std_specs::convert::FromSpecImpl<ReCaptchaV3> for CapsolverTask {
    open spec fn obeys_from_spec() -> bool {
        true
    }

    open spec fn from_spec(t: ReCaptchaV3) -> CapsolverTask {
        capsolver_v3(t)
    }
}

impl From<Turnstile> for CapsolverTask {
    fn from(t: Turnstile) -> (r: Self) {
        let metadata = if t.action.is_some() || t.cdata.is_some() {
            Some(TurnstileMetadata { action: t.action, cdata: t.cdata })
        } else {
            None
        };
        CapsolverTask::AntiTurnstileTaskProxyLess {
            website_url: t.website_url,
            website_key: t.website_key,
            metadata,
        }
    }
}

impl vstd::std_specs::convert::FromSpecImpl<Turnstile> for CapsolverTask {
    open spec fn obeys_from_spec() -> bool {
        true
    }

    open spec fn from_spec(t: Turnstile) -> CapsolverTask {
        capsolver_turnstile(t)
    }
}

impl From<CloudflareChallenge> for CapsolverTask {
    fn from(t: CloudflareChallenge) -> (r: Self) {
        CapsolverTask::AntiCloudflareTask {
            website_url: t.website_url,
            user_agent: t.user_agent,
            html: t.html,
            proxy_type: t.proxy.proxy_type,
            proxy_address: t.proxy.address,
            proxy_port: t.proxy.port,
            proxy_login: t.proxy.login,
            proxy_password: t.proxy.password,
        }
    }
}

impl vstd::std_specs::convert::FromSpecImpl<CloudflareChallenge> for CapsolverTask {
    open spec fn obeys_from_spec() -> bool {
        true
    }

    open spec fn from_spec(t: CloudflareChallenge) -> CapsolverTask {
        capsolver_cloudflare(t)
    }
}

/// A Capsolver solution.
#[derive(Debug, Clone)]
pub enum CapsolverSolution {
    /// reCAPTCHA (V2 or V3).
    ReCaptcha(ReCaptchaSolution),
    /// Turnstile or Cloudflare challenge.
    Turnstile(TurnstileSolution),
}

impl crate::solutions::ProviderSolution for CapsolverSolution {}

impl CapsolverSolution {
    /// The reCAPTCHA solution, if this is one.
    pub fn as_recaptcha(&self) -> (r: Option<&ReCaptchaSolution>)
        ensures
            match self {
                CapsolverSolution::ReCaptcha(s) => r == Some(s),
                _ => r is None,
            },
    {
        match self {
            CapsolverSolution::ReCaptcha(s) => Some(s),
            _ => None,
        }
    }

    /// The reCAPTCHA solution, or the solution itself back.
    pub fn try_into_recaptcha(self) -> (r: Result<ReCaptchaSolution, Self>)
        ensures
            match self {
                CapsolverSolution::ReCaptcha(s) => r == Ok::<_, Self>(s),
                _ => r == Err::<ReCaptchaSolution, _>(self),
            },
    {
        match self {
            CapsolverSolution::ReCaptcha(s) => Ok(s),
            other => Err(other),
        }
    }

    /// The reCAPTCHA solution; the solution must be one.
    pub fn into_recaptcha(self) -> (r: ReCaptchaSolution)
        requires
            self is ReCaptcha,
        ensures
            self == CapsolverSolution::ReCaptcha(r),
    {
        match self {
            CapsolverSolution::ReCaptcha(s) => s,
            CapsolverSolution::Turnstile(_) => unreached(),
        }
    }

    /// The Turnstile solution, if this is one.
    pub fn as_turnstile(&self) -> (r: Option<&TurnstileSolution>)
        ensures
            match self {
                CapsolverSolution::Turnstile(s) => r == Some(s),
                _ => r is None,
            },
    {
        match self {
            CapsolverSolution::Turnstile(s) => Some(s),
            _ => None,
        }
    }

    /// The Turnstile solution, or the solution itself back.
    pub fn try_into_turnstile(self) -> (r: Result<TurnstileSolution, Self>)
        ensures
            match self {
                CapsolverSolution::Turnstile(s) => r == Ok::<_, Self>(s),
                _ => r == Err::<TurnstileSolution, _>(self),
            },
    {
        match self {
            CapsolverSolution::Turnstile(s) => Ok(s),
            other => Err(other),
        }
    }

    /// The Turnstile solution; the solution must be one.
    pub fn into_turnstile(self) -> (r: TurnstileSolution)
        requires
            self is Turnstile,
        ensures
            self == CapsolverSolution::Turnstile(r),
    {
        match self {
            CapsolverSolution::Turnstile(s) => s,
            CapsolverSolution::ReCaptcha(_) => unreached(),
        }
    }

    /// A Cloudflare challenge solution has the Turnstile shape.
    pub fn as_cloudflare_challenge(&self) -> (r: Option<&TurnstileSolution>)
        ensures
            match self {
                CapsolverSolution::Turnstile(s) => r == Some(s),
                _ => r is None,
            },
    {
        self.as_turnstile()
    }

    /// A Cloudflare challenge solution has the Turnstile shape.
    pub fn try_into_cloudflare_challenge(self) -> (r: Result<TurnstileSolution, Self>)
        ensures
            match self {
                CapsolverSolution::Turnstile(s) => r == Ok::<_, Self>(s),
                _ => r == Err::<TurnstileSolution, _>(self),
            },
    {
        self.try_into_turnstile()
    }

    /// A Cloudflare challenge solution has the Turnstile shape; the solution
    /// must be one.
    pub fn into_cloudflare_challenge(self) -> (r: TurnstileSolution)
        requires
            self is Turnstile,
        ensures
            self == CapsolverSolution::Turnstile(r),
    {
        self.into_turnstile()
    }
}

} // verus!
