//! reCAPTCHA task types with a fluent builder.

use vstd::prelude::*;
use std::collections::HashMap;
use crate::proxy::{opt_view, ProxyConfig};

verus! {

#[verifier::external_type_specification]
#[verifier::external_body]
pub struct ExJsonValue(serde_json::Value);

/// Enterprise payload: key-value pairs passed through to the provider.
pub type EnterprisePayload = HashMap<String, serde_json::Value>;

/// reCAPTCHA V2 task.
#[derive(Debug, Clone)]
pub struct ReCaptchaV2 {
    /// Full URL of the page with the reCAPTCHA.
    pub website_url: String,
    /// The reCAPTCHA site key (data-sitekey attribute).
    pub website_key: String,
    /// Whether this is an invisible reCAPTCHA.
    pub is_invisible: bool,
    /// Whether this is an enterprise reCAPTCHA.
    pub is_enterprise: bool,
    /// Page action parameter.
    pub page_action: Option<String>,
    /// The data-s value.
    pub recaptcha_data_s_value: Option<String>,
    /// Enterprise payload.
    pub enterprise_payload: Option<EnterprisePayload>,
    /// Custom API domain (e.g. "recaptcha.net").
    pub api_domain: Option<String>,
    /// User agent to use when solving.
    pub user_agent: Option<String>,
    /// Cookies to pass to the solver.
    pub cookies: Option<String>,
    /// Proxy configuration, if any.
    pub proxy: Option<ProxyConfig>,
}

impl ReCaptchaV2 {
    /// A new task for the page `website_url` with site key `website_key`:
    /// visible, not enterprise, no options.
    pub fn new(website_url: &str, website_key: &str) -> (t: Self)
        ensures
            t.website_url@ == website_url@,
            t.website_key@ == website_key@,
            !t.is_invisible,
            !t.is_enterprise,
            t.page_action is None,
            t.recaptcha_data_s_value is None,
            t.enterprise_payload is None,
            t.api_domain is None,
            t.user_agent is None,
            t.cookies is None,
            t.proxy is None,
    {
        ReCaptchaV2 {
            website_url: website_url.to_string(),
            website_key: website_key.to_string(),
            is_invisible: false,
            is_enterprise: false,
            page_action: None,
            recaptcha_data_s_value: None,
            enterprise_payload: None,
            api_domain: None,
            user_agent: None,
            cookies: None,
            proxy: None,
        }
    }

    /// Marks the task as an invisible reCAPTCHA.
    pub fn invisible(self) -> (t: Self)
        ensures
            t == (ReCaptchaV2 { is_invisible: true, ..self }),
    {
        let mut t = self;
        t.is_invisible = true;
        t
    }

    /// Marks the task as an enterprise reCAPTCHA.
    pub fn enterprise(self) -> (t: Self)
        ensures
            t == (ReCaptchaV2 { is_enterprise: true, ..self }),
    {
        let mut t = self;
        t.is_enterprise = true;
        t
    }

    /// Sets the page action.
    pub fn with_action(self, action: &str) -> (t: Self)
        ensures
            opt_view(t.page_action) == Some(action@),
            t == (ReCaptchaV2 { page_action: t.page_action, ..self }),
    {
        let mut t = self;
        t.page_action = Some(action.to_string());
        t
    }

    /// Sets the data-s value.
    pub fn with_data_s_value(self, value: &str) -> (t: Self)
        ensures
            opt_view(t.recaptcha_data_s_value) == Some(value@),
            t == (ReCaptchaV2 { recaptcha_data_s_value: t.recaptcha_data_s_value, ..self }),
    {
        let mut t = self;
        t.recaptcha_data_s_value = Some(value.to_string());
        t
    }

    /// Sets the enterprise payload; this also marks the task as enterprise.
    pub fn with_enterprise_payload(self, payload: EnterprisePayload) -> (t: Self)
        ensures
            t == (ReCaptchaV2 { enterprise_payload: Some(payload), is_enterprise: true, ..self }),
    {
        let mut t = self;
        t.enterprise_payload = Some(payload);
        t.is_enterprise = true;
        t
    }

    /// Sets a custom API domain.
    pub fn with_api_domain(self, domain: &str) -> (t: Self)
        ensures
            opt_view(t.api_domain) == Some(domain@),
            t == (ReCaptchaV2 { api_domain: t.api_domain, ..self }),
    {
        let mut t = self;
        t.api_domain = Some(domain.to_string());
        t
    }

    /// Sets the user agent for solving.
    pub fn with_user_agent(self, user_agent: &str) -> (t: Self)
        ensures
            opt_view(t.user_agent) == Some(user_agent@),
            t == (ReCaptchaV2 { user_agent: t.user_agent, ..self }),
    {
        let mut t = self;
        t.user_agent = Some(user_agent.to_string());
        t
    }

    /// Sets the cookies passed to the solver.
    pub fn with_cookies(self, cookies: &str) -> (t: Self)
        ensures
            opt_view(t.cookies) == Some(cookies@),
            t == (ReCaptchaV2 { cookies: t.cookies, ..self }),
    {
        let mut t = self;
        t.cookies = Some(cookies.to_string());
        t
    }

    /// Sets the proxy.
    pub fn with_proxy(self, proxy: ProxyConfig) -> (t: Self)
        ensures
            t == (ReCaptchaV2 { proxy: Some(proxy), ..self }),
    {
        let mut t = self;
        t.proxy = Some(proxy);
        t
    }

    /// Whether a proxy is configured.
    pub fn has_proxy(&self) -> (b: bool)
        ensures
            b == self.proxy is Some,
    {
        self.proxy.is_some()
    }

    /// Whether this is an enterprise reCAPTCHA.
    pub fn is_enterprise(&self) -> (b: bool)
        ensures
            b == self.is_enterprise,
    {
        self.is_enterprise
    }

    /// Whether this is an invisible reCAPTCHA.
    pub fn is_invisible(&self) -> (b: bool)
        ensures
            b == self.is_invisible,
    {
        self.is_invisible
    }

    /// The website URL.
    pub fn website_url(&self) -> (s: &str)
        ensures
            s@ == self.website_url@,
    {
        self.website_url.as_str()
    }

    /// The website key.
    pub fn website_key(&self) -> (s: &str)
        ensures
            s@ == self.website_key@,
    {
        self.website_key.as_str()
    }

    /// The proxy, if set.
    pub fn proxy(&self) -> (p: Option<&ProxyConfig>)
        ensures
            match p {
                Some(q) => self.proxy == Some(*q),
                None => self.proxy is None,
            },
    {
        self.proxy.as_ref()
    }
}

/// reCAPTCHA V3 task (score based).
///
/// The minimum score is kept as the bit pattern of an `f32`
/// (`f32::to_bits`), so that it is carried through exactly.
#[derive(Debug, Clone)]
pub struct ReCaptchaV3 {
    /// Full URL of the page with the reCAPTCHA.
    pub website_url: String,
    /// The reCAPTCHA site key.
    pub website_key: String,
    /// Whether this is an enterprise reCAPTCHA.
    pub is_enterprise: bool,
    /// The action parameter (e.g. "submit", "login").
    pub page_action: Option<String>,
    /// Minimum score threshold, as `f32` bits.
    pub min_score: Option<u32>,
    /// Enterprise payload.
    pub enterprise_payload: Option<EnterprisePayload>,
    /// Custom API domain.
    pub api_domain: Option<String>,
    /// Proxy configuration, if any.
    pub proxy: Option<ProxyConfig>,
}

impl ReCaptchaV3 {
    /// A new task for `website_url` with site key `website_key`, without options.
    pub fn new(website_url: &str, website_key: &str) -> (t: Self)
        ensures
            t.website_url@ == website_url@,
            t.website_key@ == website_key@,
            !t.is_enterprise,
            t.page_action is None,
            t.min_score is None,
            t.enterprise_payload is None,
            t.api_domain is None,
            t.proxy is None,
    {
        ReCaptchaV3 {
            website_url: website_url.to_string(),
            website_key: website_key.to_string(),
            is_enterprise: false,
            page_action: None,
            min_score: None,
            enterprise_payload: None,
            api_domain: None,
            proxy: None,
        }
    }

    /// Marks the task as an enterprise reCAPTCHA.
    pub fn enterprise(self) -> (t: Self)
        ensures
            t == (ReCaptchaV3 { is_enterprise: true, ..self }),
    {
        let mut t = self;
        t.is_enterprise = true;
        t
    }

    /// Sets the page action.
    pub fn with_action(self, action: &str) -> (t: Self)
        ensures
            opt_view(t.page_action) == Some(action@),
            t == (ReCaptchaV3 { page_action: t.page_action, ..self }),
    {
        let mut t = self;
        t.page_action = Some(action.to_string());
        t
    }

    /// Sets the minimum score, given as `f32` bits.
    pub fn with_min_score(self, score_bits: u32) -> (t: Self)
        ensures
            t == (ReCaptchaV3 { min_score: Some(score_bits), ..self }),
    {
        let mut t = self;
        t.min_score = Some(score_bits);
        t
    }

    /// Sets the enterprise payload; this also marks the task as enterprise.
    pub fn with_enterprise_payload(self, payload: EnterprisePayload) -> (t: Self)
        ensures
            t == (ReCaptchaV3 { enterprise_payload: Some(payload), is_enterprise: true, ..self }),
    {
        let mut t = self;
        t.enterprise_payload = Some(payload);
        t.is_enterprise = true;
        t
    }

    /// Sets a custom API domain.
    pub fn with_api_domain(self, domain: &str) -> (t: Self)
        ensures
            opt_view(t.api_domain) == Some(domain@),
            t == (ReCaptchaV3 { api_domain: t.api_domain, ..self }),
    {
        let mut t = self;
        t.api_domain = Some(domain.to_string());
        t
    }

    /// Sets the proxy.
    pub fn with_proxy(self, proxy: ProxyConfig) -> (t: Self)
        ensures
            t == (ReCaptchaV3 { proxy: Some(proxy), ..self }),
    {
        let mut t = self;
        t.proxy = Some(proxy);
        t
    }

    /// Whether a proxy is configured.
    pub fn has_proxy(&self) -> (b: bool)
        ensures
            b == self.proxy is Some,
    {
        self.proxy.is_some()
    }

    /// Whether this is an enterprise reCAPTCHA.
    pub fn is_enterprise(&self) -> (b: bool)
        ensures
            b == self.is_enterprise,
    {
        self.is_enterprise
    }

    /// The minimum score (as `f32` bits), if set.
    pub fn min_score(&self) -> (s: Option<u32>)
        ensures
            s == self.min_score,
    {
        self.min_score
    }

    /// The website URL.
    pub fn website_url(&self) -> (s: &str)
        ensures
            s@ == self.website_url@,
    {
        self.website_url.as_str()
    }

    /// The website key.
    pub fn website_key(&self) -> (s: &str)
        ensures
            s@ == self.website_key@,
    {
        self.website_key.as_str()
    }

    /// The action, if set.
    pub fn action(&self) -> (a: Option<&str>)
        ensures
            match a {
                Some(s) => opt_view(self.page_action) == Some(s@),
                None => self.page_action is None,
            },
    {
        match &self.page_action {
            Some(a) => Some(a.as_str()),
            None => None,
        }
    }

    /// The proxy, if set.
    pub fn proxy(&self) -> (p: Option<&ProxyConfig>)
        ensures
            match p {
                Some(q) => self.proxy == Some(*q),
                None => self.proxy is None,
            },
    {
        self.proxy.as_ref()
    }
}

} // verus!
