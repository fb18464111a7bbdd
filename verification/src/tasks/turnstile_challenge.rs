//! Cloudflare Turnstile challenge task type.

use vstd::prelude::*;
use crate::proxy::{opt_view, ProxyConfig};

verus! {

/// Cloudflare challenge solving mode.
#[derive(Debug, Clone, Copy, PartialEq, Eq, Structural)]
pub enum TurnstileChallengeMode {
    /// Returns a Turnstile token.
    Token,
    /// Returns the `cf_clearance` cookie.
    CfClearance,
}

/// The `cloudflareTaskType` value of a mode.
pub open spec fn cloudflare_task_type(m: TurnstileChallengeMode) -> Seq<char> {
    match m {
        TurnstileChallengeMode::Token => "token"@,
        TurnstileChallengeMode::CfClearance => "cf_clearance"@,
    }
}

impl TurnstileChallengeMode {
    /// The Cloudflare task type value of the provider payload.
    pub fn as_cloudflare_task_type(&self) -> (s: &'static str)
        ensures
            s@ == cloudflare_task_type(*self),
    {
        match self {
            TurnstileChallengeMode::Token => "token",
            TurnstileChallengeMode::CfClearance => "cf_clearance",
        }
    }
}

/// Cloudflare Turnstile challenge task, in token or `cf_clearance` mode.
#[derive(Debug, Clone)]
pub struct TurnstileChallenge {
    /// Full URL of the page with the challenge.
    pub website_url: String,
    /// Turnstile site key.
    pub website_key: String,
    /// Challenge mode.
    pub mode: TurnstileChallengeMode,
    /// Action parameter (token mode).
    pub page_action: Option<String>,
    /// `cData` value (token mode).
    pub data: Option<String>,
    /// `chlPageData` value (token mode).
    pub page_data: Option<String>,
    /// Optional API JS URL.
    pub api_js_url: Option<String>,
    /// Base64-encoded challenge page (`cf_clearance` mode).
    pub html_page_base64: Option<String>,
    /// User agent used during solving.
    pub user_agent: String,
    /// Proxy: optional in token mode, required in `cf_clearance` mode.
    pub proxy: Option<ProxyConfig>,
}

impl TurnstileChallenge {
    /// A challenge task in token mode.
    pub fn token(
        website_url: &str,
        website_key: &str,
        page_action: &str,
        data: &str,
        page_data: &str,
        user_agent: &str,
    ) -> (t: Self)
        ensures
            t.website_url@ == website_url@,
            t.website_key@ == website_key@,
            t.mode == TurnstileChallengeMode::Token,
            opt_view(t.page_action) == Some(page_action@),
            opt_view(t.data) == Some(data@),
            opt_view(t.page_data) == Some(page_data@),
            t.api_js_url is None,
            t.html_page_base64 is None,
            t.user_agent@ == user_agent@,
            t.proxy is None,
    {
        TurnstileChallenge {
            website_url: website_url.to_string(),
            website_key: website_key.to_string(),
            mode: TurnstileChallengeMode::Token,
            page_action: Some(page_action.to_string()),
            data: Some(data.to_string()),
            page_data: Some(page_data.to_string()),
            api_js_url: None,
            html_page_base64: None,
            user_agent: user_agent.to_string(),
            proxy: None,
        }
    }

    /// A challenge task in `cf_clearance` mode.
    pub fn cf_clearance(
        website_url: &str,
        website_key: &str,
        html_page_base64: &str,
        user_agent: &str,
        proxy: ProxyConfig,
    ) -> (t: Self)
        ensures
            t.website_url@ == website_url@,
            t.website_key@ == website_key@,
            t.mode == TurnstileChallengeMode::CfClearance,
            t.page_action is None,
            t.data is None,
            t.page_data is None,
            t.api_js_url is None,
            opt_view(t.html_page_base64) == Some(html_page_base64@),
            t.user_agent@ == user_agent@,
            t.proxy == Some(proxy),
    {
        TurnstileChallenge {
            website_url: website_url.to_string(),
            website_key: website_key.to_string(),
            mode: TurnstileChallengeMode::CfClearance,
            page_action: None,
            data: None,
            page_data: None,
            api_js_url: None,
            html_page_base64: Some(html_page_base64.to_string()),
            user_agent: user_agent.to_string(),
            proxy: Some(proxy),
        }
    }

    /// Sets a custom API JS URL.
    pub fn with_api_js_url(self, api_js_url: &str) -> (t: Self)
        ensures
            opt_view(t.api_js_url) == Some(api_js_url@),
            t == (TurnstileChallenge { api_js_url: t.api_js_url, ..self }),
    {
        let mut t = self;
        t.api_js_url = Some(api_js_url.to_string());
        t
    }

    /// Sets the proxy.
    pub fn with_proxy(self, proxy: ProxyConfig) -> (t: Self)
        ensures
            t == (TurnstileChallenge { proxy: Some(proxy), ..self }),
    {
        let mut t = self;
        t.proxy = Some(proxy);
        t
    }

    /// Whether the mode is token.
    pub fn is_token_mode(&self) -> (b: bool)
        ensures
            b == (self.mode == TurnstileChallengeMode::Token),
    {
        matches!(self.mode, TurnstileChallengeMode::Token)
    }

    /// Whether the mode is `cf_clearance`.
    pub fn is_cf_clearance_mode(&self) -> (b: bool)
        ensures
            b == (self.mode == TurnstileChallengeMode::CfClearance),
    {
        matches!(self.mode, TurnstileChallengeMode::CfClearance)
    }
}

} // verus!
