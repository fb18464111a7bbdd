//! Cloudflare waiting room task type.

use vstd::prelude::*;
use crate::proxy::ProxyConfig;

verus! {

/// Cloudflare waiting room task.
#[derive(Debug, Clone)]
pub struct TurnstileWaitRoom {
    /// Full URL of the waiting room page.
    pub website_url: String,
    /// Site key.
    pub website_key: String,
    /// Base64-encoded waiting room page.
    pub html_page_base64: String,
    /// User agent used during solving.
    pub user_agent: String,
    /// Proxy configuration (required).
    pub proxy: ProxyConfig,
}

impl TurnstileWaitRoom {
    /// A new waiting room task.
    pub fn new(
        website_url: &str,
        website_key: &str,
        html_page_base64: &str,
        user_agent: &str,
        proxy: ProxyConfig,
    ) -> (t: Self)
        ensures
            t.website_url@ == website_url@,
            t.website_key@ == website_key@,
            t.html_page_base64@ == html_page_base64@,
            t.user_agent@ == user_agent@,
            t.proxy == proxy,
    {
        TurnstileWaitRoom {
            website_url: website_url.to_string(),
            website_key: website_key.to_string(),
            html_page_base64: html_page_base64.to_string(),
            user_agent: user_agent.to_string(),
            proxy,
        }
    }
}

} // verus!
