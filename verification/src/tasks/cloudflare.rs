//! Turnstile and Cloudflare Challenge task types.

use vstd::prelude::*;
use crate::proxy::{opt_view, ProxyConfig};

verus! {

/// Cloudflare Turnstile task.
#[derive(Debug, Clone)]
pub struct Turnstile {
    /// Full URL of the page with the Turnstile widget.
    pub website_url: String,
    /// The Turnstile site key.
    pub website_key: String,
    /// Action parameter (`data-action`).
    pub action: Option<String>,
    /// Custom data (`data-cdata`).
    pub cdata: Option<String>,
    /// Page data (`chlPageData`).
    pub pagedata: Option<String>,
    /// Proxy configuration, if any.
    pub proxy: Option<ProxyConfig>,
}

impl Turnstile {
    /// A new Turnstile task without options.
    pub fn new(website_url: &str, website_key: &str) -> (t: Self)
        ensures
            t.website_url@ == website_url@,
            t.website_key@ == website_key@,
            t.action is None,
            t.cdata is None,
            t.pagedata is None,
            t.proxy is None,
    {
        Turnstile {
            website_url: website_url.to_string(),
            website_key: website_key.to_string(),
            action: None,
            cdata: None,
            pagedata: None,
            proxy: None,
        }
    }

    /// Sets the action.
    pub fn with_action(self, action: &str) -> (t: Self)
        ensures
            opt_view(t.action) == Some(action@),
            t == (Turnstile { action: t.action, ..self }),
    {
        let mut t = self;
        t.action = Some(action.to_string());
        t
    }

    /// Sets the custom data.
    pub fn with_cdata(self, cdata: &str) -> (t: Self)
        ensures
            opt_view(t.cdata) == Some(cdata@),
            t == (Turnstile { cdata: t.cdata, ..self }),
    {
        let mut t = self;
        t.cdata = Some(cdata.to_string());
        t
    }

    /// Sets the page data.
    pub fn with_pagedata(self, pagedata: &str) -> (t: Self)
        ensures
            opt_view(t.pagedata) == Some(pagedata@),
            t == (Turnstile { pagedata: t.pagedata, ..self }),
    {
        let mut t = self;
        t.pagedata = Some(pagedata.to_string());
        t
    }

    /// Sets the proxy.
    pub fn with_proxy(self, proxy: ProxyConfig) -> (t: Self)
        ensures
            t == (Turnstile { proxy: Some(proxy), ..self }),
    {
        let mut t = self;
        t.proxy = Some(proxy);
        t
    }

    /// Whether a proxy is configured.
    pub fn has_proxy(&self) -> (b: bool)
        ensures
            b == self.proxy is Some,
    {
        self.proxy.is_some()
    }

    /// The website URL.
    pub fn website_url(&self) -> (s: &str)
        ensures
            s@ == self.website_url@,
    {
        self.website_url.as_str()
    }

    /// The website key.
    pub fn website_key(&self) -> (s: &str)
        ensures
            s@ == self.website_key@,
    {
        self.website_key.as_str()
    }

    /// The action, if set.
    pub fn action(&self) -> (a: Option<&str>)
        ensures
            match a {
                Some(s) => opt_view(self.action) == Some(s@),
                None => self.action is None,
            },
    {
        match &self.action {
            Some(a) => Some(a.as_str()),
            None => None,
        }
    }

    /// The custom data, if set.
    pub fn cdata(&self) -> (a: Option<&str>)
        ensures
            match a {
                Some(s) => opt_view(self.cdata) == Some(s@),
                None => self.cdata is None,
            },
    {
        match &self.cdata {
            Some(a) => Some(a.as_str()),
            None => None,
        }
    }

    /// The proxy, if set.
    pub fn proxy(&self) -> (p: Option<&ProxyConfig>)
        ensures
            match p {
                Some(q) => self.proxy == Some(*q),
                None => self.proxy is None,
            },
    {
        self.proxy.as_ref()
    }
}

/// Full-page Cloudflare challenge task; it always needs a (static or sticky)
/// proxy.
#[derive(Debug, Clone)]
pub struct CloudflareChallenge {
    /// Full URL of the page with the challenge.
    pub website_url: String,
    /// Proxy configuration (always required).
    pub proxy: ProxyConfig,
    /// User agent to use.
    pub user_agent: Option<String>,
    /// Challenge page HTML.
    pub html: Option<String>,
}

impl CloudflareChallenge {
    /// A new challenge task through `proxy`.
    pub fn new(website_url: &str, proxy: ProxyConfig) -> (t: Self)
        ensures
            t.website_url@ == website_url@,
            t.proxy == proxy,
            t.user_agent is None,
            t.html is None,
    {
        CloudflareChallenge {
            website_url: website_url.to_string(),
            proxy,
            user_agent: None,
            html: None,
        }
    }

    /// Sets the user agent.
    pub fn with_user_agent(self, user_agent: &str) -> (t: Self)
        ensures
            opt_view(t.user_agent) == Some(user_agent@),
            t == (CloudflareChallenge { user_agent: t.user_agent, ..self }),
    {
        let mut t = self;
        t.user_agent = Some(user_agent.to_string());
        t
    }

    /// Sets the challenge HTML.
    pub fn with_html(self, html: &str) -> (t: Self)
        ensures
            opt_view(t.html) == Some(html@),
            t == (CloudflareChallenge { html: t.html, ..self }),
    {
        let mut t = self;
        t.html = Some(html.to_string());
        t
    }

    /// The proxy.
    pub fn proxy(&self) -> (p: &ProxyConfig)
        ensures
            *p == self.proxy,
    {
        &self.proxy
    }

    /// The website URL.
    pub fn website_url(&self) -> (s: &str)
        ensures
            s@ == self.website_url@,
    {
        self.website_url.as_str()
    }

    /// The user agent, if set.
    pub fn user_agent(&self) -> (a: Option<&str>)
        ensures
            match a {
                Some(s) => opt_view(self.user_agent) == Some(s@),
                None => self.user_agent is None,
            },
    {
        match &self.user_agent {
            Some(a) => Some(a.as_str()),
            None => None,
        }
    }

    /// The HTML, if set.
    pub fn html(&self) -> (a: Option<&str>)
        ensures
            match a {
                Some(s) => opt_view(self.html) == Some(s@),
                None => self.html is None,
            },
    {
        match &self.html {
            Some(a) => Some(a.as_str()),
            None => None,
        }
    }
}

} // verus!
