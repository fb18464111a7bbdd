//! Proxy configuration for captcha solving tasks.

use vstd::prelude::*;
use crate::text::{decimal, push_decimal};

verus! {

/// Proxy type for tasks that need a custom proxy.
#[derive(Debug, Clone, Copy, PartialEq, Eq, Structural)]
pub enum ProxyType {
    Http,
    Https,
    Socks4,
    Socks5,
}

/// The name of a proxy type in the full scheme (https kept distinct).
pub open spec fn full_type_name(t: ProxyType) -> Seq<char> {
    match t {
        ProxyType::Http => "http"@,
        ProxyType::Https => "https"@,
        ProxyType::Socks4 => "socks4"@,
        ProxyType::Socks5 => "socks5"@,
    }
}

/// The name of a proxy type where http and https are both plain http.
pub open spec fn http_family_name(t: ProxyType) -> Seq<char> {
    match t {
        ProxyType::Http | ProxyType::Https => "http"@,
        ProxyType::Socks4 => "socks4"@,
        ProxyType::Socks5 => "socks5"@,
    }
}

impl ProxyType {
    /// The string for the Capsolver API (https kept distinct).
    pub fn as_capsolver_str(&self) -> (s: &'static str)
        ensures
            s@ == full_type_name(*self),
    {
        match self {
            ProxyType::Http => "http",
            ProxyType::Https => "https",
            ProxyType::Socks4 => "socks4",
            ProxyType::Socks5 => "socks5",
        }
    }

    /// The string for the RuCaptcha API (http and https both map to http).
    pub fn as_rucaptcha_str(&self) -> (s: &'static str)
        ensures
            s@ == http_family_name(*self),
    {
        match self {
            ProxyType::Http | ProxyType::Https => "http",
            ProxyType::Socks4 => "socks4",
            ProxyType::Socks5 => "socks5",
        }
    }
}

/// Proxy configuration for captcha solving tasks.
#[derive(Debug, Clone)]
pub struct ProxyConfig {
    pub proxy_type: ProxyType,
    pub address: String,
    pub port: u16,
    pub login: Option<String>,
    pub password: Option<String>,
}

/// The views of an optional string.
pub open spec fn opt_view(o: Option<String>) -> Option<Seq<char>> {
    match o {
        Some(s) => Some(s@),
        None => None,
    }
}

impl ProxyConfig {
    /// A configuration of the given type without credentials.
    pub open spec fn plain(proxy_type: ProxyType, address: Seq<char>, port: u16, c: ProxyConfig) -> bool {
        &&& c.proxy_type == proxy_type
        &&& c.address@ == address
        &&& c.port == port
        &&& c.login is None
        &&& c.password is None
    }

    fn with_type(proxy_type: ProxyType, address: &str, port: u16) -> (c: Self)
        ensures
            Self::plain(proxy_type, address@, port, c),
    {
        ProxyConfig {
            proxy_type,
            address: address.to_string(),
            port,
            login: None,
            password: None,
        }
    }

    /// A new HTTP proxy configuration.
    pub fn http(address: &str, port: u16) -> (c: Self)
        ensures
            Self::plain(ProxyType::Http, address@, port, c),
    {
        Self::with_type(ProxyType::Http, address, port)
    }

    /// A new HTTPS proxy configuration.
    pub fn https(address: &str, port: u16) -> (c: Self)
        ensures
            Self::plain(ProxyType::Https, address@, port, c),
    {
        Self::with_type(ProxyType::Https, address, port)
    }

    /// A new SOCKS4 proxy configuration.
    pub fn socks4(address: &str, port: u16) -> (c: Self)
        ensures
            Self::plain(ProxyType::Socks4, address@, port, c),
    {
        Self::with_type(ProxyType::Socks4, address, port)
    }

    /// A new SOCKS5 proxy configuration.
    pub fn socks5(address: &str, port: u16) -> (c: Self)
        ensures
            Self::plain(ProxyType::Socks5, address@, port, c),
    {
        Self::with_type(ProxyType::Socks5, address, port)
    }

    /// Adds authentication credentials, keeping everything else.
    pub fn with_auth(self, login: &str, password: &str) -> (c: Self)
        ensures
            c.proxy_type == self.proxy_type,
            c.address == self.address,
            c.port == self.port,
            opt_view(c.login) == Some(login@),
            opt_view(c.password) == Some(password@),
    {
        let mut c = self;
        c.login = Some(login.to_string());
        c.password = Some(password.to_string());
        c
    }

    /// The text `type:address:port`, followed by `:login:password` when both
    /// credentials are set.
    pub open spec fn string_format(&self) -> Seq<char> {
        let base = full_type_name(self.proxy_type) + ":"@ + self.address@ + ":"@ + decimal(
            self.port as nat,
        );
        match (self.login, self.password) {
            (Some(login), Some(password)) => base + ":"@ + login@ + ":"@ + password@,
            _ => base,
        }
    }

    /// Renders the proxy as `type:address:port[:user:pass]` (the format that
    /// Capsolver and similar services take).
    pub fn to_string_format(&self) -> (s: String)
        ensures
            s@ == self.string_format(),
    {
        let mut s = String::new();
        s.append(self.proxy_type.as_capsolver_str());
        s.append(":");
        s.append(self.address.as_str());
        s.append(":");
        push_decimal(&mut s, self.port as u64);
        match (&self.login, &self.password) {
            (Some(login), Some(password)) => {
                s.append(":");
                s.append(login.as_str());
                s.append(":");
                s.append(password.as_str());
            },
            _ => {},
        }
        s
    }

    /// The proxy type string for RuCaptcha-style APIs.
    pub fn type_str(&self) -> (s: &'static str)
        ensures
            s@ == http_family_name(self.proxy_type),
    {
        self.proxy_type.as_rucaptcha_str()
    }

    /// The proxy fields in the shape that provider payloads flatten in.
    pub fn into_api_proxy_fields(self) -> (f: ApiProxyFields)
        ensures
            f.proxy_type == self.proxy_type,
            f.proxy_address == self.address,
            f.proxy_port == self.port,
            f.proxy_login == self.login,
            f.proxy_password == self.password,
    {
        ApiProxyFields {
            proxy_type: self.proxy_type,
            proxy_address: self.address,
            proxy_port: self.port,
            proxy_login: self.login,
            proxy_password: self.password,
        }
    }
}

/// Proxy fields of a task payload, Capsolver format (https kept distinct).
#[derive(Debug, Clone)]
pub struct CapsolverProxyFields {
    pub proxy_type: ProxyType,
    pub proxy_address: String,
    pub proxy_port: u16,
    pub proxy_login: Option<String>,
    pub proxy_password: Option<String>,
}

/// Proxy fields of a task payload, RuCaptcha format (https sent as http).
#[derive(Debug, Clone)]
pub struct RucaptchaProxyFields {
    pub proxy_type: ProxyType,
    pub proxy_address: String,
    pub proxy_port: u16,
    pub proxy_login: Option<String>,
    pub proxy_password: Option<String>,
}

/// Proxy fields of a task payload, CapMonster format (full type names).
#[derive(Debug, Clone)]
pub struct ApiProxyFields {
    pub proxy_type: ProxyType,
    pub proxy_address: String,
    pub proxy_port: u16,
    pub proxy_login: Option<String>,
    pub proxy_password: Option<String>,
}

impl From<ProxyConfig> for CapsolverProxyFields {
    fn from(config: ProxyConfig) -> (f: Self) {
        CapsolverProxyFields {
            proxy_type: config.proxy_type,
            proxy_address: config.address,
            proxy_port: config.port,
            proxy_login: config.login,
            proxy_password: config.password,
        }
    }
}

impl vstd::std_specs::convert::FromSpecImpl<ProxyConfig> for CapsolverProxyFields {
    open spec fn obeys_from_spec() -> bool {
        true
    }

    open spec fn from_spec(config: ProxyConfig) -> CapsolverProxyFields {
        CapsolverProxyFields {
            proxy_type: config.proxy_type,
            proxy_address: config.address,
            proxy_port: config.port,
            proxy_login: config.login,
            proxy_password: config.password,
        }
    }
}

impl From<ProxyConfig> for RucaptchaProxyFields {
    fn from(config: ProxyConfig) -> (f: Self) {
        RucaptchaProxyFields {
            proxy_type: config.proxy_type,
            proxy_address: config.address,
            proxy_port: config.port,
            proxy_login: config.login,
            proxy_password: config.password,
        }
    }
}

impl vstd::std_specs::convert::FromSpecImpl<ProxyConfig> for RucaptchaProxyFields {
    open spec fn obeys_from_spec() -> bool {
        true
    }

    open spec fn from_spec(config: ProxyConfig) -> RucaptchaProxyFields {
        RucaptchaProxyFields {
            proxy_type: config.proxy_type,
            proxy_address: config.address,
            proxy_port: config.port,
            proxy_login: config.login,
            proxy_password: config.password,
        }
    }
}

} // verus!
