use captcha_solvers::proxy::{CapsolverProxyFields, ProxyConfig, ProxyType, RucaptchaProxyFields};

#[test]
fn test_http_proxy() {
    let proxy = ProxyConfig::http("192.168.1.1", 8080);
    assert_eq!(proxy.proxy_type, ProxyType::Http);
    assert_eq!(proxy.address, "192.168.1.1");
    assert_eq!(proxy.port, 8080);
    assert!(proxy.login.is_none());
    assert!(proxy.password.is_none());
}

#[test]
fn test_socks5_proxy_with_auth() {
    let proxy = ProxyConfig::socks5("proxy.example.com", 1080).with_auth("user", "pass");
    assert_eq!(proxy.proxy_type, ProxyType::Socks5);
    assert_eq!(proxy.address, "proxy.example.com");
    assert_eq!(proxy.port, 1080);
    assert_eq!(proxy.login.as_deref(), Some("user"));
    assert_eq!(proxy.password.as_deref(), Some("pass"));
}

#[test]
fn test_to_string_format_without_auth() {
    let proxy = ProxyConfig::http("192.168.1.1", 8080);
    assert_eq!(proxy.to_string_format(), "http:192.168.1.1:8080");
}

#[test]
fn test_to_string_format_with_auth() {
    let proxy = ProxyConfig::socks5("proxy.example.com", 1080).with_auth("user", "pass");
    assert_eq!(
        proxy.to_string_format(),
        "socks5:proxy.example.com:1080:user:pass"
    );
}

#[test]
fn test_type_str() {
    assert_eq!(ProxyConfig::http("a", 1).type_str(), "http");
    assert_eq!(ProxyConfig::https("a", 1).type_str(), "http");
    assert_eq!(ProxyConfig::socks4("a", 1).type_str(), "socks4");
    assert_eq!(ProxyConfig::socks5("a", 1).type_str(), "socks5");
}

#[test]
fn test_proxy_config() {
    let proxy = ProxyConfig::http("192.168.1.1", 8080);
    assert_eq!(proxy.proxy_type, ProxyType::Http);
    assert_eq!(proxy.address, "192.168.1.1");
    assert_eq!(proxy.port, 8080);
    assert!(proxy.login.is_none());

    let proxy = proxy.with_auth("user", "pass");
    assert_eq!(proxy.login.as_deref(), Some("user"));
    assert_eq!(proxy.password.as_deref(), Some("pass"));
}

#[test]
fn https_proxy_keeps_its_scheme_in_the_string_format() {
    let proxy = ProxyConfig::https("10.0.0.1", 443).with_auth("u", "p");
    assert_eq!(proxy.to_string_format(), "https:10.0.0.1:443:u:p");
    assert_eq!(proxy.type_str(), "http");
}

#[test]
fn proxy_port_zero_and_max_render_in_decimal() {
    assert_eq!(ProxyConfig::socks4("h", 0).to_string_format(), "socks4:h:0");
    assert_eq!(ProxyConfig::socks4("h", 65535).to_string_format(), "socks4:h:65535");
}

#[test]
fn proxy_type_strings_per_provider() {
    assert_eq!(ProxyType::Https.as_capsolver_str(), "https");
    assert_eq!(ProxyType::Https.as_rucaptcha_str(), "http");
    assert_eq!(ProxyType::Socks4.as_capsolver_str(), "socks4");
    assert_eq!(ProxyType::Socks5.as_rucaptcha_str(), "socks5");
}

#[test]
fn proxy_fields_copy_every_field() {
    let proxy = ProxyConfig::https("h", 3128).with_auth("l", "p");
    let c: CapsolverProxyFields = proxy.clone().into();
    assert_eq!(c.proxy_type, ProxyType::Https);
    assert_eq!(c.proxy_address, "h");
    assert_eq!(c.proxy_port, 3128);
    assert_eq!(c.proxy_login.as_deref(), Some("l"));
    assert_eq!(c.proxy_password.as_deref(), Some("p"));
    let r: RucaptchaProxyFields = proxy.clone().into();
    assert_eq!(r.proxy_type, ProxyType::Https);
    let a = proxy.into_api_proxy_fields();
    assert_eq!(a.proxy_port, 3128);
    assert_eq!(a.proxy_login.as_deref(), Some("l"));
}
