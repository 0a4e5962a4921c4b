use gpui_web::http::{AsyncBody, BlockedHttpClient, RedirectPolicy, Url, WebHttpClient};

#[test]
fn test_url_parse() {
    let url = Url::parse("https://example.com").unwrap();
    assert_eq!(url.as_str(), "https://example.com");
    assert_eq!(url.display_string(), "https://example.com");
}

#[test]
fn test_url_equality() {
    let url1 = Url::parse("https://example.com").unwrap();
    let url2 = Url::parse("https://example.com").unwrap();
    let url3 = Url::parse("https://other.com").unwrap();
    assert_eq!(url1, url2);
    assert_ne!(url1, url3);
}

#[test]
fn test_async_body_default() {
    let body = AsyncBody::default();
    assert!(matches!(body, AsyncBody::Empty));
}

#[test]
fn test_async_body_from_unit() {
    let body: AsyncBody = ().into();
    assert!(matches!(body, AsyncBody::Empty));
}

#[test]
fn test_async_body_from_vec() {
    let data = vec![1, 2, 3, 4];
    let body: AsyncBody = data.clone().into();
    assert!(matches!(body, AsyncBody::Bytes(bytes) if bytes == data));
}

#[test]
fn test_async_body_from_string() {
    let s = "hello world".to_string();
    let body: AsyncBody = s.clone().into();
    assert!(matches!(body, AsyncBody::Bytes(bytes) if bytes == s.as_bytes()));
}

#[test]
fn test_async_body_from_str() {
    let s = "hello world";
    let body: AsyncBody = s.into();
    assert!(matches!(body, AsyncBody::Bytes(bytes) if bytes == s.as_bytes()));
}

#[test]
fn test_redirect_policy_default() {
    assert_eq!(RedirectPolicy::default(), RedirectPolicy::NoFollow);
}

#[test]
fn test_blocked_client_has_no_identity() {
    let client = BlockedHttpClient::new();
    assert!(client.user_agent().is_none());
    assert!(client.proxy().is_none());
}

#[test]
fn test_web_client_user_agent() {
    let client = WebHttpClient::new();
    assert_eq!(client.user_agent().map(|ua| ua.as_str()), Some("gpui-web"));
    assert!(client.proxy().is_none());

    let custom = WebHttpClient::with_user_agent("my-agent");
    assert_eq!(custom.user_agent().map(|ua| ua.as_str()), Some("my-agent"));
}

#[test]
fn test_web_client_default_matches_new() {
    let a = WebHttpClient::default();
    let b = WebHttpClient::new();
    assert_eq!(
        a.user_agent().map(|ua| ua.as_str()),
        b.user_agent().map(|ua| ua.as_str())
    );
}
