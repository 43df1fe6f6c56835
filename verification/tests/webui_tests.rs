use obsidian_ai_agent::webui::server::{asset_mime, check_auth, ws_authorized};

#[test]
fn auth_without_configured_token_allows_all() {
    assert!(check_auth(None, None));
    assert!(check_auth(None, Some("Bearer anything")));
}

#[test]
fn auth_requires_bearer_with_matching_token() {
    assert!(check_auth(Some("secret"), Some("Bearer secret")));
    assert!(!check_auth(Some("secret"), Some("Bearer wrong")));
    assert!(!check_auth(Some("secret"), Some("secret")));
    assert!(!check_auth(Some("secret"), None));
}

#[test]
fn auth_strips_repeated_bearer_prefixes() {
    assert!(check_auth(Some("secret"), Some("Bearer Bearer secret")));
}

#[test]
fn websocket_token_check() {
    assert!(ws_authorized(None, "x"));
    assert!(ws_authorized(Some("abc"), "abc"));
    assert!(!ws_authorized(Some("abc"), "abd"));
}

#[test]
fn asset_types_by_extension() {
    assert_eq!(asset_mime("a.png"), "image/png");
    assert_eq!(asset_mime("a.gif"), "image/gif");
    assert_eq!(asset_mime("a.webp"), "image/webp");
    assert_eq!(asset_mime("a.jpg"), "image/jpeg");
    assert_eq!(asset_mime("noext"), "image/jpeg");
}
