use venus_auth::extract::{bearer_token_of, cookie_token_of};
use venus_auth::{extract_token, RequestMeta};

fn meta(authorization: Option<&str>, cookie: Option<&str>) -> RequestMeta {
    RequestMeta {
        authorization: authorization.map(|s| s.to_string()),
        cookie: cookie.map(|s| s.to_string()),
        host: None,
    }
}

#[test]
fn header_wins_over_cookie() {
    let m = meta(Some("Bearer X"), Some("token=Y"));
    assert_eq!(extract_token(&m), Some("X".to_string()));
}

#[test]
fn cookie_used_without_bearer_header() {
    let m = meta(None, Some("theme=dark; token=abc.def.ghi; lang=en"));
    assert_eq!(extract_token(&m), Some("abc.def.ghi".to_string()));
}

#[test]
fn non_bearer_header_falls_back_to_cookie() {
    let m = meta(Some("Basic dXNlcjpwdw=="), Some("token=Y"));
    assert_eq!(extract_token(&m), Some("Y".to_string()));
}

#[test]
fn nothing_found_without_header_or_cookie() {
    assert_eq!(extract_token(&meta(None, None)), None);
    assert_eq!(extract_token(&meta(Some("Basic abc"), Some("session=1; tok=2"))), None);
}

#[test]
fn bearer_prefix_is_exact() {
    assert_eq!(bearer_token_of("Bearer "), Some(String::new()));
    assert_eq!(bearer_token_of("bearer abc"), None);
    assert_eq!(bearer_token_of("Bearerabc"), None);
    assert_eq!(bearer_token_of("Bearer a b"), Some("a b".to_string()));
}

#[test]
fn cookie_pairs_are_trimmed_and_split_once() {
    assert_eq!(cookie_token_of("  token = x"), None);
    assert_eq!(cookie_token_of("a=1;   token=v=w  ;b=2"), Some("v=w".to_string()));
    assert_eq!(cookie_token_of("token"), None);
    assert_eq!(cookie_token_of("token="), Some(String::new()));
    assert_eq!(cookie_token_of("token=first; token=second"), Some("first".to_string()));
    assert_eq!(cookie_token_of(""), None);
    assert_eq!(cookie_token_of(";;token=z"), Some("z".to_string()));
}
