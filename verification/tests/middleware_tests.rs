use authbase::middleware::extract_bearer_token;

#[test]
fn bearer_token_is_extracted() {
    assert_eq!(extract_bearer_token("Bearer abc.def.ghi"), Some("abc.def.ghi".to_string()));
}

#[test]
fn surrounding_whitespace_is_trimmed() {
    assert_eq!(extract_bearer_token("Bearer   tok-123  "), Some("tok-123".to_string()));
    assert_eq!(extract_bearer_token("Bearer \t tok\t"), Some("tok".to_string()));
}

#[test]
fn other_schemes_are_rejected() {
    assert_eq!(extract_bearer_token("Basic dXNlcjpwYXNz"), None);
    assert_eq!(extract_bearer_token("bearer abc"), None);
    assert_eq!(extract_bearer_token(""), None);
    assert_eq!(extract_bearer_token("Bearer"), None);
}

#[test]
fn empty_token_comes_back_empty() {
    assert_eq!(extract_bearer_token("Bearer    "), Some(String::new()));
}
