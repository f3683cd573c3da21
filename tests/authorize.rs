use identity_server::{validate, validate_keys};

#[test]
fn all_required_parameters_pass() {
    assert!(validate(Some("response_type=code&client_id=abc&scope=openid")));
}

#[test]
fn extra_parameters_and_order_do_not_matter() {
    assert!(validate(Some("state=xyz&scope=&client_id=abc&response_type=code&nonce=1")));
}

#[test]
fn each_missing_parameter_fails() {
    assert!(!validate(Some("client_id=abc&scope=openid")));
    assert!(!validate(Some("response_type=code&scope=openid")));
    assert!(!validate(Some("response_type=code&client_id=abc")));
}

#[test]
fn no_query_string_fails() {
    assert!(!validate(None));
    assert!(!validate(Some("")));
}

#[test]
fn names_are_decoded_before_matching() {
    assert!(validate(Some("response%5Ftype=code&client_id=a&scope=b")));
}

#[test]
fn names_are_case_sensitive() {
    assert!(!validate(Some("Response_Type=code&client_id=a&scope=b")));
}

#[test]
fn key_list_check() {
    let keys = vec!["scope".to_string(), "client_id".to_string(), "response_type".to_string()];
    assert!(validate_keys(&keys));
    assert!(!validate_keys(&keys[..2].to_vec()));
    assert!(!validate_keys(&Vec::new()));
}
