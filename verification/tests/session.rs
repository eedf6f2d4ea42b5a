use trader_console::session::{Credentials, MissingCredential, TOKEN_SETTING};

#[test]
fn token_setting_has_its_name() {
    assert_eq!(TOKEN_SETTING, "ACCOUNT_TOKEN");
}

#[test]
fn absent_setting_is_a_missing_credential() {
    assert!(matches!(Credentials::from_setting(None), Err(MissingCredential)));
}

#[test]
fn present_setting_becomes_the_bearer_token() {
    let credentials = Credentials::from_setting(Some("bearer-123".to_string())).ok().unwrap();
    assert_eq!(credentials.bearer_token(), "bearer-123");
}

#[test]
fn empty_setting_is_still_present() {
    let credentials = Credentials::from_setting(Some(String::new())).ok().unwrap();
    assert_eq!(credentials.bearer_token(), "");
}

#[test]
fn credentials_are_shared_by_cloning() {
    let credentials = Credentials::from_setting(Some("abc".to_string())).ok().unwrap();
    let copy = credentials.clone();
    assert!(copy == credentials);
    assert_eq!(copy.bearer_token(), "abc");
}
