use rustaceans::auth::{authenticate, BasicAuth, Credentials, COLON};

fn configured() -> Credentials {
    Credentials { username: "foo".to_string(), password: "bar".to_string() }
}

fn pair(username: &str, password: &str) -> Option<BasicAuth> {
    Some(BasicAuth { username: username.to_string(), password: password.to_string() })
}

#[test]
fn colon_is_the_ascii_colon() {
    assert_eq!(COLON, b':');
}

#[test]
fn header_with_configured_pair_presents_it() {
    assert_eq!(BasicAuth::from_authorization_header("Basic Zm9vOmJhcg=="), pair("foo", "bar"));
}

#[test]
fn header_is_decoded_not_copied() {
    let auth = BasicAuth::from_authorization_header("Basic Zm9vYmFyOmJheg==").unwrap();
    assert_eq!(auth.username, "foobar");
    assert_eq!(auth.password, "baz");
}

#[test]
fn token_is_decoded_by_the_standard_alphabet() {
    assert_eq!(BasicAuth::from_base64_encoded(b"Zm9vOmJhcg=="), pair("foo", "bar"));
    assert_eq!(BasicAuth::from_base64_encoded(b"Zm9vOmLDpHI="), pair("foo", "b\u{e4}r"));
}

#[test]
fn token_encoded_by_the_crate_reads_back() {
    let token = base64::Engine::encode(
        &base64::engine::general_purpose::STANDARD,
        "j\u{fc}rgen:p\u{e4}ssword",
    );
    assert_eq!(token, "asO8cmdlbjpww6Rzc3dvcmQ=");
    assert_eq!(
        BasicAuth::from_base64_encoded(token.as_bytes()),
        pair("j\u{fc}rgen", "p\u{e4}ssword")
    );
}

#[test]
fn token_without_padding_presents_nothing() {
    assert_eq!(BasicAuth::from_base64_encoded(b"Zm9vOmJhcg"), None);
}

#[test]
fn token_outside_the_alphabet_presents_nothing() {
    assert_eq!(BasicAuth::from_base64_encoded(b"Zm9v*mJhcg=="), None);
    assert_eq!(BasicAuth::from_base64_encoded(b"Zm9v OmJhcg=="), None);
}

#[test]
fn empty_token_presents_nothing() {
    assert_eq!(BasicAuth::from_base64_encoded(b""), None);
}

#[test]
fn decoded_bytes_split_at_the_first_colon() {
    assert_eq!(BasicAuth::from_decoded(b"foo:bar"), pair("foo", "bar"));
    assert_eq!(BasicAuth::from_decoded(b"user:pa:ss"), pair("user", "pa:ss"));
    assert_eq!(BasicAuth::from_decoded(b"a::"), pair("a", ":"));
}

#[test]
fn decoded_bytes_may_leave_a_side_empty() {
    assert_eq!(BasicAuth::from_decoded(b":"), pair("", ""));
    assert_eq!(BasicAuth::from_decoded(b"foo:"), pair("foo", ""));
    assert_eq!(BasicAuth::from_decoded(b":bar"), pair("", "bar"));
}

#[test]
fn decoded_bytes_without_colon_hold_no_pair() {
    assert_eq!(BasicAuth::from_decoded(b"foobar"), None);
    assert_eq!(BasicAuth::from_decoded(b""), None);
}

#[test]
fn decoded_bytes_that_are_not_utf8_hold_no_pair() {
    assert_eq!(BasicAuth::from_decoded(b"fo\xff:bar"), None);
    assert_eq!(BasicAuth::from_decoded(b"foo:b\xc3"), None);
    assert_eq!(BasicAuth::from_base64_encoded(b"Zm//OmJhcg=="), None);
}

#[test]
fn decoded_bytes_keep_text_beyond_ascii() {
    assert_eq!(
        BasicAuth::from_decoded("gr\u{fc}n:\u{1f980}".as_bytes()),
        pair("gr\u{fc}n", "\u{1f980}")
    );
}

#[test]
fn header_of_another_scheme_presents_nothing() {
    assert_eq!(BasicAuth::from_authorization_header("Bearer Zm9vOmJhcg=="), None);
    assert_eq!(BasicAuth::from_authorization_header("Digest Zm9vOmJhcg=="), None);
}

#[test]
fn scheme_is_read_exactly() {
    assert_eq!(BasicAuth::from_authorization_header("basic Zm9vOmJhcg=="), None);
    assert_eq!(BasicAuth::from_authorization_header("BASIC Zm9vOmJhcg=="), None);
    assert_eq!(BasicAuth::from_authorization_header("BasicZm9vOmJhcg=="), None);
    assert_eq!(BasicAuth::from_authorization_header(" Basic Zm9vOmJhcg=="), None);
    assert_eq!(BasicAuth::from_authorization_header("Basic  Zm9vOmJhcg=="), None);
}

#[test]
fn short_headers_present_nothing() {
    assert_eq!(BasicAuth::from_authorization_header(""), None);
    assert_eq!(BasicAuth::from_authorization_header("Basic"), None);
    assert_eq!(BasicAuth::from_authorization_header("Basic "), None);
    assert_eq!(BasicAuth::from_authorization_header("Zm9vOmJhcg=="), None);
}

#[test]
fn header_without_colon_presents_nothing() {
    assert_eq!(BasicAuth::from_authorization_header("Basic Zm9vYmFy"), None);
}

#[test]
fn header_with_trailing_text_presents_nothing() {
    assert_eq!(BasicAuth::from_authorization_header("Basic Zm9vOmJhcg== "), None);
    assert_eq!(BasicAuth::from_authorization_header("Basic Zm9vOmJhcg== x"), None);
}

#[test]
fn matches_compares_both_fields_exactly() {
    let expected = configured();
    assert!(pair("foo", "bar").unwrap().matches(&expected));
    assert!(!pair("foo", "wrong").unwrap().matches(&expected));
    assert!(!pair("wrong", "bar").unwrap().matches(&expected));
    assert!(!pair("bar", "foo").unwrap().matches(&expected));
    assert!(!pair("Foo", "bar").unwrap().matches(&expected));
    assert!(!pair("foo", "bar ").unwrap().matches(&expected));
    assert!(!pair("", "").unwrap().matches(&expected));
}

#[test]
fn configured_pair_authenticates() {
    assert!(authenticate(Some("Basic Zm9vOmJhcg=="), Some(&configured())));
}

#[test]
fn wrong_password_does_not_authenticate() {
    assert!(!authenticate(Some("Basic Zm9vOndyb25n"), Some(&configured())));
}

#[test]
fn swapped_or_altered_pairs_do_not_authenticate() {
    assert!(!authenticate(Some("Basic YmFyOmZvbw=="), Some(&configured())));
    assert!(!authenticate(Some("Basic Rm9vOmJhcg=="), Some(&configured())));
    assert!(!authenticate(Some("Basic Zm9vOmJhciA="), Some(&configured())));
}

#[test]
fn wrong_scheme_does_not_authenticate() {
    assert!(!authenticate(Some("Bearer Zm9vOmJhcg=="), Some(&configured())));
}

#[test]
fn malformed_header_does_not_authenticate() {
    assert!(!authenticate(Some("Basic not base64!"), Some(&configured())));
    assert!(!authenticate(Some("Basic Zm9vYmFy"), Some(&configured())));
    assert!(!authenticate(Some("Basic"), Some(&configured())));
    assert!(!authenticate(Some(""), Some(&configured())));
}

#[test]
fn absent_header_does_not_authenticate() {
    assert!(!authenticate(None, Some(&configured())));
}

#[test]
fn password_with_colons_authenticates() {
    let expected = Credentials { username: "user".to_string(), password: "pa:ss".to_string() };
    assert!(authenticate(Some("Basic dXNlcjpwYTpzcw=="), Some(&expected)));
}

#[test]
fn username_with_colon_cannot_authenticate() {
    let expected = Credentials { username: "us:er".to_string(), password: "pass".to_string() };
    let token = base64::Engine::encode(&base64::engine::general_purpose::STANDARD, "us:er:pass");
    let header = format!("Basic {}", token);
    assert_eq!(BasicAuth::from_authorization_header(&header), pair("us", "er:pass"));
    assert!(!authenticate(Some(&header), Some(&expected)));
}

#[test]
fn empty_pair_authenticates_when_configured() {
    let expected = Credentials { username: String::new(), password: String::new() };
    assert!(authenticate(Some("Basic Og=="), Some(&expected)));
    assert!(!authenticate(Some("Basic "), Some(&expected)));
}

#[test]
fn nobody_authenticates_without_a_configured_pair() {
    assert!(!authenticate(Some("Basic Zm9vOmJhcg=="), None));
    assert!(!authenticate(Some("Basic Og=="), None));
    assert!(!authenticate(Some(""), None));
    assert!(!authenticate(None, None));
}

#[test]
fn settings_configure_a_pair_only_together() {
    assert_eq!(
        Credentials::from_settings(Some("foo".to_string()), Some("bar".to_string())),
        Some(configured())
    );
    assert_eq!(
        Credentials::from_settings(Some(String::new()), Some(String::new())),
        Some(Credentials { username: String::new(), password: String::new() })
    );
    assert_eq!(Credentials::from_settings(Some("foo".to_string()), None), None);
    assert_eq!(Credentials::from_settings(None, Some("bar".to_string())), None);
    assert_eq!(Credentials::from_settings(None, None), None);
}

#[test]
fn settings_read_back_authenticate_their_own_pair() {
    let expected = Credentials::from_settings(Some("foo".to_string()), Some("bar".to_string()));
    assert!(authenticate(Some("Basic Zm9vOmJhcg=="), expected.as_ref()));
    let unset = Credentials::from_settings(Some("foo".to_string()), None);
    assert!(!authenticate(Some("Basic Zm9vOmJhcg=="), unset.as_ref()));
}
