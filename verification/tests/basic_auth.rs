use lettro::routes::basic_auth::{basic_authenticate, credentials_from_decoded, CredentialsError};

fn header(credentials: &str) -> Vec<u8> {
    format!("Basic {}", base64::encode(credentials)).into_bytes()
}

#[test]
fn basic_credentials_are_read() {
    let h = header("ursula:le-guin");
    let c = basic_authenticate(Some(&h)).ok().unwrap();
    assert_eq!(c.username, "ursula");
    assert_eq!(c.password, "le-guin");
}

#[test]
fn password_keeps_later_colons() {
    let h = header("admin:pa:ss:word");
    let c = basic_authenticate(Some(&h)).ok().unwrap();
    assert_eq!(c.username, "admin");
    assert_eq!(c.password, "pa:ss:word");
}

#[test]
fn empty_username_and_password_are_accepted() {
    let h = header(":");
    let c = basic_authenticate(Some(&h)).ok().unwrap();
    assert_eq!(c.username, "");
    assert_eq!(c.password, "");
}

#[test]
fn non_ascii_credentials_are_decoded() {
    let h = header("josé:contraseña");
    let c = basic_authenticate(Some(&h)).ok().unwrap();
    assert_eq!(c.username, "josé");
    assert_eq!(c.password, "contraseña");
}

#[test]
fn missing_header_is_refused() {
    let e = basic_authenticate(None).err().unwrap();
    assert_eq!(e, CredentialsError::MissingHeader);
    assert_eq!(e.message(), "The 'Authorization' header was missing");
}

#[test]
fn non_visible_header_bytes_are_refused() {
    let h = b"Basic \xffabc".to_vec();
    let e = basic_authenticate(Some(&h)).err().unwrap();
    assert_eq!(e, CredentialsError::InvalidHeaderText);
    assert_eq!(e.message(), "The 'Authorization' header was not a valid UTF-8 string.");
}

#[test]
fn other_schemes_are_refused() {
    let h = b"Bearer dXNlcjpwYXNz".to_vec();
    let e = basic_authenticate(Some(&h)).err().unwrap();
    assert_eq!(e, CredentialsError::NotBasicScheme);
    assert_eq!(e.message(), "The authorization scheme was not 'Basic'.");
    let short = b"Basic".to_vec();
    assert_eq!(basic_authenticate(Some(&short)).err().unwrap(), CredentialsError::NotBasicScheme);
}

#[test]
fn invalid_base64_is_refused() {
    let h = b"Basic !!!not-base64".to_vec();
    let e = basic_authenticate(Some(&h)).err().unwrap();
    assert_eq!(e, CredentialsError::NotBase64);
    assert_eq!(e.message(), "Failed to base64-decode 'Basic' credentials.");
}

#[test]
fn invalid_utf8_credentials_are_refused() {
    let h = format!("Basic {}", base64::encode([0xffu8, 0xfe, b':', b'x'])).into_bytes();
    let e = basic_authenticate(Some(&h)).err().unwrap();
    assert_eq!(e, CredentialsError::NotUtf8);
    assert_eq!(e.message(), "The decoded credential string is not valid UTF-8.");
}

#[test]
fn credentials_without_colon_are_refused() {
    let h = header("only-a-username");
    let e = basic_authenticate(Some(&h)).err().unwrap();
    assert_eq!(e, CredentialsError::MissingPassword);
    assert_eq!(e.message(), "A password must be provided in 'Basic' auth.");
}

#[test]
fn decoded_credentials_split_at_first_colon() {
    let c = credentials_from_decoded(b"user:pa:ss".to_vec()).ok().unwrap();
    assert_eq!((c.username.as_str(), c.password.as_str()), ("user", "pa:ss"));
    assert_eq!(credentials_from_decoded(b"nocolon".to_vec()).err(), Some(CredentialsError::MissingPassword));
    assert_eq!(credentials_from_decoded(vec![0xc3, b':']).err(), Some(CredentialsError::NotUtf8));
}
