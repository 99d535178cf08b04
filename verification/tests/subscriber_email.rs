use lettro::domain::SubscriberEmail;

#[test]
fn empty_string_is_rejected() {
    let email = "".to_string();
    assert!(SubscriberEmail::parse(email).is_err());
}

#[test]
fn email_missing_at_symbol_is_rejected() {
    let email = "ursuladomain.com".to_string();
    assert!(SubscriberEmail::parse(email).is_err());
}

#[test]
fn email_missing_subject_is_rejected() {
    let email = "@domain.com".to_string();
    assert!(SubscriberEmail::parse(email).is_err());
}

#[test]
fn valid_emails_are_parsed_successfully() {
    for email in [
        "ursula_le_guin@gmail.com",
        "email@here.com",
        "weirder-email@here.and.there.com",
        "first.last@example.org",
        "a1b2@sub.example.co.uk",
    ] {
        let parsed = SubscriberEmail::parse(email.to_string());
        assert!(parsed.is_ok(), "{} was refused", email);
        assert_eq!(parsed.unwrap().as_ref(), email);
    }
}

#[test]
fn refusal_message_names_the_address() {
    let err = SubscriberEmail::parse("definitely-not-an-email".to_string()).unwrap_err();
    assert_eq!(err, "definitely-not-an-email is not a valid subscriber email");
}

#[test]
fn address_with_two_at_signs_in_the_local_part_is_rejected() {
    assert!(SubscriberEmail::parse("@@domain.com".to_string()).is_err());
    assert!(SubscriberEmail::parse("user@".to_string()).is_err());
}
