use lettro::domain::SubscriberName;

#[test]
fn empty_name_is_rejected() {
    assert_eq!(SubscriberName::parse(String::new()).unwrap_err(), " is not a valid subscriber name");
}

#[test]
fn non_empty_name_is_kept() {
    let n = SubscriberName::parse("le guin".to_string()).unwrap();
    assert_eq!(n.as_ref(), "le guin");
}
