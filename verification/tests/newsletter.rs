use argon2::password_hash::{PasswordHasher, SaltString};
use argon2::{Algorithm, Argon2, Params, Version};
use lettro::routes::newsletter::{
    confirmed_subscribers, credentials_verdict, verify_credentials, BodyData, Content, PublishAction, PublishError,
    PublishEvent, PublishFlow, StoredCredentials,
};

fn hash(password: &str) -> String {
    let salt = SaltString::from_b64("c29tZXNhbHRzb21lc2FsdA").unwrap();
    let hasher = Argon2::new(Algorithm::Argon2id, Version::V0x13, Params::new(8, 1, 1, None).unwrap());
    hasher.hash_password(password.as_bytes(), &salt).unwrap().to_string()
}

fn header(credentials: &str) -> Vec<u8> {
    format!("Basic {}", base64::encode(credentials)).into_bytes()
}

fn body() -> BodyData {
    BodyData {
        title: "Newsletter title".to_string(),
        content: Content {
            html: "<p>Newsletter body as HTML</p>".to_string(),
            text: "Newsletter body as plain text".to_string(),
        },
    }
}

fn request(authorization: Option<Vec<u8>>) -> PublishEvent {
    PublishEvent::Request { authorization, body: body() }
}

fn stored(password: &str) -> StoredCredentials {
    StoredCredentials { user_id: 7, password_hash: hash(password) }
}

/// A flow that has authenticated `author:secret` and awaits the subscribers.
fn authenticated_flow() -> PublishFlow {
    let mut flow = PublishFlow::new();
    match flow.step(request(Some(header("author:secret")))) {
        PublishAction::FetchStoredCredentials { username } => assert_eq!(username, "author"),
        other => panic!("unexpected action {:?}", other),
    }
    let a = flow.step(PublishEvent::StoredCredentials(Ok(Some(stored("secret")))));
    assert!(matches!(a, PublishAction::FetchConfirmedEmails));
    flow
}

fn assert_challenged(action: PublishAction, message: &str) {
    match action {
        PublishAction::Finish(Err(e)) => {
            assert!(matches!(&e, PublishError::AuthError(m) if m == message));
            let reply = e.reply();
            assert_eq!(reply.status, 401);
            assert_eq!(reply.www_authenticate.as_deref(), Some("Basicrealm=\"publish\""));
            assert!(reply.error.is_none());
        }
        other => panic!("unexpected action {:?}", other),
    }
}

fn assert_unexpected(action: PublishAction, message: &str) {
    match action {
        PublishAction::Finish(Err(e)) => {
            let reply = e.reply();
            assert_eq!(reply.status, 500);
            assert_eq!(reply.error.as_deref(), Some(message));
            assert!(reply.www_authenticate.is_none());
        }
        other => panic!("unexpected action {:?}", other),
    }
}

#[test]
fn issue_is_delivered_to_every_valid_confirmed_subscriber() {
    let mut flow = authenticated_flow();
    let emails = vec![
        "ursula_le_guin@gmail.com".to_string(),
        "not-an-address".to_string(),
        "octavia@example.org".to_string(),
    ];
    let mut sent = Vec::new();
    let mut action = flow.step(PublishEvent::ConfirmedEmails(Ok(emails)));
    loop {
        match action {
            PublishAction::SendIssue(m) => {
                assert_eq!(m.subject, "Newsletter title");
                assert_eq!(m.html_body, "<p>Newsletter body as HTML</p>");
                assert_eq!(m.text_body, "Newsletter body as plain text");
                sent.push(m.recipient);
                action = flow.step(PublishEvent::Delivered(Ok(())));
            }
            PublishAction::Finish(r) => {
                assert!(r.is_ok());
                break;
            }
            other => panic!("unexpected action {:?}", other),
        }
    }
    assert_eq!(sent, vec!["ursula_le_guin@gmail.com", "octavia@example.org"]);
    assert!(flow.is_finished());
}

#[test]
fn no_confirmed_subscribers_means_immediate_success() {
    let mut flow = authenticated_flow();
    let a = flow.step(PublishEvent::ConfirmedEmails(Ok(vec!["bad".to_string()])));
    assert!(matches!(a, PublishAction::Finish(Ok(()))));
}

#[test]
fn requests_without_authorization_are_challenged() {
    let mut flow = PublishFlow::new();
    assert_challenged(flow.step(request(None)), "The 'Authorization' header was missing");
    assert!(flow.is_finished());
}

#[test]
fn unknown_users_are_rejected() {
    let mut flow = PublishFlow::new();
    flow.step(request(Some(header("nobody:whatever"))));
    assert_challenged(flow.step(PublishEvent::StoredCredentials(Ok(None))), "Unknown username.");
}

#[test]
fn wrong_passwords_are_rejected() {
    let mut flow = PublishFlow::new();
    flow.step(request(Some(header("author:guess"))));
    assert_challenged(
        flow.step(PublishEvent::StoredCredentials(Ok(Some(stored("secret"))))),
        "Invalid password.",
    );
}

#[test]
fn malformed_stored_hash_is_an_unexpected_error() {
    let mut flow = PublishFlow::new();
    flow.step(request(Some(header("author:secret"))));
    let bad = StoredCredentials { user_id: 7, password_hash: "not a phc string".to_string() };
    assert_unexpected(
        flow.step(PublishEvent::StoredCredentials(Ok(Some(bad)))),
        "Failed to parse hash in PHC string format.",
    );
}

#[test]
fn failed_credentials_lookup_is_an_unexpected_error() {
    let mut flow = PublishFlow::new();
    flow.step(request(Some(header("author:secret"))));
    assert_unexpected(
        flow.step(PublishEvent::StoredCredentials(Err("connection reset".to_string()))),
        "Failed to perform a query to retrieve stored credentials.",
    );
}

#[test]
fn failed_subscriber_query_reports_the_database_error() {
    let mut flow = authenticated_flow();
    assert_unexpected(
        flow.step(PublishEvent::ConfirmedEmails(Err("relation does not exist".to_string()))),
        "relation does not exist",
    );
}

#[test]
fn failed_delivery_stops_the_issue() {
    let mut flow = authenticated_flow();
    let emails = vec!["a@example.com".to_string(), "b@example.com".to_string()];
    assert!(matches!(flow.step(PublishEvent::ConfirmedEmails(Ok(emails))), PublishAction::SendIssue(_)));
    assert_unexpected(
        flow.step(PublishEvent::Delivered(Err("timeout".to_string()))),
        "Failed to send newsletter issue to a@example.com",
    );
    assert!(flow.is_finished());
    assert!(!flow.accepts(&PublishEvent::Delivered(Ok(()))));
}

#[test]
fn credentials_are_verified_against_the_stored_hash() {
    let row = Some(stored("secret"));
    assert_eq!(verify_credentials(&row, "secret").ok(), Some(7));
    assert!(matches!(verify_credentials(&row, "Secret"), Err(PublishError::AuthError(_))));
    assert!(matches!(verify_credentials(&None, "secret"), Err(PublishError::AuthError(_))));
}

#[test]
fn confirmed_subscribers_are_validated_in_order() {
    let emails = vec!["a@example.com".to_string(), "broken".to_string()];
    let r = confirmed_subscribers(&emails);
    assert_eq!(r.len(), 2);
    assert_eq!(r[0].as_ref().unwrap().email.as_ref(), "a@example.com");
    assert_eq!(r[1].as_ref().err().unwrap(), "broken is not a valid subscriber email");
}

#[test]
fn password_verdicts_decide_the_outcome() {
    assert_eq!(credentials_verdict(9, Some(true)).ok(), Some(9));
    assert!(matches!(credentials_verdict(9, Some(false)), Err(PublishError::AuthError(m)) if m == "Invalid password."));
    assert!(matches!(
        credentials_verdict(9, None),
        Err(PublishError::UnexpectedError(m)) if m == "Failed to parse hash in PHC string format."
    ));
}
