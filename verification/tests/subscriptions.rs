use lettro::domain::{NewSubscriber, SubscriberEmail};
use lettro::routes::subscriptions::{
    confirmation_email, generate_subscription_token, token_from_samples, AppError, FormData,
    SubscribeAction, SubscribeEvent, SubscribeFlow,
};

fn form(name: &str, email: &str) -> FormData {
    FormData { name: name.to_string(), email: email.to_string() }
}

fn started_flow(base_url: &str) -> SubscribeFlow {
    let mut flow = SubscribeFlow::new(base_url.to_string());
    let a = flow.step(SubscribeEvent::FormReceived(form("le guin", "ursula_le_guin@gmail.com")));
    assert!(matches!(a, SubscribeAction::BeginTransaction));
    flow
}

fn is_token(t: &str) -> bool {
    t.len() == 25 && t.chars().all(|c| c.is_ascii_alphanumeric())
}

#[test]
fn subscription_with_valid_data_runs_every_step() {
    let mut flow = started_flow("http://127.0.0.1");
    match flow.step(SubscribeEvent::TransactionBegun(Ok(()))) {
        SubscribeAction::InsertSubscriber { name, email } => {
            assert_eq!(name, "le guin");
            assert_eq!(email, "ursula_le_guin@gmail.com");
        }
        other => panic!("unexpected action {:?}", other),
    }
    let token = match flow.step(SubscribeEvent::SubscriberInserted(Ok(42))) {
        SubscribeAction::StoreToken { subscriber_id, token } => {
            assert_eq!(subscriber_id, 42);
            token
        }
        other => panic!("unexpected action {:?}", other),
    };
    assert!(is_token(&token));
    let link = format!("http://127.0.0.1/subscriptions/confirm?subscription_token={}", token);
    match flow.step(SubscribeEvent::TokenStored(Ok(()))) {
        SubscribeAction::SendEmail(m) => {
            assert_eq!(m.recipient, "ursula_le_guin@gmail.com");
            assert_eq!(m.subject, "Welcome!");
            assert!(m.text_body.contains(&link));
            assert!(m.html_body.contains(&link));
        }
        other => panic!("unexpected action {:?}", other),
    }
    assert!(matches!(flow.step(SubscribeEvent::ConfirmationSent(Ok(()))), SubscribeAction::CommitTransaction));
    assert!(!flow.is_finished());
    assert!(matches!(flow.step(SubscribeEvent::Committed(Ok(()))), SubscribeAction::Finish(Ok(()))));
    assert!(flow.is_finished());
}

#[test]
fn invalid_names_and_addresses_are_refused_with_400() {
    for (name, email, description) in [
        ("", "ursula_le_guin@gmail.com", "emptyname"),
        ("Ursula", "", "emptyemail"),
        ("Ursula", "definitely-not-an-email", "invalidemail"),
    ] {
        let mut flow = SubscribeFlow::new("http://127.0.0.1".to_string());
        match flow.step(SubscribeEvent::FormReceived(form(name, email))) {
            SubscribeAction::Finish(Err(e)) => {
                let reply = e.reply();
                assert_eq!(reply.status, 400, "payload {}", description);
                assert_eq!(reply.error.as_deref(), Some("Invalid subscriber data"));
                assert!(reply.www_authenticate.is_none());
            }
            other => panic!("unexpected action {:?} for {}", other, description),
        }
        assert!(flow.is_finished());
    }
}

#[test]
fn finished_subscription_takes_no_more_events() {
    let mut flow = SubscribeFlow::new("http://127.0.0.1".to_string());
    let _ = flow.step(SubscribeEvent::FormReceived(form("Ursula", "nope")));
    assert!(!flow.accepts(&SubscribeEvent::TransactionBegun(Ok(()))));
    assert!(!flow.accepts(&SubscribeEvent::FormReceived(form("Ursula", "u@example.com"))));
}

fn assert_fails_with(action: SubscribeAction, message: &str) {
    match action {
        SubscribeAction::Finish(Err(e)) => {
            let reply = e.reply();
            assert_eq!(reply.status, 500);
            assert_eq!(reply.error.as_deref(), Some(message));
        }
        other => panic!("unexpected action {:?}", other),
    }
}

#[test]
fn each_failed_step_answers_500_with_its_context() {
    let mut flow = started_flow("http://x");
    assert_fails_with(
        flow.step(SubscribeEvent::TransactionBegun(Err("pool timed out".to_string()))),
        "Failed to acquire a Postgres connection from the pool",
    );

    let mut flow = started_flow("http://x");
    flow.step(SubscribeEvent::TransactionBegun(Ok(())));
    assert_fails_with(
        flow.step(SubscribeEvent::SubscriberInserted(Err("duplicate key".to_string()))),
        "Failed to insert subscriber into the database",
    );

    let mut flow = started_flow("http://x");
    flow.step(SubscribeEvent::TransactionBegun(Ok(())));
    flow.step(SubscribeEvent::SubscriberInserted(Ok(1)));
    assert_fails_with(
        flow.step(SubscribeEvent::TokenStored(Err("db down".to_string()))),
        "Failed to store subscription token in the database",
    );

    let mut flow = started_flow("http://x");
    flow.step(SubscribeEvent::TransactionBegun(Ok(())));
    flow.step(SubscribeEvent::SubscriberInserted(Ok(1)));
    flow.step(SubscribeEvent::TokenStored(Ok(())));
    assert_fails_with(
        flow.step(SubscribeEvent::ConfirmationSent(Err("500 from provider".to_string()))),
        "Failed to send confirmation email",
    );

    let mut flow = started_flow("http://x");
    flow.step(SubscribeEvent::TransactionBegun(Ok(())));
    flow.step(SubscribeEvent::SubscriberInserted(Ok(1)));
    flow.step(SubscribeEvent::TokenStored(Ok(())));
    flow.step(SubscribeEvent::ConfirmationSent(Ok(())));
    assert_fails_with(
        flow.step(SubscribeEvent::Committed(Err("serialization failure".to_string()))),
        "Failed to commit transaction",
    );
    assert!(flow.is_finished());
}

#[test]
fn confirmation_email_has_exact_bodies() {
    let recipient = SubscriberEmail::parse("ursula_le_guin@gmail.com".to_string()).unwrap();
    let m = confirmation_email(&recipient, "https://lettro.example", "abc123");
    let link = "https://lettro.example/subscriptions/confirm?subscription_token=abc123";
    assert_eq!(m.recipient, "ursula_le_guin@gmail.com");
    assert_eq!(m.subject, "Welcome!");
    assert_eq!(
        m.text_body,
        format!("Welcome to our newsletter!\nVisit {} to confirm your subscription.", link)
    );
    assert_eq!(
        m.html_body,
        format!(
            "Welcome to our newsletter!<br/>Click <a href=\"{}\">here</a> to confirm your subscription.",
            link
        )
    );
}

#[test]
fn subscription_tokens_are_25_alphanumeric_characters() {
    let a = generate_subscription_token();
    let b = generate_subscription_token();
    assert!(is_token(&a));
    assert!(is_token(&b));
    assert_ne!(a, b);
}

#[test]
fn new_subscriber_keeps_the_form_fields() {
    let s = NewSubscriber::try_from(form("le guin", "ursula_le_guin@gmail.com")).unwrap();
    assert_eq!(s.name.as_ref(), "le guin");
    assert_eq!(s.email.as_ref(), "ursula_le_guin@gmail.com");
    let e = NewSubscriber::try_from(form("le guin", "ursula")).unwrap_err();
    assert_eq!(e, "ursula is not a valid subscriber email");
    let e = NewSubscriber::try_from(form("", "ursula")).unwrap_err();
    assert_eq!(e, " is not a valid subscriber name");
}

#[test]
fn tokens_spell_the_drawn_samples() {
    let samples: Vec<u8> = b"abcXYZ0123456789ABCDEFGHI".to_vec();
    assert_eq!(token_from_samples(&samples), "abcXYZ0123456789ABCDEFGHI");
}

#[test]
fn app_errors_map_to_replies() {
    let r = AppError::ValidationError("bad".to_string()).reply();
    assert_eq!((r.status, r.error.as_deref()), (400, Some("bad")));
    for e in [
        AppError::DatabaseError("db".to_string()),
        AppError::EmailError("mail".to_string()),
        AppError::UnexpectedError("oops".to_string()),
    ] {
        let r = e.reply();
        assert_eq!(r.status, 500);
        assert!(r.error.is_some());
        assert!(r.www_authenticate.is_none());
    }
    let r = AppError::EmailError("mail".to_string()).reply();
    assert_eq!(r.error.as_deref(), Some("mail"));
}
