# Lettro

A backend for e-mail newsletters: readers subscribe with a name and an
address and receive a confirmation e-mail; authors publish an issue with one
authenticated call, and it goes to every confirmed subscriber.

## Layout

- `src/` is the library, verified with Verus:
  - `domain/`: validated subscriber names and addresses, new subscribers;
  - `routes/basic_auth.rs`: reading HTTP Basic credentials;
  - `routes/subscriptions.rs`: the subscription endpoint as a state machine
    (form validation, token, confirmation e-mail, error replies);
  - `routes/newsletter.rs`: the publication endpoint as a state machine
    (credentials check with Argon2, delivery to every valid confirmed
    address, error replies);
  - `routes/email.rs`, `routes/reply.rs`: the e-mails and HTTP replies that
    the state machines ask for.
- `app/` is the HTTP service around it (Axum, sqlx/PostgreSQL, the Postmark
  client): it performs the I/O that the state machines ask for and reports
  the outcome back.
- `tests/` exercise the library on concrete values.
