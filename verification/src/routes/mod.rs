pub mod basic_auth;
pub mod email;
pub mod reply;
pub mod subscriptions;
pub mod newsletter;
