use vstd::prelude::*;
use crate::email::Email;

verus! {

/// Delivery of a message failed.
#[derive(Clone, Copy, Debug, PartialEq, Eq, Structural)]
pub struct EmailClientError;

/// The capability a concrete email client provides: send a message to an
/// address. Delivery depends on the outside world, so nothing is promised
/// of the outcome.
pub trait EmailClient: Sized {
    fn send_email(&self, recipient: &Email, subject: &str, content: &str) -> (r: Result<
        (),
        EmailClientError,
    >);
}

/// An email client that drops every message and reports success; for
/// development and tests.
pub struct MockEmailClient;

impl MockEmailClient {
    pub fn new() -> (r: Self) {
        MockEmailClient
    }
}

impl EmailClient for MockEmailClient {
    fn send_email(&self, recipient: &Email, subject: &str, content: &str) -> (r: Result<
        (),
        EmailClientError,
    >) {
        Ok(())
    }
}

} // verus!
