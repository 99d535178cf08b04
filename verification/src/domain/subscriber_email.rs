use validator::ValidateEmail;
use vstd::prelude::*;

verus! {

/// Whether the `validator` crate accepts `s` as an e-mail address
/// (HTML5 rules: a local part, an `@`, a domain or address literal).
pub uninterp spec fn email_is_valid(s: Seq<char>) -> bool;

/// Calls `validator::ValidateEmail::validate_email` on a `&str`.
///
/// Claims that the answer is `email_is_valid` of the text, plus two facts that
/// the crate's source shows plainly: a text without `@` is rejected, and so is
/// one that starts with `@` (its local part is then empty or holds an `@`,
/// which the local-part pattern refuses).
#[verifier::external_body]
fn validate_email(s: &str) -> (valid: bool)
    ensures
        valid == email_is_valid(s@),
        !s@.contains('@') ==> !valid,
        s@.len() > 0 && s@[0] == '@' ==> !valid,
{
    s.validate_email()
}

/// The message with which an invalid address is refused.
pub open spec fn invalid_email_message(s: Seq<char>) -> Seq<char> {
    s + " is not a valid subscriber email"@
}

/// An e-mail address that passed validation.
#[derive(Debug)]
pub struct SubscriberEmail(String);

impl View for SubscriberEmail {
    type V = Seq<char>;

    closed spec fn view(&self) -> Seq<char> {
        self.0@
    }
}

impl SubscriberEmail {
    /// Every value holds text that passed validation.
    #[verifier::type_invariant]
    spec fn holds_valid_text(self) -> bool {
        email_is_valid(self.0@)
    }

    /// Accepts `s` exactly when the `validator` crate does, keeping the text
    /// unchanged; otherwise returns the refusal message.
    pub fn parse(s: String) -> (r: Result<SubscriberEmail, String>)
        ensures
            r is Ok <==> email_is_valid(s@),
            r matches Ok(e) ==> e@ == s@,
            r matches Err(m) ==> m@ == invalid_email_message(s@),
            !s@.contains('@') ==> r is Err,
            s@.len() > 0 && s@[0] == '@' ==> r is Err,
    {
        if validate_email(s.as_str()) {
            Ok(SubscriberEmail(s))
        } else {
            let mut message = s;
            message.append(" is not a valid subscriber email");
            Err(message)
        }
    }

    /// The address as text; it is always a valid address.
    pub fn as_ref(&self) -> (r: &str)
        ensures
            r@ == self@,
            email_is_valid(r@),
    {
        proof {
            use_type_invariant(self);
        }
        self.0.as_str()
    }
}

} // verus!
