use vstd::prelude::*;
use vstd::string::*;

verus! {

/// A subscriber name is accepted when it is not empty.
pub open spec fn subscriber_name_is_valid(s: Seq<char>) -> bool {
    s.len() > 0
}

/// The message with which an invalid name is refused.
pub open spec fn invalid_name_message(s: Seq<char>) -> Seq<char> {
    s + " is not a valid subscriber name"@
}

/// A subscriber name that passed validation.
#[derive(Debug)]
pub struct SubscriberName(String);

impl View for SubscriberName {
    type V = Seq<char>;

    closed spec fn view(&self) -> Seq<char> {
        self.0@
    }
}

impl SubscriberName {
    /// Every value holds text that passed validation.
    #[verifier::type_invariant]
    spec fn holds_valid_text(self) -> bool {
        subscriber_name_is_valid(self.0@)
    }

    /// Accepts a non-empty name, keeping the text unchanged; otherwise
    /// returns the refusal message.
    pub fn parse(s: String) -> (r: Result<SubscriberName, String>)
        ensures
            r is Ok <==> subscriber_name_is_valid(s@),
            r is Ok <==> s@.len() > 0,
            r matches Ok(n) ==> n@ == s@,
            r matches Err(m) ==> m@ == invalid_name_message(s@),
    {
        if s.as_str().is_empty() {
            let mut message = s;
            message.append(" is not a valid subscriber name");
            Err(message)
        } else {
            Ok(SubscriberName(s))
        }
    }

    /// The name as text; it is never empty.
    pub fn as_ref(&self) -> (r: &str)
        ensures
            r@ == self@,
            subscriber_name_is_valid(r@),
    {
        proof {
            use_type_invariant(self);
        }
        self.0.as_str()
    }
}

} // verus!
