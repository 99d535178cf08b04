use vstd::prelude::*;

verus! {

/// An e-mail that the service asks its mail provider to deliver.
#[derive(Debug)]
pub struct EmailMessage {
    pub recipient: String,
    pub subject: String,
    pub html_body: String,
    pub text_body: String,
}

/// The contents of an [`EmailMessage`].
pub struct EmailModel {
    pub recipient: Seq<char>,
    pub subject: Seq<char>,
    pub html_body: Seq<char>,
    pub text_body: Seq<char>,
}

impl View for EmailMessage {
    type V = EmailModel;

    open spec fn view(&self) -> EmailModel {
        EmailModel {
            recipient: self.recipient@,
            subject: self.subject@,
            html_body: self.html_body@,
            text_body: self.text_body@,
        }
    }
}

} // verus!
