use vstd::prelude::*;

verus! {

/// What an endpoint answers: a status code, an optional `WWW-Authenticate`
/// challenge, and an optional error message (sent as `{"error": message}`).
#[derive(Debug)]
pub struct Reply {
    pub status: u16,
    pub www_authenticate: Option<String>,
    pub error: Option<String>,
}

/// The contents of a [`Reply`].
pub struct ReplyModel {
    pub status: u16,
    pub www_authenticate: Option<Seq<char>>,
    pub error: Option<Seq<char>>,
}

impl View for Reply {
    type V = ReplyModel;

    open spec fn view(&self) -> ReplyModel {
        ReplyModel {
            status: self.status,
            www_authenticate: match self.www_authenticate {
                Some(h) => Some(h@),
                None => None,
            },
            error: match self.error {
                Some(e) => Some(e@),
                None => None,
            },
        }
    }
}

impl Reply {
    /// `200 OK` with an empty body.
    pub fn ok() -> (r: Reply)
        ensures
            r@ == (ReplyModel { status: 200, www_authenticate: None, error: None }),
    {
        Reply { status: 200, www_authenticate: None, error: None }
    }
}

} // verus!
