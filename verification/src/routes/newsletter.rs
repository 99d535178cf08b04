use argon2::password_hash::Error as PasswordHashError;
use argon2::{Argon2, PasswordHash, PasswordVerifier};
use vstd::prelude::*;
use vstd::string::*;

use crate::domain::subscriber_email::{email_is_valid, invalid_email_message};
use crate::domain::SubscriberEmail;
use crate::routes::basic_auth::{
    basic_authenticate, is_basic_header_for, law_basic_header_is_read, spec_basic_credentials,
    CredentialsError,
};
use crate::routes::email::{EmailMessage, EmailModel};
use crate::routes::reply::{Reply, ReplyModel};

verus! {

// ---------- Request body ----------

/// A newsletter issue as posted by its author.
#[derive(Debug)]
pub struct BodyData {
    pub title: String,
    pub content: Content,
}

/// The two renderings of an issue.
#[derive(Debug)]
pub struct Content {
    pub html: String,
    pub text: String,
}

// ---------- Errors ----------

/// Why publishing failed; each variant carries the failure's message.
#[derive(Debug)]
pub enum PublishError {
    AuthError(String),
    UnexpectedError(String),
}

/// The contents of a [`PublishError`].
pub enum PublishFailure {
    Auth(Seq<char>),
    Unexpected(Seq<char>),
}

impl View for PublishError {
    type V = PublishFailure;

    open spec fn view(&self) -> PublishFailure {
        match self {
            PublishError::AuthError(m) => PublishFailure::Auth(m@),
            PublishError::UnexpectedError(m) => PublishFailure::Unexpected(m@),
        }
    }
}

/// The challenge sent with a refused authentication.
pub open spec fn publish_challenge() -> Seq<char> {
    "Basicrealm=\"publish\""@
}

/// The reply to a failed publication: `401` with a Basic challenge and no
/// body for authentication failures, `500` with the message otherwise.
pub open spec fn publish_failure_reply(f: PublishFailure) -> ReplyModel {
    match f {
        PublishFailure::Auth(_) => ReplyModel {
            status: 401,
            www_authenticate: Some(publish_challenge()),
            error: None,
        },
        PublishFailure::Unexpected(m) => ReplyModel { status: 500, www_authenticate: None, error: Some(m) },
    }
}

impl PublishError {
    /// The HTTP reply for this error.
    pub fn reply(&self) -> (r: Reply)
        ensures
            r@ == publish_failure_reply(self@),
    {
        match self {
            PublishError::AuthError(_) => Reply {
                status: 401,
                www_authenticate: Some("Basicrealm=\"publish\"".to_owned()),
                error: None,
            },
            PublishError::UnexpectedError(m) => Reply {
                status: 500,
                www_authenticate: None,
                error: Some(m.clone()),
            },
        }
    }
}

// ---------- Credentials check ----------

#[verifier::external_type_specification]
#[verifier::external_body]
pub struct ExPasswordHashError(PasswordHashError);

/// Whether `password_hash::PasswordHash::new` accepts `phc` as a PHC string.
pub uninterp spec fn phc_string_is_valid(phc: Seq<char>) -> bool;

/// Whether `Argon2::default().verify_password` accepts the UTF-8 bytes of
/// `password` against the hash parsed from the PHC string `phc`.
pub uninterp spec fn argon2_accepts(password: Seq<char>, phc: Seq<char>) -> bool;

/// Calls `PasswordHash::new(phc)` and, when it parses, `verify_password` of
/// `Argon2::default()` on the password's bytes.
///
/// Claims that an error comes exactly when the PHC string does not parse
/// (`phc_string_is_valid`), and that otherwise the answer is `argon2_accepts`
/// of the two texts: the check depends on nothing else.
#[verifier::external_body]
fn argon2_verify(password: &str, phc: &str) -> (r: Result<bool, PasswordHashError>)
    ensures
        r is Ok <==> phc_string_is_valid(phc@),
        r matches Ok(accepted) ==> accepted == argon2_accepts(password@, phc@),
{
    match PasswordHash::new(phc) {
        Ok(hash) => Ok(Argon2::default().verify_password(password.as_bytes(), &hash).is_ok()),
        Err(e) => Err(e),
    }
}

/// A user row: its id and the PHC string of its password hash.
#[derive(Debug)]
pub struct StoredCredentials {
    pub user_id: u128,
    pub password_hash: String,
}

/// The outcome of a password check for the user `user_id`: `verdict` is
/// `None` when the stored hash is not a PHC string, otherwise whether the
/// password matched it.
pub open spec fn spec_credentials_verdict(user_id: u128, verdict: Option<bool>) -> Result<u128, PublishFailure> {
    match verdict {
        None => Err(PublishFailure::Unexpected("Failed to parse hash in PHC string format."@)),
        Some(false) => Err(PublishFailure::Auth("Invalid password."@)),
        Some(true) => Ok(user_id),
    }
}

/// The outcome of checking `password` against the stored row of its user.
pub open spec fn spec_verify_credentials(stored: Option<(u128, Seq<char>)>, password: Seq<char>) -> Result<u128, PublishFailure> {
    match stored {
        None => Err(PublishFailure::Auth("Unknown username."@)),
        Some((user_id, phc)) => spec_credentials_verdict(
            user_id,
            if phc_string_is_valid(phc) {
                Some(argon2_accepts(password, phc))
            } else {
                None
            },
        ),
    }
}

/// Decides a password check for the user `user_id` from its verdict
/// (`None`: the stored hash is not a PHC string).
pub fn credentials_verdict(user_id: u128, verdict: Option<bool>) -> (r: Result<u128, PublishError>)
    ensures
        spec_credentials_verdict(user_id, verdict) == match r {
            Ok(id) => Ok(id),
            Err(e) => Err::<u128, PublishFailure>(e@),
        },
{
    match verdict {
        None => Err(PublishError::UnexpectedError("Failed to parse hash in PHC string format.".to_owned())),
        Some(false) => Err(PublishError::AuthError("Invalid password.".to_owned())),
        Some(true) => Ok(user_id),
    }
}

/// Checks a password against the stored row of the user who presented it
/// (`None`: no such user). Gives the user's id when they match.
pub fn verify_credentials(stored: &Option<StoredCredentials>, password: &str) -> (r: Result<u128, PublishError>)
    ensures
        spec_verify_credentials(
            match stored { Some(c) => Some((c.user_id, c.password_hash@)), None => None },
            password@,
        ) == match r { Ok(id) => Ok(id), Err(e) => Err::<u128, PublishFailure>(e@) },
        r is Ok <==> (stored matches Some(c) && phc_string_is_valid(c.password_hash@)
            && argon2_accepts(password@, c.password_hash@)),
        r matches Ok(id) ==> (stored matches Some(c) && id == c.user_id),
{
    match stored {
        None => Err(PublishError::AuthError("Unknown username.".to_owned())),
        Some(c) => {
            let verdict = match argon2_verify(password, c.password_hash.as_str()) {
                Ok(accepted) => Some(accepted),
                Err(_) => None,
            };
            credentials_verdict(c.user_id, verdict)
        },
    }
}

// ---------- Confirmed subscribers ----------

/// A confirmed subscriber whose stored address is valid.
#[derive(Debug)]
pub struct ConfirmedSubscriber {
    pub email: SubscriberEmail,
}

/// The stored address `e` as a delivery target: `Some(e)` when it is valid.
pub open spec fn deliverable(e: Seq<char>) -> Option<Seq<char>> {
    if email_is_valid(e) {
        Some(e)
    } else {
        None
    }
}

/// Validates the stored addresses of the confirmed subscribers, one by one and
/// in order: each becomes a subscriber, or the reason it was refused.
pub fn confirmed_subscribers(emails: &Vec<String>) -> (r: Vec<Result<ConfirmedSubscriber, String>>)
    ensures
        r@.len() == emails@.len(),
        forall|i: int|
            0 <= i < r@.len() ==> match #[trigger] r@[i] {
                Ok(c) => email_is_valid(emails@[i]@) && c.email@ == emails@[i]@,
                Err(m) => !email_is_valid(emails@[i]@) && m@ == invalid_email_message(emails@[i]@),
            },
{
    let mut r: Vec<Result<ConfirmedSubscriber, String>> = Vec::new();
    let mut i: usize = 0;
    while i < emails.len()
        invariant
            i <= emails@.len(),
            r@.len() == i,
            forall|k: int|
                0 <= k < i ==> match #[trigger] r@[k] {
                    Ok(c) => email_is_valid(emails@[k]@) && c.email@ == emails@[k]@,
                    Err(m) => !email_is_valid(emails@[k]@) && m@ == invalid_email_message(emails@[k]@),
                },
        decreases emails@.len() - i,
    {
        let entry = match SubscriberEmail::parse(emails[i].clone()) {
            Ok(email) => Ok(ConfirmedSubscriber { email }),
            Err(m) => Err(m),
        };
        r.push(entry);
        i = i + 1;
    }
    r
}

// ---------- The publication endpoint ----------

/// Where a publication request stands.
#[derive(Debug, Clone, Copy, PartialEq, Eq, Structural)]
pub enum PublishStage {
    AwaitingRequest,
    AwaitingStoredCredentials,
    AwaitingConfirmedEmails,
    Delivering,
    Finished,
}

/// The state of a publication request: the issue, the presented password,
/// the confirmed subscribers' addresses (`Some` for the valid ones), the
/// index of the next one to look at, and the recipient of the send in flight.
#[verifier::ext_equal]
pub struct PublishState {
    pub stage: PublishStage,
    pub title: Seq<char>,
    pub html: Seq<char>,
    pub text: Seq<char>,
    pub password: Seq<char>,
    pub entries: Seq<Option<Seq<char>>>,
    pub next: int,
    pub current: Seq<char>,
}

/// What the HTTP layer reports back to a [`PublishFlow`].
#[derive(Debug)]
pub enum PublishEvent {
    /// The request: its `Authorization` header value, if any, and its body.
    Request { authorization: Option<Vec<u8>>, body: BodyData },
    /// Outcome of looking up the presented username.
    StoredCredentials(Result<Option<StoredCredentials>, String>),
    /// Outcome of fetching the addresses of the confirmed subscribers.
    ConfirmedEmails(Result<Vec<String>, String>),
    /// Outcome of sending the issue to the current recipient.
    Delivered(Result<(), String>),
}

pub enum PublishEventModel {
    Request(Option<Seq<u8>>, Seq<char>, Seq<char>, Seq<char>),
    StoredCredentials(Result<Option<(u128, Seq<char>)>, Seq<char>>),
    ConfirmedEmails(Result<Seq<Seq<char>>, Seq<char>>),
    Delivered(bool),
}

impl View for PublishEvent {
    type V = PublishEventModel;

    open spec fn view(&self) -> PublishEventModel {
        match self {
            PublishEvent::Request { authorization, body } => PublishEventModel::Request(
                match authorization {
                    Some(a) => Some(a@),
                    None => None,
                },
                body.title@,
                body.content.html@,
                body.content.text@,
            ),
            PublishEvent::StoredCredentials(r) => PublishEventModel::StoredCredentials(
                match r {
                    Ok(Some(c)) => Ok(Some((c.user_id, c.password_hash@))),
                    Ok(None) => Ok(None),
                    Err(m) => Err(m@),
                },
            ),
            PublishEvent::ConfirmedEmails(r) => PublishEventModel::ConfirmedEmails(
                match r {
                    Ok(v) => Ok(v@.map_values(|e: String| e@)),
                    Err(m) => Err(m@),
                },
            ),
            PublishEvent::Delivered(r) => PublishEventModel::Delivered(r is Ok),
        }
    }
}

/// What a [`PublishFlow`] asks the HTTP layer to do next.
#[derive(Debug)]
pub enum PublishAction {
    FetchStoredCredentials { username: String },
    FetchConfirmedEmails,
    SendIssue(EmailMessage),
    /// Answer the request: `Ok` is `200 OK`, `Err` is [`PublishError::reply`].
    Finish(Result<(), PublishError>),
}

pub enum PublishActionModel {
    FetchStoredCredentials(Seq<char>),
    FetchConfirmedEmails,
    SendIssue(EmailModel),
    Finish(Result<(), PublishFailure>),
}

impl View for PublishAction {
    type V = PublishActionModel;

    open spec fn view(&self) -> PublishActionModel {
        match self {
            PublishAction::FetchStoredCredentials { username } => PublishActionModel::FetchStoredCredentials(
                username@,
            ),
            PublishAction::FetchConfirmedEmails => PublishActionModel::FetchConfirmedEmails,
            PublishAction::SendIssue(m) => PublishActionModel::SendIssue(m@),
            PublishAction::Finish(r) => PublishActionModel::Finish(
                match r {
                    Ok(()) => Ok(()),
                    Err(e) => Err(e@),
                },
            ),
        }
    }
}

/// The events that a request in `stage` can receive next.
pub open spec fn publish_accepts(stage: PublishStage, e: PublishEventModel) -> bool {
    match e {
        PublishEventModel::Request(..) => stage == PublishStage::AwaitingRequest,
        PublishEventModel::StoredCredentials(..) => stage == PublishStage::AwaitingStoredCredentials,
        PublishEventModel::ConfirmedEmails(..) => stage == PublishStage::AwaitingConfirmedEmails,
        PublishEventModel::Delivered(..) => stage == PublishStage::Delivering,
    }
}

/// The index of the first valid address at or after `from`
/// (`entries.len()` when there is none).
pub open spec fn next_deliverable(entries: Seq<Option<Seq<char>>>, from: int) -> int
    decreases entries.len() - from,
{
    if from >= entries.len() {
        entries.len() as int
    } else if entries[from] is Some {
        from
    } else {
        next_deliverable(entries, from + 1)
    }
}

pub open spec fn publish_with_stage(s: PublishState, stage: PublishStage) -> PublishState {
    PublishState {
        stage,
        title: s.title,
        html: s.html,
        text: s.text,
        password: s.password,
        entries: s.entries,
        next: s.next,
        current: s.current,
    }
}

pub open spec fn publish_finish(s: PublishState, r: Result<(), PublishFailure>) -> (PublishState, PublishActionModel) {
    (publish_with_stage(s, PublishStage::Finished), PublishActionModel::Finish(r))
}

/// The issue as sent to `recipient`.
pub open spec fn issue_for(s: PublishState, recipient: Seq<char>) -> EmailModel {
    EmailModel { recipient, subject: s.title, html_body: s.html, text_body: s.text }
}

/// Send the issue to the next valid address, or finish with success when
/// none is left.
pub open spec fn publish_deliver_next(s: PublishState) -> (PublishState, PublishActionModel) {
    let j = next_deliverable(s.entries, s.next);
    if j >= s.entries.len() {
        publish_finish(
            PublishState {
                stage: s.stage,
                title: s.title,
                html: s.html,
                text: s.text,
                password: s.password,
                entries: s.entries,
                next: j,
                current: s.current,
            },
            Ok(()),
        )
    } else {
        let recipient = s.entries[j]->Some_0;
        (
            PublishState {
                stage: PublishStage::Delivering,
                title: s.title,
                html: s.html,
                text: s.text,
                password: s.password,
                entries: s.entries,
                next: j + 1,
                current: recipient,
            },
            PublishActionModel::SendIssue(issue_for(s, recipient)),
        )
    }
}

/// One step of a publication request.
pub open spec fn publish_transition(s: PublishState, e: PublishEventModel) -> (PublishState, PublishActionModel) {
    match e {
        PublishEventModel::Request(authorization, title, html, text) => match spec_basic_credentials(authorization) {
            Err(reason) => publish_finish(s, Err(PublishFailure::Auth(reason.spec_message()))),
            Ok((username, password)) => (
                PublishState {
                    stage: PublishStage::AwaitingStoredCredentials,
                    title,
                    html,
                    text,
                    password,
                    entries: s.entries,
                    next: s.next,
                    current: s.current,
                },
                PublishActionModel::FetchStoredCredentials(username),
            ),
        },
        PublishEventModel::StoredCredentials(r) => match r {
            Err(_) => publish_finish(
                s,
                Err(PublishFailure::Unexpected("Failed to perform a query to retrieve stored credentials."@)),
            ),
            Ok(stored) => match spec_verify_credentials(stored, s.password) {
                Err(f) => publish_finish(s, Err(f)),
                Ok(_) => (
                    publish_with_stage(s, PublishStage::AwaitingConfirmedEmails),
                    PublishActionModel::FetchConfirmedEmails,
                ),
            },
        },
        PublishEventModel::ConfirmedEmails(r) => match r {
            Err(m) => publish_finish(s, Err(PublishFailure::Unexpected(m))),
            Ok(emails) => publish_deliver_next(
                PublishState {
                    stage: s.stage,
                    title: s.title,
                    html: s.html,
                    text: s.text,
                    password: s.password,
                    entries: emails.map_values(|e: Seq<char>| deliverable(e)),
                    next: 0,
                    current: s.current,
                },
            ),
        },
        PublishEventModel::Delivered(ok) => if ok {
            publish_deliver_next(s)
        } else {
            publish_finish(
                s,
                Err(PublishFailure::Unexpected("Failed to send newsletter issue to "@ + s.current)),
            )
        },
    }
}

/// The decisions of the publication endpoint, driven by the HTTP layer:
/// read the Basic credentials, check them against the stored user, fetch the
/// confirmed subscribers, send the issue to each valid address in turn,
/// answer.
pub struct PublishFlow {
    stage: PublishStage,
    title: String,
    html: String,
    text: String,
    password: String,
    subscribers: Vec<Result<ConfirmedSubscriber, String>>,
    next: usize,
    current: String,
}

pub open spec fn entry_view(r: Result<ConfirmedSubscriber, String>) -> Option<Seq<char>> {
    match r {
        Ok(c) => Some(c.email@),
        Err(_) => None,
    }
}

impl View for PublishFlow {
    type V = PublishState;

    closed spec fn view(&self) -> PublishState {
        PublishState {
            stage: self.stage,
            title: self.title@,
            html: self.html@,
            text: self.text@,
            password: self.password@,
            entries: self.subscribers@.map_values(|r: Result<ConfirmedSubscriber, String>| entry_view(r)),
            next: self.next as int,
            current: self.current@,
        }
    }
}

impl PublishFlow {
    pub closed spec fn wf(&self) -> bool {
        self.next <= self.subscribers@.len()
    }

    /// A request that has not been read yet.
    pub fn new() -> (f: PublishFlow)
        ensures
            f.wf(),
            f@ == (PublishState {
                stage: PublishStage::AwaitingRequest,
                title: Seq::empty(),
                html: Seq::empty(),
                text: Seq::empty(),
                password: Seq::empty(),
                entries: Seq::empty(),
                next: 0,
                current: Seq::empty(),
            }),
    {
        let f = PublishFlow {
            stage: PublishStage::AwaitingRequest,
            title: String::new(),
            html: String::new(),
            text: String::new(),
            password: String::new(),
            subscribers: Vec::new(),
            next: 0,
            current: String::new(),
        };
        assert(f@.entries =~= Seq::<Option<Seq<char>>>::empty());
        f
    }

    /// Whether the request has been answered.
    pub fn is_finished(&self) -> (r: bool)
        ensures
            r == (self@.stage == PublishStage::Finished),
    {
        self.stage == PublishStage::Finished
    }

    /// Whether the request can take `event` next.
    pub fn accepts(&self, event: &PublishEvent) -> (r: bool)
        ensures
            r == publish_accepts(self@.stage, event@),
    {
        match event {
            PublishEvent::Request { .. } => self.stage == PublishStage::AwaitingRequest,
            PublishEvent::StoredCredentials(_) => self.stage == PublishStage::AwaitingStoredCredentials,
            PublishEvent::ConfirmedEmails(_) => self.stage == PublishStage::AwaitingConfirmedEmails,
            PublishEvent::Delivered(_) => self.stage == PublishStage::Delivering,
        }
    }

    fn finish(&mut self, error: PublishError) -> (action: PublishAction)
        requires
            old(self).wf(),
        ensures
            final(self).wf(),
            (final(self)@, action@) == publish_finish(old(self)@, Err(error@)),
    {
        self.stage = PublishStage::Finished;
        PublishAction::Finish(Err(error))
    }

    fn deliver_next(&mut self) -> (action: PublishAction)
        requires
            old(self).wf(),
        ensures
            final(self).wf(),
            (final(self)@, action@) == publish_deliver_next(old(self)@),
    {
        let ghost entries = self@.entries;
        let n = self.subscribers.len();
        let mut j = self.next;
        while j < n && self.subscribers[j].is_err()
            invariant
                n == self.subscribers@.len(),
                entries == self@.entries,
                old(self)@.next <= j <= n,
                self@ == old(self)@,
                self.wf(),
                next_deliverable(entries, j as int) == next_deliverable(entries, old(self)@.next),
            decreases n - j,
        {
            assert(entries[j as int] is None);
            j = j + 1;
        }
        if j >= n {
            self.next = j;
            self.stage = PublishStage::Finished;
            assert(self@.entries =~= entries);
            PublishAction::Finish(Ok(()))
        } else {
            assert(entries[j as int] is Some);
            match &self.subscribers[j] {
                Ok(c) => {
                    let recipient = c.email.as_ref().to_owned();
                    let message = EmailMessage {
                        recipient: recipient.clone(),
                        subject: self.title.clone(),
                        html_body: self.html.clone(),
                        text_body: self.text.clone(),
                    };
                    self.current = recipient;
                    self.next = j + 1;
                    self.stage = PublishStage::Delivering;
                    assert(self@.entries =~= entries);
                    PublishAction::SendIssue(message)
                },
                Err(_) => {
                    proof {
                        assert(false);
                    }
                    PublishAction::FetchConfirmedEmails
                },
            }
        }
    }

    /// Takes the next event and says what to do next.
    pub fn step(&mut self, event: PublishEvent) -> (action: PublishAction)
        requires
            old(self).wf(),
            publish_accepts(old(self)@.stage, event@),
        ensures
            final(self).wf(),
            (final(self)@, action@) == publish_transition(old(self)@, event@),
    {
        match event {
            PublishEvent::Request { authorization, body } => {
                let header = match &authorization {
                    Some(a) => Some(a.as_slice()),
                    None => None,
                };
                match basic_authenticate(header) {
                    Err(reason) => self.finish(PublishError::AuthError(reason.message())),
                    Ok(credentials) => {
                        self.title = body.title;
                        self.html = body.content.html;
                        self.text = body.content.text;
                        self.password = credentials.password;
                        self.stage = PublishStage::AwaitingStoredCredentials;
                        PublishAction::FetchStoredCredentials { username: credentials.username }
                    },
                }
            },
            PublishEvent::StoredCredentials(r) => match r {
                Err(_) => self.finish(
                    PublishError::UnexpectedError(
                        "Failed to perform a query to retrieve stored credentials.".to_owned(),
                    ),
                ),
                Ok(stored) => match verify_credentials(&stored, self.password.as_str()) {
                    Err(e) => self.finish(e),
                    Ok(_) => {
                        self.stage = PublishStage::AwaitingConfirmedEmails;
                        PublishAction::FetchConfirmedEmails
                    },
                },
            },
            PublishEvent::ConfirmedEmails(r) => match r {
                Err(m) => self.finish(PublishError::UnexpectedError(m)),
                Ok(emails) => {
                    let subscribers = confirmed_subscribers(&emails);
                    self.subscribers = subscribers;
                    self.next = 0;
                    assert(self@.entries =~= emails@.map_values(|e: String| e@).map_values(
                        |e: Seq<char>| deliverable(e),
                    ));
                    self.deliver_next()
                },
            },
            PublishEvent::Delivered(r) => match r {
                Ok(()) => self.deliver_next(),
                Err(_) => {
                    let mut m = "Failed to send newsletter issue to ".to_owned();
                    m.append(self.current.as_str());
                    self.finish(PublishError::UnexpectedError(m))
                },
            },
        }
    }
}

// ---------- Laws ----------

/// Whether a stored address can receive the issue.
pub open spec fn address_is_deliverable() -> spec_fn(Seq<char>) -> bool {
    |e: Seq<char>| email_is_valid(e)
}

/// The addresses among `emails` that receive the issue, in order.
pub open spec fn valid_addresses(emails: Seq<Seq<char>>) -> Seq<Seq<char>> {
    emails.filter(address_is_deliverable())
}

/// The valid addresses among `entries` from index `k` on, in order.
pub open spec fn valid_from(entries: Seq<Option<Seq<char>>>, k: int) -> Seq<Seq<char>>
    decreases entries.len() - k,
{
    if k < 0 || k >= entries.len() {
        Seq::empty()
    } else if entries[k] is Some {
        seq![entries[k]->Some_0] + valid_from(entries, k + 1)
    } else {
        valid_from(entries, k + 1)
    }
}

/// Feeds `events` to a publication request in state `s`: the final state and
/// the actions asked for, in order.
pub open spec fn publish_run(s: PublishState, events: Seq<PublishEventModel>) -> (PublishState, Seq<PublishActionModel>)
    decreases events.len(),
{
    if events.len() == 0 {
        (s, Seq::empty())
    } else {
        let (t, a) = publish_transition(s, events[0]);
        let (u, rest) = publish_run(t, events.drop_first());
        (u, seq![a] + rest)
    }
}

/// Every event of `events` is one that the request can take when it comes.
pub open spec fn publish_run_accepted(s: PublishState, events: Seq<PublishEventModel>) -> bool
    decreases events.len(),
{
    events.len() == 0 || (publish_accepts(s.stage, events[0]) && publish_run_accepted(
        publish_transition(s, events[0]).0,
        events.drop_first(),
    ))
}

/// `n` successful deliveries.
pub open spec fn deliveries_succeed(n: nat) -> Seq<PublishEventModel> {
    Seq::new(n, |i: int| PublishEventModel::Delivered(true))
}

proof fn lemma_next_deliverable(entries: Seq<Option<Seq<char>>>, k: int)
    requires
        0 <= k <= entries.len(),
    ensures
        k <= next_deliverable(entries, k) <= entries.len(),
        next_deliverable(entries, k) == entries.len() <==> valid_from(entries, k).len() == 0,
        next_deliverable(entries, k) < entries.len() ==> {
            &&& entries[next_deliverable(entries, k)] is Some
            &&& valid_from(entries, k) == seq![entries[next_deliverable(entries, k)]->Some_0]
                + valid_from(entries, next_deliverable(entries, k) + 1)
        },
    decreases entries.len() - k,
{
    if k < entries.len() && entries[k] is None {
        lemma_next_deliverable(entries, k + 1);
    }
}

proof fn lemma_deliver_next(s: PublishState)
    requires
        0 <= s.next <= s.entries.len(),
    ensures
        ({
            let (t, a) = publish_deliver_next(s);
            let rest = valid_from(s.entries, s.next);
            &&& t.entries == s.entries
            &&& t.title == s.title && t.html == s.html && t.text == s.text
            &&& 0 <= t.next <= t.entries.len()
            &&& rest.len() == 0 ==> a == PublishActionModel::Finish(Ok(())) && t.stage
                == PublishStage::Finished
            &&& rest.len() > 0 ==> {
                &&& a == PublishActionModel::SendIssue(issue_for(s, rest[0]))
                &&& t.stage == PublishStage::Delivering
                &&& valid_from(t.entries, t.next) == rest.drop_first()
            }
        }),
{
    lemma_next_deliverable(s.entries, s.next);
    let j = next_deliverable(s.entries, s.next);
    if j < s.entries.len() {
        let rest = valid_from(s.entries, s.next);
        assert(rest.drop_first() =~= valid_from(s.entries, j + 1));
    }
}

proof fn lemma_delivering_run(s: PublishState, m: nat)
    requires
        s.stage == PublishStage::Delivering,
        0 <= s.next <= s.entries.len(),
        m == valid_from(s.entries, s.next).len(),
    ensures
        ({
            let (t, actions) = publish_run(s, deliveries_succeed(m + 1));
            &&& publish_run_accepted(s, deliveries_succeed(m + 1))
            &&& actions.len() == m + 1
            &&& forall|i: int|
                0 <= i < m ==> actions[i] == PublishActionModel::SendIssue(
                    issue_for(s, valid_from(s.entries, s.next)[i]),
                )
            &&& actions[m as int] == PublishActionModel::Finish(Ok(()))
            &&& t.stage == PublishStage::Finished
        }),
    decreases m,
{
    let events = deliveries_succeed(m + 1);
    let rest = valid_from(s.entries, s.next);
    lemma_deliver_next(s);
    let (t, a) = publish_deliver_next(s);
    assert(publish_transition(s, events[0]) == (t, a));
    assert(events.drop_first() =~= deliveries_succeed(m));
    assert(publish_accepts(s.stage, events[0]));
    if m == 0 {
        assert(events.drop_first().len() == 0);
        assert(publish_run(t, events.drop_first()) == (t, Seq::<PublishActionModel>::empty()));
        assert(publish_run_accepted(t, events.drop_first()));
        assert(publish_run(s, events) == (t, seq![a] + Seq::<PublishActionModel>::empty()));
    } else {
        lemma_delivering_run(t, (m - 1) as nat);
        assert(deliveries_succeed(m) =~= deliveries_succeed(((m - 1) + 1) as nat));
        let (u, tail) = publish_run(t, events.drop_first());
        assert(publish_run(s, events) == (u, seq![a] + tail));
        assert(publish_run_accepted(t, events.drop_first()));
        assert forall|i: int| 0 <= i < m implies (seq![a] + tail)[i] == PublishActionModel::SendIssue(
            issue_for(s, rest[i]),
        ) by {
            if i > 0 {
                assert(rest.drop_first()[i - 1] == rest[i]);
                assert(issue_for(t, rest[i]) == issue_for(s, rest[i]));
            }
        }
        assert((seq![a] + tail)[m as int] == tail[m - 1]);
    }
}

proof fn lemma_valid_from_addresses(emails: Seq<Seq<char>>, k: int)
    requires
        0 <= k <= emails.len(),
    ensures
        valid_from(emails.map_values(|e: Seq<char>| deliverable(e)), k) == valid_addresses(
            emails.skip(k),
        ),
    decreases emails.len() - k,
{
    let entries = emails.map_values(|e: Seq<char>| deliverable(e));
    if k == emails.len() {
        assert(emails.skip(k) =~= Seq::<Seq<char>>::empty());
        assert(valid_addresses(emails.skip(k)) =~= Seq::<Seq<char>>::empty()) by {
            reveal_with_fuel(Seq::filter, 1);
        }
    } else {
        lemma_valid_from_addresses(emails, k + 1);
        assert(emails.skip(k) =~= seq![emails[k]] + emails.skip(k + 1));
        emails.skip(k + 1).lemma_filter_prepend(emails[k], address_is_deliverable());
        if email_is_valid(emails[k]) {
            assert(valid_from(entries, k) =~= seq![emails[k]] + valid_from(entries, k + 1));
        } else {
            assert(valid_from(entries, k) =~= valid_from(entries, k + 1));
            assert(valid_addresses(emails.skip(k)) =~= Seq::<Seq<char>>::empty() + valid_addresses(emails.skip(k + 1)));
        }
    }
}

/// Once the author is authenticated, the issue goes to every confirmed
/// subscriber whose stored address is valid, once each and in the order the
/// store lists them; invalid addresses are skipped. When every send
/// succeeds the request then succeeds.
pub proof fn law_issue_reaches_every_valid_confirmed_subscriber(s: PublishState, emails: Seq<Seq<char>>)
    requires
        s.stage == PublishStage::AwaitingConfirmedEmails,
    ensures
        ({
            let valid = valid_addresses(emails);
            let events = seq![PublishEventModel::ConfirmedEmails(Ok(emails))] + deliveries_succeed(valid.len());
            let (t, actions) = publish_run(s, events);
            &&& publish_run_accepted(s, events)
            &&& actions.len() == valid.len() + 1
            &&& forall|i: int|
                0 <= i < valid.len() ==> actions[i] == PublishActionModel::SendIssue(
                    EmailModel {
                        recipient: valid[i],
                        subject: s.title,
                        html_body: s.html,
                        text_body: s.text,
                    },
                )
            &&& actions[valid.len() as int] == PublishActionModel::Finish(Ok(()))
            &&& t.stage == PublishStage::Finished
        }),
{
    let valid = valid_addresses(emails);
    let events = seq![PublishEventModel::ConfirmedEmails(Ok(emails))] + deliveries_succeed(valid.len());
    let entries = emails.map_values(|e: Seq<char>| deliverable(e));
    let s0 = PublishState {
        stage: s.stage,
        title: s.title,
        html: s.html,
        text: s.text,
        password: s.password,
        entries,
        next: 0,
        current: s.current,
    };
    assert(emails.skip(0) =~= emails);
    lemma_valid_from_addresses(emails, 0);
    lemma_deliver_next(s0);
    let (t, a) = publish_deliver_next(s0);
    assert(events[0] == PublishEventModel::ConfirmedEmails(Ok(emails)));
    assert(publish_transition(s, events[0]) == (t, a));
    assert(events.drop_first() =~= deliveries_succeed(valid.len()));
    assert(publish_accepts(s.stage, events[0]));
    if valid.len() == 0 {
        assert(events.drop_first().len() == 0);
        assert(publish_run(t, events.drop_first()) == (t, Seq::<PublishActionModel>::empty()));
        assert(publish_run_accepted(t, events.drop_first()));
        assert(publish_run(s, events) == (t, seq![a] + Seq::<PublishActionModel>::empty()));
    } else {
        let m = (valid.len() - 1) as nat;
        lemma_delivering_run(t, m);
        assert(deliveries_succeed(valid.len()) =~= deliveries_succeed(m + 1));
        let (u, tail) = publish_run(t, events.drop_first());
        assert(publish_run(s, events) == (u, seq![a] + tail));
        assert(publish_run_accepted(t, events.drop_first()));
        assert forall|i: int| 0 <= i < valid.len() implies (seq![a] + tail)[i]
            == PublishActionModel::SendIssue(issue_for(s, valid[i])) by {
            if i > 0 {
                assert(valid.drop_first()[i - 1] == valid[i]);
                assert(issue_for(t, valid[i]) == issue_for(s, valid[i]));
            }
        }
        assert((seq![a] + tail)[valid.len() as int] == tail[m as int]);
    }
}

proof fn lemma_run_length(s: PublishState, events: Seq<PublishEventModel>)
    ensures
        publish_run(s, events).1.len() == events.len(),
    decreases events.len(),
{
    if events.len() > 0 {
        lemma_run_length(publish_transition(s, events[0]).0, events.drop_first());
    }
}

/// A finished request takes no further event.
pub proof fn law_finished_publication_takes_no_event(e: PublishEventModel)
    ensures
        !publish_accepts(PublishStage::Finished, e),
{
}

proof fn lemma_finished_run(s: PublishState, events: Seq<PublishEventModel>)
    requires
        s.stage == PublishStage::Finished,
        publish_run_accepted(s, events),
    ensures
        events.len() == 0,
{
    if events.len() > 0 {
        law_finished_publication_takes_no_event(events[0]);
    }
}

/// In any run of a publication request, no subscriber is looked up and no
/// issue is sent unless the request carried Basic credentials whose
/// password the stored hash of that user accepts.
pub proof fn law_nothing_is_sent_without_valid_credentials(
    s: PublishState,
    events: Seq<PublishEventModel>,
    i: int,
)
    requires
        s.stage == PublishStage::AwaitingRequest,
        publish_run_accepted(s, events),
        0 <= i < publish_run(s, events).1.len(),
        publish_run(s, events).1[i] is SendIssue || publish_run(s, events).1[i] is FetchConfirmedEmails,
    ensures
        events.len() >= 2,
        events[0] matches PublishEventModel::Request(authorization, _, _, _)
            && spec_basic_credentials(authorization) matches Ok((_, password))
            && events[1] matches PublishEventModel::StoredCredentials(Ok(Some((_, phc))))
            && phc_string_is_valid(phc) && argon2_accepts(password, phc),
{
    lemma_run_length(s, events);
    let (s1, a1) = publish_transition(s, events[0]);
    let rest1 = events.drop_first();
    let (u1, tail1) = publish_run(s1, rest1);
    assert(publish_run(s, events).1 == seq![a1] + tail1);
    assert(publish_accepts(s.stage, events[0]));
    assert(publish_run_accepted(s1, rest1));
    if s1.stage == PublishStage::Finished {
        lemma_finished_run(s1, rest1);
        assert(tail1.len() == 0) by {
            lemma_run_length(s1, rest1);
        }
        assert(false);
    }
    assert(a1 is FetchStoredCredentials);
    assert(i >= 1);
    assert(rest1.len() >= 1) by {
        lemma_run_length(s1, rest1);
    }
    let (s2, a2) = publish_transition(s1, rest1[0]);
    let rest2 = rest1.drop_first();
    let (u2, tail2) = publish_run(s2, rest2);
    assert(tail1 == seq![a2] + tail2);
    assert(publish_accepts(s1.stage, rest1[0]));
    assert(publish_run_accepted(s2, rest2));
    assert(rest1[0] == events[1]);
    if s2.stage == PublishStage::Finished {
        lemma_finished_run(s2, rest2);
        assert(tail2.len() == 0) by {
            lemma_run_length(s2, rest2);
        }
        assert(false);
    }
}

/// The reply that challenges the client for Basic credentials.
pub open spec fn challenge_reply() -> ReplyModel {
    ReplyModel { status: 401, www_authenticate: Some(publish_challenge()), error: None }
}

/// A request without usable Basic credentials, or whose credentials name an
/// unknown user or carry a wrong password, is answered `401 Unauthorized`
/// with the challenge `Basicrealm="publish"`.
pub proof fn law_refused_credentials_are_challenged(
    s: PublishState,
    authorization: Option<Seq<u8>>,
    title: Seq<char>,
    html: Seq<char>,
    text: Seq<char>,
    stored: Option<(u128, Seq<char>)>,
)
    requires
        s.stage == PublishStage::AwaitingRequest,
    ensures
        ({
            let (s1, a1) = publish_transition(s, PublishEventModel::Request(authorization, title, html, text));
            let (s2, a2) = publish_transition(s1, PublishEventModel::StoredCredentials(Ok(stored)));
            &&& spec_basic_credentials(authorization) is Err ==> (a1 matches PublishActionModel::Finish(
                Err(f),
            ) && publish_failure_reply(f) == challenge_reply())
            &&& (spec_basic_credentials(authorization) matches Ok((_, password))
                && spec_verify_credentials(stored, password) matches Err(PublishFailure::Auth(_)))
                ==> (a2 matches PublishActionModel::Finish(Err(f)) && publish_failure_reply(f)
                == challenge_reply())
        }),
{
}

/// The state of a request after the first `k` events of `events`.
#[verifier::opaque]
pub open spec fn publish_state_at(s: PublishState, events: Seq<PublishEventModel>, k: int) -> PublishState
    decreases k,
{
    if k <= 0 {
        s
    } else {
        publish_transition(publish_state_at(s, events, k - 1), events[k - 1]).0
    }
}

proof fn lemma_state_at_start(s: PublishState, events: Seq<PublishEventModel>)
    ensures
        publish_state_at(s, events, 0) == s,
{
    reveal(publish_state_at);
}

proof fn lemma_state_at_step(s: PublishState, events: Seq<PublishEventModel>, k: int)
    requires
        0 <= k,
    ensures
        publish_state_at(s, events, k + 1) == publish_transition(publish_state_at(s, events, k), events[k]).0,
{
    reveal(publish_state_at);
}

proof fn lemma_state_at_shift(s: PublishState, events: Seq<PublishEventModel>, k: int)
    requires
        1 <= k <= events.len(),
    ensures
        publish_state_at(s, events, k) == publish_state_at(
            publish_transition(s, events[0]).0,
            events.drop_first(),
            k - 1,
        ),
    decreases k,
{
    let t = publish_transition(s, events[0]).0;
    let rest = events.drop_first();
    lemma_state_at_step(s, events, k - 1);
    if k == 1 {
        lemma_state_at_start(s, events);
        lemma_state_at_start(t, rest);
    } else {
        lemma_state_at_shift(s, events, k - 1);
        lemma_state_at_step(t, rest, k - 2);
        assert(events[k - 1] == rest[k - 2]);
    }
}

proof fn lemma_run_index(s: PublishState, events: Seq<PublishEventModel>, k: int)
    requires
        publish_run_accepted(s, events),
        0 <= k < events.len(),
    ensures
        publish_run(s, events).1[k] == publish_transition(publish_state_at(s, events, k), events[k]).1,
        publish_accepts(publish_state_at(s, events, k).stage, events[k]),
    decreases k,
{
    let (t, a) = publish_transition(s, events[0]);
    let rest = events.drop_first();
    lemma_run_length(t, rest);
    assert(publish_run(s, events).1 == seq![a] + publish_run(t, rest).1);
    if k == 0 {
        lemma_state_at_start(s, events);
    } else {
        lemma_run_index(t, rest, k - 1);
        lemma_state_at_shift(s, events, k);
        assert(rest[k - 1] == events[k]);
    }
}

/// One transition: where it ends in `Delivering`, it asked to send the issue
/// to the recipient it now records as current.
proof fn lemma_delivering_follows_send(s: PublishState, e: PublishEventModel)
    ensures
        publish_transition(s, e).0.stage == PublishStage::Delivering ==> (publish_transition(
            s,
            e,
        ).1 matches PublishActionModel::SendIssue(m) && m.recipient == publish_transition(s, e).0.current),
{
}

/// One transition: a failed send, taken while delivering, finishes with the
/// failure that names the current recipient.
proof fn lemma_failed_send_step(s: PublishState)
    requires
        s.stage == PublishStage::Delivering,
    ensures
        publish_transition(s, PublishEventModel::Delivered(false)).1 == PublishActionModel::Finish(
            Err(PublishFailure::Unexpected("Failed to send newsletter issue to "@ + s.current)),
        ),
{
}

/// One transition: an answer leaves the request finished.
proof fn lemma_finish_ends(s: PublishState, e: PublishEventModel)
    ensures
        publish_transition(s, e).1 is Finish ==> publish_transition(s, e).0.stage == PublishStage::Finished,
{
}

/// What the `k`-th step of an accepted run does, without the transition.
proof fn lemma_run_step_facts(s: PublishState, events: Seq<PublishEventModel>, k: int)
    requires
        publish_run_accepted(s, events),
        0 <= k < events.len(),
    ensures
        publish_accepts(publish_state_at(s, events, k).stage, events[k]),
        (events[k] == PublishEventModel::Delivered(false) && publish_state_at(s, events, k).stage
            == PublishStage::Delivering) ==> publish_run(s, events).1[k] == PublishActionModel::Finish(
            Err(
                PublishFailure::Unexpected(
                    "Failed to send newsletter issue to "@ + publish_state_at(s, events, k).current,
                ),
            ),
        ),
        publish_state_at(s, events, k + 1).stage == PublishStage::Delivering ==> (publish_run(
            s,
            events,
        ).1[k] matches PublishActionModel::SendIssue(m) && m.recipient == publish_state_at(
            s,
            events,
            k + 1,
        ).current),
        publish_run(s, events).1[k] is Finish ==> publish_state_at(s, events, k + 1).stage
            == PublishStage::Finished,
{
    lemma_run_index(s, events, k);
    lemma_state_at_step(s, events, k);
    let st = publish_state_at(s, events, k);
    lemma_delivering_follows_send(st, events[k]);
    lemma_finish_ends(st, events[k]);
    if st.stage == PublishStage::Delivering {
        lemma_failed_send_step(st);
    }
}

/// A send that fails fails the whole issue: in any run that does not start
/// in the middle of a delivery, when the HTTP layer reports a failed send,
/// the step before asked to send the issue to some recipient, and the
/// request is answered with the unexpected failure
/// `Failed to send newsletter issue to <that recipient>` (a `500`).
pub proof fn law_failed_send_fails_the_issue(s: PublishState, events: Seq<PublishEventModel>, k: int)
    requires
        s.stage != PublishStage::Delivering,
        publish_run_accepted(s, events),
        0 <= k < events.len(),
        events[k] == PublishEventModel::Delivered(false),
    ensures
        k >= 1,
        publish_run(s, events).1[k - 1] matches PublishActionModel::SendIssue(m) && publish_run(
            s,
            events,
        ).1[k] == PublishActionModel::Finish(
            Err(PublishFailure::Unexpected("Failed to send newsletter issue to "@ + m.recipient)),
        ),
        publish_failure_reply(PublishFailure::Unexpected("Failed to send newsletter issue to "@)).status
            == 500,
{
    lemma_run_step_facts(s, events, k);
    if k == 0 {
        lemma_state_at_start(s, events);
        assert(false);
    }
    lemma_run_step_facts(s, events, k - 1);
}

/// A request answered with success took no failed send: when a run's
/// action is `Finish(Ok(()))`, none of its events reports a failed send.
pub proof fn law_success_only_when_every_send_succeeded(
    s: PublishState,
    events: Seq<PublishEventModel>,
    j: int,
    k: int,
)
    requires
        s.stage != PublishStage::Delivering,
        publish_run_accepted(s, events),
        0 <= j < events.len(),
        publish_run(s, events).1[j] == PublishActionModel::Finish(Ok(())),
        0 <= k < events.len(),
    ensures
        events[k] != PublishEventModel::Delivered(false),
{
    if events[k] == PublishEventModel::Delivered(false) {
        law_failed_send_fails_the_issue(s, events, k);
        lemma_run_step_facts(s, events, j);
        lemma_run_step_facts(s, events, k);
        if k < j {
            lemma_run_step_facts(s, events, k + 1);
        } else if j < k {
            lemma_run_step_facts(s, events, j + 1);
        }
    }
}

proof fn lemma_request_step(
    s: PublishState,
    authorization: Option<Seq<u8>>,
    title: Seq<char>,
    html: Seq<char>,
    text: Seq<char>,
    username: Seq<char>,
    password: Seq<char>,
)
    requires
        s.stage == PublishStage::AwaitingRequest,
        spec_basic_credentials(authorization) == Ok::<(Seq<char>, Seq<char>), CredentialsError>(
            (username, password),
        ),
    ensures
        ({
            let (t, a) = publish_transition(s, PublishEventModel::Request(authorization, title, html, text));
            &&& a == PublishActionModel::FetchStoredCredentials(username)
            &&& t.stage == PublishStage::AwaitingStoredCredentials
            &&& t.password == password
        }),
{
}

proof fn lemma_stored_step(s: PublishState, user_id: u128, phc: Seq<char>)
    requires
        s.stage == PublishStage::AwaitingStoredCredentials,
        phc_string_is_valid(phc),
        argon2_accepts(s.password, phc),
    ensures
        ({
            let (t, a) = publish_transition(s, PublishEventModel::StoredCredentials(Ok(Some((user_id, phc)))));
            &&& a == PublishActionModel::FetchConfirmedEmails
            &&& t.stage == PublishStage::AwaitingConfirmedEmails
        }),
{
}

proof fn lemma_two_step_run(s: PublishState, e0: PublishEventModel, e1: PublishEventModel)
    ensures
        ({
            let (s1, a1) = publish_transition(s, e0);
            let (s2, a2) = publish_transition(s1, e1);
            &&& publish_run(s, seq![e0, e1]) == (s2, seq![a1, a2])
            &&& (publish_accepts(s.stage, e0) && publish_accepts(s1.stage, e1)) ==> publish_run_accepted(
                s,
                seq![e0, e1],
            )
        }),
{
    let events = seq![e0, e1];
    let (s1, a1) = publish_transition(s, e0);
    let (s2, a2) = publish_transition(s1, e1);
    let rest = events.drop_first();
    assert(events[0] == e0);
    assert(rest =~= seq![e1]);
    assert(rest[0] == e1);
    assert(rest.drop_first() =~= Seq::<PublishEventModel>::empty());
    assert(publish_run(s2, rest.drop_first()) == (s2, Seq::<PublishActionModel>::empty()));
    assert(publish_run(s1, rest) == (s2, seq![a2] + Seq::<PublishActionModel>::empty()));
    assert(seq![a1] + (seq![a2] + Seq::<PublishActionModel>::empty()) =~= seq![a1, a2]);
    assert(publish_run_accepted(s2, rest.drop_first()));
    if publish_accepts(s.stage, e0) && publish_accepts(s1.stage, e1) {
        assert(publish_run_accepted(s1, rest));
    }
}

proof fn lemma_authenticated_run(
    s: PublishState,
    authorization: Option<Seq<u8>>,
    title: Seq<char>,
    html: Seq<char>,
    text: Seq<char>,
    username: Seq<char>,
    password: Seq<char>,
    user_id: u128,
    phc: Seq<char>,
)
    requires
        s.stage == PublishStage::AwaitingRequest,
        spec_basic_credentials(authorization) == Ok::<(Seq<char>, Seq<char>), CredentialsError>(
            (username, password),
        ),
        phc_string_is_valid(phc),
        argon2_accepts(password, phc),
    ensures
        ({
            let events = seq![
                PublishEventModel::Request(authorization, title, html, text),
                PublishEventModel::StoredCredentials(Ok(Some((user_id, phc)))),
            ];
            let (t, actions) = publish_run(s, events);
            &&& publish_run_accepted(s, events)
            &&& actions == seq![
                PublishActionModel::FetchStoredCredentials(username),
                PublishActionModel::FetchConfirmedEmails,
            ]
            &&& t.stage == PublishStage::AwaitingConfirmedEmails
        }),
{
    let e0 = PublishEventModel::Request(authorization, title, html, text);
    let e1 = PublishEventModel::StoredCredentials(Ok(Some((user_id, phc))));
    lemma_request_step(s, authorization, title, html, text, username, password);
    let s1 = publish_transition(s, e0).0;
    lemma_stored_step(s1, user_id, phc);
    lemma_two_step_run(s, e0, e1);
}

/// An author whose `Authorization` header is the Basic header a client
/// sends for `username:password` (see `is_basic_header_for`) is looked up
/// by exactly that username; when the stored hash of that user is a PHC
/// string that Argon2 accepts the password against, the request goes on to
/// fetch the confirmed subscribers.
pub proof fn law_valid_credentials_are_accepted(
    s: PublishState,
    header: Seq<u8>,
    username: Seq<char>,
    password: Seq<char>,
    title: Seq<char>,
    html: Seq<char>,
    text: Seq<char>,
    user_id: u128,
    phc: Seq<char>,
)
    requires
        s.stage == PublishStage::AwaitingRequest,
        is_basic_header_for(header, username, password),
        phc_string_is_valid(phc),
        argon2_accepts(password, phc),
    ensures
        ({
            let events = seq![
                PublishEventModel::Request(Some(header), title, html, text),
                PublishEventModel::StoredCredentials(Ok(Some((user_id, phc)))),
            ];
            let (t, actions) = publish_run(s, events);
            &&& publish_run_accepted(s, events)
            &&& actions == seq![
                PublishActionModel::FetchStoredCredentials(username),
                PublishActionModel::FetchConfirmedEmails,
            ]
            &&& t.stage == PublishStage::AwaitingConfirmedEmails
        }),
{
    law_basic_header_is_read(header, username, password);
    lemma_authenticated_run(s, Some(header), title, html, text, username, password, user_id, phc);
}

} // verus!
