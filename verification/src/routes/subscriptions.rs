use rand::distributions::Alphanumeric;
use rand::rngs::ThreadRng;
use rand::Rng;
use vstd::prelude::*;
use vstd::string::*;
use vstd::utf8::*;

use crate::domain::subscriber_email::{email_is_valid, invalid_email_message};
use crate::domain::subscriber_name::{invalid_name_message, subscriber_name_is_valid};
use crate::domain::{NewSubscriber, SubscriberEmail, SubscriberName};
use crate::routes::email::{EmailMessage, EmailModel};
use crate::routes::reply::{Reply, ReplyModel};

verus! {

// ---------- Errors ----------

/// Why a subscription request failed; each variant carries the message of
/// the underlying failure.
#[derive(Debug)]
pub enum AppError {
    DatabaseError(String),
    ValidationError(String),
    EmailError(String),
    UnexpectedError(String),
}

/// The contents of an [`AppError`].
pub enum AppFailure {
    Database(Seq<char>),
    Validation(Seq<char>),
    Email(Seq<char>),
    Unexpected(Seq<char>),
}

impl View for AppError {
    type V = AppFailure;

    open spec fn view(&self) -> AppFailure {
        match self {
            AppError::DatabaseError(m) => AppFailure::Database(m@),
            AppError::ValidationError(m) => AppFailure::Validation(m@),
            AppError::EmailError(m) => AppFailure::Email(m@),
            AppError::UnexpectedError(m) => AppFailure::Unexpected(m@),
        }
    }
}

/// The reply to a failed subscription request: `400` for invalid data,
/// `500` otherwise, always with the failure's message.
pub open spec fn app_failure_reply(f: AppFailure) -> ReplyModel {
    match f {
        AppFailure::Validation(m) => ReplyModel { status: 400, www_authenticate: None, error: Some(m) },
        AppFailure::Database(m) => ReplyModel { status: 500, www_authenticate: None, error: Some(m) },
        AppFailure::Email(m) => ReplyModel { status: 500, www_authenticate: None, error: Some(m) },
        AppFailure::Unexpected(m) => ReplyModel { status: 500, www_authenticate: None, error: Some(m) },
    }
}

impl AppError {
    /// The HTTP reply for this error.
    pub fn reply(&self) -> (r: Reply)
        ensures
            r@ == app_failure_reply(self@),
    {
        match self {
            AppError::ValidationError(m) => Reply { status: 400, www_authenticate: None, error: Some(m.clone()) },
            AppError::DatabaseError(m) => Reply { status: 500, www_authenticate: None, error: Some(m.clone()) },
            AppError::UnexpectedError(m) => Reply { status: 500, www_authenticate: None, error: Some(m.clone()) },
            AppError::EmailError(m) => Reply { status: 500, www_authenticate: None, error: Some(m.clone()) },
        }
    }
}

// ---------- Form ----------

/// The fields of the subscription form.
#[derive(Debug)]
pub struct FormData {
    pub name: String,
    pub email: String,
}

impl NewSubscriber {
    /// Validates a subscription form: first the name with
    /// [`SubscriberName::parse`], then the address with
    /// [`SubscriberEmail::parse`]; the first refusal is returned.
    pub fn try_from(value: FormData) -> (r: Result<NewSubscriber, String>)
        ensures
            r is Ok <==> subscriber_name_is_valid(value.name@) && email_is_valid(value.email@),
            r matches Ok(s) ==> s.email@ == value.email@ && s.name@ == value.name@,
            r matches Err(m) ==> if !subscriber_name_is_valid(value.name@) {
                m@ == invalid_name_message(value.name@)
            } else {
                m@ == invalid_email_message(value.email@)
            },
    {
        let name = match SubscriberName::parse(value.name) {
            Ok(name) => name,
            Err(message) => return Err(message),
        };
        match SubscriberEmail::parse(value.email) {
            Ok(email) => Ok(NewSubscriber { email, name }),
            Err(message) => Err(message),
        }
    }
}

// ---------- Subscription token ----------

#[verifier::external_type_specification]
#[verifier::external_body]
pub struct ExThreadRng(ThreadRng);

/// Calls `rand::thread_rng()`. Nothing is claimed of the generator it hands out.
/// (The crate panics if the operating system cannot seed it; that does not
/// depend on any argument.)
#[verifier::external_body]
fn thread_rng() -> ThreadRng {
    rand::thread_rng()
}

pub open spec fn is_alphanumeric_byte(b: u8) -> bool {
    (48 <= b && b <= 57) || (65 <= b && b <= 90) || (97 <= b && b <= 122)
}

/// Calls `Rng::sample(rng, Alphanumeric)`. The crate documents the result as a
/// byte drawn from the ASCII letters and digits; that is all that is claimed.
#[verifier::external_body]
fn sample_alphanumeric(rng: &mut ThreadRng) -> (b: u8)
    ensures
        is_alphanumeric_byte(b),
{
    rng.sample(Alphanumeric)
}

pub open spec fn is_alphanumeric_char(c: char) -> bool {
    ('0' <= c && c <= '9') || ('A' <= c && c <= 'Z') || ('a' <= c && c <= 'z')
}

/// A subscription token: 25 ASCII letters or digits.
pub open spec fn is_subscription_token(t: Seq<char>) -> bool {
    &&& t.len() == 25
    &&& forall|i: int| 0 <= i < t.len() ==> is_alphanumeric_char(#[trigger] t[i])
}

/// The token spelled by 25 drawn letters or digits, in the order drawn.
pub fn token_from_samples(samples: &Vec<u8>) -> (t: String)
    requires
        samples@.len() == 25,
        forall|i: int| 0 <= i < samples@.len() ==> is_alphanumeric_byte(#[trigger] samples@[i]),
    ensures
        t@ == Seq::new(25, |i: int| samples@[i] as char),
        is_subscription_token(t@),
{
    let bytes = samples.clone();
    let ghost chars = Seq::new(bytes@.len(), |i: int| bytes@[i] as char);
    proof {
        assert(is_ascii_chars(chars));
        is_ascii_chars_encode_utf8(chars);
        assert(bytes@ =~= encode_utf8(chars));
        encode_utf8_valid_utf8(chars);
        encode_utf8_decode_utf8(chars);
    }
    match String::from_utf8(bytes) {
        Ok(token) => {
            assert(token@ =~= Seq::new(25, |i: int| samples@[i] as char));
            token
        },
        Err(_) => {
            proof {
                assert(false);
            }
            String::new()
        },
    }
}

/// A fresh random case-sensitive token: 25 letters and digits, each drawn
/// from the thread's random generator, spelled in the order drawn.
pub fn generate_subscription_token() -> (t: String)
    ensures
        is_subscription_token(t@),
{
    let mut rng = thread_rng();
    let mut samples: Vec<u8> = Vec::new();
    while samples.len() < 25
        invariant
            samples@.len() <= 25,
            forall|i: int| 0 <= i < samples@.len() ==> is_alphanumeric_byte(#[trigger] samples@[i]),
        decreases 25 - samples@.len(),
    {
        let b = sample_alphanumeric(&mut rng);
        samples.push(b);
    }
    token_from_samples(&samples)
}

// ---------- Confirmation e-mail ----------

pub open spec fn confirmation_link(base_url: Seq<char>, token: Seq<char>) -> Seq<char> {
    base_url + "/subscriptions/confirm?subscription_token="@ + token
}

pub open spec fn confirmation_model(recipient: Seq<char>, base_url: Seq<char>, token: Seq<char>) -> EmailModel {
    let link = confirmation_link(base_url, token);
    EmailModel {
        recipient,
        subject: "Welcome!"@,
        html_body: "Welcome to our newsletter!<br/>Click <a href=\""@ + link
            + "\">here</a> to confirm your subscription."@,
        text_body: "Welcome to our newsletter!\nVisit "@ + link + " to confirm your subscription."@,
    }
}

/// The welcome e-mail for a new subscriber, with the link that confirms the
/// subscription identified by `token`.
pub fn confirmation_email(recipient: &SubscriberEmail, base_url: &str, token: &str) -> (m: EmailMessage)
    ensures
        m@ == confirmation_model(recipient@, base_url@, token@),
{
    let mut link = base_url.to_owned();
    link.append("/subscriptions/confirm?subscription_token=");
    link.append(token);
    let mut text_body = "Welcome to our newsletter!\nVisit ".to_owned();
    text_body.append(link.as_str());
    text_body.append(" to confirm your subscription.");
    let mut html_body = "Welcome to our newsletter!<br/>Click <a href=\"".to_owned();
    html_body.append(link.as_str());
    html_body.append("\">here</a> to confirm your subscription.");
    EmailMessage {
        recipient: recipient.as_ref().to_owned(),
        subject: "Welcome!".to_owned(),
        html_body,
        text_body,
    }
}

// ---------- The subscription endpoint ----------

/// Where a subscription request stands.
#[derive(Debug, Clone, Copy, PartialEq, Eq, Structural)]
pub enum SubscribeStage {
    AwaitingForm,
    AwaitingTransaction,
    AwaitingInsert,
    AwaitingTokenStore,
    AwaitingConfirmationSent,
    AwaitingCommit,
    Finished,
}

/// The state of a subscription request: its stage, the service's base URL,
/// the validated subscriber (empty before validation) and the token.
#[verifier::ext_equal]
pub struct SubscribeState {
    pub stage: SubscribeStage,
    pub base_url: Seq<char>,
    pub name: Seq<char>,
    pub email: Seq<char>,
    pub token: Seq<char>,
}

/// What the HTTP layer reports back to a [`SubscribeFlow`].
#[derive(Debug)]
pub enum SubscribeEvent {
    /// The decoded form.
    FormReceived(FormData),
    /// Outcome of opening a database transaction.
    TransactionBegun(Result<(), String>),
    /// Outcome of inserting the subscriber row: its fresh id.
    SubscriberInserted(Result<u128, String>),
    /// Outcome of storing the subscription token.
    TokenStored(Result<(), String>),
    /// Outcome of sending the confirmation e-mail.
    ConfirmationSent(Result<(), String>),
    /// Outcome of committing the transaction.
    Committed(Result<(), String>),
}

pub enum SubscribeEventModel {
    FormReceived(Seq<char>, Seq<char>),
    TransactionBegun(bool),
    SubscriberInserted(Option<u128>),
    TokenStored(bool),
    ConfirmationSent(bool),
    Committed(bool),
}

impl View for SubscribeEvent {
    type V = SubscribeEventModel;

    open spec fn view(&self) -> SubscribeEventModel {
        match self {
            SubscribeEvent::FormReceived(f) => SubscribeEventModel::FormReceived(f.name@, f.email@),
            SubscribeEvent::TransactionBegun(r) => SubscribeEventModel::TransactionBegun(r is Ok),
            SubscribeEvent::SubscriberInserted(r) => SubscribeEventModel::SubscriberInserted(
                match r {
                    Ok(id) => Some(*id),
                    Err(_) => None,
                },
            ),
            SubscribeEvent::TokenStored(r) => SubscribeEventModel::TokenStored(r is Ok),
            SubscribeEvent::ConfirmationSent(r) => SubscribeEventModel::ConfirmationSent(r is Ok),
            SubscribeEvent::Committed(r) => SubscribeEventModel::Committed(r is Ok),
        }
    }
}

/// What a [`SubscribeFlow`] asks the HTTP layer to do next.
#[derive(Debug)]
pub enum SubscribeAction {
    BeginTransaction,
    InsertSubscriber { name: String, email: String },
    StoreToken { subscriber_id: u128, token: String },
    SendEmail(EmailMessage),
    CommitTransaction,
    /// Answer the request: `Ok` is `200 OK`, `Err` is [`AppError::reply`].
    Finish(Result<(), AppError>),
}

pub enum SubscribeActionModel {
    BeginTransaction,
    InsertSubscriber(Seq<char>, Seq<char>),
    StoreToken(u128, Seq<char>),
    SendEmail(EmailModel),
    CommitTransaction,
    Finish(Result<(), AppFailure>),
}

impl View for SubscribeAction {
    type V = SubscribeActionModel;

    open spec fn view(&self) -> SubscribeActionModel {
        match self {
            SubscribeAction::BeginTransaction => SubscribeActionModel::BeginTransaction,
            SubscribeAction::InsertSubscriber { name, email } => SubscribeActionModel::InsertSubscriber(
                name@,
                email@,
            ),
            SubscribeAction::StoreToken { subscriber_id, token } => SubscribeActionModel::StoreToken(
                *subscriber_id,
                token@,
            ),
            SubscribeAction::SendEmail(m) => SubscribeActionModel::SendEmail(m@),
            SubscribeAction::CommitTransaction => SubscribeActionModel::CommitTransaction,
            SubscribeAction::Finish(r) => SubscribeActionModel::Finish(
                match r {
                    Ok(()) => Ok(()),
                    Err(e) => Err(e@),
                },
            ),
        }
    }
}

/// The events that a request in `stage` can receive next.
pub open spec fn subscribe_accepts(stage: SubscribeStage, e: SubscribeEventModel) -> bool {
    match e {
        SubscribeEventModel::FormReceived(..) => stage == SubscribeStage::AwaitingForm,
        SubscribeEventModel::TransactionBegun(..) => stage == SubscribeStage::AwaitingTransaction,
        SubscribeEventModel::SubscriberInserted(..) => stage == SubscribeStage::AwaitingInsert,
        SubscribeEventModel::TokenStored(..) => stage == SubscribeStage::AwaitingTokenStore,
        SubscribeEventModel::ConfirmationSent(..) => stage == SubscribeStage::AwaitingConfirmationSent,
        SubscribeEventModel::Committed(..) => stage == SubscribeStage::AwaitingCommit,
    }
}

pub open spec fn with_stage(s: SubscribeState, stage: SubscribeStage) -> SubscribeState {
    SubscribeState { stage, base_url: s.base_url, name: s.name, email: s.email, token: s.token }
}

/// Finish with an unexpected failure whose message is `context`.
pub open spec fn subscribe_failed(s: SubscribeState, context: Seq<char>) -> (SubscribeState, SubscribeActionModel) {
    (
        with_stage(s, SubscribeStage::Finished),
        SubscribeActionModel::Finish(Err(AppFailure::Unexpected(context))),
    )
}

/// One step of a subscription request. `fresh_token` is the token drawn when
/// the subscriber row has been inserted; other steps ignore it.
pub open spec fn subscribe_transition(
    s: SubscribeState,
    e: SubscribeEventModel,
    fresh_token: Seq<char>,
) -> (SubscribeState, SubscribeActionModel) {
    match e {
        SubscribeEventModel::FormReceived(name, email) => if subscriber_name_is_valid(name)
            && email_is_valid(email) {
            (
                SubscribeState {
                    stage: SubscribeStage::AwaitingTransaction,
                    base_url: s.base_url,
                    name,
                    email,
                    token: s.token,
                },
                SubscribeActionModel::BeginTransaction,
            )
        } else {
            (
                with_stage(s, SubscribeStage::Finished),
                SubscribeActionModel::Finish(Err(AppFailure::Validation("Invalid subscriber data"@))),
            )
        },
        SubscribeEventModel::TransactionBegun(ok) => if ok {
            (
                with_stage(s, SubscribeStage::AwaitingInsert),
                SubscribeActionModel::InsertSubscriber(s.name, s.email),
            )
        } else {
            subscribe_failed(s, "Failed to acquire a Postgres connection from the pool"@)
        },
        SubscribeEventModel::SubscriberInserted(r) => match r {
            Some(id) => (
                SubscribeState {
                    stage: SubscribeStage::AwaitingTokenStore,
                    base_url: s.base_url,
                    name: s.name,
                    email: s.email,
                    token: fresh_token,
                },
                SubscribeActionModel::StoreToken(id, fresh_token),
            ),
            None => subscribe_failed(s, "Failed to insert subscriber into the database"@),
        },
        SubscribeEventModel::TokenStored(ok) => if ok {
            (
                with_stage(s, SubscribeStage::AwaitingConfirmationSent),
                SubscribeActionModel::SendEmail(confirmation_model(s.email, s.base_url, s.token)),
            )
        } else {
            subscribe_failed(s, "Failed to store subscription token in the database"@)
        },
        SubscribeEventModel::ConfirmationSent(ok) => if ok {
            (with_stage(s, SubscribeStage::AwaitingCommit), SubscribeActionModel::CommitTransaction)
        } else {
            subscribe_failed(s, "Failed to send confirmation email"@)
        },
        SubscribeEventModel::Committed(ok) => if ok {
            (with_stage(s, SubscribeStage::Finished), SubscribeActionModel::Finish(Ok(())))
        } else {
            subscribe_failed(s, "Failed to commit transaction"@)
        },
    }
}

/// The decisions of the subscription endpoint, driven by the HTTP layer:
/// validate the form, open a transaction, insert the subscriber, store a fresh
/// token, send the confirmation e-mail, commit, answer.
pub struct SubscribeFlow {
    stage: SubscribeStage,
    base_url: String,
    subscriber: Option<NewSubscriber>,
    token: String,
}

impl View for SubscribeFlow {
    type V = SubscribeState;

    closed spec fn view(&self) -> SubscribeState {
        SubscribeState {
            stage: self.stage,
            base_url: self.base_url@,
            name: match self.subscriber {
                Some(s) => s.name@,
                None => Seq::empty(),
            },
            email: match self.subscriber {
                Some(s) => s.email@,
                None => Seq::empty(),
            },
            token: self.token@,
        }
    }
}

impl SubscribeFlow {
    pub closed spec fn wf(&self) -> bool {
        &&& self.stage == SubscribeStage::AwaitingForm ==> self.subscriber is None
        &&& (self.stage != SubscribeStage::AwaitingForm && self.stage != SubscribeStage::Finished)
            ==> self.subscriber is Some
    }

    /// A request that has not seen its form yet; confirmation links start
    /// with `base_url`.
    pub fn new(base_url: String) -> (f: SubscribeFlow)
        ensures
            f.wf(),
            f@ == (SubscribeState {
                stage: SubscribeStage::AwaitingForm,
                base_url: base_url@,
                name: Seq::empty(),
                email: Seq::empty(),
                token: Seq::empty(),
            }),
    {
        SubscribeFlow { stage: SubscribeStage::AwaitingForm, base_url, subscriber: None, token: String::new() }
    }

    /// Whether the request has been answered.
    pub fn is_finished(&self) -> (r: bool)
        ensures
            r == (self@.stage == SubscribeStage::Finished),
    {
        self.stage == SubscribeStage::Finished
    }

    /// Whether the request can take `event` next.
    pub fn accepts(&self, event: &SubscribeEvent) -> (r: bool)
        ensures
            r == subscribe_accepts(self@.stage, event@),
    {
        match event {
            SubscribeEvent::FormReceived(_) => self.stage == SubscribeStage::AwaitingForm,
            SubscribeEvent::TransactionBegun(_) => self.stage == SubscribeStage::AwaitingTransaction,
            SubscribeEvent::SubscriberInserted(_) => self.stage == SubscribeStage::AwaitingInsert,
            SubscribeEvent::TokenStored(_) => self.stage == SubscribeStage::AwaitingTokenStore,
            SubscribeEvent::ConfirmationSent(_) => self.stage == SubscribeStage::AwaitingConfirmationSent,
            SubscribeEvent::Committed(_) => self.stage == SubscribeStage::AwaitingCommit,
        }
    }

    fn fail(&mut self, context: &str) -> (action: SubscribeAction)
        requires
            old(self).wf(),
            old(self).stage != SubscribeStage::AwaitingForm,
        ensures
            final(self).wf(),
            (final(self)@, action@) == subscribe_failed(old(self)@, context@),
    {
        self.stage = SubscribeStage::Finished;
        SubscribeAction::Finish(Err(AppError::UnexpectedError(context.to_owned())))
    }

    /// Takes the next event and says what to do next.
    pub fn step(&mut self, event: SubscribeEvent) -> (action: SubscribeAction)
        requires
            old(self).wf(),
            subscribe_accepts(old(self)@.stage, event@),
        ensures
            final(self).wf(),
            (final(self)@, action@) == subscribe_transition(old(self)@, event@, final(self)@.token),
            event@ matches SubscribeEventModel::SubscriberInserted(Some(_)) ==> is_subscription_token(
                final(self)@.token,
            ),
    {
        match event {
            SubscribeEvent::FormReceived(form) => match NewSubscriber::try_from(form) {
                Ok(subscriber) => {
                    self.subscriber = Some(subscriber);
                    self.stage = SubscribeStage::AwaitingTransaction;
                    SubscribeAction::BeginTransaction
                },
                Err(_) => {
                    self.stage = SubscribeStage::Finished;
                    SubscribeAction::Finish(
                        Err(AppError::ValidationError("Invalid subscriber data".to_owned())),
                    )
                },
            },
            SubscribeEvent::TransactionBegun(r) => match r {
                Ok(()) => match &self.subscriber {
                    Some(s) => {
                        let name = s.name.as_ref().to_owned();
                        let email = s.email.as_ref().to_owned();
                        self.stage = SubscribeStage::AwaitingInsert;
                        SubscribeAction::InsertSubscriber { name, email }
                    },
                    None => {
                        proof {
                            assert(false);
                        }
                        SubscribeAction::BeginTransaction
                    },
                },
                Err(_) => self.fail("Failed to acquire a Postgres connection from the pool"),
            },
            SubscribeEvent::SubscriberInserted(r) => match r {
                Ok(subscriber_id) => {
                    let token = generate_subscription_token();
                    self.token = token.clone();
                    self.stage = SubscribeStage::AwaitingTokenStore;
                    SubscribeAction::StoreToken { subscriber_id, token }
                },
                Err(_) => self.fail("Failed to insert subscriber into the database"),
            },
            SubscribeEvent::TokenStored(r) => match r {
                Ok(()) => match &self.subscriber {
                    Some(s) => {
                        let message = confirmation_email(&s.email, self.base_url.as_str(), self.token.as_str());
                        self.stage = SubscribeStage::AwaitingConfirmationSent;
                        SubscribeAction::SendEmail(message)
                    },
                    None => {
                        proof {
                            assert(false);
                        }
                        SubscribeAction::BeginTransaction
                    },
                },
                Err(_) => self.fail("Failed to store subscription token in the database"),
            },
            SubscribeEvent::ConfirmationSent(r) => match r {
                Ok(()) => {
                    self.stage = SubscribeStage::AwaitingCommit;
                    SubscribeAction::CommitTransaction
                },
                Err(_) => self.fail("Failed to send confirmation email"),
            },
            SubscribeEvent::Committed(r) => match r {
                Ok(()) => {
                    self.stage = SubscribeStage::Finished;
                    SubscribeAction::Finish(Ok(()))
                },
                Err(_) => self.fail("Failed to commit transaction"),
            },
        }
    }
}

// ---------- Laws ----------

/// Feeds `events` to a subscription request in state `s`, the `i`-th step
/// drawing `tokens[i]` if it draws one: the final state and the actions.
pub open spec fn subscribe_run(
    s: SubscribeState,
    events: Seq<SubscribeEventModel>,
    tokens: Seq<Seq<char>>,
) -> (SubscribeState, Seq<SubscribeActionModel>)
    decreases events.len(),
{
    if events.len() == 0 {
        (s, Seq::empty())
    } else {
        let (t, a) = subscribe_transition(s, events[0], tokens[0]);
        let (u, rest) = subscribe_run(t, events.drop_first(), tokens.drop_first());
        (u, seq![a] + rest)
    }
}

/// Every event of `events` is one that the request can take when it comes.
pub open spec fn subscribe_run_accepted(
    s: SubscribeState,
    events: Seq<SubscribeEventModel>,
    tokens: Seq<Seq<char>>,
) -> bool
    decreases events.len(),
{
    events.len() == 0 || (subscribe_accepts(s.stage, events[0]) && subscribe_run_accepted(
        subscribe_transition(s, events[0], tokens[0]).0,
        events.drop_first(),
        tokens.drop_first(),
    ))
}

/// A finished request takes no further event.
pub proof fn law_finished_subscription_takes_no_event(e: SubscribeEventModel)
    ensures
        !subscribe_accepts(SubscribeStage::Finished, e),
{
}

proof fn lemma_subscribe_run_length(s: SubscribeState, events: Seq<SubscribeEventModel>, tokens: Seq<Seq<char>>)
    ensures
        subscribe_run(s, events, tokens).1.len() == events.len(),
    decreases events.len(),
{
    if events.len() > 0 {
        lemma_subscribe_run_length(
            subscribe_transition(s, events[0], tokens[0]).0,
            events.drop_first(),
            tokens.drop_first(),
        );
    }
}

proof fn lemma_finished_subscribe_run(s: SubscribeState, events: Seq<SubscribeEventModel>, tokens: Seq<Seq<char>>)
    requires
        s.stage == SubscribeStage::Finished,
        subscribe_run_accepted(s, events, tokens),
    ensures
        events.len() == 0,
{
    if events.len() > 0 {
        law_finished_subscription_takes_no_event(events[0]);
    }
}

/// One step of a run: its action, and the run of the rest.
proof fn lemma_subscribe_peel(s: SubscribeState, events: Seq<SubscribeEventModel>, tokens: Seq<Seq<char>>)
    requires
        events.len() > 0,
        subscribe_run_accepted(s, events, tokens),
    ensures
        subscribe_accepts(s.stage, events[0]),
        ({
            let (t, a) = subscribe_transition(s, events[0], tokens[0]);
            &&& subscribe_run(s, events, tokens).1 == seq![a] + subscribe_run(
                t,
                events.drop_first(),
                tokens.drop_first(),
            ).1
            &&& subscribe_run_accepted(t, events.drop_first(), tokens.drop_first())
            &&& t.stage == SubscribeStage::Finished ==> events.len() == 1
        }),
{
    let (t, a) = subscribe_transition(s, events[0], tokens[0]);
    if t.stage == SubscribeStage::Finished {
        lemma_finished_subscribe_run(t, events.drop_first(), tokens.drop_first());
    }
}

/// A form with an empty name or an invalid address is answered
/// `Invalid subscriber data`
/// (a validation failure, so `400`), and nothing else is done: no
/// transaction, no row, no token, no e-mail.
pub proof fn law_invalid_form_is_refused_without_side_effects(
    s: SubscribeState,
    events: Seq<SubscribeEventModel>,
    tokens: Seq<Seq<char>>,
    name: Seq<char>,
    email: Seq<char>,
)
    requires
        s.stage == SubscribeStage::AwaitingForm,
        events.len() > 0,
        events[0] == SubscribeEventModel::FormReceived(name, email),
        !(name.len() > 0 && email_is_valid(email)),
        subscribe_run_accepted(s, events, tokens),
    ensures
        subscribe_run(s, events, tokens).1 == seq![
            SubscribeActionModel::Finish(Err(AppFailure::Validation("Invalid subscriber data"@))),
        ],
        app_failure_reply(AppFailure::Validation("Invalid subscriber data"@)).status == 400,
{
    lemma_subscribe_peel(s, events, tokens);
    let (t, a) = subscribe_transition(s, events[0], tokens[0]);
    assert(subscribe_run(t, events.drop_first(), tokens.drop_first()).1 =~= Seq::<SubscribeActionModel>::empty());
    assert(subscribe_run(s, events, tokens).1 =~= seq![a]);
}

/// A subscription is committed only after the confirmation e-mail was sent,
/// successfully, to the validated address, carrying the link for the token
/// that was stored for the new row: in any run, a commit is the fifth
/// action, after opening the transaction, inserting the subscriber, storing
/// the token and sending that e-mail, and it answers the report that the
/// e-mail went out.
pub proof fn law_commit_follows_confirmation_email(
    s: SubscribeState,
    events: Seq<SubscribeEventModel>,
    tokens: Seq<Seq<char>>,
    k: int,
)
    requires
        s.stage == SubscribeStage::AwaitingForm,
        subscribe_run_accepted(s, events, tokens),
        tokens.len() == events.len(),
        0 <= k < events.len(),
        subscribe_run(s, events, tokens).1[k] == SubscribeActionModel::CommitTransaction,
    ensures
        k == 4,
        events[4] == SubscribeEventModel::ConfirmationSent(true),
        events[0] matches SubscribeEventModel::FormReceived(name, email) && (name.len() > 0
            && email_is_valid(email)
            && (events[2] matches SubscribeEventModel::SubscriberInserted(Some(id)) && ({
            let actions = subscribe_run(s, events, tokens).1;
            &&& actions[0] == SubscribeActionModel::BeginTransaction
            &&& actions[1] == SubscribeActionModel::InsertSubscriber(name, email)
            &&& actions[2] == SubscribeActionModel::StoreToken(id, tokens[2])
            &&& actions[3] == SubscribeActionModel::SendEmail(
                confirmation_model(email, s.base_url, tokens[2]),
            )
        }))),
{
    lemma_subscribe_run_length(s, events, tokens);
    let actions = subscribe_run(s, events, tokens).1;
    // Step 1: the form.
    lemma_subscribe_peel(s, events, tokens);
    let e1 = events.drop_first();
    let k1 = tokens.drop_first();
    let (s1, a1) = subscribe_transition(s, events[0], tokens[0]);
    let r1 = subscribe_run(s1, e1, k1).1;
    if s1.stage == SubscribeStage::Finished {
        assert(actions =~= seq![a1]);
        assert(false);
    }
    // Step 2: the transaction.
    lemma_subscribe_run_length(s1, e1, k1);
    assert(actions[0] == a1);
    lemma_subscribe_peel(s1, e1, k1);
    let e2 = e1.drop_first();
    let k2 = k1.drop_first();
    let (s2, a2) = subscribe_transition(s1, e1[0], k1[0]);
    let r2 = subscribe_run(s2, e2, k2).1;
    lemma_subscribe_run_length(s2, e2, k2);
    if s2.stage == SubscribeStage::Finished {
        assert(actions =~= seq![a1, a2]);
        assert(false);
    }
    // Step 3: the insert.
    lemma_subscribe_peel(s2, e2, k2);
    let e3 = e2.drop_first();
    let k3 = k2.drop_first();
    let (s3, a3) = subscribe_transition(s2, e2[0], k2[0]);
    let r3 = subscribe_run(s3, e3, k3).1;
    lemma_subscribe_run_length(s3, e3, k3);
    if s3.stage == SubscribeStage::Finished {
        assert(actions =~= seq![a1, a2, a3]);
        assert(false);
    }
    // Step 4: the token.
    lemma_subscribe_peel(s3, e3, k3);
    let e4 = e3.drop_first();
    let k4 = k3.drop_first();
    let (s4, a4) = subscribe_transition(s3, e3[0], k3[0]);
    let r4 = subscribe_run(s4, e4, k4).1;
    lemma_subscribe_run_length(s4, e4, k4);
    if s4.stage == SubscribeStage::Finished {
        assert(actions =~= seq![a1, a2, a3, a4]);
        assert(false);
    }
    // Step 5: the e-mail.
    lemma_subscribe_peel(s4, e4, k4);
    let e5 = e4.drop_first();
    let k5 = k4.drop_first();
    let (s5, a5) = subscribe_transition(s4, e4[0], k4[0]);
    let r5 = subscribe_run(s5, e5, k5).1;
    lemma_subscribe_run_length(s5, e5, k5);
    if s5.stage == SubscribeStage::Finished {
        assert(actions =~= seq![a1, a2, a3, a4, a5]);
        assert(false);
    }
    assert(actions =~= seq![a1, a2, a3, a4, a5] + r5);
    assert(e2[0] == events[2]);
    assert(k2[0] == tokens[2]);
    if e5.len() > 0 {
        lemma_subscribe_peel(s5, e5, k5);
        let (s6, a6) = subscribe_transition(s5, e5[0], k5[0]);
        assert(s6.stage == SubscribeStage::Finished);
        assert(r5 =~= seq![a6]);
    }
}

/// A request whose steps all succeed: the form is validated, the
/// transaction opened, the subscriber inserted, the drawn token stored, the
/// confirmation e-mail (whose link carries that token) sent to the given
/// address, the transaction committed, and the request answered `200 OK`.
pub proof fn law_successful_subscription(
    base_url: Seq<char>,
    name: Seq<char>,
    email: Seq<char>,
    id: u128,
    token: Seq<char>,
)
    requires
        name.len() > 0,
        email_is_valid(email),
    ensures
        ({
            let s0 = SubscribeState {
                stage: SubscribeStage::AwaitingForm,
                base_url,
                name: Seq::empty(),
                email: Seq::empty(),
                token: Seq::empty(),
            };
            let events = seq![
                SubscribeEventModel::FormReceived(name, email),
                SubscribeEventModel::TransactionBegun(true),
                SubscribeEventModel::SubscriberInserted(Some(id)),
                SubscribeEventModel::TokenStored(true),
                SubscribeEventModel::ConfirmationSent(true),
                SubscribeEventModel::Committed(true),
            ];
            let tokens = seq![token, token, token, token, token, token];
            let (t, actions) = subscribe_run(s0, events, tokens);
            &&& subscribe_run_accepted(s0, events, tokens)
            &&& actions == seq![
                SubscribeActionModel::BeginTransaction,
                SubscribeActionModel::InsertSubscriber(name, email),
                SubscribeActionModel::StoreToken(id, token),
                SubscribeActionModel::SendEmail(confirmation_model(email, base_url, token)),
                SubscribeActionModel::CommitTransaction,
                SubscribeActionModel::Finish(Ok(())),
            ]
            &&& t.stage == SubscribeStage::Finished
        }),
{
    let s0 = SubscribeState {
        stage: SubscribeStage::AwaitingForm,
        base_url,
        name: Seq::empty(),
        email: Seq::empty(),
        token: Seq::empty(),
    };
    let events = seq![
        SubscribeEventModel::FormReceived(name, email),
        SubscribeEventModel::TransactionBegun(true),
        SubscribeEventModel::SubscriberInserted(Some(id)),
        SubscribeEventModel::TokenStored(true),
        SubscribeEventModel::ConfirmationSent(true),
        SubscribeEventModel::Committed(true),
    ];
    let tokens = seq![token, token, token, token, token, token];
    reveal_with_fuel(subscribe_run, 7);
    reveal_with_fuel(subscribe_run_accepted, 7);
    let e1 = events.drop_first();
    let e2 = e1.drop_first();
    let e3 = e2.drop_first();
    let e4 = e3.drop_first();
    let e5 = e4.drop_first();
    let e6 = e5.drop_first();
    assert(e1 =~= seq![events[1], events[2], events[3], events[4], events[5]]);
    assert(e2 =~= seq![events[2], events[3], events[4], events[5]]);
    assert(e3 =~= seq![events[3], events[4], events[5]]);
    assert(e4 =~= seq![events[4], events[5]]);
    assert(e5 =~= seq![events[5]]);
    assert(e6 =~= Seq::<SubscribeEventModel>::empty());
    let k1 = tokens.drop_first();
    let k2 = k1.drop_first();
    let k3 = k2.drop_first();
    let k4 = k3.drop_first();
    let k5 = k4.drop_first();
    assert(k1[0] == token && k2[0] == token && k3[0] == token && k4[0] == token && k5[0] == token);
    let (t, actions) = subscribe_run(s0, events, tokens);
    assert(actions =~= seq![
        SubscribeActionModel::BeginTransaction,
        SubscribeActionModel::InsertSubscriber(name, email),
        SubscribeActionModel::StoreToken(id, token),
        SubscribeActionModel::SendEmail(confirmation_model(email, base_url, token)),
        SubscribeActionModel::CommitTransaction,
        SubscribeActionModel::Finish(Ok(())),
    ]);
}

} // verus!
