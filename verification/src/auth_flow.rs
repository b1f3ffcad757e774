//! The requests of the authentication service as flows: what is asked of
//! the stores, the mailer and the hasher, in which order, and the answer
//! that the client gets at the end. The caller carries out each order and
//! hands back what came of it.

use crate::auth::{
    bcrypt_hash, check_password, create_user_reply, create_user_response, created_reply,
    handle_existing_record, has_credentials, logged_in_reply, login_payload, logout_reply,
    logout_response, password_check, record_check, send_token_reply, send_token_response,
    signup_payload, token_rejected_reply, verification_link, verification_link_of,
    verification_mail, verify_email_reply, verify_email_response, CreateUserOutcome,
    CreateUserRequest, CreateUserResponse, CreateUserView, LogoutOutcome, LogoutResponse, Mail,
    PasswordCheck, PlainView, RecordCheck, RoutedView, SendOutcome, SendTokenResponse,
    StoreAnswer, VerificationRecord, VerifyEmailResponse, VerifyOutcome, VerifyView,
};
use crate::text::{opt_str_text, opt_text, pair_texts};
use crate::token::{
    create_token, generate_access_token, generate_refresh_token, signed_token, token_fault,
    verification_token, verify_token,
};
use vstd::prelude::*;

verus! {

/// What is known of a user who exists.
#[derive(Debug, PartialEq, Eq)]
pub struct ExistingUser {
    pub email: Option<String>,
    pub hashed_password: Option<String>,
}

/// What came of an order.
#[derive(Debug, PartialEq, Eq)]
pub enum StoreEvent {
    /// The answer to a lookup of a user.
    User(StoreAnswer<ExistingUser>),
    /// The answer to a lookup of a verification record.
    Record(StoreAnswer<VerificationRecord>),
    /// A record was written, or not.
    Stored(Result<(), String>),
    /// A profile was inserted, with its id, or not.
    ProfileInserted(Result<i32, String>),
    /// The mail was sent, or not.
    MailSent(Result<(), String>),
    /// The password was hashed, or not.
    Hashed(Result<String, String>),
}

/// What a flow asks for.
#[derive(Debug, PartialEq, Eq)]
pub enum StoreOrder {
    /// Look up the user with this address.
    FindUser(String),
    /// Look up the verification record of this address.
    FindRecord(String),
    /// Clear the refresh token of this user.
    ClearRefreshToken(String),
    /// Store this refresh token for this user. What comes of it does not
    /// change the answer.
    SetRefreshToken { email: String, token: String },
    /// Mark the record of this address verified and clear its token.
    MarkVerified(String),
    /// Store this token in the record of this address.
    SetRecordToken { email: String, token: String },
    /// Make a record for this address with this token.
    InsertRecord { email: String, token: String },
    /// Send this mail through this relay, logged in as this user.
    SendMail { mail: Mail, relay: String, username: String, password: String },
    /// Hash this password.
    HashPassword(String),
    /// Make a profile.
    InsertProfile { email: String, name: Option<String>, avatar: Option<String> },
    /// Make a user who belongs to this profile.
    InsertUser {
        email: String,
        hashed_password: String,
        name: Option<String>,
        avatar: Option<String>,
        refresh_token: String,
        profile_id: i32,
    },
}

/// A `Mail` over plain sequences.
pub struct MailView {
    pub from: Seq<char>,
    pub to: Seq<char>,
    pub subject: Seq<char>,
    pub body: Seq<char>,
}

impl View for Mail {
    type V = MailView;

    open spec fn view(&self) -> MailView {
        MailView { from: self.from@, to: self.to@, subject: self.subject@, body: self.body@ }
    }
}

/// A `StoreOrder` over plain sequences.
pub enum StoreOrderView {
    FindUser(Seq<char>),
    FindRecord(Seq<char>),
    ClearRefreshToken(Seq<char>),
    SetRefreshToken { email: Seq<char>, token: Seq<char> },
    MarkVerified(Seq<char>),
    SetRecordToken { email: Seq<char>, token: Seq<char> },
    InsertRecord { email: Seq<char>, token: Seq<char> },
    SendMail { mail: MailView, relay: Seq<char>, username: Seq<char>, password: Seq<char> },
    HashPassword(Seq<char>),
    InsertProfile { email: Seq<char>, name: Option<Seq<char>>, avatar: Option<Seq<char>> },
    InsertUser {
        email: Seq<char>,
        hashed_password: Seq<char>,
        name: Option<Seq<char>>,
        avatar: Option<Seq<char>>,
        refresh_token: Seq<char>,
        profile_id: i32,
    },
}

impl View for StoreOrder {
    type V = StoreOrderView;

    open spec fn view(&self) -> StoreOrderView {
        match self {
            StoreOrder::FindUser(e) => StoreOrderView::FindUser(e@),
            StoreOrder::FindRecord(e) => StoreOrderView::FindRecord(e@),
            StoreOrder::ClearRefreshToken(e) => StoreOrderView::ClearRefreshToken(e@),
            StoreOrder::SetRefreshToken { email, token } => StoreOrderView::SetRefreshToken {
                email: email@,
                token: token@,
            },
            StoreOrder::MarkVerified(e) => StoreOrderView::MarkVerified(e@),
            StoreOrder::SetRecordToken { email, token } => StoreOrderView::SetRecordToken {
                email: email@,
                token: token@,
            },
            StoreOrder::InsertRecord { email, token } => StoreOrderView::InsertRecord {
                email: email@,
                token: token@,
            },
            StoreOrder::SendMail { mail, relay, username, password } => StoreOrderView::SendMail {
                mail: mail@,
                relay: relay@,
                username: username@,
                password: password@,
            },
            StoreOrder::HashPassword(p) => StoreOrderView::HashPassword(p@),
            StoreOrder::InsertProfile { email, name, avatar } => StoreOrderView::InsertProfile {
                email: email@,
                name: opt_text(*name),
                avatar: opt_text(*avatar),
            },
            StoreOrder::InsertUser {
                email,
                hashed_password,
                name,
                avatar,
                refresh_token,
                profile_id,
            } => StoreOrderView::InsertUser {
                email: email@,
                hashed_password: hashed_password@,
                name: opt_text(*name),
                avatar: opt_text(*avatar),
                refresh_token: refresh_token@,
                profile_id: *profile_id,
            },
        }
    }
}

/// What a flow does next: it asks for something, it answers the client, or,
/// for an event that does not belong to where it stands, nothing.
#[derive(Debug, PartialEq, Eq)]
pub enum Next<R> {
    Ask(StoreOrder),
    Respond(u16, R),
    Ignore,
}

/// A `Next` over plain sequences.
pub enum NextView<V> {
    Ask(StoreOrderView),
    Respond(u16, V),
    Ignore,
}

impl<R: View> View for Next<R> {
    type V = NextView<R::V>;

    open spec fn view(&self) -> NextView<R::V> {
        match self {
            Next::Ask(order) => NextView::Ask(order@),
            Next::Respond(status, body) => NextView::Respond(*status, body@),
            Next::Ignore => NextView::Ignore,
        }
    }
}

/// The answer with the status and the body of `reply`.
pub open spec fn respond<V>(reply: (u16, V)) -> NextView<V> {
    NextView::Respond(reply.0, reply.1)
}

/// Where a logout stands.
#[derive(Clone, Copy, Debug, PartialEq, Eq, Structural)]
pub enum LogoutPhase {
    AwaitUser,
    AwaitUpdate,
    Done,
}

/// A logout.
pub struct Logout {
    email: String,
    phase: LogoutPhase,
}

impl View for Logout {
    type V = (Seq<char>, LogoutPhase);

    closed spec fn view(&self) -> (Seq<char>, LogoutPhase) {
        (self.email@, self.phase)
    }
}

/// What the logout of `email` that stands at `phase` decides on `event`:
/// the user is looked up, the refresh token of a user who exists is
/// cleared, and the answer says how that went.
pub open spec fn logout_decision(email: Seq<char>, phase: LogoutPhase, event: StoreEvent) -> (
    LogoutPhase,
    NextView<PlainView>,
) {
    match (phase, event) {
        (LogoutPhase::AwaitUser, StoreEvent::User(answer)) => match answer {
            StoreAnswer::Found(_) => (
                LogoutPhase::AwaitUpdate,
                NextView::Ask(StoreOrderView::ClearRefreshToken(email)),
            ),
            StoreAnswer::Missing => (
                LogoutPhase::Done,
                respond(logout_reply(LogoutOutcome::UserMissing)),
            ),
            StoreAnswer::Failed(e) => (
                LogoutPhase::Done,
                respond(logout_reply(LogoutOutcome::LookupFailed(e))),
            ),
        },
        (LogoutPhase::AwaitUpdate, StoreEvent::Stored(result)) => match result {
            Ok(_) => (LogoutPhase::Done, respond(logout_reply(LogoutOutcome::Cleared))),
            Err(e) => (LogoutPhase::Done, respond(logout_reply(LogoutOutcome::UpdateFailed(e)))),
        },
        _ => (phase, NextView::Ignore),
    }
}

/// The answer of a logout.
fn logout_answer(outcome: LogoutOutcome) -> (r: Next<LogoutResponse>)
    ensures
        r@ == respond(logout_reply(outcome)),
{
    let (status, body) = logout_response(&outcome);
    Next::Respond(status, body)
}

/// Begins the logout of `email`: the user is looked up first.
pub fn logout(email: &str) -> (r: (Logout, Next<LogoutResponse>))
    ensures
        r.0@ == (email@, LogoutPhase::AwaitUser),
        r.1@ == NextView::<PlainView>::Ask(StoreOrderView::FindUser(email@)),
{
    (
        Logout { email: email.to_owned(), phase: LogoutPhase::AwaitUser },
        Next::Ask(StoreOrder::FindUser(email.to_owned())),
    )
}

impl Logout {
    /// The logout has met `event`.
    pub fn step(&mut self, event: StoreEvent) -> (r: Next<LogoutResponse>)
        ensures
            final(self)@.0 == old(self)@.0,
            (final(self)@.1, r@) == logout_decision(old(self)@.0, old(self)@.1, event),
    {
        match (self.phase, event) {
            (LogoutPhase::AwaitUser, StoreEvent::User(answer)) => match answer {
                StoreAnswer::Found(_) => {
                    self.phase = LogoutPhase::AwaitUpdate;
                    Next::Ask(StoreOrder::ClearRefreshToken(self.email.clone()))
                },
                StoreAnswer::Missing => {
                    self.phase = LogoutPhase::Done;
                    logout_answer(LogoutOutcome::UserMissing)
                },
                StoreAnswer::Failed(e) => {
                    self.phase = LogoutPhase::Done;
                    logout_answer(LogoutOutcome::LookupFailed(e))
                },
            },
            (LogoutPhase::AwaitUpdate, StoreEvent::Stored(result)) => {
                self.phase = LogoutPhase::Done;
                match result {
                    Ok(_) => logout_answer(LogoutOutcome::Cleared),
                    Err(e) => logout_answer(LogoutOutcome::UpdateFailed(e)),
                }
            },
            _ => Next::Ignore,
        }
    }
}

/// Where the handling of a verification link stands.
#[derive(Clone, Copy, Debug, PartialEq, Eq, Structural)]
pub enum VerifyPhase {
    AwaitRecord,
    AwaitUpdate,
    Done,
}

/// The handling of a verification link.
pub struct VerifyEmail {
    email: String,
    token: String,
    phase: VerifyPhase,
}

/// The state of the handling of a verification link, over plain sequences.
pub struct VerifyEmailView {
    pub email: Seq<char>,
    pub token: Seq<char>,
    pub phase: VerifyPhase,
}

impl View for VerifyEmail {
    type V = VerifyEmailView;

    closed spec fn view(&self) -> VerifyEmailView {
        VerifyEmailView { email: self.email@, token: self.token@, phase: self.phase }
    }
}

/// How the handling of a verification link begins: a token that is not
/// valid for the address at the time `now` is refused at once, with the
/// reason; else the record of the address is looked up.
pub open spec fn verify_begin(
    email: Seq<char>,
    token: Seq<char>,
    secret: Option<Seq<char>>,
    now: int,
) -> (VerifyPhase, NextView<VerifyView>) {
    match token_fault(token, email, secret, now) {
        Some(reason) => (VerifyPhase::Done, respond(token_rejected_reply(reason))),
        None => (VerifyPhase::AwaitRecord, NextView::Ask(StoreOrderView::FindRecord(email))),
    }
}

/// What the handling of a verification link decides on `event`: the token
/// of the link must be the one on record; an address that is verified
/// already stays as it is; else the record is marked verified.
pub open spec fn verify_decision(v: VerifyEmailView, event: StoreEvent) -> (
    VerifyPhase,
    NextView<VerifyView>,
) {
    match (v.phase, event) {
        (VerifyPhase::AwaitRecord, StoreEvent::Record(answer)) => match answer {
            StoreAnswer::Found(record) => match record_check(record, v.token) {
                RecordCheck::TokenMismatch => (
                    VerifyPhase::Done,
                    respond(verify_email_reply(VerifyOutcome::TokenMismatch)),
                ),
                RecordCheck::AlreadyVerified => (
                    VerifyPhase::Done,
                    respond(verify_email_reply(VerifyOutcome::AlreadyVerified)),
                ),
                RecordCheck::MarkVerified => (
                    VerifyPhase::AwaitUpdate,
                    NextView::Ask(StoreOrderView::MarkVerified(v.email)),
                ),
            },
            StoreAnswer::Missing => (
                VerifyPhase::Done,
                respond(verify_email_reply(VerifyOutcome::RecordMissing)),
            ),
            StoreAnswer::Failed(e) => (
                VerifyPhase::Done,
                respond(verify_email_reply(VerifyOutcome::LookupFailed(e))),
            ),
        },
        (VerifyPhase::AwaitUpdate, StoreEvent::Stored(result)) => match result {
            Ok(_) => (VerifyPhase::Done, respond(verify_email_reply(VerifyOutcome::Verified))),
            Err(e) => (
                VerifyPhase::Done,
                respond(verify_email_reply(VerifyOutcome::UpdateFailed(e))),
            ),
        },
        _ => (v.phase, NextView::Ignore),
    }
}

/// The answer to a verification link.
fn verify_answer(outcome: VerifyOutcome) -> (r: Next<VerifyEmailResponse>)
    ensures
        r@ == respond(verify_email_reply(outcome)),
{
    let (status, body) = verify_email_response(outcome);
    Next::Respond(status, body)
}

/// Begins the handling of the verification link for `email` with `token`,
/// at the time `now`, in seconds since the epoch.
pub fn verify_email(email: &str, token: &str, secret: Option<&str>, now: i64) -> (r: (
    VerifyEmail,
    Next<VerifyEmailResponse>,
))
    ensures
        r.0@.email == email@,
        r.0@.token == token@,
        (r.0@.phase, r.1@) == verify_begin(email@, token@, opt_str_text(secret), now as int),
{
    match verify_token(token, email, secret, now) {
        Ok(_) => (
            VerifyEmail {
                email: email.to_owned(),
                token: token.to_owned(),
                phase: VerifyPhase::AwaitRecord,
            },
            Next::Ask(StoreOrder::FindRecord(email.to_owned())),
        ),
        Err(reason) => (
            VerifyEmail {
                email: email.to_owned(),
                token: token.to_owned(),
                phase: VerifyPhase::Done,
            },
            verify_answer(VerifyOutcome::TokenRejected(reason)),
        ),
    }
}

impl VerifyEmail {
    /// The handling of the link has met `event`.
    pub fn step(&mut self, event: StoreEvent) -> (r: Next<VerifyEmailResponse>)
        ensures
            final(self)@.email == old(self)@.email,
            final(self)@.token == old(self)@.token,
            (final(self)@.phase, r@) == verify_decision(old(self)@, event),
    {
        match (self.phase, event) {
            (VerifyPhase::AwaitRecord, StoreEvent::Record(answer)) => match answer {
                StoreAnswer::Found(record) => match handle_existing_record(
                    &record,
                    self.token.as_str(),
                ) {
                    RecordCheck::TokenMismatch => {
                        self.phase = VerifyPhase::Done;
                        verify_answer(VerifyOutcome::TokenMismatch)
                    },
                    RecordCheck::AlreadyVerified => {
                        self.phase = VerifyPhase::Done;
                        verify_answer(VerifyOutcome::AlreadyVerified)
                    },
                    RecordCheck::MarkVerified => {
                        self.phase = VerifyPhase::AwaitUpdate;
                        Next::Ask(StoreOrder::MarkVerified(self.email.clone()))
                    },
                },
                StoreAnswer::Missing => {
                    self.phase = VerifyPhase::Done;
                    verify_answer(VerifyOutcome::RecordMissing)
                },
                StoreAnswer::Failed(e) => {
                    self.phase = VerifyPhase::Done;
                    verify_answer(VerifyOutcome::LookupFailed(e))
                },
            },
            (VerifyPhase::AwaitUpdate, StoreEvent::Stored(result)) => {
                self.phase = VerifyPhase::Done;
                match result {
                    Ok(_) => verify_answer(VerifyOutcome::Verified),
                    Err(e) => verify_answer(VerifyOutcome::UpdateFailed(e)),
                }
            },
            _ => Next::Ignore,
        }
    }
}

/// What the environment holds for the sending of verification mails.
#[derive(Debug, PartialEq, Eq)]
pub struct MailSettings {
    /// The address of the server that the link leads to, if one is set.
    pub server_url: Option<String>,
    /// The secret with which tokens are signed.
    pub jwt_secret: Option<String>,
    /// The address from which mails are sent.
    pub sender: Option<String>,
    /// The password of that address.
    pub password: Option<String>,
}

/// `MailSettings` over plain sequences.
pub struct MailSettingsView {
    pub server_url: Option<Seq<char>>,
    pub jwt_secret: Option<Seq<char>>,
    pub sender: Option<Seq<char>>,
    pub password: Option<Seq<char>>,
}

impl View for MailSettings {
    type V = MailSettingsView;

    open spec fn view(&self) -> MailSettingsView {
        MailSettingsView {
            server_url: opt_text(self.server_url),
            jwt_secret: opt_text(self.jwt_secret),
            sender: opt_text(self.sender),
            password: opt_text(self.password),
        }
    }
}

/// Where a request for a verification mail stands.
#[derive(Clone, Copy, Debug, PartialEq, Eq, Structural)]
pub enum SendPhase {
    AwaitUser,
    AwaitMail,
    AwaitRecord,
    AwaitUpdate,
    AwaitInsert,
    Done,
}

/// A request for a verification mail.
pub struct SendToken {
    email: String,
    settings: MailSettings,
    now: u64,
    token: Option<String>,
    phase: SendPhase,
}

/// The state of a request for a verification mail, over plain sequences.
pub struct SendTokenView {
    pub email: Seq<char>,
    pub settings: MailSettingsView,
    pub now: u64,
    pub token: Option<Seq<char>>,
    pub phase: SendPhase,
}

impl View for SendToken {
    type V = SendTokenView;

    closed spec fn view(&self) -> SendTokenView {
        SendTokenView {
            email: self.email@,
            settings: self.settings@,
            now: self.now,
            token: opt_text(self.token),
            phase: self.phase,
        }
    }
}

/// What a decision on a request for a verification mail comes to.
pub struct SendDecision {
    pub phase: SendPhase,
    pub token: Option<Seq<char>>,
    pub next: NextView<RoutedView>,
}

/// The request ends with the answer for `outcome`.
pub open spec fn send_ends(v: SendTokenView, outcome: SendOutcome) -> SendDecision {
    SendDecision {
        phase: SendPhase::Done,
        token: v.token,
        next: respond(send_token_reply(outcome)),
    }
}

/// The request goes on to `phase` with `order`.
pub open spec fn send_asks(v: SendTokenView, phase: SendPhase, order: StoreOrderView)
    -> SendDecision {
    SendDecision { phase, token: v.token, next: NextView::Ask(order) }
}

/// The relay through which mails are sent.
pub open spec fn mail_relay() -> Seq<char> {
    "smtp.gmail.com"@
}

/// The address of the server where none is set.
pub open spec fn default_server_url() -> Seq<char> {
    "http://localhost:3000"@
}

/// The mail with the verification link of `email` and `token`, from
/// `sender`.
pub open spec fn verification_mail_of(
    server_url: Seq<char>,
    sender: Seq<char>,
    email: Seq<char>,
    token: Seq<char>,
) -> MailView {
    MailView {
        from: sender,
        to: email,
        subject: "Email Verification"@,
        body: "Please verify your email by clicking this link: "@ + verification_link_of(
            server_url,
            email,
            token,
        ),
    }
}

/// What follows once it is known that no user has the address: a token is
/// made, then the sender and its password must be configured, and the mail
/// with the link goes out.
pub open spec fn send_mail_decision(v: SendTokenView) -> SendDecision {
    match verification_token(v.email, v.settings.jwt_secret, v.now) {
        None => send_ends(v, SendOutcome::TokenFailed),
        Some(token) => match v.settings.sender {
            None => SendDecision { token: Some(token), ..send_ends(v, SendOutcome::SenderMissing) },
            Some(sender) => match v.settings.password {
                None => SendDecision {
                    token: Some(token),
                    ..send_ends(v, SendOutcome::PasswordMissing)
                },
                Some(password) => SendDecision {
                    phase: SendPhase::AwaitMail,
                    token: Some(token),
                    next: NextView::Ask(
                        StoreOrderView::SendMail {
                            mail: verification_mail_of(
                                match v.settings.server_url {
                                    Some(url) => url,
                                    None => default_server_url(),
                                },
                                sender,
                                v.email,
                                token,
                            ),
                            relay: mail_relay(),
                            username: sender,
                            password,
                        },
                    ),
                },
            },
        },
    }
}

/// The token of the request, or the empty text where none was made.
pub open spec fn token_text(v: SendTokenView) -> Seq<char> {
    match v.token {
        Some(t) => t,
        None => Seq::empty(),
    }
}

/// What a request for a verification mail decides on `event`. An address
/// that belongs to a user gets no mail. Else the mail is sent, and only
/// then the token is put on record: into the record of the address where
/// there is one, into a new record otherwise.
pub open spec fn send_decision(v: SendTokenView, event: StoreEvent) -> SendDecision {
    match (v.phase, event) {
        (SendPhase::AwaitUser, StoreEvent::User(answer)) => match answer {
            StoreAnswer::Found(_) => send_ends(v, SendOutcome::UserExists),
            StoreAnswer::Missing => send_mail_decision(v),
            StoreAnswer::Failed(e) => send_ends(v, SendOutcome::UserLookupFailed(e)),
        },
        (SendPhase::AwaitMail, StoreEvent::MailSent(result)) => match result {
            Ok(_) => send_asks(v, SendPhase::AwaitRecord, StoreOrderView::FindRecord(v.email)),
            Err(e) => send_ends(v, SendOutcome::MailFailed(e)),
        },
        (SendPhase::AwaitRecord, StoreEvent::Record(answer)) => match answer {
            StoreAnswer::Found(_) => send_asks(
                v,
                SendPhase::AwaitUpdate,
                StoreOrderView::SetRecordToken { email: v.email, token: token_text(v) },
            ),
            StoreAnswer::Missing => send_asks(
                v,
                SendPhase::AwaitInsert,
                StoreOrderView::InsertRecord { email: v.email, token: token_text(v) },
            ),
            StoreAnswer::Failed(e) => send_ends(v, SendOutcome::RecordLookupFailed(e)),
        },
        (SendPhase::AwaitUpdate, StoreEvent::Stored(result)) => match result {
            Ok(_) => send_ends(v, SendOutcome::RecordUpdated),
            Err(e) => send_ends(v, SendOutcome::RecordUpdateFailed(e)),
        },
        (SendPhase::AwaitInsert, StoreEvent::Stored(result)) => match result {
            Ok(_) => send_ends(v, SendOutcome::RecordInserted),
            Err(e) => send_ends(v, SendOutcome::RecordInsertFailed(e)),
        },
        _ => SendDecision { phase: v.phase, token: v.token, next: NextView::Ignore },
    }
}

/// The answer to a request for a verification mail.
fn send_answer(outcome: SendOutcome) -> (r: Next<SendTokenResponse>)
    ensures
        r@ == respond(send_token_reply(outcome)),
{
    let (status, body) = send_token_response(outcome);
    Next::Respond(status, body)
}

/// Begins a request for a verification mail to `email` at the time `now`,
/// in seconds since the epoch. A request without an address is answered at
/// once; else the user with the address is looked up.
pub fn send_token(email: &str, settings: MailSettings, now: u64) -> (r: (
    SendToken,
    Next<SendTokenResponse>,
))
    ensures
        r.0@.email == email@,
        r.0@.settings == settings@,
        r.0@.now == now,
        r.0@.token is None,
        r.0@.phase == (if email@.len() == 0 {
            SendPhase::Done
        } else {
            SendPhase::AwaitUser
        }),
        r.1@ == (if email@.len() == 0 {
            respond(send_token_reply(SendOutcome::EmptyEmail))
        } else {
            NextView::Ask(StoreOrderView::FindUser(email@))
        }),
{
    if email.is_empty() {
        (
            SendToken {
                email: email.to_owned(),
                settings,
                now,
                token: None,
                phase: SendPhase::Done,
            },
            send_answer(SendOutcome::EmptyEmail),
        )
    } else {
        (
            SendToken {
                email: email.to_owned(),
                settings,
                now,
                token: None,
                phase: SendPhase::AwaitUser,
            },
            Next::Ask(StoreOrder::FindUser(email.to_owned())),
        )
    }
}

impl SendToken {
    /// The request ends with the answer for `outcome`.
    fn ends(&mut self, outcome: SendOutcome) -> (r: Next<SendTokenResponse>)
        ensures
            final(self)@ == (SendTokenView { phase: SendPhase::Done, ..old(self)@ }),
            r@ == respond(send_token_reply(outcome)),
    {
        self.phase = SendPhase::Done;
        send_answer(outcome)
    }

    /// The token of the request, or the empty text.
    fn token_or_empty(&self) -> (r: String)
        ensures
            r@ == token_text(self@),
    {
        match &self.token {
            Some(t) => t.clone(),
            None => String::new(),
        }
    }

    /// Makes the token and the mail.
    fn prepare_mail(&mut self) -> (r: Next<SendTokenResponse>)
        ensures
            final(self)@.email == old(self)@.email,
            final(self)@.settings == old(self)@.settings,
            final(self)@.now == old(self)@.now,
            final(self)@.phase == send_mail_decision(old(self)@).phase,
            final(self)@.token == send_mail_decision(old(self)@).token,
            r@ == send_mail_decision(old(self)@).next,
    {
        let secret = match &self.settings.jwt_secret {
            Some(s) => Some(s.as_str()),
            None => None,
        };
        let token = match create_token(self.email.as_str(), secret, self.now) {
            Some(t) => t,
            None => {
                return self.ends(SendOutcome::TokenFailed);
            },
        };
        self.token = Some(token.clone());
        let sender = match &self.settings.sender {
            Some(s) => s.clone(),
            None => {
                return self.ends(SendOutcome::SenderMissing);
            },
        };
        let password = match &self.settings.password {
            Some(p) => p.clone(),
            None => {
                return self.ends(SendOutcome::PasswordMissing);
            },
        };
        let link = match &self.settings.server_url {
            Some(url) => verification_link(url.as_str(), self.email.as_str(), token.as_str()),
            None => verification_link(
                "http://localhost:3000",
                self.email.as_str(),
                token.as_str(),
            ),
        };
        let mail = verification_mail(sender.as_str(), self.email.as_str(), link.as_str());
        self.phase = SendPhase::AwaitMail;
        Next::Ask(
            StoreOrder::SendMail {
                mail,
                relay: "smtp.gmail.com".to_owned(),
                username: sender,
                password,
            },
        )
    }

    /// The request has met `event`.
    pub fn step(&mut self, event: StoreEvent) -> (r: Next<SendTokenResponse>)
        ensures
            final(self)@.email == old(self)@.email,
            final(self)@.settings == old(self)@.settings,
            final(self)@.now == old(self)@.now,
            final(self)@.phase == send_decision(old(self)@, event).phase,
            final(self)@.token == send_decision(old(self)@, event).token,
            r@ == send_decision(old(self)@, event).next,
    {
        match (self.phase, event) {
            (SendPhase::AwaitUser, StoreEvent::User(answer)) => match answer {
                StoreAnswer::Found(_) => self.ends(SendOutcome::UserExists),
                StoreAnswer::Missing => self.prepare_mail(),
                StoreAnswer::Failed(e) => self.ends(SendOutcome::UserLookupFailed(e)),
            },
            (SendPhase::AwaitMail, StoreEvent::MailSent(result)) => match result {
                Ok(_) => {
                    self.phase = SendPhase::AwaitRecord;
                    Next::Ask(StoreOrder::FindRecord(self.email.clone()))
                },
                Err(e) => self.ends(SendOutcome::MailFailed(e)),
            },
            (SendPhase::AwaitRecord, StoreEvent::Record(answer)) => match answer {
                StoreAnswer::Found(_) => {
                    let token = self.token_or_empty();
                    self.phase = SendPhase::AwaitUpdate;
                    Next::Ask(StoreOrder::SetRecordToken { email: self.email.clone(), token })
                },
                StoreAnswer::Missing => {
                    let token = self.token_or_empty();
                    self.phase = SendPhase::AwaitInsert;
                    Next::Ask(StoreOrder::InsertRecord { email: self.email.clone(), token })
                },
                StoreAnswer::Failed(e) => self.ends(SendOutcome::RecordLookupFailed(e)),
            },
            (SendPhase::AwaitUpdate, StoreEvent::Stored(result)) => match result {
                Ok(_) => self.ends(SendOutcome::RecordUpdated),
                Err(e) => self.ends(SendOutcome::RecordUpdateFailed(e)),
            },
            (SendPhase::AwaitInsert, StoreEvent::Stored(result)) => match result {
                Ok(_) => self.ends(SendOutcome::RecordInserted),
                Err(e) => self.ends(SendOutcome::RecordInsertFailed(e)),
            },
            _ => Next::Ignore,
        }
    }
}

/// A mail goes out only for an address that no user has, and a token is
/// put on record only after its mail has gone out.
pub proof fn lemma_token_recorded_after_mail(v: SendTokenView, event: StoreEvent)
    ensures
        send_decision(v, event).next matches NextView::Ask(StoreOrderView::SendMail { .. })
            ==> v.phase == SendPhase::AwaitUser && event == StoreEvent::User(
            StoreAnswer::<ExistingUser>::Missing,
        ),
        send_decision(v, event).next matches NextView::Ask(StoreOrderView::FindRecord(_))
            ==> v.phase == SendPhase::AwaitMail && event matches StoreEvent::MailSent(Ok(_)),
        (send_decision(v, event).next matches NextView::Ask(StoreOrderView::SetRecordToken { .. })
            || send_decision(v, event).next matches NextView::Ask(
            StoreOrderView::InsertRecord { .. },
        )) ==> v.phase == SendPhase::AwaitRecord,
{
}

/// What the environment and the clock hold for a request to create a user.
#[derive(Debug, PartialEq, Eq)]
pub struct TokenSettings {
    /// The secret with which refresh tokens are signed.
    pub refresh_secret: Option<String>,
    /// The secret with which access tokens are signed.
    pub access_secret: Option<String>,
    /// The time, in seconds since the epoch.
    pub now: i64,
    /// The time, as the tokens name it.
    pub at: String,
}

/// `TokenSettings` over plain sequences.
pub struct TokenSettingsView {
    pub refresh_secret: Option<Seq<char>>,
    pub access_secret: Option<Seq<char>>,
    pub now: i64,
    pub at: Seq<char>,
}

impl View for TokenSettings {
    type V = TokenSettingsView;

    open spec fn view(&self) -> TokenSettingsView {
        TokenSettingsView {
            refresh_secret: opt_text(self.refresh_secret),
            access_secret: opt_text(self.access_secret),
            now: self.now,
            at: self.at@,
        }
    }
}

/// Where a request to create a user stands.
#[derive(Clone, Copy, Debug, PartialEq, Eq, Structural)]
pub enum CreatePhase {
    AwaitUser,
    AwaitTokenStored,
    AwaitHash,
    AwaitProfile,
    AwaitInsert,
    Done,
}

/// A request to create a user, or to log one in.
pub struct CreateUser {
    email: String,
    password: String,
    name: Option<String>,
    avatar: Option<String>,
    settings: TokenSettings,
    hashed: Option<String>,
    refresh_token: Option<String>,
    access_token: Option<String>,
    phase: CreatePhase,
}

/// The state of a request to create a user, over plain sequences.
pub struct CreateUserStateView {
    pub email: Seq<char>,
    pub password: Seq<char>,
    pub name: Option<Seq<char>>,
    pub avatar: Option<Seq<char>>,
    pub settings: TokenSettingsView,
    pub hashed: Option<Seq<char>>,
    pub refresh_token: Option<Seq<char>>,
    pub access_token: Option<Seq<char>>,
    pub phase: CreatePhase,
}

impl View for CreateUser {
    type V = CreateUserStateView;

    closed spec fn view(&self) -> CreateUserStateView {
        CreateUserStateView {
            email: self.email@,
            password: self.password@,
            name: opt_text(self.name),
            avatar: opt_text(self.avatar),
            settings: self.settings@,
            hashed: opt_text(self.hashed),
            refresh_token: opt_text(self.refresh_token),
            access_token: opt_text(self.access_token),
            phase: self.phase,
        }
    }
}

/// What a decision on a request to create a user comes to.
pub struct CreateDecision {
    pub state: CreateUserStateView,
    pub next: NextView<CreateUserView>,
}

/// The request ends with the answer for `outcome`.
pub open spec fn create_ends(v: CreateUserStateView, outcome: CreateUserOutcome)
    -> CreateDecision {
    CreateDecision {
        state: CreateUserStateView { phase: CreatePhase::Done, ..v },
        next: respond(create_user_reply(outcome)),
    }
}

/// The text of an optional text, or the empty text.
pub open spec fn or_empty(t: Option<Seq<char>>) -> Seq<char> {
    match t {
        Some(s) => s,
        None => Seq::empty(),
    }
}

/// The payload of the tokens of a user who logs in.
pub open spec fn login_claims(email: Seq<char>, at: Seq<char>) -> Seq<(Seq<char>, Seq<char>)> {
    seq![("email"@, email), ("login_at"@, at)]
}

/// The payload of the tokens of a user who is created.
pub open spec fn signup_claims(email: Seq<char>, at: Seq<char>) -> Seq<(Seq<char>, Seq<char>)> {
    seq![("email"@, email), ("created_at"@, at)]
}

/// The tokens for `payload` are made, first the refresh token, then the
/// access token; where one cannot be made the request ends. With both, the
/// request goes on to `phase` with `order`, which may name the refresh
/// token.
pub open spec fn with_tokens(
    v: CreateUserStateView,
    payload: Seq<(Seq<char>, Seq<char>)>,
    phase: CreatePhase,
    order: spec_fn(Seq<char>) -> StoreOrderView,
) -> CreateDecision {
    match signed_token(payload, v.settings.refresh_secret, 15552000, v.settings.now as int) {
        None => create_ends(v, CreateUserOutcome::RefreshTokenFailed),
        Some(refresh) => match signed_token(
            payload,
            v.settings.access_secret,
            900,
            v.settings.now as int,
        ) {
            None => create_ends(
                CreateUserStateView { refresh_token: Some(refresh), ..v },
                CreateUserOutcome::AccessTokenFailed,
            ),
            Some(access) => CreateDecision {
                state: CreateUserStateView {
                    refresh_token: Some(refresh),
                    access_token: Some(access),
                    phase,
                    ..v
                },
                next: NextView::Ask(order(refresh)),
            },
        },
    }
}

/// What a request to create a user decides on `event`.
///
/// A user who exists is logged in where the password is the one on record:
/// new tokens are made, the refresh token is stored, and the tokens are
/// handed out whatever comes of storing. For an address that no user has,
/// the password is hashed, the tokens are made, a profile is made, and then
/// the user; the tokens are handed out once the user is stored.
pub open spec fn create_decision(v: CreateUserStateView, event: StoreEvent) -> CreateDecision {
    match (v.phase, event) {
        (CreatePhase::AwaitUser, StoreEvent::User(answer)) => match answer {
            StoreAnswer::Failed(e) => create_ends(v, CreateUserOutcome::LookupFailed(e)),
            StoreAnswer::Found(user) => match password_check(
                opt_text(user.hashed_password),
                v.password,
            ) {
                PasswordCheck::NoneStored => create_ends(v, CreateUserOutcome::NoStoredPassword),
                PasswordCheck::Rejected => create_ends(v, CreateUserOutcome::WrongPassword),
                PasswordCheck::Accepted => with_tokens(
                    v,
                    login_claims(or_empty(opt_text(user.email)), v.settings.at),
                    CreatePhase::AwaitTokenStored,
                    |refresh: Seq<char>|
                        StoreOrderView::SetRefreshToken { email: v.email, token: refresh },
                ),
            },
            StoreAnswer::Missing => CreateDecision {
                state: CreateUserStateView { phase: CreatePhase::AwaitHash, ..v },
                next: NextView::Ask(StoreOrderView::HashPassword(v.password)),
            },
        },
        (CreatePhase::AwaitTokenStored, StoreEvent::Stored(_)) => CreateDecision {
            state: CreateUserStateView { phase: CreatePhase::Done, ..v },
            next: respond(logged_in_reply(or_empty(v.refresh_token), or_empty(v.access_token))),
        },
        (CreatePhase::AwaitHash, StoreEvent::Hashed(result)) => match result {
            Err(e) => create_ends(v, CreateUserOutcome::HashFailed(e)),
            Ok(hash) => with_tokens(
                CreateUserStateView { hashed: Some(hash@), ..v },
                signup_claims(v.email, v.settings.at),
                CreatePhase::AwaitProfile,
                |refresh: Seq<char>|
                    StoreOrderView::InsertProfile {
                        email: v.email,
                        name: v.name,
                        avatar: v.avatar,
                    },
            ),
        },
        (CreatePhase::AwaitProfile, StoreEvent::ProfileInserted(result)) => match result {
            Err(e) => create_ends(v, CreateUserOutcome::ProfileFailed(e)),
            Ok(id) => CreateDecision {
                state: CreateUserStateView { phase: CreatePhase::AwaitInsert, ..v },
                next: NextView::Ask(
                    StoreOrderView::InsertUser {
                        email: v.email,
                        hashed_password: or_empty(v.hashed),
                        name: v.name,
                        avatar: v.avatar,
                        refresh_token: or_empty(v.refresh_token),
                        profile_id: id,
                    },
                ),
            },
        },
        (CreatePhase::AwaitInsert, StoreEvent::Stored(result)) => match result {
            Err(e) => create_ends(v, CreateUserOutcome::UserFailed(e)),
            Ok(_) => CreateDecision {
                state: CreateUserStateView { phase: CreatePhase::Done, ..v },
                next: respond(created_reply(or_empty(v.refresh_token), or_empty(v.access_token))),
            },
        },
        _ => CreateDecision { state: v, next: NextView::Ignore },
    }
}

/// Carries out the order to hash `password`: the hash, or the words of
/// `bcrypt` where it makes none. The hash differs from call to call.
pub fn hash_password(password: &str) -> (event: StoreEvent)
    ensures
        event is Hashed,
{
    StoreEvent::Hashed(bcrypt_hash(password))
}

/// The answer to a request to create a user.
fn create_answer(outcome: CreateUserOutcome) -> (r: Next<CreateUserResponse>)
    ensures
        r@ == respond(create_user_reply(outcome)),
{
    let (status, body) = create_user_response(outcome);
    Next::Respond(status, body)
}

/// A copy of an optional string.
fn copy_opt(s: &Option<String>) -> (r: Option<String>)
    ensures
        opt_text(r) == opt_text(*s),
{
    match s {
        Some(t) => Some(t.clone()),
        None => None,
    }
}

/// The text of an optional string, or the empty text.
fn text_or_empty(s: &Option<String>) -> (r: String)
    ensures
        r@ == or_empty(opt_text(*s)),
{
    match s {
        Some(t) => t.clone(),
        None => String::new(),
    }
}

/// Begins a request to create a user. A request without an address or a
/// password is refused at once; else the user with the address is looked
/// up.
pub fn create_user(request: CreateUserRequest, settings: TokenSettings) -> (r: (
    CreateUser,
    Next<CreateUserResponse>,
))
    ensures
        r.0@ == (CreateUserStateView {
            email: request.email@,
            password: request.password@,
            name: opt_text(request.name),
            avatar: opt_text(request.avatar),
            settings: settings@,
            hashed: None,
            refresh_token: None,
            access_token: None,
            phase: if request.email@.len() > 0 && request.password@.len() > 0 {
                CreatePhase::AwaitUser
            } else {
                CreatePhase::Done
            },
        }),
        r.1@ == (if request.email@.len() > 0 && request.password@.len() > 0 {
            NextView::Ask(StoreOrderView::FindUser(request.email@))
        } else {
            respond(create_user_reply(CreateUserOutcome::MissingCredentials))
        }),
{
    let complete = has_credentials(&request);
    let find = StoreOrder::FindUser(request.email.clone());
    let flow = CreateUser {
        email: request.email,
        password: request.password,
        name: request.name,
        avatar: request.avatar,
        settings,
        hashed: None,
        refresh_token: None,
        access_token: None,
        phase: if complete {
            CreatePhase::AwaitUser
        } else {
            CreatePhase::Done
        },
    };
    if complete {
        (flow, Next::Ask(find))
    } else {
        (flow, create_answer(CreateUserOutcome::MissingCredentials))
    }
}

impl CreateUser {
    /// The request ends with the answer for `outcome`.
    fn ends(&mut self, outcome: CreateUserOutcome) -> (r: Next<CreateUserResponse>)
        ensures
            final(self)@ == create_ends(old(self)@, outcome).state,
            r@ == create_ends(old(self)@, outcome).next,
    {
        self.phase = CreatePhase::Done;
        create_answer(outcome)
    }

    /// Makes the two tokens for `payload`. Where one cannot be made the
    /// answer that ends the request comes back.
    fn make_tokens(&mut self, payload: &Vec<(String, String)>) -> (r: Option<
        Next<CreateUserResponse>,
    >)
        ensures
            match signed_token(
                pair_texts(payload@),
                old(self)@.settings.refresh_secret,
                15552000,
                old(self)@.settings.now as int,
            ) {
                None => r matches Some(n) && n@ == respond(
                    create_user_reply(CreateUserOutcome::RefreshTokenFailed),
                ) && final(self)@ == (CreateUserStateView {
                    phase: CreatePhase::Done,
                    ..old(self)@
                }),
                Some(refresh) => match signed_token(
                    pair_texts(payload@),
                    old(self)@.settings.access_secret,
                    900,
                    old(self)@.settings.now as int,
                ) {
                    None => r matches Some(n) && n@ == respond(
                        create_user_reply(CreateUserOutcome::AccessTokenFailed),
                    ) && final(self)@ == (CreateUserStateView {
                        phase: CreatePhase::Done,
                        refresh_token: Some(refresh),
                        ..old(self)@
                    }),
                    Some(access) => r is None && final(self)@ == (CreateUserStateView {
                        refresh_token: Some(refresh),
                        access_token: Some(access),
                        ..old(self)@
                    }),
                },
            },
    {
        let refresh_secret = match &self.settings.refresh_secret {
            Some(s) => Some(s.as_str()),
            None => None,
        };
        let refresh = match generate_refresh_token(payload, refresh_secret, self.settings.now) {
            Some(t) => t,
            None => {
                return Some(self.ends(CreateUserOutcome::RefreshTokenFailed));
            },
        };
        self.refresh_token = Some(refresh);
        let access_secret = match &self.settings.access_secret {
            Some(s) => Some(s.as_str()),
            None => None,
        };
        let access = match generate_access_token(payload, access_secret, self.settings.now) {
            Some(t) => t,
            None => {
                return Some(self.ends(CreateUserOutcome::AccessTokenFailed));
            },
        };
        self.access_token = Some(access);
        None
    }

    /// The request has met `event`.
    pub fn step(&mut self, event: StoreEvent) -> (r: Next<CreateUserResponse>)
        ensures
            final(self)@ == create_decision(old(self)@, event).state,
            r@ == create_decision(old(self)@, event).next,
    {
        match (self.phase, event) {
            (CreatePhase::AwaitUser, StoreEvent::User(answer)) => match answer {
                StoreAnswer::Failed(e) => self.ends(CreateUserOutcome::LookupFailed(e)),
                StoreAnswer::Found(user) => {
                    let stored = match &user.hashed_password {
                        Some(h) => Some(h.as_str()),
                        None => None,
                    };
                    match check_password(stored, self.password.as_str()) {
                        PasswordCheck::NoneStored => self.ends(
                            CreateUserOutcome::NoStoredPassword,
                        ),
                        PasswordCheck::Rejected => self.ends(CreateUserOutcome::WrongPassword),
                        PasswordCheck::Accepted => {
                            let email = text_or_empty(&user.email);
                            let payload = login_payload(
                                email.as_str(),
                                self.settings.at.as_str(),
                            );
                            match self.make_tokens(&payload) {
                                Some(answer) => answer,
                                None => {
                                    self.phase = CreatePhase::AwaitTokenStored;
                                    Next::Ask(
                                        StoreOrder::SetRefreshToken {
                                            email: self.email.clone(),
                                            token: text_or_empty(&self.refresh_token),
                                        },
                                    )
                                },
                            }
                        },
                    }
                },
                StoreAnswer::Missing => {
                    self.phase = CreatePhase::AwaitHash;
                    Next::Ask(StoreOrder::HashPassword(self.password.clone()))
                },
            },
            (CreatePhase::AwaitTokenStored, StoreEvent::Stored(_)) => {
                self.phase = CreatePhase::Done;
                Next::Respond(
                    crate::auth::OK,
                    CreateUserResponse {
                        success: true,
                        message: "Login successful".to_owned(),
                        refresh_token: Some(text_or_empty(&self.refresh_token)),
                        access_token: Some(text_or_empty(&self.access_token)),
                    },
                )
            },
            (CreatePhase::AwaitHash, StoreEvent::Hashed(result)) => match result {
                Err(e) => self.ends(CreateUserOutcome::HashFailed(e)),
                Ok(hash) => {
                    self.hashed = Some(hash);
                    let payload = signup_payload(self.email.as_str(), self.settings.at.as_str());
                    match self.make_tokens(&payload) {
                        Some(answer) => answer,
                        None => {
                            self.phase = CreatePhase::AwaitProfile;
                            Next::Ask(
                                StoreOrder::InsertProfile {
                                    email: self.email.clone(),
                                    name: copy_opt(&self.name),
                                    avatar: copy_opt(&self.avatar),
                                },
                            )
                        },
                    }
                },
            },
            (CreatePhase::AwaitProfile, StoreEvent::ProfileInserted(result)) => match result {
                Err(e) => self.ends(CreateUserOutcome::ProfileFailed(e)),
                Ok(id) => {
                    self.phase = CreatePhase::AwaitInsert;
                    Next::Ask(
                        StoreOrder::InsertUser {
                            email: self.email.clone(),
                            hashed_password: text_or_empty(&self.hashed),
                            name: copy_opt(&self.name),
                            avatar: copy_opt(&self.avatar),
                            refresh_token: text_or_empty(&self.refresh_token),
                            profile_id: id,
                        },
                    )
                },
            },
            (CreatePhase::AwaitInsert, StoreEvent::Stored(result)) => match result {
                Err(e) => self.ends(CreateUserOutcome::UserFailed(e)),
                Ok(_) => {
                    self.phase = CreatePhase::Done;
                    Next::Respond(
                        crate::auth::CREATED,
                        CreateUserResponse {
                            success: true,
                            message: "User created successfully".to_owned(),
                            refresh_token: Some(text_or_empty(&self.refresh_token)),
                            access_token: Some(text_or_empty(&self.access_token)),
                        },
                    )
                },
            },
            _ => Next::Ignore,
        }
    }
}

/// Tokens are handed out only to a user whose password was accepted or who
/// has just been stored: an answer with tokens comes after the refresh
/// token of the login was sent to the store, or after the new user was
/// stored, and from nowhere else.
pub proof fn lemma_tokens_need_credentials(v: CreateUserStateView, event: StoreEvent)
    requires
        create_decision(v, event).next matches NextView::Respond(status, body) && body.success,
    ensures
        v.phase == CreatePhase::AwaitTokenStored || (v.phase == CreatePhase::AwaitInsert
            && event matches StoreEvent::Stored(Ok(_))),
{
}

} // verus!
