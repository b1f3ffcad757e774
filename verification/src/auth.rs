//! The answers of the authentication service: for each request, the status
//! and the body that follow from what the stores and the mailer reported.

use crate::text::{
    chars_of, concat2, opt_text, pair_texts, push_str, same_text, string_of,
};
use vstd::prelude::*;
use vstd::utf8::encode_utf8;

verus! {

/// Status of a request that was served.
pub const OK: u16 = 200;

/// Status of a request that created something.
pub const CREATED: u16 = 201;

/// Status of a request that cannot be understood or accepted.
pub const BAD_REQUEST: u16 = 400;

/// Status of a request without valid credentials.
pub const UNAUTHORIZED: u16 = 401;

/// Status of a request for something unknown.
pub const NOT_FOUND: u16 = 404;

/// Status of a request that failed inside the service.
pub const INTERNAL_SERVER_ERROR: u16 = 500;

/// What a store answered to a lookup.
#[derive(Debug, PartialEq, Eq)]
pub enum StoreAnswer<T> {
    /// The record.
    Found(T),
    /// There is no such record.
    Missing,
    /// The store failed, with its message.
    Failed(String),
}

/// The body of a request that asks whether an address is verified.
#[derive(Debug, PartialEq, Eq)]
pub struct CheckEmailRequest {
    pub email: String,
}

/// The answer on the state of an address.
#[derive(Debug, PartialEq, Eq)]
pub struct EmailVerificationResponse {
    pub success: bool,
    pub message: String,
    pub route: Option<String>,
    pub error: Option<String>,
}

/// The body of a request that creates a user or logs one in.
#[derive(Debug, PartialEq, Eq)]
pub struct CreateUserRequest {
    pub email: String,
    pub password: String,
    pub name: Option<String>,
    pub avatar: Option<String>,
}

/// The answer to such a request.
#[derive(Debug, PartialEq, Eq)]
pub struct CreateUserResponse {
    pub success: bool,
    pub message: String,
    pub refresh_token: Option<String>,
    pub access_token: Option<String>,
}

/// The answer to a logout.
#[derive(Debug, PartialEq, Eq)]
pub struct LogoutResponse {
    pub success: bool,
    pub message: String,
}

/// The body of a request for a verification mail.
#[derive(Debug, PartialEq, Eq)]
pub struct SendOtp {
    pub email: String,
}

/// The answer to a request for a verification mail.
#[derive(Debug, PartialEq, Eq)]
pub struct SendTokenResponse {
    pub success: bool,
    pub message: String,
    pub route: Option<String>,
    pub error: Option<String>,
}

/// The profile of a user.
#[derive(Debug, PartialEq, Eq)]
pub struct Profile {
    pub id: i32,
    pub email: Option<String>,
    pub name: Option<String>,
    pub avatar: Option<String>,
    pub provider: Option<String>,
    pub docker_container_id: Option<String>,
    /// When the profile was created, as the store prints it.
    pub created_at: String,
}

/// The answer to a request for the profile of the caller.
#[derive(Debug, PartialEq, Eq)]
pub struct UserProfileResponse {
    pub success: bool,
    pub user: Option<Profile>,
    pub message: Option<String>,
}

/// The address and the token of a verification link.
#[derive(Debug, PartialEq, Eq)]
pub struct VerifyParams {
    pub email: String,
    pub token: String,
}

/// The answer to a verification link.
#[derive(Debug, PartialEq, Eq)]
pub struct VerifyEmailResponse {
    pub success: bool,
    pub message: String,
    pub error: Option<String>,
}

/// The body with which a request without valid credentials is refused.
#[derive(Debug, PartialEq, Eq)]
pub struct ErrorResponse {
    pub success: bool,
    pub message: String,
}

/// An answer with a route, over plain sequences.
pub struct RoutedView {
    pub success: bool,
    pub message: Seq<char>,
    pub route: Option<Seq<char>>,
    pub error: Option<Seq<char>>,
}

impl View for EmailVerificationResponse {
    type V = RoutedView;

    open spec fn view(&self) -> RoutedView {
        RoutedView {
            success: self.success,
            message: self.message@,
            route: opt_text(self.route),
            error: opt_text(self.error),
        }
    }
}

impl View for SendTokenResponse {
    type V = RoutedView;

    open spec fn view(&self) -> RoutedView {
        RoutedView {
            success: self.success,
            message: self.message@,
            route: opt_text(self.route),
            error: opt_text(self.error),
        }
    }
}

/// The status and the answer for what the store said of an address: a
/// verified address goes on to the password, one that is not verified has
/// its mail sent, an unknown one is not found, and a failure of the store
/// is reported with its message.
pub open spec fn check_email_reply(answer: StoreAnswer<bool>) -> (u16, RoutedView) {
    match answer {
        StoreAnswer::Found(verified) => if verified {
            (
                200u16,
                RoutedView {
                    success: true,
                    message: "Email already verified"@,
                    route: Some("PASSWORD"@),
                    error: None,
                },
            )
        } else {
            (
                200u16,
                RoutedView {
                    success: true,
                    message: "Email not verified"@,
                    route: Some("SENT"@),
                    error: None,
                },
            )
        },
        StoreAnswer::Missing => (
            404u16,
            RoutedView { success: false, message: "User not found"@, route: None, error: None },
        ),
        StoreAnswer::Failed(e) => (
            500u16,
            RoutedView {
                success: false,
                message: "Unable to check email"@,
                route: None,
                error: Some(e@),
            },
        ),
    }
}

/// Answers the question whether an address is verified.
pub fn check_email(answer: StoreAnswer<bool>) -> (r: (u16, EmailVerificationResponse))
    ensures
        (r.0, r.1@) == check_email_reply(answer),
{
    match answer {
        StoreAnswer::Found(verified) => {
            if verified {
                (
                    OK,
                    EmailVerificationResponse {
                        success: true,
                        message: "Email already verified".to_owned(),
                        route: Some("PASSWORD".to_owned()),
                        error: None,
                    },
                )
            } else {
                (
                    OK,
                    EmailVerificationResponse {
                        success: true,
                        message: "Email not verified".to_owned(),
                        route: Some("SENT".to_owned()),
                        error: None,
                    },
                )
            }
        },
        StoreAnswer::Missing => (
            NOT_FOUND,
            EmailVerificationResponse {
                success: false,
                message: "User not found".to_owned(),
                route: None,
                error: None,
            },
        ),
        StoreAnswer::Failed(e) => (
            INTERNAL_SERVER_ERROR,
            EmailVerificationResponse {
                success: false,
                message: "Unable to check email".to_owned(),
                route: None,
                error: Some(e),
            },
        ),
    }
}

/// How a logout went.
#[derive(Debug, PartialEq, Eq)]
pub enum LogoutOutcome {
    /// The refresh token of the user was cleared.
    Cleared,
    /// The user is unknown.
    UserMissing,
    /// The user was found and the update failed, with its message.
    UpdateFailed(String),
    /// The lookup failed, with its message.
    LookupFailed(String),
}

/// An answer that says whether the request succeeded, over plain
/// sequences.
pub struct PlainView {
    pub success: bool,
    pub message: Seq<char>,
}

impl View for LogoutResponse {
    type V = PlainView;

    open spec fn view(&self) -> PlainView {
        PlainView { success: self.success, message: self.message@ }
    }
}

impl View for ErrorResponse {
    type V = PlainView;

    open spec fn view(&self) -> PlainView {
        PlainView { success: self.success, message: self.message@ }
    }
}

/// The status and the answer for a logout.
pub open spec fn logout_reply(outcome: LogoutOutcome) -> (u16, PlainView) {
    match outcome {
        LogoutOutcome::Cleared => (
            200u16,
            PlainView { success: true, message: "Successfully logged out"@ },
        ),
        LogoutOutcome::UserMissing => (
            401u16,
            PlainView { success: false, message: "User not found"@ },
        ),
        LogoutOutcome::UpdateFailed(e) => (
            500u16,
            PlainView { success: false, message: "Failed to update user"@ },
        ),
        LogoutOutcome::LookupFailed(e) => (
            500u16,
            PlainView { success: false, message: "Database error"@ },
        ),
    }
}

/// The answer to a logout that went as `outcome` says.
pub fn logout_response(outcome: &LogoutOutcome) -> (r: (u16, LogoutResponse))
    ensures
        (r.0, r.1@) == logout_reply(*outcome),
{
    match outcome {
        LogoutOutcome::Cleared => (
            OK,
            LogoutResponse { success: true, message: "Successfully logged out".to_owned() },
        ),
        LogoutOutcome::UserMissing => (
            UNAUTHORIZED,
            LogoutResponse { success: false, message: "User not found".to_owned() },
        ),
        LogoutOutcome::UpdateFailed(_) => (
            INTERNAL_SERVER_ERROR,
            LogoutResponse { success: false, message: "Failed to update user".to_owned() },
        ),
        LogoutOutcome::LookupFailed(_) => (
            INTERNAL_SERVER_ERROR,
            LogoutResponse { success: false, message: "Database error".to_owned() },
        ),
    }
}

/// The text of the answer for a store that failed with `message`.
pub open spec fn database_error_text(message: Seq<char>) -> Seq<char> {
    "Database error: "@ + message
}

/// Answers a request for the profile of the caller: the profile where the
/// store has one, not found where it has none, and the message of the
/// store where it failed.
pub fn user_profile(answer: StoreAnswer<Profile>) -> (r: (u16, UserProfileResponse))
    ensures
        match answer {
            StoreAnswer::Found(p) => r.0 == 200 && r.1.success && r.1.user == Some(p)
                && r.1.message is None,
            StoreAnswer::Missing => r.0 == 404 && !r.1.success && r.1.user is None && opt_text(
                r.1.message,
            ) == Some("Profile not found"@),
            StoreAnswer::Failed(e) => r.0 == 500 && !r.1.success && r.1.user is None && opt_text(
                r.1.message,
            ) == Some(database_error_text(e@)),
        },
{
    match answer {
        StoreAnswer::Found(p) => (
            OK,
            UserProfileResponse { success: true, user: Some(p), message: None },
        ),
        StoreAnswer::Missing => (
            NOT_FOUND,
            UserProfileResponse {
                success: false,
                user: None,
                message: Some("Profile not found".to_owned()),
            },
        ),
        StoreAnswer::Failed(e) => (
            INTERNAL_SERVER_ERROR,
            UserProfileResponse {
                success: false,
                user: None,
                message: Some(concat2("Database error: ", e.as_str())),
            },
        ),
    }
}

/// What is held for an address that waits for its verification.
#[derive(Debug, PartialEq, Eq)]
pub struct VerificationRecord {
    pub email: String,
    pub verification_token: Option<String>,
    pub verified: bool,
}

/// What follows from the record of an address when a link is opened.
#[derive(Clone, Copy, Debug, PartialEq, Eq, Structural)]
pub enum RecordCheck {
    /// The token of the link is not the one on record.
    TokenMismatch,
    /// The address is verified already.
    AlreadyVerified,
    /// The record is to be marked verified and its token cleared.
    MarkVerified,
}

/// What follows from `record` for a link that carries `token`. The token is
/// looked at first: a link with another token than the one on record is
/// refused whatever the state of the address.
pub open spec fn record_check(record: VerificationRecord, token: Seq<char>) -> RecordCheck {
    if opt_text(record.verification_token) != Some(token) {
        RecordCheck::TokenMismatch
    } else if record.verified {
        RecordCheck::AlreadyVerified
    } else {
        RecordCheck::MarkVerified
    }
}

/// Decides what a verification link does to the record of its address.
pub fn handle_existing_record(record: &VerificationRecord, token: &str) -> (r: RecordCheck)
    ensures
        r == record_check(*record, token@),
{
    let matches = match &record.verification_token {
        Some(t) => same_text(t.as_str(), token),
        None => false,
    };
    if !matches {
        RecordCheck::TokenMismatch
    } else if record.verified {
        RecordCheck::AlreadyVerified
    } else {
        RecordCheck::MarkVerified
    }
}

/// How the handling of a verification link went.
#[derive(Debug, PartialEq, Eq)]
pub enum VerifyOutcome {
    /// The token is not valid for the address, with the reason.
    TokenRejected(String),
    /// No record is held for the address.
    RecordMissing,
    /// The store failed on the lookup, with its message.
    LookupFailed(String),
    /// The token is not the one on record.
    TokenMismatch,
    /// The address was verified before.
    AlreadyVerified,
    /// The record was marked verified.
    Verified,
    /// Marking the record failed, with the message of the store.
    UpdateFailed(String),
}

/// A `VerifyEmailResponse` over plain sequences.
pub struct VerifyView {
    pub success: bool,
    pub message: Seq<char>,
    pub error: Option<Seq<char>>,
}

impl View for VerifyEmailResponse {
    type V = VerifyView;

    open spec fn view(&self) -> VerifyView {
        VerifyView { success: self.success, message: self.message@, error: opt_text(self.error) }
    }
}

/// The status and the answer for a link whose token is not valid, for the
/// given reason.
pub open spec fn token_rejected_reply(reason: Seq<char>) -> (u16, VerifyView) {
    (
        400u16,
        VerifyView { success: false, message: "Token verification failed"@, error: Some(reason) },
    )
}

/// The status and the answer for a verification link.
pub open spec fn verify_email_reply(outcome: VerifyOutcome) -> (u16, VerifyView) {
    match outcome {
        VerifyOutcome::TokenRejected(reason) => token_rejected_reply(reason@),
        VerifyOutcome::RecordMissing => (
            404u16,
            VerifyView {
                success: false,
                message: "Email not found in verification records"@,
                error: None,
            },
        ),
        VerifyOutcome::LookupFailed(e) => (
            500u16,
            VerifyView { success: false, message: "Database error"@, error: Some(e@) },
        ),
        VerifyOutcome::TokenMismatch => (
            400u16,
            VerifyView {
                success: false,
                message: "Invalid token"@,
                error: Some("Token doesn't match our records"@),
            },
        ),
        VerifyOutcome::AlreadyVerified => (
            200u16,
            VerifyView { success: true, message: "Email already verified"@, error: None },
        ),
        VerifyOutcome::Verified => (
            200u16,
            VerifyView { success: true, message: "Email successfully verified"@, error: None },
        ),
        VerifyOutcome::UpdateFailed(e) => (
            500u16,
            VerifyView {
                success: false,
                message: "Failed to update verification status"@,
                error: Some(e@),
            },
        ),
    }
}

/// The answer to a verification link that went as `outcome` says.
pub fn verify_email_response(outcome: VerifyOutcome) -> (r: (u16, VerifyEmailResponse))
    ensures
        (r.0, r.1@) == verify_email_reply(outcome),
{
    match outcome {
        VerifyOutcome::TokenRejected(reason) => (
            BAD_REQUEST,
            VerifyEmailResponse {
                success: false,
                message: "Token verification failed".to_owned(),
                error: Some(reason),
            },
        ),
        VerifyOutcome::RecordMissing => (
            NOT_FOUND,
            VerifyEmailResponse {
                success: false,
                message: "Email not found in verification records".to_owned(),
                error: None,
            },
        ),
        VerifyOutcome::LookupFailed(e) => (
            INTERNAL_SERVER_ERROR,
            VerifyEmailResponse {
                success: false,
                message: "Database error".to_owned(),
                error: Some(e),
            },
        ),
        VerifyOutcome::TokenMismatch => (
            BAD_REQUEST,
            VerifyEmailResponse {
                success: false,
                message: "Invalid token".to_owned(),
                error: Some("Token doesn't match our records".to_owned()),
            },
        ),
        VerifyOutcome::AlreadyVerified => (
            OK,
            VerifyEmailResponse {
                success: true,
                message: "Email already verified".to_owned(),
                error: None,
            },
        ),
        VerifyOutcome::Verified => (
            OK,
            VerifyEmailResponse {
                success: true,
                message: "Email successfully verified".to_owned(),
                error: None,
            },
        ),
        VerifyOutcome::UpdateFailed(e) => (
            INTERNAL_SERVER_ERROR,
            VerifyEmailResponse {
                success: false,
                message: "Failed to update verification status".to_owned(),
                error: Some(e),
            },
        ),
    }
}

/// A byte that stands for itself in a link: an ASCII letter or digit, `-`,
/// `.`, `_` or `~`.
pub open spec fn is_unreserved(b: u8) -> bool {
    ||| 0x30 <= b <= 0x39
    ||| 0x41 <= b <= 0x5a
    ||| 0x61 <= b <= 0x7a
    ||| b == 0x2d
    ||| b == 0x2e
    ||| b == 0x5f
    ||| b == 0x7e
}

/// One hexadecimal digit, in upper case.
pub open spec fn upper_hex_digit(n: int) -> char {
    if n < 10 {
        ('0' as int + n) as char
    } else {
        ('A' as int + n - 10) as char
    }
}

/// The bytes with every one that does not stand for itself written as `%`
/// and two hexadecimal digits in upper case.
pub open spec fn percent_encoded(bytes: Seq<u8>) -> Seq<char>
    decreases bytes.len(),
{
    if bytes.len() == 0 {
        Seq::empty()
    } else {
        percent_encoded(bytes.drop_last()) + (if is_unreserved(bytes.last()) {
            seq![bytes.last() as char]
        } else {
            seq![
                '%',
                upper_hex_digit(bytes.last() as int / 16),
                upper_hex_digit(bytes.last() as int % 16),
            ]
        })
    }
}

/// `urlencoding::encode`: every byte of the text in UTF-8 is kept where it
/// is an ASCII letter or digit, `-`, `.`, `_` or `~`, and written as `%`
/// and two hexadecimal digits in upper case otherwise.
#[verifier::external_body]
fn url_encode(text: &str) -> (r: String)
    ensures
        r@ == percent_encoded(encode_utf8(text@)),
{
    urlencoding::encode(text).into_owned()
}

/// The link that verifies `email` with `token` on the server at
/// `server_url`.
pub open spec fn verification_link_of(server_url: Seq<char>, email: Seq<char>, token: Seq<char>)
    -> Seq<char> {
    server_url + "/auth/verify/"@ + percent_encoded(encode_utf8(email)) + "/"@ + token
}

/// The link that verifies `email` with `token`.
pub fn verification_link(server_url: &str, email: &str, token: &str) -> (r: String)
    ensures
        r@ == verification_link_of(server_url@, email@, token@),
{
    let encoded = url_encode(email);
    let mut v = chars_of(server_url);
    push_str(&mut v, "/auth/verify/");
    push_str(&mut v, encoded.as_str());
    push_str(&mut v, "/");
    push_str(&mut v, token);
    string_of(&v)
}

/// A mail to send.
#[derive(Debug, PartialEq, Eq)]
pub struct Mail {
    pub from: String,
    pub to: String,
    pub subject: String,
    pub body: String,
}

/// The mail that carries the verification link `link` from `sender` to
/// `email`, as plain text.
pub fn verification_mail(sender: &str, email: &str, link: &str) -> (m: Mail)
    ensures
        m.from@ == sender@,
        m.to@ == email@,
        m.subject@ == "Email Verification"@,
        m.body@ == "Please verify your email by clicking this link: "@ + link@,
{
    Mail {
        from: sender.to_owned(),
        to: email.to_owned(),
        subject: "Email Verification".to_owned(),
        body: concat2("Please verify your email by clicking this link: ", link),
    }
}

/// How a request for a verification mail went.
#[derive(Debug, PartialEq, Eq)]
pub enum SendOutcome {
    /// The request names no address.
    EmptyEmail,
    /// The address belongs to a user.
    UserExists,
    /// The lookup of the user failed, with the message of the store.
    UserLookupFailed(String),
    /// No token could be made.
    TokenFailed,
    /// No sender address is configured.
    SenderMissing,
    /// No password of the sender is configured.
    PasswordMissing,
    /// The mail could not be sent, with the message of the mailer.
    MailFailed(String),
    /// The mail was sent and the record of the address holds the new token.
    RecordUpdated,
    /// The mail was sent and the record could not be updated.
    RecordUpdateFailed(String),
    /// The mail was sent and a record was made for the address.
    RecordInserted,
    /// The mail was sent and no record could be made.
    RecordInsertFailed(String),
    /// The mail was sent and the lookup of the record failed.
    RecordLookupFailed(String),
}

/// An answer without route that reports a failure.
pub open spec fn failed_reply(message: Seq<char>, error: Option<Seq<char>>) -> RoutedView {
    RoutedView { success: false, message, route: None, error }
}

/// The status and the answer for a request for a verification mail.
pub open spec fn send_token_reply(outcome: SendOutcome) -> (u16, RoutedView) {
    match outcome {
        SendOutcome::EmptyEmail => (404u16, failed_reply("Email not found"@, None)),
        SendOutcome::UserExists => (
            200u16,
            RoutedView {
                success: true,
                message: "Email already exist"@,
                route: Some("PASSWORD"@),
                error: None,
            },
        ),
        SendOutcome::UserLookupFailed(e) => (500u16, failed_reply("Database error"@, Some(e@))),
        SendOutcome::TokenFailed => (
            500u16,
            failed_reply("Failed to generate token"@, Some("Token generation failed"@)),
        ),
        SendOutcome::SenderMissing => (
            500u16,
            failed_reply("Server configuration error"@, Some("EMAIL not configured"@)),
        ),
        SendOutcome::PasswordMissing => (
            500u16,
            failed_reply("Server configuration error"@, Some("EMAIL_PASSWORD not configured"@)),
        ),
        SendOutcome::MailFailed(e) => (
            500u16,
            failed_reply(
                "Failed to send verification email"@,
                Some("Email sending error: "@ + e@),
            ),
        ),
        SendOutcome::RecordUpdated => (
            200u16,
            RoutedView {
                success: true,
                message: "Verification email updated successfully"@,
                route: Some("SENT"@),
                error: None,
            },
        ),
        SendOutcome::RecordUpdateFailed(e) => (
            500u16,
            failed_reply("Failed to update verification record"@, Some(e@)),
        ),
        SendOutcome::RecordInserted => (
            200u16,
            RoutedView {
                success: true,
                message: "Verification email sent successfully"@,
                route: Some("SENT"@),
                error: None,
            },
        ),
        SendOutcome::RecordInsertFailed(e) => (
            500u16,
            failed_reply("Failed to insert verification record"@, Some(e@)),
        ),
        SendOutcome::RecordLookupFailed(e) => (
            500u16,
            failed_reply("Internal database error"@, Some(e@)),
        ),
    }
}

/// An answer that reports a failure.
fn send_failed(message: &str, error: Option<String>) -> (r: SendTokenResponse)
    ensures
        r@ == failed_reply(message@, opt_text(error)),
{
    SendTokenResponse { success: false, message: message.to_owned(), route: None, error }
}

/// An answer that reports success and names the next route.
fn send_done(message: &str, route: &str) -> (r: SendTokenResponse)
    ensures
        r@ == (RoutedView {
            success: true,
            message: message@,
            route: Some(route@),
            error: None,
        }),
{
    SendTokenResponse {
        success: true,
        message: message.to_owned(),
        route: Some(route.to_owned()),
        error: None,
    }
}

/// The answer to a request for a verification mail that went as `outcome`
/// says.
pub fn send_token_response(outcome: SendOutcome) -> (r: (u16, SendTokenResponse))
    ensures
        (r.0, r.1@) == send_token_reply(outcome),
{
    match outcome {
        SendOutcome::EmptyEmail => (NOT_FOUND, send_failed("Email not found", None)),
        SendOutcome::UserExists => (OK, send_done("Email already exist", "PASSWORD")),
        SendOutcome::UserLookupFailed(e) => (
            INTERNAL_SERVER_ERROR,
            send_failed("Database error", Some(e)),
        ),
        SendOutcome::TokenFailed => (
            INTERNAL_SERVER_ERROR,
            send_failed("Failed to generate token", Some("Token generation failed".to_owned())),
        ),
        SendOutcome::SenderMissing => (
            INTERNAL_SERVER_ERROR,
            send_failed("Server configuration error", Some("EMAIL not configured".to_owned())),
        ),
        SendOutcome::PasswordMissing => (
            INTERNAL_SERVER_ERROR,
            send_failed(
                "Server configuration error",
                Some("EMAIL_PASSWORD not configured".to_owned()),
            ),
        ),
        SendOutcome::MailFailed(e) => (
            INTERNAL_SERVER_ERROR,
            send_failed(
                "Failed to send verification email",
                Some(concat2("Email sending error: ", e.as_str())),
            ),
        ),
        SendOutcome::RecordUpdated => (
            OK,
            send_done("Verification email updated successfully", "SENT"),
        ),
        SendOutcome::RecordUpdateFailed(e) => (
            INTERNAL_SERVER_ERROR,
            send_failed("Failed to update verification record", Some(e)),
        ),
        SendOutcome::RecordInserted => (
            OK,
            send_done("Verification email sent successfully", "SENT"),
        ),
        SendOutcome::RecordInsertFailed(e) => (
            INTERNAL_SERVER_ERROR,
            send_failed("Failed to insert verification record", Some(e)),
        ),
        SendOutcome::RecordLookupFailed(e) => (
            INTERNAL_SERVER_ERROR,
            send_failed("Internal database error", Some(e)),
        ),
    }
}

/// Whether `bcrypt::verify` accepts `password` for `hash`; `None` where it
/// fails on them.
pub uninterp spec fn bcrypt_accepts(password: Seq<char>, hash: Seq<char>) -> Option<bool>;

/// `bcrypt::verify`. The contract only names the answer: the same password
/// and hash give the same answer, and `None` stands for its error.
#[verifier::external_body]
fn bcrypt_verify(password: &str, hash: &str) -> (r: Option<bool>)
    ensures
        r == bcrypt_accepts(password@, hash@),
{
    bcrypt::verify(password, hash).ok()
}

/// `bcrypt::hash` at the default cost of the crate, with its error as
/// text. The salt is drawn at random, so nothing is claimed of the hash.
#[verifier::external_body]
pub(crate) fn bcrypt_hash(password: &str) -> (r: Result<String, String>) {
    bcrypt::hash(password, bcrypt::DEFAULT_COST).map_err(|e| e.to_string())
}

/// What the password of a request means for a user who exists.
#[derive(Clone, Copy, Debug, PartialEq, Eq, Structural)]
pub enum PasswordCheck {
    /// The password is the one on record: the user is logged in.
    Accepted,
    /// The password is not the one on record.
    Rejected,
    /// No password is on record.
    NoneStored,
}

/// What `password` means against the hash on record: without a hash no
/// password can be checked; with one the password is accepted exactly
/// where `bcrypt` accepts it, and rejected also where `bcrypt` fails.
pub open spec fn password_check(stored_hash: Option<Seq<char>>, password: Seq<char>)
    -> PasswordCheck {
    match stored_hash {
        None => PasswordCheck::NoneStored,
        Some(hash) => if bcrypt_accepts(password, hash) == Some(true) {
            PasswordCheck::Accepted
        } else {
            PasswordCheck::Rejected
        },
    }
}

/// What the answer of `bcrypt` means for a login.
pub fn judge_password(answer: Option<bool>) -> (r: PasswordCheck)
    ensures
        r == (if answer == Some(true) {
            PasswordCheck::Accepted
        } else {
            PasswordCheck::Rejected
        }),
{
    match answer {
        Some(true) => PasswordCheck::Accepted,
        _ => PasswordCheck::Rejected,
    }
}

/// Checks the password of a request against the hash on record.
pub fn check_password(stored_hash: Option<&str>, password: &str) -> (r: PasswordCheck)
    ensures
        r == password_check(
            match stored_hash {
                Some(h) => Some(h@),
                None => None,
            },
            password@,
        ),
{
    match stored_hash {
        None => PasswordCheck::NoneStored,
        Some(hash) => judge_password(bcrypt_verify(password, hash)),
    }
}

/// The payload of the tokens of a user who logs in at the time `at`.
pub fn login_payload(email: &str, at: &str) -> (r: Vec<(String, String)>)
    ensures
        pair_texts(r@) == seq![("email"@, email@), ("login_at"@, at@)],
{
    let mut r: Vec<(String, String)> = Vec::new();
    r.push(("email".to_owned(), email.to_owned()));
    r.push(("login_at".to_owned(), at.to_owned()));
    assert(pair_texts(r@) =~= seq![("email"@, email@), ("login_at"@, at@)]);
    r
}

/// The payload of the tokens of a user who is created at the time `at`.
pub fn signup_payload(email: &str, at: &str) -> (r: Vec<(String, String)>)
    ensures
        pair_texts(r@) == seq![("email"@, email@), ("created_at"@, at@)],
{
    let mut r: Vec<(String, String)> = Vec::new();
    r.push(("email".to_owned(), email.to_owned()));
    r.push(("created_at".to_owned(), at.to_owned()));
    assert(pair_texts(r@) =~= seq![("email"@, email@), ("created_at"@, at@)]);
    r
}

/// Whether a request to create a user can be served at all: it must name
/// an address and a password.
pub fn has_credentials(request: &CreateUserRequest) -> (b: bool)
    ensures
        b == (request.email@.len() > 0 && request.password@.len() > 0),
{
    !request.email.as_str().is_empty() && !request.password.as_str().is_empty()
}

/// How a request to create a user went.
#[derive(Debug, PartialEq, Eq)]
pub enum CreateUserOutcome {
    /// The request lacks the address or the password.
    MissingCredentials,
    /// The lookup of the user failed, with the message of the store.
    LookupFailed(String),
    /// The user exists and the password is right: these are the new tokens.
    LoggedIn { refresh_token: String, access_token: String },
    /// The user exists and the password is wrong.
    WrongPassword,
    /// The user exists and has no password on record.
    NoStoredPassword,
    /// The password could not be hashed, with the words of `bcrypt`.
    HashFailed(String),
    /// No refresh token could be made.
    RefreshTokenFailed,
    /// No access token could be made.
    AccessTokenFailed,
    /// The profile could not be stored, with the message of the store.
    ProfileFailed(String),
    /// The user could not be stored, with the message of the store.
    UserFailed(String),
    /// The user was created: these are the tokens.
    Created { refresh_token: String, access_token: String },
}

/// A `CreateUserResponse` over plain sequences.
pub struct CreateUserView {
    pub success: bool,
    pub message: Seq<char>,
    pub refresh_token: Option<Seq<char>>,
    pub access_token: Option<Seq<char>>,
}

impl View for CreateUserResponse {
    type V = CreateUserView;

    open spec fn view(&self) -> CreateUserView {
        CreateUserView {
            success: self.success,
            message: self.message@,
            refresh_token: opt_text(self.refresh_token),
            access_token: opt_text(self.access_token),
        }
    }
}

/// An answer without tokens.
pub open spec fn refused(message: Seq<char>) -> CreateUserView {
    CreateUserView { success: false, message, refresh_token: None, access_token: None }
}

/// An answer that hands out tokens.
pub open spec fn granted(message: Seq<char>, refresh_token: Seq<char>, access_token: Seq<char>)
    -> CreateUserView {
    CreateUserView {
        success: true,
        message,
        refresh_token: Some(refresh_token),
        access_token: Some(access_token),
    }
}

/// The status and the answer for a user who has logged in.
pub open spec fn logged_in_reply(refresh_token: Seq<char>, access_token: Seq<char>) -> (
    u16,
    CreateUserView,
) {
    (200u16, granted("Login successful"@, refresh_token, access_token))
}

/// The status and the answer for a user who has been created.
pub open spec fn created_reply(refresh_token: Seq<char>, access_token: Seq<char>) -> (
    u16,
    CreateUserView,
) {
    (201u16, granted("User created successfully"@, refresh_token, access_token))
}

/// The status and the answer for a request to create a user.
pub open spec fn create_user_reply(outcome: CreateUserOutcome) -> (u16, CreateUserView) {
    match outcome {
        CreateUserOutcome::MissingCredentials => (
            400u16,
            refused("Email and password are required"@),
        ),
        CreateUserOutcome::LookupFailed(e) => (500u16, refused("Database error: "@ + e@)),
        CreateUserOutcome::LoggedIn { refresh_token, access_token } => logged_in_reply(
            refresh_token@,
            access_token@,
        ),
        CreateUserOutcome::WrongPassword => (401u16, refused("Incorrect password"@)),
        CreateUserOutcome::NoStoredPassword => (
            500u16,
            refused("User exists but no password stored"@),
        ),
        CreateUserOutcome::HashFailed(e) => (500u16, refused("Password hashing failed: "@ + e@)),
        CreateUserOutcome::RefreshTokenFailed => (
            500u16,
            refused("Failed to generate refresh token"@),
        ),
        CreateUserOutcome::AccessTokenFailed => (
            500u16,
            refused("Failed to generate access token"@),
        ),
        CreateUserOutcome::ProfileFailed(e) => (
            500u16,
            refused("Failed to create profile: "@ + e@),
        ),
        CreateUserOutcome::UserFailed(e) => (500u16, refused("Failed to create user: "@ + e@)),
        CreateUserOutcome::Created { refresh_token, access_token } => created_reply(
            refresh_token@,
            access_token@,
        ),
    }
}

/// An answer without tokens.
fn user_refused(message: String) -> (r: CreateUserResponse)
    ensures
        r@ == refused(message@),
{
    CreateUserResponse { success: false, message, refresh_token: None, access_token: None }
}

/// The answer to a request to create a user or to log one in that went as
/// `outcome` says.
pub fn create_user_response(outcome: CreateUserOutcome) -> (r: (u16, CreateUserResponse))
    ensures
        (r.0, r.1@) == create_user_reply(outcome),
{
    match outcome {
        CreateUserOutcome::MissingCredentials => (
            BAD_REQUEST,
            user_refused("Email and password are required".to_owned()),
        ),
        CreateUserOutcome::LookupFailed(e) => (
            INTERNAL_SERVER_ERROR,
            user_refused(concat2("Database error: ", e.as_str())),
        ),
        CreateUserOutcome::LoggedIn { refresh_token, access_token } => (
            OK,
            CreateUserResponse {
                success: true,
                message: "Login successful".to_owned(),
                refresh_token: Some(refresh_token),
                access_token: Some(access_token),
            },
        ),
        CreateUserOutcome::WrongPassword => (
            UNAUTHORIZED,
            user_refused("Incorrect password".to_owned()),
        ),
        CreateUserOutcome::NoStoredPassword => (
            INTERNAL_SERVER_ERROR,
            user_refused("User exists but no password stored".to_owned()),
        ),
        CreateUserOutcome::HashFailed(e) => (
            INTERNAL_SERVER_ERROR,
            user_refused(concat2("Password hashing failed: ", e.as_str())),
        ),
        CreateUserOutcome::RefreshTokenFailed => (
            INTERNAL_SERVER_ERROR,
            user_refused("Failed to generate refresh token".to_owned()),
        ),
        CreateUserOutcome::AccessTokenFailed => (
            INTERNAL_SERVER_ERROR,
            user_refused("Failed to generate access token".to_owned()),
        ),
        CreateUserOutcome::ProfileFailed(e) => (
            INTERNAL_SERVER_ERROR,
            user_refused(concat2("Failed to create profile: ", e.as_str())),
        ),
        CreateUserOutcome::UserFailed(e) => (
            INTERNAL_SERVER_ERROR,
            user_refused(concat2("Failed to create user: ", e.as_str())),
        ),
        CreateUserOutcome::Created { refresh_token, access_token } => (
            CREATED,
            CreateUserResponse {
                success: true,
                message: "User created successfully".to_owned(),
                refresh_token: Some(refresh_token),
                access_token: Some(access_token),
            },
        ),
    }
}

} // verus!
