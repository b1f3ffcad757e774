use ws_ide::auth::{
    check_password, CreateUserRequest, CreateUserResponse, LogoutResponse, Mail, PasswordCheck,
    SendTokenResponse, StoreAnswer, VerificationRecord, VerifyEmailResponse,
};
use ws_ide::auth_flow::{
    create_user, hash_password, logout, send_token, verify_email, ExistingUser, MailSettings,
    Next, StoreEvent, StoreOrder, TokenSettings,
};
use ws_ide::token::{create_token, verify_access_token, verify_refresh_token};

const PASSWORD_HASH: &str = "$2a$04$UuTkLRZZ6QofpDOlMz32MuuxEHA43WOemOYHPz6.SjsVsyO1tDU96";

fn s(t: &str) -> String {
    t.to_string()
}

fn user(hash: Option<&str>) -> StoreEvent {
    StoreEvent::User(StoreAnswer::Found(ExistingUser {
        email: Some(s("alice@x.com")),
        hashed_password: hash.map(s),
    }))
}

fn mail_settings() -> MailSettings {
    MailSettings {
        server_url: Some(s("https://ide.example")),
        jwt_secret: Some(s("secret")),
        sender: Some(s("ide@x.com")),
        password: Some(s("app-password")),
    }
}

fn token_settings() -> TokenSettings {
    TokenSettings {
        refresh_secret: Some(s("refresh")),
        access_secret: Some(s("access")),
        now: 1000,
        at: s("2025-05-02T06:42:39+00:00"),
    }
}

fn request(email: &str, password: &str) -> CreateUserRequest {
    CreateUserRequest {
        email: s(email),
        password: s(password),
        name: Some(s("Alice")),
        avatar: None,
    }
}

fn send_failed(message: &str, error: Option<&str>) -> SendTokenResponse {
    SendTokenResponse { success: false, message: s(message), route: None, error: error.map(s) }
}

fn create_refused(message: &str) -> CreateUserResponse {
    CreateUserResponse {
        success: false,
        message: s(message),
        refresh_token: None,
        access_token: None,
    }
}

#[test]
fn logout_clears_the_refresh_token() {
    let (mut flow, next) = logout("alice@x.com");
    assert_eq!(next, Next::Ask(StoreOrder::FindUser(s("alice@x.com"))));
    let next = flow.step(user(None));
    assert_eq!(next, Next::Ask(StoreOrder::ClearRefreshToken(s("alice@x.com"))));
    let next = flow.step(StoreEvent::Stored(Ok(())));
    assert_eq!(
        next,
        Next::Respond(200, LogoutResponse { success: true, message: s("Successfully logged out") })
    );
    assert_eq!(flow.step(StoreEvent::Stored(Ok(()))), Next::Ignore);
}

#[test]
fn logout_failures() {
    let (mut flow, _) = logout("alice@x.com");
    assert_eq!(
        flow.step(StoreEvent::User(StoreAnswer::Missing)),
        Next::Respond(401, LogoutResponse { success: false, message: s("User not found") })
    );
    let (mut flow, _) = logout("alice@x.com");
    assert_eq!(
        flow.step(StoreEvent::User(StoreAnswer::Failed(s("down")))),
        Next::Respond(500, LogoutResponse { success: false, message: s("Database error") })
    );
    let (mut flow, _) = logout("alice@x.com");
    flow.step(user(None));
    assert_eq!(
        flow.step(StoreEvent::Stored(Err(s("ro")))),
        Next::Respond(500, LogoutResponse { success: false, message: s("Failed to update user") })
    );
    let (mut flow, _) = logout("alice@x.com");
    assert_eq!(flow.step(StoreEvent::Stored(Ok(()))), Next::Ignore);
    assert_eq!(flow.step(StoreEvent::MailSent(Ok(()))), Next::Ignore);
}

#[test]
fn verification_link_marks_the_record() {
    let token = create_token("alice@x.com", Some("secret"), 1000).unwrap();
    let (mut flow, next) = verify_email("alice@x.com", &token, Some("secret"), 1500);
    assert_eq!(next, Next::Ask(StoreOrder::FindRecord(s("alice@x.com"))));
    let record = VerificationRecord {
        email: s("alice@x.com"),
        verification_token: Some(token.clone()),
        verified: false,
    };
    let next = flow.step(StoreEvent::Record(StoreAnswer::Found(record)));
    assert_eq!(next, Next::Ask(StoreOrder::MarkVerified(s("alice@x.com"))));
    let next = flow.step(StoreEvent::Stored(Ok(())));
    assert_eq!(
        next,
        Next::Respond(
            200,
            VerifyEmailResponse {
                success: true,
                message: s("Email successfully verified"),
                error: None,
            }
        )
    );
}

#[test]
fn verification_link_with_bad_token_is_refused_at_once() {
    let token = create_token("alice@x.com", Some("secret"), 1000).unwrap();
    let (mut flow, next) = verify_email("alice@x.com", &token, Some("secret"), 1601);
    assert_eq!(
        next,
        Next::Respond(
            400,
            VerifyEmailResponse {
                success: false,
                message: s("Token verification failed"),
                error: Some(s("Token expired")),
            }
        )
    );
    assert_eq!(flow.step(StoreEvent::Record(StoreAnswer::Missing)), Next::Ignore);
    let (_, next) = verify_email("bob@x.com", &token, Some("secret"), 1500);
    match next {
        Next::Respond(400, body) => assert_eq!(body.error, Some(s("Token email mismatch"))),
        other => panic!("unexpected: {:?}", other),
    }
    let (_, next) = verify_email("alice@x.com", &token, None, 1500);
    match next {
        Next::Respond(400, body) => assert_eq!(body.error, Some(s("JWT_SECRET not set"))),
        other => panic!("unexpected: {:?}", other),
    }
}

#[test]
fn verification_link_against_the_record() {
    let token = create_token("alice@x.com", Some("secret"), 1000).unwrap();
    let record = |t: Option<&str>, verified: bool| {
        StoreEvent::Record(StoreAnswer::Found(VerificationRecord {
            email: s("alice@x.com"),
            verification_token: t.map(s),
            verified,
        }))
    };
    let answer = |event: StoreEvent| {
        let (mut flow, _) = verify_email("alice@x.com", &token, Some("secret"), 1500);
        flow.step(event)
    };
    let refused = |status: u16, message: &str, error: Option<&str>| {
        Next::Respond(
            status,
            VerifyEmailResponse { success: false, message: s(message), error: error.map(s) },
        )
    };
    assert_eq!(
        answer(record(Some("other"), false)),
        refused(400, "Invalid token", Some("Token doesn't match our records"))
    );
    assert_eq!(
        answer(record(Some(&token), true)),
        Next::Respond(
            200,
            VerifyEmailResponse {
                success: true,
                message: s("Email already verified"),
                error: None,
            }
        )
    );
    assert_eq!(
        answer(StoreEvent::Record(StoreAnswer::Missing)),
        refused(404, "Email not found in verification records", None)
    );
    assert_eq!(
        answer(StoreEvent::Record(StoreAnswer::Failed(s("down")))),
        refused(500, "Database error", Some("down"))
    );
    let (mut flow, _) = verify_email("alice@x.com", &token, Some("secret"), 1500);
    flow.step(record(Some(&token), false));
    assert_eq!(
        flow.step(StoreEvent::Stored(Err(s("ro")))),
        refused(500, "Failed to update verification status", Some("ro"))
    );
}

#[test]
fn verification_mail_is_sent_then_recorded() {
    let (mut flow, next) = send_token("a b@x.com", mail_settings(), 1000);
    assert_eq!(next, Next::Ask(StoreOrder::FindUser(s("a b@x.com"))));
    let token = create_token("a b@x.com", Some("secret"), 1000).unwrap();
    let next = flow.step(StoreEvent::User(StoreAnswer::Missing));
    assert_eq!(
        next,
        Next::Ask(StoreOrder::SendMail {
            mail: Mail {
                from: s("ide@x.com"),
                to: s("a b@x.com"),
                subject: s("Email Verification"),
                body: format!(
                    "Please verify your email by clicking this link: \
                     https://ide.example/auth/verify/a%20b%40x.com/{}",
                    token
                ),
            },
            relay: s("smtp.gmail.com"),
            username: s("ide@x.com"),
            password: s("app-password"),
        })
    );
    let next = flow.step(StoreEvent::MailSent(Ok(())));
    assert_eq!(next, Next::Ask(StoreOrder::FindRecord(s("a b@x.com"))));
    let next = flow.step(StoreEvent::Record(StoreAnswer::Missing));
    assert_eq!(
        next,
        Next::Ask(StoreOrder::InsertRecord { email: s("a b@x.com"), token: token.clone() })
    );
    let next = flow.step(StoreEvent::Stored(Ok(())));
    assert_eq!(
        next,
        Next::Respond(
            200,
            SendTokenResponse {
                success: true,
                message: s("Verification email sent successfully"),
                route: Some(s("SENT")),
                error: None,
            }
        )
    );
}

#[test]
fn verification_mail_updates_an_existing_record() {
    let (mut flow, _) = send_token("alice@x.com", mail_settings(), 1000);
    let token = create_token("alice@x.com", Some("secret"), 1000).unwrap();
    flow.step(StoreEvent::User(StoreAnswer::Missing));
    flow.step(StoreEvent::MailSent(Ok(())));
    let record = VerificationRecord {
        email: s("alice@x.com"),
        verification_token: None,
        verified: false,
    };
    let next = flow.step(StoreEvent::Record(StoreAnswer::Found(record)));
    assert_eq!(next, Next::Ask(StoreOrder::SetRecordToken { email: s("alice@x.com"), token }));
    assert_eq!(
        flow.step(StoreEvent::Stored(Ok(()))),
        Next::Respond(
            200,
            SendTokenResponse {
                success: true,
                message: s("Verification email updated successfully"),
                route: Some(s("SENT")),
                error: None,
            }
        )
    );
}

#[test]
fn verification_mail_uses_the_default_server() {
    let settings = MailSettings { server_url: None, ..mail_settings() };
    let (mut flow, _) = send_token("alice@x.com", settings, 1000);
    match flow.step(StoreEvent::User(StoreAnswer::Missing)) {
        Next::Ask(StoreOrder::SendMail { mail, .. }) => assert!(mail
            .body
            .starts_with("Please verify your email by clicking this link: http://localhost:3000/auth/verify/alice%40x.com/")),
        other => panic!("unexpected: {:?}", other),
    }
}

#[test]
fn verification_mail_failures() {
    let (_, next) = send_token("", mail_settings(), 1000);
    assert_eq!(next, Next::Respond(404, send_failed("Email not found", None)));

    let (mut flow, _) = send_token("alice@x.com", mail_settings(), 1000);
    assert_eq!(
        flow.step(user(None)),
        Next::Respond(
            200,
            SendTokenResponse {
                success: true,
                message: s("Email already exist"),
                route: Some(s("PASSWORD")),
                error: None,
            }
        )
    );

    let (mut flow, _) = send_token("alice@x.com", mail_settings(), 1000);
    assert_eq!(
        flow.step(StoreEvent::User(StoreAnswer::Failed(s("down")))),
        Next::Respond(500, send_failed("Database error", Some("down")))
    );

    let settings = MailSettings { jwt_secret: None, ..mail_settings() };
    let (mut flow, _) = send_token("alice@x.com", settings, 1000);
    assert_eq!(
        flow.step(StoreEvent::User(StoreAnswer::Missing)),
        Next::Respond(
            500,
            send_failed("Failed to generate token", Some("Token generation failed"))
        )
    );

    let settings = MailSettings { sender: None, ..mail_settings() };
    let (mut flow, _) = send_token("alice@x.com", settings, 1000);
    assert_eq!(
        flow.step(StoreEvent::User(StoreAnswer::Missing)),
        Next::Respond(500, send_failed("Server configuration error", Some("EMAIL not configured")))
    );

    let settings = MailSettings { password: None, ..mail_settings() };
    let (mut flow, _) = send_token("alice@x.com", settings, 1000);
    assert_eq!(
        flow.step(StoreEvent::User(StoreAnswer::Missing)),
        Next::Respond(
            500,
            send_failed("Server configuration error", Some("EMAIL_PASSWORD not configured"))
        )
    );

    let (mut flow, _) = send_token("alice@x.com", mail_settings(), 1000);
    flow.step(StoreEvent::User(StoreAnswer::Missing));
    assert_eq!(
        flow.step(StoreEvent::MailSent(Err(s("relay refused")))),
        Next::Respond(
            500,
            send_failed(
                "Failed to send verification email",
                Some("Email sending error: relay refused")
            )
        )
    );

    let (mut flow, _) = send_token("alice@x.com", mail_settings(), 1000);
    flow.step(StoreEvent::User(StoreAnswer::Missing));
    flow.step(StoreEvent::MailSent(Ok(())));
    assert_eq!(
        flow.step(StoreEvent::Record(StoreAnswer::Failed(s("down")))),
        Next::Respond(500, send_failed("Internal database error", Some("down")))
    );

    let (mut flow, _) = send_token("alice@x.com", mail_settings(), 1000);
    flow.step(StoreEvent::User(StoreAnswer::Missing));
    flow.step(StoreEvent::MailSent(Ok(())));
    flow.step(StoreEvent::Record(StoreAnswer::Missing));
    assert_eq!(
        flow.step(StoreEvent::Stored(Err(s("dup")))),
        Next::Respond(500, send_failed("Failed to insert verification record", Some("dup")))
    );
}

#[test]
fn no_mail_before_the_user_is_looked_up() {
    let (mut flow, _) = send_token("alice@x.com", mail_settings(), 1000);
    assert_eq!(flow.step(StoreEvent::MailSent(Ok(()))), Next::Ignore);
    assert_eq!(flow.step(StoreEvent::Stored(Ok(()))), Next::Ignore);
    assert_eq!(flow.step(StoreEvent::Record(StoreAnswer::Missing)), Next::Ignore);
}

#[test]
fn existing_user_logs_in_with_the_right_password() {
    let (mut flow, next) = create_user(request("alice@x.com", "password"), token_settings());
    assert_eq!(next, Next::Ask(StoreOrder::FindUser(s("alice@x.com"))));
    let next = flow.step(user(Some(PASSWORD_HASH)));
    let refresh = match next {
        Next::Ask(StoreOrder::SetRefreshToken { email, token }) => {
            assert_eq!(email, "alice@x.com");
            token
        }
        other => panic!("unexpected: {:?}", other),
    };
    assert_eq!(
        verify_refresh_token(&refresh, Some("refresh")),
        Some(vec![
            (s("email"), s("alice@x.com")),
            (s("exp"), s("15553000")),
            (s("login_at"), s("2025-05-02T06:42:39+00:00")),
        ])
    );
    let next = flow.step(StoreEvent::Stored(Err(s("ignored"))));
    match next {
        Next::Respond(200, body) => {
            assert!(body.success);
            assert_eq!(body.message, "Login successful");
            assert_eq!(body.refresh_token, Some(refresh));
            let access = body.access_token.unwrap();
            assert_eq!(
                verify_access_token(&access, Some("access")),
                Some(vec![
                    (s("email"), s("alice@x.com")),
                    (s("exp"), s("1900")),
                    (s("login_at"), s("2025-05-02T06:42:39+00:00")),
                ])
            );
        }
        other => panic!("unexpected: {:?}", other),
    }
}

#[test]
fn existing_user_with_wrong_or_missing_password() {
    let (mut flow, _) = create_user(request("alice@x.com", "wrong"), token_settings());
    assert_eq!(
        flow.step(user(Some(PASSWORD_HASH))),
        Next::Respond(401, create_refused("Incorrect password"))
    );
    let (mut flow, _) = create_user(request("alice@x.com", "password"), token_settings());
    assert_eq!(
        flow.step(user(None)),
        Next::Respond(500, create_refused("User exists but no password stored"))
    );
    let (mut flow, _) = create_user(request("alice@x.com", "password"), token_settings());
    assert_eq!(
        flow.step(StoreEvent::User(StoreAnswer::Failed(s("down")))),
        Next::Respond(500, create_refused("Database error: down"))
    );
}

#[test]
fn request_without_credentials_is_refused_at_once() {
    for (email, password) in [("", "pw"), ("a@b", ""), ("", "")] {
        let (mut flow, next) = create_user(request(email, password), token_settings());
        assert_eq!(next, Next::Respond(400, create_refused("Email and password are required")));
        assert_eq!(flow.step(StoreEvent::User(StoreAnswer::Missing)), Next::Ignore);
    }
}

#[test]
fn new_user_is_hashed_stored_and_given_tokens() {
    let (mut flow, _) = create_user(request("alice@x.com", "hunter2"), token_settings());
    let next = flow.step(StoreEvent::User(StoreAnswer::Missing));
    assert_eq!(next, Next::Ask(StoreOrder::HashPassword(s("hunter2"))));
    let next = flow.step(StoreEvent::Hashed(Ok(s("$2b$12$hash"))));
    assert_eq!(
        next,
        Next::Ask(StoreOrder::InsertProfile {
            email: s("alice@x.com"),
            name: Some(s("Alice")),
            avatar: None,
        })
    );
    let next = flow.step(StoreEvent::ProfileInserted(Ok(42)));
    let refresh = match next {
        Next::Ask(StoreOrder::InsertUser {
            email,
            hashed_password,
            name,
            avatar,
            refresh_token,
            profile_id,
        }) => {
            assert_eq!(email, "alice@x.com");
            assert_eq!(hashed_password, "$2b$12$hash");
            assert_eq!(name, Some(s("Alice")));
            assert_eq!(avatar, None);
            assert_eq!(profile_id, 42);
            refresh_token
        }
        other => panic!("unexpected: {:?}", other),
    };
    assert_eq!(
        verify_refresh_token(&refresh, Some("refresh")),
        Some(vec![
            (s("created_at"), s("2025-05-02T06:42:39+00:00")),
            (s("email"), s("alice@x.com")),
            (s("exp"), s("15553000")),
        ])
    );
    match flow.step(StoreEvent::Stored(Ok(()))) {
        Next::Respond(201, body) => {
            assert!(body.success);
            assert_eq!(body.message, "User created successfully");
            assert_eq!(body.refresh_token, Some(refresh));
            assert!(verify_access_token(&body.access_token.unwrap(), Some("access")).is_some());
        }
        other => panic!("unexpected: {:?}", other),
    }
}

#[test]
fn new_user_failures() {
    let begin = |settings: TokenSettings| {
        let (mut flow, _) = create_user(request("alice@x.com", "hunter2"), settings);
        flow.step(StoreEvent::User(StoreAnswer::Missing));
        flow
    };
    let mut flow = begin(token_settings());
    assert_eq!(
        flow.step(StoreEvent::Hashed(Err(s("cost")))),
        Next::Respond(500, create_refused("Password hashing failed: cost"))
    );
    let mut flow = begin(TokenSettings { refresh_secret: None, ..token_settings() });
    assert_eq!(
        flow.step(StoreEvent::Hashed(Ok(s("h")))),
        Next::Respond(500, create_refused("Failed to generate refresh token"))
    );
    let mut flow = begin(TokenSettings { access_secret: None, ..token_settings() });
    assert_eq!(
        flow.step(StoreEvent::Hashed(Ok(s("h")))),
        Next::Respond(500, create_refused("Failed to generate access token"))
    );
    let mut flow = begin(TokenSettings { now: i64::MAX, ..token_settings() });
    assert_eq!(
        flow.step(StoreEvent::Hashed(Ok(s("h")))),
        Next::Respond(500, create_refused("Failed to generate refresh token"))
    );
    let mut flow = begin(token_settings());
    flow.step(StoreEvent::Hashed(Ok(s("h"))));
    assert_eq!(
        flow.step(StoreEvent::ProfileInserted(Err(s("dup")))),
        Next::Respond(500, create_refused("Failed to create profile: dup"))
    );
    let mut flow = begin(token_settings());
    flow.step(StoreEvent::Hashed(Ok(s("h"))));
    flow.step(StoreEvent::ProfileInserted(Ok(1)));
    assert_eq!(
        flow.step(StoreEvent::Stored(Err(s("dup")))),
        Next::Respond(500, create_refused("Failed to create user: dup"))
    );
}

#[test]
fn hashed_password_is_accepted_later() {
    let hash = match hash_password("hunter2") {
        StoreEvent::Hashed(Ok(hash)) => hash,
        other => panic!("unexpected: {:?}", other),
    };
    assert_ne!(hash, "hunter2");
    assert!(hash.starts_with("$2"));
    assert_eq!(check_password(Some(&hash), "hunter2"), PasswordCheck::Accepted);
    assert_eq!(check_password(Some(&hash), "hunter3"), PasswordCheck::Rejected);
}
