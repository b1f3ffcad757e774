use ws_ide::auth::{
    check_email, check_password, create_user_response as create_user, handle_existing_record,
    has_credentials, judge_password, login_payload, logout_response as logout,
    send_token_response as send_token, signup_payload, user_profile, verification_link,
    verification_mail, verify_email_response as verify_email, CheckEmailRequest,
    CreateUserOutcome, CreateUserRequest, CreateUserResponse, EmailVerificationResponse,
    ErrorResponse, LogoutOutcome, LogoutResponse, PasswordCheck, Profile, RecordCheck,
    SendOtp, SendOutcome, SendTokenResponse, StoreAnswer, UserProfileResponse,
    VerificationRecord, VerifyEmailResponse, VerifyOutcome, VerifyParams, BAD_REQUEST, CREATED,
    INTERNAL_SERVER_ERROR, NOT_FOUND, OK, UNAUTHORIZED,
};

fn s(t: &str) -> String {
    t.to_string()
}

#[test]
fn status_codes_are_the_usual_ones() {
    assert_eq!((OK, CREATED, BAD_REQUEST), (200, 201, 400));
    assert_eq!((UNAUTHORIZED, NOT_FOUND, INTERNAL_SERVER_ERROR), (401, 404, 500));
}

#[test]
fn requests_hold_their_fields() {
    let c = CheckEmailRequest { email: s("a@b") };
    assert_eq!(c.email, "a@b");
    let o = SendOtp { email: s("a@b") };
    assert_eq!(o.email, "a@b");
    let v = VerifyParams { email: s("a@b"), token: s("t") };
    assert_eq!((v.email.as_str(), v.token.as_str()), ("a@b", "t"));
    let e = ErrorResponse { success: false, message: s("m") };
    assert!(!e.success);
    assert_eq!(e.message, "m");
}

#[test]
fn check_email_answers() {
    assert_eq!(
        check_email(StoreAnswer::Found(true)),
        (
            200,
            EmailVerificationResponse {
                success: true,
                message: s("Email already verified"),
                route: Some(s("PASSWORD")),
                error: None,
            }
        )
    );
    assert_eq!(
        check_email(StoreAnswer::Found(false)),
        (
            200,
            EmailVerificationResponse {
                success: true,
                message: s("Email not verified"),
                route: Some(s("SENT")),
                error: None,
            }
        )
    );
    assert_eq!(
        check_email(StoreAnswer::Missing),
        (
            404,
            EmailVerificationResponse {
                success: false,
                message: s("User not found"),
                route: None,
                error: None,
            }
        )
    );
    assert_eq!(
        check_email(StoreAnswer::Failed(s("down"))),
        (
            500,
            EmailVerificationResponse {
                success: false,
                message: s("Unable to check email"),
                route: None,
                error: Some(s("down")),
            }
        )
    );
}

#[test]
fn logout_answers() {
    let ok = LogoutResponse { success: true, message: s("Successfully logged out") };
    assert_eq!(logout(&LogoutOutcome::Cleared), (200, ok));
    let missing = LogoutResponse { success: false, message: s("User not found") };
    assert_eq!(logout(&LogoutOutcome::UserMissing), (401, missing));
    let update = LogoutResponse { success: false, message: s("Failed to update user") };
    assert_eq!(logout(&LogoutOutcome::UpdateFailed(s("x"))), (500, update));
    let lookup = LogoutResponse { success: false, message: s("Database error") };
    assert_eq!(logout(&LogoutOutcome::LookupFailed(s("x"))), (500, lookup));
}

#[test]
fn user_profile_answers() {
    let p = Profile {
        id: 7,
        email: Some(s("a@b")),
        name: None,
        avatar: None,
        provider: None,
        docker_container_id: Some(s("box")),
        created_at: s("2025-05-02T06:42:39"),
    };
    let (status, body) = user_profile(StoreAnswer::Found(p));
    assert_eq!(status, 200);
    assert!(body.success);
    assert_eq!(body.user.as_ref().unwrap().id, 7);
    assert_eq!(body.user.unwrap().docker_container_id, Some(s("box")));
    assert_eq!(body.message, None);
    assert_eq!(
        user_profile(StoreAnswer::Missing),
        (404, UserProfileResponse { success: false, user: None, message: Some(s("Profile not found")) })
    );
    assert_eq!(
        user_profile(StoreAnswer::Failed(s("down"))),
        (
            500,
            UserProfileResponse {
                success: false,
                user: None,
                message: Some(s("Database error: down")),
            }
        )
    );
}

#[test]
fn record_is_checked_token_first() {
    let rec = |token: Option<&str>, verified: bool| VerificationRecord {
        email: s("a@b"),
        verification_token: token.map(s),
        verified,
    };
    assert_eq!(handle_existing_record(&rec(Some("t"), false), "t"), RecordCheck::MarkVerified);
    assert_eq!(handle_existing_record(&rec(Some("t"), true), "t"), RecordCheck::AlreadyVerified);
    assert_eq!(handle_existing_record(&rec(Some("t"), false), "u"), RecordCheck::TokenMismatch);
    assert_eq!(handle_existing_record(&rec(Some("t"), true), "u"), RecordCheck::TokenMismatch);
    assert_eq!(handle_existing_record(&rec(None, true), "t"), RecordCheck::TokenMismatch);
    assert_eq!(handle_existing_record(&rec(None, false), ""), RecordCheck::TokenMismatch);
}

#[test]
fn verify_email_answers() {
    let r = |success: bool, message: &str, error: Option<&str>| VerifyEmailResponse {
        success,
        message: s(message),
        error: error.map(s),
    };
    assert_eq!(
        verify_email(VerifyOutcome::TokenRejected(s("Token expired"))),
        (400, r(false, "Token verification failed", Some("Token expired")))
    );
    assert_eq!(
        verify_email(VerifyOutcome::RecordMissing),
        (404, r(false, "Email not found in verification records", None))
    );
    assert_eq!(
        verify_email(VerifyOutcome::LookupFailed(s("down"))),
        (500, r(false, "Database error", Some("down")))
    );
    assert_eq!(
        verify_email(VerifyOutcome::TokenMismatch),
        (400, r(false, "Invalid token", Some("Token doesn't match our records")))
    );
    assert_eq!(
        verify_email(VerifyOutcome::AlreadyVerified),
        (200, r(true, "Email already verified", None))
    );
    assert_eq!(
        verify_email(VerifyOutcome::Verified),
        (200, r(true, "Email successfully verified", None))
    );
    assert_eq!(
        verify_email(VerifyOutcome::UpdateFailed(s("ro"))),
        (500, r(false, "Failed to update verification status", Some("ro")))
    );
}

#[test]
fn verification_link_encodes_the_address() {
    assert_eq!(
        verification_link("http://localhost:3000", "a b@x.com", "tok.en"),
        "http://localhost:3000/auth/verify/a%20b%40x.com/tok.en"
    );
    assert_eq!(
        verification_link("https://ide", "Az09-._~", "t"),
        "https://ide/auth/verify/Az09-._~/t"
    );
    assert_eq!(
        verification_link("", "\u{e9}+/", ""),
        "/auth/verify/%C3%A9%2B%2F/"
    );
}

#[test]
fn verification_mail_carries_the_link() {
    let m = verification_mail("ide@x.com", "a@b", "http://l/auth/verify/a%40b/t");
    assert_eq!(m.from, "ide@x.com");
    assert_eq!(m.to, "a@b");
    assert_eq!(m.subject, "Email Verification");
    assert_eq!(
        m.body,
        "Please verify your email by clicking this link: http://l/auth/verify/a%40b/t"
    );
}

#[test]
fn send_token_answers() {
    let fail = |message: &str, error: Option<&str>| SendTokenResponse {
        success: false,
        message: s(message),
        route: None,
        error: error.map(s),
    };
    let done = |message: &str, route: &str| SendTokenResponse {
        success: true,
        message: s(message),
        route: Some(s(route)),
        error: None,
    };
    assert_eq!(send_token(SendOutcome::EmptyEmail), (404, fail("Email not found", None)));
    assert_eq!(send_token(SendOutcome::UserExists), (200, done("Email already exist", "PASSWORD")));
    assert_eq!(
        send_token(SendOutcome::UserLookupFailed(s("down"))),
        (500, fail("Database error", Some("down")))
    );
    assert_eq!(
        send_token(SendOutcome::TokenFailed),
        (500, fail("Failed to generate token", Some("Token generation failed")))
    );
    assert_eq!(
        send_token(SendOutcome::SenderMissing),
        (500, fail("Server configuration error", Some("EMAIL not configured")))
    );
    assert_eq!(
        send_token(SendOutcome::PasswordMissing),
        (500, fail("Server configuration error", Some("EMAIL_PASSWORD not configured")))
    );
    assert_eq!(
        send_token(SendOutcome::MailFailed(s("relay refused"))),
        (
            500,
            fail("Failed to send verification email", Some("Email sending error: relay refused"))
        )
    );
    assert_eq!(
        send_token(SendOutcome::RecordUpdated),
        (200, done("Verification email updated successfully", "SENT"))
    );
    assert_eq!(
        send_token(SendOutcome::RecordUpdateFailed(s("ro"))),
        (500, fail("Failed to update verification record", Some("ro")))
    );
    assert_eq!(
        send_token(SendOutcome::RecordInserted),
        (200, done("Verification email sent successfully", "SENT"))
    );
    assert_eq!(
        send_token(SendOutcome::RecordInsertFailed(s("dup"))),
        (500, fail("Failed to insert verification record", Some("dup")))
    );
    assert_eq!(
        send_token(SendOutcome::RecordLookupFailed(s("down"))),
        (500, fail("Internal database error", Some("down")))
    );
}

#[test]
fn password_is_checked_against_the_hash() {
    let hash = "$2a$04$UuTkLRZZ6QofpDOlMz32MuuxEHA43WOemOYHPz6.SjsVsyO1tDU96";
    assert_eq!(check_password(Some(hash), "password"), PasswordCheck::Accepted);
    assert_eq!(check_password(Some(hash), "Password"), PasswordCheck::Rejected);
    assert_eq!(check_password(Some("not a hash"), "password"), PasswordCheck::Rejected);
    assert_eq!(check_password(Some("password"), "password"), PasswordCheck::Rejected);
    assert_eq!(check_password(None, "password"), PasswordCheck::NoneStored);
}

#[test]
fn answer_of_bcrypt_is_judged() {
    assert_eq!(judge_password(Some(true)), PasswordCheck::Accepted);
    assert_eq!(judge_password(Some(false)), PasswordCheck::Rejected);
    assert_eq!(judge_password(None), PasswordCheck::Rejected);
}

#[test]
fn payloads_name_the_user_and_the_time() {
    assert_eq!(
        login_payload("a@b", "2025-05-02T06:42:39+00:00"),
        vec![(s("email"), s("a@b")), (s("login_at"), s("2025-05-02T06:42:39+00:00"))]
    );
    assert_eq!(
        signup_payload("a@b", "now"),
        vec![(s("email"), s("a@b")), (s("created_at"), s("now"))]
    );
}

#[test]
fn credentials_must_both_be_there() {
    let req = |email: &str, password: &str| CreateUserRequest {
        email: s(email),
        password: s(password),
        name: None,
        avatar: None,
    };
    assert!(has_credentials(&req("a@b", "pw")));
    assert!(!has_credentials(&req("", "pw")));
    assert!(!has_credentials(&req("a@b", "")));
    assert!(!has_credentials(&req("", "")));
}

#[test]
fn create_user_answers() {
    let refused = |message: &str| CreateUserResponse {
        success: false,
        message: s(message),
        refresh_token: None,
        access_token: None,
    };
    let granted = |message: &str| CreateUserResponse {
        success: true,
        message: s(message),
        refresh_token: Some(s("r")),
        access_token: Some(s("a")),
    };
    assert_eq!(
        create_user(CreateUserOutcome::MissingCredentials),
        (400, refused("Email and password are required"))
    );
    assert_eq!(
        create_user(CreateUserOutcome::LookupFailed(s("down"))),
        (500, refused("Database error: down"))
    );
    assert_eq!(
        create_user(CreateUserOutcome::LoggedIn { refresh_token: s("r"), access_token: s("a") }),
        (200, granted("Login successful"))
    );
    assert_eq!(create_user(CreateUserOutcome::WrongPassword), (401, refused("Incorrect password")));
    assert_eq!(
        create_user(CreateUserOutcome::NoStoredPassword),
        (500, refused("User exists but no password stored"))
    );
    assert_eq!(
        create_user(CreateUserOutcome::HashFailed(s("cost"))),
        (500, refused("Password hashing failed: cost"))
    );
    assert_eq!(
        create_user(CreateUserOutcome::RefreshTokenFailed),
        (500, refused("Failed to generate refresh token"))
    );
    assert_eq!(
        create_user(CreateUserOutcome::AccessTokenFailed),
        (500, refused("Failed to generate access token"))
    );
    assert_eq!(
        create_user(CreateUserOutcome::ProfileFailed(s("dup"))),
        (500, refused("Failed to create profile: dup"))
    );
    assert_eq!(
        create_user(CreateUserOutcome::UserFailed(s("dup"))),
        (500, refused("Failed to create user: dup"))
    );
    assert_eq!(
        create_user(CreateUserOutcome::Created { refresh_token: s("r"), access_token: s("a") }),
        (201, granted("User created successfully"))
    );
}
