use blog_auth::{
    ApiError, ClaimsFG, CodeEmailPayload, ControllerUser, EmailPayload, ErrorKind,
    HelperMiddlewareToken, LoginRequest, ModelUser, Role, UpdatePasswordPayload, User,
    UserPassword, UserRequest, UserRequestLoginSchema, UserRequestRegister,
    UserRequestRegisterSchema,
};

const SECRET: &[u8] = b"test-signing-secret";

fn store() -> ModelUser {
    ModelUser::with_cost(4)
}

fn registration(name: &str, email: &str, password: &str) -> UserRequestRegister {
    UserRequestRegister {
        user: UserRequestRegisterSchema {
            name: name.to_string(),
            email: email.to_string(),
            password: password.to_string(),
        },
    }
}

fn login_request(email: &str, password: &str) -> LoginRequest {
    LoginRequest {
        user: UserRequestLoginSchema { email: email.to_string(), password: password.to_string() },
    }
}

fn code_payload(email: &str, code: &str) -> CodeEmailPayload {
    CodeEmailPayload { code: code.to_string(), email: email.to_string() }
}

fn email_payload(email: &str) -> EmailPayload {
    EmailPayload { email: email.to_string() }
}

#[test]
fn example_scenario_register_login_session() {
    let mut s = store();
    let codec = HelperMiddlewareToken::new(SECRET);
    let id = ControllerUser::register_user(&mut s, &registration("Ana", "ana@x.com", "secret1"))
        .expect("registration succeeds");
    assert_eq!(id, 1);

    let wrong = ControllerUser::login(&s, &codec, &login_request("ana@x.com", "wrong"));
    let err = wrong.err().expect("wrong password is refused");
    assert_eq!(err, ApiError::InvalidCredentials);
    assert_eq!(err.status_code(), 401);

    let ok = ControllerUser::login(&s, &codec, &login_request("ana@x.com", "secret1"))
        .expect("correct password logs in");
    assert!(!ok.token.is_empty());
    assert_eq!(ok.user_id, id);

    let header = format!("Bearer {}", ok.token);
    let claims = codec.verify_token(Some(header.as_str()), "/user/session").expect("session allowed");
    let me = ControllerUser::get_me(&claims);
    assert_eq!(me.sub, "ana@x.com");
    assert_eq!(me.role, Some(Role::User));
    assert_eq!(me.user_id, Some(id));

    let missing = codec.verify_token(None, "/user/session").err().expect("no header is refused");
    assert_eq!(missing, ApiError::MissingToken);
    assert_eq!(missing.status_code(), 401);
}

#[test]
fn second_registration_with_same_email_fails() {
    let mut s = store();
    ControllerUser::register_user(&mut s, &registration("Ana", "ana@x.com", "secret1")).unwrap();
    let again = ControllerUser::register_user(&mut s, &registration("Other", "ana@x.com", "pw"));
    assert_eq!(again, Err(ApiError::EmailTaken));
    assert_eq!(ApiError::EmailTaken.kind(), ErrorKind::Validation);
    assert_eq!(s.len(), 1);
    let direct = s.insert_user(&registration("Third", "ana@x.com", "pw"));
    assert_eq!(direct, Err(ApiError::EmailTaken));
    assert_eq!(s.len(), 1);
}

#[test]
fn registered_pair_logs_in_with_subject_email() {
    let mut s = store();
    let codec = HelperMiddlewareToken::new(SECRET);
    ControllerUser::register_user(&mut s, &registration("Bo", "bo@y.org", "pw-bo")).unwrap();
    ControllerUser::register_user(&mut s, &registration("Cy", "cy@y.org", "pw-cy")).unwrap();
    let resp = s.auth_user(&codec, &login_request("cy@y.org", "pw-cy"), 1_000).unwrap();
    assert_eq!(resp.user_id, 2);
    let claims = codec.parse(&resp.token, 1_000).expect("fresh token parses");
    assert_eq!(claims.sub, "cy@y.org");
    assert_eq!(claims.exp, 1_000 + 86_400);
    assert_eq!(claims.iat, 1_000);
}

#[test]
fn unknown_email_and_wrong_password_fail_alike() {
    let mut s = store();
    let codec = HelperMiddlewareToken::new(SECRET);
    ControllerUser::register_user(&mut s, &registration("Ana", "ana@x.com", "secret1")).unwrap();
    let unknown = s.auth_user(&codec, &login_request("nobody@x.com", "secret1"), 10).err().unwrap();
    let wrong = s.auth_user(&codec, &login_request("ana@x.com", "secret2"), 10).err().unwrap();
    assert_eq!(unknown, wrong);
    assert_eq!(unknown.message(), wrong.message());

    let code = ControllerUser::fg_send_code_to_email_at(&mut s, &email_payload("ana@x.com"), 100).unwrap();
    let bad = if code == "00AAA" { "11BBB" } else { "00AAA" };
    let unknown_code =
        ControllerUser::fg_check_code_at(&mut s, &codec, &code_payload("nobody@x.com", &code), 100).err().unwrap();
    let wrong_code =
        ControllerUser::fg_check_code_at(&mut s, &codec, &code_payload("ana@x.com", bad), 100).err().unwrap();
    assert_eq!(unknown_code, ApiError::EmailNotRegistered);
    assert_eq!(wrong_code, ApiError::InvalidCode);
    assert_eq!(unknown_code.kind(), wrong_code.kind());
    assert_eq!(unknown_code.status_code(), 400);
}

#[test]
fn recovery_code_passes_once() {
    let mut s = store();
    let codec = HelperMiddlewareToken::new(SECRET);
    ControllerUser::register_user(&mut s, &registration("Ana", "ana@x.com", "secret1")).unwrap();
    let code = ControllerUser::fg_send_code_to_email_at(&mut s, &email_payload("ana@x.com"), 5_000).unwrap();
    let pending = s.get_user_by_email("ana@x.com").unwrap();
    let rec = pending.recovery.expect("code pending");
    assert_eq!(rec.expires_at, 5_000 + 900);
    assert_ne!(rec.code_hash, code);

    let token = ControllerUser::fg_check_code_at(&mut s, &codec, &code_payload("ana@x.com", &code), 5_900)
        .expect("fresh code passes");
    let claims = codec.parse(&token, 5_900).expect("recovery token parses");
    assert_eq!(claims.sub, "ana@x.com");
    assert_eq!(claims.role, None);
    assert_eq!(claims.user_id, None);
    assert_eq!(claims.exp, 5_900 + 300);
    assert!(s.get_user_by_email("ana@x.com").unwrap().recovery.is_none());

    let again = ControllerUser::fg_check_code_at(&mut s, &codec, &code_payload("ana@x.com", &code), 5_901);
    assert_eq!(again, Err(ApiError::NoCodePending));
}

#[test]
fn expired_code_fails_and_stays_pending() {
    let mut s = store();
    let codec = HelperMiddlewareToken::new(SECRET);
    ControllerUser::register_user(&mut s, &registration("Ana", "ana@x.com", "secret1")).unwrap();
    let code = ControllerUser::fg_send_code_to_email_at(&mut s, &email_payload("ana@x.com"), 0).unwrap();
    let late = ControllerUser::fg_check_code_at(&mut s, &codec, &code_payload("ana@x.com", &code), 901);
    assert_eq!(late, Err(ApiError::CodeExpired));
    assert_eq!(ApiError::CodeExpired.message(), "code expired");
    let rec = s.get_user_by_email("ana@x.com").unwrap().recovery.expect("still pending");
    assert_eq!(rec.expires_at, 900);

    let fresh = ControllerUser::fg_send_code_to_email_at(&mut s, &email_payload("ana@x.com"), 1_000).unwrap();
    let rec2 = s.get_user_by_email("ana@x.com").unwrap().recovery.unwrap();
    assert_eq!(rec2.expires_at, 1_900);
    assert!(ControllerUser::fg_check_code_at(&mut s, &codec, &code_payload("ana@x.com", &fresh), 1_900).is_ok());
}

#[test]
fn no_pending_code_and_unknown_email_on_request() {
    let mut s = store();
    let codec = HelperMiddlewareToken::new(SECRET);
    ControllerUser::register_user(&mut s, &registration("Ana", "ana@x.com", "secret1")).unwrap();
    let none = ControllerUser::fg_check_code_at(&mut s, &codec, &code_payload("ana@x.com", "12ABC"), 0);
    assert_eq!(none, Err(ApiError::NoCodePending));
    let unknown = ControllerUser::fg_send_code_to_email_at(&mut s, &email_payload("x@y.z"), 0);
    assert_eq!(unknown, Err(ApiError::EmailNotRegistered));
    assert_eq!(s.fg_verify_email_already_exists("x@y.z").err(), Some(ApiError::EmailNotRegistered));
}

#[test]
fn new_password_replaces_old_one() {
    let mut s = store();
    let codec = HelperMiddlewareToken::new(SECRET);
    ControllerUser::register_user(&mut s, &registration("Ana", "ana@x.com", "secret1")).unwrap();
    let code = ControllerUser::fg_send_code_to_email_at(&mut s, &email_payload("ana@x.com"), 0).unwrap();
    let token = ControllerUser::fg_check_code_at(&mut s, &codec, &code_payload("ana@x.com", &code), 1).unwrap();
    let claims = codec.authorize(Some(token.as_str()), "/user/fg/update/password", 2).unwrap();
    let payload = UpdatePasswordPayload { password: "brand-new".to_string() };
    ControllerUser::fg_update_user_password(&mut s, &claims, &payload).unwrap();
    assert!(s.auth_user(&codec, &login_request("ana@x.com", "secret1"), 3).is_err());
    assert!(s.auth_user(&codec, &login_request("ana@x.com", "brand-new"), 3).is_ok());

    let other = UserPassword { email: "nobody@x.com".to_string(), password: "p".to_string() };
    assert_eq!(s.fg_update_user_password(&other), Ok(()));
    assert_eq!(s.len(), 1);
}

#[test]
fn stored_code_can_be_set_and_cleared_by_id() {
    let mut s = store();
    let id = ControllerUser::register_user(&mut s, &registration("Ana", "ana@x.com", "secret1")).unwrap();
    s.update_user_code(id, "digest", 77);
    let rec = s.get_user_by_email("ana@x.com").unwrap().recovery.unwrap();
    assert_eq!(rec.code_hash, "digest");
    assert_eq!(rec.expires_at, 77);
    s.clear_code(id);
    assert!(s.get_user_by_email("ana@x.com").unwrap().recovery.is_none());
    assert_eq!(s.verify_email_already_exists("ana@x.com"), Err(ApiError::EmailTaken));
    assert_eq!(s.verify_email_already_exists("bo@x.com"), Ok(()));
}

#[test]
fn loaded_records_keep_emails_and_ids_unique() {
    let mut s = store();
    let rec = |id: i64, email: &str| UserRequest {
        user: User {
            id,
            name: "N".to_string(),
            email: email.to_string(),
            password: "$2b$04$invalid".to_string(),
            role: Role::Admin,
            recovery: None,
        },
    };
    assert!(s.load_user(rec(7, "a@x.com")));
    assert!(!s.load_user(rec(8, "a@x.com")));
    assert!(!s.load_user(rec(7, "b@x.com")));
    assert!(!s.load_user(rec(i64::MAX, "c@x.com")));
    assert_eq!(s.len(), 1);
    let id = ControllerUser::register_user(&mut s, &registration("B", "b@x.com", "pw")).unwrap();
    assert_eq!(id, 8);
    let codec = HelperMiddlewareToken::new(SECRET);
    assert_eq!(
        s.auth_user(&codec, &login_request("a@x.com", "anything"), 0).err(),
        Some(ApiError::InvalidCredentials)
    );
}

#[test]
fn recovery_claims_have_no_role() {
    let fg = ClaimsFG { sub: "a@b.c".to_string(), exp: 10, iat: 5 };
    let c = fg.to_claims();
    assert_eq!(c.sub, "a@b.c");
    assert_eq!(c.role, None);
    assert_eq!(c.user_id, None);
    assert_eq!((c.exp, c.iat), (10, 5));
}

#[test]
fn clock_based_flows_run() {
    let mut s = store();
    let codec = HelperMiddlewareToken::new(SECRET);
    ControllerUser::register_user(&mut s, &registration("Ana", "ana@x.com", "secret1")).unwrap();
    let code = ControllerUser::fg_send_code_to_email(&mut s, &email_payload("ana@x.com")).unwrap();
    let token = ControllerUser::fg_check_code(&mut s, &codec, &code_payload("ana@x.com", &code)).unwrap();
    let claims = codec.verify_token(Some(token.as_str()), "/user/session").unwrap();
    assert_eq!(claims.sub, "ana@x.com");
    assert!(claims.exp > 1_600_000_000);
}

#[test]
fn records_are_listed_in_order() {
    let mut s = store();
    assert_eq!(s.hash_cost(), 4);
    assert_eq!(ModelUser::new().hash_cost(), 12);
    ControllerUser::register_user(&mut s, &registration("Ana", "ana@x.com", "secret1")).unwrap();
    ControllerUser::register_user(&mut s, &registration("Bo", "bo@x.com", "secret2")).unwrap();
    let users = s.users();
    assert_eq!(users.len(), 2);
    assert_eq!(users[0].email, "ana@x.com");
    assert_eq!(users[1].name, "Bo");
    assert_eq!(users[1].role, Role::User);
    assert!(users[1].recovery.is_none());
    assert!(blog_auth::password::verify_password("secret2", &users[1].password));
}

#[test]
fn store_steps_that_take_outside_results() {
    let mut s = store();
    let reg = registration("Ana", "ana@x.com", "ignored");
    assert_eq!(s.insert_user_with_digest(&reg, "digest-1".to_string()), Ok(1));
    assert_eq!(s.insert_user_with_digest(&reg, "digest-2".to_string()), Err(ApiError::EmailTaken));
    assert_eq!(s.users()[0].password, "digest-1");
    s.update_password_digest("ana@x.com", "digest-3".to_string());
    assert_eq!(s.users()[0].password, "digest-3");
    s.update_password_digest("bo@x.com", "digest-4".to_string());
    assert_eq!(s.len(), 1);
    assert_eq!(s.users()[0].password, "digest-3");
}

#[test]
fn credentials_and_code_consumption_steps() {
    let mut s = store();
    let id = ControllerUser::register_user(&mut s, &registration("Ana", "ana@x.com", "secret1")).unwrap();
    assert_eq!(s.check_credentials(&login_request("ana@x.com", "secret1")), Ok((id, Role::User)));
    assert_eq!(s.check_credentials(&login_request("ana@x.com", "nope")), Err(ApiError::InvalidCredentials));
    assert_eq!(s.check_credentials(&login_request("x@x.com", "secret1")), Err(ApiError::InvalidCredentials));

    let code = ControllerUser::fg_send_code_to_email_at(&mut s, &email_payload("ana@x.com"), 50).unwrap();
    assert_eq!(ControllerUser::consume_code_at(&mut s, &code_payload("ana@x.com", &code), 951), Err(ApiError::CodeExpired));
    assert!(s.get_user_by_email("ana@x.com").unwrap().recovery.is_some());
    assert_eq!(ControllerUser::consume_code_at(&mut s, &code_payload("ana@x.com", &code), 950), Ok(()));
    assert!(s.get_user_by_email("ana@x.com").unwrap().recovery.is_none());
    assert_eq!(ControllerUser::consume_code_at(&mut s, &code_payload("ana@x.com", &code), 950), Err(ApiError::NoCodePending));
}
