use identity_server::{
    credentials_accepted, open_login_session, open_login_session_at, create_account_status, hash_password, login_status, persist_plan, process_login, process_login_at,
    verify_password, ConfigHandler, CreateAccountRequest, CreatePlan, CredentialError, EmailConfig, LoginOutcome,
    LoginRequestBody, PasswordRequirements, Session, SessionCache, SessionRecord, User, STATUS_BAD_REQUEST,
    STATUS_INTERNAL_SERVER_ERROR, STATUS_NOT_FOUND, STATUS_OK,
};

fn config(with_email: bool) -> ConfigHandler {
    let email_config = if with_email {
        Some(EmailConfig {
            smtp_username: "mailer".to_string(),
            smtp_password: "smtp-pass".to_string(),
            server_domain: "smtp.example.com".to_string(),
            from_mailbox: "Auth <auth@example.com>".to_string(),
            replay_to_mailbox: "noreply@example.com".to_string(),
            subject: "Verify your email".to_string(),
            header: "Welcome".to_string(),
            body: "Please verify.".to_string(),
        })
    } else {
        None
    };
    ConfigHandler {
        sql_connection_string: "host=localhost user=auth".to_string(),
        server_address: "127.0.0.1".to_string(),
        server_port: 8443,
        cert: "cert.pem".to_string(),
        key: "key.pem".to_string(),
        password_requirments: PasswordRequirements {
            minimum_size: 8,
            maximum_size: 64,
            forbidden_characters: "'\"".to_string(),
        },
        require_email_verification: with_email,
        email_config,
    }
}

fn request(username: &str, password: &str, email: &str) -> CreateAccountRequest {
    CreateAccountRequest { username: username.to_string(), password: password.to_string(), email: email.to_string() }
}

fn user_with_hash(username: &str, password_hash: String) -> User {
    User {
        user_id: 1,
        access_failed_count: 0,
        email: "bob@example.com".to_string(),
        email_confirmed: false,
        lockout_enabled: None,
        lockout_end: None,
        username: username.to_string(),
        password_hash,
        phone_number: None,
        phone_number_confirmed: None,
    }
}

#[test]
fn create_account_without_email_config_persists_and_sends_nothing() {
    let req = request("alice", "s3cure-passw0rd", "alice@example.com");
    let plan = req.process_request(&config(false));
    match &plan {
        CreatePlan::Persist { password_hash, send_verification } => {
            assert!(!send_verification);
            assert_ne!(password_hash, &req.password);
            assert_eq!(verify_password(&req.password, password_hash), Ok(true));
        },
        _ => panic!("expected the account to be stored"),
    }
    assert_eq!(create_account_status(Some(&plan), true), STATUS_OK);
}

#[test]
fn create_account_with_email_config_also_sends_verification() {
    let plan = request("alice", "s3cure-passw0rd", "alice@example.com").process_request(&config(true));
    assert!(matches!(plan, CreatePlan::Persist { send_verification: true, .. }));
}

#[test]
fn create_account_malformed_json_is_bad_request() {
    assert_eq!(create_account_status(None, false), STATUS_BAD_REQUEST);
}

#[test]
fn create_account_with_invalid_mailbox_is_malformed() {
    let plan = request("alice", "s3cure-passw0rd", "not an address").process_request(&config(false));
    assert!(matches!(plan, CreatePlan::Malformed));
    assert_eq!(create_account_status(Some(&plan), false), STATUS_BAD_REQUEST);
}

#[test]
fn create_account_with_weak_password_stores_nothing() {
    let plan = request("alice", "short", "alice@example.com").process_request(&config(true));
    assert!(matches!(plan, CreatePlan::PolicyRejected));
    assert_eq!(create_account_status(Some(&plan), false), STATUS_BAD_REQUEST);
    let plan = request("alice", "has'quote-inside", "alice@example.com").process_request(&config(true));
    assert!(matches!(plan, CreatePlan::PolicyRejected));
    assert_eq!(create_account_status(Some(&plan), false), STATUS_BAD_REQUEST);
}

#[test]
fn create_account_persist_failure_is_internal_error() {
    let plan = request("alice", "s3cure-passw0rd", "alice@example.com").process_request(&config(false));
    assert_eq!(create_account_status(Some(&plan), false), STATUS_INTERNAL_SERVER_ERROR);
    assert_eq!(create_account_status(Some(&CreatePlan::HashFailed), true), STATUS_INTERNAL_SERVER_ERROR);
}

#[test]
fn login_unknown_user_looks_like_wrong_password() {
    let mut cache = SessionCache::new();
    let login = LoginRequestBody { username: "nobody".to_string(), password: "whatever-pass".to_string() };
    let unknown = process_login(&mut cache, &login, None, 1_000);
    let stored = user_with_hash("nobody", hash_password(&"another-pass".to_string()).unwrap());
    let wrong = process_login(&mut cache, &login, Some(&stored), 1_000);
    assert!(matches!(unknown, LoginOutcome::Rejected));
    assert!(matches!(wrong, LoginOutcome::Rejected));
    assert_eq!(login_status(Some(&unknown)), login_status(Some(&wrong)));
    assert_eq!(login_status(Some(&wrong)), STATUS_NOT_FOUND);
    assert_eq!(cache.len(), 0);
}

#[test]
fn login_with_unreadable_hash_is_rejected() {
    let mut cache = SessionCache::new();
    let login = LoginRequestBody { username: "bob".to_string(), password: "pw-of-bob".to_string() };
    let stored = user_with_hash("bob", "plaintext".to_string());
    assert!(matches!(process_login(&mut cache, &login, Some(&stored), 1_000), LoginOutcome::Rejected));
}

#[test]
fn login_success_opens_a_session() {
    let mut cache = SessionCache::new();
    let login = LoginRequestBody { username: "bob".to_string(), password: "pw-of-bob".to_string() };
    let stored = user_with_hash("bob", hash_password(&login.password).unwrap());
    let outcome = process_login(&mut cache, &login, Some(&stored), 1_000);
    match &outcome {
        LoginOutcome::Authenticated(session) => {
            assert!(cache.contains(session.session_id));
            assert_eq!(cache.len(), 1);
        },
        _ => panic!("expected a session"),
    }
    assert_eq!(login_status(Some(&outcome)), STATUS_OK);
}

#[test]
fn login_malformed_json_is_bad_request() {
    assert_eq!(login_status(None), STATUS_BAD_REQUEST);
}

#[test]
fn persist_plan_follows_the_hash_result() {
    match persist_plan(Ok("$argon2id$stub".to_string()), true) {
        CreatePlan::Persist { password_hash, send_verification } => {
            assert_eq!(password_hash, "$argon2id$stub");
            assert!(send_verification);
        },
        _ => panic!("expected the account to be stored"),
    }
    assert!(matches!(persist_plan(Err(CredentialError::HashFailed), false), CreatePlan::HashFailed));
}

#[test]
fn login_at_opens_the_given_session() {
    let mut cache = SessionCache::new();
    let login = LoginRequestBody { username: "carol".to_string(), password: "pw-of-carol".to_string() };
    let stored = user_with_hash("carol", hash_password(&login.password).unwrap());
    let outcome = process_login_at(&mut cache, &login, Some(&stored), 42, 4242, 1_000);
    assert!(matches!(outcome, LoginOutcome::Authenticated(Session { session_id: 42, created_at: 1_000 })));
    assert_eq!(cache.lookup(42), Some(SessionRecord { session_id: 42, auth_code: 4242, created_at: 1_000 }));
    let again = process_login_at(&mut cache, &login, Some(&stored), 42, 1, 2_000);
    assert!(matches!(again, LoginOutcome::SessionUnavailable));
    assert_eq!(login_status(Some(&again)), STATUS_INTERNAL_SERVER_ERROR);
    assert_eq!(cache.len(), 1);
    let wrong = LoginRequestBody { username: "carol".to_string(), password: "not-carols".to_string() };
    assert!(matches!(process_login_at(&mut cache, &wrong, Some(&stored), 43, 1, 2_000), LoginOutcome::Rejected));
    assert!(!cache.contains(43));
}

#[test]
fn credentials_are_checked_without_a_cache() {
    let login = LoginRequestBody { username: "dave".to_string(), password: "pw-of-dave".to_string() };
    let stored = user_with_hash("dave", hash_password(&login.password).unwrap());
    assert!(credentials_accepted(&login, Some(&stored)));
    assert!(!credentials_accepted(&login, None));
    let other = user_with_hash("dave", hash_password(&"not-daves".to_string()).unwrap());
    assert!(!credentials_accepted(&login, Some(&other)));
    assert!(!credentials_accepted(&login, Some(&user_with_hash("dave", "garbage".to_string()))));
}

#[test]
fn open_login_session_follows_the_verdict() {
    let mut cache = SessionCache::new();
    assert!(matches!(open_login_session_at(&mut cache, false, 5, 50, 10), LoginOutcome::Rejected));
    assert_eq!(cache.len(), 0);
    let r = open_login_session_at(&mut cache, true, 5, 50, 10);
    assert!(matches!(r, LoginOutcome::Authenticated(Session { session_id: 5, created_at: 10 })));
    assert_eq!(cache.lookup(5), Some(SessionRecord { session_id: 5, auth_code: 50, created_at: 10 }));
    assert!(matches!(open_login_session_at(&mut cache, true, 5, 51, 11), LoginOutcome::SessionUnavailable));
    match open_login_session(&mut cache, true, 20) {
        LoginOutcome::Authenticated(s) => {
            assert_ne!(s.session_id, 5);
            assert_eq!(s.created_at, 20);
            assert_eq!(cache.len(), 2);
        },
        _ => panic!("expected a session"),
    }
    assert!(matches!(open_login_session(&mut cache, false, 20), LoginOutcome::Rejected));
}

#[test]
fn configured_mailboxes_are_checked() {
    let mut c = config(true).email_config.unwrap();
    assert!(c.mailboxes_valid());
    c.replay_to_mailbox = "no at sign".to_string();
    assert!(!c.mailboxes_valid());
}
