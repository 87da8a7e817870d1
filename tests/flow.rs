use rust_auth::flow::{
    logout, process_login_form, process_register_form, register_email_counted, register_inserted,
    register_submit, register_username_counted, show_dashboard, show_login_form,
    show_register_form, login_decide, login_with_record, RegisterStep,
};
use rust_auth::model::{LoginForm, RegisterFormData, User};
use rust_auth::password::{hash_password, hash_password_with_cost, verify_password, HashError};
use rust_auth::response::Response;
use rust_auth::session::SessionState;
use rust_auth::store::{StoreError, UserStore};

fn form(username: &str, email: &str, password: &str, confirm: &str) -> RegisterFormData {
    RegisterFormData {
        username: username.to_string(),
        email: email.to_string(),
        password: password.to_string(),
        password_confirm: confirm.to_string(),
    }
}

fn login(identifier: &str, password: &str) -> LoginForm {
    LoginForm { identifier: identifier.to_string(), password: password.to_string() }
}

fn register_error(r: &Response) -> Option<String> {
    match r {
        Response::RegisterPage { error } => error.clone(),
        _ => None,
    }
}

fn store_with_alice() -> UserStore {
    let mut store = UserStore::new();
    let h = hash_password_with_cost("longpass1", 4).unwrap();
    assert_eq!(store.insert_user("alice", "a@example.com", &h), Ok(()));
    store
}

#[test]
fn full_session_scenario() {
    let mut store = UserStore::new();
    let r = process_register_form(&mut store, &form("alice", "a@example.com", "longpass1", "longpass1"));
    assert!(matches!(r, Response::RedirectToLogin));
    assert_eq!(r.status(), 303);
    assert_eq!(store.len(), 1);
    let mut session = SessionState::new();
    let r = process_login_form(&store, &login("alice", "longpass1"), &mut session);
    assert!(matches!(r, Response::RedirectToDashboard));
    match show_dashboard(&session) {
        Response::DashboardPage { username, welcome_message } => {
            assert_eq!(username, "alice");
            assert!(welcome_message.contains("alice"));
        }
        _ => panic!("dashboard not shown"),
    }
    let r = logout(&mut session);
    assert!(matches!(r, Response::RedirectToLogin));
    assert!(matches!(show_dashboard(&session), Response::RedirectToLogin));
}

#[test]
fn rejected_registration_leaves_store_alone() {
    let mut store = UserStore::new();
    let cases = [
        (form("al", "a@example.com", "longpass1", "longpass1"), "Username must be between 3 and 20 characters long."),
        (form("al ice", "a@example.com", "longpass1", "longpass1"), "Username cannot contain spaces."),
        (form("alice", "a@example.com", "short", "short"), "Password must be at least 8 characters long."),
        (form("alice", "a@example.com", "longpass1", "longpass2"), "Password and confirmation do not match."),
        (form("alice", "a@example", "longpass1", "longpass1"), "Invalid email format."),
    ];
    for (f, message) in cases.iter() {
        let r = process_register_form(&mut store, f);
        assert_eq!(register_error(&r).as_deref(), Some(*message));
        assert_eq!(r.status(), 200);
        assert_eq!(store.len(), 0);
    }
}

#[test]
fn duplicate_username_conflicts() {
    let mut store = store_with_alice();
    let r = process_register_form(&mut store, &form("alice", "other@example.com", "longpass1", "longpass1"));
    assert_eq!(register_error(&r).as_deref(), Some("Username is already taken."));
    assert_eq!(store.len(), 1);
}

#[test]
fn duplicate_email_conflicts() {
    let mut store = store_with_alice();
    let r = process_register_form(&mut store, &form("bob", "a@example.com", "longpass1", "longpass1"));
    assert_eq!(register_error(&r).as_deref(), Some("Email is already registered."));
    assert_eq!(store.len(), 1);
}

#[test]
fn store_refuses_duplicates() {
    let mut store = store_with_alice();
    assert_eq!(store.insert_user("alice", "x@example.com", "h"), Err(StoreError::Conflict));
    assert_eq!(store.insert_user("bob", "a@example.com", "h"), Err(StoreError::Conflict));
    assert_eq!(store.insert_user("bob", "b@example.com", "h"), Ok(()));
    assert_eq!(store.len(), 2);
    assert!(store.exists_username("bob"));
    assert!(!store.exists_username("carol"));
    assert!(store.exists_email("b@example.com"));
    let found = store.find_by_identifier("b@example.com").unwrap();
    assert_eq!(found.username, "bob");
    assert_eq!(found.user_id, 2);
    assert_eq!(store.find_by_identifier("alice").unwrap().user_id, 1);
    assert!(store.find_by_identifier("carol").is_none());
}

#[test]
fn login_by_email() {
    let store = store_with_alice();
    let mut session = SessionState::new();
    let r = process_login_form(&store, &login("a@example.com", "longpass1"), &mut session);
    assert!(matches!(r, Response::RedirectToDashboard));
    assert_eq!(session.identity().as_deref(), Some("alice"));
}

#[test]
fn failed_logins_look_alike() {
    let store = store_with_alice();
    let mut session = SessionState::new();
    let wrong = process_login_form(&store, &login("alice", "wrongpass"), &mut session);
    let unknown = process_login_form(&store, &login("nobody", "longpass1"), &mut session);
    for r in [wrong, unknown].iter() {
        match r {
            Response::LoginPage { error } => assert_eq!(error.as_deref(), Some("Invalid credentials.")),
            _ => panic!("login page expected"),
        }
    }
    assert!(session.identity().is_none());
    assert!(matches!(show_dashboard(&session), Response::RedirectToLogin));
}

#[test]
fn logout_when_anonymous() {
    let mut session = SessionState::new();
    assert!(matches!(logout(&mut session), Response::RedirectToLogin));
    assert!(session.identity().is_none());
    let mut session = SessionState::from_claim(Some("bob".to_string()));
    assert!(matches!(show_dashboard(&session), Response::DashboardPage { .. }));
    logout(&mut session);
    assert!(matches!(show_dashboard(&session), Response::RedirectToLogin));
}

#[test]
fn dashboard_welcome_text() {
    let session = SessionState::from_claim(Some("bob".to_string()));
    match show_dashboard(&session) {
        Response::DashboardPage { username, welcome_message } => {
            assert_eq!(username, "bob");
            assert_eq!(welcome_message, "Welcome to your dashboard, bob!");
        }
        _ => panic!("dashboard expected"),
    }
}

#[test]
fn hash_round_trip() {
    let h = hash_password("longpass1").unwrap();
    assert_ne!(h, "longpass1");
    assert!(h.starts_with("$2b$12$"));
    assert_eq!(h.len(), 60);
    assert!(h[7..].chars().all(|c| c == '.' || c == '/' || c.is_ascii_alphanumeric()));
    assert_eq!(verify_password("longpass1", &h), Ok(true));
}

#[test]
fn hash_carries_its_cost() {
    let h = hash_password_with_cost("longpass1", 4).unwrap();
    assert!(h.starts_with("$2b$04$"));
    assert_eq!(h.len(), 60);
}

#[test]
fn registration_stores_configured_hash() {
    let mut store = UserStore::new();
    let r = process_register_form(&mut store, &form("dave", "d@example.com", "longpass1", "longpass1"));
    assert!(matches!(r, Response::RedirectToLogin));
    let user = store.find_by_identifier("dave").unwrap();
    assert_eq!(user.email, "d@example.com");
    assert_ne!(user.password, "longpass1");
    assert!(user.password.starts_with("$2b$12$"));
    assert_eq!(user.password.len(), 60);
}

#[test]
fn wrong_password_does_not_verify() {
    let h = hash_password_with_cost("longpass1", 4).unwrap();
    assert_eq!(verify_password("longpass2", &h), Ok(false));
    assert_eq!(verify_password("longpass1", &h), Ok(true));
}

#[test]
fn malformed_hash_is_an_error() {
    assert_eq!(verify_password("longpass1", "not a hash"), Err(HashError::Failed));
    let user = User {
        user_id: 1,
        username: "alice".to_string(),
        email: "a@example.com".to_string(),
        password: "not a hash".to_string(),
    };
    let mut session = SessionState::new();
    let r = login_with_record(&login("alice", "longpass1"), Ok(Some(user)), &mut session);
    match r {
        Response::InternalError { message } => assert_eq!(message, "Password verification error"),
        _ => panic!("internal error expected"),
    }
    assert!(session.identity().is_none());
}

#[test]
fn store_failure_on_login() {
    let mut session = SessionState::new();
    let r = login_with_record(&login("alice", "x"), Err(StoreError::Failure), &mut session);
    assert_eq!(r.status(), 500);
}

#[test]
fn login_decide_outcomes() {
    let user = User {
        user_id: 7,
        username: "carol".to_string(),
        email: "c@example.com".to_string(),
        password: "h".to_string(),
    };
    let mut session = SessionState::new();
    assert!(matches!(login_decide(&user, Ok(false), &mut session), Response::LoginPage { .. }));
    assert!(session.identity().is_none());
    assert_eq!(login_decide(&user, Err(HashError::Failed), &mut session).status(), 500);
    assert!(matches!(login_decide(&user, Ok(true), &mut session), Response::RedirectToDashboard));
    assert_eq!(session.identity().as_deref(), Some("carol"));
}

#[test]
fn register_steps() {
    let f = form("alice", "a@example.com", "longpass1", "longpass1");
    match register_submit(&f) {
        RegisterStep::CountUsername(u) => assert_eq!(u, "alice"),
        _ => panic!("username count expected"),
    }
    match register_submit(&form("al", "a@example.com", "longpass1", "longpass1")) {
        RegisterStep::Respond(r) => assert_eq!(register_error(&r).as_deref(), Some("Username must be between 3 and 20 characters long.")),
        _ => panic!("page expected"),
    }
    match register_username_counted(&f, Ok(1)) {
        RegisterStep::Respond(r) => assert_eq!(register_error(&r).as_deref(), Some("Username is already taken.")),
        _ => panic!("page expected"),
    }
    match register_username_counted(&f, Ok(0)) {
        RegisterStep::CountEmail(e) => assert_eq!(e, "a@example.com"),
        _ => panic!("email count expected"),
    }
    match register_username_counted(&f, Err(StoreError::Failure)) {
        RegisterStep::Respond(r) => assert_eq!(r.status(), 500),
        _ => panic!("error expected"),
    }
    match register_email_counted(&f, Ok(2)) {
        RegisterStep::Respond(r) => assert_eq!(register_error(&r).as_deref(), Some("Email is already registered.")),
        _ => panic!("page expected"),
    }
    match register_email_counted(&f, Err(StoreError::Failure)) {
        RegisterStep::Respond(r) => assert_eq!(r.status(), 500),
        _ => panic!("error expected"),
    }
}

#[test]
fn register_insert_outcomes() {
    assert!(matches!(register_inserted(Ok(())), Response::RedirectToLogin));
    assert_eq!(register_error(&register_inserted(Err(StoreError::Conflict))).as_deref(), Some("Username or email is already taken."));
    match register_inserted(Err(StoreError::Failure)) {
        Response::InternalError { message } => assert_eq!(message, "Failed to register user."),
        _ => panic!("error expected"),
    }
}

#[test]
fn form_pages() {
    match show_login_form(Some("oops".to_string())) {
        Response::LoginPage { error } => assert_eq!(error.as_deref(), Some("oops")),
        _ => panic!("login page expected"),
    }
    match show_register_form(None) {
        Response::RegisterPage { error } => assert!(error.is_none()),
        _ => panic!("register page expected"),
    }
}
