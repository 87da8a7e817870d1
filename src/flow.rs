use vstd::prelude::*;
use crate::model::{LoginForm, RegisterFormData, RegisterFormView, User, UserView};
use crate::password::{
    bcrypt_form, bcrypt_verdict, hash_password, verdict_result, verify_password, HashError,
    HASH_COST,
};
use crate::response::{Response, ResponseView};
use crate::session::{opt_view, SessionState};
use crate::text::same_text;
use crate::store::{
    find_in, has_email, has_username, new_user, StoreError, UserStore, MAX_USERS,
};
use crate::validate::{form_error_message, registration_check, validate_registration};

verus! {

pub open spec fn username_taken_message() -> Seq<char> {
    "Username is already taken."@
}

pub open spec fn email_taken_message() -> Seq<char> {
    "Email is already registered."@
}

pub open spec fn account_taken_message() -> Seq<char> {
    "Username or email is already taken."@
}

pub open spec fn invalid_credentials_message() -> Seq<char> {
    "Invalid credentials."@
}

pub open spec fn query_error_message() -> Seq<char> {
    "Database query error"@
}

pub open spec fn hashing_error_message() -> Seq<char> {
    "Error hashing password"@
}

pub open spec fn insert_error_message() -> Seq<char> {
    "Failed to register user."@
}

pub open spec fn verification_error_message() -> Seq<char> {
    "Password verification error"@
}

pub open spec fn welcome_text(username: Seq<char>) -> Seq<char> {
    "Welcome to your dashboard, "@ + username + "!"@
}

/// The registration page showing `message`.
pub open spec fn register_page(message: Seq<char>) -> ResponseView {
    ResponseView::RegisterPage { error: Some(message) }
}

/// Why a registration against `users` is turned back, if it is: a broken form
/// rule first, then a username, then an email already held.
pub open spec fn register_rejection(users: Seq<UserView>, f: RegisterFormView) -> Option<
    Seq<char>,
> {
    match registration_check(f) {
        Err(e) => Some(form_error_message(e)),
        Ok(_) => if has_username(users, f.username) {
            Some(username_taken_message())
        } else if has_email(users, f.email) {
            Some(email_taken_message())
        } else {
            None
        },
    }
}

/// The answer to a login for the `record` found by the identifier: the
/// response and the session's claim afterwards.
pub open spec fn login_outcome(
    record: Option<UserView>,
    password: Seq<char>,
    session: Option<Seq<char>>,
) -> (ResponseView, Option<Seq<char>>) {
    match record {
        None => (ResponseView::LoginPage { error: Some(invalid_credentials_message()) }, session),
        Some(u) => match verdict_result(bcrypt_verdict(password, u.password)) {
            Ok(true) => (ResponseView::RedirectToDashboard, Some(u.username)),
            Ok(false) => (
                ResponseView::LoginPage { error: Some(invalid_credentials_message()) },
                session,
            ),
            Err(_) => (
                ResponseView::InternalError { message: verification_error_message() },
                session,
            ),
        },
    }
}

/// The answer to a dashboard request for a session with claim `session`.
pub open spec fn dashboard_outcome(session: Option<Seq<char>>) -> ResponseView {
    match session {
        Some(u) => ResponseView::DashboardPage { username: u, welcome_message: welcome_text(u) },
        None => ResponseView::RedirectToLogin,
    }
}

/// The next thing a registration needs: a response, a count from the store,
/// or an insert.
pub enum RegisterStep {
    Respond(Response),
    CountUsername(String),
    CountEmail(String),
    Insert { username: String, email: String, password_hash: String },
}

fn register_error_page(message: &str) -> (r: Response)
    ensures
        r@ == register_page(message@),
{
    Response::RegisterPage { error: Some(String::from_str(message)) }
}

fn internal_error(message: &str) -> (r: Response)
    ensures
        r@ == (ResponseView::InternalError { message: message@ }),
{
    Response::InternalError { message: String::from_str(message) }
}

/// The login page, with an error message when one is given.
pub fn show_login_form(error: Option<String>) -> (r: Response)
    ensures
        r@ == (ResponseView::LoginPage { error: opt_view(error) }),
{
    Response::LoginPage { error }
}

/// The registration page, with an error message when one is given.
pub fn show_register_form(error_message: Option<String>) -> (r: Response)
    ensures
        r@ == (ResponseView::RegisterPage { error: opt_view(error_message) }),
{
    Response::RegisterPage { error: error_message }
}

/// First step of a registration: check the form's rules; when they hold, ask
/// whether the username is taken.
pub fn register_submit(form: &RegisterFormData) -> (r: RegisterStep)
    ensures
        match registration_check(form@) {
            Err(e) => r matches RegisterStep::Respond(p) && p@ == register_page(
                form_error_message(e),
            ),
            Ok(_) => r matches RegisterStep::CountUsername(u) && u@ == form.username@,
        },
{
    match validate_registration(form) {
        Err(e) => RegisterStep::Respond(Response::RegisterPage { error: Some(e.message()) }),
        Ok(()) => RegisterStep::CountUsername(form.username.clone()),
    }
}

/// Second step: the number of users holding the username has come back.
pub fn register_username_counted(form: &RegisterFormData, count: Result<i64, StoreError>) -> (r:
    RegisterStep)
    ensures
        match count {
            Err(_) => r matches RegisterStep::Respond(p) && p@ == (ResponseView::InternalError {
                message: query_error_message(),
            }),
            Ok(n) => if n > 0 {
                r matches RegisterStep::Respond(p) && p@ == register_page(username_taken_message())
            } else {
                r matches RegisterStep::CountEmail(e) && e@ == form.email@
            },
        },
{
    match count {
        Err(_) => RegisterStep::Respond(internal_error("Database query error")),
        Ok(n) => if n > 0 {
            RegisterStep::Respond(register_error_page("Username is already taken."))
        } else {
            RegisterStep::CountEmail(form.email.clone())
        },
    }
}

/// Third step: the number of users holding the email has come back. When it
/// is free, the password is hashed and the user is to be inserted. A hash that
/// reads the same as the password is never stored: it counts as a failure.
pub fn register_email_counted(form: &RegisterFormData, count: Result<i64, StoreError>) -> (r:
    RegisterStep)
    ensures
        match count {
            Err(_) => r matches RegisterStep::Respond(p) && p@ == (ResponseView::InternalError {
                message: query_error_message(),
            }),
            Ok(n) => if n > 0 {
                r matches RegisterStep::Respond(p) && p@ == register_page(email_taken_message())
            } else {
                (r matches RegisterStep::Respond(p) && p@ == (ResponseView::InternalError {
                    message: hashing_error_message(),
                })) || (r matches RegisterStep::Insert { username, email, password_hash }
                    && username@ == form.username@ && email@ == form.email@ && bcrypt_form(
                    password_hash@,
                    HASH_COST,
                ) && bcrypt_verdict(form.password@, password_hash@) == Some(true)
                    && password_hash@ != form.password@)
            },
        },
{
    match count {
        Err(_) => RegisterStep::Respond(internal_error("Database query error")),
        Ok(n) => if n > 0 {
            RegisterStep::Respond(register_error_page("Email is already registered."))
        } else {
            match hash_password(form.password.as_str()) {
                Err(_) => RegisterStep::Respond(internal_error("Error hashing password")),
                Ok(h) => if same_text(h.as_str(), form.password.as_str()) {
                    RegisterStep::Respond(internal_error("Error hashing password"))
                } else {
                    RegisterStep::Insert {
                        username: form.username.clone(),
                        email: form.email.clone(),
                        password_hash: h,
                    }
                },
            }
        },
    }
}

/// Last step: the insert has come back. A refusal by the store's unique
/// constraint is a conflict shown to the user, any other failure is internal.
pub fn register_inserted(result: Result<(), StoreError>) -> (r: Response)
    ensures
        match result {
            Ok(_) => r@ == ResponseView::RedirectToLogin,
            Err(StoreError::Conflict) => r@ == register_page(account_taken_message()),
            Err(StoreError::Failure) => r@ == (ResponseView::InternalError {
                message: insert_error_message(),
            }),
        },
{
    match result {
        Ok(()) => Response::RedirectToLogin,
        Err(StoreError::Conflict) => register_error_page("Username or email is already taken."),
        Err(StoreError::Failure) => internal_error("Failed to register user."),
    }
}

fn count_of(present: bool) -> (r: Result<i64, StoreError>)
    ensures
        r == (if present {
            Ok::<i64, StoreError>(1)
        } else {
            Ok::<i64, StoreError>(0)
        }),
{
    if present {
        Ok(1)
    } else {
        Ok(0)
    }
}

/// Registers `form` against `store`. A rejected form leaves the store as it
/// was and shows why; otherwise the user is stored with a salted bcrypt hash of
/// the password at the configured work factor, never the password itself, and
/// the client is sent to the login page, unless hashing fails or the store is
/// full.
pub fn process_register_form(store: &mut UserStore, form: &RegisterFormData) -> (r: Response)
    requires
        old(store).wf(),
    ensures
        final(store).wf(),
        match register_rejection(old(store)@, form@) {
            Some(m) => r@ == register_page(m) && final(store)@ == old(store)@,
            None => (r@ == (ResponseView::InternalError { message: hashing_error_message() })
                && final(store)@ == old(store)@) || (old(store)@.len() >= MAX_USERS && r@ == (
            ResponseView::InternalError { message: insert_error_message() }) && final(store)@
                == old(store)@) || (old(store)@.len() < MAX_USERS && r@
                == ResponseView::RedirectToLogin && exists|h: Seq<char>|
                bcrypt_form(h, HASH_COST) && bcrypt_verdict(form.password@, h) == Some(true) && h
                != form.password@ && final(store)@
                == old(store)@.push(#[trigger] new_user(old(store)@, form.username@, form.email@, h))),
        },
{
    let ghost users = store@;
    let step = register_submit(form);
    let name = match step {
        RegisterStep::CountUsername(u) => u,
        RegisterStep::Respond(p) => {
            return p;
        },
        _ => unreached(),
    };
    let step = register_username_counted(form, count_of(store.exists_username(name.as_str())));
    let email = match step {
        RegisterStep::CountEmail(e) => e,
        RegisterStep::Respond(p) => {
            return p;
        },
        _ => unreached(),
    };
    let step = register_email_counted(form, count_of(store.exists_email(email.as_str())));
    match step {
        RegisterStep::Insert { username, email, password_hash } => {
            let res = store.insert_user(username.as_str(), email.as_str(), password_hash.as_str());
            proof {
                if res is Ok {
                    let h = password_hash@;
                    assert(bcrypt_verdict(form.password@, h) == Some(true));
                    assert(bcrypt_form(h, HASH_COST));
                    assert(store@ == users.push(new_user(users, form.username@, form.email@, h)));
                }
            }
            register_inserted(res)
        },
        RegisterStep::Respond(p) => p,
        _ => unreached(),
    }
}

/// Decides a login once the password's check against the stored hash of
/// `user` has come back: a match authenticates the session as the user.
pub fn login_decide(user: &User, verdict: Result<bool, HashError>, session: &mut SessionState) -> (r:
    Response)
    ensures
        (r@, final(session)@) == (match verdict {
            Ok(true) => (ResponseView::RedirectToDashboard, Some(user.username@)),
            Ok(false) => (
                ResponseView::LoginPage { error: Some(invalid_credentials_message()) },
                old(session)@,
            ),
            Err(_) => (
                ResponseView::InternalError { message: verification_error_message() },
                old(session)@,
            ),
        }),
{
    match verdict {
        Ok(true) => {
            session.set_identity(user.username.as_str());
            Response::RedirectToDashboard
        },
        Ok(false) => Response::LoginPage { error: Some(String::from_str("Invalid credentials.")) },
        Err(_) => internal_error("Password verification error"),
    }
}

/// Decides a login once the store has answered the lookup by identifier. An
/// unknown identifier and a wrong password give the same page.
pub fn login_with_record(
    form: &LoginForm,
    record: Result<Option<User>, StoreError>,
    session: &mut SessionState,
) -> (r: Response)
    ensures
        match record {
            Err(_) => r@ == (ResponseView::InternalError { message: query_error_message() })
                && final(session)@ == old(session)@,
            Ok(found) => (r@, final(session)@) == login_outcome(
                match found {
                    Some(u) => Some(u@),
                    None => None,
                },
                form.password@,
                old(session)@,
            ),
        },
{
    match record {
        Err(_) => internal_error("Database query error"),
        Ok(None) => Response::LoginPage { error: Some(String::from_str("Invalid credentials.")) },
        Ok(Some(user)) => {
            let verdict = verify_password(form.password.as_str(), user.password.as_str());
            login_decide(&user, verdict, session)
        },
    }
}

/// Logs in against `store`.
pub fn process_login_form(store: &UserStore, form: &LoginForm, session: &mut SessionState) -> (r:
    Response)
    ensures
        (r@, final(session)@) == login_outcome(
            find_in(store@, form.identifier@),
            form.password@,
            old(session)@,
        ),
{
    let found = store.find_by_identifier(form.identifier.as_str());
    login_with_record(form, Ok(found), session)
}

/// Ends the session, whether or not it was authenticated, and sends the
/// client to the login page.
pub fn logout(session: &mut SessionState) -> (r: Response)
    ensures
        final(session)@ is None,
        r@ == ResponseView::RedirectToLogin,
{
    session.clear();
    Response::RedirectToLogin
}

/// The dashboard for an authenticated session; the login page otherwise.
pub fn show_dashboard(session: &SessionState) -> (r: Response)
    ensures
        r@ == dashboard_outcome(session@),
{
    match session.identity() {
        Some(username) => {
            let welcome_message = String::from_str("Welcome to your dashboard, ").concat(
                username.as_str(),
            ).concat("!");
            Response::DashboardPage { username, welcome_message }
        },
        None => Response::RedirectToLogin,
    }
}

} // verus!
