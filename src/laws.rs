//! Properties of registration, login, logout and the dashboard gate that hold
//! for every input, stated over the specifications the handlers meet.
use vstd::prelude::*;
use crate::flow::{
    dashboard_outcome, email_taken_message, invalid_credentials_message, login_outcome,
    register_rejection, username_taken_message, welcome_text,
};
use crate::model::{RegisterFormView, UserView};
use crate::password::bcrypt_verdict;
use crate::response::ResponseView;
use crate::store::{find_in, new_user, users_wf, MAX_USERS};
use crate::validate::{
    email_parts, form_error_message, has_white_space, is_valid_email, password_byte_len,
    registration_check,
    FormError,
};

verus! {

/// The username rules come before all others.
pub open spec fn username_ok(f: RegisterFormView) -> bool {
    3 <= f.username.len() <= 20 && !has_white_space(f.username)
}

/// An email that is plainly malformed: it has no `@`; or no dot follows its
/// `@`, so it has no top-level label; or its top-level label is shorter than
/// two characters.
pub open spec fn malformed_email(s: Seq<char>) -> bool {
    ||| forall|k: int| 0 <= k < s.len() ==> s[k] != '@'
    ||| forall|i: int, k: int| 0 <= i < k < s.len() && s[i] == '@' ==> s[k] != '.'
    ||| exists|k: int| s.len() - 2 <= k < s.len() && s[k] == '.'
}

/// A username shorter than three or longer than twenty characters, or one that
/// holds white space, turns a registration back with the message of that rule,
/// whatever the rest of the form and the store hold. A registration turned back
/// leaves the store as it was (see `process_register_form`).
pub proof fn lemma_bad_username_rejected(users: Seq<UserView>, f: RegisterFormView)
    requires
        f.username.len() < 3 || f.username.len() > 20 || has_white_space(f.username),
    ensures
        register_rejection(users, f) == Some(
            if f.username.len() < 3 || f.username.len() > 20 {
                form_error_message(FormError::UsernameLength)
            } else {
                form_error_message(FormError::UsernameWhitespace)
            },
        ),
{
}

/// A password shorter than eight bytes, or one that differs from its
/// confirmation, turns a registration back; when the username passes, the
/// message is that of the password rule.
pub proof fn lemma_bad_password_rejected(users: Seq<UserView>, f: RegisterFormView)
    requires
        password_byte_len(f.password) < 8 || f.password != f.password_confirm,
    ensures
        register_rejection(users, f) is Some,
        username_ok(f) ==> register_rejection(users, f) == Some(
            if password_byte_len(f.password) < 8 {
                form_error_message(FormError::PasswordTooShort)
            } else {
                form_error_message(FormError::PasswordMismatch)
            },
        ),
{
}

/// A malformed email is not a valid one, and turns a registration back with
/// "Invalid email format." once the username and password pass.
pub proof fn lemma_malformed_email_rejected(users: Seq<UserView>, f: RegisterFormView)
    requires
        malformed_email(f.email),
    ensures
        !is_valid_email(f.email),
        register_rejection(users, f) is Some,
        username_ok(f) && password_byte_len(f.password) >= 8 && f.password == f.password_confirm
            ==> register_rejection(users, f) == Some("Invalid email format."@),
{
    let s = f.email;
    assert forall|at: int, dot: int| !email_parts(s, at, dot) by {
        if email_parts(s, at, dot) {
            assert(s[at] == '@');
            assert(s[dot] == '.');
            if exists|k: int| s.len() - 2 <= k < s.len() && s[k] == '.' {
                let k = choose|k: int| s.len() - 2 <= k < s.len() && s[k] == '.';
                assert(dot < k);
                assert(crate::validate::is_ascii_alpha(s[k]));
            }
        }
    }
}

/// After a successful registration, a second one with the same username or
/// the same email is turned back as a conflict: the store then holds exactly
/// one more user than before both, and that user alone has the username.
pub proof fn lemma_second_registration_conflicts(
    users: Seq<UserView>,
    first: RegisterFormView,
    hash: Seq<char>,
    second: RegisterFormView,
)
    requires
        users_wf(users),
        users.len() < MAX_USERS,
        register_rejection(users, first) is None,
        second.username == first.username || second.email == first.email,
    ensures
        ({
            let after = users.push(new_user(users, first.username, first.email, hash));
            &&& users_wf(after)
            &&& after.len() == users.len() + 1
            &&& register_rejection(after, second) is Some
            &&& registration_check(second) is Ok ==> (register_rejection(after, second) == Some(
                username_taken_message()) || register_rejection(after, second) == Some(
                email_taken_message()))
            &&& registration_check(second) is Ok && second.username == first.username
                ==> register_rejection(after, second) == Some(username_taken_message())
            &&& forall|i: int|
                0 <= i < after.len() && (#[trigger] after[i]).username == first.username ==> i
                    == users.len()
        }),
{
    let after = users.push(new_user(users, first.username, first.email, hash));
    let n = users.len() as int;
    assert(after[n].username == first.username);
    assert(after[n].email == first.email);
    assert forall|i: int| 0 <= i < n implies after[i] == users[i] && users[i].username
        != first.username && users[i].email != first.email by {
        assert(after[i] == users[i]);
        assert(!(users[i].username == first.username));
        assert(!(users[i].email == first.email));
    }
    assert(after[n].user_id == n + 1);
    assert(users_wf(after));
    if registration_check(second) is Ok {
        if second.username == first.username {
            assert(crate::store::has_username(after, second.username));
        } else {
            assert(crate::store::has_email(after, second.email));
        }
    }
    assert(register_rejection(after, second) is Some);
    assert forall|i: int| 0 <= i < after.len() && (#[trigger] after[i]).username
        == first.username implies i == n by {
        if i < n {
            assert(after[i] == users[i]);
        }
    }
}

/// A login with an identifier that finds a user and the password that the
/// user's hash verifies authenticates the session as that user, and the
/// dashboard then greets that username.
pub proof fn lemma_login_then_dashboard(
    users: Seq<UserView>,
    identifier: Seq<char>,
    password: Seq<char>,
    session: Option<Seq<char>>,
)
    requires
        find_in(users, identifier) matches Some(u) && bcrypt_verdict(password, u.password) == Some(
            true,
        ),
    ensures
        ({
            let u = find_in(users, identifier)->Some_0;
            let (r, after) = login_outcome(find_in(users, identifier), password, session);
            &&& r == ResponseView::RedirectToDashboard
            &&& after == Some(u.username)
            &&& dashboard_outcome(after) == (ResponseView::DashboardPage {
                username: u.username,
                welcome_message: welcome_text(u.username),
            })
        }),
{
}

/// An unknown identifier and a wrong password give the same response, and
/// neither changes the session.
pub proof fn lemma_failed_logins_look_alike(
    users: Seq<UserView>,
    unknown: Seq<char>,
    password: Seq<char>,
    identifier: Seq<char>,
    wrong: Seq<char>,
    session: Option<Seq<char>>,
)
    requires
        find_in(users, unknown) is None,
        find_in(users, identifier) matches Some(u) && bcrypt_verdict(wrong, u.password) == Some(
            false,
        ),
    ensures
        login_outcome(find_in(users, unknown), password, session) == login_outcome(
            find_in(users, identifier),
            wrong,
            session,
        ),
        login_outcome(find_in(users, unknown), password, session) == (
            ResponseView::LoginPage { error: Some(invalid_credentials_message()) },
            session,
        ),
{
}

/// After a logout the session holds no claim (see `logout`), and a session
/// without a claim is sent to the login page by the dashboard.
pub proof fn lemma_logged_out_dashboard_redirects(session: Option<Seq<char>>)
    requires
        session is None,
    ensures
        dashboard_outcome(session) == ResponseView::RedirectToLogin,
{
}

} // verus!
