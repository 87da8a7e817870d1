use vstd::prelude::*;

verus! {

/// A stored account. `password` holds the password hash, never the password.
pub struct User {
    pub user_id: i32,
    pub username: String,
    pub email: String,
    pub password: String,
}

/// What a user record means: its identifier and its three strings.
pub struct UserView {
    pub user_id: i32,
    pub username: Seq<char>,
    pub email: Seq<char>,
    pub password: Seq<char>,
}

impl View for User {
    type V = UserView;

    open spec fn view(&self) -> UserView {
        UserView {
            user_id: self.user_id,
            username: self.username@,
            email: self.email@,
            password: self.password@,
        }
    }
}

impl User {
    /// A copy of the record, field by field.
    pub fn duplicate(&self) -> (r: User)
        ensures
            r@ == self@,
    {
        User {
            user_id: self.user_id,
            username: self.username.clone(),
            email: self.email.clone(),
            password: self.password.clone(),
        }
    }
}

/// The fields of a submitted registration form.
pub struct RegisterFormData {
    pub username: String,
    pub email: String,
    pub password: String,
    pub password_confirm: String,
}

pub struct RegisterFormView {
    pub username: Seq<char>,
    pub email: Seq<char>,
    pub password: Seq<char>,
    pub password_confirm: Seq<char>,
}

impl View for RegisterFormData {
    type V = RegisterFormView;

    open spec fn view(&self) -> RegisterFormView {
        RegisterFormView {
            username: self.username@,
            email: self.email@,
            password: self.password@,
            password_confirm: self.password_confirm@,
        }
    }
}

/// The fields of a submitted login form: a username or an email, and a password.
pub struct LoginForm {
    pub identifier: String,
    pub password: String,
}

} // verus!
