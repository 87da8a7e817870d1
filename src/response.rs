use vstd::prelude::*;
use crate::session::opt_view;

verus! {

/// What a request handler answers. Pages are rendered with status 200,
/// redirects are 303 responses, internal errors are 500 responses whose
/// message is logged, never shown.
pub enum Response {
    LoginPage { error: Option<String> },
    RegisterPage { error: Option<String> },
    DashboardPage { username: String, welcome_message: String },
    RedirectToLogin,
    RedirectToDashboard,
    InternalError { message: String },
}

pub enum ResponseView {
    LoginPage { error: Option<Seq<char>> },
    RegisterPage { error: Option<Seq<char>> },
    DashboardPage { username: Seq<char>, welcome_message: Seq<char> },
    RedirectToLogin,
    RedirectToDashboard,
    InternalError { message: Seq<char> },
}

impl View for Response {
    type V = ResponseView;

    open spec fn view(&self) -> ResponseView {
        match self {
            Response::LoginPage { error } => ResponseView::LoginPage { error: opt_view(*error) },
            Response::RegisterPage { error } => ResponseView::RegisterPage {
                error: opt_view(*error),
            },
            Response::DashboardPage { username, welcome_message } => ResponseView::DashboardPage {
                username: username@,
                welcome_message: welcome_message@,
            },
            Response::RedirectToLogin => ResponseView::RedirectToLogin,
            Response::RedirectToDashboard => ResponseView::RedirectToDashboard,
            Response::InternalError { message } => ResponseView::InternalError {
                message: message@,
            },
        }
    }
}

impl Response {
    /// The HTTP status code of the response.
    pub fn status(&self) -> (r: u16)
        ensures
            r == match self@ {
                ResponseView::RedirectToLogin | ResponseView::RedirectToDashboard => 303u16,
                ResponseView::InternalError { .. } => 500u16,
                _ => 200u16,
            },
    {
        match self {
            Response::RedirectToLogin | Response::RedirectToDashboard => 303,
            Response::InternalError { .. } => 500,
            _ => 200,
        }
    }
}

} // verus!
