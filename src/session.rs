use vstd::prelude::*;

verus! {

/// The claims of one client's session: at most one authenticated username.
/// Its carrier (a signed cookie) reads back as no claim when it is missing or
/// its signature does not check.
pub struct SessionState {
    identity: Option<String>,
}

pub open spec fn opt_view(o: Option<String>) -> Option<Seq<char>> {
    match o {
        Some(s) => Some(s@),
        None => None,
    }
}

impl View for SessionState {
    type V = Option<Seq<char>>;

    closed spec fn view(&self) -> Option<Seq<char>> {
        opt_view(self.identity)
    }
}

impl SessionState {
    /// A session with no claim.
    pub fn new() -> (r: SessionState)
        ensures
            r@ is None,
    {
        SessionState { identity: None }
    }

    /// A session as its carrier delivered it: the username it holds, if any.
    pub fn from_claim(identity: Option<String>) -> (r: SessionState)
        ensures
            r@ == opt_view(identity),
    {
        SessionState { identity }
    }

    /// Records `username` as the session's identity.
    pub fn set_identity(&mut self, username: &str)
        ensures
            final(self)@ == Some(username@),
    {
        self.identity = Some(String::from_str(username));
    }

    /// The identity the session holds, if any.
    pub fn identity(&self) -> (r: Option<String>)
        ensures
            opt_view(r) == self@,
    {
        match &self.identity {
            Some(u) => Some(u.clone()),
            None => None,
        }
    }

    /// Removes the identity claim.
    pub fn clear(&mut self)
        ensures
            final(self)@ is None,
    {
        self.identity = None;
    }
}

} // verus!
