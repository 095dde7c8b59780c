use vstd::prelude::*;

verus! {

/// Whether the user has imported a cookie file, and where it is stored.
#[derive(Debug)]
pub enum AuthState {
    NoAuth,
    Authenticated { cookie_path: String },
}

impl AuthState {
    /// The stored cookie file, when there is one.
    pub fn cookie_path(&self) -> (r: Option<&str>)
        ensures
            match self {
                AuthState::NoAuth => r is None,
                AuthState::Authenticated { cookie_path } => r is Some && r->0@ == cookie_path@,
            },
    {
        match self {
            AuthState::NoAuth => None,
            AuthState::Authenticated { cookie_path } => Some(cookie_path.as_str()),
        }
    }

    /// Whether a cookie file was imported.
    pub fn is_authenticated(&self) -> (r: bool)
        ensures
            r == (self is Authenticated),
    {
        match self {
            AuthState::NoAuth => false,
            AuthState::Authenticated { .. } => true,
        }
    }
}

/// The account features a content source offers.
#[derive(Debug, Clone, Copy, PartialEq, Eq, Structural)]
pub struct AuthCapabilities {
    pub has_home_feed: bool,
    pub has_subscriptions: bool,
    pub has_history: bool,
}

/// A signed-in source offers the home feed, subscriptions and history; a
/// signed-out one none of them.
pub fn capabilities_for(authenticated: bool) -> (r: AuthCapabilities)
    ensures
        r == (AuthCapabilities {
            has_home_feed: authenticated,
            has_subscriptions: authenticated,
            has_history: authenticated,
        }),
{
    AuthCapabilities {
        has_home_feed: authenticated,
        has_subscriptions: authenticated,
        has_history: authenticated,
    }
}

} // verus!
