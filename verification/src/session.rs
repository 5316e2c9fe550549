//! The logical slots that the login flow keeps in one visitor's session.

use vstd::prelude::*;

verus! {

/// What is remembered between the redirect to the provider and its callback.
#[derive(Clone, Debug, PartialEq, Eq)]
pub struct PendingLoginState {
    /// The CSRF state token that the callback has to bring back.
    pub state: String,
    /// Whether the flow links an identity to the account that is logged in.
    pub attach: bool,
    /// Where to send the visitor once the flow has ended.
    pub return_path: Option<String>,
}

/// The marker of a logged-in session.
#[derive(Clone, Copy, Debug, PartialEq, Eq)]
pub struct AuthenticatedSession {
    /// The local account that owns the session.
    pub account_id: u64,
    /// When the session was authenticated, in seconds since the epoch.
    pub issued_at: u64,
}

/// The typed payload of one session: at most one pending login and at most
/// one authenticated-account marker.
#[derive(Clone, Debug, PartialEq, Eq)]
pub struct SessionStateStore {
    /// The pending-login slot.
    pub pending: Option<PendingLoginState>,
    /// The authenticated-account slot.
    pub authenticated: Option<AuthenticatedSession>,
}

impl SessionStateStore {
    /// The account that the session is authenticated as, if any.
    pub open spec fn account(&self) -> Option<u64> {
        match self.authenticated {
            Some(a) => Some(a.account_id),
            None => None,
        }
    }

    /// A session with both slots empty.
    pub fn new() -> (s: Self)
        ensures
            s.pending is None,
            s.authenticated is None,
    {
        SessionStateStore { pending: None, authenticated: None }
    }

    /// Stores `record` as the pending login, replacing any earlier one.
    pub fn put(&mut self, record: PendingLoginState)
        ensures
            final(self).pending == Some(record),
            final(self).authenticated == old(self).authenticated,
    {
        self.pending = Some(record);
    }

    /// Reads and removes the pending login: a second `take` with no `put`
    /// in between returns `None`.
    pub fn take(&mut self) -> (r: Option<PendingLoginState>)
        ensures
            r == old(self).pending,
            final(self).pending is None,
            final(self).authenticated == old(self).authenticated,
    {
        self.pending.take()
    }

    /// Marks the session as authenticated as `account_id`.
    pub fn set_authenticated(&mut self, account_id: u64, issued_at: u64)
        ensures
            final(self).authenticated == Some(
                (AuthenticatedSession { account_id, issued_at }),
            ),
            final(self).pending == old(self).pending,
    {
        self.authenticated = Some(AuthenticatedSession { account_id, issued_at });
    }

    /// The account that the session is authenticated as, if any.
    pub fn get_authenticated(&self) -> (r: Option<u64>)
        ensures
            r == self.account(),
    {
        match &self.authenticated {
            Some(a) => Some(a.account_id),
            None => None,
        }
    }

    /// Logs the session out; the pending login is left as it is.
    pub fn clear_authenticated(&mut self)
        ensures
            final(self).authenticated is None,
            final(self).pending == old(self).pending,
    {
        self.authenticated = None;
    }
}

} // verus!
