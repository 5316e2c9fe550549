//! Who is logged in, as the request handlers see it.

use vstd::prelude::*;

use crate::flow::FlowError;
use crate::linker::{account_with_id, Account, AccountLinker, AccountModel};
use crate::session::SessionStateStore;

verus! {

/// The account that owns the session: the one whose identifier the session
/// is authenticated as, where that account exists.
pub open spec fn author_of(session: SessionStateStore, accounts: Seq<AccountModel>) -> Option<
    AccountModel,
> {
    match session.account() {
        Some(id) => account_with_id(accounts, id),
        None => None,
    }
}

/// The answer to a route that needs a logged-in session.
pub open spec fn admission(session: SessionStateStore) -> Result<u64, FlowError> {
    match session.account() {
        Some(id) => Ok(id),
        None => Err(FlowError::AuthenticationRequired),
    }
}

/// Derives the current author from the session.
pub struct AuthenticationGate;

impl AuthenticationGate {
    /// The account that owns the session, or `None` for an anonymous visitor
    /// and for a session whose account is gone. Reads only.
    pub fn current_author<'a>(session: &SessionStateStore, linker: &'a AccountLinker) -> (r:
        Option<&'a Account>)
        ensures
            match r {
                Some(a) => author_of(*session, linker@.accounts) == Some(a@),
                None => author_of(*session, linker@.accounts) is None,
            },
    {
        match session.get_authenticated() {
            Some(id) => linker.account(id),
            None => None,
        }
    }

    /// Admits a request to a route that needs a logged-in session: returns
    /// the account that the session is authenticated as, and fails with
    /// `AuthenticationRequired` exactly when it is authenticated as none.
    pub fn require_session(session: &SessionStateStore) -> (r: Result<u64, FlowError>)
        ensures
            r == admission(*session),
    {
        match session.get_authenticated() {
            Some(id) => Ok(id),
            None => Err(FlowError::AuthenticationRequired),
        }
    }
}

} // verus!
