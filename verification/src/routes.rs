//! What the two routes of the flow decide, from the session and the request
//! to the session that they leave and the answer to give. Talking to the
//! provider lies between the two steps of the callback and is the caller's.

use vstd::prelude::*;

use crate::flow::{
    callback_verdict, is_usable, redirect_for, session_after_callback, CallbackError,
    CallbackParams, ExchangeRequest, FlowError, LoginFlowController, VerifiedLogin,
};
use crate::gate::AuthenticationGate;
use crate::linker::{attach_model, login_model, AccountLinker, LinkerModel};
use crate::oauth::{carries_state, is_url_safe};
use crate::provider::{client_for, ProviderCatalog, ProviderConfig};
use crate::session::{AuthenticatedSession, SessionStateStore};

verus! {

/// Why the begin-flow route refuses, if it does: attaching with nobody
/// logged in comes first, then a provider that cannot be used.
pub open spec fn start_refusal(
    session: SessionStateStore,
    providers: Seq<ProviderConfig>,
    provider_name: Seq<char>,
    attach: bool,
) -> Option<FlowError> {
    if attach && session.account() is None {
        Some(FlowError::AuthenticationRequired)
    } else {
        match client_for(providers, provider_name) {
            None => Some(FlowError::ProviderUnavailable),
            Some(client) => if is_usable(client) {
                None
            } else {
                Some(FlowError::ProviderUnavailable)
            },
        }
    }
}

/// What the end of a callback answers, and the session and the linker's
/// state that it leaves: an attach links the identity to the session's
/// account and leaves the session as it is; a login resolves the identity to
/// an account and authenticates the session as that account at `now`. On any
/// error the session is left as it was.
pub open spec fn finish_model(
    session: SessionStateStore,
    linker: LinkerModel,
    login: VerifiedLogin,
    now: u64,
) -> (Result<u64, CallbackError>, SessionStateStore, LinkerModel) {
    if login.attach {
        match session.account() {
            None => (Err(CallbackError::Flow(FlowError::AuthenticationRequired)), session, linker),
            Some(owner) => match attach_model(linker, owner, login.identity@).0 {
                Ok(_) => (Ok(owner), session, attach_model(linker, owner, login.identity@).1),
                Err(e) => (Err(CallbackError::Link(e)), session, linker),
            },
        }
    } else {
        match login_model(linker, login.identity@).0 {
            Ok(account_id) => (
                Ok(account_id),
                SessionStateStore {
                    pending: session.pending,
                    authenticated: Some(AuthenticatedSession { account_id, issued_at: now }),
                },
                login_model(linker, login.identity@).1,
            ),
            Err(e) => (Err(CallbackError::Link(e)), session, linker),
        }
    }
}

/// The begin-flow route. Refuses as `start_refusal` says and then leaves the
/// session untouched: no pending login is stored. Else stores a pending
/// login with a fresh state token, the attach flag and the return path, in
/// place of any earlier one, and returns the provider's authorization URL
/// for that token, to redirect the visitor to.
pub fn start_login(
    session: &mut SessionStateStore,
    catalog: &ProviderCatalog,
    provider_name: &String,
    attach: bool,
    return_path: Option<String>,
) -> (r: Result<String, FlowError>)
    ensures
        attach && old(session).account() is None ==> r == Err::<String, FlowError>(
            FlowError::AuthenticationRequired,
        ) && *final(session) == *old(session),
        match r {
            Err(e) => {
                &&& start_refusal(*old(session), catalog@, provider_name@, attach) == Some(e)
                &&& *final(session) == *old(session)
            },
            Ok(url) => {
                &&& start_refusal(*old(session), catalog@, provider_name@, attach) is None
                &&& final(session).authenticated == old(session).authenticated
                &&& final(session).pending matches Some(pending) && {
                    &&& pending.attach == attach
                    &&& pending.return_path == return_path
                    &&& pending.state@.len() == 22
                    &&& is_url_safe(pending.state@)
                    &&& url@ == redirect_for(
                        client_for(catalog@, provider_name@).unwrap(),
                        pending.state@,
                    )
                    &&& carries_state(url@, pending.state@)
                }
            },
        },
{
    if attach {
        if let Err(e) = AuthenticationGate::require_session(session) {
            return Err(e);
        }
    }
    let client = match catalog.lookup(provider_name) {
        Some(client) => client,
        None => {
            return Err(FlowError::ProviderUnavailable);
        },
    };
    match LoginFlowController::begin(client, attach) {
        Err(e) => Err(e),
        Ok((url, pending)) => {
            let mut pending = pending;
            pending.return_path = return_path;
            session.put(pending);
            Ok(url)
        },
    }
}

/// The first step of the callback route: takes the pending login out of the
/// session, so that it is gone whatever follows, and decides on the callback.
pub fn receive_callback(session: &mut SessionStateStore, params: CallbackParams) -> (r: Result<
    ExchangeRequest,
    FlowError,
>)
    ensures
        r == callback_verdict(old(session).pending, params),
        *final(session) == session_after_callback(*old(session)),
        final(session).pending is None,
{
    let pending = session.take();
    LoginFlowController::check_callback(pending, params)
}

/// The last step of the callback route, once the provider has vouched for
/// an identity: links it or logs in with it, as `finish_model` says, and
/// returns the account.
pub fn finish_callback(
    session: &mut SessionStateStore,
    linker: &mut AccountLinker,
    login: VerifiedLogin,
    now: u64,
) -> (r: Result<u64, CallbackError>)
    ensures
        (r, *final(session), final(linker)@) == finish_model(
            *old(session),
            old(linker)@,
            login,
            now,
        ),
        final(linker).wf(),
{
    proof {
        use_type_invariant(&*linker);
    }
    if login.attach {
        match AuthenticationGate::require_session(session) {
            Err(e) => Err(CallbackError::Flow(e)),
            Ok(owner) => match linker.attach(owner, login.identity) {
                Ok(()) => Ok(owner),
                Err(e) => Err(CallbackError::Link(e)),
            },
        }
    } else {
        match linker.login_or_create(login.identity) {
            Ok(account_id) => {
                session.set_authenticated(account_id, now);
                Ok(account_id)
            },
            Err(e) => Err(CallbackError::Link(e)),
        }
    }
}

/// Where to send the visitor after a callback: the flow's return path, or
/// the account-management page where it has none.
pub fn landing_path(return_path: Option<String>) -> (path: String)
    ensures
        path@ == match return_path {
            Some(p) => p@,
            None => "account/manage"@,
        },
{
    match return_path {
        Some(p) => p,
        None => "account/manage".to_owned(),
    }
}

} // verus!
