//! The authorization-code login flow: its two legs, tied together by the
//! state token that the session keeps between them.

use vstd::prelude::*;
use vstd::string::StringExecFns;

use crate::linker::{ExternalIdentity, LinkError};
use crate::oauth::{
    authorize_url, authorize_url_of, carries_state, is_url_safe, parses_as_url,
    random_state_token, texts_of, url_parses,
};
use crate::provider::ProviderConfig;
use crate::session::{PendingLoginState, SessionStateStore};

verus! {

/// Why a leg of the flow failed.
#[derive(Clone, Copy, Debug, PartialEq, Eq)]
pub enum FlowError {
    /// Attaching was asked for, and nobody is logged in.
    AuthenticationRequired,
    /// The provider is not configured, disabled, or its endpoints are no URLs.
    ProviderUnavailable,
    /// A callback arrived and the session holds no pending login.
    NoPendingFlow,
    /// The callback's state is not the one that the flow began with.
    StateMismatch,
    /// The provider sent an error in place of a code.
    ProviderDenied,
    /// The code could not be exchanged, or the identity not looked up.
    ProviderExchangeFailed,
}

/// Why a callback could not be brought to its end.
#[derive(Clone, Copy, Debug, PartialEq, Eq)]
pub enum CallbackError {
    /// The flow failed.
    Flow(FlowError),
    /// The identity could not be linked.
    Link(LinkError),
}

/// The query parameters of a callback, each as it arrived or `None` where
/// the query did not hold it.
#[derive(Clone, Debug, PartialEq, Eq)]
pub struct CallbackParams {
    /// The `state` parameter.
    pub state: Option<String>,
    /// The `code` parameter: the authorization code.
    pub code: Option<String>,
    /// The `error` parameter: the visitor declined, or the provider refused.
    pub error: Option<String>,
}

/// What is left to do once a callback has been accepted: exchange the code
/// with the provider and look the identity up.
#[derive(Clone, Debug, PartialEq, Eq)]
pub struct ExchangeRequest {
    /// The authorization code to exchange.
    pub code: String,
    /// The attach flag of the flow that the callback ends.
    pub attach: bool,
    /// The return path of that flow.
    pub return_path: Option<String>,
}

/// A completed flow: the verified identity and the mode of the flow.
#[derive(Clone, Debug, PartialEq, Eq)]
pub struct VerifiedLogin {
    /// The identity that the provider vouched for.
    pub identity: ExternalIdentity,
    /// The attach flag of the flow.
    pub attach: bool,
}

/// Whether a flow can be begun with the client: it is enabled and both its
/// authorization endpoint and its redirect URI are URLs.
pub open spec fn is_usable(client: ProviderConfig) -> bool {
    client.enabled && url_parses(client.auth_url@) && url_parses(client.redirect_uri@)
}

/// The authorization URL of a flow with the client and the state token.
pub open spec fn redirect_for(client: ProviderConfig, state: Seq<char>) -> Seq<char> {
    authorize_url_of(
        client.auth_url@,
        client.client_id@,
        client.redirect_uri@,
        texts_of(client.scopes),
        state,
    )
}

/// Whether the callback brings back the state token of the pending login.
pub open spec fn state_matches(pending: PendingLoginState, params: CallbackParams) -> bool {
    params.state matches Some(s) && s@ == pending.state@
}

/// What a callback is answered with, given the session's pending login. A
/// missing pending login comes first, then the state, then the provider's
/// error; a callback with neither error nor code counts as a denial.
pub open spec fn callback_verdict(
    pending: Option<PendingLoginState>,
    params: CallbackParams,
) -> Result<ExchangeRequest, FlowError> {
    match pending {
        None => Err(FlowError::NoPendingFlow),
        Some(p) => if !state_matches(p, params) {
            Err(FlowError::StateMismatch)
        } else if params.error is Some {
            Err(FlowError::ProviderDenied)
        } else {
            match params.code {
                None => Err(FlowError::ProviderDenied),
                Some(code) => Ok(
                    ExchangeRequest { code, attach: p.attach, return_path: p.return_path },
                ),
            }
        },
    }
}

/// What `conclude` answers.
pub open spec fn conclusion(attach: bool, exchanged: Option<ExternalIdentity>) -> Result<
    VerifiedLogin,
    FlowError,
> {
    match exchanged {
        None => Err(FlowError::ProviderExchangeFailed),
        Some(identity) => Ok(VerifiedLogin { identity, attach }),
    }
}

/// What `complete` answers.
pub open spec fn completion(
    pending: PendingLoginState,
    callback_state: Seq<char>,
    exchanged: Option<ExternalIdentity>,
) -> Result<VerifiedLogin, FlowError> {
    if pending.state@ != callback_state {
        Err(FlowError::StateMismatch)
    } else {
        conclusion(pending.attach, exchanged)
    }
}

/// The message to show the visitor for each failure of a flow with the
/// provider of that name. The one for an unavailable provider names it.
pub open spec fn message_of(e: FlowError, provider_name: Seq<char>) -> Seq<char> {
    match e {
        FlowError::AuthenticationRequired => "you need to be logged in to link an account"@,
        FlowError::ProviderUnavailable => "authentication using "@ + provider_name
            + " is not allowed on this instance"@,
        FlowError::NoPendingFlow => "login session expired, please retry"@,
        FlowError::StateMismatch => "the login request could not be verified"@,
        FlowError::ProviderDenied => "the provider did not authorize the login"@,
        FlowError::ProviderExchangeFailed => "the provider could not be reached, please retry"@,
    }
}

/// The session that a callback leaves: the pending login is gone, whatever
/// the callback was answered with.
pub open spec fn session_after_callback(session: SessionStateStore) -> SessionStateStore {
    SessionStateStore { pending: None, authenticated: session.authenticated }
}

/// A replayed callback is rejected: once a callback has been received, the
/// next one on the same session fails with `NoPendingFlow`, whatever it
/// carries and whatever the first was answered with.
pub proof fn lemma_replay_rejected(session: SessionStateStore, replay: CallbackParams)
    ensures
        callback_verdict(session_after_callback(session).pending, replay) == Err::<
            ExchangeRequest,
            FlowError,
        >(FlowError::NoPendingFlow),
{
}

/// A callback whose state differs from the stored token, be it by a single
/// character, or that brings no state, fails with `StateMismatch`, whatever
/// code or error comes with it.
pub proof fn lemma_wrong_state_rejected(pending: PendingLoginState, params: CallbackParams)
    requires
        !state_matches(pending, params),
    ensures
        callback_verdict(Some(pending), params) == Err::<ExchangeRequest, FlowError>(
            FlowError::StateMismatch,
        ),
{
}

/// `complete` with a state that differs from the stored token fails with
/// `StateMismatch`, whatever the exchange of the code gave.
pub proof fn lemma_complete_rejects_wrong_state(
    pending: PendingLoginState,
    callback_state: Seq<char>,
    exchanged: Option<ExternalIdentity>,
)
    requires
        callback_state != pending.state@,
    ensures
        completion(pending, callback_state, exchanged) == Err::<VerifiedLogin, FlowError>(
            FlowError::StateMismatch,
        ),
{
}

/// Completing in one step is deciding on the callback and then concluding
/// the exchange: for a callback that carries a code and no error, `complete`
/// answers what `conclude` answers on the request that `check_callback`
/// accepts, and fails as `check_callback` does where it accepts none.
pub proof fn lemma_complete_is_check_then_conclude(
    pending: PendingLoginState,
    callback_state: String,
    code: String,
    exchanged: Option<ExternalIdentity>,
)
    ensures
        completion(pending, callback_state@, exchanged) == (match callback_verdict(
            Some(pending),
            (CallbackParams { state: Some(callback_state), code: Some(code), error: None }),
        ) {
            Ok(request) => conclusion(request.attach, exchanged),
            Err(e) => Err(e),
        }),
{
}

impl FlowError {
    /// The message to show the visitor, for a flow with the provider named
    /// `provider_name`.
    pub fn message(&self, provider_name: &str) -> (text: String)
        ensures
            text@ == message_of(*self, provider_name@),
    {
        match self {
            FlowError::AuthenticationRequired => "you need to be logged in to link an account".to_owned(),
            FlowError::ProviderUnavailable => {
                let mut text = "authentication using ".to_owned();
                text.append(provider_name);
                text.append(" is not allowed on this instance");
                text
            },
            FlowError::NoPendingFlow => "login session expired, please retry".to_owned(),
            FlowError::StateMismatch => "the login request could not be verified".to_owned(),
            FlowError::ProviderDenied => "the provider did not authorize the login".to_owned(),
            FlowError::ProviderExchangeFailed =>
                "the provider could not be reached, please retry".to_owned(),
        }
    }
}

/// The two legs of the flow for one provider.
pub struct LoginFlowController;

impl LoginFlowController {
    /// Begins a flow with the given state token: builds the provider's
    /// authorization URL around it and the record to keep in the session.
    /// Fails with `ProviderUnavailable` exactly when the client is not usable.
    pub fn begin_with_token(client: &ProviderConfig, attach: bool, token: String) -> (r: Result<
        (String, PendingLoginState),
        FlowError,
    >)
        ensures
            r is Ok <==> is_usable(*client),
            r matches Err(e) ==> e == FlowError::ProviderUnavailable,
            r matches Ok((url, pending)) ==> {
                &&& url@ == redirect_for(*client, token@)
                &&& is_url_safe(token@) ==> carries_state(url@, token@)
                &&& pending.state == token
                &&& pending.attach == attach
                &&& pending.return_path is None
            },
    {
        if !client.enabled || !parses_as_url(&client.auth_url) || !parses_as_url(
            &client.redirect_uri,
        ) {
            return Err(FlowError::ProviderUnavailable);
        }
        let url = authorize_url(client, &token);
        Ok((url, PendingLoginState { state: token, attach, return_path: None }))
    }

    /// Begins a flow with a fresh random state token. Fails with
    /// `ProviderUnavailable` exactly when the client is not usable; else the
    /// URL is the provider's authorization URL for the token in the record,
    /// and holds that token verbatim as its `state`.
    pub fn begin(client: &ProviderConfig, attach: bool) -> (r: Result<
        (String, PendingLoginState),
        FlowError,
    >)
        ensures
            r is Ok <==> is_usable(*client),
            r matches Err(e) ==> e == FlowError::ProviderUnavailable,
            r matches Ok((url, pending)) ==> {
                &&& url@ == redirect_for(*client, pending.state@)
                &&& carries_state(url@, pending.state@)
                &&& pending.state@.len() == 22
                &&& is_url_safe(pending.state@)
                &&& pending.attach == attach
                &&& pending.return_path is None
            },
    {
        let token = random_state_token();
        Self::begin_with_token(client, attach, token)
    }

    /// Decides on a callback, given the pending login that was taken from
    /// the session: `NoPendingFlow` where there was none, `StateMismatch`
    /// where the states differ, `ProviderDenied` where the provider sent an
    /// error; else the exchange to make.
    pub fn check_callback(pending: Option<PendingLoginState>, params: CallbackParams) -> (r:
        Result<ExchangeRequest, FlowError>)
        ensures
            r == callback_verdict(pending, params),
    {
        let p = match pending {
            None => {
                return Err(FlowError::NoPendingFlow);
            },
            Some(p) => p,
        };
        let same = match &params.state {
            Some(s) => *s == p.state,
            None => false,
        };
        if !same {
            return Err(FlowError::StateMismatch);
        }
        if params.error.is_some() {
            return Err(FlowError::ProviderDenied);
        }
        match params.code {
            None => Err(FlowError::ProviderDenied),
            Some(code) => Ok(
                ExchangeRequest { code, attach: p.attach, return_path: p.return_path },
            ),
        }
    }

    /// Concludes a flow whose callback was accepted, given what the exchange
    /// of its code with the provider gave, `None` where it failed: fails with
    /// `ProviderExchangeFailed` exactly then, else returns the identity with
    /// the flow's attach flag.
    pub fn conclude(attach: bool, exchanged: Option<ExternalIdentity>) -> (r: Result<
        VerifiedLogin,
        FlowError,
    >)
        ensures
            r == conclusion(attach, exchanged),
    {
        match exchanged {
            None => Err(FlowError::ProviderExchangeFailed),
            Some(identity) => Ok(VerifiedLogin { identity, attach }),
        }
    }

    /// Completes a flow, given what the exchange of the callback's code with
    /// the provider gave (`None` where it failed): `StateMismatch` where the
    /// callback's state is not the pending one, whatever the exchange gave;
    /// `ProviderExchangeFailed` where the exchange failed; else the identity
    /// with the flow's attach flag. The pending record is used up.
    pub fn complete(
        pending: PendingLoginState,
        callback_state: &String,
        exchanged: Option<ExternalIdentity>,
    ) -> (r: Result<VerifiedLogin, FlowError>)
        ensures
            r == completion(pending, callback_state@, exchanged),
    {
        if pending.state != *callback_state {
            return Err(FlowError::StateMismatch);
        }
        Self::conclude(pending.attach, exchanged)
    }
}

} // verus!
