//! What the flow has from the `oauth2` crate: the random state token and the
//! provider's authorization URL. Nothing in this file is proved; each
//! contract states what the crate's source shows.

use oauth2::basic::BasicClient;
use oauth2::url::Url;
use oauth2::{AuthUrl, ClientId, CsrfToken, RedirectUrl, Scope};
use vstd::prelude::*;

use crate::provider::ProviderConfig;

verus! {

/// Whether `url::Url::parse` accepts the text.
pub uninterp spec fn url_parses(text: Seq<char>) -> bool;

/// The authorization URL that `oauth2` builds for a client with the given
/// authorization endpoint, client identifier and redirect URI, for a request
/// with the given scopes and state token.
pub uninterp spec fn authorize_url_of(
    auth_url: Seq<char>,
    client_id: Seq<char>,
    redirect_uri: Seq<char>,
    scopes: Seq<Seq<char>>,
    state: Seq<char>,
) -> Seq<char>;

/// A character that form-urlencoding leaves as it is and that the URL-safe
/// base64 alphabet holds: an ASCII letter, a digit, `-` or `_`.
pub open spec fn is_url_safe_char(c: char) -> bool {
    ||| 'a' <= c <= 'z'
    ||| 'A' <= c <= 'Z'
    ||| '0' <= c <= '9'
    ||| c == '-'
    ||| c == '_'
}

/// Whether every character of the text is URL-safe.
pub open spec fn is_url_safe(text: Seq<char>) -> bool {
    forall|i: int| 0 <= i < text.len() ==> is_url_safe_char(#[trigger] text[i])
}

/// The query pair that carries the state token, as it stands in a URL.
pub open spec fn state_pair(state: Seq<char>) -> Seq<char> {
    seq!['s', 't', 'a', 't', 'e', '='] + state
}

/// Whether `pair` stands in `url` at place `i` as a whole pair of the query:
/// right after a `?` or a `&`, and up to a `&`, a `#` or the end of the URL.
pub open spec fn is_query_pair_at(url: Seq<char>, pair: Seq<char>, i: int) -> bool {
    &&& 0 < i
    &&& i + pair.len() <= url.len()
    &&& url.subrange(i, i + pair.len()) == pair
    &&& url[i - 1] == '?' || url[i - 1] == '&'
    &&& i + pair.len() == url.len() || url[i + pair.len()] == '&' || url[i + pair.len()] == '#'
}

/// Whether the query of `url` holds a pair whose name is `state` and whose
/// value is the state token, verbatim and whole.
pub open spec fn carries_state(url: Seq<char>, state: Seq<char>) -> bool {
    exists|i: int| #[trigger] is_query_pair_at(url, state_pair(state), i)
}

/// The texts of a list of strings.
pub open spec fn texts_of(items: Vec<String>) -> Seq<Seq<char>> {
    items@.map_values(|s: String| s@)
}

/// Calls `url::Url::parse`, which `oauth2` re-exports and parses its
/// endpoint URLs with, and says whether it accepted the text.
#[verifier::external_body]
pub(crate) fn parses_as_url(text: &String) -> (ok: bool)
    ensures
        ok == url_parses(text@),
{
    Url::parse(text.as_str()).is_ok()
}

/// Calls `oauth2::CsrfToken::new_random`, which draws 16 bytes from the
/// thread's random generator and encodes them in URL-safe base64 without
/// padding. Claimed: the token has the 22 characters of that encoding, all
/// of them URL-safe. Which token comes out is left open.
#[verifier::external_body]
pub(crate) fn random_state_token() -> (token: String)
    ensures
        token@.len() == 22,
        is_url_safe(token@),
{
    CsrfToken::new_random().secret().clone()
}

/// Calls `oauth2::Client::authorize_url`, then `add_scopes` and `url` on
/// the request, for a client made of the provider's authorization endpoint,
/// client identifier and redirect URI. Both URLs have to parse. Claimed: the
/// URL is a function of these texts, the scopes and the state; and where the
/// state is URL-safe, the URL's query holds the whole pair `state=` and the
/// state itself. The request's `url` writes the pairs `response_type`,
/// `client_id`, `state` and `redirect_uri` in this order, each after a `&`
/// but the first of the query, and form-urlencoding leaves URL-safe
/// characters as they are.
#[verifier::external_body]
pub(crate) fn authorize_url(client: &ProviderConfig, state: &String) -> (url: String)
    requires
        url_parses(client.auth_url@),
        url_parses(client.redirect_uri@),
    ensures
        url@ == authorize_url_of(
            client.auth_url@,
            client.client_id@,
            client.redirect_uri@,
            texts_of(client.scopes),
            state@,
        ),
        is_url_safe(state@) ==> carries_state(url@, state@),
{
    let auth = AuthUrl::new(client.auth_url.clone()).unwrap();
    let redirect = RedirectUrl::new(client.redirect_uri.clone()).unwrap();
    let id = ClientId::new(client.client_id.clone());
    let oauth = BasicClient::new(id, None, auth, None).set_redirect_uri(redirect);
    let token = CsrfToken::new(state.clone());
    let scopes = client.scopes.iter().map(|s| Scope::new(s.clone()));
    let (url, _) = oauth.authorize_url(move || token).add_scopes(scopes).url();
    url.to_string()
}

} // verus!
