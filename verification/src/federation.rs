use crate::clock::now_unix;
use crate::config::Config;
use crate::error::AuthError;
use crate::provider::{
    auth_url_of, client_id_of, client_secret_of, OAuthProvider, provider_named, redirect_url_of,
    token_url_of,
};
use crate::text::{split_at_char, split_on, unicode_lowercase};
use crate::views::{text_result_view, text_view, texts_view};
use oauth2::{
    AuthUrl, ClientId, CsrfToken, PkceCodeChallenge, PkceCodeVerifier, RedirectUrl, Scope,
};
use oauth2::basic::BasicClient;
use vstd::prelude::*;
use vstd::string::*;
use vstd::utf8::encode_utf8;

verus! {

/// How long a federation attempt waits for its callback, in seconds.
pub const FEDERATION_STATE_TTL_SECS: i64 = 600;

/// The authorization URL that the oauth2 crate builds for an endpoint, a
/// client, a redirect address, scopes and a state; `None` where the endpoint
/// or the redirect address is no URL.
pub uninterp spec fn authorize_url_text(
    auth_url: Seq<char>,
    client_id: Seq<char>,
    redirect_url: Seq<char>,
    scopes: Seq<Seq<char>>,
    state: Seq<char>,
) -> Option<Seq<char>>;

/// The authorization URL that the oauth2 crate builds with the SHA-256
/// challenge of a PKCE verifier added.
pub uninterp spec fn authorize_url_pkce_text(
    auth_url: Seq<char>,
    client_id: Seq<char>,
    redirect_url: Seq<char>,
    scopes: Seq<Seq<char>>,
    state: Seq<char>,
    verifier: Seq<char>,
) -> Option<Seq<char>>;

/// Whether a text has the length that a PKCE verifier must have: from 43 to
/// 128 bytes.
pub open spec fn fits_verifier(v: Seq<char>) -> bool {
    43 <= encode_utf8(v).len() <= 128
}

/// `CsrfToken::new_random`: sixteen random bytes in unpadded base64, which
/// makes twenty-two characters.
#[verifier::external_body]
pub(crate) fn new_csrf_state() -> (r: String)
    ensures
        r@.len() == 22,
{
    CsrfToken::new_random().secret().clone()
}

/// `PkceCodeChallenge::new_random_sha256`: the random verifier of a new
/// challenge, of a length that a verifier must have.
#[verifier::external_body]
pub(crate) fn new_pkce_verifier() -> (r: String)
    ensures
        fits_verifier(r@),
{
    PkceCodeChallenge::new_random_sha256().1.secret().clone()
}

/// `AuthorizationRequest::url` of a client with an authorization endpoint and
/// a redirect address, for the given state and scopes.
#[verifier::external_body]
pub(crate) fn authorize_url(
    auth_url: &str,
    client_id: &str,
    redirect_url: &str,
    scopes: &Vec<String>,
    state: &str,
) -> (r: Option<String>)
    ensures
        text_view(r) == authorize_url_text(
            auth_url@,
            client_id@,
            redirect_url@,
            texts_view(scopes@),
            state@,
        ),
{
    let client = BasicClient::new(ClientId::new(client_id.to_string()))
        .set_auth_uri(AuthUrl::new(auth_url.to_string()).ok()?)
        .set_redirect_uri(RedirectUrl::new(redirect_url.to_string()).ok()?);
    let token = CsrfToken::new(state.to_string());
    let request = client
        .authorize_url(move || token)
        .add_scopes(scopes.iter().cloned().map(Scope::new));
    Some(request.url().0.to_string())
}

/// `AuthorizationRequest::url` as above, with the challenge that
/// `PkceCodeChallenge::from_code_verifier_sha256` makes of the verifier.
#[verifier::external_body]
pub(crate) fn authorize_url_pkce(
    auth_url: &str,
    client_id: &str,
    redirect_url: &str,
    scopes: &Vec<String>,
    state: &str,
    verifier: &str,
) -> (r: Option<String>)
    requires
        fits_verifier(verifier@),
    ensures
        text_view(r) == authorize_url_pkce_text(
            auth_url@,
            client_id@,
            redirect_url@,
            texts_view(scopes@),
            state@,
            verifier@,
        ),
{
    let client = BasicClient::new(ClientId::new(client_id.to_string()))
        .set_auth_uri(AuthUrl::new(auth_url.to_string()).ok()?)
        .set_redirect_uri(RedirectUrl::new(redirect_url.to_string()).ok()?);
    let challenge = PkceCodeChallenge::from_code_verifier_sha256(
        &PkceCodeVerifier::new(verifier.to_string()),
    );
    let token = CsrfToken::new(state.to_string());
    let request = client
        .authorize_url(move || token)
        .set_pkce_challenge(challenge)
        .add_scopes(scopes.iter().cloned().map(Scope::new));
    Some(request.url().0.to_string())
}

/// The record of one federation attempt that waits for its callback.
#[derive(Debug)]
pub struct FederationState {
    pub state_id: String,
    pub provider: OAuthProvider,
    pub pkce_verifier: Option<String>,
    pub return_url: String,
    pub expires_at: i64,
}

/// A federation attempt as a mathematical value.
pub struct FederationStateView {
    pub state_id: Seq<char>,
    pub provider: OAuthProvider,
    pub pkce_verifier: Option<Seq<char>>,
    pub return_url: Seq<char>,
    pub expires_at: int,
}

impl View for FederationState {
    type V = FederationStateView;

    open spec fn view(&self) -> FederationStateView {
        FederationStateView {
            state_id: self.state_id@,
            provider: self.provider,
            pkce_verifier: text_view(self.pkce_verifier),
            return_url: self.return_url@,
            expires_at: self.expires_at as int,
        }
    }
}

/// Whether no two attempts share a state value.
pub open spec fn distinct_states(rows: Seq<FederationStateView>) -> bool {
    forall|i: int, j: int|
        0 <= i < j < rows.len() ==> (#[trigger] rows[i]).state_id != (#[trigger] rows[j]).state_id
}

/// Whether an attempt waits under the state value.
pub open spec fn awaits(rows: Seq<FederationStateView>, state: Seq<char>) -> bool {
    exists|i: int| 0 <= i < rows.len() && (#[trigger] rows[i]).state_id == state
}

/// The place of an attempt that waits under the state value.
pub open spec fn attempt_place(rows: Seq<FederationStateView>, state: Seq<char>) -> int {
    choose|i: int| 0 <= i < rows.len() && (#[trigger] rows[i]).state_id == state
}

/// The attempt that waits under the state value.
pub open spec fn attempt_of(rows: Seq<FederationStateView>, state: Seq<char>) -> FederationStateView {
    rows[attempt_place(rows, state)]
}

/// The attempts without the one under the state value.
pub open spec fn without(rows: Seq<FederationStateView>, state: Seq<char>) -> Seq<
    FederationStateView,
> {
    if awaits(rows, state) {
        rows.remove(attempt_place(rows, state))
    } else {
        rows
    }
}

/// The federation attempts that wait for their callbacks, at most one under
/// each state value.
pub struct FederationStore {
    rows: Vec<FederationState>,
}

impl View for FederationStore {
    type V = Seq<FederationStateView>;

    closed spec fn view(&self) -> Seq<FederationStateView> {
        self.rows@.map_values(|s: FederationState| s@)
    }
}

impl FederationStore {
    /// Whether the store is well formed: no state value occurs twice.
    pub open spec fn wf(&self) -> bool {
        distinct_states(self@)
    }

    /// A store without attempts.
    pub fn new() -> (s: FederationStore)
        ensures
            s@ == Seq::<FederationStateView>::empty(),
            s.wf(),
    {
        let s = FederationStore { rows: Vec::new() };
        assert(s@ =~= Seq::<FederationStateView>::empty());
        s
    }

    /// The number of attempts that wait.
    pub fn len(&self) -> (n: usize)
        ensures
            n == self@.len(),
    {
        self.rows.len()
    }

    /// A copy of the attempt at a place.
    pub fn get(&self, index: usize) -> (r: Option<FederationState>)
        ensures
            match r {
                Some(row) => index < self@.len() && row@ == self@[index as int],
                None => index >= self@.len(),
            },
    {
        if index < self.rows.len() {
            let row = &self.rows[index];
            Some(
                FederationState {
                    state_id: row.state_id.clone(),
                    provider: row.provider,
                    pkce_verifier: match &row.pkce_verifier {
                        Some(v) => Some(v.clone()),
                        None => None,
                    },
                    return_url: row.return_url.clone(),
                    expires_at: row.expires_at,
                },
            )
        } else {
            None
        }
    }

    /// The place of the attempt that waits under a state value.
    pub fn position(&self, state: &str) -> (r: Option<usize>)
        ensures
            match r {
                Some(k) => k < self@.len() && self@[k as int].state_id == state@,
                None => !awaits(self@, state@),
            },
            self.wf() && r is Some ==> r->0 == attempt_place(self@, state@),
            r is Some <==> awaits(self@, state@),
    {
        let wanted = state.to_owned();
        let mut i: usize = 0;
        while i < self.rows.len()
            invariant
                i <= self.rows.len(),
                wanted@ == state@,
                forall|j: int| 0 <= j < i ==> (#[trigger] self@[j]).state_id != state@,
            decreases self.rows.len() - i,
        {
            if self.rows[i].state_id == wanted {
                assert(self@[i as int].state_id == state@);
                return Some(i);
            }
            i = i + 1;
        }
        None
    }

    /// Adds an attempt, unless one waits under its state value already.
    pub fn insert(&mut self, row: FederationState) -> (added: bool)
        requires
            old(self).wf(),
        ensures
            final(self).wf(),
            added == !awaits(old(self)@, row@.state_id),
            final(self)@ == (if added {
                old(self)@.push(row@)
            } else {
                old(self)@
            }),
    {
        if self.position(row.state_id.as_str()).is_some() {
            return false;
        }
        let ghost before = self@;
        self.rows.push(row);
        assert(self@ =~= before.push(row@));
        true
    }

    /// Takes the attempt under a state value out of the store.
    pub fn take(&mut self, state: &str) -> (r: Option<FederationState>)
        requires
            old(self).wf(),
        ensures
            final(self).wf(),
            final(self)@ == without(old(self)@, state@),
            match r {
                Some(row) => awaits(old(self)@, state@) && row@ == attempt_of(old(self)@, state@),
                None => !awaits(old(self)@, state@),
            },
    {
        match self.position(state) {
            None => None,
            Some(k) => {
                let ghost before = self@;
                let row = self.rows.remove(k);
                assert(self@ =~= before.remove(k as int));
                assert forall|i: int, j: int| 0 <= i < j < self@.len() implies (
                #[trigger] self@[i]).state_id != (#[trigger] self@[j]).state_id by {
                    let a = if i < k { i } else { i + 1 };
                    let b = if j < k { j } else { j + 1 };
                    assert(self@[i] == before[a]);
                    assert(self@[j] == before[b]);
                }
                Some(row)
            },
        }
    }
}


/// When an attempt that begins at `now` stops waiting.
pub open spec fn expiry_after(now: int) -> int {
    if now + FEDERATION_STATE_TTL_SECS > i64::MAX {
        i64::MAX as int
    } else {
        now + FEDERATION_STATE_TTL_SECS
    }
}

/// The authorization URL of a provider for scopes separated by commas and a
/// state, with the challenge of the verifier where the provider asks for one.
pub open spec fn authorization_url(
    provider: OAuthProvider,
    config: &Config,
    scopes: Seq<char>,
    state: Seq<char>,
    verifier: Seq<char>,
) -> Option<Seq<char>> {
    if provider.requires_pkce() {
        authorize_url_pkce_text(
            auth_url_of(provider),
            client_id_of(provider, config),
            redirect_url_of(provider, config),
            split_on(scopes, ','),
            state,
            verifier,
        )
    } else {
        authorize_url_text(
            auth_url_of(provider),
            client_id_of(provider, config),
            redirect_url_of(provider, config),
            split_on(scopes, ','),
            state,
        )
    }
}

/// Whether a name stands for a provider that asks for a PKCE verifier.
pub open spec fn asks_for_verifier(provider_name: Seq<char>) -> bool {
    provider_named(unicode_lowercase(provider_name)) matches Some(provider)
        && provider.requires_pkce()
}

/// What beginning an attempt returns and leaves in the store, the state and
/// the verifier given: the provider's authorization URL, and a new attempt
/// that waits under the state for ten minutes; the verifier is kept only for
/// a provider that asks for one. A name that stands for no provider, or
/// addresses that are no URLs, are `UnknownProvider`; a verifier of a wrong
/// length, where one is asked for, is `InvalidClaims`; a state in use is
/// `StoreUnavailable`.
pub open spec fn begin_spec(
    rows: Seq<FederationStateView>,
    config: &Config,
    provider_name: Seq<char>,
    scopes: Seq<char>,
    return_url: Seq<char>,
    now: int,
    state: Seq<char>,
    verifier: Seq<char>,
) -> (Result<Seq<char>, AuthError>, Seq<FederationStateView>) {
    match provider_named(unicode_lowercase(provider_name)) {
        None => (Err(AuthError::UnknownProvider), rows),
        Some(provider) => if provider.requires_pkce() && !fits_verifier(verifier) {
            (Err(AuthError::InvalidClaims), rows)
        } else {
            match authorization_url(provider, config, scopes, state, verifier) {
                None => (Err(AuthError::UnknownProvider), rows),
                Some(url) => begin_kept(rows, provider, url, return_url, now, state, verifier),
            }
        },
    }
}

/// What keeping a new attempt under a state returns and leaves in the store.
pub open spec fn begin_kept(
    rows: Seq<FederationStateView>,
    provider: OAuthProvider,
    url: Seq<char>,
    return_url: Seq<char>,
    now: int,
    state: Seq<char>,
    verifier: Seq<char>,
) -> (Result<Seq<char>, AuthError>, Seq<FederationStateView>) {
    if awaits(rows, state) {
        (Err(AuthError::StoreUnavailable), rows)
    } else {
        (
            Ok(url),
            rows.push(
                FederationStateView {
                    state_id: state,
                    provider,
                    pkce_verifier: if provider.requires_pkce() {
                        Some(verifier)
                    } else {
                        None
                    },
                    return_url,
                    expires_at: expiry_after(now),
                },
            ),
        )
    }
}

/// Whether the answer and the store are what beginning an attempt gives
/// under some state of twenty-two characters and, for a provider that asks
/// for one, some verifier of a fitting length.
pub open spec fn begun(
    r: Result<Seq<char>, AuthError>,
    after: Seq<FederationStateView>,
    before: Seq<FederationStateView>,
    config: &Config,
    provider_name: Seq<char>,
    scopes: Seq<char>,
    return_url: Seq<char>,
    now: int,
) -> bool {
    exists|state: Seq<char>, verifier: Seq<char>|
        state.len() == 22 && (asks_for_verifier(provider_name) ==> fits_verifier(verifier)) && (r, after)
            == #[trigger] begin_spec(
            before,
            config,
            provider_name,
            scopes,
            return_url,
            now,
            state,
            verifier,
        )
}

/// The query of a provider's callback.
#[derive(Debug)]
pub struct OAuthCallbackParams {
    pub code: String,
    pub state: String,
}

/// What the broker asks of a provider's token endpoint.
#[derive(Debug)]
pub struct TokenRequest {
    pub provider: OAuthProvider,
    pub token_url: String,
    pub client_id: String,
    pub client_secret: String,
    pub redirect_url: String,
    pub code: String,
    pub pkce_verifier: Option<String>,
    pub credentials_in_body: bool,
    pub return_url: String,
}

/// A request to a token endpoint as a mathematical value.
pub struct TokenRequestView {
    pub provider: OAuthProvider,
    pub token_url: Seq<char>,
    pub client_id: Seq<char>,
    pub client_secret: Seq<char>,
    pub redirect_url: Seq<char>,
    pub code: Seq<char>,
    pub pkce_verifier: Option<Seq<char>>,
    pub credentials_in_body: bool,
    pub return_url: Seq<char>,
}

impl View for TokenRequest {
    type V = TokenRequestView;

    open spec fn view(&self) -> TokenRequestView {
        TokenRequestView {
            provider: self.provider,
            token_url: self.token_url@,
            client_id: self.client_id@,
            client_secret: self.client_secret@,
            redirect_url: self.redirect_url@,
            code: self.code@,
            pkce_verifier: text_view(self.pkce_verifier),
            credentials_in_body: self.credentials_in_body,
            return_url: self.return_url@,
        }
    }
}

/// The request that an operation returned, as a mathematical value, or its
/// failure.
pub open spec fn request_result_view(r: Result<TokenRequest, AuthError>) -> Result<
    TokenRequestView,
    AuthError,
> {
    match r {
        Ok(t) => Ok(t@),
        Err(e) => Err(e),
    }
}

/// The exchange that an attempt leads to when its callback brings a code.
pub open spec fn exchange_for(row: FederationStateView, config: &Config, code: Seq<char>) -> TokenRequestView {
    TokenRequestView {
        provider: row.provider,
        token_url: token_url_of(row.provider),
        client_id: client_id_of(row.provider, config),
        client_secret: client_secret_of(row.provider, config),
        redirect_url: redirect_url_of(row.provider, config),
        code,
        pkce_verifier: row.pkce_verifier,
        credentials_in_body: row.provider.credentials_in_body(),
        return_url: row.return_url,
    }
}

/// What a callback leads to and leaves in the store. It fails closed with
/// `CsrfStateMismatchOrExpired` where no attempt waits under the state, where
/// the attempt is of another provider, and where it has expired. An attempt
/// of the provider is taken out of the store, expired or not, so that no
/// second callback finds it.
pub open spec fn complete_spec(
    rows: Seq<FederationStateView>,
    config: &Config,
    provider_name: Seq<char>,
    code: Seq<char>,
    state: Seq<char>,
    now: int,
) -> (Result<TokenRequestView, AuthError>, Seq<FederationStateView>) {
    if !awaits(rows, state) || provider_named(unicode_lowercase(provider_name)) != Some(
        attempt_of(rows, state).provider,
    ) {
        (Err(AuthError::CsrfStateMismatchOrExpired), rows)
    } else if now > attempt_of(rows, state).expires_at {
        (Err(AuthError::CsrfStateMismatchOrExpired), without(rows, state))
    } else {
        (Ok(exchange_for(attempt_of(rows, state), config, code)), without(rows, state))
    }
}

/// Begins a federation attempt at a given time under the state and the
/// verifier given: returns the provider's authorization URL and keeps the
/// attempt.
pub fn begin_with(
    store: &mut FederationStore,
    config: &Config,
    provider_name: &str,
    scopes: &str,
    return_url: &str,
    now: i64,
    state: String,
    verifier: String,
) -> (r: Result<String, AuthError>)
    requires
        old(store).wf(),
    ensures
        final(store).wf(),
        (text_result_view(r), final(store)@) == begin_spec(
            old(store)@,
            config,
            provider_name@,
            scopes@,
            return_url@,
            now as int,
            state@,
            verifier@,
        ),
{
    let provider = match OAuthProvider::from_str(provider_name) {
        Some(p) => p,
        None => { return Err(AuthError::UnknownProvider); },
    };
    let scope_list = split_at_char(scopes, ',');
    let client_id = provider.client_id(config);
    let redirect_url = provider.redirect_url(config);
    let built = if provider.requires_pkce() {
        let length = verifier.as_str().as_bytes().len();
        if length < 43 || length > 128 {
            return Err(AuthError::InvalidClaims);
        }
        authorize_url_pkce(
            provider.auth_url(),
            client_id.as_str(),
            redirect_url.as_str(),
            &scope_list,
            state.as_str(),
            verifier.as_str(),
        )
    } else {
        authorize_url(
            provider.auth_url(),
            client_id.as_str(),
            redirect_url.as_str(),
            &scope_list,
            state.as_str(),
        )
    };
    let url = match built {
        Some(u) => u,
        None => { return Err(AuthError::UnknownProvider); },
    };
    let expires_at: i64 = if now > i64::MAX - FEDERATION_STATE_TTL_SECS {
        i64::MAX
    } else {
        now + FEDERATION_STATE_TTL_SECS
    };
    let row = FederationState {
        state_id: state,
        provider,
        pkce_verifier: if provider.requires_pkce() {
            Some(verifier)
        } else {
            None
        },
        return_url: return_url.to_owned(),
        expires_at,
    };
    if !store.insert(row) {
        return Err(AuthError::StoreUnavailable);
    }
    Ok(url)
}

/// Begins a federation attempt at a given time under a fresh random state.
/// A fresh random verifier is drawn only for a provider that asks for one.
pub fn begin_at(
    store: &mut FederationStore,
    config: &Config,
    provider_name: &str,
    scopes: &str,
    return_url: &str,
    now: i64,
) -> (r: Result<String, AuthError>)
    requires
        old(store).wf(),
    ensures
        final(store).wf(),
        begun(
            text_result_view(r),
            final(store)@,
            old(store)@,
            config,
            provider_name@,
            scopes@,
            return_url@,
            now as int,
        ),
{
    let state = new_csrf_state();
    let asked = match OAuthProvider::from_str(provider_name) {
        Some(provider) => provider.requires_pkce(),
        None => false,
    };
    let verifier = if asked {
        new_pkce_verifier()
    } else {
        String::new()
    };
    let ghost state_text = state@;
    let ghost verifier_text = verifier@;
    let r = begin_with(store, config, provider_name, scopes, return_url, now, state, verifier);
    assert((text_result_view(r), store@) == begin_spec(
        old(store)@,
        config,
        provider_name@,
        scopes@,
        return_url@,
        now as int,
        state_text,
        verifier_text,
    ));
    r
}

/// Begins a federation attempt at the time that the machine's clock shows.
pub fn begin(
    store: &mut FederationStore,
    config: &Config,
    provider_name: &str,
    scopes: &str,
    return_url: &str,
) -> (r: Result<String, AuthError>)
    requires
        old(store).wf(),
    ensures
        final(store).wf(),
        exists|now: int| #[trigger]
            begun(
                text_result_view(r),
                final(store)@,
                old(store)@,
                config,
                provider_name@,
                scopes@,
                return_url@,
                now,
            ),
{
    let now = now_unix();
    let r = begin_at(store, config, provider_name, scopes, return_url, now);
    assert(begun(
        text_result_view(r),
        store@,
        old(store)@,
        config,
        provider_name@,
        scopes@,
        return_url@,
        now as int,
    ));
    r
}

/// Takes up the callback of a provider at a given time: consumes the attempt
/// that waits under the state and says what to ask of the token endpoint.
pub fn complete_at(
    store: &mut FederationStore,
    config: &Config,
    provider_name: &str,
    code: &str,
    state: &str,
    now: i64,
) -> (r: Result<TokenRequest, AuthError>)
    requires
        old(store).wf(),
    ensures
        final(store).wf(),
        (request_result_view(r), final(store)@) == complete_spec(
            old(store)@,
            config,
            provider_name@,
            code@,
            state@,
            now as int,
        ),
{
    let k = match store.position(state) {
        Some(k) => k,
        None => { return Err(AuthError::CsrfStateMismatchOrExpired); },
    };
    let named = OAuthProvider::from_str(provider_name);
    let waiting = store.rows[k].provider;
    match named {
        Some(p) => if p != waiting {
            return Err(AuthError::CsrfStateMismatchOrExpired);
        },
        None => { return Err(AuthError::CsrfStateMismatchOrExpired); },
    }
    let row = match store.take(state) {
        Some(row) => row,
        None => { return Err(AuthError::CsrfStateMismatchOrExpired); },
    };
    if now > row.expires_at {
        return Err(AuthError::CsrfStateMismatchOrExpired);
    }
    let provider = row.provider;
    Ok(
        TokenRequest {
            provider,
            token_url: provider.token_url().to_owned(),
            client_id: provider.client_id(config),
            client_secret: provider.client_secret(config),
            redirect_url: provider.redirect_url(config),
            code: code.to_owned(),
            pkce_verifier: row.pkce_verifier,
            credentials_in_body: provider.credentials_in_body(),
            return_url: row.return_url,
        },
    )
}

/// Takes up the callback of a provider at the time that the machine's clock
/// shows.
pub fn complete(
    store: &mut FederationStore,
    config: &Config,
    provider_name: &str,
    code: &str,
    state: &str,
) -> (r: Result<TokenRequest, AuthError>)
    requires
        old(store).wf(),
    ensures
        final(store).wf(),
        exists|now: int|
            (request_result_view(r), final(store)@) == #[trigger] complete_spec(
                old(store)@,
                config,
                provider_name@,
                code@,
                state@,
                now,
            ),
{
    let now = now_unix();
    let r = complete_at(store, config, provider_name, code, state, now);
    assert((request_result_view(r), store@) == complete_spec(
        old(store)@,
        config,
        provider_name@,
        code@,
        state@,
        now as int,
    ));
    r
}


/// Taking an attempt out of a store without repeated states leaves none
/// under its state, and leaves every other state as it was.
pub proof fn taken_state_is_gone(rows: Seq<FederationStateView>, state: Seq<char>, other: Seq<char>)
    requires
        distinct_states(rows),
    ensures
        !awaits(without(rows, state), state),
        other != state ==> awaits(without(rows, state), other) == awaits(rows, other),
        distinct_states(without(rows, state)),
{
    let after = without(rows, state);
    if awaits(rows, state) {
        let k = attempt_place(rows, state);
        assert forall|i: int| 0 <= i < after.len() implies (#[trigger] after[i]).state_id
            != state by {
            let a = if i < k { i } else { i + 1 };
            assert(after[i] == rows[a]);
            if a < k {
                assert(rows[a].state_id != rows[k].state_id);
            } else {
                assert(rows[k].state_id != rows[a].state_id);
            }
        }
        assert forall|i: int, j: int| 0 <= i < j < after.len() implies (#[trigger] after[i]).state_id
            != (#[trigger] after[j]).state_id by {
            let a = if i < k { i } else { i + 1 };
            let b = if j < k { j } else { j + 1 };
            assert(after[i] == rows[a]);
            assert(after[j] == rows[b]);
        }
        if other != state {
            if awaits(rows, other) {
                let m = attempt_place(rows, other);
                let n = if m < k { m } else { m - 1 };
                assert(after[n] == rows[m]);
            }
            if awaits(after, other) {
                let n = attempt_place(after, other);
                let m = if n < k { n } else { n + 1 };
                assert(rows[m] == after[n]);
            }
        }
    }
}

/// A callback with a state under which no attempt waits fails closed with
/// `CsrfStateMismatchOrExpired`, whatever provider and code it names, and
/// leaves the store as it is.
pub proof fn unknown_state_fails_closed(
    rows: Seq<FederationStateView>,
    config: &Config,
    provider_name: Seq<char>,
    code: Seq<char>,
    state: Seq<char>,
    now: int,
)
    requires
        !awaits(rows, state),
    ensures
        complete_spec(rows, config, provider_name, code, state, now) == (
            Err::<TokenRequestView, AuthError>(AuthError::CsrfStateMismatchOrExpired),
            rows,
        ),
{
}

/// Beginning an attempt makes no state wait but the one it was given: every
/// state that waits afterwards waited before or is the new one.
pub proof fn begin_adds_only_its_state(
    rows: Seq<FederationStateView>,
    config: &Config,
    provider_name: Seq<char>,
    scopes: Seq<char>,
    return_url: Seq<char>,
    now: int,
    state: Seq<char>,
    verifier: Seq<char>,
    other: Seq<char>,
)
    requires
        distinct_states(rows),
        other != state,
    ensures
        distinct_states(
            begin_spec(rows, config, provider_name, scopes, return_url, now, state, verifier).1,
        ),
        awaits(
            begin_spec(rows, config, provider_name, scopes, return_url, now, state, verifier).1,
            other,
        ) == awaits(rows, other),
{
    let after = begin_spec(rows, config, provider_name, scopes, return_url, now, state, verifier).1;
    if after != rows {
        let row = after[rows.len() as int];
        assert(after =~= rows.push(row));
        assert forall|i: int, j: int| 0 <= i < j < after.len() implies (#[trigger] after[i]).state_id
            != (#[trigger] after[j]).state_id by {
            if j < rows.len() {
                assert(rows[i].state_id != rows[j].state_id);
            } else {
                assert(after[i] == rows[i]);
            }
        }
        if awaits(rows, other) {
            let k = attempt_place(rows, other);
            assert(after[k] == rows[k]);
        }
        if awaits(after, other) {
            let k = attempt_place(after, other);
            assert(k < rows.len());
            assert(rows[k] == after[k]);
        }
    }
}

/// A state is consumed by the callback that it lets through: a second
/// callback with the same state fails closed, whatever else it names and
/// whenever it comes.
pub proof fn consumed_state_cannot_be_replayed(
    rows: Seq<FederationStateView>,
    config: &Config,
    provider_name: Seq<char>,
    code: Seq<char>,
    state: Seq<char>,
    now: int,
    later_provider_name: Seq<char>,
    later_code: Seq<char>,
    later: int,
)
    requires
        distinct_states(rows),
        complete_spec(rows, config, provider_name, code, state, now).0 is Ok,
    ensures
        complete_spec(
            complete_spec(rows, config, provider_name, code, state, now).1,
            config,
            later_provider_name,
            later_code,
            state,
            later,
        ) == (
            Err::<TokenRequestView, AuthError>(AuthError::CsrfStateMismatchOrExpired),
            complete_spec(rows, config, provider_name, code, state, now).1,
        ),
{
    taken_state_is_gone(rows, state, state);
}

} // verus!
