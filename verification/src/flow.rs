use crate::error::AuthError;
use crate::identity::{
    additional_headers, additional_headers_of, headers_view, identity_of, normalize,
    primary_verified_email, profile_of, profile_url, profile_url_of, ProfileView, ProviderProfile,
    ProviderUser, verified_email,
};
use crate::profiles::GitHubEmail;
use crate::provider::OAuthProvider;
use crate::text::join;
use vstd::prelude::*;

verus! {

/// A request that the surroundings send for the broker.
#[derive(Debug)]
pub struct HttpGet {
    pub url: String,
    pub headers: Vec<(String, String)>,
}

/// A request as a mathematical value.
pub struct HttpGetView {
    pub url: Seq<char>,
    pub headers: Seq<(Seq<char>, Seq<char>)>,
}

impl View for HttpGet {
    type V = HttpGetView;

    open spec fn view(&self) -> HttpGetView {
        HttpGetView { url: self.url@, headers: headers_view(self.headers@) }
    }
}

/// Where a federation attempt stands after its callback was let through.
#[derive(Debug)]
pub enum FlowState {
    /// The code is being exchanged for an access token.
    AwaitingToken { provider: OAuthProvider },
    /// The profile is being fetched.
    AwaitingProfile { provider: OAuthProvider, access_token: String },
    /// The verified addresses of the account are being fetched.
    AwaitingEmails { display_name: String, raw_payload: String },
    /// The attempt has ended.
    Finished,
}

/// What the surroundings report to the broker.
#[derive(Debug)]
pub enum FlowEvent {
    /// The token endpoint issued an access token.
    TokenIssued { access_token: String },
    /// The profile endpoint answered; `raw_payload` is its answer as it came.
    ProfileFetched { user: ProviderUser, raw_payload: String },
    /// The endpoint for the account's addresses answered.
    EmailsFetched { emails: Vec<GitHubEmail> },
    /// A request failed, or its answer could not be read.
    UpstreamFailed,
}

/// What the broker asks of its surroundings.
#[derive(Debug)]
pub enum FlowAction {
    FetchProfile { request: HttpGet },
    FetchEmails { request: HttpGet },
    Finish { profile: ProviderProfile },
    Fail { error: AuthError },
}

/// The state of an attempt as a mathematical value.
pub enum FlowStateView {
    AwaitingToken { provider: OAuthProvider },
    AwaitingProfile { provider: OAuthProvider, access_token: Seq<char> },
    AwaitingEmails { display_name: Seq<char>, raw_payload: Seq<char> },
    Finished,
}

/// What the broker asks for, as a mathematical value.
pub enum FlowActionView {
    FetchProfile { request: HttpGetView },
    FetchEmails { request: HttpGetView },
    Finish { profile: ProfileView },
    Fail { error: AuthError },
}

impl View for FlowState {
    type V = FlowStateView;

    open spec fn view(&self) -> FlowStateView {
        match self {
            FlowState::AwaitingToken { provider } => FlowStateView::AwaitingToken {
                provider: *provider,
            },
            FlowState::AwaitingProfile { provider, access_token } => FlowStateView::AwaitingProfile {
                provider: *provider,
                access_token: access_token@,
            },
            FlowState::AwaitingEmails { display_name, raw_payload } => FlowStateView::AwaitingEmails {
                display_name: display_name@,
                raw_payload: raw_payload@,
            },
            FlowState::Finished => FlowStateView::Finished,
        }
    }
}

impl View for FlowAction {
    type V = FlowActionView;

    open spec fn view(&self) -> FlowActionView {
        match self {
            FlowAction::FetchProfile { request } => FlowActionView::FetchProfile {
                request: request@,
            },
            FlowAction::FetchEmails { request } => FlowActionView::FetchEmails { request: request@ },
            FlowAction::Finish { profile } => FlowActionView::Finish { profile: profile@ },
            FlowAction::Fail { error } => FlowActionView::Fail { error: *error },
        }
    }
}

/// The header that authorizes a request with an access token.
pub open spec fn bearer(access_token: Seq<char>) -> (Seq<char>, Seq<char>) {
    ("Authorization"@, "Bearer "@ + access_token)
}

/// The request for a provider's profile.
pub open spec fn profile_request(provider: OAuthProvider, access_token: Seq<char>) -> HttpGetView {
    HttpGetView {
        url: profile_url_of(provider),
        headers: seq![bearer(access_token)] + additional_headers_of(provider),
    }
}

/// The request for the addresses of an account.
pub open spec fn emails_request(access_token: Seq<char>) -> HttpGetView {
    HttpGetView {
        url: "https://api.github.com/user/emails"@,
        headers: seq![bearer(access_token), ("User-Agent"@, "Your-App-Name"@)],
    }
}

/// The step that ends an attempt with a failure.
pub open spec fn fails_with(error: AuthError) -> (FlowStateView, FlowActionView) {
    (FlowStateView::Finished, FlowActionView::Fail { error })
}

/// The next state and what to do. An access token leads to the request for
/// the profile. The profile is read as the provider's; a provider that keeps
/// the email apart is asked for the account's addresses next, once, and the
/// first primary and verified one becomes the email. A failed request, and a
/// report out of turn, end the attempt with `UpstreamProviderError`; a
/// profile without email or display name ends it with `IncompleteProfile`.
pub open spec fn next_step(state: FlowStateView, event: &FlowEvent) -> (
    FlowStateView,
    FlowActionView,
) {
    match (state, event) {
        (FlowStateView::AwaitingToken { provider }, FlowEvent::TokenIssued { access_token }) => (
            FlowStateView::AwaitingProfile { provider, access_token: access_token@ },
            FlowActionView::FetchProfile { request: profile_request(provider, access_token@) },
        ),
        (
            FlowStateView::AwaitingProfile { provider, access_token },
            FlowEvent::ProfileFetched { user, raw_payload },
        ) => match profile_of(identity_of(provider, user), raw_payload@) {
            Err(e) => fails_with(e),
            Ok(profile) => if provider.needs_verified_email() {
                (
                    FlowStateView::AwaitingEmails {
                        display_name: profile.display_name,
                        raw_payload: profile.raw_payload,
                    },
                    FlowActionView::FetchEmails { request: emails_request(access_token) },
                )
            } else {
                (FlowStateView::Finished, FlowActionView::Finish { profile })
            },
        },
        (
            FlowStateView::AwaitingEmails { display_name, raw_payload },
            FlowEvent::EmailsFetched { emails },
        ) => match verified_email(emails@) {
            Err(e) => fails_with(e),
            Ok(email) => (
                FlowStateView::Finished,
                FlowActionView::Finish { profile: ProfileView { email, display_name, raw_payload } },
            ),
        },
        _ => fails_with(AuthError::UpstreamProviderError),
    }
}

fn bearer_header(access_token: &str) -> (r: (String, String))
    ensures
        (r.0@, r.1@) == bearer(access_token@),
{
    ("Authorization".to_owned(), join("Bearer ", access_token))
}

fn request_profile(provider: OAuthProvider, access_token: &str) -> (r: HttpGet)
    ensures
        r@ == profile_request(provider, access_token@),
{
    let mut headers: Vec<(String, String)> = Vec::new();
    headers.push(bearer_header(access_token));
    let mut more = additional_headers(provider);
    let ghost extra = headers_view(more@);
    let ghost first = headers_view(headers@);
    headers.append(&mut more);
    assert(headers_view(headers@) =~= first + extra);
    assert(first =~= seq![bearer(access_token@)]);
    HttpGet { url: profile_url(provider).to_owned(), headers }
}

fn request_emails(access_token: &str) -> (r: HttpGet)
    ensures
        r@ == emails_request(access_token@),
{
    let mut headers: Vec<(String, String)> = Vec::new();
    headers.push(bearer_header(access_token));
    headers.push(("User-Agent".to_owned(), "Your-App-Name".to_owned()));
    assert(headers_view(headers@) =~= seq![
        bearer(access_token@),
        ("User-Agent"@, "Your-App-Name"@),
    ]);
    HttpGet { url: "https://api.github.com/user/emails".to_owned(), headers }
}

/// The state in which an attempt waits for its access token.
pub fn start(provider: OAuthProvider) -> (r: FlowState)
    ensures
        r@ == (FlowStateView::AwaitingToken { provider }),
{
    FlowState::AwaitingToken { provider }
}

/// The next state of an attempt and what to do, for what was reported.
pub fn step(state: FlowState, event: FlowEvent) -> (r: (FlowState, FlowAction))
    ensures
        (r.0@, r.1@) == next_step(state@, &event),
{
    match (state, event) {
        (FlowState::AwaitingToken { provider }, FlowEvent::TokenIssued { access_token }) => {
            let request = request_profile(provider, access_token.as_str());
            (
                FlowState::AwaitingProfile { provider, access_token },
                FlowAction::FetchProfile { request },
            )
        },
        (
            FlowState::AwaitingProfile { provider, access_token },
            FlowEvent::ProfileFetched { user, raw_payload },
        ) => match normalize(provider, user, raw_payload) {
            Err(error) => (FlowState::Finished, FlowAction::Fail { error }),
            Ok(profile) => if provider.needs_verified_email() {
                let request = request_emails(access_token.as_str());
                (
                    FlowState::AwaitingEmails {
                        display_name: profile.display_name,
                        raw_payload: profile.raw_payload,
                    },
                    FlowAction::FetchEmails { request },
                )
            } else {
                (FlowState::Finished, FlowAction::Finish { profile })
            },
        },
        (
            FlowState::AwaitingEmails { display_name, raw_payload },
            FlowEvent::EmailsFetched { emails },
        ) => match primary_verified_email(&emails) {
            Err(error) => (FlowState::Finished, FlowAction::Fail { error }),
            Ok(email) => (
                FlowState::Finished,
                FlowAction::Finish { profile: ProviderProfile { email, display_name, raw_payload } },
            ),
        },
        _ => (FlowState::Finished, FlowAction::Fail { error: AuthError::UpstreamProviderError }),
    }
}

/// Whether a state can be reached from the start of an attempt: what waits
/// for the addresses carries a display name.
pub open spec fn reachable(state: FlowStateView) -> bool {
    state matches FlowStateView::AwaitingEmails { display_name, .. } ==> display_name.len() > 0
}

/// An attempt ends with a complete profile or with a failure: every profile
/// that is handed out has an email and a display name, and every state that
/// follows a reachable one is reachable. A failure is never taken for a
/// profile: a failed request ends the attempt with `UpstreamProviderError`.
pub proof fn finished_profiles_are_complete(state: FlowStateView, event: &FlowEvent)
    requires
        reachable(state),
    ensures
        reachable(next_step(state, event).0),
        next_step(state, event).1 matches FlowActionView::Finish { profile } ==> profile.email.len()
            > 0 && profile.display_name.len() > 0,
        event is UpstreamFailed ==> next_step(state, event) == fails_with(
            AuthError::UpstreamProviderError,
        ),
{
    match (state, event) {
        (FlowStateView::AwaitingProfile { provider, .. }, FlowEvent::ProfileFetched { user, raw_payload }) => {
            if profile_of(identity_of(provider, user), raw_payload@) is Ok {
                crate::identity::normalized_profiles_are_complete(provider, user, raw_payload@);
            }
        },
        (FlowStateView::AwaitingEmails { .. }, FlowEvent::EmailsFetched { emails }) => {
            first_usable_is_usable(emails@);
        },
        _ => {},
    }
}

/// The address that is picked is usable: it is not empty.
pub proof fn first_usable_is_usable(emails: Seq<GitHubEmail>)
    ensures
        crate::identity::first_usable(emails) matches Some(i) ==> 0 <= i < emails.len()
            && crate::identity::usable(&emails[i]),
    decreases emails.len(),
{
    if emails.len() > 0 && !crate::identity::usable(&emails[0]) {
        first_usable_is_usable(emails.skip(1));
    }
}

/// The addresses of an account are asked for only on the way from the
/// profile of a provider that keeps the email apart, so at most once in an
/// attempt: the state that follows waits for nothing else.
pub proof fn addresses_are_asked_for_once(state: FlowStateView, event: &FlowEvent)
    ensures
        next_step(state, event).1 is FetchEmails ==> (state matches FlowStateView::AwaitingProfile {
            provider,
            ..
        } && provider.needs_verified_email()) && next_step(state, event).0 is AwaitingEmails,
        state is AwaitingEmails ==> !(next_step(state, event).1 is FetchEmails) && next_step(
            state,
            event,
        ).0 is Finished,
{
}

} // verus!
