use auth_core::config::Config;
use auth_core::error::AuthError;
use auth_core::federation::{
    begin, begin_at, begin_with, complete, complete_at, FederationState, FederationStore,
    FEDERATION_STATE_TTL_SECS,
};
use auth_core::flow::{start, step, FlowAction, FlowEvent, FlowState};
use auth_core::identity::ProviderUser;
use auth_core::profiles::{GitHubEmail, GitHubUser, GoogleUser};
use auth_core::provider::OAuthProvider;

const NOW: i64 = 1_700_000_000;

fn config() -> Config {
    let s = |t: &str| t.to_string();
    Config {
        convex_url: s(""),
        client_origin: s("http://localhost:3000"),
        server_url: s("http://localhost:8000"),
        mailer_server: s("localhost"),
        mailer_port: 25,
        mailer_from: s("a@b.c"),
        mailer_from_name: s("A"),
        amazon_client_id: s("amazon-id"),
        amazon_client_secret: s("amazon-secret"),
        amazon_redirect_url: s("/cb/amazon"),
        facebook_client_id: s("facebook-id"),
        facebook_client_secret: s("facebook-secret"),
        facebook_redirect_url: s("/cb/facebook"),
        github_client_id: s("github-id"),
        github_client_secret: s("github-secret"),
        github_redirect_url: s("/cb/github"),
        google_client_id: s("google-id"),
        google_client_secret: s("google-secret"),
        google_redirect_url: s("/cb/google"),
        instagram_client_id: s("instagram-id"),
        instagram_client_secret: s("instagram-secret"),
        instagram_redirect_url: s("/cb/instagram"),
        linkedin_client_id: s("linkedin-id"),
        linkedin_client_secret: s("linkedin-secret"),
        linkedin_redirect_url: s("/cb/linkedin"),
        microsoft_client_id: s("microsoft-id"),
        microsoft_client_secret: s("microsoft-secret"),
        microsoft_redirect_url: s("/cb/microsoft"),
        reddit_client_id: s("reddit-id"),
        reddit_client_secret: s("reddit-secret"),
        reddit_redirect_url: s("/cb/reddit"),
        tiktok_client_id: s("tiktok-id"),
        tiktok_client_secret: s("tiktok-secret"),
        tiktok_redirect_url: s("/cb/tiktok"),
        twitch_client_id: s("twitch-id"),
        twitch_client_secret: s("twitch-secret"),
        twitch_redirect_url: s("/cb/twitch"),
        twitter_client_id: s("twitter-id"),
        twitter_client_secret: s("twitter-secret"),
        twitter_redirect_url: s("/cb/twitter"),
        auth_token: s(""),
        access_token_expires_in: s("15m"),
        access_token_max_age: 15,
        refresh_token_expires_in: s("60m"),
        refresh_token_max_age: 60,
    }
}

fn github_user(name: Option<&str>) -> GitHubUser {
    let s = |t: &str| t.to_string();
    GitHubUser {
        login: s("octo"),
        id: 1,
        node_id: s(""),
        avatar_url: s(""),
        gravatar_id: s(""),
        url: s(""),
        html_url: s(""),
        followers_url: s(""),
        following_url: s(""),
        gists_url: s(""),
        starred_url: s(""),
        subscriptions_url: s(""),
        organizations_url: s(""),
        repos_url: s(""),
        events_url: s(""),
        received_events_url: s(""),
        user_type: s("User"),
        user_view_type: s("public"),
        site_admin: false,
        name: name.map(|n| n.to_string()),
        company: None,
        blog: s(""),
        location: None,
        email: None,
        hireable: None,
        bio: None,
        twitter_username: None,
        notification_email: None,
        public_repos: 0,
        public_gists: 0,
        followers: 0,
        following: 0,
        created_at: s(""),
        updated_at: s(""),
    }
}

fn query(url: &str) -> Vec<(String, String)> {
    oauth2::url::Url::parse(url)
        .unwrap()
        .query_pairs()
        .map(|(k, v)| (k.to_string(), v.to_string()))
        .collect()
}

fn param(url: &str, key: &str) -> Option<String> {
    query(url).into_iter().find(|(k, _)| k == key).map(|(_, v)| v)
}

#[test]
fn the_state_waits_ten_minutes() {
    assert_eq!(FEDERATION_STATE_TTL_SECS, 600);
}

#[test]
fn begin_returns_the_authorization_url_and_keeps_the_state() {
    let mut store = FederationStore::new();
    let url = begin_at(&mut store, &config(), "github", "read:user", "https://app/done", NOW)
        .unwrap();
    assert!(url.starts_with("https://github.com/login/oauth/authorize?"));
    assert_eq!(param(&url, "response_type").unwrap(), "code");
    assert_eq!(param(&url, "client_id").unwrap(), "github-id");
    assert_eq!(param(&url, "scope").unwrap(), "read:user");
    assert_eq!(param(&url, "redirect_uri").unwrap(), "http://localhost:8000/cb/github");
    assert!(param(&url, "code_challenge").is_none());
    let state = param(&url, "state").unwrap();
    assert_eq!(state.len(), 22);
    assert_eq!(store.len(), 1);
    let row = store.get(0).unwrap();
    assert_eq!(row.state_id, state);
    assert_eq!(row.provider, OAuthProvider::Github);
    assert_eq!(row.pkce_verifier, None);
    assert_eq!(row.return_url, "https://app/done");
    assert_eq!(row.expires_at, NOW + 600);
}

#[test]
fn begin_takes_a_provider_name_in_any_case_and_several_scopes() {
    let mut store = FederationStore::new();
    let url = begin_at(&mut store, &config(), "GitHub", "read:user,user:email", "r", NOW).unwrap();
    assert_eq!(param(&url, "scope").unwrap(), "read:user user:email");
    let url = begin_at(&mut store, &config(), "GOOGLE", "", "r", NOW).unwrap();
    assert!(param(&url, "scope").is_none());
    assert_eq!(store.len(), 2);
    assert_ne!(store.get(0).unwrap().state_id, store.get(1).unwrap().state_id);
}

#[test]
fn begin_adds_a_challenge_only_for_a_provider_that_asks_for_one() {
    let mut store = FederationStore::new();
    let url = begin_at(&mut store, &config(), "twitter", "users.read", "r", NOW).unwrap();
    assert_eq!(param(&url, "code_challenge_method").unwrap(), "S256");
    assert_eq!(param(&url, "code_challenge").unwrap().len(), 43);
    let verifier = store.get(0).unwrap().pkce_verifier.unwrap();
    assert_eq!(verifier.len(), 43);
    assert_ne!(verifier, param(&url, "code_challenge").unwrap());
}

#[test]
fn begin_uses_the_secure_address_for_facebook_and_twitch() {
    let mut store = FederationStore::new();
    let url = begin_at(&mut store, &config(), "facebook", "email", "r", NOW).unwrap();
    assert_eq!(param(&url, "redirect_uri").unwrap(), "https://localhost:8443/cb/facebook");
    let url = begin_at(&mut store, &config(), "twitch", "email", "r", NOW).unwrap();
    assert_eq!(param(&url, "redirect_uri").unwrap(), "https://localhost:8443/cb/twitch");
}

#[test]
fn begin_does_not_know_other_providers() {
    let mut store = FederationStore::new();
    for name in ["", "gitlab", "git hub", "github "] {
        assert_eq!(
            begin_at(&mut store, &config(), name, "s", "r", NOW).unwrap_err(),
            AuthError::UnknownProvider
        );
    }
    assert_eq!(store.len(), 0);
}

#[test]
fn begin_fails_on_a_server_address_that_is_no_url() {
    let mut store = FederationStore::new();
    let mut c = config();
    c.server_url = "not a url".to_string();
    assert_eq!(
        begin_at(&mut store, &c, "github", "s", "r", NOW).unwrap_err(),
        AuthError::UnknownProvider
    );
    assert_eq!(store.len(), 0);
}

#[test]
fn begin_saturates_the_expiry() {
    let mut store = FederationStore::new();
    begin_at(&mut store, &config(), "github", "s", "r", i64::MAX - 5).unwrap();
    assert_eq!(store.get(0).unwrap().expires_at, i64::MAX);
}

#[test]
fn complete_with_an_unknown_state_fails_closed() {
    let mut store = FederationStore::new();
    begin_at(&mut store, &config(), "github", "s", "r", NOW).unwrap();
    for state in ["", "never-returned", "AAAAAAAAAAAAAAAAAAAAAA"] {
        assert_eq!(
            complete_at(&mut store, &config(), "github", "code", state, NOW).unwrap_err(),
            AuthError::CsrfStateMismatchOrExpired
        );
    }
    assert_eq!(store.len(), 1);
}

#[test]
fn complete_consumes_the_state_so_that_a_replay_fails() {
    let mut store = FederationStore::new();
    let url = begin_at(&mut store, &config(), "github", "s", "https://app/done", NOW).unwrap();
    let state = param(&url, "state").unwrap();
    let request = complete_at(&mut store, &config(), "github", "the-code", &state, NOW + 600)
        .unwrap();
    assert_eq!(request.provider, OAuthProvider::Github);
    assert_eq!(request.token_url, "https://github.com/login/oauth/access_token");
    assert_eq!(request.client_id, "github-id");
    assert_eq!(request.client_secret, "github-secret");
    assert_eq!(request.redirect_url, "http://localhost:8000/cb/github");
    assert_eq!(request.code, "the-code");
    assert_eq!(request.pkce_verifier, None);
    assert!(!request.credentials_in_body);
    assert_eq!(request.return_url, "https://app/done");
    assert_eq!(store.len(), 0);
    assert_eq!(
        complete_at(&mut store, &config(), "github", "the-code", &state, NOW).unwrap_err(),
        AuthError::CsrfStateMismatchOrExpired
    );
}

#[test]
fn complete_hands_the_verifier_on_and_knows_who_takes_credentials_in_the_body() {
    let mut store = FederationStore::new();
    let url = begin_at(&mut store, &config(), "twitter", "s", "r", NOW).unwrap();
    let verifier = store.get(0).unwrap().pkce_verifier;
    let r = complete_at(&mut store, &config(), "Twitter", "c", &param(&url, "state").unwrap(), NOW)
        .unwrap();
    assert!(verifier.is_some());
    assert_eq!(r.pkce_verifier, verifier);
    for (name, in_body) in [("linkedin", true), ("twitch", true), ("google", false)] {
        let url = begin_at(&mut store, &config(), name, "s", "r", NOW).unwrap();
        let r = complete_at(&mut store, &config(), name, "c", &param(&url, "state").unwrap(), NOW)
            .unwrap();
        assert_eq!(r.credentials_in_body, in_body);
    }
}

#[test]
fn complete_for_another_provider_fails_closed_and_keeps_the_state() {
    let mut store = FederationStore::new();
    let url = begin_at(&mut store, &config(), "github", "s", "r", NOW).unwrap();
    let state = param(&url, "state").unwrap();
    for name in ["google", "nobody", ""] {
        assert_eq!(
            complete_at(&mut store, &config(), name, "c", &state, NOW).unwrap_err(),
            AuthError::CsrfStateMismatchOrExpired
        );
    }
    assert_eq!(store.len(), 1);
    assert!(complete_at(&mut store, &config(), "github", "c", &state, NOW).is_ok());
}

#[test]
fn complete_after_the_expiry_fails_closed_and_drops_the_state() {
    let mut store = FederationStore::new();
    let url = begin_at(&mut store, &config(), "github", "s", "r", NOW).unwrap();
    let state = param(&url, "state").unwrap();
    assert_eq!(
        complete_at(&mut store, &config(), "github", "c", &state, NOW + 601).unwrap_err(),
        AuthError::CsrfStateMismatchOrExpired
    );
    assert_eq!(store.len(), 0);
}

#[test]
fn the_store_keeps_one_attempt_under_each_state() {
    let mut store = FederationStore::new();
    let row = |provider| FederationState {
        state_id: "s1".to_string(),
        provider,
        pkce_verifier: None,
        return_url: "r".to_string(),
        expires_at: 5,
    };
    assert!(store.insert(row(OAuthProvider::Google)));
    assert!(!store.insert(row(OAuthProvider::Github)));
    assert_eq!(store.position("s1"), Some(0));
    assert_eq!(store.position("s2"), None);
    assert!(store.take("s2").is_none());
    assert_eq!(store.take("s1").unwrap().provider, OAuthProvider::Google);
    assert!(store.take("s1").is_none());
    assert!(store.get(0).is_none());
}

#[test]
fn github_sign_in_from_begin_to_profile_asks_for_the_addresses_once() {
    let mut store = FederationStore::new();
    let url = begin(&mut store, &config(), "github", "read:user", "https://app/done").unwrap();
    assert!(param(&url, "client_id").is_some());
    assert_eq!(param(&url, "scope").unwrap(), "read:user");
    let state = param(&url, "state").unwrap();
    let request = complete(&mut store, &config(), "github", "stub-code", &state).unwrap();
    let mut email_lookups = 0;
    let mut flow = start(request.provider);
    let mut event = FlowEvent::TokenIssued { access_token: "gho_token".to_string() };
    let profile = loop {
        let (next, action) = step(flow, event);
        flow = next;
        event = match action {
            FlowAction::FetchProfile { request } => {
                assert_eq!(request.url, "https://api.github.com/user");
                assert_eq!(
                    request.headers,
                    vec![
                        ("Authorization".to_string(), "Bearer gho_token".to_string()),
                        ("User-Agent".to_string(), "your-app-name/1.0".to_string()),
                    ]
                );
                FlowEvent::ProfileFetched {
                    user: ProviderUser::Github(github_user(Some("Mona Lisa"))),
                    raw_payload: "{\"login\":\"octo\"}".to_string(),
                }
            }
            FlowAction::FetchEmails { request } => {
                email_lookups += 1;
                assert_eq!(request.url, "https://api.github.com/user/emails");
                assert_eq!(
                    request.headers,
                    vec![
                        ("Authorization".to_string(), "Bearer gho_token".to_string()),
                        ("User-Agent".to_string(), "Your-App-Name".to_string()),
                    ]
                );
                FlowEvent::EmailsFetched {
                    emails: vec![
                        GitHubEmail { email: "old@x.org".to_string(), primary: false, verified: true },
                        GitHubEmail { email: "new@x.org".to_string(), primary: true, verified: false },
                        GitHubEmail { email: "".to_string(), primary: true, verified: true },
                        GitHubEmail { email: "mona@x.org".to_string(), primary: true, verified: true },
                        GitHubEmail { email: "other@x.org".to_string(), primary: true, verified: true },
                    ],
                }
            }
            FlowAction::Finish { profile } => break profile,
            FlowAction::Fail { error } => panic!("{:?}", error),
        };
    };
    assert!(matches!(flow, FlowState::Finished));
    assert_eq!(email_lookups, 1);
    assert!(!profile.display_name.is_empty());
    assert_eq!(profile.display_name, "Mona Lisa");
    assert_eq!(profile.email, "mona@x.org");
    assert_eq!(profile.raw_payload, "{\"login\":\"octo\"}");
    assert_eq!(
        complete(&mut store, &config(), "github", "stub-code", &state).unwrap_err(),
        AuthError::CsrfStateMismatchOrExpired
    );
}

#[test]
fn a_provider_with_the_email_in_its_profile_finishes_without_a_second_request() {
    let flow = start(OAuthProvider::Google);
    let (flow, action) = step(flow, FlowEvent::TokenIssued { access_token: "t".to_string() });
    match action {
        FlowAction::FetchProfile { request } => {
            assert_eq!(request.url, "https://www.googleapis.com/oauth2/v3/userinfo");
            assert_eq!(request.headers, vec![("Authorization".to_string(), "Bearer t".to_string())]);
        }
        other => panic!("{:?}", other),
    }
    let user = GoogleUser {
        email: Some("g@x.org".to_string()),
        email_verified: Some(true),
        family_name: None,
        given_name: Some("Gina".to_string()),
        locale: None,
        picture: None,
    };
    let (flow, action) = step(
        flow,
        FlowEvent::ProfileFetched { user: ProviderUser::Google(user), raw_payload: "raw".to_string() },
    );
    assert!(matches!(flow, FlowState::Finished));
    match action {
        FlowAction::Finish { profile } => {
            assert_eq!(profile.email, "g@x.org");
            assert_eq!(profile.display_name, "Gina");
            assert_eq!(profile.raw_payload, "raw");
        }
        other => panic!("{:?}", other),
    }
}

#[test]
fn failures_of_the_provider_are_upstream_errors() {
    for state in [
        FlowState::AwaitingToken { provider: OAuthProvider::Github },
        FlowState::AwaitingProfile { provider: OAuthProvider::Github, access_token: "t".to_string() },
        FlowState::AwaitingEmails { display_name: "n".to_string(), raw_payload: "r".to_string() },
    ] {
        let (next, action) = step(state, FlowEvent::UpstreamFailed);
        assert!(matches!(next, FlowState::Finished));
        assert!(matches!(action, FlowAction::Fail { error: AuthError::UpstreamProviderError }));
    }
}

#[test]
fn reports_out_of_turn_end_the_attempt() {
    let (next, action) = step(
        FlowState::AwaitingToken { provider: OAuthProvider::Github },
        FlowEvent::EmailsFetched { emails: vec![] },
    );
    assert!(matches!(next, FlowState::Finished));
    assert!(matches!(action, FlowAction::Fail { error: AuthError::UpstreamProviderError }));
    let (_, action) = step(FlowState::Finished, FlowEvent::TokenIssued { access_token: "t".to_string() });
    assert!(matches!(action, FlowAction::Fail { error: AuthError::UpstreamProviderError }));
}

#[test]
fn a_profile_in_the_shape_of_another_provider_is_an_upstream_error() {
    let (_, action) = step(
        FlowState::AwaitingProfile { provider: OAuthProvider::Google, access_token: "t".to_string() },
        FlowEvent::ProfileFetched {
            user: ProviderUser::Github(github_user(Some("n"))),
            raw_payload: "r".to_string(),
        },
    );
    assert!(matches!(action, FlowAction::Fail { error: AuthError::UpstreamProviderError }));
}

#[test]
fn a_profile_or_an_account_without_what_is_needed_is_incomplete() {
    for name in [None, Some("")] {
        let (_, action) = step(
            FlowState::AwaitingProfile { provider: OAuthProvider::Github, access_token: "t".to_string() },
            FlowEvent::ProfileFetched {
                user: ProviderUser::Github(github_user(name)),
                raw_payload: "r".to_string(),
            },
        );
        assert!(matches!(action, FlowAction::Fail { error: AuthError::IncompleteProfile }));
    }
    let (_, action) = step(
        FlowState::AwaitingEmails { display_name: "n".to_string(), raw_payload: "r".to_string() },
        FlowEvent::EmailsFetched {
            emails: vec![GitHubEmail { email: "a@b.c".to_string(), primary: true, verified: false }],
        },
    );
    assert!(matches!(action, FlowAction::Fail { error: AuthError::IncompleteProfile }));
}

const VERIFIER: &str = "dBjftJeZ4CVP-mB92K27uhbUJU1p1r_wW1gFWFOEjXk";

#[test]
fn the_authorization_url_for_a_given_state() {
    let mut store = FederationStore::new();
    let url = begin_with(
        &mut store,
        &config(),
        "github",
        "read:user,user:email",
        "https://app/done",
        NOW,
        "the-state".to_string(),
        "ignored".to_string(),
    )
    .unwrap();
    assert_eq!(
        url,
        "https://github.com/login/oauth/authorize?response_type=code&client_id=github-id\
&state=the-state&redirect_uri=http%3A%2F%2Flocalhost%3A8000%2Fcb%2Fgithub\
&scope=read%3Auser+user%3Aemail"
    );
    let row = store.get(0).unwrap();
    assert_eq!(row.state_id, "the-state");
    assert_eq!(row.pkce_verifier, None);
}

#[test]
fn the_authorization_url_with_the_challenge_of_a_given_verifier() {
    let mut store = FederationStore::new();
    let url = begin_with(
        &mut store,
        &config(),
        "twitter",
        "users.read",
        "r",
        NOW,
        "s".to_string(),
        VERIFIER.to_string(),
    )
    .unwrap();
    assert_eq!(
        url,
        "https://x.com/i/oauth2/authorize?response_type=code&client_id=twitter-id&state=s\
&code_challenge=E9Melhoa2OwvFrEMTJguCHaoeK1t8URWbuGJSstw-cM&code_challenge_method=S256\
&redirect_uri=http%3A%2F%2Flocalhost%3A8000%2Fcb%2Ftwitter&scope=users.read"
    );
    assert_eq!(store.get(0).unwrap().pkce_verifier, Some(VERIFIER.to_string()));
}

#[test]
fn a_verifier_of_a_wrong_length_is_refused_where_one_is_asked_for() {
    let mut store = FederationStore::new();
    for verifier in ["", &"a".repeat(42), &"a".repeat(129), &"é".repeat(65)] {
        assert_eq!(
            begin_with(
                &mut store,
                &config(),
                "twitter",
                "s",
                "r",
                NOW,
                "s".to_string(),
                verifier.to_string()
            )
            .unwrap_err(),
            AuthError::InvalidClaims
        );
    }
    assert_eq!(store.len(), 0);
    for (state, verifier) in [("s1", "a".repeat(43)), ("s2", "a".repeat(128)), ("s3", "é".repeat(64))] {
        assert!(begin_with(
            &mut store,
            &config(),
            "twitter",
            "s",
            "r",
            NOW,
            state.to_string(),
            verifier
        )
        .is_ok());
    }
}

#[test]
fn a_state_in_use_makes_the_store_unavailable() {
    let mut store = FederationStore::new();
    let go = |store: &mut FederationStore, provider: &str| {
        begin_with(store, &config(), provider, "s", "r", NOW, "same".to_string(), VERIFIER.to_string())
    };
    assert!(go(&mut store, "github").is_ok());
    assert_eq!(go(&mut store, "github").unwrap_err(), AuthError::StoreUnavailable);
    assert_eq!(go(&mut store, "twitter").unwrap_err(), AuthError::StoreUnavailable);
    assert_eq!(store.len(), 1);
}
