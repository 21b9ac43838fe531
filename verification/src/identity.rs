use crate::error::AuthError;
use crate::profiles::{
    AmazonUser, FacebookUser, GitHubEmail, GitHubUser, GoogleUser, InstagramUser, LinkedInUser,
    MicrosoftUser, RedditUser, TiktokUser, TwitchUser, TwitterUser,
};
use crate::provider::{name_of, OAuthProvider};
use crate::text::{chars_of, push_all, string_of, to_lowercase, unicode_lowercase};
use crate::views::{text_result_view, text_view};
use vstd::prelude::*;

verus! {

/// The identity that a provider vouches for, in one form for all providers.
#[derive(Debug)]
pub struct ProviderProfile {
    pub email: String,
    pub display_name: String,
    pub raw_payload: String,
}

/// A profile as a mathematical value.
pub struct ProfileView {
    pub email: Seq<char>,
    pub display_name: Seq<char>,
    pub raw_payload: Seq<char>,
}

impl View for ProviderProfile {
    type V = ProfileView;

    open spec fn view(&self) -> ProfileView {
        ProfileView {
            email: self.email@,
            display_name: self.display_name@,
            raw_payload: self.raw_payload@,
        }
    }
}

/// A field of a profile that is there and not empty.
pub open spec fn present(field: Option<String>) -> Option<Seq<char>> {
    match field {
        Some(s) => if s@.len() > 0 {
            Some(s@)
        } else {
            None
        },
        None => None,
    }
}

/// The address that stands in for the email of a user whose provider gives
/// none: the handle in lowercase at the provider's name under `.local`.
pub open spec fn placeholder_email(handle: Seq<char>, provider: OAuthProvider) -> Seq<char> {
    unicode_lowercase(handle) + "@"@ + name_of(provider) + ".local"@
}

/// The address that stands in for the email of a handle, where there is one.
pub open spec fn placeholder_for(handle: Option<Seq<char>>, provider: OAuthProvider) -> Option<
    Seq<char>,
> {
    match handle {
        Some(h) => Some(placeholder_email(h, provider)),
        None => None,
    }
}

/// Email and display name, where both are there; else `IncompleteProfile`.
pub open spec fn identity_from(email: Option<Seq<char>>, name: Option<Seq<char>>) -> Result<
    (Seq<char>, Seq<char>),
    AuthError,
> {
    match (email, name) {
        (Some(e), Some(n)) => Ok((e, n)),
        _ => Err(AuthError::IncompleteProfile),
    }
}

/// The profile of an identity with the provider's answer as it came.
pub open spec fn profile_of(identity: Result<(Seq<char>, Seq<char>), AuthError>, raw: Seq<char>) -> Result<
    ProfileView,
    AuthError,
> {
    match identity {
        Ok(pair) => Ok(ProfileView { email: pair.0, display_name: pair.1, raw_payload: raw }),
        Err(e) => Err(e),
    }
}

/// The profile that an operation returned, as a mathematical value, or its
/// failure.
pub open spec fn profile_result_view(r: Result<ProviderProfile, AuthError>) -> Result<
    ProfileView,
    AuthError,
> {
    match r {
        Ok(p) => Ok(p@),
        Err(e) => Err(e),
    }
}

/// The characters of each name and value of a list of headers.
pub open spec fn headers_view(h: Seq<(String, String)>) -> Seq<(Seq<char>, Seq<char>)> {
    h.map_values(|p: (String, String)| (p.0@, p.1@))
}

/// The address of a provider's profile.
pub open spec fn profile_url_of(p: OAuthProvider) -> Seq<char> {
    match p {
        OAuthProvider::Amazon => "https://api.amazon.com/user/profile"@,
        OAuthProvider::Facebook => "https://graph.facebook.com/me?fields=name,email"@,
        OAuthProvider::Github => "https://api.github.com/user"@,
        OAuthProvider::Google => "https://www.googleapis.com/oauth2/v3/userinfo"@,
        OAuthProvider::Instagram => "https://graph.instagram.com/me?fields=id,username,email"@,
        OAuthProvider::LinkedIn => "https://api.linkedin.com/v2/userinfo"@,
        OAuthProvider::Microsoft => "https://graph.microsoft.com/v1.0/me"@,
        OAuthProvider::Reddit => "https://oauth.reddit.com/api/v1/me"@,
        OAuthProvider::Tiktok => "https://open-api.tiktok.com/user/info/"@,
        OAuthProvider::Twitch => "https://api.twitch.tv/helix/users"@,
        OAuthProvider::Twitter => "https://api.twitter.com/2/users/me"@,
    }
}

/// The headers that a provider wants beside the authorization.
pub open spec fn additional_headers_of(p: OAuthProvider) -> Seq<(Seq<char>, Seq<char>)> {
    if p == OAuthProvider::Facebook || p == OAuthProvider::Github || p == OAuthProvider::Reddit {
        seq![("User-Agent"@, "your-app-name/1.0"@)]
    } else {
        Seq::<(Seq<char>, Seq<char>)>::empty()
    }
}

/// What the broker needs to know of a provider to read its profile.
pub trait OAuthProfileProvider {
    /// The shape of the provider's profile.
    type User;

    spec fn which(&self) -> OAuthProvider;

    /// Email and display name that a profile gives.
    spec fn identity(user: &Self::User) -> Result<(Seq<char>, Seq<char>), AuthError>;

    fn provider(&self) -> (r: OAuthProvider)
        ensures
            r == self.which(),
    ;

    fn profile_url(&self) -> (r: &'static str)
        ensures
            r@ == profile_url_of(self.which()),
    ;

    fn additional_headers(&self) -> (r: Vec<(String, String)>)
        ensures
            headers_view(r@) == additional_headers_of(self.which()),
    ;

    fn extract_user_info(&self, user: Self::User, raw_payload: String) -> (r: Result<
        ProviderProfile,
        AuthError,
    >)
        ensures
            profile_result_view(r) == profile_of(Self::identity(&user), raw_payload@),
    ;
}

fn filled(field: Option<String>) -> (r: Option<String>)
    ensures
        text_view(r) == present(field),
{
    match field {
        Some(s) => if !s.as_str().is_empty() {
            Some(s)
        } else {
            None
        },
        None => None,
    }
}

fn placeholder(handle: &str, provider: OAuthProvider) -> (r: String)
    ensures
        r@ == placeholder_email(handle@, provider),
{
    let mut out = chars_of(to_lowercase(handle).as_str());
    push_all(&mut out, &chars_of("@"));
    push_all(&mut out, &chars_of(provider.name()));
    push_all(&mut out, &chars_of(".local"));
    string_of(&out)
}

fn profile_from(email: Option<String>, name: Option<String>, raw_payload: String) -> (r: Result<
    ProviderProfile,
    AuthError,
>)
    ensures
        profile_result_view(r) == profile_of(
            identity_from(text_view(email), text_view(name)),
            raw_payload@,
        ),
{
    match (email, name) {
        (Some(email), Some(display_name)) => Ok(ProviderProfile { email, display_name, raw_payload }),
        _ => Err(AuthError::IncompleteProfile),
    }
}

fn no_headers() -> (r: Vec<(String, String)>)
    ensures
        headers_view(r@) == Seq::<(Seq<char>, Seq<char>)>::empty(),
{
    let r: Vec<(String, String)> = Vec::new();
    assert(headers_view(r@) =~= Seq::<(Seq<char>, Seq<char>)>::empty());
    r
}

fn user_agent_header() -> (r: Vec<(String, String)>)
    ensures
        headers_view(r@) == seq![("User-Agent"@, "your-app-name/1.0"@)],
{
    let mut r: Vec<(String, String)> = Vec::new();
    r.push(("User-Agent".to_owned(), "your-app-name/1.0".to_owned()));
    assert(headers_view(r@) =~= seq![("User-Agent"@, "your-app-name/1.0"@)]);
    r
}

/// Reads the profiles of Amazon.
pub struct AmazonProvider;

impl OAuthProfileProvider for AmazonProvider {
    type User = AmazonUser;

    open spec fn which(&self) -> OAuthProvider {
        OAuthProvider::Amazon
    }

    open spec fn identity(user: &AmazonUser) -> Result<(Seq<char>, Seq<char>), AuthError> {
        identity_from(present(user.email), present(user.name))
    }

    fn provider(&self) -> OAuthProvider {
        OAuthProvider::Amazon
    }

    fn profile_url(&self) -> &'static str {
        "https://api.amazon.com/user/profile"
    }

    fn additional_headers(&self) -> Vec<(String, String)> {
        no_headers()
    }

    fn extract_user_info(&self, user: AmazonUser, raw_payload: String) -> Result<
        ProviderProfile,
        AuthError,
    > {
        profile_from(filled(user.email), filled(user.name), raw_payload)
    }
}


/// Reads the profiles of Facebook, which give no email.
pub struct FacebookProvider;

impl OAuthProfileProvider for FacebookProvider {
    type User = FacebookUser;

    open spec fn which(&self) -> OAuthProvider {
        OAuthProvider::Facebook
    }

    open spec fn identity(user: &FacebookUser) -> Result<(Seq<char>, Seq<char>), AuthError> {
        identity_from(
            placeholder_for(present(user.name), OAuthProvider::Facebook),
            present(user.name),
        )
    }

    fn provider(&self) -> OAuthProvider {
        OAuthProvider::Facebook
    }

    fn profile_url(&self) -> &'static str {
        "https://graph.facebook.com/me?fields=name,email"
    }

    fn additional_headers(&self) -> Vec<(String, String)> {
        user_agent_header()
    }

    fn extract_user_info(&self, user: FacebookUser, raw_payload: String) -> Result<
        ProviderProfile,
        AuthError,
    > {
        let name = filled(user.name);
        let email = match &name {
            Some(handle) => Some(placeholder(handle.as_str(), OAuthProvider::Facebook)),
            None => None,
        };
        profile_from(email, name, raw_payload)
    }
}

/// Reads the profiles of GitHub, which keeps the email apart.
pub struct GithubProvider;

impl OAuthProfileProvider for GithubProvider {
    type User = GitHubUser;

    open spec fn which(&self) -> OAuthProvider {
        OAuthProvider::Github
    }

    open spec fn identity(user: &GitHubUser) -> Result<(Seq<char>, Seq<char>), AuthError> {
        identity_from(Some(Seq::<char>::empty()), present(user.name))
    }

    fn provider(&self) -> OAuthProvider {
        OAuthProvider::Github
    }

    fn profile_url(&self) -> &'static str {
        "https://api.github.com/user"
    }

    fn additional_headers(&self) -> Vec<(String, String)> {
        user_agent_header()
    }

    fn extract_user_info(&self, user: GitHubUser, raw_payload: String) -> Result<
        ProviderProfile,
        AuthError,
    > {
        profile_from(Some(String::new()), filled(user.name), raw_payload)
    }
}

/// Reads the profiles of Google.
pub struct GoogleProvider;

impl OAuthProfileProvider for GoogleProvider {
    type User = GoogleUser;

    open spec fn which(&self) -> OAuthProvider {
        OAuthProvider::Google
    }

    open spec fn identity(user: &GoogleUser) -> Result<(Seq<char>, Seq<char>), AuthError> {
        identity_from(present(user.email), present(user.given_name))
    }

    fn provider(&self) -> OAuthProvider {
        OAuthProvider::Google
    }

    fn profile_url(&self) -> &'static str {
        "https://www.googleapis.com/oauth2/v3/userinfo"
    }

    fn additional_headers(&self) -> Vec<(String, String)> {
        no_headers()
    }

    fn extract_user_info(&self, user: GoogleUser, raw_payload: String) -> Result<
        ProviderProfile,
        AuthError,
    > {
        profile_from(filled(user.email), filled(user.given_name), raw_payload)
    }
}

/// Reads the profiles of Instagram, which give no email.
pub struct InstagramProvider;

impl OAuthProfileProvider for InstagramProvider {
    type User = InstagramUser;

    open spec fn which(&self) -> OAuthProvider {
        OAuthProvider::Instagram
    }

    open spec fn identity(user: &InstagramUser) -> Result<(Seq<char>, Seq<char>), AuthError> {
        identity_from(
            placeholder_for(present(user.username), OAuthProvider::Instagram),
            present(user.full_name),
        )
    }

    fn provider(&self) -> OAuthProvider {
        OAuthProvider::Instagram
    }

    fn profile_url(&self) -> &'static str {
        "https://graph.instagram.com/me?fields=id,username,email"
    }

    fn additional_headers(&self) -> Vec<(String, String)> {
        no_headers()
    }

    fn extract_user_info(&self, user: InstagramUser, raw_payload: String) -> Result<
        ProviderProfile,
        AuthError,
    > {
        let email = match filled(user.username) {
            Some(handle) => Some(placeholder(handle.as_str(), OAuthProvider::Instagram)),
            None => None,
        };
        profile_from(email, filled(user.full_name), raw_payload)
    }
}

/// Reads the profiles of LinkedIn.
pub struct LinkedInProvider;

impl OAuthProfileProvider for LinkedInProvider {
    type User = LinkedInUser;

    open spec fn which(&self) -> OAuthProvider {
        OAuthProvider::LinkedIn
    }

    open spec fn identity(user: &LinkedInUser) -> Result<(Seq<char>, Seq<char>), AuthError> {
        identity_from(present(user.email), present(user.name))
    }

    fn provider(&self) -> OAuthProvider {
        OAuthProvider::LinkedIn
    }

    fn profile_url(&self) -> &'static str {
        "https://api.linkedin.com/v2/userinfo"
    }

    fn additional_headers(&self) -> Vec<(String, String)> {
        no_headers()
    }

    fn extract_user_info(&self, user: LinkedInUser, raw_payload: String) -> Result<
        ProviderProfile,
        AuthError,
    > {
        profile_from(filled(user.email), filled(user.name), raw_payload)
    }
}

/// Reads the profiles of Microsoft.
pub struct MicrosoftProvider;

impl OAuthProfileProvider for MicrosoftProvider {
    type User = MicrosoftUser;

    open spec fn which(&self) -> OAuthProvider {
        OAuthProvider::Microsoft
    }

    open spec fn identity(user: &MicrosoftUser) -> Result<(Seq<char>, Seq<char>), AuthError> {
        identity_from(present(user.mail), present(user.display_name))
    }

    fn provider(&self) -> OAuthProvider {
        OAuthProvider::Microsoft
    }

    fn profile_url(&self) -> &'static str {
        "https://graph.microsoft.com/v1.0/me"
    }

    fn additional_headers(&self) -> Vec<(String, String)> {
        no_headers()
    }

    fn extract_user_info(&self, user: MicrosoftUser, raw_payload: String) -> Result<
        ProviderProfile,
        AuthError,
    > {
        profile_from(filled(user.mail), filled(user.display_name), raw_payload)
    }
}

/// Reads the profiles of Reddit, which give no email.
pub struct RedditProvider;

impl OAuthProfileProvider for RedditProvider {
    type User = RedditUser;

    open spec fn which(&self) -> OAuthProvider {
        OAuthProvider::Reddit
    }

    open spec fn identity(user: &RedditUser) -> Result<(Seq<char>, Seq<char>), AuthError> {
        identity_from(
            placeholder_for(present(user.name), OAuthProvider::Reddit),
            present(user.name),
        )
    }

    fn provider(&self) -> OAuthProvider {
        OAuthProvider::Reddit
    }

    fn profile_url(&self) -> &'static str {
        "https://oauth.reddit.com/api/v1/me"
    }

    fn additional_headers(&self) -> Vec<(String, String)> {
        user_agent_header()
    }

    fn extract_user_info(&self, user: RedditUser, raw_payload: String) -> Result<
        ProviderProfile,
        AuthError,
    > {
        let name = filled(user.name);
        let email = match &name {
            Some(handle) => Some(placeholder(handle.as_str(), OAuthProvider::Reddit)),
            None => None,
        };
        profile_from(email, name, raw_payload)
    }
}

/// Reads the profiles of TikTok, which give no email.
pub struct TiktokProvider;

impl OAuthProfileProvider for TiktokProvider {
    type User = TiktokUser;

    open spec fn which(&self) -> OAuthProvider {
        OAuthProvider::Tiktok
    }

    open spec fn identity(user: &TiktokUser) -> Result<(Seq<char>, Seq<char>), AuthError> {
        identity_from(
            placeholder_for(present(user.nickname), OAuthProvider::Tiktok),
            present(user.nickname),
        )
    }

    fn provider(&self) -> OAuthProvider {
        OAuthProvider::Tiktok
    }

    fn profile_url(&self) -> &'static str {
        "https://open-api.tiktok.com/user/info/"
    }

    fn additional_headers(&self) -> Vec<(String, String)> {
        no_headers()
    }

    fn extract_user_info(&self, user: TiktokUser, raw_payload: String) -> Result<
        ProviderProfile,
        AuthError,
    > {
        let name = filled(user.nickname);
        let email = match &name {
            Some(handle) => Some(placeholder(handle.as_str(), OAuthProvider::Tiktok)),
            None => None,
        };
        profile_from(email, name, raw_payload)
    }
}

/// Reads the profiles of Twitch.
pub struct TwitchProvider;

impl OAuthProfileProvider for TwitchProvider {
    type User = TwitchUser;

    open spec fn which(&self) -> OAuthProvider {
        OAuthProvider::Twitch
    }

    open spec fn identity(user: &TwitchUser) -> Result<(Seq<char>, Seq<char>), AuthError> {
        identity_from(present(user.email), present(user.display_name))
    }

    fn provider(&self) -> OAuthProvider {
        OAuthProvider::Twitch
    }

    fn profile_url(&self) -> &'static str {
        "https://api.twitch.tv/helix/users"
    }

    fn additional_headers(&self) -> Vec<(String, String)> {
        no_headers()
    }

    fn extract_user_info(&self, user: TwitchUser, raw_payload: String) -> Result<
        ProviderProfile,
        AuthError,
    > {
        profile_from(filled(user.email), filled(user.display_name), raw_payload)
    }
}

/// Reads the profiles of Twitter, which give no email.
pub struct TwitterProvider;

impl OAuthProfileProvider for TwitterProvider {
    type User = TwitterUser;

    open spec fn which(&self) -> OAuthProvider {
        OAuthProvider::Twitter
    }

    open spec fn identity(user: &TwitterUser) -> Result<(Seq<char>, Seq<char>), AuthError> {
        identity_from(
            placeholder_for(present(user.username), OAuthProvider::Twitter),
            present(user.name),
        )
    }

    fn provider(&self) -> OAuthProvider {
        OAuthProvider::Twitter
    }

    fn profile_url(&self) -> &'static str {
        "https://api.twitter.com/2/users/me"
    }

    fn additional_headers(&self) -> Vec<(String, String)> {
        no_headers()
    }

    fn extract_user_info(&self, user: TwitterUser, raw_payload: String) -> Result<
        ProviderProfile,
        AuthError,
    > {
        let email = match filled(user.username) {
            Some(handle) => Some(placeholder(handle.as_str(), OAuthProvider::Twitter)),
            None => None,
        };
        profile_from(email, filled(user.name), raw_payload)
    }
}


/// The profile of a user in the shape of the provider that returned it.
#[derive(Debug)]
pub enum ProviderUser {
    Amazon(AmazonUser),
    Facebook(FacebookUser),
    Github(GitHubUser),
    Google(GoogleUser),
    Instagram(InstagramUser),
    LinkedIn(LinkedInUser),
    Microsoft(MicrosoftUser),
    Reddit(RedditUser),
    Tiktok(TiktokUser),
    Twitch(TwitchUser),
    Twitter(TwitterUser),
}

/// Email and display name that a profile gives to the broker of a provider.
/// A profile in the shape of another provider is an `UpstreamProviderError`.
pub open spec fn identity_of(provider: OAuthProvider, user: &ProviderUser) -> Result<
    (Seq<char>, Seq<char>),
    AuthError,
> {
    match (provider, user) {
        (OAuthProvider::Amazon, ProviderUser::Amazon(u)) => AmazonProvider::identity(u),
        (OAuthProvider::Facebook, ProviderUser::Facebook(u)) => FacebookProvider::identity(u),
        (OAuthProvider::Github, ProviderUser::Github(u)) => GithubProvider::identity(u),
        (OAuthProvider::Google, ProviderUser::Google(u)) => GoogleProvider::identity(u),
        (OAuthProvider::Instagram, ProviderUser::Instagram(u)) => InstagramProvider::identity(u),
        (OAuthProvider::LinkedIn, ProviderUser::LinkedIn(u)) => LinkedInProvider::identity(u),
        (OAuthProvider::Microsoft, ProviderUser::Microsoft(u)) => MicrosoftProvider::identity(u),
        (OAuthProvider::Reddit, ProviderUser::Reddit(u)) => RedditProvider::identity(u),
        (OAuthProvider::Tiktok, ProviderUser::Tiktok(u)) => TiktokProvider::identity(u),
        (OAuthProvider::Twitch, ProviderUser::Twitch(u)) => TwitchProvider::identity(u),
        (OAuthProvider::Twitter, ProviderUser::Twitter(u)) => TwitterProvider::identity(u),
        _ => Err(AuthError::UpstreamProviderError),
    }
}

/// Reads email and display name from a provider's profile.
pub fn normalize(provider: OAuthProvider, user: ProviderUser, raw_payload: String) -> (r: Result<
    ProviderProfile,
    AuthError,
>)
    ensures
        profile_result_view(r) == profile_of(identity_of(provider, &user), raw_payload@),
{
    match (provider, user) {
        (OAuthProvider::Amazon, ProviderUser::Amazon(u)) => AmazonProvider.extract_user_info(u, raw_payload),
        (OAuthProvider::Facebook, ProviderUser::Facebook(u)) => FacebookProvider.extract_user_info(u, raw_payload),
        (OAuthProvider::Github, ProviderUser::Github(u)) => GithubProvider.extract_user_info(u, raw_payload),
        (OAuthProvider::Google, ProviderUser::Google(u)) => GoogleProvider.extract_user_info(u, raw_payload),
        (OAuthProvider::Instagram, ProviderUser::Instagram(u)) => InstagramProvider.extract_user_info(u, raw_payload),
        (OAuthProvider::LinkedIn, ProviderUser::LinkedIn(u)) => LinkedInProvider.extract_user_info(u, raw_payload),
        (OAuthProvider::Microsoft, ProviderUser::Microsoft(u)) => MicrosoftProvider.extract_user_info(u, raw_payload),
        (OAuthProvider::Reddit, ProviderUser::Reddit(u)) => RedditProvider.extract_user_info(u, raw_payload),
        (OAuthProvider::Tiktok, ProviderUser::Tiktok(u)) => TiktokProvider.extract_user_info(u, raw_payload),
        (OAuthProvider::Twitch, ProviderUser::Twitch(u)) => TwitchProvider.extract_user_info(u, raw_payload),
        (OAuthProvider::Twitter, ProviderUser::Twitter(u)) => TwitterProvider.extract_user_info(u, raw_payload),
        _ => Err(AuthError::UpstreamProviderError),
    }
}

/// The address of a provider's profile.
pub fn profile_url(provider: OAuthProvider) -> (r: &'static str)
    ensures
        r@ == profile_url_of(provider),
{
    match provider {
        OAuthProvider::Amazon => AmazonProvider.profile_url(),
        OAuthProvider::Facebook => FacebookProvider.profile_url(),
        OAuthProvider::Github => GithubProvider.profile_url(),
        OAuthProvider::Google => GoogleProvider.profile_url(),
        OAuthProvider::Instagram => InstagramProvider.profile_url(),
        OAuthProvider::LinkedIn => LinkedInProvider.profile_url(),
        OAuthProvider::Microsoft => MicrosoftProvider.profile_url(),
        OAuthProvider::Reddit => RedditProvider.profile_url(),
        OAuthProvider::Tiktok => TiktokProvider.profile_url(),
        OAuthProvider::Twitch => TwitchProvider.profile_url(),
        OAuthProvider::Twitter => TwitterProvider.profile_url(),
    }
}

/// The headers that a provider wants beside the authorization.
pub fn additional_headers(provider: OAuthProvider) -> (r: Vec<(String, String)>)
    ensures
        headers_view(r@) == additional_headers_of(provider),
{
    match provider {
        OAuthProvider::Amazon => AmazonProvider.additional_headers(),
        OAuthProvider::Facebook => FacebookProvider.additional_headers(),
        OAuthProvider::Github => GithubProvider.additional_headers(),
        OAuthProvider::Google => GoogleProvider.additional_headers(),
        OAuthProvider::Instagram => InstagramProvider.additional_headers(),
        OAuthProvider::LinkedIn => LinkedInProvider.additional_headers(),
        OAuthProvider::Microsoft => MicrosoftProvider.additional_headers(),
        OAuthProvider::Reddit => RedditProvider.additional_headers(),
        OAuthProvider::Tiktok => TiktokProvider.additional_headers(),
        OAuthProvider::Twitch => TwitchProvider.additional_headers(),
        OAuthProvider::Twitter => TwitterProvider.additional_headers(),
    }
}

/// Whether an address of an account can stand as the user's email: it is
/// the primary one, verified, and not empty.
pub open spec fn usable(e: &GitHubEmail) -> bool {
    e.primary && e.verified && e.email@.len() > 0
}

/// The place of the first usable address, where there is one.
pub open spec fn first_usable(emails: Seq<GitHubEmail>) -> Option<int>
    decreases emails.len(),
{
    if emails.len() == 0 {
        None
    } else if usable(&emails[0]) {
        Some(0)
    } else {
        match first_usable(emails.skip(1)) {
            Some(i) => Some(i + 1),
            None => None,
        }
    }
}

/// The email of an account: its first primary and verified address, or
/// `IncompleteProfile` where it has none.
pub open spec fn verified_email(emails: Seq<GitHubEmail>) -> Result<Seq<char>, AuthError> {
    match first_usable(emails) {
        Some(i) => Ok(emails[i].email@),
        None => Err(AuthError::IncompleteProfile),
    }
}

proof fn first_usable_is_first(emails: Seq<GitHubEmail>, n: int)
    requires
        0 <= n <= emails.len(),
        forall|j: int| 0 <= j < n ==> !usable(&#[trigger] emails[j]),
    ensures
        n < emails.len() && usable(&emails[n]) ==> first_usable(emails) == Some(n),
        n == emails.len() ==> first_usable(emails) is None,
    decreases emails.len(),
{
    if emails.len() > 0 && n > 0 {
        assert(!usable(&emails[0]));
        let rest = emails.skip(1);
        assert forall|j: int| 0 <= j < n - 1 implies !usable(&#[trigger] rest[j]) by {
            assert(rest[j] == emails[j + 1]);
        }
        first_usable_is_first(rest, n - 1);
        if n < emails.len() {
            assert(rest[n - 1] == emails[n]);
        }
    }
}

/// Picks the email of an account from its addresses.
pub fn primary_verified_email(emails: &Vec<GitHubEmail>) -> (r: Result<String, AuthError>)
    ensures
        text_result_view(r) == verified_email(emails@),
{
    let mut i: usize = 0;
    while i < emails.len()
        invariant
            i <= emails.len(),
            forall|j: int| 0 <= j < i ==> !usable(&#[trigger] emails@[j]),
        decreases emails.len() - i,
    {
        let e = &emails[i];
        if e.primary && e.verified && !e.email.as_str().is_empty() {
            proof {
                first_usable_is_first(emails@, i as int);
            }
            return Ok(e.email.clone());
        }
        i = i + 1;
    }
    proof {
        first_usable_is_first(emails@, emails.len() as int);
    }
    Err(AuthError::IncompleteProfile)
}

/// A profile that is read from a provider's answer has a display name, and
/// an email too, unless the provider keeps the email apart.
pub proof fn normalized_profiles_are_complete(provider: OAuthProvider, user: &ProviderUser, raw: Seq<char>)
    requires
        profile_of(identity_of(provider, user), raw) is Ok,
    ensures
        profile_of(identity_of(provider, user), raw)->Ok_0.display_name.len() > 0,
        !provider.needs_verified_email() ==> profile_of(
            identity_of(provider, user),
            raw,
        )->Ok_0.email.len() > 0,
        profile_of(identity_of(provider, user), raw)->Ok_0.raw_payload == raw,
{
    reveal_strlit("@");
}

} // verus!
