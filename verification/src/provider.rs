use crate::config::Config;
use crate::text::{
    chars_of, replace_all, replaced, str_eq, string_of, to_lowercase, unicode_lowercase,
};
use vstd::prelude::*;

verus! {

/// The identity providers that the broker can federate with.
#[derive(Debug, Clone, Copy, Hash, PartialEq, Eq, Structural)]
pub enum OAuthProvider {
    Amazon,
    Facebook,
    Github,
    Google,
    Instagram,
    LinkedIn,
    Microsoft,
    Reddit,
    Tiktok,
    Twitch,
    Twitter,
}

/// The provider that a lowercase name stands for.
pub open spec fn provider_named(name: Seq<char>) -> Option<OAuthProvider> {
    if name == "amazon"@ {
        Some(OAuthProvider::Amazon)
    } else if name == "facebook"@ {
        Some(OAuthProvider::Facebook)
    } else if name == "github"@ {
        Some(OAuthProvider::Github)
    } else if name == "google"@ {
        Some(OAuthProvider::Google)
    } else if name == "instagram"@ {
        Some(OAuthProvider::Instagram)
    } else if name == "linkedin"@ {
        Some(OAuthProvider::LinkedIn)
    } else if name == "microsoft"@ {
        Some(OAuthProvider::Microsoft)
    } else if name == "reddit"@ {
        Some(OAuthProvider::Reddit)
    } else if name == "tiktok"@ {
        Some(OAuthProvider::Tiktok)
    } else if name == "twitch"@ {
        Some(OAuthProvider::Twitch)
    } else if name == "twitter"@ {
        Some(OAuthProvider::Twitter)
    } else {
        None
    }
}

/// The lowercase name of a provider.
pub open spec fn name_of(p: OAuthProvider) -> Seq<char> {
    match p {
        OAuthProvider::Amazon => "amazon"@,
        OAuthProvider::Facebook => "facebook"@,
        OAuthProvider::Github => "github"@,
        OAuthProvider::Google => "google"@,
        OAuthProvider::Instagram => "instagram"@,
        OAuthProvider::LinkedIn => "linkedin"@,
        OAuthProvider::Microsoft => "microsoft"@,
        OAuthProvider::Reddit => "reddit"@,
        OAuthProvider::Tiktok => "tiktok"@,
        OAuthProvider::Twitch => "twitch"@,
        OAuthProvider::Twitter => "twitter"@,
    }
}

/// The address of a provider's authorization page.
pub open spec fn auth_url_of(p: OAuthProvider) -> Seq<char> {
    match p {
        OAuthProvider::Amazon => "https://www.amazon.com/ap/oa"@,
        OAuthProvider::Facebook => "https://www.facebook.com/v12.0/dialog/oauth"@,
        OAuthProvider::Github => "https://github.com/login/oauth/authorize"@,
        OAuthProvider::Google => "https://accounts.google.com/o/oauth2/v2/auth"@,
        OAuthProvider::Instagram => "https://api.instagram.com/oauth/authorize"@,
        OAuthProvider::LinkedIn => "https://www.linkedin.com/oauth/v2/authorization"@,
        OAuthProvider::Microsoft => "https://login.microsoftonline.com/common/oauth2/v2.0/authorize"@,
        OAuthProvider::Reddit => "https://www.reddit.com/api/v1/authorize"@,
        OAuthProvider::Tiktok => "https://open.tiktokapis.com/v2/oauth/authorize"@,
        OAuthProvider::Twitch => "https://id.twitch.tv/oauth2/authorize"@,
        OAuthProvider::Twitter => "https://x.com/i/oauth2/authorize"@,
    }
}

/// The address at which a provider exchanges a code for a token.
pub open spec fn token_url_of(p: OAuthProvider) -> Seq<char> {
    match p {
        OAuthProvider::Amazon => "https://api.amazon.com/auth/o2/token"@,
        OAuthProvider::Facebook => "https://graph.facebook.com/v12.0/oauth/access_token"@,
        OAuthProvider::Github => "https://github.com/login/oauth/access_token"@,
        OAuthProvider::Google => "https://www.googleapis.com/oauth2/v3/token"@,
        OAuthProvider::Instagram => "https://api.instagram.com/oauth/access_token"@,
        OAuthProvider::LinkedIn => "https://www.linkedin.com/oauth/v2/accessToken"@,
        OAuthProvider::Microsoft => "https://login.microsoftonline.com/common/oauth2/v2.0/token"@,
        OAuthProvider::Reddit => "https://www.reddit.com/api/v1/access_token"@,
        OAuthProvider::Tiktok => "https://open.tiktokapis.com/v2/oauth/token"@,
        OAuthProvider::Twitch => "https://id.twitch.tv/oauth2/token"@,
        OAuthProvider::Twitter => "https://api.x.com/2/oauth2/token"@,
    }
}

impl OAuthProvider {
    /// The provider of a name written in lowercase.
    pub fn from_lowercase(name: &str) -> (r: Option<Self>)
        ensures
            r == provider_named(name@),
    {
        if str_eq(name, "amazon") {
            Some(Self::Amazon)
        } else if str_eq(name, "facebook") {
            Some(Self::Facebook)
        } else if str_eq(name, "github") {
            Some(Self::Github)
        } else if str_eq(name, "google") {
            Some(Self::Google)
        } else if str_eq(name, "instagram") {
            Some(Self::Instagram)
        } else if str_eq(name, "linkedin") {
            Some(Self::LinkedIn)
        } else if str_eq(name, "microsoft") {
            Some(Self::Microsoft)
        } else if str_eq(name, "reddit") {
            Some(Self::Reddit)
        } else if str_eq(name, "tiktok") {
            Some(Self::Tiktok)
        } else if str_eq(name, "twitch") {
            Some(Self::Twitch)
        } else if str_eq(name, "twitter") {
            Some(Self::Twitter)
        } else {
            None
        }
    }

    /// The provider of a name in any case: the one whose lowercase name is the
    /// lowercase form of `provider`.
    pub fn from_str(provider: &str) -> (r: Option<Self>)
        ensures
            r == provider_named(unicode_lowercase(provider@)),
    {
        let lower = to_lowercase(provider);
        Self::from_lowercase(lower.as_str())
    }

    /// The lowercase name under which the provider is registered.
    pub fn name(&self) -> (r: &'static str)
        ensures
            r@ == name_of(*self),
    {
        match self {
            Self::Amazon => "amazon",
            Self::Facebook => "facebook",
            Self::Github => "github",
            Self::Google => "google",
            Self::Instagram => "instagram",
            Self::LinkedIn => "linkedin",
            Self::Microsoft => "microsoft",
            Self::Reddit => "reddit",
            Self::Tiktok => "tiktok",
            Self::Twitch => "twitch",
            Self::Twitter => "twitter",
        }
    }

    /// The address of the provider's authorization page.
    pub fn auth_url(&self) -> (r: &'static str)
        ensures
            r@ == auth_url_of(*self),
    {
        match self {
            Self::Amazon => "https://www.amazon.com/ap/oa",
            Self::Facebook => "https://www.facebook.com/v12.0/dialog/oauth",
            Self::Github => "https://github.com/login/oauth/authorize",
            Self::Google => "https://accounts.google.com/o/oauth2/v2/auth",
            Self::Instagram => "https://api.instagram.com/oauth/authorize",
            Self::LinkedIn => "https://www.linkedin.com/oauth/v2/authorization",
            Self::Microsoft => "https://login.microsoftonline.com/common/oauth2/v2.0/authorize",
            Self::Reddit => "https://www.reddit.com/api/v1/authorize",
            Self::Tiktok => "https://open.tiktokapis.com/v2/oauth/authorize",
            Self::Twitch => "https://id.twitch.tv/oauth2/authorize",
            Self::Twitter => "https://x.com/i/oauth2/authorize",
        }
    }

    /// The address at which the provider exchanges a code for a token.
    pub fn token_url(&self) -> (r: &'static str)
        ensures
            r@ == token_url_of(*self),
    {
        match self {
            Self::Amazon => "https://api.amazon.com/auth/o2/token",
            Self::Facebook => "https://graph.facebook.com/v12.0/oauth/access_token",
            Self::Github => "https://github.com/login/oauth/access_token",
            Self::Google => "https://www.googleapis.com/oauth2/v3/token",
            Self::Instagram => "https://api.instagram.com/oauth/access_token",
            Self::LinkedIn => "https://www.linkedin.com/oauth/v2/accessToken",
            Self::Microsoft => "https://login.microsoftonline.com/common/oauth2/v2.0/token",
            Self::Reddit => "https://www.reddit.com/api/v1/access_token",
            Self::Tiktok => "https://open.tiktokapis.com/v2/oauth/token",
            Self::Twitch => "https://id.twitch.tv/oauth2/token",
            Self::Twitter => "https://api.x.com/2/oauth2/token",
        }
    }

    /// Whether the provider asks for a proof key with the authorization code.
    pub open spec fn spec_requires_pkce(self) -> bool {
        self == OAuthProvider::Twitter
    }

    /// Whether the provider asks for a proof key with the authorization code.
    #[verifier::when_used_as_spec(spec_requires_pkce)]
    pub fn requires_pkce(self) -> (r: bool)
        ensures
            r == self.spec_requires_pkce(),
    {
        match self {
            Self::Twitter => true,
            _ => false,
        }
    }

    /// Whether the provider takes the client's credentials in the request
    /// body instead of an authorization header.
    pub open spec fn spec_credentials_in_body(self) -> bool {
        self == OAuthProvider::LinkedIn || self == OAuthProvider::Twitch
    }

    /// Whether the provider takes the client's credentials in the request body.
    #[verifier::when_used_as_spec(spec_credentials_in_body)]
    pub fn credentials_in_body(self) -> (r: bool)
        ensures
            r == self.spec_credentials_in_body(),
    {
        match self {
            Self::LinkedIn | Self::Twitch => true,
            _ => false,
        }
    }

    /// Whether the provider's profile lacks the email, so that a second
    /// request has to fetch the verified primary address.
    pub open spec fn spec_needs_verified_email(self) -> bool {
        self == OAuthProvider::Github
    }

    /// Whether the provider's profile lacks the email.
    #[verifier::when_used_as_spec(spec_needs_verified_email)]
    pub fn needs_verified_email(self) -> (r: bool)
        ensures
            r == self.spec_needs_verified_email(),
    {
        match self {
            Self::Github => true,
            _ => false,
        }
    }
}

/// A provider is found again under its own name.
pub proof fn provider_is_found_by_its_name(p: OAuthProvider)
    ensures
        provider_named(name_of(p)) == Some(p),
{
    reveal_strlit("amazon");
    reveal_strlit("facebook");
    reveal_strlit("github");
    reveal_strlit("google");
    reveal_strlit("instagram");
    reveal_strlit("linkedin");
    reveal_strlit("microsoft");
    reveal_strlit("reddit");
    reveal_strlit("tiktok");
    reveal_strlit("twitch");
    reveal_strlit("twitter");
    assert("github"@[1] != "google"@[1]);
    assert("tiktok"@[1] != "twitch"@[1]);
    assert("reddit"@[0] != "github"@[0]);
    assert("reddit"@[0] != "google"@[0]);
    assert("reddit"@[0] != "tiktok"@[0]);
    assert("reddit"@[0] != "twitch"@[0]);
    assert("reddit"@[0] != "amazon"@[0]);
    assert("amazon"@[0] != "github"@[0]);
    assert("amazon"@[0] != "google"@[0]);
    assert("amazon"@[0] != "tiktok"@[0]);
    assert("amazon"@[0] != "twitch"@[0]);
    assert("github"@[0] != "tiktok"@[0]);
    assert("github"@[0] != "twitch"@[0]);
    assert("google"@[0] != "tiktok"@[0]);
    assert("google"@[0] != "twitch"@[0]);
    assert("facebook"@[0] != "linkedin"@[0]);
    assert("instagram"@[0] != "microsoft"@[0]);
    assert("twitter"@.len() == 7);
}


/// The address with `http://` turned into `https://` and the port 8000 into
/// 8443.
pub open spec fn https_base_url(base_url: Seq<char>) -> Seq<char> {
    replaced(replaced(base_url, "http://"@, "https://"@), ":8000"@, ":8443"@)
}

/// Turns the address of the plain server into that of the secure one.
pub fn gen_https_base_url(base_url: String) -> (r: String)
    ensures
        r@ == https_base_url(base_url@),
{
    let text = chars_of(base_url.as_str());
    let secure = replace_all(&text, &chars_of("http://"), &chars_of("https://"));
    let moved = replace_all(&secure, &chars_of(":8000"), &chars_of(":8443"));
    string_of(&moved)
}

/// The client identifier registered with a provider.
pub open spec fn client_id_of(p: OAuthProvider, c: &Config) -> Seq<char> {
    match p {
        OAuthProvider::Amazon => c.amazon_client_id@,
        OAuthProvider::Facebook => c.facebook_client_id@,
        OAuthProvider::Github => c.github_client_id@,
        OAuthProvider::Google => c.google_client_id@,
        OAuthProvider::Instagram => c.instagram_client_id@,
        OAuthProvider::LinkedIn => c.linkedin_client_id@,
        OAuthProvider::Microsoft => c.microsoft_client_id@,
        OAuthProvider::Reddit => c.reddit_client_id@,
        OAuthProvider::Tiktok => c.tiktok_client_id@,
        OAuthProvider::Twitch => c.twitch_client_id@,
        OAuthProvider::Twitter => c.twitter_client_id@,
    }
}

/// The client secret registered with a provider.
pub open spec fn client_secret_of(p: OAuthProvider, c: &Config) -> Seq<char> {
    match p {
        OAuthProvider::Amazon => c.amazon_client_secret@,
        OAuthProvider::Facebook => c.facebook_client_secret@,
        OAuthProvider::Github => c.github_client_secret@,
        OAuthProvider::Google => c.google_client_secret@,
        OAuthProvider::Instagram => c.instagram_client_secret@,
        OAuthProvider::LinkedIn => c.linkedin_client_secret@,
        OAuthProvider::Microsoft => c.microsoft_client_secret@,
        OAuthProvider::Reddit => c.reddit_client_secret@,
        OAuthProvider::Tiktok => c.tiktok_client_secret@,
        OAuthProvider::Twitch => c.twitch_client_secret@,
        OAuthProvider::Twitter => c.twitter_client_secret@,
    }
}

/// The path registered with a provider for its callback.
pub open spec fn redirect_path_of(p: OAuthProvider, c: &Config) -> Seq<char> {
    match p {
        OAuthProvider::Amazon => c.amazon_redirect_url@,
        OAuthProvider::Facebook => c.facebook_redirect_url@,
        OAuthProvider::Github => c.github_redirect_url@,
        OAuthProvider::Google => c.google_redirect_url@,
        OAuthProvider::Instagram => c.instagram_redirect_url@,
        OAuthProvider::LinkedIn => c.linkedin_redirect_url@,
        OAuthProvider::Microsoft => c.microsoft_redirect_url@,
        OAuthProvider::Reddit => c.reddit_redirect_url@,
        OAuthProvider::Tiktok => c.tiktok_redirect_url@,
        OAuthProvider::Twitch => c.twitch_redirect_url@,
        OAuthProvider::Twitter => c.twitter_redirect_url@,
    }
}

/// The address to which a provider sends the user back: the server's address,
/// the secure one for Facebook and Twitch, followed by the registered path.
pub open spec fn redirect_url_of(p: OAuthProvider, c: &Config) -> Seq<char> {
    if p == OAuthProvider::Facebook || p == OAuthProvider::Twitch {
        https_base_url(c.server_url@) + redirect_path_of(p, c)
    } else {
        c.server_url@ + redirect_path_of(p, c)
    }
}

impl OAuthProvider {
    /// The client identifier registered with the provider.
    pub fn client_id(&self, config: &Config) -> (r: String)
        ensures
            r@ == client_id_of(*self, config),
    {
        match self {
            Self::Amazon => config.amazon_client_id.clone(),
            Self::Facebook => config.facebook_client_id.clone(),
            Self::Github => config.github_client_id.clone(),
            Self::Google => config.google_client_id.clone(),
            Self::Instagram => config.instagram_client_id.clone(),
            Self::LinkedIn => config.linkedin_client_id.clone(),
            Self::Microsoft => config.microsoft_client_id.clone(),
            Self::Reddit => config.reddit_client_id.clone(),
            Self::Tiktok => config.tiktok_client_id.clone(),
            Self::Twitch => config.twitch_client_id.clone(),
            Self::Twitter => config.twitter_client_id.clone(),
        }
    }

    /// The client secret registered with the provider.
    pub fn client_secret(&self, config: &Config) -> (r: String)
        ensures
            r@ == client_secret_of(*self, config),
    {
        match self {
            Self::Amazon => config.amazon_client_secret.clone(),
            Self::Facebook => config.facebook_client_secret.clone(),
            Self::Github => config.github_client_secret.clone(),
            Self::Google => config.google_client_secret.clone(),
            Self::Instagram => config.instagram_client_secret.clone(),
            Self::LinkedIn => config.linkedin_client_secret.clone(),
            Self::Microsoft => config.microsoft_client_secret.clone(),
            Self::Reddit => config.reddit_client_secret.clone(),
            Self::Tiktok => config.tiktok_client_secret.clone(),
            Self::Twitch => config.twitch_client_secret.clone(),
            Self::Twitter => config.twitter_client_secret.clone(),
        }
    }

    fn redirect_path<'a>(&self, config: &'a Config) -> (r: &'a String)
        ensures
            r@ == redirect_path_of(*self, config),
    {
        match self {
            Self::Amazon => &config.amazon_redirect_url,
            Self::Facebook => &config.facebook_redirect_url,
            Self::Github => &config.github_redirect_url,
            Self::Google => &config.google_redirect_url,
            Self::Instagram => &config.instagram_redirect_url,
            Self::LinkedIn => &config.linkedin_redirect_url,
            Self::Microsoft => &config.microsoft_redirect_url,
            Self::Reddit => &config.reddit_redirect_url,
            Self::Tiktok => &config.tiktok_redirect_url,
            Self::Twitch => &config.twitch_redirect_url,
            Self::Twitter => &config.twitter_redirect_url,
        }
    }

    /// The address to which the provider sends the user back.
    pub fn redirect_url(&self, config: &Config) -> (r: String)
        ensures
            r@ == redirect_url_of(*self, config),
    {
        let path = self.redirect_path(config);
        match self {
            Self::Facebook | Self::Twitch => {
                let base = gen_https_base_url(config.server_url.clone());
                crate::text::join(base.as_str(), path.as_str())
            },
            _ => crate::text::join(config.server_url.as_str(), path.as_str()),
        }
    }
}

} // verus!
