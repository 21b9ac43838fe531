use vstd::prelude::*;

verus! {

/// The settings of the service: addresses, mail, the credentials registered
/// with each provider, and the lifetimes of tokens.
#[derive(Debug, Clone)]
pub struct Config {
    pub convex_url: String,
    pub client_origin: String,
    pub server_url: String,
    pub mailer_server: String,
    pub mailer_port: u16,
    pub mailer_from: String,
    pub mailer_from_name: String,
    pub amazon_client_id: String,
    pub amazon_client_secret: String,
    pub amazon_redirect_url: String,
    pub facebook_client_id: String,
    pub facebook_client_secret: String,
    pub facebook_redirect_url: String,
    pub github_client_id: String,
    pub github_client_secret: String,
    pub github_redirect_url: String,
    pub google_client_id: String,
    pub google_client_secret: String,
    pub google_redirect_url: String,
    pub instagram_client_id: String,
    pub instagram_client_secret: String,
    pub instagram_redirect_url: String,
    pub linkedin_client_id: String,
    pub linkedin_client_secret: String,
    pub linkedin_redirect_url: String,
    pub microsoft_client_id: String,
    pub microsoft_client_secret: String,
    pub microsoft_redirect_url: String,
    pub reddit_client_id: String,
    pub reddit_client_secret: String,
    pub reddit_redirect_url: String,
    pub tiktok_client_id: String,
    pub tiktok_client_secret: String,
    pub tiktok_redirect_url: String,
    pub twitch_client_id: String,
    pub twitch_client_secret: String,
    pub twitch_redirect_url: String,
    pub twitter_client_id: String,
    pub twitter_client_secret: String,
    pub twitter_redirect_url: String,
    pub auth_token: String,
    pub access_token_expires_in: String,
    pub access_token_max_age: i64,
    pub refresh_token_expires_in: String,
    pub refresh_token_max_age: i64,
}

} // verus!
