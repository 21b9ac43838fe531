use vstd::prelude::*;

verus! {

/// The profile that Amazon returns.
#[derive(Debug, Clone)]
pub struct AmazonUser {
    pub user_id: String,
    pub name: Option<String>,
    pub email: Option<String>,
    pub postal_code: Option<String>,
    pub profile: Option<String>,
    pub created_at: Option<String>,
    pub updated_at: Option<String>,
    pub avatar_url: Option<String>,
    pub locale: Option<String>,
    pub country: Option<String>,
    pub user_type: Option<String>,
    pub verified: Option<bool>,
    pub phone_number: Option<String>,
    pub address: Option<String>,
    pub birthdate: Option<String>,
    pub timezone: Option<String>,
    pub account_status: Option<String>,
    pub last_login: Option<String>,
    pub preferences: Option<UserPreferences>,
}

/// The preferences inside an Amazon profile.
#[derive(Debug, Clone)]
pub struct UserPreferences {
    pub language: Option<String>,
    pub notification_enabled: Option<bool>,
    pub marketing_emails: Option<bool>,
}

/// A scope that an Amazon token may carry.
#[derive(Debug, Clone)]
pub enum AmazonScope {
    Profile,
    ProfileUserId,
    PostalCode,
    Other(String),
}

/// The profile that Facebook returns.
#[derive(Debug, Clone)]
pub struct FacebookUser {
    pub id: String,
    pub name: Option<String>,
    pub email: Option<String>,
    pub picture: Option<PictureData>,
    pub first_name: Option<String>,
    pub last_name: Option<String>,
    pub middle_name: Option<String>,
    pub birthday: Option<String>,
    pub gender: Option<String>,
    pub location: Option<Location>,
    pub hometown: Option<Location>,
    pub link: Option<String>,
    pub age_range: Option<AgeRange>,
    pub friends: Option<ConnectionData>,
    pub photos: Option<ConnectionData>,
    pub posts: Option<ConnectionData>,
    pub created_time: Option<String>,
    pub updated_time: Option<String>,
}

/// A picture inside a Facebook profile.
#[derive(Debug, Clone)]
pub struct PictureData {
    pub url: String,
    pub width: Option<i32>,
    pub height: Option<i32>,
    pub is_silhouette: bool,
}

/// A place inside a Facebook profile.
#[derive(Debug, Clone)]
pub struct Location {
    pub id: String,
    pub name: String,
}

/// An age range inside a Facebook profile.
#[derive(Debug, Clone)]
pub struct AgeRange {
    pub min: i32,
    pub max: Option<i32>,
}

/// A counted connection inside a Facebook profile.
#[derive(Debug, Clone)]
pub struct ConnectionData {
    pub total_count: Option<i32>,
    pub paging: Option<PagingData>,
}

/// The paging of a Facebook connection.
#[derive(Debug, Clone)]
pub struct PagingData {
    pub cursors: Cursors,
    pub next: Option<String>,
    pub previous: Option<String>,
}

/// The cursors of a Facebook paging.
#[derive(Debug, Clone)]
pub struct Cursors {
    pub before: String,
    pub after: String,
}

/// The profile that GitHub returns.
#[derive(Debug, Clone)]
pub struct GitHubUser {
    pub login: String,
    pub id: i64,
    pub node_id: String,
    pub avatar_url: String,
    pub gravatar_id: String,
    pub url: String,
    pub html_url: String,
    pub followers_url: String,
    pub following_url: String,
    pub gists_url: String,
    pub starred_url: String,
    pub subscriptions_url: String,
    pub organizations_url: String,
    pub repos_url: String,
    pub events_url: String,
    pub received_events_url: String,
    pub user_type: String,
    pub user_view_type: String,
    pub site_admin: bool,
    pub name: Option<String>,
    pub company: Option<String>,
    pub blog: String,
    pub location: Option<String>,
    pub email: Option<String>,
    pub hireable: Option<bool>,
    pub bio: Option<String>,
    pub twitter_username: Option<String>,
    pub notification_email: Option<String>,
    pub public_repos: i32,
    pub public_gists: i32,
    pub followers: i32,
    pub following: i32,
    pub created_at: String,
    pub updated_at: String,
}

/// One address of a GitHub account.
#[derive(Debug, Clone)]
pub struct GitHubEmail {
    pub email: String,
    pub primary: bool,
    pub verified: bool,
}

/// The profile that Google returns.
#[derive(Debug, Clone)]
pub struct GoogleUser {
    pub email: Option<String>,
    pub email_verified: Option<bool>,
    pub family_name: Option<String>,
    pub given_name: Option<String>,
    pub locale: Option<String>,
    pub picture: Option<String>,
}

/// The profile that Instagram returns; the creation date in seconds of Unix time.
#[derive(Debug, Clone)]
pub struct InstagramUser {
    pub id: String,
    pub username: Option<String>,
    pub full_name: Option<String>,
    pub profile_picture_url: Option<String>,
    pub bio: Option<String>,
    pub website: Option<String>,
    pub is_business_account: bool,
    pub is_private: Option<bool>,
    pub media_count: Option<u32>,
    pub follower_count: Option<u32>,
    pub following_count: Option<u32>,
    pub account_type: Option<String>,
    pub created_at: Option<i64>,
    pub scopes: Vec<InstagramScope>,
}

/// A scope that an Instagram token may carry.
#[derive(Debug, Clone)]
pub enum InstagramScope {
    UserProfile,
    UserMedia,
    Other(String),
}

/// The profile that LinkedIn returns.
#[derive(Debug, Clone)]
pub struct LinkedInUser {
    pub sub: Option<String>,
    pub name: Option<String>,
    pub given_name: Option<String>,
    pub family_name: Option<String>,
    pub picture: Option<String>,
    pub locale: Option<Locale>,
    pub email: Option<String>,
    pub email_verified: bool,
}

/// The locale inside a LinkedIn profile.
#[derive(Debug, Clone)]
pub struct Locale {
    pub country: String,
    pub language: String,
}

/// The profile that Microsoft returns.
#[derive(Debug, Clone)]
pub struct MicrosoftUser {
    pub id: String,
    pub display_name: Option<String>,
    pub given_name: Option<String>,
    pub surname: Option<String>,
    pub user_principal_name: Option<String>,
    pub mail: Option<String>,
    pub business_phones: Option<Vec<String>>,
    pub job_title: Option<String>,
    pub mobile_phone: Option<String>,
    pub office_location: Option<String>,
    pub preferred_language: Option<String>,
}

/// The profile that Reddit returns, without its creation date.
#[derive(Debug, Clone)]
pub struct RedditUser {
    pub id: Option<String>,
    pub name: Option<String>,
    pub icon_img: Option<String>,
    pub verified: Option<bool>,
    pub over_18: Option<bool>,
    pub has_mail: Option<bool>,
    pub inbox_count: Option<i32>,
}

/// The envelope of a TikTok profile.
#[derive(Debug, Clone)]
pub struct TiktokUserInfoResponse {
    pub data: TiktokUserData,
}

/// The data inside a TikTok envelope.
#[derive(Debug, Clone)]
pub struct TiktokUserData {
    pub user: TiktokUser,
}

/// The profile that TikTok returns.
#[derive(Debug, Clone)]
pub struct TiktokUser {
    pub open_id: String,
    pub union_id: Option<String>,
    pub nickname: Option<String>,
    pub avatar: Option<String>,
    pub biography: Option<String>,
    pub is_verified: Option<bool>,
    pub follower_count: Option<i32>,
    pub following_count: Option<i32>,
}

/// The envelope of Twitch profiles.
#[derive(Debug, Clone)]
pub struct TwitchUserResponse {
    pub data: Vec<TwitchUser>,
}

/// The profile that Twitch returns.
#[derive(Debug, Clone)]
pub struct TwitchUser {
    pub id: String,
    pub login: Option<String>,
    pub display_name: Option<String>,
    pub user_type: Option<String>,
    pub broadcaster_type: Option<String>,
    pub description: Option<String>,
    pub profile_image_url: Option<String>,
    pub offline_image_url: Option<String>,
    pub view_count: Option<i32>,
    pub email: Option<String>,
    pub created_at: Option<String>,
}

/// The envelope of a Twitter profile.
#[derive(Debug, Clone)]
pub struct TwitterMeResponse {
    pub data: TwitterUser,
}

/// The profile that Twitter returns.
#[derive(Debug, Clone)]
pub struct TwitterUser {
    pub id: String,
    pub name: Option<String>,
    pub username: Option<String>,
    pub protected: Option<bool>,
    pub verified: Option<bool>,
    pub created_at: Option<String>,
    pub description: Option<String>,
    pub profile_image_url: Option<String>,
    pub location: Option<String>,
}

} // verus!
