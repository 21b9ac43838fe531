pub mod alphabet;
pub mod clock;
pub mod config;
pub mod email;
pub mod encoding;
pub mod error;
pub mod federation;
pub mod flow;
pub mod identity;
pub mod key_provider;
pub mod keys;
pub mod lifecycle;
pub mod profiles;
pub mod provider;
pub mod scopes;
pub mod store;
pub mod text;
pub mod token;
pub mod utils;
pub mod views;
