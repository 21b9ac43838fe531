use crate::text::join;
use vstd::prelude::*;

verus! {

/// Sender, receiver and subject of a mail.
#[derive(Debug)]
pub struct EmailBaseParams {
    pub from: String,
    pub from_name: String,
    pub to: String,
    pub subject: String,
}

/// A mail that the service sends, with what its template needs.
#[derive(Debug)]
pub enum EmailParams {
    PasswordReset { base: EmailBaseParams, code: String },
    MagicLink { base: EmailBaseParams, code: String, redirect_to: String },
}

/// A rendered mail in both forms.
#[derive(Debug)]
pub struct EmailTemplate {
    pub html: String,
    pub text: String,
}

/// The name of the template of a mail.
pub open spec fn template_name_of(params: &EmailParams) -> Seq<char> {
    match params {
        EmailParams::PasswordReset { .. } => "password_reset"@,
        EmailParams::MagicLink { .. } => "magic_link"@,
    }
}

/// The path on the server that confirms the code of a mail.
pub open spec fn confirmation_path_of(params: &EmailParams) -> Seq<char> {
    match params {
        EmailParams::PasswordReset { .. } => "/verify_code"@,
        EmailParams::MagicLink { .. } => "/verify_magiclink_code"@,
    }
}

impl EmailParams {
    /// The name of the template that renders this mail.
    pub fn template_name(&self) -> (r: &'static str)
        ensures
            r@ == template_name_of(self),
    {
        match self {
            EmailParams::PasswordReset { .. } => "password_reset",
            EmailParams::MagicLink { .. } => "magic_link",
        }
    }

    /// The address that the mail sends its reader to: the server's address
    /// followed by the path that confirms the code.
    pub fn confirmation_url(&self, server_url: &str) -> (r: String)
        ensures
            r@ == server_url@ + confirmation_path_of(self),
    {
        match self {
            EmailParams::PasswordReset { .. } => join(server_url, "/verify_code"),
            EmailParams::MagicLink { .. } => join(server_url, "/verify_magiclink_code"),
        }
    }

    /// The names under which a template of a given name is registered, for the
    /// HTML and for the text form.
    pub fn registered_names(template_name: &str) -> (r: (String, String))
        ensures
            r.0@ == template_name@ + "_html"@,
            r.1@ == template_name@ + "_text"@,
    {
        (join(template_name, "_html"), join(template_name, "_text"))
    }
}

} // verus!
