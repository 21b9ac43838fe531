use auth_core::email::{EmailBaseParams, EmailParams};
use auth_core::error::AuthError;
use auth_core::scopes::{is_white_space, scopes_of, split_words, ScopeField};
use auth_core::text::{chars_of, replace_all, split_at_char, str_eq, to_ascii_lower};
use auth_core::utils::{bearer_token, max_age_seconds, DEFAULT_MAX_AGE_SECS};

const EVERY_ERROR: [AuthError; 12] = [
    AuthError::InvalidSignature,
    AuthError::Expired,
    AuthError::NotYetValid,
    AuthError::Revoked,
    AuthError::UnknownToken,
    AuthError::KeyMaterialUnavailable,
    AuthError::CsrfStateMismatchOrExpired,
    AuthError::UpstreamProviderError,
    AuthError::IncompleteProfile,
    AuthError::StoreUnavailable,
    AuthError::InvalidClaims,
    AuthError::UnknownProvider,
];

fn base() -> EmailBaseParams {
    EmailBaseParams {
        from: "f@x.org".to_string(),
        from_name: "F".to_string(),
        to: "t@x.org".to_string(),
        subject: "S".to_string(),
    }
}

#[test]
fn unauthorized_outcomes_look_alike() {
    for e in EVERY_ERROR {
        let unauthorized = matches!(
            e,
            AuthError::InvalidSignature
                | AuthError::Expired
                | AuthError::NotYetValid
                | AuthError::Revoked
                | AuthError::UnknownToken
        );
        assert_eq!(e.is_unauthorized(), unauthorized);
        if unauthorized {
            assert_eq!(e.public_message(), "invalid or expired session");
            assert_eq!(e.status_code(), 401);
        } else {
            assert_ne!(e.public_message(), "invalid or expired session");
            assert_ne!(e.status_code(), 401);
        }
        let r = e.response();
        assert_eq!(r.status, "fail");
        assert_eq!(r.message, e.public_message());
    }
}

#[test]
fn only_store_and_provider_failures_can_be_retried() {
    for e in EVERY_ERROR {
        assert_eq!(
            e.is_retryable(),
            e == AuthError::StoreUnavailable || e == AuthError::UpstreamProviderError
        );
    }
}

#[test]
fn status_codes() {
    assert_eq!(AuthError::CsrfStateMismatchOrExpired.status_code(), 400);
    assert_eq!(AuthError::IncompleteProfile.status_code(), 400);
    assert_eq!(AuthError::UnknownProvider.status_code(), 400);
    assert_eq!(AuthError::InvalidClaims.status_code(), 400);
    assert_eq!(AuthError::UpstreamProviderError.status_code(), 500);
    assert_eq!(AuthError::StoreUnavailable.status_code(), 500);
    assert_eq!(AuthError::KeyMaterialUnavailable.status_code(), 500);
}

#[test]
fn mails_name_their_template_and_their_confirmation_address() {
    let reset = EmailParams::PasswordReset { base: base(), code: "c".to_string() };
    let link = EmailParams::MagicLink { base: base(), code: "c".to_string(), redirect_to: "r".to_string() };
    assert_eq!(reset.template_name(), "password_reset");
    assert_eq!(link.template_name(), "magic_link");
    assert_eq!(reset.confirmation_url("http://s"), "http://s/verify_code");
    assert_eq!(link.confirmation_url("http://s"), "http://s/verify_magiclink_code");
    assert_eq!(
        EmailParams::registered_names("magic_link"),
        ("magic_link_html".to_string(), "magic_link_text".to_string())
    );
}

#[test]
fn the_lifetime_of_a_cookie_falls_back_to_fifteen_minutes() {
    assert_eq!(DEFAULT_MAX_AGE_SECS, 900);
    assert_eq!(max_age_seconds("60m"), 3600);
    assert_eq!(max_age_seconds("0s"), 0);
    assert_eq!(max_age_seconds(""), 900);
    assert_eq!(max_age_seconds("soon"), 900);
    assert_eq!(max_age_seconds("9223372036854775807d"), 900);
}

#[test]
fn a_bearer_token_follows_the_word_bearer() {
    assert_eq!(bearer_token("Bearer abc"), Some("abc".to_string()));
    assert_eq!(bearer_token("Bearer "), Some("".to_string()));
    assert_eq!(bearer_token("Bearer  a b"), Some(" a b".to_string()));
    assert_eq!(bearer_token("Bearer é"), Some("é".to_string()));
    for h in ["", "Bearer", "bearer abc", "Basic abc", " Bearer abc", "Bearerabc"] {
        assert_eq!(bearer_token(h), None);
    }
}

#[test]
fn scopes_are_the_words_of_a_text_or_the_entries_of_a_list() {
    assert_eq!(
        scopes_of(ScopeField::Text("user:read  email\tchat\n".to_string())),
        vec!["user:read", "email", "chat"]
    );
    assert_eq!(scopes_of(ScopeField::Text("".to_string())), Vec::<String>::new());
    assert_eq!(scopes_of(ScopeField::Text("  \u{3000} ".to_string())), Vec::<String>::new());
    assert_eq!(scopes_of(ScopeField::Text("one".to_string())), vec!["one"]);
    assert_eq!(
        scopes_of(ScopeField::List(vec!["a b".to_string(), "".to_string()])),
        vec!["a b", ""]
    );
    assert_eq!(split_words("a\u{a0}b\u{2003}c\u{200b}d"), vec!["a", "b", "c\u{200b}d"]);
}

#[test]
fn white_space_is_what_the_standard_library_takes_for_it() {
    for v in 0..0x3100u32 {
        if let Some(c) = char::from_u32(v) {
            assert_eq!(is_white_space(c), c.is_whitespace(), "{:x}", v);
        }
    }
}

#[test]
fn text_helpers() {
    let chars = |s: &str| s.chars().collect::<Vec<char>>();
    assert_eq!(chars_of("aé\u{1F600}"), chars("aé\u{1F600}"));
    assert!(str_eq("abc", "abc"));
    assert!(!str_eq("abc", "abd"));
    assert!(!str_eq("abc", "ab"));
    assert!(str_eq("", ""));
    assert!(!str_eq("é", "e\u{301}"));
    assert_eq!(to_ascii_lower('Q'), 'q');
    assert_eq!(to_ascii_lower('q'), 'q');
    assert_eq!(to_ascii_lower('['), '[');
    assert_eq!(to_ascii_lower('@'), '@');
    assert_eq!(to_ascii_lower('Ä'), 'Ä');
    assert_eq!(replace_all(&chars("aaa"), &chars("aa"), &chars("b")), chars("ba"));
    assert_eq!(replace_all(&chars("abc"), &chars(""), &chars("x")), chars("abc"));
    assert_eq!(replace_all(&chars("abcabc"), &chars("bc"), &chars("")), chars("aa"));
    assert_eq!(replace_all(&chars("ab"), &chars("abc"), &chars("x")), chars("ab"));
    assert_eq!(split_at_char("a,b,,c", ','), vec!["a", "b", "", "c"]);
    assert_eq!(split_at_char("", ','), vec![""]);
    assert_eq!(split_at_char(",", ','), vec!["", ""]);
    assert_eq!(split_at_char("abc", ','), vec!["abc"]);
}
