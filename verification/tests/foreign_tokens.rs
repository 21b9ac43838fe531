use auth_core::error::AuthError;
use auth_core::key_provider::{read_key_file, write_key_file};
use auth_core::keys::PasetoConfig;
use auth_core::token::{decode_token, sign_token, verify_claims_at, verify_paseto_token_at};
use rusty_paseto::generic::{
    CustomClaim, ExpirationClaim, GenericBuilder, IssuedAtClaim, Key, NotBeforeClaim,
    PasetoAsymmetricPrivateKey, Public, SubjectClaim, V4,
};

const KEY: &str = "b4cbfb43df4ce210727d953e4a713307fa19bb7d9f85041438d9e11b942a37741eb9dbbbbc047c03fd70604e0071f0987e16b28b757225c11f00415d0e20b1a2";
const ID: &str = "550e8400-e29b-41d4-a716-446655440000";
const EXP: &str = "2030-01-01T00:00:00+00:00";
const IAT: &str = "2020-01-01T00:00:00+00:00";
const EXP_SECS: i64 = 1893456000;
const IAT_SECS: i64 = 1577836800;

/// A token signed by the key over the claims that are given.
fn token_with(
    sub: Option<&str>,
    token_uuid: Option<&str>,
    exp: Option<&str>,
    iat: Option<&str>,
    nbf: Option<&str>,
) -> String {
    let key = Key::<64>::try_from(KEY).unwrap();
    let private = PasetoAsymmetricPrivateKey::<V4, Public>::from(&key);
    let mut builder = GenericBuilder::<V4, Public>::default();
    if let Some(s) = sub {
        builder.set_claim(SubjectClaim::from(s));
    }
    if let Some(t) = token_uuid {
        builder.set_claim(CustomClaim::try_from(("token_uuid", t)).unwrap());
    }
    if let Some(e) = exp {
        builder.set_claim(ExpirationClaim::try_from(e).unwrap());
    }
    if let Some(i) = iat {
        builder.set_claim(IssuedAtClaim::try_from(i).unwrap());
    }
    if let Some(n) = nbf {
        builder.set_claim(NotBeforeClaim::try_from(n).unwrap());
    }
    builder.try_sign(&private).unwrap()
}

#[test]
fn a_token_with_all_claims_is_read() {
    let token = token_with(Some("u"), Some(ID), Some(EXP), Some(IAT), Some(IAT));
    let c = decode_token(KEY, &token).unwrap();
    assert_eq!(c.sub, "u");
    assert_eq!(c.token_uuid, ID);
    assert_eq!(c.exp, EXP_SECS);
    assert_eq!(c.iat, IAT_SECS);
    assert_eq!(c.nbf, IAT_SECS);
}

#[test]
fn a_missing_not_before_date_is_the_issue_date() {
    let token = token_with(Some("u"), Some(ID), Some(EXP), Some(IAT), None);
    let c = decode_token(KEY, &token).unwrap();
    assert_eq!(c.nbf, IAT_SECS);
    assert!(verify_claims_at(KEY, &token, IAT_SECS).is_ok());
    assert_eq!(verify_claims_at(KEY, &token, IAT_SECS - 1).unwrap_err(), AuthError::NotYetValid);
}

#[test]
fn a_later_not_before_date_delays_the_token() {
    let token = token_with(Some("u"), Some(ID), Some(EXP), Some(IAT), Some("2020-01-01T00:00:10Z"));
    assert_eq!(verify_claims_at(KEY, &token, IAT_SECS + 9).unwrap_err(), AuthError::NotYetValid);
    assert!(verify_claims_at(KEY, &token, IAT_SECS + 10).is_ok());
}

#[test]
fn expiry_comes_before_every_other_date() {
    let token = token_with(Some("u"), Some(ID), Some(IAT), Some(EXP), None);
    assert_eq!(verify_claims_at(KEY, &token, IAT_SECS).unwrap_err(), AuthError::NotYetValid);
    assert_eq!(verify_claims_at(KEY, &token, IAT_SECS + 1).unwrap_err(), AuthError::Expired);
    assert_eq!(verify_claims_at(KEY, &token, EXP_SECS).unwrap_err(), AuthError::Expired);
}

#[test]
fn a_signed_token_without_a_required_claim_is_rejected() {
    for token in [
        token_with(None, Some(ID), Some(EXP), Some(IAT), Some(IAT)),
        token_with(Some("u"), None, Some(EXP), Some(IAT), Some(IAT)),
        token_with(Some("u"), Some(ID), None, Some(IAT), Some(IAT)),
        token_with(Some("u"), Some(ID), Some(EXP), None, Some(IAT)),
        token_with(None, None, None, None, None),
    ] {
        assert_eq!(decode_token(KEY, &token).unwrap_err(), AuthError::InvalidSignature);
        assert_eq!(
            verify_paseto_token_at(KEY, &token, IAT_SECS).unwrap_err(),
            AuthError::InvalidSignature
        );
    }
}

#[test]
fn an_identifier_is_read_in_its_canonical_form() {
    for written in [
        "550E8400-E29B-41D4-A716-446655440000",
        "550e8400e29b41d4a716446655440000",
        "{550e8400-e29b-41d4-a716-446655440000}",
        "urn:uuid:550e8400-e29b-41d4-a716-446655440000",
    ] {
        let token = token_with(Some("u"), Some(written), Some(EXP), Some(IAT), None);
        assert_eq!(decode_token(KEY, &token).unwrap().token_uuid, ID);
    }
    for written in ["", "550e8400", "not-a-uuid", "550e8400-e29b-41d4-a716-44665544000g"] {
        let token = token_with(Some("u"), Some(written), Some(EXP), Some(IAT), None);
        assert_eq!(decode_token(KEY, &token).unwrap_err(), AuthError::InvalidSignature);
    }
}

#[test]
fn dates_with_fractions_and_offsets_are_read_to_the_second() {
    let token = token_with(
        Some("u"),
        Some(ID),
        Some("2030-01-01T01:00:00.999+01:00"),
        Some("2019-12-31T19:00:00-05:00"),
        None,
    );
    let c = decode_token(KEY, &token).unwrap();
    assert_eq!(c.exp, EXP_SECS);
    assert_eq!(c.iat, IAT_SECS);
}

#[test]
fn every_second_that_is_written_is_read_back() {
    let mut now: i64 = 0;
    while now <= 253402300799 - 60 {
        let d = sign_token("u".to_string(), ID.to_string(), 1, KEY, now).unwrap();
        let c = decode_token(KEY, &d.token.unwrap()).unwrap();
        assert_eq!(c.iat, now);
        assert_eq!(c.exp, now + 60);
        now = now * 3 + 86399;
    }
    for now in [951782399, 951782400, 951868800, 1709164800, 4107542399, 253402300739] {
        let d = sign_token("u".to_string(), ID.to_string(), 1, KEY, now).unwrap();
        let c = decode_token(KEY, &d.token.unwrap()).unwrap();
        assert_eq!((c.iat, c.exp), (now, now + 60));
    }
}

#[test]
fn a_key_file_keeps_keys_of_any_text() {
    for (a, r) in [
        ("", ""),
        ("plain", "other"),
        ("with \"quotes\" and \\ backslash", "'single'"),
        ("line\nbreak\r\nand\ttab", "\u{0}\u{1}\u{7f}"),
        ("ünïcödé \u{1F600} \u{200B}", "# no comment"),
        ("a = \"b\"", "[table]"),
        ("'''", "\"\"\""),
    ] {
        let keys = PasetoConfig { access_key: a.to_string(), refresh_key: r.to_string() };
        let text = write_key_file(&keys).unwrap();
        let back = read_key_file(&text).unwrap();
        assert_eq!(back.access_key, a);
        assert_eq!(back.refresh_key, r);
    }
}

#[test]
fn a_claim_that_is_no_text_is_not_read() {
    let key = Key::<64>::try_from(KEY).unwrap();
    let private = PasetoAsymmetricPrivateKey::<V4, Public>::from(&key);
    let mut builder = GenericBuilder::<V4, Public>::default();
    builder.set_claim(SubjectClaim::from("u"));
    builder.set_claim(CustomClaim::try_from(("token_uuid", 7)).unwrap());
    builder.set_claim(ExpirationClaim::try_from(EXP).unwrap());
    builder.set_claim(IssuedAtClaim::try_from(IAT).unwrap());
    let token = builder.try_sign(&private).unwrap();
    assert_eq!(decode_token(KEY, &token).unwrap_err(), AuthError::InvalidSignature);
}

#[test]
fn an_identifier_under_another_name_is_not_read() {
    let key = Key::<64>::try_from(KEY).unwrap();
    let private = PasetoAsymmetricPrivateKey::<V4, Public>::from(&key);
    let mut builder = GenericBuilder::<V4, Public>::default();
    builder.set_claim(SubjectClaim::from("u"));
    builder.set_claim(CustomClaim::try_from(("token_id", ID)).unwrap());
    builder.set_claim(ExpirationClaim::try_from(EXP).unwrap());
    builder.set_claim(IssuedAtClaim::try_from(IAT).unwrap());
    let token = builder.try_sign(&private).unwrap();
    assert_eq!(decode_token(KEY, &token).unwrap_err(), AuthError::InvalidSignature);
    builder.set_claim(SubjectClaim::from("u"));
    builder.set_claim(CustomClaim::try_from(("token_id", ID)).unwrap());
    builder.set_claim(CustomClaim::try_from(("token_uuid", ID)).unwrap());
    builder.set_claim(ExpirationClaim::try_from(EXP).unwrap());
    builder.set_claim(IssuedAtClaim::try_from(IAT).unwrap());
    let token = builder.try_sign(&private).unwrap();
    assert_eq!(decode_token(KEY, &token).unwrap().token_uuid, ID);
}
