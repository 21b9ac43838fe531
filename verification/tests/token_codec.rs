use auth_core::error::AuthError;
use auth_core::token::{
    decode_token, generate_paseto_token, generate_paseto_token_at, sign_token, signature_room,
    verify_claims, verify_claims_at, verify_paseto_token, verify_paseto_token_at,
};

const KEY: &str = "b4cbfb43df4ce210727d953e4a713307fa19bb7d9f85041438d9e11b942a37741eb9dbbbbc047c03fd70604e0071f0987e16b28b757225c11f00415d0e20b1a2";
const OTHER_KEY: &str = "9d61b19deffd5a60ba844af492ec2cc44449c5697b326919703bac031cae7f60d75a980182b10ab7d54bfed3c964073a0ee172f3daa62325af021a68f707511a";
const ID: &str = "550e8400-e29b-41d4-a716-446655440000";
const NOW: i64 = 1_700_000_000;

fn minted() -> String {
    sign_token("user-1".to_string(), ID.to_string(), 15, KEY, NOW).unwrap().token.unwrap()
}

#[test]
fn sign_token_returns_the_user_the_identifier_and_the_expiry() {
    let d = sign_token("user-1".to_string(), ID.to_string(), 15, KEY, NOW).unwrap();
    assert_eq!(d.user_id, "user-1");
    assert_eq!(d.token_uuid, ID);
    assert_eq!(d.expires_in, Some(NOW + 900));
    assert!(d.token.unwrap().starts_with("v4.public."));
}

#[test]
fn signing_is_a_function_of_its_arguments() {
    assert_eq!(minted(), minted());
    let later = sign_token("user-1".to_string(), ID.to_string(), 15, KEY, NOW + 1).unwrap();
    assert_ne!(later.token.unwrap(), minted());
}

#[test]
fn minted_token_verifies_at_issue_and_at_expiry() {
    let token = minted();
    let at_issue = verify_paseto_token_at(KEY, &token, NOW).unwrap();
    assert_eq!(at_issue.user_id, "user-1");
    assert_eq!(at_issue.token_uuid, ID);
    assert_eq!(at_issue.expires_in, Some(NOW + 900));
    assert_eq!(at_issue.token, None);
    let at_expiry = verify_paseto_token_at(KEY, &token, NOW + 900).unwrap();
    assert_eq!(at_expiry.user_id, "user-1");
    assert_eq!(at_expiry.expires_in, Some(NOW + 900));
}

#[test]
fn a_verified_token_comes_back_with_the_expiry_it_was_signed_with() {
    for ttl in [0, 1, 15, 60 * 24 * 30] {
        let d = sign_token("user-1".to_string(), ID.to_string(), ttl, KEY, NOW).unwrap();
        let v = verify_paseto_token_at(KEY, &d.token.unwrap(), NOW).unwrap();
        assert_eq!(v.expires_in, d.expires_in);
        assert_eq!(v.expires_in, Some(NOW + ttl * 60));
    }
}

#[test]
fn claims_at_the_clock_carry_the_dates_of_the_mint() {
    let d = generate_paseto_token("user-4".to_string(), 5, KEY).unwrap();
    let c = verify_claims(KEY, &d.token.unwrap()).unwrap();
    assert_eq!(c.sub, "user-4");
    assert_eq!(c.token_uuid, d.token_uuid);
    assert_eq!(Some(c.exp), d.expires_in);
    assert_eq!(c.iat, c.exp - 300);
    assert_eq!(c.nbf, c.iat);
    assert_eq!(verify_claims(OTHER_KEY, &minted()).unwrap_err(), AuthError::InvalidSignature);
    let long_ago = sign_token("user-1".to_string(), ID.to_string(), 1, KEY, 0).unwrap();
    assert_eq!(verify_claims(KEY, &long_ago.token.unwrap()).unwrap_err(), AuthError::Expired);
}

#[test]
fn minted_token_is_expired_strictly_after_its_expiry() {
    let token = minted();
    assert_eq!(verify_paseto_token_at(KEY, &token, NOW + 901).unwrap_err(), AuthError::Expired);
    assert_eq!(
        verify_paseto_token_at(KEY, &token, NOW + 1_000_000).unwrap_err(),
        AuthError::Expired
    );
}

#[test]
fn minted_token_is_not_yet_valid_before_its_issue() {
    let token = minted();
    assert_eq!(verify_paseto_token_at(KEY, &token, NOW - 1).unwrap_err(), AuthError::NotYetValid);
}

#[test]
fn claims_carry_the_three_dates() {
    let c = verify_claims_at(KEY, &minted(), NOW + 5).unwrap();
    assert_eq!(c.sub, "user-1");
    assert_eq!(c.token_uuid, ID);
    assert_eq!(c.iat, NOW);
    assert_eq!(c.nbf, NOW);
    assert_eq!(c.exp, NOW + 900);
}

#[test]
fn decode_ignores_the_dates() {
    let c = decode_token(KEY, &minted()).unwrap();
    assert_eq!(c.exp, NOW + 900);
}

#[test]
fn tampering_any_byte_of_the_signed_part_is_an_invalid_signature() {
    let token = minted();
    let start = "v4.public.".len();
    for i in start..token.len() {
        let mut bytes = token.clone().into_bytes();
        bytes[i] = if bytes[i] == b'A' { b'B' } else { b'A' };
        let tampered = String::from_utf8(bytes).unwrap();
        assert_eq!(
            verify_paseto_token_at(KEY, &tampered, NOW).unwrap_err(),
            AuthError::InvalidSignature
        );
    }
}

#[test]
fn tampering_with_a_dot_or_a_foreign_character_is_an_invalid_signature() {
    let token = minted();
    for c in ['.', '!', '='] {
        let mut text: Vec<char> = token.chars().collect();
        text[40] = c;
        let tampered: String = text.into_iter().collect();
        assert_eq!(
            verify_paseto_token_at(KEY, &tampered, NOW).unwrap_err(),
            AuthError::InvalidSignature
        );
    }
}

#[test]
fn a_token_of_another_key_is_an_invalid_signature() {
    assert_eq!(
        verify_paseto_token_at(OTHER_KEY, &minted(), NOW).unwrap_err(),
        AuthError::InvalidSignature
    );
}

#[test]
fn malformed_tokens_are_rejected_without_a_panic() {
    for t in [
        "",
        "v4",
        "v4.public",
        "v4.public.",
        "v4.public.AAAA",
        "v4.local.AAAA",
        "not a token",
        "v4.public.AAAA.BBBB.CCCC",
        "....",
    ] {
        assert_eq!(verify_paseto_token_at(KEY, t, NOW).unwrap_err(), AuthError::InvalidSignature);
    }
    let long_wrong_header = format!("v3.public.{}", "A".repeat(120));
    assert_eq!(
        verify_paseto_token_at(KEY, &long_wrong_header, NOW).unwrap_err(),
        AuthError::InvalidSignature
    );
    let long_garbage = format!("v4.public.{}", "A".repeat(120));
    assert_eq!(
        verify_paseto_token_at(KEY, &long_garbage, NOW).unwrap_err(),
        AuthError::InvalidSignature
    );
}

#[test]
fn signature_room_asks_for_eighty_six_characters_in_the_third_part() {
    assert!(!signature_room(&format!("v4.public.{}", "A".repeat(85))));
    assert!(signature_room(&format!("v4.public.{}", "A".repeat(86))));
    assert!(signature_room(&format!("v4.public.{}.footer", "A".repeat(86))));
    assert!(!signature_room(&format!("v4.{}", "A".repeat(200))));
    assert!(!signature_room(""));
}

#[test]
fn an_unusable_secret_is_key_material_unavailable() {
    let token = minted();
    for secret in ["", "zz", "abcd", &KEY[..126], &format!("{}00", KEY)] {
        assert_eq!(
            verify_paseto_token_at(secret, &token, NOW).unwrap_err(),
            AuthError::KeyMaterialUnavailable
        );
        assert_eq!(
            sign_token("u".to_string(), ID.to_string(), 1, secret, NOW).unwrap_err(),
            AuthError::KeyMaterialUnavailable
        );
    }
}

#[test]
fn a_key_pair_whose_halves_do_not_match_does_not_sign() {
    let mixed = format!("{}{}", &KEY[..64], &OTHER_KEY[64..]);
    assert_eq!(
        sign_token("u".to_string(), ID.to_string(), 1, &mixed, NOW).unwrap_err(),
        AuthError::KeyMaterialUnavailable
    );
}

#[test]
fn an_identifier_that_is_no_canonical_uuid_is_refused() {
    for id in ["", "abc", "550E8400-E29B-41D4-A716-446655440000", "550e8400e29b41d4a716446655440000"] {
        assert_eq!(
            sign_token("u".to_string(), id.to_string(), 1, KEY, NOW).unwrap_err(),
            AuthError::InvalidClaims
        );
    }
}

#[test]
fn a_lifetime_that_leaves_the_range_of_dates_is_refused() {
    for (ttl, now) in [(i64::MAX, NOW), (i64::MIN, NOW), (1, -1), (-1, 0), (1, 253402300799), (1, i64::MAX)] {
        assert_eq!(
            sign_token("u".to_string(), ID.to_string(), ttl, KEY, now).unwrap_err(),
            AuthError::InvalidClaims
        );
    }
    let last = sign_token("u".to_string(), ID.to_string(), 0, KEY, 253402300799).unwrap();
    assert_eq!(last.expires_in, Some(253402300799));
    let first = sign_token("u".to_string(), ID.to_string(), 0, KEY, 0).unwrap();
    assert_eq!(first.expires_in, Some(0));
    assert!(verify_paseto_token_at(KEY, &first.token.unwrap(), 0).is_ok());
}

#[test]
fn a_negative_lifetime_gives_a_token_that_has_expired() {
    let d = sign_token("u".to_string(), ID.to_string(), -1, KEY, NOW).unwrap();
    assert_eq!(d.expires_in, Some(NOW - 60));
    assert_eq!(
        verify_paseto_token_at(KEY, &d.token.unwrap(), NOW).unwrap_err(),
        AuthError::Expired
    );
}

#[test]
fn random_identifiers_are_canonical_and_differ() {
    let a = generate_paseto_token_at("user-2".to_string(), 10, KEY, NOW).unwrap();
    let b = generate_paseto_token_at("user-2".to_string(), 10, KEY, NOW).unwrap();
    assert_ne!(a.token_uuid, b.token_uuid);
    assert_eq!(a.token_uuid.len(), 36);
    assert_eq!(a.expires_in, Some(NOW + 600));
    let v = verify_paseto_token_at(KEY, &a.token.unwrap(), NOW + 600).unwrap();
    assert_eq!(v.user_id, "user-2");
    assert_eq!(v.token_uuid, a.token_uuid);
}

#[test]
fn a_token_minted_now_verifies_now() {
    let d = generate_paseto_token("user-3".to_string(), 5, KEY).unwrap();
    let v = verify_paseto_token(KEY, &d.token.unwrap()).unwrap();
    assert_eq!(v.user_id, "user-3");
    assert_eq!(v.token_uuid, d.token_uuid);
    assert_eq!(v.expires_in, d.expires_in);
}

#[test]
fn a_subject_of_any_text_comes_back_unchanged() {
    let subject = "üser \"quoted\" . with\nnewline";
    let d = sign_token(subject.to_string(), ID.to_string(), 1, KEY, NOW).unwrap();
    let v = verify_paseto_token_at(KEY, &d.token.unwrap(), NOW).unwrap();
    assert_eq!(v.user_id, subject);
}

#[test]
fn no_text_makes_verification_panic() {
    let alphabet: Vec<char> =
        "ABCDEFGHIJKLMNOPQRSTUVWXYZabcdefghijklmnopqrstuvwxyz0123456789-_=+/.. \u{e9}\u{1F600}"
            .chars()
            .collect();
    let mut seed: u64 = 0x2545F4914F6CDD1D;
    let mut next = move || {
        seed ^= seed << 13;
        seed ^= seed >> 7;
        seed ^= seed << 17;
        seed
    };
    let genuine = minted();
    for round in 0..400 {
        let length = (next() % 200) as usize;
        let body: String =
            (0..length).map(|_| alphabet[(next() % alphabet.len() as u64) as usize]).collect();
        let token = match round % 4 {
            0 => body,
            1 => format!("v4.public.{}", body),
            2 => format!("v4.public.{}.{}", "A".repeat(86 + (next() % 40) as usize), body),
            _ => {
                let keep = (next() % genuine.len() as u64) as usize;
                let head: String = genuine.chars().take(keep).collect();
                format!("{}{}", head, body)
            }
        };
        if token != genuine {
            assert_eq!(
                verify_paseto_token_at(KEY, &token, NOW).unwrap_err(),
                AuthError::InvalidSignature,
                "{:?}",
                token
            );
        }
    }
}

#[test]
fn a_footer_is_not_accepted_unless_it_is_empty() {
    let with_footer = format!("{}.Zm9vdGVy", minted());
    assert_eq!(
        verify_paseto_token_at(KEY, &with_footer, NOW).unwrap_err(),
        AuthError::InvalidSignature
    );
    let with_empty_footer = format!("{}.", minted());
    assert_eq!(verify_paseto_token_at(KEY, &with_empty_footer, NOW).unwrap().user_id, "user-1");
}
