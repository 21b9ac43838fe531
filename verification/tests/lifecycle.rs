use auth_core::error::AuthError;
use auth_core::keys::{PasetoConfig, TokenType};
use auth_core::lifecycle::{
    authenticate, authenticate_at, blacklist_token, blacklist_token_at, issue_pair, issue_pair_at,
    issue_pair_with, refresh, refresh_at, refresh_with, LifecyclePolicy, ROTATION_WINDOW_SECS,
};
use auth_core::store::{Token, TokenStore};
use auth_core::token::{sign_token, verify_claims_at, verify_paseto_token_at};

const ACCESS_KEY: &str = "b4cbfb43df4ce210727d953e4a713307fa19bb7d9f85041438d9e11b942a37741eb9dbbbbc047c03fd70604e0071f0987e16b28b757225c11f00415d0e20b1a2";
const REFRESH_KEY: &str = "9d61b19deffd5a60ba844af492ec2cc44449c5697b326919703bac031cae7f60d75a980182b10ab7d54bfed3c964073a0ee172f3daa62325af021a68f707511a";
const NOW: i64 = 1_700_000_000;

fn keys() -> PasetoConfig {
    PasetoConfig { access_key: ACCESS_KEY.to_string(), refresh_key: REFRESH_KEY.to_string() }
}

fn policy() -> LifecyclePolicy {
    LifecyclePolicy {
        access_ttl_minutes: 15,
        refresh_ttl_minutes: 60 * 24,
        rotation_window_secs: ROTATION_WINDOW_SECS,
    }
}

/// A store that holds one refresh token of user `u` which expires at `expires_at`.
fn store_with_refresh(expires_at: i64) -> (TokenStore, String) {
    let id = "11111111-2222-4333-8444-555555555555";
    let issued = expires_at - 6000;
    let d = sign_token("u".to_string(), id.to_string(), 100, REFRESH_KEY, issued).unwrap();
    let token = d.token.unwrap();
    let mut store = TokenStore::new();
    assert!(store.insert(Token {
        token_id: id.to_string(),
        user_id: "u".to_string(),
        kind: TokenType::RefreshToken,
        signed_value: token.clone(),
        issued_at: issued,
        expires_at,
        revoked: false,
    }));
    (store, token)
}

#[test]
fn the_rotation_window_is_one_hour() {
    assert_eq!(ROTATION_WINDOW_SECS, 3600);
}

#[test]
fn issue_pair_keeps_a_record_of_each_token() {
    let mut store = TokenStore::new();
    let (access, refresh) = issue_pair_at(&mut store, &keys(), &policy(), "user-1", NOW).unwrap();
    assert_eq!(store.len(), 2);
    assert_eq!(access.user_id, "user-1");
    assert_eq!(access.expires_in, Some(NOW + 900));
    assert_eq!(refresh.expires_in, Some(NOW + 86400));
    let a = store.find(&access.token_uuid).unwrap();
    assert_eq!(a.kind, TokenType::AccessToken);
    assert_eq!(a.user_id, "user-1");
    assert_eq!(a.issued_at, NOW);
    assert_eq!(a.expires_at, NOW + 900);
    assert_eq!(Some(a.signed_value), access.token);
    assert!(!a.revoked);
    let r = store.find(&refresh.token_uuid).unwrap();
    assert_eq!(r.kind, TokenType::RefreshToken);
    assert_eq!(r.expires_at, NOW + 86400);
    assert!(!r.revoked);
}

#[test]
fn issue_pair_fails_without_a_key_and_leaves_the_store() {
    let mut store = TokenStore::new();
    let bad = PasetoConfig { access_key: "".to_string(), refresh_key: REFRESH_KEY.to_string() };
    assert_eq!(
        issue_pair_at(&mut store, &bad, &policy(), "u", NOW).unwrap_err(),
        AuthError::KeyMaterialUnavailable
    );
    let bad = PasetoConfig { access_key: ACCESS_KEY.to_string(), refresh_key: "xx".to_string() };
    assert_eq!(
        issue_pair_at(&mut store, &bad, &policy(), "u", NOW).unwrap_err(),
        AuthError::KeyMaterialUnavailable
    );
    assert_eq!(store.len(), 0);
}

#[test]
fn authenticate_returns_the_user_of_a_live_access_token() {
    let mut store = TokenStore::new();
    let (access, _) = issue_pair_at(&mut store, &keys(), &policy(), "user-1", NOW).unwrap();
    let token = access.token.unwrap();
    assert_eq!(authenticate_at(&store, &keys(), &token, NOW).unwrap(), "user-1");
    assert_eq!(authenticate_at(&store, &keys(), &token, NOW + 900).unwrap(), "user-1");
    assert_eq!(authenticate_at(&store, &keys(), &token, NOW + 901).unwrap_err(), AuthError::Expired);
    assert_eq!(
        authenticate_at(&store, &keys(), "v4.public.AAAA", NOW).unwrap_err(),
        AuthError::InvalidSignature
    );
}

#[test]
fn authenticate_does_not_take_a_refresh_token() {
    let mut store = TokenStore::new();
    let (_, refresh) = issue_pair_at(&mut store, &keys(), &policy(), "user-1", NOW).unwrap();
    assert_eq!(
        authenticate_at(&store, &keys(), &refresh.token.clone().unwrap(), NOW).unwrap_err(),
        AuthError::InvalidSignature
    );
    let same = PasetoConfig { access_key: REFRESH_KEY.to_string(), refresh_key: REFRESH_KEY.to_string() };
    assert_eq!(
        authenticate_at(&store, &same, &refresh.token.unwrap(), NOW).unwrap_err(),
        AuthError::UnknownToken
    );
}

#[test]
fn authenticate_does_not_know_a_token_without_a_record() {
    let store = TokenStore::new();
    let d = sign_token(
        "u".to_string(),
        "11111111-2222-4333-8444-555555555555".to_string(),
        5,
        ACCESS_KEY,
        NOW,
    )
    .unwrap();
    assert_eq!(
        authenticate_at(&store, &keys(), &d.token.unwrap(), NOW).unwrap_err(),
        AuthError::UnknownToken
    );
}

#[test]
fn revoke_then_authenticate_is_revoked() {
    let mut store = TokenStore::new();
    let (access, _) = issue_pair_at(&mut store, &keys(), &policy(), "user-1", NOW).unwrap();
    let token = access.token.unwrap();
    assert_eq!(blacklist_token_at(&mut store, ACCESS_KEY, &token, NOW + 1), Ok(true));
    assert!(store.find(&access.token_uuid).unwrap().revoked);
    assert_eq!(store.len(), 2);
    for at in [NOW, NOW + 1, NOW + 900] {
        assert_eq!(authenticate_at(&store, &keys(), &token, at).unwrap_err(), AuthError::Revoked);
    }
    assert_eq!(authenticate_at(&store, &keys(), &token, NOW + 901).unwrap_err(), AuthError::Expired);
}

#[test]
fn revoke_is_idempotent_and_says_whether_the_token_was_live() {
    let mut store = TokenStore::new();
    let (access, refresh) = issue_pair_at(&mut store, &keys(), &policy(), "user-1", NOW).unwrap();
    let token = access.token.unwrap();
    assert_eq!(blacklist_token_at(&mut store, ACCESS_KEY, &token, NOW), Ok(true));
    assert_eq!(blacklist_token_at(&mut store, ACCESS_KEY, &token, NOW), Ok(false));
    assert!(store.find(&access.token_uuid).unwrap().revoked);
    assert!(!store.find(&refresh.token_uuid).unwrap().revoked);
}

#[test]
fn revoking_an_expired_token_changes_no_record() {
    let mut store = TokenStore::new();
    let (access, refresh) = issue_pair_at(&mut store, &keys(), &policy(), "user-1", NOW).unwrap();
    let late = refresh.token.unwrap();
    assert_eq!(blacklist_token_at(&mut store, REFRESH_KEY, &late, NOW + 86401), Ok(false));
    assert_eq!(store.len(), 2);
    assert!(!store.find(&refresh.token_uuid).unwrap().revoked);
    assert!(!store.find(&access.token_uuid).unwrap().revoked);
    assert_eq!(blacklist_token_at(&mut store, REFRESH_KEY, &late, NOW + 86400), Ok(true));
    assert!(store.find(&refresh.token_uuid).unwrap().revoked);
    assert_eq!(blacklist_token_at(&mut store, REFRESH_KEY, &late, NOW + 86401), Ok(false));
    assert!(store.find(&refresh.token_uuid).unwrap().revoked);
}

#[test]
fn revoke_of_an_unknown_or_forged_token() {
    let mut store = TokenStore::new();
    let d = sign_token(
        "u".to_string(),
        "11111111-2222-4333-8444-555555555555".to_string(),
        5,
        ACCESS_KEY,
        NOW,
    )
    .unwrap();
    let token = d.token.unwrap();
    assert_eq!(blacklist_token_at(&mut store, ACCESS_KEY, &token, NOW), Ok(false));
    assert_eq!(
        blacklist_token_at(&mut store, REFRESH_KEY, &token, NOW),
        Err(AuthError::InvalidSignature)
    );
    assert_eq!(
        blacklist_token_at(&mut store, "", &token, NOW),
        Err(AuthError::KeyMaterialUnavailable)
    );
    assert_eq!(store.len(), 0);
}

#[test]
fn refresh_with_more_than_an_hour_left_keeps_the_refresh_token() {
    let (mut store, token) = store_with_refresh(NOW + 3601);
    let out = refresh_at(&mut store, &keys(), &policy(), &token, NOW).unwrap();
    assert!(out.refresh.is_none());
    assert_eq!(out.access.user_id, "u");
    assert_eq!(out.access.expires_in, Some(NOW + 900));
    assert_eq!(store.len(), 2);
    let old = store.find("11111111-2222-4333-8444-555555555555").unwrap();
    assert!(!old.revoked);
    assert_eq!(old.signed_value, token);
    assert_eq!(
        authenticate_at(&store, &keys(), &out.access.token.unwrap(), NOW).unwrap(),
        "u"
    );
    assert!(refresh_at(&mut store, &keys(), &policy(), &token, NOW + 1).is_ok());
}

#[test]
fn refresh_with_an_hour_or_less_left_rotates_the_refresh_token() {
    for left in [3600, 1, 0] {
        let (mut store, token) = store_with_refresh(NOW + left);
        let out = refresh_at(&mut store, &keys(), &policy(), &token, NOW).unwrap();
        let replacement = out.refresh.unwrap();
        assert_eq!(replacement.user_id, "u");
        assert_eq!(replacement.expires_in, Some(NOW + 86400));
        assert_ne!(replacement.token.clone().unwrap(), token);
        assert_eq!(store.len(), 3);
        assert!(store.find("11111111-2222-4333-8444-555555555555").unwrap().revoked);
        let kept = store.find(&replacement.token_uuid).unwrap();
        assert!(!kept.revoked);
        assert_eq!(kept.kind, TokenType::RefreshToken);
        assert_eq!(kept.expires_at, NOW + 86400);
        let again = refresh_at(&mut store, &keys(), &policy(), &replacement.token.unwrap(), NOW)
            .unwrap();
        assert!(again.refresh.is_none());
    }
}

#[test]
fn a_second_refresh_with_a_rotated_token_is_revoked() {
    let (mut store, token) = store_with_refresh(NOW + 10);
    assert!(refresh_at(&mut store, &keys(), &policy(), &token, NOW).is_ok());
    let before = store.len();
    assert_eq!(
        refresh_at(&mut store, &keys(), &policy(), &token, NOW).unwrap_err(),
        AuthError::Revoked
    );
    assert_eq!(
        refresh_at(&mut store, &keys(), &policy(), &token, NOW + 10).unwrap_err(),
        AuthError::Revoked
    );
    assert_eq!(
        refresh_at(&mut store, &keys(), &policy(), &token, NOW + 11).unwrap_err(),
        AuthError::Expired
    );
    assert_eq!(store.len(), before);
}

#[test]
fn refresh_rejects_expired_unknown_and_revoked_tokens() {
    let (mut store, token) = store_with_refresh(NOW + 10);
    assert_eq!(
        refresh_at(&mut store, &keys(), &policy(), &token, NOW + 11).unwrap_err(),
        AuthError::Expired
    );
    let mut empty = TokenStore::new();
    assert_eq!(
        refresh_at(&mut empty, &keys(), &policy(), &token, NOW).unwrap_err(),
        AuthError::UnknownToken
    );
    assert_eq!(blacklist_token_at(&mut store, REFRESH_KEY, &token, NOW), Ok(true));
    assert_eq!(
        refresh_at(&mut store, &keys(), &policy(), &token, NOW).unwrap_err(),
        AuthError::Revoked
    );
    assert_eq!(
        refresh_at(&mut store, &keys(), &policy(), "garbage", NOW).unwrap_err(),
        AuthError::InvalidSignature
    );
    assert_eq!(store.len(), 1);
}

#[test]
fn refresh_does_not_take_an_access_token() {
    let mut store = TokenStore::new();
    let same = PasetoConfig { access_key: ACCESS_KEY.to_string(), refresh_key: ACCESS_KEY.to_string() };
    let (access, _) = issue_pair_at(&mut store, &same, &policy(), "u", NOW).unwrap();
    assert_eq!(
        refresh_at(&mut store, &same, &policy(), &access.token.unwrap(), NOW).unwrap_err(),
        AuthError::UnknownToken
    );
}

#[test]
fn the_store_keeps_one_record_under_each_identifier() {
    let (mut store, token) = store_with_refresh(NOW + 10);
    assert!(!store.insert(Token {
        token_id: "11111111-2222-4333-8444-555555555555".to_string(),
        user_id: "other".to_string(),
        kind: TokenType::AccessToken,
        signed_value: token,
        issued_at: 0,
        expires_at: 0,
        revoked: true,
    }));
    assert_eq!(store.len(), 1);
    assert_eq!(store.get(0).unwrap().user_id, "u");
    assert!(store.get(1).is_none());
    assert_eq!(store.position("11111111-2222-4333-8444-555555555555"), Some(0));
    assert_eq!(store.position("nothing"), None);
    assert!(!store.revoke("nothing"));
    assert!(store.revoke("11111111-2222-4333-8444-555555555555"));
    assert!(!store.revoke("11111111-2222-4333-8444-555555555555"));
}

#[test]
fn the_whole_life_of_a_session_by_the_clock() {
    let mut store = TokenStore::new();
    let (access, refresh_token) = issue_pair(&mut store, &keys(), &policy(), "user-9").unwrap();
    let token = access.token.unwrap();
    assert_eq!(authenticate(&store, &keys(), &token).unwrap(), "user-9");
    let out = refresh(&mut store, &keys(), &policy(), &refresh_token.token.unwrap()).unwrap();
    assert!(out.refresh.is_none());
    assert_eq!(blacklist_token(&mut store, ACCESS_KEY, &token), Ok(true));
    assert_eq!(authenticate(&store, &keys(), &token).unwrap_err(), AuthError::Revoked);
}

const ID_A: &str = "aaaaaaaa-aaaa-4aaa-8aaa-aaaaaaaaaaaa";
const ID_B: &str = "bbbbbbbb-bbbb-4bbb-8bbb-bbbbbbbbbbbb";
const ID_OLD: &str = "11111111-2222-4333-8444-555555555555";

#[test]
fn issue_pair_under_given_identifiers() {
    let mut store = TokenStore::new();
    let (access, refresh) = issue_pair_with(
        &mut store,
        &keys(),
        &policy(),
        "user-1",
        NOW,
        ID_A.to_string(),
        ID_B.to_string(),
    )
    .unwrap();
    assert_eq!(access.token_uuid, ID_A);
    assert_eq!(refresh.token_uuid, ID_B);
    assert_eq!(
        access.token,
        sign_token("user-1".to_string(), ID_A.to_string(), 15, ACCESS_KEY, NOW).unwrap().token
    );
    assert_eq!(
        refresh.token,
        sign_token("user-1".to_string(), ID_B.to_string(), 1440, REFRESH_KEY, NOW).unwrap().token
    );
    assert_eq!(store.get(0).unwrap().token_id, ID_A);
    assert_eq!(store.get(1).unwrap().token_id, ID_B);
}

#[test]
fn an_identifier_in_use_makes_the_store_unavailable() {
    let mut store = TokenStore::new();
    let issue = |store: &mut TokenStore, a: &str, b: &str| {
        issue_pair_with(store, &keys(), &policy(), "u", NOW, a.to_string(), b.to_string())
    };
    assert_eq!(issue(&mut store, ID_A, ID_A).unwrap_err(), AuthError::StoreUnavailable);
    assert_eq!(store.len(), 0);
    assert!(issue(&mut store, ID_A, ID_B).is_ok());
    assert_eq!(issue(&mut store, ID_A, ID_OLD).unwrap_err(), AuthError::StoreUnavailable);
    assert_eq!(issue(&mut store, ID_OLD, ID_B).unwrap_err(), AuthError::StoreUnavailable);
    assert_eq!(store.len(), 2);
    assert_eq!(issue(&mut store, "no uuid", ID_OLD).unwrap_err(), AuthError::InvalidClaims);
    assert_eq!(issue(&mut store, ID_OLD, "no uuid").unwrap_err(), AuthError::InvalidClaims);
    assert_eq!(store.len(), 2);
}

#[test]
fn refresh_under_given_identifiers() {
    let (mut store, token) = store_with_refresh(NOW + 3600);
    let out = refresh_with(
        &mut store,
        &keys(),
        &policy(),
        &token,
        NOW,
        ID_A.to_string(),
        ID_B.to_string(),
    )
    .unwrap();
    assert_eq!(out.access.token_uuid, ID_A);
    assert_eq!(out.refresh.unwrap().token_uuid, ID_B);
    assert_eq!(store.len(), 3);
    assert!(store.get(0).unwrap().revoked);
    assert_eq!(store.get(1).unwrap().token_id, ID_A);
    assert_eq!(store.get(2).unwrap().token_id, ID_B);
}

#[test]
fn refresh_fails_on_an_identifier_in_use_and_revokes_nothing() {
    for left in [3600, 3601] {
        let (mut store, token) = store_with_refresh(NOW + left);
        assert_eq!(
            refresh_with(
                &mut store,
                &keys(),
                &policy(),
                &token,
                NOW,
                ID_OLD.to_string(),
                ID_B.to_string()
            )
            .unwrap_err(),
            AuthError::StoreUnavailable
        );
        assert_eq!(store.len(), 1);
        assert!(!store.get(0).unwrap().revoked);
    }
    let (mut store, token) = store_with_refresh(NOW + 3600);
    assert_eq!(
        refresh_with(&mut store, &keys(), &policy(), &token, NOW, ID_A.to_string(), ID_A.to_string())
            .unwrap_err(),
        AuthError::StoreUnavailable
    );
    assert_eq!(
        refresh_with(&mut store, &keys(), &policy(), &token, NOW, ID_A.to_string(), "x".to_string())
            .unwrap_err(),
        AuthError::InvalidClaims
    );
    assert!(!store.get(0).unwrap().revoked);
    let (mut store, token) = store_with_refresh(NOW + 3601);
    assert!(refresh_with(
        &mut store,
        &keys(),
        &policy(),
        &token,
        NOW,
        ID_A.to_string(),
        "unused".to_string()
    )
    .is_ok());
}

#[test]
fn each_token_of_a_pair_verifies_under_its_own_key() {
    let mut store = TokenStore::new();
    let (access, refresh) = issue_pair_at(&mut store, &keys(), &policy(), "user-1", NOW).unwrap();
    assert_ne!(access.token_uuid, refresh.token_uuid);
    let a = verify_claims_at(ACCESS_KEY, access.token.as_ref().unwrap(), NOW).unwrap();
    assert_eq!(a.sub, "user-1");
    assert_eq!(a.token_uuid, access.token_uuid);
    assert_eq!(a.iat, NOW);
    assert_eq!(a.exp, NOW + 900);
    let token = refresh.token.unwrap();
    for at in [NOW, NOW + 901, NOW + 86400] {
        let r = verify_claims_at(REFRESH_KEY, &token, at).unwrap();
        assert_eq!(r.sub, "user-1");
        assert_eq!(r.token_uuid, refresh.token_uuid);
        assert_eq!(r.iat, NOW);
        assert_eq!(r.exp, NOW + 86400);
    }
    assert_eq!(verify_claims_at(REFRESH_KEY, &token, NOW + 86401).unwrap_err(), AuthError::Expired);
    assert_eq!(verify_claims_at(REFRESH_KEY, &token, NOW - 1).unwrap_err(), AuthError::NotYetValid);
    assert_eq!(
        verify_claims_at(ACCESS_KEY, &token, NOW).unwrap_err(),
        AuthError::InvalidSignature
    );
}

#[test]
fn a_replacement_verifies_for_the_same_user_and_is_another_token() {
    let (mut store, token) = store_with_refresh(NOW + 3600);
    let out = refresh_at(&mut store, &keys(), &policy(), &token, NOW).unwrap();
    let replacement = out.refresh.unwrap();
    let new_token = replacement.token.unwrap();
    assert_ne!(new_token, token);
    assert_ne!(replacement.token_uuid, ID_OLD);
    let v = verify_paseto_token_at(REFRESH_KEY, &new_token, NOW).unwrap();
    assert_eq!(v.user_id, "u");
    assert_eq!(v.token_uuid, replacement.token_uuid);
    assert_eq!(v.expires_in, Some(NOW + 86400));
    assert!(verify_paseto_token_at(REFRESH_KEY, &new_token, NOW + 86400).is_ok());
    assert_eq!(
        verify_paseto_token_at(REFRESH_KEY, &new_token, NOW + 86401).unwrap_err(),
        AuthError::Expired
    );
    let a = verify_paseto_token_at(ACCESS_KEY, &out.access.token.unwrap(), NOW).unwrap();
    assert_eq!(a.user_id, "u");
    assert_eq!(a.expires_in, Some(NOW + 900));
}
