use crate::clock::now_unix;
use crate::error::AuthError;
use crate::keys::{PasetoConfig, TokenType};
use crate::store::{
    distinct_ids, holds, place_of, row_of, Token, TokenStore, TokenView, with_revoked,
};
use crate::token::{
    decode_spec, decode_token, mint_spec, new_uuid, sign_token, uuid_canonical, verifies_between,
    verify_claims_at, verify_spec, DetailsView, TokenDetails,
};
use crate::views::text_result_view;
use vstd::prelude::*;

verus! {

/// The lifetimes of the two kinds of token, in minutes, and the remaining
/// lifetime of a refresh token, in seconds, from which on it is rotated.
#[derive(Debug, Clone, Copy)]
pub struct LifecyclePolicy {
    pub access_ttl_minutes: i64,
    pub refresh_ttl_minutes: i64,
    pub rotation_window_secs: i64,
}

/// One hour: the rotation window of the service.
pub const ROTATION_WINDOW_SECS: i64 = 3600;

/// What a refresh returns: a new access token and, where the refresh token
/// was rotated, its replacement.
#[derive(Debug)]
pub struct RefreshOutcome {
    pub access: TokenDetails,
    pub refresh: Option<TokenDetails>,
}

/// The outcome of a refresh as a mathematical value.
pub struct OutcomeView {
    pub access: DetailsView,
    pub refresh: Option<DetailsView>,
}

impl View for RefreshOutcome {
    type V = OutcomeView;

    open spec fn view(&self) -> OutcomeView {
        OutcomeView {
            access: self.access@,
            refresh: match self.refresh {
                Some(d) => Some(d@),
                None => None,
            },
        }
    }
}

/// The record of a freshly signed token.
pub open spec fn row_for(d: DetailsView, kind: TokenType, now: int) -> TokenView {
    TokenView {
        token_id: d.token_uuid,
        user_id: d.user_id,
        kind,
        signed_value: d.token->0,
        issued_at: now,
        expires_at: d.expires_in->0,
        revoked: false,
    }
}

/// What the record under a token's identifier allows: `UnknownToken` where
/// none of the kind is kept, `Revoked` where it is marked so.
pub open spec fn row_check(rows: Seq<TokenView>, id: Seq<char>, kind: TokenType) -> Result<
    (),
    AuthError,
> {
    if !holds(rows, id) || row_of(rows, id).kind != kind {
        Err(AuthError::UnknownToken)
    } else if row_of(rows, id).revoked {
        Err(AuthError::Revoked)
    } else {
        Ok(())
    }
}

/// The user that an access token authenticates at a time: the token has to
/// verify, and its record has to be kept and not revoked.
pub open spec fn authenticate_spec(
    rows: Seq<TokenView>,
    access_key: Seq<char>,
    token: Seq<char>,
    now: int,
) -> Result<Seq<char>, AuthError> {
    match verify_spec(access_key, token, now) {
        Err(e) => Err(e),
        Ok(c) => match row_check(rows, c.token_uuid, TokenType::AccessToken) {
            Err(e) => Err(e),
            Ok(_) => Ok(c.sub),
        },
    }
}

/// Whether an access token authenticates the user at every time from `from`
/// to `until`.
pub open spec fn authenticates_between(
    rows: Seq<TokenView>,
    access_key: Seq<char>,
    token: Seq<char>,
    user_id: Seq<char>,
    from: int,
    until: int,
) -> bool {
    forall|at: int|
        from <= at <= until ==> #[trigger] authenticate_spec(rows, access_key, token, at) == Ok::<
            Seq<char>,
            AuthError,
        >(user_id)
}

/// What revoking a token returns and leaves in the store: the signature has
/// to hold, whatever the dates. A token past its expiry is not live, and the
/// store stays as it was. Else the record, if one is kept, is marked, and the
/// answer says whether it was live, that is kept and not yet revoked.
pub open spec fn revoke_spec(rows: Seq<TokenView>, secret: Seq<char>, token: Seq<char>, now: int) -> (
    Result<bool, AuthError>,
    Seq<TokenView>,
) {
    match decode_spec(secret, token) {
        Err(e) => (Err(e), rows),
        Ok(c) => if now > c.exp {
            (Ok(false), rows)
        } else {
            (
                Ok(holds(rows, c.token_uuid) && !row_of(rows, c.token_uuid).revoked),
                with_revoked(rows, c.token_uuid),
            )
        },
    }
}

/// What issuing a pair returns and leaves in the store, the two identifiers
/// given: both tokens signed at `now` and kept as records, or a failure and
/// the store as it was. An identifier already in use is `StoreUnavailable`.
pub open spec fn issue_pair_spec(
    rows: Seq<TokenView>,
    access_key: Seq<char>,
    refresh_key: Seq<char>,
    policy: LifecyclePolicy,
    user_id: Seq<char>,
    now: int,
    access_id: Seq<char>,
    refresh_id: Seq<char>,
) -> (Result<(DetailsView, DetailsView), AuthError>, Seq<TokenView>) {
    match mint_spec(user_id, access_id, policy.access_ttl_minutes as int, access_key, now) {
        Err(e) => (Err(e), rows),
        Ok(access) => match mint_spec(
            user_id,
            refresh_id,
            policy.refresh_ttl_minutes as int,
            refresh_key,
            now,
        ) {
            Err(e) => (Err(e), rows),
            Ok(refresh) => if access_id == refresh_id || holds(rows, access_id) || holds(
                rows,
                refresh_id,
            ) {
                (Err(AuthError::StoreUnavailable), rows)
            } else {
                (
                    Ok((access, refresh)),
                    rows.push(row_for(access, TokenType::AccessToken, now)).push(
                        row_for(refresh, TokenType::RefreshToken, now),
                    ),
                )
            },
        },
    }
}

/// What a refresh returns and leaves in the store, the two identifiers
/// given. The refresh token has to verify and its record has to be kept and
/// not revoked. A new access token is signed for the same user. Where the
/// refresh token has no more than the rotation window left, its record is
/// revoked and a replacement is signed; else it stays as it is.
pub open spec fn refresh_spec(
    rows: Seq<TokenView>,
    access_key: Seq<char>,
    refresh_key: Seq<char>,
    policy: LifecyclePolicy,
    token: Seq<char>,
    now: int,
    access_id: Seq<char>,
    refresh_id: Seq<char>,
) -> (Result<OutcomeView, AuthError>, Seq<TokenView>) {
    match verify_spec(refresh_key, token, now) {
        Err(e) => (Err(e), rows),
        Ok(c) => match row_check(rows, c.token_uuid, TokenType::RefreshToken) {
            Err(e) => (Err(e), rows),
            Ok(_) => match mint_spec(
                c.sub,
                access_id,
                policy.access_ttl_minutes as int,
                access_key,
                now,
            ) {
                Err(e) => (Err(e), rows),
                Ok(access) => if c.exp - now > policy.rotation_window_secs {
                    if holds(rows, access_id) {
                        (Err(AuthError::StoreUnavailable), rows)
                    } else {
                        (
                            Ok(OutcomeView { access, refresh: None }),
                            rows.push(row_for(access, TokenType::AccessToken, now)),
                        )
                    }
                } else {
                    match mint_spec(
                        c.sub,
                        refresh_id,
                        policy.refresh_ttl_minutes as int,
                        refresh_key,
                        now,
                    ) {
                        Err(e) => (Err(e), rows),
                        Ok(refresh) => if access_id == refresh_id || holds(rows, access_id)
                            || holds(rows, refresh_id) {
                            (Err(AuthError::StoreUnavailable), rows)
                        } else {
                            (
                                Ok(OutcomeView { access, refresh: Some(refresh) }),
                                with_revoked(rows, c.token_uuid).push(
                                    row_for(access, TokenType::AccessToken, now),
                                ).push(row_for(refresh, TokenType::RefreshToken, now)),
                            )
                        },
                    }
                },
            },
        },
    }
}

/// The two tokens that an operation returned, as mathematical values, or its
/// failure.
pub open spec fn pair_result_view(r: Result<(TokenDetails, TokenDetails), AuthError>) -> Result<
    (DetailsView, DetailsView),
    AuthError,
> {
    match r {
        Ok(p) => Ok((p.0@, p.1@)),
        Err(e) => Err(e),
    }
}

/// The outcome that a refresh returned, as a mathematical value, or its
/// failure.
pub open spec fn outcome_result_view(r: Result<RefreshOutcome, AuthError>) -> Result<
    OutcomeView,
    AuthError,
> {
    match r {
        Ok(o) => Ok(o@),
        Err(e) => Err(e),
    }
}

/// Whether the answer and the store are what issuing a pair gives under some
/// two canonical identifiers, with an access token that authenticates the
/// user from `now` to its expiry and a refresh token that verifies as the
/// user's under the refresh key from `now` to its own expiry.
pub open spec fn issued_pair(
    r: Result<(DetailsView, DetailsView), AuthError>,
    after: Seq<TokenView>,
    before: Seq<TokenView>,
    access_key: Seq<char>,
    refresh_key: Seq<char>,
    policy: LifecyclePolicy,
    user_id: Seq<char>,
    now: int,
) -> bool {
    exists|access_id: Seq<char>, refresh_id: Seq<char>|
        uuid_canonical(access_id) == Some(access_id) && uuid_canonical(refresh_id) == Some(
            refresh_id,
        ) && (r, after) == #[trigger] issue_pair_spec(
            before,
            access_key,
            refresh_key,
            policy,
            user_id,
            now,
            access_id,
            refresh_id,
        ) && (r matches Ok(pair) ==> authenticates_between(
            after,
            access_key,
            pair.0.token->0,
            user_id,
            now,
            now + policy.access_ttl_minutes * 60,
        ) && verifies_between(
            access_key,
            pair.0.token->0,
            user_id,
            access_id,
            now,
            now + policy.access_ttl_minutes * 60,
        ) && verifies_between(
            refresh_key,
            pair.1.token->0,
            user_id,
            refresh_id,
            now,
            now + policy.refresh_ttl_minutes * 60,
        ))
}

/// Whether a replacement is another token than the refresh token that it
/// replaces, and verifies as the user's under the refresh key, with the
/// identifier given, from `now` to its expiry.
pub open spec fn replaces(
    replacement: Option<DetailsView>,
    refresh_key: Seq<char>,
    token: Seq<char>,
    user_id: Seq<char>,
    refresh_id: Seq<char>,
    now: int,
    until: int,
) -> bool {
    replacement matches Some(n) ==> n.token->0 != token && verifies_between(
        refresh_key,
        n.token->0,
        user_id,
        refresh_id,
        now,
        until,
    )
}

/// Whether the answer and the store are what a refresh gives under some two
/// canonical identifiers, with an access token that authenticates the user of
/// the refresh token from `now` to its expiry and, where the refresh token was
/// rotated, a replacement that is another token and verifies as that user's.
pub open spec fn refreshed(
    r: Result<OutcomeView, AuthError>,
    after: Seq<TokenView>,
    before: Seq<TokenView>,
    access_key: Seq<char>,
    refresh_key: Seq<char>,
    policy: LifecyclePolicy,
    token: Seq<char>,
    now: int,
) -> bool {
    exists|access_id: Seq<char>, refresh_id: Seq<char>|
        uuid_canonical(access_id) == Some(access_id) && uuid_canonical(refresh_id) == Some(
            refresh_id,
        ) && (r, after) == #[trigger] refresh_spec(
            before,
            access_key,
            refresh_key,
            policy,
            token,
            now,
            access_id,
            refresh_id,
        ) && (r matches Ok(out) ==> authenticates_between(
            after,
            access_key,
            out.access.token->0,
            verify_spec(refresh_key, token, now)->Ok_0.sub,
            now,
            now + policy.access_ttl_minutes * 60,
        ) && verifies_between(
            access_key,
            out.access.token->0,
            verify_spec(refresh_key, token, now)->Ok_0.sub,
            access_id,
            now,
            now + policy.access_ttl_minutes * 60,
        ) && replaces(
            out.refresh,
            refresh_key,
            token,
            verify_spec(refresh_key, token, now)->Ok_0.sub,
            refresh_id,
            now,
            now + policy.refresh_ttl_minutes * 60,
        ))
}

fn record_of(d: &TokenDetails, kind: TokenType, now: i64) -> (row: Token)
    requires
        d.token is Some,
        d.expires_in is Some,
    ensures
        row@ == row_for(d@, kind, now as int),
{
    let signed_value = match &d.token {
        Some(t) => t.clone(),
        None => String::new(),
    };
    let expires_at = match d.expires_in {
        Some(e) => e,
        None => 0,
    };
    Token {
        token_id: d.token_uuid.clone(),
        user_id: d.user_id.clone(),
        kind,
        signed_value,
        issued_at: now,
        expires_at,
        revoked: false,
    }
}


fn check_row(store: &TokenStore, id: &str, kind: TokenType) -> (r: Result<(), AuthError>)
    requires
        store.wf(),
    ensures
        r == row_check(store@, id@, kind),
{
    match store.find(id) {
        None => Err(AuthError::UnknownToken),
        Some(row) => if row.kind != kind {
            Err(AuthError::UnknownToken)
        } else if row.revoked {
            Err(AuthError::Revoked)
        } else {
            Ok(())
        },
    }
}

/// Signs an access and a refresh token for a user at a given time, under
/// the two identifiers given, and keeps a record of each. Each token of a
/// pair that it returns verifies as the user's under its own key from the
/// time of issue to its own expiry, and the access token authenticates.
pub fn issue_pair_with(
    store: &mut TokenStore,
    keys: &PasetoConfig,
    policy: &LifecyclePolicy,
    user_id: &str,
    now: i64,
    access_id: String,
    refresh_id: String,
) -> (r: Result<(TokenDetails, TokenDetails), AuthError>)
    requires
        old(store).wf(),
    ensures
        final(store).wf(),
        (pair_result_view(r), final(store)@) == issue_pair_spec(
            old(store)@,
            keys.access_key@,
            keys.refresh_key@,
            *policy,
            user_id@,
            now as int,
            access_id@,
            refresh_id@,
        ),
        r matches Ok(pair) ==> authenticates_between(
            final(store)@,
            keys.access_key@,
            pair.0.token->0@,
            user_id@,
            now as int,
            now + policy.access_ttl_minutes * 60,
        ),
        r matches Ok(pair) ==> verifies_between(
            keys.access_key@,
            pair.0.token->0@,
            user_id@,
            access_id@,
            now as int,
            now + policy.access_ttl_minutes * 60,
        ),
        r matches Ok(pair) ==> verifies_between(
            keys.refresh_key@,
            pair.1.token->0@,
            user_id@,
            refresh_id@,
            now as int,
            now + policy.refresh_ttl_minutes * 60,
        ),
{
    let ghost before = store@;
    let access = match sign_token(
        user_id.to_owned(),
        access_id,
        policy.access_ttl_minutes,
        keys.access_key.as_str(),
        now,
    ) {
        Ok(a) => a,
        Err(e) => { return Err(e); },
    };
    let refresh = match sign_token(
        user_id.to_owned(),
        refresh_id,
        policy.refresh_ttl_minutes,
        keys.refresh_key.as_str(),
        now,
    ) {
        Ok(r) => r,
        Err(e) => { return Err(e); },
    };
    let taken = access.token_uuid == refresh.token_uuid || store.position(
        access.token_uuid.as_str(),
    ).is_some() || store.position(refresh.token_uuid.as_str()).is_some();
    if taken {
        return Err(AuthError::StoreUnavailable);
    }
    store.insert(record_of(&access, TokenType::AccessToken, now));
    store.insert(record_of(&refresh, TokenType::RefreshToken, now));
    proof {
        let a_row = row_for(access@, TokenType::AccessToken, now as int);
        let r_row = row_for(refresh@, TokenType::RefreshToken, now as int);
        adding_keeps_records(before, a_row, access_id@);
        adding_keeps_records(before, a_row, refresh_id@);
        adding_keeps_records(before.push(a_row), r_row, access_id@);
        signed_and_kept_authenticates(
            store@,
            keys.access_key@,
            access.token->0@,
            user_id@,
            access_id@,
            now as int,
            now + policy.access_ttl_minutes * 60,
        );
    }
    Ok((access, refresh))
}

/// Signs an access and a refresh token for a user at a given time, under
/// fresh random identifiers, and keeps a record of each.
pub fn issue_pair_at(
    store: &mut TokenStore,
    keys: &PasetoConfig,
    policy: &LifecyclePolicy,
    user_id: &str,
    now: i64,
) -> (r: Result<(TokenDetails, TokenDetails), AuthError>)
    requires
        old(store).wf(),
    ensures
        final(store).wf(),
        issued_pair(
            pair_result_view(r),
            final(store)@,
            old(store)@,
            keys.access_key@,
            keys.refresh_key@,
            *policy,
            user_id@,
            now as int,
        ),
{
    let access_id = new_uuid();
    let refresh_id = new_uuid();
    let ghost first = access_id@;
    let ghost second = refresh_id@;
    let r = issue_pair_with(store, keys, policy, user_id, now, access_id, refresh_id);
    assert((pair_result_view(r), store@) == issue_pair_spec(
        old(store)@,
        keys.access_key@,
        keys.refresh_key@,
        *policy,
        user_id@,
        now as int,
        first,
        second,
    ));
    r
}

/// Signs an access and a refresh token for a user at the time that the
/// machine's clock shows and keeps a record of each.
pub fn issue_pair(
    store: &mut TokenStore,
    keys: &PasetoConfig,
    policy: &LifecyclePolicy,
    user_id: &str,
) -> (r: Result<(TokenDetails, TokenDetails), AuthError>)
    requires
        old(store).wf(),
    ensures
        final(store).wf(),
        exists|now: int| #[trigger]
            issued_pair(
                pair_result_view(r),
                final(store)@,
                old(store)@,
                keys.access_key@,
                keys.refresh_key@,
                *policy,
                user_id@,
                now,
            ),
{
    let now = now_unix();
    let r = issue_pair_at(store, keys, policy, user_id, now);
    assert(issued_pair(
        pair_result_view(r),
        store@,
        old(store)@,
        keys.access_key@,
        keys.refresh_key@,
        *policy,
        user_id@,
        now as int,
    ));
    r
}

/// The user whom an access token authenticates at a given time.
pub fn authenticate_at(store: &TokenStore, keys: &PasetoConfig, access_token: &str, now: i64) -> (r:
    Result<String, AuthError>)
    requires
        store.wf(),
    ensures
        text_result_view(r) == authenticate_spec(
            store@,
            keys.access_key@,
            access_token@,
            now as int,
        ),
{
    let claims = match verify_claims_at(keys.access_key.as_str(), access_token, now) {
        Ok(c) => c,
        Err(e) => { return Err(e); },
    };
    match check_row(store, claims.token_uuid.as_str(), TokenType::AccessToken) {
        Err(e) => Err(e),
        Ok(_) => Ok(claims.sub),
    }
}

/// The user whom an access token authenticates at the time that the
/// machine's clock shows.
pub fn authenticate(store: &TokenStore, keys: &PasetoConfig, access_token: &str) -> (r: Result<
    String,
    AuthError,
>)
    requires
        store.wf(),
    ensures
        exists|now: int|
            text_result_view(r) == #[trigger] authenticate_spec(
                store@,
                keys.access_key@,
                access_token@,
                now,
            ),
{
    let now = now_unix();
    let r = authenticate_at(store, keys, access_token, now);
    assert(text_result_view(r) == authenticate_spec(
        store@,
        keys.access_key@,
        access_token@,
        now as int,
    ));
    r
}

/// Revokes a token at a given time: marks its record and says whether the
/// token was live. A token that is revoked or has expired already is no
/// failure, and one that has expired leaves the store as it was.
pub fn blacklist_token_at(store: &mut TokenStore, secret: &str, token: &str, now: i64) -> (r:
    Result<bool, AuthError>)
    requires
        old(store).wf(),
    ensures
        final(store).wf(),
        (r, final(store)@) == revoke_spec(old(store)@, secret@, token@, now as int),
{
    let claims = match decode_token(secret, token) {
        Ok(c) => c,
        Err(e) => { return Err(e); },
    };
    if now > claims.exp {
        return Ok(false);
    }
    let was_unrevoked = store.revoke(claims.token_uuid.as_str());
    Ok(was_unrevoked)
}

/// Revokes a token at the time that the machine's clock shows.
pub fn blacklist_token(store: &mut TokenStore, secret: &str, token: &str) -> (r: Result<
    bool,
    AuthError,
>)
    requires
        old(store).wf(),
    ensures
        final(store).wf(),
        exists|now: int| (r, final(store)@) == #[trigger] revoke_spec(old(store)@, secret@, token@, now),
{
    let now = now_unix();
    let r = blacklist_token_at(store, secret, token, now);
    assert((r, store@) == revoke_spec(old(store)@, secret@, token@, now as int));
    r
}


/// Exchanges a refresh token for a new access token at a given time, under
/// the two identifiers given, and rotates the refresh token where it has no
/// more than the rotation window left: its record is revoked before the
/// replacement is handed out. The replacement is another token than the one
/// presented and verifies as the same user's under the refresh key.
pub fn refresh_with(
    store: &mut TokenStore,
    keys: &PasetoConfig,
    policy: &LifecyclePolicy,
    refresh_token: &str,
    now: i64,
    access_id: String,
    refresh_id: String,
) -> (r: Result<RefreshOutcome, AuthError>)
    requires
        old(store).wf(),
    ensures
        final(store).wf(),
        (outcome_result_view(r), final(store)@) == refresh_spec(
            old(store)@,
            keys.access_key@,
            keys.refresh_key@,
            *policy,
            refresh_token@,
            now as int,
            access_id@,
            refresh_id@,
        ),
        r matches Ok(out) ==> authenticates_between(
            final(store)@,
            keys.access_key@,
            out.access.token->0@,
            verify_spec(keys.refresh_key@, refresh_token@, now as int)->Ok_0.sub,
            now as int,
            now + policy.access_ttl_minutes * 60,
        ),
        r matches Ok(out) ==> verifies_between(
            keys.access_key@,
            out.access.token->0@,
            verify_spec(keys.refresh_key@, refresh_token@, now as int)->Ok_0.sub,
            access_id@,
            now as int,
            now + policy.access_ttl_minutes * 60,
        ),
        r matches Ok(out) ==> replaces(
            out@.refresh,
            keys.refresh_key@,
            refresh_token@,
            verify_spec(keys.refresh_key@, refresh_token@, now as int)->Ok_0.sub,
            refresh_id@,
            now as int,
            now + policy.refresh_ttl_minutes * 60,
        ),
{
    let ghost before = store@;
    let claims = match verify_claims_at(keys.refresh_key.as_str(), refresh_token, now) {
        Ok(c) => c,
        Err(e) => { return Err(e); },
    };
    match check_row(store, claims.token_uuid.as_str(), TokenType::RefreshToken) {
        Ok(_) => {},
        Err(e) => { return Err(e); },
    }
    let access = match sign_token(
        claims.sub.clone(),
        access_id,
        policy.access_ttl_minutes,
        keys.access_key.as_str(),
        now,
    ) {
        Ok(a) => a,
        Err(e) => { return Err(e); },
    };
    if claims.exp - now > policy.rotation_window_secs {
        if store.position(access.token_uuid.as_str()).is_some() {
            return Err(AuthError::StoreUnavailable);
        }
        store.insert(record_of(&access, TokenType::AccessToken, now));
        proof {
            adding_keeps_records(
                before,
                row_for(access@, TokenType::AccessToken, now as int),
                access_id@,
            );
            signed_and_kept_authenticates(
                store@,
                keys.access_key@,
                access.token->0@,
                claims.sub@,
                access_id@,
                now as int,
                now + policy.access_ttl_minutes * 60,
            );
        }
        return Ok(RefreshOutcome { access, refresh: None });
    }
    let replacement = match sign_token(
        claims.sub.clone(),
        refresh_id,
        policy.refresh_ttl_minutes,
        keys.refresh_key.as_str(),
        now,
    ) {
        Ok(r) => r,
        Err(e) => { return Err(e); },
    };
    let taken = access.token_uuid == replacement.token_uuid || store.position(
        access.token_uuid.as_str(),
    ).is_some() || store.position(replacement.token_uuid.as_str()).is_some();
    if taken {
        return Err(AuthError::StoreUnavailable);
    }
    store.revoke(claims.token_uuid.as_str());
    proof {
        revoking_keeps_identifiers(before, claims.token_uuid@, access.token_uuid@);
        revoking_keeps_identifiers(before, claims.token_uuid@, replacement.token_uuid@);
    }
    store.insert(record_of(&access, TokenType::AccessToken, now));
    store.insert(record_of(&replacement, TokenType::RefreshToken, now));
    proof {
        let marked = with_revoked(before, claims.token_uuid@);
        let a_row = row_for(access@, TokenType::AccessToken, now as int);
        let r_row = row_for(replacement@, TokenType::RefreshToken, now as int);
        revoking_keeps_identifiers(before, claims.token_uuid@, claims.token_uuid@);
        adding_keeps_records(marked, a_row, access_id@);
        adding_keeps_records(marked, a_row, refresh_id@);
        adding_keeps_records(marked.push(a_row), r_row, access_id@);
        signed_and_kept_authenticates(
            store@,
            keys.access_key@,
            access.token->0@,
            claims.sub@,
            access_id@,
            now as int,
            now + policy.access_ttl_minutes * 60,
        );
    }
    Ok(RefreshOutcome { access, refresh: Some(replacement) })
}

/// Exchanges a refresh token for a new access token at a given time, under
/// fresh random identifiers.
pub fn refresh_at(
    store: &mut TokenStore,
    keys: &PasetoConfig,
    policy: &LifecyclePolicy,
    refresh_token: &str,
    now: i64,
) -> (r: Result<RefreshOutcome, AuthError>)
    requires
        old(store).wf(),
    ensures
        final(store).wf(),
        refreshed(
            outcome_result_view(r),
            final(store)@,
            old(store)@,
            keys.access_key@,
            keys.refresh_key@,
            *policy,
            refresh_token@,
            now as int,
        ),
{
    let access_id = new_uuid();
    let refresh_id = new_uuid();
    let ghost first = access_id@;
    let ghost second = refresh_id@;
    let r = refresh_with(store, keys, policy, refresh_token, now, access_id, refresh_id);
    assert((outcome_result_view(r), store@) == refresh_spec(
        old(store)@,
        keys.access_key@,
        keys.refresh_key@,
        *policy,
        refresh_token@,
        now as int,
        first,
        second,
    ));
    r
}

/// Exchanges a refresh token for a new access token at the time that the
/// machine's clock shows.
pub fn refresh(
    store: &mut TokenStore,
    keys: &PasetoConfig,
    policy: &LifecyclePolicy,
    refresh_token: &str,
) -> (r: Result<RefreshOutcome, AuthError>)
    requires
        old(store).wf(),
    ensures
        final(store).wf(),
        exists|now: int| #[trigger]
            refreshed(
                outcome_result_view(r),
                final(store)@,
                old(store)@,
                keys.access_key@,
                keys.refresh_key@,
                *policy,
                refresh_token@,
                now,
            ),
{
    let now = now_unix();
    let r = refresh_at(store, keys, policy, refresh_token, now);
    assert(refreshed(
        outcome_result_view(r),
        store@,
        old(store)@,
        keys.access_key@,
        keys.refresh_key@,
        *policy,
        refresh_token@,
        now as int,
    ));
    r
}

/// A token that verifies as the user's under an identifier, and whose record
/// of an access token is kept unrevoked under that identifier, authenticates
/// the user for as long as it verifies.
pub proof fn signed_and_kept_authenticates(
    rows: Seq<TokenView>,
    access_key: Seq<char>,
    token: Seq<char>,
    user_id: Seq<char>,
    token_uuid: Seq<char>,
    from: int,
    until: int,
)
    requires
        verifies_between(access_key, token, user_id, token_uuid, from, until),
        row_check(rows, token_uuid, TokenType::AccessToken) is Ok,
    ensures
        authenticates_between(rows, access_key, token, user_id, from, until),
{
    assert forall|at: int| from <= at <= until implies #[trigger] authenticate_spec(
        rows,
        access_key,
        token,
        at,
    ) == Ok::<Seq<char>, AuthError>(user_id) by {
        assert(verify_spec(access_key, token, at) is Ok);
    }
}

/// Marking a record as revoked changes no identifier: what was kept stays
/// kept, and nothing else is.
pub proof fn revoking_keeps_identifiers(rows: Seq<TokenView>, id: Seq<char>, other: Seq<char>)
    ensures
        with_revoked(rows, id).len() == rows.len(),
        holds(with_revoked(rows, id), other) == holds(rows, other),
        distinct_ids(rows) ==> distinct_ids(with_revoked(rows, id)),
        forall|i: int|
            0 <= i < rows.len() ==> (#[trigger] with_revoked(rows, id)[i]).token_id
                == rows[i].token_id,
{
    let after = with_revoked(rows, id);
    assert forall|i: int| 0 <= i < rows.len() implies (#[trigger] after[i]).token_id
        == rows[i].token_id by {}
    if holds(rows, other) {
        let k = place_of(rows, other);
        assert(after[k].token_id == other);
    }
    if holds(after, other) {
        let k = place_of(after, other);
        assert(rows[k].token_id == other);
    }
    if distinct_ids(rows) {
        assert forall|i: int, j: int| 0 <= i < j < after.len() implies (#[trigger] after[i]).token_id
            != (#[trigger] after[j]).token_id by {
            assert(rows[i].token_id != rows[j].token_id);
        }
    }
}


/// In a store without repeated identifiers, a record is the one kept under
/// its own identifier.
pub proof fn record_is_found_at_its_place(rows: Seq<TokenView>, k: int)
    requires
        distinct_ids(rows),
        0 <= k < rows.len(),
    ensures
        holds(rows, rows[k].token_id),
        place_of(rows, rows[k].token_id) == k,
        row_of(rows, rows[k].token_id) == rows[k],
{
    let id = rows[k].token_id;
    assert(holds(rows, id));
    let j = place_of(rows, id);
    if j < k {
        assert(rows[j].token_id != rows[k].token_id);
    } else if k < j {
        assert(rows[k].token_id != rows[j].token_id);
    }
}

/// Adding a record under an unused identifier keeps every other record where
/// it was, and keeps the new one under its identifier.
pub proof fn adding_keeps_records(rows: Seq<TokenView>, row: TokenView, id: Seq<char>)
    requires
        distinct_ids(rows),
        !holds(rows, row.token_id),
    ensures
        distinct_ids(rows.push(row)),
        holds(rows.push(row), id) == (holds(rows, id) || id == row.token_id),
        holds(rows, id) ==> row_of(rows.push(row), id) == row_of(rows, id),
        id == row.token_id ==> row_of(rows.push(row), id) == row,
{
    let after = rows.push(row);
    assert forall|i: int, j: int| 0 <= i < j < after.len() implies (#[trigger] after[i]).token_id
        != (#[trigger] after[j]).token_id by {
        if j < rows.len() {
            assert(rows[i].token_id != rows[j].token_id);
        } else {
            assert(after[i] == rows[i]);
            if rows[i].token_id == row.token_id {
                assert(holds(rows, row.token_id));
            }
        }
    }
    if holds(rows, id) {
        let k = place_of(rows, id);
        assert(after[k] == rows[k]);
        record_is_found_at_its_place(after, k);
    }
    if id == row.token_id {
        assert(after[rows.len() as int] == row);
        record_is_found_at_its_place(after, rows.len() as int);
    }
    if holds(after, id) && id != row.token_id {
        let k = place_of(after, id);
        assert(k < rows.len());
        assert(rows[k].token_id == id);
    }
}

/// Revoking marks the record under the identifier and no other.
pub proof fn revoking_marks_one_record(rows: Seq<TokenView>, id: Seq<char>, other: Seq<char>)
    requires
        distinct_ids(rows),
        holds(rows, other),
    ensures
        holds(with_revoked(rows, id), other),
        other == id ==> row_of(with_revoked(rows, id), other) == (TokenView {
            revoked: true,
            ..row_of(rows, id)
        }),
        other != id ==> row_of(with_revoked(rows, id), other) == row_of(rows, other),
{
    revoking_keeps_identifiers(rows, id, other);
    let after = with_revoked(rows, id);
    let k = place_of(rows, other);
    record_is_found_at_its_place(rows, k);
    assert(after[k].token_id == other);
    record_is_found_at_its_place(after, k);
    if holds(rows, id) && other != id {
        assert(place_of(rows, id) != k);
    }
}

/// After a token has been revoked it authenticates no one, whenever it is
/// presented from then on: the answer is a failure, and it is `Revoked`
/// wherever the token still verifies and a record of an access token was kept
/// for it.
pub proof fn revoked_token_never_authenticates(
    rows: Seq<TokenView>,
    key: Seq<char>,
    token: Seq<char>,
    revoked_at: int,
    at: int,
)
    requires
        distinct_ids(rows),
        revoked_at <= at,
    ensures
        authenticate_spec(revoke_spec(rows, key, token, revoked_at).1, key, token, at) is Err,
        (verify_spec(key, token, at) matches Ok(c) && holds(rows, c.token_uuid) && row_of(
            rows,
            c.token_uuid,
        ).kind == TokenType::AccessToken) ==> authenticate_spec(
            revoke_spec(rows, key, token, revoked_at).1,
            key,
            token,
            at,
        ) == Err::<Seq<char>, AuthError>(AuthError::Revoked),
{
    match decode_spec(key, token) {
        Err(_) => {},
        Ok(c) => {
            if holds(rows, c.token_uuid) {
                revoking_marks_one_record(rows, c.token_uuid, c.token_uuid);
            } else {
                revoking_keeps_identifiers(rows, c.token_uuid, c.token_uuid);
            }
        },
    }
}

/// Once a refresh has rotated a refresh token, no later refresh with that
/// token succeeds, under whatever identifiers and at whatever time: it
/// changes nothing in the store, and fails with `Revoked` wherever the token
/// still verifies.
pub proof fn rotated_refresh_token_is_spent(
    rows: Seq<TokenView>,
    access_key: Seq<char>,
    refresh_key: Seq<char>,
    policy: LifecyclePolicy,
    token: Seq<char>,
    first_at: int,
    first_access_id: Seq<char>,
    first_refresh_id: Seq<char>,
    second_at: int,
    second_access_id: Seq<char>,
    second_refresh_id: Seq<char>,
)
    requires
        distinct_ids(rows),
        refresh_spec(
            rows,
            access_key,
            refresh_key,
            policy,
            token,
            first_at,
            first_access_id,
            first_refresh_id,
        ).0 matches Ok(out) && out.refresh is Some,
    ensures
        ({
            let between = refresh_spec(
                rows,
                access_key,
                refresh_key,
                policy,
                token,
                first_at,
                first_access_id,
                first_refresh_id,
            ).1;
            let second = refresh_spec(
                between,
                access_key,
                refresh_key,
                policy,
                token,
                second_at,
                second_access_id,
                second_refresh_id,
            );
            &&& second.0 is Err
            &&& second.1 == between
            &&& verify_spec(refresh_key, token, second_at) is Ok ==> second.0 == Err::<
                OutcomeView,
                AuthError,
            >(AuthError::Revoked)
        }),
{
    let c = verify_spec(refresh_key, token, first_at)->Ok_0;
    let id = c.token_uuid;
    let access = mint_spec(
        c.sub,
        first_access_id,
        policy.access_ttl_minutes as int,
        access_key,
        first_at,
    )->Ok_0;
    let refresh = mint_spec(
        c.sub,
        first_refresh_id,
        policy.refresh_ttl_minutes as int,
        refresh_key,
        first_at,
    )->Ok_0;
    let marked = with_revoked(rows, id);
    let a_row = row_for(access, TokenType::AccessToken, first_at);
    let r_row = row_for(refresh, TokenType::RefreshToken, first_at);
    revoking_marks_one_record(rows, id, id);
    revoking_keeps_identifiers(rows, id, first_access_id);
    revoking_keeps_identifiers(rows, id, first_refresh_id);
    adding_keeps_records(marked, a_row, id);
    adding_keeps_records(marked, a_row, first_refresh_id);
    adding_keeps_records(marked.push(a_row), r_row, id);
    let second_claims = verify_spec(refresh_key, token, second_at);
    if second_claims is Ok {
        assert(decode_spec(refresh_key, token) == Ok::<crate::token::ClaimsView, AuthError>(c));
        assert(second_claims->Ok_0.token_uuid == id);
    }
}

/// A refresh that succeeds rotates exactly within the window. With more left
/// than the window, no replacement is returned and the refresh token's record
/// stays as it was, unrevoked. With no more left, a replacement of full
/// lifetime is returned and kept unrevoked, and the old record is revoked.
pub proof fn rotation_happens_exactly_within_the_window(
    rows: Seq<TokenView>,
    access_key: Seq<char>,
    refresh_key: Seq<char>,
    policy: LifecyclePolicy,
    token: Seq<char>,
    now: int,
    access_id: Seq<char>,
    refresh_id: Seq<char>,
)
    requires
        distinct_ids(rows),
        refresh_spec(rows, access_key, refresh_key, policy, token, now, access_id, refresh_id).0
            is Ok,
    ensures
        ({
            let done = refresh_spec(
                rows,
                access_key,
                refresh_key,
                policy,
                token,
                now,
                access_id,
                refresh_id,
            );
            let out = done.0->Ok_0;
            let old_id = verify_spec(refresh_key, token, now)->Ok_0.token_uuid;
            let left = verify_spec(refresh_key, token, now)->Ok_0.exp - now;
            &&& verify_spec(refresh_key, token, now) is Ok
            &&& distinct_ids(done.1)
            &&& left > policy.rotation_window_secs ==> {
                &&& out.refresh is None
                &&& row_of(done.1, old_id) == row_of(rows, old_id)
                &&& row_check(done.1, old_id, TokenType::RefreshToken) is Ok
            }
            &&& left <= policy.rotation_window_secs ==> {
                &&& out.refresh matches Some(n) && n.token_uuid == refresh_id && n.expires_in
                    == Some(now + policy.refresh_ttl_minutes * 60) && row_check(
                    done.1,
                    refresh_id,
                    TokenType::RefreshToken,
                ) is Ok
                &&& row_check(done.1, old_id, TokenType::RefreshToken) == Err::<(), AuthError>(
                    AuthError::Revoked,
                )
            }
        }),
{
    let c = verify_spec(refresh_key, token, now)->Ok_0;
    let id = c.token_uuid;
    let access = mint_spec(c.sub, access_id, policy.access_ttl_minutes as int, access_key, now)->Ok_0;
    let a_row = row_for(access, TokenType::AccessToken, now);
    if c.exp - now > policy.rotation_window_secs {
        adding_keeps_records(rows, a_row, id);
    } else {
        let refresh = mint_spec(
            c.sub,
            refresh_id,
            policy.refresh_ttl_minutes as int,
            refresh_key,
            now,
        )->Ok_0;
        let r_row = row_for(refresh, TokenType::RefreshToken, now);
        let marked = with_revoked(rows, id);
        revoking_marks_one_record(rows, id, id);
        revoking_keeps_identifiers(rows, id, access_id);
        revoking_keeps_identifiers(rows, id, refresh_id);
        adding_keeps_records(marked, a_row, id);
        adding_keeps_records(marked, a_row, refresh_id);
        adding_keeps_records(marked.push(a_row), r_row, id);
        adding_keeps_records(marked.push(a_row), r_row, refresh_id);
    }
}


/// Whether every record of `before` is still at its place in `after`,
/// unchanged or marked as revoked, whatever was added behind them.
pub open spec fn only_added_or_revoked(before: Seq<TokenView>, after: Seq<TokenView>) -> bool {
    before.len() <= after.len() && forall|i: int|
        0 <= i < before.len() ==> #[trigger] after[i] == before[i] || after[i] == (TokenView {
            revoked: true,
            ..before[i]
        })
}

/// A record is changed in one way only: it is marked as revoked. Issuing a
/// pair adds records and changes none.
pub proof fn issuing_only_adds_records(
    rows: Seq<TokenView>,
    access_key: Seq<char>,
    refresh_key: Seq<char>,
    policy: LifecyclePolicy,
    user_id: Seq<char>,
    now: int,
    access_id: Seq<char>,
    refresh_id: Seq<char>,
)
    ensures
        only_added_or_revoked(
            rows,
            issue_pair_spec(
                rows,
                access_key,
                refresh_key,
                policy,
                user_id,
                now,
                access_id,
                refresh_id,
            ).1,
        ),
        forall|i: int|
            0 <= i < rows.len() ==> #[trigger] issue_pair_spec(
                rows,
                access_key,
                refresh_key,
                policy,
                user_id,
                now,
                access_id,
                refresh_id,
            ).1[i] == rows[i],
{
}

/// A refresh adds records and marks at most the record of its refresh token;
/// it changes no record in another way, and none where it fails.
pub proof fn refreshing_only_adds_or_revokes(
    rows: Seq<TokenView>,
    access_key: Seq<char>,
    refresh_key: Seq<char>,
    policy: LifecyclePolicy,
    token: Seq<char>,
    now: int,
    access_id: Seq<char>,
    refresh_id: Seq<char>,
)
    ensures
        only_added_or_revoked(
            rows,
            refresh_spec(rows, access_key, refresh_key, policy, token, now, access_id, refresh_id).1,
        ),
        refresh_spec(rows, access_key, refresh_key, policy, token, now, access_id, refresh_id).0
            is Err ==> refresh_spec(
            rows,
            access_key,
            refresh_key,
            policy,
            token,
            now,
            access_id,
            refresh_id,
        ).1 == rows,
{
}

/// Revoking adds no record and changes none but by marking it.
pub proof fn revoking_only_revokes(rows: Seq<TokenView>, secret: Seq<char>, token: Seq<char>, now: int)
    ensures
        only_added_or_revoked(rows, revoke_spec(rows, secret, token, now).1),
        revoke_spec(rows, secret, token, now).1.len() == rows.len(),
{
}

} // verus!
