use crate::clock::{
    format_rfc3339, MAX_TIMESTAMP, now_unix, parse_rfc3339, rfc3339_seconds, rfc3339_text,
};
use crate::encoding::{hex_decode, hex_decoded};
use crate::error::AuthError;
use crate::text::chars_of;
use crate::views::{bytes_view, text_view};
use rusty_paseto::prelude::{
    CustomClaim, ExpirationClaim, IssuedAtClaim, Key, NotBeforeClaim, PasetoAsymmetricPrivateKey,
    PasetoAsymmetricPublicKey, PasetoBuilder, PasetoParser, Public, SubjectClaim, V4,
};
use vstd::prelude::*;

verus! {

/// How far ahead of the verifier's clock an issuer's clock may run.
pub const CLOCK_SKEW_SECS: i64 = 0;

/// The shortest third part of a token that can hold a signature: sixty-four
/// bytes in unpadded base64.
pub const MIN_SIGNED_PART: usize = 86;

/// The token that rusty_paseto's version 4 public builder signs with a key
/// pair over a subject, a text claim of the caller's under the name given and
/// the three dates; `None` where it refuses the key or a claim.
pub uninterp spec fn paseto_signed(
    keypair: Seq<u8>,
    sub: Seq<char>,
    id_name: Seq<char>,
    token_uuid: Seq<char>,
    exp: Seq<char>,
    iat: Seq<char>,
    nbf: Seq<char>,
) -> Option<Seq<char>>;

/// The text members of the payload that rusty_paseto's version 4 public parser
/// returns for a token under a public key, with no claim checked; `None`
/// where it rejects the token.
pub uninterp spec fn paseto_claims(public_key: Seq<u8>, token: Seq<char>) -> Option<
    Map<Seq<char>, Seq<char>>,
>;

/// The texts that a JSON value holds by name: under each key of an object
/// whose value is a string, that string.
pub uninterp spec fn json_texts(value: serde_json::Value) -> Map<Seq<char>, Seq<char>>;

/// The hyphenated lowercase form of a UUID that the uuid crate reads from a
/// text; `None` where the text is no UUID.
pub uninterp spec fn uuid_canonical(text: Seq<char>) -> Option<Seq<char>>;

/// serde_json's `Value`, the payload of a parsed token. Nothing inside it is
/// read here but through `json_text`.
#[verifier::external_type_specification]
#[verifier::external_body]
pub struct ExJsonValue(serde_json::Value);

/// The name of the claim that holds a token's identifier.
pub const TOKEN_ID_CLAIM: &'static str = "token_uuid";

/// What a freshly signed token carries, and what a verified one is known by.
#[derive(Debug)]
pub struct TokenDetails {
    pub user_id: String,
    pub token_uuid: String,
    pub expires_in: Option<i64>,
    pub token: Option<String>,
}

/// The signed payload of a token, times in seconds of Unix time.
#[derive(Debug)]
pub struct TokenClaims {
    pub sub: String,
    pub token_uuid: String,
    pub exp: i64,
    pub iat: i64,
    pub nbf: i64,
}

/// The claims of a token as mathematical values.
pub struct ClaimsView {
    pub sub: Seq<char>,
    pub token_uuid: Seq<char>,
    pub exp: int,
    pub iat: int,
    pub nbf: int,
}

/// The details of a token as mathematical values.
pub struct DetailsView {
    pub user_id: Seq<char>,
    pub token_uuid: Seq<char>,
    pub expires_in: Option<int>,
    pub token: Option<Seq<char>>,
}

impl View for TokenClaims {
    type V = ClaimsView;

    open spec fn view(&self) -> ClaimsView {
        ClaimsView {
            sub: self.sub@,
            token_uuid: self.token_uuid@,
            exp: self.exp as int,
            iat: self.iat as int,
            nbf: self.nbf as int,
        }
    }
}

impl View for TokenDetails {
    type V = DetailsView;

    open spec fn view(&self) -> DetailsView {
        DetailsView {
            user_id: self.user_id@,
            token_uuid: self.token_uuid@,
            expires_in: match self.expires_in {
                Some(e) => Some(e as int),
                None => None,
            },
            token: text_view(self.token),
        }
    }
}

/// The text claims read from a verified payload, each absent where the
/// payload has no text member of that name.
pub struct RawClaims {
    pub sub: Option<String>,
    pub token_uuid: Option<String>,
    pub exp: Option<String>,
    pub iat: Option<String>,
    pub nbf: Option<String>,
}

/// The text under a key of a payload, where there is one.
pub open spec fn member(m: Map<Seq<char>, Seq<char>>, key: Seq<char>) -> Option<Seq<char>> {
    if m.dom().contains(key) {
        Some(m[key])
    } else {
        None
    }
}

impl RawClaims {
    /// Whether the five fields are the members of those names in `m`.
    pub open spec fn reads(self, m: Map<Seq<char>, Seq<char>>) -> bool {
        &&& text_view(self.sub) == member(m, "sub"@)
        &&& text_view(self.token_uuid) == member(m, TOKEN_ID_CLAIM@)
        &&& text_view(self.exp) == member(m, "exp"@)
        &&& text_view(self.iat) == member(m, "iat"@)
        &&& text_view(self.nbf) == member(m, "nbf"@)
    }
}

/// Whether a text can name a claim of the caller's: one or more lowercase
/// letters and underscores.
pub open spec fn plain_claim_name(name: Seq<char>) -> bool {
    name.len() > 0 && forall|i: int|
        0 <= i < name.len() ==> #[trigger] name[i] == '_' || ('a' <= name[i] && name[i] <= 'z')
}

/// The first position at or after `from` that holds a dot, or the length.
pub open spec fn next_dot(s: Seq<char>, from: int) -> int
    decreases s.len() - from,
{
    if from >= s.len() {
        s.len() as int
    } else if s[from] == '.' {
        from
    } else {
        next_dot(s, from + 1)
    }
}

/// Whether the text has a third dot-separated part long enough to end in a
/// signature.
pub open spec fn has_signature_room(s: Seq<char>) -> bool {
    let first = next_dot(s, 0);
    let second = next_dot(s, first + 1);
    let third = next_dot(s, second + 1);
    second < s.len() && third - (second + 1) >= MIN_SIGNED_PART
}

/// `Uuid::new_v4` and its `to_string`: a random UUID in canonical form.
#[verifier::external_body]
pub(crate) fn new_uuid() -> (r: String)
    ensures
        uuid_canonical(r@) == Some(r@),
{
    uuid::Uuid::new_v4().to_string()
}

/// `Uuid::parse_str` and `to_string`: the canonical form of a UUID written in
/// any of the forms that the uuid crate reads.
#[verifier::external_body]
pub(crate) fn canonical_uuid(text: &str) -> (r: Option<String>)
    ensures
        text_view(r) == uuid_canonical(text@),
{
    uuid::Uuid::parse_str(text).ok().map(|u| u.to_string())
}

/// `PasetoBuilder::<V4, Public>::build` over a subject, a custom claim under
/// the name given and the three dates. A token that it returns has room for
/// its signature, and the parser reads the same five claims from it under the
/// second half of the key pair: the subject as `sub`, the dates as `exp`,
/// `iat` and `nbf`, which are names that no custom claim can have. The
/// builder passes over a claim without a name, and serde_json reads some
/// names that begin with a dollar sign in a way of its own, so the name is a
/// plain one.
#[verifier::external_body]
pub(crate) fn paseto_sign(
    keypair: &[u8],
    sub: &str,
    id_name: &str,
    token_uuid: &str,
    exp: &str,
    iat: &str,
    nbf: &str,
) -> (r: Option<String>)
    requires
        keypair@.len() == 64,
        plain_claim_name(id_name@),
    ensures
        text_view(r) == paseto_signed(keypair@, sub@, id_name@, token_uuid@, exp@, iat@, nbf@),
        r matches Some(t) ==> has_signature_room(t@) && (paseto_claims(
            keypair@.subrange(32, 64),
            t@,
        ) matches Some(m) && member(m, "sub"@) == Some(sub@) && member(m, id_name@) == Some(
            token_uuid@,
        ) && member(m, "exp"@) == Some(exp@) && member(m, "iat"@) == Some(iat@) && member(
            m,
            "nbf"@,
        ) == Some(nbf@)),
{
    let key = PasetoAsymmetricPrivateKey::<V4, Public>::from(keypair);
    PasetoBuilder::<V4, Public>::default()
        .set_claim(SubjectClaim::from(sub))
        .set_claim(CustomClaim::try_from((id_name, token_uuid)).ok()?)
        .set_claim(ExpirationClaim::try_from(exp).ok()?)
        .set_claim(IssuedAtClaim::try_from(iat).ok()?)
        .set_claim(NotBeforeClaim::try_from(nbf).ok()?)
        .build(&key)
        .ok()
}

/// `PasetoParser::<V4, Public>::parse` with no claim to check: the payload of
/// a token that the public key accepts, as a JSON value. A third part too
/// short for a signature is kept from it.
#[verifier::external_body]
pub(crate) fn paseto_parse(public_key: &[u8], token: &str) -> (r: Option<serde_json::Value>)
    requires
        public_key@.len() == 32,
        has_signature_room(token@),
    ensures
        match r {
            Some(payload) => paseto_claims(public_key@, token@) == Some(json_texts(payload)),
            None => paseto_claims(public_key@, token@) is None,
        },
{
    let key = Key::<32>::from(public_key);
    let public = PasetoAsymmetricPublicKey::<V4, Public>::from(&key);
    let payload = PasetoParser::<V4, Public>::new().parse(token, &public).ok();
    payload
}

/// `Value::get` with a text key: the member of a JSON object under the key,
/// where it is a string.
#[verifier::external_body]
pub(crate) fn json_text(value: &serde_json::Value, key: &str) -> (r: Option<String>)
    ensures
        text_view(r) == member(json_texts(*value), key@),
{
    match value.get(key) {
        Some(serde_json::Value::String(text)) => Some(text.clone()),
        _ => None,
    }
}


/// The sixty-four bytes of a key pair written in hexadecimal: the secret half,
/// then the public half.
pub open spec fn signing_key(secret: Seq<char>) -> Option<Seq<u8>> {
    match hex_decoded(secret) {
        Some(bytes) => if bytes.len() == 64 {
            Some(bytes)
        } else {
            None
        },
        None => None,
    }
}

/// The claims that five text members stand for: subject, identifier, expiry
/// and issue date are required, the identifier in canonical form; a missing
/// not-before date is the issue date.
pub open spec fn claims_of(
    sub: Option<Seq<char>>,
    token_uuid: Option<Seq<char>>,
    exp: Option<Seq<char>>,
    iat: Option<Seq<char>>,
    nbf: Option<Seq<char>>,
) -> Option<ClaimsView> {
    if sub is Some && token_uuid is Some && exp is Some && iat is Some && uuid_canonical(
        token_uuid->0,
    ) is Some && rfc3339_seconds(exp->0) is Some && rfc3339_seconds(iat->0) is Some && (nbf is Some
        ==> rfc3339_seconds(nbf->0) is Some) {
        Some(
            ClaimsView {
                sub: sub->0,
                token_uuid: uuid_canonical(token_uuid->0)->0,
                exp: rfc3339_seconds(exp->0)->0,
                iat: rfc3339_seconds(iat->0)->0,
                nbf: if nbf is Some {
                    rfc3339_seconds(nbf->0)->0
                } else {
                    rfc3339_seconds(iat->0)->0
                },
            },
        )
    } else {
        None
    }
}

/// What the dates of a claim set allow at a time: `Expired` strictly after the
/// expiry, `NotYetValid` before the issue or not-before date.
pub open spec fn check_time(c: ClaimsView, now: int) -> Result<ClaimsView, AuthError> {
    if now > c.exp {
        Err(AuthError::Expired)
    } else if c.iat > now + CLOCK_SKEW_SECS || c.nbf > now + CLOCK_SKEW_SECS {
        Err(AuthError::NotYetValid)
    } else {
        Ok(c)
    }
}

/// The claims of a token whose signature the public half of the key accepts,
/// whatever its dates.
pub open spec fn decode_spec(secret: Seq<char>, token: Seq<char>) -> Result<ClaimsView, AuthError> {
    match signing_key(secret) {
        None => Err(AuthError::KeyMaterialUnavailable),
        Some(keypair) => if !has_signature_room(token) {
            Err(AuthError::InvalidSignature)
        } else {
            match paseto_claims(keypair.subrange(32, 64), token) {
                None => Err(AuthError::InvalidSignature),
                Some(m) => match claims_of(
                    member(m, "sub"@),
                    member(m, TOKEN_ID_CLAIM@),
                    member(m, "exp"@),
                    member(m, "iat"@),
                    member(m, "nbf"@),
                ) {
                    None => Err(AuthError::InvalidSignature),
                    Some(c) => Ok(c),
                },
            }
        },
    }
}

/// The outcome of verifying a token at a time.
pub open spec fn verify_spec(secret: Seq<char>, token: Seq<char>, now: int) -> Result<
    ClaimsView,
    AuthError,
> {
    match decode_spec(secret, token) {
        Err(e) => Err(e),
        Ok(c) => check_time(c, now),
    }
}

/// What a verified token is known by: the subject, the identifier and the
/// expiry of its claims.
pub open spec fn details_of(c: ClaimsView) -> DetailsView {
    DetailsView { user_id: c.sub, token_uuid: c.token_uuid, expires_in: Some(c.exp), token: None }
}

/// What verifying a token at a time returns to a caller: the subject, the
/// identifier and the expiry of its claims, or the failure.
pub open spec fn verify_details_spec(secret: Seq<char>, token: Seq<char>, now: int) -> Result<
    DetailsView,
    AuthError,
> {
    match verify_spec(secret, token, now) {
        Err(e) => Err(e),
        Ok(c) => Ok(details_of(c)),
    }
}

/// The claims that an operation returned, as mathematical values, or its
/// failure.
pub open spec fn claims_result_view(r: Result<TokenClaims, AuthError>) -> Result<
    ClaimsView,
    AuthError,
> {
    match r {
        Ok(c) => Ok(c@),
        Err(e) => Err(e),
    }
}

/// The details that an operation returned, as mathematical values, or its
/// failure.
pub open spec fn details_result_view(r: Result<TokenDetails, AuthError>) -> Result<
    DetailsView,
    AuthError,
> {
    match r {
        Ok(d) => Ok(d@),
        Err(e) => Err(e),
    }
}

fn find_dot(s: &Vec<char>, from: usize) -> (r: usize)
    requires
        from <= s.len(),
    ensures
        r == next_dot(s@, from as int),
        from <= r <= s.len(),
{
    let mut i: usize = from;
    while i < s.len() && s[i] != '.'
        invariant
            from <= i <= s.len(),
            next_dot(s@, from as int) == next_dot(s@, i as int),
        decreases s.len() - i,
    {
        i = i + 1;
    }
    i
}

/// Whether a token has a third part long enough for the parser to take a
/// signature from it.
pub fn signature_room(token: &str) -> (r: bool)
    ensures
        r == has_signature_room(token@),
{
    let s = chars_of(token);
    let first = find_dot(&s, 0);
    if first >= s.len() {
        assert(next_dot(s@, first + 1) == s@.len());
        return false;
    }
    let second = find_dot(&s, first + 1);
    if second >= s.len() {
        return false;
    }
    let third = find_dot(&s, second + 1);
    third - (second + 1) >= MIN_SIGNED_PART
}

/// The key pair that a hexadecimal secret holds.
pub fn decode_signing_key(secret: &str) -> (r: Option<Vec<u8>>)
    ensures
        bytes_view(r) == signing_key(secret@),
{
    match hex_decode(secret) {
        Some(bytes) => if bytes.len() == 64 {
            Some(bytes)
        } else {
            None
        },
        None => None,
    }
}

fn public_half(keypair: &Vec<u8>) -> (r: Vec<u8>)
    requires
        keypair@.len() == 64,
    ensures
        r@ == keypair@.subrange(32, 64),
{
    let mut out: Vec<u8> = Vec::new();
    let mut i: usize = 32;
    while i < 64
        invariant
            32 <= i <= 64,
            keypair@.len() == 64,
            out@ == keypair@.subrange(32, i as int),
        decreases 64 - i,
    {
        out.push(keypair[i]);
        i = i + 1;
        assert(out@ =~= keypair@.subrange(32, i as int));
    }
    out
}

/// Reads the five claims of a token from a payload by their names.
fn read_claims(payload: &serde_json::Value) -> (r: RawClaims)
    ensures
        r.reads(json_texts(*payload)),
{
    RawClaims {
        sub: json_text(payload, "sub"),
        token_uuid: json_text(payload, TOKEN_ID_CLAIM),
        exp: json_text(payload, "exp"),
        iat: json_text(payload, "iat"),
        nbf: json_text(payload, "nbf"),
    }
}

/// The claims that the text members of a payload stand for.
pub fn claims_from_raw(raw: RawClaims) -> (r: Option<TokenClaims>)
    ensures
        match r {
            Some(c) => claims_of(
                text_view(raw.sub),
                text_view(raw.token_uuid),
                text_view(raw.exp),
                text_view(raw.iat),
                text_view(raw.nbf),
            ) == Some(c@),
            None => claims_of(
                text_view(raw.sub),
                text_view(raw.token_uuid),
                text_view(raw.exp),
                text_view(raw.iat),
                text_view(raw.nbf),
            ) is None,
        },
{
    let RawClaims { sub, token_uuid, exp, iat, nbf } = raw;
    let sub = match sub {
        Some(s) => s,
        None => { return None; },
    };
    let token_uuid = match token_uuid {
        Some(t) => match canonical_uuid(t.as_str()) {
            Some(c) => c,
            None => { return None; },
        },
        None => { return None; },
    };
    let exp = match exp {
        Some(e) => match parse_rfc3339(e.as_str()) {
            Some(v) => v,
            None => { return None; },
        },
        None => { return None; },
    };
    let iat = match iat {
        Some(i) => match parse_rfc3339(i.as_str()) {
            Some(v) => v,
            None => { return None; },
        },
        None => { return None; },
    };
    let nbf = match nbf {
        Some(n) => match parse_rfc3339(n.as_str()) {
            Some(v) => v,
            None => { return None; },
        },
        None => iat,
    };
    Some(TokenClaims { sub, token_uuid, exp, iat, nbf })
}

/// Checks a token's signature against the public half of a key pair and
/// returns its claims, whatever its dates.
pub fn decode_token(secret: &str, token: &str) -> (r: Result<TokenClaims, AuthError>)
    ensures
        claims_result_view(r) == decode_spec(secret@, token@),
{
    let keypair = match decode_signing_key(secret) {
        Some(k) => k,
        None => { return Err(AuthError::KeyMaterialUnavailable); },
    };
    if !signature_room(token) {
        return Err(AuthError::InvalidSignature);
    }
    let public = public_half(&keypair);
    let payload = match paseto_parse(public.as_slice(), token) {
        Some(payload) => payload,
        None => { return Err(AuthError::InvalidSignature); },
    };
    match claims_from_raw(read_claims(&payload)) {
        Some(c) => Ok(c),
        None => Err(AuthError::InvalidSignature),
    }
}

/// Checks the dates of a claim set against a time.
pub fn check_claims_at(claims: TokenClaims, now: i64) -> (r: Result<TokenClaims, AuthError>)
    ensures
        claims_result_view(r) == check_time(claims@, now as int),
{
    if now > claims.exp {
        Err(AuthError::Expired)
    } else if claims.iat > now || claims.nbf > now {
        Err(AuthError::NotYetValid)
    } else {
        Ok(claims)
    }
}

/// Verifies a token at a given time and returns its claims.
pub fn verify_claims_at(secret: &str, token: &str, now: i64) -> (r: Result<TokenClaims, AuthError>)
    ensures
        claims_result_view(r) == verify_spec(secret@, token@, now as int),
{
    match decode_token(secret, token) {
        Err(e) => Err(e),
        Ok(c) => check_claims_at(c, now),
    }
}

/// Verifies a token at the time that the machine's clock shows and returns
/// its claims: subject, identifier, expiry, issue and not-before date.
pub fn verify_claims(secret: &str, token: &str) -> (r: Result<TokenClaims, AuthError>)
    ensures
        exists|now: int| claims_result_view(r) == #[trigger] verify_spec(secret@, token@, now),
{
    let now = now_unix();
    let r = verify_claims_at(secret, token, now);
    assert(claims_result_view(r) == verify_spec(secret@, token@, now as int));
    r
}

/// Verifies a token at a given time: `InvalidSignature` unless the key's
/// public half accepts it and its payload holds the claims, `Expired` strictly
/// after its expiry, `NotYetValid` before its issue date. A token that
/// verifies is returned by its subject, its identifier and its expiry.
pub fn verify_paseto_token_at(secret: &str, token: &str, now: i64) -> (r: Result<
    TokenDetails,
    AuthError,
>)
    ensures
        details_result_view(r) == verify_details_spec(secret@, token@, now as int),
{
    match verify_claims_at(secret, token, now) {
        Err(e) => Err(e),
        Ok(c) => Ok(
            TokenDetails {
                user_id: c.sub,
                token_uuid: c.token_uuid,
                expires_in: Some(c.exp),
                token: None,
            },
        ),
    }
}

/// Verifies a token at the time that the machine's clock shows.
pub fn verify_paseto_token(secret: &str, token: &str) -> (r: Result<TokenDetails, AuthError>)
    ensures
        exists|now: int| details_result_view(r) == #[trigger] verify_details_spec(secret@, token@, now),
{
    let now = now_unix();
    let r = verify_paseto_token_at(secret, token, now);
    assert(details_result_view(r) == verify_details_spec(secret@, token@, now as int));
    r
}


/// Whether a token issued at `now` for `ttl` minutes has dates that a
/// four-digit year can hold.
pub open spec fn valid_lifetime(now: int, ttl: int) -> bool {
    0 <= now <= MAX_TIMESTAMP && 0 <= now + ttl * 60 <= MAX_TIMESTAMP
}

/// What signing gives for a user, an identifier, a lifetime in minutes, a key
/// and a time: the token and its expiry. `KeyMaterialUnavailable` where the
/// secret is no key pair or the key does not sign, `InvalidClaims` where the
/// identifier is not a canonical UUID or a date is out of range.
pub open spec fn mint_spec(
    user_id: Seq<char>,
    token_uuid: Seq<char>,
    ttl: int,
    secret: Seq<char>,
    now: int,
) -> Result<DetailsView, AuthError> {
    match signing_key(secret) {
        None => Err(AuthError::KeyMaterialUnavailable),
        Some(keypair) => if uuid_canonical(token_uuid) != Some(token_uuid) || !valid_lifetime(
            now,
            ttl,
        ) {
            Err(AuthError::InvalidClaims)
        } else {
            match (rfc3339_text(now + ttl * 60), rfc3339_text(now)) {
                (Some(exp), Some(iat)) => match paseto_signed(
                    keypair,
                    user_id,
                    TOKEN_ID_CLAIM@,
                    token_uuid,
                    exp,
                    iat,
                    iat,
                ) {
                    Some(token) => Ok(
                        DetailsView {
                            user_id,
                            token_uuid,
                            expires_in: Some(now + ttl * 60),
                            token: Some(token),
                        },
                    ),
                    None => Err(AuthError::KeyMaterialUnavailable),
                },
                _ => Err(AuthError::InvalidClaims),
            }
        },
    }
}

/// The claims of a token signed for a user under an identifier, issued at
/// `from` and expiring at `until`.
pub open spec fn issued_claims(
    user_id: Seq<char>,
    token_uuid: Seq<char>,
    from: int,
    until: int,
) -> ClaimsView {
    ClaimsView { sub: user_id, token_uuid, exp: until, iat: from, nbf: from }
}

/// Whether a token verifies under a secret at every time from `from` to
/// `until` with the claims of the user, the identifier, the issue date `from`
/// and the expiry `until`, is `NotYetValid` before and `Expired` after.
pub open spec fn verifies_between(
    secret: Seq<char>,
    token: Seq<char>,
    user_id: Seq<char>,
    token_uuid: Seq<char>,
    from: int,
    until: int,
) -> bool {
    forall|at: int| #[trigger]
        verify_spec(secret, token, at) == (if at > until {
            Err::<ClaimsView, AuthError>(AuthError::Expired)
        } else if at < from {
            Err(AuthError::NotYetValid)
        } else {
            Ok(issued_claims(user_id, token_uuid, from, until))
        })
}

/// The expiry of a token issued at `now` for `ttl` minutes, where its dates
/// are in range.
pub fn expiry_of(now: i64, ttl: i64) -> (r: Option<i64>)
    ensures
        match r {
            Some(exp) => valid_lifetime(now as int, ttl as int) && exp == now + ttl * 60,
            None => !valid_lifetime(now as int, ttl as int),
        },
{
    if now < 0 || now > MAX_TIMESTAMP {
        return None;
    }
    if ttl > MAX_TIMESTAMP / 60 || ttl < -(MAX_TIMESTAMP / 60) {
        return None;
    }
    let exp: i64 = now + ttl * 60;
    if exp < 0 || exp > MAX_TIMESTAMP {
        None
    } else {
        Some(exp)
    }
}

/// Signs a token for a user under a given identifier, issued at a given time.
/// A token that it returns carries these claims under the same secret: it
/// verifies from the time of issue up to its expiry, and is `Expired` after
/// it.
pub fn sign_token(user_id: String, token_uuid: String, ttl: i64, secret: &str, now: i64) -> (r:
    Result<TokenDetails, AuthError>)
    ensures
        details_result_view(r) == mint_spec(user_id@, token_uuid@, ttl as int, secret@, now as int),
        r matches Ok(d) ==> decode_spec(secret@, d.token->0@) == Ok::<ClaimsView, AuthError>(
            issued_claims(user_id@, token_uuid@, now as int, now + ttl * 60),
        ),
        r matches Ok(d) ==> verifies_between(
            secret@,
            d.token->0@,
            user_id@,
            token_uuid@,
            now as int,
            now + ttl * 60,
        ),
{
    let keypair = match decode_signing_key(secret) {
        Some(k) => k,
        None => { return Err(AuthError::KeyMaterialUnavailable); },
    };
    match canonical_uuid(token_uuid.as_str()) {
        Some(c) => if !crate::text::str_eq(c.as_str(), token_uuid.as_str()) {
            return Err(AuthError::InvalidClaims);
        },
        None => { return Err(AuthError::InvalidClaims); },
    }
    let exp = match expiry_of(now, ttl) {
        Some(e) => e,
        None => { return Err(AuthError::InvalidClaims); },
    };
    let exp_text = match format_rfc3339(exp) {
        Some(t) => t,
        None => { return Err(AuthError::InvalidClaims); },
    };
    let iat_text = match format_rfc3339(now) {
        Some(t) => t,
        None => { return Err(AuthError::InvalidClaims); },
    };
    proof {
        reveal_strlit("token_uuid");
    }
    let signed = paseto_sign(
        keypair.as_slice(),
        user_id.as_str(),
        TOKEN_ID_CLAIM,
        token_uuid.as_str(),
        exp_text.as_str(),
        iat_text.as_str(),
        iat_text.as_str(),
    );
    match signed {
        None => Err(AuthError::KeyMaterialUnavailable),
        Some(token) => {
            proof {
                let m = paseto_claims(keypair@.subrange(32, 64), token@)->0;
                let c = claims_of(
                    member(m, "sub"@),
                    member(m, TOKEN_ID_CLAIM@),
                    member(m, "exp"@),
                    member(m, "iat"@),
                    member(m, "nbf"@),
                );
                assert(c == Some(
                    ClaimsView {
                        sub: user_id@,
                        token_uuid: token_uuid@,
                        exp: exp as int,
                        iat: now as int,
                        nbf: now as int,
                    },
                ));
                assert(decode_spec(secret@, token@) == Ok::<ClaimsView, AuthError>(c->0));
            }
            Ok(TokenDetails { user_id, token_uuid, expires_in: Some(exp), token: Some(token) })
        },
    }
}

/// Whether an answer is what signing gives at `now` under some canonical
/// identifier, with a token that verifies from `now` to its expiry.
pub open spec fn signed_at(
    r: Result<DetailsView, AuthError>,
    user_id: Seq<char>,
    ttl: int,
    secret: Seq<char>,
    now: int,
) -> bool {
    exists|id: Seq<char>|
        uuid_canonical(id) == Some(id) && r == #[trigger] mint_spec(
            user_id,
            id,
            ttl,
            secret,
            now,
        ) && (r matches Ok(d) ==> verifies_between(
            secret,
            d.token->0,
            user_id,
            id,
            now,
            now + ttl * 60,
        ))
}

/// Signs a token for a user under a fresh random identifier, issued at a given
/// time: what `sign_token` gives for some canonical identifier.
pub fn generate_paseto_token_at(user_id: String, ttl: i64, secret: &str, now: i64) -> (r: Result<
    TokenDetails,
    AuthError,
>)
    ensures
        signed_at(details_result_view(r), user_id@, ttl as int, secret@, now as int),
{
    let token_uuid = new_uuid();
    let ghost id = token_uuid@;
    let r = sign_token(user_id, token_uuid, ttl, secret, now);
    assert(details_result_view(r) == mint_spec(user_id@, id, ttl as int, secret@, now as int));
    r
}

/// Signs a token for a user under a fresh random identifier, issued at the
/// time that the machine's clock shows, for `ttl` minutes.
pub fn generate_paseto_token(user_id: String, ttl: i64, secret: &str) -> (r: Result<
    TokenDetails,
    AuthError,
>)
    ensures
        exists|now: int| #[trigger]
            signed_at(details_result_view(r), user_id@, ttl as int, secret@, now),
{
    let now = now_unix();
    let r = generate_paseto_token_at(user_id, ttl, secret, now);
    assert(signed_at(details_result_view(r), user_id@, ttl as int, secret@, now as int));
    r
}


/// A token that carries the claims of a user, issued at `from` and expiring at
/// `until`, verifies as that user's at every time from `from` to `until`, and
/// comes back with that expiry; strictly after `until` it is `Expired`, and
/// before `from` it is `NotYetValid`.
pub proof fn carried_claims_verify_until_expiry(
    secret: Seq<char>,
    token: Seq<char>,
    user_id: Seq<char>,
    token_uuid: Seq<char>,
    from: int,
    until: int,
)
    requires
        decode_spec(secret, token) == Ok::<ClaimsView, AuthError>(
            issued_claims(user_id, token_uuid, from, until),
        ),
    ensures
        verifies_between(secret, token, user_id, token_uuid, from, until),
        forall|at: int|
            from <= at <= until ==> #[trigger] verify_details_spec(secret, token, at) == Ok::<
                DetailsView,
                AuthError,
            >(DetailsView { user_id, token_uuid, expires_in: Some(until), token: None }),
        forall|at: int|
            at > until ==> #[trigger] verify_details_spec(secret, token, at) == Err::<
                DetailsView,
                AuthError,
            >(AuthError::Expired),
        forall|at: int|
            at < from && at <= until ==> #[trigger] verify_details_spec(secret, token, at) == Err::<
                DetailsView,
                AuthError,
            >(AuthError::NotYetValid),
{
}

/// No token verifies unless the parser accepts it under the public half of
/// the key: one that it rejects, and one too short to hold a signature, is an
/// `InvalidSignature` at every time, whatever else it holds.
pub proof fn rejected_token_is_an_invalid_signature(secret: Seq<char>, token: Seq<char>, now: int)
    ensures
        signing_key(secret) matches Some(keypair) ==> (!has_signature_room(token) || paseto_claims(
            keypair.subrange(32, 64),
            token,
        ) is None) ==> verify_spec(secret, token, now) == Err::<ClaimsView, AuthError>(
            AuthError::InvalidSignature,
        ),
        verify_spec(secret, token, now) is Ok ==> signing_key(secret) is Some && has_signature_room(
            token,
        ) && paseto_claims(signing_key(secret)->0.subrange(32, 64), token) is Some,
        verify_spec(secret, token, now) matches Err(e) ==> e == AuthError::KeyMaterialUnavailable
            || e == AuthError::InvalidSignature || e == AuthError::Expired || e
            == AuthError::NotYetValid,
{
}

} // verus!
