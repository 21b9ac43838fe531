use crate::encoding::{
    base64_encode, base64_standard, hex_encode, hex_encoded, sha256, sha256_digest,
};
use crate::error::AuthError;
use rand::{RngCore, SeedableRng};
use rsa::pkcs8::{EncodePrivateKey, EncodePublicKey};
use vstd::prelude::*;
use vstd::string::*;
use vstd::utf8::encode_utf8;

verus! {

/// The size of the RSA keys of the service.
pub const RSA_KEY_BITS: usize = 4096;

/// The first thirty-two bytes that rand's `StdRng` gives when it is seeded
/// with thirty-two bytes.
pub uninterp spec fn std_rng_bytes(seed: Seq<u8>) -> Seq<u8>;

/// The public key that ed25519-dalek derives from a secret key of thirty-two
/// bytes.
pub uninterp spec fn ed25519_public(secret: Seq<u8>) -> Seq<u8>;

/// The private and the public key, each as PEM text, of the RSA key pair of a
/// number of bits that the rsa crate generates from a `StdRng` seeded with
/// thirty-two bytes; `None` where it generates none.
pub uninterp spec fn rsa_pem_pair(seed: Seq<u8>, bits: int) -> Option<(Seq<char>, Seq<char>)>;

/// The two signing secrets of the token codec, each a key pair written in
/// hexadecimal.
#[derive(Debug, Clone)]
pub struct PasetoConfig {
    pub access_key: String,
    pub refresh_key: String,
}

/// The two signing secrets as mathematical values.
pub struct KeysView {
    pub access_key: Seq<char>,
    pub refresh_key: Seq<char>,
}

impl View for PasetoConfig {
    type V = KeysView;

    open spec fn view(&self) -> KeysView {
        KeysView { access_key: self.access_key@, refresh_key: self.refresh_key@ }
    }
}

/// An asymmetric key pair, each half written in base64 over its PEM text.
#[derive(Debug, Clone)]
pub struct KeyPair {
    pub private_key: String,
    pub public_key: String,
}

/// A key pair as a mathematical value.
pub struct KeyPairView {
    pub private_key: Seq<char>,
    pub public_key: Seq<char>,
}

impl View for KeyPair {
    type V = KeyPairView;

    open spec fn view(&self) -> KeyPairView {
        KeyPairView { private_key: self.private_key@, public_key: self.public_key@ }
    }
}

/// The key pairs for access and for refresh tokens.
#[derive(Debug, Clone)]
pub struct RsaConfig {
    pub access_tokens: KeyPair,
    pub refresh_tokens: KeyPair,
}

/// What a token is for.
#[derive(Debug, Clone, Copy, PartialEq, Eq, Structural)]
pub enum TokenType {
    AccessToken,
    RefreshToken,
}

/// The label that stands for a purpose in the derivation of its key.
pub open spec fn label_text(purpose: TokenType) -> Seq<char> {
    match purpose {
        TokenType::AccessToken => "access"@,
        TokenType::RefreshToken => "refresh"@,
    }
}

/// The seed of a purpose under a root secret: the SHA-256 digest of the
/// secret's bytes followed by the label's.
pub open spec fn seed_of(root: Seq<char>, label: Seq<char>) -> Seq<u8> {
    sha256_digest(encode_utf8(root) + encode_utf8(label))
}

/// The key pair of the token codec that a secret key stands for: the secret
/// key, then its public key, in hexadecimal.
pub open spec fn signing_key_text(secret: Seq<u8>) -> Seq<char> {
    hex_encoded(secret + ed25519_public(secret))
}

/// The two PEM texts that an operation returned, as mathematical values.
pub open spec fn pem_pair_view(r: Option<(String, String)>) -> Option<(Seq<char>, Seq<char>)> {
    match r {
        Some(p) => Some((p.0@, p.1@)),
        None => None,
    }
}

/// `StdRng::from_seed` and `RngCore::fill_bytes`: the first thirty-two bytes
/// of the generator seeded with `seed`.
#[verifier::external_body]
pub(crate) fn seeded_bytes(seed: &Vec<u8>) -> (r: Vec<u8>)
    requires
        seed@.len() == 32,
    ensures
        r@ == std_rng_bytes(seed@),
        r@.len() == 32,
{
    let mut array = [0u8; 32];
    array.copy_from_slice(seed);
    let mut rng = rand::rngs::StdRng::from_seed(array);
    let mut key = [0u8; 32];
    rng.fill_bytes(&mut key);
    key.to_vec()
}

/// `OsRng` and `RngCore::try_fill_bytes`: thirty-two bytes from the operating
/// system's generator, or none where it fails.
#[verifier::external_body]
pub(crate) fn os_random_bytes() -> (r: Option<Vec<u8>>)
    ensures
        r matches Some(b) ==> b@.len() == 32,
{
    let mut bytes = [0u8; 32];
    rand::rngs::OsRng.try_fill_bytes(&mut bytes).ok()?;
    Some(bytes.to_vec())
}

/// `SigningKey::from_bytes` and `verifying_key`: the public key of a secret
/// key, thirty-two bytes long.
#[verifier::external_body]
pub(crate) fn public_key_of(secret: &Vec<u8>) -> (r: Vec<u8>)
    requires
        secret@.len() == 32,
    ensures
        r@ == ed25519_public(secret@),
        r@.len() == 32,
{
    let mut array = [0u8; 32];
    array.copy_from_slice(secret);
    ed25519_dalek::SigningKey::from_bytes(&array).verifying_key().to_bytes().to_vec()
}

/// `RsaPrivateKey::new` on a `StdRng` seeded with `seed`, then the PKCS#8 PEM
/// of the private key and the PEM of its public key, with line feeds.
#[verifier::external_body]
pub(crate) fn rsa_generate(seed: &Vec<u8>, bits: usize) -> (r: Option<(String, String)>)
    requires
        seed@.len() == 32,
        64 <= bits <= RSA_KEY_BITS,
    ensures
        pem_pair_view(r) == rsa_pem_pair(seed@, bits as int),
{
    let mut array = [0u8; 32];
    array.copy_from_slice(seed);
    let mut rng = rand::rngs::StdRng::from_seed(array);
    let private = rsa::RsaPrivateKey::new(&mut rng, bits).ok()?;
    let private_pem = private.to_pkcs8_pem(rsa::pkcs8::LineEnding::LF).ok()?;
    let public_pem = private.to_public_key().to_public_key_pem(rsa::pkcs8::LineEnding::LF).ok()?;
    Some((private_pem.to_string(), public_pem))
}

/// The seed of a purpose under a root secret.
pub fn derive_seed(root: &str, label: &str) -> (r: Vec<u8>)
    ensures
        r@ == seed_of(root@, label@),
        r@.len() == 32,
{
    let mut data: Vec<u8> = Vec::new();
    data.extend_from_slice(root.as_bytes());
    data.extend_from_slice(label.as_bytes());
    assert(data@ =~= root.spec_bytes() + label.spec_bytes());
    sha256(data.as_slice())
}

/// The secret of a purpose that a root secret determines: thirty-two bytes
/// drawn from a generator seeded with the purpose's seed, in base64. The same
/// root secret and label give the same secret always.
pub fn generate_paseto_secret_deterministic(auth_token: &str, token_type: &str) -> (r: Result<
    String,
    AuthError,
>)
    ensures
        r matches Ok(s) && s@ == base64_standard(
            std_rng_bytes(seed_of(auth_token@, token_type@)),
        ),
{
    let seed = derive_seed(auth_token, token_type);
    let key = seeded_bytes(&seed);
    Ok(base64_encode(key.as_slice()))
}

/// The key pair of the token codec for a secret key of thirty-two bytes.
pub fn signing_key_from(secret: &Vec<u8>) -> (r: String)
    requires
        secret@.len() == 32,
    ensures
        r@ == signing_key_text(secret@),
{
    let public = public_key_of(secret);
    let mut both: Vec<u8> = Vec::new();
    both.extend_from_slice(secret.as_slice());
    both.extend_from_slice(public.as_slice());
    assert(both@ =~= secret@ + ed25519_public(secret@));
    hex_encode(both.as_slice())
}

fn label_of(purpose: TokenType) -> (r: &'static str)
    ensures
        r@ == label_text(purpose),
{
    match purpose {
        TokenType::AccessToken => "access",
        TokenType::RefreshToken => "refresh",
    }
}

/// The key pair of the token codec for a purpose that a root secret
/// determines: its secret key is drawn from a generator seeded with the
/// purpose's seed.
pub fn derive_signing_key(root: &str, purpose: TokenType) -> (r: String)
    ensures
        r@ == signing_key_text(std_rng_bytes(seed_of(root@, label_text(purpose)))),
{
    let seed = derive_seed(root, label_of(purpose));
    let secret = seeded_bytes(&seed);
    signing_key_from(&secret)
}

/// A key pair of the token codec with a random secret key; none where the
/// operating system gives no random bytes.
pub fn generate_valid_paseto_private_key() -> (r: Option<String>)
    ensures
        r matches Some(k) ==> exists|secret: Seq<u8>|
            secret.len() == 32 && k@ == #[trigger] signing_key_text(secret),
{
    match os_random_bytes() {
        None => None,
        Some(secret) => {
            let k = signing_key_from(&secret);
            assert(k@ == signing_key_text(secret@));
            Some(k)
        },
    }
}


/// The RSA key pair of a purpose that a root secret determines, of a given
/// number of bits: generated from a generator seeded with the purpose's seed,
/// each half in base64 over its PEM text. `KeyMaterialUnavailable` where no
/// key is generated.
pub open spec fn rsa_key_pair_of(root: Seq<char>, purpose: TokenType, bits: int) -> Result<
    KeyPairView,
    AuthError,
> {
    match rsa_pem_pair(seed_of(root, label_text(purpose)), bits) {
        Some(pems) => Ok(
            KeyPairView {
                private_key: base64_standard(encode_utf8(pems.0)),
                public_key: base64_standard(encode_utf8(pems.1)),
            },
        ),
        None => Err(AuthError::KeyMaterialUnavailable),
    }
}

/// The key pair that an operation returned, as a mathematical value, or its
/// failure.
pub open spec fn key_pair_result_view(r: Result<KeyPair, AuthError>) -> Result<
    KeyPairView,
    AuthError,
> {
    match r {
        Ok(k) => Ok(k@),
        Err(e) => Err(e),
    }
}

/// Generates the RSA key pair of a purpose under a root secret, of a given
/// number of bits.
pub fn generate_rsa_key_pair_of_size(auth_token: &str, token_type: TokenType, bits: usize) -> (r:
    Result<KeyPair, AuthError>)
    requires
        64 <= bits <= RSA_KEY_BITS,
    ensures
        key_pair_result_view(r) == rsa_key_pair_of(auth_token@, token_type, bits as int),
{
    let seed = derive_seed(auth_token, label_of(token_type));
    match rsa_generate(&seed, bits) {
        None => Err(AuthError::KeyMaterialUnavailable),
        Some(pems) => Ok(
            KeyPair {
                private_key: base64_encode(pems.0.as_str().as_bytes()),
                public_key: base64_encode(pems.1.as_str().as_bytes()),
            },
        ),
    }
}

/// Generates the RSA key pair of a purpose under a root secret.
pub fn generate_rsa_key_pair(auth_token: &str, token_type: TokenType) -> (r: Result<
    KeyPair,
    AuthError,
>)
    ensures
        key_pair_result_view(r) == rsa_key_pair_of(auth_token@, token_type, RSA_KEY_BITS as int),
{
    generate_rsa_key_pair_of_size(auth_token, token_type, RSA_KEY_BITS)
}

/// Generates the RSA key pairs of a given number of bits for access and for
/// refresh tokens under a root secret.
pub fn gen_tokens_of_size(auth_token: &str, bits: usize) -> (r: Result<RsaConfig, AuthError>)
    requires
        64 <= bits <= RSA_KEY_BITS,
    ensures
        match r {
            Ok(c) => Ok::<KeyPairView, AuthError>(c.access_tokens@) == rsa_key_pair_of(
                auth_token@,
                TokenType::AccessToken,
                bits as int,
            ) && Ok::<KeyPairView, AuthError>(c.refresh_tokens@) == rsa_key_pair_of(
                auth_token@,
                TokenType::RefreshToken,
                bits as int,
            ),
            Err(e) => e == AuthError::KeyMaterialUnavailable && (rsa_key_pair_of(
                auth_token@,
                TokenType::AccessToken,
                bits as int,
            ) is Err || rsa_key_pair_of(auth_token@, TokenType::RefreshToken, bits as int) is Err),
        },
{
    let access_tokens = match generate_rsa_key_pair_of_size(
        auth_token,
        TokenType::AccessToken,
        bits,
    ) {
        Ok(k) => k,
        Err(e) => { return Err(e); },
    };
    let refresh_tokens = match generate_rsa_key_pair_of_size(
        auth_token,
        TokenType::RefreshToken,
        bits,
    ) {
        Ok(k) => k,
        Err(e) => { return Err(e); },
    };
    Ok(RsaConfig { access_tokens, refresh_tokens })
}

/// Generates the RSA key pairs for access and for refresh tokens under a root
/// secret.
pub fn gen_tokens(auth_token: &str) -> (r: Result<RsaConfig, AuthError>)
    ensures
        match r {
            Ok(c) => Ok::<KeyPairView, AuthError>(c.access_tokens@) == rsa_key_pair_of(
                auth_token@,
                TokenType::AccessToken,
                RSA_KEY_BITS as int,
            ) && Ok::<KeyPairView, AuthError>(c.refresh_tokens@) == rsa_key_pair_of(
                auth_token@,
                TokenType::RefreshToken,
                RSA_KEY_BITS as int,
            ),
            Err(e) => e == AuthError::KeyMaterialUnavailable && (rsa_key_pair_of(
                auth_token@,
                TokenType::AccessToken,
                RSA_KEY_BITS as int,
            ) is Err || rsa_key_pair_of(auth_token@, TokenType::RefreshToken, RSA_KEY_BITS as int)
                is Err),
        },
{
    gen_tokens_of_size(auth_token, RSA_KEY_BITS)
}

} // verus!
