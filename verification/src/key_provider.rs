use crate::alphabet::{
    char_range, create_random_string_generator, drawn_from, expanded, is_alphanumeric, is_scalar,
    patterns_view,
};
use crate::error::AuthError;
use crate::keys::{
    derive_signing_key, KeysView, label_text, PasetoConfig, seed_of, signing_key_text,
    std_rng_bytes, TokenType,
};
use crate::text::ascii_lower;
use crate::views::text_view;
use vstd::prelude::*;

verus! {

/// The length of a root secret.
pub const ROOT_SECRET_LEN: usize = 32;

/// What the toml crate finds under a key at the top of a document: `None`
/// where the text is no document or has no such key, `Some(None)` where the
/// value is no text.
pub uninterp spec fn toml_member(content: Seq<char>, key: Seq<char>) -> Option<Option<Seq<char>>>;

/// The document that the toml crate writes for two keys with a text each;
/// `None` where it writes none.
pub uninterp spec fn toml_document(
    first_key: Seq<char>,
    first: Seq<char>,
    second_key: Seq<char>,
    second: Seq<char>,
) -> Option<Seq<char>>;

/// What was found under a key, as a mathematical value.
pub open spec fn member_view(r: Option<Option<String>>) -> Option<Option<Seq<char>>> {
    match r {
        Some(v) => Some(text_view(v)),
        None => None,
    }
}

/// `str::parse::<toml::Value>`, `Value::get` and `Value::as_str`: the text
/// under a key at the top of a document.
#[verifier::external_body]
pub(crate) fn toml_lookup(content: &str, key: &str) -> (r: Option<Option<String>>)
    ensures
        member_view(r) == toml_member(content@, key@),
{
    content.parse::<toml::Value>().ok()?.get(key).map(|v| v.as_str().map(|s| s.to_string()))
}

/// `toml::to_string` of a table of two texts. What it writes for two
/// different keys, the toml crate reads back as the same two texts.
#[verifier::external_body]
pub(crate) fn toml_write(first_key: &str, first: &str, second_key: &str, second: &str) -> (r:
    Option<String>)
    ensures
        text_view(r) == toml_document(first_key@, first@, second_key@, second@),
        r matches Some(d) ==> first_key@ != second_key@ ==> toml_member(d@, first_key@) == Some(
            Some(first@),
        ) && toml_member(d@, second_key@) == Some(Some(second@)),
{
    let mut table = toml::map::Map::new();
    table.insert(first_key.to_string(), toml::Value::String(first.to_string()));
    table.insert(second_key.to_string(), toml::Value::String(second.to_string()));
    toml::to_string(&table).ok()
}

/// The keys that a key file holds: both have to be there, and one that is no
/// text counts as empty.
pub open spec fn keys_in(content: Seq<char>) -> Option<KeysView> {
    match (toml_member(content, "access_key"@), toml_member(content, "refresh_key"@)) {
        (Some(access), Some(refresh)) => Some(
            KeysView {
                access_key: match access {
                    Some(t) => t,
                    None => Seq::<char>::empty(),
                },
                refresh_key: match refresh {
                    Some(t) => t,
                    None => Seq::<char>::empty(),
                },
            },
        ),
        _ => None,
    }
}

/// The keys that a root secret determines.
pub open spec fn keys_of(root: Seq<char>) -> KeysView {
    KeysView {
        access_key: signing_key_text(
            std_rng_bytes(seed_of(root, label_text(TokenType::AccessToken))),
        ),
        refresh_key: signing_key_text(
            std_rng_bytes(seed_of(root, label_text(TokenType::RefreshToken))),
        ),
    }
}

/// The key file of a pair of keys.
pub open spec fn key_file_of(keys: KeysView) -> Option<Seq<char>> {
    toml_document("access_key"@, keys.access_key, "refresh_key"@, keys.refresh_key)
}

/// The keys that an operation returned, as a mathematical value.
pub open spec fn keys_view(r: Option<PasetoConfig>) -> Option<KeysView> {
    match r {
        Some(c) => Some(c@),
        None => None,
    }
}

/// Reads the two keys from the text of a key file.
pub fn read_key_file(content: &str) -> (r: Option<PasetoConfig>)
    ensures
        keys_view(r) == keys_in(content@),
{
    let access = match toml_lookup(content, "access_key") {
        Some(a) => a,
        None => { return None; },
    };
    let refresh = match toml_lookup(content, "refresh_key") {
        Some(r) => r,
        None => { return None; },
    };
    let access_key = match access {
        Some(t) => t,
        None => String::new(),
    };
    let refresh_key = match refresh {
        Some(t) => t,
        None => String::new(),
    };
    Some(PasetoConfig { access_key, refresh_key })
}

/// Writes the text of the key file of two keys. What it writes, `read_key_file`
/// reads back as the same keys.
pub fn write_key_file(keys: &PasetoConfig) -> (r: Option<String>)
    ensures
        text_view(r) == key_file_of(keys@),
        r matches Some(d) ==> keys_in(d@) == Some(keys@),
{
    proof {
        reveal_strlit("access_key");
        reveal_strlit("refresh_key");
        assert("access_key"@.len() != "refresh_key"@.len());
    }
    toml_write("access_key", keys.access_key.as_str(), "refresh_key", keys.refresh_key.as_str())
}

/// The keys for access and refresh tokens that a root secret determines.
pub fn derive_keys(root: &str) -> (r: PasetoConfig)
    ensures
        r@ == keys_of(root@),
{
    PasetoConfig {
        access_key: derive_signing_key(root, TokenType::AccessToken),
        refresh_key: derive_signing_key(root, TokenType::RefreshToken),
    }
}

/// Whether a text can serve as a root secret: thirty-two ASCII letters and
/// digits.
pub open spec fn is_root_secret(s: Seq<char>) -> bool {
    s.len() == ROOT_SECRET_LEN && forall|i: int| 0 <= i < s.len() ==> is_alphanumeric(#[trigger] s[i])
}

proof fn range_stays_within(low: int, high: int, i: int)
    requires
        0 <= i < char_range(low, high).len(),
        0 <= low,
    ensures
        low <= char_range(low, high)[i] as int <= high,
        is_scalar(char_range(low, high)[i] as int),
    decreases high - low + 1,
{
    if low <= high {
        if is_scalar(low) {
            if i > 0 {
                range_stays_within(low + 1, high, i - 1);
            }
        } else {
            range_stays_within(low + 1, high, i);
        }
    }
}

proof fn secret_alphabet_is_alphanumeric()
    ensures
        expanded("A-Z0-9"@) == char_range('A' as int, 'Z' as int) + char_range(
            '0' as int,
            '9' as int,
        ),
        expanded("A-Z0-9"@).len() > 0,
        forall|i: int|
            0 <= i < expanded("A-Z0-9"@).len() ==> is_alphanumeric(
                #[trigger] expanded("A-Z0-9"@)[i],
            ) && is_alphanumeric(ascii_lower(expanded("A-Z0-9"@)[i])),
{
    reveal_strlit("A-Z0-9");
    let p = "A-Z0-9"@;
    let upper = char_range('A' as int, 'Z' as int);
    let digits = char_range('0' as int, '9' as int);
    assert(p.skip(3).len() == 3);
    assert(p.skip(3)[0] == '0' && p.skip(3)[1] == '-' && p.skip(3)[2] == '9');
    assert(p.skip(3).skip(3).len() == 0);
    assert(expanded(p.skip(3).skip(3)) =~= Seq::<char>::empty());
    assert(expanded(p.skip(3)) =~= digits);
    assert(expanded(p) =~= upper + digits);
    assert(upper.len() > 0);
    assert forall|i: int| 0 <= i < expanded(p).len() implies is_alphanumeric(
        #[trigger] expanded(p)[i],
    ) && is_alphanumeric(ascii_lower(expanded(p)[i])) by {
        if i < upper.len() {
            range_stays_within('A' as int, 'Z' as int, i);
        } else {
            range_stays_within('0' as int, '9' as int, i - upper.len());
        }
    }
}

/// A fresh random root secret.
pub fn new_root_secret() -> (r: String)
    ensures
        is_root_secret(r@),
{
    proof {
        secret_alphabet_is_alphanumeric();
        reveal_strlit("-_");
        let all = patterns_view(seq!["a-z", "0-9", "A-Z", "-_"]);
        assert(all.last() == "-_"@);
        assert(expanded("-_"@).len() > 0);
    }
    let patterns: Vec<&str> = vec!["a-z", "0-9", "A-Z", "-_"];
    assert(patterns@ =~= seq!["a-z", "0-9", "A-Z", "-_"]);
    let generator = create_random_string_generator(&patterns);
    let r = generator.generate(ROOT_SECRET_LEN, Some("A-Z0-9"));
    assert forall|i: int| 0 <= i < r@.len() implies is_alphanumeric(#[trigger] r@[i]) by {
        assert(drawn_from(r@[i], expanded("A-Z0-9"@)));
    }
    r
}


/// Where the provider of key material stands.
#[derive(Debug)]
pub enum KeyState {
    /// Nothing has been asked yet.
    Idle,
    /// The key file has been asked for.
    ReadingFile,
    /// The store has been asked for the root secret.
    LoadingSecret,
    /// The store has been asked to keep a new root secret.
    SavingSecret { secret: String },
    /// The key file is being written.
    WritingFile { config: PasetoConfig },
    /// The keys have been handed out.
    Ready,
    /// The provider has given up.
    Failed,
}

/// What the surroundings report to the provider.
#[derive(Debug)]
pub enum KeyEvent {
    /// The service starts.
    Begin,
    /// The key file was read, or there is none.
    FileRead { content: Option<String> },
    /// The store answered with the root secret, or has none.
    SecretLoaded { secret: Option<String> },
    /// The store keeps the new root secret.
    SecretSaved,
    /// The key file was written.
    FileWritten,
    /// The store or the key file could not be reached.
    Unavailable,
}

/// What the provider asks of its surroundings.
#[derive(Debug)]
pub enum KeyAction {
    ReadFile,
    LoadSecret,
    SaveSecret { secret: String },
    WriteFile { content: String },
    Serve { config: PasetoConfig },
    Abort { error: AuthError },
}

/// The state of the provider as a mathematical value.
pub enum KeyStateView {
    Idle,
    ReadingFile,
    LoadingSecret,
    SavingSecret { secret: Seq<char> },
    WritingFile { config: KeysView },
    Ready,
    Failed,
}

/// A report to the provider as a mathematical value.
pub enum KeyEventView {
    Begin,
    FileRead { content: Option<Seq<char>> },
    SecretLoaded { secret: Option<Seq<char>> },
    SecretSaved,
    FileWritten,
    Unavailable,
}

/// What the provider asks for, as a mathematical value.
pub enum KeyActionView {
    ReadFile,
    LoadSecret,
    SaveSecret { secret: Seq<char> },
    WriteFile { content: Seq<char> },
    Serve { config: KeysView },
    Abort { error: AuthError },
}

impl View for KeyState {
    type V = KeyStateView;

    open spec fn view(&self) -> KeyStateView {
        match self {
            KeyState::Idle => KeyStateView::Idle,
            KeyState::ReadingFile => KeyStateView::ReadingFile,
            KeyState::LoadingSecret => KeyStateView::LoadingSecret,
            KeyState::SavingSecret { secret } => KeyStateView::SavingSecret { secret: secret@ },
            KeyState::WritingFile { config } => KeyStateView::WritingFile { config: config@ },
            KeyState::Ready => KeyStateView::Ready,
            KeyState::Failed => KeyStateView::Failed,
        }
    }
}

impl View for KeyEvent {
    type V = KeyEventView;

    open spec fn view(&self) -> KeyEventView {
        match self {
            KeyEvent::Begin => KeyEventView::Begin,
            KeyEvent::FileRead { content } => KeyEventView::FileRead { content: text_view(*content) },
            KeyEvent::SecretLoaded { secret } => KeyEventView::SecretLoaded {
                secret: text_view(*secret),
            },
            KeyEvent::SecretSaved => KeyEventView::SecretSaved,
            KeyEvent::FileWritten => KeyEventView::FileWritten,
            KeyEvent::Unavailable => KeyEventView::Unavailable,
        }
    }
}

impl View for KeyAction {
    type V = KeyActionView;

    open spec fn view(&self) -> KeyActionView {
        match self {
            KeyAction::ReadFile => KeyActionView::ReadFile,
            KeyAction::LoadSecret => KeyActionView::LoadSecret,
            KeyAction::SaveSecret { secret } => KeyActionView::SaveSecret { secret: secret@ },
            KeyAction::WriteFile { content } => KeyActionView::WriteFile { content: content@ },
            KeyAction::Serve { config } => KeyActionView::Serve { config: config@ },
            KeyAction::Abort { error } => KeyActionView::Abort { error: *error },
        }
    }
}

/// The step that ends the provider with `KeyMaterialUnavailable`.
pub open spec fn gives_up() -> (KeyStateView, KeyActionView) {
    (KeyStateView::Failed, KeyActionView::Abort { error: AuthError::KeyMaterialUnavailable })
}

/// The step that derives the keys of a root secret and asks for the key file
/// to be written.
pub open spec fn derives_from(root: Seq<char>) -> (KeyStateView, KeyActionView) {
    match key_file_of(keys_of(root)) {
        Some(content) => (
            KeyStateView::WritingFile { config: keys_of(root) },
            KeyActionView::WriteFile { content },
        ),
        None => gives_up(),
    }
}

/// Whether the store has no root secret yet, so that one has to be drawn.
pub open spec fn needs_new_secret(state: KeyStateView, event: KeyEventView) -> bool {
    state is LoadingSecret && (event matches KeyEventView::SecretLoaded { secret } && (secret
        is None || secret->0.len() == 0))
}

/// The next state and what to do, `fresh` being the root secret to use where
/// the store has none. Keys found in the key file are served as they are.
/// Else the root secret is loaded, or a new one is kept in the store first;
/// the keys are derived from it, written to the key file and served. Whatever
/// cannot be reached, and any report out of turn, ends in `Failed`.
pub open spec fn next_step(state: KeyStateView, event: KeyEventView, fresh: Seq<char>) -> (
    KeyStateView,
    KeyActionView,
) {
    match (state, event) {
        (KeyStateView::Idle, KeyEventView::Begin) => (
            KeyStateView::ReadingFile,
            KeyActionView::ReadFile,
        ),
        (KeyStateView::ReadingFile, KeyEventView::FileRead { content }) => {
            if content is Some && keys_in(content->0) is Some {
                (KeyStateView::Ready, KeyActionView::Serve { config: keys_in(content->0)->0 })
            } else {
                (KeyStateView::LoadingSecret, KeyActionView::LoadSecret)
            }
        },
        (KeyStateView::LoadingSecret, KeyEventView::SecretLoaded { secret }) => {
            if secret is Some && secret->0.len() > 0 {
                derives_from(secret->0)
            } else {
                (
                    KeyStateView::SavingSecret { secret: fresh },
                    KeyActionView::SaveSecret { secret: fresh },
                )
            }
        },
        (KeyStateView::SavingSecret { secret }, KeyEventView::SecretSaved) => derives_from(secret),
        (KeyStateView::WritingFile { config }, KeyEventView::FileWritten) => (
            KeyStateView::Ready,
            KeyActionView::Serve { config },
        ),
        _ => gives_up(),
    }
}

fn derive_and_write(root: &str) -> (r: (KeyState, KeyAction))
    ensures
        (r.0@, r.1@) == derives_from(root@),
{
    let config = derive_keys(root);
    match write_key_file(&config) {
        Some(content) => (KeyState::WritingFile { config }, KeyAction::WriteFile { content }),
        None => (KeyState::Failed, KeyAction::Abort { error: AuthError::KeyMaterialUnavailable }),
    }
}

/// The next state and what to do, with the root secret to use where the
/// store has none.
pub fn advance_with(state: KeyState, event: KeyEvent, fresh: String) -> (r: (KeyState, KeyAction))
    ensures
        (r.0@, r.1@) == next_step(state@, event@, fresh@),
{
    match (state, event) {
        (KeyState::Idle, KeyEvent::Begin) => (KeyState::ReadingFile, KeyAction::ReadFile),
        (KeyState::ReadingFile, KeyEvent::FileRead { content }) => {
            let found = match &content {
                Some(text) => read_key_file(text.as_str()),
                None => None,
            };
            match found {
                Some(config) => (KeyState::Ready, KeyAction::Serve { config }),
                None => (KeyState::LoadingSecret, KeyAction::LoadSecret),
            }
        },
        (KeyState::LoadingSecret, KeyEvent::SecretLoaded { secret }) => {
            match secret {
                Some(root) => if !root.as_str().is_empty() {
                    derive_and_write(root.as_str())
                } else {
                    let kept = fresh.clone();
                    (
                        KeyState::SavingSecret { secret: fresh },
                        KeyAction::SaveSecret { secret: kept },
                    )
                },
                None => {
                    let kept = fresh.clone();
                    (
                        KeyState::SavingSecret { secret: fresh },
                        KeyAction::SaveSecret { secret: kept },
                    )
                },
            }
        },
        (KeyState::SavingSecret { secret }, KeyEvent::SecretSaved) => derive_and_write(
            secret.as_str(),
        ),
        (KeyState::WritingFile { config }, KeyEvent::FileWritten) => (
            KeyState::Ready,
            KeyAction::Serve { config },
        ),
        _ => (KeyState::Failed, KeyAction::Abort { error: AuthError::KeyMaterialUnavailable }),
    }
}

fn has_no_secret(state: &KeyState, event: &KeyEvent) -> (r: bool)
    ensures
        r == needs_new_secret(state@, event@),
{
    match (state, event) {
        (KeyState::LoadingSecret, KeyEvent::SecretLoaded { secret }) => match secret {
            Some(root) => root.as_str().is_empty(),
            None => true,
        },
        _ => false,
    }
}

/// The next state and what to do. Where the store has no root secret, a
/// random one is drawn.
pub fn advance(state: KeyState, event: KeyEvent) -> (r: (KeyState, KeyAction))
    ensures
        exists|fresh: Seq<char>|
            (needs_new_secret(state@, event@) ==> is_root_secret(fresh)) && (r.0@, r.1@)
                == #[trigger] next_step(state@, event@, fresh),
{
    let fresh = if has_no_secret(&state, &event) {
        new_root_secret()
    } else {
        String::new()
    };
    let ghost s = state@;
    let ghost e = event@;
    let r = advance_with(state, event, fresh);
    assert((r.0@, r.1@) == next_step(s, e, fresh@));
    r
}

/// Keys that were written to the key file are served from it at the next
/// start, and no root secret is asked for: the keys stay the same as long as
/// the key file does.
pub proof fn keys_are_served_from_their_key_file(config: KeysView, content: Seq<char>, fresh: Seq<char>)
    requires
        keys_in(content) == Some(config),
    ensures
        next_step(
            KeyStateView::ReadingFile,
            KeyEventView::FileRead { content: Some(content) },
            fresh,
        ) == (KeyStateView::Ready, KeyActionView::Serve { config }),
{
}

/// A root secret that the store holds determines the keys: whatever was
/// drawn in between, the same secret leads to the same keys.
pub proof fn same_root_secret_gives_same_keys(root: Seq<char>, first: Seq<char>, second: Seq<char>)
    requires
        root.len() > 0,
    ensures
        next_step(
            KeyStateView::LoadingSecret,
            KeyEventView::SecretLoaded { secret: Some(root) },
            first,
        ) == next_step(
            KeyStateView::LoadingSecret,
            KeyEventView::SecretLoaded { secret: Some(root) },
            second,
        ),
        next_step(
            KeyStateView::LoadingSecret,
            KeyEventView::SecretLoaded { secret: Some(root) },
            first,
        ) == derives_from(root),
{
}

} // verus!
