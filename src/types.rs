use vstd::prelude::*;
use zeroize::Zeroize;

verus! {

/// Relies on zeroize's `Zeroize for String`: the bytes are overwritten with
/// zeros and the string is left empty.
#[verifier::external_body]
fn zeroize_string(s: &mut String)
    ensures
        final(s)@.len() == 0,
    opens_invariants none
    no_unwind
{
    s.zeroize()
}

/// A string that holds a secret. Its contents are overwritten by `wipe`.
#[derive(Clone)]
pub struct SecureString {
    inner: String,
}

impl View for SecureString {
    type V = Seq<char>;

    closed spec fn view(&self) -> Seq<char> {
        self.inner@
    }
}

impl SecureString {
    pub fn new(s: String) -> (r: SecureString)
        ensures
            r@ == s@,
    {
        SecureString { inner: s }
    }

    pub fn as_str(&self) -> (r: &str)
        ensures
            r@ == self@,
    {
        self.inner.as_str()
    }

    pub fn into_inner(self) -> (r: String)
        ensures
            r@ == self@,
    {
        let mut this = self;
        let mut out = String::new();
        std::mem::swap(&mut out, &mut this.inner);
        out
    }

    /// A copy of the secret held in a second container.
    pub fn duplicate(&self) -> (r: SecureString)
        ensures
            r@ == self@,
    {
        SecureString { inner: self.inner.clone() }
    }

    /// Overwrites the secret with zeros and leaves the container empty.
    pub fn wipe(&mut self)
        ensures
            final(self)@.len() == 0,
    {
        zeroize_string(&mut self.inner);
    }
}

impl Drop for SecureString {
    /// The secret is overwritten when the container is released.
    fn drop(&mut self)
        opens_invariants none
        no_unwind
    {
        zeroize_string(&mut self.inner);
    }
}

impl From<String> for SecureString {
    fn from(s: String) -> (r: SecureString) {
        SecureString::new(s)
    }
}

impl vstd::std_specs::convert::FromSpecImpl<String> for SecureString {
    open spec fn obeys_from_spec() -> bool {
        false
    }

    open spec fn from_spec(s: String) -> SecureString {
        arbitrary()
    }
}

/// A point in time: whole seconds since the Unix epoch, in UTC, and the
/// nanoseconds past that second.
#[derive(Clone, Copy, Debug, PartialEq, Eq, Structural)]
pub struct Timestamp {
    pub secs: i64,
    pub nanos: u32,
}

/// The mathematical value of an entry.
pub struct EntryView {
    pub id: u128,
    pub title: Seq<char>,
    pub username: Seq<char>,
    pub password: Seq<char>,
    pub url: Option<Seq<char>>,
    pub notes: Option<Seq<char>>,
    pub tags: Seq<Seq<char>>,
    pub favorite: bool,
    pub created_at: Timestamp,
    pub updated_at: Timestamp,
}

/// One stored credential.
#[derive(Clone)]
pub struct PasswordEntry {
    pub id: u128,
    pub title: String,
    pub username: String,
    pub password: SecureString,
    pub url: Option<String>,
    pub notes: Option<String>,
    pub tags: Vec<String>,
    pub favorite: bool,
    pub created_at: Timestamp,
    pub updated_at: Timestamp,
}

impl View for PasswordEntry {
    type V = EntryView;

    open spec fn view(&self) -> EntryView {
        EntryView {
            id: self.id,
            title: self.title@,
            username: self.username@,
            password: self.password@,
            url: self.url.deep_view(),
            notes: self.notes.deep_view(),
            tags: self.tags.deep_view(),
            favorite: self.favorite,
            created_at: self.created_at,
            updated_at: self.updated_at,
        }
    }
}

pub fn copy_text(s: &Option<String>) -> (r: Option<String>)
    ensures
        r.deep_view() == s.deep_view(),
{
    match s {
        Some(t) => Some(t.clone()),
        None => None,
    }
}

pub fn copy_tags(tags: &Vec<String>) -> (r: Vec<String>)
    ensures
        r.deep_view() == tags.deep_view(),
{
    let mut r: Vec<String> = Vec::new();
    let mut i: usize = 0;
    while i < tags.len()
        invariant
            i <= tags.len(),
            r@.len() == i,
            forall|j: int| 0 <= j < i ==> #[trigger] r@[j]@ == tags@[j]@,
        decreases tags.len() - i,
    {
        r.push(tags[i].clone());
        i += 1;
    }
    assert(r.deep_view() =~= tags.deep_view());
    r
}

impl PasswordEntry {
    /// A full copy of the entry, secret included.
    pub fn duplicate(&self) -> (r: PasswordEntry)
        ensures
            r@ == self@,
    {
        PasswordEntry {
            id: self.id,
            title: self.title.clone(),
            username: self.username.clone(),
            password: self.password.duplicate(),
            url: copy_text(&self.url),
            notes: copy_text(&self.notes),
            tags: copy_tags(&self.tags),
            favorite: self.favorite,
            created_at: self.created_at,
            updated_at: self.updated_at,
        }
    }

    /// The entry without its secret.
    pub fn summary(&self) -> (r: PasswordEntrySummary)
        ensures
            r@ == summary_of(self@),
    {
        PasswordEntrySummary {
            id: self.id,
            title: self.title.clone(),
            username: self.username.clone(),
            url: copy_text(&self.url),
            notes: copy_text(&self.notes),
            tags: copy_tags(&self.tags),
            favorite: self.favorite,
            created_at: self.created_at,
            updated_at: self.updated_at,
        }
    }
}

/// The mathematical value of a summary.
pub struct SummaryView {
    pub id: u128,
    pub title: Seq<char>,
    pub username: Seq<char>,
    pub url: Option<Seq<char>>,
    pub notes: Option<Seq<char>>,
    pub tags: Seq<Seq<char>>,
    pub favorite: bool,
    pub created_at: Timestamp,
    pub updated_at: Timestamp,
}

/// An entry as it is listed: every field but the secret. The type has no
/// password field, so a listing cannot carry one.
pub struct PasswordEntrySummary {
    pub id: u128,
    pub title: String,
    pub username: String,
    pub url: Option<String>,
    pub notes: Option<String>,
    pub tags: Vec<String>,
    pub favorite: bool,
    pub created_at: Timestamp,
    pub updated_at: Timestamp,
}

impl View for PasswordEntrySummary {
    type V = SummaryView;

    open spec fn view(&self) -> SummaryView {
        SummaryView {
            id: self.id,
            title: self.title@,
            username: self.username@,
            url: self.url.deep_view(),
            notes: self.notes.deep_view(),
            tags: self.tags.deep_view(),
            favorite: self.favorite,
            created_at: self.created_at,
            updated_at: self.updated_at,
        }
    }
}

pub open spec fn summary_of(e: EntryView) -> SummaryView {
    SummaryView {
        id: e.id,
        title: e.title,
        username: e.username,
        url: e.url,
        notes: e.notes,
        tags: e.tags,
        favorite: e.favorite,
        created_at: e.created_at,
        updated_at: e.updated_at,
    }
}

impl From<PasswordEntry> for PasswordEntrySummary {
    fn from(entry: PasswordEntry) -> (r: PasswordEntrySummary) {
        entry.summary()
    }
}

impl vstd::std_specs::convert::FromSpecImpl<PasswordEntry> for PasswordEntrySummary {
    open spec fn obeys_from_spec() -> bool {
        false
    }

    open spec fn from_spec(entry: PasswordEntry) -> PasswordEntrySummary {
        arbitrary()
    }
}

/// The settings of the password generator.
#[derive(Clone, Copy, Debug, PartialEq, Eq, Structural)]
pub struct PasswordOptions {
    pub length: u32,
    pub include_uppercase: bool,
    pub include_lowercase: bool,
    pub include_numbers: bool,
    pub include_symbols: bool,
    pub exclude_ambiguous: bool,
}

impl Default for PasswordOptions {
    fn default() -> (r: PasswordOptions)
        ensures
            r.length == 20,
            r.include_uppercase && r.include_lowercase && r.include_numbers,
            r.include_symbols && r.exclude_ambiguous,
    {
        PasswordOptions {
            length: 20,
            include_uppercase: true,
            include_lowercase: true,
            include_numbers: true,
            include_symbols: true,
            exclude_ambiguous: true,
        }
    }
}

} // verus!

verus! {

/// Every way a vault operation can fail.
#[derive(Clone, Copy, Debug, PartialEq, Eq, Structural)]
pub enum VaultError {
    AlreadyExists,
    NotFound,
    VaultLocked,
    InvalidCredentials,
    CorruptVault,
    KeyDerivationError,
    EncryptionError,
    DecryptionError,
    StorageIOError,
    EmptyCharset,
}

/// The message of each error.
pub open spec fn error_text(e: VaultError) -> Seq<char> {
    match e {
        VaultError::AlreadyExists => "Vault already exists"@,
        VaultError::NotFound => "Not found"@,
        VaultError::VaultLocked => "Vault is locked"@,
        VaultError::InvalidCredentials => "Invalid master password or corrupt vault"@,
        VaultError::CorruptVault => "Vault file is corrupt"@,
        VaultError::KeyDerivationError => "Key derivation failed"@,
        VaultError::EncryptionError => "Encryption failed"@,
        VaultError::DecryptionError => "Decryption failed"@,
        VaultError::StorageIOError => "Vault storage failed"@,
        VaultError::EmptyCharset => "No character types selected"@,
    }
}

impl VaultError {
    /// The message shown to a user for this error. Failures to decrypt or
    /// to unlock never say whether the password or the file was at fault.
    pub fn message(&self) -> (r: String)
        ensures
            r@ == error_text(*self),
    {
        let m = match self {
            VaultError::AlreadyExists => "Vault already exists",
            VaultError::NotFound => "Not found",
            VaultError::VaultLocked => "Vault is locked",
            VaultError::InvalidCredentials => "Invalid master password or corrupt vault",
            VaultError::CorruptVault => "Vault file is corrupt",
            VaultError::KeyDerivationError => "Key derivation failed",
            VaultError::EncryptionError => "Encryption failed",
            VaultError::DecryptionError => "Decryption failed",
            VaultError::StorageIOError => "Vault storage failed",
            VaultError::EmptyCharset => "No character types selected",
        };
        String::from_str(m)
    }
}

} // verus!
