use crate::crypto::{NONCE_LEN, TAG_LEN, decrypt, derive_key, derived_key, encrypt, encryptable, generate_salt, is_encryption_of, opened};
use crate::types::{EntryView, PasswordEntry, PasswordEntrySummary, SecureString, Timestamp, VaultError, summary_of};
use vstd::prelude::*;
use vstd::string::StringSliceAdditionalSpecFns;
use zeroize::Zeroize;

verus! {

/// The format version written into every vault file.
pub const VAULT_VERSION: u32 = 1;

/// Bytes before the sealed body of a vault file: the version, four bytes
/// little-endian, then the salt.
pub const HEADER_LEN: usize = 36;

/// The canonical text form of an identifier (lowercase, hyphenated).
pub uninterp spec fn uuid_text(id: u128) -> Seq<char>;

/// The identifier that a text denotes, when it denotes one.
pub uninterp spec fn uuid_value(s: Seq<char>) -> Option<u128>;

/// Relies on uuid's `Uuid::new_v4`: a random version-4 identifier. Nothing
/// is known of the value.
#[verifier::external_body]
fn new_uuid() -> (r: u128) {
    uuid::Uuid::new_v4().as_u128()
}

/// Relies on uuid's `Display` for `Uuid`: the hyphenated form, 36
/// characters.
#[verifier::external_body]
fn uuid_string(id: u128) -> (r: String)
    ensures
        r@ == uuid_text(id),
        r@.len() == 36,
{
    uuid::Uuid::from_u128(id).to_string()
}

/// Relies on uuid's `Uuid::parse_str`: the identifier, or nothing when the
/// text is not one.
#[verifier::external_body]
fn parse_uuid(s: &str) -> (r: Option<u128>)
    ensures
        r == uuid_value(s@),
{
    uuid::Uuid::parse_str(s).ok().map(|u| u.as_u128())
}

/// Relies on chrono's `Utc::now`: the current time. Nothing is known of the
/// value.
#[verifier::external_body]
fn now() -> (r: Timestamp) {
    let t = chrono::Utc::now();
    Timestamp { secs: t.timestamp(), nanos: t.timestamp_subsec_nanos() }
}

/// Relies on zeroize's `Zeroize` for byte arrays: every byte is overwritten
/// with zero.
#[verifier::external_body]
fn zeroize_key(key: &mut [u8; 32])
    ensures
        forall|i: int| 0 <= i < 32 ==> #[trigger] final(key)@[i] == 0u8,
{
    key.zeroize()
}

/// Relies on hex's `encode`: two lowercase digits for each byte.
#[verifier::external_body]
fn hex_encode(bytes: &[u8; 32]) -> (r: String)
    ensures
        r@ == hex_of(bytes@),
{
    hex::encode(bytes)
}

pub open spec fn hex_digits() -> Seq<char> {
    seq!['0', '1', '2', '3', '4', '5', '6', '7', '8', '9', 'a', 'b', 'c', 'd', 'e', 'f']
}

/// Lowercase hexadecimal, high digit first.
pub open spec fn hex_of(b: Seq<u8>) -> Seq<char> {
    Seq::new(
        2 * b.len(),
        |i: int| if i % 2 == 0 { hex_digits()[b[i / 2] as int / 16] } else { hex_digits()[b[i / 2] as int % 16] },
    )
}

/// The in-memory session: locked, or unlocked with the key, the salt of the
/// open vault and its entries. A locked session holds no key and no entry.
#[derive(Clone)]
pub enum Session {
    Locked,
    Unlocked { key: [u8; 32], salt: [u8; 32], entries: Vec<PasswordEntry> },
}

/// The vault's session state, owned by whoever serves the commands.
#[derive(Clone)]
pub struct VaultState {
    pub session: Session,
}

/// The persisted content of a vault before it is serialized and sealed.
pub struct VaultData {
    pub version: u32,
    pub salt: [u8; 32],
    pub entries: Vec<PasswordEntry>,
}

/// A vault file whose header was read and whose body decrypted under the
/// key derived from the password and the header's salt.
pub struct OpenedVault {
    pub key: [u8; 32],
    pub salt: [u8; 32],
    pub plaintext: Vec<u8>,
}

pub open spec fn entries_of(v: Seq<PasswordEntry>) -> Seq<EntryView> {
    v.map_values(|e: PasswordEntry| e@)
}

/// Whether `i` is the first position of an entry with identifier `id`.
pub open spec fn is_first_index(s: Seq<EntryView>, id: u128, i: int) -> bool {
    &&& 0 <= i < s.len()
    &&& s[i].id == id
    &&& forall|j: int| 0 <= j < i ==> #[trigger] s[j].id != id
}

pub open spec fn has_id(s: Seq<EntryView>, id: u128) -> bool {
    exists|i: int| 0 <= i < s.len() && #[trigger] s[i].id == id
}

/// An entry made of the given fields.
pub open spec fn entry_view(
    id: u128,
    title: Seq<char>,
    username: Seq<char>,
    password: Seq<char>,
    url: Option<Seq<char>>,
    notes: Option<Seq<char>>,
    tags: Seq<Seq<char>>,
    favorite: bool,
    created_at: Timestamp,
    updated_at: Timestamp,
) -> EntryView {
    EntryView { id, title, username, password, url, notes, tags, favorite, created_at, updated_at }
}

impl VaultState {
    pub open spec fn unlocked(&self) -> bool {
        self.session is Unlocked
    }

    pub open spec fn entries_view(&self) -> Seq<EntryView> {
        match self.session {
            Session::Unlocked { entries, .. } => entries_of(entries@),
            Session::Locked => Seq::empty(),
        }
    }

    pub open spec fn key_view(&self) -> Seq<u8> {
        match self.session {
            Session::Unlocked { key, .. } => key@,
            Session::Locked => Seq::empty(),
        }
    }

    pub open spec fn salt_view(&self) -> Seq<u8> {
        match self.session {
            Session::Unlocked { salt, .. } => salt@,
            Session::Locked => Seq::empty(),
        }
    }

    /// A locked session.
    pub fn new() -> (r: VaultState)
        ensures
            !r.unlocked(),
    {
        VaultState { session: Session::Locked }
    }

    /// Locks the session: the key bytes and every entry's secret are
    /// overwritten, then dropped. Locking a locked session does nothing.
    pub fn lock(&mut self)
        ensures
            !final(self).unlocked(),
            final(self).entries_view().len() == 0,
    {
        let mut previous = Session::Locked;
        std::mem::swap(&mut previous, &mut self.session);
        match previous {
            Session::Unlocked { mut key, salt: _, mut entries } => {
                zeroize_key(&mut key);
                wipe_entries(&mut entries);
            },
            Session::Locked => {},
        }
    }

    pub fn is_unlocked(&self) -> (r: bool)
        ensures
            r == self.unlocked(),
    {
        match &self.session {
            Session::Unlocked { .. } => true,
            Session::Locked => false,
        }
    }

    /// The hex form of the session key, kept in the platform secret store
    /// as a hint that a vault was set up; `None` when locked.
    pub fn key_fingerprint(&self) -> (r: Option<String>)
        ensures
            r is Some <==> self.unlocked(),
            r is Some ==> r->0@ == hex_of(self.key_view()),
    {
        match &self.session {
            Session::Unlocked { key, .. } => Some(hex_encode(key)),
            Session::Locked => None,
        }
    }
}

/// Overwrites the secret of every entry, emptying the list.
fn wipe_entries(entries: &mut Vec<PasswordEntry>)
    ensures
        final(entries)@.len() == 0,
{
    while entries.len() > 0
        decreases entries@.len(),
    {
        let mut e = entries.pop().unwrap();
        e.password.wipe();
    }
}

/// The first position of an entry with identifier `id`.
fn find_entry(entries: &Vec<PasswordEntry>, id: u128) -> (r: Option<usize>)
    ensures
        r is Some ==> is_first_index(entries_of(entries@), id, r->0 as int),
        r is None ==> !has_id(entries_of(entries@), id),
{
    let mut i: usize = 0;
    while i < entries.len()
        invariant
            i <= entries@.len(),
            forall|j: int| 0 <= j < i ==> #[trigger] entries_of(entries@)[j].id != id,
        decreases entries@.len() - i,
    {
        if entries[i].id == id {
            return Some(i);
        }
        i += 1;
    }
    None
}

} // verus!

verus! {

/// The header of a vault file: the version, four bytes little-endian, then
/// the salt.
pub open spec fn header_bytes(salt: Seq<u8>) -> Seq<u8> {
    seq![1u8, 0u8, 0u8, 0u8] + salt
}

/// A vault file: the header, then the sealed body.
pub open spec fn vault_file(salt: Seq<u8>, body: Seq<u8>) -> Seq<u8> {
    header_bytes(salt) + body
}

/// The version a file's first four bytes state.
pub open spec fn file_version(f: Seq<u8>) -> int {
    f[0] + 256 * f[1] + 65536 * f[2] + 16777216 * f[3]
}

/// Whether a file has a whole header of the supported version.
pub open spec fn header_ok(f: Seq<u8>) -> bool {
    f.len() >= HEADER_LEN && file_version(f) == VAULT_VERSION
}

/// A vault file split into its parts.
pub struct VaultHeader {
    pub version: u32,
    pub salt: [u8; 32],
    pub body: Vec<u8>,
}

/// Frames a sealed body behind the header that carries the salt.
pub fn frame_vault_file(salt: &[u8; 32], body: &[u8]) -> (r: Vec<u8>)
    ensures
        r@ == vault_file(salt@, body@),
{
    let mut r: Vec<u8> = Vec::new();
    r.push(1u8);
    r.push(0u8);
    r.push(0u8);
    r.push(0u8);
    let mut i: usize = 0;
    while i < 32
        invariant
            i <= 32,
            r@ == seq![1u8, 0u8, 0u8, 0u8] + salt@.take(i as int),
        decreases 32 - i,
    {
        r.push(salt[i]);
        i += 1;
        assert(salt@.take(i as int) =~= salt@.take(i - 1 as int).push(salt@[i - 1]));
    }
    assert(salt@.take(32) =~= salt@);
    let mut j: usize = 0;
    while j < body.len()
        invariant
            j <= body@.len(),
            r@ == header_bytes(salt@) + body@.take(j as int),
        decreases body@.len() - j,
    {
        r.push(body[j]);
        j += 1;
        assert(body@.take(j as int) =~= body@.take(j - 1 as int).push(body@[j - 1]));
    }
    assert(body@.take(j as int) =~= body@);
    assert(r@ =~= vault_file(salt@, body@));
    r
}

/// Reads the header of a vault file. The salt is recovered from the file
/// alone; a short file or another version is corrupt.
pub fn parse_vault_file(file: &[u8]) -> (r: Result<VaultHeader, VaultError>)
    ensures
        r is Ok <==> header_ok(file@),
        r is Ok ==> r->Ok_0.version == VAULT_VERSION,
        r is Ok ==> r->Ok_0.salt@ == file@.subrange(4, HEADER_LEN as int),
        r is Ok ==> r->Ok_0.body@ == file@.skip(HEADER_LEN as int),
        r is Err ==> r->Err_0 == VaultError::CorruptVault,
{
    if file.len() < HEADER_LEN {
        return Err(VaultError::CorruptVault);
    }
    let version: u64 = file[0] as u64 + 256 * (file[1] as u64) + 65536 * (file[2] as u64) + 16777216 * (file[3] as u64);
    if version != VAULT_VERSION as u64 {
        return Err(VaultError::CorruptVault);
    }
    let mut salt: [u8; 32] = [0u8; 32];
    let mut i: usize = 0;
    while i < 32
        invariant
            i <= 32,
            file@.len() >= HEADER_LEN,
            forall|k: int| 0 <= k < i ==> #[trigger] salt@[k] == file@[4 + k],
        decreases 32 - i,
    {
        salt[i] = file[4 + i];
        i += 1;
    }
    assert(salt@ =~= file@.subrange(4, HEADER_LEN as int));
    let body = crate::crypto::slice_range(file, HEADER_LEN, file.len());
    assert(body@ =~= file@.skip(HEADER_LEN as int));
    Ok(VaultHeader { version: VAULT_VERSION, salt, body })
}

/// Reading back a framed file gives the salt and the body that went in.
pub proof fn lemma_parse_inverts_frame(salt: Seq<u8>, body: Seq<u8>)
    requires
        salt.len() == 32,
    ensures
        header_ok(vault_file(salt, body)),
        vault_file(salt, body).subrange(4, HEADER_LEN as int) == salt,
        vault_file(salt, body).skip(HEADER_LEN as int) == body,
{
    let f = vault_file(salt, body);
    assert(f.subrange(4, HEADER_LEN as int) =~= salt);
    assert(f.skip(HEADER_LEN as int) =~= body);
}

} // verus!

verus! {

/// Sets up a new vault with the given salt: the session opens, empty, under
/// the key derived from the password and that salt. Fails when a vault
/// already exists.
pub fn initialize_vault_with_salt(state: &mut VaultState, vault_exists: bool, master_password: &str, salt: [u8; 32]) -> (r: Result<(), VaultError>)
    ensures
        vault_exists ==> r == Err::<(), VaultError>(VaultError::AlreadyExists),
        !vault_exists && master_password.spec_bytes().len() <= 0xFFFF_FFFF ==> r is Ok,
        !vault_exists && r is Err ==> r->Err_0 == VaultError::KeyDerivationError,
        r is Err ==> *final(state) == *old(state),
        r is Ok ==> final(state).unlocked(),
        r is Ok ==> final(state).entries_view().len() == 0,
        r is Ok ==> final(state).salt_view() == salt@,
        r is Ok ==> final(state).key_view() == derived_key(master_password.spec_bytes(), salt@),
{
    if vault_exists {
        return Err(VaultError::AlreadyExists);
    }
    let key = derive_key(master_password, &salt)?;
    state.lock();
    state.session = Session::Unlocked { key, salt, entries: Vec::new() };
    assert(final(state).entries_view() =~= Seq::<EntryView>::empty());
    Ok(())
}

/// Sets up a new vault under a fresh random salt; see
/// `initialize_vault_with_salt`. The caller then persists `vault_data` sealed
/// by `seal_vault`.
pub fn initialize_vault(state: &mut VaultState, vault_exists: bool, master_password: &str) -> (r: Result<(), VaultError>)
    ensures
        vault_exists ==> r == Err::<(), VaultError>(VaultError::AlreadyExists),
        !vault_exists && master_password.spec_bytes().len() <= 0xFFFF_FFFF ==> r is Ok,
        !vault_exists && r is Err ==> r->Err_0 == VaultError::KeyDerivationError,
        r is Err ==> *final(state) == *old(state),
        r is Ok ==> final(state).unlocked(),
        r is Ok ==> final(state).entries_view().len() == 0,
        r is Ok ==> final(state).salt_view().len() == 32,
        r is Ok ==> final(state).key_view() == derived_key(master_password.spec_bytes(), final(state).salt_view()),
{
    if vault_exists {
        return Err(VaultError::AlreadyExists);
    }
    let salt = generate_salt();
    initialize_vault_with_salt(state, vault_exists, master_password, salt)
}

/// Reads a vault file and decrypts its body under the key derived from the
/// password and the salt in the file's header. Every failure, a wrong
/// password as much as a damaged file, gives `InvalidCredentials`.
pub fn open_vault_file(file: &[u8], master_password: &str) -> (r: Result<OpenedVault, VaultError>)
    ensures
        r is Ok ==> header_ok(file@),
        r is Ok ==> r->Ok_0.salt@ == file@.subrange(4, HEADER_LEN as int),
        r is Ok ==> r->Ok_0.key@ == derived_key(master_password.spec_bytes(), r->Ok_0.salt@),
        r is Ok ==> opened(r->Ok_0.key@, file@.skip(HEADER_LEN as int)) == Some(r->Ok_0.plaintext@),
        !header_ok(file@) ==> r is Err,
        (header_ok(file@) && master_password.spec_bytes().len() <= 0xFFFF_FFFF) ==> (r is Ok <==> opened(
            derived_key(master_password.spec_bytes(), file@.subrange(4, HEADER_LEN as int)),
            file@.skip(HEADER_LEN as int),
        ) is Some),
        r is Err ==> r->Err_0 == VaultError::InvalidCredentials,
{
    let header = match parse_vault_file(file) {
        Ok(h) => h,
        Err(_) => return Err(VaultError::InvalidCredentials),
    };
    let key = match derive_key(master_password, &header.salt) {
        Ok(k) => k,
        Err(_) => return Err(VaultError::InvalidCredentials),
    };
    match decrypt(header.body.as_slice(), &key) {
        Ok(plaintext) => Ok(OpenedVault { key, salt: header.salt, plaintext }),
        Err(_) => Err(VaultError::InvalidCredentials),
    }
}

/// Opens the session on a decrypted vault whose content the caller has
/// parsed. Content of another version, or whose salt is not the header's,
/// is refused with `InvalidCredentials` and the session is left as it was.
pub fn unlock_vault(state: &mut VaultState, opened: OpenedVault, data: VaultData) -> (r: Result<bool, VaultError>)
    ensures
        r is Ok <==> (data.version == VAULT_VERSION && data.salt@ == opened.salt@),
        r is Ok ==> r->Ok_0,
        r is Ok ==> final(state).unlocked(),
        r is Ok ==> final(state).key_view() == opened.key@,
        r is Ok ==> final(state).salt_view() == opened.salt@,
        r is Ok ==> final(state).entries_view() == entries_of(data.entries@),
        r is Err ==> r->Err_0 == VaultError::InvalidCredentials,
        r is Err ==> *final(state) == *old(state),
{
    if data.version != VAULT_VERSION || !same_bytes(&data.salt, &opened.salt) {
        return Err(VaultError::InvalidCredentials);
    }
    state.lock();
    state.session = Session::Unlocked { key: opened.key, salt: opened.salt, entries: data.entries };
    Ok(true)
}

fn same_bytes(a: &[u8; 32], b: &[u8; 32]) -> (r: bool)
    ensures
        r <==> a@ == b@,
{
    let mut i: usize = 0;
    while i < 32
        invariant
            i <= 32,
            forall|k: int| 0 <= k < i ==> #[trigger] a@[k] == b@[k],
        decreases 32 - i,
    {
        if a[i] != b[i] {
            return false;
        }
        i += 1;
    }
    assert(a@ =~= b@);
    true
}

/// Locks the session.
pub fn lock_vault(state: &mut VaultState)
    ensures
        !final(state).unlocked(),
{
    state.lock();
}

pub fn is_vault_unlocked(state: &VaultState) -> (r: bool)
    ensures
        r == state.unlocked(),
{
    state.is_unlocked()
}

/// Copies the entries one by one.
fn copy_entries(entries: &Vec<PasswordEntry>) -> (r: Vec<PasswordEntry>)
    ensures
        entries_of(r@) == entries_of(entries@),
{
    let mut r: Vec<PasswordEntry> = Vec::new();
    let mut i: usize = 0;
    while i < entries.len()
        invariant
            i <= entries@.len(),
            r@.len() == i,
            forall|k: int| 0 <= k < i ==> #[trigger] r@[k]@ == entries@[k]@,
        decreases entries@.len() - i,
    {
        r.push(entries[i].duplicate());
        i += 1;
    }
    assert(entries_of(r@) =~= entries_of(entries@));
    r
}

/// What the open vault persists: the version, the salt and every entry.
pub fn vault_data(state: &VaultState) -> (r: Result<VaultData, VaultError>)
    ensures
        r is Ok <==> state.unlocked(),
        r is Ok ==> r->Ok_0.version == VAULT_VERSION,
        r is Ok ==> r->Ok_0.salt@ == state.salt_view(),
        r is Ok ==> entries_of(r->Ok_0.entries@) == state.entries_view(),
        r is Err ==> r->Err_0 == VaultError::VaultLocked,
{
    match &state.session {
        Session::Unlocked { key: _, salt, entries } => Ok(VaultData { version: VAULT_VERSION, salt: *salt, entries: copy_entries(entries) }),
        Session::Locked => Err(VaultError::VaultLocked),
    }
}

/// Seals the serialized vault content under the session key and frames it
/// behind the session's salt: the bytes to write to the vault file.
pub fn seal_vault(state: &VaultState, content: &[u8]) -> (r: Result<Vec<u8>, VaultError>)
    ensures
        !state.unlocked() ==> r == Err::<Vec<u8>, VaultError>(VaultError::VaultLocked),
        state.unlocked() ==> (r is Ok <==> encryptable(content@)),
        state.unlocked() && r is Err ==> r->Err_0 == VaultError::EncryptionError,
        r is Ok ==> r->Ok_0@.len() == HEADER_LEN + NONCE_LEN + content@.len() + TAG_LEN,
        r is Ok ==> r->Ok_0@.take(HEADER_LEN as int) == header_bytes(state.salt_view()),
        r is Ok ==> is_encryption_of(r->Ok_0@.skip(HEADER_LEN as int), content@, state.key_view()),
{
    match &state.session {
        Session::Unlocked { key, salt, entries: _ } => {
            let blob = encrypt(content, key)?;
            let file = frame_vault_file(salt, blob.as_slice());
            assert(file@.take(HEADER_LEN as int) =~= header_bytes(salt@));
            assert(file@.skip(HEADER_LEN as int) =~= blob@);
            Ok(file)
        },
        Session::Locked => Err(VaultError::VaultLocked),
    }
}

/// The file that `seal_vault` produced, read back with `open_vault_file`
/// under the password the key was derived from, decrypts to exactly the
/// content that was sealed.
pub proof fn lemma_sealed_file_reopens(file: Seq<u8>, content: Seq<u8>, password: Seq<u8>, salt: Seq<u8>)
    requires
        salt.len() == 32,
        file.len() >= HEADER_LEN,
        file.take(HEADER_LEN as int) == header_bytes(salt),
        is_encryption_of(file.skip(HEADER_LEN as int), content, derived_key(password, salt)),
    ensures
        header_ok(file),
        file.subrange(4, HEADER_LEN as int) == salt,
        opened(derived_key(password, file.subrange(4, HEADER_LEN as int)), file.skip(HEADER_LEN as int)) == Some(content),
{
    let v = vault_file(salt, file.skip(HEADER_LEN as int));
    assert forall|i: int| 0 <= i < file.len() implies file[i] == v[i] by {
        if i < HEADER_LEN {
            assert(file[i] == file.take(HEADER_LEN as int)[i]);
        }
    }
    assert(file =~= v);
    lemma_parse_inverts_frame(salt, file.skip(HEADER_LEN as int));
}

} // verus!

verus! {

/// Whether two states hold the same key and salt.
pub open spec fn same_keys(a: VaultState, b: VaultState) -> bool {
    a.key_view() == b.key_view() && a.salt_view() == b.salt_view()
}

/// Appends an entry with the given identifier and time as both its creation
/// and update time; it is not a favorite.
pub fn create_password_with(
    state: &mut VaultState,
    id: u128,
    now: Timestamp,
    title: String,
    username: String,
    password: String,
    url: Option<String>,
    notes: Option<String>,
    tags: Vec<String>,
) -> (r: Result<u128, VaultError>)
    ensures
        !old(state).unlocked() ==> r == Err::<u128, VaultError>(VaultError::VaultLocked),
        !old(state).unlocked() ==> *final(state) == *old(state),
        old(state).unlocked() ==> r == Ok::<u128, VaultError>(id),
        old(state).unlocked() ==> final(state).unlocked() && same_keys(*final(state), *old(state)),
        old(state).unlocked() ==> final(state).entries_view() == old(state).entries_view().push(
            entry_view(id, title@, username@, password@, url.deep_view(), notes.deep_view(), tags.deep_view(), false, now, now),
        ),
{
    match &mut state.session {
        Session::Unlocked { key: _, salt: _, entries } => {
            let ghost before = entries@;
            let e = PasswordEntry {
                id,
                title,
                username,
                password: SecureString::new(password),
                url,
                notes,
                tags,
                favorite: false,
                created_at: now,
                updated_at: now,
            };
            entries.push(e);
            assert(entries_of(entries@) =~= entries_of(before).push(e@));
            Ok(id)
        },
        Session::Locked => Err(VaultError::VaultLocked),
    }
}

/// Adds an entry under a fresh random identifier, stamped with the current
/// time, and returns the identifier's text form.
pub fn create_password(
    state: &mut VaultState,
    title: String,
    username: String,
    password: String,
    url: Option<String>,
    notes: Option<String>,
    tags: Vec<String>,
) -> (r: Result<String, VaultError>)
    ensures
        !old(state).unlocked() ==> r == Err::<String, VaultError>(VaultError::VaultLocked),
        !old(state).unlocked() ==> *final(state) == *old(state),
        old(state).unlocked() ==> r is Ok,
        old(state).unlocked() ==> final(state).unlocked() && same_keys(*final(state), *old(state)),
        r is Ok ==> exists|id: u128, t: Timestamp|
            #![trigger uuid_text(id), entry_view(id, title@, username@, password@, url.deep_view(), notes.deep_view(), tags.deep_view(), false, t, t)]
            r->Ok_0@ == uuid_text(id) && final(state).entries_view() == old(state).entries_view().push(
                entry_view(id, title@, username@, password@, url.deep_view(), notes.deep_view(), tags.deep_view(), false, t, t),
            ),
{
    if !state.is_unlocked() {
        return Err(VaultError::VaultLocked);
    }
    let id = new_uuid();
    let t = now();
    let created = create_password_with(state, id, t, title, username, password, url, notes, tags)?;
    let text = uuid_string(created);
    Ok(text)
}

/// The entry with the given identifier, secret included.
pub fn get_password_by_id(state: &VaultState, id: u128) -> (r: Result<PasswordEntry, VaultError>)
    ensures
        !state.unlocked() ==> r == Err::<PasswordEntry, VaultError>(VaultError::VaultLocked),
        state.unlocked() ==> (r is Ok <==> has_id(state.entries_view(), id)),
        state.unlocked() && r is Err ==> r->Err_0 == VaultError::NotFound,
        r is Ok ==> exists|i: int| is_first_index(state.entries_view(), id, i) && r->Ok_0@ == #[trigger] state.entries_view()[i],
{
    match &state.session {
        Session::Unlocked { key: _, salt: _, entries } => {
            match find_entry(entries, id) {
                Some(i) => {
                    let e = entries[i].duplicate();
                    assert(e@ == entries_of(entries@)[i as int]);
                    Ok(e)
                },
                None => Err(VaultError::NotFound),
            }
        },
        Session::Locked => Err(VaultError::VaultLocked),
    }
}

/// The entry whose identifier `id` denotes; text that denotes no identifier
/// finds nothing.
pub fn get_password(id: &str, state: &VaultState) -> (r: Result<PasswordEntry, VaultError>)
    ensures
        !state.unlocked() ==> r == Err::<PasswordEntry, VaultError>(VaultError::VaultLocked),
        state.unlocked() ==> (r is Ok <==> (uuid_value(id@) is Some && has_id(state.entries_view(), uuid_value(id@)->0))),
        state.unlocked() && r is Err ==> r->Err_0 == VaultError::NotFound,
        r is Ok ==> exists|i: int|
            is_first_index(state.entries_view(), uuid_value(id@)->0, i) && r->Ok_0@ == #[trigger] state.entries_view()[i],
{
    if !state.is_unlocked() {
        return Err(VaultError::VaultLocked);
    }
    match parse_uuid(id) {
        Some(u) => get_password_by_id(state, u),
        None => Err(VaultError::NotFound),
    }
}

/// Every entry as a summary, in order; no summary carries a secret.
pub fn get_all_passwords(state: &VaultState) -> (r: Result<Vec<PasswordEntrySummary>, VaultError>)
    ensures
        !state.unlocked() ==> r == Err::<Vec<PasswordEntrySummary>, VaultError>(VaultError::VaultLocked),
        state.unlocked() ==> r is Ok,
        r is Ok ==> r->Ok_0@.len() == state.entries_view().len(),
        r is Ok ==> forall|i: int| 0 <= i < r->Ok_0@.len() ==> #[trigger] r->Ok_0@[i]@ == summary_of(state.entries_view()[i]),
{
    match &state.session {
        Session::Unlocked { key: _, salt: _, entries } => {
            let mut r: Vec<PasswordEntrySummary> = Vec::new();
            let mut i: usize = 0;
            while i < entries.len()
                invariant
                    i <= entries@.len(),
                    r@.len() == i,
                    forall|k: int| 0 <= k < i ==> #[trigger] r@[k]@ == summary_of(entries@[k]@),
                decreases entries@.len() - i,
            {
                r.push(entries[i].summary());
                i += 1;
            }
            Ok(r)
        },
        Session::Locked => Err(VaultError::VaultLocked),
    }
}

} // verus!

verus! {

/// Replaces every mutable field of the entry with the given identifier and
/// stamps it with the given time; its identifier and creation time stay.
/// The replaced secret is overwritten.
pub fn update_password_with(
    state: &mut VaultState,
    id: u128,
    now: Timestamp,
    title: String,
    username: String,
    password: String,
    url: Option<String>,
    notes: Option<String>,
    tags: Vec<String>,
    favorite: bool,
) -> (r: Result<(), VaultError>)
    ensures
        !old(state).unlocked() ==> r == Err::<(), VaultError>(VaultError::VaultLocked),
        old(state).unlocked() ==> (r is Ok <==> has_id(old(state).entries_view(), id)),
        old(state).unlocked() && r is Err ==> r->Err_0 == VaultError::NotFound,
        r is Err ==> *final(state) == *old(state),
        r is Ok ==> final(state).unlocked() && same_keys(*final(state), *old(state)),
        r is Ok ==> exists|i: int|
            is_first_index(old(state).entries_view(), id, i) && final(state).entries_view() == old(state).entries_view().update(
                i,
                entry_view(
                    id,
                    title@,
                    username@,
                    password@,
                    url.deep_view(),
                    notes.deep_view(),
                    tags.deep_view(),
                    favorite,
                    #[trigger] old(state).entries_view()[i].created_at,
                    now,
                ),
            ),
{
    match &mut state.session {
        Session::Unlocked { key: _, salt: _, entries } => {
            match find_entry(entries, id) {
                Some(i) => {
                    let ghost before = entries@;
                    let mut previous = entries.remove(i);
                    let created_at = previous.created_at;
                    previous.password.wipe();
                    let e = PasswordEntry {
                        id,
                        title,
                        username,
                        password: SecureString::new(password),
                        url,
                        notes,
                        tags,
                        favorite,
                        created_at,
                        updated_at: now,
                    };
                    entries.insert(i, e);
                    assert(entries@ =~= before.update(i as int, e));
                    assert(entries_of(entries@) =~= entries_of(before).update(i as int, e@));
                    assert(old(state).entries_view()[i as int].created_at == created_at);
                    Ok(())
                },
                None => Err(VaultError::NotFound),
            }
        },
        Session::Locked => Err(VaultError::VaultLocked),
    }
}

/// Updates the entry whose identifier `id` denotes, stamped with the
/// current time; see `update_password_with`.
pub fn update_password(
    state: &mut VaultState,
    id: &str,
    title: String,
    username: String,
    password: String,
    url: Option<String>,
    notes: Option<String>,
    tags: Vec<String>,
    favorite: bool,
) -> (r: Result<(), VaultError>)
    ensures
        !old(state).unlocked() ==> r == Err::<(), VaultError>(VaultError::VaultLocked),
        old(state).unlocked() ==> (r is Ok <==> (uuid_value(id@) is Some && has_id(old(state).entries_view(), uuid_value(id@)->0))),
        old(state).unlocked() && r is Err ==> r->Err_0 == VaultError::NotFound,
        r is Err ==> *final(state) == *old(state),
        r is Ok ==> final(state).unlocked() && same_keys(*final(state), *old(state)),
        r is Ok ==> exists|i: int, t: Timestamp|
            is_first_index(old(state).entries_view(), uuid_value(id@)->0, i) && final(state).entries_view() == old(state).entries_view().update(
                i,
                #[trigger] entry_view(
                    uuid_value(id@)->0,
                    title@,
                    username@,
                    password@,
                    url.deep_view(),
                    notes.deep_view(),
                    tags.deep_view(),
                    favorite,
                    old(state).entries_view()[i].created_at,
                    t,
                ),
            ),
{
    if !state.is_unlocked() {
        return Err(VaultError::VaultLocked);
    }
    match parse_uuid(id) {
        Some(u) => {
            let t = now();
            update_password_with(state, u, t, title, username, password, url, notes, tags, favorite)
        },
        None => Err(VaultError::NotFound),
    }
}

/// Removes the entry with the given identifier; its secret is overwritten.
pub fn delete_password_by_id(state: &mut VaultState, id: u128) -> (r: Result<(), VaultError>)
    ensures
        !old(state).unlocked() ==> r == Err::<(), VaultError>(VaultError::VaultLocked),
        old(state).unlocked() ==> (r is Ok <==> has_id(old(state).entries_view(), id)),
        old(state).unlocked() && r is Err ==> r->Err_0 == VaultError::NotFound,
        r is Err ==> *final(state) == *old(state),
        r is Ok ==> final(state).unlocked() && same_keys(*final(state), *old(state)),
        r is Ok ==> exists|i: int|
            #[trigger] is_first_index(old(state).entries_view(), id, i) && final(state).entries_view() == old(state).entries_view().remove(i),
{
    match &mut state.session {
        Session::Unlocked { key: _, salt: _, entries } => {
            match find_entry(entries, id) {
                Some(i) => {
                    let ghost before = entries@;
                    let mut gone = entries.remove(i);
                    gone.password.wipe();
                    assert(entries_of(entries@) =~= entries_of(before).remove(i as int));
                    assert(is_first_index(old(state).entries_view(), id, i as int));
                    Ok(())
                },
                None => Err(VaultError::NotFound),
            }
        },
        Session::Locked => Err(VaultError::VaultLocked),
    }
}

/// Removes the entry whose identifier `id` denotes.
pub fn delete_password(id: &str, state: &mut VaultState) -> (r: Result<(), VaultError>)
    ensures
        !old(state).unlocked() ==> r == Err::<(), VaultError>(VaultError::VaultLocked),
        old(state).unlocked() ==> (r is Ok <==> (uuid_value(id@) is Some && has_id(old(state).entries_view(), uuid_value(id@)->0))),
        old(state).unlocked() && r is Err ==> r->Err_0 == VaultError::NotFound,
        r is Err ==> *final(state) == *old(state),
        r is Ok ==> final(state).unlocked() && same_keys(*final(state), *old(state)),
        r is Ok ==> exists|i: int|
            #[trigger] is_first_index(old(state).entries_view(), uuid_value(id@)->0, i) && final(state).entries_view() == old(
                state,
            ).entries_view().remove(i),
{
    if !state.is_unlocked() {
        return Err(VaultError::VaultLocked);
    }
    match parse_uuid(id) {
        Some(u) => delete_password_by_id(state, u),
        None => Err(VaultError::NotFound),
    }
}

} // verus!
