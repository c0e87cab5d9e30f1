use zims_vault::crypto::{decrypt, derive_key};
use zims_vault::types::{PasswordEntry, SecureString, Timestamp, VaultError};
use zims_vault::vault::{
    create_password, create_password_with, delete_password, frame_vault_file, get_all_passwords, get_password,
    get_password_by_id, initialize_vault, initialize_vault_with_salt, is_vault_unlocked, lock_vault,
    open_vault_file, parse_vault_file, seal_vault, unlock_vault, update_password, vault_data, VaultData,
    VaultState,
};

fn unlocked_state() -> VaultState {
    let mut st = VaultState::new();
    initialize_vault_with_salt(&mut st, false, "pw1", [4u8; 32]).unwrap();
    st
}

#[test]
fn fresh_install_initializes_and_unlocks() {
    let mut st = VaultState::new();
    assert!(!is_vault_unlocked(&st));
    assert_eq!(initialize_vault(&mut st, false, "pw1"), Ok(()));
    assert!(is_vault_unlocked(&st));
    assert_eq!(initialize_vault(&mut st, true, "pw1"), Err(VaultError::AlreadyExists));
    assert!(is_vault_unlocked(&st));
}

#[test]
fn initialize_uses_the_derived_key() {
    let st = unlocked_state();
    let fp = st.key_fingerprint().unwrap();
    let key = derive_key("pw1", &[4u8; 32]).unwrap();
    assert_eq!(fp, hex::encode(key));
    assert_eq!(fp.len(), 64);
}

#[test]
fn crud_fails_when_locked() {
    let mut st = VaultState::new();
    assert_eq!(get_all_passwords(&st).err(), Some(VaultError::VaultLocked));
    assert_eq!(get_password("00000000-0000-0000-0000-000000000000", &st).err(), Some(VaultError::VaultLocked));
    assert_eq!(
        create_password(&mut st, "t".to_string(), "u".to_string(), "p".to_string(), None, None, vec![]),
        Err(VaultError::VaultLocked)
    );
    assert_eq!(
        update_password(&mut st, "x", "t".to_string(), "u".to_string(), "p".to_string(), None, None, vec![], false),
        Err(VaultError::VaultLocked)
    );
    assert_eq!(delete_password("x", &mut st), Err(VaultError::VaultLocked));
    assert_eq!(st.key_fingerprint(), None);
}

#[test]
fn create_then_get_returns_the_fields() {
    let mut st = unlocked_state();
    let id = create_password(
        &mut st,
        "Mail".to_string(),
        "me@example.com".to_string(),
        "hunter2".to_string(),
        Some("https://mail.example.com".to_string()),
        Some("work".to_string()),
        vec!["a".to_string(), "b".to_string()],
    )
    .unwrap();
    assert_eq!(id.len(), 36);
    let e = get_password(&id, &st).unwrap();
    assert_eq!(e.title, "Mail");
    assert_eq!(e.username, "me@example.com");
    assert_eq!(e.password.as_str(), "hunter2");
    assert_eq!(e.url.as_deref(), Some("https://mail.example.com"));
    assert_eq!(e.notes.as_deref(), Some("work"));
    assert_eq!(e.tags, vec!["a".to_string(), "b".to_string()]);
    assert!(!e.favorite);
    assert_eq!(e.created_at, e.updated_at);
    let all = get_all_passwords(&st).unwrap();
    assert_eq!(all.len(), 1);
    assert_eq!(all[0].id, e.id);
    assert_eq!(all[0].title, "Mail");
    let upper = id.to_uppercase();
    assert_eq!(get_password(&upper, &st).unwrap().id, e.id);
}

#[test]
fn get_unknown_or_malformed_id_is_not_found() {
    let st = unlocked_state();
    assert_eq!(get_password("not-a-uuid", &st).err(), Some(VaultError::NotFound));
    assert_eq!(get_password_by_id(&st, 42).err(), Some(VaultError::NotFound));
}

#[test]
fn update_replaces_fields_and_keeps_creation_time() {
    let mut st = unlocked_state();
    let t0 = Timestamp { secs: 100, nanos: 0 };
    create_password_with(&mut st, 7, t0, "a".to_string(), "b".to_string(), "c".to_string(), None, None, vec![]).unwrap();
    let id = "00000000-0000-0000-0000-000000000007";
    update_password(&mut st, id, "A".to_string(), "B".to_string(), "C".to_string(), None, Some("n".to_string()), vec!["t".to_string()], true)
        .unwrap();
    let e = get_password_by_id(&st, 7).unwrap();
    assert_eq!(e.title, "A");
    assert_eq!(e.password.as_str(), "C");
    assert_eq!(e.notes.as_deref(), Some("n"));
    assert!(e.favorite);
    assert_eq!(e.created_at, t0);
    assert_ne!(e.updated_at, t0);
    assert_eq!(
        update_password(&mut st, "00000000-0000-0000-0000-000000000008", "A".to_string(), "B".to_string(), "C".to_string(), None, None, vec![], true),
        Err(VaultError::NotFound)
    );
}

#[test]
fn delete_removes_the_entry() {
    let mut st = unlocked_state();
    let t0 = Timestamp { secs: 1, nanos: 2 };
    create_password_with(&mut st, 1, t0, "a".to_string(), "b".to_string(), "c".to_string(), None, None, vec![]).unwrap();
    create_password_with(&mut st, 2, t0, "d".to_string(), "e".to_string(), "f".to_string(), None, None, vec![]).unwrap();
    assert_eq!(delete_password("00000000-0000-0000-0000-000000000001", &mut st), Ok(()));
    let all = get_all_passwords(&st).unwrap();
    assert_eq!(all.len(), 1);
    assert_eq!(all[0].id, 2);
    assert_eq!(delete_password("00000000-0000-0000-0000-000000000001", &mut st), Err(VaultError::NotFound));
}

#[test]
fn lock_clears_the_session() {
    let mut st = unlocked_state();
    create_password(&mut st, "a".to_string(), "b".to_string(), "c".to_string(), None, None, vec![]).unwrap();
    lock_vault(&mut st);
    assert!(!is_vault_unlocked(&st));
    assert_eq!(get_all_passwords(&st).err(), Some(VaultError::VaultLocked));
    lock_vault(&mut st);
    assert!(!st.is_unlocked());
}

#[test]
fn frame_and_parse_round_trip() {
    let file = frame_vault_file(&[9u8; 32], &[1, 2, 3]);
    assert_eq!(file.len(), 36 + 3);
    assert_eq!(&file[..4], &[1, 0, 0, 0]);
    let h = parse_vault_file(&file).unwrap();
    assert_eq!(h.version, 1);
    assert_eq!(h.salt, [9u8; 32]);
    assert_eq!(h.body, vec![1, 2, 3]);
    assert_eq!(parse_vault_file(&file[..35]).err(), Some(VaultError::CorruptVault));
    let mut other = file.clone();
    other[0] = 2;
    assert_eq!(parse_vault_file(&other).err(), Some(VaultError::CorruptVault));
}

#[test]
fn sealed_vault_reopens_and_unlocks() {
    let mut st = unlocked_state();
    create_password(&mut st, "a".to_string(), "b".to_string(), "c".to_string(), None, None, vec![]).unwrap();
    let content = b"{\"version\":1}".to_vec();
    let file = seal_vault(&st, &content).unwrap();
    assert_eq!(&file[4..36], &[4u8; 32]);
    let key = derive_key("pw1", &[4u8; 32]).unwrap();
    assert_eq!(decrypt(&file[36..], &key).unwrap(), content);

    assert_eq!(open_vault_file(&file, "wrong").err(), Some(VaultError::InvalidCredentials));
    let opened = open_vault_file(&file, "pw1").unwrap();
    assert_eq!(opened.plaintext, content);
    let data = vault_data(&st).unwrap();
    let mut fresh = VaultState::new();
    assert_eq!(unlock_vault(&mut fresh, opened, data), Ok(true));
    assert!(fresh.is_unlocked());
    assert_eq!(get_all_passwords(&fresh).unwrap().len(), 1);
}

#[test]
fn unlock_refuses_content_with_another_salt() {
    let st = unlocked_state();
    let file = seal_vault(&st, b"x").unwrap();
    let opened = open_vault_file(&file, "pw1").unwrap();
    let data = VaultData { version: 1, salt: [5u8; 32], entries: Vec::<PasswordEntry>::new() };
    let mut fresh = VaultState::new();
    assert_eq!(unlock_vault(&mut fresh, opened, data).err(), Some(VaultError::InvalidCredentials));
    assert!(!fresh.is_unlocked());
}

#[test]
fn seal_requires_an_open_vault() {
    let st = VaultState::new();
    assert_eq!(seal_vault(&st, b"x").err(), Some(VaultError::VaultLocked));
    assert_eq!(vault_data(&st).err(), Some(VaultError::VaultLocked));
}

#[test]
fn secure_string_wipes() {
    let mut s = SecureString::new("secret".to_string());
    assert_eq!(s.as_str(), "secret");
    assert_eq!(s.duplicate().into_inner(), "secret");
    s.wipe();
    assert_eq!(s.as_str(), "");
    let t: SecureString = "x".to_string().into();
    assert_eq!(t.into_inner(), "x");
}
