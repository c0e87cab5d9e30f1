use zims_vault::generator::{build_charset, generate_password, password_from_indices};
use zims_vault::types::{PasswordOptions, VaultError};

fn options(length: u32, lower: bool, upper: bool, numbers: bool, symbols: bool, exclude: bool) -> PasswordOptions {
    PasswordOptions {
        length,
        include_uppercase: upper,
        include_lowercase: lower,
        include_numbers: numbers,
        include_symbols: symbols,
        exclude_ambiguous: exclude,
    }
}

#[test]
fn no_category_is_an_error() {
    let o = options(10, false, false, false, false, true);
    assert_eq!(generate_password(&o), Err(VaultError::EmptyCharset));
}

#[test]
fn zero_length_gives_empty_password() {
    let o = options(0, true, true, true, true, false);
    assert_eq!(generate_password(&o).unwrap(), "");
}

#[test]
fn generated_characters_come_from_the_pool() {
    let o = options(200, false, true, true, false, true);
    let pool = build_charset(&o);
    let p = generate_password(&o).unwrap();
    assert_eq!(p.chars().count(), 200);
    assert!(p.chars().all(|c| pool.contains(&c)));
}

#[test]
fn pool_sizes() {
    assert_eq!(build_charset(&options(1, true, false, false, false, false)).len(), 26);
    assert_eq!(build_charset(&options(1, true, false, false, false, true)).len(), 23);
    assert_eq!(build_charset(&options(1, false, true, false, false, true)).len(), 23);
    assert_eq!(build_charset(&options(1, false, false, true, false, true)).len(), 8);
    assert_eq!(build_charset(&options(1, false, false, true, false, false)).len(), 10);
    assert_eq!(build_charset(&options(1, false, false, false, true, true)).len(), 26);
    assert_eq!(build_charset(&options(1, true, true, true, true, false)).len(), 88);
}

#[test]
fn ambiguous_characters_are_left_out() {
    let pool = build_charset(&options(1, true, true, true, false, true));
    for c in ['i', 'l', 'o', 'I', 'L', 'O', '0', '1'] {
        assert!(!pool.contains(&c));
    }
}

#[test]
fn default_options() {
    let o = PasswordOptions::default();
    assert_eq!(o.length, 20);
    assert!(o.exclude_ambiguous && o.include_symbols);
    assert_eq!(generate_password(&o).unwrap().chars().count(), 20);
}

#[test]
fn indices_pick_pool_characters() {
    let pool = vec!['x', 'y', 'z'];
    assert_eq!(password_from_indices(&pool, &vec![2, 0, 0, 1]), "zxxy");
}
