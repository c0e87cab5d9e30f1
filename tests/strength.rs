use zims_vault::strength::{check_password_strength, entropy_score, Hint};

#[test]
fn entropy_exactly_28_scores_one() {
    // 16^7 = 2^28
    assert_eq!(entropy_score(16, 7), 1);
    assert_eq!(entropy_score(16, 6), 0);
}

#[test]
fn entropy_exactly_36_scores_two() {
    assert_eq!(entropy_score(16, 9), 2);
    assert_eq!(entropy_score(64, 6), 2);
}

#[test]
fn entropy_exactly_60_scores_three() {
    assert_eq!(entropy_score(32, 12), 3);
    assert_eq!(entropy_score(16, 14), 2);
}

#[test]
fn entropy_exactly_128_scores_four() {
    assert_eq!(entropy_score(16, 32), 4);
    assert_eq!(entropy_score(16, 31), 3);
    assert_eq!(entropy_score(94, 1000), 4);
}

#[test]
fn empty_alphabet_scores_zero() {
    assert_eq!(entropy_score(0, 100), 0);
}

#[test]
fn eight_lowercase_letters_score_two() {
    let s = check_password_strength("abcdefgh");
    assert_eq!(s.charset_size, 26);
    assert_eq!(s.length, 8);
    assert_eq!(s.score, 2);
    assert_eq!(
        s.feedback,
        vec![Hint::AddUppercase, Hint::AddNumbers, Hint::AddSymbols]
    );
}

#[test]
fn twelve_symbols_score_three() {
    let s = check_password_strength("!!!!!!!!!!!!");
    assert_eq!(s.charset_size, 32);
    assert_eq!(s.score, 3);
}

#[test]
fn empty_password_feedback() {
    let s = check_password_strength("");
    assert_eq!(s.charset_size, 0);
    assert_eq!(s.score, 0);
    assert_eq!(
        s.feedback,
        vec![
            Hint::UseEightCharacters,
            Hint::AddUppercase,
            Hint::AddLowercase,
            Hint::AddNumbers,
            Hint::AddSymbols
        ]
    );
}

#[test]
fn all_classes_short_password_suggests_twelve() {
    let s = check_password_strength("aB3$efgh");
    assert_eq!(s.charset_size, 94);
    assert_eq!(s.feedback, vec![Hint::ConsiderTwelveCharacters]);
    assert_eq!(s.feedback[0].text(), "Consider using 12+ characters for better security");
}

#[test]
fn all_classes_long_password_has_no_feedback() {
    let s = check_password_strength("aB3$efghijkl");
    assert!(s.feedback.is_empty());
    assert_eq!(s.score, 3);
}

#[test]
fn length_counts_bytes() {
    let s = check_password_strength("é");
    assert_eq!(s.length, 2);
}
