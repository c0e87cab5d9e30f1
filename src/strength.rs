use vstd::arithmetic::power::pow;
use vstd::prelude::*;
use vstd::string::StringSliceAdditionalSpecFns;

verus! {

/// Whether `char::is_lowercase` holds of a character.
pub uninterp spec fn lowercase_char(c: char) -> bool;

/// Whether `char::is_uppercase` holds of a character.
pub uninterp spec fn uppercase_char(c: char) -> bool;

/// Whether `char::is_numeric` holds of a character.
pub uninterp spec fn numeric_char(c: char) -> bool;

/// Whether `char::is_alphanumeric` holds of a character.
pub uninterp spec fn alphanumeric_char(c: char) -> bool;

/// Relies on `char::is_lowercase`, the Unicode Lowercase property.
#[verifier::external_body]
fn is_lower(c: char) -> (r: bool)
    ensures
        r == lowercase_char(c),
{
    c.is_lowercase()
}

/// Relies on `char::is_uppercase`, the Unicode Uppercase property.
#[verifier::external_body]
fn is_upper(c: char) -> (r: bool)
    ensures
        r == uppercase_char(c),
{
    c.is_uppercase()
}

/// Relies on `char::is_numeric`, the Unicode numeric categories.
#[verifier::external_body]
fn is_number(c: char) -> (r: bool)
    ensures
        r == numeric_char(c),
{
    c.is_numeric()
}

/// Relies on `char::is_alphanumeric`: alphabetic or numeric.
#[verifier::external_body]
fn is_alnum(c: char) -> (r: bool)
    ensures
        r == alphanumeric_char(c),
{
    c.is_alphanumeric()
}

/// One suggestion of the strength check.
#[derive(Clone, Copy, Debug, PartialEq, Eq, Structural)]
pub enum Hint {
    UseEightCharacters,
    AddUppercase,
    AddLowercase,
    AddNumbers,
    AddSymbols,
    ConsiderTwelveCharacters,
}

/// The text of each suggestion.
pub open spec fn hint_text(h: Hint) -> Seq<char> {
    match h {
        Hint::UseEightCharacters => "Use at least 8 characters"@,
        Hint::AddUppercase => "Add uppercase letters"@,
        Hint::AddLowercase => "Add lowercase letters"@,
        Hint::AddNumbers => "Add numbers"@,
        Hint::AddSymbols => "Add symbols"@,
        Hint::ConsiderTwelveCharacters => "Consider using 12+ characters for better security"@,
    }
}

impl Hint {
    /// The suggestion as shown to a user.
    pub fn text(&self) -> (r: String)
        ensures
            r@ == hint_text(*self),
    {
        let m = match self {
            Hint::UseEightCharacters => "Use at least 8 characters",
            Hint::AddUppercase => "Add uppercase letters",
            Hint::AddLowercase => "Add lowercase letters",
            Hint::AddNumbers => "Add numbers",
            Hint::AddSymbols => "Add symbols",
            Hint::ConsiderTwelveCharacters => "Consider using 12+ characters for better security",
        };
        String::from_str(m)
    }
}

/// The outcome of a strength check. The entropy estimate in bits is
/// `length * log2(charset_size)`, or zero when `charset_size` is zero.
pub struct StrengthScore {
    pub score: u8,
    pub length: usize,
    pub charset_size: u32,
    pub feedback: Vec<Hint>,
}

pub open spec fn has_lower(s: Seq<char>) -> bool {
    exists|i: int| 0 <= i < s.len() && lowercase_char(#[trigger] s[i])
}

pub open spec fn has_upper(s: Seq<char>) -> bool {
    exists|i: int| 0 <= i < s.len() && uppercase_char(#[trigger] s[i])
}

pub open spec fn has_number(s: Seq<char>) -> bool {
    exists|i: int| 0 <= i < s.len() && numeric_char(#[trigger] s[i])
}

pub open spec fn has_symbol(s: Seq<char>) -> bool {
    exists|i: int| 0 <= i < s.len() && !alphanumeric_char(#[trigger] s[i])
}

/// The estimated alphabet: a fixed size for each class present.
pub open spec fn charset_size_of(lower: bool, upper: bool, number: bool, symbol: bool) -> int {
    (if lower { 26int } else { 0 }) + (if upper { 26int } else { 0 }) + (if number { 10int } else { 0 }) + (if symbol { 32int } else { 0 })
}

/// Whether the entropy `length * log2(size)` is at least `bits`; an empty
/// alphabet has entropy zero.
pub open spec fn entropy_at_least(size: int, length: nat, bits: nat) -> bool {
    size > 0 && pow(size, length) >= pow(2, bits)
}

/// The score bucket: below 28 bits 0, below 36 bits 1, below 60 bits 2,
/// below 128 bits 3, else 4.
pub open spec fn score_of(size: int, length: nat) -> u8 {
    if !entropy_at_least(size, length, 28) {
        0
    } else if !entropy_at_least(size, length, 36) {
        1
    } else if !entropy_at_least(size, length, 60) {
        2
    } else if !entropy_at_least(size, length, 128) {
        3
    } else {
        4
    }
}

pub open spec fn hint_if(on: bool, h: Hint) -> Seq<Hint> {
    if on { seq![h] } else { Seq::empty() }
}

/// The suggestions, in order: length first, then each missing class; when
/// none applies to a password shorter than twelve, the advice to use twelve.
pub open spec fn feedback_of(length: nat, lower: bool, upper: bool, number: bool, symbol: bool) -> Seq<Hint> {
    let f = hint_if(length < 8, Hint::UseEightCharacters) + hint_if(!upper, Hint::AddUppercase) + hint_if(
        !lower,
        Hint::AddLowercase,
    ) + hint_if(!number, Hint::AddNumbers) + hint_if(!symbol, Hint::AddSymbols);
    if f.len() == 0 && length < 12 {
        seq![Hint::ConsiderTwelveCharacters]
    } else {
        f
    }
}

/// `size` raised to `length`, or `None` when that exceeds `u128::MAX`.
fn capped_power(size: u128, length: usize) -> (r: Option<u128>)
    requires
        size > 0,
    ensures
        r is Some ==> r->0 == pow(size as int, length as nat),
        r is None ==> pow(size as int, length as nat) > u128::MAX,
{
    let mut p: u128 = 1;
    let mut i: usize = 0;
    proof {
        vstd::arithmetic::power::lemma_pow0(size as int);
    }
    while i < length
        invariant
            size > 0,
            i <= length,
            p == pow(size as int, i as nat),
        decreases length - i,
    {
        assert(pow(size as int, (i + 1) as nat) == p * size) by {
            reveal(pow);
            vstd::arithmetic::mul::lemma_mul_is_commutative(p as int, size as int);
        }
        match p.checked_mul(size) {
            Some(q) => {
                p = q;
                i += 1;
            },
            None => {
                assert(pow(size as int, (i + 1) as nat) > u128::MAX);
                proof {
                    vstd::arithmetic::power::lemma_pow_increases(size as nat, (i + 1) as nat, length as nat);
                }
                return None;
            },
        }
    }
    Some(p)
}

/// The score for an alphabet size and a length, computed exactly: the
/// entropy is compared with each bound as `size^length` against a power
/// of two.
pub fn entropy_score(size: u32, length: usize) -> (r: u8)
    ensures
        r == score_of(size as int, length as nat),
{
    if size == 0 {
        return 0;
    }
    proof {
        vstd::arithmetic::power2::lemma2_to64();
        vstd::arithmetic::power2::lemma2_to64_rest();
        vstd::arithmetic::power2::lemma_pow2(28);
        vstd::arithmetic::power2::lemma_pow2(36);
        vstd::arithmetic::power2::lemma_pow2(60);
        vstd::arithmetic::power2::lemma_pow2(64);
    }
    let p = capped_power(size as u128, length);
    assert(pow(2, 128) == 0x1_0000_0000_0000_0000_0000_0000_0000_0000) by {
        vstd::arithmetic::power::lemma_pow_adds(2, 64, 64);
    }
    assert(pow(2, 28) == 0x1000_0000);
    assert(pow(2, 36) == 0x10_0000_0000);
    assert(pow(2, 60) == 0x1000_0000_0000_0000);
    match p {
        None => 4,
        Some(v) => {
            if v < 0x1000_0000 {
                0
            } else if v < 0x10_0000_0000 {
                1
            } else if v < 0x1000_0000_0000_0000 {
                2
            } else {
                3
            }
        },
    }
}

/// Rates a password: which classes it holds, the alphabet size they
/// suggest, the score bucket of the entropy for its length in bytes, and
/// suggestions.
pub fn check_password_strength(password: &str) -> (r: StrengthScore)
    ensures
        r.length == password.spec_bytes().len() as usize,
        r.charset_size == charset_size_of(has_lower(password@), has_upper(password@), has_number(password@), has_symbol(password@)),
        r.score == score_of(r.charset_size as int, r.length as nat),
        r.feedback@ == feedback_of(r.length as nat, has_lower(password@), has_upper(password@), has_number(password@), has_symbol(password@)),
{
    let n = password.unicode_len();
    let mut lower = false;
    let mut upper = false;
    let mut number = false;
    let mut symbol = false;
    let mut i: usize = 0;
    while i < n
        invariant
            i <= n,
            n == password@.len(),
            lower == exists|j: int| 0 <= j < i && lowercase_char(#[trigger] password@[j]),
            upper == exists|j: int| 0 <= j < i && uppercase_char(#[trigger] password@[j]),
            number == exists|j: int| 0 <= j < i && numeric_char(#[trigger] password@[j]),
            symbol == exists|j: int| 0 <= j < i && !alphanumeric_char(#[trigger] password@[j]),
        decreases n - i,
    {
        let c = password.get_char(i);
        lower = lower || is_lower(c);
        upper = upper || is_upper(c);
        number = number || is_number(c);
        symbol = symbol || !is_alnum(c);
        i += 1;
    }
    let mut size: u32 = 0;
    if lower {
        size = size + 26;
    }
    if upper {
        size = size + 26;
    }
    if number {
        size = size + 10;
    }
    if symbol {
        size = size + 32;
    }
    let length = password.len();
    let score = entropy_score(size, length);
    let mut feedback: Vec<Hint> = Vec::new();
    if length < 8 {
        feedback.push(Hint::UseEightCharacters);
    }
    if !upper {
        feedback.push(Hint::AddUppercase);
    }
    if !lower {
        feedback.push(Hint::AddLowercase);
    }
    if !number {
        feedback.push(Hint::AddNumbers);
    }
    if !symbol {
        feedback.push(Hint::AddSymbols);
    }
    if length < 12 && feedback.len() == 0 {
        feedback.push(Hint::ConsiderTwelveCharacters);
    }
    assert(feedback@ =~= feedback_of(length as nat, lower, upper, number, symbol));
    StrengthScore { score, length, charset_size: size, feedback }
}

} // verus!
