use crate::types::{PasswordOptions, VaultError};
use rand::Rng;
use vstd::prelude::*;

verus! {

pub open spec fn lower_full() -> Seq<char> {
    seq!['a', 'b', 'c', 'd', 'e', 'f', 'g', 'h', 'i', 'j', 'k', 'l', 'm', 'n', 'o', 'p', 'q', 'r', 's', 't', 'u', 'v', 'w', 'x', 'y', 'z']
}

/// Lowercase letters without the easily confused i, l and o.
pub open spec fn lower_clear() -> Seq<char> {
    seq!['a', 'b', 'c', 'd', 'e', 'f', 'g', 'h', 'j', 'k', 'm', 'n', 'p', 'q', 'r', 's', 't', 'u', 'v', 'w', 'x', 'y', 'z']
}

pub open spec fn upper_full() -> Seq<char> {
    seq!['A', 'B', 'C', 'D', 'E', 'F', 'G', 'H', 'I', 'J', 'K', 'L', 'M', 'N', 'O', 'P', 'Q', 'R', 'S', 'T', 'U', 'V', 'W', 'X', 'Y', 'Z']
}

/// Uppercase letters without the easily confused I, L and O.
pub open spec fn upper_clear() -> Seq<char> {
    seq!['A', 'B', 'C', 'D', 'E', 'F', 'G', 'H', 'J', 'K', 'M', 'N', 'P', 'Q', 'R', 'S', 'T', 'U', 'V', 'W', 'X', 'Y', 'Z']
}

pub open spec fn digits_full() -> Seq<char> {
    seq!['0', '1', '2', '3', '4', '5', '6', '7', '8', '9']
}

/// Digits without the easily confused 0 and 1.
pub open spec fn digits_clear() -> Seq<char> {
    seq!['2', '3', '4', '5', '6', '7', '8', '9']
}

pub open spec fn symbols() -> Seq<char> {
    seq!['!', '@', '#', '$', '%', '^', '&', '*', '(', ')', '-', '_', '=', '+', '[', ']', '{', '}', '|', ';', ':', ',', '.', '<', '>', '?']
}

pub open spec fn part(on: bool, s: Seq<char>) -> Seq<char> {
    if on { s } else { Seq::empty() }
}

/// The characters a password is drawn from: the alphabet of each enabled
/// category, in the order lowercase, uppercase, digits, symbols.
pub open spec fn pool_of(o: PasswordOptions) -> Seq<char> {
    part(o.include_lowercase, if o.exclude_ambiguous { lower_clear() } else { lower_full() })
        + part(o.include_uppercase, if o.exclude_ambiguous { upper_clear() } else { upper_full() })
        + part(o.include_numbers, if o.exclude_ambiguous { digits_clear() } else { digits_full() })
        + part(o.include_symbols, symbols())
}

/// Relies on rand's `Rng::gen_range` over `OsRng`, the operating system's
/// secure source: a uniform draw below `n`.
#[verifier::external_body]
fn random_index(n: usize) -> (r: usize)
    requires
        n > 0,
    ensures
        r < n,
{
    rand::rngs::OsRng.gen_range(0..n)
}

/// Relies on `String: FromIterator<char>`: the characters in order.
#[verifier::external_body]
fn string_of_chars(chars: &Vec<char>) -> (r: String)
    ensures
        r@ == chars@,
{
    chars.iter().collect()
}

fn alphabet(lower: bool, upper: bool, exclude_ambiguous: bool) -> (r: Vec<char>)
    ensures
        lower ==> r@ == (if exclude_ambiguous { lower_clear() } else { lower_full() }),
        !lower && upper ==> r@ == (if exclude_ambiguous { upper_clear() } else { upper_full() }),
        !lower && !upper ==> r@ == (if exclude_ambiguous { digits_clear() } else { digits_full() }),
{
    let r = if lower {
        if exclude_ambiguous {
            vec!['a', 'b', 'c', 'd', 'e', 'f', 'g', 'h', 'j', 'k', 'm', 'n', 'p', 'q', 'r', 's', 't', 'u', 'v', 'w', 'x', 'y', 'z']
        } else {
            vec!['a', 'b', 'c', 'd', 'e', 'f', 'g', 'h', 'i', 'j', 'k', 'l', 'm', 'n', 'o', 'p', 'q', 'r', 's', 't', 'u', 'v', 'w', 'x', 'y', 'z']
        }
    } else if upper {
        if exclude_ambiguous {
            vec!['A', 'B', 'C', 'D', 'E', 'F', 'G', 'H', 'J', 'K', 'M', 'N', 'P', 'Q', 'R', 'S', 'T', 'U', 'V', 'W', 'X', 'Y', 'Z']
        } else {
            vec!['A', 'B', 'C', 'D', 'E', 'F', 'G', 'H', 'I', 'J', 'K', 'L', 'M', 'N', 'O', 'P', 'Q', 'R', 'S', 'T', 'U', 'V', 'W', 'X', 'Y', 'Z']
        }
    } else if exclude_ambiguous {
        vec!['2', '3', '4', '5', '6', '7', '8', '9']
    } else {
        vec!['0', '1', '2', '3', '4', '5', '6', '7', '8', '9']
    };
    assert(lower && exclude_ambiguous ==> r@ =~= lower_clear());
    assert(lower && !exclude_ambiguous ==> r@ =~= lower_full());
    assert(!lower && upper && exclude_ambiguous ==> r@ =~= upper_clear());
    assert(!lower && upper && !exclude_ambiguous ==> r@ =~= upper_full());
    assert(!lower && !upper && exclude_ambiguous ==> r@ =~= digits_clear());
    assert(!lower && !upper && !exclude_ambiguous ==> r@ =~= digits_full());
    r
}

/// The pool that the options configure.
pub fn build_charset(options: &PasswordOptions) -> (r: Vec<char>)
    ensures
        r@ == pool_of(*options),
{
    let mut pool: Vec<char> = Vec::new();
    if options.include_lowercase {
        let mut a = alphabet(true, false, options.exclude_ambiguous);
        pool.append(&mut a);
    }
    if options.include_uppercase {
        let mut a = alphabet(false, true, options.exclude_ambiguous);
        pool.append(&mut a);
    }
    if options.include_numbers {
        let mut a = alphabet(false, false, options.exclude_ambiguous);
        pool.append(&mut a);
    }
    if options.include_symbols {
        let mut a = vec!['!', '@', '#', '$', '%', '^', '&', '*', '(', ')', '-', '_', '=', '+', '[', ']', '{', '}', '|', ';', ':', ',', '.', '<', '>', '?'];
        assert(a@ =~= symbols());
        pool.append(&mut a);
    }
    assert(pool@ =~= pool_of(*options));
    pool
}

/// The password that picks, for each index in turn, the pool character at
/// that position.
pub fn password_from_indices(pool: &Vec<char>, indices: &Vec<usize>) -> (r: String)
    requires
        forall|i: int| 0 <= i < indices@.len() ==> #[trigger] indices@[i] < pool@.len(),
    ensures
        r@ == indices@.map_values(|k: usize| pool@[k as int]),
{
    let mut chars: Vec<char> = Vec::new();
    let mut i: usize = 0;
    while i < indices.len()
        invariant
            i <= indices@.len(),
            forall|j: int| 0 <= j < indices@.len() ==> #[trigger] indices@[j] < pool@.len(),
            chars@ == indices@.take(i as int).map_values(|k: usize| pool@[k as int]),
        decreases indices@.len() - i,
    {
        chars.push(pool[indices[i]]);
        i += 1;
        assert(chars@ =~= indices@.take(i as int).map_values(|k: usize| pool@[k as int]));
    }
    assert(indices@.take(i as int) =~= indices@);
    string_of_chars(&chars)
}

/// A password of the configured length whose characters are drawn
/// uniformly, with replacement, from the configured pool by a secure random
/// source. Fails when no category is enabled.
pub fn generate_password(options: &PasswordOptions) -> (r: Result<String, VaultError>)
    ensures
        r is Err <==> pool_of(*options).len() == 0,
        r is Err ==> r->Err_0 == VaultError::EmptyCharset,
        r is Ok ==> r->Ok_0@.len() == options.length,
        r is Ok ==> forall|i: int| 0 <= i < r->Ok_0@.len() ==> pool_of(*options).contains(#[trigger] r->Ok_0@[i]),
{
    let pool = build_charset(options);
    if pool.len() == 0 {
        return Err(VaultError::EmptyCharset);
    }
    let mut indices: Vec<usize> = Vec::new();
    let mut n: u32 = 0;
    while n < options.length
        invariant
            n <= options.length,
            pool@.len() > 0,
            indices@.len() == n,
            forall|j: int| 0 <= j < indices@.len() ==> #[trigger] indices@[j] < pool@.len(),
        decreases options.length - n,
    {
        indices.push(random_index(pool.len()));
        n += 1;
    }
    let password = password_from_indices(&pool, &indices);
    assert forall|i: int| 0 <= i < password@.len() implies pool_of(*options).contains(#[trigger] password@[i]) by {
        assert(pool@[indices@[i] as int] == password@[i]);
    }
    Ok(password)
}

} // verus!
