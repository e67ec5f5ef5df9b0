//! Generation of short, pronounceable random paste identifiers: a key
//! alternates vowels and consonants, starting from a randomly chosen
//! class, with each character drawn from a fixed lower-case alphabet.

use vstd::prelude::*;

use rand::prelude::SliceRandom;
use rand::Rng;

verus! {

/// The five vowels a key may contain.
pub open spec fn is_vowel(c: char) -> bool {
    c == 'a' || c == 'e' || c == 'i' || c == 'o' || c == 'u'
}

/// The twenty-one consonants a key may contain.
pub open spec fn is_consonant(c: char) -> bool {
    ||| c == 'b'
    ||| c == 'c'
    ||| c == 'd'
    ||| c == 'f'
    ||| c == 'g'
    ||| c == 'h'
    ||| c == 'j'
    ||| c == 'k'
    ||| c == 'l'
    ||| c == 'm'
    ||| c == 'n'
    ||| c == 'p'
    ||| c == 'q'
    ||| c == 'r'
    ||| c == 's'
    ||| c == 't'
    ||| c == 'v'
    ||| c == 'w'
    ||| c == 'x'
    ||| c == 'y'
    ||| c == 'z'
}

/// The characters of `s` alternate between vowels and consonants; the
/// character class of even positions is a vowel iff `vowel_first`.
pub open spec fn key_alternates(s: Seq<char>, vowel_first: bool) -> bool {
    forall|i: int|
        0 <= i < s.len() ==> (if (i % 2 == 0) == vowel_first {
            is_vowel(#[trigger] s[i])
        } else {
            is_consonant(s[i])
        })
}

/// A well-formed generated key of the given length: every character is
/// a vowel or a consonant, and the classes alternate at every position,
/// starting from either class.
pub open spec fn valid_key(s: Seq<char>, length: nat) -> bool {
    s.len() == length && (key_alternates(s, true) || key_alternates(s, false))
}

/// Relies on rand::seq::SliceRandom::choose: on a non-empty slice it
/// returns Some of a uniformly chosen element, so the result is always
/// one of the options.  Which one comes back is random.
#[verifier::external_body]
fn choose_char(options: &Vec<char>) -> (r: char)
    requires
        options@.len() > 0,
    ensures
        options@.contains(r),
{
    let mut rng = rand::thread_rng();
    *options.as_slice().choose(&mut rng).unwrap()
}

/// Relies on rand::Rng::gen::<bool>: draws a random boolean.  Nothing
/// can be promised of the outcome.
#[verifier::external_body]
fn random_bool() -> bool {
    rand::thread_rng().gen()
}

/// Relies on std's FromIterator for String: collecting characters
/// yields the string of exactly those characters.
#[verifier::external_body]
fn string_from_chars(chars: Vec<char>) -> (s: String)
    ensures
        s@ == chars@,
{
    chars.into_iter().collect()
}

/// The vowel alphabet, as a vector whose contents are known.
fn vowels() -> (v: Vec<char>)
    ensures
        v@.len() == 5,
        forall|i: int| 0 <= i < v@.len() ==> is_vowel(#[trigger] v@[i]),
{
    let v: Vec<char> = vec!['a', 'e', 'i', 'o', 'u'];
    v
}

/// The consonant alphabet, as a vector whose contents are known.
fn consonants() -> (v: Vec<char>)
    ensures
        v@.len() == 21,
        forall|i: int| 0 <= i < v@.len() ==> is_consonant(#[trigger] v@[i]),
{
    let v: Vec<char> = vec![
        'b', 'c', 'd', 'f', 'g', 'h', 'j', 'k', 'l', 'm', 'n', 'p', 'q', 'r', 's', 't', 'v', 'w',
        'x', 'y', 'z',
    ];
    v
}

/// Produce a random key of exactly `length` characters, alternating
/// between vowels and consonants; whether a vowel or a consonant comes
/// first is decided once per call, at random.  No uniqueness check is
/// made here: a caller that stores the key learns of a collision from
/// the store's duplicate-identifier error.
pub fn generate_key(length: usize) -> (r: String)
    ensures
        valid_key(r@, length as nat),
{
    let vowel_first = random_bool();
    let vs = vowels();
    let cs = consonants();
    let mut chars: Vec<char> = Vec::new();
    for i in 0..length
        invariant
            chars@.len() == i,
            vs@.len() == 5,
            cs@.len() == 21,
            forall|k: int| 0 <= k < vs@.len() ==> is_vowel(#[trigger] vs@[k]),
            forall|k: int| 0 <= k < cs@.len() ==> is_consonant(#[trigger] cs@[k]),
            key_alternates(chars@, vowel_first),
    {
        let c = if (i % 2 == 0) == vowel_first {
            choose_char(&vs)
        } else {
            choose_char(&cs)
        };
        chars.push(c);
    }
    string_from_chars(chars)
}

} // verus!
