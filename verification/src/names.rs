//! The name generator: collision-resistant, URL-safe identifiers for new
//! databases, optionally behind a caller-supplied prefix.

use vstd::prelude::*;
use vstd::string::StringExecFns;

verus! {

/// Number of random characters in a generated database name.
pub const RANDOM_NAME_LENGTH: usize = 40;

/// The URL-safe alphabet that generated names are drawn from: ASCII
/// letters, digits, `_` and `-`.
pub open spec fn url_safe_char(c: char) -> bool {
    ||| c == '_'
    ||| c == '-'
    ||| '0' <= c && c <= '9'
    ||| 'a' <= c && c <= 'z'
    ||| 'A' <= c && c <= 'Z'
}

/// A string is URL-safe when every one of its characters is.
pub open spec fn url_safe(s: Seq<char>) -> bool {
    forall|i: int| 0 <= i < s.len() ==> url_safe_char(s[i])
}

/// The executable alphabet handed to the random generator: 64 URL-safe
/// characters, so that the generator's power-of-two fast path applies.
fn url_safe_alphabet() -> (r: Vec<char>)
    ensures
        r@.len() == 64,
        forall|i: int| 0 <= i < r@.len() ==> url_safe_char(r@[i]),
{
    let mut v: Vec<char> = Vec::new();
    v.push('_');
    v.push('-');
    // The three ranges are appended by ASCII code: digits from 48 ('0'),
    // lower-case letters from 97 ('a'), upper-case letters from 65 ('A').
    let mut b: u8 = 48;
    while b <= 57
        invariant
            48 <= b <= 58,
            v@.len() == 2 + (b - 48),
            forall|i: int| 0 <= i < v@.len() ==> url_safe_char(v@[i]),
        decreases 58 - b,
    {
        v.push(b as char);
        b = b + 1;
    }
    let mut b: u8 = 97;
    while b <= 122
        invariant
            97 <= b <= 123,
            v@.len() == 12 + (b - 97),
            forall|i: int| 0 <= i < v@.len() ==> url_safe_char(v@[i]),
        decreases 123 - b,
    {
        v.push(b as char);
        b = b + 1;
    }
    let mut b: u8 = 65;
    while b <= 90
        invariant
            65 <= b <= 91,
            v@.len() == 38 + (b - 65),
            forall|i: int| 0 <= i < v@.len() ==> url_safe_char(v@[i]),
        decreases 91 - b,
    {
        v.push(b as char);
        b = b + 1;
    }
    v
}

/// Relies on `nanoid::custom`: the result is built by drawing exactly
/// `size` characters from the given alphabet and holds nothing else. With
/// 64 symbols the generator's fast path applies, which masks each random
/// byte down to an index into the alphabet. The one panic in reach is
/// nanoid's unwrap of the OS randomness handle — an environmental failure,
/// like running out of memory, that no input selects.
#[verifier::external_body]
fn random_id(size: usize, alphabet: &Vec<char>) -> (r: String)
    requires
        alphabet@.len() == 64,
    ensures
        r@.len() == size as nat,
        forall|i: int| 0 <= i < r@.len() ==> alphabet@.contains(r@[i]),
{
    nanoid::custom(size, alphabet.as_slice())
}

/// A string drawn character by character from a URL-safe alphabet is
/// URL-safe.
proof fn lemma_drawn_from_url_safe_alphabet(alphabet: Seq<char>, s: Seq<char>)
    requires
        forall|i: int| 0 <= i < alphabet.len() ==> url_safe_char(alphabet[i]),
        forall|i: int| 0 <= i < s.len() ==> alphabet.contains(s[i]),
    ensures
        url_safe(s),
{
    assert forall|i: int| 0 <= i < s.len() implies url_safe_char(s[i]) by {
        let j = choose|j: int| 0 <= j < alphabet.len() && alphabet[j] == s[i];
        assert(url_safe_char(alphabet[j]));
    }
}

/// The different ways the database to be created can be named. Exactly one
/// is active per provisioning call; configuring another overwrites it.
pub enum DatabaseNameOption {
    /// A fully generated, URL-safe name.
    Random,
    /// A caller-supplied prefix with a generated name appended to it.
    RandomWithPrefix(String),
    /// A caller-supplied exact name, taken verbatim and assumed URL-safe.
    Custom(String),
}

/// The part of a naming strategy that the caller supplied: the prefix, the
/// custom name, or nothing.
pub open spec fn option_supplied_text(strategy: DatabaseNameOption) -> Seq<char> {
    match strategy {
        DatabaseNameOption::Random => Seq::<char>::empty(),
        DatabaseNameOption::RandomWithPrefix(prefix) => prefix@,
        DatabaseNameOption::Custom(name) => name@,
    }
}

/// What a resolved database name looks like for each naming strategy: a
/// 40-character URL-safe name, the prefix followed by such a name, or the
/// custom name verbatim.
pub open spec fn name_matches_option(strategy: DatabaseNameOption, name: Seq<char>) -> bool {
    match strategy {
        DatabaseNameOption::Random => name.len() == RANDOM_NAME_LENGTH && url_safe(name),
        DatabaseNameOption::RandomWithPrefix(prefix) => {
            &&& name.len() == prefix@.len() + RANDOM_NAME_LENGTH
            &&& name.subrange(0, prefix@.len() as int) == prefix@
            &&& url_safe(name.subrange(prefix@.len() as int, name.len() as int))
        },
        DatabaseNameOption::Custom(custom) => name == custom@,
    }
}

/// Resolves a naming strategy to the name of the database to be created.
///
/// For `Custom` the input is returned verbatim, with no validation: the
/// caller is responsible for URL-safety there.
pub fn generate(strategy: DatabaseNameOption) -> (name: String)
    ensures
        name_matches_option(strategy, name@),
{
    match strategy {
        DatabaseNameOption::Random => {
            let alphabet = url_safe_alphabet();
            let name = random_id(RANDOM_NAME_LENGTH, &alphabet);
            proof {
                lemma_drawn_from_url_safe_alphabet(alphabet@, name@);
            }
            name
        },
        DatabaseNameOption::Custom(name) => name,
        DatabaseNameOption::RandomWithPrefix(prefix) => {
            let alphabet = url_safe_alphabet();
            let suffix = random_id(RANDOM_NAME_LENGTH, &alphabet);
            proof {
                lemma_drawn_from_url_safe_alphabet(alphabet@, suffix@);
            }
            let ghost prefix_view = prefix@;
            let ghost suffix_view = suffix@;
            let name = prefix.concat(suffix.as_str());
            proof {
                assert(name@.subrange(0, prefix_view.len() as int) =~= prefix_view);
                assert(name@.subrange(prefix_view.len() as int, name@.len() as int)
                    =~= suffix_view);
            }
            name
        },
    }
}

/// Law: for every naming strategy, a resolved name contains only URL-safe
/// characters whenever the caller-supplied part of the strategy does —
/// unconditionally for `Random`, whose name is generated in full.
pub proof fn lemma_generated_name_url_safe(strategy: DatabaseNameOption, name: Seq<char>)
    requires
        name_matches_option(strategy, name),
        url_safe(option_supplied_text(strategy)),
    ensures
        url_safe(name),
{
    match strategy {
        DatabaseNameOption::Random => {},
        DatabaseNameOption::RandomWithPrefix(prefix) => {
            let plen = prefix@.len() as int;
            assert forall|i: int| 0 <= i < name.len() implies url_safe_char(name[i]) by {
                if i < plen {
                    assert(name.subrange(0, plen)[i] == name[i]);
                } else {
                    assert(name.subrange(plen, name.len() as int)[i - plen] == name[i]);
                }
            }
        },
        DatabaseNameOption::Custom(custom) => {},
    }
}

} // verus!
