//! Names of temporary directories: an optional prefix and a random suffix.

use rand::Rng;
use rand::ThreadRng;
use vstd::prelude::*;
use vstd::string::*;

verus! {

/// How many random characters a directory name ends with.
pub const NUM_RAND_CHARS: usize = 12;

/// The character that separates a prefix from the random suffix.
pub const SEPARATOR: char = '.';

/// Whether `c` is one of `A`-`Z`, `a`-`z` or `0`-`9`.
pub open spec fn is_alphanumeric(c: char) -> bool {
    ||| 'A' <= c <= 'Z'
    ||| 'a' <= c <= 'z'
    ||| '0' <= c <= '9'
}

/// Whether `s` can end a directory name: `NUM_RAND_CHARS` characters, each of
/// them alphanumeric.
pub open spec fn is_suffix(s: Seq<char>) -> bool {
    &&& s.len() == NUM_RAND_CHARS
    &&& forall|i: int| 0 <= i < s.len() ==> is_alphanumeric(#[trigger] s[i])
}

/// The last component of a directory's path: `prefix`, a separator and
/// `suffix`, or `suffix` alone where there is no prefix, so that an empty
/// prefix never yields a name that starts with the separator.
pub open spec fn leaf(prefix: Seq<char>, suffix: Seq<char>) -> Seq<char> {
    if prefix.len() > 0 {
        prefix + seq![SEPARATOR] + suffix
    } else {
        suffix
    }
}

/// Composes the last component of a directory's path from a prefix and a
/// suffix.
pub fn leaf_name(prefix: &str, suffix: &str) -> (name: String)
    ensures
        name@ == leaf(prefix@, suffix@),
{
    if prefix.is_empty() {
        suffix.to_owned()
    } else {
        let mut name = prefix.to_owned();
        proof {
            reveal_strlit(".");
        }
        name.append(".");
        name.append(suffix);
        name
    }
}

/// `rand::ThreadRng`, the handle to the random number generator of the
/// current thread. Nothing is known of what is inside.
#[verifier::external_type_specification]
#[verifier::external_body]
pub struct ExThreadRng(ThreadRng);

/// `rand::thread_rng` hands out the generator of the current thread. Nothing
/// is claimed of it. It gives up, by a panic, on a system that offers no source
/// of entropy at all.
pub assume_specification[ rand::thread_rng ]() -> (rng: ThreadRng)
;

/// `String::push` appends one character to the end of the string.
pub assume_specification[ String::push ](s: &mut String, ch: char)
    ensures
        final(s)@ == old(s)@.push(ch),
;

/// One step of the iterator that `rand::Rng::gen_ascii_chars` returns: it
/// never ends, and each character it yields is drawn from `A`-`Z`, `a`-`z`
/// and `0`-`9`. Which one is left open.
#[verifier::external_body]
fn next_ascii_char(rng: &mut ThreadRng) -> (drawn: Option<char>)
    ensures
        drawn is Some,
        is_alphanumeric(drawn->0),
{
    rng.gen_ascii_chars().next()
}

/// Draws a fresh random suffix for a directory name.
pub fn random_suffix(rng: &mut ThreadRng) -> (suffix: String)
    ensures
        is_suffix(suffix@),
{
    let mut suffix = String::new();
    let mut drawn: usize = 0;
    while drawn < NUM_RAND_CHARS
        invariant
            drawn <= NUM_RAND_CHARS,
            suffix@.len() == drawn,
            forall|i: int| 0 <= i < suffix@.len() ==> is_alphanumeric(#[trigger] suffix@[i]),
        decreases NUM_RAND_CHARS - drawn,
    {
        let c = next_ascii_char(rng).unwrap();
        suffix.push(c);
        drawn = drawn + 1;
    }
    suffix
}

/// The shape of a directory name. After a prefix come the separator and the
/// suffix, which makes the name one character and `NUM_RAND_CHARS` longer
/// than the prefix. Without a prefix the name is the suffix and nothing else,
/// so that it does not start with the separator.
pub proof fn lemma_leaf_shape(prefix: Seq<char>, suffix: Seq<char>)
    requires
        is_suffix(suffix),
    ensures
        prefix.len() > 0 ==> {
            &&& leaf(prefix, suffix).len() == prefix.len() + 1 + NUM_RAND_CHARS
            &&& leaf(prefix, suffix).subrange(0, prefix.len() as int) == prefix
            &&& leaf(prefix, suffix)[prefix.len() as int] == SEPARATOR
            &&& leaf(prefix, suffix).subrange(prefix.len() as int + 1, leaf(prefix, suffix).len() as int)
                == suffix
        },
        prefix.len() == 0 ==> {
            &&& leaf(prefix, suffix).len() == NUM_RAND_CHARS
            &&& leaf(prefix, suffix) == suffix
            &&& leaf(prefix, suffix)[0] != SEPARATOR
        },
{
    let name = leaf(prefix, suffix);
    if prefix.len() > 0 {
        assert(name.subrange(0, prefix.len() as int) =~= prefix);
        assert(name.subrange(prefix.len() as int + 1, name.len() as int) =~= suffix);
    }
}

} // verus!
