//! Random identifiers.

use vstd::prelude::*;

verus! {

/// Whether a character is an ASCII letter or digit.
pub open spec fn is_alphanumeric(c: char) -> bool {
    ||| '0' <= c <= '9'
    ||| 'A' <= c <= 'Z'
    ||| 'a' <= c <= 'z'
}

/// Whether a text is made of ASCII letters and digits alone.
pub open spec fn all_alphanumeric(s: Seq<char>) -> bool {
    forall|i: int| 0 <= i < s.len() ==> is_alphanumeric(#[trigger] s[i])
}

/// Calls `rand::thread_rng` and samples `rand::distributions::Alphanumeric`
/// once.
///
/// Trusted: whatever the generator yields, the sample is one of the 62
/// ASCII letters and digits. Nothing is said about which one. The sampler
/// draws six bits at a time until they fall among the 62, so it returns
/// with probability one; the generator itself gives up only where the
/// operating system has no randomness to seed it with.
#[verifier::external_body]
fn sample_alphanumeric() -> (c: char)
    ensures
        is_alphanumeric(c),
{
    char::from(rand::Rng::sample(&mut rand::thread_rng(), rand::distributions::Alphanumeric))
}

/// A random text of `length` ASCII letters and digits, each drawn on its
/// own from the generator of the current thread.
pub fn generate_random_string(length: usize) -> (text: String)
    ensures
        text@.len() == length,
        all_alphanumeric(text@),
{
    let mut text = String::new();
    let mut i: usize = 0;
    while i < length
        invariant
            i <= length,
            text@.len() == i,
            all_alphanumeric(text@),
        decreases length - i,
    {
        let c = sample_alphanumeric();
        text.push(c);
        i = i + 1;
    }
    text
}

} // verus!
