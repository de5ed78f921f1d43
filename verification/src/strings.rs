//! Verified string helpers: length, in-place growth, the first word of a
//! sentence, and picking the longer of two strings.

use vstd::prelude::*;
use vstd::string::StrSliceExecFns;
use vstd::string::StringExecFns;
use vstd::string::StringSliceAdditionalSpecFns;

verus! {

/// Returns the length of `s` in bytes.
pub fn calculate_length(s: &String) -> (len: usize)
    ensures
        len == vstd::utf8::encode_utf8(s@).len(),
{
    s.as_str().as_bytes().len()
}

/// Appends `", world"` to `some_string` in place.
pub fn change(some_string: &mut String)
    ensures
        final(some_string)@ == old(some_string)@ + ", world"@,
{
    some_string.append(", world");
}

/// Returns the first word of `s`: its longest prefix that contains no space,
/// which ends at the first space of `s` or, if `s` has none, takes in all of
/// `s`.
pub fn first_word(s: &String) -> (word: &str)
    ensures
        word@.len() <= s@.len(),
        word@ == s@.subrange(0, word@.len() as int),
        forall|j: int| 0 <= j < word@.len() ==> s@[j] != ' ',
        word@.len() < s@.len() ==> s@[word@.len() as int] == ' ',
{
    let n = s.as_str().unicode_len();
    let mut i: usize = 0;
    while i < n
        invariant
            i <= n,
            n == s@.len(),
            forall|j: int| 0 <= j < i ==> s@[j] != ' ',
        decreases n - i,
    {
        if s.as_str().get_char(i) == ' ' {
            return s.as_str().substring_char(0, i);
        }
        i = i + 1;
    }
    s.as_str().substring_char(0, n)
}

/// Returns whichever of `x` and `y` is longer in bytes, preferring `y` when
/// their lengths are equal.
pub fn longest<'a>(x: &'a str, y: &'a str) -> (r: &'a str)
    ensures
        r@ == if x.spec_bytes().len() > y.spec_bytes().len() {
            x@
        } else {
            y@
        },
{
    if x.as_bytes().len() > y.as_bytes().len() {
        x
    } else {
        y
    }
}

} // verus!
