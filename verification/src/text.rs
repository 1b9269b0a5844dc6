//! Helpers on strings that the rest of the crate shares.

use vstd::prelude::*;
use vstd::string::*;
use vstd::utf8::*;

verus! {

/// Two texts with the same UTF-8 encoding are the same text.
pub proof fn lemma_encoding_is_injective(a: Seq<char>, b: Seq<char>)
    requires
        encode_utf8(a) == encode_utf8(b),
    ensures
        a == b,
{
    encode_utf8_decode_utf8(a);
    encode_utf8_decode_utf8(b);
}

/// Whether `a` and `b` hold the same characters.
pub fn same_text(a: &str, b: &str) -> (same: bool)
    ensures
        same == (a@ == b@),
{
    let x = a.as_bytes();
    let y = b.as_bytes();
    if x.len() != y.len() {
        return false;
    }
    let mut i: usize = 0;
    while i < x.len()
        invariant
            x@.len() == y@.len(),
            i <= x@.len(),
            x@ == encode_utf8(a@),
            y@ == encode_utf8(b@),
            forall|k: int| 0 <= k < i ==> x@[k] == y@[k],
        decreases x@.len() - i,
    {
        if x[i] != y[i] {
            return false;
        }
        i += 1;
    }
    proof {
        assert(x@ =~= y@);
        lemma_encoding_is_injective(a@, b@);
    }
    true
}

/// The text of `a` followed by the text of `b`.
pub fn joined(a: &str, b: &str) -> (whole: String)
    ensures
        whole@ == a@ + b@,
{
    a.to_owned().concat(b)
}

/// Whether `text` ends with `suffix`.
pub fn has_suffix(text: &str, suffix: &str) -> (found: bool)
    ensures
        found == suffix@.is_suffix_of(text@),
{
    let n = text.unicode_len();
    let m = suffix.unicode_len();
    if m > n {
        return false;
    }
    same_text(text.substring_char(n - m, n), suffix)
}

/// `text` without its last `count` characters; nothing is left of a text
/// that is no longer than that.
pub fn without_last(text: &str, count: usize) -> (rest: String)
    ensures
        rest@ == text@.take(
            if count <= text@.len() {
                text@.len() - count
            } else {
                0
            },
        ),
{
    let n = text.unicode_len();
    let keep = if count <= n {
        n - count
    } else {
        0
    };
    text.substring_char(0, keep).to_owned()
}

} // verus!
