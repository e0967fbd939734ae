//! Texts on their way to the engine.

use vstd::prelude::*;
use vstd::string::*;
use vstd::utf8::{decode_utf8, encode_utf8, encode_utf8_decode_utf8};

verus! {

/// Whether the text can cross to the engine as a NUL-terminated string:
/// no byte of its UTF-8 encoding is zero.
pub open spec fn c_text(text: Seq<char>) -> bool {
    forall|i: int| 0 <= i < encode_utf8(text).len() ==> #[trigger] encode_utf8(text)[i] != 0u8
}

/// Whether `text` can cross to the engine as a NUL-terminated string.
pub fn is_c_text(text: &str) -> (ok: bool)
    ensures
        ok == c_text(text@),
{
    let bytes = text.as_bytes();
    let n: usize = bytes.len();
    let mut i: usize = 0;
    while i < n
        invariant
            i <= n,
            n == bytes@.len(),
            bytes@ == encode_utf8(text@),
            forall|j: int| 0 <= j < i ==> #[trigger] bytes@[j] != 0u8,
        decreases n - i,
    {
        if bytes[i] == 0 {
            return false;
        }
        i += 1;
    }
    true
}

/// Whether two texts are the same.
pub fn same_text(a: &str, b: &str) -> (same: bool)
    ensures
        same == (a@ == b@),
{
    let x = a.as_bytes();
    let y = b.as_bytes();
    let n: usize = x.len();
    proof {
        encode_utf8_decode_utf8(a@);
        encode_utf8_decode_utf8(b@);
    }
    if y.len() != n {
        return false;
    }
    let mut i: usize = 0;
    while i < n
        invariant
            i <= n,
            n == x@.len(),
            n == y@.len(),
            x@ == encode_utf8(a@),
            y@ == encode_utf8(b@),
            decode_utf8(encode_utf8(a@)) == a@,
            decode_utf8(encode_utf8(b@)) == b@,
            forall|j: int| 0 <= j < i ==> x@[j] == y@[j],
        decreases n - i,
    {
        if x[i] != y[i] {
            return false;
        }
        i += 1;
    }
    assert(x@ =~= y@);
    true
}

/// A text of ASCII characters that holds no NUL character can cross to the
/// engine.
pub proof fn ascii_text_crosses(text: &str)
    requires
        is_ascii(text),
        forall|i: int| 0 <= i < text@.len() ==> text@[i] != '\0',
    ensures
        c_text(text@),
{
    is_ascii_spec_bytes(text);
    assert forall|i: int| 0 <= i < encode_utf8(text@).len() implies #[trigger] encode_utf8(
        text@,
    )[i] != 0u8 by {
        assert(text.spec_bytes()[i] == text@[i] as u8);
        assert(text@[i] != '\0');
    }
}

} // verus!
