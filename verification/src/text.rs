//! Cleaning of the text values of a DICOM object: padding and whitespace.

use vstd::prelude::*;
use vstd::string::{StrSliceExecFns, StringExecFns};

verus! {

/// Whether `c` is whitespace: one of the code points with the Unicode
/// property `White_Space`.
pub open spec fn is_whitespace(c: char) -> bool {
    let n = c as u32;
    ||| 0x09 <= n <= 0x0D
    ||| n == 0x20
    ||| n == 0x85
    ||| n == 0xA0
    ||| n == 0x1680
    ||| 0x2000 <= n <= 0x200A
    ||| n == 0x2028
    ||| n == 0x2029
    ||| n == 0x202F
    ||| n == 0x205F
    ||| n == 0x3000
}

/// `text` without the NUL characters that it ends with.
pub open spec fn without_trailing_nuls(text: Seq<char>) -> Seq<char>
    decreases text.len(),
{
    if text.len() > 0 && text.last() == '\0' {
        without_trailing_nuls(text.drop_last())
    } else {
        text
    }
}

/// `text` without its whitespace characters, the others in their order.
pub open spec fn without_whitespace(text: Seq<char>) -> Seq<char> {
    text.filter(|c: char| !is_whitespace(c))
}

/// Decides whether a character is whitespace.
pub fn char_is_whitespace(c: char) -> (r: bool)
    ensures
        r == is_whitespace(c),
{
    let n: u32 = c as u32;
    (0x09 <= n && n <= 0x0D) || n == 0x20 || n == 0x85 || n == 0xA0 || n == 0x1680 || (0x2000 <= n
        && n <= 0x200A) || n == 0x2028 || n == 0x2029 || n == 0x202F || n == 0x205F || n == 0x3000
}

/// What is left of a text when the NUL padding at its end is taken away is
/// the text up to its last character that is not NUL.
pub proof fn trailing_nuls_are_a_suffix(text: Seq<char>)
    ensures
        without_trailing_nuls(text).len() <= text.len(),
        without_trailing_nuls(text) == text.take(without_trailing_nuls(text).len() as int),
        forall|i: int|
            without_trailing_nuls(text).len() <= i < text.len() ==> text[i] == '\0',
        without_trailing_nuls(text).len() > 0 ==> without_trailing_nuls(text).last() != '\0',
    decreases text.len(),
{
    if text.len() > 0 && text.last() == '\0' {
        trailing_nuls_are_a_suffix(text.drop_last());
        let front = text.drop_last();
        let kept = without_trailing_nuls(front);
        assert(kept == text.take(kept.len() as int));
        assert forall|i: int| kept.len() <= i < text.len() implies text[i] == '\0' by {
            if i < front.len() {
                assert(front[i] == text[i]);
            }
        }
    } else {
        assert(text == text.take(text.len() as int));
    }
}

/// Takes the NUL padding off the end of a text.
pub fn trim_trailing_nuls(text: &str) -> (r: &str)
    ensures
        r@ == without_trailing_nuls(text@),
{
    let mut end: usize = text.unicode_len();
    assert(text@.take(end as int) == text@);
    while end > 0 && text.get_char(end - 1) == '\0'
        invariant
            end <= text@.len(),
            without_trailing_nuls(text@) == without_trailing_nuls(text@.take(end as int)),
        decreases end,
    {
        assert(text@.take(end as int).drop_last() == text@.take(end - 1));
        end = end - 1;
    }
    text.substring_char(0, end)
}

/// Takes every whitespace character out of a text.
pub fn strip_whitespace(text: &str) -> (r: String)
    ensures
        r@ == without_whitespace(text@),
{
    let n: usize = text.unicode_len();
    let mut out: String = String::new();
    let mut i: usize = 0;
    proof {
        reveal(Seq::filter);
    }
    while i < n
        invariant
            i <= n,
            n == text@.len(),
            out@ == without_whitespace(text@.take(i as int)),
        decreases n - i,
    {
        proof {
            reveal(Seq::filter);
            assert(text@.take(i + 1).drop_last() == text@.take(i as int));
        }
        if !char_is_whitespace(text.get_char(i)) {
            out.append(text.substring_char(i, i + 1));
            assert(text@.subrange(i as int, i + 1) == seq![text@[i as int]]);
        }
        i = i + 1;
    }
    assert(text@.take(n as int) == text@);
    out
}

} // verus!
