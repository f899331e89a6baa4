//! The operations on text that the hook relies on.

use vstd::prelude::*;
use vstd::utf8::{encode_utf8, encode_utf8_decode_utf8};

verus! {

/// Whether `c` is white space, that is, has Unicode's property `White_Space`.
pub uninterp spec fn is_white_space(c: char) -> bool;

/// The uppercase form of a text under Unicode's case mapping.
pub uninterp spec fn uppercased(text: Seq<char>) -> Seq<char>;

/// A text is blank when nothing but white space stands in it.
pub open spec fn is_blank(text: Seq<char>) -> bool {
    forall|i: int| 0 <= i < text.len() ==> is_white_space(#[trigger] text[i])
}

/// `rest` is a part of `text` with nothing but white space before it and
/// behind it.
pub open spec fn is_cut_from(rest: Seq<char>, text: Seq<char>) -> bool {
    exists|start: int, end: int|
        {
            &&& 0 <= start <= end <= text.len()
            &&& rest == #[trigger] text.subrange(start, end)
            &&& is_blank(text.subrange(0, start))
            &&& is_blank(text.subrange(end, text.len() as int))
        }
}

/// `str::trim` returns the slice without leading and trailing white space,
/// where white space is what has Unicode's property `White_Space`: the slice
/// is a part of the text, nothing but white space stands before and behind
/// it, and it neither begins nor ends with white space. Which characters are
/// white space is left to the standard library.
pub assume_specification[ str::trim ](text: &str) -> (rest: &str)
    ensures
        is_cut_from(rest@, text@),
        rest@.len() > 0 ==> !is_white_space(rest@.first()) && !is_white_space(rest@.last()),
;

/// `str::to_uppercase` returns the uppercase form as a new string; the case
/// mapping itself is left to the standard library.
pub assume_specification[ str::to_uppercase ](text: &str) -> (upper: String)
    ensures
        upper@ == uppercased(text@),
;

/// Nothing is left of a text without its leading and trailing white space
/// exactly when the text is blank.
pub proof fn lemma_blank_trims_to_nothing(text: Seq<char>, rest: Seq<char>)
    requires
        is_cut_from(rest, text),
        rest.len() > 0 ==> !is_white_space(rest.first()),
    ensures
        rest.len() == 0 <==> is_blank(text),
{
    let (start, end) = choose|start: int, end: int|
        {
            &&& 0 <= start <= end <= text.len()
            &&& rest == #[trigger] text.subrange(start, end)
            &&& is_blank(text.subrange(0, start))
            &&& is_blank(text.subrange(end, text.len() as int))
        };
    let head = text.subrange(0, start);
    let tail = text.subrange(end, text.len() as int);
    if start == end {
        assert forall|i: int| 0 <= i < text.len() implies is_white_space(#[trigger] text[i]) by {
            if i < start {
                assert(head[i] == text[i]);
            } else {
                assert(tail[i - end] == text[i]);
            }
        }
    } else {
        assert(rest.first() == text[start]);
    }
}

/// Whether `text` holds nothing but white space.
pub fn blank(text: &str) -> (r: bool)
    ensures
        r == is_blank(text@),
{
    let rest = text.trim();
    proof {
        lemma_blank_trims_to_nothing(text@, rest@);
    }
    rest.is_empty()
}

/// Whether `text` begins with `prefix`.
pub fn starts_with(text: &str, prefix: &str) -> (r: bool)
    ensures
        r == prefix@.is_prefix_of(text@),
{
    let len: usize = text.unicode_len();
    let need: usize = prefix.unicode_len();
    if len < need {
        return false;
    }
    let mut at: usize = 0;
    while at < need
        invariant
            at <= need,
            need == prefix@.len(),
            len == text@.len(),
            need <= len,
            forall|i: int| 0 <= i < at ==> text@[i] == prefix@[i],
        decreases need - at,
    {
        if text.get_char(at) != prefix.get_char(at) {
            return false;
        }
        at += 1;
    }
    assert(prefix@ =~= text@.subrange(0, need as int));
    true
}

/// Whether two texts hold the same characters.
pub fn same_text(left: &str, right: &str) -> (r: bool)
    ensures
        r == (left@ == right@),
{
    let a = left.as_bytes();
    let b = right.as_bytes();
    proof {
        encode_utf8_decode_utf8(left@);
        encode_utf8_decode_utf8(right@);
    }
    if a.len() != b.len() {
        return false;
    }
    let mut at: usize = 0;
    while at < a.len()
        invariant
            at <= a@.len(),
            a@.len() == b@.len(),
            a@ == encode_utf8(left@),
            b@ == encode_utf8(right@),
            forall|i: int| 0 <= i < at ==> a@[i] == b@[i],
        decreases a@.len() - at,
    {
        if a[at] != b[at] {
            return false;
        }
        at += 1;
    }
    assert(a@ =~= b@);
    true
}

/// `head`, then `tail`, as one new string.
pub fn joined(head: &str, tail: &str) -> (whole: String)
    ensures
        whole@ == head@ + tail@,
{
    let mut whole = String::from_str(head);
    whole.append(tail);
    whole
}

} // verus!
