//! Ticket ids: one or more capital letters, a hyphen, one or more digits.

use vstd::prelude::*;
use vstd::string::is_ascii_spec_bytes;
use vstd::utf8::is_ascii_chars;

verus! {

/// The byte that encodes `A`.
const CAPITAL_A: u8 = 65;

/// The byte that encodes `Z`.
const CAPITAL_Z: u8 = 90;

/// The byte that encodes `-`.
const HYPHEN: u8 = 45;

/// The byte that encodes `0`.
const DIGIT_0: u8 = 48;

/// The byte that encodes `9`.
const DIGIT_9: u8 = 57;

/// A capital letter of the basic Latin alphabet.
pub open spec fn is_capital(c: char) -> bool {
    'A' <= c && c <= 'Z'
}

/// A decimal digit.
pub open spec fn is_digit(c: char) -> bool {
    '0' <= c && c <= '9'
}

/// `text` is a ticket id whose hyphen stands at index `dash`.
pub open spec fn is_ticket_at(text: Seq<char>, dash: int) -> bool {
    &&& 0 < dash < text.len() - 1
    &&& text[dash] == '-'
    &&& forall|i: int| 0 <= i < dash ==> is_capital(#[trigger] text[i])
    &&& forall|i: int| dash < i < text.len() ==> is_digit(#[trigger] text[i])
}

/// `text` has the form `LETTERS-DIGITS`.
pub open spec fn is_ticket(text: Seq<char>) -> bool {
    exists|dash: int| is_ticket_at(text, dash)
}

/// Every character of a ticket id is an ASCII character.
pub proof fn lemma_ticket_is_ascii(text: Seq<char>)
    requires
        is_ticket(text),
    ensures
        is_ascii_chars(text),
{
    let dash = choose|dash: int| is_ticket_at(text, dash);
    assert forall|i: int| 0 <= i < text.len() implies (text[i] as nat) < 128 by {
        if i < dash {
            assert(is_capital(text[i]));
        } else if i > dash {
            assert(is_digit(text[i]));
        }
    }
}

/// Whether `text` has the form `LETTERS-DIGITS`.
pub fn is_ticket_id(text: &str) -> (r: bool)
    ensures
        r == is_ticket(text@),
{
    if !text.is_ascii() {
        proof {
            if is_ticket(text@) {
                lemma_ticket_is_ascii(text@);
            }
        }
        return false;
    }
    let bytes = text.as_bytes();
    proof {
        is_ascii_spec_bytes(text);
    }
    let n: usize = bytes.len();
    assert(n == text@.len());
    assert(forall|i: int| 0 <= i < n ==> bytes@[i] == text@[i] as u8);
    let mut dash: usize = 0;
    while dash < n && CAPITAL_A <= bytes[dash] && bytes[dash] <= CAPITAL_Z
        invariant
            dash <= n,
            n == bytes@.len(),
            n == text@.len(),
            is_ascii_chars(text@),
            forall|i: int| 0 <= i < n ==> bytes@[i] == text@[i] as u8,
            forall|i: int| 0 <= i < dash ==> is_capital(#[trigger] text@[i]),
        decreases n - dash,
    {
        dash += 1;
    }
    if dash == 0 || dash >= n || bytes[dash] != HYPHEN {
        proof {
            if is_ticket(text@) {
                let d = choose|d: int| is_ticket_at(text@, d);
                if d < dash {
                    assert(is_capital(text@[d]));
                } else if d > dash {
                    assert(is_capital(text@[dash as int]));
                }
            }
        }
        return false;
    }
    let mut end: usize = dash + 1;
    while end < n && DIGIT_0 <= bytes[end] && bytes[end] <= DIGIT_9
        invariant
            dash < end <= n,
            n == bytes@.len(),
            n == text@.len(),
            is_ascii_chars(text@),
            forall|i: int| 0 <= i < n ==> bytes@[i] == text@[i] as u8,
            forall|i: int| dash < i < end ==> is_digit(#[trigger] text@[i]),
        decreases n - end,
    {
        end += 1;
    }
    proof {
        if end == n && end > dash + 1 {
            assert(is_ticket_at(text@, dash as int));
        } else if is_ticket(text@) {
            let d = choose|d: int| is_ticket_at(text@, d);
            if d < dash {
                assert(is_capital(text@[d]));
            } else if d > dash {
                assert(is_capital(text@[dash as int]));
            } else if end < n {
                assert(is_digit(text@[end as int]));
            }
        }
    }
    end == n && end > dash + 1
}

} // verus!
