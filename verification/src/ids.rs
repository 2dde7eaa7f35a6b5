//! Session identifiers: 128 random bits, written as a hyphenated UUID.

use vstd::prelude::*;
use vstd::string::StrSliceExecFns;

verus! {

/// `c` is one of `0`-`9`, `a`-`f`.
pub open spec fn is_lower_hex_digit(c: char) -> bool {
    let code = c as u32;
    ||| 0x30 <= code <= 0x39
    ||| 0x61 <= code <= 0x66
}

/// `c` is one of `0`-`9`, `a`-`f`, `A`-`F`.
pub open spec fn is_hex_digit(c: char) -> bool {
    let code = c as u32;
    ||| is_lower_hex_digit(c)
    ||| 0x41 <= code <= 0x46
}

/// `i` is one of the four places at which a hyphenated UUID has its hyphens.
pub open spec fn is_hyphen_place(i: int) -> bool {
    i == 8 || i == 13 || i == 18 || i == 23
}

/// `c` may stand at the place `i` of a session identifier: a hyphen at the
/// places 8, 13, 18 and 23, a hexadecimal digit of either case elsewhere.
pub open spec fn fits_place(c: char, i: int) -> bool {
    if is_hyphen_place(i) {
        c == '-'
    } else {
        is_hex_digit(c)
    }
}

/// `text` has the form of a session identifier: 36 characters, hyphens at
/// the places 8, 13, 18 and 23, and a hexadecimal digit of either case at
/// every other place.
pub open spec fn is_session_id(text: Seq<char>) -> bool {
    &&& text.len() == 36
    &&& forall|i: int| 0 <= i < 36 ==> fits_place(#[trigger] text[i], i)
}

/// `text` is a random UUID as it is written out: a session identifier in
/// lower case, with the version `4` at place 14 and one of `8`, `9`, `a`,
/// `b` for the variant at place 19.
pub open spec fn is_issued_session_id(text: Seq<char>) -> bool {
    &&& is_session_id(text)
    &&& forall|i: int|
        0 <= i < 36 && !is_hyphen_place(i) ==> is_lower_hex_digit(#[trigger] text[i])
    &&& text[14] == '4'
    &&& text[19] == '8' || text[19] == '9' || text[19] == 'a' || text[19] == 'b'
}

/// Tells whether `c` may stand at the place `i` of a session identifier.
fn char_fits_place(c: char, i: usize) -> (fits: bool)
    ensures
        fits == fits_place(c, i as int),
{
    if i == 8 || i == 13 || i == 18 || i == 23 {
        c == '-'
    } else {
        let code = c as u32;
        (0x30 <= code && code <= 0x39) || (0x61 <= code && code <= 0x66) || (0x41 <= code && code
            <= 0x46)
    }
}

/// Tells whether `text` has the form of a session identifier.
pub fn is_valid_session_id(text: &str) -> (ok: bool)
    ensures
        ok == is_session_id(text@),
{
    if text.unicode_len() != 36 {
        return false;
    }
    let mut i: usize = 0;
    while i < 36
        invariant
            i <= 36,
            text@.len() == 36,
            forall|j: int| 0 <= j < i ==> fits_place(#[trigger] text@[j], j),
        decreases 36 - i,
    {
        if !char_fits_place(text.get_char(i), i) {
            return false;
        }
        i += 1;
    }
    true
}

/// Calls `uuid::Uuid::new_v4` and renders the result with `to_string`.
///
/// Claimed of every outcome: the text is the hyphenated form in lower case,
/// which is what `Display` for `Uuid` writes, and it shows the version and
/// the variant that `new_v4` sets. Which identifier comes out is left open.
#[verifier::external_body]
pub(crate) fn random_uuid_text() -> (id: String)
    ensures
        is_issued_session_id(id@),
{
    uuid::Uuid::new_v4().to_string()
}

} // verus!
