//! Identifiers: UUIDs held as their 128-bit value.

use vstd::prelude::*;

verus! {

/// The lowercase hexadecimal digit of a value below 16.
pub open spec fn hex_digit(n: u128) -> char {
    if n == 0 { '0' } else if n == 1 { '1' } else if n == 2 { '2' } else if n == 3 { '3' }
    else if n == 4 { '4' } else if n == 5 { '5' } else if n == 6 { '6' } else if n == 7 { '7' }
    else if n == 8 { '8' } else if n == 9 { '9' } else if n == 10 { 'a' } else if n == 11 { 'b' }
    else if n == 12 { 'c' } else if n == 13 { 'd' } else if n == 14 { 'e' } else { 'f' }
}

/// The `k`-th hexadecimal digit of a UUID, most significant first (`0 <= k < 32`).
pub open spec fn nibble(id: u128, k: int) -> u128 {
    (id >> ((124 - 4 * k) as u128)) & 15u128
}

/// Which digit stands at position `i` of the hyphenated form.
pub open spec fn digit_of_position(i: int) -> int {
    if i < 8 { i } else if i < 13 { i - 1 } else if i < 18 { i - 2 } else if i < 23 { i - 3 } else { i - 4 }
}

/// Whether position `i` of the hyphenated form is a hyphen.
pub open spec fn is_hyphen_position(i: int) -> bool {
    i == 8 || i == 13 || i == 18 || i == 23
}

/// The hyphenated lowercase form of a UUID, as `Uuid`'s `Display` writes it:
/// 32 hexadecimal digits in groups of 8-4-4-4-12.
pub open spec fn uuid_text(id: u128) -> Seq<char> {
    Seq::new(
        36,
        |i: int|
            if is_hyphen_position(i) {
                '-'
            } else {
                hex_digit(nibble(id, digit_of_position(i)))
            },
    )
}

fn hex_char(n: u128) -> (c: char)
    requires
        n < 16,
    ensures
        c == hex_digit(n),
{
    if n == 0 { '0' } else if n == 1 { '1' } else if n == 2 { '2' } else if n == 3 { '3' }
    else if n == 4 { '4' } else if n == 5 { '5' } else if n == 6 { '6' } else if n == 7 { '7' }
    else if n == 8 { '8' } else if n == 9 { '9' } else if n == 10 { 'a' } else if n == 11 { 'b' }
    else if n == 12 { 'c' } else if n == 13 { 'd' } else if n == 14 { 'e' } else { 'f' }
}

/// Formats a UUID in hyphenated lowercase form.
pub fn uuid_string(id: u128) -> (s: String)
    ensures
        s@ == uuid_text(id),
{
    let mut out: Vec<char> = Vec::new();
    let mut k: u32 = 0;
    while k < 32
        invariant
            k <= 32,
            out@.len() == k + (if k > 20 { 4int } else if k > 16 { 3int } else if k > 12 { 2int } else if k > 8 { 1int } else { 0int }),
            forall|i: int| 0 <= i < out@.len() ==> #[trigger] out@[i] == uuid_text(id)[i],
        decreases 32 - k,
    {
        if k == 8 || k == 12 || k == 16 || k == 20 {
            out.push('-');
        }
        let shift: u32 = 124 - 4 * k;
        let n: u128 = (id >> shift) & 15u128;
        assert(n < 16) by (bit_vector)
            requires
                n == (id >> shift) & 15u128,
        ;
        assert(n == nibble(id, k as int));
        out.push(hex_char(n));
        k = k + 1;
    }
    assert(out@ =~= uuid_text(id));
    crate::text::string_from_chars(&out)
}

/// What `uuid::Uuid::parse_str` gives for a text: the UUID's value, or `None`
/// when the text is not a UUID in any of the accepted forms.
pub uninterp spec fn uuid_parse_result(text: Seq<char>) -> Option<u128>;

/// Parses a UUID with `uuid::Uuid::parse_str` (hyphenated, simple, braced or
/// URN form) and returns its value (`Uuid::as_u128`). The contract names the
/// result as a function of the text alone and states that the lowercase
/// hyphenated text of a UUID (its `Display` form) parses back to it; the rest
/// of the accepted grammar is not restated.
#[verifier::external_body]
pub(crate) fn parse_uuid(text: &str) -> (r: Option<u128>)
    ensures
        r == uuid_parse_result(text@),
        forall|id: u128| text@ == #[trigger] uuid_text(id) ==> r == Some(id),
{
    match uuid::Uuid::parse_str(text) {
        Ok(id) => Some(id.as_u128()),
        Err(_) => None,
    }
}

/// A random (version 4) UUID from `uuid::Uuid::new_v4`. Its value depends on
/// chance; the contract states only the version and variant bits, which the
/// crate's documentation fixes for version-4 UUIDs.
#[verifier::external_body]
pub(crate) fn new_uuid_v4() -> (id: u128)
    ensures
        (id >> 76u128) & 15u128 == 4,
        (id >> 62u128) & 3u128 == 2,
{
    uuid::Uuid::new_v4().as_u128()
}

} // verus!
