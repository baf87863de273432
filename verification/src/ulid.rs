//! Universally unique lexicographically sortable identifiers (ULIDs), held as `u128`.
use crate::text::push_char;
use vstd::prelude::*;

verus! {

/// The Crockford base 32 alphabet, as ULIDs are written.
pub open spec fn crockford_char(d: int) -> char {
    seq!['0', '1', '2', '3', '4', '5', '6', '7', '8', '9', 'A', 'B', 'C', 'D', 'E', 'F', 'G', 'H',
        'J', 'K', 'M', 'N', 'P', 'Q', 'R', 'S', 'T', 'V', 'W', 'X', 'Y', 'Z'][d]
}

/// The canonical text of a ULID: 26 Crockford base 32 characters, most significant first; the
/// first character holds the top 3 bits, every other one 5 bits.
pub open spec fn ulid_text(value: u128) -> Seq<char> {
    Seq::new(26, |i: int| crockford_char(((value >> ((125 - 5 * i) as u128)) & 31u128) as int))
}

/// The timestamp of a ULID: the milliseconds since the UNIX epoch held in its top 48 bits.
pub open spec fn ulid_timestamp(value: u128) -> u64 {
    (value >> 80u128) as u64
}

/// The Crockford base 32 character of a digit.
fn crockford_digit(d: u128) -> (c: char)
    requires
        d < 32,
    ensures
        c == crockford_char(d as int),
{
    let alphabet: [char; 32] = [
        '0', '1', '2', '3', '4', '5', '6', '7', '8', '9', 'A', 'B', 'C', 'D', 'E', 'F', 'G', 'H',
        'J', 'K', 'M', 'N', 'P', 'Q', 'R', 'S', 'T', 'V', 'W', 'X', 'Y', 'Z',
    ];
    assert(alphabet@ =~= seq!['0', '1', '2', '3', '4', '5', '6', '7', '8', '9', 'A', 'B', 'C', 'D', 'E', 'F', 'G', 'H',
        'J', 'K', 'M', 'N', 'P', 'Q', 'R', 'S', 'T', 'V', 'W', 'X', 'Y', 'Z']);
    alphabet[d as usize]
}

/// The text of the given ULID: 26 Crockford base 32 characters, most significant first, as
/// `rusty_ulid` writes a `Ulid`.
pub(crate) fn text(value: u128) -> (s: String)
    ensures
        s@ == ulid_text(value),
{
    let mut s = String::new();
    let mut i: u128 = 0;
    while i < 26
        invariant
            i <= 26,
            s@ =~= ulid_text(value).subrange(0, i as int),
        decreases 26 - i,
    {
        let shift: u128 = 125 - 5 * i;
        let d: u128 = (value >> shift) & 31u128;
        assert(((value >> shift) & 31u128) < 32) by (bit_vector);
        let c = crockford_digit(d);
        push_char(&mut s, c);
        assert(ulid_text(value).subrange(0, i + 1) =~= ulid_text(value).subrange(0, i as int).push(
            ulid_text(value)[i as int],
        ));
        i = i + 1;
    }
    s
}

/// The timestamp of a ULID: milliseconds since the UNIX epoch.
pub fn timestamp(value: u128) -> (t: u64)
    ensures
        t == ulid_timestamp(value),
        t < 0x1_0000_0000_0000,
{
    assert((value >> 80u128) <= u64::MAX) by (bit_vector);
    assert((value >> 80u128) < 0x1_0000_0000_0000u128) by (bit_vector);
    (value >> 80u128) as u64
}

} // verus!
