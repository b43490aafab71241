//! The identity key of an administrator and its text form.
//!
//! An identifier is 16 opaque bytes. Its text form is the 36-character
//! hyphenated lower-case hexadecimal rendering, two digits per byte, in
//! groups of 8, 4, 4, 4 and 12 digits.

use vstd::prelude::*;
use crate::text::chars_of;

verus! {

/// Opaque 128-bit identifier of an administrator, assigned when the account
/// is created and never changed afterwards.
#[derive(Clone, Copy, Debug, PartialEq, Eq)]
pub struct AdministratorId {
    pub bytes: [u8; 16],
}

/// The lower-case character of the hexadecimal digit `digit` (0 to 15).
pub open spec fn hex_char(digit: int) -> char {
    if digit == 0 {
        '0'
    } else if digit == 1 {
        '1'
    } else if digit == 2 {
        '2'
    } else if digit == 3 {
        '3'
    } else if digit == 4 {
        '4'
    } else if digit == 5 {
        '5'
    } else if digit == 6 {
        '6'
    } else if digit == 7 {
        '7'
    } else if digit == 8 {
        '8'
    } else if digit == 9 {
        '9'
    } else if digit == 10 {
        'a'
    } else if digit == 11 {
        'b'
    } else if digit == 12 {
        'c'
    } else if digit == 13 {
        'd'
    } else if digit == 14 {
        'e'
    } else {
        'f'
    }
}

/// The value of a lower-case hexadecimal digit character, or -1 for any other
/// character.
pub open spec fn hex_value(c: char) -> int {
    if c == '0' {
        0
    } else if c == '1' {
        1
    } else if c == '2' {
        2
    } else if c == '3' {
        3
    } else if c == '4' {
        4
    } else if c == '5' {
        5
    } else if c == '6' {
        6
    } else if c == '7' {
        7
    } else if c == '8' {
        8
    } else if c == '9' {
        9
    } else if c == 'a' {
        10
    } else if c == 'b' {
        11
    } else if c == 'c' {
        12
    } else if c == 'd' {
        13
    } else if c == 'e' {
        14
    } else if c == 'f' {
        15
    } else {
        -1
    }
}

/// Whether position `i` of the text form holds a hyphen.
pub open spec fn is_hyphen_position(i: int) -> bool {
    i == 8 || i == 13 || i == 18 || i == 23
}

/// The text position of the `k`-th of the 32 digits.
pub open spec fn digit_position(k: int) -> int {
    if k < 8 {
        k
    } else if k < 12 {
        k + 1
    } else if k < 16 {
        k + 2
    } else if k < 20 {
        k + 3
    } else {
        k + 4
    }
}

/// Which of the 32 digits stands at text position `i` (for a position that
/// holds no hyphen).
pub open spec fn digit_index(i: int) -> int {
    if i < 8 {
        i
    } else if i < 13 {
        i - 1
    } else if i < 18 {
        i - 2
    } else if i < 23 {
        i - 3
    } else {
        i - 4
    }
}

/// The `k`-th digit of the identifier `bytes`: the high half of byte `k / 2`
/// where `k` is even, its low half where `k` is odd.
pub open spec fn digit_of(bytes: Seq<u8>, k: int) -> int {
    if k % 2 == 0 {
        bytes[k / 2] as int / 16
    } else {
        bytes[k / 2] as int % 16
    }
}

/// The text form of the identifier `bytes`.
pub open spec fn id_text(bytes: Seq<u8>) -> Seq<char> {
    Seq::new(
        36,
        |i: int|
            if is_hyphen_position(i) {
                '-'
            } else {
                hex_char(digit_of(bytes, digit_index(i)))
            },
    )
}

/// Whether `text` is the text form of some identifier: 36 characters, hyphens
/// at the four separator positions and lower-case hexadecimal digits at all
/// others.
pub open spec fn is_id_text(text: Seq<char>) -> bool {
    &&& text.len() == 36
    &&& forall|i: int|
        0 <= i < 36 ==> if is_hyphen_position(i) {
            text[i] == '-'
        } else {
            hex_value(#[trigger] text[i]) >= 0
        }
}

/// The identifier that a well-formed text stands for.
pub open spec fn id_of_text(text: Seq<char>) -> Seq<u8> {
    Seq::new(
        16,
        |b: int|
            (16 * hex_value(text[digit_position(2 * b)]) + hex_value(
                text[digit_position(2 * b + 1)],
            )) as u8,
    )
}

/// The one-character text of a hexadecimal digit.
fn hex_str(digit: u8) -> (s: &'static str)
    requires
        digit < 16,
    ensures
        s@ == seq![hex_char(digit as int)],
{
    proof {
        reveal_strlit("0");
        reveal_strlit("1");
        reveal_strlit("2");
        reveal_strlit("3");
        reveal_strlit("4");
        reveal_strlit("5");
        reveal_strlit("6");
        reveal_strlit("7");
        reveal_strlit("8");
        reveal_strlit("9");
        reveal_strlit("a");
        reveal_strlit("b");
        reveal_strlit("c");
        reveal_strlit("d");
        reveal_strlit("e");
        reveal_strlit("f");
    }
    let s = if digit == 0 {
        "0"
    } else if digit == 1 {
        "1"
    } else if digit == 2 {
        "2"
    } else if digit == 3 {
        "3"
    } else if digit == 4 {
        "4"
    } else if digit == 5 {
        "5"
    } else if digit == 6 {
        "6"
    } else if digit == 7 {
        "7"
    } else if digit == 8 {
        "8"
    } else if digit == 9 {
        "9"
    } else if digit == 10 {
        "a"
    } else if digit == 11 {
        "b"
    } else if digit == 12 {
        "c"
    } else if digit == 13 {
        "d"
    } else if digit == 14 {
        "e"
    } else {
        "f"
    };
    assert(s@ =~= seq![hex_char(digit as int)]);
    s
}

/// The value of the hexadecimal digit `c`, if it is one in lower case.
fn hex_digit(c: char) -> (d: Option<u8>)
    ensures
        match d {
            Some(v) => v as int == hex_value(c) && v < 16,
            None => hex_value(c) < 0,
        },
{
    if c == '0' {
        Some(0)
    } else if c == '1' {
        Some(1)
    } else if c == '2' {
        Some(2)
    } else if c == '3' {
        Some(3)
    } else if c == '4' {
        Some(4)
    } else if c == '5' {
        Some(5)
    } else if c == '6' {
        Some(6)
    } else if c == '7' {
        Some(7)
    } else if c == '8' {
        Some(8)
    } else if c == '9' {
        Some(9)
    } else if c == 'a' {
        Some(10)
    } else if c == 'b' {
        Some(11)
    } else if c == 'c' {
        Some(12)
    } else if c == 'd' {
        Some(13)
    } else if c == 'e' {
        Some(14)
    } else if c == 'f' {
        Some(15)
    } else {
        None
    }
}

impl AdministratorId {
    /// The identifier made of the given bytes.
    pub fn from_bytes(bytes: [u8; 16]) -> (id: AdministratorId)
        ensures
            id.bytes == bytes,
    {
        AdministratorId { bytes }
    }

    /// Whether two identifiers hold the same bytes.
    pub fn same_as(&self, other: &AdministratorId) -> (same: bool)
        ensures
            same == (self.bytes@ == other.bytes@),
    {
        let mut i: usize = 0;
        while i < 16
            invariant
                i <= 16,
                forall|j: int| 0 <= j < i ==> self.bytes@[j] == other.bytes@[j],
            decreases 16 - i,
        {
            if self.bytes[i] != other.bytes[i] {
                return false;
            }
            i += 1;
        }
        assert(self.bytes@ =~= other.bytes@);
        true
    }

    /// The text form of this identifier.
    pub fn to_text(&self) -> (text: String)
        ensures
            text@ == id_text(self.bytes@),
    {
        let mut text = String::new();
        let mut b: usize = 0;
        while b < 16
            invariant
                b <= 16,
                text@.len() == digit_position(2 * b as int),
                forall|i: int|
                    0 <= i < text@.len() ==> text@[i] == #[trigger] id_text(self.bytes@)[i],
            decreases 16 - b,
        {
            let byte = self.bytes[b];
            let ghost at = text@.len() as int;
            assert(digit_index(at) == 2 * b && !is_hyphen_position(at));
            assert(digit_index(at + 1) == 2 * b + 1 && !is_hyphen_position(at + 1));
            assert(id_text(self.bytes@)[at] == hex_char((byte / 16) as int));
            assert(id_text(self.bytes@)[at + 1] == hex_char((byte % 16) as int));
            text.append(hex_str(byte / 16));
            text.append(hex_str(byte % 16));
            if b == 3 || b == 5 || b == 7 || b == 9 {
                proof {
                    reveal_strlit("-");
                }
                assert(is_hyphen_position(at + 2));
                assert(id_text(self.bytes@)[at + 2] == '-');
                text.append("-");
            }
            b += 1;
        }
        assert(text@ =~= id_text(self.bytes@));
        text
    }

    /// Reads an identifier from its text form. Any text that is not exactly
    /// the text form of an identifier is refused.
    pub fn parse(text: &str) -> (id: Option<AdministratorId>)
        ensures
            id is Some <==> is_id_text(text@),
            id matches Some(found) ==> found.bytes@ == id_of_text(text@),
    {
        let chars = chars_of(text);
        if chars.len() != 36 {
            return None;
        }
        if chars[8] != '-' || chars[13] != '-' || chars[18] != '-' || chars[23] != '-' {
            assert(is_hyphen_position(8) && is_hyphen_position(13) && is_hyphen_position(18)
                && is_hyphen_position(23));
            return None;
        }
        let mut bytes: [u8; 16] = [0u8; 16];
        let mut b: usize = 0;
        while b < 16
            invariant
                b <= 16,
                chars@ == text@,
                chars@.len() == 36,
                forall|k: int| 0 <= k < 2 * b ==> hex_value(#[trigger] chars@[digit_position(k)]) >= 0,
                forall|j: int| 0 <= j < b ==> bytes@[j] == #[trigger] id_of_text(text@)[j],
            decreases 16 - b,
        {
            let hi_at: usize = if b < 4 {
                2 * b
            } else if b < 6 {
                2 * b + 1
            } else if b < 8 {
                2 * b + 2
            } else if b < 10 {
                2 * b + 3
            } else {
                2 * b + 4
            };
            assert(hi_at as int == digit_position(2 * b as int));
            assert(hi_at + 1 == digit_position(2 * b as int + 1));
            let hi = hex_digit(chars[hi_at]);
            let lo = hex_digit(chars[hi_at + 1]);
            match (hi, lo) {
                (Some(h), Some(l)) => {
                    bytes[b] = 16 * h + l;
                },
                _ => {
                    assert(!is_hyphen_position(hi_at as int));
                    assert(!is_hyphen_position(hi_at as int + 1));
                    return None;
                },
            }
            b += 1;
        }
        proof {
            assert(bytes@ =~= id_of_text(text@));
            assert forall|i: int| 0 <= i < 36 implies if is_hyphen_position(i) {
                text@[i] == '-'
            } else {
                hex_value(#[trigger] text@[i]) >= 0
            } by {
                if !is_hyphen_position(i) {
                    assert(digit_position(digit_index(i)) == i);
                    assert(0 <= digit_index(i) < 32);
                }
            }
        }
        Some(AdministratorId { bytes })
    }
}

/// The text form of an identifier is well formed and reads back as the same
/// identifier.
pub proof fn lemma_text_round_trip(bytes: Seq<u8>)
    requires
        bytes.len() == 16,
    ensures
        is_id_text(id_text(bytes)),
        id_of_text(id_text(bytes)) == bytes,
{
    let text = id_text(bytes);
    assert forall|i: int| 0 <= i < 36 implies if is_hyphen_position(i) {
        text[i] == '-'
    } else {
        hex_value(#[trigger] text[i]) >= 0
    } by {
        if !is_hyphen_position(i) {
            let d = digit_of(bytes, digit_index(i));
            assert(0 <= d < 16);
            assert(hex_value(hex_char(d)) == d);
        }
    }
    assert forall|b: int| 0 <= b < 16 implies id_of_text(text)[b] == bytes[b] by {
        let hi = digit_of(bytes, 2 * b);
        let lo = digit_of(bytes, 2 * b + 1);
        assert(digit_index(digit_position(2 * b)) == 2 * b);
        assert(digit_index(digit_position(2 * b + 1)) == 2 * b + 1);
        assert(!is_hyphen_position(digit_position(2 * b)));
        assert(!is_hyphen_position(digit_position(2 * b + 1)));
        assert(0 <= hi < 16 && 0 <= lo < 16);
        assert(hex_value(hex_char(hi)) == hi);
        assert(hex_value(hex_char(lo)) == lo);
        assert(hi == bytes[b] as int / 16);
        assert(lo == bytes[b] as int % 16);
    }
    assert(id_of_text(text) =~= bytes);
}

/// A well-formed text is the text form of the identifier it stands for, so
/// no two texts stand for the same identifier.
pub proof fn lemma_text_is_canonical(text: Seq<char>)
    requires
        is_id_text(text),
    ensures
        id_text(id_of_text(text)) == text,
{
    let bytes = id_of_text(text);
    assert forall|i: int| 0 <= i < 36 implies id_text(bytes)[i] == text[i] by {
        if !is_hyphen_position(i) {
            let k = digit_index(i);
            let b = k / 2;
            let hi_pos = digit_position(2 * b);
            let lo_pos = digit_position(2 * b + 1);
            assert(0 <= hi_pos < 36 && 0 <= lo_pos < 36);
            assert(!is_hyphen_position(hi_pos) && !is_hyphen_position(lo_pos));
            let h = hex_value(text[hi_pos]);
            let l = hex_value(text[lo_pos]);
            assert(0 <= h < 16 && 0 <= l < 16);
            assert(bytes[b] as int == 16 * h + l);
            assert(hex_char(h) == text[hi_pos]);
            assert(hex_char(l) == text[lo_pos]);
            assert(digit_position(k) == i);
        }
    }
    assert(id_text(bytes) =~= text);
}

} // verus!
