//! Lowercase hexadecimal encoding and decoding of byte strings.

use vstd::prelude::*;
use vstd::string::StrSliceExecFns;
use vstd::string::StringExecFns;

verus! {

broadcast use vstd::array::group_array_axioms;

/// The lowercase hexadecimal digit standing for a value below sixteen.
pub open spec fn hex_char_of(n: int) -> char {
    if n == 0 {
        '0'
    } else if n == 1 {
        '1'
    } else if n == 2 {
        '2'
    } else if n == 3 {
        '3'
    } else if n == 4 {
        '4'
    } else if n == 5 {
        '5'
    } else if n == 6 {
        '6'
    } else if n == 7 {
        '7'
    } else if n == 8 {
        '8'
    } else if n == 9 {
        '9'
    } else if n == 10 {
        'a'
    } else if n == 11 {
        'b'
    } else if n == 12 {
        'c'
    } else if n == 13 {
        'd'
    } else if n == 14 {
        'e'
    } else {
        'f'
    }
}

/// Lowercase hexadecimal text of a byte string, two digits per byte,
/// without any prefix.
pub open spec fn hex_of(bs: Seq<u8>) -> Seq<char>
    decreases bs.len(),
{
    if bs.len() == 0 {
        Seq::empty()
    } else {
        hex_of(bs.drop_last()) + seq![
            hex_char_of(bs.last() as int / 16),
            hex_char_of(bs.last() as int % 16),
        ]
    }
}

/// The value of one hexadecimal digit, upper or lower case,
/// or a negative number for any other character.
pub open spec fn hex_val_of(c: char) -> int {
    if c == '0' {
        0
    } else if c == '1' {
        1
    } else if c == '2' {
        2
    } else if c == '3' {
        3
    } else if c == '4' {
        4
    } else if c == '5' {
        5
    } else if c == '6' {
        6
    } else if c == '7' {
        7
    } else if c == '8' {
        8
    } else if c == '9' {
        9
    } else if c == 'a' || c == 'A' {
        10
    } else if c == 'b' || c == 'B' {
        11
    } else if c == 'c' || c == 'C' {
        12
    } else if c == 'd' || c == 'D' {
        13
    } else if c == 'e' || c == 'E' {
        14
    } else if c == 'f' || c == 'F' {
        15
    } else {
        -1
    }
}

pub open spec fn is_hex_digit(c: char) -> bool {
    hex_val_of(c) >= 0
}

/// The text with one leading "0x" or "0X" removed, if it has one.
pub open spec fn strip_hex_prefix(s: Seq<char>) -> Seq<char> {
    if s.len() >= 2 && s[0] == '0' && (s[1] == 'x' || s[1] == 'X') {
        s.skip(2)
    } else {
        s
    }
}

/// The text reads as the hexadecimal digits of exactly these bytes.
pub open spec fn hex_decodes_to(s: Seq<char>, bs: Seq<u8>) -> bool {
    &&& s.len() == 2 * bs.len()
    &&& forall|i: int|
        0 <= i < bs.len() ==> is_hex_digit(#[trigger] s[2 * i]) && is_hex_digit(s[2 * i + 1])
            && bs[i] == hex_val_of(s[2 * i]) * 16 + hex_val_of(s[2 * i + 1])
}

/// The digits of a text determine the bytes: one text decodes to at most
/// one byte string.
pub proof fn lemma_hex_decode_unique(s: Seq<char>, bs1: Seq<u8>, bs2: Seq<u8>)
    requires
        hex_decodes_to(s, bs1),
        hex_decodes_to(s, bs2),
    ensures
        bs1 == bs2,
{
    assert(bs1.len() == bs2.len());
    assert forall|i: int| 0 <= i < bs1.len() implies bs1[i] == bs2[i] by {
        let digit = s[2 * i];
    }
    assert(bs1 =~= bs2);
}

fn nibble_str(n: u8) -> (r: &'static str)
    requires
        n < 16,
    ensures
        r@ == seq![hex_char_of(n as int)],
{
    let r: &'static str = match n {
        0 => "0",
        1 => "1",
        2 => "2",
        3 => "3",
        4 => "4",
        5 => "5",
        6 => "6",
        7 => "7",
        8 => "8",
        9 => "9",
        10 => "a",
        11 => "b",
        12 => "c",
        13 => "d",
        14 => "e",
        _ => "f",
    };
    proof {
        reveal_strlit("0");
        reveal_strlit("1");
        reveal_strlit("2");
        reveal_strlit("3");
        reveal_strlit("4");
        reveal_strlit("5");
        reveal_strlit("6");
        reveal_strlit("7");
        reveal_strlit("8");
        reveal_strlit("9");
        reveal_strlit("a");
        reveal_strlit("b");
        reveal_strlit("c");
        reveal_strlit("d");
        reveal_strlit("e");
        reveal_strlit("f");
        assert(r@ =~= seq![hex_char_of(n as int)]);
    }
    r
}

/// Encodes bytes as lowercase hexadecimal text without a prefix.
pub fn encode_hex(bytes: &[u8]) -> (r: String)
    ensures
        r@ == hex_of(bytes@),
{
    let mut r = String::new();
    let mut i: usize = 0;
    while i < bytes.len()
        invariant
            i <= bytes@.len(),
            r@ == hex_of(bytes@.take(i as int)),
        decreases bytes@.len() - i,
    {
        let b = bytes[i];
        r.append(nibble_str(b / 16));
        r.append(nibble_str(b % 16));
        proof {
            let pre = bytes@.take(i as int + 1);
            assert(pre.drop_last() =~= bytes@.take(i as int));
            assert(pre.last() == bytes@[i as int]);
            assert(r@ =~= hex_of(bytes@.take(i as int + 1)));
        }
        i = i + 1;
    }
    proof {
        assert(bytes@.take(bytes@.len() as int) =~= bytes@);
    }
    r
}

fn hex_val(c: char) -> (r: Option<u8>)
    ensures
        r matches Some(v) ==> v == hex_val_of(c) && v < 16,
        r is None <==> !is_hex_digit(c),
{
    match c {
        '0' => Some(0),
        '1' => Some(1),
        '2' => Some(2),
        '3' => Some(3),
        '4' => Some(4),
        '5' => Some(5),
        '6' => Some(6),
        '7' => Some(7),
        '8' => Some(8),
        '9' => Some(9),
        'a' | 'A' => Some(10),
        'b' | 'B' => Some(11),
        'c' | 'C' => Some(12),
        'd' | 'D' => Some(13),
        'e' | 'E' => Some(14),
        'f' | 'F' => Some(15),
        _ => None,
    }
}

/// Decodes a 32-byte value from hexadecimal text: an optional "0x" prefix
/// followed by exactly 64 hexadecimal digits.
pub fn decode_hex_32(s: &str) -> (r: Option<[u8; 32]>)
    ensures
        r matches Some(bs) ==> hex_decodes_to(strip_hex_prefix(s@), bs@),
        r is None ==> forall|bs: Seq<u8>|
            bs.len() == 32 ==> !hex_decodes_to(strip_hex_prefix(s@), bs),
{
    let n = s.unicode_len();
    let off: usize = if n >= 2 && s.get_char(0) == '0' && (s.get_char(1) == 'x' || s.get_char(1)
        == 'X') {
        2
    } else {
        0
    };
    let ghost body = strip_hex_prefix(s@);
    proof {
        assert(body =~= s@.skip(off as int));
    }
    if n - off != 64 {
        proof {
            assert forall|bs: Seq<u8>| bs.len() == 32 implies !hex_decodes_to(body, bs) by {
                if hex_decodes_to(body, bs) {
                    assert(body.len() == 2 * bs.len());
                }
            }
        }
        return None;
    }
    let mut out = [0u8; 32];
    let mut i: usize = 0;
    while i < 32
        invariant
            i <= 32,
            off + 64 == n,
            n == s@.len(),
            body =~= s@.skip(off as int),
            body.len() == 64,
            forall|j: int|
                0 <= j < i ==> is_hex_digit(#[trigger] body[2 * j]) && is_hex_digit(body[2 * j + 1])
                    && out@[j] == hex_val_of(body[2 * j]) * 16 + hex_val_of(body[2 * j + 1]),
        decreases 32 - i,
    {
        let hi = match hex_val(s.get_char(off + 2 * i)) {
            Some(v) => v,
            None => {
                proof {
                    assert(body[2 * (i as int)] == s@[off + 2 * i]);
                    assert forall|bs: Seq<u8>| bs.len() == 32 implies !hex_decodes_to(body, bs)
                        by {
                        if hex_decodes_to(body, bs) {
                            let probe = body[2 * (i as int)];
                            assert(is_hex_digit(body[2 * (i as int)]));
                        }
                    }
                }
                return None;
            },
        };
        let lo = match hex_val(s.get_char(off + 2 * i + 1)) {
            Some(v) => v,
            None => {
                proof {
                    assert(body[2 * (i as int) + 1] == s@[off + 2 * i + 1]);
                    assert forall|bs: Seq<u8>| bs.len() == 32 implies !hex_decodes_to(body, bs)
                        by {
                        if hex_decodes_to(body, bs) {
                            let probe = body[2 * (i as int)];
                            assert(is_hex_digit(body[2 * (i as int) + 1]));
                        }
                    }
                }
                return None;
            },
        };
        let ghost prev = out@;
        out[i] = hi * 16 + lo;
        proof {
            assert(body[2 * (i as int)] == s@[off + 2 * i]);
            assert(body[2 * (i as int) + 1] == s@[off + 2 * i + 1]);
            assert(out@ == prev.update(i as int, (hi * 16 + lo) as u8));
        }
        i = i + 1;
    }
    proof {
        assert(hex_decodes_to(body, out@));
    }
    Some(out)
}

} // verus!
