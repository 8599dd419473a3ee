//! Hexadecimal digits and the encoding in which an identity is shown.

use vstd::prelude::*;

verus! {

/// The lower-case hexadecimal digit for `d`.
pub open spec fn hex_char(d: int) -> char
    recommends
        0 <= d < 16,
{
    if d < 10 {
        ('0' as int + d) as char
    } else {
        ('a' as int + (d - 10)) as char
    }
}

/// The encoding of `bytes`: two digits for each byte, the high half first.
pub open spec fn hex(bytes: Seq<u8>) -> Seq<char> {
    Seq::new(
        2 * bytes.len(),
        |i: int|
            if i % 2 == 0 {
                hex_char(bytes[i / 2] as int / 16)
            } else {
                hex_char(bytes[i / 2] as int % 16)
            },
    )
}

/// The digit for `d`, as a string of one character.
pub fn hex_digit(d: u8) -> (digit: &'static str)
    requires
        d < 16,
    ensures
        digit@ == seq![hex_char(d as int)],
{
    proof {
        reveal_strlit("0");
        reveal_strlit("1");
        reveal_strlit("2");
        reveal_strlit("3");
        reveal_strlit("4");
        reveal_strlit("5");
        reveal_strlit("6");
        reveal_strlit("7");
        reveal_strlit("8");
        reveal_strlit("9");
        reveal_strlit("a");
        reveal_strlit("b");
        reveal_strlit("c");
        reveal_strlit("d");
        reveal_strlit("e");
        reveal_strlit("f");
    }
    match d {
        0 => "0",
        1 => "1",
        2 => "2",
        3 => "3",
        4 => "4",
        5 => "5",
        6 => "6",
        7 => "7",
        8 => "8",
        9 => "9",
        10 => "a",
        11 => "b",
        12 => "c",
        13 => "d",
        14 => "e",
        _ => "f",
    }
}

/// Lowercase, zero-padded hex encoding, e.g. `[0x02, 0xff]` -> "02ff".
pub fn to_hex(bytes: &[u8]) -> (text: String)
    ensures
        text@ == hex(bytes@),
{
    let mut text = String::new();
    let mut i: usize = 0;
    while i < bytes.len()
        invariant
            i <= bytes@.len(),
            text@ == hex(bytes@.take(i as int)),
        decreases bytes@.len() - i,
    {
        let ghost shorter = bytes@.take(i as int);
        let ghost longer = bytes@.take(i + 1);
        let byte: u8 = bytes[i];
        text.append(hex_digit(byte / 16));
        text.append(hex_digit(byte % 16));
        proof {
            assert(longer == shorter.push(byte));
            assert(text@ =~= hex(longer));
        }
        i = i + 1;
    }
    proof {
        assert(bytes@.take(bytes@.len() as int) == bytes@);
    }
    text
}

/// The encoding has twice as many characters as there are bytes, each of them a digit or one
/// of the letters `a` to `f`.
pub proof fn law_hex_alphabet(bytes: Seq<u8>)
    ensures
        hex(bytes).len() == 2 * bytes.len(),
        forall|i: int|
            0 <= i < hex(bytes).len() ==> {
                let c = #[trigger] hex(bytes)[i];
                '0' <= c <= '9' || 'a' <= c <= 'f'
            },
{
}

/// Each byte can be read off its two characters: the first stands for the high half of the byte
/// and the second for the low half, a digit for its value and a letter for ten more than its
/// place after `a`.
pub proof fn law_hex_reads_back(bytes: Seq<u8>, k: int)
    requires
        0 <= k < bytes.len(),
    ensures
        hex(bytes).len() == 2 * bytes.len(),
        ({
            let high = hex(bytes)[2 * k];
            let low = hex(bytes)[2 * k + 1];
            &&& '0' <= high <= '9' || 'a' <= high <= 'f'
            &&& '0' <= low <= '9' || 'a' <= low <= 'f'
            &&& bytes[k] == 16 * (if high <= '9' {
                high as int - '0' as int
            } else {
                high as int - 'a' as int + 10
            }) + (if low <= '9' {
                low as int - '0' as int
            } else {
                low as int - 'a' as int + 10
            })
        }),
{
    assert(hex(bytes)[2 * k] == hex_char(bytes[k] as int / 16));
    assert(hex(bytes)[2 * k + 1] == hex_char(bytes[k] as int % 16));
}

/// A digit below ten is the character that many places after `0`, and the others follow from
/// `a`.
pub proof fn law_hex_char(d: int)
    requires
        0 <= d < 16,
    ensures
        d < 10 ==> hex_char(d) as int == '0' as int + d,
        d >= 10 ==> hex_char(d) as int == 'a' as int + (d - 10),
{
}

/// Different digits are different characters.
proof fn lemma_hex_char_injective(x: int, y: int)
    requires
        0 <= x < 16,
        0 <= y < 16,
        hex_char(x) == hex_char(y),
    ensures
        x == y,
{
    assert(hex_char(x) as int == hex_char(y) as int);
}

/// Different byte strings have different encodings.
pub proof fn law_hex_injective(a: Seq<u8>, b: Seq<u8>)
    requires
        hex(a) == hex(b),
    ensures
        a == b,
{
    assert(hex(a).len() == 2 * a.len() && hex(b).len() == 2 * b.len());
    assert forall|k: int| 0 <= k < a.len() implies a[k] == b[k] by {
        assert(hex(a)[2 * k] == hex_char(a[k] as int / 16));
        assert(hex(b)[2 * k] == hex_char(b[k] as int / 16));
        assert(hex(a)[2 * k + 1] == hex_char(a[k] as int % 16));
        assert(hex(b)[2 * k + 1] == hex_char(b[k] as int % 16));
        lemma_hex_char_injective(a[k] as int / 16, b[k] as int / 16);
        lemma_hex_char_injective(a[k] as int % 16, b[k] as int % 16);
    }
    assert(a =~= b);
}

/// The encoding of a concatenation is the concatenation of the encodings.
pub proof fn law_hex_concat(a: Seq<u8>, b: Seq<u8>)
    ensures
        hex(a + b) == hex(a) + hex(b),
{
    assert forall|i: int| 0 <= i < 2 * (a.len() + b.len()) implies hex(a + b)[i] == (hex(a) + hex(
        b,
    ))[i] by {
        if i >= 2 * a.len() {
            let j = i - 2 * a.len();
            assert(i / 2 == a.len() + j / 2);
            assert(i % 2 == j % 2);
        }
    }
    assert(hex(a + b) =~= hex(a) + hex(b));
}

} // verus!
