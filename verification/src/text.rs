//! Decimal text: how numbers are written, and how a descriptor number is read back.

use crate::hex::{hex_char, hex_digit};
use vstd::prelude::*;

verus! {

/// The decimal form of `n`, without leading zeros.
pub open spec fn decimal(n: nat) -> Seq<char>
    decreases n,
{
    if n < 10 {
        seq![hex_char(n as int)]
    } else {
        decimal(n / 10).push(hex_char((n % 10) as int))
    }
}

/// The decimal form of `i`, with a minus sign where it is negative.
pub open spec fn signed_decimal(i: int) -> Seq<char> {
    if i < 0 {
        seq!['-'] + decimal((-i) as nat)
    } else {
        decimal(i as nat)
    }
}

/// Writes `n` in decimal.
pub fn u64_text(n: u64) -> (text: String)
    ensures
        text@ == decimal(n as nat),
    decreases n,
{
    if n < 10 {
        hex_digit(n as u8).to_owned()
    } else {
        let mut text = u64_text(n / 10);
        text.append(hex_digit((n % 10) as u8));
        text
    }
}

/// Writes `i` in decimal.
pub fn i32_text(i: i32) -> (text: String)
    ensures
        text@ == signed_decimal(i as int),
{
    if i < 0 {
        let mut text = "-".to_owned();
        text.append(u64_text((-(i as i64)) as u64).as_str());
        proof {
            reveal_strlit("-");
            assert("-"@ =~= seq!['-']);
        }
        text
    } else {
        u64_text(i as u64)
    }
}

/// Whether `c` is a decimal digit.
pub open spec fn is_digit(c: char) -> bool {
    '0' <= c <= '9'
}

/// The number that a string of digits stands for.
pub open spec fn digits_value(digits: Seq<char>) -> int
    recommends
        forall|i: int| 0 <= i < digits.len() ==> is_digit(#[trigger] digits[i]),
    decreases digits.len(),
{
    if digits.len() == 0 {
        0
    } else {
        digits_value(digits.drop_last()) * 10 + (digits.last() as int - '0' as int)
    }
}

/// How many digits `s` begins with.
pub open spec fn leading_digits(s: Seq<char>) -> nat
    decreases s.len(),
{
    if s.len() > 0 && is_digit(s[0]) {
        1 + leading_digits(s.skip(1))
    } else {
        0
    }
}

/// Why a text is not a descriptor number.
#[derive(Debug, Clone, Copy, PartialEq, Eq, Structural)]
pub enum IntFault {
    /// There is nothing to read.
    Empty,
    /// A character is no digit, or a sign stands alone.
    InvalidDigit,
    /// The number is above the largest `i32`.
    PosOverflow,
    /// The number is below the smallest `i32`.
    NegOverflow,
}

impl IntFault {
    /// The name of the fault.
    pub open spec fn name(self) -> Seq<char> {
        match self {
            IntFault::Empty => "Empty"@,
            IntFault::InvalidDigit => "InvalidDigit"@,
            IntFault::PosOverflow => "PosOverflow"@,
            IntFault::NegOverflow => "NegOverflow"@,
        }
    }

    /// The fault as a panic message shows it.
    pub open spec fn shown(self) -> Seq<char> {
        "ParseIntError { kind: "@ + self.name() + " }"@
    }

    /// Writes the fault as a panic message shows it.
    pub fn debug_text(self) -> (text: String)
        ensures
            text@ == self.shown(),
    {
        let name = match self {
            IntFault::Empty => "Empty",
            IntFault::InvalidDigit => "InvalidDigit",
            IntFault::PosOverflow => "PosOverflow",
            IntFault::NegOverflow => "NegOverflow",
        };
        let mut text = "ParseIntError { kind: ".to_owned();
        text.append(name);
        text.append(" }");
        text
    }
}

/// What `text` stands for as an `i32`: an optional sign and at least one digit, and nothing
/// after them. A number that leaves the range of `i32` is reported before a character that
/// follows its digits.
pub open spec fn read_i32(text: Seq<char>) -> Result<i32, IntFault> {
    if text.len() == 0 {
        Err(IntFault::Empty)
    } else {
        let signed = text[0] == '+' || text[0] == '-';
        let negative = text[0] == '-';
        let body = if signed {
            text.skip(1)
        } else {
            text
        };
        let count = leading_digits(body);
        let magnitude = digits_value(body.take(count as int));
        if negative && -magnitude < i32::MIN {
            Err(IntFault::NegOverflow)
        } else if !negative && magnitude > i32::MAX {
            Err(IntFault::PosOverflow)
        } else if count < body.len() || body.len() == 0 {
            Err(IntFault::InvalidDigit)
        } else if negative {
            Ok((-magnitude) as i32)
        } else {
            Ok(magnitude as i32)
        }
    }
}

proof fn lemma_leading_digits(s: Seq<char>, k: int)
    requires
        0 <= k <= s.len(),
        forall|j: int| 0 <= j < k ==> is_digit(#[trigger] s[j]),
    ensures
        k <= leading_digits(s) <= s.len(),
        k == s.len() || !is_digit(s[k]) ==> leading_digits(s) == k,
        forall|j: int| 0 <= j < leading_digits(s) ==> is_digit(#[trigger] s[j]),
    decreases s.len(),
{
    if s.len() > 0 && is_digit(s[0]) {
        let rest = s.skip(1);
        let shorter = if k > 0 {
            k - 1
        } else {
            0
        };
        assert forall|j: int| 0 <= j < shorter implies is_digit(#[trigger] rest[j]) by {
            assert(rest[j] == s[j + 1]);
        }
        lemma_leading_digits(rest, shorter);
        assert forall|j: int| 0 <= j < leading_digits(s) implies is_digit(#[trigger] s[j]) by {
            if j > 0 {
                assert(s[j] == rest[j - 1]);
            }
        }
    }
}

proof fn lemma_digits_value_grows(s: Seq<char>, j: int, k: int)
    requires
        0 <= j <= k <= s.len(),
        forall|i: int| 0 <= i < k ==> is_digit(#[trigger] s[i]),
    ensures
        0 <= digits_value(s.take(j)) <= digits_value(s.take(k)),
    decreases k,
{
    if k > 0 {
        assert(s.take(k).drop_last() =~= s.take(k - 1));
        if j < k {
            lemma_digits_value_grows(s, j, k - 1);
        } else {
            lemma_digits_value_grows(s, k - 1, k - 1);
        }
    }
}

/// Reads an `i32`.
pub fn parse_i32(text: &str) -> (number: Result<i32, IntFault>)
    ensures
        number == read_i32(text@),
{
    let len: usize = text.unicode_len();
    if len == 0 {
        return Err(IntFault::Empty);
    }
    let first: char = text.get_char(0);
    let negative: bool = first == '-';
    let signed: bool = negative || first == '+';
    let start: usize = if signed {
        1
    } else {
        0
    };
    let limit: i64 = if negative {
        2147483648
    } else {
        2147483647
    };
    let ghost body = if signed {
        text@.skip(1)
    } else {
        text@
    };
    let mut magnitude: i64 = 0;
    let mut i: usize = start;
    while i < len
        invariant
            len == text@.len(),
            start <= i <= len,
            start <= 1,
            body == text@.skip(start as int),
            limit == if negative {
                2147483648i64
            } else {
                2147483647i64
            },
            negative == (text@[0] == '-'),
            body == if text@[0] == '+' || text@[0] == '-' {
                text@.skip(1)
            } else {
                text@
            },
            forall|j: int| 0 <= j < i - start ==> is_digit(#[trigger] body[j]),
            magnitude == digits_value(body.take(i - start)),
            0 <= magnitude <= limit,
        decreases len - i,
    {
        let c: char = text.get_char(i);
        let ghost k = i - start;
        assert(body[k] == c);
        if c < '0' || c > '9' {
            proof {
                lemma_leading_digits(body, k);
            }
            return Err(IntFault::InvalidDigit);
        }
        magnitude = magnitude * 10 + (c as u32 - '0' as u32) as i64;
        proof {
            assert(body.take(k + 1).drop_last() =~= body.take(k));
            assert(magnitude == digits_value(body.take(k + 1)));
        }
        if magnitude > limit {
            proof {
                lemma_leading_digits(body, k + 1);
                lemma_digits_value_grows(body, k + 1, leading_digits(body) as int);
            }
            if negative {
                return Err(IntFault::NegOverflow);
            } else {
                return Err(IntFault::PosOverflow);
            }
        }
        i = i + 1;
    }
    proof {
        lemma_leading_digits(body, len - start);
    }
    if start == len {
        return Err(IntFault::InvalidDigit);
    }
    if negative {
        Ok((-magnitude) as i32)
    } else {
        Ok(magnitude as i32)
    }
}

/// The decimal form of a number is made of digits, begins with `0` only where the number is
/// zero, and stands for the number.
pub proof fn law_decimal_stands_for_number(n: nat)
    ensures
        decimal(n).len() > 0,
        forall|i: int| 0 <= i < decimal(n).len() ==> is_digit(#[trigger] decimal(n)[i]),
        decimal(n)[0] == '0' ==> n == 0,
        digits_value(decimal(n)) == n,
    decreases n,
{
    if n < 10 {
        assert(digits_value(Seq::<char>::empty()) == 0);
        assert(decimal(n).drop_last() =~= Seq::<char>::empty());
    } else {
        law_decimal_stands_for_number(n / 10);
        assert(decimal(n).drop_last() =~= decimal(n / 10));
    }
}

/// A descriptor number that was written in decimal is read back as the same number.
pub proof fn law_descriptor_round_trip(fd: i32)
    ensures
        read_i32(signed_decimal(fd as int)) == Ok::<i32, IntFault>(fd),
{
    let magnitude = if fd < 0 {
        (-fd) as nat
    } else {
        fd as nat
    };
    let text = signed_decimal(fd as int);
    let body = if fd < 0 {
        text.skip(1)
    } else {
        text
    };
    law_decimal_stands_for_number(magnitude);
    assert(body =~= decimal(magnitude));
    lemma_leading_digits(body, body.len() as int);
    assert(body.take(body.len() as int) =~= body);
    assert(is_digit(decimal(magnitude)[0]));
}

/// The decimal form of a number ends with the digit for the number's remainder by ten; what
/// stands before that digit is the decimal form of a tenth of the number, and nothing where the
/// number is below ten.
pub proof fn law_decimal_digits(n: nat)
    ensures
        decimal(n).len() > 0,
        decimal(n).last() as int == '0' as int + n % 10,
        n < 10 ==> decimal(n).len() == 1,
        n >= 10 ==> decimal(n).drop_last() == decimal(n / 10),
{
    if n >= 10 {
        assert(decimal(n).drop_last() =~= decimal(n / 10));
    }
}

/// The decimal form of a negative number is a minus sign and the decimal form of its magnitude;
/// any other number is written without a sign.
pub proof fn law_signed_decimal(i: int)
    ensures
        i >= 0 ==> signed_decimal(i) == decimal(i as nat),
        i < 0 ==> signed_decimal(i).len() > 0 && signed_decimal(i)[0] == '-' && signed_decimal(
            i,
        ).skip(1) == decimal((-i) as nat),
{
    if i < 0 {
        assert(signed_decimal(i).skip(1) =~= decimal((-i) as nat));
    }
}

/// A digit more makes a string of digits stand for ten times as much and the digit.
pub proof fn law_digits_value(digits: Seq<char>, c: char)
    ensures
        digits_value(Seq::<char>::empty()) == 0,
        digits_value(digits.push(c)) == 10 * digits_value(digits) + (c as int - '0' as int),
        is_digit(c) <==> '0' <= c <= '9',
{
    assert(digits.push(c).drop_last() =~= digits);
}

proof fn lemma_leading_digits_push(s: Seq<char>, c: char)
    ensures
        leading_digits(s) <= s.len(),
        leading_digits(s) == s.len() && is_digit(c) ==> leading_digits(s.push(c)) == s.len() + 1,
        !(leading_digits(s) == s.len() && is_digit(c)) ==> leading_digits(s.push(c))
            == leading_digits(s),
        s.push(c).take(leading_digits(s) as int) == s.take(leading_digits(s) as int),
        digits_value(s.take(leading_digits(s) as int)) >= 0,
{
    let count = leading_digits(s) as int;
    let longer = s.push(c);
    lemma_leading_digits(s, 0);
    lemma_leading_digits(s, count);
    lemma_digits_value_grows(s, count, count);
    assert(longer.take(count) =~= s.take(count));
    assert forall|j: int| 0 <= j < count implies is_digit(#[trigger] longer[j]) by {
        assert(s[j] == longer[j]);
    }
    if count == s.len() && is_digit(c) {
        lemma_leading_digits(longer, s.len() as int + 1);
    } else {
        if count < s.len() && is_digit(s[count]) {
            assert forall|j: int| 0 <= j < count + 1 implies is_digit(#[trigger] s[j]) by {}
            lemma_leading_digits(s, count + 1);
        }
        lemma_leading_digits(longer, count);
    }
}

/// How a number is read, character by character: the empty text is a fault of its own; a first
/// character is a digit, or a sign with a digit after it; and each further digit makes the
/// number ten times as large, and adds to it or, after a minus sign, takes from it. Out of
/// range the text stays out of range, and after any other fault it stays faulty, whatever
/// follows.
pub proof fn law_read_i32_by_character(s: Seq<char>, c: char)
    ensures
        read_i32(Seq::<char>::empty()) == Err::<i32, IntFault>(IntFault::Empty),
        read_i32(seq![c]) == (if '0' <= c <= '9' {
            Ok::<i32, IntFault>((c as int - '0' as int) as i32)
        } else {
            Err(IntFault::InvalidDigit)
        }),
        read_i32(seq!['+', c]) == (if '0' <= c <= '9' {
            Ok::<i32, IntFault>((c as int - '0' as int) as i32)
        } else {
            Err(IntFault::InvalidDigit)
        }),
        read_i32(seq!['-', c]) == (if '0' <= c <= '9' {
            Ok::<i32, IntFault>((-(c as int - '0' as int)) as i32)
        } else {
            Err(IntFault::InvalidDigit)
        }),
        s.len() > 1 || s.len() == 1 && s[0] != '+' && s[0] != '-' ==> read_i32(s.push(c)) == (
        match read_i32(s) {
            Ok(v) => {
                let next = if s[0] == '-' {
                    10 * v - (c as int - '0' as int)
                } else {
                    10 * v + (c as int - '0' as int)
                };
                if c < '0' || c > '9' {
                    Err(IntFault::InvalidDigit)
                } else if next > i32::MAX {
                    Err(IntFault::PosOverflow)
                } else if next < i32::MIN {
                    Err(IntFault::NegOverflow)
                } else {
                    Ok(next as i32)
                }
            },
            Err(fault) => Err(fault),
        }),
{
    let none = Seq::<char>::empty();
    lemma_leading_digits_push(none, c);
    law_digits_value(none, c);
    assert(none.push(c) =~= seq![c]);
    assert(seq![c].take(1) =~= none.push(c));
    assert(seq![c].take(0) =~= none);
    assert(seq!['+', c].skip(1) =~= seq![c]);
    assert(seq!['-', c].skip(1) =~= seq![c]);
    assert(seq![c].skip(1) =~= none);
    if s.len() > 1 || s.len() == 1 && s[0] != '+' && s[0] != '-' {
        let signed = s[0] == '+' || s[0] == '-';
        let body = if signed {
            s.skip(1)
        } else {
            s
        };
        let longer = s.push(c);
        assert((if signed {
            longer.skip(1)
        } else {
            longer
        }) =~= body.push(c));
        lemma_leading_digits_push(body, c);
        let count = leading_digits(body) as int;
        law_digits_value(body.take(count), c);
        if count == body.len() {
            assert(body.take(count) =~= body);
            assert(body.push(c).take(count + 1) =~= body.push(c));
        }
    }
}

/// How a panic message shows each fault.
pub proof fn law_faults_shown()
    ensures
        IntFault::Empty.shown() == "ParseIntError { kind: Empty }"@,
        IntFault::InvalidDigit.shown() == "ParseIntError { kind: InvalidDigit }"@,
        IntFault::PosOverflow.shown() == "ParseIntError { kind: PosOverflow }"@,
        IntFault::NegOverflow.shown() == "ParseIntError { kind: NegOverflow }"@,
{
    reveal_strlit("ParseIntError { kind: ");
    reveal_strlit(" }");
    reveal_strlit("Empty");
    reveal_strlit("InvalidDigit");
    reveal_strlit("PosOverflow");
    reveal_strlit("NegOverflow");
    reveal_strlit("ParseIntError { kind: Empty }");
    reveal_strlit("ParseIntError { kind: InvalidDigit }");
    reveal_strlit("ParseIntError { kind: PosOverflow }");
    reveal_strlit("ParseIntError { kind: NegOverflow }");
    assert(IntFault::Empty.shown() =~= "ParseIntError { kind: Empty }"@);
    assert(IntFault::InvalidDigit.shown() =~= "ParseIntError { kind: InvalidDigit }"@);
    assert(IntFault::PosOverflow.shown() =~= "ParseIntError { kind: PosOverflow }"@);
    assert(IntFault::NegOverflow.shown() =~= "ParseIntError { kind: NegOverflow }"@);
}

} // verus!
