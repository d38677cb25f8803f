//! Numbers as text, and text as numbers.

use vstd::prelude::*;
use vstd::string::{is_ascii_spec_bytes, StringExecFns, StringSliceAdditionalSpecFns};

verus! {

/// The decimal digit `d`, as a character.
pub open spec fn digit(d: int) -> char {
    if d == 0 {
        '0'
    } else if d == 1 {
        '1'
    } else if d == 2 {
        '2'
    } else if d == 3 {
        '3'
    } else if d == 4 {
        '4'
    } else if d == 5 {
        '5'
    } else if d == 6 {
        '6'
    } else if d == 7 {
        '7'
    } else if d == 8 {
        '8'
    } else {
        '9'
    }
}

/// The decimal numeral of `n`, without leading zeros.
pub open spec fn decimal(n: nat) -> Seq<char>
    decreases n,
{
    if n < 10 {
        seq![digit(n as int)]
    } else {
        decimal(n / 10).push(digit((n % 10) as int))
    }
}

/// One decimal digit as a text.
fn digit_text(d: u32) -> (text: &'static str)
    requires
        d < 10,
    ensures
        text@ == seq![digit(d as int)],
{
    proof {
        reveal_strlit("0");
        reveal_strlit("1");
        reveal_strlit("2");
        reveal_strlit("3");
        reveal_strlit("4");
        reveal_strlit("5");
        reveal_strlit("6");
        reveal_strlit("7");
        reveal_strlit("8");
        reveal_strlit("9");
    }
    let text = if d == 0 {
        "0"
    } else if d == 1 {
        "1"
    } else if d == 2 {
        "2"
    } else if d == 3 {
        "3"
    } else if d == 4 {
        "4"
    } else if d == 5 {
        "5"
    } else if d == 6 {
        "6"
    } else if d == 7 {
        "7"
    } else if d == 8 {
        "8"
    } else {
        "9"
    };
    assert(text@ =~= seq![digit(d as int)]);
    text
}

/// The decimal numeral of a number.
pub fn decimal_text(n: u32) -> (text: String)
    ensures
        text@ == decimal(n as nat),
    decreases n,
{
    if n < 10 {
        String::from_str(digit_text(n))
    } else {
        let mut text = decimal_text(n / 10);
        text.append(digit_text(n % 10));
        assert(text@ =~= decimal(n as nat));
        text
    }
}

/// Whether `c` is a decimal digit.
pub open spec fn is_digit(c: char) -> bool {
    '0' <= c <= '9'
}

/// The number that the decimal digit `c` stands for.
pub open spec fn digit_value(c: char) -> nat {
    (c as u32 - '0' as u32) as nat
}

/// Whether a text is a numeral: one decimal digit or more, and nothing
/// else.
pub open spec fn is_numeral(digits: Seq<char>) -> bool {
    digits.len() > 0 && forall|i: int| 0 <= i < digits.len() ==> is_digit(#[trigger] digits[i])
}

/// The number that a numeral stands for.
pub open spec fn numeral_value(digits: Seq<char>) -> nat
    decreases digits.len(),
{
    if digits.len() == 0 {
        0
    } else {
        numeral_value(digits.drop_last()) * 10 + digit_value(digits.last())
    }
}

/// The truth value that a text denotes: `true` or `false`, written so.
pub open spec fn truth_of(text: Seq<char>) -> Option<bool> {
    if text == "true"@ {
        Some(true)
    } else if text == "false"@ {
        Some(false)
    } else {
        None
    }
}

/// The unsigned number that a text denotes: a numeral, with a plus sign
/// before it or without, whose number fits 64 bits.
pub open spec fn unsigned_of(text: Seq<char>) -> Option<u64> {
    let digits = if text.len() > 0 && text[0] == '+' {
        text.skip(1)
    } else {
        text
    };
    if is_numeral(digits) && numeral_value(digits) <= u64::MAX {
        Some(numeral_value(digits) as u64)
    } else {
        None
    }
}

/// The signed number that a text denotes: a numeral, with a plus or a minus
/// sign before it or without, whose number fits 32 bits.
pub open spec fn signed_of(text: Seq<char>) -> Option<i32> {
    let negative = text.len() > 0 && text[0] == '-';
    let digits = if text.len() > 0 && (text[0] == '+' || text[0] == '-') {
        text.skip(1)
    } else {
        text
    };
    let value = if negative {
        -(numeral_value(digits) as int)
    } else {
        numeral_value(digits) as int
    };
    if is_numeral(digits) && i32::MIN <= value <= i32::MAX {
        Some(value as i32)
    } else {
        None
    }
}

/// The number of a numeral is not below the number of any of its beginnings.
proof fn lemma_numeral_grows(digits: Seq<char>, k: int)
    requires
        0 <= k <= digits.len(),
    ensures
        numeral_value(digits.take(k)) <= numeral_value(digits),
    decreases digits.len(),
{
    if k < digits.len() {
        lemma_numeral_grows(digits.drop_last(), k);
        assert(digits.drop_last().take(k) =~= digits.take(k));
    } else {
        assert(digits.take(k) =~= digits);
    }
}

/// A text that is not ASCII holds a character beyond ASCII: one that is
/// neither a digit nor a sign nor a letter.
proof fn lemma_not_ascii(text: &str) -> (i: int)
    requires
        !text.is_ascii(),
    ensures
        0 <= i < text@.len(),
        !('\0' <= text@[i] <= '\u{7f}'),
{
    choose|i: int| 0 <= i < text@.len() && !('\0' <= #[trigger] text@[i] <= '\u{7f}')
}

/// Reads the numeral that a text holds from `start` to its end.
fn parse_numeral(text: &str, start: usize) -> (value: Option<u64>)
    requires
        text.is_ascii(),
        start <= text@.len(),
    ensures
        value == if is_numeral(text@.skip(start as int)) && numeral_value(
            text@.skip(start as int),
        ) <= u64::MAX {
            Some(numeral_value(text@.skip(start as int)) as u64)
        } else {
            None::<u64>
        },
{
    broadcast use is_ascii_spec_bytes;

    let bytes = text.as_bytes();
    let len = bytes.len();
    let ghost digits = text@.skip(start as int);
    if start >= len {
        return None;
    }
    let mut value: u64 = 0;
    let mut i: usize = start;
    while i < len
        invariant
            start <= i <= len,
            len == text@.len(),
            text.is_ascii(),
            bytes@ == text.spec_bytes(),
            digits == text@.skip(start as int),
            forall|k: int| 0 <= k < i - start ==> is_digit(#[trigger] digits[k]),
            value == numeral_value(digits.take(i - start)),
        decreases len - i,
    {
        let byte = bytes[i];
        proof {
            assert(digits[i - start] == text@[i as int]);
            assert(byte == text@[i as int] as u8);
            assert(digits.take(i - start + 1).drop_last() =~= digits.take(i - start));
            assert(digits.take(i - start + 1).last() == text@[i as int]);
            lemma_numeral_grows(digits, i - start + 1);
        }
        if byte < 48 || byte > 57 {
            assert(!is_digit(digits[i - start]));
            return None;
        }
        let digit: u64 = (byte - 48) as u64;
        assert(digit == digit_value(text@[i as int]));
        let next = match value.checked_mul(10) {
            Some(tens) => tens.checked_add(digit),
            None => None,
        };
        match next {
            Some(next) => {
                value = next;
            },
            None => {
                return None;
            },
        }
        i += 1;
    }
    assert(digits.take(len - start) =~= digits);
    Some(value)
}

/// Reads a truth value: `true` or `false`, and nothing else.
pub fn parse_bool(text: &str) -> (value: Option<bool>)
    ensures
        value == truth_of(text@),
{
    broadcast use is_ascii_spec_bytes;

    proof {
        reveal_strlit("true");
        reveal_strlit("false");
    }
    if !text.is_ascii() {
        proof {
            let i = lemma_not_ascii(text);
            if text@ == "true"@ || text@ == "false"@ {
                assert(text@[i] <= '\u{7f}');
            }
        }
        return None;
    }
    let bytes = text.as_bytes();
    if bytes.len() == 4 && bytes[0] == 116 && bytes[1] == 114 && bytes[2] == 117 && bytes[3]
        == 101 {
        assert(text@ =~= "true"@);
        Some(true)
    } else if bytes.len() == 5 && bytes[0] == 102 && bytes[1] == 97 && bytes[2] == 108
        && bytes[3] == 115 && bytes[4] == 101 {
        assert(text@ =~= "false"@);
        Some(false)
    } else {
        proof {
            if text@ == "true"@ {
                assert(bytes@[0] == 116 && bytes@[1] == 114 && bytes@[2] == 117 && bytes@[3]
                    == 101);
            }
            if text@ == "false"@ {
                assert(bytes@[0] == 102 && bytes@[1] == 97 && bytes@[2] == 108 && bytes@[3] == 115
                    && bytes@[4] == 101);
            }
        }
        None
    }
}

/// Reads an unsigned number.
pub fn parse_u64(text: &str) -> (value: Option<u64>)
    ensures
        value == unsigned_of(text@),
{
    broadcast use is_ascii_spec_bytes;

    if !text.is_ascii() {
        proof {
            let i = lemma_not_ascii(text);
            let signed = text@.len() > 0 && text@[0] == '+';
            if signed {
                assert(text@.skip(1)[i - 1] == text@[i]);
            }
        }
        return None;
    }
    let bytes = text.as_bytes();
    let start: usize = if bytes.len() > 0 && bytes[0] == 43 {
        1
    } else {
        0
    };
    assert(start == 1 <==> (text@.len() > 0 && text@[0] == '+'));
    assert(text@.skip(0) =~= text@);
    parse_numeral(text, start)
}

/// Reads a signed number.
pub fn parse_i32(text: &str) -> (value: Option<i32>)
    ensures
        value == signed_of(text@),
{
    broadcast use is_ascii_spec_bytes;

    if !text.is_ascii() {
        proof {
            let i = lemma_not_ascii(text);
            let signed = text@.len() > 0 && (text@[0] == '+' || text@[0] == '-');
            if signed {
                assert(text@.skip(1)[i - 1] == text@[i]);
            }
        }
        return None;
    }
    let bytes = text.as_bytes();
    let negative = bytes.len() > 0 && bytes[0] == 45;
    let start: usize = if bytes.len() > 0 && (bytes[0] == 43 || bytes[0] == 45) {
        1
    } else {
        0
    };
    assert(negative <==> (text@.len() > 0 && text@[0] == '-'));
    assert(start == 1 <==> (text@.len() > 0 && (text@[0] == '+' || text@[0] == '-')));
    assert(text@.skip(0) =~= text@);
    match parse_numeral(text, start) {
        None => None,
        Some(magnitude) => {
            if negative {
                if magnitude <= 2147483648 {
                    Some((0 - magnitude as i64) as i32)
                } else {
                    None
                }
            } else {
                if magnitude <= 2147483647 {
                    Some(magnitude as i32)
                } else {
                    None
                }
            }
        },
    }
}

/// The decimal numeral of a number is a numeral, and stands for that number.
pub proof fn lemma_decimal_is_numeral(n: nat)
    ensures
        is_numeral(decimal(n)),
        numeral_value(decimal(n)) == n,
    decreases n,
{
    if n < 10 {
        let text = decimal(n);
        assert(text.drop_last() =~= Seq::<char>::empty());
        assert(numeral_value(text.drop_last()) == 0);
    } else {
        lemma_decimal_is_numeral(n / 10);
        let text = decimal(n);
        assert(text.drop_last() =~= decimal(n / 10));
        assert(text.last() == digit((n % 10) as int));
    }
}

/// What is written is read back: the decimal numeral of a number denotes
/// that number.
pub proof fn lemma_decimal_is_read_back(n: u64)
    ensures
        unsigned_of(decimal(n as nat)) == Some(n),
{
    lemma_decimal_is_numeral(n as nat);
    assert(is_digit(decimal(n as nat)[0]));
}

} // verus!
