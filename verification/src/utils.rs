//! Small helpers of the parser: splitting at a position, the hexadecimal
//! suffix of a crate's file name, and decimal numbers.
use crate::parse_context::ParseContext;
use crate::parse_error::{failure_at, ParseError, ParseErrorKind};
use crate::text::{at_boundary, lemma_str_bytes_valid, slice};
use vstd::prelude::*;
use vstd::string::*;

verus! {

/// Splits the input into the part before and the part after
/// the byte at `idx` (that byte is not included in either part).
/// Both `idx` and `idx + 1` have to be character boundaries of `data`.
pub fn exclusive_split_at_index(data: &str, idx: usize) -> (parts: (&str, &str))
    requires
        idx < data.spec_bytes().len(),
        at_boundary(data.spec_bytes(), idx as int),
        at_boundary(data.spec_bytes(), idx + 1),
    ensures
        parts.0.spec_bytes() == data.spec_bytes().subrange(0, idx as int),
        parts.1.spec_bytes() == data.spec_bytes().subrange(
            idx + 1,
            data.spec_bytes().len() as int,
        ),
{
    proof {
        lemma_str_bytes_valid(data);
    }
    let n = data.as_bytes().len();
    (slice(data, 0, idx), slice(data, idx + 1, n))
}

/// Splits the input into the part before and including
/// the byte at `idx`, and the part after that.
/// `idx + 1` has to be a character boundary of `data`.
pub fn inclusive_split_at_index(data: &str, idx: usize) -> (parts: (&str, &str))
    requires
        idx < data.spec_bytes().len(),
        at_boundary(data.spec_bytes(), idx + 1),
    ensures
        parts.0.spec_bytes() == data.spec_bytes().subrange(0, idx + 1),
        parts.1.spec_bytes() == data.spec_bytes().subrange(
            idx + 1,
            data.spec_bytes().len() as int,
        ),
{
    proof {
        lemma_str_bytes_valid(data);
    }
    let n = data.as_bytes().len();
    (slice(data, 0, idx + 1), slice(data, idx + 1, n))
}

/// The byte is an ASCII hexadecimal digit, in upper or lower case.
pub open spec fn is_hex_digit(b: u8) -> bool {
    (0x30 <= b <= 0x39) || (0x41 <= b <= 0x46) || (0x61 <= b <= 0x66)
}

/// The text is a UUID as cargo writes it: exactly 16 hexadecimal digits.
pub open spec fn valid_uuid(b: Seq<u8>) -> bool {
    b.len() == 16 && forall|i: int| 0 <= i < b.len() ==> is_hex_digit(#[trigger] b[i])
}

/// Checks to see whether a string contains a valid UUID.
/// The string is expected to be 16 bytes long and contain
/// only hex digits, in upper or lower case, for example
/// "9bdf7ee7378a8684". This is the format output by cargo.
pub fn is_valid_uuid<'a, 'ctx>(data: &'a str, ctx: &'ctx ParseContext) -> (r: Result<
    &'a str,
    ParseError,
>)
    ensures
        match r {
            Ok(uuid) => valid_uuid(data.spec_bytes()) && uuid.spec_bytes() == data.spec_bytes(),
            Err(e) => !valid_uuid(data.spec_bytes()) && e@ == failure_at(
                ParseErrorKind::MalformedUuid,
                ctx,
                Seq::empty(),
            ),
        },
{
    let b = data.as_bytes();
    if b.len() == 16 {
        let mut i: usize = 0;
        while i < 16
            invariant
                b@ == data.spec_bytes(),
                b@.len() == 16,
                i <= 16,
                forall|j: int| 0 <= j < i ==> is_hex_digit(#[trigger] b@[j]),
            decreases 16 - i,
        {
            let x = b[i];
            let hex = (0x30 <= x && x <= 0x39) || (0x41 <= x && x <= 0x46) || (0x61 <= x && x
                <= 0x66);
            if !hex {
                return Err(ParseError::malformed_uuid(ctx));
            }
            i += 1;
        }
        return Ok(data);
    }
    Err(ParseError::malformed_uuid(ctx))
}

/// The byte is an ASCII decimal digit.
pub open spec fn is_digit(b: u8) -> bool {
    0x30 <= b <= 0x39
}

/// The first position from `i` on that holds no decimal digit.
pub open spec fn digits_end(s: Seq<u8>, i: int) -> int
    decreases s.len() - i,
{
    if 0 <= i < s.len() && is_digit(s[i]) {
        digits_end(s, i + 1)
    } else {
        i
    }
}

/// The number that a text of decimal digits denotes.
pub open spec fn decimal_value(digits: Seq<u8>) -> nat
    decreases digits.len(),
{
    if digits.len() == 0 {
        0
    } else {
        decimal_value(digits.drop_last()) * 10 + (digits.last() - 0x30) as nat
    }
}

/// The number denoted by the decimal digits that `s` begins with, if it
/// begins with any and the number fits in a `usize`.
pub open spec fn leading_usize(s: Seq<u8>) -> Option<usize> {
    let digits = s.subrange(0, digits_end(s, 0));
    if digits.len() == 0 || decimal_value(digits) > usize::MAX {
        None
    } else {
        Some(decimal_value(digits) as usize)
    }
}

/// The digits of a text lie inside it.
pub proof fn lemma_digits_end(s: Seq<u8>, i: int)
    requires
        0 <= i <= s.len(),
    ensures
        i <= digits_end(s, i) <= s.len(),
        forall|j: int| i <= j < digits_end(s, i) ==> is_digit(#[trigger] s[j]),
    decreases s.len() - i,
{
    if i < s.len() && is_digit(s[i]) {
        lemma_digits_end(s, i + 1);
    }
}

/// A number does not get smaller when digits are written behind it.
pub proof fn lemma_decimal_value_grows(digits: Seq<u8>, k: int)
    requires
        0 <= k <= digits.len(),
        forall|j: int| 0 <= j < digits.len() ==> is_digit(#[trigger] digits[j]),
    ensures
        decimal_value(digits.subrange(0, k)) <= decimal_value(digits),
    decreases digits.len() - k,
{
    if k == digits.len() {
        assert(digits.subrange(0, k) =~= digits);
    } else {
        let longer = digits.subrange(0, k + 1);
        assert(longer.drop_last() =~= digits.subrange(0, k));
        lemma_decimal_value_grows(digits, k + 1);
    }
}

/// Parses a leading integer from a string. Does not cope with
/// negative numbers. Returns `None` where `data` begins with no digit,
/// or where the number does not fit in a `usize`.
pub fn parse_leading_usize(data: &str) -> (r: Option<usize>)
    ensures
        r == leading_usize(data.spec_bytes()),
{
    let b = data.as_bytes();
    let n = b.len();
    let mut value: usize = 0;
    let mut i: usize = 0;
    proof {
        lemma_digits_end(b@, 0);
        assert(b@.subrange(0, 0) =~= Seq::<u8>::empty());
    }
    while i < n && 0x30 <= b[i] && b[i] <= 0x39
        invariant
            b@ == data.spec_bytes(),
            n == b@.len(),
            i <= n,
            digits_end(b@, i as int) == digits_end(b@, 0),
            forall|j: int| 0 <= j < i ==> is_digit(#[trigger] b@[j]),
            value == decimal_value(b@.subrange(0, i as int)),
        decreases n - i,
    {
        let digit = (b[i] - 0x30) as usize;
        proof {
            let longer = b@.subrange(0, i + 1);
            assert(longer.drop_last() =~= b@.subrange(0, i as int));
            assert(decimal_value(longer) == value * 10 + digit);
        }
        if value > (usize::MAX - digit) / 10 {
            proof {
                let end = digits_end(b@, 0);
                assert(digits_end(b@, i as int) == digits_end(b@, i + 1));
                lemma_digits_end(b@, i + 1);
                lemma_digits_end(b@, 0);
                let digits = b@.subrange(0, end);
                assert(digits.subrange(0, i + 1) =~= b@.subrange(0, i + 1));
                lemma_decimal_value_grows(digits, i + 1);
                assert(value * 10 + digit > usize::MAX) by (nonlinear_arith)
                    requires
                        value > (usize::MAX - digit) / 10,
                        0 <= digit <= 9,
                ;
            }
            return None;
        }
        assert(value * 10 + digit <= usize::MAX) by (nonlinear_arith)
            requires
                value <= (usize::MAX - digit) / 10,
                0 <= digit <= 9,
        ;
        value = value * 10 + digit;
        i += 1;
    }
    if i == 0 {
        None
    } else {
        Some(value)
    }
}

/// The character that stands for a decimal digit.
pub open spec fn digit_char(d: nat) -> char {
    if d == 0 {
        '0'
    } else if d == 1 {
        '1'
    } else if d == 2 {
        '2'
    } else if d == 3 {
        '3'
    } else if d == 4 {
        '4'
    } else if d == 5 {
        '5'
    } else if d == 6 {
        '6'
    } else if d == 7 {
        '7'
    } else if d == 8 {
        '8'
    } else {
        '9'
    }
}

/// The decimal digits of a number, without leading zeros.
pub open spec fn decimal_chars(n: nat) -> Seq<char>
    decreases n,
{
    if n < 10 {
        seq![digit_char(n)]
    } else {
        decimal_chars(n / 10).push(digit_char(n % 10))
    }
}

fn digit_text(d: usize) -> (r: &'static str)
    requires
        d < 10,
    ensures
        r@ == seq![digit_char(d as nat)],
{
    proof {
        reveal_strlit("0");
        reveal_strlit("1");
        reveal_strlit("2");
        reveal_strlit("3");
        reveal_strlit("4");
        reveal_strlit("5");
        reveal_strlit("6");
        reveal_strlit("7");
        reveal_strlit("8");
        reveal_strlit("9");
    }
    let r = if d == 0 {
        "0"
    } else if d == 1 {
        "1"
    } else if d == 2 {
        "2"
    } else if d == 3 {
        "3"
    } else if d == 4 {
        "4"
    } else if d == 5 {
        "5"
    } else if d == 6 {
        "6"
    } else if d == 7 {
        "7"
    } else if d == 8 {
        "8"
    } else {
        "9"
    };
    assert(r@ =~= seq![digit_char(d as nat)]);
    r
}

/// Writes the decimal digits of `n` behind what `out` holds.
pub fn push_decimal(out: &mut String, n: usize)
    ensures
        final(out)@ == old(out)@ + decimal_chars(n as nat),
    decreases n,
{
    if n >= 10 {
        push_decimal(out, n / 10);
    }
    out.append(digit_text(n % 10));
    proof {
        if n >= 10 {
            assert(old(out)@ + decimal_chars((n / 10) as nat) + seq![digit_char((n % 10) as nat)]
                =~= old(out)@ + decimal_chars(n as nat));
        }
    }
}

/// Determine the plural form for a number. (Does it need an 's' on the end?)
pub fn plural_s(i: usize) -> (r: &'static str)
    ensures
        r@ == (if i == 1 {
            Seq::<char>::empty()
        } else {
            seq!['s']
        }),
{
    proof {
        reveal_strlit("");
        reveal_strlit("s");
    }
    let r = if i == 1 {
        ""
    } else {
        "s"
    };
    assert(r@ =~= (if i == 1 {
        Seq::<char>::empty()
    } else {
        seq!['s']
    }));
    r
}

} // verus!
