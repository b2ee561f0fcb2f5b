//! The number of workers, as the user writes it.

use vstd::prelude::*;
use vstd::string::*;
use vstd::utf8::*;

verus! {

/// Why a text is no number of workers.
#[derive(Clone, Copy, Debug, PartialEq, Eq, Structural)]
pub enum JobsError {
    /// The text is a numeral for zero.
    Zero,
    /// The text is no numeral, or one for a number above 65535.
    Invalid,
}

/// The plus sign, as a byte.
pub const PLUS: u8 = 43;

/// The digit zero, as a byte.
pub const ZERO: u8 = 48;

/// The digit nine, as a byte.
pub const NINE: u8 = 57;

/// Whether a character is one of the ten digits.
pub open spec fn is_digit(c: char) -> bool {
    '0' <= c <= '9'
}

/// The number that a run of digits stands for.
pub open spec fn digits_value(digits: Seq<char>) -> nat
    decreases digits.len(),
{
    if digits.len() == 0 {
        0
    } else {
        digits_value(digits.drop_last()) * 10 + (digits.last() as nat - '0' as nat) as nat
    }
}

/// The digits of a numeral: what follows a plus sign at the start, or the
/// whole text where it starts with none.
pub open spec fn digits_of(text: Seq<char>) -> Seq<char> {
    if text.len() > 0 && text[0] == '+' {
        text.skip(1)
    } else {
        text
    }
}

/// Whether a text is a numeral: at least one digit and nothing but digits,
/// after at most one plus sign.
pub open spec fn is_numeral(text: Seq<char>) -> bool {
    let digits = digits_of(text);
    digits.len() > 0 && forall|i: int| 0 <= i < digits.len() ==> is_digit(#[trigger] digits[i])
}

/// The number of workers that a text stands for: the value of a numeral
/// from 1 to 65535. Leading zeros do not count.
pub open spec fn spec_parse_jobs(text: Seq<char>) -> Result<u16, JobsError> {
    if !is_numeral(text) || digits_value(digits_of(text)) > u16::MAX {
        Err(JobsError::Invalid)
    } else if digits_value(digits_of(text)) == 0 {
        Err(JobsError::Zero)
    } else {
        Ok(digits_value(digits_of(text)) as u16)
    }
}

/// More digits never make a smaller number.
proof fn lemma_value_grows(digits: Seq<char>, upto: int)
    requires
        0 <= upto <= digits.len(),
    ensures
        digits_value(digits.take(upto)) <= digits_value(digits),
    decreases digits.len() - upto,
{
    if upto < digits.len() {
        lemma_value_grows(digits, upto + 1);
        assert(digits.take(upto + 1).drop_last() =~= digits.take(upto));
    } else {
        assert(digits.take(upto) =~= digits);
    }
}

/// Reads the number of workers.
pub fn parse_jobs(text: &str) -> (r: Result<u16, JobsError>)
    ensures
        r == spec_parse_jobs(text@),
{
    if !text.is_ascii() {
        proof {
            let bad = choose|i: int|
                0 <= i < text@.len() && !('\0' <= #[trigger] text@[i] <= '\u{7f}');
            if text@[0] == '+' {
                assert(digits_of(text@)[bad - 1] == text@[bad]);
            } else {
                assert(digits_of(text@)[bad] == text@[bad]);
            }
        }
        return Err(JobsError::Invalid);
    }
    let bytes = text.as_bytes();
    proof {
        is_ascii_chars_encode_utf8(text@);
    }
    let start: usize = if bytes.len() > 0 && bytes[0] == PLUS {
        1
    } else {
        0
    };
    let ghost digits = digits_of(text@);
    assert(start == 1 <==> text@.len() > 0 && text@[0] == '+');
    if start == bytes.len() {
        return Err(JobsError::Invalid);
    }
    let mut value: u32 = 0;
    let mut i: usize = start;
    assert(digits.take(0) =~= Seq::<char>::empty());
    while i < bytes.len()
        invariant
            start <= i <= bytes.len(),
            bytes.len() == text@.len(),
            digits == digits_of(text@),
            digits.len() == text@.len() - start,
            forall|k: int| 0 <= k < digits.len() ==> digits[k] == text@[k + start],
            forall|k: int| 0 <= k < text@.len() ==> text@[k] as u8 == bytes@[k],
            is_ascii_chars(text@),
            forall|k: int| 0 <= k < i - start ==> is_digit(#[trigger] digits[k]),
            value == digits_value(digits.take(i - start)),
            value <= u16::MAX,
        decreases bytes.len() - i,
    {
        let b = bytes[i];
        let ghost c = digits[i - start];
        assert(c == text@[i as int]);
        assert(c as u8 == b);
        assert('\0' <= c <= '\u{7f}');
        if b < ZERO || b > NINE {
            assert(!is_digit(c));
            return Err(JobsError::Invalid);
        }
        assert(is_digit(c));
        proof {
            let upto = digits.take(i - start + 1);
            assert(upto.drop_last() =~= digits.take(i - start));
            assert(upto.last() == c);
            assert((c as nat - '0' as nat) as nat == b - ZERO);
        }
        value = value * 10 + (b - ZERO) as u32;
        if value > 65535 {
            proof {
                lemma_value_grows(digits, i - start + 1);
            }
            return Err(JobsError::Invalid);
        }
        i += 1;
    }
    assert(digits.take(digits.len() as int) =~= digits);
    if value == 0 {
        Err(JobsError::Zero)
    } else {
        Ok(value as u16)
    }
}

/// What the user is told about a text that is no number of workers.
pub fn jobs_message(error: JobsError) -> (r: &'static str)
    ensures
        error == JobsError::Zero ==> r@ == "0 jobs?"@,
        error == JobsError::Invalid ==> r@
            == "must be a valid integer representing a sane number of jobs"@,
{
    match error {
        JobsError::Zero => "0 jobs?",
        JobsError::Invalid => "must be a valid integer representing a sane number of jobs",
    }
}

} // verus!
