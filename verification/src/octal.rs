//! File modes as they are written: in octal.
use vstd::prelude::*;

verus! {

/// Why a text is not an octal mode.
#[derive(Debug, Clone, Copy, PartialEq, Eq, Structural)]
pub enum OctalModeError {
    Empty,
    InvalidDigit,
    Overflow,
}

/// The octal digits.
pub open spec fn is_octal_digit(c: char) -> bool {
    '0' <= c <= '7'
}

/// The number that a sequence of octal digits stands for.
pub open spec fn octal_value(digits: Seq<char>) -> nat
    decreases digits.len(),
{
    if digits.len() == 0 {
        0
    } else {
        octal_value(digits.drop_last()) * 8 + (digits.last() as nat - '0' as nat) as nat
    }
}

/// How many octal digits a text begins with.
pub open spec fn leading_digits(text: Seq<char>) -> nat
    decreases text.len(),
{
    if text.len() == 0 || !is_octal_digit(text[0]) {
        0
    } else {
        1 + leading_digits(text.drop_first())
    }
}

/// The octal number that a text of digits is, and what is wrong with it where
/// it is none: the number grows too large, or something other than a digit
/// stands in it, whichever comes first.
pub open spec fn digits_number(digits: Seq<char>) -> Result<u32, OctalModeError> {
    let lead = leading_digits(digits);
    let value = octal_value(digits.take(lead as int));
    if value > u32::MAX {
        Err(OctalModeError::Overflow)
    } else if lead < digits.len() {
        Err(OctalModeError::InvalidDigit)
    } else {
        Ok(value as u32)
    }
}

/// The octal number that a text is: digits, and a `+` before them is allowed.
pub open spec fn octal_number(text: Seq<char>) -> Result<u32, OctalModeError> {
    if text.len() == 0 {
        Err(OctalModeError::Empty)
    } else if text.len() > 1 && text[0] == '+' {
        digits_number(text.drop_first())
    } else {
        digits_number(text)
    }
}

/// Whether a text begins with the octal prefix `0o`.
pub open spec fn has_octal_prefix(text: Seq<char>) -> bool {
    text.len() >= 2 && text[0] == '0' && text[1] == 'o'
}

/// A text without the `0o` prefixes that it begins with.
pub open spec fn without_octal_prefix(text: Seq<char>) -> Seq<char>
    decreases text.len(),
{
    if has_octal_prefix(text) {
        without_octal_prefix(text.skip(2))
    } else {
        text
    }
}

/// The mode that a text stands for, read base 8.
pub open spec fn octal_mode(text: Seq<char>) -> Result<u32, OctalModeError> {
    octal_number(without_octal_prefix(text))
}

/// The characters of a text.
fn chars_of(text: &str) -> (chars: Vec<char>)
    ensures
        chars@ == text@,
{
    let mut chars: Vec<char> = Vec::new();
    for c in it: text.chars()
        invariant
            it.seq() == text@,
            chars@ == text@.take(it.index() as int),
    {
        chars.push(c);
        assert(text@.take(it.index() as int).push(c) =~= text@.take(it.index() + 1));
    }
    assert(text@.take(text@.len() as int) =~= text@);
    chars
}

/// More octal digits do not make the value smaller.
proof fn lemma_value_grows(digits: Seq<char>, n: int)
    requires
        0 <= n <= digits.len(),
        forall|i: int| 0 <= i < digits.len() ==> is_octal_digit(#[trigger] digits[i]),
    ensures
        octal_value(digits.take(n)) <= octal_value(digits),
    decreases digits.len() - n,
{
    if n < digits.len() {
        lemma_value_grows(digits, n + 1);
        let longer = digits.take(n + 1);
        assert(longer.drop_last() =~= digits.take(n));
    } else {
        assert(digits.take(n) =~= digits);
    }
}

/// What `leading_digits` counts: octal digits, up to the first character that
/// is none.
proof fn lemma_leading_digits(text: Seq<char>)
    ensures
        leading_digits(text) <= text.len(),
        forall|i: int| 0 <= i < leading_digits(text) ==> is_octal_digit(#[trigger] text[i]),
        leading_digits(text) < text.len() ==> !is_octal_digit(text[leading_digits(text) as int]),
    decreases text.len(),
{
    if text.len() > 0 && is_octal_digit(text[0]) {
        let rest = text.drop_first();
        lemma_leading_digits(rest);
        assert forall|i: int| 0 <= i < leading_digits(text) implies is_octal_digit(
            #[trigger] text[i],
        ) by {
            if i > 0 {
                assert(rest[i - 1] == text[i]);
            }
        }
    }
}

/// The octal number that the characters from `start` on are.
fn parse_digits(chars: &Vec<char>, start: usize) -> (parsed: Result<u32, OctalModeError>)
    requires
        start <= chars@.len(),
    ensures
        parsed == digits_number(chars@.skip(start as int)),
{
    let ghost digits = chars@.skip(start as int);
    let ghost lead = leading_digits(digits) as int;
    let ghost number = digits.take(lead);
    proof {
        lemma_leading_digits(digits);
    }
    let mut value: u32 = 0;
    let mut i: usize = start;
    while i < chars.len()
        invariant
            start <= i <= chars@.len(),
            digits == chars@.skip(start as int),
            lead == leading_digits(digits),
            number == digits.take(lead),
            i - start <= lead <= digits.len(),
            forall|j: int| 0 <= j < lead ==> is_octal_digit(#[trigger] digits[j]),
            lead < digits.len() ==> !is_octal_digit(digits[lead]),
            value == octal_value(digits.take(i - start)),
        decreases chars@.len() - i,
    {
        let c: char = chars[i];
        assert(c == digits[i - start]);
        if !('0' <= c && c <= '7') {
            return Err(OctalModeError::InvalidDigit);
        }
        let digit: u32 = c as u32 - '0' as u32;
        assert(digits.take(i - start + 1).drop_last() =~= digits.take(i - start));
        proof {
            assert(number.take(i - start + 1) =~= digits.take(i - start + 1));
            lemma_value_grows(number, i - start + 1);
        }
        if value > (u32::MAX - digit) / 8 {
            return Err(OctalModeError::Overflow);
        }
        value = value * 8 + digit;
        i = i + 1;
    }
    assert(digits.take(lead) =~= digits);
    Ok(value)
}

/// The mode that a text stands for, read base 8.
fn parse_octal_mode(text: &str) -> (parsed: Result<u32, OctalModeError>)
    ensures
        parsed == octal_mode(text@),
{
    let chars = chars_of(text);
    let mut start: usize = 0;
    assert(text@.skip(0) =~= text@);
    while chars.len() - start >= 2 && chars[start] == '0' && chars[start + 1] == 'o'
        invariant
            chars@ == text@,
            start <= chars@.len(),
            without_octal_prefix(text@.skip(start as int)) == without_octal_prefix(text@),
        decreases chars@.len() - start,
    {
        assert(text@.skip(start as int).skip(2) =~= text@.skip(start + 2));
        start = start + 2;
    }
    let ghost rest = text@.skip(start as int);
    assert(!has_octal_prefix(rest));
    if start == chars.len() {
        return Err(OctalModeError::Empty);
    }
    if chars.len() - start > 1 && chars[start] == '+' {
        assert(rest.drop_first() =~= text@.skip(start + 1));
        parse_digits(&chars, start + 1)
    } else {
        parse_digits(&chars, start)
    }
}

/// The root mode that an option holds, if it is set. Docker passes every option
/// as a string, and a mode is conventionally written in octal, so `1777` is
/// read base 8.
pub fn de_octal_mode(mode: Option<String>) -> (parsed: Result<Option<u32>, OctalModeError>)
    ensures
        parsed == (match mode {
            None => Ok::<Option<u32>, OctalModeError>(None),
            Some(text) => match octal_mode(text@) {
                Ok(value) => Ok(Some(value)),
                Err(error) => Err(error),
            },
        }),
{
    match mode {
        None => Ok(None),
        Some(text) => match parse_octal_mode(text.as_str()) {
            Ok(value) => Ok(Some(value)),
            Err(error) => Err(error),
        },
    }
}

/// The text of an error.
pub open spec fn octal_error_text(error: OctalModeError) -> Seq<char> {
    match error {
        OctalModeError::Empty => "cannot parse integer from empty string"@,
        OctalModeError::InvalidDigit => "invalid digit found in string"@,
        OctalModeError::Overflow => "number too large to fit in target type"@,
    }
}

impl OctalModeError {
    /// The text of this error.
    pub fn message(&self) -> (text: String)
        ensures
            text@ == octal_error_text(*self),
    {
        match *self {
            OctalModeError::Empty => "cannot parse integer from empty string".to_owned(),
            OctalModeError::InvalidDigit => "invalid digit found in string".to_owned(),
            OctalModeError::Overflow => "number too large to fit in target type".to_owned(),
        }
    }
}

/// A number written in octal.
pub open spec fn octal_text(n: nat) -> Seq<char>
    decreases n,
{
    if n < 8 {
        seq![('0' as nat + n) as char]
    } else {
        octal_text(n / 8).push(('0' as nat + n % 8) as char)
    }
}

/// What is written in octal is octal digits with the value that was written.
proof fn lemma_octal_text(n: nat)
    ensures
        octal_text(n).len() > 0,
        forall|i: int| 0 <= i < octal_text(n).len() ==> is_octal_digit(#[trigger] octal_text(n)[i]),
        octal_value(octal_text(n)) == n,
    decreases n,
{
    reveal_with_fuel(octal_value, 2);
    let text = octal_text(n);
    if n >= 8 {
        lemma_octal_text(n / 8);
        assert(text.drop_last() =~= octal_text(n / 8));
    } else {
        assert(text.drop_last() =~= Seq::<char>::empty());
    }
}

/// A mode written in octal is read back as it was.
pub proof fn law_octal_round_trip(mode: u32)
    ensures
        octal_mode(octal_text(mode as nat)) == Ok::<u32, OctalModeError>(mode),
{
    let text = octal_text(mode as nat);
    lemma_octal_text(mode as nat);
    lemma_leading_digits(text);
    assert(is_octal_digit(text[0]));
    if text.len() > 1 {
        assert(is_octal_digit(text[1]));
    }
    assert(text.take(text.len() as int) =~= text);
}

/// The octal prefix makes no difference to what a text stands for.
pub proof fn law_octal_prefix(text: Seq<char>)
    ensures
        octal_mode(seq!['0', 'o'] + text) == octal_mode(text),
{
    assert((seq!['0', 'o'] + text).skip(2) =~= text);
}

/// A text without a character, but for prefixes, is no mode.
pub proof fn law_octal_empty()
    ensures
        octal_mode(Seq::<char>::empty()) == Err::<u32, OctalModeError>(OctalModeError::Empty),
{
}

/// A single digit stands for itself.
pub proof fn law_octal_digit(c: char)
    requires
        '0' <= c <= '7',
    ensures
        octal_mode(seq![c]) == Ok::<u32, OctalModeError>((c as u32 - '0' as u32) as u32),
{
    let text = seq![c];
    lemma_leading_digits(text);
    reveal_with_fuel(octal_value, 2);
    assert(text.take(1) =~= text);
    assert(text.drop_last() =~= Seq::<char>::empty());
}

/// One more digit makes eight times the mode, and the digit; where that does not
/// fit, the mode is too large, and stays so however many digits follow.
pub proof fn law_octal_next_digit(digits: Seq<char>, c: char)
    requires
        digits.len() > 0,
        forall|i: int| 0 <= i < digits.len() ==> '0' <= #[trigger] digits[i] <= '7',
        '0' <= c <= '7',
    ensures
        match octal_mode(digits) {
            Ok(mode) => {
                let more = mode * 8 + (c as int - '0' as int);
                octal_mode(digits.push(c)) == (if more > u32::MAX {
                    Err::<u32, OctalModeError>(OctalModeError::Overflow)
                } else {
                    Ok(more as u32)
                })
            },
            Err(error) => {
                &&& error == OctalModeError::Overflow
                &&& octal_mode(digits.push(c)) == Err::<u32, OctalModeError>(
                    OctalModeError::Overflow,
                )
            },
        },
{
    let longer = digits.push(c);
    lemma_leading_digits(digits);
    lemma_leading_digits(longer);
    assert(leading_digits(longer) == longer.len()) by {
        if leading_digits(longer) < digits.len() {
            assert(longer[leading_digits(longer) as int] == digits[leading_digits(longer) as int]);
        }
    }
    assert(digits.take(digits.len() as int) =~= digits);
    assert(longer.take(longer.len() as int) =~= longer);
    assert(longer.drop_last() =~= digits);
    assert(longer[0] == digits[0]);
    if digits.len() > 1 {
        assert(longer[1] == digits[1]);
        assert(is_octal_digit(digits[1]));
    }
}

/// A character that is no octal digit makes a text no mode, wherever it stands
/// and whatever follows, unless the digits before it are too many already. A `+`
/// in front and the prefix `0o` are no such characters.
pub proof fn law_octal_bad_digit(digits: Seq<char>, c: char, rest: Seq<char>)
    requires
        forall|i: int| 0 <= i < digits.len() ==> '0' <= #[trigger] digits[i] <= '7',
        !('0' <= c <= '7'),
        !(digits.len() == 0 && c == '+' && rest.len() > 0),
        !(digits.len() == 1 && digits[0] == '0' && c == 'o'),
    ensures
        octal_mode(digits.push(c) + rest) == Err::<u32, OctalModeError>(
            if digits.len() > 0 && octal_mode(digits) is Err {
                OctalModeError::Overflow
            } else {
                OctalModeError::InvalidDigit
            },
        ),
{
    let text = digits.push(c) + rest;
    let n = digits.len() as int;
    assert(text[n] == c);
    assert forall|i: int| 0 <= i < n implies #[trigger] text[i] == digits[i] by {}
    lemma_leading_digits(text);
    lemma_leading_digits(digits);
    let lead = leading_digits(text) as int;
    assert(lead == n) by {
        if lead > n {
            assert(is_octal_digit(text[n]));
        } else if lead < n {
            assert(text[lead] == digits[lead]);
        }
    }
    assert(text.take(n) =~= digits);
    assert(digits.take(n) =~= digits);
    if n > 0 {
        assert(text[0] == digits[0]);
    }
    if n > 1 {
        assert(text[1] == digits[1]);
        assert(is_octal_digit(digits[1]));
    }
    if n == 0 {
        assert(octal_value(text.take(0)) == 0);
    }
}

/// A `+` in front of a text makes no difference, but that neither another `+`
/// nor the prefix may follow it.
pub proof fn law_octal_plus(text: Seq<char>)
    requires
        text.len() > 0,
    ensures
        octal_mode(seq!['+'] + text) == (if text[0] == '+' || (text.len() >= 2 && text[0] == '0'
            && text[1] == 'o') {
            Err::<u32, OctalModeError>(OctalModeError::InvalidDigit)
        } else {
            octal_mode(text)
        }),
{
    let signed = seq!['+'] + text;
    assert(signed.drop_first() =~= text);
    if text[0] == '+' {
        assert(text.take(0) =~= Seq::<char>::empty());
    } else if text.len() >= 2 && text[0] == '0' && text[1] == 'o' {
        reveal_with_fuel(leading_digits, 3);
        reveal_with_fuel(octal_value, 2);
        assert(text.drop_first()[0] == 'o');
        assert(text.take(1).drop_last() =~= Seq::<char>::empty());
    }
}

/// A call of `de_octal_mode` leaves an absent mode absent, and gives a mode that
/// is set as it is read base 8, or what is wrong with it.
pub proof fn law_de_octal_mode(mode: Option<String>, parsed: Result<Option<u32>, OctalModeError>)
    requires
        call_ensures(de_octal_mode, (mode,), parsed),
    ensures
        mode is None ==> parsed == Ok::<Option<u32>, OctalModeError>(None),
        mode matches Some(text) ==> match parsed {
            Ok(value) => value is Some && octal_mode(text@) == Ok::<u32, OctalModeError>(value->0),
            Err(error) => octal_mode(text@) == Err::<u32, OctalModeError>(error),
        },
{
}

/// What a call of `message` says of a text that is no mode.
pub proof fn law_octal_message(error: OctalModeError, text: String)
    requires
        call_ensures(OctalModeError::message, (&error,), text),
    ensures
        error == OctalModeError::Empty ==> text@ == "cannot parse integer from empty string"@,
        error == OctalModeError::InvalidDigit ==> text@ == "invalid digit found in string"@,
        error == OctalModeError::Overflow ==> text@ == "number too large to fit in target type"@,
{
}

} // verus!
