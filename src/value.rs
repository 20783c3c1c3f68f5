//! Reading a 64-bit value from text: a decimal, `0x` hexadecimal or `0b`
//! binary literal, or eight ASCII characters packed little-endian.
use vstd::prelude::*;

use vstd::bytes::{spec_u64_from_le_bytes, u64_from_le_bytes};
use vstd::string::{StrSliceExecFns, StringExecFns, StringSliceAdditionalSpecFns};
use vstd::utf8::encode_utf8;

use crate::error::IntParseError;

verus! {

/// Why a value could not be read.
#[derive(Debug)]
pub enum ValueError {
    /// The text holds nothing but white space.
    EmptyString,
    /// The named file holds nothing.
    EmptyFile(String),
    /// The named file does not exist.
    MissingFile(String),
    /// The named file exists but cannot be read.
    FileReadingError(String),
    /// A literal is malformed; the text says how.
    InvalidFormat(String),
    /// An ASCII value must be exactly eight characters.
    InvalidByteString,
    /// The text cannot be converted; the message says why.
    ConversionError(String),
}

/// How a literal writes its digits.
#[derive(Clone, Copy, Debug, PartialEq, Eq, Structural)]
pub enum Notation {
    Hex,
    Binary,
    Decimal,
}

/// What `str::trim` leaves of a string: the string without its leading and
/// trailing white space.
pub uninterp spec fn trimmed(s: Seq<char>) -> Seq<char>;

/// Relies on `str::trim`, which removes leading and trailing white space; the
/// result depends on the characters alone.
#[verifier::external_body]
fn trim_str(s: &str) -> (r: &str)
    ensures
        r@ == trimmed(s@),
{
    s.trim()
}

/// The value of `c` as a digit in `radix` (0-9, then a-z or A-Z for 10 and
/// up), if it is one.
pub open spec fn digit_value(c: char, radix: u32) -> Option<nat> {
    let code = c as u32;
    let d: int = if '0' as u32 <= code <= '9' as u32 {
        code - '0' as u32
    } else if 'a' as u32 <= code <= 'z' as u32 {
        code - 'a' as u32 + 10
    } else if 'A' as u32 <= code <= 'Z' as u32 {
        code - 'A' as u32 + 10
    } else {
        radix as int
    };
    if d < radix {
        Some(d as nat)
    } else {
        None
    }
}

/// Every character of `digits` is a digit in `radix`.
pub open spec fn all_digits(digits: Seq<char>, radix: u32) -> bool {
    forall|i: int| 0 <= i < digits.len() ==> (#[trigger] digit_value(digits[i], radix)) is Some
}

/// The number that `digits` write in `radix`, most significant digit first.
pub open spec fn digits_number(digits: Seq<char>, radix: u32) -> nat
    decreases digits.len(),
{
    if digits.len() == 0 {
        0
    } else {
        let last = match digit_value(digits.last(), radix) {
            Some(d) => d,
            None => 0,
        };
        (digits_number(digits.drop_last(), radix) * radix + last) as nat
    }
}

/// The digits of a number written with an optional leading `+`.
pub open spec fn unsigned_digits(s: Seq<char>) -> Seq<char> {
    if s.len() > 0 && s[0] == '+' {
        s.drop_first()
    } else {
        s
    }
}

/// `s` is an optional `+` followed by one or more digits of `radix`.
pub open spec fn is_number(s: Seq<char>, radix: u32) -> bool {
    unsigned_digits(s).len() > 0 && all_digits(unsigned_digits(s), radix)
}

/// The number `s` writes in `radix`.
pub open spec fn number_of(s: Seq<char>, radix: u32) -> nat {
    digits_number(unsigned_digits(s), radix)
}

/// `s` is a number in `radix` that fits in 64 bits.
pub open spec fn parses_as_u64(s: Seq<char>, radix: u32) -> bool {
    is_number(s, radix) && number_of(s, radix) <= u64::MAX
}

/// The errors that reading `s` in `radix` may report: `Empty` for nothing,
/// `PosOverflow` for digits whose value is too large, and for anything else an
/// invalid digit, or an overflow met before it.
pub open spec fn possible_failure(s: Seq<char>, radix: u32, e: IntParseError) -> bool {
    if s.len() == 0 {
        e == IntParseError::Empty
    } else if is_number(s, radix) {
        e == IntParseError::PosOverflow
    } else {
        e == IntParseError::InvalidDigit || e == IntParseError::PosOverflow
    }
}

/// Relies on `u64::from_str_radix`: an optional `+` followed only by digits of
/// `radix` (0-9, a-z, A-Z) gives their value when it fits in 64 bits; an empty
/// string fails with `Empty`, digits too large with `PosOverflow`, and any
/// other string with an invalid digit or an overflow.
#[verifier::external_body]
fn u64_from_str_radix(src: &str, radix: u32) -> (r: Result<u64, IntParseError>)
    requires
        2 <= radix <= 36,
    ensures
        r is Ok <==> parses_as_u64(src@, radix),
        r is Ok ==> r->Ok_0 == number_of(src@, radix),
        r is Err ==> possible_failure(src@, radix, r->Err_0),
{
    match u64::from_str_radix(src, radix) {
        Ok(v) => Ok(v),
        Err(e) => Err(
            match e.kind() {
                std::num::IntErrorKind::Empty => IntParseError::Empty,
                std::num::IntErrorKind::InvalidDigit => IntParseError::InvalidDigit,
                std::num::IntErrorKind::PosOverflow => IntParseError::PosOverflow,
                _ => IntParseError::Other,
            },
        ),
    }
}

/// The usual description of an integer parsing error.
pub open spec fn int_error_text(e: IntParseError) -> Seq<char> {
    match e {
        IntParseError::Empty => "cannot parse integer from empty string"@,
        IntParseError::InvalidDigit => "invalid digit found in string"@,
        IntParseError::PosOverflow => "number too large to fit in target type"@,
        IntParseError::Other => "integer parsing error"@,
    }
}

/// The message of an `InvalidFormat` error for a literal in `notation` that
/// failed with `e`.
pub open spec fn failure_message(notation: Notation, e: IntParseError) -> Seq<char> {
    match notation {
        Notation::Hex => "Hex parsing failed: "@ + int_error_text(e),
        Notation::Binary => "Binary parsing failed: "@ + int_error_text(e),
        Notation::Decimal => match e {
            IntParseError::Empty => "empty string"@,
            IntParseError::InvalidDigit => "contains invalid digits"@,
            IntParseError::PosOverflow => "number too large for u64"@,
            IntParseError::Other => "parsing error"@,
        },
    }
}

/// The message for binary digits other than 0 and 1.
pub open spec fn binary_digits_message() -> Seq<char> {
    "Binary string contains invalid characters"@
}

/// The message for eight bytes that are not all ASCII.
pub open spec fn non_ascii_message() -> Seq<char> {
    "String contains non-ASCII characters"@
}

/// `r` is what reading `digits` in `radix` gives: the value when it parses,
/// else an `InvalidFormat` error for one of the failures possible there.
pub open spec fn radix_outcome(
    digits: Seq<char>,
    radix: u32,
    notation: Notation,
    r: Result<u64, ValueError>,
) -> bool {
    if parses_as_u64(digits, radix) {
        r == Ok::<u64, ValueError>(number_of(digits, radix) as u64)
    } else {
        exists|e: IntParseError|
            #[trigger] possible_failure(digits, radix, e) && (r matches Err(
                ValueError::InvalidFormat(m),
            ) && m@ == failure_message(notation, e))
    }
}

/// `r` is what eight ASCII bytes give: the bytes read little-endian.
pub open spec fn ascii_outcome(bytes: Seq<u8>, r: Result<u64, ValueError>) -> bool {
    if bytes.len() != 8 {
        r == Err::<u64, ValueError>(ValueError::InvalidByteString)
    } else if exists|i: int| 0 <= i < 8 && #[trigger] bytes[i] > 127 {
        r matches Err(ValueError::ConversionError(m)) && m@ == non_ascii_message()
    } else {
        r == Ok::<u64, ValueError>(spec_u64_from_le_bytes(bytes))
    }
}

/// `s` without its leading `'0'` characters.
pub open spec fn without_leading_zeros(s: Seq<char>) -> Seq<char>
    decreases s.len(),
{
    if s.len() > 0 && s[0] == '0' {
        without_leading_zeros(s.drop_first())
    } else {
        s
    }
}

/// `t` opens with `0` and then `lower` or `upper`.
pub open spec fn has_prefix(t: Seq<char>, lower: char, upper: char) -> bool {
    t.len() >= 2 && t[0] == '0' && (t[1] == lower || t[1] == upper)
}

/// Every character of `s` is `0` or `1`.
pub open spec fn binary_only(s: Seq<char>) -> bool {
    forall|i: int| 0 <= i < s.len() ==> #[trigger] s[i] == '0' || s[i] == '1'
}

/// What reading the (already trimmed) text `t` gives: nothing is an error; a
/// `0x` or `0b` prefix reads the rest, without leading zeros, in base 16 or
/// 2 (nothing left reads as 0); eight bytes read as ASCII; anything else reads
/// as a decimal number.
pub open spec fn text_outcome(t: Seq<char>, r: Result<u64, ValueError>) -> bool {
    if t.len() == 0 {
        r == Err::<u64, ValueError>(ValueError::EmptyString)
    } else if has_prefix(t, 'x', 'X') {
        let digits = without_leading_zeros(t.skip(2));
        if digits.len() == 0 {
            r == Ok::<u64, ValueError>(0)
        } else {
            radix_outcome(digits, 16, Notation::Hex, r)
        }
    } else if has_prefix(t, 'b', 'B') {
        let digits = without_leading_zeros(t.skip(2));
        if digits.len() == 0 {
            r == Ok::<u64, ValueError>(0)
        } else if !binary_only(digits) {
            r matches Err(ValueError::InvalidFormat(m)) && m@ == binary_digits_message()
        } else {
            radix_outcome(digits, 2, Notation::Binary, r)
        }
    } else if encode_utf8(t).len() == 8 {
        ascii_outcome(encode_utf8(t), r)
    } else {
        radix_outcome(t, 10, Notation::Decimal, r)
    }
}

fn int_error_description(e: IntParseError) -> (r: &'static str)
    ensures
        r@ == int_error_text(e),
{
    match e {
        IntParseError::Empty => "cannot parse integer from empty string",
        IntParseError::InvalidDigit => "invalid digit found in string",
        IntParseError::PosOverflow => "number too large to fit in target type",
        IntParseError::Other => "integer parsing error",
    }
}

fn failure_text(notation: Notation, e: IntParseError) -> (r: String)
    ensures
        r@ == failure_message(notation, e),
{
    match notation {
        Notation::Hex => String::from_str("Hex parsing failed: ").concat(int_error_description(e)),
        Notation::Binary => String::from_str("Binary parsing failed: ").concat(
            int_error_description(e),
        ),
        Notation::Decimal => String::from_str(
            match e {
                IntParseError::Empty => "empty string",
                IntParseError::InvalidDigit => "contains invalid digits",
                IntParseError::PosOverflow => "number too large for u64",
                IntParseError::Other => "parsing error",
            },
        ),
    }
}

fn parse_radix(digits: &str, radix: u32, notation: Notation) -> (r: Result<u64, ValueError>)
    requires
        2 <= radix <= 36,
    ensures
        radix_outcome(digits@, radix, notation, r),
{
    match u64_from_str_radix(digits, radix) {
        Ok(v) => Ok(v),
        Err(e) => {
            assert(possible_failure(digits@, radix, e));
            Err(ValueError::InvalidFormat(failure_text(notation, e)))
        },
    }
}

/// The rest of `t` from character `from` on, without its leading zeros.
fn skip_zeros(t: &str, from: usize) -> (r: &str)
    requires
        from <= t@.len(),
    ensures
        r@ == without_leading_zeros(t@.skip(from as int)),
{
    let n = t.unicode_len();
    let mut i = from;
    while i < n && t.get_char(i) == '0'
        invariant
            n == t@.len(),
            from <= i <= n,
            without_leading_zeros(t@.skip(from as int)) == without_leading_zeros(
                t@.skip(i as int),
            ),
        decreases n - i,
    {
        assert(t@.skip(i as int).drop_first() =~= t@.skip(i + 1));
        i = i + 1;
    }
    let r = t.substring_char(i, n);
    assert(r@ =~= t@.skip(i as int));
    r
}

fn only_binary_digits(s: &str) -> (r: bool)
    ensures
        r == binary_only(s@),
{
    let n = s.unicode_len();
    let mut i: usize = 0;
    while i < n
        invariant
            n == s@.len(),
            i <= n,
            forall|j: int| 0 <= j < i ==> #[trigger] s@[j] == '0' || s@[j] == '1',
        decreases n - i,
    {
        let c = s.get_char(i);
        if c != '0' && c != '1' {
            return false;
        }
        i = i + 1;
    }
    true
}

/// Reads eight ASCII characters as a 64-bit value, the first character in the
/// low byte.
pub fn ascii_string_to_u64(s: &str) -> (r: Result<u64, ValueError>)
    ensures
        ascii_outcome(s.spec_bytes(), r),
{
    let bytes = s.as_bytes();
    if bytes.len() != 8 {
        return Err(ValueError::InvalidByteString);
    }
    let mut i: usize = 0;
    while i < 8
        invariant
            bytes@ == s.spec_bytes(),
            bytes@.len() == 8,
            i <= 8,
            forall|j: int| 0 <= j < i ==> #[trigger] bytes@[j] <= 127,
        decreases 8 - i,
    {
        if bytes[i] > 127 {
            return Err(ValueError::ConversionError(String::from_str("String contains non-ASCII characters")));
        }
        i = i + 1;
    }
    Ok(u64_from_le_bytes(bytes))
}

/// Reads a value from text that has no leading or trailing white space.
pub fn parse_trimmed(t: &str) -> (r: Result<u64, ValueError>)
    ensures
        text_outcome(t@, r),
{
    let n = t.unicode_len();
    if n == 0 {
        return Err(ValueError::EmptyString);
    }
    if n >= 2 && t.get_char(0) == '0' {
        let marker = t.get_char(1);
        if marker == 'x' || marker == 'X' {
            let digits = skip_zeros(t, 2);
            if digits.unicode_len() == 0 {
                return Ok(0);
            }
            return parse_radix(digits, 16, Notation::Hex);
        }
        if marker == 'b' || marker == 'B' {
            let digits = skip_zeros(t, 2);
            if digits.unicode_len() == 0 {
                return Ok(0);
            }
            if !only_binary_digits(digits) {
                return Err(ValueError::InvalidFormat(String::from_str("Binary string contains invalid characters")));
            }
            return parse_radix(digits, 2, Notation::Binary);
        }
    }
    if t.as_bytes().len() == 8 {
        return ascii_string_to_u64(t);
    }
    parse_radix(t, 10, Notation::Decimal)
}

/// Reads a value from text, ignoring leading and trailing white space.
pub fn parse_string_to_u64(s: &str) -> (r: Result<u64, ValueError>)
    ensures
        text_outcome(trimmed(s@), r),
{
    parse_trimmed(trim_str(s))
}

/// A 64-bit value given on the command line, as a key or as a block.
#[derive(Clone, Copy, Debug)]
pub struct Value(u64);

impl View for Value {
    type V = u64;

    closed spec fn view(&self) -> u64 {
        self.0
    }
}

impl Value {
    /// The value as a plain integer.
    pub fn as_64(self) -> (r: u64)
        ensures
            r == self@,
    {
        self.0
    }

    /// Wraps a plain integer.
    pub fn new(value: u64) -> (r: Value)
        ensures
            r@ == value,
    {
        Value(value)
    }

    /// A decimal literal exactly as written (an optional `+`, then digits), or
    /// `None` when `s` is not one or does not fit in 64 bits.
    pub fn from_literal(s: &str) -> (r: Option<Value>)
        ensures
            r is Some <==> parses_as_u64(s@, 10),
            r is Some ==> r->Some_0@ == number_of(s@, 10),
    {
        match u64_from_str_radix(s, 10) {
            Ok(v) => Some(Value(v)),
            Err(_) => None,
        }
    }

    /// A value read from text as `parse_string_to_u64` reads it.
    pub fn from_text(s: &str) -> (r: Result<Value, ValueError>)
        ensures
            text_outcome(
                trimmed(s@),
                match r {
                    Ok(v) => Ok(v@),
                    Err(e) => Err(e),
                },
            ),
    {
        match parse_string_to_u64(s) {
            Ok(v) => Ok(Value(v)),
            Err(e) => Err(e),
        }
    }
}

impl From<u64> for Value {
    fn from(value: u64) -> (r: Value) {
        Value(value)
    }
}

impl vstd::std_specs::convert::FromSpecImpl<u64> for Value {
    open spec fn obeys_from_spec() -> bool {
        true
    }

    closed spec fn from_spec(v: u64) -> Value {
        Value(v)
    }
}

impl From<Value> for u64 {
    fn from(value: Value) -> (r: u64) {
        value.0
    }
}

impl vstd::std_specs::convert::FromSpecImpl<Value> for u64 {
    open spec fn obeys_from_spec() -> bool {
        true
    }

    closed spec fn from_spec(v: Value) -> u64 {
        v@
    }
}

} // verus!
