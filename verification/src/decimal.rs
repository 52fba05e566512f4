//! Decimal integers as `str::parse` reads them.
use vstd::prelude::*;
use vstd::string::to_string_from_display_ensures;

verus! {

#[verifier::external_type_specification]
#[verifier::external_body]
pub struct ExParseIntError(std::num::ParseIntError);

/// Whether `c` is an ASCII decimal digit.
pub open spec fn is_digit(c: char) -> bool {
    '0' <= c <= '9'
}

/// The value of a string of decimal digits.
pub open spec fn digits_value(s: Seq<char>) -> int
    decreases s.len(),
{
    if s.len() == 0 {
        0
    } else {
        digits_value(s.drop_last()) * 10 + (s.last() as int - '0' as int)
    }
}

/// The value of `s` read as an optional sign (`+`, or `-` where `signed`)
/// followed by one or more decimal digits and nothing else.
pub open spec fn decimal_value(s: Seq<char>, signed: bool) -> Option<int> {
    let negative = signed && s.len() > 0 && s[0] == '-';
    let body = if s.len() > 0 && (s[0] == '+' || negative) {
        s.drop_first()
    } else {
        s
    };
    if body.len() > 0 && forall|i: int| 0 <= i < body.len() ==> is_digit(#[trigger] body[i]) {
        Some(
            if negative {
                -digits_value(body)
            } else {
                digits_value(body)
            },
        )
    } else {
        None
    }
}

/// The value of `s` as a decimal integer in `lo ..= hi`, if it is one.
pub open spec fn decimal_in(s: Seq<char>, signed: bool, lo: int, hi: int) -> Option<int> {
    match decimal_value(s, signed) {
        Some(v) => if lo <= v <= hi {
            Some(v)
        } else {
            None
        },
        None => None,
    }
}

/// The text that the error of reading `s` as an `i32` displays as.
pub uninterp spec fn i32_parse_error_text(s: Seq<char>) -> Seq<char>;

/// Whether every text that `to_string` can give for `e` is `text`.
pub open spec fn displays_as(e: &std::num::ParseIntError, text: Seq<char>) -> bool {
    forall|t: String|
        #[trigger] to_string_from_display_ensures::<std::num::ParseIntError>(e, t) ==> t@ == text
}

/// Calls `str::parse::<i32>`. Its documentation says that the text must be an
/// optional `+` or `-` followed by ASCII digits only, and that a value out of
/// the range of `i32` is an error; the contract says that. The error that
/// comes back is a function of the text alone, so the text it displays as is
/// named by [`i32_parse_error_text`]; which error kind that is, is left
/// unsaid.
#[verifier::external_body]
pub(crate) fn parse_i32(s: &str) -> (r: Result<i32, std::num::ParseIntError>)
    ensures
        r is Ok <==> decimal_in(s@, true, i32::MIN as int, i32::MAX as int) is Some,
        r matches Ok(v) ==> decimal_in(s@, true, i32::MIN as int, i32::MAX as int) == Some(
            v as int,
        ),
        r matches Err(e) ==> forall|t: String|
            #[trigger] to_string_from_display_ensures::<std::num::ParseIntError>(&e, t) ==> t@
                == i32_parse_error_text(s@),
{
    s.parse::<i32>()
}

/// The text that the error of reading `s` as a `u32` displays as.
pub uninterp spec fn u32_parse_error_text(s: Seq<char>) -> Seq<char>;

/// Calls `str::parse::<u32>`. Its documentation says that the text must be an
/// optional `+` followed by ASCII digits only, and that a value above
/// `u32::MAX` is an error; the contract says that. The error that comes back
/// is a function of the text alone, so the text it displays as is named by
/// [`u32_parse_error_text`]; which error kind that is, is left unsaid.
#[verifier::external_body]
pub(crate) fn parse_u32(s: &str) -> (r: Result<u32, std::num::ParseIntError>)
    ensures
        r is Ok <==> decimal_in(s@, false, 0, u32::MAX as int) is Some,
        r matches Ok(v) ==> decimal_in(s@, false, 0, u32::MAX as int) == Some(v as int),
        r matches Err(e) ==> forall|t: String|
            #[trigger] to_string_from_display_ensures::<std::num::ParseIntError>(&e, t) ==> t@
                == u32_parse_error_text(s@),
{
    s.parse::<u32>()
}

/// The text that the error of reading `s` as a `u16` displays as.
pub uninterp spec fn u16_parse_error_text(s: Seq<char>) -> Seq<char>;

/// Calls `str::parse::<u16>`. Its documentation says that the text must be an
/// optional `+` followed by ASCII digits only, and that a value above
/// `u16::MAX` is an error; the contract says that. The error that comes back
/// is a function of the text alone, so the text it displays as is named by
/// [`u16_parse_error_text`]; which error kind that is, is left unsaid.
#[verifier::external_body]
pub(crate) fn parse_u16(s: &str) -> (r: Result<u16, std::num::ParseIntError>)
    ensures
        r is Ok <==> decimal_in(s@, false, 0, u16::MAX as int) is Some,
        r matches Ok(v) ==> decimal_in(s@, false, 0, u16::MAX as int) == Some(v as int),
        r matches Err(e) ==> forall|t: String|
            #[trigger] to_string_from_display_ensures::<std::num::ParseIntError>(&e, t) ==> t@
                == u16_parse_error_text(s@),
{
    s.parse::<u16>()
}

/// The text that the error of reading `s` as a `u64` displays as.
pub uninterp spec fn u64_parse_error_text(s: Seq<char>) -> Seq<char>;

/// Calls `str::parse::<u64>`. Its documentation says that the text must be an
/// optional `+` followed by ASCII digits only, and that a value above
/// `u64::MAX` is an error; the contract says that. The error that comes back
/// is a function of the text alone, so the text it displays as is named by
/// [`u64_parse_error_text`]; which error kind that is, is left unsaid.
#[verifier::external_body]
pub(crate) fn parse_u64(s: &str) -> (r: Result<u64, std::num::ParseIntError>)
    ensures
        r is Ok <==> decimal_in(s@, false, 0, u64::MAX as int) is Some,
        r matches Ok(v) ==> decimal_in(s@, false, 0, u64::MAX as int) == Some(v as int),
        r matches Err(e) ==> forall|t: String|
            #[trigger] to_string_from_display_ensures::<std::num::ParseIntError>(&e, t) ==> t@
                == u64_parse_error_text(s@),
{
    s.parse::<u64>()
}

} // verus!
