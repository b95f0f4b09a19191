//! Phone number parsing and validation, done by the `phonenumber` crate.
use vstd::prelude::*;
use phonenumber::ParseError as RawParseError;

verus! {

#[verifier::external_type_specification]
#[verifier::external_body]
pub struct ExPhoneNumber(phonenumber::PhoneNumber);

/// Why a text could not be read as a phone number (the kinds of
/// `phonenumber::ParseError`).
#[derive(Clone, Copy, Debug, PartialEq, Eq)]
pub enum PhoneParseError {
    /// Fewer than three digits, or no number at all.
    NoNumber,
    /// The country code belongs to no known country or entity.
    InvalidCountryCode,
    /// Too few digits after the international dialing prefix.
    TooShortAfterIdd,
    /// Too few digits after the country code.
    TooShortNsn,
    /// More digits than any phone number has.
    TooLong,
    /// An integer part of the number could not be read.
    MalformedInteger,
}

/// The parts of a parsed phone number that its validity depends on.
#[derive(Clone, Copy, Debug, PartialEq, Eq)]
pub struct PhoneDigits {
    pub country_code: u16,
    pub national_number: u64,
    pub leading_zeros: u8,
}

/// What `phonenumber::parse` gives for a text with no default region:
/// the digits of the number, or the kind of the error.
pub uninterp spec fn phone_parse(text: Seq<char>) -> Result<PhoneDigits, PhoneParseError>;

/// What `PhoneNumber::is_valid` answers for a number with these digits
/// (checked against the metadata that the crate carries).
pub uninterp spec fn phone_number_valid(digits: PhoneDigits) -> bool;

/// A phone number as parsed by `phonenumber`, with its digits.
pub struct ParsedPhone {
    number: phonenumber::PhoneNumber,
    digits: PhoneDigits,
}

impl View for ParsedPhone {
    type V = PhoneDigits;

    closed spec fn view(&self) -> PhoneDigits {
        self.digits
    }
}

/// Calls `phonenumber::parse(None, text)`. Trusted: the result is the one
/// named by `phone_parse`; on success the digits are the country code and
/// the national number (value and leading zeros) of the parsed number.
#[verifier::external_body]
pub(crate) fn parse_phone(text: &str) -> (r: Result<ParsedPhone, PhoneParseError>)
    ensures
        match r {
            Ok(p) => phone_parse(text@) == Ok::<PhoneDigits, PhoneParseError>(p@),
            Err(e) => phone_parse(text@) == Err::<PhoneDigits, PhoneParseError>(e),
        },
{
    match phonenumber::parse(None, text) {
        Ok(n) => Ok(ParsedPhone { digits: PhoneDigits { country_code: n.code().value(), national_number: n.national().value(), leading_zeros: n.national().zeros() }, number: n }),
        Err(RawParseError::NoNumber) => Err(PhoneParseError::NoNumber),
        Err(RawParseError::InvalidCountryCode) => Err(PhoneParseError::InvalidCountryCode),
        Err(RawParseError::TooShortAfterIdd) => Err(PhoneParseError::TooShortAfterIdd),
        Err(RawParseError::TooShortNsn) => Err(PhoneParseError::TooShortNsn),
        Err(RawParseError::TooLong) => Err(PhoneParseError::TooLong),
        Err(RawParseError::MalformedInteger(_)) => Err(PhoneParseError::MalformedInteger),
    }
}

/// Calls `PhoneNumber::is_valid`. Trusted: the answer is the one named by
/// `phone_number_valid` for the number's digits, which is all that the
/// crate's check reads of the number (its country code and its national
/// number with leading zeros).
#[verifier::external_body]
pub(crate) fn phone_is_valid(p: &ParsedPhone) -> (valid: bool)
    ensures
        valid == phone_number_valid(p@),
{
    p.number.is_valid()
}

} // verus!
