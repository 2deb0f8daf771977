//! Input validation utilities.

use vstd::prelude::*;
use crate::common::error::{Error, ErrorView};
use crate::common::text::{concat, decimal, decimal_string, str_eq};

verus! {

/// Maximum text length for TTS
pub const MAX_TTS_TEXT_LENGTH: usize = 5000;

/// Maximum text length for expression measurement
pub const MAX_EXPRESSION_TEXT_LENGTH: usize = 10000;

/// Maximum file size for uploads (10MB)
pub const MAX_FILE_SIZE: usize = 10 * 1024 * 1024;

/// The sample rates that the service accepts.
pub open spec fn is_valid_sample_rate(rate: u32) -> bool {
    rate == 8000 || rate == 16000 || rate == 22050 || rate == 24000 || rate == 44100 || rate
        == 48000
}

/// What a validator answers: nothing to object to, or the text of the objection.
pub open spec fn verdict_of(r: Result<(), Error>) -> Option<Seq<char>> {
    match r {
        Ok(_) => None,
        Err(e) => match e@ {
            ErrorView::Validation(m) => Some(m),
            _ => Some(Seq::empty()),
        },
    }
}

/// Whether a result is either `Ok` or a validation error.
pub open spec fn is_verdict(r: Result<(), Error>) -> bool {
    match r {
        Ok(_) => true,
        Err(e) => e@ is Validation,
    }
}

/// The objection to a text of `len` bytes under a limit, if there is one.
pub open spec fn text_length_objection(len: nat, max_length: nat, field_name: Seq<char>) -> Option<
    Seq<char>,
> {
    if len == 0 {
        Some(field_name + " cannot be empty"@)
    } else if len > max_length {
        Some(
            field_name + " must be <= "@ + decimal(max_length) + " characters, got "@ + decimal(
                len,
            ),
        )
    } else {
        None
    }
}

/// Validate text length
pub fn validate_text_length(text: &str, max_length: usize, field_name: &str) -> (r: Result<
    (),
    Error,
>)
    ensures
        is_verdict(r),
        verdict_of(r) == text_length_objection(
            text.len() as nat,
            max_length as nat,
            field_name@,
        ),
{
    let len = text.len();
    if len == 0 {
        let m = concat(field_name, " cannot be empty");
        return Err(Error::Validation(m));
    }
    if len > max_length {
        let mut m = concat(field_name, " must be <= ");
        let limit = decimal_string(max_length as u64);
        m.append(limit.as_str());
        m.append(" characters, got ");
        let got = decimal_string(len as u64);
        m.append(got.as_str());
        return Err(Error::Validation(m));
    }
    Ok(())
}

/// The objection to a sample rate, if there is one.
pub open spec fn sample_rate_objection(rate: u32) -> Option<Seq<char>> {
    if is_valid_sample_rate(rate) {
        None
    } else {
        Some(
            "Invalid sample rate "@ + decimal(rate as nat)
                + ". Valid rates are: [8000, 16000, 22050, 24000, 44100, 48000]"@,
        )
    }
}

/// Validate sample rate
pub fn validate_sample_rate(rate: u32) -> (r: Result<(), Error>)
    ensures
        is_verdict(r),
        verdict_of(r) == sample_rate_objection(rate),
{
    if rate == 8000 || rate == 16000 || rate == 22050 || rate == 24000 || rate == 44100 || rate
        == 48000 {
        return Ok(());
    }
    let digits = decimal_string(rate as u64);
    let mut m = concat("Invalid sample rate ", digits.as_str());
    m.append(". Valid rates are: [8000, 16000, 22050, 24000, 44100, 48000]");
    Err(Error::Validation(m))
}

/// The objection to a file of `size` bytes, if there is one.
pub open spec fn file_size_objection(size: nat, field_name: Seq<char>) -> Option<Seq<char>> {
    if size > MAX_FILE_SIZE {
        Some(
            field_name + " size exceeds maximum of "@ + decimal(MAX_FILE_SIZE as nat)
                + " bytes, got "@ + decimal(size) + " bytes"@,
        )
    } else {
        None
    }
}

/// Validate file size
pub fn validate_file_size(size: usize, field_name: &str) -> (r: Result<(), Error>)
    ensures
        is_verdict(r),
        verdict_of(r) == file_size_objection(size as nat, field_name@),
{
    if size > MAX_FILE_SIZE {
        let mut m = concat(field_name, " size exceeds maximum of ");
        let limit = decimal_string(MAX_FILE_SIZE as u64);
        m.append(limit.as_str());
        m.append(" bytes, got ");
        let got = decimal_string(size as u64);
        m.append(got.as_str());
        m.append(" bytes");
        return Err(Error::Validation(m));
    }
    Ok(())
}

/// The objection to an API key of `len` bytes, if there is one.
pub open spec fn api_key_objection(api_key: Seq<char>, len: nat) -> Option<Seq<char>> {
    if len == 0 {
        Some("API key cannot be empty"@)
    } else if api_key == "dummy"@ {
        Some("Invalid API key: 'dummy' is not allowed"@)
    } else if len < 20 {
        Some("API key appears to be invalid (too short)"@)
    } else {
        None
    }
}

/// Validate API key format
pub fn validate_api_key(api_key: &str) -> (r: Result<(), Error>)
    ensures
        is_verdict(r),
        verdict_of(r) == api_key_objection(api_key@, api_key.len() as nat),
{
    if api_key.len() == 0 {
        return Err(Error::validation("API key cannot be empty"));
    }
    if str_eq(api_key, "dummy") {
        return Err(Error::validation("Invalid API key: 'dummy' is not allowed"));
    }
    if api_key.len() < 20 {
        return Err(Error::validation("API key appears to be invalid (too short)"));
    }
    Ok(())
}

/// The objection to a voice name of `len` bytes, if there is one.
pub open spec fn voice_name_objection(len: nat) -> Option<Seq<char>> {
    if len == 0 {
        Some("Voice name cannot be empty"@)
    } else if len > 100 {
        Some("Voice name too long (max 100 characters)"@)
    } else {
        None
    }
}

/// Validate voice name
pub fn validate_voice_name(name: &str) -> (r: Result<(), Error>)
    ensures
        is_verdict(r),
        verdict_of(r) == voice_name_objection(name.len() as nat),
{
    if name.len() == 0 {
        return Err(Error::validation("Voice name cannot be empty"));
    }
    if name.len() > 100 {
        return Err(Error::validation("Voice name too long (max 100 characters)"));
    }
    Ok(())
}

/// Whether Unicode classes a character as a letter or a number.
pub uninterp spec fn is_alphanumeric(c: char) -> bool;

/// Whether a character is a letter or a number.
///
/// Trusted: `char::is_alphanumeric` of std, a function of the character alone.
#[verifier::external_body]
fn char_is_alphanumeric(c: char) -> (r: bool)
    ensures
        r == is_alphanumeric(c),
{
    c.is_alphanumeric()
}

/// Whether a character may stand in a language code.
pub open spec fn is_code_char(c: char) -> bool {
    is_alphanumeric(c) || c == '-'
}

/// The objection to a language code, if there is one.
pub open spec fn language_code_objection(code: Seq<char>) -> Option<Seq<char>> {
    if code.len() == 0 {
        Some("Language code cannot be empty"@)
    } else if !(forall|i: int| 0 <= i < code.len() ==> is_code_char(#[trigger] code[i])) {
        Some("Invalid language code format"@)
    } else {
        None
    }
}

/// Validate language code (BCP-47)
pub fn validate_language_code(code: &str) -> (r: Result<(), Error>)
    ensures
        is_verdict(r),
        verdict_of(r) == language_code_objection(code@),
{
    if code.is_empty() {
        return Err(Error::validation("Language code cannot be empty"));
    }
    let mut all = true;
    for c in it: code.chars()
        invariant
            all == (forall|i: int| 0 <= i < it.index() ==> is_code_char(#[trigger] code@[i])),
            it.seq() == code@,
    {
        if !(char_is_alphanumeric(c) || c == '-') {
            all = false;
        }
    }
    if !all {
        return Err(Error::validation("Invalid language code format"));
    }
    Ok(())
}

} // verus!
