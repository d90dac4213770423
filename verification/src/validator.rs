//! Rules that a payload must meet before it is handed to the symbology
//! encoder. Each symbology has its own limits on length and characters.

use vstd::prelude::*;
use crate::barcode_config::BarcodeConfigInternal;
use crate::barcode_config::BarcodeFormat;

verus! {

/// Most characters that a Codabar payload may have.
pub const CODABAR_MAX_LENGTH: usize = 16;

/// Most characters that a DataBar payload may have.
pub const DATABAR_MAX_LENGTH: usize = 99;

/// Most characters that a Code 39 payload may have.
pub const CODE39_MAX_LENGTH: usize = 99;

/// Most characters that a UPC-E payload may have.
pub const UPCE_MAX_LENGTH: usize = 8;

/// Largest code point of ISO/IEC 8859-1.
pub const LATIN1_MAX: u32 = 255;

/// Why a payload cannot be encoded in the chosen symbology.
#[derive(Clone, Copy, Debug, PartialEq, Eq, Structural)]
pub enum EncodingError {
    /// A Codabar payload has more than 16 characters.
    CodabarTooLong,
    /// A DataBar payload has more than 99 characters.
    DataBarTooLong,
    /// A DataBar Expanded payload holds a character outside ISO/IEC 8859-1.
    DataBarExpandedCharacter,
    /// A Code 39 payload has more than 99 characters.
    Code39TooLong,
    /// A UPC-E payload has more than 8 characters.
    UpceTooLong,
    /// The symbology encoder refused the format or the payload.
    Rejected,
    /// The symbology encoder gave a symbol whose pixels do not match its
    /// size.
    MalformedSymbol,
}

/// The text that tells a user what is wrong.
pub open spec fn spec_error_message(error: EncodingError) -> Seq<char> {
    match error {
        EncodingError::CodabarTooLong => "Codabar barcode can only have 16 characters"@,
        EncodingError::DataBarTooLong => "DataBar barcode can only have 99 characters"@,
        EncodingError::DataBarExpandedCharacter => "Invalid character in DataBar Expanded data: only ISO/IEC 8859-1 characters are supported."@,
        EncodingError::Code39TooLong => "Code39 barcode can only have 99 characters"@,
        EncodingError::UpceTooLong => "UPCE barcode can only have 8 characters"@,
        EncodingError::Rejected => "The encoder rejected the format or the data"@,
        EncodingError::MalformedSymbol => "The encoder returned a malformed symbol"@,
    }
}

impl EncodingError {
    /// The text that tells a user what is wrong.
    pub fn message(&self) -> (message: String)
        ensures
            message@ == spec_error_message(*self),
    {
        match self {
            EncodingError::CodabarTooLong => "Codabar barcode can only have 16 characters".to_owned(),
            EncodingError::DataBarTooLong => "DataBar barcode can only have 99 characters".to_owned(),
            EncodingError::DataBarExpandedCharacter => "Invalid character in DataBar Expanded data: only ISO/IEC 8859-1 characters are supported.".to_owned(),
            EncodingError::Code39TooLong => "Code39 barcode can only have 99 characters".to_owned(),
            EncodingError::UpceTooLong => "UPCE barcode can only have 8 characters".to_owned(),
            EncodingError::Rejected => "The encoder rejected the format or the data".to_owned(),
            EncodingError::MalformedSymbol => "The encoder returned a malformed symbol".to_owned(),
        }
    }
}

/// Whether every character of `data` is one of ISO/IEC 8859-1.
pub open spec fn spec_is_latin1(data: Seq<char>) -> bool {
    forall|i: int| 0 <= i < data.len() ==> data[i] as u32 <= LATIN1_MAX
}

/// The rule that `data` breaks as a payload of `format`, if it breaks one.
pub open spec fn spec_validation_error(format: BarcodeFormat, data: Seq<char>) -> Option<EncodingError> {
    match format {
        BarcodeFormat::Codabar => if data.len() > CODABAR_MAX_LENGTH {
            Some(EncodingError::CodabarTooLong)
        } else {
            None
        },
        BarcodeFormat::DataBar => if data.len() > DATABAR_MAX_LENGTH {
            Some(EncodingError::DataBarTooLong)
        } else {
            None
        },
        BarcodeFormat::DataBarExpanded => if !spec_is_latin1(data) {
            Some(EncodingError::DataBarExpandedCharacter)
        } else {
            None
        },
        BarcodeFormat::Code39 => if data.len() > CODE39_MAX_LENGTH {
            Some(EncodingError::Code39TooLong)
        } else {
            None
        },
        BarcodeFormat::UPCE => if data.len() > UPCE_MAX_LENGTH {
            Some(EncodingError::UpceTooLong)
        } else {
            None
        },
        _ => None,
    }
}

/// Whether every character of `data` is one of ISO/IEC 8859-1.
pub fn is_latin1(data: &str) -> (all: bool)
    ensures
        all == spec_is_latin1(data@),
{
    let length: usize = data.unicode_len();
    let mut i: usize = 0;
    while i < length
        invariant
            i <= length,
            length == data@.len(),
            forall|k: int| 0 <= k < i ==> data@[k] as u32 <= LATIN1_MAX,
        decreases length - i,
    {
        let c: char = data.get_char(i);
        if c as u32 > LATIN1_MAX {
            return false;
        }
        i += 1;
    }
    true
}

/// Accepts a payload of at most `limit` characters and refuses a longer one
/// with `error`.
fn check_length(data: &str, limit: usize, error: EncodingError) -> (checked: Result<(), EncodingError>)
    ensures
        checked == if data@.len() > limit {
            Err::<(), EncodingError>(error)
        } else {
            Ok::<(), EncodingError>(())
        },
{
    if data.unicode_len() > limit {
        Err(error)
    } else {
        Ok(())
    }
}

/// A Codabar payload has at most 16 characters. Other formats pass.
pub fn validate_code_bar_config(config: &BarcodeConfigInternal) -> (checked: Result<(), EncodingError>)
    ensures
        checked == if config.format == BarcodeFormat::Codabar && config.data@.len()
            > CODABAR_MAX_LENGTH {
            Err::<(), EncodingError>(EncodingError::CodabarTooLong)
        } else {
            Ok::<(), EncodingError>(())
        },
{
    if config.format == BarcodeFormat::Codabar {
        check_length(config.data.as_str(), CODABAR_MAX_LENGTH, EncodingError::CodabarTooLong)
    } else {
        Ok(())
    }
}

/// A DataBar payload has at most 99 characters. Other formats pass.
pub fn validate_databar_config(config: &BarcodeConfigInternal) -> (checked: Result<(), EncodingError>)
    ensures
        checked == if config.format == BarcodeFormat::DataBar && config.data@.len()
            > DATABAR_MAX_LENGTH {
            Err::<(), EncodingError>(EncodingError::DataBarTooLong)
        } else {
            Ok::<(), EncodingError>(())
        },
{
    if config.format == BarcodeFormat::DataBar {
        check_length(config.data.as_str(), DATABAR_MAX_LENGTH, EncodingError::DataBarTooLong)
    } else {
        Ok(())
    }
}

/// A DataBar Expanded payload holds only characters of ISO/IEC 8859-1.
/// Other formats pass.
pub fn validate_databar_expanded_config(config: &BarcodeConfigInternal) -> (checked: Result<
    (),
    EncodingError,
>)
    ensures
        checked == if config.format == BarcodeFormat::DataBarExpanded && !spec_is_latin1(
            config.data@,
        ) {
            Err::<(), EncodingError>(EncodingError::DataBarExpandedCharacter)
        } else {
            Ok::<(), EncodingError>(())
        },
{
    if config.format == BarcodeFormat::DataBarExpanded && !is_latin1(config.data.as_str()) {
        Err(EncodingError::DataBarExpandedCharacter)
    } else {
        Ok(())
    }
}

/// A Code 39 payload has at most 99 characters. Other formats pass.
pub fn validate_code39_config(config: &BarcodeConfigInternal) -> (checked: Result<(), EncodingError>)
    ensures
        checked == if config.format == BarcodeFormat::Code39 && config.data@.len()
            > CODE39_MAX_LENGTH {
            Err::<(), EncodingError>(EncodingError::Code39TooLong)
        } else {
            Ok::<(), EncodingError>(())
        },
{
    if config.format == BarcodeFormat::Code39 {
        check_length(config.data.as_str(), CODE39_MAX_LENGTH, EncodingError::Code39TooLong)
    } else {
        Ok(())
    }
}

/// A UPC-E payload has at most 8 characters. Other formats pass.
pub fn validate_upce_config(config: &BarcodeConfigInternal) -> (checked: Result<(), EncodingError>)
    ensures
        checked == if config.format == BarcodeFormat::UPCE && config.data@.len() > UPCE_MAX_LENGTH {
            Err::<(), EncodingError>(EncodingError::UpceTooLong)
        } else {
            Ok::<(), EncodingError>(())
        },
{
    if config.format == BarcodeFormat::UPCE {
        check_length(config.data.as_str(), UPCE_MAX_LENGTH, EncodingError::UpceTooLong)
    } else {
        Ok(())
    }
}

/// Checks a payload against the rules of a format.
pub fn validate_payload(format: BarcodeFormat, data: &str) -> (checked: Result<(), EncodingError>)
    ensures
        checked == match spec_validation_error(format, data@) {
            Some(error) => Err::<(), EncodingError>(error),
            None => Ok::<(), EncodingError>(()),
        },
{
    match format {
        BarcodeFormat::Codabar => check_length(
            data,
            CODABAR_MAX_LENGTH,
            EncodingError::CodabarTooLong,
        ),
        BarcodeFormat::DataBar => check_length(
            data,
            DATABAR_MAX_LENGTH,
            EncodingError::DataBarTooLong,
        ),
        BarcodeFormat::DataBarExpanded => if is_latin1(data) {
            Ok(())
        } else {
            Err(EncodingError::DataBarExpandedCharacter)
        },
        BarcodeFormat::Code39 => check_length(data, CODE39_MAX_LENGTH, EncodingError::Code39TooLong),
        BarcodeFormat::UPCE => check_length(data, UPCE_MAX_LENGTH, EncodingError::UpceTooLong),
        _ => Ok(()),
    }
}

/// Checks the payload of a request against the rules of its format.
pub fn validate_barcode_config(config: &BarcodeConfigInternal) -> (checked: Result<(), EncodingError>)
    ensures
        checked == match spec_validation_error(config.format, config.data@) {
            Some(error) => Err::<(), EncodingError>(error),
            None => Ok::<(), EncodingError>(()),
        },
{
    match validate_code_bar_config(config) {
        Err(error) => {
            return Err(error);
        },
        Ok(_) => {},
    }
    match validate_databar_config(config) {
        Err(error) => {
            return Err(error);
        },
        Ok(_) => {},
    }
    match validate_databar_expanded_config(config) {
        Err(error) => {
            return Err(error);
        },
        Ok(_) => {},
    }
    match validate_code39_config(config) {
        Err(error) => {
            return Err(error);
        },
        Ok(_) => {},
    }
    validate_upce_config(config)
}

} // verus!
