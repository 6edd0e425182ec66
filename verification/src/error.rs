//! The failures the library reports.

use vstd::prelude::*;
use vstd::string::*;

verus! {

/// The character of one decimal digit.
pub open spec fn digit_text(d: int) -> Seq<char> {
    if d == 0 {
        "0"@
    } else if d == 1 {
        "1"@
    } else if d == 2 {
        "2"@
    } else if d == 3 {
        "3"@
    } else if d == 4 {
        "4"@
    } else if d == 5 {
        "5"@
    } else if d == 6 {
        "6"@
    } else if d == 7 {
        "7"@
    } else if d == 8 {
        "8"@
    } else {
        "9"@
    }
}

/// The decimal digits of a natural number, without leading zeros.
pub open spec fn decimal(n: nat) -> Seq<char>
    decreases n,
{
    if n < 10 {
        digit_text(n as int)
    } else {
        decimal(n / 10) + digit_text((n % 10) as int)
    }
}

/// The decimal digits of an integer, with a minus sign before a negative one.
pub open spec fn signed_decimal(n: int) -> Seq<char> {
    if n < 0 {
        "-"@ + decimal((-n) as nat)
    } else {
        decimal(n as nat)
    }
}

fn digit_str(d: u64) -> (text: &'static str)
    requires
        d < 10,
    ensures
        text@ == digit_text(d as int),
{
    if d == 0 {
        "0"
    } else if d == 1 {
        "1"
    } else if d == 2 {
        "2"
    } else if d == 3 {
        "3"
    } else if d == 4 {
        "4"
    } else if d == 5 {
        "5"
    } else if d == 6 {
        "6"
    } else if d == 7 {
        "7"
    } else if d == 8 {
        "8"
    } else {
        "9"
    }
}

fn decimal_string(n: u64) -> (text: String)
    ensures
        text@ == decimal(n as nat),
    decreases n,
{
    if n < 10 {
        digit_str(n).to_owned()
    } else {
        decimal_string(n / 10).concat(digit_str(n % 10))
    }
}

fn signed_decimal_string(n: i32) -> (text: String)
    ensures
        text@ == signed_decimal(n as int),
{
    if n < 0 {
        let magnitude: i64 = -(n as i64);
        "-".to_owned().concat(decimal_string(magnitude as u64).as_str())
    } else {
        decimal_string(n as u64)
    }
}

/// The five families a failure belongs to.
#[derive(Debug, Clone, Copy, PartialEq, Eq, Structural)]
pub enum ErrorKind {
    /// A request named something the data does not admit.
    Validation,
    /// Parallel sequences disagree in length.
    Alignment,
    /// A key was looked up and is absent.
    Lookup,
    /// A model container is unrecognised or corrupt.
    Format,
    /// Reading or writing an asset failed.
    Io,
}

/// A failure of one request or of one model load.
#[derive(Debug, Clone, PartialEq, Eq)]
pub enum TtsError {
    /// The style id lies outside the style matrix; `max_id` is the largest id it admits.
    InvalidStyleId { style_id: i32, max_id: usize },
    /// The style matrix is not a rectangle of at least one row.
    InvalidStyleShape,
    /// The phoneme-level sequences and the embedding rows do not line up.
    Misaligned,
    /// The mora is neither punctuation nor an entry of the mora table.
    UnknownMora(String),
    /// No resident model carries the identifier.
    UnknownModel(String),
    /// The model file or its style data cannot be decoded into a model.
    BadContainer,
    /// The audio encoder refused the samples; the text is the encoder's own.
    Io(String),
}

impl TtsError {
    /// The family of the failure.
    pub open spec fn spec_kind(&self) -> ErrorKind {
        match *self {
            TtsError::InvalidStyleId { .. } => ErrorKind::Validation,
            TtsError::InvalidStyleShape => ErrorKind::Validation,
            TtsError::Misaligned => ErrorKind::Alignment,
            TtsError::UnknownMora(_) => ErrorKind::Lookup,
            TtsError::UnknownModel(_) => ErrorKind::Lookup,
            TtsError::BadContainer => ErrorKind::Format,
            TtsError::Io(_) => ErrorKind::Io,
        }
    }

    /// The failure in words.
    pub open spec fn spec_message(&self) -> Seq<char> {
        match *self {
            TtsError::InvalidStyleId { style_id, max_id } => "Invalid style ID: "@ + signed_decimal(
                style_id as int,
            ) + ". Max ID: "@ + decimal(max_id as nat),
            TtsError::InvalidStyleShape => "Invalid shape for style vectors"@,
            TtsError::Misaligned => "Phonemes and embeddings do not line up"@,
            TtsError::UnknownMora(mora) => "Unknown mora: "@ + mora@,
            TtsError::UnknownModel(ident) => "Model not found: "@ + ident@,
            TtsError::BadContainer => "Unrecognised or corrupt model container"@,
            TtsError::Io(text) => text@,
        }
    }

    /// The failure in words. An invalid style id is given with the largest valid
    /// one.
    pub fn message(&self) -> (text: String)
        ensures
            text@ == self.spec_message(),
    {
        match self {
            TtsError::InvalidStyleId { style_id, max_id } => "Invalid style ID: ".to_owned().concat(
                signed_decimal_string(*style_id).as_str(),
            ).concat(". Max ID: ").concat(decimal_string(*max_id as u64).as_str()),
            TtsError::InvalidStyleShape => "Invalid shape for style vectors".to_owned(),
            TtsError::Misaligned => "Phonemes and embeddings do not line up".to_owned(),
            TtsError::UnknownMora(mora) => "Unknown mora: ".to_owned().concat(mora.as_str()),
            TtsError::UnknownModel(ident) => "Model not found: ".to_owned().concat(ident.as_str()),
            TtsError::BadContainer => "Unrecognised or corrupt model container".to_owned(),
            TtsError::Io(text) => text.clone(),
        }
    }

    /// The family of the failure.
    #[verifier::when_used_as_spec(spec_kind)]
    pub fn kind(&self) -> (kind: ErrorKind)
        ensures
            kind == self.spec_kind(),
    {
        match self {
            TtsError::InvalidStyleId { .. } => ErrorKind::Validation,
            TtsError::InvalidStyleShape => ErrorKind::Validation,
            TtsError::Misaligned => ErrorKind::Alignment,
            TtsError::UnknownMora(_) => ErrorKind::Lookup,
            TtsError::UnknownModel(_) => ErrorKind::Lookup,
            TtsError::BadContainer => ErrorKind::Format,
            TtsError::Io(_) => ErrorKind::Io,
        }
    }
}

} // verus!
