//! Why a category has no record in a cycle.

use vstd::prelude::*;

verus! {

/// A value that was looked up under a name and was not there.
#[derive(Clone, Debug, PartialEq)]
pub struct OptionEmptyError {
    pub variable_name: String,
}

impl OptionEmptyError {
    /// The text of the error.
    pub open spec fn message_text(self) -> Seq<char> {
        "Could not access option value for '"@ + self.variable_name@ + "'"@
    }

    /// The text of the error, with the name in quotes.
    pub fn message(&self) -> (text: String)
        ensures
            text@ == self.message_text(),
    {
        let mut text = String::from_str("Could not access option value for '");
        text.append(self.variable_name.as_str());
        text.append("'");
        text
    }
}

/// A failure to make the record of one category. It stays within that
/// category: the cycle reports it and goes on.
#[derive(Clone, Debug, PartialEq)]
pub enum FetchError {
    /// The device could not be reached; the text is the device client's.
    Transport(String),
    /// The device's answer could not be read; the text is the device
    /// client's.
    Decode(String),
    /// The device answered with an error of its own; the text is the device
    /// client's.
    Protocol(String),
    /// The device's table has no information under the identifier that was
    /// asked for.
    Lookup(OptionEmptyError),
    /// The clock is outside the years that a count of nanoseconds in 64 bits
    /// can express.
    Timestamp,
}

impl FetchError {
    /// The text that a diagnostic gives for the error.
    pub open spec fn detail_text(self) -> Seq<char> {
        match self {
            FetchError::Transport(text) => text@,
            FetchError::Decode(text) => text@,
            FetchError::Protocol(text) => text@,
            FetchError::Lookup(missing) => missing.message_text(),
            FetchError::Timestamp => "Could not fetch timestamp"@,
        }
    }

    /// The text that a diagnostic gives for the error.
    pub fn detail(&self) -> (text: String)
        ensures
            text@ == self.detail_text(),
    {
        match self {
            FetchError::Transport(text) => text.clone(),
            FetchError::Decode(text) => text.clone(),
            FetchError::Protocol(text) => text.clone(),
            FetchError::Lookup(missing) => missing.message(),
            FetchError::Timestamp => String::from_str("Could not fetch timestamp"),
        }
    }
}

/// Turns a reading of the clock into the time of a record: a reading that
/// the clock could not give is the `Timestamp` error.
pub fn time_of_reading(reading: Option<i64>) -> (time: Result<i64, FetchError>)
    ensures
        match reading {
            Some(nanos) => time == Ok::<i64, FetchError>(nanos),
            None => time == Err::<i64, FetchError>(FetchError::Timestamp),
        },
{
    match reading {
        Some(nanos) => Ok(nanos),
        None => Err(FetchError::Timestamp),
    }
}

} // verus!
