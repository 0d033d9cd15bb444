//! Failure records: what the service sends when it processed a call and
//! rejected it.

use crate::text::{decimal, decimal_digits};
use vstd::prelude::*;
use vstd::string::*;

verus! {

/// The text `code`, a colon, a space, and `message`.
pub open spec fn failure_text(code: u16, message: Seq<char>) -> Seq<char> {
    decimal_digits(code as nat) + ": "@ + message
}

/// Writes a failure as `failure_text` says.
fn describe(code: u16, message: &str) -> (text: String)
    ensures
        text@ == failure_text(code, message@),
{
    let mut text = decimal(code as u64);
    text.append(": ");
    text.append(message);
    text
}

/// Failure reported by the bans endpoints.
#[derive(Clone, Debug, PartialEq, Eq)]
pub struct BanError {
    pub code: u16,
    pub error: bool,
    pub exists: Option<bool>,
    pub message: String,
}

/// Failure reported by the images endpoints.
#[derive(Clone, Debug, PartialEq, Eq)]
pub struct ImageError {
    pub code: u16,
    pub error: bool,
    pub message: String,
    pub cache: Option<bool>,
}

/// Failure reported by the geolocation and currency endpoints.
#[derive(Clone, Debug, PartialEq, Eq)]
pub struct KumoError {
    pub code: u16,
    pub error: bool,
    pub message: String,
}

/// Failure reported by the music endpoints.
#[derive(Clone, Debug, PartialEq, Eq)]
pub struct MusicError {
    pub code: u16,
    pub error: bool,
    pub message: String,
}

impl BanError {
    /// The code and the message of the failure, as one line.
    pub fn to_string(&self) -> (text: String)
        ensures
            text@ == failure_text(self.code, self.message@),
    {
        describe(self.code, self.message.as_str())
    }
}

impl ImageError {
    /// The code and the message of the failure, as one line.
    pub fn to_string(&self) -> (text: String)
        ensures
            text@ == failure_text(self.code, self.message@),
    {
        describe(self.code, self.message.as_str())
    }
}

impl KumoError {
    /// The code and the message of the failure, as one line.
    pub fn to_string(&self) -> (text: String)
        ensures
            text@ == failure_text(self.code, self.message@),
    {
        describe(self.code, self.message.as_str())
    }
}

impl MusicError {
    /// The code and the message of the failure, as one line.
    pub fn to_string(&self) -> (text: String)
        ensures
            text@ == failure_text(self.code, self.message@),
    {
        describe(self.code, self.message.as_str())
    }
}

} // verus!
