//! The error taxonomy: validation failures raised by the builders, parse
//! failures for malformed JSON or datetime input, and the file, transport and
//! decode failures that surround a dispatch.

use vstd::prelude::*;

verus! {

/// A builder was finalized while a required field was missing or a required
/// collection was empty.
#[derive(Clone, Copy, PartialEq, Eq, Structural, Debug)]
pub enum ValidationError {
    /// The content settings builder was finalized without a content payload.
    MissingContent,
    /// The message builder was finalized without an auth token.
    MissingAuth,
    /// The message builder was finalized without an application identifier.
    MissingApplication,
    /// The message builder was finalized with no content settings added.
    NoContentSettings,
}

/// Supplied input could not be parsed.
#[derive(Clone, Copy, PartialEq, Eq, Structural, Debug)]
pub enum ParseError {
    /// The text was not a JSON document of the expected shape.
    InvalidJson,
    /// The text did not match the fixed "Y-m-d H:M" datetime format.
    InvalidDatetime,
}

/// Any failure this library or its surrounding I/O layer can report.
#[derive(Clone, PartialEq, Eq, Debug)]
pub enum Error {
    /// A builder's required field was missing; never raised after validation.
    Validation(ValidationError),
    /// Malformed input JSON or a malformed datetime string.
    Parse(ParseError),
    /// The content source could not be read; carries the underlying cause.
    File(String),
    /// The outbound HTTP call failed below the application layer.
    Transport(String),
    /// The remote API's response body was not valid JSON.
    Decode,
}

} // verus!
