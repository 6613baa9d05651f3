//! The failures this library reports.

use vstd::prelude::*;
use vstd::string::StringExecFns;
use crate::text::{decimal_text, push_decimal};
use crate::wire::{DecodeError, DecodeFailure};

verus! {

/// `url::ParseError`, carried from where a URL was refused to whoever
/// reports it.
#[verifier::external_type_specification]
#[verifier::external_body]
pub struct ExUrlParseError(url::ParseError);

/// `serde_json::Error`, carried from where a text was refused to whoever
/// reports it.
#[verifier::external_type_specification]
#[verifier::external_body]
pub struct ExJsonError(serde_json::Error);

/// Why a JSON document could not be read or written.
#[derive(Debug)]
pub enum SerializationError {
    /// The text is no JSON document, or the document could not be put
    /// into text.
    Syntax(serde_json::Error),
    /// The document does not hold what was to be read from it.
    Schema(DecodeError),
}

/// What can go wrong between building a request and reading its answer.
#[derive(Debug)]
pub enum AwtrixError {
    /// The transport could not complete the request; the text is the
    /// transport's own account of it.
    Http(String),
    /// The local configuration is unusable.
    Config(String),
    /// A configured device does not answer.
    DeviceUnreachable { device: String, host: String },
    /// A color was not written as six hexadecimal digits.
    InvalidColor(String),
    /// An icon id was refused.
    InvalidIcon(u32),
    /// The device answered with a status outside the success range.
    Api { message: String, code: u16 },
    /// A JSON document could not be read or written.
    Serialization(SerializationError),
    /// A file could not be read or written; the text names the cause.
    Io(String),
    /// A host or an endpoint does not make a URL.
    Url(url::ParseError),
    /// Anything else.
    Other(String),
}


/// Whether `e` reports that a text is no JSON document.
pub open spec fn is_syntax_error(e: AwtrixError) -> bool {
    e matches AwtrixError::Serialization(SerializationError::Syntax(_))
}

/// Whether `e` reports the failure `f` to find in a document what was
/// to be read from it.
pub open spec fn is_schema_error(e: AwtrixError, f: DecodeFailure) -> bool {
    e matches AwtrixError::Serialization(SerializationError::Schema(d)) && d@ == f
}

/// What `AwtrixError::message` says of each error.
pub open spec fn error_message(e: AwtrixError) -> Seq<char> {
    match e {
        AwtrixError::Http(_) => "HTTP request failed"@,
        AwtrixError::Config(m) => "Invalid configuration: "@ + m@,
        AwtrixError::DeviceUnreachable { device, host } => "Device '"@ + device@
            + "' not reachable at "@ + host@,
        AwtrixError::InvalidColor(m) => "Invalid color format: "@ + m@,
        AwtrixError::InvalidIcon(id) => "Invalid icon ID: "@ + decimal_text(id as nat),
        AwtrixError::Api { message, code } => "API error: "@ + message@ + " (code: "@
            + decimal_text(code as nat) + ")"@,
        AwtrixError::Serialization(_) => "Serialization error"@,
        AwtrixError::Io(_) => "IO error"@,
        AwtrixError::Url(_) => "Invalid URL"@,
        AwtrixError::Other(m) => m@,
    }
}

impl AwtrixError {
    /// The error in words.
    pub fn message(&self) -> (m: String)
        ensures
            m@ == error_message(*self),
    {
        match self {
            AwtrixError::Http(_) => String::from_str("HTTP request failed"),
            AwtrixError::Config(m) => String::from_str("Invalid configuration: ").concat(
                m.as_str(),
            ),
            AwtrixError::DeviceUnreachable { device, host } => String::from_str("Device '").concat(
                device.as_str(),
            ).concat("' not reachable at ").concat(host.as_str()),
            AwtrixError::InvalidColor(m) => String::from_str("Invalid color format: ").concat(
                m.as_str(),
            ),
            AwtrixError::InvalidIcon(id) => {
                let mut m = String::from_str("Invalid icon ID: ");
                push_decimal(&mut m, *id as u64);
                m
            },
            AwtrixError::Api { message, code } => {
                let mut m = String::from_str("API error: ").concat(message.as_str()).concat(
                    " (code: ",
                );
                push_decimal(&mut m, *code as u64);
                m.append(")");
                m
            },
            AwtrixError::Serialization(_) => String::from_str("Serialization error"),
            AwtrixError::Io(_) => String::from_str("IO error"),
            AwtrixError::Url(_) => String::from_str("Invalid URL"),
            AwtrixError::Other(m) => m.clone(),
        }
    }
}

} // verus!
