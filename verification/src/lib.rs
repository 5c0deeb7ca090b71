//! Status probes for Minecraft servers.
//!
//! The crate holds the two wire dialects (Java Edition's length-prefixed
//! packets over a byte stream and Bedrock Edition's fixed-layout datagrams),
//! the decisions that drive one probe of either kind, and the summary that is
//! handed to callers. It performs no input or output: a caller moves bytes
//! and feeds what happened back to the probe.

use vstd::prelude::*;
use vstd::string::*;

pub mod address;
pub mod bedrock;
pub mod bedrock_probe;
pub mod executor;
pub mod filters;
pub mod java;
pub mod java_probe;
pub mod services;
pub mod structures;
pub mod text;
pub mod varint;
pub mod web;
pub mod wire;

verus! {

/// What can go wrong while a server is probed.
#[derive(Debug, Clone, PartialEq, Eq)]
pub enum Error {
    /// A packet was of the wrong kind or failed a wire-level check.
    InvalidPacket,
    /// A variable-length integer ran past five bytes, or a length did not fit.
    InvalidVarInt,
    /// A string's length prefix was zero, negative or too large.
    InvalidFraming,
    /// Reading or writing failed; the text says how.
    Io(String),
    /// The status document was not the expected JSON; the text says why.
    JsonErr(String),
    /// The address could not be split into a host and a port.
    InvalidAddress,
    /// The host has no address record.
    DnsLookupFailed,
    /// The deadline passed before an answer was read.
    TimedOut,
}

/// The mathematical value of an [`Error`]: texts are sequences of characters.
pub enum ErrorView {
    InvalidPacket,
    InvalidVarInt,
    InvalidFraming,
    Io(Seq<char>),
    JsonErr(Seq<char>),
    InvalidAddress,
    DnsLookupFailed,
    TimedOut,
}

impl View for Error {
    type V = ErrorView;

    open spec fn view(&self) -> ErrorView {
        match self {
            Error::InvalidPacket => ErrorView::InvalidPacket,
            Error::InvalidVarInt => ErrorView::InvalidVarInt,
            Error::InvalidFraming => ErrorView::InvalidFraming,
            Error::Io(text) => ErrorView::Io(text@),
            Error::JsonErr(text) => ErrorView::JsonErr(text@),
            Error::InvalidAddress => ErrorView::InvalidAddress,
            Error::DnsLookupFailed => ErrorView::DnsLookupFailed,
            Error::TimedOut => ErrorView::TimedOut,
        }
    }
}

/// How an error is told.
pub open spec fn message_of(error: ErrorView) -> Seq<char> {
    match error {
        ErrorView::InvalidPacket => "an invalid packet configuration was sent"@,
        ErrorView::InvalidVarInt => "VarInt length was negative or too large"@,
        ErrorView::InvalidFraming => "a string length was zero, negative or too large"@,
        ErrorView::Io(how) => "an I/O error occurred: "@ + how,
        ErrorView::JsonErr(why) => "a JSON error occurred: "@ + why,
        ErrorView::InvalidAddress => "an invalid address was provided"@,
        ErrorView::DnsLookupFailed => "DNS lookup for the host provided failed"@,
        ErrorView::TimedOut => "the server did not answer in time"@,
    }
}

impl Error {
    /// How this error is told.
    pub fn to_string(&self) -> (message: String)
        ensures
            message@ == message_of(self@),
    {
        match self {
            Error::InvalidPacket => "an invalid packet configuration was sent".to_owned(),
            Error::InvalidVarInt => "VarInt length was negative or too large".to_owned(),
            Error::InvalidFraming => "a string length was zero, negative or too large".to_owned(),
            Error::Io(how) => {
                let mut message = "an I/O error occurred: ".to_owned();
                message.append(how.as_str());
                message
            },
            Error::JsonErr(why) => {
                let mut message = "a JSON error occurred: ".to_owned();
                message.append(why.as_str());
                message
            },
            Error::InvalidAddress => "an invalid address was provided".to_owned(),
            Error::DnsLookupFailed => "DNS lookup for the host provided failed".to_owned(),
            Error::TimedOut => "the server did not answer in time".to_owned(),
        }
    }
}

/// The text carried by the error for input that ends too early.
pub open spec fn truncated_text() -> Seq<char> {
    "unexpected end of input"@
}

/// The error for input that ends before a value is complete.
pub open spec fn truncated() -> ErrorView {
    ErrorView::Io(truncated_text())
}

/// Builds the error for input that ends before a value is complete.
pub(crate) fn truncated_error() -> (e: Error)
    ensures
        e@ == truncated(),
{
    Error::Io("unexpected end of input".to_owned())
}

} // verus!
