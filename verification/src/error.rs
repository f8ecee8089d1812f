//! What can go wrong, by cause.

use vstd::prelude::*;

verus! {

/// A required part of the configuration was not given.
#[derive(Debug, Clone, Copy, PartialEq, Eq)]
pub enum ClientBuildError {
    MissingSite,
    MissingEventHandler,
}

/// Why a request for a resource of the canvas gave no value.
#[derive(Debug, Clone, PartialEq, Eq)]
pub enum RequestError {
    /// The request could not be made or was refused; with the transport's words.
    Http(String),
    /// The response's body could not be read; with the transport's words.
    Buffer(String),
    /// The body is not UTF-8; with the length of its longest valid prefix.
    ParseUTF8(usize),
    /// The body is not the expected document; with the decoder's words.
    ParseJSON(String),
    /// A per-pixel buffer does not have one entry for each pixel of the canvas.
    Size { expected: usize, actual: usize },
    /// The canvas has more pixels than the machine can address.
    CanvasTooLarge,
    /// The cache was emptied while the request was under way, or the request
    /// was not the one under way: its result was dropped.
    Superseded,
    /// The timestamps could not be derived from what was fetched.
    Inconsistent(ConsistencyError),
}

/// Why a connection attempt ended.
#[derive(Debug, Clone, PartialEq, Eq)]
pub enum ConnectError {
    /// The base address has a scheme other than `http` and `https`. Permanent.
    InvalidSiteScheme(String),
    /// The base address yields no streaming endpoint. Permanent.
    InvalidSiteBase,
    /// The handshake failed; with the transport's words.
    WebsocketConnectFailed(String),
    /// The canvas metadata could not be fetched once the connection was up.
    InfoFailed(RequestError),
}

/// A state or an input that the rules of the cache exclude.
#[derive(Debug, Clone, Copy, PartialEq, Eq)]
pub enum ConsistencyError {
    /// A pixel outside the canvas.
    PixelOutOfRange { x: usize, y: usize },
    /// A timestamp buffer without the instant that its entries count from.
    MissingEpoch,
    /// An age that is negative or does not fit 32 bits of seconds.
    UnrepresentableAge,
    /// The instant that the canvas is presumed to have started at is out of range.
    UnrepresentableEpoch,
}

/// Why a field written in a form of its own could not be read.
#[derive(Debug, Clone, Copy, PartialEq, Eq)]
pub enum DecodeError {
    /// A truth value other than `false` where `false` stands for "absent".
    ExpectedFalse,
    /// A number without a digit.
    EmptyNumber,
    /// A character that is no digit.
    InvalidDigit,
    /// A number that does not fit 32 bits.
    NumberTooLarge,
    /// A time without a character.
    EmptyTimestamp,
    /// A time without the part that names its zone.
    MissingTimezone,
    /// A date and time that is not of the expected form, in a zone that is not
    /// known, or that its zone does not have.
    InvalidDatetime,
}

} // verus!
