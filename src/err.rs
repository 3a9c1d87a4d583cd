//! The flat error taxonomy shared by every part of the library.
use vstd::prelude::*;

verus! {

/// What went wrong, independent of the message attached to it.
#[derive(Debug, Clone, Copy, PartialEq, Eq, Structural)]
pub enum ErrorKind {
    UnexpectedAEAD,
    AddressNotParsed,
    AsyncIOFailed,
    TimedOut,
    BrokenPipe,
    InvalidInput,
    InconsistentState,
    UnexpectedEos,
    EncoderFull,
    DecoderTerminated,
    IncompleteDecoding,
    BrokenMessage,
    ChannelIsFull,
    ChannelIsClosed,
    ChannelIsEmpty,
    StreamFailed,
    StringNotUTF8,
    Other,
}

/// An error of the transport: a kind and a description.
#[derive(Debug, Clone)]
pub struct NetError {
    pub kind: ErrorKind,
    pub error: String,
}

impl NetError {
    pub fn new(kind: ErrorKind, error: String) -> (r: NetError)
        ensures
            r.kind == kind,
            r.error@ == error@,
    {
        NetError { kind, error }
    }

    /// The description carried by this error.
    pub fn message(&self) -> (r: String)
        ensures
            r@ == self.error@,
    {
        self.error.clone()
    }
}

/// An error of the sample queues between the transport and the audio
/// devices: a kind and a description.
#[derive(Debug, Clone)]
pub struct StreamError {
    pub kind: ErrorKind,
    pub error: String,
}

impl StreamError {
    pub fn new(kind: ErrorKind, error: String) -> (r: StreamError)
        ensures
            r.kind == kind,
            r.error@ == error@,
    {
        StreamError { kind, error }
    }
}

/// An error of the cipher layer: a kind and a description.
#[derive(Debug, Clone)]
pub struct CipherError {
    pub kind: ErrorKind,
    pub error: String,
}

impl CipherError {
    pub fn new(kind: ErrorKind, error: String) -> (r: CipherError)
        ensures
            r.kind == kind,
            r.error@ == error@,
    {
        CipherError { kind, error }
    }
}

} // verus!
