//! STUN binding requests and replies (RFC 5389): what is sent, how a reply
//! is read, and when the query gives up.
use vstd::prelude::*;
use crate::err::{ErrorKind, NetError};
use bytecodec::{DecodeExt, EncodeExt};
use rand::Rng;
use stun_codec::rfc5389::attributes::{MappedAddress, Software, XorMappedAddress};
use stun_codec::rfc5389::{methods::BINDING, Attribute};
use stun_codec::{Message, MessageClass, MessageDecoder, MessageEncoder, TransactionId};

verus! {

/// The public STUN server that is asked by default.
pub const STUN_ADDRESS: &'static str = "stun.l.google.com:19302";

#[verifier::external_type_specification]
#[verifier::external_body]
pub struct ExCodecError(bytecodec::Error);

/// What a STUN reply carries: whether it was a broken message, and the
/// `XOR-MAPPED-ADDRESS` and `MAPPED-ADDRESS` attributes written as
/// `ip:port`.
pub struct StunReply {
    pub broken: bool,
    pub xor_mapped: Option<String>,
    pub mapped: Option<String>,
}

pub open spec fn opt_view(o: Option<String>) -> Option<Seq<char>> {
    match o {
        Some(s) => Some(s@),
        None => None,
    }
}

impl StunReply {
    pub open spec fn view(&self) -> (bool, Option<Seq<char>>, Option<Seq<char>>) {
        (self.broken, opt_view(self.xor_mapped), opt_view(self.mapped))
    }
}

/// The bytes of a binding request with transaction id `txid` and, if
/// given, a `SOFTWARE` attribute.
pub uninterp spec fn stun_request_of(txid: Seq<u8>, software: Option<Seq<char>>) -> Seq<u8>;

/// What decoding `buf` as a STUN message gives: `None` where the decoder
/// fails.
pub uninterp spec fn stun_reply_of(buf: Seq<u8>) -> Option<(bool, Option<Seq<char>>, Option<Seq<char>>)>;

/// Relies on stun_codec's `Message::new`, `Software::new` and
/// `MessageEncoder`: encodes a binding request. `Software::new` refuses a
/// description of 128 characters or more.
#[verifier::external_body]
fn encode_binding_request(txid: [u8; 12], software: &Option<String>) -> (r: Result<Vec<u8>, bytecodec::Error>)
    ensures
        r matches Ok(b) ==> b@ == stun_request_of(txid@, opt_view(*software)),
        (software matches Some(s) && s@.len() >= 128) ==> r is Err,
        (software matches Some(s) ==> s@.len() < 128) ==> r is Ok,
{
    let mut message = Message::<Attribute>::new(MessageClass::Request, BINDING, TransactionId::new(txid));
    if let Some(s) = software {
        message.add_attribute(Attribute::Software(Software::new(s.to_owned())?));
    }
    MessageEncoder::new().encode_into_bytes(message)
}

/// Relies on stun_codec's `MessageDecoder` and `Message::get_attribute`:
/// decodes `buf` and reads the two address attributes, each as `ip:port`.
#[verifier::external_body]
fn decode_reply(buf: &[u8]) -> (r: Result<StunReply, bytecodec::Error>)
    ensures
        r matches Ok(rep) ==> stun_reply_of(buf@) == Some(rep@),
        r is Err ==> stun_reply_of(buf@).is_none(),
{
    let msg = match MessageDecoder::<Attribute>::new().decode_from_bytes(buf)? {
        Ok(m) => m,
        Err(_) => return Ok(StunReply { broken: true, xor_mapped: None, mapped: None }),
    };
    let xor_mapped = msg.get_attribute::<XorMappedAddress>().map(|a| a.address().to_string());
    let mapped = msg.get_attribute::<MappedAddress>().map(|a| a.address().to_string());
    Ok(StunReply { broken: false, xor_mapped, mapped })
}

/// Relies on bytecodec::Error::kind: the library's kind for a codec error.
#[verifier::external_body]
fn codec_error_kind(e: &bytecodec::Error) -> (r: ErrorKind)
    ensures
        r != ErrorKind::BrokenMessage,
        r != ErrorKind::TimedOut,
{
    match e.kind() {
        bytecodec::ErrorKind::InvalidInput => ErrorKind::InvalidInput,
        bytecodec::ErrorKind::InconsistentState => ErrorKind::InconsistentState,
        bytecodec::ErrorKind::UnexpectedEos => ErrorKind::UnexpectedEos,
        bytecodec::ErrorKind::EncoderFull => ErrorKind::EncoderFull,
        bytecodec::ErrorKind::DecoderTerminated => ErrorKind::DecoderTerminated,
        bytecodec::ErrorKind::IncompleteDecoding => ErrorKind::IncompleteDecoding,
        bytecodec::ErrorKind::Other => ErrorKind::Other,
    }
}

/// Relies on rand::thread_rng: twelve random bytes.
#[verifier::external_body]
fn random_transaction_id() -> (r: [u8; 12]) {
    rand::thread_rng().gen::<[u8; 12]>()
}

/// The binding request with transaction id `txid` and optional software
/// tag `software`. A tag of 128 characters or more is refused with
/// `InvalidInput`.
pub fn build_request(txid: [u8; 12], software: &Option<String>) -> (r: Result<Vec<u8>, NetError>)
    ensures
        r matches Ok(b) ==> b@ == stun_request_of(txid@, opt_view(*software)),
        (software matches Some(s) && s@.len() >= 128) ==> (r matches Err(e) && e.kind == ErrorKind::InvalidInput),
        (software matches Some(s) ==> s@.len() < 128) ==> r is Ok,
{
    match encode_binding_request(txid, software) {
        Ok(b) => Ok(b),
        Err(e) => {
            let kind = if let Some(s) = software {
                if s.unicode_len() >= 128 { ErrorKind::InvalidInput } else { codec_error_kind(&e) }
            } else {
                codec_error_kind(&e)
            };
            Err(NetError::new(kind, String::from_str("can't encode STUN binding request")))
        },
    }
}

/// A binding request with a fresh random transaction id.
pub fn new_request(software: &Option<String>) -> (r: Result<Vec<u8>, NetError>)
    ensures
        r matches Ok(b) ==> exists|t: Seq<u8>| t.len() == 12 && b@ == #[trigger] stun_request_of(t, opt_view(*software)),
        (software matches Some(s) && s@.len() >= 128) ==> r is Err,
        (software matches Some(s) ==> s@.len() < 128) ==> r is Ok,
{
    let txid = random_transaction_id();
    let r = build_request(txid, software);
    assert(txid@.len() == 12);
    r
}

/// The address that a decoded reply reports: `XOR-MAPPED-ADDRESS` when
/// present, else `MAPPED-ADDRESS`. A broken message fails with
/// `BrokenMessage`, a reply with neither attribute with `Other`.
pub open spec fn reply_address(rep: (bool, Option<Seq<char>>, Option<Seq<char>>)) -> Result<Seq<char>, ErrorKind> {
    if rep.0 {
        Err(ErrorKind::BrokenMessage)
    } else if rep.1 is Some {
        Ok(rep.1->Some_0)
    } else if rep.2 is Some {
        Ok(rep.2->Some_0)
    } else {
        Err(ErrorKind::Other)
    }
}

/// Picks the reported address out of a decoded reply.
pub fn pick_address(rep: StunReply) -> (r: Result<String, NetError>)
    ensures
        match reply_address(rep@) {
            Ok(a) => r matches Ok(s) && s@ == a,
            Err(k) => r matches Err(e) && e.kind == k,
        },
{
    if rep.broken {
        return Err(NetError::new(ErrorKind::BrokenMessage, String::from_str("broken STUN message")));
    }
    match rep.xor_mapped {
        Some(a) => Ok(a),
        None => match rep.mapped {
            Some(a) => Ok(a),
            None => Err(NetError::new(ErrorKind::Other, String::from_str("can't decode any valid address from STUN message"))),
        },
    }
}

/// Reads the external address out of the reply `buf`.
pub fn decode_address(buf: &[u8]) -> (r: Result<String, NetError>)
    ensures
        match stun_reply_of(buf@) {
            Some(rep) => match reply_address(rep) {
                Ok(a) => r matches Ok(s) && s@ == a,
                Err(k) => r matches Err(e) && e.kind == k,
            },
            None => r matches Err(e) && e.kind != ErrorKind::BrokenMessage && e.kind != ErrorKind::TimedOut,
        },
{
    match decode_reply(buf) {
        Ok(rep) => pick_address(rep),
        Err(e) => Err(NetError::new(codec_error_kind(&e), String::from_str("can't decode STUN message"))),
    }
}

/// What the caller does after one wait for a STUN reply.
#[derive(Debug, Clone, Copy, PartialEq, Eq, Structural)]
pub enum StunAction {
    /// The reply came from the server: decode it.
    Decode,
    /// Send the request again and wait.
    Resend,
    /// The budget ran out.
    Fail(ErrorKind),
}

/// The query's retry budget: rounds left out of `retries`.
#[derive(Debug, Clone, Copy, PartialEq, Eq, Structural)]
pub struct StunState {
    pub left: u16,
    pub retries: u16,
}

pub open spec fn stun_next(st: StunState, received: bool, from_server: bool) -> (StunState, StunAction) {
    if received && from_server {
        (st, StunAction::Decode)
    } else {
        let left = if received { st.retries } else { st.left };
        if left == 0 {
            (StunState { left, ..st }, StunAction::Fail(ErrorKind::TimedOut))
        } else {
            (StunState { left: (left - 1) as u16, ..st }, StunAction::Resend)
        }
    }
}

impl StunState {
    pub fn new(retries: u16) -> (r: StunState)
        ensures
            r == (StunState { left: retries, retries }),
    {
        StunState { left: retries, retries }
    }

    /// One wait for a reply: a reply from the server is decoded; one from
    /// elsewhere restores the budget; a silent wait uses one unit of it,
    /// and with none left the query fails with `TimedOut`.
    pub fn step(&mut self, received: bool, from_server: bool) -> (r: StunAction)
        ensures
            (*final(self), r) == stun_next(*old(self), received, from_server),
    {
        if received && from_server {
            return StunAction::Decode;
        }
        if received {
            self.left = self.retries;
        }
        if self.left == 0 {
            StunAction::Fail(ErrorKind::TimedOut)
        } else {
            self.left = self.left - 1;
            StunAction::Resend
        }
    }
}

/// A reply that carries neither address attribute fails the query with
/// the error kind `Other`.
pub proof fn lemma_reply_without_address(buf: Seq<u8>)
    requires
        stun_reply_of(buf) matches Some(rep) && !rep.0 && rep.1 is None && rep.2 is None,
    ensures
        reply_address(stun_reply_of(buf)->Some_0) == Err::<Seq<char>, ErrorKind>(ErrorKind::Other),
{
}

} // verus!
