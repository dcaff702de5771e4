//! Address-discovery client: builds the one-shot binding request sent to a
//! discovery server and extracts the externally visible address from the
//! response. The byte-level codec is the `stun_codec` crate's, behind
//! trusted wrappers; the attribute-preference and error logic is verified.
//! The UDP exchange itself stays outside the library.

use vstd::prelude::*;

use bytecodec::DecodeExt;
use bytecodec::EncodeExt;
use stun_codec::rfc5389::attributes::{MappedAddress, XorMappedAddress};
use stun_codec::rfc5389::Attribute;
use stun_codec::{Message, MessageClass, MessageDecoder, MessageEncoder, Method, TransactionId};

verus! {

/// What decoding a binding response yields: a failure, or the decoded
/// message's two mapped-address attributes (each rendered as the usual
/// `ip:port` text), either of which may be absent.
pub enum DecodeOutcome {
    Failed,
    Parsed { xor_mapped: Option<String>, mapped: Option<String> },
}

/// Why no externally visible address came out of a response.
#[derive(Clone, Copy, PartialEq, Eq, Structural, Debug)]
pub enum DiscoveryError {
    /// The response bytes did not decode as a message.
    DecodeFailed,
    /// The response decoded but carried no mapped-address attribute.
    NoMappedAddress,
}

/// The bytes of a binding request with the given 96-bit transaction
/// identifier, exactly as the codec emits them.
pub uninterp spec fn binding_request_bytes(tid: Seq<u8>) -> Seq<u8>;

/// The fixed 8-byte header of a binding request with no attributes: message
/// type 0x0001 (request class, binding method), length 0, and the protocol's
/// magic cookie 0x2112A442, all big-endian.
pub open spec fn binding_request_header() -> Seq<u8> {
    seq![0x00u8, 0x01u8, 0x00u8, 0x00u8, 0x21u8, 0x12u8, 0xa4u8, 0x42u8]
}

/// What decoding a given byte string as a binding response yields — a
/// function of the bytes alone.
pub uninterp spec fn decode_outcome_of(bytes: Seq<u8>) -> DecodeOutcome;

/// Relies on `stun_codec`'s `Message::new` and `MessageEncoder` (with
/// `bytecodec`'s `encode_into_bytes`) to emit the binding request for this
/// transaction identifier. The emitted bytes depend on the identifier alone;
/// for this fixed zero-attribute message the encoder cannot fail, and its
/// output is the 8-byte header followed by the identifier.
#[verifier::external_body]
fn encode_binding_request(tid: &Vec<u8>) -> (r: Option<Vec<u8>>)
    requires
        tid@.len() == 12,
    ensures
        r is Some,
        r matches Some(v) ==> v@ == binding_request_bytes(tid@),
        r matches Some(v) ==> v@.len() == 20 && v@.subrange(0, 8) == binding_request_header()
            && v@.subrange(8, 20) == tid@,
{
    let mut id = [0u8; 12];
    id.copy_from_slice(tid.as_slice());
    let msg = Message::<Attribute>::new(
        MessageClass::Request,
        stun_codec::rfc5389::methods::BINDING,
        TransactionId::new(id),
    );
    let mut encoder = MessageEncoder::new();
    encoder.encode_into_bytes(msg).ok()
}

/// Relies on `stun_codec`'s `MessageDecoder` (with `bytecodec`'s
/// `decode_from_bytes`) and `Message::get_attribute` for the
/// `XorMappedAddress` and `MappedAddress` attributes; what a given byte
/// string decodes to is a function of the bytes alone. The length bound
/// keeps the decoder's post-decode hooks inside 16-bit length arithmetic,
/// where the codec cannot panic.
#[verifier::external_body]
fn decode_binding_response(bytes: &Vec<u8>) -> (r: DecodeOutcome)
    requires
        bytes@.len() <= 65535,
    ensures
        r == decode_outcome_of(bytes@),
{
    let mut decoder = MessageDecoder::<Attribute>::new();
    match decoder.decode_from_bytes(bytes.as_slice()) {
        Ok(Ok(msg)) => DecodeOutcome::Parsed {
            xor_mapped: msg.get_attribute::<XorMappedAddress>().map(|a| a.address().to_string()),
            mapped: msg.get_attribute::<MappedAddress>().map(|a| a.address().to_string()),
        },
        _ => DecodeOutcome::Failed,
    }
}

/// The fixed, zeroed transaction identifier the client sends with.
pub open spec fn zero_transaction_id() -> Seq<u8> {
    Seq::new(12, |i: int| 0u8)
}

/// Build the one binding request the client ever sends: always one
/// request-class binding message with a zeroed transaction identifier — the
/// 8-byte request header followed by twelve zero bytes.
pub fn make_binding_request() -> (r: Option<Vec<u8>>)
    ensures
        r matches Some(v) && v@ == binding_request_bytes(zero_transaction_id()) && v@.len() == 20
            && v@.subrange(0, 8) == binding_request_header() && v@.subrange(8, 20)
            == zero_transaction_id(),
{
    let mut tid: Vec<u8> = Vec::new();
    let mut i: usize = 0;
    while i < 12
        invariant
            0 <= i <= 12,
            tid@ =~= zero_transaction_id().take(i as int),
        decreases 12 - i,
    {
        tid.push(0u8);
        i += 1;
    }
    proof {
        assert(tid@ =~= zero_transaction_id());
    }
    encode_binding_request(&tid)
}

/// The address a decoded response yields: the XOR-obfuscated mapped address
/// when present, else the plain one, else the matching error.
pub open spec fn spec_select(outcome: DecodeOutcome) -> Result<String, DiscoveryError> {
    match outcome {
        DecodeOutcome::Failed => Err(DiscoveryError::DecodeFailed),
        DecodeOutcome::Parsed { xor_mapped, mapped } => match xor_mapped {
            Some(a) => Ok(a),
            None => match mapped {
                Some(a) => Ok(a),
                None => Err(DiscoveryError::NoMappedAddress),
            },
        },
    }
}

/// Pick the externally visible address out of a decode outcome, preferring
/// the XOR-obfuscated attribute and falling back to the plain one.
pub fn select_mapped_address(outcome: DecodeOutcome) -> (r: Result<String, DiscoveryError>)
    ensures
        r == spec_select(outcome),
{
    match outcome {
        DecodeOutcome::Failed => Err(DiscoveryError::DecodeFailed),
        DecodeOutcome::Parsed { xor_mapped, mapped } => match xor_mapped {
            Some(a) => Ok(a),
            None => match mapped {
                Some(a) => Ok(a),
                None => Err(DiscoveryError::NoMappedAddress),
            },
        },
    }
}

/// Decode one binding response and extract the externally visible address:
/// `Ok` exactly when the bytes decode to a message with a mapped-address
/// attribute, with the XOR-obfuscated variant preferred. Responses are read
/// from one datagram, so the 16-bit length bound costs callers nothing.
pub fn parse_binding_response(bytes: &Vec<u8>) -> (r: Result<String, DiscoveryError>)
    requires
        bytes@.len() <= 65535,
    ensures
        r == spec_select(decode_outcome_of(bytes@)),
{
    select_mapped_address(decode_binding_response(bytes))
}

/// A short description of the failure, for logging.
pub fn describe_discovery_error(e: DiscoveryError) -> (s: &'static str)
    ensures
        e is DecodeFailed ==> s@ == "failed to decode the discovery response"@,
        e is NoMappedAddress ==> s@ == "no mapped address found in the discovery response"@,
{
    match e {
        DiscoveryError::DecodeFailed => "failed to decode the discovery response",
        DiscoveryError::NoMappedAddress => "no mapped address found in the discovery response",
    }
}

} // verus!
