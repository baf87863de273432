//! Message errors.
use crate::errors::{Id, IsError, Level};
use crate::message::base58::{self, base58_text};
use crate::message::envelope::{address_text, Address, SessionId};
use crate::text::{debug_quoted, debug_text, decimal, push_decimal, push_str};
use crate::ulid;
use vstd::prelude::*;

verus! {

/// Error information text.
pub struct ErrorInfo(pub String);

/// A decoding error
pub enum DecodingError {
    /// SealedEnvelope failed to be decoded
    InvalidSealedEnvelope(String),
    /// SealedSignedMessage failed to be decoded
    InvalidSealedSignedMessage(String),
}

/// An encoding error
pub enum EncodingError {
    /// SealedEnvelope failed to be encoded
    InvalidSealedEnvelope(String),
    /// SealedSignedMessage failed to be encoded
    InvalidSealedSignedMessage(String),
}

/// The debug text of a decoding error, e.g. `InvalidSealedEnvelope(ErrorMessage("..."))`.
pub open spec fn decoding_error_text(e: DecodingError) -> Seq<char> {
    match e {
        DecodingError::InvalidSealedEnvelope(m) => "InvalidSealedEnvelope"@ + "(ErrorMessage("@
            + debug_quoted(m@) + "))"@,
        DecodingError::InvalidSealedSignedMessage(m) => "InvalidSealedSignedMessage"@ + "(ErrorMessage("@
            + debug_quoted(m@) + "))"@,
    }
}

/// The debug text of an encoding error, e.g. `InvalidSealedEnvelope(ErrorMessage("..."))`.
pub open spec fn encoding_error_text(e: EncodingError) -> Seq<char> {
    match e {
        EncodingError::InvalidSealedEnvelope(m) => "InvalidSealedEnvelope"@ + "(ErrorMessage("@
            + debug_quoted(m@) + "))"@,
        EncodingError::InvalidSealedSignedMessage(m) => "InvalidSealedSignedMessage"@ + "(ErrorMessage("@
            + debug_quoted(m@) + "))"@,
    }
}

fn push_variant(s: &mut String, name: &str, msg: &str)
    ensures
        final(s)@ == old(s)@ + name@ + "(ErrorMessage("@ + debug_quoted(msg@) + "))"@,
{
    push_str(s, name);
    push_str(s, "(ErrorMessage(");
    let q = debug_text(msg);
    push_str(s, q.as_str());
    push_str(s, "))");
}

impl DecodingError {
    /// The error as text.
    pub fn to_string(&self) -> (s: String)
        ensures
            s@ == decoding_error_text(*self),
    {
        let mut s = String::new();
        match self {
            DecodingError::InvalidSealedEnvelope(m) => push_variant(
                &mut s,
                "InvalidSealedEnvelope",
                m.as_str(),
            ),
            DecodingError::InvalidSealedSignedMessage(m) => push_variant(
                &mut s,
                "InvalidSealedSignedMessage",
                m.as_str(),
            ),
        }
        s
    }
}

impl EncodingError {
    /// The error as text.
    pub fn to_string(&self) -> (s: String)
        ensures
            s@ == encoding_error_text(*self),
    {
        let mut s = String::new();
        match self {
            EncodingError::InvalidSealedEnvelope(m) => push_variant(
                &mut s,
                "InvalidSealedEnvelope",
                m.as_str(),
            ),
            EncodingError::InvalidSealedSignedMessage(m) => push_variant(
                &mut s,
                "InvalidSealedSignedMessage",
                m.as_str(),
            ),
        }
        s
    }
}

/// Message errors
pub enum MessageError {
    /// The key is not a valid public-key
    InvalidAddress(Vec<u8>),
    /// the sender's public-key is unknown
    UnknownSender(Address),
    /// the sender is forbidden, i.e., has been blocked
    ForbiddenSender(Address),
    /// the recipient's public-key is unknown.
    UnknownRecipient(Address),
    /// Payment is required
    SenderPaymentRequired(Address),
    /// Decoding error
    DecodingError(DecodingError),
    /// Encoding error
    EncodingError(EncodingError),
    /// Invalid signature (the signer's public key)
    InvalidSignature([u8; 32]),
    /// The session ID length was not 16 bytes, i.e., 128 bits
    InvalidSessionIdLength {
        /// sender's public key
        from: [u8; 32],
        /// invalid session id length that was found in the message
        len: usize,
    },
    /// Session ID is not valid
    InvalidSessionId {
        /// sender's public key
        from: [u8; 32],
        /// session ID
        session_id: SessionId,
    },
    /// Hash digest should be 64 bytes - SHA-512 is used
    InvalidDigestLength {
        /// sender's public key
        from: [u8; 32],
        /// invalid hash digest length that was found in the message
        len: usize,
    },
    /// Data failed a checksum, i.e., its hash did not match
    ChecksumFailed([u8; 32]),
    /// Decryption failed
    DecryptionFailed([u8; 32]),
    /// The message data could not be deserialized
    MessageDataDeserializationFailed(Address, ErrorInfo),
    /// The EncodedMessage serialization failed
    EncodedMessageSerializationFailed(Address, ErrorInfo),
}

/// The id of each kind of message error.
pub open spec fn message_error_id(e: MessageError) -> u128 {
    match e {
        MessageError::InvalidAddress(_) => 1867021926897034296478877125570412391,
        MessageError::UnknownSender(_) => 1867021982369811891428717464289628214,
        MessageError::ForbiddenSender(_) => 1867021999800795039526843952808187927,
        MessageError::UnknownRecipient(_) => 1867022017488503270046354574569684513,
        MessageError::SenderPaymentRequired(_) => 1867022032677743826660887081515750864,
        MessageError::DecodingError(_) => 1867031190663367090363230915571813628,
        MessageError::EncodingError(_) => 1867031212491238890411696131253995837,
        MessageError::InvalidSignature(_) => 1867172076936046708942329759845274008,
        MessageError::InvalidSessionIdLength { .. } => 1867172923315771044142605233334059560,
        MessageError::InvalidDigestLength { .. } => 1867177124319618698988963972315043675,
        MessageError::ChecksumFailed(_) => 1867178063957932565585764976839329233,
        MessageError::DecryptionFailed(_) => 1867178498353912205043500705741562600,
        MessageError::InvalidSessionId { .. } => 1867222419281185803983256937238975084,
        MessageError::MessageDataDeserializationFailed(_, _) => 1867379901106813525954568540389375130,
        MessageError::EncodedMessageSerializationFailed(_, _) => 1867382411073195824459596594818407224,
    }
}

/// The kind of a message error: its variant's position.
pub open spec fn message_error_kind(e: MessageError) -> int {
    match e {
        MessageError::InvalidAddress(_) => 0,
        MessageError::UnknownSender(_) => 1,
        MessageError::ForbiddenSender(_) => 2,
        MessageError::UnknownRecipient(_) => 3,
        MessageError::SenderPaymentRequired(_) => 4,
        MessageError::DecodingError(_) => 5,
        MessageError::EncodingError(_) => 6,
        MessageError::InvalidSignature(_) => 7,
        MessageError::InvalidSessionIdLength { .. } => 8,
        MessageError::InvalidDigestLength { .. } => 9,
        MessageError::ChecksumFailed(_) => 10,
        MessageError::DecryptionFailed(_) => 11,
        MessageError::InvalidSessionId { .. } => 12,
        MessageError::MessageDataDeserializationFailed(_, _) => 13,
        MessageError::EncodedMessageSerializationFailed(_, _) => 14,
    }
}

/// Each kind of message error has its own id: errors of different kinds never share one,
/// and errors of one kind always do.
pub proof fn law_message_error_ids_identify_kinds(a: MessageError, b: MessageError)
    ensures
        message_error_id(a) == message_error_id(b) <==> message_error_kind(a) == message_error_kind(b),
{
}

/// The level of each kind of message error: an alert for anything security related.
pub open spec fn message_error_level(e: MessageError) -> Level {
    match e {
        MessageError::InvalidAddress(_) => Level::Error,
        MessageError::UnknownSender(_) => Level::Error,
        MessageError::ForbiddenSender(_) => Level::Alert,
        MessageError::UnknownRecipient(_) => Level::Error,
        MessageError::SenderPaymentRequired(_) => Level::Alert,
        MessageError::DecodingError(_) => Level::Error,
        MessageError::EncodingError(_) => Level::Critical,
        MessageError::InvalidSignature(_) => Level::Alert,
        MessageError::InvalidSessionIdLength { .. } => Level::Alert,
        MessageError::InvalidDigestLength { .. } => Level::Alert,
        MessageError::ChecksumFailed(_) => Level::Alert,
        MessageError::DecryptionFailed(_) => Level::Alert,
        MessageError::InvalidSessionId { .. } => Level::Error,
        MessageError::MessageDataDeserializationFailed(_, _) => Level::Error,
        MessageError::EncodedMessageSerializationFailed(_, _) => Level::Error,
    }
}

/// The text of each kind of message error.
pub open spec fn message_error_text(e: MessageError) -> Seq<char> {
    match e {
        MessageError::InvalidAddress(key) => "Invalid address: "@ + base58_text(key@),
        MessageError::UnknownSender(a) => "Unknown sender: "@ + address_text(a),
        MessageError::ForbiddenSender(a) => "Forbidden sender: "@ + address_text(a),
        MessageError::UnknownRecipient(a) => "Unknown recipient: "@ + address_text(a),
        MessageError::SenderPaymentRequired(a) => "Sender payment is required: "@ + address_text(a),
        MessageError::DecodingError(err) => "Failed to decode: "@ + decoding_error_text(err),
        MessageError::EncodingError(err) => "Failed to encode: "@ + encoding_error_text(err),
        MessageError::InvalidSignature(key) => "Invalid signature from: "@ + base58_text(key@),
        MessageError::InvalidSessionIdLength { from, len } => "Session ID len should be 16 but was ("@
            + decimal(len as nat) + ") - from: "@ + base58_text(from@),
        MessageError::InvalidDigestLength { from, len } => "Digest len should be 64 but was ("@
            + decimal(len as nat) + ") - from: "@ + base58_text(from@),
        MessageError::ChecksumFailed(from) => "Checksum failed -  from: "@ + base58_text(from@),
        MessageError::DecryptionFailed(from) => "Decryption failed - from: "@ + base58_text(from@),
        MessageError::InvalidSessionId { from, session_id } => "Invalid session ID ["@
            + ulid::ulid_text(session_id.0) + "] from: "@ + base58_text(from@),
        MessageError::MessageDataDeserializationFailed(a, info) =>
            "Failed to deserialize message data: "@ + address_text(a) + " : "@ + info.0@,
        MessageError::EncodedMessageSerializationFailed(a, info) =>
            "Failed to serialize encoded message: "@ + address_text(a) + " : "@ + info.0@,
    }
}

fn push_address(s: &mut String, a: &Address)
    ensures
        final(s)@ == old(s)@ + address_text(*a),
{
    let t = a.to_string();
    push_str(s, t.as_str());
}

fn push_key(s: &mut String, key: &[u8; 32])
    ensures
        final(s)@ == old(s)@ + base58_text(key@),
{
    let t = base58::encode(key.as_slice());
    push_str(s, t.as_str());
}

impl IsError for MessageError {
    open spec fn spec_error_id(&self) -> Id {
        Id(message_error_id(*self))
    }

    open spec fn spec_error_level(&self) -> Level {
        message_error_level(*self)
    }

    open spec fn spec_error_message(&self) -> Seq<char> {
        message_error_text(*self)
    }

    fn error_id(&self) -> (r: Id) {
        let id: u128 = match self {
            MessageError::InvalidAddress(_) => 1867021926897034296478877125570412391,
            MessageError::UnknownSender(_) => 1867021982369811891428717464289628214,
            MessageError::ForbiddenSender(_) => 1867021999800795039526843952808187927,
            MessageError::UnknownRecipient(_) => 1867022017488503270046354574569684513,
            MessageError::SenderPaymentRequired(_) => 1867022032677743826660887081515750864,
            MessageError::DecodingError(_) => 1867031190663367090363230915571813628,
            MessageError::EncodingError(_) => 1867031212491238890411696131253995837,
            MessageError::InvalidSignature(_) => 1867172076936046708942329759845274008,
            MessageError::InvalidSessionIdLength { .. } => 1867172923315771044142605233334059560,
            MessageError::InvalidDigestLength { .. } => 1867177124319618698988963972315043675,
            MessageError::ChecksumFailed(_) => 1867178063957932565585764976839329233,
            MessageError::DecryptionFailed(_) => 1867178498353912205043500705741562600,
            MessageError::InvalidSessionId { .. } => 1867222419281185803983256937238975084,
            MessageError::MessageDataDeserializationFailed(_, _) =>
                1867379901106813525954568540389375130,
            MessageError::EncodedMessageSerializationFailed(_, _) =>
                1867382411073195824459596594818407224,
        };
        Id(id)
    }

    fn error_level(&self) -> (r: Level) {
        match self {
            MessageError::InvalidAddress(_) => Level::Error,
            MessageError::UnknownSender(_) => Level::Error,
            MessageError::ForbiddenSender(_) => Level::Alert,
            MessageError::UnknownRecipient(_) => Level::Error,
            MessageError::SenderPaymentRequired(_) => Level::Alert,
            MessageError::DecodingError(_) => Level::Error,
            MessageError::EncodingError(_) => Level::Critical,
            MessageError::InvalidSignature(_) => Level::Alert,
            MessageError::InvalidSessionIdLength { .. } => Level::Alert,
            MessageError::InvalidDigestLength { .. } => Level::Alert,
            MessageError::ChecksumFailed(_) => Level::Alert,
            MessageError::DecryptionFailed(_) => Level::Alert,
            MessageError::InvalidSessionId { .. } => Level::Error,
            MessageError::MessageDataDeserializationFailed(_, _) => Level::Error,
            MessageError::EncodedMessageSerializationFailed(_, _) => Level::Error,
        }
    }

    fn error_message(&self) -> (r: String) {
        let mut s = String::new();
        match self {
            MessageError::InvalidAddress(key) => {
                push_str(&mut s, "Invalid address: ");
                let t = base58::encode(key.as_slice());
                push_str(&mut s, t.as_str());
            },
            MessageError::UnknownSender(a) => {
                push_str(&mut s, "Unknown sender: ");
                push_address(&mut s, a);
            },
            MessageError::ForbiddenSender(a) => {
                push_str(&mut s, "Forbidden sender: ");
                push_address(&mut s, a);
            },
            MessageError::UnknownRecipient(a) => {
                push_str(&mut s, "Unknown recipient: ");
                push_address(&mut s, a);
            },
            MessageError::SenderPaymentRequired(a) => {
                push_str(&mut s, "Sender payment is required: ");
                push_address(&mut s, a);
            },
            MessageError::DecodingError(err) => {
                push_str(&mut s, "Failed to decode: ");
                let t = err.to_string();
                push_str(&mut s, t.as_str());
            },
            MessageError::EncodingError(err) => {
                push_str(&mut s, "Failed to encode: ");
                let t = err.to_string();
                push_str(&mut s, t.as_str());
            },
            MessageError::InvalidSignature(key) => {
                push_str(&mut s, "Invalid signature from: ");
                push_key(&mut s, key);
            },
            MessageError::InvalidSessionIdLength { from, len } => {
                push_str(&mut s, "Session ID len should be 16 but was (");
                push_decimal(&mut s, *len as u128);
                push_str(&mut s, ") - from: ");
                push_key(&mut s, from);
            },
            MessageError::InvalidDigestLength { from, len } => {
                push_str(&mut s, "Digest len should be 64 but was (");
                push_decimal(&mut s, *len as u128);
                push_str(&mut s, ") - from: ");
                push_key(&mut s, from);
            },
            MessageError::ChecksumFailed(from) => {
                push_str(&mut s, "Checksum failed -  from: ");
                push_key(&mut s, from);
            },
            MessageError::DecryptionFailed(from) => {
                push_str(&mut s, "Decryption failed - from: ");
                push_key(&mut s, from);
            },
            MessageError::InvalidSessionId { from, session_id } => {
                push_str(&mut s, "Invalid session ID [");
                let t = session_id.to_string();
                push_str(&mut s, t.as_str());
                push_str(&mut s, "] from: ");
                push_key(&mut s, from);
            },
            MessageError::MessageDataDeserializationFailed(a, info) => {
                push_str(&mut s, "Failed to deserialize message data: ");
                push_address(&mut s, a);
                push_str(&mut s, " : ");
                push_str(&mut s, info.0.as_str());
            },
            MessageError::EncodedMessageSerializationFailed(a, info) => {
                push_str(&mut s, "Failed to serialize encoded message: ");
                push_address(&mut s, a);
                push_str(&mut s, " : ");
                push_str(&mut s, info.0.as_str());
            },
        }
        s
    }
}

/// Failure to allocate a new nng message.
pub struct NngMessageError(pub String);

impl NngMessageError {
    /// Error Id(01CZZS8BEZPNA2WWRQ1R4PKN0Z)
    pub const ERROR_ID: u128 = 1869218326628258606664054868854559775;
}

impl IsError for NngMessageError {
    open spec fn spec_error_id(&self) -> Id {
        Id(Self::ERROR_ID)
    }

    open spec fn spec_error_level(&self) -> Level {
        Level::Alert
    }

    open spec fn spec_error_message(&self) -> Seq<char> {
        "Failed to allocate a new nng:Message: "@ + self.0@
    }

    fn error_id(&self) -> (r: Id) {
        Id(Self::ERROR_ID)
    }

    fn error_level(&self) -> (r: Level) {
        Level::Alert
    }

    fn error_message(&self) -> (r: String) {
        let mut s = String::new();
        push_str(&mut s, "Failed to allocate a new nng:Message: ");
        push_str(&mut s, self.0.as_str());
        s
    }
}

} // verus!
