//! Message envelopes, addresses, metadata and messages.
use crate::errors::{Error, Id, IsError, Level};
use crate::events::ModuleSource;
use crate::message::base58::{self, base58_text};
use crate::message::deadline::Deadline;
use crate::message::errors::{message_error_text, DecodingError, EncodingError, MessageError};
use crate::message::encoding::{
    decode_outcome, encode_outcome, external_view, is_deserialization_error, is_serialization_error,
    serialized_view, Encoding,
};
use crate::text::{decimal, push_decimal, push_str};
use crate::ulid;
use vstd::prelude::*;
use vstd::std_specs::cmp::PartialEqSpecImpl;

verus! {

/// Max message size - 256 KB
pub const MAX_MSG_SIZE: usize = 256000;

/// Min message size for a sealed envelope
pub const SEALED_ENVELOPE_MIN_SIZE: usize = 90;

/// Addresses are identified by public-keys (32 bytes).
#[derive(Clone, Copy, Debug, PartialEq, Eq, Hash)]
pub struct Address(pub [u8; 32]);

/// The text of an address: its public key in base58.
pub open spec fn address_text(a: Address) -> Seq<char> {
    base58_text(a.0@)
}

impl Address {
    /// Whether two addresses hold the same public key.
    pub fn same_as(&self, other: &Address) -> (r: bool)
        ensures
            r == (self.0@ == other.0@),
    {
        let mut i: usize = 0;
        while i < 32
            invariant
                i <= 32,
                forall|j: int| 0 <= j < i ==> self.0@[j] == other.0@[j],
            decreases 32 - i,
        {
            if self.0[i] != other.0[i] {
                return false;
            }
            i = i + 1;
        }
        assert(self.0@ =~= other.0@);
        true
    }

    /// returns the underlying public-key bytes
    pub fn public_key(&self) -> (r: &[u8; 32])
        ensures
            r@ == self.0@,
    {
        &self.0
    }

    /// The address as text: its public key in base58.
    pub fn to_string(&self) -> (s: String)
        ensures
            s@ == address_text(*self),
    {
        base58::encode(self.0.as_slice())
    }
}

impl crate::registry::Key for Address {
    type Plain = Seq<u8>;

    open spec fn plain(&self) -> Seq<u8> {
        self.0@
    }

    fn same_key(&self, other: &Address) -> (r: bool) {
        self.same_as(other)
    }
}

impl From<[u8; 32]> for Address {
    fn from(key: [u8; 32]) -> (r: Address) {
        Address(key)
    }
}

impl vstd::std_specs::convert::FromSpecImpl<[u8; 32]> for Address {
    open spec fn obeys_from_spec() -> bool {
        true
    }

    open spec fn from_spec(key: [u8; 32]) -> Address {
        Address(key)
    }
}

/// Whether two byte slices hold the same bytes.
fn same_bytes(a: &[u8], b: &[u8]) -> (r: bool)
    ensures
        r <==> a@ == b@,
{
    if a.len() != b.len() {
        return false;
    }
    let mut i: usize = 0;
    while i < a.len()
        invariant
            a.len() == b.len(),
            i <= a.len(),
            forall|j: int| 0 <= j < i ==> a@[j] == b@[j],
        decreases a.len() - i,
    {
        if a[i] != b[i] {
            return false;
        }
        i = i + 1;
    }
    assert(a@ =~= b@);
    true
}

/// message data bytes that is encrypted
#[derive(Debug, Clone)]
pub struct EncryptedMessageBytes(pub Vec<u8>);

impl EncryptedMessageBytes {
    /// returns the message bytes
    pub fn data(&self) -> (r: &[u8])
        ensures
            r@ == self.0@,
    {
        self.0.as_slice()
    }
}

impl From<Vec<u8>> for EncryptedMessageBytes {
    fn from(bytes: Vec<u8>) -> (r: EncryptedMessageBytes) {
        EncryptedMessageBytes(bytes)
    }
}

impl vstd::std_specs::convert::FromSpecImpl<Vec<u8>> for EncryptedMessageBytes {
    open spec fn obeys_from_spec() -> bool {
        true
    }

    open spec fn from_spec(bytes: Vec<u8>) -> EncryptedMessageBytes {
        EncryptedMessageBytes(bytes)
    }
}

impl<'a> From<&'a [u8]> for EncryptedMessageBytes {
    /// A copy of the bytes. (No single spec value names the copy, which is a fresh `Vec`, so the
    /// contract says what it holds.)
    fn from(bytes: &'a [u8]) -> (r: EncryptedMessageBytes)
        ensures
            r.0@ == bytes@,
    {
        EncryptedMessageBytes(vstd::slice::slice_to_vec(bytes))
    }
}

impl<'a> vstd::std_specs::convert::FromSpecImpl<&'a [u8]> for EncryptedMessageBytes {
    open spec fn obeys_from_spec() -> bool {
        false
    }

    open spec fn from_spec(bytes: &'a [u8]) -> EncryptedMessageBytes {
        arbitrary()
    }
}

impl PartialEq for EncryptedMessageBytes {
    fn eq(&self, other: &EncryptedMessageBytes) -> (r: bool) {
        same_bytes(self.0.as_slice(), other.0.as_slice())
    }
}

impl PartialEqSpecImpl for EncryptedMessageBytes {
    open spec fn obeys_eq_spec() -> bool {
        true
    }

    open spec fn eq_spec(&self, other: &EncryptedMessageBytes) -> bool {
        self.0@ == other.0@
    }
}

impl Eq for EncryptedMessageBytes {
}

/// message data bytes
#[derive(Debug, Clone)]
pub struct MessageBytes(pub Vec<u8>);

impl MessageBytes {
    /// returns the message bytes
    pub fn data(&self) -> (r: &[u8])
        ensures
            r@ == self.0@,
    {
        self.0.as_slice()
    }
}

impl From<Vec<u8>> for MessageBytes {
    fn from(bytes: Vec<u8>) -> (r: MessageBytes) {
        MessageBytes(bytes)
    }
}

impl vstd::std_specs::convert::FromSpecImpl<Vec<u8>> for MessageBytes {
    open spec fn obeys_from_spec() -> bool {
        true
    }

    open spec fn from_spec(bytes: Vec<u8>) -> MessageBytes {
        MessageBytes(bytes)
    }
}

impl<'a> From<&'a [u8]> for MessageBytes {
    /// A copy of the bytes. (No single spec value names the copy, which is a fresh `Vec`, so the
    /// contract says what it holds.)
    fn from(bytes: &'a [u8]) -> (r: MessageBytes)
        ensures
            r.0@ == bytes@,
    {
        MessageBytes(vstd::slice::slice_to_vec(bytes))
    }
}

impl<'a> vstd::std_specs::convert::FromSpecImpl<&'a [u8]> for MessageBytes {
    open spec fn obeys_from_spec() -> bool {
        false
    }

    open spec fn from_spec(bytes: &'a [u8]) -> MessageBytes {
        arbitrary()
    }
}

impl PartialEq for MessageBytes {
    fn eq(&self, other: &MessageBytes) -> (r: bool) {
        same_bytes(self.0.as_slice(), other.0.as_slice())
    }
}

impl PartialEqSpecImpl for MessageBytes {
    open spec fn obeys_eq_spec() -> bool {
        true
    }

    open spec fn eq_spec(&self, other: &MessageBytes) -> bool {
        self.0@ == other.0@
    }
}

impl Eq for MessageBytes {
}

/// A sealed envelope holds a message encrypted for the recipient by the sender.
#[derive(Debug)]
pub struct SealedEnvelope {
    sender: Address,
    recipient: Address,
    nonce: [u8; 24],
    msg: EncryptedMessageBytes,
}

/// The text of a sealed envelope.
pub open spec fn sealed_envelope_text(
    sender: Address,
    recipient: Address,
    nonce: Seq<u8>,
    len: nat,
) -> Seq<char> {
    address_text(sender) + " -> "@ + address_text(recipient) + ", nonce: "@ + base58_text(nonce)
        + ", msg.len: "@ + decimal(len)
}

impl SealedEnvelope {
    /// The sender.
    pub closed spec fn spec_sender(&self) -> Address {
        self.sender
    }

    /// The recipient.
    pub closed spec fn spec_recipient(&self) -> Address {
        self.recipient
    }

    /// The nonce.
    pub closed spec fn spec_nonce(&self) -> Seq<u8> {
        self.nonce@
    }

    /// The encrypted message.
    pub closed spec fn spec_msg(&self) -> Seq<u8> {
        self.msg.0@
    }

    /// constructor
    pub fn new(sender: Address, recipient: Address, nonce: [u8; 24], msg: &[u8]) -> (r:
        SealedEnvelope)
        ensures
            r.spec_sender() == sender,
            r.spec_recipient() == recipient,
            r.spec_nonce() == nonce@,
            r.spec_msg() == msg@,
    {
        SealedEnvelope {
            sender,
            recipient,
            nonce,
            msg: EncryptedMessageBytes(vstd::slice::slice_to_vec(msg)),
        }
    }

    /// Decodes a sealed envelope, given what the bincode decoder made of the input stream;
    /// a decoder failure becomes a `DecodingError::InvalidSealedEnvelope` message error.
    pub fn decode(parsed: Result<SealedEnvelope, String>) -> (r: Result<SealedEnvelope, Error>)
        ensures
            r is Ok <==> parsed is Ok,
            r matches Ok(e) ==> e == parsed->Ok_0,
            r matches Err(e) ==> e.spec_id() == Id(MESSAGE_DECODING_ERROR_ID) && e.spec_level()
                == Level::Error && e.spec_message()
                == message_error_text(
                MessageError::DecodingError(DecodingError::InvalidSealedEnvelope(parsed->Err_0)),
            ),
    {
        match parsed {
            Ok(e) => Ok(e),
            Err(msg) => {
                let err = MessageError::DecodingError(DecodingError::InvalidSealedEnvelope(msg));
                Err(err.to_error(ModuleSource::new("oysterpack::message::envelope", 339)))
            },
        }
    }

    /// Encodes the sealed envelope, given what the bincode encoder made of it; an encoder
    /// failure becomes an `EncodingError::InvalidSealedEnvelope` message error.
    pub fn encode(&self, encoded: Result<Vec<u8>, String>) -> (r: Result<Vec<u8>, Error>)
        ensures
            r is Ok <==> encoded is Ok,
            r matches Ok(v) ==> v@ == encoded->Ok_0@,
            r matches Err(e) ==> e.spec_id() == Id(MESSAGE_ENCODING_ERROR_ID) && e.spec_level()
                == Level::Critical && e.spec_message()
                == message_error_text(
                MessageError::EncodingError(EncodingError::InvalidSealedEnvelope(encoded->Err_0)),
            ),
    {
        match encoded {
            Ok(v) => Ok(v),
            Err(msg) => {
                let err = MessageError::EncodingError(EncodingError::InvalidSealedEnvelope(msg));
                Err(err.to_error(ModuleSource::new("oysterpack::message::envelope", 360)))
            },
        }
    }

    /// Opens the envelope, given what decrypting its message with the precomputed key gave:
    /// the plain message, or nothing when decryption failed, which gives an error with the
    /// `SealedEnvelopeOpenFailed` id.
    pub fn open(self, decrypted: Option<Vec<u8>>) -> (r: Result<OpenEnvelope, Error>)
        ensures
            r is Ok <==> decrypted is Some,
            r matches Ok(e) ==> e.spec_sender() == self.spec_sender() && e.spec_recipient()
                == self.spec_recipient() && e.spec_msg() == decrypted->0@,
            r matches Err(e) ==> e.spec_id() == Id(SealedEnvelopeOpenFailed::ERR_ID)
                && e.spec_level() == Level::Error && e.spec_message() == "Failed to open SealedEnvelope: "@
                + sealed_envelope_text(
                self.spec_sender(),
                self.spec_recipient(),
                self.spec_nonce(),
                self.spec_msg().len(),
            ),
    {
        match decrypted {
            Some(msg) => Ok(
                OpenEnvelope { sender: self.sender, recipient: self.recipient, msg: MessageBytes(msg) },
            ),
            None => {
                let failed = SealedEnvelopeOpenFailed(&self);
                Err(failed.to_error(ModuleSource::new("oysterpack::message::envelope", 388)))
            },
        }
    }

    /// msg bytes
    pub fn msg(&self) -> (r: &[u8])
        ensures
            r@ == self.spec_msg(),
    {
        self.msg.0.as_slice()
    }

    /// returns the sender address
    pub fn sender(&self) -> (r: &Address)
        ensures
            *r == self.spec_sender(),
    {
        &self.sender
    }

    /// returns the recipient address
    pub fn recipient(&self) -> (r: &Address)
        ensures
            *r == self.spec_recipient(),
    {
        &self.recipient
    }

    /// returns the nonce
    pub fn nonce(&self) -> (r: &[u8; 24])
        ensures
            r@ == self.spec_nonce(),
    {
        &self.nonce
    }

    /// The envelope as text: addresses, nonce (base58) and message length.
    pub fn to_string(&self) -> (s: String)
        ensures
            s@ == sealed_envelope_text(
                self.spec_sender(),
                self.spec_recipient(),
                self.spec_nonce(),
                self.spec_msg().len(),
            ),
    {
        let mut s = self.sender.to_string();
        push_str(&mut s, " -> ");
        let r = self.recipient.to_string();
        push_str(&mut s, r.as_str());
        push_str(&mut s, ", nonce: ");
        let n = base58::encode(self.nonce.as_slice());
        push_str(&mut s, n.as_str());
        push_str(&mut s, ", msg.len: ");
        push_decimal(&mut s, self.msg.0.len() as u128);
        s
    }
}

/// Failure to open a sealed envelope.
pub struct SealedEnvelopeOpenFailed<'a>(pub &'a SealedEnvelope);

impl<'a> SealedEnvelopeOpenFailed<'a> {
    /// Error ID(01CY9EP7BMKBRBA56Y13DEHXSQ)
    pub const ERR_ID: u128 = 1867014431750359479243220706658940727;
}

impl<'a> IsError for SealedEnvelopeOpenFailed<'a> {
    open spec fn spec_error_id(&self) -> Id {
        Id(Self::ERR_ID)
    }

    open spec fn spec_error_level(&self) -> Level {
        Level::Error
    }

    open spec fn spec_error_message(&self) -> Seq<char> {
        "Failed to open SealedEnvelope: "@ + sealed_envelope_text(
            self.0.spec_sender(),
            self.0.spec_recipient(),
            self.0.spec_nonce(),
            self.0.spec_msg().len(),
        )
    }

    fn error_id(&self) -> (r: Id) {
        Id(Self::ERR_ID)
    }

    fn error_level(&self) -> (r: Level) {
        Level::Error
    }

    fn error_message(&self) -> (r: String) {
        let mut s = String::new();
        push_str(&mut s, "Failed to open SealedEnvelope: ");
        let t = self.0.to_string();
        push_str(&mut s, t.as_str());
        s
    }
}

/// Represents an envelope that is open, i.e., its message is not encrypted
#[derive(Debug)]
pub struct OpenEnvelope {
    sender: Address,
    recipient: Address,
    msg: MessageBytes,
}

/// The text of an open envelope.
pub open spec fn open_envelope_text(sender: Address, recipient: Address, len: nat) -> Seq<char> {
    address_text(sender) + " -> "@ + address_text(recipient) + ", msg.len: "@ + decimal(len)
}

impl OpenEnvelope {
    /// The sender.
    pub closed spec fn spec_sender(&self) -> Address {
        self.sender
    }

    /// The recipient.
    pub closed spec fn spec_recipient(&self) -> Address {
        self.recipient
    }

    /// The plain message.
    pub closed spec fn spec_msg(&self) -> Seq<u8> {
        self.msg.0@
    }

    /// constructor
    pub fn new(sender: Address, recipient: Address, msg: &[u8]) -> (r: OpenEnvelope)
        ensures
            r.spec_sender() == sender,
            r.spec_recipient() == recipient,
            r.spec_msg() == msg@,
    {
        OpenEnvelope { sender, recipient, msg: MessageBytes(vstd::slice::slice_to_vec(msg)) }
    }

    /// Seals the envelope, given the nonce and what encrypting the message with the nonce and
    /// the precomputed key gave.
    pub fn seal(self, nonce: [u8; 24], encrypted: Vec<u8>) -> (r: SealedEnvelope)
        ensures
            r.spec_sender() == self.spec_sender(),
            r.spec_recipient() == self.spec_recipient(),
            r.spec_nonce() == nonce@,
            r.spec_msg() == encrypted@,
    {
        SealedEnvelope {
            sender: self.sender,
            recipient: self.recipient,
            nonce,
            msg: EncryptedMessageBytes(encrypted),
        }
    }

    /// msg bytes
    pub fn msg(&self) -> (r: &[u8])
        ensures
            r@ == self.spec_msg(),
    {
        self.msg.0.as_slice()
    }

    /// returns the sender address
    pub fn sender(&self) -> (r: &Address)
        ensures
            *r == self.spec_sender(),
    {
        &self.sender
    }

    /// returns the recipient address
    pub fn recipient(&self) -> (r: &Address)
        ensures
            *r == self.spec_recipient(),
    {
        &self.recipient
    }

    /// The envelope as text: addresses and message length.
    pub fn to_string(&self) -> (s: String)
        ensures
            s@ == open_envelope_text(self.spec_sender(), self.spec_recipient(), self.spec_msg().len()),
    {
        let mut s = self.sender.to_string();
        push_str(&mut s, " -> ");
        let r = self.recipient.to_string();
        push_str(&mut s, r.as_str());
        push_str(&mut s, ", msg.len: ");
        push_decimal(&mut s, self.msg.0.len() as u128);
        s
    }
}

/// Envelope addresses contain the sender's and recipient's addresses
#[derive(Clone, Copy, Debug, PartialEq, Eq, Hash)]
pub struct Addresses {
    sender: Address,
    recipient: Address,
}

impl Addresses {
    /// The sender.
    pub closed spec fn spec_sender(&self) -> Address {
        self.sender
    }

    /// The recipient.
    pub closed spec fn spec_recipient(&self) -> Address {
        self.recipient
    }

    /// constructor
    pub fn new(sender: Address, recipient: Address) -> (r: Addresses)
        ensures
            r.spec_sender() == sender,
            r.spec_recipient() == recipient,
    {
        Addresses { sender, recipient }
    }

    /// sender address
    pub fn sender(&self) -> (r: &Address)
        ensures
            *r == self.spec_sender(),
    {
        &self.sender
    }

    /// The addresses as text: `[<sender>] -> [<recipient>]`.
    pub fn to_string(&self) -> (r: String)
        ensures
            r@ == "["@ + address_text(self.spec_sender()) + "] -> ["@ + address_text(
                self.spec_recipient(),
            ) + "]"@,
    {
        let mut r = String::new();
        push_str(&mut r, "[");
        let t = self.sender.to_string();
        push_str(&mut r, t.as_str());
        push_str(&mut r, "] -> [");
        let t = self.recipient.to_string();
        push_str(&mut r, t.as_str());
        push_str(&mut r, "]");
        r
    }

    /// recipient address
    pub fn recipient(&self) -> (r: &Address)
        ensures
            *r == self.spec_recipient(),
    {
        &self.recipient
    }
}

/// Message type identifier (a ULID).
#[derive(Clone, Copy, Debug, PartialEq, Eq, Structural, Hash, PartialOrd, Ord)]
pub struct MessageType(pub u128);

impl MessageType {
    /// ULID getter
    pub fn ulid(&self) -> (r: u128)
        ensures
            r == self.0,
    {
        self.0
    }

    /// The message type as text: its ULID.
    pub fn to_string(&self) -> (s: String)
        ensures
            s@ == ulid::ulid_text(self.0),
    {
        ulid::text(self.0)
    }
}

/// Unique message type identifier, used to define message type constants.
#[derive(Clone, Copy, Debug, PartialEq, Eq, Structural, Hash, PartialOrd, Ord)]
pub struct MessageTypeId(pub u128);

impl MessageTypeId {
    /// converts itself into a MessageType
    pub fn message_type(&self) -> (r: MessageType)
        ensures
            r.0 == self.0,
    {
        MessageType(self.0)
    }
}

/// Used to attach the MessageTypeId to the message type
pub trait IsMessage {
    /// MessageTypeId is defined on the message type
    const MESSAGE_TYPE_ID: MessageTypeId;
}

/// Message instance unique identifier (a ULID).
#[derive(Clone, Copy, Debug, PartialEq, Eq, Structural, Hash, PartialOrd, Ord)]
pub struct InstanceId(pub u128);

impl InstanceId {
    /// generates a new message instance id
    pub fn generate() -> (r: InstanceId) {
        InstanceId(crate::uid::uid())
    }

    /// ULID getter
    pub fn ulid(&self) -> (r: u128)
        ensures
            r == self.0,
    {
        self.0
    }
}

/// Each new client connection is assigned a new SessionId (a ULID).
#[derive(Clone, Copy, Debug, PartialEq, Eq, Structural, Hash, PartialOrd, Ord)]
pub struct SessionId(pub u128);

impl SessionId {
    /// constructor
    pub fn generate() -> (r: SessionId) {
        SessionId(crate::uid::uid())
    }

    /// session ULID
    pub fn ulid(&self) -> (r: u128)
        ensures
            r == self.0,
    {
        self.0
    }

    /// The session id as text: its ULID.
    pub fn to_string(&self) -> (s: String)
        ensures
            s@ == ulid::ulid_text(self.0),
    {
        ulid::text(self.0)
    }
}

/// Message metadata
#[derive(Clone, Copy, Debug, PartialEq, Eq, Structural, Hash)]
pub struct Metadata {
    msg_type: MessageType,
    instance_id: InstanceId,
    encoding: Encoding,
    deadline: Option<Deadline>,
    correlation_id: Option<InstanceId>,
    sequence: Option<u64>,
}

impl Metadata {
    /// Message type.
    pub closed spec fn spec_message_type(&self) -> MessageType {
        self.msg_type
    }

    /// Instance id.
    pub closed spec fn spec_instance_id(&self) -> InstanceId {
        self.instance_id
    }

    /// Encoding.
    pub closed spec fn spec_encoding(&self) -> Encoding {
        self.encoding
    }

    /// Deadline.
    pub closed spec fn spec_deadline(&self) -> Option<Deadline> {
        self.deadline
    }

    /// Correlation id.
    pub closed spec fn spec_correlation_id(&self) -> Option<InstanceId> {
        self.correlation_id
    }

    /// Sequence.
    pub closed spec fn spec_sequence(&self) -> Option<u64> {
        self.sequence
    }

    /// constructor: a new message instance, with no correlation id and no sequence.
    pub fn new(msg_type: MessageType, encoding: Encoding, deadline: Option<Deadline>) -> (r:
        Metadata)
        ensures
            r.spec_message_type() == msg_type,
            r.spec_encoding() == encoding,
            r.spec_deadline() == deadline,
            r.spec_correlation_id() is None,
            r.spec_sequence() is None,
    {
        Metadata {
            msg_type,
            instance_id: InstanceId::generate(),
            encoding,
            deadline,
            correlation_id: None,
            sequence: None,
        }
    }

    /// The metadata with every part given: how a message read from the wire is rebuilt.
    pub fn from_parts(
        msg_type: MessageType,
        instance_id: InstanceId,
        encoding: Encoding,
        deadline: Option<Deadline>,
        correlation_id: Option<InstanceId>,
        sequence: Option<u64>,
    ) -> (r: Metadata)
        ensures
            r.spec_message_type() == msg_type,
            r.spec_instance_id() == instance_id,
            r.spec_encoding() == encoding,
            r.spec_deadline() == deadline,
            r.spec_correlation_id() == correlation_id,
            r.spec_sequence() == sequence,
    {
        Metadata { msg_type, instance_id, encoding, deadline, correlation_id, sequence }
    }

    /// correlate this message instance with another message instance, e.g., used to correlate
    /// a response message with a request message
    pub fn correlate(self, instance_id: InstanceId) -> (r: Metadata)
        ensures
            r.spec_message_type() == self.spec_message_type(),
            r.spec_instance_id() == self.spec_instance_id(),
            r.spec_encoding() == self.spec_encoding(),
            r.spec_deadline() == self.spec_deadline(),
            r.spec_correlation_id() == Some(instance_id),
            r.spec_sequence() == self.spec_sequence(),
    {
        let mut md = self;
        md.correlation_id = Some(instance_id);
        md
    }

    /// correlation ID getter
    pub fn correlation_id(&self) -> (r: Option<InstanceId>)
        ensures
            r == self.spec_correlation_id(),
    {
        self.correlation_id
    }

    /// Each message type is identified by an Id
    pub fn message_type(&self) -> (r: MessageType)
        ensures
            r == self.spec_message_type(),
    {
        self.msg_type
    }

    /// Each message instance is assigned a unique ULID.
    pub fn instance_id(&self) -> (r: InstanceId)
        ensures
            r == self.spec_instance_id(),
    {
        self.instance_id
    }

    /// When the message was created, in milliseconds since the UNIX epoch: derived from the
    /// message instance ID.
    pub fn timestamp(&self) -> (r: u64)
        ensures
            r == ulid::ulid_timestamp(self.spec_instance_id().0),
    {
        ulid::timestamp(self.instance_id.0)
    }

    /// A message can specify that it must be processed by the specified deadline.
    pub fn deadline(&self) -> (r: Option<Deadline>)
        ensures
            r == self.spec_deadline(),
    {
        self.deadline
    }

    /// return the message data encoding
    pub fn encoding(&self) -> (r: Encoding)
        ensures
            r == self.spec_encoding(),
    {
        self.encoding
    }

    /// message sequence getter
    pub fn sequence(&self) -> (r: Option<u64>)
        ensures
            r == self.spec_sequence(),
    {
        self.sequence
    }
}

/// A message: metadata and data.
#[derive(Debug)]
pub struct Message<T> {
    metadata: Metadata,
    data: T,
}

impl<T> Message<T> {
    /// The metadata.
    pub closed spec fn spec_metadata(&self) -> Metadata {
        self.metadata
    }

    /// The data.
    pub closed spec fn spec_data(&self) -> T {
        self.data
    }

    /// constructor
    pub fn new(metadata: Metadata, data: T) -> (r: Message<T>)
        ensures
            r.spec_metadata() == metadata,
            r.spec_data() == data,
    {
        Message { metadata, data }
    }

    /// returns the message metadata
    pub fn metadata(&self) -> (r: Metadata)
        ensures
            r == self.spec_metadata(),
    {
        self.metadata
    }

    /// returns the message data
    pub fn data(&self) -> (r: &T)
        ensures
            *r == self.spec_data(),
    {
        &self.data
    }

    /// Encodes the message data, given what the encoding's serializer made of it: the message
    /// with the encoded bytes, or the encoding's error (see [`Encoding::encode`]).
    pub fn encode(
        self,
        serialized: Result<Vec<u8>, String>,
        external: Option<Result<Vec<u8>, String>>,
    ) -> (r: Result<Message<MessageBytes>, Error>)
        requires
            !self.spec_metadata().spec_encoding().is_native() && serialized is Ok ==> external is Some,
        ensures
            r is Ok <==> encode_outcome(
                self.spec_metadata().spec_encoding(),
                serialized_view(serialized),
                external_view(external),
            ) is Ok,
            r matches Ok(m) ==> m.spec_metadata() == self.spec_metadata() && encode_outcome(
                self.spec_metadata().spec_encoding(),
                serialized_view(serialized),
                external_view(external),
            ) == Ok::<Seq<u8>, Seq<char>>(m.spec_data().0@),
            r matches Err(e) ==> is_serialization_error(
                e,
                self.spec_metadata().spec_encoding(),
                serialized_view(serialized),
                external_view(external),
            ),
    {
        match self.metadata.encoding.encode(serialized, external) {
            Ok(data) => Ok(Message { metadata: self.metadata, data: MessageBytes(data) }),
            Err(err) => Err(err),
        }
    }

    /// Converts itself into an [`EncodedMessage`] (see [`Message::encode`]).
    pub fn encoded_message(
        self,
        sender: Address,
        recipient: Address,
        serialized: Result<Vec<u8>, String>,
        external: Option<Result<Vec<u8>, String>>,
    ) -> (r: Result<EncodedMessage, Error>)
        requires
            !self.spec_metadata().spec_encoding().is_native() && serialized is Ok ==> external is Some,
        ensures
            r is Ok <==> encode_outcome(
                self.spec_metadata().spec_encoding(),
                serialized_view(serialized),
                external_view(external),
            ) is Ok,
            r matches Ok(m) ==> m.spec_sender() == sender && m.spec_recipient() == recipient
                && m.spec_message().spec_metadata() == self.spec_metadata() && encode_outcome(
                self.spec_metadata().spec_encoding(),
                serialized_view(serialized),
                external_view(external),
            ) == Ok::<Seq<u8>, Seq<char>>(m.spec_message().spec_data().0@),
            r matches Err(e) ==> is_serialization_error(
                e,
                self.spec_metadata().spec_encoding(),
                serialized_view(serialized),
                external_view(external),
            ),
    {
        match self.encode(serialized, external) {
            Ok(msg) => Ok(EncodedMessage { sender, recipient, msg }),
            Err(e) => Err(e),
        }
    }
}

impl Message<MessageBytes> {
    /// The decompression step of decoding the message data (see [`Encoding::decode`]); the
    /// format's deserializer then reads what this returns.
    pub fn decode(&self, external: Option<Result<Vec<u8>, String>>) -> (r: Result<Vec<u8>, Error>)
        requires
            !self.spec_metadata().spec_encoding().is_native() ==> external is Some,
        ensures
            r is Ok <==> decode_outcome(
                self.spec_metadata().spec_encoding(),
                self.spec_data().0@,
                external_view(external),
            ) is Ok,
            r matches Ok(v) ==> decode_outcome(
                self.spec_metadata().spec_encoding(),
                self.spec_data().0@,
                external_view(external),
            )
                == Ok::<Seq<u8>, Seq<char>>(v@),
            r matches Err(e) ==> is_deserialization_error(
                e,
                self.spec_metadata().spec_encoding(),
                self.spec_data().0@,
                external_view(external),
            ),
    {
        self.metadata.encoding.decode(self.data.0.as_slice(), external)
    }
}

/// Encoded message data, with the sender's and recipient's addresses.
#[derive(Debug)]
pub struct EncodedMessage {
    sender: Address,
    recipient: Address,
    msg: Message<MessageBytes>,
}

impl EncodedMessage {
    /// The sender.
    pub closed spec fn spec_sender(&self) -> Address {
        self.sender
    }

    /// The recipient.
    pub closed spec fn spec_recipient(&self) -> Address {
        self.recipient
    }

    /// The message.
    pub closed spec fn spec_message(&self) -> Message<MessageBytes> {
        self.msg
    }

    /// constructor
    pub fn new(addresses: Addresses, msg: Message<MessageBytes>) -> (r: EncodedMessage)
        ensures
            r.spec_sender() == addresses.spec_sender(),
            r.spec_recipient() == addresses.spec_recipient(),
            r.spec_message() == msg,
    {
        EncodedMessage { sender: addresses.sender, recipient: addresses.recipient, msg }
    }

    /// returns the message metadata
    pub fn metadata(&self) -> (r: Metadata)
        ensures
            r == self.spec_message().spec_metadata(),
    {
        self.msg.metadata
    }

    /// returns the message data
    pub fn data(&self) -> (r: &MessageBytes)
        ensures
            *r == self.spec_message().spec_data(),
    {
        &self.msg.data
    }

    /// return the sender's address
    pub fn sender(&self) -> (r: &Address)
        ensures
            *r == self.spec_sender(),
    {
        &self.sender
    }

    /// return the recipient's address
    pub fn recipient(&self) -> (r: &Address)
        ensures
            *r == self.spec_recipient(),
    {
        &self.recipient
    }

    /// returns the sender's and recipient's addresses
    pub fn addresses(&self) -> (r: Addresses)
        ensures
            r.spec_sender() == self.spec_sender(),
            r.spec_recipient() == self.spec_recipient(),
    {
        Addresses { sender: self.sender, recipient: self.recipient }
    }

    /// The message itself.
    pub fn message(&self) -> (r: &Message<MessageBytes>)
        ensures
            *r == self.spec_message(),
    {
        &self.msg
    }

    /// The decompression step of decoding the message data (see [`Message::decode`]), with
    /// the sender's and recipient's addresses; the format's deserializer then reads the bytes.
    pub fn decode(&self, external: Option<Result<Vec<u8>, String>>) -> (r: Result<
        (Addresses, Vec<u8>),
        Error,
    >)
        requires
            !self.spec_message().spec_metadata().spec_encoding().is_native() ==> external is Some,
        ensures
            r is Ok <==> decode_outcome(
                self.spec_message().spec_metadata().spec_encoding(),
                self.spec_message().spec_data().0@,
                external_view(external),
            ) is Ok,
            r matches Ok((a, v)) ==> a.spec_sender() == self.spec_sender() && a.spec_recipient()
                == self.spec_recipient() && decode_outcome(
                self.spec_message().spec_metadata().spec_encoding(),
                self.spec_message().spec_data().0@,
                external_view(external),
            ) == Ok::<Seq<u8>, Seq<char>>(v@),
            r matches Err(e) ==> is_deserialization_error(
                e,
                self.spec_message().spec_metadata().spec_encoding(),
                self.spec_message().spec_data().0@,
                external_view(external),
            ),
    {
        match self.msg.decode(external) {
            Ok(bytes) => Ok((Addresses { sender: self.sender, recipient: self.recipient }, bytes)),
            Err(err) => Err(err),
        }
    }

    /// Encodes the message for the addresses (see [`Message::encoded_message`]).
    pub fn encode<T>(
        addresses: Addresses,
        msg: Message<T>,
        serialized: Result<Vec<u8>, String>,
        external: Option<Result<Vec<u8>, String>>,
    ) -> (r: Result<EncodedMessage, Error>)
        requires
            !msg.spec_metadata().spec_encoding().is_native() && serialized is Ok ==> external is Some,
        ensures
            r is Ok <==> encode_outcome(
                msg.spec_metadata().spec_encoding(),
                serialized_view(serialized),
                external_view(external),
            ) is Ok,
            r matches Ok(m) ==> m.spec_sender() == addresses.spec_sender() && m.spec_recipient()
                == addresses.spec_recipient() && m.spec_message().spec_metadata() == msg.spec_metadata()
                && encode_outcome(
                    msg.spec_metadata().spec_encoding(),
                    serialized_view(serialized),
                    external_view(external),
                )
                == Ok::<Seq<u8>, Seq<char>>(m.spec_message().spec_data().0@),
            r matches Err(e) ==> is_serialization_error(
                e,
                msg.spec_metadata().spec_encoding(),
                serialized_view(serialized),
                external_view(external),
            ),
    {
        let sender = addresses.sender;
        let recipient = addresses.recipient;
        msg.encoded_message(sender, recipient, serialized, external)
    }

    /// Converts into an [`OpenEnvelope`], given what serializing the message (bincode) gave: the
    /// envelope holds those bytes; a serialization failure gives an
    /// `EncodedMessageSerializationFailed` error from the sender.
    pub fn open_envelope(self, serialized: Result<Vec<u8>, String>) -> (r: Result<OpenEnvelope, Error>)
        ensures
            r is Ok <==> serialized is Ok,
            r matches Ok(e) ==> e.spec_sender() == self.spec_sender() && e.spec_recipient()
                == self.spec_recipient() && e.spec_msg() == serialized->Ok_0@,
            r matches Err(e) ==> e.spec_id() == Id(MESSAGE_ENCODED_SERIALIZATION_FAILED_ID)
                && e.spec_level() == Level::Error && e.spec_message() == message_error_text(
                MessageError::EncodedMessageSerializationFailed(
                    self.spec_sender(),
                    crate::message::errors::ErrorInfo(serialized->Err_0),
                ),
            ),
    {
        match serialized {
            Ok(bytes) => Ok(
                OpenEnvelope { sender: self.sender, recipient: self.recipient, msg: MessageBytes(bytes) },
            ),
            Err(msg) => {
                let err = MessageError::EncodedMessageSerializationFailed(
                    self.sender,
                    crate::message::errors::ErrorInfo(msg),
                );
                Err(err.to_error(ModuleSource::new("oysterpack::message::envelope", 1209)))
            },
        }
    }
}

/// The id of a `DecodingError` message error (01CY9VX93CH1C1BJKRAV2T237W).
pub const MESSAGE_DECODING_ERROR_ID: u128 = 1867031190663367090363230915571813628;

/// The id of an `EncodingError` message error (01CY9VXTQM3ZYPE2JXFF83829X).
pub const MESSAGE_ENCODING_ERROR_ID: u128 = 1867031212491238890411696131253995837;

/// The id of an `EncodedMessageSerializationFailed` message error (01CYJGZAP68TF3H847NCYE2PSR).
pub const MESSAGE_ENCODED_SERIALIZATION_FAILED_ID: u128 = 1867382411073195824459596594818407224;

/// The id of a `MessageDataDeserializationFailed` message error (01CYJEZZ52QW58MHHQAQKXZZ4T).
pub const MESSAGE_DATA_DESERIALIZATION_FAILED_ID: u128 = 1867379901106813525954568540389375130;

impl OpenEnvelope {
    /// Parses the message data into an [`EncodedMessage`], given what deserializing it
    /// (bincode) gave; a failure gives a `MessageDataDeserializationFailed` error from the
    /// sender.
    pub fn encoded_message(self, parsed: Result<Message<MessageBytes>, String>) -> (r: Result<
        EncodedMessage,
        Error,
    >)
        ensures
            r is Ok <==> parsed is Ok,
            r matches Ok(m) ==> m.spec_sender() == self.spec_sender() && m.spec_recipient()
                == self.spec_recipient() && m.spec_message() == parsed->Ok_0,
            r matches Err(e) ==> e.spec_id() == Id(MESSAGE_DATA_DESERIALIZATION_FAILED_ID)
                && e.spec_level() == Level::Error && e.spec_message() == message_error_text(
                MessageError::MessageDataDeserializationFailed(
                    self.spec_sender(),
                    crate::message::errors::ErrorInfo(parsed->Err_0),
                ),
            ),
    {
        match parsed {
            Ok(msg) => Ok(EncodedMessage { sender: self.sender, recipient: self.recipient, msg }),
            Err(m) => {
                let err = MessageError::MessageDataDeserializationFailed(
                    self.sender,
                    crate::message::errors::ErrorInfo(m),
                );
                Err(err.to_error(ModuleSource::new("oysterpack::message::envelope", 1254)))
            },
        }
    }
}

} // verus!
