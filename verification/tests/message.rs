use oysterpack::errors::{Error, Id, IsError, Level};
use oysterpack::events::ModuleSource;
use oysterpack::message::base58;
use oysterpack::message::codec::{DecodeStep, SealedEnvelopeCodec};
use oysterpack::message::compression::{Compression, IoError};
use oysterpack::message::deadline::Deadline;
use oysterpack::message::encoding::{DeserializationError, Encoding, SerializationError};
use oysterpack::message::envelope::{
    IsMessage, Address, Addresses, EncodedMessage, EncryptedMessageBytes, Message, MessageBytes, MessageTypeId, Metadata, OpenEnvelope,
    SealedEnvelope, SealedEnvelopeOpenFailed, MAX_MSG_SIZE, MESSAGE_DECODING_ERROR_ID,
    MESSAGE_ENCODED_SERIALIZATION_FAILED_ID, SEALED_ENVELOPE_MIN_SIZE,
};
use oysterpack::message::errors::{DecodingError, EncodingError, MessageError};
use oysterpack::message::service::{MessageService, UNSUPPORTED_MESSAGE_TYPE_ID};

struct Foo;

impl IsMessage for Foo {
    const MESSAGE_TYPE_ID: MessageTypeId = MessageTypeId(1867384532653698871582487715619812439);
}

const FOO_TYPE: MessageTypeId = Foo::MESSAGE_TYPE_ID;

fn foo() -> String {
    "hello 1867384532653698871582487715619812439 1867384532653698871582487715619812439 1867384532653698871582487715619812439".to_string()
}

fn client() -> Address {
    Address([7u8; 32])
}

fn server() -> Address {
    let mut key = [0u8; 32];
    for (i, b) in key.iter_mut().enumerate() {
        *b = i as u8;
    }
    Address(key)
}

fn now_nanos() -> i128 {
    std::time::SystemTime::now()
        .duration_since(std::time::UNIX_EPOCH)
        .unwrap()
        .as_nanos() as i128
}

const COMPRESSIONS: [Option<Compression>; 5] = [
    None,
    Some(Compression::Deflate),
    Some(Compression::Gzip),
    Some(Compression::Zlib),
    Some(Compression::Lz4),
];

fn roundtrip(encoding: Encoding, serialized: Vec<u8>) -> Vec<u8> {
    let metadata = Metadata::new(FOO_TYPE.message_type(), encoding, None);
    let msg = Message::new(metadata, foo());
    let msg = msg.encode(Ok(serialized), None).unwrap();
    assert_eq!(msg.metadata().encoding(), encoding);
    msg.decode(None).unwrap()
}

#[test]
fn bincode_compressed_encodings() {
    for c in COMPRESSIONS.iter() {
        let bytes = roundtrip(Encoding::Bincode(*c), bincode::serialize(&foo()).unwrap());
        let data: String = bincode::deserialize(&bytes).unwrap();
        assert_eq!(data, foo());
    }
}

#[test]
fn json_compressed_encodings() {
    for c in COMPRESSIONS.iter() {
        let bytes = roundtrip(Encoding::JSON(*c), serde_json::to_vec(&foo()).unwrap());
        let data: String = serde_json::from_slice(&bytes).unwrap();
        assert_eq!(data, foo());
    }
}

#[test]
fn cbor_compressed_encodings() {
    for c in COMPRESSIONS.iter() {
        let bytes = roundtrip(Encoding::CBOR(*c), serde_cbor::to_vec(&foo()).unwrap());
        let data: String = serde_cbor::from_slice(&bytes).unwrap();
        assert_eq!(data, foo());
    }
}

#[test]
fn compression_roundtrip_for_each_codec() {
    let data: Vec<u8> = foo().into_bytes();
    for c in [Compression::Deflate, Compression::Gzip, Compression::Zlib, Compression::Lz4].iter() {
        let compressed = c.compress(&data, None).unwrap();
        assert_ne!(compressed, data);
        assert_eq!(c.decompress(&compressed, None).unwrap(), data);
    }
}

#[test]
fn compressed_data_is_smaller_for_repetitive_input() {
    let data = vec![42u8; 4096];
    for c in [Compression::Deflate, Compression::Gzip, Compression::Zlib, Compression::Lz4].iter() {
        assert!(c.compress(&data, None).unwrap().len() < data.len());
    }
}

#[test]
fn decompressing_garbage_fails() {
    let garbage = vec![0xffu8, 0x00, 0x13, 0x37, 0x42];
    assert!(Compression::Zlib.decompress(&garbage, None).is_err());
    assert!(Compression::Gzip.decompress(&garbage, None).is_err());
}

#[test]
fn encoding_to_string() {
    assert_eq!(Encoding::Bincode(None).to_string(), "Bincode(None)");
    assert_eq!(Encoding::JSON(Some(Compression::Gzip)).to_string(), "JSON(Some(Gzip))");
    assert_eq!(Encoding::CBOR(Some(Compression::Lz4)).to_string(), "CBOR(Some(Lz4))");
    assert_eq!(Encoding::CBOR(Some(Compression::Zlib)).get_compression(), Some(Compression::Zlib));
    assert_eq!(Encoding::JSON(None).get_compression(), None);
}

#[test]
fn serializer_failure_is_a_serialization_error() {
    let err = Encoding::JSON(None).encode(Err("boom".to_string()), None).unwrap_err();
    assert_eq!(err.id(), Id(SerializationError::ERROR_ID));
    assert_eq!(err.level(), Level::Error);
    assert_eq!(err.message(), "JSON(None) serialization failed: boom");
    assert_eq!(err.module_source().mod_path(), "oysterpack::message::encoding");
    assert!(err.module_source().line() > 0);
}

#[test]
fn snappy_encoding_uses_the_codec_outcome_it_is_given() {
    let e = Encoding::Bincode(Some(Compression::Snappy));
    let compressed = vec![9u8, 8, 7];
    assert_eq!(e.encode(Ok(vec![1, 2, 3]), Some(Ok(compressed.clone()))).unwrap(), compressed);
    let err = e.encode(Ok(vec![1, 2, 3]), Some(Err("too big".to_string()))).unwrap_err();
    assert_eq!(err.id(), Id(SerializationError::ERROR_ID));
    assert_eq!(err.message(), "Bincode(Some(Snappy)) serialization failed: too big");
    let err = e.encode(Err("boom".to_string()), None).unwrap_err();
    assert_eq!(err.message(), "Bincode(Some(Snappy)) serialization failed: boom");

    assert_eq!(e.decode(&compressed, Some(Ok(vec![1, 2, 3]))).unwrap(), vec![1, 2, 3]);
    let err = e.decode(&compressed, Some(Err("corrupt input".to_string()))).unwrap_err();
    assert_eq!(err.id(), Id(DeserializationError::ERROR_ID));
    assert_eq!(err.message(), "Bincode(Some(Snappy)) deserialization failed: corrupt input");

    let out = Compression::Snappy.compress(&[1, 2, 3], Some(Ok(vec![7]))).unwrap();
    assert_eq!(out, vec![7]);
    let failed = IoError { message: "snappy: corrupt input".to_string() };
    let err = Compression::Snappy.decompress(&[7], Some(Err(failed))).unwrap_err();
    assert_eq!(err.message, "snappy: corrupt input");

    let metadata = Metadata::new(FOO_TYPE.message_type(), Encoding::JSON(Some(Compression::Snappy)), None);
    let msg = Message::new(metadata, foo()).encode(Ok(vec![1]), Some(Ok(vec![2, 2]))).unwrap();
    assert_eq!(msg.data().0, vec![2, 2]);
    assert_eq!(msg.decode(Some(Ok(vec![1]))).unwrap(), vec![1]);
}

#[test]
fn decompression_failure_is_a_deserialization_error() {
    let err = Encoding::Bincode(Some(Compression::Zlib)).decode(&[1, 2, 3], None).unwrap_err();
    assert_eq!(err.id(), Id(DeserializationError::ERROR_ID));
    assert_eq!(err.level(), Level::Error);
    assert!(err.message().starts_with("Bincode(Some(Zlib)) deserialization failed: "));

    let err = Encoding::CBOR(None).deserialization_failed("bad");
    assert_eq!(err.message(), "CBOR(None) deserialization failed: bad");
}

#[test]
fn deadline() {
    let start = now_nanos();

    let deadline = Deadline::ProcessingTimeoutMillis(100);
    assert_eq!(deadline.duration(start), 100_000_000);

    let deadline = Deadline::MessageTimeoutMillis(100);
    assert!(deadline.duration(start) <= 100_000_000);

    let deadline = Deadline::MessageTimeoutMillis(100);
    let start = start - 200_000_000;
    assert_eq!(deadline.duration(start), 0);
}

#[test]
fn deadline_duration_at_fixed_instants() {
    let start: i128 = 1_000_000_000_000;
    let d = Deadline::MessageTimeoutMillis(100);
    assert_eq!(d.duration_at(start, start + 30_000_000), 70_000_000);
    assert_eq!(d.duration_at(start, start + 100_000_000), 0);
    assert_eq!(d.duration_at(start, start), 100_000_000);
    assert_eq!(d.duration_at(start, start - 1), 100_000_001);
    assert_eq!(Deadline::ProcessingTimeoutMillis(5).duration_at(start, start + 1), 5_000_000);
}

#[test]
fn base58_encoding_keys() {
    let key = server().0;
    let key_base58 = base58::encode(&key);
    let key_bytes = base58::decode(&key_base58).unwrap();
    assert_eq!(key_bytes, key.to_vec());

    let key_base58 = base58::encode(&client().0);
    let key_bytes = base58::decode(&key_base58).unwrap();
    assert_eq!(key_bytes, client().0.to_vec());
}

#[test]
fn base58_known_values() {
    assert_eq!(base58::encode(b"hello world"), "StV1DL6CwTryKyV");
    assert_eq!(base58::encode(&[0, 0, 1]), "112");
    assert_eq!(base58::decode("StV1DL6CwTryKyV").unwrap(), b"hello world".to_vec());
}

#[test]
fn base58_roundtrip_keeps_leading_zeros() {
    for bytes in [vec![], vec![0u8], vec![0u8, 0, 255, 1], vec![58u8], vec![1u8, 0, 0]].iter() {
        let text = base58::encode(bytes);
        assert_eq!(&base58::decode(&text).unwrap(), bytes);
    }
    assert_eq!(base58::encode(&[0, 0]), "11");
    assert_eq!(base58::encode(&[58]), "21");
    assert_eq!(base58::decode("1112").unwrap(), vec![0, 0, 0, 1]);
}

#[test]
fn base58_decode_rejects_invalid_text() {
    let err = base58::decode("0OIl").unwrap_err();
    assert_eq!(err.id(), Id(base58::DecodeError::ERR_ID));
    assert_eq!(err.level(), Level::Error);
}

#[test]
fn address_text_is_base58() {
    assert_eq!(client().to_string(), base58::encode(&[7u8; 32]));
    assert!(client().same_as(&Address([7u8; 32])));
    assert!(!client().same_as(&server()));
    assert_eq!(Address::from([7u8; 32]), client());
}

fn sealed(msg: &[u8]) -> SealedEnvelope {
    OpenEnvelope::new(client(), server(), msg).seal([9u8; 24], msg.iter().map(|b| b ^ 0x5a).collect())
}

#[test]
fn seal_open_envelope() {
    let open = OpenEnvelope::new(client(), server(), b"hi");
    assert_eq!(open.msg(), b"hi");
    assert_eq!(*open.sender(), client());
    assert_eq!(*open.recipient(), server());
    assert_eq!(
        open.to_string(),
        format!("{} -> {}, msg.len: 2", client().to_string(), server().to_string())
    );

    let env = open.seal([9u8; 24], vec![1, 2, 3]);
    assert_eq!(env.msg(), &[1, 2, 3]);
    assert_eq!(*env.nonce(), [9u8; 24]);
    assert_eq!(
        env.to_string(),
        format!(
            "{} -> {}, nonce: {}, msg.len: 3",
            client().to_string(),
            server().to_string(),
            base58::encode(&[9u8; 24])
        )
    );

    let opened = env.open(Some(b"hi".to_vec())).unwrap();
    assert_eq!(opened.msg(), b"hi");
    assert_eq!(*opened.sender(), client());
}

#[test]
fn open_fails_when_decryption_fails() {
    let env = SealedEnvelope::new(client(), server(), [9u8; 24], &[1, 2, 3]);
    let text = env.to_string();
    let err = env.open(None).unwrap_err();
    assert_eq!(err.id(), Id(SealedEnvelopeOpenFailed::ERR_ID));
    assert_eq!(err.level(), Level::Error);
    assert_eq!(err.message(), format!("Failed to open SealedEnvelope: {}", text));
}

#[test]
fn sealed_envelope_encoding_decoding() {
    let env = sealed(b"data");
    let bytes = env.encode(Ok(vec![1, 2, 3])).unwrap();
    assert_eq!(bytes, vec![1, 2, 3]);
    let err = env.encode(Err("nope".to_string())).unwrap_err();
    assert_eq!(
        err.message(),
        "Failed to encode: InvalidSealedEnvelope(ErrorMessage(\"nope\"))"
    );
    assert_eq!(err.level(), Level::Critical);

    let decoded = SealedEnvelope::decode(Ok(sealed(b"data"))).unwrap();
    assert_eq!(decoded.msg(), sealed(b"data").msg());
    let err = SealedEnvelope::decode(Err("bad".to_string())).unwrap_err();
    assert_eq!(err.id(), Id(MESSAGE_DECODING_ERROR_ID));
    assert_eq!(
        err.message(),
        "Failed to decode: InvalidSealedEnvelope(ErrorMessage(\"bad\"))"
    );
}

#[test]
fn encoded_message() {
    let addresses = Addresses::new(client(), server());
    assert_eq!(*addresses.sender(), client());
    assert_eq!(*addresses.recipient(), server());
    let metadata = Metadata::new(FOO_TYPE.message_type(), Encoding::Bincode(None), None);
    let msg = Message::new(metadata, foo());
    let encoded = msg
        .encoded_message(client(), server(), Ok(bincode::serialize(&foo()).unwrap()), None)
        .unwrap();
    assert_eq!(*encoded.sender(), client());
    assert_eq!(*encoded.recipient(), server());
    assert_eq!(encoded.metadata(), metadata);
    assert_eq!(encoded.addresses(), addresses);
    let data: String = bincode::deserialize(&encoded.data().0).unwrap();
    assert_eq!(data, foo());

    let open = encoded.open_envelope(Ok(vec![4, 5])).unwrap();
    assert_eq!(open.msg(), &[4, 5]);
    assert_eq!(*open.sender(), client());
}

#[test]
fn encoded_message_serialization_failure() {
    let metadata = Metadata::new(FOO_TYPE.message_type(), Encoding::Bincode(None), None);
    let msg = Message::new(metadata, MessageBytes(vec![1]));
    let encoded = EncodedMessage::new(Addresses::new(client(), server()), msg);
    let err = encoded.open_envelope(Err("broken".to_string())).unwrap_err();
    assert_eq!(err.id(), Id(MESSAGE_ENCODED_SERIALIZATION_FAILED_ID));
    assert_eq!(
        err.message(),
        format!("Failed to serialize encoded message: {} : broken", client().to_string())
    );
}

#[test]
fn metadata_correlation() {
    let request = Metadata::new(FOO_TYPE.message_type(), Encoding::JSON(None), Some(Deadline::ProcessingTimeoutMillis(5)));
    assert_eq!(request.correlation_id(), None);
    assert_eq!(request.sequence(), None);
    assert_eq!(request.deadline(), Some(Deadline::ProcessingTimeoutMillis(5)));
    assert_eq!(request.message_type(), FOO_TYPE.message_type());
    let response = Metadata::new(FOO_TYPE.message_type(), Encoding::JSON(None), None).correlate(request.instance_id());
    assert_eq!(response.correlation_id(), Some(request.instance_id()));
    assert_eq!(request.timestamp(), (request.instance_id().ulid() >> 80) as u64);
}

/// A stand-in wire format for the framing tests: the addresses, the nonce, a two byte length,
/// then the message.
fn frame(env: &SealedEnvelope) -> Vec<u8> {
    let mut v = Vec::new();
    v.extend_from_slice(&env.sender().0);
    v.extend_from_slice(&env.recipient().0);
    v.extend_from_slice(env.nonce());
    v.extend_from_slice(&(env.msg().len() as u16).to_le_bytes());
    v.extend_from_slice(env.msg());
    v
}

fn parse(buf: &[u8]) -> Result<(SealedEnvelope, usize), Error> {
    let incomplete = || Error::new(Id(1), Level::Error, "incomplete", ModuleSource::new("parse", 1));
    if buf.len() < 90 {
        return Err(incomplete());
    }
    let len = u16::from_le_bytes([buf[88], buf[89]]) as usize;
    if buf.len() < 90 + len {
        return Err(incomplete());
    }
    let mut s = [0u8; 32];
    s.copy_from_slice(&buf[0..32]);
    let mut r = [0u8; 32];
    r.copy_from_slice(&buf[32..64]);
    let mut n = [0u8; 24];
    n.copy_from_slice(&buf[64..88]);
    Ok((SealedEnvelope::new(Address(s), Address(r), n, &buf[90..90 + len]), 90 + len))
}

fn decode_one(codec: &SealedEnvelopeCodec, buf: &mut Vec<u8>) -> Option<SealedEnvelope> {
    match codec.decode_step(buf.len()) {
        DecodeStep::NeedMoreBytes => None,
        DecodeStep::Parse(window) => {
            let parsed = parse(&buf[..window]);
            codec.decode(buf, window, parsed).unwrap()
        }
    }
}

#[test]
fn sealed_envelope_codec() {
    let codec = SealedEnvelopeCodec::default();
    let mut buf: Vec<u8> = Vec::new();
    for i in 0..5u8 {
        let env = sealed(&[i]);
        codec.encode(Ok(frame(&env)), &mut buf).unwrap();
    }
    for i in 0..5u8 {
        let env = decode_one(&codec, &mut buf).unwrap();
        assert_eq!(env.msg(), &[i ^ 0x5a]);
        let open = env.open(Some(vec![i])).unwrap();
        assert_eq!(open.msg(), &[i]);
    }
    // buf is empty
    assert!(buf.is_empty());
    assert!(decode_one(&codec, &mut buf).is_none());

    let bytes = frame(&sealed(&[1, 2, 3, 4]));
    let (left, right) = bytes.split_at(SEALED_ENVELOPE_MIN_SIZE);
    buf.extend_from_slice(left);
    assert!(decode_one(&codec, &mut buf).is_none());
    assert_eq!(buf.len(), SEALED_ENVELOPE_MIN_SIZE);
    buf.extend_from_slice(right);
    assert!(decode_one(&codec, &mut buf).is_some());
    assert!(buf.is_empty());
}

#[test]
fn codec_limits() {
    let codec = SealedEnvelopeCodec::new(100);
    assert!(matches!(codec.decode_step(89), DecodeStep::NeedMoreBytes));
    assert!(matches!(codec.decode_step(95), DecodeStep::Parse(95)));
    assert!(matches!(codec.decode_step(500), DecodeStep::Parse(100)));
    assert!(matches!(SealedEnvelopeCodec::default().decode_step(MAX_MSG_SIZE + 1), DecodeStep::Parse(MAX_MSG_SIZE)));

    let mut dst = vec![0u8];
    let err = codec.encode(Ok(vec![0u8; 101]), &mut dst).unwrap_err();
    assert_eq!(err.message, "max message size exceeded: 101 > 100");
    assert_eq!(dst, vec![0u8]);

    let mut buf = vec![0u8; 150];
    let failed = Error::new(Id(1), Level::Error, "junk", ModuleSource::new("codec", 1));
    let err = codec.decode(&mut buf, 100, Err(failed)).unwrap_err();
    assert!(err.message.starts_with("message failed to be decoded within max message size limit: 100 : "));
    assert_eq!(buf.len(), 150);
}

#[test]
fn message_errors_have_ids_levels_and_texts() {
    let a = client();
    let e = MessageError::UnknownSender(a);
    assert_eq!(e.error_level(), Level::Error);
    assert_eq!(e.error_message(), format!("Unknown sender: {}", a.to_string()));
    let e = MessageError::ForbiddenSender(a);
    assert_eq!(e.error_level(), Level::Alert);
    assert_eq!(e.error_message(), format!("Forbidden sender: {}", a.to_string()));
    let e = MessageError::InvalidSessionIdLength { from: a.0, len: 3 };
    assert_eq!(
        e.error_message(),
        format!("Session ID len should be 16 but was (3) - from: {}", a.to_string())
    );
    assert_eq!(e.error_level(), Level::Alert);
    let e = MessageError::InvalidDigestLength { from: a.0, len: 12 };
    assert_eq!(
        e.error_message(),
        format!("Digest len should be 64 but was (12) - from: {}", a.to_string())
    );
    let e = MessageError::ChecksumFailed(a.0);
    assert_eq!(e.error_message(), format!("Checksum failed -  from: {}", a.to_string()));
    let e = MessageError::EncodingError(EncodingError::InvalidSealedSignedMessage("x".to_string()));
    assert_eq!(e.error_level(), Level::Critical);
    assert_eq!(
        e.error_message(),
        "Failed to encode: InvalidSealedSignedMessage(ErrorMessage(\"x\"))"
    );
    let e = MessageError::DecodingError(DecodingError::InvalidSealedSignedMessage("y".to_string()));
    assert_eq!(e.error_id(), Id(MESSAGE_DECODING_ERROR_ID));
    assert_ne!(
        MessageError::UnknownSender(a).error_id(),
        MessageError::UnknownRecipient(a).error_id()
    );
}

#[test]
fn message_service() {
    let mut service: MessageService<String, u32> = MessageService::new(server());
    assert_eq!(*service.address(), server());
    assert!(service.registered_message_types().is_empty());
    service.register_handler(FOO_TYPE.message_type(), "foo handler".to_string());
    service.register_handler(FOO_TYPE.message_type(), "foo handler 2".to_string());
    assert_eq!(service.registered_message_types(), vec![FOO_TYPE.message_type()]);

    assert!(service.cached_key(&client()).is_none());
    service.cache_key(client(), 42);
    assert_eq!(service.cached_key(&client()), Some(&42));
    service.client_disconnect(&client());
    assert!(service.cached_key(&client()).is_none());

    let metadata = Metadata::new(
        FOO_TYPE.message_type(),
        Encoding::Bincode(None),
        Some(Deadline::ProcessingTimeoutMillis(250)),
    );
    let msg = Message::new(metadata, MessageBytes(vec![1, 2]));
    let request = EncodedMessage::new(Addresses::new(client(), server()), msg);
    let dispatch = service.dispatch(request, now_nanos()).ok().unwrap();
    assert_eq!(dispatch.handler, "foo handler 2");
    assert_eq!(dispatch.timeout_nanos, Some(250_000_000));
    assert_eq!(dispatch.request.data().0, vec![1, 2]);

    let other = MessageTypeId(5).message_type();
    let metadata = Metadata::new(other, Encoding::Bincode(None), None);
    let request = EncodedMessage::new(Addresses::new(client(), server()), Message::new(metadata, MessageBytes(vec![])));
    let err = service.dispatch(request, now_nanos()).err().unwrap();
    assert_eq!(err.id(), Id(UNSUPPORTED_MESSAGE_TYPE_ID));
    assert_eq!(err.level(), Level::Alert);
}

#[test]
fn message_bytes_conversions_and_equality() {
    let a = MessageBytes::from(&[1u8, 2, 3][..]);
    let b = MessageBytes::from(vec![1u8, 2, 3]);
    assert_eq!(a.data(), &[1u8, 2, 3][..]);
    assert_eq!(b.data(), &[1u8, 2, 3][..]);
    assert!(a == b);
    assert!(a != MessageBytes::from(vec![1u8, 2]));
    assert!(a != MessageBytes::from(vec![1u8, 2, 4]));

    let v = vec![4u8, 5, 6];
    assert_eq!(EncryptedMessageBytes::from(v.clone()).data(), v.as_slice());
    assert_eq!(EncryptedMessageBytes::from(v.as_slice()).data(), v.as_slice());
    assert!(EncryptedMessageBytes::from(v.clone()) == EncryptedMessageBytes::from(v.as_slice()));
    assert!(EncryptedMessageBytes::from(vec![]) != EncryptedMessageBytes::from(v.as_slice()));
}
