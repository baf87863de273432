use oysterpack::errors::{Id, Level};
use oysterpack::message::encoding::Encoding;
use oysterpack::message::envelope::{Addresses, EncodedMessage, Message, MessageBytes, MessageTypeId, Metadata, Address};
use oysterpack::message::errors::MessageError;
use oysterpack::errors::IsError;
use oysterpack::message::service::{handler_reply, MessageService, RegisterMessageHandler, MAILBOX_DELIVERY_ERROR_ID};
use oysterpack::message::signing::{EncryptedSignedHash, SignedHash, DIGEST_LEN};
use oysterpack::registry::Registry;
use oysterpack::actor::{Ping, Pong};

const KEY: [u8; 32] = [3u8; 32];

fn id_of(e: MessageError) -> Id {
    e.error_id()
}

#[test]
fn signed_hash_verification_outcomes() {
    let hash = SignedHash::from(vec![1, 2, 3]);
    assert_eq!(hash.bytes(), &[1, 2, 3]);
    let digest = vec![9u8; DIGEST_LEN];

    assert!(hash.verify(&KEY, Some(digest.clone()), &digest).is_ok());

    let err = hash.verify(&KEY, None, &digest).unwrap_err();
    assert_eq!(err.id(), id_of(MessageError::InvalidSignature(KEY)));
    assert_eq!(err.level(), Level::Alert);

    let err = hash.verify(&KEY, Some(vec![9u8; 10]), &digest).unwrap_err();
    assert_eq!(err.id(), id_of(MessageError::InvalidDigestLength { from: KEY, len: 10 }));
    assert!(err.message().starts_with("Digest len should be 64 but was (10) - from: "));

    let mut other = digest.clone();
    other[0] = 0;
    let err = hash.verify(&KEY, Some(digest.clone()), &other).unwrap_err();
    assert_eq!(err.id(), id_of(MessageError::ChecksumFailed(KEY)));
}

#[test]
fn encrypted_signed_hash_verification_outcomes() {
    let hash = EncryptedSignedHash(vec![1, 2, 3], [5u8; 24]);
    assert_eq!(*hash.nonce(), [5u8; 24]);
    let digest = vec![7u8; DIGEST_LEN];
    assert_eq!(hash.verify(&KEY, Some(Some(digest.clone()))).unwrap(), digest);

    let err = hash.verify(&KEY, None).unwrap_err();
    assert_eq!(err.id(), id_of(MessageError::DecryptionFailed(KEY)));
    let err = hash.verify(&KEY, Some(None)).unwrap_err();
    assert_eq!(err.id(), id_of(MessageError::InvalidSignature(KEY)));
    let err = hash.verify(&KEY, Some(Some(vec![1]))).unwrap_err();
    assert_eq!(err.id(), id_of(MessageError::InvalidDigestLength { from: KEY, len: 1 }));
}

fn request(msg_type: u128, data: Vec<u8>) -> EncodedMessage {
    let metadata = Metadata::new(MessageTypeId(msg_type).message_type(), Encoding::Bincode(None), None);
    EncodedMessage::new(Addresses::new(Address([1u8; 32]), Address([2u8; 32])), Message::new(metadata, MessageBytes(data)))
}

#[test]
fn handler_replies() {
    let sender = Address([1u8; 32]);
    let msg_type = MessageTypeId(77).message_type();
    let reply = handler_reply(&sender, msg_type, Ok(Ok(request(77, vec![4])))).ok().unwrap();
    assert_eq!(reply.data().0, vec![4]);

    let err = handler_reply(&sender, msg_type, Err("mailbox closed".to_string())).err().unwrap();
    assert_eq!(err.id(), Id(MAILBOX_DELIVERY_ERROR_ID));
    assert_eq!(err.level(), Level::Critical);
    assert_eq!(
        err.message(),
        format!(
            "{}: mailbox delivery error for message type: {} : mailbox closed",
            sender.to_string(),
            msg_type.to_string()
        )
    );
}

#[test]
fn register_message_handler() {
    let mut service: MessageService<&str, ()> = MessageService::new(Address([2u8; 32]));
    service.register(RegisterMessageHandler::new(MessageTypeId(1).message_type(), "one"));
    service.register(RegisterMessageHandler::new(MessageTypeId(2).message_type(), "two"));
    let mut types = service.registered_message_types();
    types.sort();
    assert_eq!(types, vec![MessageTypeId(1).message_type(), MessageTypeId(2).message_type()]);
}

#[test]
fn encoded_message_decode_and_encode() {
    let (addresses, bytes) = request(1, vec![8, 9]).decode(None).unwrap();
    assert_eq!(bytes, vec![8, 9]);
    assert_eq!(*addresses.sender(), Address([1u8; 32]));

    let metadata = Metadata::new(MessageTypeId(1).message_type(), Encoding::JSON(None), None);
    let encoded = EncodedMessage::encode(addresses, Message::new(metadata, "x"), Ok(b"\"x\"".to_vec()), None).unwrap();
    assert_eq!(encoded.data().0, b"\"x\"".to_vec());
    assert_eq!(encoded.metadata(), metadata);
}

#[test]
fn registry_keeps_each_key_once_in_insertion_order() {
    let k = |s: &str| s.to_string();
    let mut r: Registry<String, &str> = Registry::new();
    assert!(r.is_empty());
    r.insert(k("c"), "three");
    r.insert(k("a"), "one");
    r.insert(k("c"), "THREE");
    assert_eq!(r.len(), 2);
    assert_eq!(r.get(&k("c")), Some(&"THREE"));
    assert!(r.contains(&k("a")));
    assert_eq!(r.key_list(), vec![&k("c"), &k("a")]);
    assert_eq!(r.remove(&k("c")), Some("THREE"));
    assert_eq!(r.remove(&k("c")), None);
    assert_eq!(r.key_list(), vec![&k("a")]);
}

#[test]
fn ping_pong() {
    let ping = Ping::new();
    assert!(ping.timestamp() > 0);
    let pong = Pong::from_ping(ping, ping.timestamp() + 5);
    assert_eq!(pong.ping(), ping);
    assert_eq!(pong.ping_received_timestamp(), ping.timestamp() + 5);
    assert_eq!(pong.duration(), 5);
}
