use oysterpack::command::{CommandId, InstanceId};
use oysterpack::message::envelope::MessageType;
use oysterpack::{uid, ulid};

#[test]
fn event_id() {
    let id = InstanceId::new();
    println!("{:?}", id);
}

#[test]
fn id() {
    let id = oysterpack::monix::InstanceId::new();
    println!("{:?}", id);
}

#[test]
fn command_id() {
    let id = CommandId(1);
    println!("{:?}", id);
    assert_eq!(id.value(), 1);
}

#[test]
fn ulid_text_is_crockford() {
    assert_eq!(MessageType(0).to_string(), "00000000000000000000000000");
    assert_eq!(MessageType(0xFF).to_string(), "0000000000000000000000007Z");
    assert_eq!(MessageType(1867384532653698871582487715619812439).to_string().len(), 26);
    assert_eq!(uid::ulid().len(), 26);
}

#[test]
fn ulid_timestamp_is_top_48_bits() {
    let value: u128 = (1523144390168u128 << 80) | 12345;
    assert_eq!(ulid::timestamp(value), 1523144390168);
    let generated = uid::uid();
    assert!(ulid::timestamp(generated) > 1_500_000_000_000);
}
