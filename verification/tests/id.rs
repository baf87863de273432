use oysterpack::id::Id;
use std::collections::HashSet;

#[derive(Debug)]
struct Unique;
type Uid = Id<Unique>;

trait Foo {}
type FooId = Id<dyn Foo + Send>;

#[test]
fn id_hash_uniqueness() {
    let mut hashes = HashSet::new();
    for _ in 0..100000 {
        assert!(hashes.insert(Uid::new().get()))
    }
}

#[test]
fn trait_id() {
    let id = FooId::new();
    println!("FooId = {}", id.to_string());
}

#[test]
fn display() {
    let id = Uid::new();
    println!("{}", id.to_string());
}

#[test]
fn from() {
    let id1 = Uid::new();
    let id2 = Uid::from(id1.get());
    assert_eq!(id1, id2);
}

#[test]
fn to_string() {
    let id = Uid::new();
    assert_eq!(id.to_string(), format!("{:x}", id.get()));
}

#[test]
fn ordered() {
    let mut ids = vec![Uid::new(), Uid::new(), Uid::new(), Uid::new()];
    ids.sort_by(|a, b| a.partial_cmp(b).unwrap());
    println!("{:?}", ids);
    let mut id1 = ids.first().unwrap();
    for id2 in ids.iter().skip(1) {
        assert!(id2 > id1);
        id1 = id2;
    }
}

#[test]
fn serialization_msgpack() {
    let uid = Uid::new();
    let bytes = rmp_serde::to_vec(&(uid.get(),)).unwrap();
    println!("rmps bytes.len() = {}", bytes.len());
    let decoded: (u64,) = rmp_serde::from_slice(&bytes).expect("rmps deserialization failed");
    let _uid: Uid = Uid::from(decoded.0);
}

#[test]
fn id_from_known_value_renders_lower_hex() {
    let id = Uid::from(0xdead_beef);
    assert_eq!(id.to_string(), "deadbeef");
    assert_eq!(Uid::from(0).to_string(), "0");
    assert_eq!(Uid::from(u64::MAX).to_string(), "ffffffffffffffff");
}

#[test]
fn id_order_follows_value() {
    assert!(Uid::from(1) < Uid::from(2));
    assert!(Uid::from(2) > Uid::from(1));
    assert!(Uid::from(7) == Uid::from(7));
    assert!(Uid::from(7) != Uid::from(8));
}

#[test]
fn from_and_get_for_a_trait_object_id() {
    let id = FooId::from(42);
    assert_eq!(id.get(), 42);
    assert!(FooId::from(id.get()) == id);
    let random = FooId::new();
    assert!(FooId::from(random.get()) == random);
}
