use oysterpack::events::{Event, Eventful, Id, Level, ModuleSource};

#[test]
fn ordered_levels() {
    // higher priority comes first
    assert!(Level::Emergency < Level::Alert);
    assert!(Level::Alert < Level::Critical);
    assert!(Level::Critical < Level::Error);
    assert!(Level::Error < Level::Warning);
    assert!(Level::Warning < Level::Notice);
    assert!(Level::Notice < Level::Info);
    assert!(Level::Info < Level::Debug);
}

#[test]
fn level_is_error_for_the_four_most_severe() {
    assert!(Level::Emergency.is_error());
    assert!(Level::Alert.is_error());
    assert!(Level::Critical.is_error());
    assert!(Level::Error.is_error());
    assert!(!Level::Warning.is_error());
    assert!(!Level::Notice.is_error());
    assert!(!Level::Info.is_error());
    assert!(!Level::Debug.is_error());
    assert!(Level::Alert.is_higher_priority_than(Level::Info));
    assert!(!Level::Info.is_higher_priority_than(Level::Info));
}

#[test]
fn module_source_crate_name() {
    let m = ModuleSource::new("oysterpack_core::devops::tests", 21);
    assert_eq!(m.crate_name(), "oysterpack_core");
    assert_eq!(m.mod_path(), "oysterpack_core::devops::tests");
    assert_eq!(m.line(), 21);
    assert_eq!(m.to_string(), "oysterpack_core::devops::tests:21");
    let m = ModuleSource::new("single", 7);
    assert_eq!(m.crate_name(), "single");
    let m = ModuleSource::new("a:b::c", 1);
    assert_eq!(m.crate_name(), "a:b");
}

#[derive(Debug, Clone, PartialEq, Eq)]
struct Foo(String);

impl Eventful for Foo {
    const EVENT_ID: Id = Id(1863291442537893263425065359976496302);
    const EVENT_LEVEL: Level = Level::Info;
}

fn src() -> ModuleSource {
    ModuleSource::new("oysterpack_events::event::tests", 10)
}

#[test]
fn foo_event() {
    let foo_event = Foo::new_event(Foo("foo data".into()), src());
    assert!(foo_event.tag_ids().is_none());
    assert_eq!(foo_event.id(), Foo::EVENT_ID);
    assert_eq!(foo_event.severity_level(), Level::Info);
    assert_eq!(*foo_event.data(), Foo("foo data".into()));
    assert_eq!(foo_event.module_source().line(), 10);
    assert_eq!(
        foo_event.log_target(),
        format!("op_event::{}", rusty_ulid::Ulid::from(Foo::EVENT_ID.0).to_string())
    );
    assert_eq!(foo_event.timestamp(), (foo_event.instance_id() >> 80) as u64);
}

#[test]
fn event_tags() {
    let app_id: u128 = 1863291903828500526079298022856535457;
    let service_id: u128 = 1863291948359469739082252902144828404;
    let foo_event = Event::new(Foo::EVENT_ID, Foo("foo data".into()), src())
        .with_tag_id(app_id)
        .with_tag_id(app_id)
        .with_tag_id(service_id)
        .with_tag_id(service_id);
    let tags = foo_event.tag_ids().unwrap();
    assert_eq!(tags.len(), 2);
    assert!(tags.contains(&app_id));
    assert!(tags.contains(&service_id));
    assert!(foo_event.has_tag(app_id));
    assert!(!foo_event.has_tag(7));
}
