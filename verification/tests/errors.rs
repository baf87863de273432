use oysterpack::errors::{Error, Id, IsError, Level};
use oysterpack::events::{self, ModuleSource};
use oysterpack::message::base58::DecodeError;

const FOO_ERR: (Id, Level) = (Id(1863702216415833425137248269790651577), Level::Error);
const BAR_ERR: (Id, Level) = (Id(1863710844723084375065842092297071588), Level::Alert);
const BAZ_ERR: (Id, Level) = (Id(1864734280873114327279151769208160280), Level::Critical);

fn src() -> ModuleSource {
    ModuleSource::new("errors", 9)
}

#[test]
fn error() {
    let id = Id(oysterpack::uid::uid());
    let err = Error::new(id, Level::Error, "BOOM", src());
    assert_eq!(id, err.id());
    assert_eq!(Level::Error, err.level());
    assert_eq!(err.message(), "BOOM");

    let err2 = Error::new(id, Level::Error, "BOOM", src());
    assert_eq!(err2.id(), err.id());
    assert_eq!(err2.level(), err.level());
    assert_ne!(err2.instance_id(), err.instance_id());

    assert!(err2.cause().is_none());
    assert!(err2.causes().is_none());
    assert!(err2.root_cause().is_none());
}

#[test]
fn error_with_cause() {
    let cause = Error::new(FOO_ERR.0, FOO_ERR.1, "THE MIDDLE CAUSE", src());
    let cause = cause.with_cause(Error::new(BAZ_ERR.0, BAZ_ERR.1, "THE ROOT CAUSE", src()));
    let err = Error::new(BAR_ERR.0, BAR_ERR.1, "THE TOP LEVEL ERROR", src());
    let err = err.with_cause(cause);

    match err.causes() {
        None => panic!("There should have been causes"),
        Some(causes) => {
            assert_eq!(causes.len(), 2);
            assert_eq!(causes[0].id(), FOO_ERR.0);
            assert_eq!(causes[1].id(), BAZ_ERR.0);
        }
    }
    assert_eq!(err.root_cause().unwrap().id(), BAZ_ERR.0);
    assert_eq!(err.cause().unwrap().message(), "THE MIDDLE CAUSE");
}

#[test]
fn is_error() {
    let err = DecodeError("Request timed out: 100ms".to_string()).to_error(src());
    assert_eq!(err.id(), Id(DecodeError::ERR_ID));
    assert_eq!(err.level(), Level::Error);
    assert_eq!(err.message(), "Request timed out: 100ms");
    assert!(err.cause().is_none());
    assert_eq!(err.module_source().line(), 9);
}

#[test]
fn error_text_names_level_ids_source_and_message() {
    let err = Error::new(Id(0xFF), Level::Alert, "BOOM", ModuleSource::new("app::module", 7));
    let text = err.to_string();
    let instance = ulid_text(err.instance_id());
    assert_eq!(
        text,
        format!("Alert(0000000000000000000000007Z:{})[app::module:7] BOOM", instance)
    );
    assert_eq!(err.module_source().mod_path(), "app::module");
    assert_eq!(err.module_source().line(), 7);
    assert_eq!(err.timestamp(), oysterpack::ulid::timestamp(err.instance_id()));
}

#[test]
fn error_levels_map_to_event_levels() {
    assert_eq!(Level::Emergency.into_event_level(), events::Level::Emergency);
    assert_eq!(Level::Alert.into_event_level(), events::Level::Alert);
    assert_eq!(Level::Critical.into_event_level(), events::Level::Critical);
    let level: events::Level = Level::Error.into();
    assert_eq!(level, events::Level::Error);
    assert_eq!(Level::Critical.name(), "Critical");
    assert!(Level::Emergency < Level::Error);
}

fn ulid_text(value: u128) -> String {
    rusty_ulid::Ulid::from(value).to_string()
}
