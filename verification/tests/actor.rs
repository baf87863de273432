use oysterpack::actor::events::{
    AppLifeCycle, AppLifeCycleEvent, Scope, ServiceLifeCycle, ServiceLifeCycleEvent, APP_STARTED, APP_STOPPED,
    RESTARTING, SERVICE_STARTED, STARTED, STOPPED, STOPPING,
};
use oysterpack::actor::registry::{App, Arbiters, EventLog, APP_SERVICE_ID, EVENTLOG_SERVICE_ID};
use oysterpack::actor::{ArbiterName, Id, InstanceId, Ping, Pong, ServiceInfo, ServiceType};
use oysterpack::events::Level;
use oysterpack::ulid;

const FOO_EVENT_ID: u128 = 1863291903828500526079298022856535457;
const BAR_EVENT_ID: u128 = 1863291947289222082109148786667309286;

#[test]
fn eventlog() {
    let mut eventlog = EventLog::new();
    eventlog.register_events(&[FOO_EVENT_ID]);
    let registered_events = eventlog.registered_events();
    for event_id in [SERVICE_STARTED, STARTED, STOPPING, STOPPED, RESTARTING, APP_STARTED, APP_STOPPED, FOO_EVENT_ID].iter() {
        assert!(registered_events.contains(event_id));
        assert!(eventlog.is_registered(*event_id));
    }
    assert!(!registered_events.contains(&BAR_EVENT_ID));
    assert!(!eventlog.is_registered(BAR_EVENT_ID));
    assert_eq!(registered_events.len(), 8);
    assert_eq!(eventlog.service_info().id(), Id(EVENTLOG_SERVICE_ID));
    assert_eq!(eventlog.service_info().service_type(), ServiceType::SystemService);
}

#[test]
fn eventlog_registers_each_event_once() {
    let mut eventlog = EventLog::new();
    eventlog.register_events(&[FOO_EVENT_ID, FOO_EVENT_ID, STARTED]);
    eventlog.register_events(&[FOO_EVENT_ID]);
    assert_eq!(eventlog.registered_events().len(), 8);
}

#[test]
fn get_arbiter_names() {
    let mut arbiters: Arbiters<u32> = Arbiters::new();
    assert!(arbiters.arbiter_names().is_none());
    assert!(arbiters.arbiter(&"WEB".to_string()).is_none());
    arbiters.register("WEB".to_string(), 1);
    assert_eq!(arbiters.arbiter_names().unwrap(), vec!["WEB".to_string()]);
    assert_eq!(arbiters.arbiter(&"WEB".to_string()), Some(&1));
    arbiters.register("DB".to_string(), 2);
    arbiters.register("WEB".to_string(), 3);
    assert_eq!(arbiters.arbiter_names().unwrap(), vec!["WEB".to_string(), "DB".to_string()]);
    assert_eq!(arbiters.arbiter(&"WEB".to_string()), Some(&3));
}

#[test]
fn app_build_msgs() {
    let mut app: App<String> = App::new();
    assert!(app.build().is_none());
    let id = app.instance_id();
    app.set_build("oysterpack-0.1.0".to_string());
    assert_eq!(app.build().unwrap(), "oysterpack-0.1.0");
    assert_eq!(app.instance_id(), id);
    assert_eq!(app.service_info().id(), Id(APP_SERVICE_ID));
}

#[test]
fn service_life_cycle_events() {
    let id = Id(FOO_EVENT_ID);
    let instance_id = InstanceId(BAR_EVENT_ID);
    let event = ServiceLifeCycleEvent::for_service(id, instance_id, ServiceLifeCycle::Started);
    assert_eq!(event.scope, Scope::Arbiter);
    assert_eq!(event.event_level(), Level::Info);
    assert_eq!(
        event.to_string(),
        format!("Arbiter Actor Service ({}:{}) Started", ulid_text(FOO_EVENT_ID), ulid_text(BAR_EVENT_ID))
    );
    let event = ServiceLifeCycleEvent::for_app_service(id, instance_id, ServiceLifeCycle::Restarting);
    assert_eq!(event.scope, Scope::System);
    assert_eq!(event.event_level(), Level::Warning);
    assert!(event.to_string().starts_with("System Actor Service ("));
    assert!(event.to_string().ends_with(") Restarting"));
    assert_eq!(ServiceLifeCycle::Stopping.event_id().0, STOPPING);
    assert_eq!(ServiceLifeCycle::ServiceStarted.name(), "ServiceStarted");
}

#[test]
fn app_life_cycle_events() {
    let event = AppLifeCycleEvent::started("oysterpack".to_string(), FOO_EVENT_ID);
    assert_eq!(event.state, AppLifeCycle::Started);
    assert_eq!(event.event_level(), Level::Info);
    assert_eq!(event.to_string(), format!("App(oysterpack)({}) Started", ulid_text(FOO_EVENT_ID)));
    let event = AppLifeCycleEvent::stopped("oysterpack".to_string(), FOO_EVENT_ID);
    assert_eq!(event.state, AppLifeCycle::Stopped);
    assert_eq!(AppLifeCycle::Stopped.event_id().0, APP_STOPPED);
    assert_eq!(AppLifeCycle::Started.event_id().0, APP_STARTED);
}

#[test]
fn service_info_and_ping() {
    let info = ServiceInfo::for_new_actor_instance(Id(7), ServiceType::ArbiterService);
    assert_eq!(info.id(), Id(7));
    assert_eq!(info.service_type(), ServiceType::ArbiterService);
    assert_eq!(info.created_on(), ulid::timestamp(info.instance_id().0));
    assert_ne!(InstanceId::generate(), InstanceId::generate());

    let pong = Pong::from_ping(Ping(1_000), 1_250);
    assert_eq!(pong.duration(), 250);
    assert_eq!(ArbiterName::new("WEB").name(), "WEB");
}

fn ulid_text(value: u128) -> String {
    rusty_ulid::Ulid::from(value).to_string()
}

/// Handles a request for the arbiter of `name` as the application's arbiters service does:
/// hands out the one started for the name, or registers `started` for it.
fn request_arbiter(arbiters: &mut Arbiters<u32>, name: &str, started: u32) -> u32 {
    match arbiters.arbiter(&name.to_string()) {
        Some(a) => *a,
        None => {
            arbiters.register(name.to_string(), started);
            started
        }
    }
}

#[test]
fn arbiter_requests_keep_the_first_arbiter_of_each_name() {
    let mut arbiters: Arbiters<u32> = Arbiters::default();
    assert!(arbiters.arbiter_names().is_none());
    assert_eq!(arbiters.service_info().id(), Id(oysterpack::actor::registry::ARBITERS_SERVICE_ID));
    assert_eq!(request_arbiter(&mut arbiters, "WEB", 1), 1);
    assert_eq!(arbiters.arbiter_names().unwrap(), vec!["WEB".to_string()]);
    assert_eq!(request_arbiter(&mut arbiters, "WEB", 2), 1);
    assert_eq!(request_arbiter(&mut arbiters, "DB", 3), 3);
    assert_eq!(request_arbiter(&mut arbiters, "WEB", 4), 1);
    assert_eq!(arbiters.arbiter_names().unwrap(), vec!["WEB".to_string(), "DB".to_string()]);
}

#[test]
fn default_event_log_registers_the_life_cycle_events() {
    let eventlog = EventLog::default();
    let mut ids = eventlog.registered_events();
    ids.sort();
    let mut expected = vec![SERVICE_STARTED, STARTED, STOPPING, STOPPED, RESTARTING, APP_STARTED, APP_STOPPED];
    expected.sort();
    assert_eq!(ids, expected);
    assert_eq!(eventlog.service_info().id(), Id(EVENTLOG_SERVICE_ID));
}
