//! Service and application life cycle events.
use crate::actor::{Id, InstanceId};
use crate::events::{self, Level};
use crate::text::push_str;
use crate::ulid;
use vstd::prelude::*;

verus! {

/// Service life cycle states.
#[derive(Clone, Copy, Debug, PartialEq, Eq, Structural, Hash)]
pub enum ServiceLifeCycle {
    /// Service has been started
    ServiceStarted,
    /// Actor has been started
    Started,
    /// Actor has been requested to stop
    Stopping,
    /// Supervised actors may be restarted when failures occur
    Restarting,
    /// This state is considered final and at this point actor get dropped.
    Stopped,
}

/// Service started EventId (01CX32ZXWW6Z5NKPHMFXB0Y9SV)
pub const SERVICE_STARTED: u128 = 1865458141241550241048255441954350907;
/// Actor started EventId (01CX32RTCRQCA3BZ592WAQX0HG)
pub const STARTED: u128 = 1865457859605975574382982648968413744;
/// Actor stopping EventId (01CX32TDDHQPT0049EMBTVHPGW)
pub const STOPPING: u128 = 1865457922771153115754426188305062428;
/// Supervised Actor restarting Event id (01CX32TSAAKSKRV97RPRJVVTDF)
pub const RESTARTING: u128 = 1865457937501766424200139812145850799;
/// Actor stopped EventId (01CX32VJ5NSW78JM82XM75C30S)
pub const STOPPED: u128 = 1865457968270367213097641946809502745;
/// App started EventId (01CX5XBDTGPKT502WY42EVKD42)
pub const APP_STARTED: u128 = 1865572685266217927843817693478761602;
/// App stopped EventId (01CX5XBT512FQVTNBY40CRCRH3)
pub const APP_STOPPED: u128 = 1865572700528146015116120354537759267;

/// The event id of each service life cycle state.
pub open spec fn service_event_id(s: ServiceLifeCycle) -> u128 {
    match s {
        ServiceLifeCycle::ServiceStarted => SERVICE_STARTED,
        ServiceLifeCycle::Started => STARTED,
        ServiceLifeCycle::Stopping => STOPPING,
        ServiceLifeCycle::Restarting => RESTARTING,
        ServiceLifeCycle::Stopped => STOPPED,
    }
}

impl ServiceLifeCycle {
    /// Maps a Service lifecycle event to an EventId
    pub fn event_id(&self) -> (r: events::Id)
        ensures
            r.0 == service_event_id(*self),
    {
        match self {
            ServiceLifeCycle::ServiceStarted => events::Id(SERVICE_STARTED),
            ServiceLifeCycle::Started => events::Id(STARTED),
            ServiceLifeCycle::Stopping => events::Id(STOPPING),
            ServiceLifeCycle::Restarting => events::Id(RESTARTING),
            ServiceLifeCycle::Stopped => events::Id(STOPPED),
        }
    }

    /// The state's name.
    pub fn name(&self) -> (r: &'static str)
        ensures
            r@ == service_state_name(*self),
    {
        match self {
            ServiceLifeCycle::ServiceStarted => "ServiceStarted",
            ServiceLifeCycle::Started => "Started",
            ServiceLifeCycle::Stopping => "Stopping",
            ServiceLifeCycle::Restarting => "Restarting",
            ServiceLifeCycle::Stopped => "Stopped",
        }
    }
}

/// The name of each service life cycle state.
pub open spec fn service_state_name(s: ServiceLifeCycle) -> Seq<char> {
    match s {
        ServiceLifeCycle::ServiceStarted => "ServiceStarted"@,
        ServiceLifeCycle::Started => "Started"@,
        ServiceLifeCycle::Stopping => "Stopping"@,
        ServiceLifeCycle::Restarting => "Restarting"@,
        ServiceLifeCycle::Stopped => "Stopped"@,
    }
}

/// Service life cycle events each have their own event id.
pub proof fn law_service_event_ids_distinct(a: ServiceLifeCycle, b: ServiceLifeCycle)
    requires
        a != b,
    ensures
        service_event_id(a) != service_event_id(b),
{
}

/// The scope of an actor service.
#[derive(Clone, Copy, Debug, PartialEq, Eq, Structural, Hash)]
pub enum Scope {
    /// The Actor service is scoped per Arbiter
    Arbiter,
    /// The Actor service is scoped per System
    System,
}

impl Scope {
    /// The scope's name.
    pub fn name(&self) -> (r: &'static str)
        ensures
            r@ == (if *self is Arbiter {
                "Arbiter"@
            } else {
                "System"@
            }),
    {
        match self {
            Scope::Arbiter => "Arbiter",
            Scope::System => "System",
        }
    }
}

/// A service life cycle event.
#[derive(Clone, Copy, Debug, PartialEq, Eq, Structural, Hash)]
pub struct ServiceLifeCycleEvent {
    /// the service id
    pub id: Id,
    /// the service instance id
    pub instance_id: InstanceId,
    /// the service scope
    pub scope: Scope,
    /// the life cycle state
    pub state: ServiceLifeCycle,
}

impl ServiceLifeCycleEvent {
    /// Constructs a new event for an arbiter scoped service
    pub fn for_service(id: Id, instance_id: InstanceId, state: ServiceLifeCycle) -> (r:
        ServiceLifeCycleEvent)
        ensures
            r == (ServiceLifeCycleEvent { id, instance_id, scope: Scope::Arbiter, state }),
    {
        ServiceLifeCycleEvent { id, instance_id, scope: Scope::Arbiter, state }
    }

    /// Constructs a new event for a system scoped service
    pub fn for_app_service(id: Id, instance_id: InstanceId, state: ServiceLifeCycle) -> (r:
        ServiceLifeCycleEvent)
        ensures
            r == (ServiceLifeCycleEvent { id, instance_id, scope: Scope::System, state }),
    {
        ServiceLifeCycleEvent { id, instance_id, scope: Scope::System, state }
    }

    /// The event as text: `<scope> Actor Service (<id>:<instance id>) <state>`, ids as ULIDs.
    pub fn to_string(&self) -> (r: String)
        ensures
            r@ == (if self.scope is Arbiter {
                "Arbiter"@
            } else {
                "System"@
            }) + " Actor Service ("@ + ulid::ulid_text(self.id.0) + ":"@ + ulid::ulid_text(
                self.instance_id.0,
            ) + ") "@ + service_state_name(self.state),
    {
        let mut r = String::new();
        push_str(&mut r, self.scope.name());
        push_str(&mut r, " Actor Service (");
        let t = ulid::text(self.id.0);
        push_str(&mut r, t.as_str());
        push_str(&mut r, ":");
        let t = ulid::text(self.instance_id.0);
        push_str(&mut r, t.as_str());
        push_str(&mut r, ") ");
        push_str(&mut r, self.state.name());
        r
    }

    /// Event severity level: a restart is a warning, every other state is information.
    pub fn event_level(&self) -> (r: Level)
        ensures
            r == (if self.state is Restarting {
                Level::Warning
            } else {
                Level::Info
            }),
    {
        match self.state {
            ServiceLifeCycle::Restarting => Level::Warning,
            _ => Level::Info,
        }
    }
}

/// Application life cycle states.
#[derive(Clone, Copy, Debug, PartialEq, Eq, Structural, Hash)]
pub enum AppLifeCycle {
    /// Actor System has been started
    Started,
    /// Actor system has been stopped
    Stopped,
}

impl AppLifeCycle {
    /// The state's name.
    pub fn name(&self) -> (r: &'static str)
        ensures
            r@ == (if *self is Started {
                "Started"@
            } else {
                "Stopped"@
            }),
    {
        match self {
            AppLifeCycle::Started => "Started",
            AppLifeCycle::Stopped => "Stopped",
        }
    }

    /// Returns the Event Id for the corresponding app lifecycle state
    pub fn event_id(&self) -> (r: events::Id)
        ensures
            r.0 == (if *self is Started {
                APP_STARTED
            } else {
                APP_STOPPED
            }),
    {
        match self {
            AppLifeCycle::Started => events::Id(APP_STARTED),
            AppLifeCycle::Stopped => events::Id(APP_STOPPED),
        }
    }
}

/// An application life cycle event: the application's package, instance and state.
pub struct AppLifeCycleEvent {
    /// the package id
    pub package_id: String,
    /// the application instance id (a ULID)
    pub instance_id: u128,
    /// the state
    pub state: AppLifeCycle,
}

impl AppLifeCycleEvent {
    /// constructor
    pub fn new(package_id: String, instance_id: u128, state: AppLifeCycle) -> (r: AppLifeCycleEvent)
        ensures
            r.package_id@ == package_id@,
            r.instance_id == instance_id,
            r.state == state,
    {
        AppLifeCycleEvent { package_id, instance_id, state }
    }

    /// Constructs a new AppLifeCycleEvent for AppLifeCycle::Started
    pub fn started(package_id: String, instance_id: u128) -> (r: AppLifeCycleEvent)
        ensures
            r.package_id@ == package_id@,
            r.instance_id == instance_id,
            r.state == AppLifeCycle::Started,
    {
        AppLifeCycleEvent::new(package_id, instance_id, AppLifeCycle::Started)
    }

    /// Constructs a new AppLifeCycleEvent for AppLifeCycle::Stopped
    pub fn stopped(package_id: String, instance_id: u128) -> (r: AppLifeCycleEvent)
        ensures
            r.package_id@ == package_id@,
            r.instance_id == instance_id,
            r.state == AppLifeCycle::Stopped,
    {
        AppLifeCycleEvent::new(package_id, instance_id, AppLifeCycle::Stopped)
    }

    /// The event as text: `App(<package id>)(<instance id>) <state>`, the instance id as a ULID.
    pub fn to_string(&self) -> (r: String)
        ensures
            r@ == "App("@ + self.package_id@ + ")("@ + ulid::ulid_text(self.instance_id) + ") "@ + (
            if self.state is Started {
                "Started"@
            } else {
                "Stopped"@
            }),
    {
        let mut r = String::new();
        push_str(&mut r, "App(");
        push_str(&mut r, self.package_id.as_str());
        push_str(&mut r, ")(");
        let t = ulid::text(self.instance_id);
        push_str(&mut r, t.as_str());
        push_str(&mut r, ") ");
        push_str(&mut r, self.state.name());
        r
    }

    /// Event severity level
    pub fn event_level(&self) -> (r: Level)
        ensures
            r == Level::Info,
    {
        Level::Info
    }
}

} // verus!
