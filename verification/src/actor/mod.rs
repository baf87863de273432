//! Services: their identity and type, service messages, arbiter names, and the registries
//! that the application's services keep.
pub mod events;
pub mod registry;

use crate::ulid;
use crate::message::deadline::{is_clock_reading, now_nanos};
use vstd::prelude::*;

verus! {

/// The type of a service: scoped per arbiter, or per system.
#[derive(Clone, Copy, Debug, PartialEq, Eq, Structural, Hash)]
pub enum ServiceType {
    /// Actor is an ArbiterService
    ArbiterService,
    /// Actor is a SystemService
    SystemService,
}

/// Service identifier (a ULID).
#[derive(Clone, Copy, Debug, PartialEq, Eq, Structural, Hash, PartialOrd, Ord)]
pub struct Id(pub u128);

/// Service instance identifier (a ULID).
#[derive(Clone, Copy, Debug, PartialEq, Eq, Structural, Hash, PartialOrd, Ord)]
pub struct InstanceId(pub u128);

impl InstanceId {
    /// generates a new instance id
    pub fn generate() -> (r: InstanceId) {
        InstanceId(crate::uid::uid())
    }
}

/// A service's display name.
pub trait DisplayName {
    /// name getter
    fn name() -> &'static str;
}

/// Service information: id, instance id and type.
#[derive(Clone, Copy, Debug, PartialEq, Eq, Structural, Hash)]
pub struct ServiceInfo {
    id: Id,
    instance_id: InstanceId,
    service_type: ServiceType,
}

impl ServiceInfo {
    /// The service id.
    pub closed spec fn spec_id(&self) -> Id {
        self.id
    }

    /// The instance id.
    pub closed spec fn spec_instance_id(&self) -> InstanceId {
        self.instance_id
    }

    /// The service type.
    pub closed spec fn spec_service_type(&self) -> ServiceType {
        self.service_type
    }

    /// constructor which is meant to be used for new Actor instances: a new instance id.
    pub fn for_new_actor_instance(id: Id, service_type: ServiceType) -> (r: ServiceInfo)
        ensures
            r.spec_id() == id,
            r.spec_service_type() == service_type,
    {
        ServiceInfo { id, instance_id: InstanceId::generate(), service_type }
    }

    /// Returns the Actor Id
    pub fn id(&self) -> (r: Id)
        ensures
            r == self.spec_id(),
    {
        self.id
    }

    /// Returns the Actor InstanceId
    pub fn instance_id(&self) -> (r: InstanceId)
        ensures
            r == self.spec_instance_id(),
    {
        self.instance_id
    }

    /// When the actor was created: milliseconds since the UNIX epoch, from the instance id.
    pub fn created_on(&self) -> (r: u64)
        ensures
            r == ulid::ulid_timestamp(self.spec_instance_id().0),
    {
        ulid::timestamp(self.instance_id.0)
    }

    /// ServiceType getter
    pub fn service_type(&self) -> (r: ServiceType)
        ensures
            r == self.spec_service_type(),
    {
        self.service_type
    }
}

/// Request for a service's information.
#[derive(Clone, Copy, Debug)]
pub struct GetServiceInfo;

/// Heartbeat request.
#[derive(Clone, Copy, Debug)]
pub struct Heartbeat;

/// Request for a service's client.
#[derive(Clone, Copy, Debug)]
pub struct GetServiceClient;

/// Request for a service's display name.
#[derive(Clone, Copy, Debug)]
pub struct GetDisplayName;

/// Request for the name of the arbiter that a service runs in.
#[derive(Clone, Copy, Debug)]
pub struct GetArbiterName;

/// The name of an arbiter.
pub struct ArbiterName(String);

impl ArbiterName {
    /// The name.
    pub closed spec fn spec_name(&self) -> Seq<char> {
        self.0@
    }

    /// constructor
    pub fn new(name: &str) -> (r: ArbiterName)
        ensures
            r.spec_name() == name@,
    {
        ArbiterName(name.to_owned())
    }

    /// name getter
    pub fn name(&self) -> (r: &str)
        ensures
            r@ == self.spec_name(),
    {
        self.0.as_str()
    }
}

/// A ping: when it was sent, in nanoseconds since the UNIX epoch.
#[derive(Clone, Copy, Debug, PartialEq, Eq, Structural, Hash)]
pub struct Ping(pub i128);

impl Ping {
    /// A ping sent now.
    pub fn new() -> (r: Ping)
        ensures
            is_clock_reading(r.0 as int),
    {
        Ping(now_nanos())
    }

    /// When the Ping was created, in nanoseconds since the UNIX epoch.
    pub fn timestamp(&self) -> (r: i128)
        ensures
            r == self.0,
    {
        self.0
    }
}

/// The reply to a ping: the ping, and when it was received.
#[derive(Clone, Copy, Debug, PartialEq, Eq, Structural, Hash)]
pub struct Pong {
    /// the ping
    pub ping: Ping,
    /// when the ping was received, in nanoseconds since the UNIX epoch
    pub received: i128,
}

impl Pong {
    /// The reply to `ping`, received at `received`.
    pub fn from_ping(ping: Ping, received: i128) -> (r: Pong)
        ensures
            r.ping == ping,
            r.received == received,
    {
        Pong { ping, received }
    }

    /// The Ping request that this Pong is responding to
    pub fn ping(&self) -> (r: Ping)
        ensures
            r == self.ping,
    {
        self.ping
    }

    /// When the Ping was received, in nanoseconds since the UNIX epoch.
    pub fn ping_received_timestamp(&self) -> (r: i128)
        ensures
            r == self.received,
    {
        self.received
    }

    /// how long it took to receive the Ping, in nanoseconds
    pub fn duration(&self) -> (r: i128)
        requires
            i128::MIN <= self.received - self.ping.0 <= i128::MAX,
        ensures
            r == self.received - self.ping.0,
    {
        self.received - self.ping.0
    }
}

} // verus!
