//! Events: an event id, when the event occurred, a unique instance id, and the event data.
use crate::ulid;
use vstd::prelude::*;

verus! {

/// Event ids are defined as constants. They identify the type of event.
#[derive(Clone, Copy, Debug, PartialEq, Eq, Structural, Hash)]
pub struct Id(pub u128);

/// Marker for event instances.
pub struct Instance;

/// Event severity, most severe first.
#[derive(Clone, Copy, Debug, PartialEq, Eq, Structural, Hash)]
pub enum SeverityLevel {
    /// System is unusable. A panic condition.
    Emergency,
    /// Action must be taken immediately.
    Alert,
    /// Critical conditions
    Critical,
    /// Error conditions
    Error,
    /// Warning conditions
    Warning,
    /// Normal but significant conditions.
    Notice,
    /// Informational messages
    Info,
    /// Debug-level messages.
    Debug,
}

/// An event.
pub struct Event<Data> {
    id: Id,
    timestamp: i128,
    instance_id: u128,
    data: Data,
}

impl<Data> Event<Data> {
    /// The event id.
    pub closed spec fn spec_id(&self) -> Id {
        self.id
    }

    /// The event data.
    pub closed spec fn spec_data(&self) -> Data {
        self.data
    }

    /// When the event occurred.
    pub closed spec fn spec_timestamp(&self) -> i128 {
        self.timestamp
    }

    /// The instance id.
    pub closed spec fn spec_instance_id(&self) -> u128 {
        self.instance_id
    }

    /// Constructor: the event occurs now, with a new instance id.
    pub fn new(id: Id, data: Data) -> (r: Event<Data>)
        ensures
            r.spec_id() == id,
            r.spec_data() == data,
            crate::message::deadline::is_clock_reading(r.spec_timestamp() as int),
    {
        Event {
            id,
            timestamp: crate::message::deadline::now_nanos(),
            instance_id: crate::uid::uid(),
            data,
        }
    }

    /// Returns the Event Id
    pub fn id(&self) -> (r: Id)
        ensures
            r == self.spec_id(),
    {
        self.id
    }

    /// Returns when the event occurred, in nanoseconds since the UNIX epoch.
    pub fn timestamp(&self) -> (r: i128)
        ensures
            r == self.spec_timestamp(),
    {
        self.timestamp
    }

    /// Each event instance is assigned a unique id for tracking purposes.
    pub fn instance_id(&self) -> (r: u128)
        ensures
            r == self.spec_instance_id(),
    {
        self.instance_id
    }

    /// Returns the event data
    pub fn data(&self) -> (r: &Data)
        ensures
            *r == self.spec_data(),
    {
        &self.data
    }
}

} // verus!
