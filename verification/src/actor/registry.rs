//! The state that the application's services keep: the application itself, its event log,
//! and its arbiters.
use crate::actor::{Id, ServiceInfo, ServiceType};
use crate::actor::events::{
    APP_STARTED, APP_STOPPED, RESTARTING, SERVICE_STARTED, STARTED, STOPPED, STOPPING,
};
use crate::registry::{Key, Registry};
use std::collections::HashSet;
use crate::ulid;
use vstd::prelude::*;

verus! {

/// The application service id.
pub const APP_SERVICE_ID: u128 = 1865558955258922375120216715788699466;

/// The event log service id.
pub const EVENTLOG_SERVICE_ID: u128 = 1865602198802033292836235027287714127;

/// The arbiters service id.
pub const ARBITERS_SERVICE_ID: u128 = 1865070194757304474174751345022876889;

/// The logger service id.
pub const LOGGER_SERVICE_ID: u128 = 1865243759930187031543830440471307781;

/// Request for the application's build.
#[derive(Clone, Copy, Debug)]
pub struct GetBuild;

/// Request to stop the application.
#[derive(Clone, Copy, Debug)]
pub struct StopApp;

/// Request for the application's instance id.
#[derive(Clone, Copy, Debug)]
pub struct GetInstanceId;

/// Request to register event ids with the event log.
pub struct RegisterEvents(pub Vec<u128>);

/// Request for the event ids that the event log has registered.
#[derive(Clone, Copy, Debug)]
pub struct GetRegisteredEvents;

/// The application: its instance id and, once it is set, its build.
pub struct App<B> {
    instance_id: u128,
    build: Option<B>,
    service_info: ServiceInfo,
}

impl<B> App<B> {
    /// The build.
    pub closed spec fn spec_build(&self) -> Option<B> {
        self.build
    }

    /// The service is the application service.
    pub closed spec fn wf(&self) -> bool {
        &&& self.service_info.spec_id() == Id(APP_SERVICE_ID)
        &&& self.service_info.spec_service_type() == ServiceType::SystemService
    }

    /// The instance id.
    pub closed spec fn spec_instance_id(&self) -> u128 {
        self.instance_id
    }

    /// A new application instance, with no build.
    pub fn new() -> (r: App<B>)
        ensures
            r.wf(),
            r.spec_build() is None,
    {
        App {
            instance_id: crate::uid::uid(),
            build: None,
            service_info: ServiceInfo::for_new_actor_instance(Id(APP_SERVICE_ID), ServiceType::SystemService),
        }
    }

    /// Stores the build.
    pub fn set_build(&mut self, build: B)
        requires
            old(self).wf(),
        ensures
            final(self).wf(),
            final(self).spec_build() == Some(build),
            final(self).spec_instance_id() == old(self).spec_instance_id(),
    {
        self.build = Some(build);
    }

    /// The build, once it is set.
    pub fn build(&self) -> (r: Option<&B>)
        ensures
            r is Some <==> self.spec_build() is Some,
            r matches Some(b) ==> *b == self.spec_build()->0,
    {
        match &self.build {
            Some(b) => Some(b),
            None => None,
        }
    }

    /// The application instance id.
    pub fn instance_id(&self) -> (r: u128)
        ensures
            r == self.spec_instance_id(),
    {
        self.instance_id
    }

    /// The application's service information: the application service id, a system service.
    pub fn service_info(&self) -> (r: ServiceInfo)
        requires
            self.wf(),
        ensures
            r.spec_id() == Id(APP_SERVICE_ID),
            r.spec_service_type() == ServiceType::SystemService,
    {
        self.service_info
    }
}

/// The event ids that an event log registers from the start: the service and application
/// life cycle events.
pub open spec fn initial_events() -> Set<u128> {
    set![SERVICE_STARTED, STARTED, STOPPING, STOPPED, RESTARTING, APP_STARTED, APP_STOPPED]
}

/// The event log: which event ids are registered. Events of unregistered ids are logged as
/// unregistered.
pub struct EventLog {
    service_info: ServiceInfo,
    registered_events: HashSet<u128>,
}

impl EventLog {
    /// The registered event ids.
    pub closed spec fn registered(&self) -> Set<u128> {
        self.registered_events@
    }

    /// The service is the event log service.
    pub closed spec fn wf(&self) -> bool {
        &&& self.service_info.spec_id() == Id(EVENTLOG_SERVICE_ID)
        &&& self.service_info.spec_service_type() == ServiceType::SystemService
    }

    /// An event log with the service and application life cycle events registered.
    pub fn new() -> (r: EventLog)
        ensures
            r.wf(),
            r.registered() == initial_events(),
    {
        broadcast use vstd::std_specs::hash::group_hash_axioms;

        let mut events: HashSet<u128> = HashSet::new();
        events.insert(SERVICE_STARTED);
        events.insert(STARTED);
        events.insert(STOPPING);
        events.insert(STOPPED);
        events.insert(RESTARTING);
        events.insert(APP_STARTED);
        events.insert(APP_STOPPED);
        let r = EventLog {
            service_info: ServiceInfo::for_new_actor_instance(Id(EVENTLOG_SERVICE_ID), ServiceType::SystemService),
            registered_events: events,
        };
        assert(r.registered() =~= initial_events());
        r
    }

    /// Registers the event ids.
    pub fn register_events(&mut self, ids: &[u128])
        requires
            old(self).wf(),
        ensures
            final(self).wf(),
            final(self).registered() == old(self).registered() + ids@.to_set(),
    {
        broadcast use vstd::std_specs::hash::group_hash_axioms;

        let mut i: usize = 0;
        while i < ids.len()
            invariant
                i <= ids@.len(),
                self.wf(),
                self.registered() =~= old(self).registered() + ids@.subrange(0, i as int).to_set(),
            decreases ids@.len() - i,
        {
            self.registered_events.insert(ids[i]);
            proof {
                assert(ids@.subrange(0, i + 1) =~= ids@.subrange(0, i as int).push(ids@[i as int]));
                ids@.subrange(0, i as int).lemma_push_to_set_commute(ids@[i as int]);
            }
            i = i + 1;
        }
        assert(ids@.subrange(0, ids@.len() as int) =~= ids@);
    }

    /// Whether the event id is registered: a logged event of this id is logged as registered.
    pub fn is_registered(&self, id: u128) -> (r: bool)
        requires
            self.wf(),
        ensures
            r == self.registered().contains(id),
    {
        broadcast use vstd::std_specs::hash::group_hash_axioms;

        self.registered_events.contains(&id)
    }

    /// The registered event ids, each once.
    pub fn registered_events(&self) -> (r: Vec<u128>)
        requires
            self.wf(),
        ensures
            r@.to_set() == self.registered(),
            r@.no_duplicates(),
    {
        crate::events::set_elements(&self.registered_events)
    }

    /// The event log's service information: the event log service id, a system service.
    pub fn service_info(&self) -> (r: ServiceInfo)
        requires
            self.wf(),
        ensures
            r.spec_id() == Id(EVENTLOG_SERVICE_ID),
            r.spec_service_type() == ServiceType::SystemService,
    {
        self.service_info
    }
}

impl Default for EventLog {
    /// An event log with the service and application life cycle events registered.
    fn default() -> (r: EventLog)
        ensures
            r.wf(),
            r.registered() == initial_events(),
    {
        EventLog::new()
    }
}

/// Registering events never unregisters one: after `register_events`, which leaves the
/// registered ids as `before.registered() + ids.to_set()`, every id that was registered, and
/// every id that was just registered, is registered; no other id is.
pub proof fn law_registration_grows(before: EventLog, ids: Seq<u128>, id: u128)
    ensures
        (before.registered() + ids.to_set()).contains(id) <==> (before.registered().contains(id)
            || ids.contains(id)),
{
}

/// The arbiters that the application has started, by name.
pub struct Arbiters<A> {
    service_info: ServiceInfo,
    arbiters: Registry<String, A>,
}

impl<A> Arbiters<A> {
    /// The arbiter of each name.
    pub closed spec fn view(&self) -> Map<Seq<char>, A> {
        self.arbiters.view()
    }

    /// The names, in the order the arbiters were started.
    pub closed spec fn names(&self) -> Seq<Seq<char>> {
        self.arbiters.keys()
    }

    /// The arbiters service's information.
    pub closed spec fn spec_service_info(&self) -> ServiceInfo {
        self.service_info
    }

    /// The registry is well formed.
    pub closed spec fn wf(&self) -> bool {
        self.arbiters.wf()
    }

    /// No arbiters; the service information of a new arbiters service instance.
    pub fn new() -> (r: Arbiters<A>)
        ensures
            r.wf(),
            r.view() == Map::<Seq<char>, A>::empty(),
            r.names() == Seq::<Seq<char>>::empty(),
            r.spec_service_info().spec_id() == Id(ARBITERS_SERVICE_ID),
            r.spec_service_info().spec_service_type() == ServiceType::SystemService,
    {
        Arbiters {
            service_info: ServiceInfo::for_new_actor_instance(Id(ARBITERS_SERVICE_ID), ServiceType::SystemService),
            arbiters: Registry::new(),
        }
    }

    /// The arbiter of the name, when it has been started. When it has not, the application
    /// starts one and registers it.
    pub fn arbiter(&self, name: &String) -> (r: Option<&A>)
        requires
            self.wf(),
        ensures
            r is Some <==> self.view().dom().contains(name@),
            r matches Some(a) ==> *a == self.view()[name@],
    {
        self.arbiters.get(name)
    }

    /// Registers an arbiter that was started for the name.
    pub fn register(&mut self, name: String, arbiter: A)
        requires
            old(self).wf(),
        ensures
            final(self).wf(),
            final(self).view() == old(self).view().insert(name@, arbiter),
            old(self).view().dom().contains(name@) ==> final(self).names() == old(self).names(),
            !old(self).view().dom().contains(name@) ==> final(self).names() == old(self).names().push(name@),
            final(self).spec_service_info() == old(self).spec_service_info(),
    {
        proof {
            self.arbiters.lemma_keys();
        }
        self.arbiters.insert(name, arbiter);
    }

    /// The arbiters service's information.
    pub fn service_info(&self) -> (r: ServiceInfo)
        ensures
            r == self.spec_service_info(),
    {
        self.service_info
    }

    /// The names of the arbiters that have been started; none when no arbiter has been.
    pub fn arbiter_names(&self) -> (r: Option<Vec<String>>)
        requires
            self.wf(),
        ensures
            r is None <==> self.view().dom().is_empty(),
            r matches Some(v) ==> v@.map_values(|s: String| s@) == self.names(),
            r matches Some(v) ==> v@.map_values(|s: String| s@).to_set() == self.view().dom(),
            r matches Some(v) ==> v@.map_values(|s: String| s@).no_duplicates(),
    {
        proof {
            self.arbiters.lemma_keys();
        }
        if self.arbiters.is_empty() {
            assert(self.view().dom() =~= Set::<Seq<char>>::empty());
            return None;
        }
        let keys = self.arbiters.key_list();
        let mut r: Vec<String> = Vec::new();
        let mut i: usize = 0;
        while i < keys.len()
            invariant
                i <= keys@.len(),
                keys@.map_values(|k: &String| k.plain()) == self.arbiters.keys(),
                r@.map_values(|s: String| s@) =~= self.arbiters.keys().subrange(0, i as int),
            decreases keys@.len() - i,
        {
            let ghost before = r@;
            let name = keys[i].clone();
            r.push(name);
            assert(r@.map_values(|s: String| s@) =~= before.map_values(|s: String| s@).push(keys@[i as int]@));
            i = i + 1;
        }
        assert(self.arbiters.keys().subrange(0, keys@.len() as int) =~= self.arbiters.keys());
        assert(self.names().len() > 0);
        assert(self.view().dom().contains(self.names()[0]));
        proof {
            self.arbiters.lemma_keys_unique();
        }
        Some(r)
    }
}

impl<A> Default for Arbiters<A> {
    /// No arbiters; the service information of a new arbiters service instance.
    fn default() -> (r: Arbiters<A>)
        ensures
            r.wf(),
            r.view() == Map::<Seq<char>, A>::empty(),
            r.names() == Seq::<Seq<char>>::empty(),
            r.spec_service_info().spec_id() == Id(ARBITERS_SERVICE_ID),
            r.spec_service_info().spec_service_type() == ServiceType::SystemService,
    {
        Arbiters::new()
    }
}

/// The distinct names of a run of arbiter requests, in the order of their first request.
pub open spec fn first_requests(names: Seq<Seq<char>>) -> Seq<Seq<char>>
    decreases names.len(),
{
    if names.len() == 0 {
        seq![]
    } else {
        let init = first_requests(names.drop_last());
        if init.contains(names.last()) {
            init
        } else {
            init.push(names.last())
        }
    }
}

/// One request for the arbiter of `name`: an arbiter that was started for the name is handed
/// out and nothing changes; otherwise `started`, a new arbiter, is registered for it (see
/// [`Arbiters::arbiter`] and [`Arbiters::register`]).
pub open spec fn arbiter_request<A>(before: Arbiters<A>, name: Seq<char>, started: A, after: Arbiters<A>) -> bool {
    if before.view().dom().contains(name) {
        after.view() == before.view() && after.names() == before.names()
    } else {
        after.view() == before.view().insert(name, started) && after.names() == before.names().push(name)
    }
}

/// A run of arbiter requests that starts with no arbiter.
pub open spec fn arbiter_run<A>(states: Seq<Arbiters<A>>, names: Seq<Seq<char>>, started: Seq<A>) -> bool {
    &&& states.len() == names.len() + 1
    &&& started.len() == names.len()
    &&& states[0].view() == Map::<Seq<char>, A>::empty()
    &&& states[0].names() == Seq::<Seq<char>>::empty()
    &&& forall|i: int| 0 <= i < names.len() ==> arbiter_request(#[trigger] states[i], names[i], started[i], states[i + 1])
}

proof fn lemma_first_requests_to_set(names: Seq<Seq<char>>)
    ensures
        first_requests(names).to_set() == names.to_set(),
    decreases names.len(),
{
    if names.len() == 0 {
        assert(names.to_set() =~= Set::<Seq<char>>::empty());
        assert(first_requests(names).to_set() =~= Set::<Seq<char>>::empty());
    } else {
        let init = names.drop_last();
        lemma_first_requests_to_set(init);
        assert(names =~= init.push(names.last()));
        init.lemma_push_to_set_commute(names.last());
        first_requests(init).lemma_push_to_set_commute(names.last());
        if first_requests(init).contains(names.last()) {
            assert(first_requests(init).to_set().contains(names.last()));
            assert(names.to_set() =~= init.to_set());
        }
    }
}

proof fn lemma_arbiter_run_prefix<A>(states: Seq<Arbiters<A>>, names: Seq<Seq<char>>, started: Seq<A>)
    requires
        arbiter_run(states, names, started),
        names.len() > 0,
    ensures
        arbiter_run(states.drop_last(), names.drop_last(), started.drop_last()),
{
    let init = states.drop_last();
    assert forall|i: int| 0 <= i < names.drop_last().len() implies arbiter_request(
        #[trigger] init[i],
        names.drop_last()[i],
        started.drop_last()[i],
        init[i + 1],
    ) by {
        assert(arbiter_request(states[i], names[i], started[i], states[i + 1]));
    }
}

/// Arbiters handed out by name, over a run of requests that starts with no arbiter: the names
/// (as [`Arbiters::arbiter_names`] gives them) are the distinct names requested, in the order
/// of their first request, so there are none exactly when nothing was requested.
pub proof fn law_arbiter_requests<A>(states: Seq<Arbiters<A>>, names: Seq<Seq<char>>, started: Seq<A>)
    requires
        arbiter_run(states, names, started),
    ensures
        states.last().names() == first_requests(names),
        states.last().view().dom() == names.to_set(),
        states.last().view().dom().is_empty() <==> names.len() == 0,
    decreases names.len(),
{
    if names.len() == 0 {
        assert(names.to_set() =~= Set::<Seq<char>>::empty());
        assert(states.last().view().dom() =~= Set::<Seq<char>>::empty());
    } else {
        let k = names.len() - 1;
        let init = names.drop_last();
        lemma_arbiter_run_prefix(states, names, started);
        law_arbiter_requests(states.drop_last(), init, started.drop_last());
        lemma_first_requests_to_set(init);
        assert(states.drop_last().last() == states[k]);
        assert(arbiter_request(states[k], names[k], started[k], states[k + 1]));
        assert(names =~= init.push(names[k]));
        init.lemma_push_to_set_commute(names[k]);
        assert(states[k].view().dom().contains(names[k]) <==> first_requests(init).to_set().contains(names[k]));
        assert(states.last().view().dom().contains(names[k]));
    }
}

/// A name keeps the arbiter that was first started for it: over a run of requests, an arbiter
/// that is registered for a name is the one that every later state has for it.
pub proof fn law_arbiter_kept<A>(
    states: Seq<Arbiters<A>>,
    names: Seq<Seq<char>>,
    started: Seq<A>,
    i: int,
    j: int,
    n: Seq<char>,
)
    requires
        arbiter_run(states, names, started),
        0 <= i <= j < states.len(),
        states[i].view().dom().contains(n),
    ensures
        states[j].view().dom().contains(n),
        states[j].view()[n] == states[i].view()[n],
    decreases j - i,
{
    if i < j {
        law_arbiter_kept(states, names, started, i, j - 1, n);
        assert(arbiter_request(states[j - 1], names[j - 1], started[j - 1], states[j]));
    }
}

} // verus!
