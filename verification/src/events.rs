//! Event classification: severity levels, event identifiers and source locations.
use std::collections::HashSet;
use crate::text::{decimal, push_str, render_digits};
use crate::ulid;
use vstd::prelude::*;
use vstd::string::*;

verus! {

/// Event identifiers are defined as constants. They uniquely identify the event class, i.e.,
/// the logical event. ULIDs are the convention.
#[derive(Clone, Copy, Debug, PartialEq, Eq, Structural, Hash)]
pub struct Id(pub u128);

impl Id {
    /// constructor
    pub fn new(value: u128) -> (r: Id)
        ensures
            r.0 == value,
    {
        Id(value)
    }
}

/// Marker for event instances.
pub struct Instance;

/// Event severity level; higher priority comes first.
#[derive(Clone, Copy, Debug, PartialEq, Eq, Structural, Hash, PartialOrd, Ord)]
pub enum Level {
    /// System is unusable. A panic condition.
    Emergency,
    /// Action must be taken immediately.
    Alert,
    /// Critical conditions
    Critical,
    /// Error conditions
    Error,
    /// Warning conditions
    Warning,
    /// Normal but significant conditions.
    Notice,
    /// Informational messages
    Info,
    /// Debug-level messages.
    Debug,
}

impl Level {
    /// The rank of the level: 0 for the highest priority (`Emergency`), 7 for `Debug`.
    pub open spec fn rank(self) -> int {
        match self {
            Level::Emergency => 0,
            Level::Alert => 1,
            Level::Critical => 2,
            Level::Error => 3,
            Level::Warning => 4,
            Level::Notice => 5,
            Level::Info => 6,
            Level::Debug => 7,
        }
    }

    /// Returns true if the level indicates the event is error related
    pub fn is_error(self) -> (r: bool)
        ensures
            r == (self.rank() <= 3),
    {
        match self {
            Level::Error | Level::Critical | Level::Alert | Level::Emergency => true,
            _ => false,
        }
    }

    /// Returns true if this level is of a higher priority than `other`.
    pub fn is_higher_priority_than(self, other: Level) -> (r: bool)
        ensures
            r == (self.rank() < other.rank()),
    {
        self.index() < other.index()
    }

    fn index(self) -> (r: u8)
        ensures
            r == self.rank(),
    {
        match self {
            Level::Emergency => 0,
            Level::Alert => 1,
            Level::Critical => 2,
            Level::Error => 3,
            Level::Warning => 4,
            Level::Notice => 5,
            Level::Info => 6,
            Level::Debug => 7,
        }
    }
}

/// Where in the source code an event was created.
#[derive(Debug)]
pub struct ModuleSource {
    path: String,
    line: u32,
}

/// Whether the characters at `k` and `k + 1` of `s` are the module separator `::`.
pub open spec fn separator_at(s: Seq<char>, k: int) -> bool {
    0 <= k && k + 1 < s.len() && s[k] == ':' && s[k + 1] == ':'
}

/// Whether `k` is the position of the first `::` separator in `s`, or its length when there is
/// none.
pub open spec fn first_separator(s: Seq<char>, k: int) -> bool {
    &&& 0 <= k <= s.len()
    &&& (k == s.len() || separator_at(s, k))
    &&& forall|j: int| 0 <= j < k ==> !#[trigger] separator_at(s, j)
}

/// The text of a source location: the module path, a colon and the line number.
pub open spec fn module_source_text(mod_path: Seq<char>, line: u32) -> Seq<char> {
    mod_path + seq![':'] + decimal(line as nat)
}

impl ModuleSource {
    /// The module path.
    pub closed spec fn path(&self) -> Seq<char> {
        self.path@
    }

    /// The line number.
    pub closed spec fn line_number(&self) -> u32 {
        self.line
    }

    /// constructor - use the module path and line macros provided by rust.
    pub fn new(mod_path: &str, line: u32) -> (r: ModuleSource)
        ensures
            r.path() == mod_path@,
            r.line_number() == line,
    {
        ModuleSource { path: mod_path.to_owned(), line }
    }

    /// refers source code line number
    pub fn line(&self) -> (r: u32)
        ensures
            r == self.line_number(),
    {
        self.line
    }

    /// refers to the source code module path
    pub fn mod_path(&self) -> (r: &str)
        ensures
            r@ == self.path(),
    {
        self.path.as_str()
    }

    /// returns the crate name, which is extracted from the module path: the text before the
    /// first `::`, or the whole path when it has none.
    pub fn crate_name(&self) -> (r: &str)
        ensures
            exists|k: int| first_separator(self.path(), k) && r@ == self.path().subrange(0, k),
    {
        let s = self.path.as_str();
        let n = s.unicode_len();
        let mut k: usize = 0;
        while k < n
            invariant
                n == self.path().len(),
                s@ == self.path(),
                k <= n,
                forall|j: int| 0 <= j < k ==> !#[trigger] separator_at(self.path(), j),
            decreases n - k,
        {
            if k + 1 < n && s.get_char(k) == ':' && s.get_char(k + 1) == ':' {
                assert(first_separator(self.path(), k as int));
                return s.substring_char(0, k);
            }
            k = k + 1;
        }
        assert(first_separator(self.path(), n as int));
        s.substring_char(0, n)
    }

    /// The location as text: `path:line`.
    pub fn to_string(&self) -> (r: String)
        ensures
            r@ == module_source_text(self.path(), self.line_number()),
    {
        let mut r = String::new();
        push_str(&mut r, self.path.as_str());
        push_str(&mut r, ":");
        let digits = render_digits(self.line as u128, 10);
        push_str(&mut r, digits.as_str());
        proof {
            reveal_strlit(":");
        }
        r
    }
}

impl Clone for ModuleSource {
    fn clone(&self) -> (r: ModuleSource)
        ensures
            r.path() == self.path(),
            r.line_number() == self.line_number(),
    {
        ModuleSource { path: self.path.clone(), line: self.line }
    }
}

/// The elements of a set of ids, each once.
pub fn set_elements(s: &HashSet<u128>) -> (r: Vec<u128>)
    ensures
        r@.to_set() == s@,
        r@.no_duplicates(),
{
    broadcast use vstd::std_specs::hash::group_hash_axioms;

    let mut r: Vec<u128> = Vec::new();
    let iter = s.iter();
    assert(vstd::std_specs::iter::IteratorSpec::remaining(&iter).unref().to_set() == s@);
    assert(vstd::std_specs::iter::IteratorSpec::remaining(&iter).unref().no_duplicates());
    let ghost all = vstd::std_specs::iter::IteratorSpec::remaining(&iter).unref();
    for x in it: iter
        invariant
            r@ == it.seq().take(it.index() as int).unref(),
            it.seq().unref() == all,
        ensures
            r@ == all,
    {
        r.push(*x);
        proof {
            assert(it.seq().take(it.index() + 1).unref() =~= it.seq().take(it.index() as int).unref().push(
                *it.seq()[it.index() as int],
            ));
        }
    }
    proof {
        assert(r@ =~= all);
    }
    r
}

/// Event data: each kind of event has an id and a severity level.
pub trait Eventful: Sized {
    /// Event Id
    const EVENT_ID: Id;

    /// Event severity level
    const EVENT_LEVEL: Level;

    /// Event constructor: an event of this kind, with the data.
    fn new_event(data: Self, mod_src: ModuleSource) -> (r: Event<Self>)
        ensures
            r.spec_id() == Self::EVENT_ID,
            r.spec_level() == Self::EVENT_LEVEL,
            r.spec_data() == data,
            r.spec_source() == (mod_src.path(), mod_src.line_number()),
            r.spec_tags() is None,
    {
        Event {
            id: Self::EVENT_ID,
            level: Self::EVENT_LEVEL,
            instance_id: crate::uid::uid(),
            data,
            mod_src,
            tag_ids: None,
        }
    }
}

/// An event: its id and level, a unique instance id, its data, where it was created, and its
/// tags.
pub struct Event<Data> {
    id: Id,
    level: Level,
    instance_id: u128,
    data: Data,
    mod_src: ModuleSource,
    tag_ids: Option<HashSet<u128>>,
}

impl<Data> Event<Data> {
    /// The event id.
    pub closed spec fn spec_id(&self) -> Id {
        self.id
    }

    /// The event level.
    pub closed spec fn spec_level(&self) -> Level {
        self.level
    }

    /// The event instance id.
    pub closed spec fn spec_instance_id(&self) -> u128 {
        self.instance_id
    }

    /// The event data.
    pub closed spec fn spec_data(&self) -> Data {
        self.data
    }

    /// The tags: none, or the set of tag ids.
    pub closed spec fn spec_tags(&self) -> Option<Set<u128>> {
        match self.tag_ids {
            Some(t) => Some(t@),
            None => None,
        }
    }

    /// Where the event was created: module path and line.
    pub closed spec fn spec_source(&self) -> (Seq<char>, u32) {
        (self.mod_src.path(), self.mod_src.line_number())
    }
}

impl<Data: Eventful> Event<Data> {
    /// Constructs the new event, with a new instance id, the level of its data's kind, and no
    /// tags.
    pub fn new(id: Id, data: Data, mod_src: ModuleSource) -> (r: Event<Data>)
        ensures
            r.spec_id() == id,
            r.spec_level() == Data::EVENT_LEVEL,
            r.spec_data() == data,
            r.spec_source() == (mod_src.path(), mod_src.line_number()),
            r.spec_tags() is None,
    {
        Event { id, level: Data::EVENT_LEVEL, instance_id: crate::uid::uid(), data, mod_src, tag_ids: None }
    }

    /// Tags the event
    pub fn with_tag_id(self, tag_id: u128) -> (r: Event<Data>)
        ensures
            r.spec_id() == self.spec_id(),
            r.spec_level() == self.spec_level(),
            r.spec_instance_id() == self.spec_instance_id(),
            r.spec_data() == self.spec_data(),
            r.spec_source() == self.spec_source(),
            r.spec_tags() == Some(
                match self.spec_tags() {
                    Some(t) => t,
                    None => Set::<u128>::empty(),
                }.insert(tag_id),
            ),
    {
        broadcast use vstd::std_specs::hash::group_hash_axioms;

        let mut e = self;
        let mut tags = match e.tag_ids.take() {
            Some(t) => t,
            None => HashSet::new(),
        };
        tags.insert(tag_id);
        e.tag_ids = Some(tags);
        e
    }

    /// Returns the Event Id
    pub fn id(&self) -> (r: Id)
        ensures
            r == self.spec_id(),
    {
        self.id
    }

    /// Returns the Event SeverityLevel
    pub fn severity_level(&self) -> (r: Level)
        ensures
            r == self.spec_level(),
    {
        self.level
    }

    /// Returns when the event occurred: milliseconds since the UNIX epoch, from the instance id.
    pub fn timestamp(&self) -> (r: u64)
        ensures
            r == ulid::ulid_timestamp(self.spec_instance_id()),
    {
        ulid::timestamp(self.instance_id)
    }

    /// Each event instance is assigned a unique id for tracking purposes.
    pub fn instance_id(&self) -> (r: u128)
        ensures
            r == self.spec_instance_id(),
    {
        self.instance_id
    }

    /// Returns the event data
    pub fn data(&self) -> (r: &Data)
        ensures
            *r == self.spec_data(),
    {
        &self.data
    }

    /// Where the event was created.
    pub fn module_source(&self) -> (r: &ModuleSource)
        ensures
            (r.path(), r.line_number()) == self.spec_source(),
    {
        &self.mod_src
    }

    /// The log target of the event: `op_event::<event id as a ULID>`.
    pub fn log_target(&self) -> (r: String)
        ensures
            r@ == "op_event::"@ + ulid::ulid_text(self.spec_id().0),
    {
        let mut r = String::new();
        push_str(&mut r, "op_event::");
        let t = ulid::text(self.id.0);
        push_str(&mut r, t.as_str());
        r
    }

    /// The tag ids, each once; none when the event has not been tagged.
    pub fn tag_ids(&self) -> (r: Option<Vec<u128>>)
        ensures
            r is Some <==> self.spec_tags() is Some,
            r matches Some(v) ==> self.spec_tags() == Some(v@.to_set()) && v@.no_duplicates(),
    {
        match &self.tag_ids {
            Some(t) => Some(set_elements(t)),
            None => None,
        }
    }

    /// Whether the event is tagged with the tag id.
    pub fn has_tag(&self, tag_id: u128) -> (r: bool)
        ensures
            r == (self.spec_tags() matches Some(t) && t.contains(tag_id)),
    {
        broadcast use vstd::std_specs::hash::group_hash_axioms;

        match &self.tag_ids {
            Some(t) => t.contains(&tag_id),
            None => false,
        }
    }
}

} // verus!
