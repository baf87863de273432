//! Errors that are identified, leveled, located in the source code, and chained to their causes.
use crate::events::{self, module_source_text, ModuleSource};
use crate::text::push_str;
use crate::ulid;
use vstd::prelude::*;

verus! {

/// Error unique identifier (a ULID by convention).
#[derive(Clone, Copy, Debug, PartialEq, Eq, Structural, Hash)]
pub struct Id(pub u128);

/// Marker for error instances.
pub struct Instance;

/// Error message text.
pub struct ErrorMessage(pub String);

/// Error severity level; higher priority comes first.
#[derive(Clone, Copy, Debug, PartialEq, Eq, Structural, Hash, PartialOrd, Ord)]
pub enum Level {
    /// System is unusable. A panic condition.
    Emergency,
    /// Action must be taken immediately.
    Alert,
    /// Critical conditions
    Critical,
    /// Error conditions
    Error,
}

/// The event level that an error level maps to: the level of the same name.
pub open spec fn event_level(level: Level) -> events::Level {
    match level {
        Level::Emergency => events::Level::Emergency,
        Level::Alert => events::Level::Alert,
        Level::Critical => events::Level::Critical,
        Level::Error => events::Level::Error,
    }
}

/// The name of an error level.
pub open spec fn level_name(level: Level) -> Seq<char> {
    match level {
        Level::Emergency => "Emergency"@,
        Level::Alert => "Alert"@,
        Level::Critical => "Critical"@,
        Level::Error => "Error"@,
    }
}

/// The text of an error: `Level(id:instance_id)[module:line] message`, ids as ULID text.
pub open spec fn error_text(e: Error) -> Seq<char> {
    level_name(e.spec_level()) + "("@ + ulid::ulid_text(e.spec_id().0) + ":"@ + ulid::ulid_text(
        e.spec_instance_id(),
    ) + ")["@ + module_source_text(e.spec_source().0, e.spec_source().1) + "] "@
        + e.spec_message()
}

impl Level {
    /// The name of the level.
    pub fn name(self) -> (r: &'static str)
        ensures
            r@ == level_name(self),
    {
        match self {
            Level::Emergency => "Emergency",
            Level::Alert => "Alert",
            Level::Critical => "Critical",
            Level::Error => "Error",
        }
    }

    /// Converts the error level into the event level of the same name.
    pub fn into_event_level(self) -> (r: events::Level)
        ensures
            r == event_level(self),
    {
        match self {
            Level::Emergency => events::Level::Emergency,
            Level::Alert => events::Level::Alert,
            Level::Critical => events::Level::Critical,
            Level::Error => events::Level::Error,
        }
    }
}

impl From<Level> for events::Level {
    fn from(level: Level) -> (r: events::Level) {
        level.into_event_level()
    }
}

impl vstd::std_specs::convert::FromSpecImpl<Level> for events::Level {
    open spec fn obeys_from_spec() -> bool {
        true
    }

    open spec fn from_spec(level: Level) -> events::Level {
        event_level(level)
    }
}

/// An error: its id, the id of this instance, a level, a message, where it was created, and
/// the error that caused it, if any.
#[derive(Debug)]
pub struct Error {
    id: Id,
    instance_id: u128,
    level: Level,
    msg: String,
    mod_src: ModuleSource,
    cause: Option<Box<Error>>,
}

impl Error {
    /// Error id.
    pub closed spec fn spec_id(&self) -> Id {
        self.id
    }

    /// Error instance id.
    pub closed spec fn spec_instance_id(&self) -> u128 {
        self.instance_id
    }

    /// Error level.
    pub closed spec fn spec_level(&self) -> Level {
        self.level
    }

    /// Error message.
    pub closed spec fn spec_message(&self) -> Seq<char> {
        self.msg@
    }

    /// Source location path and line.
    pub closed spec fn spec_source(&self) -> (Seq<char>, u32) {
        (self.mod_src.path(), self.mod_src.line_number())
    }

    /// The error that caused this one.
    pub closed spec fn spec_cause(&self) -> Option<Error> {
        match self.cause {
            Some(c) => Some(*c),
            None => None,
        }
    }

    /// The chain of causes: the direct cause first, the root cause last.
    pub open spec fn cause_chain(self) -> Seq<Error>
        decreases self,
    {
        match self.spec_cause() {
            Some(c) => {
                proof {
                    self.lemma_cause_decreases();
                }
                seq![c] + c.cause_chain()
            },
            None => seq![],
        }
    }

    /// The cause of an error is structurally smaller than the error.
    pub proof fn lemma_cause_decreases(self)
        requires
            self.spec_cause() is Some,
        ensures
            decreases_to!(self => self.spec_cause()->0),
    {
        let b = self.cause->0;
        assert(decreases_to!(self => self.cause));
        assert(decreases_to!(self.cause => b));
    }

    /// Constructor: a new error instance, with no cause.
    pub fn new(id: Id, level: Level, msg: &str, mod_src: ModuleSource) -> (e: Error)
        ensures
            e.spec_id() == id,
            e.spec_level() == level,
            e.spec_message() == msg@,
            e.spec_source() == (mod_src.path(), mod_src.line_number()),
            e.spec_cause() is None,
    {
        Error {
            id,
            instance_id: crate::uid::uid(),
            level,
            msg: msg.to_owned(),
            mod_src,
            cause: None,
        }
    }

    /// Sets the error cause
    pub fn with_cause(self, cause: Error) -> (e: Error)
        ensures
            e.spec_id() == self.spec_id(),
            e.spec_instance_id() == self.spec_instance_id(),
            e.spec_level() == self.spec_level(),
            e.spec_message() == self.spec_message(),
            e.spec_source() == self.spec_source(),
            e.spec_cause() == Some(cause),
    {
        Error { cause: Some(Box::new(cause)), ..self }
    }

    /// Error ID
    pub fn id(&self) -> (r: Id)
        ensures
            r == self.spec_id(),
    {
        self.id
    }

    /// Error instance ID (a ULID)
    pub fn instance_id(&self) -> (r: u128)
        ensures
            r == self.spec_instance_id(),
    {
        self.instance_id
    }

    /// Error level severity
    pub fn level(&self) -> (r: Level)
        ensures
            r == self.spec_level(),
    {
        self.level
    }

    /// Error message
    pub fn message(&self) -> (r: &str)
        ensures
            r@ == self.spec_message(),
    {
        self.msg.as_str()
    }

    /// Where in the source code base the error was created
    pub fn module_source(&self) -> (r: &ModuleSource)
        ensures
            (r.path(), r.line_number()) == self.spec_source(),
    {
        &self.mod_src
    }

    /// When the error occurred: milliseconds since the UNIX epoch, taken from the instance id.
    pub fn timestamp(&self) -> (r: u64)
        ensures
            r == ulid::ulid_timestamp(self.spec_instance_id()),
    {
        ulid::timestamp(self.instance_id)
    }

    /// The error as text: `Level(id:instance_id)[module:line] message`.
    pub fn to_string(&self) -> (r: String)
        ensures
            r@ == error_text(*self),
    {
        let mut r = String::new();
        push_str(&mut r, self.level.name());
        push_str(&mut r, "(");
        let t = ulid::text(self.id.0);
        push_str(&mut r, t.as_str());
        push_str(&mut r, ":");
        let t = ulid::text(self.instance_id);
        push_str(&mut r, t.as_str());
        push_str(&mut r, ")[");
        let t = self.mod_src.to_string();
        push_str(&mut r, t.as_str());
        push_str(&mut r, "] ");
        push_str(&mut r, self.msg.as_str());
        r
    }

    /// This error may have been caused by another underlying Error
    pub fn cause(&self) -> (r: Option<&Error>)
        ensures
            r is Some <==> self.spec_cause() is Some,
            r matches Some(c) ==> *c == self.spec_cause()->0,
    {
        match &self.cause {
            Some(c) => Some(&**c),
            None => None,
        }
    }

    fn collect_causes<'a>(&'a self, chain: &mut Vec<&'a Error>)
        ensures
            referenced(final(chain)@) == referenced(old(chain)@) + self.cause_chain(),
        decreases self,
    {
        match &self.cause {
            Some(c) => {
                let c: &Error = &**c;
                let ghost before = chain@;
                chain.push(c);
                assert(referenced(chain@) =~= referenced(before) + seq![*c]);
                c.collect_causes(chain);
                proof {
                    assert(self.cause_chain() == seq![*c] + c.cause_chain());
                    assert(referenced(chain@) =~= referenced(before) + self.cause_chain());
                }
            },
            None => {
                assert(self.cause_chain() =~= seq![]);
                assert(referenced(chain@) =~= referenced(chain@) + self.cause_chain());
            },
        }
    }

    /// Returns the error cause chain, the direct cause first; `None` when there is no cause.
    pub fn causes(&self) -> (r: Option<Vec<&Error>>)
        ensures
            self.spec_cause() is None <==> r is None,
            r matches Some(v) ==> referenced(v@) == self.cause_chain(),
    {
        match &self.cause {
            Some(_) => {
                let mut chain: Vec<&Error> = Vec::new();
                assert(referenced(chain@) =~= seq![]);
                self.collect_causes(&mut chain);
                assert(referenced(chain@) =~= self.cause_chain());
                Some(chain)
            },
            None => None,
        }
    }

    fn last_cause(&self) -> (r: &Error)
        requires
            self.spec_cause() is Some,
        ensures
            r == self.cause_chain().last(),
        decreases self,
    {
        let c: &Error = match &self.cause {
            Some(c) => &**c,
            None => {
                assert(false);
                self
            },
        };
        match &c.cause {
            Some(_) => {
                let r = c.last_cause();
                assert(self.cause_chain() == seq![*c] + c.cause_chain());
                r
            },
            None => {
                assert(c.cause_chain() =~= seq![]);
                assert(self.cause_chain() =~= seq![*c]);
                c
            },
        }
    }

    /// Returns the root error cause: the last error of the cause chain.
    pub fn root_cause(&self) -> (r: Option<&Error>)
        ensures
            self.spec_cause() is None <==> r is None,
            r matches Some(e) ==> e == self.cause_chain().last(),
    {
        match &self.cause {
            Some(_) => Some(self.last_cause()),
            None => None,
        }
    }
}

/// The causes of an error that has a cause: the cause first, then the cause's own causes.
pub proof fn law_cause_chain(e: Error)
    requires
        e.spec_cause() is Some,
    ensures
        e.cause_chain() == seq![e.spec_cause()->0] + e.spec_cause()->0.cause_chain(),
        e.cause_chain().len() == 1 + e.spec_cause()->0.cause_chain().len(),
{
}

/// The root cause of an error, the last of its causes, has no cause itself.
pub proof fn law_root_cause_has_no_cause(e: Error)
    requires
        e.spec_cause() is Some,
    ensures
        e.cause_chain().len() > 0,
        e.cause_chain().last().spec_cause() is None,
    decreases e,
{
    let c = e.spec_cause()->0;
    e.lemma_cause_decreases();
    if c.spec_cause() is Some {
        law_root_cause_has_no_cause(c);
        assert(e.cause_chain() == seq![c] + c.cause_chain());
        assert(e.cause_chain().last() == c.cause_chain().last());
    } else {
        assert(c.cause_chain() =~= seq![]);
        assert(e.cause_chain() =~= seq![c]);
    }
}

/// Every error in the chain of causes is followed by its own cause: the chain lists each
/// error's cause in turn.
pub proof fn law_chain_links(e: Error, i: int)
    requires
        0 <= i < e.cause_chain().len() - 1,
    ensures
        e.cause_chain()[i].spec_cause() == Some(e.cause_chain()[i + 1]),
    decreases e,
{
    let c = e.spec_cause()->0;
    e.lemma_cause_decreases();
    assert(e.cause_chain() == seq![c] + c.cause_chain());
    if i == 0 {
        assert(c.cause_chain().len() > 0);
        assert(c.spec_cause() is Some);
        assert(c.cause_chain()[0] == c.spec_cause()->0);
    } else {
        law_chain_links(c, i - 1);
    }
}

/// The errors that a sequence of references refers to.
pub open spec fn referenced(s: Seq<&Error>) -> Seq<Error> {
    s.map_values(|e: &Error| *e)
}

/// Something that can be described as an [`Error`]: it has an id, a level and a message.
pub trait IsError {
    /// The id that this error has.
    spec fn spec_error_id(&self) -> Id;

    /// The level that this error has.
    spec fn spec_error_level(&self) -> Level;

    /// The message that this error has.
    spec fn spec_error_message(&self) -> Seq<char>;

    /// Error Id
    fn error_id(&self) -> (r: Id)
        ensures
            r == self.spec_error_id(),
    ;

    /// Error Level
    fn error_level(&self) -> (r: Level)
        ensures
            r == self.spec_error_level(),
    ;

    /// Error message
    fn error_message(&self) -> (r: String)
        ensures
            r@ == self.spec_error_message(),
    ;

    /// Converts itself into an Error
    fn to_error(&self, mod_src: ModuleSource) -> (e: Error)
        ensures
            e.spec_id() == self.spec_error_id(),
            e.spec_level() == self.spec_error_level(),
            e.spec_message() == self.spec_error_message(),
            e.spec_source() == (mod_src.path(), mod_src.line_number()),
            e.spec_cause() is None,
    {
        let msg = self.error_message();
        Error::new(self.error_id(), self.error_level(), msg.as_str(), mod_src)
    }
}

} // verus!
