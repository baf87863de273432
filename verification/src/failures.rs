//! Errors that decorate a failure cause with an error id.
//!
//! - Errors are assigned a unique ErrorId
//! - Errors have context: the failure that caused them, which may itself be an error
//! - Errors are timestamped, and know where in the source code they were created
use crate::devops::SourceCodeLocation;
use crate::message::deadline::{is_clock_reading, now_nanos};
use crate::text::{hex_lower, render_digits};
use vstd::prelude::*;

verus! {

/// Unique Error ID
#[derive(Clone, Copy, Debug, PartialEq, Eq, Structural, Hash, PartialOrd, Ord)]
pub struct ErrorId(pub u128);

impl ErrorId {
    /// returns the id
    pub fn id(&self) -> (r: u128)
        ensures
            r == self.0,
    {
        self.0
    }

    /// The id in lower hex format.
    pub fn to_string(&self) -> (s: String)
        ensures
            s@ == hex_lower(self.0 as nat),
    {
        render_digits(self.0, 16)
    }
}

/// Unique Error Instance ID: it lets a specific error be searched for within another context,
/// e.g., log events.
#[derive(Clone, Copy, Debug, PartialEq, Eq, Structural, Hash, PartialOrd, Ord)]
pub struct InstanceId(pub u128);

impl InstanceId {
    /// A new instance id (a ULID).
    pub fn new() -> (r: InstanceId) {
        InstanceId(crate::uid::uid())
    }

    /// returns the id
    pub fn id(&self) -> (r: u128)
        ensures
            r == self.0,
    {
        self.0
    }
}

/// What caused an error: another error, or some other failure with its text and its own
/// cause, if any.
#[derive(Debug)]
pub enum Failure {
    /// The failure is itself an error.
    Error(Box<Error>),
    /// Any other failure.
    Other {
        /// what the failure displays
        text: String,
        /// the failure that caused it
        cause: Option<Box<Failure>>,
    },
}

/// An error: its id, when and where it was created, its instance id, and the failure that
/// caused it.
#[derive(Debug)]
pub struct Error {
    id: ErrorId,
    timestamp: i128,
    loc: SourceCodeLocation,
    instance: InstanceId,
    failure: Failure,
}

/// The ids of the errors along a failure's chain of causes, outermost first (see
/// [`lemma_failure_error_ids`]).
pub closed spec fn failure_error_ids(f: Failure) -> Seq<ErrorId>
    decreases f,
{
    match f {
        Failure::Error(e) => seq![e.id].add(failure_error_ids(e.failure)),
        Failure::Other { text: _, cause: Some(c) } => failure_error_ids(*c),
        Failure::Other { text: _, cause: None } => Seq::empty(),
    }
}

/// One step along a failure's chain of causes: an error contributes its own id and then the
/// ids along its failure; any other failure, those along its cause, if it has one.
pub proof fn lemma_failure_error_ids(f: Failure)
    ensures
        failure_error_ids(f) == match f {
            Failure::Error(e) => seq![e.spec_id()].add(failure_error_ids(e.spec_failure())),
            Failure::Other { text: _, cause: Some(c) } => failure_error_ids(*c),
            Failure::Other { text: _, cause: None } => Seq::<ErrorId>::empty(),
        },
{
}

impl Error {
    /// The error id.
    pub closed spec fn spec_id(&self) -> ErrorId {
        self.id
    }

    /// The failure that caused the error.
    pub closed spec fn spec_failure(&self) -> Failure {
        self.failure
    }

    /// When the error occurred, in nanoseconds since the UNIX epoch.
    pub closed spec fn spec_timestamp(&self) -> i128 {
        self.timestamp
    }

    /// The instance id.
    pub closed spec fn spec_instance_id(&self) -> InstanceId {
        self.instance
    }

    /// The source code location.
    pub closed spec fn spec_loc(&self) -> SourceCodeLocation {
        self.loc
    }

    /// The chain of error ids: this error's id, then the id of each error among its causes,
    /// outermost first.
    pub open spec fn spec_error_id_chain(&self) -> Seq<ErrorId> {
        seq![self.spec_id()].add(failure_error_ids(self.spec_failure()))
    }

    /// Error constructor: a new instance, timestamped now.
    pub fn new(id: ErrorId, failure: Failure, loc: SourceCodeLocation) -> (r: Error)
        ensures
            r.spec_id() == id,
            r.spec_failure() == failure,
            r.spec_loc() == loc,
            is_clock_reading(r.spec_timestamp() as int),
    {
        Error { id, instance: InstanceId::new(), failure, timestamp: now_nanos(), loc }
    }

    /// ErrorId getter
    pub fn id(&self) -> (r: ErrorId)
        ensures
            r == self.spec_id(),
    {
        self.id
    }

    /// Returns the error cause
    pub fn failure(&self) -> (r: &Failure)
        ensures
            *r == self.spec_failure(),
    {
        &self.failure
    }

    /// When the error occurred, in nanoseconds since the UNIX epoch.
    pub fn timestamp(&self) -> (r: i128)
        ensures
            r == self.spec_timestamp(),
    {
        self.timestamp
    }

    /// Where in the source code the error was created.
    pub fn loc(&self) -> (r: &SourceCodeLocation)
        ensures
            *r == self.spec_loc(),
    {
        &self.loc
    }

    /// The error instance id.
    pub fn instance_id(&self) -> (r: InstanceId)
        ensures
            r == self.spec_instance_id(),
    {
        self.instance
    }

    /// Returns the chain of ErrorId(s) from all chained failures that themselves are an Error.
    /// The first ErrorId will be this Error's ErrorId.
    pub fn error_id_chain(&self) -> (r: Vec<ErrorId>)
        ensures
            r@ == self.spec_error_id_chain(),
    {
        let mut ids: Vec<ErrorId> = Vec::new();
        ids.push(self.id);
        let mut cur: &Failure = &self.failure;
        loop
            invariant
                ids@ + failure_error_ids(*cur) == self.spec_error_id_chain(),
            ensures
                ids@ == self.spec_error_id_chain(),
            decreases *cur,
        {
            match cur {
                Failure::Error(e) => {
                    let ghost before = ids@;
                    ids.push(e.id);
                    assert(ids@ == before + seq![e.id]);
                    assert(before + failure_error_ids(*cur) == ids@ + failure_error_ids(e.failure));
                    cur = &e.failure;
                },
                Failure::Other { text: _, cause: Some(c) } => {
                    cur = &**c;
                },
                Failure::Other { text: _, cause: None } => {
                    assert(ids@ + failure_error_ids(*cur) == ids@);
                    break ;
                },
            }
        }
        ids
    }

    /// Returns all distinct ErrorId(s) that are referenced by the error chain, each once. It
    /// includes this Error's ErrorId, so it is never empty.
    pub fn distinct_error_ids(&self) -> (r: Vec<ErrorId>)
        ensures
            r@.to_set() == self.spec_error_id_chain().to_set(),
            r@.no_duplicates(),
            r@.len() > 0,
    {
        let chain = self.error_id_chain();
        let mut r: Vec<ErrorId> = Vec::new();
        let mut i: usize = 0;
        while i < chain.len()
            invariant
                i <= chain@.len(),
                chain@ == self.spec_error_id_chain(),
                r@.no_duplicates(),
                r@.to_set() == chain@.subrange(0, i as int).to_set(),
                i > 0 ==> r@.len() > 0,
            decreases chain@.len() - i,
        {
            let id = chain[i];
            let mut found = false;
            let mut j: usize = 0;
            while j < r.len()
                invariant
                    j <= r@.len(),
                    found <==> exists|k: int| 0 <= k < j && r@[k] == id,
                decreases r@.len() - j,
            {
                if r[j] == id {
                    found = true;
                }
                j = j + 1;
            }
            proof {
                assert(chain@.subrange(0, i + 1) =~= chain@.subrange(0, i as int).push(id));
                chain@.subrange(0, i as int).lemma_push_to_set_commute(id);
            }
            if !found {
                let ghost before = r@;
                r.push(id);
                proof {
                    before.lemma_push_to_set_commute(id);
                    assert forall|a: int, b: int| 0 <= a < r@.len() && 0 <= b < r@.len() && a != b implies r@[a]
                        != r@[b] by {
                        if a == before.len() as int {
                            assert(r@[b] == before[b]);
                        } else if b == before.len() as int {
                            assert(r@[a] == before[a]);
                        }
                    }
                }
            } else {
                proof {
                    let k = choose|k: int| 0 <= k < r@.len() && r@[k] == id;
                    assert(r@.to_set().contains(id));
                    assert(r@.to_set().insert(id) =~= r@.to_set());
                }
            }
            i = i + 1;
        }
        proof {
            assert(chain@.subrange(0, chain@.len() as int) =~= chain@);
        }
        r
    }
}

} // verus!
