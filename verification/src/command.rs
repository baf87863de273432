//! Commands: futures whose execution progress is tracked and reported.
//!
//! The future itself is driven by the application; this module decides how each poll changes
//! the command's progress.
use crate::ulid;
use vstd::prelude::*;

verus! {

/// The longest duration that can be tracked, in nanoseconds (`u64::MAX` seconds and
/// 999,999,999 nanoseconds).
pub const MAX_DURATION_NANOS: u128 = 18446744073709551615999999999;

/// Command status
#[derive(Clone, Copy, Debug, PartialEq, Eq, Structural, Hash)]
pub enum Status {
    /// Command future has been created, but has not started running
    CREATED,
    /// Command future has started running, i.e., it has been polled at least once
    RUNNING,
    /// Command has completed successfully
    SUCCESS,
    /// Command has completed with an error
    FAILURE,
    /// Command was cancelled
    CANCELLED,
}

/// What polling the command's future gave.
#[derive(Clone, Copy, Debug, PartialEq, Eq, Structural, Hash)]
pub enum PollOutcome {
    /// The future completed with a value
    Ready,
    /// The future is not done yet
    NotReady,
    /// The future completed with an error
    Failed,
}

/// CommandId is the unique identifier for the command - across all instances.
#[derive(Clone, Copy, Debug, PartialEq, Eq, Structural, Hash, PartialOrd, Ord)]
pub struct CommandId(pub u128);

impl CommandId {
    /// constructor
    pub fn new(id: u128) -> (r: CommandId)
        ensures
            r.0 == id,
    {
        CommandId(id)
    }

    /// the id value
    pub fn value(&self) -> (r: u128)
        ensures
            r == self.0,
    {
        self.0
    }
}

/// The unique identifier of one instance of a command.
#[derive(Clone, Copy, Debug, PartialEq, Eq, Structural, Hash, PartialOrd, Ord)]
pub struct InstanceId(pub u128);

impl InstanceId {
    /// A new instance id (a ULID).
    pub fn new() -> (r: InstanceId) {
        InstanceId(crate::uid::uid())
    }

    /// the id value
    pub fn value(&self) -> (r: u128)
        ensures
            r == self.0,
    {
        self.0
    }
}

/// A snapshot of a command's progress. Instants are nanoseconds since the UNIX epoch;
/// durations are nanoseconds.
#[derive(Clone, Copy, Debug, PartialEq, Eq, Structural, Hash)]
pub struct Progress {
    /// the command id
    pub id: CommandId,
    /// the command instance id
    pub instance_id: InstanceId,
    /// the command status
    pub status: Status,
    /// the number of times the future has been polled
    pub poll_counter: usize,
    /// when the future instance was created
    pub created: u128,
    /// when the future instance was first polled
    pub first_polled: Option<u128>,
    /// when the future instance was last polled
    pub last_polled: Option<u128>,
    /// when the future was last seen by a poll
    pub completed: Option<u128>,
    /// the cumulative amount of time spent polling
    pub poll_duration: u128,
}

/// Whether a command with this status has completed.
pub open spec fn is_finished(s: Status) -> bool {
    s is SUCCESS || s is FAILURE
}

/// The progress after a poll begins at `now`: one more poll, the last poll at `now`, and, for
/// a command that had not started, the first poll at `now` and the status `RUNNING`.
pub open spec fn poll_started(p: Progress, now: u128) -> Progress {
    let p1 = Progress { poll_counter: (p.poll_counter + 1) as usize, last_polled: Some(now), ..p };
    if p.status is CREATED {
        Progress { first_polled: Some(now), status: Status::RUNNING, ..p1 }
    } else {
        p1
    }
}

/// The progress after a poll that took `elapsed` nanoseconds ends at `at` with `outcome`.
pub open spec fn poll_ended(p: Progress, elapsed: u128, at: u128, outcome: PollOutcome) -> Progress {
    let p1 = Progress {
        poll_duration: (p.poll_duration + elapsed) as u128,
        completed: Some(at),
        ..p
    };
    match outcome {
        PollOutcome::Ready => Progress { status: Status::SUCCESS, ..p1 },
        PollOutcome::NotReady => p1,
        PollOutcome::Failed => Progress { status: Status::FAILURE, ..p1 },
    }
}

impl Progress {
    /// constructs a new Progress with status = CREATED, created at `now`, and a new instance id
    pub fn new(id: CommandId, now: u128) -> (r: Progress)
        ensures
            r.id == id,
            r.status == Status::CREATED,
            r.poll_counter == 0,
            r.created == now,
            r.first_polled is None,
            r.last_polled is None,
            r.completed is None,
            r.poll_duration == 0,
    {
        Progress {
            id,
            instance_id: InstanceId::new(),
            status: Status::CREATED,
            poll_counter: 0,
            created: now,
            first_polled: None,
            last_polled: None,
            completed: None,
            poll_duration: 0,
        }
    }

    /// Whether the command has completed: its future is done, and further polls return
    /// without progress.
    pub fn done(&self) -> (r: bool)
        ensures
            r == is_finished(self.status),
    {
        match self.status {
            Status::SUCCESS | Status::FAILURE => true,
            _ => false,
        }
    }

    /// Records the start of a poll at `now`. A completed command is not tracked any more:
    /// it is left as it is and `false` is returned.
    pub fn begin_poll(&mut self, now: u128) -> (polling: bool)
        requires
            !is_finished(old(self).status) ==> old(self).poll_counter < usize::MAX,
        ensures
            polling == !is_finished(old(self).status),
            polling ==> *final(self) == poll_started(*old(self), now),
            !polling ==> *final(self) == *old(self),
    {
        if self.done() {
            return false;
        }
        self.poll_counter = self.poll_counter + 1;
        self.last_polled = Some(now);
        if self.status == Status::CREATED {
            self.first_polled = Some(now);
            self.status = Status::RUNNING;
        }
        true
    }

    /// Records the end of a poll that took `elapsed` nanoseconds, ended at `at` and gave
    /// `outcome`.
    pub fn end_poll(&mut self, elapsed: u128, at: u128, outcome: PollOutcome)
        requires
            old(self).poll_duration + elapsed <= MAX_DURATION_NANOS,
        ensures
            *final(self) == poll_ended(*old(self), elapsed, at, outcome),
    {
        self.poll_duration = self.poll_duration + elapsed;
        self.completed = Some(at);
        match outcome {
            PollOutcome::Ready => self.status = Status::SUCCESS,
            PollOutcome::NotReady => {},
            PollOutcome::Failed => self.status = Status::FAILURE,
        }
    }

    /// CommandId is the unique identifier for the command - across all instances.
    pub fn id(&self) -> (r: CommandId)
        ensures
            r == self.id,
    {
        self.id
    }

    /// InstanceID is the unique identifier for this instance of the command.
    pub fn instance_id(&self) -> (r: InstanceId)
        ensures
            r == self.instance_id,
    {
        self.instance_id
    }

    /// Command status
    pub fn status(&self) -> (r: Status)
        ensures
            r == self.status,
    {
        self.status
    }

    /// the number of times the future has been polled
    pub fn poll_counter(&self) -> (r: usize)
        ensures
            r == self.poll_counter,
    {
        self.poll_counter
    }

    /// when the future instance was created
    pub fn created(&self) -> (r: u128)
        ensures
            r == self.created,
    {
        self.created
    }

    /// when the future instance was first polled
    pub fn first_polled(&self) -> (r: Option<u128>)
        ensures
            r == self.first_polled,
    {
        self.first_polled
    }

    /// when the future instance was last polled
    pub fn last_polled(&self) -> (r: Option<u128>)
        ensures
            r == self.last_polled,
    {
        self.last_polled
    }

    /// when the future was last seen by a poll
    pub fn completed(&self) -> (r: Option<u128>)
        ensures
            r == self.completed,
    {
        self.completed
    }

    /// the cumulative amount of time spent polling
    pub fn poll_duration(&self) -> (r: u128)
        ensures
            r == self.poll_duration,
    {
        self.poll_duration
    }
}

/// A poll whose future gives a value or an error completes the command (and, by
/// [`Progress::begin_poll`], later polls leave it as it is).
pub proof fn law_finished_is_final(p: Progress, now: u128, elapsed: u128, at: u128, outcome: PollOutcome)
    requires
        !is_finished(p.status),
        outcome !is NotReady,
    ensures
        is_finished(poll_ended(poll_started(p, now), elapsed, at, outcome).status),
{
}

/// A poll that begins and ends leaves the first poll instant set, and counts the poll.
pub proof fn law_poll_counts(p: Progress, now: u128, elapsed: u128, at: u128, outcome: PollOutcome)
    requires
        !is_finished(p.status),
        p.poll_counter < usize::MAX,
        p.status is CREATED <==> p.first_polled is None,
    ensures
        poll_ended(poll_started(p, now), elapsed, at, outcome).poll_counter == p.poll_counter + 1,
        poll_ended(poll_started(p, now), elapsed, at, outcome).first_polled is Some,
        p.first_polled is Some ==> poll_ended(poll_started(p, now), elapsed, at, outcome).first_polled
            == p.first_polled,
{
}

/// Every poll ends by recording its end: whatever the future gave (a value, an error or not
/// yet), `completed` is the instant the poll ended and the poll's time is added to the time
/// spent polling. A value makes the command a success, an error a failure; a poll that is not
/// ready leaves the status as it was. Nothing else changes.
pub proof fn law_poll_end_recorded(p: Progress, elapsed: u128, at: u128, outcome: PollOutcome)
    requires
        p.poll_duration + elapsed <= u128::MAX,
    ensures
        poll_ended(p, elapsed, at, outcome).completed == Some(at),
        poll_ended(p, elapsed, at, outcome).poll_duration == p.poll_duration + elapsed,
        outcome is Ready ==> poll_ended(p, elapsed, at, outcome).status == Status::SUCCESS,
        outcome is Failed ==> poll_ended(p, elapsed, at, outcome).status == Status::FAILURE,
        outcome is NotReady ==> poll_ended(p, elapsed, at, outcome).status == p.status,
        poll_ended(p, elapsed, at, outcome).id == p.id,
        poll_ended(p, elapsed, at, outcome).instance_id == p.instance_id,
        poll_ended(p, elapsed, at, outcome).poll_counter == p.poll_counter,
        poll_ended(p, elapsed, at, outcome).created == p.created,
        poll_ended(p, elapsed, at, outcome).first_polled == p.first_polled,
        poll_ended(p, elapsed, at, outcome).last_polled == p.last_polled,
{
}

/// Every poll that begins is recorded: it is counted and is the last poll; a command that had
/// not been polled is first polled then and starts running; a command that was running keeps
/// its status and its first poll instant. Nothing else changes.
pub proof fn law_poll_start_recorded(p: Progress, now: u128)
    requires
        p.poll_counter < usize::MAX,
    ensures
        poll_started(p, now).poll_counter == p.poll_counter + 1,
        poll_started(p, now).last_polled == Some(now),
        p.status is CREATED ==> poll_started(p, now).first_polled == Some(now)
            && poll_started(p, now).status == Status::RUNNING,
        !(p.status is CREATED) ==> poll_started(p, now).first_polled == p.first_polled
            && poll_started(p, now).status == p.status,
        poll_started(p, now).completed == p.completed,
        poll_started(p, now).poll_duration == p.poll_duration,
        poll_started(p, now).created == p.created,
        poll_started(p, now).id == p.id,
        poll_started(p, now).instance_id == p.instance_id,
{
}

} // verus!
