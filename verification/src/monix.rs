//! Task descriptions: identifiers, execution options, timeouts, priorities, states and progress.
use crate::ulid;
use core::time::Duration;
use vstd::prelude::*;

verus! {

/// Unique task identifier.
#[derive(Clone, Copy, Debug, PartialEq, Eq, Structural, Hash, PartialOrd, Ord)]
pub struct TaskId(pub u128);

impl TaskId {
    /// the id value
    pub fn value(&self) -> (r: u128)
        ensures
            r == self.0,
    {
        self.0
    }
}

impl From<u128> for TaskId {
    fn from(id: u128) -> (r: TaskId) {
        TaskId(id)
    }
}

impl vstd::std_specs::convert::FromSpecImpl<u128> for TaskId {
    open spec fn obeys_from_spec() -> bool {
        true
    }

    open spec fn from_spec(id: u128) -> TaskId {
        TaskId(id)
    }
}

/// Unique identifier of a task execution.
#[derive(Clone, Copy, Debug, PartialEq, Eq, Structural, Hash, PartialOrd, Ord)]
pub struct InstanceId(pub u128);

impl InstanceId {
    /// A new instance id (a ULID).
    pub fn new() -> (r: InstanceId) {
        InstanceId(crate::uid::uid())
    }

    /// the id value
    pub fn value(&self) -> (r: u128)
        ensures
            r == self.0,
    {
        self.0
    }
}

/// A task: it can be executed, reporting its result to a callback, and it describes itself.
pub trait Task<Callback, Exec> {
    /// After the Task is executed, it can no longer be referenced directly.
    /// It can only be referenced via its execution, which can be used to track the task.
    fn execute(&mut self, callback: Callback) -> Exec;

    /// The task's descriptor.
    fn desc(&self) -> Descriptor;
}

/// Describes a task: its id and optional configuration.
#[derive(Clone, Debug, PartialEq, Eq)]
pub struct Descriptor {
    task_id: TaskId,
    config: Option<Config>,
}

impl Descriptor {
    /// The task id.
    pub closed spec fn spec_id(&self) -> TaskId {
        self.task_id
    }

    /// constructor
    pub fn new(task_id: TaskId, config: Option<Config>) -> (r: Descriptor)
        ensures
            r.spec_id() == task_id,
            r.spec_config() == config,
    {
        Descriptor { task_id, config }
    }

    /// Returns the unique Task identifier.
    pub fn id(&self) -> (r: TaskId)
        ensures
            r == self.spec_id(),
    {
        self.task_id
    }

    /// The task config.
    pub closed spec fn spec_config(&self) -> Option<Config> {
        self.config
    }

    /// Returns the Task config.
    pub fn config(&self) -> (r: Option<&Config>)
        ensures
            r is Some <==> self.spec_config() is Some,
            r matches Some(c) ==> *c == self.spec_config()->0,
    {
        match &self.config {
            Some(c) => Some(c),
            None => None,
        }
    }
}

/// Task execution options.
#[derive(Clone, Copy, Debug, PartialEq, Eq)]
pub struct ExecuteOptions {
    priority: Option<Priority>,
    timeout: Option<TimeoutConfig>,
    delay: Option<Duration>,
}

impl ExecuteOptions {
    /// The priority.
    pub closed spec fn spec_priority(&self) -> Option<Priority> {
        self.priority
    }

    /// The timeout.
    pub closed spec fn spec_timeout(&self) -> Option<TimeoutConfig> {
        self.timeout
    }

    /// The delay.
    pub closed spec fn spec_delay(&self) -> Option<Duration> {
        self.delay
    }

    /// constructor
    pub fn new(priority: Option<Priority>, timeout: Option<TimeoutConfig>, delay: Option<Duration>) -> (r: ExecuteOptions)
        ensures
            r.spec_priority() == priority,
            r.spec_timeout() == timeout,
            r.spec_delay() == delay,
    {
        ExecuteOptions { priority, timeout, delay }
    }

    /// returns the Task priority
    pub fn priority(&self) -> (r: Option<Priority>)
        ensures
            r == self.spec_priority(),
    {
        self.priority
    }

    /// Returns the Task timeout. None indicates, there is no timeout.
    pub fn timeout(&self) -> (r: Option<TimeoutConfig>)
        ensures
            r == self.spec_timeout(),
    {
        self.timeout
    }

    /// Returns the delay before the task is executed, if any.
    pub fn delay(&self) -> (r: Option<Duration>)
        ensures
            r == self.spec_delay(),
    {
        self.delay
    }
}

/// Task configuration.
#[derive(Clone, Debug, PartialEq, Eq)]
pub struct Config {
    execute_options: Option<ExecuteOptions>,
    tags: Option<Vec<Tag>>,
    task_dependencies: Option<Vec<TaskId>>,
}

impl Config {
    /// The execution options.
    pub closed spec fn spec_execute_options(&self) -> Option<ExecuteOptions> {
        self.execute_options
    }

    /// The tags.
    pub closed spec fn spec_tags(&self) -> Option<Seq<Tag>> {
        match self.tags {
            Some(t) => Some(t@),
            None => None,
        }
    }

    /// The dependencies.
    pub closed spec fn spec_task_dependencies(&self) -> Option<Seq<TaskId>> {
        match self.task_dependencies {
            Some(d) => Some(d@),
            None => None,
        }
    }

    /// constructor
    pub fn new(
        execute_options: Option<ExecuteOptions>,
        tags: Option<Vec<Tag>>,
        task_dependencies: Option<Vec<TaskId>>,
    ) -> (r: Config)
        ensures
            r.spec_execute_options() == execute_options,
            r.spec_tags() == match tags {
                Some(t) => Some(t@),
                None => None,
            },
            r.spec_task_dependencies() == match task_dependencies {
                Some(d) => Some(d@),
                None => None,
            },
    {
        Config { execute_options, tags, task_dependencies }
    }

    /// returns the default execution settings
    pub fn execute_options(&self) -> (r: Option<&ExecuteOptions>)
        ensures
            r is Some <==> self.spec_execute_options() is Some,
            r matches Some(o) ==> *o == self.spec_execute_options()->0,
    {
        match &self.execute_options {
            Some(o) => Some(o),
            None => None,
        }
    }

    /// Tasks can have optional tags, used for logging and analytic purposes.
    pub fn tags(&self) -> (r: Option<&Vec<Tag>>)
        ensures
            r is Some <==> self.spec_tags() is Some,
            r matches Some(t) ==> t@ == self.spec_tags()->0,
    {
        match &self.tags {
            Some(t) => Some(t),
            None => None,
        }
    }

    /// The dependencies of the task.
    pub fn task_dependencies(&self) -> (r: Option<&Vec<TaskId>>)
        ensures
            r is Some <==> self.spec_task_dependencies() is Some,
            r matches Some(d) ==> d@ == self.spec_task_dependencies()->0,
    {
        match &self.task_dependencies {
            Some(d) => Some(d),
            None => None,
        }
    }
}

/// A task tag.
#[derive(Clone, Debug, PartialEq, Eq, Hash, PartialOrd, Ord)]
pub struct Tag(pub String);

impl Tag {
    /// Tag value
    pub fn value(&self) -> (r: &str)
        ensures
            r@ == self.0@,
    {
        self.0.as_str()
    }
}

/// A timeout: its duration, and the state that it is taken relative to.
#[derive(Clone, Copy, Debug, PartialEq, Eq)]
pub struct TimeoutConfig(Duration, State);

/// The task state that a timeout relative state stands for.
pub open spec fn relative_state(s: Option<TimeoutRelativeState>) -> State {
    match s {
        Some(TimeoutRelativeState::New) => State::New,
        Some(TimeoutRelativeState::Scheduled) => State::Scheduled,
        Some(TimeoutRelativeState::Running) => State::Running,
        None => State::Running,
    }
}

impl TimeoutConfig {
    /// The duration.
    pub closed spec fn spec_timeout(&self) -> Duration {
        self.0
    }

    /// The state that the timeout is relative to.
    pub closed spec fn spec_relative_to_state(&self) -> State {
        self.1
    }

    /// constructor: relative_to_state defaults to Running
    pub fn new(duration: Duration, relative_to_state: Option<TimeoutRelativeState>) -> (r:
        TimeoutConfig)
        ensures
            r.spec_timeout() == duration,
            r.spec_relative_to_state() == relative_state(relative_to_state),
    {
        match relative_to_state {
            Some(s) => TimeoutConfig(duration, s.into_state()),
            None => TimeoutConfig(duration, State::Running),
        }
    }

    /// timeout
    pub fn timeout(&self) -> (r: Duration)
        ensures
            r == self.spec_timeout(),
    {
        self.0
    }

    /// relative to state
    pub fn relative_to_state(&self) -> (r: State)
        ensures
            r == self.spec_relative_to_state(),
    {
        self.1
    }
}

/// The states that a timeout can be relative to.
#[derive(Clone, Copy, Debug, PartialEq, Eq, Structural, Hash)]
pub enum TimeoutRelativeState {
    /// relative to when the task was created
    New,
    /// relative to when the task was scheduled
    Scheduled,
    /// relative to when the task started running
    Running,
}

impl TimeoutRelativeState {
    /// The task state of the same name.
    pub fn into_state(self) -> (r: State)
        ensures
            r == relative_state(Some(self)),
    {
        match self {
            TimeoutRelativeState::New => State::New,
            TimeoutRelativeState::Scheduled => State::Scheduled,
            TimeoutRelativeState::Running => State::Running,
        }
    }
}

/// Task priority.
#[derive(Clone, Copy, Debug, PartialEq, Eq, Structural, Hash)]
pub struct Priority(pub u8);

impl Priority {
    /// returns the priority value
    pub fn value(&self) -> (r: u8)
        ensures
            r == self.0,
    {
        self.0
    }
}

/// Task state
#[derive(Clone, Copy, Debug, PartialEq, Eq, Structural, Hash)]
pub enum State {
    /// created
    New,
    /// scheduled for execution
    Scheduled,
    /// running
    Running,
    /// completed successfully
    Success,
    /// completed with a failure
    Failure,
    /// cancelled
    Cancelled,
    /// timed out
    TimedOut,
}

/// Whether a task state is terminal: success, failure, cancellation or timeout.
pub open spec fn is_terminal(s: State) -> bool {
    s is Success || s is Failure || s is Cancelled || s is TimedOut
}

impl State {
    /// Whether the state is terminal: success, failure, cancellation or timeout.
    pub fn terminal_state(&self) -> (r: bool)
        ensures
            r == is_terminal(*self),
    {
        match *self {
            State::Success | State::Failure | State::Cancelled | State::TimedOut => true,
            _ => false,
        }
    }
}

/// A state transition: the state transitioned to, and when (milliseconds since the UNIX epoch).
#[derive(Clone, Copy, Debug, PartialEq, Eq, Structural, Hash)]
pub struct StateTransition(pub State, pub u64);

impl StateTransition {
    /// The state that was transitioned to
    pub fn state(&self) -> (r: State)
        ensures
            r == self.0,
    {
        self.0
    }

    /// When the state transition occurred.
    pub fn timestamp(&self) -> (r: u64)
        ensures
            r == self.1,
    {
        self.1
    }
}

/// Task progress in percent, from 0 to 100.
#[derive(Clone, Copy, Debug, PartialEq, Eq, Structural, Hash)]
pub struct Progress(u8);

/// Progress after adding `inc` percent to `p`: capped at 100.
pub open spec fn progress_after(p: u8, inc: u8) -> u8 {
    if inc >= 100 || p + inc > 100 {
        100
    } else {
        (p + inc) as u8
    }
}

impl Progress {
    /// The percentage.
    pub closed spec fn percent(&self) -> u8 {
        self.0
    }

    /// A progress is a percentage.
    pub closed spec fn wf(&self) -> bool {
        self.0 <= 100
    }

    /// No progress yet.
    pub fn new() -> (r: Progress)
        ensures
            r.wf(),
            r.percent() == 0,
    {
        Progress(0)
    }

    /// returns the progress value
    pub fn value(&self) -> (r: u8)
        ensures
            r == self.percent(),
    {
        self.0
    }

    /// increments progress; if progress exceeds 100%, then progress is reset to 100%, which
    /// indicates it is done.
    pub fn inc(&mut self, progress: u8) -> (r: u8)
        requires
            old(self).wf(),
        ensures
            final(self).wf(),
            final(self).percent() == progress_after(old(self).percent(), progress),
            r == final(self).percent(),
    {
        if progress >= 100 {
            self.0 = 100;
            return self.0;
        }
        self.0 = self.0 + progress;
        if self.0 > 100 {
            self.0 = 100;
        }
        self.0
    }

    /// Whether the task is done: 100%.
    pub fn done(&self) -> (r: bool)
        ensures
            r == (self.percent() == 100),
    {
        self.0 == 100
    }
}

/// Progress never goes down and never passes 100%.
pub proof fn law_progress_monotone(p: u8, inc: u8)
    requires
        p <= 100,
    ensures
        p <= progress_after(p, inc) <= 100,
{
}

/// A task state is terminal exactly when the task is no longer on its way: every state but
/// new, scheduled and running (that is success, failure, cancellation and timeout) ends the
/// task, and none of those three does.
pub proof fn law_terminal_states(s: State)
    ensures
        is_terminal(s) <==> !(s is New || s is Scheduled || s is Running),
        s is Cancelled ==> is_terminal(s),
        s is TimedOut ==> is_terminal(s),
        s is Success ==> is_terminal(s),
        s is Failure ==> is_terminal(s),
{
}

} // verus!
