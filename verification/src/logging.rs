//! Log configuration, log records and their text, and the decisions of logging initialization.
use crate::events::{module_source_text, ModuleSource};
use crate::text::{decimal, push_decimal, push_str};
use vstd::prelude::*;

verus! {

/// Log levels, most severe first.
#[derive(Clone, Copy, Debug, PartialEq, Eq, Structural, Hash, PartialOrd, Ord)]
pub enum LogLevel {
    /// errors
    Error,
    /// warnings
    Warn,
    /// information
    Info,
    /// debugging
    Debug,
    /// tracing
    Trace,
}

/// The text of a log level, as the log crate writes it.
pub open spec fn log_level_text(level: LogLevel) -> Seq<char> {
    match level {
        LogLevel::Error => "ERROR"@,
        LogLevel::Warn => "WARN"@,
        LogLevel::Info => "INFO"@,
        LogLevel::Debug => "DEBUG"@,
        LogLevel::Trace => "TRACE"@,
    }
}

impl LogLevel {
    /// The level as text: `ERROR`, `WARN`, `INFO`, `DEBUG` or `TRACE`.
    pub fn as_str(self) -> (r: &'static str)
        ensures
            r@ == log_level_text(self),
    {
        match self {
            LogLevel::Error => "ERROR",
            LogLevel::Warn => "WARN",
            LogLevel::Info => "INFO",
            LogLevel::Debug => "DEBUG",
            LogLevel::Trace => "TRACE",
        }
    }
}

/// The log level that an event level is logged at: debug and info as such, notices and
/// warnings as warnings, everything else as errors.
pub open spec fn event_log_level(level: crate::events::Level) -> LogLevel {
    match level {
        crate::events::Level::Debug => LogLevel::Debug,
        crate::events::Level::Info => LogLevel::Info,
        crate::events::Level::Notice => LogLevel::Warn,
        crate::events::Level::Warning => LogLevel::Warn,
        _ => LogLevel::Error,
    }
}

impl crate::events::Level {
    /// The log level that events of this level are logged at.
    pub fn log_level(self) -> (r: LogLevel)
        ensures
            r == event_log_level(self),
    {
        match self {
            crate::events::Level::Debug => LogLevel::Debug,
            crate::events::Level::Info => LogLevel::Info,
            crate::events::Level::Notice | crate::events::Level::Warning => LogLevel::Warn,
            _ => LogLevel::Error,
        }
    }
}

/// Represents a log target
pub struct Target(pub String);

impl Target {
    /// constructor
    pub fn new(value: String) -> (r: Target)
        ensures
            r.0@ == value@,
    {
        Target(value)
    }

    /// Constructs a new Target by appending the specified target: `self::target`.
    pub fn append(&self, target: Target) -> (r: Target)
        ensures
            r.0@ == self.0@ + "::"@ + target.0@,
    {
        let mut s = self.0.clone();
        push_str(&mut s, "::");
        push_str(&mut s, target.0.as_str());
        Target(s)
    }
}

/// The log configuration: the root level, an optional level for the application crate, and
/// optional levels for specific targets.
pub struct LogConfig {
    root_level: LogLevel,
    crate_level: Option<LogLevel>,
    target_levels: Option<Vec<(Target, LogLevel)>>,
}

/// The target texts of a list of target levels.
pub open spec fn targets_of(v: Seq<(Target, LogLevel)>) -> Seq<Seq<char>> {
    v.map_values(|e: (Target, LogLevel)| e.0.0@)
}

/// The level that a list of target levels gives each target.
pub open spec fn levels_of(v: Seq<(Target, LogLevel)>) -> Map<Seq<char>, LogLevel>
    decreases v.len(),
{
    if v.len() == 0 {
        Map::empty()
    } else {
        levels_of(v.drop_last()).insert(v.last().0.0@, v.last().1)
    }
}

impl LogConfig {
    /// The root level.
    pub closed spec fn spec_root_level(&self) -> LogLevel {
        self.root_level
    }

    /// The crate level.
    pub closed spec fn spec_crate_level(&self) -> Option<LogLevel> {
        self.crate_level
    }

    /// The target levels: none, or the level of each configured target.
    pub closed spec fn spec_target_levels(&self) -> Option<Map<Seq<char>, LogLevel>> {
        match self.target_levels {
            Some(v) => Some(levels_of(v@)),
            None => None,
        }
    }

    /// Each target occurs once in the list of target levels.
    pub closed spec fn wf(&self) -> bool {
        match self.target_levels {
            Some(v) => targets_of(v@).no_duplicates(),
            None => true,
        }
    }

    /// Returns the root log level.
    pub fn root_level(&self) -> (r: LogLevel)
        ensures
            r == self.spec_root_level(),
    {
        self.root_level
    }

    /// Returns the configured crate log level
    pub fn crate_level(&self) -> (r: Option<LogLevel>)
        ensures
            r == self.spec_crate_level(),
    {
        self.crate_level
    }

    /// Returns the configured target log levels, each target once
    pub fn target_levels(&self) -> (r: Option<&Vec<(Target, LogLevel)>>)
        requires
            self.wf(),
        ensures
            r is Some <==> self.spec_target_levels() is Some,
            r matches Some(v) ==> self.spec_target_levels() == Some(levels_of(v@))
                && targets_of(v@).no_duplicates(),
    {
        match &self.target_levels {
            Some(v) => Some(v),
            None => None,
        }
    }

    /// The configured target levels in order, as plain values.
    pub closed spec fn spec_target_entries(&self) -> Seq<(Seq<char>, LogLevel)> {
        match self.target_levels {
            Some(v) => entries_of(v@),
            None => seq![],
        }
    }

    /// The level directives that logging is set up with, in order: the crate's level for the
    /// crate's name, when one is configured, then each configured target's level.
    pub fn level_directives(&self, crate_name: &str) -> (r: Vec<(String, LogLevel)>)
        ensures
            directives_of(r@) == match self.spec_crate_level() {
                Some(l) => seq![(crate_name@, l)],
                None => seq![],
            } + self.spec_target_entries(),
    {
        let mut r: Vec<(String, LogLevel)> = Vec::new();
        if let Some(level) = self.crate_level {
            r.push((crate_name.to_owned(), level));
        }
        let ghost head = directives_of(r@);
        assert(head == match self.spec_crate_level() {
            Some(l) => seq![(crate_name@, l)],
            None => seq![],
        });
        if let Some(v) = &self.target_levels {
            let mut i: usize = 0;
            while i < v.len()
                invariant
                    i <= v.len(),
                    directives_of(r@) =~= head + entries_of(v@).subrange(0, i as int),
                decreases v.len() - i,
            {
                let ghost old_r = r@;
                let name = v[i].0.0.clone();
                r.push((name, v[i].1));
                assert(directives_of(r@) =~= directives_of(old_r).push((v@[i as int].0.0@, v@[i as int].1)));
                assert(entries_of(v@).subrange(0, i + 1) =~= entries_of(v@).subrange(0, i as int).push(
                    entries_of(v@)[i as int],
                ));
                i = i + 1;
            }
            assert(entries_of(v@).subrange(0, v@.len() as int) =~= entries_of(v@));
        } else {
            assert(directives_of(r@) =~= head + seq![]);
        }
        r
    }
}

/// Level directives as plain values.
pub open spec fn directives_of(v: Seq<(String, LogLevel)>) -> Seq<(Seq<char>, LogLevel)> {
    v.map_values(|d: (String, LogLevel)| (d.0@, d.1))
}

/// Target levels as plain values.
pub open spec fn entries_of(v: Seq<(Target, LogLevel)>) -> Seq<(Seq<char>, LogLevel)> {
    v.map_values(|e: (Target, LogLevel)| (e.0.0@, e.1))
}

impl Default for LogConfig {
    /// Creates a default LogConfig with the root log level set to Warn
    fn default() -> (r: LogConfig)
        ensures
            r.wf(),
            r.spec_root_level() == LogLevel::Warn,
            r.spec_crate_level() is None,
            r.spec_target_levels() is None,
    {
        LogConfig { root_level: LogLevel::Warn, crate_level: None, target_levels: None }
    }
}

/// Builds a [`LogConfig`].
pub struct LogConfigBuilder {
    config: LogConfig,
}

impl LogConfigBuilder {
    /// The configuration being built.
    pub closed spec fn spec_config(&self) -> LogConfig {
        self.config
    }

    /// Constructs a new LogConfigBuilder with the specified root log level
    pub fn new(root_level: LogLevel) -> (r: LogConfigBuilder)
        ensures
            r.spec_config().wf(),
            r.spec_config().spec_root_level() == root_level,
            r.spec_config().spec_crate_level() is None,
            r.spec_config().spec_target_levels() is None,
    {
        LogConfigBuilder { config: LogConfig { root_level, crate_level: None, target_levels: None } }
    }

    /// Sets the log level for this crate
    pub fn crate_level(self, level: LogLevel) -> (r: LogConfigBuilder)
        requires
            self.spec_config().wf(),
        ensures
            r.spec_config().wf(),
            r.spec_config().spec_root_level() == self.spec_config().spec_root_level(),
            r.spec_config().spec_crate_level() == Some(level),
            r.spec_config().spec_target_levels() == self.spec_config().spec_target_levels(),
    {
        let mut builder = self;
        builder.config.crate_level = Some(level);
        builder
    }

    /// Sets the log level for the specified target; a target that was set before gets the new
    /// level.
    pub fn target_level(self, target: Target, level: LogLevel) -> (r: LogConfigBuilder)
        requires
            self.spec_config().wf(),
        ensures
            r.spec_config().wf(),
            r.spec_config().spec_root_level() == self.spec_config().spec_root_level(),
            r.spec_config().spec_crate_level() == self.spec_config().spec_crate_level(),
            r.spec_config().spec_target_levels() == Some(
                match self.spec_config().spec_target_levels() {
                    Some(m) => m,
                    None => Map::<Seq<char>, LogLevel>::empty(),
                }.insert(target.0@, level),
            ),
    {
        let mut builder = self;
        let mut levels = match builder.config.target_levels.take() {
            Some(v) => v,
            None => {
                let v: Vec<(Target, LogLevel)> = Vec::new();
                assert(levels_of(v@) =~= Map::empty());
                v
            },
        };
        set_level(&mut levels, target, level);
        builder.config.target_levels = Some(levels);
        builder
    }

    /// Builds and returns the LogConfig
    pub fn build(self) -> (r: LogConfig)
        ensures
            r == self.spec_config(),
    {
        self.config
    }
}

/// The target levels that a sequence of `target_level` calls sets, in order: each call inserts
/// its target's level (see [`LogConfigBuilder::target_level`]).
pub open spec fn levels_set_by(steps: Seq<(Seq<char>, LogLevel)>) -> Map<Seq<char>, LogLevel>
    decreases steps.len(),
{
    if steps.len() == 0 {
        Map::empty()
    } else {
        levels_set_by(steps.drop_last()).insert(steps.last().0, steps.last().1)
    }
}

/// The last level set for a target wins: after `target_level` calls, in order, the configured
/// targets are exactly those that were set, and each has the level of the last call for it.
/// (A builder from `new` has no target levels, `crate_level` keeps them, and each
/// `target_level` call is one more step of `levels_set_by`.)
pub proof fn law_last_target_level_wins(steps: Seq<(Seq<char>, LogLevel)>, t: Seq<char>)
    ensures
        levels_set_by(steps).dom() == steps.map_values(|s: (Seq<char>, LogLevel)| s.0).to_set(),
        forall|i: int|
            0 <= i < steps.len() && steps[i].0 == t && (forall|j: int| i < j < steps.len() ==> steps[j].0 != t)
                ==> levels_set_by(steps)[t] == #[trigger] steps[i].1,
    decreases steps.len(),
{
    if steps.len() == 0 {
        assert(steps.map_values(|s: (Seq<char>, LogLevel)| s.0).to_set() =~= Set::empty());
    } else {
        let init = steps.drop_last();
        law_last_target_level_wins(init, t);
        let f = |s: (Seq<char>, LogLevel)| s.0;
        assert(steps.map_values(f) =~= init.map_values(f).push(steps.last().0));
        init.map_values(f).lemma_push_to_set_commute(steps.last().0);
        assert forall|i: int|
            0 <= i < steps.len() && steps[i].0 == t && (forall|j: int| i < j < steps.len() ==> steps[j].0 != t)
                implies levels_set_by(steps)[t] == #[trigger] steps[i].1 by {
            if i < steps.len() - 1 {
                assert(steps[steps.len() - 1].0 != t);
                assert(init[i] == steps[i]);
                assert(forall|j: int| i < j < init.len() ==> init[j] == steps[j]);
            }
        }
    }
}

/// The `target_level` calls of a run of builder calls, in order: `Some((target, level))` stands
/// for a `target_level` call, `None` for a `crate_level` call.
pub open spec fn target_steps(calls: Seq<Option<(Seq<char>, LogLevel)>>) -> Seq<(Seq<char>, LogLevel)>
    decreases calls.len(),
{
    if calls.len() == 0 {
        seq![]
    } else {
        let init = target_steps(calls.drop_last());
        match calls.last() {
            Some(step) => init.push(step),
            None => init,
        }
    }
}

/// One builder call on the configuration being built: `crate_level` keeps the target levels
/// and `target_level` inserts its target's level (see [`LogConfigBuilder::crate_level`] and
/// [`LogConfigBuilder::target_level`]).
pub open spec fn builder_call(before: LogConfig, call: Option<(Seq<char>, LogLevel)>, after: LogConfig) -> bool {
    match call {
        None => after.spec_target_levels() == before.spec_target_levels(),
        Some((t, l)) => after.spec_target_levels() == Some(
            match before.spec_target_levels() {
                Some(m) => m,
                None => Map::<Seq<char>, LogLevel>::empty(),
            }.insert(t, l),
        ),
    }
}

/// A configuration built by a run of builder calls from [`LogConfigBuilder::new`] has no
/// target levels exactly when no `target_level` call was made; otherwise its targets are
/// exactly the targets set, each with the level of the last call for it.
pub proof fn law_builder_run(configs: Seq<LogConfig>, calls: Seq<Option<(Seq<char>, LogLevel)>>)
    requires
        configs.len() == calls.len() + 1,
        configs[0].spec_target_levels() is None,
        forall|i: int| 0 <= i < calls.len() ==> builder_call(#[trigger] configs[i], calls[i], configs[i + 1]),
    ensures
        configs.last().spec_target_levels() is None <==> target_steps(calls).len() == 0,
        target_steps(calls).len() > 0 ==> configs.last().spec_target_levels() == Some(
            levels_set_by(target_steps(calls)),
        ),
        configs.last().spec_target_levels() matches Some(m) ==> m.dom() == target_steps(calls).map_values(
            |s: (Seq<char>, LogLevel)| s.0,
        ).to_set(),
    decreases calls.len(),
{
    if calls.len() > 0 {
        let k = calls.len() - 1;
        let init = configs.drop_last();
        assert forall|i: int| 0 <= i < calls.drop_last().len() implies builder_call(
            #[trigger] init[i],
            calls.drop_last()[i],
            init[i + 1],
        ) by {
            assert(builder_call(configs[i], calls[i], configs[i + 1]));
        }
        law_builder_run(init, calls.drop_last());
        assert(init.last() == configs[k]);
        assert(builder_call(configs[k], calls[k], configs[k + 1]));
        let ts = target_steps(calls.drop_last());
        if let Some(step) = calls[k] {
            assert(ts.push(step).drop_last() =~= ts);
            if ts.len() == 0 {
                assert(levels_set_by(ts) =~= Map::<Seq<char>, LogLevel>::empty());
            }
        }
    }
    if target_steps(calls).len() > 0 {
        law_last_target_level_wins(target_steps(calls), seq![]);
    }
}

proof fn lemma_levels_of_push(v: Seq<(Target, LogLevel)>, e: (Target, LogLevel))
    ensures
        levels_of(v.push(e)) == levels_of(v).insert(e.0.0@, e.1),
{
    assert(v.push(e).drop_last() =~= v);
}

proof fn lemma_levels_of_update(v: Seq<(Target, LogLevel)>, i: int, e: (Target, LogLevel))
    requires
        0 <= i < v.len(),
        targets_of(v).no_duplicates(),
        v[i].0.0@ == e.0.0@,
    ensures
        levels_of(v.update(i, e)) == levels_of(v).insert(e.0.0@, e.1),
        targets_of(v.update(i, e)) == targets_of(v),
    decreases v.len(),
{
    assert(targets_of(v.update(i, e)) =~= targets_of(v));
    if i == v.len() - 1 {
        assert(v.update(i, e).drop_last() =~= v.drop_last());
        assert(targets_of(v.drop_last()) =~= targets_of(v).drop_last());
        assert(!targets_of(v.drop_last()).contains(e.0.0@)) by {
            if targets_of(v.drop_last()).contains(e.0.0@) {
                let k = choose|k: int| 0 <= k < targets_of(v.drop_last()).len() && targets_of(v.drop_last())[k] == e.0.0@;
                assert(targets_of(v)[k] == targets_of(v)[v.len() - 1]);
            }
        }
        lemma_levels_of_lacks(v.drop_last(), e.0.0@);
        assert(levels_of(v.update(i, e)) =~= levels_of(v).insert(e.0.0@, e.1));
    } else {
        assert(targets_of(v.drop_last()) =~= targets_of(v).drop_last());
        lemma_levels_of_update(v.drop_last(), i, e);
        assert(v.update(i, e).drop_last() =~= v.drop_last().update(i, e));
        assert(targets_of(v)[i] == e.0.0@);
        assert(targets_of(v)[v.len() - 1] == v.last().0.0@);
        assert(v.last().0.0@ != e.0.0@);
        assert(levels_of(v.update(i, e)) =~= levels_of(v).insert(e.0.0@, e.1));
    }
}

proof fn lemma_levels_of_lacks(v: Seq<(Target, LogLevel)>, t: Seq<char>)
    requires
        !targets_of(v).contains(t),
    ensures
        !levels_of(v).dom().contains(t),
    decreases v.len(),
{
    if v.len() > 0 {
        assert(targets_of(v.drop_last()) =~= targets_of(v).drop_last());
        assert(targets_of(v)[v.len() - 1] == v.last().0.0@);
        lemma_levels_of_lacks(v.drop_last(), t);
    }
}

/// Sets the level of a target in a list of target levels: replaces the entry of the target,
/// or appends one.
fn set_level(v: &mut Vec<(Target, LogLevel)>, target: Target, level: LogLevel)
    requires
        targets_of(old(v)@).no_duplicates(),
    ensures
        targets_of(final(v)@).no_duplicates(),
        levels_of(final(v)@) == levels_of(old(v)@).insert(target.0@, level),
{
    let mut i: usize = 0;
    while i < v.len()
        invariant
            i <= v.len(),
            v@ == old(v)@,
            targets_of(v@).no_duplicates(),
            forall|j: int| 0 <= j < i ==> v@[j].0.0@ != target.0@,
        decreases v.len() - i,
    {
        if v[i].0.0 == target.0 {
            let ghost before = v@;
            let e = (target, level);
            proof {
                lemma_levels_of_update(before, i as int, e);
            }
            v.set(i, e);
            assert(v@ == before.update(i as int, e));
            return;
        }
        i = i + 1;
    }
    let ghost before = v@;
    proof {
        assert(!targets_of(before).contains(target.0@)) by {
            if targets_of(before).contains(target.0@) {
                let k = choose|k: int| 0 <= k < targets_of(before).len() && targets_of(before)[k] == target.0@;
                assert(before[k].0.0@ == target.0@);
            }
        }
        lemma_levels_of_push(before, (target, level));
        assert(targets_of(before.push((target, level))) =~= targets_of(before).push(target.0@));
    }
    v.push((target, level));
}

/// Log record text of a log target.
pub struct LogTarget(pub String);

/// Log record message.
pub struct LogMessage(pub String);

/// A log record: target, level, message, and where it was logged, when that is known.
pub struct LogRecord {
    target: LogTarget,
    level: LogLevel,
    msg: LogMessage,
    module_source: Option<ModuleSource>,
}

/// The text of a log line: `[LEVEL][timestamp][target][module:line] message`, or without the
/// location when it is not known.
pub open spec fn log_line_text(
    level: LogLevel,
    timestamp: Seq<char>,
    target: Seq<char>,
    location: Option<(Seq<char>, u32)>,
    message: Seq<char>,
) -> Seq<char> {
    match location {
        Some(l) => "["@ + log_level_text(level) + "]["@ + timestamp + "]["@ + target + "]["@
            + module_source_text(l.0, l.1) + "] "@ + message,
        None => "["@ + log_level_text(level) + "]["@ + timestamp + "]["@ + target + "] "@
            + message,
    }
}

/// The text of a formatted log record: `[timestamp][LEVEL][target][module:line] message`;
/// without the location when the module or the line is not known.
pub open spec fn record_text(
    level: LogLevel,
    timestamp: Seq<char>,
    target: Seq<char>,
    location: Option<(Seq<char>, u32)>,
    message: Seq<char>,
) -> Seq<char> {
    match location {
        Some(l) => "["@ + timestamp + "]["@ + log_level_text(level) + "]["@ + target + "]["@
            + l.0 + ":"@ + decimal(l.1 as nat) + "] "@ + message,
        None => "["@ + timestamp + "]["@ + log_level_text(level) + "]["@ + target + "] "@
            + message,
    }
}

/// The location of a log record: present when both the module and the line are known.
pub open spec fn record_location(mod_path: Option<Seq<char>>, line: Option<u32>) -> Option<(Seq<char>, u32)> {
    match (mod_path, line) {
        (Some(m), Some(l)) => Some((m, l)),
        _ => None,
    }
}

/// The plain view of an optional string.
pub open spec fn opt_text(s: Option<&str>) -> Option<Seq<char>> {
    match s {
        Some(t) => Some(t@),
        None => None,
    }
}

/// Formats a log record: `[timestamp][LEVEL][target][module:line] message`; the location is
/// left out when the module or the line is not known.
pub fn format_record(
    level: LogLevel,
    timestamp: &str,
    target: &str,
    mod_path: Option<&str>,
    line: Option<u32>,
    message: &str,
) -> (r: String)
    ensures
        r@ == record_text(level, timestamp@, target@, record_location(opt_text(mod_path), line), message@),
{
    let mut r = String::new();
    push_str(&mut r, "[");
    push_str(&mut r, timestamp);
    push_str(&mut r, "][");
    push_str(&mut r, level.as_str());
    push_str(&mut r, "][");
    push_str(&mut r, target);
    match (mod_path, line) {
        (Some(m), Some(l)) => {
            push_str(&mut r, "][");
            push_str(&mut r, m);
            push_str(&mut r, ":");
            push_decimal(&mut r, l as u128);
            push_str(&mut r, "] ");
        },
        _ => {
            push_str(&mut r, "] ");
        },
    }
    push_str(&mut r, message);
    r
}

impl LogRecord {
    /// The target.
    pub closed spec fn spec_target(&self) -> Seq<char> {
        self.target.0@
    }

    /// The level.
    pub closed spec fn spec_level(&self) -> LogLevel {
        self.level
    }

    /// The message.
    pub closed spec fn spec_message(&self) -> Seq<char> {
        self.msg.0@
    }

    /// The location: module path and line.
    pub closed spec fn spec_location(&self) -> Option<(Seq<char>, u32)> {
        match self.module_source {
            Some(m) => Some((m.path(), m.line_number())),
            None => None,
        }
    }

    /// A log record from the parts of a logged record: the location is kept when both the
    /// module path and the line are known.
    pub fn new(target: &str, level: LogLevel, message: String, mod_path: Option<&str>, line: Option<u32>) -> (r: LogRecord)
        ensures
            r.spec_target() == target@,
            r.spec_level() == level,
            r.spec_message() == message@,
            r.spec_location() == record_location(opt_text(mod_path), line),
    {
        let module_source = match (mod_path, line) {
            (Some(m), Some(l)) => Some(ModuleSource::new(m, l)),
            _ => None,
        };
        LogRecord { target: LogTarget(target.to_owned()), level, msg: LogMessage(message), module_source }
    }

    /// LogTarget getter
    pub fn target(&self) -> (r: &LogTarget)
        ensures
            r.0@ == self.spec_target(),
    {
        &self.target
    }

    /// Level getter
    pub fn level(&self) -> (r: LogLevel)
        ensures
            r == self.spec_level(),
    {
        self.level
    }

    /// LogMessage getter
    pub fn message(&self) -> (r: &LogMessage)
        ensures
            r.0@ == self.spec_message(),
    {
        &self.msg
    }

    /// ModuleSource getter
    pub fn module_source(&self) -> (r: Option<&ModuleSource>)
        ensures
            r is Some <==> self.spec_location() is Some,
            r matches Some(m) ==> Some((m.path(), m.line_number())) == self.spec_location(),
    {
        match &self.module_source {
            Some(m) => Some(m),
            None => None,
        }
    }

    /// The line that the logging service writes for the record at `timestamp`:
    /// `[LEVEL][timestamp][target][module:line] message`, without the location when it is not
    /// known.
    pub fn line_text(&self, timestamp: &str) -> (r: String)
        ensures
            r@ == log_line_text(
                self.spec_level(),
                timestamp@,
                self.spec_target(),
                self.spec_location(),
                self.spec_message(),
            ),
    {
        let mut r = String::new();
        push_str(&mut r, "[");
        push_str(&mut r, self.level.as_str());
        push_str(&mut r, "][");
        push_str(&mut r, timestamp);
        push_str(&mut r, "][");
        push_str(&mut r, self.target.0.as_str());
        match &self.module_source {
            Some(m) => {
                push_str(&mut r, "][");
                let t = m.to_string();
                push_str(&mut r, t.as_str());
            },
            None => {},
        }
        push_str(&mut r, "] ");
        push_str(&mut r, self.msg.0.as_str());
        r
    }
}

/// Logs records; implemented by the application's log writers.
pub trait RecordLogger {
    /// log the record
    fn log(&self, record: &LogRecord);
}

/// The state of logging initialization.
#[derive(Clone, Copy, Debug, PartialEq, Eq, Structural, Hash)]
pub enum InitState {
    /// logging has not been initialized
    NotInitialized,
    /// logging is being initialized
    Initializing,
    /// logging has been initialized
    Initialized,
}

/// What an initialization request does.
#[derive(Clone, Copy, Debug, PartialEq, Eq, Structural, Hash)]
pub enum InitAction {
    /// set up logging with the configuration, then mark logging initialized
    Initialize,
    /// another request is initializing: wait until logging is initialized
    WaitForInitialization,
    /// logging has already been initialized: only warn
    AlreadyInitialized,
}

/// What an initialization request does in each state: the first request initializes (and
/// moves the state to `Initializing`); a request while another initializes waits; any later
/// request only warns.
pub open spec fn init_transition(state: InitState) -> (InitState, InitAction) {
    match state {
        InitState::NotInitialized => (InitState::Initializing, InitAction::Initialize),
        InitState::Initializing => (InitState::Initializing, InitAction::WaitForInitialization),
        InitState::Initialized => (InitState::Initialized, InitAction::AlreadyInitialized),
    }
}

/// The state once the request that initializes has set logging up.
pub open spec fn init_completed(state: InitState) -> InitState {
    match state {
        InitState::Initializing => InitState::Initialized,
        _ => state,
    }
}

/// Decides an initialization request (see [`init_transition`]).
pub fn init_request(state: InitState) -> (r: (InitState, InitAction))
    ensures
        r == init_transition(state),
{
    match state {
        InitState::NotInitialized => (InitState::Initializing, InitAction::Initialize),
        InitState::Initializing => (InitState::Initializing, InitAction::WaitForInitialization),
        InitState::Initialized => (InitState::Initialized, InitAction::AlreadyInitialized),
    }
}

/// Marks logging initialized, once the request that initializes has set it up.
pub fn init_complete(state: InitState) -> (r: InitState)
    ensures
        r == init_completed(state),
{
    match state {
        InitState::Initializing => InitState::Initialized,
        _ => state,
    }
}

/// The states that a sequence of requests (each `false`) and completions (each `true`) passes
/// through, from `s`, and the number of requests among them that initialize.
pub open spec fn initializations(s: InitState, steps: Seq<bool>) -> (InitState, nat)
    decreases steps.len(),
{
    if steps.len() == 0 {
        (s, 0)
    } else {
        let (next, count) = if steps[0] {
            (init_completed(s), 0nat)
        } else {
            let (n, a) = init_transition(s);
            (n, if a is Initialize { 1nat } else { 0nat })
        };
        let (last, rest) = initializations(next, steps.drop_first());
        (last, count + rest)
    }
}

/// Logging is initialized at most once: whatever the requests and completions, at most one
/// request initializes, and none once initialization has begun.
pub proof fn law_initialized_at_most_once(s: InitState, steps: Seq<bool>)
    ensures
        initializations(s, steps).1 <= 1,
        !(s is NotInitialized) ==> initializations(s, steps).1 == 0,
    decreases steps.len(),
{
    if steps.len() > 0 {
        let next = if steps[0] {
            init_completed(s)
        } else {
            init_transition(s).0
        };
        law_initialized_at_most_once(next, steps.drop_first());
    }
}

/// Events are logged at a level at least as severe as their own: every error-class event level
/// (emergency, alert, critical, error; the levels with `is_error`) is logged as an error; a
/// level is logged as a warning exactly when it is a notice or a warning; info is logged as
/// info and debug as debug. A more urgent event level is never logged less severely.
pub proof fn law_event_log_levels(l: crate::events::Level, other: crate::events::Level)
    ensures
        l.rank() <= 3 ==> event_log_level(l) == LogLevel::Error,
        (l is Emergency || l is Alert || l is Critical || l is Error) ==> event_log_level(l) == LogLevel::Error,
        event_log_level(l) == LogLevel::Warn <==> (l is Notice || l is Warning),
        event_log_level(l) == LogLevel::Error <==> l.rank() <= 3,
        l is Info ==> event_log_level(l) == LogLevel::Info,
        l is Debug ==> event_log_level(l) == LogLevel::Debug,
        l.rank() <= other.rank() ==> severity(event_log_level(l)) >= severity(event_log_level(other)),
{
}

/// The severity of a log level: error highest, trace lowest.
pub open spec fn severity(level: LogLevel) -> int {
    match level {
        LogLevel::Error => 4,
        LogLevel::Warn => 3,
        LogLevel::Info => 2,
        LogLevel::Debug => 1,
        LogLevel::Trace => 0,
    }
}

} // verus!
