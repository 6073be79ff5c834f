use vstd::prelude::*;

verus! {

/// Lifecycle state of an activity: it starts `Running` and ends in one of
/// the two terminal states, `Completed` or `Aborted`.
#[derive(Debug, Clone, Copy, PartialEq, Eq, Structural)]
pub enum Status {
    Completed,
    Aborted,
    Running,
}

/// The category of an activity: a task carrying a free-text description,
/// or a break with no payload.
#[derive(Debug)]
pub enum Kind {
    Task(String),
    Break,
}

/// Mathematical shape of a `Kind`: the description is abstracted to its
/// character sequence.
pub enum KindModel {
    Task(Seq<char>),
    Break,
}

impl View for Kind {
    type V = KindModel;

    open spec fn view(&self) -> KindModel {
        match self {
            Kind::Task(d) => KindModel::Task(d@),
            Kind::Break => KindModel::Break,
        }
    }
}

/// An absolute point in time, held as whole non-leap seconds since the Unix
/// epoch (1970-01-01 00:00:00 UTC). Negative values lie before the epoch.
#[derive(Debug, Clone, Copy, PartialEq, Eq, Structural)]
pub struct Timestamp {
    secs: i64,
}

impl View for Timestamp {
    type V = int;

    closed spec fn view(&self) -> int {
        self.secs as int
    }
}

impl Timestamp {
    pub fn from_secs(secs: i64) -> (t: Timestamp)
        ensures
            t@ == secs as int,
    {
        Timestamp { secs }
    }

    pub fn secs(&self) -> (s: i64)
        ensures
            s as int == self@,
    {
        self.secs
    }
}

/// Mathematical shape of a `Pomodoro`: the timestamp as seconds since the
/// epoch, the two durations as whole seconds.
#[verifier::ext_equal]
pub struct ActivityModel {
    pub start_secs: int,
    pub elapsed: int,
    pub expected: int,
    pub status: Status,
    pub kind: KindModel,
}

/// The elapsed span between `start` and `now`, clamped to zero when the
/// clock has gone backwards past the start.
pub open spec fn clamped_elapsed(start: int, now: int) -> int {
    if now >= start {
        now - start
    } else {
        0
    }
}

/// The state a fresh activity is constructed in: no time elapsed yet,
/// status `Running`.
pub open spec fn new_model(start_secs: int, expected: int, kind: KindModel) -> ActivityModel {
    ActivityModel { start_secs, elapsed: 0, expected, status: Status::Running, kind }
}

/// The state transition performed by `update`: while `Running`, the elapsed
/// duration is recomputed from the supplied time and the activity completes
/// as soon as it reaches the expected duration; a terminal activity is left
/// untouched.
pub open spec fn update_model(m: ActivityModel, now: int) -> ActivityModel {
    if m.status == Status::Running {
        let e = clamped_elapsed(m.start_secs, now);
        ActivityModel {
            start_secs: m.start_secs,
            elapsed: e,
            expected: m.expected,
            status: if e >= m.expected {
                Status::Completed
            } else {
                Status::Running
            },
            kind: m.kind,
        }
    } else {
        m
    }
}

/// The state transition performed by `abort`: completion is final, any other
/// state moves to `Aborted`.
pub open spec fn abort_model(m: ActivityModel) -> ActivityModel {
    if m.status == Status::Completed {
        m
    } else {
        ActivityModel {
            start_secs: m.start_secs,
            elapsed: m.elapsed,
            expected: m.expected,
            status: Status::Aborted,
            kind: m.kind,
        }
    }
}

/// Well-formedness of an activity: the durations are machine-representable
/// and a completed activity has reached its expected duration.
pub open spec fn wf(m: ActivityModel) -> bool {
    &&& 0 <= m.elapsed <= u64::MAX
    &&& 0 <= m.expected <= u64::MAX
    &&& i64::MIN <= m.start_secs <= i64::MAX
    &&& (m.status == Status::Completed ==> m.elapsed >= m.expected)
}

/// A timed unit of work or rest: it starts at a fixed time, is measured
/// against a fixed expected duration, and moves from `Running` to
/// `Completed` or `Aborted`. Durations are whole seconds.
#[derive(Debug)]
pub struct Pomodoro {
    start_time: Timestamp,
    duration: u64,
    expected_duration: u64,
    status: Status,
    kind: Kind,
}

impl View for Pomodoro {
    type V = ActivityModel;

    closed spec fn view(&self) -> ActivityModel {
        ActivityModel {
            start_secs: self.start_time@,
            elapsed: self.duration as int,
            expected: self.expected_duration as int,
            status: self.status,
            kind: self.kind@,
        }
    }
}

impl Pomodoro {
    /// Construct an activity of the given kind, running from `start_time`
    /// towards `expected_duration` seconds.
    pub fn new(start_time: Timestamp, expected_duration: u64, kind: Kind) -> (p: Pomodoro)
        ensures
            p@ == new_model(start_time@, expected_duration as int, kind@),
            wf(p@),
    {
        Pomodoro {
            start_time,
            duration: 0,
            expected_duration,
            status: Status::Running,
            kind,
        }
    }

    /// Construct a task activity with a free-text description.
    pub fn new_task(start_time: Timestamp, expected_duration: u64, description: String) -> (p:
        Pomodoro)
        ensures
            p@ == new_model(start_time@, expected_duration as int, KindModel::Task(description@)),
            wf(p@),
    {
        Pomodoro {
            start_time,
            duration: 0,
            expected_duration,
            status: Status::Running,
            kind: Kind::Task(description),
        }
    }

    /// Construct a break activity.
    pub fn new_break(start_time: Timestamp, expected_duration: u64) -> (p: Pomodoro)
        ensures
            p@ == new_model(start_time@, expected_duration as int, KindModel::Break),
            wf(p@),
    {
        Pomodoro {
            start_time,
            duration: 0,
            expected_duration,
            status: Status::Running,
            kind: Kind::Break,
        }
    }

    /// Abort the activity; a completed activity stays completed.
    pub fn abort(&mut self)
        ensures
            final(self)@ == abort_model(old(self)@),
    {
        if self.status != Status::Completed {
            self.status = Status::Aborted;
        }
    }

    /// Whether the activity has run for at least its expected duration.
    /// This is a pure query on the durations, independent of the status.
    pub fn is_finished(&self) -> (r: bool)
        ensures
            r == (self@.elapsed >= self@.expected),
    {
        self.duration >= self.expected_duration
    }

    /// Recompute the elapsed duration against `current_time` and report the
    /// (possibly just-changed) status. A terminal activity is left unchanged.
    /// A `current_time` before the start clamps the elapsed duration to zero.
    pub fn update(&mut self, current_time: Timestamp) -> (r: Status)
        ensures
            final(self)@ == update_model(old(self)@, current_time@),
            r == final(self)@.status,
    {
        match self.status {
            Status::Running => {
                let now: i64 = current_time.secs();
                let start: i64 = self.start_time.secs();
                let elapsed: u64 = if now >= start {
                    ((now as i128) - (start as i128)) as u64
                } else {
                    0
                };
                self.duration = elapsed;
                if self.duration >= self.expected_duration {
                    self.status = Status::Completed;
                }
                self.status
            },
            _ => self.status,
        }
    }

    /// The current lifecycle status.
    pub fn status(&self) -> (s: Status)
        ensures
            s == self@.status,
    {
        self.status
    }

    /// The elapsed duration in whole seconds, as last computed by `update`.
    pub fn elapsed_duration(&self) -> (d: u64)
        ensures
            d as int == self@.elapsed,
    {
        self.duration
    }

    /// The expected duration in whole seconds, fixed at construction.
    pub fn expected_duration(&self) -> (d: u64)
        ensures
            d as int == self@.expected,
    {
        self.expected_duration
    }

    /// The start time, fixed at construction.
    pub fn start_time(&self) -> (t: Timestamp)
        ensures
            t@ == self@.start_secs,
    {
        self.start_time
    }

    /// The kind, fixed at construction.
    pub fn kind(&self) -> (k: &Kind)
        ensures
            k@ == self@.kind,
    {
        &self.kind
    }
}

/// A fresh activity is well-formed.
pub proof fn lemma_new_wf(start_secs: int, expected: int, kind: KindModel)
    requires
        0 <= expected <= u64::MAX,
        i64::MIN <= start_secs <= i64::MAX,
    ensures
        wf(new_model(start_secs, expected, kind)),
{
}

/// `update` preserves well-formedness: in particular, once an activity is
/// `Completed` its elapsed duration has reached its expected duration.
pub proof fn lemma_update_preserves_wf(m: ActivityModel, now: int)
    requires
        wf(m),
        i64::MIN <= now <= i64::MAX,
    ensures
        wf(update_model(m, now)),
{
}

/// `abort` preserves well-formedness.
pub proof fn lemma_abort_preserves_wf(m: ActivityModel)
    requires
        wf(m),
    ensures
        wf(abort_model(m)),
{
}

/// Completion is sticky: aborting a completed activity changes nothing.
pub proof fn lemma_abort_after_completed(m: ActivityModel)
    requires
        m.status == Status::Completed,
    ensures
        abort_model(m) == m,
{
}

/// `abort` is idempotent: aborting twice is the same as aborting once.
pub proof fn lemma_abort_idempotent(m: ActivityModel)
    ensures
        abort_model(abort_model(m)) == abort_model(m),
{
    assert(abort_model(abort_model(m)) =~= abort_model(m));
}

/// `update` on a terminal activity is a no-op: in particular it does not
/// change the elapsed duration.
pub proof fn lemma_update_terminal_noop(m: ActivityModel, now: int)
    requires
        m.status != Status::Running,
    ensures
        update_model(m, now) == m,
        update_model(m, now).elapsed == m.elapsed,
{
}

} // verus!
