//! The battery worker's schedule. The caller runs the loop: every tick it
//! sleeps `TICK_MS`, asks `WorkerState::tick` whether to poll, polls the
//! device when told to, and hands the outcome to `WorkerState::record`,
//! which returns the event to pass on. A poll that opens the device itself
//! makes its checks in the order `owned_poll_step` gives.
use vstd::prelude::*;
use crate::device::protocol::{BatteryReadError, MouseStatus};

verus! {

/// Events the worker emits to whichever component spawned it.
#[derive(Debug, Clone, Copy, PartialEq, Eq, Structural)]
pub enum BatteryEvent {
    Update(MouseStatus),
    Asleep,
    Disconnected,
}

/// Outcome of one attempted poll.
#[derive(Debug, Clone, Copy, PartialEq, Eq, Structural)]
pub enum PollOutcome {
    /// The mouse answered with its status.
    Reading(MouseStatus),
    Asleep,
    Disconnected,
    /// Someone else holds the device; try again on the next tick.
    Busy,
}

/// A span of time in whole milliseconds. Arithmetic saturates at
/// `u64::MAX` milliseconds.
#[derive(Debug, Clone, Copy, PartialEq, Eq, Structural)]
pub struct Span {
    pub millis: u64,
}

/// The worker wakes up this often.
pub const TICK_MS: u64 = 200;

pub open spec fn sat(x: int) -> u64 {
    if x > u64::MAX {
        u64::MAX
    } else if x < 0 {
        0
    } else {
        x as u64
    }
}

/// `a * b`, saturating at `u64::MAX`.
fn mul_sat(a: u64, b: u64) -> (r: u64)
    ensures
        r == sat(a * b),
{
    if a == 0 {
        0
    } else if b <= u64::MAX / a {
        assert(a * b <= u64::MAX) by (nonlinear_arith)
            requires a > 0, b <= u64::MAX / a;
        a * b
    } else {
        assert(a * b > u64::MAX) by (nonlinear_arith)
            requires a > 0, b > u64::MAX / a;
        u64::MAX
    }
}

impl Span {
    pub fn from_millis(millis: u64) -> (s: Span)
        ensures
            s.millis == millis,
    {
        Span { millis }
    }

    /// `secs` seconds (saturating).
    pub fn from_secs(secs: u64) -> (s: Span)
        ensures
            s.millis == sat(secs * 1000),
    {
        Span { millis: mul_sat(secs, 1000) }
    }

    pub fn as_millis(&self) -> (m: u64)
        ensures
            m == self.millis,
    {
        self.millis
    }

    /// Whole seconds.
    pub fn as_secs(&self) -> (s: u64)
        ensures
            s == self.millis / 1000,
    {
        self.millis / 1000
    }

    pub fn saturating_mul(&self, k: u32) -> (s: Span)
        ensures
            s.millis == sat(self.millis * k),
    {
        Span { millis: mul_sat(self.millis, k as u64) }
    }

    pub fn saturating_sub(&self, other: Span) -> (s: Span)
        ensures
            s.millis == sat(self.millis - other.millis),
    {
        Span { millis: self.millis.saturating_sub(other.millis) }
    }

    pub fn saturating_add(&self, other: Span) -> (s: Span)
        ensures
            s.millis == sat(self.millis + other.millis),
    {
        Span { millis: self.millis.saturating_add(other.millis) }
    }
}

/// Maps the result of a battery read to the outcome of a poll.
pub fn classify(result: Result<MouseStatus, BatteryReadError>) -> (o: PollOutcome)
    ensures
        o == match result {
            Ok(status) => PollOutcome::Reading(status),
            Err(BatteryReadError::Asleep) => PollOutcome::Asleep,
            Err(BatteryReadError::Io) => PollOutcome::Disconnected,
        },
{
    match result {
        Ok(status) => PollOutcome::Reading(status),
        Err(BatteryReadError::Asleep) => PollOutcome::Asleep,
        Err(BatteryReadError::Io) => PollOutcome::Disconnected,
    }
}

/// The checks of a poll in which the worker opens the device itself, in
/// the order they are made.
#[derive(Debug, Clone, Copy, PartialEq, Eq, Structural)]
pub enum OwnedPollStage {
    /// Is the settings panel open?
    CheckPanel,
    /// Take the device lock, without waiting for it.
    LockDevice,
    /// Did the panel open while the lock was being taken?
    RecheckPanel,
    /// Open the device.
    OpenDevice,
}

/// What to do after a check.
#[derive(Debug, Clone, Copy, PartialEq, Eq, Structural)]
pub enum OwnedPollStep {
    /// Make this check next.
    Check(OwnedPollStage),
    /// Read the battery, holding the lock, and `classify` the result.
    ReadBattery,
    /// The poll ends with this outcome.
    Finish(PollOutcome),
}

pub open spec fn spec_owned_poll_step(stage: OwnedPollStage, passed: bool) -> OwnedPollStep {
    match stage {
        OwnedPollStage::CheckPanel => if passed {
            OwnedPollStep::Check(OwnedPollStage::LockDevice)
        } else {
            OwnedPollStep::Finish(PollOutcome::Busy)
        },
        OwnedPollStage::LockDevice => if passed {
            OwnedPollStep::Check(OwnedPollStage::RecheckPanel)
        } else {
            OwnedPollStep::Finish(PollOutcome::Busy)
        },
        OwnedPollStage::RecheckPanel => if passed {
            OwnedPollStep::Check(OwnedPollStage::OpenDevice)
        } else {
            OwnedPollStep::Finish(PollOutcome::Busy)
        },
        OwnedPollStage::OpenDevice => if passed {
            OwnedPollStep::ReadBattery
        } else {
            OwnedPollStep::Finish(PollOutcome::Disconnected)
        },
    }
}

/// The next step of a poll that opens the device itself, given whether the
/// check at `stage` passed (the panel is closed, the lock was taken, the
/// device opened). The poll starts at `CheckPanel`. An open panel or a held
/// lock makes it `Busy`, so that the panel has the device to itself; a
/// device that does not open makes it `Disconnected`, so that the backoff
/// starts.
pub fn owned_poll_step(stage: OwnedPollStage, passed: bool) -> (step: OwnedPollStep)
    ensures
        step == spec_owned_poll_step(stage, passed),
{
    match stage {
        OwnedPollStage::CheckPanel => if passed {
            OwnedPollStep::Check(OwnedPollStage::LockDevice)
        } else {
            OwnedPollStep::Finish(PollOutcome::Busy)
        },
        OwnedPollStage::LockDevice => if passed {
            OwnedPollStep::Check(OwnedPollStage::RecheckPanel)
        } else {
            OwnedPollStep::Finish(PollOutcome::Busy)
        },
        OwnedPollStage::RecheckPanel => if passed {
            OwnedPollStep::Check(OwnedPollStage::OpenDevice)
        } else {
            OwnedPollStep::Finish(PollOutcome::Busy)
        },
        OwnedPollStage::OpenDevice => if passed {
            OwnedPollStep::ReadBattery
        } else {
            OwnedPollStep::Finish(PollOutcome::Disconnected)
        },
    }
}

/// The step a poll reaches from `stage` when the checks give `results`, in order.
pub open spec fn owned_poll_run(stage: OwnedPollStage, results: Seq<bool>) -> OwnedPollStep
    decreases results.len(),
{
    if results.len() == 0 {
        OwnedPollStep::Check(stage)
    } else {
        match spec_owned_poll_step(stage, results[0]) {
            OwnedPollStep::Check(next) => owned_poll_run(next, results.drop_first()),
            other => other,
        }
    }
}

/// The battery is read only once all four checks have passed: the panel
/// was closed before and after the lock was taken, the lock is held and
/// the device is open. Whenever a check fails, the poll ends there.
pub proof fn law_read_only_after_all_checks(results: Seq<bool>)
    ensures
        owned_poll_run(OwnedPollStage::CheckPanel, results) is ReadBattery <==> (results.len() >= 4 && results[0]
            && results[1] && results[2] && results[3]),
{
    reveal_with_fuel(owned_poll_run, 5);
    if results.len() >= 4 {
        let r1 = results.drop_first();
        let r2 = r1.drop_first();
        let r3 = r2.drop_first();
        let r4 = r3.drop_first();
        assert(r1[0] == results[1] && r2[0] == results[2] && r3[0] == results[3]);
        if results[0] && results[1] && results[2] && results[3] {
            assert(owned_poll_run(OwnedPollStage::OpenDevice, r3) == OwnedPollStep::ReadBattery);
        }
    }
}

/// How much the poll interval is stretched after `consecutive_asleep`
/// polls that found the mouse asleep.
pub open spec fn backoff_factor(consecutive_asleep: u32) -> int {
    if consecutive_asleep <= 1 {
        1
    } else if consecutive_asleep == 2 {
        2
    } else if consecutive_asleep == 3 {
        4
    } else {
        8
    }
}

/// The poll interval after `consecutive_asleep` asleep polls: the base
/// interval, doubled from the second on, capped at eight times the base.
pub fn next_sleep_interval(base: Span, consecutive_asleep: u32) -> (s: Span)
    ensures
        s.millis == sat(base.millis * backoff_factor(consecutive_asleep)),
{
    let multiplier: u32 = match consecutive_asleep {
        0 | 1 => 1,
        2 => 2,
        3 => 4,
        _ => 8,
    };
    base.saturating_mul(multiplier)
}

/// The worker's schedule between ticks.
#[derive(Debug, Clone, Copy, PartialEq, Eq, Structural)]
pub struct WorkerState {
    /// Base poll interval.
    pub interval: Span,
    /// How long to stay quiet after the device became unreachable.
    pub disconnect_backoff: Span,
    /// Time since the last poll.
    pub accumulated: Span,
    /// Quiet time left after a disconnect.
    pub backoff_remaining: Span,
    /// Polls in a row that found the mouse asleep.
    pub consecutive_asleep: u32,
    /// Poll interval in force, stretched while the mouse sleeps.
    pub current_interval: Span,
    /// No poll has happened yet.
    pub first_poll_pending: bool,
}

pub open spec fn spec_new_worker(interval: Span, disconnect_backoff: Span) -> WorkerState {
    WorkerState {
        interval,
        disconnect_backoff,
        accumulated: Span { millis: 0 },
        backoff_remaining: Span { millis: 0 },
        consecutive_asleep: 0,
        current_interval: interval,
        first_poll_pending: true,
    }
}

/// One tick: the next state, and whether to poll now. A manual refresh
/// always polls and clears any backoff; during a backoff nothing is polled;
/// otherwise a poll is due on the first tick and whenever the time since
/// the last poll reaches the interval in force.
pub open spec fn spec_tick(s: WorkerState, manual_refresh: bool) -> (WorkerState, bool) {
    if manual_refresh {
        (
            WorkerState {
                accumulated: Span { millis: 0 },
                backoff_remaining: Span { millis: 0 },
                first_poll_pending: false,
                ..s
            },
            true,
        )
    } else if s.backoff_remaining.millis > 0 {
        (
            WorkerState {
                backoff_remaining: Span { millis: sat(s.backoff_remaining.millis - TICK_MS) },
                ..s
            },
            false,
        )
    } else {
        let acc = sat(s.accumulated.millis + TICK_MS);
        if !s.first_poll_pending && acc < s.current_interval.millis {
            (WorkerState { accumulated: Span { millis: acc }, ..s }, false)
        } else {
            (
                WorkerState {
                    accumulated: Span { millis: 0 },
                    first_poll_pending: false,
                    ..s
                },
                true,
            )
        }
    }
}

/// What a poll's outcome does to the schedule, and the event it yields.
pub open spec fn spec_record(s: WorkerState, outcome: PollOutcome) -> (WorkerState, Option<BatteryEvent>) {
    match outcome {
        PollOutcome::Reading(status) => (
            WorkerState { consecutive_asleep: 0, current_interval: s.interval, ..s },
            Some(BatteryEvent::Update(status)),
        ),
        PollOutcome::Asleep => {
            let n: u32 = if s.consecutive_asleep == u32::MAX {
                u32::MAX
            } else {
                (s.consecutive_asleep + 1) as u32
            };
            (
                WorkerState {
                    consecutive_asleep: n,
                    current_interval: Span { millis: sat(s.interval.millis * backoff_factor(n)) },
                    ..s
                },
                Some(BatteryEvent::Asleep),
            )
        },
        PollOutcome::Disconnected => (
            WorkerState {
                consecutive_asleep: 0,
                current_interval: s.interval,
                backoff_remaining: s.disconnect_backoff,
                ..s
            },
            Some(BatteryEvent::Disconnected),
        ),
        PollOutcome::Busy => (
            WorkerState {
                accumulated: Span { millis: sat(s.current_interval.millis - TICK_MS) },
                ..s
            },
            None,
        ),
    }
}

impl WorkerState {
    /// A schedule that polls on its first tick.
    pub fn new(interval: Span, disconnect_backoff: Span) -> (w: WorkerState)
        ensures
            w == spec_new_worker(interval, disconnect_backoff),
    {
        WorkerState {
            interval,
            disconnect_backoff,
            accumulated: Span { millis: 0 },
            backoff_remaining: Span { millis: 0 },
            consecutive_asleep: 0,
            current_interval: interval,
            first_poll_pending: true,
        }
    }

    /// Advances the schedule by one tick; true when a poll is due now.
    pub fn tick(&mut self, manual_refresh: bool) -> (poll: bool)
        ensures
            (*final(self), poll) == spec_tick(*old(self), manual_refresh),
    {
        let tick = Span { millis: TICK_MS };
        if manual_refresh {
            self.accumulated = Span { millis: 0 };
            self.backoff_remaining = Span { millis: 0 };
        } else if self.backoff_remaining.millis > 0 {
            self.backoff_remaining = self.backoff_remaining.saturating_sub(tick);
            return false;
        } else {
            self.accumulated = self.accumulated.saturating_add(tick);
            if !self.first_poll_pending && self.accumulated.millis < self.current_interval.millis {
                return false;
            }
        }
        self.accumulated = Span { millis: 0 };
        self.first_poll_pending = false;
        true
    }

    /// Takes the outcome of a poll into account and returns the event to emit.
    pub fn record(&mut self, outcome: PollOutcome) -> (event: Option<BatteryEvent>)
        ensures
            (*final(self), event) == spec_record(*old(self), outcome),
    {
        match outcome {
            PollOutcome::Reading(status) => {
                self.consecutive_asleep = 0;
                self.current_interval = self.interval;
                Some(BatteryEvent::Update(status))
            },
            PollOutcome::Asleep => {
                self.consecutive_asleep = self.consecutive_asleep.saturating_add(1);
                self.current_interval = next_sleep_interval(self.interval, self.consecutive_asleep);
                Some(BatteryEvent::Asleep)
            },
            PollOutcome::Disconnected => {
                self.consecutive_asleep = 0;
                self.current_interval = self.interval;
                self.backoff_remaining = self.disconnect_backoff;
                Some(BatteryEvent::Disconnected)
            },
            PollOutcome::Busy => {
                self.accumulated = self.current_interval.saturating_sub(Span { millis: TICK_MS });
                None
            },
        }
    }
}


/// The adaptive backoff never stretches the poll interval beyond eight
/// times the base, never shortens it, and grows with every asleep poll.
pub proof fn law_backoff_ceiling(base: u64, n: u32, m: u32)
    ensures
        sat(base * backoff_factor(n)) <= sat(base * 8),
        sat(base * backoff_factor(n)) >= base,
        n <= m ==> sat(base * backoff_factor(n)) <= sat(base * backoff_factor(m)),
{
    assert(base * 1 <= base * backoff_factor(n) <= base * 8) by (nonlinear_arith)
        requires 1 <= backoff_factor(n) <= 8;
    assert(n <= m ==> base * backoff_factor(n) <= base * backoff_factor(m)) by (nonlinear_arith)
        requires n <= m ==> backoff_factor(n) <= backoff_factor(m);
}

/// A new worker polls on its very first tick.
pub proof fn law_first_tick_polls(interval: Span, disconnect_backoff: Span)
    ensures
        spec_tick(spec_new_worker(interval, disconnect_backoff), false).1,
{
}

/// A manual refresh always polls, and clears any backoff.
pub proof fn law_manual_refresh_polls(s: WorkerState)
    ensures
        spec_tick(s, true).1,
        spec_tick(s, true).0.backoff_remaining.millis == 0,
{
}

/// A busy device is tried again on the next tick, unless a backoff is running.
pub proof fn law_busy_retried_next_tick(s: WorkerState)
    requires
        s.backoff_remaining.millis == 0,
    ensures
        spec_record(s, PollOutcome::Busy).1 is None,
        spec_tick(spec_record(s, PollOutcome::Busy).0, false).1,
{
}

/// No poll happens on any of the next `n` ticks without a manual refresh.
pub open spec fn quiet_for(s: WorkerState, n: nat) -> bool
    decreases n,
{
    if n == 0 {
        true
    } else {
        !spec_tick(s, false).1 && quiet_for(spec_tick(s, false).0, (n - 1) as nat)
    }
}

proof fn lemma_quiet_while_backoff(s: WorkerState, n: nat)
    requires
        s.backoff_remaining.millis >= n * TICK_MS,
        n > 0 ==> s.backoff_remaining.millis > 0,
    ensures
        quiet_for(s, n),
    decreases n,
{
    if n > 0 {
        let t = spec_tick(s, false).0;
        assert(t.backoff_remaining.millis == s.backoff_remaining.millis - TICK_MS);
        assert(t.backoff_remaining.millis >= (n - 1) * TICK_MS) by (nonlinear_arith)
            requires
                t.backoff_remaining.millis == s.backoff_remaining.millis - TICK_MS,
                s.backoff_remaining.millis >= n * TICK_MS,
                n > 0,
        ;
        if n > 1 {
            assert(t.backoff_remaining.millis > 0) by (nonlinear_arith)
                requires t.backoff_remaining.millis >= (n - 1) * TICK_MS, n > 1;
        }
        lemma_quiet_while_backoff(t, (n - 1) as nat);
    }
}

/// After the device is found unreachable, the worker stays quiet for the
/// whole disconnect backoff: no poll on the next `n` ticks as long as
/// they fit in it, unless the user asks for a refresh.
pub proof fn law_disconnect_backoff_is_quiet(s: WorkerState, n: nat)
    requires
        n > 0,
        s.disconnect_backoff.millis >= n * TICK_MS,
    ensures
        spec_record(s, PollOutcome::Disconnected).1 == Some(BatteryEvent::Disconnected),
        quiet_for(spec_record(s, PollOutcome::Disconnected).0, n),
{
    assert(s.disconnect_backoff.millis > 0) by (nonlinear_arith)
        requires s.disconnect_backoff.millis >= n * TICK_MS, n > 0;
    lemma_quiet_while_backoff(spec_record(s, PollOutcome::Disconnected).0, n);
}

/// The schedule after `n` ticks without a manual refresh.
pub open spec fn after_ticks(s: WorkerState, n: nat) -> WorkerState
    decreases n,
{
    if n == 0 {
        s
    } else {
        after_ticks(spec_tick(s, false).0, (n - 1) as nat)
    }
}

proof fn lemma_ticks_until_poll(s: WorkerState, a: nat, k: nat)
    requires
        !s.first_poll_pending,
        s.backoff_remaining.millis == 0,
        s.accumulated.millis == a * TICK_MS,
        a < k,
        s.current_interval.millis == k * TICK_MS,
    ensures
        quiet_for(s, (k - 1 - a) as nat),
        spec_tick(after_ticks(s, (k - 1 - a) as nat), false).1,
    decreases k - a,
{
    if a + 1 < k {
        let t = spec_tick(s, false).0;
        assert(!spec_tick(s, false).1);
        assert(t.accumulated.millis == (a + 1) * TICK_MS);
        lemma_ticks_until_poll(t, a + 1, k);
        assert(after_ticks(s, (k - 1 - a) as nat) == after_ticks(t, (k - 1 - (a + 1)) as nat));
    } else {
        assert(after_ticks(s, 0) == s);
    }
}

/// Between polls the worker waits exactly the interval in force, stretched
/// or not: right after a poll (nothing accumulated, no backoff, no refresh)
/// with an interval of `k` ticks, the next `k - 1` ticks do not poll and
/// the `k`-th does.
pub proof fn law_poll_after_current_interval(s: WorkerState, k: nat)
    requires
        !s.first_poll_pending,
        s.backoff_remaining.millis == 0,
        s.accumulated.millis == 0,
        k >= 1,
        s.current_interval.millis == k * TICK_MS,
    ensures
        quiet_for(s, (k - 1) as nat),
        spec_tick(after_ticks(s, (k - 1) as nat), false).1,
{
    lemma_ticks_until_poll(s, 0, k);
}

/// Every asleep poll stretches the interval in force: after `n` asleep
/// polls in a row it is the base interval times 1, 1, 2, 4 or 8 (for `n`
/// of 0, 1, 2, 3, and 4 or more), saturating; an answer or a disconnect
/// puts it back to the base.
pub proof fn law_asleep_stretches_interval(s: WorkerState, status: MouseStatus)
    requires
        s.consecutive_asleep < u32::MAX,
    ensures
        ({
            let n = s.consecutive_asleep + 1;
            let f: int = if n <= 1 {
                1
            } else if n == 2 {
                2
            } else if n == 3 {
                4
            } else {
                8
            };
            spec_record(s, PollOutcome::Asleep).0.current_interval.millis == sat(s.interval.millis * f)
        }),
        spec_record(s, PollOutcome::Reading(status)).0.current_interval == s.interval,
        spec_record(s, PollOutcome::Disconnected).0.current_interval == s.interval,
{
}

} // verus!
