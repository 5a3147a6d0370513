//! The traits of an event manager, and a manager that does nothing.

use vstd::prelude::*;
use core::marker::PhantomData;

use crate::config::EventConfig;
use crate::event::{Error, Event, EventManagerId, LogSeverity, UserStats};
use crate::state::{HasClientPerfMonitor, HasExecutions};
use crate::time::{current_time, Duration};

verus! {

/// Fires events off to the broker.
pub trait EventFirer: Sized {
    /// The input type of the events fired.
    type Input;
    /// The state of the fuzzer.
    type State;

    /// What firing `event` does: it takes the manager from `pre` to `post`,
    /// the fuzzer state from `pre_state` to `post_state`, and returns `result`.
    spec fn fire_spec(
        pre: Self,
        post: Self,
        pre_state: Self::State,
        post_state: Self::State,
        event: Event<Self::Input>,
        result: Result<(), Error>,
    ) -> bool;

    /// Sends off an event to the broker.
    fn fire(&mut self, state: &mut Self::State, event: Event<Self::Input>) -> (result: Result<(), Error>)
        ensures
            Self::fire_spec(*old(self), *final(self), *old(state), *final(state), event, result),
    ;

    /// Sends off a log event to the broker: a shortcut for [`EventFirer::fire`]
    /// with [`Event::Log`].
    fn log(&mut self, state: &mut Self::State, severity_level: LogSeverity, message: String) -> (result: Result<(), Error>)
        ensures
            Self::fire_spec(
                *old(self),
                *final(self),
                *old(state),
                *final(state),
                Event::Log { severity_level, message, phantom: PhantomData },
                result,
            ),
    {
        self.fire(state, Event::Log { severity_level, message, phantom: PhantomData })
    }

    /// The configuration of this manager.
    fn configuration(&self) -> (config: EventConfig)
        default_ensures
            config == EventConfig::AlwaysUnique,
    {
        EventConfig::AlwaysUnique
    }
}

/// An event manager for tests, and a placeholder where no event manager is
/// needed: it drops every event.
#[derive(Debug, Clone, Copy)]
pub struct NopEventManager<E, I, S, Z> {
    phantom: PhantomData<(E, I, S, Z)>,
}

impl<E, I, S, Z> NopEventManager<E, I, S, Z> {
    /// A manager that drops every event.
    pub fn new() -> (manager: Self) {
        NopEventManager { phantom: PhantomData }
    }
}

impl<E, I, S, Z> EventFirer for NopEventManager<E, I, S, Z> {
    type Input = I;
    type State = S;

    open spec fn fire_spec(pre: Self, post: Self, pre_state: S, post_state: S, event: Event<I>, result: Result<(), Error>) -> bool {
        post == pre && post_state == pre_state && result == Ok::<(), Error>(())
    }

    fn fire(&mut self, state: &mut S, event: Event<I>) -> (result: Result<(), Error>)
        ensures
            result == Ok::<(), Error>(()),
            *final(self) == *old(self),
            *final(state) == *old(state),
    {
        Ok(())
    }
}

/// Whether the time `cur` is more than `monitor_timeout` after
/// `last_report_time`; a clock that went back counts as no time passed.
pub open spec fn report_due(last_report_time: Duration, monitor_timeout: Duration, cur: Duration) -> bool {
    let elapsed: nat = if cur@ >= last_report_time@ { (cur@ - last_report_time@) as nat } else { 0 };
    elapsed > monitor_timeout@
}

/// The statistics event that a progress report at time `cur` fires first.
pub open spec fn exec_stats_event<I>(cur: Duration, executions: usize) -> Event<I> {
    Event::UpdateExecStats { time: cur, executions, phantom: PhantomData }
}

/// The user statistics event that reports a stability of `bits`.
pub open spec fn is_stability_event<I>(event: Event<I>, bits: u64) -> bool {
    event matches Event::UpdateUserStats { name, value, .. }
        && name@ == "stability"@ && value == UserStats::Float(bits)
}

/// What a progress report at time `cur` does, from manager `pre` and state
/// `pre_state` to `post` and `post_state`: when no report is due nothing
/// changes and the last report time comes back. Otherwise the statistics
/// event is fired; where that fails, its error comes back. Then, where the
/// state holds a stability, a stability event is fired, and its error comes
/// back where it fails. Otherwise `cur` comes back.
pub open spec fn reported_progress<F: EventFirer>(
    pre: F,
    post: F,
    pre_state: F::State,
    post_state: F::State,
    last_report_time: Duration,
    monitor_timeout: Duration,
    cur: Duration,
    executions: usize,
    result: Result<Duration, Error>,
) -> bool where F::State: HasClientPerfMonitor {
    if !report_due(last_report_time, monitor_timeout, cur) {
        post == pre && post_state == pre_state && result == Ok::<Duration, Error>(last_report_time)
    } else {
        exists|mid: F, mid_state: F::State, first: Result<(), Error>|
            #[trigger] F::fire_spec(pre, mid, pre_state, mid_state, exec_stats_event(cur, executions), first)
            && match first {
                Err(e) => post == mid && post_state == mid_state && result == Err::<Duration, Error>(e),
                Ok(_) => match mid_state.stability_bits() {
                    None => post == mid && post_state == mid_state && result == Ok::<Duration, Error>(cur),
                    Some(bits) => exists|event: Event<F::Input>, second: Result<(), Error>|
                        #[trigger] F::fire_spec(mid, post, mid_state, post_state, event, second)
                        && is_stability_event(event, bits)
                        && result == (match second {
                            Ok(_) => Ok::<Duration, Error>(cur),
                            Err(e) => Err::<Duration, Error>(e),
                        }),
                },
            }
    }
}

/// Reports progress to the broker when a report is due.
pub trait ProgressReporter: EventFirer {
    /// Given the last report time, sends off the statistics of the state to
    /// the broker if more than `monitor_timeout` has passed since, at the time
    /// `cur`. Returns the new last report time: `cur` where it reported, else
    /// the old one.
    fn report_progress_at(
        &mut self,
        state: &mut Self::State,
        last_report_time: Duration,
        monitor_timeout: Duration,
        cur: Duration,
    ) -> (result: Result<Duration, Error>)
        where Self::State: HasExecutions + HasClientPerfMonitor
        ensures
            reported_progress(
                *old(self),
                *final(self),
                *old(state),
                *final(state),
                last_report_time,
                monitor_timeout,
                cur,
                old(state).execution_count(),
                result,
            ),
            cur@ <= last_report_time@ + monitor_timeout@ ==> result == Ok::<Duration, Error>(last_report_time)
                && *final(self) == *old(self) && *final(state) == *old(state),
            result matches Ok(t) ==> t == (if cur@ > last_report_time@ + monitor_timeout@ { cur } else { last_report_time }),
            cur@ > last_report_time@ + monitor_timeout@ ==> exists|mid: Self, mid_state: Self::State, first: Result<(), Error>|
                #[trigger] Self::fire_spec(*old(self), mid, *old(state), mid_state,
                    Event::UpdateExecStats { time: cur, executions: old(state).execution_count(), phantom: PhantomData }, first),
    {
        let executions = *state.executions();
        let elapsed = match cur.checked_sub(&last_report_time) {
            Some(elapsed) => elapsed,
            None => Duration::zero(),
        };
        if elapsed.longer_than(&monitor_timeout) {
            let ghost pre = *self;
            let ghost pre_state = *state;
            let stats = Event::UpdateExecStats { time: cur, executions, phantom: PhantomData };
            let first = self.fire(state, stats);
            let ghost mid = *self;
            let ghost mid_state = *state;
            assert(Self::fire_spec(pre, mid, pre_state, mid_state, exec_stats_event(cur, executions), first));
            match first {
                Err(e) => Err(e),
                Ok(()) => match state.stability() {
                    None => Ok(cur),
                    Some(bits) => {
                        let user_stats = Event::UpdateUserStats {
                            name: "stability".to_owned(),
                            value: UserStats::Float(bits),
                            phantom: PhantomData,
                        };
                        let ghost event = user_stats;
                        let second = self.fire(state, user_stats);
                        assert(Self::fire_spec(mid, *self, mid_state, *state, event, second));
                        match second {
                            Ok(()) => Ok(cur),
                            Err(e) => Err(e),
                        }
                    },
                },
            }
        } else {
            Ok(last_report_time)
        }
    }

    /// Given the last report time, sends off the statistics of the state to
    /// the broker if more than `monitor_timeout` has passed since, by the
    /// current time. Returns the new last report time, or the error of a
    /// failed event.
    fn maybe_report_progress(
        &mut self,
        state: &mut Self::State,
        last_report_time: Duration,
        monitor_timeout: Duration,
    ) -> (result: Result<Duration, Error>)
        where Self::State: HasExecutions + HasClientPerfMonitor
        ensures
            exists|cur: Duration|
                reported_progress(
                    *old(self),
                    *final(self),
                    *old(state),
                    *final(state),
                    last_report_time,
                    monitor_timeout,
                    cur,
                    old(state).execution_count(),
                    result,
                ),
    {
        let cur = current_time();
        self.report_progress_at(state, last_report_time, monitor_timeout, cur)
    }
}

/// An event manager that can be restarted.
pub trait EventRestarter: Sized {
    /// The state of the fuzzer.
    type State;

    /// For restarting event managers: forwards the state to the next peer.
    fn on_restart(&mut self, state: &mut Self::State) -> (result: Result<(), Error>)
        default_ensures
            result == Ok::<(), Error>(()),
            *final(self) == *old(self),
            *final(state) == *old(state),
    {
        Ok(())
    }

    /// Blocks until it is safe to exit.
    fn await_restart_safe(&mut self)
        default_ensures
            *final(self) == *old(self),
    {
    }
}

/// Looks for incoming events and processes them.
pub trait EventProcessor {
    /// The executor of the fuzzer.
    type Executor;
    /// The fuzzer.
    type Fuzzer;
    /// The input type of the events.
    type Input;
    /// The state of the fuzzer.
    type State;

    /// Looks for incoming events and processes them; returns the number of
    /// events processed, or an error.
    fn process(
        &mut self,
        fuzzer: &mut Self::Fuzzer,
        state: &mut Self::State,
        executor: &mut Self::Executor,
    ) -> (result: Result<usize, Error>);
}

/// An event manager with an id. In multi-processed event managers each
/// connected client should have a unique id.
pub trait HasEventManagerId {
    /// The id of this manager.
    fn mgr_id(&self) -> (id: EventManagerId);
}

/// The main communications hub of the fuzzer.
pub trait EventManager: EventFirer + EventProcessor + EventRestarter + HasEventManagerId + ProgressReporter {
}

impl<E, I, S, Z> ProgressReporter for NopEventManager<E, I, S, Z> {
}

impl<E, I, S, Z> EventRestarter for NopEventManager<E, I, S, Z> {
    type State = S;
}

impl<E, I, S, Z> EventProcessor for NopEventManager<E, I, S, Z> {
    type Executor = E;
    type Fuzzer = Z;
    type Input = I;
    type State = S;

    fn process(&mut self, fuzzer: &mut Z, state: &mut S, executor: &mut E) -> (result: Result<usize, Error>)
        ensures
            result == Ok::<usize, Error>(0),
            *final(self) == *old(self),
            *final(fuzzer) == *old(fuzzer),
            *final(state) == *old(state),
            *final(executor) == *old(executor),
    {
        Ok(0)
    }
}

impl<E, I, S, Z> HasEventManagerId for NopEventManager<E, I, S, Z> {
    fn mgr_id(&self) -> (id: EventManagerId)
        ensures
            id == (EventManagerId { id: 0 }),
    {
        EventManagerId { id: 0 }
    }
}

impl<E, I, S, Z> EventManager for NopEventManager<E, I, S, Z> {
}

/// A progress report that succeeds gives back either the last report time or
/// the time it was made at; it gives back that time exactly when a report was
/// due.
pub proof fn lemma_report_returns_last_or_now<F: EventFirer>(
    pre: F,
    post: F,
    pre_state: F::State,
    post_state: F::State,
    last_report_time: Duration,
    monitor_timeout: Duration,
    cur: Duration,
    executions: usize,
    reported: Duration,
)
    where F::State: HasClientPerfMonitor
    requires
        reported_progress(pre, post, pre_state, post_state, last_report_time, monitor_timeout, cur,
            executions, Ok::<Duration, Error>(reported)),
    ensures
        reported == (if report_due(last_report_time, monitor_timeout, cur) { cur } else { last_report_time }),
{
}

/// A report is due exactly when the time since the last report is strictly
/// longer than the monitor timeout itself; a clock that went back counts as
/// no time passed.
pub proof fn lemma_report_due_exactly(last_report_time: Duration, monitor_timeout: Duration, cur: Duration)
    ensures
        report_due(last_report_time, monitor_timeout, cur) == (cur@ > last_report_time@ + monitor_timeout@),
        cur@ >= last_report_time@ ==> (report_due(last_report_time, monitor_timeout, cur)
            <==> cur@ - last_report_time@ > monitor_timeout@),
{
}

/// Firing any event at the manager that does nothing succeeds and changes
/// neither the manager nor the state.
pub proof fn lemma_nop_fire_always_succeeds<E, I, S, Z>(
    pre: NopEventManager<E, I, S, Z>,
    post: NopEventManager<E, I, S, Z>,
    pre_state: S,
    post_state: S,
    event: Event<I>,
    result: Result<(), Error>,
)
    requires
        NopEventManager::<E, I, S, Z>::fire_spec(pre, post, pre_state, post_state, event, result),
    ensures
        result == Ok::<(), Error>(()),
        post == pre,
        post_state == pre_state,
{
}

/// A report made at some time is not due again at that same time: reporting
/// twice at once sends nothing the second time.
pub proof fn lemma_report_not_due_twice(monitor_timeout: Duration, cur: Duration)
    ensures
        !report_due(cur, monitor_timeout, cur),
{
}

/// A clock that went back, to before the last report, never makes a report
/// due.
pub proof fn lemma_clock_going_back_reports_nothing(
    last_report_time: Duration,
    monitor_timeout: Duration,
    cur: Duration,
)
    requires
        cur@ <= last_report_time@,
    ensures
        !report_due(last_report_time, monitor_timeout, cur),
{
}

/// A report that is due stays due at any later time.
pub proof fn lemma_report_due_stays_due(
    last_report_time: Duration,
    monitor_timeout: Duration,
    cur: Duration,
    later: Duration,
)
    requires
        report_due(last_report_time, monitor_timeout, cur),
        cur@ <= later@,
    ensures
        report_due(last_report_time, monitor_timeout, later),
{
}

/// The manager that does nothing reports progress without changing anything
/// and without error: it gives back the time of the report when one was due,
/// else the last report time.
pub proof fn lemma_nop_report<E, I, S: HasClientPerfMonitor, Z>(
    pre: NopEventManager<E, I, S, Z>,
    post: NopEventManager<E, I, S, Z>,
    pre_state: S,
    post_state: S,
    last_report_time: Duration,
    monitor_timeout: Duration,
    cur: Duration,
    executions: usize,
    result: Result<Duration, Error>,
)
    requires
        reported_progress(pre, post, pre_state, post_state, last_report_time, monitor_timeout, cur,
            executions, result),
    ensures
        post == pre,
        post_state == pre_state,
        result == Ok::<Duration, Error>(
            if report_due(last_report_time, monitor_timeout, cur) { cur } else { last_report_time },
        ),
{
}

} // verus!
