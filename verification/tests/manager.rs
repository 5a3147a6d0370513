use libafl_events::config::EventConfig;
use libafl_events::event::{Error, Event, EventManagerId, LogSeverity, UserStats};
use libafl_events::manager::{
    EventFirer, EventProcessor, EventRestarter, HasEventManagerId, NopEventManager, ProgressReporter,
};
use libafl_events::state::{HasClientPerfMonitor, HasExecutions};
use libafl_events::time::Duration;

struct TestState {
    executions: usize,
    stability: Option<u64>,
}

impl HasExecutions for TestState {
    fn execution_count(&self) -> usize {
        self.executions
    }

    fn executions(&self) -> &usize {
        &self.executions
    }
}

impl HasClientPerfMonitor for TestState {
    fn stability_bits(&self) -> Option<u64> {
        self.stability
    }

    fn stability(&self) -> Option<u64> {
        self.stability
    }
}

/// Records every event it is handed, and fails from the `fail_at`-th on.
struct Recorder {
    fired: Vec<Event<u32>>,
    fail_at: usize,
}

impl EventFirer for Recorder {
    type Input = u32;
    type State = TestState;

    // The relation that a verified implementation would state; this test
    // implementation is not verified, so it claims nothing.
    fn fire_spec(
        _pre: Self,
        _post: Self,
        _pre_state: TestState,
        _post_state: TestState,
        _event: Event<u32>,
        _result: Result<(), Error>,
    ) -> bool {
        true
    }

    fn fire(&mut self, _state: &mut TestState, event: Event<u32>) -> Result<(), Error> {
        self.fired.push(event);
        if self.fired.len() >= self.fail_at {
            Err(Error::Unknown("broker gone".to_string()))
        } else {
            Ok(())
        }
    }
}

impl ProgressReporter for Recorder {}

fn recorder(fail_at: usize) -> Recorder {
    Recorder { fired: Vec::new(), fail_at }
}

type Nop = NopEventManager<(), u32, TestState, ()>;

#[test]
fn nop_manager_accepts_everything() {
    let mut mgr = Nop::new();
    let mut state = TestState { executions: 3, stability: None };
    assert_eq!(mgr.fire(&mut state, Event::Objective { objective_size: 1 }), Ok(()));
    assert_eq!(mgr.log(&mut state, LogSeverity::Info, "hi".to_string()), Ok(()));
    assert_eq!(mgr.process(&mut (), &mut state, &mut ()), Ok(0));
    assert_eq!(mgr.mgr_id(), EventManagerId { id: 0 });
    assert_eq!(mgr.configuration(), EventConfig::AlwaysUnique);
    assert_eq!(mgr.on_restart(&mut state), Ok(()));
    mgr.await_restart_safe();
}

#[test]
fn log_fires_a_log_event() {
    let mut mgr = recorder(usize::MAX);
    let mut state = TestState { executions: 0, stability: None };
    assert_eq!(mgr.log(&mut state, LogSeverity::Error, "boom".to_string()), Ok(()));
    assert_eq!(mgr.fired.len(), 1);
    match &mgr.fired[0] {
        Event::Log { severity_level, message, .. } => {
            assert_eq!(*severity_level, LogSeverity::Error);
            assert_eq!(message, "boom");
        }
        _ => panic!("mismatch"),
    }
}

#[test]
fn no_report_before_the_timeout() {
    let mut mgr = recorder(usize::MAX);
    let mut state = TestState { executions: 10, stability: Some(7) };
    let last = Duration::from_secs(100);
    let timeout = Duration::from_secs(15);
    let result = mgr.report_progress_at(&mut state, last, timeout, Duration::from_secs(115));
    assert_eq!(result, Ok(last));
    assert!(mgr.fired.is_empty());
}

#[test]
fn report_after_the_timeout() {
    let mut mgr = recorder(usize::MAX);
    let mut state = TestState { executions: 10, stability: None };
    let last = Duration::from_secs(100);
    let timeout = Duration::from_secs(15);
    let cur = Duration::new(115, 1);
    assert_eq!(mgr.report_progress_at(&mut state, last, timeout, cur), Ok(cur));
    assert_eq!(mgr.fired.len(), 1);
    match &mgr.fired[0] {
        Event::UpdateExecStats { time, executions, .. } => {
            assert_eq!(*time, cur);
            assert_eq!(*executions, 10);
        }
        _ => panic!("mismatch"),
    }
}

#[test]
fn report_includes_stability() {
    let mut mgr = recorder(usize::MAX);
    let stability = 0.75f64.to_bits();
    let mut state = TestState { executions: 4, stability: Some(stability) };
    let cur = Duration::from_secs(50);
    let result = mgr.report_progress_at(&mut state, Duration::zero(), Duration::from_secs(10), cur);
    assert_eq!(result, Ok(cur));
    assert_eq!(mgr.fired.len(), 2);
    match &mgr.fired[1] {
        Event::UpdateUserStats { name, value, .. } => {
            assert_eq!(name, "stability");
            assert_eq!(*value, UserStats::Float(stability));
        }
        _ => panic!("mismatch"),
    }
}

#[test]
fn failed_report_returns_the_error() {
    let mut mgr = recorder(1);
    let mut state = TestState { executions: 4, stability: Some(1) };
    let result = mgr.report_progress_at(&mut state, Duration::zero(), Duration::zero(), Duration::from_secs(1));
    assert_eq!(result, Err(Error::Unknown("broker gone".to_string())));
    assert_eq!(mgr.fired.len(), 1);

    let mut mgr = recorder(2);
    let result = mgr.report_progress_at(&mut state, Duration::zero(), Duration::zero(), Duration::from_secs(1));
    assert_eq!(result, Err(Error::Unknown("broker gone".to_string())));
    assert_eq!(mgr.fired.len(), 2);
}

#[test]
fn clock_going_back_reports_nothing() {
    let mut mgr = recorder(usize::MAX);
    let mut state = TestState { executions: 1, stability: None };
    let last = Duration::from_secs(100);
    let result = mgr.report_progress_at(&mut state, last, Duration::zero(), Duration::from_secs(50));
    assert_eq!(result, Ok(last));
    assert!(mgr.fired.is_empty());
}

#[test]
fn reporting_twice_at_once_sends_once() {
    let mut mgr = recorder(usize::MAX);
    let mut state = TestState { executions: 1, stability: None };
    let cur = Duration::from_secs(30);
    let first = mgr.report_progress_at(&mut state, Duration::zero(), Duration::from_secs(5), cur).unwrap();
    let second = mgr.report_progress_at(&mut state, first, Duration::from_secs(5), cur).unwrap();
    assert_eq!(first, cur);
    assert_eq!(second, cur);
    assert_eq!(mgr.fired.len(), 1);
}

#[test]
fn maybe_report_progress_uses_the_clock() {
    let mut mgr = recorder(usize::MAX);
    let mut state = TestState { executions: 2, stability: None };
    let result = mgr.maybe_report_progress(&mut state, Duration::zero(), Duration::from_secs(1)).unwrap();
    assert!(result.as_secs() > 1_600_000_000);
    assert_eq!(mgr.fired.len(), 1);
    let far_future = Duration::from_secs(u64::MAX);
    assert_eq!(mgr.maybe_report_progress(&mut state, far_future, Duration::zero()), Ok(far_future));
    assert_eq!(mgr.fired.len(), 1);
}

#[test]
fn nop_manager_reports_progress_without_error() {
    let mut mgr = Nop::new();
    let mut state = TestState { executions: 2, stability: Some(3) };
    let cur = Duration::from_secs(20);
    assert_eq!(mgr.report_progress_at(&mut state, Duration::zero(), Duration::from_secs(1), cur), Ok(cur));
}
