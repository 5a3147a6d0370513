//! The events that fuzzer instances send each other, and the small types they
//! carry.

use vstd::prelude::*;
use core::marker::PhantomData;

use crate::config::EventConfig;
use crate::time::Duration;

verus! {

/// A per-fuzzer unique id, usually starting with `0` and increasing by `1`
/// in multi-processed event managers.
#[derive(Debug, Clone, Copy, Default, PartialEq, Eq, Structural)]
pub struct EventManagerId {
    /// The id.
    pub id: usize,
}

/// The severity of a log event.
#[derive(Debug, Clone, Copy, PartialEq, Eq, Structural)]
pub enum LogSeverity {
    /// Debug severity.
    Debug,
    /// Information.
    Info,
    /// Warning.
    Warn,
    /// Error.
    Error,
}

impl LogSeverity {
    /// The name under which a severity is shown.
    pub open spec fn display_name(self) -> Seq<char> {
        match self {
            LogSeverity::Debug => "Debug"@,
            LogSeverity::Info => "Info"@,
            LogSeverity::Warn => "Warn"@,
            LogSeverity::Error => "Error"@,
        }
    }

    /// The name under which this severity is shown.
    pub fn to_string(&self) -> (shown: String)
        ensures
            shown@ == self.display_name(),
    {
        let name: &str = match self {
            LogSeverity::Debug => "Debug",
            LogSeverity::Info => "Info",
            LogSeverity::Warn => "Warn",
            LogSeverity::Error => "Error",
        };
        name.to_owned()
    }
}

/// The result of a custom buffer handler.
#[derive(Debug, Clone, Copy, PartialEq, Eq, Structural)]
pub enum CustomBufEventResult {
    /// Exit early from event handling.
    Handled,
    /// Call the next handler, if available.
    Next,
}

/// Whether the broker handled an event or passes it on.
#[derive(Debug, Clone, Copy, PartialEq, Eq, Structural)]
pub enum BrokerEventResult {
    /// The broker handled this. No need to pass it on.
    Handled,
    /// Pass this message along to the clients.
    Forward,
}

/// How the run of an input ended.
#[derive(Debug, Clone, Copy, PartialEq, Eq, Structural)]
pub enum ExitKind {
    /// The run exited normally (`ExitKind::Ok` elsewhere in the fuzzer).
    Normal,
    /// The run crashed.
    Crash,
    /// The run ran out of memory.
    Oom,
    /// The run timed out.
    Timeout,
}

/// A value that a user-defined monitor reports.
#[derive(Debug, Clone, PartialEq, Eq)]
pub enum UserStats {
    /// A whole number.
    Number(u64),
    /// A floating-point number, held as the bit pattern of an `f64`.
    Float(u64),
    /// A text.
    String(String),
    /// A ratio of two numbers.
    Ratio(u64, u64),
}

/// The errors of event handling.
#[derive(Debug, Clone, PartialEq, Eq)]
pub enum Error {
    /// Serialising or deserialising failed.
    Serialize(String),
    /// Something else went wrong.
    Unknown(String),
}

/// `Clone::clone` of `core::marker::PhantomData`, which the derived `Clone`
/// of [`Event`] calls.
///
/// Trusted: the contract claims that the clone equals the original, as it
/// must of a type with a single value.
pub assume_specification<T: core::marker::PointeeSized>[ <PhantomData<T> as Clone>::clone ](
    original: &PhantomData<T>,
) -> (copy: PhantomData<T>)
    ensures
        copy == *original,
;

/// The events sent between fuzzer instances.
#[derive(Debug, Clone)]
pub enum Event<I> {
    /// A fuzzer found a new testcase.
    NewTestcase {
        /// The input for the new testcase.
        input: I,
        /// The state of the observers when this testcase was found.
        observers_buf: Option<Vec<u8>>,
        /// The exit kind.
        exit_kind: ExitKind,
        /// The new corpus size of this client.
        corpus_size: usize,
        /// The client config for this observers/testcase combination.
        client_config: EventConfig,
        /// The time of generation of the event.
        time: Duration,
        /// The executions of this client.
        executions: usize,
    },
    /// New stats to monitor.
    UpdateExecStats {
        /// The time of generation of the event.
        time: Duration,
        /// The executions of this client.
        executions: usize,
        /// Marks the input type.
        phantom: PhantomData<I>,
    },
    /// New user stats to monitor.
    UpdateUserStats {
        /// The name of the user monitor.
        name: String,
        /// The value of the user monitor.
        value: UserStats,
        /// Marks the input type.
        phantom: PhantomData<I>,
    },
    /// A new objective was found.
    Objective {
        /// The size of the objective corpus.
        objective_size: usize,
    },
    /// Write a new log.
    Log {
        /// The severity level.
        severity_level: LogSeverity,
        /// The message.
        message: String,
        /// Marks the input type.
        phantom: PhantomData<I>,
    },
    /// Sends a custom buffer to other clients.
    CustomBuf {
        /// The buffer.
        buf: Vec<u8>,
        /// The tag of this buffer.
        tag: String,
    },
}

impl<I> Event<I> {
    /// The name of the kind of an event.
    pub open spec fn kind_name(self) -> Seq<char> {
        match self {
            Event::NewTestcase { .. } => "Testcase"@,
            Event::UpdateExecStats { .. } => "Stats"@,
            Event::UpdateUserStats { .. } => "Stats"@,
            Event::Objective { .. } => "Objective"@,
            Event::Log { .. } => "Log"@,
            Event::CustomBuf { .. } => "CustomBuf"@,
        }
    }

    /// The name of the kind of this event.
    pub fn name(&self) -> (name: &'static str)
        ensures
            name@ == self.kind_name(),
            self is NewTestcase ==> name@ == "Testcase"@,
            self is UpdateExecStats ==> name@ == "Stats"@,
            self is UpdateUserStats ==> name@ == "Stats"@,
            self is Objective ==> name@ == "Objective"@,
            self is Log ==> name@ == "Log"@,
            self is CustomBuf ==> name@ == "CustomBuf"@,
    {
        match self {
            Event::NewTestcase { .. } => "Testcase",
            Event::UpdateExecStats { .. } | Event::UpdateUserStats { .. } => "Stats",
            Event::Objective { .. } => "Objective",
            Event::Log { .. } => "Log",
            Event::CustomBuf { .. } => "CustomBuf",
        }
    }
}

/// The name of an event depends on its kind alone, whatever its fields: every
/// new testcase is a "Testcase", both kinds of statistics are "Stats", and so
/// on; two events of the same kind always have the same name.
pub proof fn lemma_event_name_by_kind<I>(e: Event<I>, f: Event<I>)
    ensures
        e is NewTestcase ==> e.kind_name() == "Testcase"@,
        e is UpdateExecStats ==> e.kind_name() == "Stats"@,
        e is UpdateUserStats ==> e.kind_name() == "Stats"@,
        e is Objective ==> e.kind_name() == "Objective"@,
        e is Log ==> e.kind_name() == "Log"@,
        e is CustomBuf ==> e.kind_name() == "CustomBuf"@,
        (e is NewTestcase && f is NewTestcase) ==> e.kind_name() == f.kind_name(),
        (e is Log && f is Log) ==> e.kind_name() == f.kind_name(),
        (e is Objective && f is Objective) ==> e.kind_name() == f.kind_name(),
        (e is CustomBuf && f is CustomBuf) ==> e.kind_name() == f.kind_name(),
{
}

} // verus!
