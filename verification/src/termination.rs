//! Why an execution ended abnormally, and how that maps onto HTTP.

use vstd::prelude::*;
use vstd::string::*;

verus! {

/// Reason why a worker execution failed.
///
/// The variants fall into three disjoint classes: resource limits
/// (`CpuTimeLimit`, `WallClockTimeout`, `MemoryLimit`), script faults
/// (`Exception`) and host faults (`InitializationError`, `Terminated`,
/// `Aborted`, `Other`).
#[derive(Debug, Clone, PartialEq, Eq)]
pub enum TerminationReason {
    /// Worker exceeded CPU time limit
    CpuTimeLimit,
    /// Worker exceeded wall-clock time limit
    WallClockTimeout,
    /// Worker exceeded memory limit (heap or ArrayBuffer)
    MemoryLimit,
    /// Worker threw an uncaught exception (syntax error, throw, etc.)
    Exception(String),
    /// Worker failed to initialize
    InitializationError(String),
    /// Worker was terminated by external signal (e.g., shutdown)
    Terminated,
    /// Worker was aborted via abort() call
    Aborted,
    /// Unexpected error
    Other(String),
}

impl TerminationReason {
    /// The resource-limit class.
    pub open spec fn limit_class(self) -> bool {
        self is CpuTimeLimit || self is WallClockTimeout || self is MemoryLimit
    }

    /// The script-fault class.
    pub open spec fn script_class(self) -> bool {
        self is Exception
    }

    /// The host-fault class.
    pub open spec fn host_class(self) -> bool {
        self is InitializationError || self is Terminated || self is Aborted || self is Other
    }

    /// The text that describes the reason: for an exception the message that
    /// the script raised, word for word, and for every other reason one fixed
    /// sentence, whatever message the reason carries.
    pub open spec fn description_text(self) -> Seq<char> {
        match self {
            TerminationReason::CpuTimeLimit => "Worker exceeded CPU time limit"@,
            TerminationReason::WallClockTimeout => "Worker exceeded wall-clock time limit"@,
            TerminationReason::MemoryLimit => "Worker exceeded memory limit"@,
            TerminationReason::Exception(msg) => msg@,
            TerminationReason::InitializationError(_) => "Worker failed to initialize"@,
            TerminationReason::Terminated => "Worker was terminated"@,
            TerminationReason::Aborted => "Worker was aborted"@,
            TerminationReason::Other(_) => "Unexpected error"@,
        }
    }

    /// The fixed table from reason to HTTP status.
    pub open spec fn status_of(self) -> int {
        match self {
            TerminationReason::CpuTimeLimit | TerminationReason::MemoryLimit => 429,
            TerminationReason::WallClockTimeout => 504,
            TerminationReason::Exception(_)
            | TerminationReason::InitializationError(_)
            | TerminationReason::Other(_) => 500,
            TerminationReason::Terminated | TerminationReason::Aborted => 503,
        }
    }

    /// Returns true if this represents a resource limit violation
    pub fn is_limit_exceeded(&self) -> (b: bool)
        ensures
            b == self.limit_class(),
    {
        matches!(
            self,
            TerminationReason::CpuTimeLimit
                | TerminationReason::WallClockTimeout
                | TerminationReason::MemoryLimit
        )
    }

    /// Returns true if this is a JS userland error
    pub fn is_js_error(&self) -> (b: bool)
        ensures
            b == self.script_class(),
    {
        matches!(self, TerminationReason::Exception(_))
    }

    /// Returns true if this is a runtime (host-side) error
    pub fn is_runtime_error(&self) -> (b: bool)
        ensures
            b == self.host_class(),
    {
        matches!(
            self,
            TerminationReason::InitializationError(_)
                | TerminationReason::Terminated
                | TerminationReason::Aborted
                | TerminationReason::Other(_)
        )
    }

    /// Returns true if the worker instance that produced this reason must not
    /// be used again: every resource-limit and host fault, but not an
    /// exception thrown by the script.
    pub fn invalidates_worker(&self) -> (b: bool)
        ensures
            b == (self.limit_class() || self.host_class()),
            b == !self.script_class(),
    {
        !self.is_js_error()
    }

    /// Get a human-readable description
    pub fn description(&self) -> (text: &str)
        ensures
            text@ == self.description_text(),
    {
        match self {
            TerminationReason::CpuTimeLimit => "Worker exceeded CPU time limit",
            TerminationReason::WallClockTimeout => "Worker exceeded wall-clock time limit",
            TerminationReason::MemoryLimit => "Worker exceeded memory limit",
            TerminationReason::Exception(msg) => msg.as_str(),
            TerminationReason::InitializationError(_) => "Worker failed to initialize",
            TerminationReason::Terminated => "Worker was terminated",
            TerminationReason::Aborted => "Worker was aborted",
            TerminationReason::Other(_) => "Unexpected error",
        }
    }

    /// The description as an owned string, as the reason prints.
    pub fn to_string(&self) -> (text: String)
        ensures
            text@ == self.description_text(),
    {
        String::from_str(self.description())
    }

    /// Get an appropriate HTTP status code for this termination reason
    pub fn http_status(&self) -> (code: u16)
        ensures
            code == self.status_of(),
    {
        match self {
            TerminationReason::CpuTimeLimit | TerminationReason::MemoryLimit => 429,
            TerminationReason::WallClockTimeout => 504,
            TerminationReason::Exception(_)
            | TerminationReason::InitializationError(_)
            | TerminationReason::Other(_) => 500,
            TerminationReason::Terminated | TerminationReason::Aborted => 503,
        }
    }

    /// Two reasons of the same kind are described alike, unless they are
    /// exceptions: only an exception's description depends on its message.
    pub proof fn lemma_description_is_fixed(self, other: TerminationReason)
        requires
            !(self is Exception),
            self is InitializationError <==> other is InitializationError,
            self is Other <==> other is Other,
            !(self is InitializationError) && !(self is Other) ==> self == other,
        ensures
            self.description_text() == other.description_text(),
    {
    }

    /// An exception is described by its own message, word for word.
    pub proof fn lemma_exception_is_verbatim(message: String)
        ensures
            TerminationReason::Exception(message).description_text() == message@,
    {
    }

    /// Every reason belongs to exactly one of the three classes.
    pub proof fn lemma_classes_partition(self)
        ensures
            self.limit_class() || self.script_class() || self.host_class(),
            !(self.limit_class() && self.script_class()),
            !(self.limit_class() && self.host_class()),
            !(self.script_class() && self.host_class()),
    {
    }

    /// The status table, read row by row: a wall-clock timeout is a gateway
    /// timeout, the other two limits are "too many requests", a terminated or
    /// aborted worker is "service unavailable", and everything else is an
    /// internal server error.
    pub proof fn lemma_status_table(self)
        ensures
            self is WallClockTimeout <==> self.status_of() == 504,
            (self is CpuTimeLimit || self is MemoryLimit) <==> self.status_of() == 429,
            (self is Terminated || self is Aborted) <==> self.status_of() == 503,
            (self is Exception || self is InitializationError || self is Other)
                <==> self.status_of() == 500,
            self.status_of() == 504 || self.status_of() == 429 || self.status_of() == 503
                || self.status_of() == 500,
    {
    }
}

} // verus!
