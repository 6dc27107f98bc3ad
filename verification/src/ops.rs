//! Operations that a worker delegates to its host.
//!
//! Everything a script does to the outside world goes through a handler that
//! the host supplies. This lets the host count and time the calls, enforce
//! permissions and quotas, add credentials for bindings, and collect logs.
//!
//! Every handler method has a default, so a handler that implements nothing
//! is still usable: requests and binding operations answer with an error
//! value that says what is missing, and log messages are passed on for the
//! default sink, the diagnostic stream of the host process. The library does
//! not write there itself: it hands the event back with the result, and the
//! caller writes it. A failure of an operation is always a value in its
//! result, never a fault.

use vstd::prelude::*;
use vstd::string::*;
use crate::http::{HttpRequest, HttpResponse};
use crate::limits::{Admission, Capability, LimitTracker};
use crate::log::{LogEvent, LogLevel};

verus! {

/// Storage operation types for get/put/head/list/delete
#[derive(Debug, Clone)]
pub enum StorageOp {
    /// Get an object by key
    Get { key: String },
    /// Put an object (key + body)
    Put { key: String, body: Vec<u8> },
    /// Head (metadata only) for an object
    Head { key: String },
    /// List objects with optional prefix
    List { prefix: Option<String>, limit: Option<u32> },
    /// Delete an object
    Delete { key: String },
}

/// Result from a storage operation
#[derive(Debug)]
pub enum StorageResult {
    /// Object body (for get) or empty (for put/delete success)
    Body(Option<Vec<u8>>),
    /// Metadata from head operation
    Head { size: u64, etag: Option<String> },
    /// List of keys
    List { keys: Vec<String>, truncated: bool },
    /// Error message
    Error(String),
}

/// Database operation types for SQL queries
#[derive(Debug, Clone)]
pub enum DatabaseOp {
    /// Execute a SQL query
    Query {
        /// SQL statement
        sql: String,
        /// Query parameters, each encoded as a string
        params: Vec<String>,
    },
}

/// Result from a database operation
#[derive(Debug)]
pub enum DatabaseResult {
    /// Rows as JSON array
    Rows(String),
    /// Error message
    Error(String),
}

/// KV operation types for get/put/delete/list
#[derive(Debug, Clone)]
pub enum KvOp {
    /// Get a value by key
    Get { key: String },
    /// Put a value (key + value as string, optional TTL in seconds)
    Put { key: String, value: String, expires_in: Option<u64> },
    /// Delete a key
    Delete { key: String },
    /// List keys with optional prefix and limit
    List { prefix: Option<String>, limit: Option<u32> },
}

/// Result from a KV operation
#[derive(Debug)]
pub enum KvResult {
    /// Value (for get) - None if key doesn't exist
    Value(Option<String>),
    /// List of keys (for list)
    Keys(Vec<String>),
    /// Success (for put/delete)
    Done,
    /// Error message
    Error(String),
}

/// Operations that runtimes delegate to the runner
#[derive(Debug)]
#[allow(inconsistent_fields)]
pub enum Operation {
    /// Direct HTTP fetch (pass-through, no auth modification)
    Fetch(HttpRequest),
    /// Fetch via a binding - the host adds what the binding needs
    BindingFetch {
        /// Binding name (e.g., "ASSETS", "MY_BUCKET")
        binding: String,
        /// The request
        request: HttpRequest,
    },
    /// Storage operation (get/put/head/list/delete)
    BindingStorage {
        /// Binding name (e.g., "MY_STORAGE")
        binding: String,
        /// The operation to perform
        op: StorageOp,
    },
    /// KV operation (get/put/delete/list)
    BindingKv {
        /// Binding name (e.g., "MY_KV")
        binding: String,
        /// The operation to perform
        op: KvOp,
    },
    /// Database operation (SQL query)
    BindingDatabase {
        /// Binding name (e.g., "MY_DB")
        binding: String,
        /// The operation to perform
        op: DatabaseOp,
    },
    /// Worker binding (worker-to-worker calls)
    BindingWorker {
        /// Binding name (e.g., "MY_WORKER")
        binding: String,
        /// The request to send to the target worker
        request: HttpRequest,
    },
    /// Log message (fire-and-forget)
    Log { level: LogLevel, message: String },
}

/// Results for operations
#[derive(Debug)]
pub enum OperationResult {
    /// HTTP response (used by Fetch, BindingFetch and BindingWorker)
    Http(Result<HttpResponse, String>),
    /// Storage operation result
    Storage(StorageResult),
    /// KV operation result
    Kv(KvResult),
    /// Database operation result
    Database(DatabaseResult),
    /// Acknowledgement for fire-and-forget operations (Log, etc.)
    Ack,
}

/// The five shapes that a result can have.
#[derive(Debug, Clone, Copy, PartialEq, Eq, Structural)]
pub enum ResultKind {
    Http,
    Storage,
    Kv,
    Database,
    Ack,
}

/// What a dispatch hands back.
#[derive(Debug)]
pub struct Handled {
    /// The answer to the operation.
    pub result: OperationResult,
    /// A log event that the handler did not keep: it is for the default
    /// sink. Only a log operation can leave one.
    pub passed_on: Option<LogEvent>,
}

/// The text of a default answer: what kind of thing is missing, the
/// binding's name in quotes, and what is missing about it.
pub open spec fn quoted(before: Seq<char>, binding: Seq<char>, after: Seq<char>) -> Seq<char> {
    before + binding + after
}

fn quote(before: &str, binding: &str, after: &str) -> (text: String)
    ensures
        text@ == quoted(before@, binding@, after@),
{
    let mut text = String::from_str(before);
    text.append(binding);
    text.append(after);
    text
}

impl Capability {
    /// The message of the error with which a call over its lifetime
    /// allowance is answered.
    pub open spec fn quota_text(self) -> Seq<char> {
        match self {
            Capability::Fetch => "Fetch limit exceeded"@,
            Capability::Kv => "KV limit exceeded"@,
            Capability::Database => "Database limit exceeded"@,
            Capability::Storage => "Storage limit exceeded"@,
        }
    }

    /// The message of the error with which a call over its lifetime
    /// allowance is answered.
    pub fn quota_message(&self) -> (text: &'static str)
        ensures
            text@ == self.quota_text(),
    {
        match self {
            Capability::Fetch => "Fetch limit exceeded",
            Capability::Kv => "KV limit exceeded",
            Capability::Database => "Database limit exceeded",
            Capability::Storage => "Storage limit exceeded",
        }
    }
}

impl Operation {
    /// The shape of the result that answers this operation.
    pub open spec fn expected(self) -> ResultKind {
        match self {
            Operation::Fetch(_) => ResultKind::Http,
            Operation::BindingFetch { .. } => ResultKind::Http,
            Operation::BindingStorage { .. } => ResultKind::Storage,
            Operation::BindingKv { .. } => ResultKind::Kv,
            Operation::BindingDatabase { .. } => ResultKind::Database,
            Operation::BindingWorker { .. } => ResultKind::Http,
            Operation::Log { .. } => ResultKind::Ack,
        }
    }

    /// The capability whose ceiling this operation counts against: plain and
    /// binding fetches count as fetches, storage, key-value and database
    /// operations each as their own kind. Calls to other workers and log
    /// messages are not counted.
    pub open spec fn metered(self) -> Option<Capability> {
        match self {
            Operation::Fetch(_) => Some(Capability::Fetch),
            Operation::BindingFetch { .. } => Some(Capability::Fetch),
            Operation::BindingStorage { .. } => Some(Capability::Storage),
            Operation::BindingKv { .. } => Some(Capability::Kv),
            Operation::BindingDatabase { .. } => Some(Capability::Database),
            Operation::BindingWorker { .. } => None,
            Operation::Log { .. } => None,
        }
    }

    /// The shape of the result that answers this operation.
    pub fn expects(&self) -> (kind: ResultKind)
        ensures
            kind == self.expected(),
    {
        match self {
            Operation::Fetch(_) => ResultKind::Http,
            Operation::BindingFetch { .. } => ResultKind::Http,
            Operation::BindingStorage { .. } => ResultKind::Storage,
            Operation::BindingKv { .. } => ResultKind::Kv,
            Operation::BindingDatabase { .. } => ResultKind::Database,
            Operation::BindingWorker { .. } => ResultKind::Http,
            Operation::Log { .. } => ResultKind::Ack,
        }
    }

    /// The capability whose ceiling this operation counts against, if any.
    pub fn capability(&self) -> (capability: Option<Capability>)
        ensures
            capability == self.metered(),
    {
        match self {
            Operation::Fetch(_) => Some(Capability::Fetch),
            Operation::BindingFetch { .. } => Some(Capability::Fetch),
            Operation::BindingStorage { .. } => Some(Capability::Storage),
            Operation::BindingKv { .. } => Some(Capability::Kv),
            Operation::BindingDatabase { .. } => Some(Capability::Database),
            Operation::BindingWorker { .. } => None,
            Operation::Log { .. } => None,
        }
    }
}

impl OperationResult {
    /// The shape of this result.
    pub open spec fn shape(self) -> ResultKind {
        match self {
            OperationResult::Http(_) => ResultKind::Http,
            OperationResult::Storage(_) => ResultKind::Storage,
            OperationResult::Kv(_) => ResultKind::Kv,
            OperationResult::Database(_) => ResultKind::Database,
            OperationResult::Ack => ResultKind::Ack,
        }
    }

    /// This result has the shape that answers `op`.
    pub open spec fn answers(self, op: Operation) -> bool {
        self.shape() == op.expected()
    }

    /// This result is the failure of the given shape with the given message.
    /// An acknowledgement carries nothing, so its failure is itself.
    pub open spec fn is_failure(self, kind: ResultKind, message: Seq<char>) -> bool {
        match kind {
            ResultKind::Http => self matches OperationResult::Http(Err(m)) && m@ == message,
            ResultKind::Storage => self matches OperationResult::Storage(StorageResult::Error(m))
                && m@ == message,
            ResultKind::Kv => self matches OperationResult::Kv(KvResult::Error(m)) && m@ == message,
            ResultKind::Database => self matches OperationResult::Database(
                DatabaseResult::Error(m),
            ) && m@ == message,
            ResultKind::Ack => self is Ack,
        }
    }

    /// The shape of this result.
    pub fn kind(&self) -> (kind: ResultKind)
        ensures
            kind == self.shape(),
    {
        match self {
            OperationResult::Http(_) => ResultKind::Http,
            OperationResult::Storage(_) => ResultKind::Storage,
            OperationResult::Kv(_) => ResultKind::Kv,
            OperationResult::Database(_) => ResultKind::Database,
            OperationResult::Ack => ResultKind::Ack,
        }
    }

    /// The result that reports a failure in the given shape. It is how a
    /// call that was refused, or a handler that broke down, is answered
    /// without disturbing the rest of the task.
    pub fn failure(kind: ResultKind, message: String) -> (result: OperationResult)
        ensures
            result.shape() == kind,
            result.is_failure(kind, message@),
    {
        match kind {
            ResultKind::Http => OperationResult::Http(Err(message)),
            ResultKind::Storage => OperationResult::Storage(StorageResult::Error(message)),
            ResultKind::Kv => OperationResult::Kv(KvResult::Error(message)),
            ResultKind::Database => OperationResult::Database(DatabaseResult::Error(message)),
            ResultKind::Ack => OperationResult::Ack,
        }
    }
}

/// Handler for operations - implemented by the runner
///
/// All methods have default implementations (stubs) so runners only need
/// to override the operations they want to support.
pub trait OperationsHandler: Send + Sync + Sized {
    /// Handle a fetch request
    ///
    /// Default: returns error "Fetch not available"
    fn handle_fetch(&self, request: HttpRequest) -> (result: Result<HttpResponse, String>)
        default_ensures
            result matches Err(m) && m@ == "Fetch not available"@,
    {
        Err(String::from_str("Fetch not available"))
    }

    /// Handle a binding fetch request
    ///
    /// Default: returns error with binding name
    fn handle_binding_fetch(&self, binding: &str, request: HttpRequest) -> (result: Result<
        HttpResponse,
        String,
    >)
        default_ensures
            result matches Err(m) && m@ == quoted("Binding '"@, binding@, "' not configured"@),
    {
        Err(quote("Binding '", binding, "' not configured"))
    }

    /// Handle a storage operation (get/put/head/list/delete)
    ///
    /// Default: returns error "not implemented"
    fn handle_binding_storage(&self, binding: &str, op: StorageOp) -> (result: StorageResult)
        default_ensures
            result matches StorageResult::Error(m) && m@ == quoted(
                "Storage binding '"@,
                binding@,
                "' not implemented"@,
            ),
    {
        StorageResult::Error(quote("Storage binding '", binding, "' not implemented"))
    }

    /// Handle a KV operation (get/put/delete/list)
    ///
    /// Default: returns error "not implemented"
    fn handle_binding_kv(&self, binding: &str, op: KvOp) -> (result: KvResult)
        default_ensures
            result matches KvResult::Error(m) && m@ == quoted(
                "KV binding '"@,
                binding@,
                "' not implemented"@,
            ),
    {
        KvResult::Error(quote("KV binding '", binding, "' not implemented"))
    }

    /// Handle a database operation (SQL query)
    ///
    /// Default: returns error "not implemented"
    fn handle_binding_database(&self, binding: &str, op: DatabaseOp) -> (result: DatabaseResult)
        default_ensures
            result matches DatabaseResult::Error(m) && m@ == quoted(
                "Database binding '"@,
                binding@,
                "' not implemented"@,
            ),
    {
        DatabaseResult::Error(quote("Database binding '", binding, "' not implemented"))
    }

    /// Handle a worker binding (worker-to-worker call)
    ///
    /// Default: returns error "not implemented"
    fn handle_binding_worker(&self, binding: &str, request: HttpRequest) -> (result: Result<
        HttpResponse,
        String,
    >)
        default_ensures
            result matches Err(m) && m@ == quoted(
                "Worker binding '"@,
                binding@,
                "' not implemented"@,
            ),
    {
        Err(quote("Worker binding '", binding, "' not implemented"))
    }

    /// Handle a log message. A handler that keeps the message returns
    /// `None`; one that returns the event passes it on to the default sink.
    ///
    /// Default: passes the message on
    fn handle_log(&self, level: LogLevel, message: String) -> (passed_on: Option<LogEvent>)
        default_ensures
            passed_on == Some((LogEvent { level, message })),
    {
        Some(LogEvent { level, message })
    }

    /// Dispatch an operation to the appropriate handler
    ///
    /// The result always has the shape that answers the operation, and only
    /// a log operation passes an event on. The default routes each operation
    /// to the one method that is named after it, hands it the operation's
    /// own fields, and wraps what comes back. Override only if you need
    /// custom dispatch logic.
    fn handle(&self, op: Operation) -> (handled: Handled)
        ensures
            handled.result.answers(op),
            !(op is Log) ==> handled.passed_on is None,
        default_ensures
            (match op {
                Operation::Fetch(request) => {
                    &&& handled.result matches OperationResult::Http(r)
                    &&& call_ensures(Self::handle_fetch, (self, request), r)
                },
                Operation::BindingFetch { binding, request } => {
                    &&& handled.result matches OperationResult::Http(r)
                    &&& exists|name: &str|
                        name@ == binding@ && #[trigger] call_ensures(
                            Self::handle_binding_fetch,
                            (self, name, request),
                            r,
                        )
                },
                Operation::BindingStorage { binding, op } => {
                    &&& handled.result matches OperationResult::Storage(r)
                    &&& exists|name: &str|
                        name@ == binding@ && #[trigger] call_ensures(
                            Self::handle_binding_storage,
                            (self, name, op),
                            r,
                        )
                },
                Operation::BindingKv { binding, op } => {
                    &&& handled.result matches OperationResult::Kv(r)
                    &&& exists|name: &str|
                        name@ == binding@ && #[trigger] call_ensures(
                            Self::handle_binding_kv,
                            (self, name, op),
                            r,
                        )
                },
                Operation::BindingDatabase { binding, op } => {
                    &&& handled.result matches OperationResult::Database(r)
                    &&& exists|name: &str|
                        name@ == binding@ && #[trigger] call_ensures(
                            Self::handle_binding_database,
                            (self, name, op),
                            r,
                        )
                },
                Operation::BindingWorker { binding, request } => {
                    &&& handled.result matches OperationResult::Http(r)
                    &&& exists|name: &str|
                        name@ == binding@ && #[trigger] call_ensures(
                            Self::handle_binding_worker,
                            (self, name, request),
                            r,
                        )
                },
                Operation::Log { level, message } => {
                    &&& handled.result is Ack
                    &&& call_ensures(Self::handle_log, (self, level, message), handled.passed_on)
                },
            }),
    {
        match op {
            Operation::Fetch(request) => Handled {
                result: OperationResult::Http(self.handle_fetch(request)),
                passed_on: None,
            },
            Operation::BindingFetch { binding, request } => Handled {
                result: OperationResult::Http(self.handle_binding_fetch(binding.as_str(), request)),
                passed_on: None,
            },
            Operation::BindingStorage { binding, op } => Handled {
                result: OperationResult::Storage(self.handle_binding_storage(binding.as_str(), op)),
                passed_on: None,
            },
            Operation::BindingKv { binding, op } => Handled {
                result: OperationResult::Kv(self.handle_binding_kv(binding.as_str(), op)),
                passed_on: None,
            },
            Operation::BindingDatabase { binding, op } => Handled {
                result: OperationResult::Database(
                    self.handle_binding_database(binding.as_str(), op),
                ),
                passed_on: None,
            },
            Operation::BindingWorker { binding, request } => Handled {
                result: OperationResult::Http(
                    self.handle_binding_worker(binding.as_str(), request),
                ),
                passed_on: None,
            },
            Operation::Log { level, message } => Handled {
                result: OperationResult::Ack,
                passed_on: self.handle_log(level, message),
            },
        }
    }
}

/// Default stub implementation using all default trait methods
///
/// Use this for testing or when no runner operations are needed.
#[derive(Debug, Clone, Copy)]
pub struct DefaultOps;

impl OperationsHandler for DefaultOps {

}

/// The answer to an operation that was held against its ceiling.
#[derive(Debug)]
pub enum Guarded {
    /// The operation was answered: by its handler, or with the error that
    /// says that the scope has used up its allowance.
    Done(Handled),
    /// Too many calls of the kind are in flight. The operation comes back
    /// untouched, to be offered again when one of them has ended.
    Deferred(Operation),
}

/// What the ceilings of a scope say to an operation that asks to run.
#[derive(Debug)]
pub enum Admitted {
    /// The operation may run now. Where `held` names a capability, the call
    /// is counted as in flight, and is to be released when it has ended.
    Run { op: Operation, held: Option<Capability> },
    /// The scope has used up its allowance: this is the answer, and the
    /// operation must not run.
    Refused(Handled),
    /// Too many calls of the kind are in flight. The operation comes back
    /// untouched, to be offered again when one of them has ended.
    Deferred(Operation),
}

/// What `hold_against` makes of an operation, given the counters as they were.
pub open spec fn admission(before: LimitTracker, op: Operation, admitted: Admitted) -> bool {
    match op.metered() {
        None => admitted == (Admitted::Run { op, held: None }),
        Some(c) => match before.counter(c).verdict() {
            Admission::Rejected => {
                &&& admitted matches Admitted::Refused(handled)
                &&& handled.result.is_failure(op.expected(), c.quota_text())
                &&& handled.passed_on is None
            },
            Admission::Deferred => admitted == Admitted::Deferred(op),
            Admission::Granted => admitted == (Admitted::Run { op, held: Some(c) }),
        },
    }
}

/// How `hold_against` leaves the counters: a call that may run and counts against
/// a ceiling is in flight and counted, and nothing else has changed.
pub open spec fn counted(before: LimitTracker, op: Operation, after: LimitTracker) -> bool {
    match op.metered() {
        Some(c) if before.counter(c).verdict() == Admission::Granted => {
            &&& before.counter(c).wf()
            &&& after.counter(c).wf()
            &&& after.counter(c).in_flight() == before.counter(c).in_flight() + 1
            &&& after.counter(c).total() == before.counter(c).total_after_grant()
            &&& after.counter(c).limit() == before.counter(c).limit()
            &&& forall|other: Capability|
                other != c ==> (#[trigger] after.counter(other)) == before.counter(other)
        },
        _ => after == before,
    }
}

/// Holds an operation against the ceilings of its scope, before it is
/// dispatched. An operation that counts against no ceiling may run. One
/// that does is held against the counter of its kind: over the lifetime
/// allowance it is refused with an error; with too many calls in flight it
/// is handed back to wait; else it is counted as in flight and may run.
pub fn hold_against(tracker: &mut LimitTracker, op: Operation) -> (admitted: Admitted)
    ensures
        admission(*old(tracker), op, admitted),
        counted(*old(tracker), op, *final(tracker)),
{
    match op.capability() {
        None => Admitted::Run { op, held: None },
        Some(c) => {
            match tracker.try_acquire(c) {
                Admission::Rejected => {
                    let message = String::from_str(c.quota_message());
                    Admitted::Refused(
                        Handled {
                            result: OperationResult::failure(op.expects(), message),
                            passed_on: None,
                        },
                    )
                },
                Admission::Deferred => Admitted::Deferred(op),
                Admission::Granted => Admitted::Run { op, held: Some(c) },
            }
        },
    }
}

/// Dispatches an operation under the ceilings of its scope.
///
/// An operation that counts against no ceiling goes straight to the handler.
/// One that does is first held against the counter of its kind: over the
/// lifetime allowance it is answered with an error and never reaches the
/// handler; with too many calls in flight it is handed back to wait; else it
/// is counted, dispatched, and released when the handler returns.
pub fn handle_metered<H: OperationsHandler>(
    handler: &H,
    tracker: &mut LimitTracker,
    op: Operation,
) -> (guarded: Guarded)
    ensures
        (match op.metered() {
            None => {
                &&& *final(tracker) == *old(tracker)
                &&& guarded matches Guarded::Done(handled)
                &&& call_ensures(H::handle, (handler, op), handled)
            },
            Some(c) => match old(tracker).counter(c).verdict() {
                Admission::Rejected => {
                    &&& *final(tracker) == *old(tracker)
                    &&& guarded matches Guarded::Done(handled)
                    &&& handled.result.is_failure(op.expected(), c.quota_text())
                    &&& handled.passed_on is None
                },
                Admission::Deferred => {
                    &&& *final(tracker) == *old(tracker)
                    &&& guarded == Guarded::Deferred(op)
                },
                Admission::Granted => {
                    &&& guarded matches Guarded::Done(handled)
                    &&& call_ensures(H::handle, (handler, op), handled)
                    &&& final(tracker).counter(c).in_flight() == old(tracker).counter(c).in_flight()
                    &&& final(tracker).counter(c).total() == old(tracker).counter(
                        c,
                    ).total_after_grant()
                    &&& final(tracker).counter(c).limit() == old(tracker).counter(c).limit()
                    &&& forall|other: Capability|
                        other != c ==> (#[trigger] final(tracker).counter(other)) == old(
                            tracker,
                        ).counter(other)
                },
            },
        }),
{
    match hold_against(tracker, op) {
        Admitted::Run { op, held } => {
            let handled = handler.handle(op);
            match held {
                Some(c) => {
                    tracker.release(c);
                },
                None => {},
            }
            Guarded::Done(handled)
        },
        Admitted::Refused(handled) => Guarded::Done(handled),
        Admitted::Deferred(op) => Guarded::Deferred(op),
    }
}

/// The former name of `DefaultOps`.
pub type DirectOperations = DefaultOps;

} // verus!
