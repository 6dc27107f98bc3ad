//! The execution contract between a sandboxed worker and the host that runs
//! it: the HTTP values they exchange, the operations a worker delegates to
//! its host, tasks and their completion, streamed response bodies, resource
//! limits, and the reasons for which an execution ends abnormally.

pub mod buffer;
pub mod channel;
pub mod http;
pub mod limits;
pub mod log;
pub mod ops;
pub mod script;
pub mod stream;
pub mod task;
pub mod termination;
pub mod text;

pub use http::{
    Collect, HttpMethod, HttpRequest, HttpResponse, HttpResponseMeta, Progress, RequestBody,
    ResponseBody, ResponseSender,
};
pub use limits::{Admission, BindingLimit, Capability, LimitCounter, LimitTracker, RuntimeLimits};
pub use log::{LogEvent, LogLevel};
pub use ops::{
    handle_metered, hold_against, Admitted, DatabaseOp, DatabaseResult, DefaultOps, DirectOperations, Guarded, Handled,
    KvOp, KvResult, Operation, OperationResult, OperationsHandler, ResultKind, StorageOp,
    StorageResult,
};
pub use script::{BindingInfo, BindingType, Script};
pub use stream::{collect_chunks, Chunk, Offer, StreamCollector, StreamProducer};
pub use task::{
    Completion, FetchInit, GenericInit, Outcome, ScheduledInit, Source, Task, TaskEvent, TaskPhase,
    TaskResult, TaskType, Waiter,
};
pub use termination::TerminationReason;
