//! Tasks: the units of work that a worker executes, and their completion.
//!
//! A task is made together with the receiving end of its completion channel.
//! Whoever accepts the task owes it exactly one completion: a result, sent
//! through the sending end that the task owns, on every path out, faults
//! included. A sending end that is dropped unused shows at the receiving end
//! as an abandoned task, never as silence.

use vstd::prelude::*;
use tokio::sync::oneshot;
use crate::channel::{completion_channel, poll_completion, Polled};
use crate::http::{HttpRequest, HttpResponse};
use crate::termination::TerminationReason;

verus! {

/// Fetch event initialization data
#[derive(Debug)]
pub struct FetchInit {
    pub req: HttpRequest,
    pub res_tx: oneshot::Sender<HttpResponse>,
}

impl FetchInit {
    pub fn new(req: HttpRequest, res_tx: oneshot::Sender<HttpResponse>) -> (init: FetchInit)
        ensures
            init.req == req,
            init.res_tx == res_tx,
    {
        FetchInit { req, res_tx }
    }
}

/// Scheduled event initialization data
#[derive(Debug)]
pub struct ScheduledInit {
    pub time: u64,
    pub res_tx: oneshot::Sender<()>,
}

impl ScheduledInit {
    /// Create ScheduledInit (res_tx first, time second)
    pub fn new(res_tx: oneshot::Sender<()>, time: u64) -> (init: ScheduledInit)
        ensures
            init.time == time,
            init.res_tx == res_tx,
    {
        ScheduledInit { time, res_tx }
    }
}

/// Where a generic task came from. This is for the record only: it has no
/// part in how the task completes.
#[derive(Debug, Clone)]
pub enum Source {
    /// A schedule fired at the given time.
    Schedule { time: u64 },
    /// Another task asked for this one.
    Chained { parent_task_id: String, parent_worker_id: String, parent_worker_name: Option<String> },
    /// A worker asked for it outside any task.
    Worker { worker_id: String, worker_name: Option<String> },
    /// It was invoked from outside.
    Invoke { origin: Option<String> },
}

/// The result of a generic task. `success` alone says whether the task
/// succeeded: a result with `success == false` is a failure whatever `data`
/// holds, and `error` may be set either way.
#[derive(Debug, Clone)]
pub struct TaskResult {
    pub success: bool,
    /// JSON text
    pub data: Option<String>,
    pub error: Option<String>,
}

/// How a task ended, as the waiting side sees it.
#[derive(Debug, Clone, Copy, PartialEq, Eq, Structural)]
pub enum Outcome {
    Success,
    Failure,
    /// The sending end was dropped without a result.
    Abandoned,
}

impl TaskResult {
    /// A success with the given data.
    pub fn ok(data: Option<String>) -> (result: TaskResult)
        ensures
            result.success,
            result.data == data,
            result.error is None,
    {
        TaskResult { success: true, data, error: None }
    }

    /// A failure with the given message.
    pub fn err(error: String) -> (result: TaskResult)
        ensures
            !result.success,
            result.data is None,
            result.error == Some(error),
    {
        TaskResult { success: false, data: None, error: Some(error) }
    }

    /// The failure that stands for an execution that ended abnormally: its
    /// message is the reason's description.
    pub fn from_termination(reason: &TerminationReason) -> (result: TaskResult)
        ensures
            !result.success,
            result.data is None,
            result.error matches Some(message) && message@ == reason.description_text(),
    {
        TaskResult { success: false, data: None, error: Some(reason.to_string()) }
    }

    /// How the task ended: by the `success` flag alone.
    pub open spec fn outcome_of(self) -> Outcome {
        if self.success {
            Outcome::Success
        } else {
            Outcome::Failure
        }
    }

    /// How the task ended: by the `success` flag alone.
    pub fn outcome(&self) -> (outcome: Outcome)
        ensures
            outcome == self.outcome_of(),
    {
        if self.success {
            Outcome::Success
        } else {
            Outcome::Failure
        }
    }
}

/// Generic task initialization data
#[derive(Debug)]
pub struct GenericInit {
    pub task_id: String,
    /// JSON text
    pub payload: Option<String>,
    pub source: Source,
    /// Which try this is: 1 for the first, one more for each retry.
    pub attempt: u32,
    pub res_tx: oneshot::Sender<TaskResult>,
}

impl GenericInit {
    /// The attempt counter starts at 1.
    pub open spec fn wf(self) -> bool {
        self.attempt >= 1
    }

    pub fn new(
        task_id: String,
        payload: Option<String>,
        source: Source,
        attempt: u32,
        res_tx: oneshot::Sender<TaskResult>,
    ) -> (init: GenericInit)
        requires
            attempt >= 1,
        ensures
            init.wf(),
            init.task_id == task_id,
            init.payload == payload,
            init.source == source,
            init.attempt == attempt,
            init.res_tx == res_tx,
    {
        GenericInit { task_id, payload, source, attempt, res_tx }
    }
}

/// Task type discriminator
#[derive(Debug, Clone, Copy, PartialEq, Eq, Structural)]
pub enum TaskType {
    Fetch,
    Scheduled,
    Generic,
}

/// Task to be executed by a Worker
pub enum Task {
    Fetch(Option<FetchInit>),
    Scheduled(Option<ScheduledInit>),
    Generic(Option<GenericInit>),
}

impl Task {
    pub fn task_type(&self) -> (kind: TaskType)
        ensures
            kind == (match *self {
                Task::Fetch(_) => TaskType::Fetch,
                Task::Scheduled(_) => TaskType::Scheduled,
                Task::Generic(_) => TaskType::Generic,
            }),
    {
        match self {
            Task::Fetch(_) => TaskType::Fetch,
            Task::Scheduled(_) => TaskType::Scheduled,
            Task::Generic(_) => TaskType::Generic,
        }
    }

    /// Create a fetch task, together with the end on which its response is
    /// awaited.
    pub fn fetch(req: HttpRequest) -> (made: (Task, oneshot::Receiver<HttpResponse>))
        ensures
            made.0 matches Task::Fetch(Some(init)) && init.req == req,
    {
        let (tx, rx) = completion_channel();
        (Task::Fetch(Some(FetchInit::new(req, tx))), rx)
    }

    /// Create a scheduled task, together with the end on which its
    /// completion is awaited.
    pub fn scheduled(time: u64) -> (made: (Task, oneshot::Receiver<()>))
        ensures
            made.0 matches Task::Scheduled(Some(init)) && init.time == time,
    {
        let (tx, rx) = completion_channel();
        (Task::Scheduled(Some(ScheduledInit::new(tx, time))), rx)
    }

    /// Create the first attempt of a generic task, together with the end on
    /// which its result is awaited.
    pub fn generic(task_id: String, payload: Option<String>, source: Source) -> (made: (
        Task,
        oneshot::Receiver<TaskResult>,
    ))
        ensures
            made.0 matches Task::Generic(Some(init)) && init.wf() && init.task_id == task_id
                && init.payload == payload && init.source == source && init.attempt == 1,
    {
        let (tx, rx) = completion_channel();
        (Task::Generic(Some(GenericInit::new(task_id, payload, source, 1, tx))), rx)
    }
}

/// What one look at a task's receiving end shows.
#[derive(Debug)]
pub enum Completion<T> {
    /// The task has not ended yet.
    Pending,
    /// The task ended with this result.
    Delivered(T),
    /// The task's sending end was dropped without a result.
    Abandoned,
    /// The end of the task was already reported by an earlier look.
    Settled,
}

impl Completion<TaskResult> {
    /// What this look shows of how the task ended: nothing unless it is the
    /// look that reports the end.
    pub open spec fn outcome_of(self) -> Option<Outcome> {
        match self {
            Completion::Delivered(result) => Some(result.outcome_of()),
            Completion::Abandoned => Some(Outcome::Abandoned),
            Completion::Pending | Completion::Settled => None,
        }
    }

    /// What this look shows of how the task ended.
    pub fn outcome(&self) -> (outcome: Option<Outcome>)
        ensures
            outcome == self.outcome_of(),
    {
        match self {
            Completion::Delivered(result) => Some(result.outcome()),
            Completion::Abandoned => Some(Outcome::Abandoned),
            Completion::Pending => None,
            Completion::Settled => None,
        }
    }
}

/// The waiting side of a task: it reports the task's end once, and only once.
#[derive(Debug)]
#[verifier::reject_recursive_types(T)]
pub struct Waiter<T> {
    receiver: oneshot::Receiver<T>,
    settled: bool,
}

impl<T> Waiter<T> {
    /// Whether the end of the task has been reported.
    pub closed spec fn settled(&self) -> bool {
        self.settled
    }

    pub fn new(receiver: oneshot::Receiver<T>) -> (waiter: Waiter<T>)
        ensures
            !waiter.settled(),
    {
        Waiter { receiver, settled: false }
    }

    pub fn is_settled(&self) -> (b: bool)
        ensures
            b == self.settled(),
    {
        self.settled
    }

    /// The receiving end of the task's completion. It is for waiting only:
    /// what it yields when it is awaited goes to `settle`, which keeps the
    /// report of the task's end to one.
    pub fn receiving_end(&mut self) -> (end: &mut oneshot::Receiver<T>)
        ensures
            final(self).settled() == old(self).settled(),
    {
        &mut self.receiver
    }

    /// Takes what the receiving end handed out at one look, and says what
    /// the look shows. A waiter that has reported the end says `Settled`
    /// whatever it is handed. Before that a value is the task's result, a
    /// closed channel is an abandoned task, and either one settles the
    /// waiter; an empty channel leaves it waiting.
    pub fn settle(&mut self, polled: Polled<T>) -> (seen: Completion<T>)
        ensures
            old(self).settled() ==> seen is Settled && final(self).settled(),
            !old(self).settled() ==> seen == (match polled {
                Polled::Item(value) => Completion::Delivered(value),
                Polled::Empty => Completion::Pending,
                Polled::Closed => Completion::Abandoned,
            }) && final(self).settled() == !(polled is Empty),
    {
        if self.settled {
            return Completion::Settled;
        }
        match polled {
            Polled::Item(value) => {
                self.settled = true;
                Completion::Delivered(value)
            },
            Polled::Empty => Completion::Pending,
            Polled::Closed => {
                self.settled = true;
                Completion::Abandoned
            },
        }
    }

    /// Looks once, without waiting, at whether the task has ended: it asks
    /// the receiving end, unless the end was reported already, and lets
    /// `settle` say what the answer shows. The end (a result, or
    /// abandonment) is reported by exactly one look; every look before it
    /// says `Pending`, every look after it `Settled`.
    pub fn poll(&mut self) -> (seen: Completion<T>)
        ensures
            old(self).settled() ==> seen is Settled && final(self).settled(),
            !old(self).settled() ==> !(seen is Settled) && (final(self).settled() <==> !(seen
                is Pending)),
    {
        if self.settled {
            return Completion::Settled;
        }
        let polled = poll_completion(&mut self.receiver);
        self.settle(polled)
    }
}

/// Where a task stands.
#[derive(Debug, Clone, Copy, PartialEq, Eq, Structural)]
pub enum TaskPhase {
    /// Made, not yet handed to a worker.
    Created,
    /// Handed to a worker, which now owes its completion.
    Dispatched,
    /// Completed with a success.
    Succeeded,
    /// Completed with a failure.
    Failed,
    /// Its sending end was dropped without a result.
    Abandoned,
}

/// What can happen to a task.
#[derive(Debug, Clone, Copy, PartialEq, Eq, Structural)]
pub enum TaskEvent {
    /// A worker accepts the task.
    Dispatch,
    /// The worker sends the result.
    Complete { success: bool },
    /// The sending end is dropped unused.
    SenderDropped,
}

impl TaskEvent {
    /// Whether the event uses up the sending end.
    pub open spec fn ends_sender(self) -> bool {
        self is Complete || self is SenderDropped
    }
}

impl TaskPhase {
    /// Whether the task has ended.
    pub open spec fn is_terminal(self) -> bool {
        self is Succeeded || self is Failed || self is Abandoned
    }

    /// What the waiting side sees of a task in this phase: nothing while it
    /// is under way, and its outcome once it has ended.
    pub open spec fn observed(self) -> Option<Outcome> {
        match self {
            TaskPhase::Created | TaskPhase::Dispatched => None,
            TaskPhase::Succeeded => Some(Outcome::Success),
            TaskPhase::Failed => Some(Outcome::Failure),
            TaskPhase::Abandoned => Some(Outcome::Abandoned),
        }
    }

    /// The phase after an event, or `None` where the event cannot happen in
    /// this phase: a result before the task was dispatched, a second
    /// dispatch, or anything at all after the task has ended.
    pub open spec fn after(self, event: TaskEvent) -> Option<TaskPhase> {
        match (self, event) {
            (TaskPhase::Created, TaskEvent::Dispatch) => Some(TaskPhase::Dispatched),
            (TaskPhase::Created, TaskEvent::SenderDropped) => Some(TaskPhase::Abandoned),
            (TaskPhase::Dispatched, TaskEvent::Complete { success }) => Some(
                if success {
                    TaskPhase::Succeeded
                } else {
                    TaskPhase::Failed
                },
            ),
            (TaskPhase::Dispatched, TaskEvent::SenderDropped) => Some(TaskPhase::Abandoned),
            _ => None,
        }
    }

    /// The phase after a run of events, or `None` where one of them could
    /// not happen.
    pub open spec fn run(self, events: Seq<TaskEvent>) -> Option<TaskPhase>
        decreases events.len(),
    {
        if events.len() == 0 {
            Some(self)
        } else {
            match self.run(events.drop_last()) {
                Some(before) => before.after(events.last()),
                None => None,
            }
        }
    }

    /// The outcomes that reach the waiting side in the course of a run: one
    /// for each step that ends the task.
    pub open spec fn outcomes(self, events: Seq<TaskEvent>) -> Seq<Outcome>
        decreases events.len(),
    {
        if events.len() == 0 {
            Seq::empty()
        } else {
            let earlier = self.outcomes(events.drop_last());
            match self.run(events) {
                Some(phase) if phase.is_terminal() => earlier.push(phase.observed()->0),
                _ => earlier,
            }
        }
    }

    pub fn has_ended(&self) -> (b: bool)
        ensures
            b == self.is_terminal(),
    {
        matches!(self, TaskPhase::Succeeded | TaskPhase::Failed | TaskPhase::Abandoned)
    }

    /// What the waiting side sees of a task in this phase.
    pub fn outcome(&self) -> (outcome: Option<Outcome>)
        ensures
            outcome == self.observed(),
    {
        match self {
            TaskPhase::Created | TaskPhase::Dispatched => None,
            TaskPhase::Succeeded => Some(Outcome::Success),
            TaskPhase::Failed => Some(Outcome::Failure),
            TaskPhase::Abandoned => Some(Outcome::Abandoned),
        }
    }

    /// The phase after an event, or `None` where the event cannot happen in
    /// this phase.
    pub fn advance(&self, event: TaskEvent) -> (next: Option<TaskPhase>)
        ensures
            next == self.after(event),
    {
        match (*self, event) {
            (TaskPhase::Created, TaskEvent::Dispatch) => Some(TaskPhase::Dispatched),
            (TaskPhase::Created, TaskEvent::SenderDropped) => Some(TaskPhase::Abandoned),
            (TaskPhase::Dispatched, TaskEvent::Complete { success }) => {
                if success {
                    Some(TaskPhase::Succeeded)
                } else {
                    Some(TaskPhase::Failed)
                }
            },
            (TaskPhase::Dispatched, TaskEvent::SenderDropped) => Some(TaskPhase::Abandoned),
            _ => None,
        }
    }

    /// A task that has not ended is never stuck: its sending end can always
    /// be dropped, and whatever uses the sending end up ends the task.
    pub proof fn lemma_sender_ends_task(self, event: TaskEvent)
        ensures
            !self.is_terminal() ==> self.after(TaskEvent::SenderDropped) == Some(
                TaskPhase::Abandoned,
            ),
            event.ends_sender() && self.after(event) is Some ==> self.after(event)->0.is_terminal(),
            self.is_terminal() ==> self.after(event) is None,
    {
    }

    /// Over every run of a task from its creation, the waiting side sees at
    /// most one outcome. It sees exactly one, the outcome of the phase
    /// reached, as soon as the sending end has been used or dropped, and
    /// none before.
    pub proof fn lemma_exactly_one_outcome(events: Seq<TaskEvent>)
        requires
            TaskPhase::Created.run(events) is Some,
        ensures
            TaskPhase::Created.outcomes(events).len() <= 1,
            TaskPhase::Created.run(events)->0.is_terminal() <==> TaskPhase::Created.outcomes(
                events,
            ).len() == 1,
            TaskPhase::Created.run(events)->0.is_terminal() ==> TaskPhase::Created.outcomes(
                events,
            ) == seq![TaskPhase::Created.run(events)->0.observed()->0],
            TaskPhase::Created.run(events)->0.is_terminal() <==> exists|i: int|
                0 <= i < events.len() && (#[trigger] events[i]).ends_sender(),
        decreases events.len(),
    {
        let start = TaskPhase::Created;
        if events.len() > 0 {
            let init = events.drop_last();
            let before = start.run(init)->0;
            Self::lemma_exactly_one_outcome(init);
            before.lemma_sender_ends_task(events.last());
            let reached = start.run(events)->0;
            if reached.is_terminal() {
                assert(events[events.len() - 1].ends_sender());
                assert(start.outcomes(events) =~= seq![reached.observed()->0]);
            } else {
                assert forall|i: int| 0 <= i < events.len() implies !(#[trigger] events[i]).ends_sender() by {
                    if i < init.len() {
                        assert(init[i] == events[i]);
                    }
                }
            }
        }
    }
}

} // verus!
