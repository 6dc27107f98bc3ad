use bytes::Bytes;
use openworkers_core::channel::Polled;
use openworkers_core::{
    Completion, FetchInit, GenericInit, HttpMethod, HttpRequest, HttpResponse, Outcome,
    RequestBody, ResponseBody, ScheduledInit, Source, Task, TaskEvent, TaskPhase, TaskResult,
    TaskType, TerminationReason, Waiter,
};
use std::collections::HashMap;

fn request(url: &str) -> HttpRequest {
    HttpRequest {
        method: HttpMethod::Get,
        url: url.to_string(),
        headers: HashMap::new(),
        body: RequestBody::Empty,
    }
}

fn response(status: u16, body: &'static str) -> HttpResponse {
    HttpResponse {
        status,
        headers: Vec::new(),
        body: ResponseBody::Bytes(Bytes::from_static(body.as_bytes())),
    }
}

#[test]
fn fetch_task_delivers_its_response_once() {
    let (task, rx) = Task::fetch(request("http://localhost/"));
    assert_eq!(task.task_type(), TaskType::Fetch);
    let mut waiter = Waiter::new(rx);
    assert!(matches!(waiter.poll(), Completion::Pending));
    assert!(!waiter.is_settled());
    let init = match task {
        Task::Fetch(Some(init)) => init,
        _ => panic!("a fetch task was expected"),
    };
    assert_eq!(init.req.url, "http://localhost/");
    assert!(init.res_tx.send(response(200, "hi")).is_ok());
    match waiter.poll() {
        Completion::Delivered(r) => {
            assert_eq!(r.status, 200);
            assert_eq!(r.body.collect().finish(), Some(Bytes::from_static(b"hi")));
        }
        other => panic!("a response was expected, not {:?}", other),
    }
    assert!(waiter.is_settled());
    assert!(matches!(waiter.poll(), Completion::Settled));
    assert!(matches!(waiter.poll(), Completion::Settled));
}

#[test]
fn dropped_task_shows_as_abandoned_once() {
    let (task, rx) = Task::fetch(request("http://localhost/"));
    let mut waiter = Waiter::new(rx);
    assert!(matches!(waiter.poll(), Completion::Pending));
    drop(task);
    assert!(matches!(waiter.poll(), Completion::Abandoned));
    assert!(waiter.is_settled());
    assert!(matches!(waiter.poll(), Completion::Settled));
}

#[test]
fn response_comes_back_when_nobody_waits() {
    let (task, rx) = Task::fetch(request("http://localhost/"));
    drop(rx);
    let init = match task {
        Task::Fetch(Some(init)) => init,
        _ => panic!("a fetch task was expected"),
    };
    match init.res_tx.send(response(418, "teapot")) {
        Err(returned) => assert_eq!(returned.status, 418),
        Ok(()) => panic!("the response cannot have been delivered"),
    }
}

#[test]
fn scheduled_task_completes() {
    let (task, rx) = Task::scheduled(1_700_000_000);
    assert_eq!(task.task_type(), TaskType::Scheduled);
    let mut waiter = Waiter::new(rx);
    let init = match task {
        Task::Scheduled(Some(init)) => init,
        _ => panic!("a scheduled task was expected"),
    };
    assert_eq!(init.time, 1_700_000_000);
    assert!(init.res_tx.send(()).is_ok());
    assert!(matches!(waiter.poll(), Completion::Delivered(())));
    assert!(matches!(waiter.poll(), Completion::Settled));

    let (task, rx) = Task::scheduled(5);
    drop(rx);
    match task {
        Task::Scheduled(Some(init)) => assert!(init.res_tx.send(()).is_err()),
        _ => panic!("a scheduled task was expected"),
    }
}

#[test]
fn generic_task_starts_at_the_first_attempt() {
    let source = Source::Chained {
        parent_task_id: "t0".to_string(),
        parent_worker_id: "w0".to_string(),
        parent_worker_name: None,
    };
    let (task, rx) = Task::generic("t1".to_string(), Some("{\"n\":1}".to_string()), source);
    assert_eq!(task.task_type(), TaskType::Generic);
    let mut waiter = Waiter::new(rx);
    let init = match task {
        Task::Generic(Some(init)) => init,
        _ => panic!("a generic task was expected"),
    };
    assert_eq!(init.task_id, "t1");
    assert_eq!(init.payload.as_deref(), Some("{\"n\":1}"));
    assert_eq!(init.attempt, 1);
    assert!(matches!(init.source, Source::Chained { .. }));
    assert!(init.res_tx.send(TaskResult::ok(Some("42".to_string()))).is_ok());
    match waiter.poll() {
        Completion::Delivered(result) => {
            assert_eq!(result.outcome(), Outcome::Success);
            assert_eq!(result.data.as_deref(), Some("42"));
            assert!(result.error.is_none());
        }
        other => panic!("a result was expected, not {:?}", other),
    }
    assert!(matches!(waiter.poll(), Completion::Settled));
}

#[test]
fn init_constructors_keep_their_arguments() {
    let (tx, _rx) = tokio::sync::oneshot::channel();
    let init = FetchInit::new(request("http://a/"), tx);
    assert_eq!(init.req.url, "http://a/");
    let (tx, _rx) = tokio::sync::oneshot::channel();
    let init = ScheduledInit::new(tx, 9);
    assert_eq!(init.time, 9);
    let (tx, mut rx) = tokio::sync::oneshot::channel();
    let init = GenericInit::new("id".to_string(), None, Source::Invoke { origin: None }, 3, tx);
    assert_eq!(init.attempt, 3);
    assert!(init.payload.is_none());
    assert!(init.res_tx.send(TaskResult::err("no".to_string())).is_ok());
    assert_eq!(rx.try_recv().unwrap().outcome(), Outcome::Failure);
}

#[test]
fn success_flag_alone_decides() {
    assert_eq!(TaskResult::ok(None).outcome(), Outcome::Success);
    assert_eq!(TaskResult::err("e".to_string()).outcome(), Outcome::Failure);
    let odd = TaskResult { success: false, data: Some("1".to_string()), error: None };
    assert_eq!(odd.outcome(), Outcome::Failure);
    let odd = TaskResult { success: true, data: None, error: Some("warning".to_string()) };
    assert_eq!(odd.outcome(), Outcome::Success);
}

#[test]
fn fault_becomes_a_failed_result() {
    let result = TaskResult::from_termination(&TerminationReason::CpuTimeLimit);
    assert!(!result.success);
    assert!(result.data.is_none());
    assert_eq!(result.error.as_deref(), Some("Worker exceeded CPU time limit"));
    let result = TaskResult::from_termination(&TerminationReason::Exception("oops".to_string()));
    assert_eq!(result.error.as_deref(), Some("oops"));
    let result = TaskResult::from_termination(&TerminationReason::Other("inner detail".to_string()));
    assert_eq!(result.error.as_deref(), Some("Unexpected error"));
}

#[test]
fn lifecycle_steps() {
    let created = TaskPhase::Created;
    assert_eq!(created.advance(TaskEvent::Dispatch), Some(TaskPhase::Dispatched));
    assert_eq!(created.advance(TaskEvent::SenderDropped), Some(TaskPhase::Abandoned));
    assert_eq!(created.advance(TaskEvent::Complete { success: true }), None);
    let dispatched = TaskPhase::Dispatched;
    assert_eq!(dispatched.advance(TaskEvent::Complete { success: true }), Some(TaskPhase::Succeeded));
    assert_eq!(dispatched.advance(TaskEvent::Complete { success: false }), Some(TaskPhase::Failed));
    assert_eq!(dispatched.advance(TaskEvent::SenderDropped), Some(TaskPhase::Abandoned));
    assert_eq!(dispatched.advance(TaskEvent::Dispatch), None);
}

#[test]
fn ended_task_takes_no_further_event() {
    let events = [
        TaskEvent::Dispatch,
        TaskEvent::Complete { success: true },
        TaskEvent::Complete { success: false },
        TaskEvent::SenderDropped,
    ];
    for phase in [TaskPhase::Succeeded, TaskPhase::Failed, TaskPhase::Abandoned] {
        assert!(phase.has_ended());
        for event in events {
            assert_eq!(phase.advance(event), None);
        }
    }
    assert!(!TaskPhase::Created.has_ended());
    assert!(!TaskPhase::Dispatched.has_ended());
}

#[test]
fn outcome_shows_only_at_the_end() {
    assert_eq!(TaskPhase::Created.outcome(), None);
    assert_eq!(TaskPhase::Dispatched.outcome(), None);
    assert_eq!(TaskPhase::Succeeded.outcome(), Some(Outcome::Success));
    assert_eq!(TaskPhase::Failed.outcome(), Some(Outcome::Failure));
    assert_eq!(TaskPhase::Abandoned.outcome(), Some(Outcome::Abandoned));
}

#[test]
fn every_run_yields_at_most_one_outcome() {
    let events = [
        TaskEvent::Dispatch,
        TaskEvent::Complete { success: true },
        TaskEvent::Complete { success: false },
        TaskEvent::SenderDropped,
    ];
    for a in events {
        for b in events {
            for c in events {
                let mut phase = Some(TaskPhase::Created);
                let mut outcomes = 0;
                for event in [a, b, c] {
                    phase = match phase {
                        Some(p) => p.advance(event),
                        None => None,
                    };
                    if let Some(p) = phase {
                        if p.has_ended() {
                            outcomes += 1;
                        }
                    }
                }
                assert!(outcomes <= 1);
            }
        }
    }
}

#[test]
fn waiting_side_sees_exactly_one_outcome() {
    let source = Source::Invoke { origin: Some("cli".to_string()) };
    let (task, rx) = Task::generic("t".to_string(), None, source);
    let mut waiter = Waiter::new(rx);
    let mut seen = Vec::new();
    seen.push(waiter.poll().outcome());
    match task {
        Task::Generic(Some(init)) => {
            assert!(init.res_tx.send(TaskResult::err("failed".to_string())).is_ok())
        }
        _ => panic!("a generic task was expected"),
    }
    for _ in 0..3 {
        seen.push(waiter.poll().outcome());
    }
    assert_eq!(seen, vec![None, Some(Outcome::Failure), None, None]);

    let (task, rx) = Task::generic("t".to_string(), None, Source::Schedule { time: 1 });
    let mut waiter = Waiter::new(rx);
    drop(task);
    let seen: Vec<_> = (0..3).map(|_| waiter.poll().outcome()).collect();
    assert_eq!(seen, vec![Some(Outcome::Abandoned), None, None]);

    let source = Source::Worker { worker_id: "w".to_string(), worker_name: Some("name".to_string()) };
    let (task, rx) = Task::generic("t".to_string(), None, source);
    let mut waiter = Waiter::new(rx);
    match task {
        Task::Generic(Some(init)) => assert!(init.res_tx.send(TaskResult::ok(None)).is_ok()),
        _ => panic!("a generic task was expected"),
    }
    let seen: Vec<_> = (0..2).map(|_| waiter.poll().outcome()).collect();
    assert_eq!(seen, vec![Some(Outcome::Success), None]);
}

#[test]
fn waiter_settles_on_what_the_channel_hands_out() {
    let (_tx, rx) = tokio::sync::oneshot::channel::<u8>();
    let mut waiter = Waiter::new(rx);
    assert!(matches!(waiter.settle(Polled::Empty), Completion::Pending));
    assert!(!waiter.is_settled());
    assert!(matches!(waiter.settle(Polled::Item(7)), Completion::Delivered(7)));
    assert!(waiter.is_settled());
    assert!(matches!(waiter.settle(Polled::Item(8)), Completion::Settled));
    assert!(matches!(waiter.settle(Polled::Closed), Completion::Settled));
    assert!(matches!(waiter.settle(Polled::Empty), Completion::Settled));

    let (_tx, rx) = tokio::sync::oneshot::channel::<u8>();
    let mut waiter = Waiter::new(rx);
    assert!(matches!(waiter.settle(Polled::Closed), Completion::Abandoned));
    assert!(waiter.is_settled());
    assert!(matches!(waiter.settle(Polled::Closed), Completion::Settled));
}

#[test]
fn receiving_end_can_be_asked_and_its_answer_settled() {
    let (task, rx) = Task::scheduled(3);
    let mut waiter = Waiter::new(rx);
    assert!(waiter.receiving_end().try_recv().is_err());
    assert!(!waiter.is_settled());
    match task {
        Task::Scheduled(Some(init)) => assert!(init.res_tx.send(()).is_ok()),
        _ => panic!("a scheduled task was expected"),
    }
    let polled = match waiter.receiving_end().try_recv() {
        Ok(value) => Polled::Item(value),
        Err(_) => Polled::Closed,
    };
    assert!(matches!(waiter.settle(polled), Completion::Delivered(())));
    assert!(waiter.is_settled());
    assert!(matches!(waiter.poll(), Completion::Settled));
}
