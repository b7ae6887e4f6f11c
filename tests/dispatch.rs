use dispatcher::admission::route;
use dispatcher::{
    Action, Admission, ConfigError, DispatcherRequest, DispatcherResponse, Event, Phase, Pool,
    TaskKind,
};

fn runtime() -> tokio::runtime::Runtime {
    tokio::runtime::Builder::new_current_thread().build().unwrap()
}

fn run_request(rt: &tokio::runtime::Runtime, req: DispatcherRequest<i32>) -> i32 {
    match req {
        DispatcherRequest::Local { fut } => rt.block_on(fut.fut),
        DispatcherRequest::NonLocal { fut } => rt.block_on(fut.fut),
    }
}

fn received(req: &DispatcherRequest<i32>) -> Event {
    Event::Received { kind: req.kind() }
}

#[test]
fn constructors_fix_the_tag() {
    let a: DispatcherRequest<i32> = DispatcherRequest::local(std::future::ready(1));
    let b: DispatcherRequest<i32> = DispatcherRequest::non_local(std::future::ready(2));
    assert_eq!(a.kind(), TaskKind::Local);
    assert_eq!(b.kind(), TaskKind::NonLocal);
    assert!(matches!(a, DispatcherRequest::Local { .. }));
    assert!(matches!(b, DispatcherRequest::NonLocal { .. }));
}

#[test]
fn construction_does_not_run_the_computation() {
    let ran = std::rc::Rc::new(std::cell::Cell::new(false));
    let flag = ran.clone();
    let req: DispatcherRequest<i32> = DispatcherRequest::local(async move {
        flag.set(true);
        3
    });
    assert!(!ran.get());
    let rt = runtime();
    assert_eq!(run_request(&rt, req), 3);
    assert!(ran.get());
}

#[test]
fn boxed_futures_yield_their_values() {
    let rt = runtime();
    assert_eq!(run_request(&rt, DispatcherRequest::non_local(std::future::ready(42))), 42);
    assert_eq!(run_request(&rt, DispatcherRequest::local(std::future::ready(-9))), -9);
}

#[test]
fn response_carries_payload() {
    let r = DispatcherResponse::new(11u8);
    assert_eq!(r.payload, 11);
}

#[test]
fn routing_by_tag() {
    assert_eq!(route(TaskKind::Local), Pool::ContextBound);
    assert_eq!(route(TaskKind::NonLocal), Pool::Worker);
}

#[test]
fn zero_concurrency_is_rejected() {
    assert_eq!(Admission::new(0).err(), Some(ConfigError::ZeroConcurrency));
}

#[test]
fn new_dispatcher_waits_for_a_request() {
    let a = Admission::new(4).unwrap();
    assert_eq!(a.limit(), 4);
    assert_eq!(a.in_flight(), 0);
    assert_eq!(a.phase(), Phase::WaitingForRequest);
    assert_eq!(a.action(), Action::Receive);
}

#[test]
fn limit_one_two_transferable_items() {
    let rt = runtime();
    let mut a = Admission::new(1).unwrap();
    let mut queue = vec![
        DispatcherRequest::non_local(std::future::ready(5)),
        DispatcherRequest::non_local(std::future::ready(7)),
    ];
    queue.reverse();
    let mut payloads = Vec::new();
    let mut running: Vec<i32> = Vec::new();
    let mut held: Option<DispatcherRequest<i32>> = None;
    let mut action = a.action();
    let mut max_seen = 0usize;
    loop {
        let event = match action {
            Action::Receive => match queue.pop() {
                Some(req) => {
                    let e = received(&req);
                    held = Some(req);
                    e
                }
                None => Event::InboundClosed,
            },
            Action::Start { pool } => {
                assert_eq!(pool, Pool::Worker);
                running.push(run_request(&rt, held.take().unwrap()));
                Event::Started
            }
            Action::AwaitCompletion => {
                payloads.push(running.remove(0));
                Event::Completed
            }
            Action::Stop => break,
            Action::Fail => panic!("no host failed"),
        };
        action = a.step(event);
        assert!(a.in_flight() <= 1);
        assert_eq!(a.in_flight(), running.len());
        max_seen = max_seen.max(a.in_flight());
    }
    payloads.sort();
    assert_eq!(payloads, vec![5, 7]);
    assert_eq!(max_seen, 1);
    assert_eq!(a.phase(), Phase::Stopped);
}

#[test]
fn limit_two_long_item_waits_for_a_slot() {
    let mut a = Admission::new(2).unwrap();
    // B and C arrive first and start at once.
    assert_eq!(a.step(Event::Received { kind: TaskKind::NonLocal }), Action::Start { pool: Pool::Worker });
    assert_eq!(a.step(Event::Started), Action::Receive);
    assert_eq!(a.step(Event::Received { kind: TaskKind::Local }), Action::Start { pool: Pool::ContextBound });
    assert_eq!(a.step(Event::Started), Action::Receive);
    assert_eq!(a.in_flight(), 2);
    // A has to wait until B or C frees its slot.
    assert_eq!(a.step(Event::Received { kind: TaskKind::NonLocal }), Action::AwaitCompletion);
    assert_eq!(a.phase(), Phase::WaitingForSlot { kind: TaskKind::NonLocal });
    assert_eq!(a.step(Event::Completed), Action::Start { pool: Pool::Worker });
    assert_eq!(a.in_flight(), 1);
    assert_eq!(a.step(Event::Started), Action::Receive);
    assert_eq!(a.in_flight(), 2);
    assert_eq!(a.step(Event::InboundClosed), Action::AwaitCompletion);
    assert_eq!(a.phase(), Phase::Draining);
    assert_eq!(a.step(Event::Completed), Action::AwaitCompletion);
    assert_eq!(a.step(Event::Completed), Action::Stop);
    assert_eq!(a.in_flight(), 0);
}

#[test]
fn closing_with_nothing_submitted_stops() {
    let mut a = Admission::new(3).unwrap();
    assert_eq!(a.step(Event::InboundClosed), Action::Stop);
    assert_eq!(a.phase(), Phase::Stopped);
    assert_eq!(a.in_flight(), 0);
}

#[test]
fn consumer_gone_does_not_stop_in_flight_work() {
    let (tx, rx) = tokio::sync::mpsc::unbounded_channel::<DispatcherResponse<i32>>();
    let mut a = Admission::new(2).unwrap();
    for _ in 0..2 {
        assert_eq!(a.step(Event::Received { kind: TaskKind::NonLocal }), Action::Start { pool: Pool::Worker });
        assert_eq!(a.step(Event::Started), Action::Receive);
    }
    drop(rx);
    assert_eq!(a.step(Event::InboundClosed), Action::AwaitCompletion);
    // Each task's send fails and is ignored; the loop carries on.
    assert!(tx.send(DispatcherResponse::new(1)).is_err());
    assert_eq!(a.step(Event::Completed), Action::AwaitCompletion);
    assert!(tx.send(DispatcherResponse::new(2)).is_err());
    assert_eq!(a.step(Event::Completed), Action::Stop);
}

#[test]
fn host_failure_is_fatal() {
    let mut a = Admission::new(1).unwrap();
    a.step(Event::Received { kind: TaskKind::Local });
    a.step(Event::Started);
    a.step(Event::Received { kind: TaskKind::Local });
    assert_eq!(a.step(Event::HostFailed), Action::Fail);
    assert_eq!(a.phase(), Phase::Failed);
    assert_eq!(a.step(Event::Completed), Action::Fail);
}

#[test]
fn events_out_of_turn_are_ignored() {
    let mut a = Admission::new(2).unwrap();
    assert!(!a.accepts(Event::Completed));
    assert!(!a.accepts(Event::Started));
    assert_eq!(a.step(Event::Completed), Action::Receive);
    assert_eq!(a.step(Event::Started), Action::Receive);
    assert_eq!(a.in_flight(), 0);
    a.step(Event::InboundClosed);
    assert_eq!(a.phase(), Phase::Stopped);
    assert_eq!(a.step(Event::Received { kind: TaskKind::Local }), Action::Stop);
}

#[test]
fn in_flight_never_exceeds_limit_under_load() {
    let mut a = Admission::new(3).unwrap();
    let mut started = 0usize;
    let mut received = 0usize;
    let mut completed = 0usize;
    let mut action = a.action();
    while action != Action::Stop {
        let event = match action {
            Action::Receive if received < 10 => {
                received += 1;
                Event::Received { kind: if received % 2 == 0 { TaskKind::Local } else { TaskKind::NonLocal } }
            }
            Action::Receive => Event::InboundClosed,
            Action::Start { .. } => {
                started += 1;
                Event::Started
            }
            Action::AwaitCompletion => {
                completed += 1;
                Event::Completed
            }
            Action::Stop | Action::Fail => unreachable!(),
        };
        action = a.step(event);
        assert!(a.in_flight() <= 3);
        assert_eq!(a.in_flight(), started - completed);
    }
    assert_eq!(received, 10);
    assert_eq!(started, 10);
    assert_eq!(completed, 10);
}

#[test]
fn local_items_only_start_on_the_context_pool() {
    let mut a = Admission::new(1).unwrap();
    let req: DispatcherRequest<i32> = DispatcherRequest::local(std::future::ready(0));
    assert_eq!(a.step(received(&req)), Action::Start { pool: Pool::ContextBound });
}
