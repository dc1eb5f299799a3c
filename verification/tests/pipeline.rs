use pubsub::dispatcher::App;
use pubsub::error::Error;
use pubsub::protocol::{BatchRequest, Command, Outcome, Reply, ReplyError};
use pubsub::publication::{Options, Publication};
use pubsub::worker::{Action, Phase, Worker};

fn publication(channel: &str, data: &[u8]) -> Publication {
    Publication { channel: channel.to_string(), data: data.to_vec() }
}

fn command(id: u32, channel: &str, data: &[u8]) -> Command {
    Command {
        id,
        channel: channel.to_string(),
        data: data.to_vec(),
        skip_history: false,
        tags: Vec::new(),
    }
}

fn start() -> (App, Worker) {
    match App::new(Options { address: "http://127.0.0.1:10000".to_string() }) {
        Ok(pair) => pair,
        Err(e) => panic!("construction failed: {:?}", e),
    }
}

fn dispatched(action: Action) -> BatchRequest {
    match action {
        Action::Dispatch(request) => request,
        Action::Stop => panic!("the worker stopped"),
    }
}

fn accepted(replies: u32) -> Outcome {
    Outcome::Replied((1..=replies).map(|id| Reply { id, error: None }).collect())
}

#[test]
fn two_publications_queued_together_leave_in_one_batch() {
    let (app, mut worker) = start();
    assert_eq!(app.send(publication("c1", &[1, 2, 3])), Ok(()));
    assert_eq!(app.send(publication("c2", &[4])), Ok(()));
    let request = dispatched(worker.next());
    assert_eq!(request.commands, vec![command(1, "c1", &[1, 2, 3]), command(2, "c2", &[4])]);
    assert_eq!(worker.current_phase(), Phase::Dispatching);
    assert_eq!(worker.complete(accepted(2)), None);
    assert_eq!(worker.current_phase(), Phase::Waiting);
}

#[test]
fn two_publications_in_two_batches_keep_their_order() {
    let (app, mut worker) = start();
    assert_eq!(app.send(publication("c1", &[1, 2, 3])), Ok(()));
    assert_eq!(app.send(publication("c2", &[4])), Ok(()));
    let first = dispatched(worker.drain(1));
    assert_eq!(first.commands, vec![command(1, "c1", &[1, 2, 3])]);
    assert_eq!(worker.complete(accepted(1)), None);
    let second = dispatched(worker.drain(0));
    assert_eq!(second.commands, vec![command(1, "c2", &[4])]);
    assert_eq!(worker.complete(accepted(1)), None);
}

#[test]
fn transport_failure_does_not_stop_the_worker() {
    let (app, mut worker) = start();
    assert_eq!(app.send(publication("c1", &[1])), Ok(()));
    let first = dispatched(worker.next());
    assert_eq!(first.commands, vec![command(1, "c1", &[1])]);
    let diagnostic = worker.complete(Outcome::Failed("connection refused".to_string()));
    assert_eq!(diagnostic, Some(Error::Transport { message: "connection refused".to_string() }));
    assert_eq!(
        diagnostic.map(|e| e.message()),
        Some("transport error: connection refused".to_string())
    );
    assert_eq!(worker.current_phase(), Phase::Waiting);
    assert_eq!(app.send(publication("c3", &[9])), Ok(()));
    let later = dispatched(worker.next());
    assert_eq!(later.commands, vec![command(1, "c3", &[9])]);
}

#[test]
fn rejected_command_is_reported_under_its_id() {
    let (app, mut worker) = start();
    assert_eq!(app.send(publication("c1", &[1])), Ok(()));
    assert_eq!(app.send(publication("c2", &[2])), Ok(()));
    let request = dispatched(worker.next());
    assert_eq!(request.commands.len(), 2);
    let outcome = Outcome::Replied(vec![
        Reply { id: 1, error: None },
        Reply { id: 2, error: Some(ReplyError { code: 102, message: "unknown channel".to_string() }) },
    ]);
    let diagnostic = worker.complete(outcome);
    assert_eq!(
        diagnostic,
        Some(Error::Logic { message: "unknown channel".to_string(), reply_id: 2 })
    );
    assert_eq!(
        diagnostic.map(|e| e.message()),
        Some("logic error: unknown channel, reply-id:2".to_string())
    );
    assert_eq!(worker.current_phase(), Phase::Waiting);
    assert_eq!(app.send(publication("c3", &[3])), Ok(()));
    let later = dispatched(worker.next());
    assert_eq!(later.commands, vec![command(1, "c3", &[3])]);
}

#[test]
fn send_after_shutdown_fails_as_closed() {
    let (mut app, _worker) = start();
    assert!(app.accepting());
    assert!(app.shutdown());
    assert!(!app.accepting());
    assert_eq!(app.send(publication("c1", &[1])), Err(Error::Closed));
}

#[test]
fn second_shutdown_does_nothing() {
    let (mut app, mut worker) = start();
    assert_eq!(app.send(publication("c1", &[1])), Ok(()));
    assert!(app.shutdown());
    assert!(!app.shutdown());
    assert!(!app.accepting());
    let request = dispatched(worker.next());
    assert_eq!(request.commands, vec![command(1, "c1", &[1])]);
    assert_eq!(worker.complete(accepted(1)), None);
    assert!(matches!(worker.next(), Action::Stop));
}

#[test]
fn shutdown_leaves_the_queue_to_be_drained() {
    let (mut app, mut worker) = start();
    for i in 0..5u8 {
        assert_eq!(app.send(publication("c", &[i])), Ok(()));
    }
    assert!(app.shutdown());
    let first = dispatched(worker.drain(2));
    assert_eq!(first.commands, vec![command(1, "c", &[0]), command(2, "c", &[1])]);
    assert_eq!(worker.complete(accepted(2)), None);
    let second = dispatched(worker.next());
    assert_eq!(
        second.commands,
        vec![command(1, "c", &[2]), command(2, "c", &[3]), command(3, "c", &[4])]
    );
    assert_eq!(worker.complete(accepted(3)), None);
    assert!(matches!(worker.next(), Action::Stop));
    assert_eq!(worker.current_phase(), Phase::Stopped);
}

#[test]
fn batch_cut_short_by_closure_is_still_dispatched() {
    let (mut app, mut worker) = start();
    assert_eq!(app.send(publication("last", &[7])), Ok(()));
    assert!(app.shutdown());
    let request = dispatched(worker.drain(5));
    assert_eq!(request.commands, vec![command(1, "last", &[7])]);
    assert_eq!(worker.current_phase(), Phase::Dispatching);
    assert_eq!(worker.complete(accepted(1)), None);
    assert!(matches!(worker.next(), Action::Stop));
}

#[test]
fn closed_and_empty_queue_stops_the_worker() {
    let (mut app, mut worker) = start();
    assert!(app.shutdown());
    assert!(matches!(worker.next(), Action::Stop));
    assert_eq!(worker.current_phase(), Phase::Stopped);
}

#[test]
fn empty_sample_takes_exactly_one_item() {
    let (app, mut worker) = start();
    assert_eq!(app.send(publication("c1", &[1])), Ok(()));
    assert_eq!(app.send(publication("c2", &[2])), Ok(()));
    let request = dispatched(worker.drain(0));
    assert_eq!(request.commands, vec![command(1, "c1", &[1])]);
}

#[test]
fn oversized_sample_takes_what_a_closed_queue_holds() {
    let (mut app, mut worker) = start();
    assert_eq!(app.send(publication("c1", &[1])), Ok(()));
    assert_eq!(app.send(publication("c2", &[2])), Ok(()));
    assert!(app.shutdown());
    let request = dispatched(worker.drain(usize::MAX));
    assert_eq!(request.commands, vec![command(1, "c1", &[1]), command(2, "c2", &[2])]);
}

#[test]
fn send_without_a_worker_fails_as_disconnected() {
    let (app, worker) = start();
    drop(worker);
    assert_eq!(app.send(publication("c1", &[1])), Err(Error::Disconnected));
}

#[test]
fn enqueue_result_follows_what_the_queue_handed_back() {
    assert_eq!(App::accepted(None), Ok(()));
    assert_eq!(App::accepted(Some(publication("c1", &[1]))), Err(Error::Disconnected));
}

#[test]
fn invalid_address_fails_construction() {
    match App::new(Options { address: "".to_string() }) {
        Err(Error::InvalidAddress { .. }) => {}
        Err(other) => panic!("unexpected error {:?}", other),
        Ok(_) => panic!("an empty address was accepted"),
    }
}

#[test]
fn construction_keeps_the_address() {
    let (_app, worker) = start();
    assert_eq!(worker.client().address(), "http://127.0.0.1:10000");
    assert_eq!(worker.client().endpoint().host(), Some("127.0.0.1"));
    assert_eq!(worker.client().endpoint().port_u16(), Some(10000));
    assert_eq!(worker.current_phase(), Phase::Waiting);
}
