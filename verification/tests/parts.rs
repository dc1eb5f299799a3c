use pubsub::batch::Batch;
use pubsub::client::CentrifugoClient;
use pubsub::error::{render_decimal, Error};
use pubsub::protocol::{Command, Outcome, Reply, ReplyError, MAX_BATCH};
use pubsub::publication::Publication;
use pubsub::worker::{Action, Phase, Worker};

fn item(channel: &str, data: &[u8]) -> Publication {
    Publication::new(channel.to_string(), data.to_vec())
}

fn numbered(id: u32, channel: &str, data: &[u8]) -> Command {
    Command {
        id,
        channel: channel.to_string(),
        data: data.to_vec(),
        skip_history: false,
        tags: Vec::new(),
    }
}

fn client() -> CentrifugoClient {
    match CentrifugoClient::new("http://localhost:10000") {
        Ok(c) => c,
        Err(e) => panic!("construction failed: {:?}", e),
    }
}

#[test]
fn publication_new_keeps_its_parts() {
    let p = Publication::new("news".to_string(), vec![1, 2]);
    assert_eq!(p, Publication { channel: "news".to_string(), data: vec![1, 2] });
}

#[test]
fn batch_limit_follows_the_sample() {
    assert_eq!(Batch::begin(0).limit(), 1);
    assert_eq!(Batch::begin(1).limit(), 1);
    assert_eq!(Batch::begin(5).limit(), 5);
    assert_eq!(Batch::begin(MAX_BATCH).limit(), 4294967295);
    assert_eq!(Batch::begin(usize::MAX).limit(), 4294967295);
}

#[test]
fn batch_begins_empty_and_open() {
    let batch = Batch::begin(3);
    assert_eq!(batch.len(), 0);
    assert!(!batch.is_closed());
    assert!(!batch.is_done());
}

#[test]
fn batch_is_done_at_its_limit() {
    let mut batch = Batch::begin(2);
    assert!(!batch.absorb(Some(item("a", &[1]))));
    assert!(!batch.is_done());
    assert!(batch.absorb(Some(item("b", &[2]))));
    assert!(batch.is_done());
    assert!(!batch.is_closed());
    assert_eq!(batch.into_items(), vec![item("a", &[1]), item("b", &[2])]);
}

#[test]
fn batch_on_empty_sample_is_done_after_one_item() {
    let mut batch = Batch::begin(0);
    assert!(batch.absorb(Some(item("a", &[1]))));
    assert_eq!(batch.len(), 1);
}

#[test]
fn batch_is_done_when_the_queue_closes() {
    let mut batch = Batch::begin(3);
    assert!(!batch.absorb(Some(item("a", &[1]))));
    assert!(batch.absorb(None));
    assert!(batch.is_closed());
    assert_eq!(batch.into_items(), vec![item("a", &[1])]);
}

#[test]
fn publish_numbers_commands_from_one() {
    let request = client().publish(vec![item("a", &[1]), item("b", &[]), item("c", &[3, 4])]);
    assert_eq!(
        request.commands,
        vec![numbered(1, "a", &[1]), numbered(2, "b", &[]), numbered(3, "c", &[3, 4])]
    );
}

#[test]
fn publish_restarts_ids_for_each_batch() {
    let c = client();
    let first = c.publish(vec![item("a", &[1]), item("b", &[2])]);
    let second = c.publish(vec![item("c", &[3])]);
    assert_eq!(first.commands[1].id, 2);
    assert_eq!(second.commands[0].id, 1);
}

#[test]
fn publish_of_nothing_is_an_empty_request() {
    assert!(client().publish(Vec::new()).commands.is_empty());
}

#[test]
fn settle_accepts_replies_without_errors() {
    let replies = vec![Reply { id: 1, error: None }, Reply { id: 2, error: None }];
    assert_eq!(client().settle(Outcome::Replied(replies)), Ok(()));
    assert_eq!(client().settle(Outcome::Replied(Vec::new())), Ok(()));
}

#[test]
fn settle_reports_a_transport_failure() {
    assert_eq!(
        client().settle(Outcome::Failed("deadline exceeded".to_string())),
        Err(Error::Transport { message: "deadline exceeded".to_string() })
    );
}

#[test]
fn settle_reports_the_first_rejected_command() {
    let replies = vec![
        Reply { id: 1, error: None },
        Reply { id: 2, error: Some(ReplyError { code: 100, message: "internal".to_string() }) },
        Reply { id: 3, error: Some(ReplyError { code: 107, message: "bad request".to_string() }) },
    ];
    assert_eq!(
        client().settle(Outcome::Replied(replies)),
        Err(Error::Logic { message: "internal".to_string(), reply_id: 2 })
    );
}

#[test]
fn decimal_rendering() {
    assert_eq!(render_decimal(0), "0");
    assert_eq!(render_decimal(7), "7");
    assert_eq!(render_decimal(10), "10");
    assert_eq!(render_decimal(1234567890), "1234567890");
    assert_eq!(render_decimal(u32::MAX), "4294967295");
}

#[test]
fn diagnostics_of_each_failure() {
    assert_eq!(Error::Closed.message(), "dispatcher closed");
    assert_eq!(Error::Disconnected.message(), "sending on a disconnected channel");
    assert_eq!(
        Error::InvalidAddress { reason: "empty string".to_string() }.message(),
        "empty string"
    );
    assert_eq!(
        Error::Transport { message: "unavailable".to_string() }.message(),
        "transport error: unavailable"
    );
    assert_eq!(
        Error::Logic { message: "not found".to_string(), reply_id: 40 }.message(),
        "logic error: not found, reply-id:40"
    );
}

#[test]
fn client_rejects_what_is_no_uri() {
    assert_eq!(
        CentrifugoClient::new("").err(),
        Some(Error::InvalidAddress { reason: "empty string".to_string() })
    );
    assert!(matches!(
        CentrifugoClient::new("http://exa mple.org").err(),
        Some(Error::InvalidAddress { .. })
    ));
}

#[test]
fn client_reads_its_address() {
    let c = client();
    assert_eq!(c.address(), "http://localhost:10000");
    assert_eq!(c.endpoint().scheme_str(), Some("http"));
    assert_eq!(c.endpoint().host(), Some("localhost"));
    assert_eq!(c.endpoint().port_u16(), Some(10000));
}

#[test]
fn client_from_a_parsed_address() {
    let parsed = "https://broker.example:443".parse::<tonic::transport::Uri>();
    let made = CentrifugoClient::from_parsed("https://broker.example:443", parsed);
    match made {
        Ok(c) => {
            assert_eq!(c.address(), "https://broker.example:443");
            assert_eq!(c.endpoint().host(), Some("broker.example"));
        }
        Err(e) => panic!("unexpected error {:?}", e),
    }
    let rejected = CentrifugoClient::from_parsed("", "".parse::<tonic::transport::Uri>());
    assert!(matches!(rejected.err(), Some(Error::InvalidAddress { .. })));
}

#[test]
fn worker_presents_a_finished_batch() {
    let (_sender, receiver) = crossbeam_channel::unbounded::<Publication>();
    let mut worker = Worker::new(receiver, client());
    let mut batch = Batch::begin(1);
    assert!(batch.absorb(Some(item("a", &[1]))));
    match worker.present(batch) {
        Action::Dispatch(request) => assert_eq!(request.commands, vec![numbered(1, "a", &[1])]),
        Action::Stop => panic!("the worker stopped"),
    }
    assert_eq!(worker.current_phase(), Phase::Dispatching);
}

#[test]
fn worker_stops_on_an_empty_closed_batch() {
    let (_sender, receiver) = crossbeam_channel::unbounded::<Publication>();
    let mut worker = Worker::new(receiver, client());
    let mut batch = Batch::begin(4);
    assert!(batch.absorb(None));
    assert!(matches!(worker.present(batch), Action::Stop));
    assert_eq!(worker.current_phase(), Phase::Stopped);
}

#[test]
fn worker_receives_in_the_order_of_sending() {
    let (sender, receiver) = crossbeam_channel::unbounded::<Publication>();
    let mut worker = Worker::new(receiver, client());
    for i in 0..10u8 {
        assert!(sender.send(item("c", &[i])).is_ok());
    }
    drop(sender);
    let mut seen = Vec::new();
    let mut sample = 1;
    loop {
        match worker.drain(sample) {
            Action::Dispatch(request) => {
                assert!(request.commands.len() <= sample);
                for (k, c) in request.commands.iter().enumerate() {
                    assert_eq!(c.id as usize, k + 1);
                    seen.push(c.data[0]);
                }
                assert_eq!(worker.complete(Outcome::Failed("down".to_string())).is_some(), true);
            }
            Action::Stop => break,
        }
        sample += 1;
    }
    assert_eq!(seen, (0..10u8).collect::<Vec<u8>>());
}
