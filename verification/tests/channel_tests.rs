use job_pool::channel::{channel, open_queue, sync_channel, SenderWrapper};
use job_pool::message::Message;
use job_pool::PoolConfig;

#[test]
fn unbounded_queue_is_fifo_per_producer() {
    let (sender, receiver) = channel::<u32>();
    sender.send(1).unwrap();
    sender.send(2).unwrap();
    sender.send(3).unwrap();
    assert_eq!(receiver.recv().unwrap(), 1);
    assert_eq!(receiver.recv().unwrap(), 2);
    assert_eq!(receiver.recv().unwrap(), 3);
}

#[test]
fn bounded_queue_holds_its_bound() {
    let (sender, receiver) = sync_channel::<u32>(2);
    sender.send(10).unwrap();
    sender.send(20).unwrap();
    assert_eq!(receiver.recv().unwrap(), 10);
    assert_eq!(receiver.recv().unwrap(), 20);
}

#[test]
fn send_returns_the_message_when_every_consumer_is_gone() {
    let (sender, receiver) = channel::<u32>();
    drop(receiver);
    let err = sender.send(7).unwrap_err();
    assert_eq!(err.0, 7);
}

#[test]
fn recv_fails_only_once_producers_are_gone_and_queue_is_empty() {
    let (sender, receiver) = channel::<u32>();
    sender.send(42).unwrap();
    drop(sender);
    assert_eq!(receiver.recv().unwrap(), 42);
    assert!(receiver.recv().is_err());
}

#[test]
fn cloned_receiver_shares_the_queue() {
    let (sender, receiver) = channel::<u32>();
    let other = receiver.clone();
    sender.send(5).unwrap();
    sender.send(6).unwrap();
    assert_eq!(other.recv().unwrap(), 5);
    assert_eq!(receiver.recv().unwrap(), 6);
}

#[test]
fn queue_is_bounded_exactly_when_the_config_asks() {
    let bounded_config = PoolConfig::builder().incoming_buf_size(2_u16).build();
    let (sender, receiver) = open_queue::<u32>(&bounded_config);
    assert!(matches!(sender, SenderWrapper::Bounded(_)));
    sender.send(1).unwrap();
    sender.send(2).unwrap();
    assert_eq!(receiver.recv().unwrap(), 1);
    assert_eq!(receiver.recv().unwrap(), 2);

    let unbounded_config = PoolConfig::builder().build();
    let (sender, receiver) = open_queue::<u32>(&unbounded_config);
    assert!(matches!(sender, SenderWrapper::Unbounded(_)));
    sender.send(3).unwrap();
    assert_eq!(receiver.recv().unwrap(), 3);
}

#[test]
fn constructors_return_their_variant() {
    let (bounded, _r1) = sync_channel::<u32>(1);
    assert!(matches!(bounded, SenderWrapper::Bounded(_)));
    let (unbounded, _r2) = channel::<u32>();
    assert!(matches!(unbounded, SenderWrapper::Unbounded(_)));
}

#[test]
fn messages_travel_the_queue() {
    let (sender, receiver) = channel::<Message<u8, u8>>();
    sender
        .send(Message::Job { job: 1, global_counter: 2, scope_counter: None })
        .unwrap();
    sender.send(Message::Shutdown).unwrap();
    let first = receiver.recv().unwrap();
    assert!(!first.is_shutdown());
    match first {
        Message::Job { job, global_counter, scope_counter } => {
            assert_eq!(job, 1);
            assert_eq!(global_counter, 2);
            assert!(scope_counter.is_none());
        }
        Message::Shutdown => panic!("expected a job"),
    }
    let second = receiver.recv().unwrap();
    assert!(second.is_shutdown());
}
