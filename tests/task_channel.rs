use gchemol_view::queue::{drain_queued, take_into};
use gchemol_view::task::{ChannelClosed, RemoteIO, Task, TaskReceiver, TaskSender};

fn runtime() -> tokio::runtime::Runtime {
    tokio::runtime::Runtime::new().expect("runtime")
}

#[test]
fn send_receives_computed_reply() {
    let rt = runtime();
    let (mut rx, tx) = Task::<u32, u32>::new().split();
    let producer = rt.spawn_blocking(move || tx.send(21u32));
    let RemoteIO(input, tx_out) = rx.recv().expect("a request");
    assert_eq!(input, 21);
    assert_eq!(RemoteIO(input, tx_out).reply(input * 2), Ok(()));
    assert_eq!(rt.block_on(producer).unwrap(), Ok(42));
}

#[test]
fn requests_arrive_in_order_of_acceptance() {
    let rt = runtime();
    let (mut rx, tx) = Task::<u32, u32>::new().split();
    let producer = rt.spawn_blocking(move || {
        let mut replies = vec![];
        for i in 1..=5u32 {
            replies.push(tx.send(i));
        }
        replies
    });
    let mut seen = vec![];
    while let Some(RemoteIO(input, tx_out)) = rx.recv() {
        seen.push(input);
        let _ = RemoteIO(input, tx_out).reply(input + 100);
    }
    assert_eq!(seen, vec![1, 2, 3, 4, 5]);
    let replies = rt.block_on(producer).unwrap();
    assert_eq!(replies, vec![Ok(101), Ok(102), Ok(103), Ok(104), Ok(105)]);
}

#[test]
fn try_iter_takes_queued_request_without_blocking() {
    let rt = runtime();
    let (rx, tx) = Task::<u32, u32>::new().split();
    assert!(rx.try_iter().is_empty());
    let producer = rt.spawn_blocking(move || tx.send(7u32));
    let mut taken: Vec<RemoteIO<u32, u32>> = Vec::new();
    while taken.is_empty() {
        taken = rx.try_iter();
        std::hint::spin_loop();
    }
    assert_eq!(taken.len(), 1);
    let RemoteIO(input, tx_out) = taken.pop().unwrap();
    assert_eq!(input, 7);
    assert_eq!(RemoteIO(input, tx_out).reply(8), Ok(()));
    assert_eq!(rt.block_on(producer).unwrap(), Ok(8));
}

#[test]
fn send_fails_once_receiver_is_dropped() {
    let (rx, tx) = Task::<u32, u32>::new().split();
    drop(rx);
    for i in 0..3u32 {
        assert_eq!(tx.send(i), Err(ChannelClosed));
        assert_eq!(tx.clone().send(i), Err(ChannelClosed));
    }
}

#[test]
fn default_sender_always_fails() {
    let tx: TaskSender<u32, u32> = TaskSender::default();
    assert_eq!(tx.send(1u32), Err(ChannelClosed));
    assert_eq!(tx.send(2u32), Err(ChannelClosed));
}

#[test]
fn dropped_request_fails_the_producer() {
    let rt = runtime();
    let (mut rx, tx) = Task::<u32, u32>::new().split();
    let producer = rt.spawn_blocking(move || tx.send(3u32));
    let request = rx.recv().expect("a request");
    drop(request);
    assert_eq!(rt.block_on(producer).unwrap(), Err(ChannelClosed));
}

#[test]
fn recv_stays_none_once_closed() {
    let (mut rx, tx): (TaskReceiver<u32, u32>, TaskSender<u32, u32>) = Task::new().split();
    let other = tx.clone();
    drop(tx);
    drop(other);
    assert!(rx.recv().is_none());
    assert!(rx.recv().is_none());
    assert!(rx.recv().is_none());
    assert!(rx.try_iter().is_empty());
}

#[test]
fn take_into_adds_or_stops() {
    let mut taken = vec![1u32];
    assert!(take_into(&mut taken, Some(2)));
    assert_eq!(taken, vec![1, 2]);
    assert!(!take_into(&mut taken, None));
    assert_eq!(taken, vec![1, 2]);
}

#[test]
fn drain_takes_at_most_the_given_count() {
    let (tx, rx) = crossbeam_channel::bounded::<u32>(1);
    assert!(drain_queued(&rx, 1).is_empty());
    tx.send(5).unwrap();
    assert!(drain_queued(&rx, 0).is_empty());
    assert_eq!(drain_queued(&rx, 3), vec![5]);
    assert!(drain_queued(&rx, 1).is_empty());
}
