use notizia::{
    Mailbox, reply_outcome, request_outcome, shutdown_outcome, CallError, RecvError, ReceiveSlot,
    ReplyWait, SendError, ShutdownError, TaskHandle, TaskRef, TerminateReason,
    DEFAULT_CALL_TIMEOUT_MS,
};
use std::sync::atomic::{AtomicBool, Ordering};
use std::sync::Arc;
use std::time::Duration;
use tokio::runtime::Runtime;
use tokio::sync::mpsc::{unbounded_channel, UnboundedReceiver};
use tokio::sync::oneshot;

fn runtime() -> Runtime {
    tokio::runtime::Builder::new_multi_thread()
        .enable_all()
        .build()
        .unwrap()
}

async fn receive<T>(mailbox: &Mailbox<T>) -> Result<T, RecvError> {
    let mut endpoint = mailbox.take_endpoint()?;
    let received = endpoint.recv().await;
    mailbox.restore_endpoint(endpoint, received)
}

#[test]
fn fifo_per_sender() {
    runtime().block_on(async {
        let (tx, rx) = unbounded_channel::<usize>();
        let target = TaskRef::new(tx);
        let mailbox = Mailbox::new();
        mailbox.set_receiver(rx);
        for i in 0..100 {
            assert!(target.send(i).is_ok());
        }
        for i in 0..100 {
            assert_eq!(receive(&mailbox).await, Ok(i), "Message order violated at index {}", i);
        }
    });
}

#[test]
fn concurrent_fan_in_keeps_every_value_once() {
    runtime().block_on(async {
        let (tx, rx) = unbounded_channel::<u32>();
        let target = TaskRef::new(tx);
        let mut senders = Vec::new();
        for k in 0..10u32 {
            let r = target.clone();
            senders.push(tokio::spawn(async move {
                for m in 0..50u32 {
                    r.cast(k * 1000 + m).unwrap();
                    tokio::task::yield_now().await;
                }
            }));
        }
        drop(target);
        for s in senders {
            s.await.unwrap();
        }
        let mailbox = Mailbox::new();
        mailbox.set_receiver(rx);
        let mut got = Vec::new();
        loop {
            match receive(&mailbox).await {
                Ok(v) => got.push(v),
                Err(e) => {
                    assert_eq!(e, RecvError::Closed);
                    break;
                }
            }
        }
        got.sort();
        let mut expected: Vec<u32> = (0..10u32)
            .flat_map(|k| (0..50u32).map(move |m| k * 1000 + m))
            .collect();
        expected.sort();
        assert_eq!(got, expected);
    });
}

#[test]
fn recv_is_poisoned_before_bind_every_time() {
    let mut slot: ReceiveSlot<UnboundedReceiver<u8>> = ReceiveSlot::new();
    assert!(!slot.is_bound());
    assert!(matches!(slot.take(), Err(RecvError::Poisoned)));
    assert!(matches!(slot.take(), Err(RecvError::Poisoned)));
    assert!(!slot.is_bound());
}

#[test]
fn recv_is_closed_after_sender_dropped_and_stays_closed() {
    runtime().block_on(async {
        let (tx, rx) = unbounded_channel::<u8>();
        let mailbox = Mailbox::default();
        mailbox.set_receiver(rx);
        drop(tx);
        assert_eq!(receive(&mailbox).await, Err(RecvError::Closed));
        assert_eq!(receive(&mailbox).await, Err(RecvError::Closed));
        assert_eq!(receive(&mailbox.clone()).await, Err(RecvError::Closed));
    });
}

#[test]
fn mailbox_recv_is_poisoned_before_bind() {
    runtime().block_on(async {
        let mailbox: Mailbox<u8> = Mailbox::new();
        assert_eq!(receive(&mailbox).await, Err(RecvError::Poisoned));
        assert_eq!(receive(&mailbox).await, Err(RecvError::Poisoned));
    });
}

#[test]
fn mailbox_second_receiver_is_poisoned_while_first_waits() {
    runtime().block_on(async {
        let (tx, rx) = unbounded_channel::<u8>();
        let mailbox = Mailbox::new();
        mailbox.set_receiver(rx);
        let first = mailbox.take_endpoint().unwrap();
        assert!(matches!(mailbox.take_endpoint(), Err(RecvError::Poisoned)));
        tx.send(9).unwrap();
        let mut first = first;
        let got = first.recv().await;
        assert_eq!(mailbox.restore_endpoint(first, got), Ok(9));
        tx.send(10).unwrap();
        assert_eq!(receive(&mailbox).await, Ok(10));
    });
}

#[test]
fn concurrent_take_is_poisoned_until_restore() {
    let (_tx, rx) = unbounded_channel::<u8>();
    let mut slot = ReceiveSlot::new();
    slot.bind(rx);
    let endpoint = slot.take().unwrap();
    assert!(matches!(slot.take(), Err(RecvError::Poisoned)));
    assert_eq!(slot.restore(endpoint, Some(7u8)), Ok(7));
    assert!(slot.take().is_ok());
}

#[test]
fn send_returns_disconnected_with_original_message() {
    let (tx, rx) = unbounded_channel::<String>();
    let target = TaskRef::new(tx);
    drop(rx);
    let result = target.send("ping".to_string());
    assert_eq!(result, Err(SendError::Disconnected("ping".to_string())));
}

#[test]
fn call_returns_reply_within_deadline() {
    runtime().block_on(async {
        let (tx, mut rx) = unbounded_channel::<oneshot::Sender<u32>>();
        let target = TaskRef::new(tx);
        let responder = tokio::spawn(async move {
            if let Some(reply_to) = rx.recv().await {
                let _ = reply_to.send(42);
            }
        });
        let (reply_tx, reply_rx) = oneshot::channel();
        assert_eq!(request_outcome(target.send(reply_tx)), Ok(()));
        let wait = match tokio::time::timeout(Duration::from_millis(1000), reply_rx).await {
            Err(_) => ReplyWait::Elapsed,
            Ok(Err(_)) => ReplyWait::Dropped,
            Ok(Ok(v)) => ReplyWait::Replied(v),
        };
        assert_eq!(reply_outcome(wait), Ok(42));
        responder.await.unwrap();
    });
}

#[test]
fn late_reply_is_timeout_and_does_not_leak_into_next_call() {
    runtime().block_on(async {
        let (tx, mut rx) = unbounded_channel::<(u32, oneshot::Sender<u32>)>();
        let target = TaskRef::new(tx);
        let responder = tokio::spawn(async move {
            while let Some((id, reply_to)) = rx.recv().await {
                if id == 1 {
                    tokio::time::sleep(Duration::from_millis(150)).await;
                }
                let _ = reply_to.send(id);
            }
        });
        let mut results = Vec::new();
        for (id, deadline) in [(1u32, 50u64), (2u32, 1000u64)] {
            let (reply_tx, reply_rx) = oneshot::channel();
            assert_eq!(request_outcome(target.send((id, reply_tx))), Ok(()));
            let wait = match tokio::time::timeout(Duration::from_millis(deadline), reply_rx).await {
                Err(_) => ReplyWait::Elapsed,
                Ok(Err(_)) => ReplyWait::Dropped,
                Ok(Ok(v)) => ReplyWait::Replied(v),
            };
            results.push(reply_outcome(wait));
        }
        assert_eq!(results, vec![Err(CallError::Timeout), Ok(2)]);
        drop(target);
        responder.await.unwrap();
    });
}

#[test]
fn dropped_reply_channel_is_channel_closed() {
    runtime().block_on(async {
        let (tx, mut rx) = unbounded_channel::<oneshot::Sender<u32>>();
        let target = TaskRef::new(tx);
        let responder = tokio::spawn(async move {
            if let Some(reply_to) = rx.recv().await {
                drop(reply_to);
            }
        });
        let (reply_tx, reply_rx) = oneshot::channel::<u32>();
        assert_eq!(request_outcome(target.send(reply_tx)), Ok(()));
        let deadline = Duration::from_millis(DEFAULT_CALL_TIMEOUT_MS);
        let wait = match tokio::time::timeout(deadline, reply_rx).await {
            Err(_) => ReplyWait::Elapsed,
            Ok(Err(_)) => ReplyWait::Dropped,
            Ok(Ok(v)) => ReplyWait::Replied(v),
        };
        assert_eq!(reply_outcome(wait), Err(CallError::ChannelClosed));
        responder.await.unwrap();
    });
}

#[test]
fn call_to_gone_task_is_send_error() {
    let (tx, rx) = unbounded_channel::<u32>();
    let target = TaskRef::new(tx);
    drop(rx);
    assert_eq!(request_outcome(target.send(5)), Err(CallError::SendError));
}

#[test]
fn handle_join_yields_reason() {
    runtime().block_on(async {
        let (tx, _rx) = unbounded_channel::<u8>();
        let task = tokio::spawn(async { TerminateReason::Normal });
        let handle = TaskHandle::new(tx, task);
        assert!(handle.send(1).is_ok());
        assert_eq!(handle.join().await.unwrap(), TerminateReason::Normal);
    });
}

#[test]
fn handle_this_shares_the_inbound_queue() {
    runtime().block_on(async {
        let (tx, mut rx) = unbounded_channel::<u8>();
        let task = tokio::spawn(async { TerminateReason::Normal });
        let handle = TaskHandle::new(tx, task);
        let reference = handle.this();
        let copy = reference.clone();
        assert!(handle.cast(1).is_ok());
        assert!(reference.send(2).is_ok());
        assert!(copy.send(3).is_ok());
        assert_eq!(rx.recv().await, Some(1));
        assert_eq!(rx.recv().await, Some(2));
        assert_eq!(rx.recv().await, Some(3));
        drop(rx);
        assert_eq!(copy.send(4), Err(SendError::Disconnected(4)));
        assert_eq!(handle.send(5), Err(SendError::Disconnected(5)));
        handle.join().await.unwrap();
    });
}

#[test]
fn kill_aborts_before_the_task_goes_on() {
    runtime().block_on(async {
        let flag = Arc::new(AtomicBool::new(false));
        let seen = flag.clone();
        let (tx, _rx) = unbounded_channel::<u8>();
        let task = tokio::spawn(async move {
            tokio::time::sleep(Duration::from_millis(50)).await;
            seen.store(true, Ordering::SeqCst);
            TerminateReason::Normal
        });
        let handle = TaskHandle::new(tx, task);
        handle.kill();
        tokio::time::sleep(Duration::from_millis(150)).await;
        assert!(!flag.load(Ordering::SeqCst));
    });
}

#[test]
fn release_closes_channel_and_shutdown_reports_reason() {
    runtime().block_on(async {
        let (tx, mut rx) = unbounded_channel::<u8>();
        let task = tokio::spawn(async move {
            while rx.recv().await.is_some() {}
            TerminateReason::Normal
        });
        let handle = TaskHandle::new(tx, task);
        let joining = handle.release();
        let waited = tokio::time::timeout(Duration::from_millis(1000), joining).await.ok();
        let (report, abort) = shutdown_outcome(waited);
        assert!(!abort);
        assert_eq!(report.unwrap(), TerminateReason::Normal);
    });
}

#[test]
fn shutdown_times_out_while_a_reference_keeps_the_channel_open() {
    runtime().block_on(async {
        let (tx, mut rx) = unbounded_channel::<u8>();
        let task = tokio::spawn(async move {
            while rx.recv().await.is_some() {}
            TerminateReason::Normal
        });
        let handle = TaskHandle::new(tx, task);
        let keep_open = handle.this();
        let joining = handle.release();
        let waited = tokio::time::timeout(Duration::from_millis(100), joining).await.ok();
        let (report, abort) = shutdown_outcome(waited);
        assert!(abort);
        assert!(matches!(report, Err(ShutdownError::Timeout)));
        drop(keep_open);
    });
}

#[test]
fn join_error_message_names_the_failure() {
    runtime().block_on(async {
        let task = tokio::spawn(async {
            tokio::time::sleep(Duration::from_secs(10)).await;
            TerminateReason::Normal
        });
        task.abort();
        let err = task.await.unwrap_err();
        let text = ShutdownError::JoinError(err).message();
        assert!(text.starts_with("task join error: "));
        assert!(text.len() > "task join error: ".len());
        assert!(text.contains("cancelled"));
    });
}
