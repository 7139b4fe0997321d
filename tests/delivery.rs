use std::sync::Arc;
use std::time::Duration;

use sse_chat::{
    delivery_outcome, status_code, Delivery, Outcome, PushResult, SendMsgReq, SessionRegistry,
    SseView, SLOT_CAPACITY,
};
use tokio::sync::mpsc::error::{SendTimeoutError, TryRecvError, TrySendError};
use tokio::sync::mpsc::Sender;

fn req(target_id: u16, message: &str) -> SendMsgReq {
    SendMsgReq { target_id, message: message.to_string() }
}

fn try_push(tx: &Sender<SseView>, frame: SseView) -> PushResult {
    match tx.try_send(frame) {
        Ok(()) => PushResult::Accepted,
        Err(TrySendError::Full(_)) => PushResult::Full,
        Err(TrySendError::Closed(_)) => PushResult::Closed,
    }
}

fn deliver_now(d: Delivery<'_>) -> Outcome {
    let echo = try_push(d.echo, d.echo_frame);
    let target = try_push(d.target, d.target_frame);
    delivery_outcome(echo, target)
}

#[test]
fn outcome_needs_both_pushes() {
    let (a, f, c) = (PushResult::Accepted, PushResult::Full, PushResult::Closed);
    assert_eq!(delivery_outcome(a, a), Outcome::Delivered);
    assert_eq!(delivery_outcome(a, f), Outcome::DeliveryFailed);
    assert_eq!(delivery_outcome(c, a), Outcome::DeliveryFailed);
    assert_eq!(delivery_outcome(f, c), Outcome::DeliveryFailed);
}

#[test]
fn outcome_statuses() {
    assert_eq!(status_code(Outcome::Delivered), 200);
    assert_eq!(status_code(Outcome::NotFound), 404);
    assert_eq!(status_code(Outcome::DeliveryFailed), 500);
}

#[test]
fn register_issues_fresh_tickets() {
    let mut reg = SessionRegistry::new();
    assert_eq!(reg.lookup(3), None);
    let a = reg.register(3);
    let b = reg.register(4);
    assert_eq!(a.ticket, 0);
    assert_eq!(b.ticket, 1);
    assert_eq!(reg.next_ticket(), 2);
    assert_eq!(reg.lookup(3), Some(0));
    assert_eq!(reg.lookup(4), Some(1));
    assert_eq!(a.rx.max_capacity(), SLOT_CAPACITY);
}

#[test]
fn connect_then_send_gives_one_frame() {
    let mut reg = SessionRegistry::new();
    let mut other = reg.register(9);
    let mut conn = reg.register(1);
    let d = reg.plan_send(9, req(1, "hello")).ok().unwrap();
    assert_eq!(d.target_ticket, conn.ticket);
    assert_eq!(d.echo_ticket, other.ticket);
    assert_eq!(deliver_now(d), Outcome::Delivered);
    let f = conn.rx.try_recv().ok().unwrap();
    assert_eq!(f.from_user_id, 9);
    assert_eq!(f.data, "hello");
    assert!(matches!(conn.rx.try_recv(), Err(TryRecvError::Empty)));
    let echo = other.rx.try_recv().ok().unwrap();
    assert_eq!(echo.from_user_id, 9);
    assert_eq!(echo.data, "hello");
}

#[test]
fn unknown_target_is_not_found() {
    let mut reg = SessionRegistry::new();
    let mut conn = reg.register(1);
    assert!(matches!(reg.plan_send(1, req(2, "x")), Err(Outcome::NotFound)));
    assert!(matches!(reg.plan_send(2, req(1, "x")), Err(Outcome::NotFound)));
    assert!(matches!(conn.rx.try_recv(), Err(TryRecvError::Empty)));
}

#[test]
fn second_send_to_full_slot_fails_and_keeps_first() {
    let mut reg = SessionRegistry::new();
    let mut a = reg.register(1);
    let mut b = reg.register(2);
    let d = reg.plan_send(1, req(2, "first")).ok().unwrap();
    assert_eq!(deliver_now(d), Outcome::Delivered);
    let _ = a.rx.try_recv();
    let d = reg.plan_send(1, req(2, "second")).ok().unwrap();
    assert_eq!(deliver_now(d), Outcome::DeliveryFailed);
    let f = b.rx.try_recv().ok().unwrap();
    assert_eq!(f.data, "first");
    assert!(matches!(b.rx.try_recv(), Err(TryRecvError::Empty)));
}

#[test]
fn second_register_supersedes_first() {
    let mut reg = SessionRegistry::new();
    let _s = reg.register(5);
    let mut first = reg.register(1);
    let mut second = reg.register(1);
    assert_eq!(reg.lookup(1), Some(second.ticket));
    let d = reg.plan_send(5, req(1, "hi")).ok().unwrap();
    assert_eq!(d.target_ticket, second.ticket);
    assert_eq!(deliver_now(d), Outcome::Delivered);
    assert_eq!(second.rx.try_recv().ok().unwrap().data, "hi");
    assert!(matches!(first.rx.try_recv(), Err(TryRecvError::Disconnected)));
}

#[test]
fn stale_teardown_keeps_newer_registration() {
    let mut reg = SessionRegistry::new();
    let first = reg.register(1);
    let second = reg.register(1);
    reg.deregister(1, first.ticket);
    assert_eq!(reg.lookup(1), Some(second.ticket));
    reg.deregister(1, second.ticket);
    assert_eq!(reg.lookup(1), None);
}

#[test]
fn disconnected_stream_fails_then_not_found() {
    let mut reg = SessionRegistry::new();
    let _s = reg.register(5);
    let conn = reg.register(1);
    let ticket = conn.ticket;
    drop(conn);
    let d = reg.plan_send(5, req(1, "gone")).ok().unwrap();
    assert_eq!(deliver_now(d), Outcome::DeliveryFailed);
    reg.deregister(1, ticket);
    assert!(matches!(reg.plan_send(5, req(1, "gone")), Err(Outcome::NotFound)));
}

#[test]
fn thousand_sessions_concurrent_sends() {
    let rt = tokio::runtime::Builder::new_multi_thread().enable_all().build().unwrap();
    rt.block_on(async {
        let reg = Arc::new(tokio::sync::RwLock::new(SessionRegistry::new()));
        let mut consumers = Vec::new();
        for id in 0..1000u16 {
            let mut conn = reg.write().await.register(id);
            consumers.push(tokio::spawn(async move {
                let mut frames = Vec::new();
                while let Some(f) = conn.rx.recv().await {
                    frames.push((f.from_user_id, f.data));
                }
                frames
            }));
        }
        let mut senders = Vec::new();
        for n in 0..1000u32 {
            let reg = reg.clone();
            let from = rand::random::<u16>() % 1000;
            let to = rand::random::<u16>() % 1000;
            senders.push(tokio::spawn(async move {
                let guard = reg.read().await;
                match guard.plan_send(from, req(to, &format!("m{n}"))) {
                    Err(o) => o,
                    Ok(d) => {
                        let wait = Duration::from_millis(200);
                        let e = d.echo.send_timeout(d.echo_frame, wait).await;
                        let t = d.target.send_timeout(d.target_frame, wait).await;
                        let r = |x: Result<(), SendTimeoutError<SseView>>| match x {
                            Ok(()) => PushResult::Accepted,
                            Err(SendTimeoutError::Timeout(_)) => PushResult::Full,
                            Err(SendTimeoutError::Closed(_)) => PushResult::Closed,
                        };
                        delivery_outcome(r(e), r(t))
                    }
                }
            }));
        }
        let mut delivered = 0usize;
        for s in senders {
            let o = tokio::time::timeout(Duration::from_secs(10), s).await.unwrap().unwrap();
            assert!(o == Outcome::Delivered || o == Outcome::DeliveryFailed);
            if o == Outcome::Delivered {
                delivered += 1;
            }
        }
        drop(reg);
        let mut total = 0usize;
        let mut seen = std::collections::HashMap::new();
        for c in consumers {
            for (_, data) in c.await.unwrap() {
                *seen.entry(data).or_insert(0usize) += 1;
                total += 1;
            }
        }
        assert!(total >= 2 * delivered);
        assert!(total <= 2000);
        assert!(seen.values().all(|&k| k <= 2));
    });
}

#[test]
fn reconnect_leaves_other_sessions_channels() {
    let mut reg = SessionRegistry::new();
    let _a = reg.register(1);
    let mut b = reg.register(2);
    let mut a2 = reg.register(1);
    let d = reg.plan_send(1, req(2, "still here")).ok().unwrap();
    assert_eq!(deliver_now(d), Outcome::Delivered);
    assert_eq!(b.rx.try_recv().ok().unwrap().data, "still here");
    assert_eq!(a2.rx.try_recv().ok().unwrap().data, "still here");
}
