use bichannels::BiChannel;
use bichannels::RecvError;
use bichannels::SendError;

#[test]
fn test1() {
    let BiChannel { a, b } = BiChannel::new();

    let ad = "1";
    let _ = a.send(ad.to_string());
    let ar = b.recv().unwrap();

    let bd: i32 = 1;
    let _ = b.send(bd);
    let br = a.recv().unwrap();

    assert_eq!(ad.to_string(), ar);
    assert_eq!(bd, br);
}

#[test]
fn fifo_order_one_direction() {
    let BiChannel { a, b } = BiChannel::<i32, i32>::new();
    assert!(a.send(10).is_ok());
    assert!(a.send(20).is_ok());
    assert!(a.send(30).is_ok());
    assert_eq!(b.recv().unwrap(), 10);
    assert_eq!(b.recv().unwrap(), 20);
    assert_eq!(b.recv().unwrap(), 30);
}

#[test]
fn interleaved_sends_stay_on_their_direction() {
    let BiChannel { a, b } = BiChannel::<String, i32>::new();
    assert!(a.send("one".to_string()).is_ok());
    assert!(b.send(1).is_ok());
    assert!(a.send("two".to_string()).is_ok());
    assert!(b.send(2).is_ok());
    assert!(b.send(3).is_ok());
    assert_eq!(b.recv().unwrap(), "one".to_string());
    assert_eq!(b.recv().unwrap(), "two".to_string());
    assert_eq!(a.recv().unwrap(), 1);
    assert_eq!(a.recv().unwrap(), 2);
    assert_eq!(a.recv().unwrap(), 3);
}

#[test]
fn many_sends_before_any_recv() {
    let BiChannel { a, b } = BiChannel::<usize, usize>::new();
    for i in 0..1000 {
        assert!(a.send(i).is_ok());
    }
    for i in 0..1000 {
        assert_eq!(b.recv().unwrap(), i);
    }
}

#[test]
fn send_after_peer_dropped_returns_value() {
    let BiChannel { a, b } = BiChannel::<i32, i32>::new();
    drop(b);
    match a.send(42) {
        Err(SendError(v)) => assert_eq!(v, 42),
        Ok(()) => panic!("send succeeded although the peer is gone"),
    }
}

#[test]
fn recv_after_peer_dropped_fails() {
    let BiChannel { a, b } = BiChannel::<i32, i32>::new();
    drop(b);
    assert_eq!(a.recv(), Err(RecvError));
    assert_eq!(a.recv(), Err(RecvError));
}

#[test]
fn recv_drains_pending_before_failing() {
    let BiChannel { a, b } = BiChannel::<i32, i32>::new();
    assert!(b.send(5).is_ok());
    assert!(b.send(6).is_ok());
    drop(b);
    assert_eq!(a.recv().unwrap(), 5);
    assert_eq!(a.recv().unwrap(), 6);
    assert_eq!(a.recv(), Err(RecvError));
    assert_eq!(a.recv(), Err(RecvError));
}

#[test]
fn disconnect_scenario() {
    let BiChannel { a, b } = BiChannel::<i32, i32>::new();
    drop(b);
    let _ = a.send(1);
    let _ = a.send(2);
    assert_eq!(a.recv(), Err(RecvError));
}
