use web::{JobQueue, Received};

#[test]
fn queue_is_fifo() {
    let mut q = JobQueue::new();
    assert!(q.send(1u32).is_ok());
    assert!(q.send(2u32).is_ok());
    assert!(q.send(3u32).is_ok());
    assert_eq!(q.len(), 3);
    assert!(matches!(q.recv(), Received::Job(1)));
    assert!(matches!(q.recv(), Received::Job(2)));
    assert!(matches!(q.recv(), Received::Job(3)));
    assert!(matches!(q.recv(), Received::Wait));
}

#[test]
fn closed_queue_drains_then_reports_drained() {
    let mut q = JobQueue::new();
    q.send(10u32).ok();
    q.close();
    assert!(q.is_closed());
    match q.send(11u32) {
        Err(e) => assert_eq!(e.0, 11),
        Ok(()) => panic!("send on a closed queue succeeded"),
    }
    assert!(matches!(q.recv(), Received::Job(10)));
    assert!(matches!(q.recv(), Received::Drained));
    q.close();
    assert!(q.is_closed());
    assert!(matches!(q.recv(), Received::Drained));
}
