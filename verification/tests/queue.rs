use hub_rs::{Claim, DispatchQueue, QueueClosed};

#[test]
fn a_new_queue_is_open_and_empty() {
    let mut queue: DispatchQueue<u32> = DispatchQueue::new();
    assert!(!queue.is_closed());
    assert_eq!(queue.len(), 0);
    assert_eq!(queue.claim(), Claim::Empty);
    assert_eq!(queue.len(), 0);
}

#[test]
fn jobs_come_out_in_the_order_they_went_in() {
    let mut queue = DispatchQueue::new();
    assert_eq!(queue.submit(10), Ok(()));
    assert_eq!(queue.submit(20), Ok(()));
    assert_eq!(queue.submit(30), Ok(()));
    assert_eq!(queue.len(), 3);
    assert_eq!(queue.claim(), Claim::Job(10));
    assert_eq!(queue.claim(), Claim::Job(20));
    assert_eq!(queue.len(), 1);
    assert_eq!(queue.submit(40), Ok(()));
    assert_eq!(queue.claim(), Claim::Job(30));
    assert_eq!(queue.claim(), Claim::Job(40));
    assert_eq!(queue.claim(), Claim::Empty);
}

#[test]
fn a_closed_queue_refuses_submissions() {
    let mut queue = DispatchQueue::new();
    assert_eq!(queue.submit(1), Ok(()));
    queue.close();
    assert!(queue.is_closed());
    assert_eq!(queue.submit(2), Err(QueueClosed));
    assert_eq!(queue.len(), 1);
    assert_eq!(queue.claim(), Claim::Job(1));
    assert_eq!(queue.submit(3), Err(QueueClosed));
    assert_eq!(queue.len(), 0);
}

#[test]
fn a_closed_queue_drains_before_it_reports_closed() {
    let mut queue = DispatchQueue::new();
    assert_eq!(queue.submit('a'), Ok(()));
    assert_eq!(queue.submit('b'), Ok(()));
    queue.close();
    assert_eq!(queue.claim(), Claim::Job('a'));
    assert_eq!(queue.claim(), Claim::Job('b'));
    assert_eq!(queue.claim(), Claim::Closed);
    assert_eq!(queue.claim(), Claim::Closed);
}

#[test]
fn closing_twice_is_closing_once() {
    let mut queue = DispatchQueue::new();
    assert_eq!(queue.submit(7), Ok(()));
    queue.close();
    queue.close();
    assert!(queue.is_closed());
    assert_eq!(queue.len(), 1);
    assert_eq!(queue.claim(), Claim::Job(7));
    assert_eq!(queue.claim(), Claim::Closed);
}

#[test]
fn an_empty_queue_closes_at_once() {
    let mut queue: DispatchQueue<u8> = DispatchQueue::new();
    queue.close();
    assert_eq!(queue.claim(), Claim::Closed);
}
