use epoll_reactor::ffi::Event;
use epoll_reactor::reactor::{DrainStep, ReadOutcome, Reactor};

#[test]
fn three_connections_scenario() {
    let mut reactor = Reactor::new(3);
    let batch = vec![Event::new(1, 1), Event::new(1, 0)];
    assert_eq!(batch.len(), 2);

    let before = reactor.handled();
    assert_eq!(reactor.on_read(batch[0].token(), ReadOutcome::Read(10)), DrainStep::ReadAgain);
    assert_eq!(reactor.on_read(batch[0].token(), ReadOutcome::WouldBlock), DrainStep::Stop);
    assert_eq!(reactor.on_read(batch[1].token(), ReadOutcome::Read(0)), DrainStep::Stop);
    assert_eq!(reactor.handled() - before, 1);
    assert!(reactor.is_completed(0));
    assert!(!reactor.is_completed(1));
    assert!(!reactor.is_completed(2));

    let before = reactor.handled();
    assert_eq!(reactor.on_read(1, ReadOutcome::Read(0)), DrainStep::Stop);
    assert_eq!(reactor.handled() - before, 1);
    assert_eq!(reactor.handled(), 2);

    let before = reactor.handled();
    assert_eq!(reactor.on_read(0, ReadOutcome::Read(0)), DrainStep::Stop);
    assert_eq!(reactor.handled() - before, 0);
    assert!(!reactor.is_done());
}

#[test]
fn duplicates_do_not_change_the_total() {
    let mut reactor = Reactor::new(4);
    for token in 0..4 {
        for _ in 0..3 {
            reactor.on_read(token, ReadOutcome::Read(0));
            reactor.on_read((token + 1) % 4, ReadOutcome::WouldBlock);
        }
    }
    for token in 0..4 {
        reactor.on_read(token, ReadOutcome::Read(0));
    }
    assert_eq!(reactor.handled(), 4);
    assert!(reactor.is_done());
}

#[test]
fn redundant_close_is_not_counted() {
    let mut reactor = Reactor::new(2);
    reactor.on_read(1, ReadOutcome::Read(0));
    assert_eq!(reactor.handled(), 1);
    for _ in 0..5 {
        assert_eq!(reactor.on_read(1, ReadOutcome::Read(0)), DrainStep::Stop);
        assert_eq!(reactor.handled(), 1);
    }
    assert!(!reactor.is_done());
}

#[test]
fn fragmented_stream_across_wakeups() {
    let mut reactor = Reactor::new(1);
    let outcomes = vec![
        ReadOutcome::Read(4096),
        ReadOutcome::Read(17),
        ReadOutcome::WouldBlock,
        ReadOutcome::Read(3),
        ReadOutcome::Interrupted,
        ReadOutcome::Read(1),
        ReadOutcome::Read(0),
    ];
    let mut read_again = 0;
    for (i, o) in outcomes.iter().enumerate() {
        assert!(!reactor.is_completed(0));
        match reactor.on_read(0, *o) {
            DrainStep::ReadAgain => read_again += 1,
            DrainStep::Stop => {}
            DrainStep::Abort => panic!("no read failed"),
        }
        if i + 1 < outcomes.len() {
            assert_eq!(reactor.handled(), 0);
        }
    }
    assert_eq!(read_again, 4);
    assert!(reactor.is_completed(0));
    assert_eq!(reactor.handled(), 1);
    assert!(reactor.is_done());
}

#[test]
fn failed_read_aborts_without_counting() {
    let mut reactor = Reactor::new(2);
    assert_eq!(reactor.on_read(0, ReadOutcome::Failed), DrainStep::Abort);
    assert_eq!(reactor.handled(), 0);
    assert!(!reactor.is_completed(0));
}

#[test]
fn new_run_is_empty() {
    let reactor = Reactor::new(0);
    assert_eq!(reactor.handled(), 0);
    assert!(reactor.is_done());
    let reactor = Reactor::new(5);
    assert!(!reactor.is_done());
    assert!(!reactor.is_completed(3));
}
