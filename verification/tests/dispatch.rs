use gsi_server::dispatch::{Delivery, Dispatcher, Listener, Phase};

fn drain<E: Clone>(dispatcher: &mut Dispatcher, popped: Option<E>) -> Vec<(Listener, E)> {
    let mut log = Vec::new();
    if let Some(mut round) = dispatcher.accept(popped) {
        while let Some(delivery) = round.next() {
            log.push((delivery.listener, delivery.event));
        }
    }
    log
}

#[test]
fn new_dispatcher_is_running() {
    let dispatcher = Dispatcher::new(2, 3);
    assert_eq!(dispatcher.phase(), Phase::Running);
}

#[test]
fn round_names_sync_listeners_before_async_ones_in_registration_order() {
    let mut dispatcher = Dispatcher::new(2, 3);
    let log = drain(&mut dispatcher, Some(7u32));
    assert_eq!(
        log,
        vec![
            (Listener::Sync(0), 7),
            (Listener::Sync(1), 7),
            (Listener::Async(0), 7),
            (Listener::Async(1), 7),
            (Listener::Async(2), 7),
        ]
    );
    assert_eq!(dispatcher.phase(), Phase::Running);
}

#[test]
fn round_hands_out_one_delivery_per_call() {
    let mut dispatcher = Dispatcher::new(1, 1);
    let mut round = dispatcher.accept(Some("state".to_string())).unwrap();
    assert_eq!(
        round.next(),
        Some(Delivery { listener: Listener::Sync(0), event: "state".to_string() })
    );
    assert_eq!(
        round.next(),
        Some(Delivery { listener: Listener::Async(0), event: "state".to_string() })
    );
    assert_eq!(round.next(), None);
    assert_eq!(round.next(), None);
}

#[test]
fn round_with_only_sync_listeners() {
    let mut dispatcher = Dispatcher::new(2, 0);
    let log = drain(&mut dispatcher, Some('a'));
    assert_eq!(log, vec![(Listener::Sync(0), 'a'), (Listener::Sync(1), 'a')]);
}

#[test]
fn round_with_only_async_listeners() {
    let mut dispatcher = Dispatcher::new(0, 2);
    let log = drain(&mut dispatcher, Some('a'));
    assert_eq!(log, vec![(Listener::Async(0), 'a'), (Listener::Async(1), 'a')]);
}

#[test]
fn round_without_listeners_is_empty() {
    let mut dispatcher = Dispatcher::new(0, 0);
    let mut round = dispatcher.accept(Some(1u8)).unwrap();
    assert_eq!(round.next(), None);
    assert_eq!(dispatcher.phase(), Phase::Running);
}

#[test]
fn every_item_reaches_every_listener_in_arrival_order() {
    let mut dispatcher = Dispatcher::new(2, 1);
    let items = vec![10u64, 20, 20, 5];
    let mut log = Vec::new();
    for item in &items {
        log.extend(drain(&mut dispatcher, Some(*item)));
    }
    assert_eq!(log.len(), items.len() * 3);
    let schedule = [Listener::Sync(0), Listener::Sync(1), Listener::Async(0)];
    for (place, delivery) in log.iter().enumerate() {
        assert_eq!(*delivery, (schedule[place % 3], items[place / 3]));
    }
}

#[test]
fn end_of_stream_stops_the_dispatcher() {
    let mut dispatcher = Dispatcher::new(1, 1);
    assert_eq!(drain(&mut dispatcher, Some(1u8)).len(), 2);
    assert!(dispatcher.accept(None::<u8>).is_none());
    assert_eq!(dispatcher.phase(), Phase::Stopped);
}

#[test]
fn nothing_is_dispatched_after_the_end_of_the_stream() {
    let mut dispatcher = Dispatcher::new(1, 1);
    assert!(drain(&mut dispatcher, None::<u8>).is_empty());
    assert!(drain(&mut dispatcher, Some(2u8)).is_empty());
    assert!(drain(&mut dispatcher, Some(3u8)).is_empty());
    assert_eq!(dispatcher.phase(), Phase::Stopped);
}

#[test]
fn nothing_is_dispatched_after_stop() {
    let mut dispatcher = Dispatcher::new(2, 2);
    assert_eq!(drain(&mut dispatcher, Some(1u8)).len(), 4);
    dispatcher.stop();
    assert_eq!(dispatcher.phase(), Phase::Stopped);
    assert!(dispatcher.accept(Some(2u8)).is_none());
    assert!(dispatcher.accept(Some(3u8)).is_none());
    assert!(dispatcher.accept(None::<u8>).is_none());
    assert_eq!(dispatcher.phase(), Phase::Stopped);
}

#[test]
fn stop_in_the_middle_of_a_round_lets_no_later_item_in() {
    let mut dispatcher = Dispatcher::new(1, 2);
    let mut round = dispatcher.accept(Some(1u8)).unwrap();
    assert_eq!(round.next(), Some(Delivery { listener: Listener::Sync(0), event: 1 }));
    dispatcher.stop();
    assert!(dispatcher.accept(Some(2u8)).is_none());
    assert_eq!(dispatcher.phase(), Phase::Stopped);
}

#[test]
fn stop_twice_is_stop_once() {
    let mut dispatcher = Dispatcher::new(1, 0);
    dispatcher.stop();
    dispatcher.stop();
    assert_eq!(dispatcher.phase(), Phase::Stopped);
    assert!(dispatcher.accept(Some(1u8)).is_none());
}

#[test]
fn duplicate_items_are_dispatched_as_they_come() {
    let mut dispatcher = Dispatcher::new(1, 0);
    let mut log = Vec::new();
    for item in ["same", "same", "other", "same"] {
        log.extend(drain(&mut dispatcher, Some(item)));
    }
    assert_eq!(
        log,
        vec![
            (Listener::Sync(0), "same"),
            (Listener::Sync(0), "same"),
            (Listener::Sync(0), "other"),
            (Listener::Sync(0), "same"),
        ]
    );
}
