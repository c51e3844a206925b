use cli_ide::transform::Worker;
use cli_ide::Event;
use crossbeam::channel::Receiver;
use std::time::Duration;

const MS: u128 = 1_000_000;

fn drain<T>(receiver: &Receiver<T>) -> Vec<T> {
    receiver.try_iter().collect()
}

#[test]
fn test_event_map() {
    let event: Event<i32> = Event::new();
    let mapped = event.clone().map(|x| x * 2);
    let receiver = mapped.stage.output().subscribe();

    event.emit(5);
    for value in mapped.input.try_iter() {
        mapped.stage.forward(value);
    }

    let val = receiver.recv_timeout(Duration::from_millis(100)).unwrap();
    assert_eq!(val, 10);
}

#[test]
fn test_event_map_broadcast() {
    let event: Event<i32> = Event::new();
    let mapped = event.clone().map(|x| x * 2);

    let sub1 = mapped.stage.output().subscribe();
    let sub2 = mapped.stage.output().subscribe();

    event.emit(5);
    event.emit(10);
    for value in mapped.input.try_iter() {
        mapped.stage.forward(value);
    }

    let v1_1 = sub1.recv_timeout(Duration::from_millis(100)).unwrap();
    let v1_2 = sub1.recv_timeout(Duration::from_millis(100)).unwrap();
    let v2_1 = sub2.recv_timeout(Duration::from_millis(100)).unwrap();
    let v2_2 = sub2.recv_timeout(Duration::from_millis(100)).unwrap();

    assert_eq!((v1_1, v1_2), (10, 20));
    assert_eq!((v2_1, v2_2), (10, 20));
}

#[test]
fn test_event_filter() {
    let event: Event<i32> = Event::new();
    let filtered = event.clone().filter(|x| *x > 10);
    let receiver = filtered.stage.output().subscribe();

    event.emit(5);
    event.emit(15);
    event.emit(3);
    event.emit(20);
    for value in filtered.input.try_iter() {
        filtered.stage.forward(value);
    }

    let val1 = receiver.recv_timeout(Duration::from_millis(100)).unwrap();
    let val2 = receiver.recv_timeout(Duration::from_millis(100)).unwrap();

    assert_eq!(val1, 15);
    assert_eq!(val2, 20);

    assert!(receiver.recv_timeout(Duration::from_millis(50)).is_err());
}

#[test]
fn test_event_filter_broadcast() {
    let event: Event<i32> = Event::new();
    let filtered = event.clone().filter(|x| *x > 10);

    let sub1 = filtered.stage.output().subscribe();
    let sub2 = filtered.stage.output().subscribe();

    event.emit(5);
    event.emit(15);
    event.emit(25);
    for value in filtered.input.try_iter() {
        filtered.stage.forward(value);
    }

    let mut vals1 = Vec::new();
    let mut vals2 = Vec::new();
    while let Ok(v) = sub1.recv_timeout(Duration::from_millis(50)) {
        vals1.push(v);
    }
    while let Ok(v) = sub2.recv_timeout(Duration::from_millis(50)) {
        vals2.push(v);
    }

    assert_eq!(vals1, vec![15, 25]);
    assert_eq!(vals2, vec![15, 25]);
}

#[test]
fn test_event_debounce() {
    let event: Event<i32> = Event::new();
    let mut debounced = event.clone().debounce(80 * MS);
    let receiver = debounced.stage.output().subscribe();

    let arrivals = [(0, 1), (20 * MS, 2), (40 * MS, 3), (140 * MS, 4)];
    for (now, value) in arrivals {
        event.emit(value);
        for arrived in debounced.input.try_iter() {
            debounced.stage.forward(now, arrived);
        }
    }

    let mut received = Vec::new();
    while let Ok(v) = receiver.recv_timeout(Duration::from_millis(100)) {
        received.push(v);
    }

    assert!(
        received.len() >= 2,
        "Expected at least 2 values through debounce, got {:?}",
        received
    );
    assert_eq!(received[0], 1, "First value should always pass through");
    assert!(
        received.contains(&4),
        "Value 4 should pass through after debounce period"
    );
}

#[test]
fn debounce_leading_edge_through_the_bus() {
    let source: Event<&'static str> = Event::new();
    let Worker { input, mut stage } = source.clone().debounce(100 * MS);
    let inbox = stage.output().subscribe();

    let t0 = 7_000 * MS;
    let arrivals = [(t0, "a"), (t0 + 20 * MS, "b"), (t0 + 20 * MS, "c"), (t0 + 250 * MS, "d")];
    let mut passed = Vec::new();
    for (now, value) in arrivals {
        source.emit(value);
        let arrived = input.try_recv().unwrap();
        passed.push(stage.forward(now, arrived));
    }
    assert_eq!(passed, vec![true, false, false, true]);
    assert_eq!(drain(&inbox), vec!["a", "d"]);
}

#[test]
fn map_delivers_the_images_in_order() {
    let source: Event<u32> = Event::new();
    let Worker { input, stage } = source.clone().map(|x: u32| format!("<{}>", x));
    let early = stage.output().subscribe();
    for value in [3, 1, 2, 1] {
        source.emit(value);
    }
    for value in input.try_iter() {
        stage.forward(value);
    }
    let late = stage.output().subscribe();
    assert_eq!(drain(&early), vec!["<3>", "<1>", "<2>", "<1>"]);
    assert_eq!(drain(&late), Vec::<String>::new());
}

#[test]
fn map_apply_returns_the_image() {
    let source: Event<i32> = Event::new();
    let worker = source.map(|x: i32| x - 1);
    assert_eq!(worker.stage.apply(10), 9);
    assert_eq!(worker.stage.apply(-4), -5);
}

#[test]
fn filter_apply_passes_or_drops() {
    let source: Event<i32> = Event::new();
    let worker = source.filter(|x: &i32| x % 2 == 0);
    assert_eq!(worker.stage.apply(4), Some(4));
    assert_eq!(worker.stage.apply(5), None);
    assert!(worker.stage.forward(6));
    assert!(!worker.stage.forward(7));
}

#[test]
fn filter_keeps_the_order_and_adds_nothing() {
    let source: Event<i32> = Event::new();
    let Worker { input, stage } = source.clone().filter(|x: &i32| *x < 0);
    let inbox = stage.output().subscribe();
    let values = [4, -1, -7, 0, 3, -1, 9, -2];
    for value in values {
        source.emit(value);
    }
    for value in input.try_iter() {
        stage.forward(value);
    }
    assert_eq!(drain(&inbox), vec![-1, -7, -1, -2]);
}

#[test]
fn debounce_apply_follows_the_limiter() {
    let source: Event<i32> = Event::new();
    let mut worker = source.debounce(10);
    assert_eq!(worker.stage.apply(100, 1), Some(1));
    assert_eq!(worker.stage.apply(105, 2), None);
    assert_eq!(worker.stage.apply(109, 3), None);
    assert_eq!(worker.stage.apply(110, 4), Some(4));
}

#[test]
fn a_chain_equals_a_single_stage() {
    let values = [5, 12, 7, 30, 11, 10, 42];

    let source: Event<i32> = Event::new();
    let first = source.clone().filter(|x: &i32| *x > 10);
    let second = first.stage.output().map(|x: i32| x * 3);
    let chained = second.stage.output().subscribe();
    for value in values {
        source.emit(value);
    }
    for value in first.input.try_iter() {
        first.stage.forward(value);
    }
    for value in second.input.try_iter() {
        second.stage.forward(value);
    }

    let single: Vec<i32> = values.iter().filter_map(|x| if *x > 10 { Some(*x * 3) } else { None }).collect();
    assert_eq!(drain(&chained), single);
    assert_eq!(single, vec![36, 90, 33, 126]);
}

#[test]
fn a_worker_sees_the_end_of_its_input() {
    let source: Event<i32> = Event::new();
    let worker = source.clone().map(|x: i32| x + 1);
    source.emit(1);
    drop(source);
    assert_eq!(worker.input.recv(), Ok(1));
    assert!(worker.input.recv().is_err());
}

#[test]
fn a_transformation_subscribes_to_its_source() {
    let source: Event<i32> = Event::new();
    assert_eq!(source.subscriber_count(), 0);
    let worker = source.clone().filter(|x: &i32| *x > 0);
    assert_eq!(source.subscriber_count(), 1);
    assert_eq!(worker.stage.output().subscriber_count(), 0);
    drop(worker);
    source.emit(1);
    assert_eq!(source.subscriber_count(), 0);
}
