use cli_ide::window::{WindowId, WindowIdSource};
use std::collections::HashSet;

#[test]
fn test_window_id_unique() {
    let mut source = WindowIdSource::new();
    let id1 = WindowId::new(&mut source);
    let id2 = WindowId::new(&mut source);
    let id3 = WindowId::new(&mut source);

    assert_ne!(id1, id2);
    assert_ne!(id2, id3);
    assert_ne!(id1, id3);
}

#[test]
fn test_window_id_equality() {
    let mut source = WindowIdSource::new();
    let id = WindowId::new(&mut source);
    let id_copy = id;

    assert_eq!(id, id_copy);
}

#[test]
fn test_window_id_hash() {
    let mut source = WindowIdSource::new();
    let id1 = WindowId::new(&mut source);
    let id2 = WindowId::new(&mut source);

    let mut set = HashSet::new();
    set.insert(id1);
    set.insert(id2);

    assert!(set.contains(&id1));
    assert!(set.contains(&id2));
    assert_eq!(set.len(), 2);
}

#[test]
fn test_window_id_display() {
    let mut source = WindowIdSource::new();
    let id = WindowId::new(&mut source);
    let display = id.to_string();

    assert!(display.starts_with("WindowId("));
    assert!(display.ends_with(")"));
}

#[test]
fn test_window_id_as_u64() {
    let mut source = WindowIdSource::new();
    let id = WindowId::new(&mut source);
    let raw = id.as_u64();

    assert!(raw > 0);
}

#[test]
fn test_window_id_default() {
    let mut source = WindowIdSource::default();
    let id1 = WindowId::new(&mut source);
    let id2 = WindowId::new(&mut source);

    assert_ne!(id1, id2);
}

#[test]
fn ids_count_up_from_one() {
    let mut source = WindowIdSource::new();
    assert_eq!(WindowId::new(&mut source).as_u64(), 1);
    assert_eq!(WindowId::new(&mut source).as_u64(), 2);
    assert_eq!(WindowId::new(&mut source).as_u64(), 3);
}

#[test]
fn id_text_is_the_number_in_decimal() {
    let mut source = WindowIdSource::new();
    let first = WindowId::new(&mut source);
    assert_eq!(first.to_string(), "WindowId(1)");
    let mut last = first;
    for _ in 0..1233 {
        last = WindowId::new(&mut source);
    }
    assert_eq!(last.as_u64(), 1234);
    assert_eq!(last.to_string(), "WindowId(1234)");
}

#[test]
fn a_thousand_ids_are_all_different() {
    let mut source = WindowIdSource::new();
    let mut seen = HashSet::new();
    for _ in 0..1000 {
        assert!(seen.insert(WindowId::new(&mut source)));
    }
    assert_eq!(seen.len(), 1000);
}
