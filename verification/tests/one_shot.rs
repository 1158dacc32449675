use image_editor::one_shot::OneShot;

#[test]
fn test_first_fire_wins() {
    let mut signal: OneShot<Result<u32, String>> = OneShot::new();
    assert!(!signal.is_fired());
    assert!(signal.fire(Ok(7)));
    // The losing callback of the pair fires afterward: a no-op.
    assert!(!signal.fire(Err(String::from("late failure"))));
    assert!(signal.is_fired());
    assert_eq!(signal.take(), Some(Ok(7)));
    // The resolution is consumed exactly once.
    assert_eq!(signal.take(), None);
    assert!(signal.is_fired());
}

#[test]
fn test_failure_can_win() {
    let mut signal: OneShot<Result<u32, String>> = OneShot::new();
    assert!(signal.fire(Err(String::from("decode error"))));
    assert!(!signal.fire(Ok(1)));
    assert_eq!(signal.take(), Some(Err(String::from("decode error"))));
}

#[test]
fn test_take_before_fire_is_empty() {
    let mut signal: OneShot<u8> = OneShot::new();
    assert_eq!(signal.take(), None);
    assert!(!signal.is_fired());
    assert!(signal.fire(3));
    assert_eq!(signal.take(), Some(3));
}
