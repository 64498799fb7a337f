use leak_monitor::singleton::OnceSlot;

#[test]
fn empty_slot_does_nothing() {
    let mut slot: OnceSlot<Vec<u8>> = OnceSlot::empty();
    assert!(!slot.is_initialized());
    let r = slot.with(|v: &mut Vec<u8>| {
        v.push(1);
        v.len()
    });
    assert_eq!(r, None);
    assert!(!slot.is_initialized());
}

#[test]
fn slot_is_filled_once() {
    let mut slot: OnceSlot<Vec<u8>> = OnceSlot::empty();
    assert_eq!(slot.init(vec![1, 2]), Ok(()));
    assert!(slot.is_initialized());
    assert_eq!(slot.init(vec![9]), Err(vec![9]));
    let seen = slot.with(|v: &mut Vec<u8>| v.clone());
    assert_eq!(seen, Some(vec![1, 2]));
}

#[test]
fn slot_lends_its_value_for_change() {
    let mut slot: OnceSlot<u32> = OnceSlot::empty();
    slot.init(5).unwrap();
    assert_eq!(slot.with(|n: &mut u32| { *n += 1; *n }), Some(6));
    assert_eq!(slot.with(|n: &mut u32| *n), Some(6));
}
