use waybar_togle::handle::waybar_pid;

#[test]
fn slot_starts_empty() {
    let slot = waybar_pid();
    assert_eq!(slot.pid, None);
}

#[test]
fn record_then_take() {
    let mut slot = waybar_pid();
    slot.record(4242);
    assert_eq!(slot.pid, Some(4242));
    assert_eq!(slot.take(), Some(4242));
    assert_eq!(slot.pid, None);
    assert_eq!(slot.take(), None);
}

#[test]
fn record_overwrites_stale_value() {
    let mut slot = waybar_pid();
    slot.record(1);
    slot.record(2);
    assert_eq!(slot.take(), Some(2));
}
