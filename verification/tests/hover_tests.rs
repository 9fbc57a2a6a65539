use waybar_togle::config::Config;
use waybar_togle::hover::Action;
use waybar_togle::hover::HoverState;

fn mk_cfg(y_threshold: i32, poll_ms: u64, hide_delay_ms: u64, show_delay_ms: u64) -> Config {
    Config {
        config_path: String::from("config"),
        style_path: String::from("style.css"),
        y_threshold,
        poll_ms,
        hide_delay_ms,
        show_delay_ms,
    }
}

#[test]
fn scenario_show_then_hide_without_delays() {
    // y_threshold=7, show_delay=0, hide_delay=0; samples [0, 0, 10]:
    // show after the first sample, hide after the third.
    let cfg = mk_cfg(7, 75, 0, 0);
    let mut st = HoverState::new();
    assert_eq!(st.step(&cfg, Some(0), 0), Action::Show);
    assert!(st.is_shown);
    assert_eq!(st.step(&cfg, Some(0), 75), Action::Stay);
    assert!(st.is_shown);
    assert_eq!(st.step(&cfg, Some(10), 150), Action::Hide);
    assert!(!st.is_shown);
}

#[test]
fn scenario_show_delay_holds_until_dwell() {
    // show_delay=100ms, poll=50ms; top-zone samples at t=0, 50, 100:
    // no show before the sample at t=100, where dwell reaches 100ms.
    let cfg = mk_cfg(7, 50, 0, 100);
    let mut st = HoverState::new();
    assert_eq!(st.step(&cfg, Some(0), 0), Action::Stay);
    assert!(!st.is_shown);
    assert_eq!(st.step(&cfg, Some(0), 50), Action::Stay);
    assert!(!st.is_shown);
    assert_eq!(st.step(&cfg, Some(0), 100), Action::Show);
    assert!(st.is_shown);
}

#[test]
fn scenario_hide_delay_abort() {
    // hide_delay=250ms, y_threshold=7; shown, sample Y=10 asks for
    // confirmation, re-sample Y=5 aborts: still shown.
    let cfg = mk_cfg(7, 75, 250, 0);
    let mut st = HoverState::new();
    assert_eq!(st.step(&cfg, Some(0), 0), Action::Show);
    assert_eq!(st.step(&cfg, Some(10), 75), Action::ConfirmHide);
    assert!(st.is_shown);
    assert_eq!(st.resolve_hide(&cfg, Some(5)), Action::Stay);
    assert!(st.is_shown);
}

#[test]
fn scenario_hide_delay_confirm() {
    let cfg = mk_cfg(7, 75, 250, 0);
    let mut st = HoverState::new();
    assert_eq!(st.step(&cfg, Some(1), 0), Action::Show);
    assert_eq!(st.step(&cfg, Some(20), 75), Action::ConfirmHide);
    assert_eq!(st.resolve_hide(&cfg, Some(20)), Action::Hide);
    assert!(!st.is_shown);
}

#[test]
fn scenario_absent_sample_keeps_dwell() {
    // A failed query between two top-zone samples does not reset the
    // recorded entry time: the dwell still counts from the first entry.
    let cfg = mk_cfg(7, 50, 0, 100);
    let mut st = HoverState::new();
    assert_eq!(st.step(&cfg, Some(0), 0), Action::Stay);
    assert_eq!(st.top_entered_at, Some(0));
    assert_eq!(st.step(&cfg, None, 50), Action::Stay);
    assert_eq!(st.top_entered_at, Some(0));
    assert_eq!(st.step(&cfg, Some(0), 100), Action::Show);
    assert!(st.is_shown);
}

#[test]
fn hysteresis_band_never_hides() {
    // While shown, samples with 1 < Y <= y_threshold sit in the dead band:
    // no hide, no confirmation.
    let cfg = mk_cfg(7, 75, 250, 0);
    let mut st = HoverState::new();
    assert_eq!(st.step(&cfg, Some(0), 0), Action::Show);
    for y in 2i32..=7i32 {
        assert_eq!(st.step(&cfg, Some(y), 75), Action::Stay);
        assert!(st.is_shown);
    }
}

#[test]
fn no_show_on_sample_above_top_zone() {
    // is_shown never turns true on a sample with Y > 1.
    let cfg = mk_cfg(7, 75, 0, 0);
    let mut st = HoverState::new();
    assert_eq!(st.step(&cfg, Some(2), 0), Action::Stay);
    assert!(!st.is_shown);
    assert_eq!(st.step(&cfg, Some(100), 75), Action::Stay);
    assert!(!st.is_shown);
}

#[test]
fn dwell_resets_when_leaving_top_zone() {
    // Leaving the top zone clears the entry time; re-entry starts fresh,
    // so the bar is not shown from the stale entry time.
    let cfg = mk_cfg(7, 50, 0, 100);
    let mut st = HoverState::new();
    assert_eq!(st.step(&cfg, Some(0), 0), Action::Stay);
    assert_eq!(st.top_entered_at, Some(0));
    assert_eq!(st.step(&cfg, Some(5), 50), Action::Stay);
    assert_eq!(st.top_entered_at, None);
    assert_eq!(st.step(&cfg, Some(0), 100), Action::Stay);
    assert_eq!(st.top_entered_at, Some(100));
    assert!(!st.is_shown);
    assert_eq!(st.step(&cfg, Some(0), 200), Action::Show);
}

#[test]
fn hide_delay_resample_absent_still_hides() {
    // A failed re-sample does not abort the pending hide.
    let cfg = mk_cfg(7, 75, 250, 0);
    let mut st = HoverState::new();
    assert_eq!(st.step(&cfg, Some(0), 0), Action::Show);
    assert_eq!(st.step(&cfg, Some(8), 75), Action::ConfirmHide);
    assert_eq!(st.resolve_hide(&cfg, None), Action::Hide);
    assert!(!st.is_shown);
}

#[test]
fn show_is_immediate_once_already_dwelt() {
    // With show_delay > 0, the dwell keeps counting from the recorded
    // entry while the pointer stays in the top zone.
    let cfg = mk_cfg(7, 75, 0, 150);
    let mut st = HoverState::new();
    assert_eq!(st.step(&cfg, Some(1), 10), Action::Stay);
    assert_eq!(st.step(&cfg, Some(1), 90), Action::Stay);
    assert_eq!(st.step(&cfg, Some(1), 160), Action::Show);
    assert!(st.is_shown);
    // Once shown, further top-zone samples change nothing.
    assert_eq!(st.step(&cfg, Some(0), 235), Action::Stay);
    assert!(st.is_shown);
}
