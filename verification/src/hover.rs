//! The hover-debounce state machine.
//!
//! Each tick the machine consumes one pointer sample (possibly absent), the
//! current time in milliseconds, and the configuration, and decides whether
//! the managed bar process must be shown or hidden. Two different boundaries
//! create a hysteresis band: the bar is shown when the pointer rests in the
//! top zone (Y <= 1) for the configured dwell, and hidden only when the
//! pointer moves below the looser hide boundary (Y > y_threshold), optionally
//! confirmed by a delayed re-sample.

use vstd::prelude::*;

use crate::config::Config;

verus! {

/// What the caller must do after a tick. The machine itself performs no
/// process control; it only decides.
#[derive(Clone, Copy, Debug, PartialEq, Eq)]
pub enum Action {
    /// Nothing to do this tick.
    Stay,
    /// Spawn the managed process: the pointer has dwelt in the top zone.
    Show,
    /// Terminate the managed process: the pointer left the hide boundary.
    Hide,
    /// Wait `hide_delay_ms`, take one more sample, and hand it to
    /// `resolve_hide`: a hide is pending confirmation.
    ConfirmHide,
}

/// The mutable state of the machine: whether the bar is considered visible,
/// and when the pointer most recently entered the top zone (absent whenever
/// the last decisive sample had Y > 1).
#[derive(Clone, Copy, Debug)]
pub struct HoverState {
    /// Whether the managed process is currently considered visible.
    pub is_shown: bool,
    /// Millisecond timestamp of the most recent entry into the top zone,
    /// or `None` if the pointer has since left it.
    pub top_entered_at: Option<u64>,
}

/// A sample is in the top zone when its Y-coordinate is at most 1.
pub open spec fn at_top(y: i32) -> bool {
    y <= 1
}

/// Milliseconds elapsed between entering the top zone and `now`; a clock
/// that ran backwards counts as no dwell at all.
pub open spec fn dwell_ms(entered: u64, now: u64) -> int {
    if now >= entered {
        now - entered
    } else {
        0
    }
}

/// The effective top-zone entry time for this tick: the recorded one, or
/// `now` when the pointer enters the zone just now.
pub open spec fn entry_time(pre: HoverState, now: u64) -> u64 {
    match pre.top_entered_at {
        Some(t) => t,
        None => now,
    }
}

/// Whether a top-zone sample at `now` satisfies the show-delay rule:
/// immediately when the delay is disabled, otherwise only once the dwell
/// time has reached it.
pub open spec fn show_ready(pre: HoverState, cfg: Config, now: u64) -> bool {
    cfg.show_delay_ms == 0 || dwell_ms(entry_time(pre, now), now) >= cfg.show_delay_ms
}

/// The state after one tick on `sample` at time `now`.
pub open spec fn spec_step_state(
    pre: HoverState,
    cfg: Config,
    sample: Option<i32>,
    now: u64,
) -> HoverState {
    match sample {
        None => pre,
        Some(y) => {
            if at_top(y) {
                HoverState {
                    is_shown: pre.is_shown || show_ready(pre, cfg, now),
                    top_entered_at: Some(entry_time(pre, now)),
                }
            } else {
                HoverState {
                    is_shown: pre.is_shown && !(y > cfg.y_threshold && cfg.hide_delay_ms == 0),
                    top_entered_at: None,
                }
            }
        },
    }
}

/// The action issued by one tick on `sample` at time `now`.
pub open spec fn spec_step_action(
    pre: HoverState,
    cfg: Config,
    sample: Option<i32>,
    now: u64,
) -> Action {
    match sample {
        None => Action::Stay,
        Some(y) => {
            if at_top(y) {
                if !pre.is_shown && show_ready(pre, cfg, now) {
                    Action::Show
                } else {
                    Action::Stay
                }
            } else {
                if pre.is_shown && y > cfg.y_threshold {
                    if cfg.hide_delay_ms > 0 {
                        Action::ConfirmHide
                    } else {
                        Action::Hide
                    }
                } else {
                    Action::Stay
                }
            }
        },
    }
}

/// The state after the hide-confirmation re-sample: unchanged when the
/// re-sample aborts the hide, otherwise no longer shown.
pub open spec fn spec_resolve_state(
    pre: HoverState,
    cfg: Config,
    resample: Option<i32>,
) -> HoverState {
    if spec_resolve_action(pre, cfg, resample) is Hide {
        HoverState { is_shown: false, ..pre }
    } else {
        pre
    }
}

/// The action decided by the hide-confirmation re-sample: the hide is
/// aborted exactly when the re-sample is present and back at or below the
/// hide boundary.
pub open spec fn spec_resolve_action(
    pre: HoverState,
    cfg: Config,
    resample: Option<i32>,
) -> Action {
    match resample {
        Some(y) => {
            if y <= cfg.y_threshold {
                Action::Stay
            } else {
                Action::Hide
            }
        },
        None => Action::Hide,
    }
}

/// The bar is shown only by a top-zone sample whose dwell satisfies the
/// show-delay rule: if a tick turns `is_shown` from false to true, the
/// sample was present with Y <= 1 and either the show delay is disabled or
/// the dwell had reached it, and the tick's action is `Show`. The
/// hide-confirmation step never turns `is_shown` true either.
pub proof fn lemma_show_only_from_top(
    pre: HoverState,
    cfg: Config,
    sample: Option<i32>,
    now: u64,
    resample: Option<i32>,
)
    ensures
        !pre.is_shown && spec_step_state(pre, cfg, sample, now).is_shown ==> (sample matches Some(
            y,
        ) && at_top(y) && show_ready(pre, cfg, now) && spec_step_action(pre, cfg, sample, now)
            == Action::Show),
        !pre.is_shown ==> !spec_resolve_state(pre, cfg, resample).is_shown,
{
}

/// Once shown, the bar is hidden only by a sample beyond the hide boundary:
/// a tick of `step` hides at once only when the sample has Y > y_threshold
/// and the hide delay is disabled, and the confirmation step hides only
/// when the re-sample is absent or still has Y > y_threshold.
pub proof fn lemma_hide_only_past_threshold(
    pre: HoverState,
    cfg: Config,
    sample: Option<i32>,
    now: u64,
    resample: Option<i32>,
)
    ensures
        pre.is_shown && !spec_step_state(pre, cfg, sample, now).is_shown ==> (sample matches Some(
            y,
        ) && y > cfg.y_threshold && cfg.hide_delay_ms == 0 && spec_step_action(
            pre,
            cfg,
            sample,
            now,
        ) == Action::Hide),
        pre.is_shown && !spec_resolve_state(pre, cfg, resample).is_shown ==> match resample {
            Some(y2) => y2 > cfg.y_threshold,
            None => true,
        },
{
}

/// Hysteresis: while shown, a sample in the dead band between the top zone
/// and the hide boundary (1 < Y <= y_threshold) neither hides the bar nor
/// starts a hide confirmation.
pub proof fn lemma_hysteresis(pre: HoverState, cfg: Config, y: i32, now: u64)
    requires
        cfg.y_threshold >= 1,
        pre.is_shown,
        1 < y <= cfg.y_threshold,
    ensures
        spec_step_state(pre, cfg, Some(y), now).is_shown,
        spec_step_action(pre, cfg, Some(y), now) == Action::Stay,
{
}

/// Leaving the top zone resets the dwell timer: after a sample with Y > 1
/// the recorded entry time is gone, a re-entry at `now2` starts the dwell
/// fresh at `now2`, and with a nonzero show delay the re-entry tick itself
/// never shows the bar from the stale entry time.
pub proof fn lemma_dwell_reset(
    pre: HoverState,
    cfg: Config,
    y_out: i32,
    now1: u64,
    y_in: i32,
    now2: u64,
)
    requires
        y_out > 1,
        at_top(y_in),
    ensures
        spec_step_state(pre, cfg, Some(y_out), now1).top_entered_at is None,
        spec_step_state(
            spec_step_state(pre, cfg, Some(y_out), now1),
            cfg,
            Some(y_in),
            now2,
        ).top_entered_at == Some(now2),
        cfg.show_delay_ms > 0 && !spec_step_state(pre, cfg, Some(y_out), now1).is_shown
            ==> !spec_step_state(
            spec_step_state(pre, cfg, Some(y_out), now1),
            cfg,
            Some(y_in),
            now2,
        ).is_shown && spec_step_action(
            spec_step_state(pre, cfg, Some(y_out), now1),
            cfg,
            Some(y_in),
            now2,
        ) == Action::Stay,
{
}

/// Hide-delay abort: a re-sample at or below the hide boundary cancels the
/// pending hide; the state is untouched and the bar stays shown.
pub proof fn lemma_hide_abort(pre: HoverState, cfg: Config, y2: i32)
    requires
        y2 <= cfg.y_threshold,
    ensures
        spec_resolve_state(pre, cfg, Some(y2)) == pre,
        spec_resolve_state(pre, cfg, Some(y2)).is_shown == pre.is_shown,
        spec_resolve_action(pre, cfg, Some(y2)) == Action::Stay,
{
}

/// After a tick with a present sample, the top-zone entry time is recorded
/// exactly when that sample was in the top zone.
pub proof fn lemma_entry_time_tracks_top_zone(pre: HoverState, cfg: Config, y: i32, now: u64)
    ensures
        spec_step_state(pre, cfg, Some(y), now).top_entered_at is Some <==> at_top(y),
{
}

/// An absent sample (a failed query) leaves the whole state untouched: in
/// particular it does not reset the recorded top-zone entry time between
/// two top-zone samples.
pub proof fn lemma_absent_sample_keeps_state(pre: HoverState, cfg: Config, now: u64)
    ensures
        spec_step_state(pre, cfg, None, now) == pre,
        spec_step_action(pre, cfg, None, now) == Action::Stay,
{
}

impl HoverState {
    /// The initial state: nothing shown, pointer not in the top zone.
    pub fn new() -> (s: HoverState)
        ensures
            !s.is_shown,
            s.top_entered_at is None,
    {
        HoverState { is_shown: false, top_entered_at: None }
    }

    /// One tick of the debounce loop.
    ///
    /// An absent sample leaves the state untouched. A top-zone sample
    /// records the entry time (if not already recorded) and shows the bar
    /// once the show-delay rule is met. Any other sample clears the entry
    /// time; if it also lies above the hide boundary while the bar is shown,
    /// it hides at once (no hide delay) or asks for confirmation.
    pub fn step(&mut self, cfg: &Config, sample: Option<i32>, now: u64) -> (a: Action)
        ensures
            *final(self) == spec_step_state(*old(self), *cfg, sample, now),
            a == spec_step_action(*old(self), *cfg, sample, now),
    {
        match sample {
            None => Action::Stay,
            Some(y) => {
                if y <= 1 {
                    if self.top_entered_at.is_none() {
                        self.top_entered_at = Some(now);
                    }
                    if !self.is_shown {
                        let should_show: bool = if cfg.show_delay_ms == 0 {
                            true
                        } else {
                            match self.top_entered_at {
                                Some(t) => {
                                    let elapsed: u64 = if now >= t {
                                        now - t
                                    } else {
                                        0
                                    };
                                    elapsed >= cfg.show_delay_ms
                                },
                                None => false,
                            }
                        };
                        if should_show {
                            self.is_shown = true;
                            return Action::Show;
                        }
                    }
                    Action::Stay
                } else {
                    self.top_entered_at = None;
                    if self.is_shown && y > cfg.y_threshold {
                        if cfg.hide_delay_ms > 0 {
                            Action::ConfirmHide
                        } else {
                            self.is_shown = false;
                            Action::Hide
                        }
                    } else {
                        Action::Stay
                    }
                }
            },
        }
    }

    /// Resolve a pending hide after the caller slept `hide_delay_ms` and
    /// took one more sample. A present re-sample at or below the hide
    /// boundary is a transient spike: the hide is aborted and the bar stays
    /// shown. Anything else confirms the hide.
    pub fn resolve_hide(&mut self, cfg: &Config, resample: Option<i32>) -> (a: Action)
        ensures
            *final(self) == spec_resolve_state(*old(self), *cfg, resample),
            a == spec_resolve_action(*old(self), *cfg, resample),
    {
        match resample {
            Some(y) => {
                if y <= cfg.y_threshold {
                    Action::Stay
                } else {
                    self.is_shown = false;
                    Action::Hide
                }
            },
            None => {
                self.is_shown = false;
                Action::Hide
            },
        }
    }
}

} // verus!
