use rustcat::engine::{
    compute_frame_interval, is_sleep_time, AnimationTimerState, CpuReading, TooltipUpdate,
};

fn reading(usage_hundredths: u32, local_hour: u32) -> Option<CpuReading> {
    Some(CpuReading {
        usage_hundredths,
        local_hour,
    })
}

/// Drive the engine until the next poll happens, feeding the same reading,
/// and return what the poll tick did.
fn run_until_poll(
    state: &mut AnimationTimerState,
    frame_count: usize,
    is_cat: bool,
    usage: u32,
    hour: u32,
) -> rustcat::engine::TickActions {
    loop {
        let due = state.poll_due();
        let sample = if due { reading(usage, hour) } else { None };
        let actions = state.tick(10, Some(frame_count), is_cat, sample);
        if due {
            return actions;
        }
    }
}

#[test]
fn frame_interval_examples() {
    // usage 5% -> 200 ms, 25% -> 40 ms, 100% -> 10 ms, clamped 200% -> 10 ms
    assert_eq!(compute_frame_interval(500), 200);
    assert_eq!(compute_frame_interval(2500), 40);
    assert_eq!(compute_frame_interval(10000), 10);
    assert_eq!(compute_frame_interval(20000), 10);
    // idle end: anything at or below 5% pins the slowest cadence
    assert_eq!(compute_frame_interval(0), 200);
    assert_eq!(compute_frame_interval(499), 200);
    // rounding: 100000 / 600 = 166.67 rounds to 167; 100000 / 9999 = 10.001
    assert_eq!(compute_frame_interval(600), 167);
    assert_eq!(compute_frame_interval(9999), 10);
    // half-way cases round away from zero: 100000 / 8000 = 12.5 -> 13
    assert_eq!(compute_frame_interval(8000), 13);
}

#[test]
fn sleep_window_hours() {
    for hour in 0..24u32 {
        assert_eq!(is_sleep_time(hour), !(6..22).contains(&hour));
    }
}

#[test]
fn initial_state_defaults() {
    let s = AnimationTimerState::new();
    assert_eq!(s.frame_interval_ms, 200);
    assert_eq!(s.frame_index, 0);
    assert_eq!(s.phase_accumulator_ms, 0);
    assert_eq!(s.cpu_poll_accumulator_ms, 0);
    assert_eq!(s.idle_accumulator_ms, 0);
    assert!(!s.is_sleeping);
}

#[test]
fn render_fires_when_phase_reaches_interval() {
    let mut s = AnimationTimerState::new();
    let mut renders = Vec::new();
    for tick in 1..=25u64 {
        let actions = s.tick(10, Some(4), true, None);
        if let Some(idx) = actions.render_frame {
            renders.push((tick, idx));
        }
    }
    // phase reaches 200 after 20 ticks of 10 ms; the 21st tick renders
    assert_eq!(renders, vec![(21, 1)]);
}

#[test]
fn frame_index_wraps_at_frame_count() {
    let mut s = AnimationTimerState::new();
    s.phase_accumulator_ms = 200;
    s.frame_index = 2;
    let actions = s.tick(10, Some(3), true, None);
    assert_eq!(actions.render_frame, Some(0));
    assert_eq!(s.frame_index, 0);
}

#[test]
fn unresolved_icon_skips_tick() {
    let mut s = AnimationTimerState::new();
    s.phase_accumulator_ms = 150;
    s.cpu_poll_accumulator_ms = 900;
    let before = s;
    let actions = s.tick(10, None, true, None);
    assert_eq!(actions.render_frame, None);
    assert_eq!(actions.tooltip, None);
    assert_eq!(s, before);
}

#[test]
fn idle_sleep_transition_after_threshold() {
    let mut s = AnimationTimerState::new();
    let mut transitions = 0;
    let mut polls = 0;
    // idle CPU at 23:00 with the cat selected
    for _ in 0..70 {
        let was_sleeping = s.is_sleeping;
        let actions = run_until_poll(&mut s, 4, true, 0, 23);
        polls += 1;
        if !was_sleeping && s.is_sleeping {
            transitions += 1;
            // entering sleep rewinds the animation
            assert_eq!(s.frame_index, 0);
            assert_eq!(actions.tooltip, Some(TooltipUpdate::Sleeping));
            // 60 polls of 1000 ms reach the 60000 ms threshold
            assert_eq!(polls, 60);
        }
    }
    assert!(s.is_sleeping);
    assert_eq!(transitions, 1);
}

#[test]
fn no_sleep_for_other_icons() {
    let mut s = AnimationTimerState::new();
    for _ in 0..70 {
        run_until_poll(&mut s, 4, false, 0, 23);
    }
    assert!(!s.is_sleeping);
}

#[test]
fn no_sleep_during_daytime() {
    let mut s = AnimationTimerState::new();
    for _ in 0..70 {
        run_until_poll(&mut s, 4, true, 0, 12);
    }
    assert!(!s.is_sleeping);
    assert_eq!(s.idle_accumulator_ms, 0);
}

#[test]
fn wake_on_activity_regardless_of_hour() {
    let mut s = AnimationTimerState::new();
    s.is_sleeping = true;
    s.idle_accumulator_ms = 90000;
    s.cpu_poll_accumulator_ms = 1000;
    s.frame_index = 3;
    let actions = s.tick(10, Some(4), true, reading(500, 23));
    assert!(!s.is_sleeping);
    assert_eq!(s.frame_index, 0);
    assert_eq!(s.idle_accumulator_ms, 0);
    assert_eq!(actions.tooltip, Some(TooltipUpdate::Usage(500)));
}

#[test]
fn wake_when_window_ends() {
    let mut s = AnimationTimerState::new();
    s.is_sleeping = true;
    s.idle_accumulator_ms = 90000;
    s.cpu_poll_accumulator_ms = 1000;
    s.frame_index = 3;
    // still idle, but 06:00 has come
    s.tick(10, Some(4), true, reading(0, 6));
    assert!(!s.is_sleeping);
    assert_eq!(s.frame_index, 0);
    assert_eq!(s.idle_accumulator_ms, 0);
}

#[test]
fn failed_sample_keeps_cadence() {
    let mut s = AnimationTimerState::new();
    s.frame_interval_ms = 40;
    s.cpu_poll_accumulator_ms = 1000;
    let actions = s.tick(10, Some(4), true, None);
    assert_eq!(s.frame_interval_ms, 40);
    assert_eq!(s.cpu_poll_accumulator_ms, 0);
    assert_eq!(actions.tooltip, None);
}

#[test]
fn poll_retunes_cadence_and_reports_usage() {
    let mut s = AnimationTimerState::new();
    s.cpu_poll_accumulator_ms = 1000;
    let actions = s.tick(10, Some(4), true, reading(2500, 12));
    assert_eq!(s.frame_interval_ms, 40);
    assert_eq!(s.cpu_poll_accumulator_ms, 10);
    assert_eq!(actions.tooltip, Some(TooltipUpdate::Usage(2500)));
}

#[test]
fn effective_icon_name_substitutes_sleeping_cat() {
    let mut s = AnimationTimerState::new();
    assert_eq!(s.effective_icon_name("cat"), "cat");
    s.is_sleeping = true;
    assert_eq!(s.effective_icon_name("cat"), "sleep");
    assert_eq!(s.effective_icon_name("parrot"), "parrot");
}
