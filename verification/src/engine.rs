//! Animation engine: the timed loop's state and transitions.  Every tick
//! advances the animation phase; once a second the engine takes a CPU
//! reading, derives the frame cadence from it, and drives the idle/sleep
//! state machine.  The platform layer runs the loop, performs the rendering
//! and sampling, and hands the engine plain values.

use vstd::prelude::*;

verus! {

use crate::strutil::str_eq;

/// Interval between frame advances when idle, and at startup.
pub const DEFAULT_FRAME_INTERVAL_MS: u64 = 200;

/// Shortest interval between frame advances, reached at full load.
pub const MIN_FRAME_INTERVAL_MS: u64 = 10;

/// How much poll time must accumulate before the CPU is sampled again.
pub const CPU_POLL_INTERVAL_MS: u64 = 1000;

/// How long the CPU must stay idle, within the sleep window, before the
/// sleeping animation takes over.
pub const IDLE_THRESHOLD_MS: u64 = 60000;

/// Usage below this, in hundredths of a percent, counts as idle.
pub const IDLE_USAGE_HUNDREDTHS: u32 = 500;

/// Usage at or above this, in hundredths of a percent, counts as full load.
pub const FULL_USAGE_HUNDREDTHS: u32 = 10000;

/// The timer state the engine owns; nothing outside the engine mutates it.
#[derive(Debug, Clone, Copy, PartialEq, Eq, Structural)]
pub struct AnimationTimerState {
    pub phase_accumulator_ms: u64,
    pub cpu_poll_accumulator_ms: u64,
    pub frame_index: usize,
    pub frame_interval_ms: u64,
    pub idle_accumulator_ms: u64,
    pub is_sleeping: bool,
}

/// A CPU reading taken for one poll: normalized usage in hundredths of a
/// percent, and the local hour for the sleep-window policy.
#[derive(Debug, Clone, Copy, PartialEq, Eq, Structural)]
pub struct CpuReading {
    pub usage_hundredths: u32,
    pub local_hour: u32,
}

/// What one tick asks the platform shell to do.
#[derive(Debug, PartialEq, Eq)]
pub struct TickActions {
    pub render_frame: Option<usize>,
    pub tooltip: Option<TooltipUpdate>,
}

/// The tooltip to show after a successful poll.
#[derive(Debug, Clone, Copy, PartialEq, Eq, Structural)]
pub enum TooltipUpdate {
    Sleeping,
    Usage(u32),
}

/// Addition on accumulators that stops at the top instead of wrapping.
pub open spec fn sat_add_u64(a: u64, b: u64) -> u64 {
    if a + b <= u64::MAX {
        (a + b) as u64
    } else {
        u64::MAX
    }
}

/// The frame interval derived from CPU usage, in milliseconds:
/// round(200 / clamp(usage / 5, 1, 20)) with usage in percent, here taken
/// in hundredths of a percent.  Between the clamp bounds this is
/// 100000 / usage rounded half away from zero.
pub open spec fn spec_frame_interval(usage: int) -> int {
    if usage <= 500 {
        200
    } else if usage >= 10000 {
        10
    } else {
        (200000 + usage) / (2 * usage)
    }
}

/// The idle window: hours outside [6, 22).
pub open spec fn spec_is_sleep_time(hour: int) -> bool {
    !(6 <= hour < 22)
}

/// Whether the local hour falls in the nightly sleep window.
pub fn is_sleep_time(hour: u32) -> (r: bool)
    ensures
        r == spec_is_sleep_time(hour as int),
{
    !(hour >= 6 && hour < 22)
}

/// The frame interval for a usage reading, clamped to [10, 200] ms.
pub fn compute_frame_interval(usage_hundredths: u32) -> (r: u64)
    ensures
        r == spec_frame_interval(usage_hundredths as int),
        MIN_FRAME_INTERVAL_MS <= r <= DEFAULT_FRAME_INTERVAL_MS,
{
    if usage_hundredths <= IDLE_USAGE_HUNDREDTHS {
        DEFAULT_FRAME_INTERVAL_MS
    } else if usage_hundredths >= FULL_USAGE_HUNDREDTHS {
        MIN_FRAME_INTERVAL_MS
    } else {
        let u = usage_hundredths as u64;
        let r = (200000 + u) / (2 * u);
        proof {
            lemma_frame_interval_bounds(u as int);
        }
        r
    }
}

/// On the whole clamped range the interval is one rounded quotient: for
/// usage from 5% to 100%, the interval is 100000 / usage rounded half away
/// from zero, and always lies in [10, 200] ms.
pub proof fn lemma_frame_interval_formula(usage: int)
    requires
        500 <= usage <= 10000,
    ensures
        spec_frame_interval(usage) == (200000 + usage) / (2 * usage),
        10 <= spec_frame_interval(usage) <= 200,
{
    lemma_frame_interval_bounds(usage);
    if usage == 500 {
        vstd::arithmetic::div_mod::lemma_fundamental_div_mod_converse(200500, 1000, 200, 500);
    }
    if usage == 10000 {
        vstd::arithmetic::div_mod::lemma_fundamental_div_mod_converse(210000, 20000, 10, 10000);
    }
}

/// Bounds of the rounded quotient between the clamp bounds.
proof fn lemma_frame_interval_bounds(usage: int)
    requires
        500 <= usage <= 10000,
    ensures
        10 <= (200000 + usage) / (2 * usage) <= 200,
{
    let d = 2 * usage;
    assert(d >= 1000);
    vstd::arithmetic::div_mod::lemma_fundamental_div_mod(200000 + usage, d);
    let q = (200000 + usage) / d;
    let r = (200000 + usage) % d;
    vstd::arithmetic::div_mod::lemma_mod_bound(200000 + usage, d);
    assert(200000 + usage == d * q + r);
    assert(0 <= r < d);
    assert(q >= 10) by (nonlinear_arith)
        requires
            d == 2 * usage,
            500 <= usage <= 10000,
            200000 + usage == d * q + r,
            0 <= r < d,
    ;
    assert(q <= 200) by (nonlinear_arith)
        requires
            d == 2 * usage,
            500 <= usage <= 10000,
            200000 + usage == d * q + r,
            0 <= r < d,
    ;
}

/// The poll step: a successful CPU reading retunes the frame cadence and
/// drives the idle/sleep machine.  Sleep is entered only for the cat, after
/// a full idle threshold inside the sleep window; waking happens on any
/// activity or when the window ends, whatever the icon.
pub open spec fn spec_poll(
    s: AnimationTimerState,
    usage: u32,
    hour: u32,
    is_cat: bool,
) -> AnimationTimerState {
    let retuned = AnimationTimerState {
        frame_interval_ms: spec_frame_interval(usage as int) as u64,
        ..s
    };
    if usage < IDLE_USAGE_HUNDREDTHS && spec_is_sleep_time(hour as int) {
        let idle = sat_add_u64(s.idle_accumulator_ms, CPU_POLL_INTERVAL_MS);
        if idle >= IDLE_THRESHOLD_MS && !s.is_sleeping && is_cat {
            AnimationTimerState {
                idle_accumulator_ms: idle,
                is_sleeping: true,
                frame_index: 0,
                ..retuned
            }
        } else {
            AnimationTimerState { idle_accumulator_ms: idle, ..retuned }
        }
    } else {
        if s.is_sleeping {
            AnimationTimerState {
                idle_accumulator_ms: 0,
                is_sleeping: false,
                frame_index: 0,
                ..retuned
            }
        } else {
            AnimationTimerState { idle_accumulator_ms: 0, ..retuned }
        }
    }
}

/// The frame-advance step: once enough phase time has accumulated, the
/// accumulator restarts and the frame index moves on by one, wrapping at
/// the frame count; the advanced frame is rendered.
pub open spec fn spec_advance(s: AnimationTimerState, elapsed: u64, frame_count: usize) -> (
    AnimationTimerState,
    Option<usize>,
) {
    if s.phase_accumulator_ms >= s.frame_interval_ms {
        let idx = (((s.frame_index as int) + 1) % (frame_count as int)) as usize;
        (
            AnimationTimerState { phase_accumulator_ms: elapsed, frame_index: idx, ..s },
            Some(idx),
        )
    } else {
        (
            AnimationTimerState {
                phase_accumulator_ms: (s.phase_accumulator_ms + elapsed) as u64,
                ..s
            },
            None,
        )
    }
}

/// A whole tick: the frame advance, then, once enough poll time has
/// accumulated, the poll.  A failed reading only restarts the poll
/// accumulator and keeps the previous cadence; an unresolved icon leaves
/// the state untouched.
pub open spec fn spec_tick(
    s: AnimationTimerState,
    elapsed: u64,
    frames: Option<usize>,
    is_cat: bool,
    sample: Option<CpuReading>,
) -> (AnimationTimerState, TickActions) {
    match frames {
        None => (s, TickActions { render_frame: None, tooltip: None }),
        Some(frame_count) => {
            let (s1, render) = spec_advance(s, elapsed, frame_count);
            if s.cpu_poll_accumulator_ms >= CPU_POLL_INTERVAL_MS {
                match sample {
                    None => (
                        AnimationTimerState { cpu_poll_accumulator_ms: 0, ..s1 },
                        TickActions { render_frame: render, tooltip: None },
                    ),
                    Some(rd) => {
                        let s2 = spec_poll(s1, rd.usage_hundredths, rd.local_hour, is_cat);
                        let tip = if s2.is_sleeping && is_cat {
                            TooltipUpdate::Sleeping
                        } else {
                            TooltipUpdate::Usage(rd.usage_hundredths)
                        };
                        (
                            AnimationTimerState { cpu_poll_accumulator_ms: elapsed, ..s2 },
                            TickActions { render_frame: render, tooltip: Some(tip) },
                        )
                    },
                }
            } else {
                (
                    AnimationTimerState {
                        cpu_poll_accumulator_ms: (s.cpu_poll_accumulator_ms + elapsed) as u64,
                        ..s1
                    },
                    TickActions { render_frame: render, tooltip: None },
                )
            }
        },
    }
}

/// The timer state the engine starts from.
pub open spec fn spec_initial_state() -> AnimationTimerState {
    AnimationTimerState {
        phase_accumulator_ms: 0,
        cpu_poll_accumulator_ms: 0,
        frame_index: 0,
        frame_interval_ms: DEFAULT_FRAME_INTERVAL_MS,
        idle_accumulator_ms: 0,
        is_sleeping: false,
    }
}

impl AnimationTimerState {
    /// Bounds every reachable timer state satisfies, for a tick cadence of
    /// at most one second.
    pub open spec fn wf(self) -> bool {
        &&& MIN_FRAME_INTERVAL_MS <= self.frame_interval_ms <= DEFAULT_FRAME_INTERVAL_MS
        &&& self.phase_accumulator_ms < 1200
        &&& self.cpu_poll_accumulator_ms < 2000
        &&& self.frame_index < usize::MAX
    }

    /// The state at engine start.
    pub fn new() -> (r: Self)
        ensures
            r == spec_initial_state(),
            r.wf(),
    {
        AnimationTimerState {
            phase_accumulator_ms: 0,
            cpu_poll_accumulator_ms: 0,
            frame_index: 0,
            frame_interval_ms: DEFAULT_FRAME_INTERVAL_MS,
            idle_accumulator_ms: 0,
            is_sleeping: false,
        }
    }

    /// Whether the next tick will take a CPU reading, so that the caller
    /// knows to sample before ticking.
    pub fn poll_due(&self) -> (r: bool)
        ensures
            r == (self.cpu_poll_accumulator_ms >= CPU_POLL_INTERVAL_MS),
    {
        self.cpu_poll_accumulator_ms >= CPU_POLL_INTERVAL_MS
    }

    /// The icon family the engine renders: the sleeping cat stands in for
    /// the cat while the engine sleeps; every other family shows itself.
    pub fn effective_icon_name<'a>(&self, icon_name: &'a str) -> (r: &'a str)
        ensures
            r@ == spec_effective_icon_name(self.is_sleeping, icon_name@),
    {
        if self.is_sleeping && str_eq(icon_name, "cat") {
            "sleep"
        } else {
            icon_name
        }
    }

    /// One tick of the animation loop.  `frames` is the frame count the
    /// current icon resolved to, or nothing where resolution failed (the
    /// tick is then skipped).  `sample` is the CPU reading the caller took
    /// because a poll was due, or nothing where the sampler failed.
    pub fn tick(&mut self, elapsed_ms: u64, frames: Option<usize>, is_cat: bool, sample: Option<
        CpuReading,
    >) -> (r: TickActions)
        requires
            old(self).wf(),
            1 <= elapsed_ms <= 1000,
            frames matches Some(c) ==> c > 0,
        ensures
            *final(self) == spec_tick(*old(self), elapsed_ms, frames, is_cat, sample).0,
            r == spec_tick(*old(self), elapsed_ms, frames, is_cat, sample).1,
            final(self).wf(),
    {
        let frame_count = match frames {
            None => {
                return TickActions { render_frame: None, tooltip: None };
            },
            Some(c) => c,
        };
        let mut render: Option<usize> = None;
        if self.phase_accumulator_ms >= self.frame_interval_ms {
            self.phase_accumulator_ms = elapsed_ms;
            self.frame_index = (self.frame_index + 1) % frame_count;
            render = Some(self.frame_index);
        } else {
            self.phase_accumulator_ms = self.phase_accumulator_ms + elapsed_ms;
        }
        let mut tooltip: Option<TooltipUpdate> = None;
        if self.cpu_poll_accumulator_ms >= CPU_POLL_INTERVAL_MS {
            match sample {
                None => {
                    self.cpu_poll_accumulator_ms = 0;
                },
                Some(rd) => {
                    self.cpu_poll_accumulator_ms = elapsed_ms;
                    self.frame_interval_ms = compute_frame_interval(rd.usage_hundredths);
                    if rd.usage_hundredths < IDLE_USAGE_HUNDREDTHS && is_sleep_time(
                        rd.local_hour,
                    ) {
                        self.idle_accumulator_ms = if self.idle_accumulator_ms
                            <= u64::MAX - CPU_POLL_INTERVAL_MS {
                            self.idle_accumulator_ms + CPU_POLL_INTERVAL_MS
                        } else {
                            u64::MAX
                        };
                        if self.idle_accumulator_ms >= IDLE_THRESHOLD_MS && !self.is_sleeping
                            && is_cat {
                            self.is_sleeping = true;
                            self.frame_index = 0;
                        }
                    } else {
                        self.idle_accumulator_ms = 0;
                        if self.is_sleeping {
                            self.is_sleeping = false;
                            self.frame_index = 0;
                        }
                    }
                    tooltip = Some(
                        if self.is_sleeping && is_cat {
                            TooltipUpdate::Sleeping
                        } else {
                            TooltipUpdate::Usage(rd.usage_hundredths)
                        },
                    );
                },
            }
        } else {
            self.cpu_poll_accumulator_ms = self.cpu_poll_accumulator_ms + elapsed_ms;
        }
        TickActions { render_frame: render, tooltip }
    }
}

/// The icon family name to render for a selection, given the sleep state.
pub open spec fn spec_effective_icon_name(is_sleeping: bool, name: Seq<char>) -> Seq<char> {
    if is_sleeping && name == "cat"@ {
        "sleep"@
    } else {
        name
    }
}

/// Idle transition: while the cat is selected, the hour lies in the sleep
/// window and usage stays idle, sleep begins exactly when the accumulated
/// idle time reaches the threshold; entering sleep rewinds the animation,
/// and a poll that finds the engine already asleep rewinds nothing again.
pub proof fn lemma_idle_transition(s: AnimationTimerState, usage: u32, hour: u32)
    requires
        usage < IDLE_USAGE_HUNDREDTHS,
        spec_is_sleep_time(hour as int),
    ensures
        spec_poll(s, usage, hour, true).is_sleeping == (s.is_sleeping || sat_add_u64(
            s.idle_accumulator_ms,
            CPU_POLL_INTERVAL_MS,
        ) >= IDLE_THRESHOLD_MS),
        !s.is_sleeping && spec_poll(s, usage, hour, true).is_sleeping ==> spec_poll(
            s,
            usage,
            hour,
            true,
        ).frame_index == 0,
        s.is_sleeping ==> spec_poll(s, usage, hour, true).frame_index == s.frame_index,
{
}

/// The poll step iterated k times under constant conditions.
pub open spec fn spec_polls(
    s: AnimationTimerState,
    usage: u32,
    hour: u32,
    is_cat: bool,
    k: nat,
) -> AnimationTimerState
    decreases k,
{
    if k == 0 {
        s
    } else {
        spec_poll(spec_polls(s, usage, hour, is_cat, (k - 1) as nat), usage, hour, is_cat)
    }
}

/// Sustained idle: from an awake engine with no idle time banked, k idle
/// polls inside the sleep window bank exactly k seconds of idle time; the
/// engine sleeps from the sixtieth poll on — when the banked time reaches
/// the threshold — and the animation rewinds at that transition alone,
/// never again while sleep lasts.
pub proof fn lemma_sustained_idle(s: AnimationTimerState, usage: u32, hour: u32, k: nat)
    requires
        usage < IDLE_USAGE_HUNDREDTHS,
        spec_is_sleep_time(hour as int),
        !s.is_sleeping,
        s.idle_accumulator_ms == 0,
        k <= 1000000,
    ensures
        spec_polls(s, usage, hour, true, k).is_sleeping <==> k >= 60,
        spec_polls(s, usage, hour, true, k).idle_accumulator_ms == k * 1000,
        k >= 60 ==> spec_polls(s, usage, hour, true, k).frame_index == 0,
        k < 60 ==> spec_polls(s, usage, hour, true, k).frame_index == s.frame_index,
    decreases k,
{
    if k > 0 {
        lemma_sustained_idle(s, usage, hour, (k - 1) as nat);
    }
}

/// Wake transition: a single poll that sees usage at or above the idle
/// bound wakes the engine at once, whatever the hour and the icon, rewinds
/// the animation and clears the idle time.
pub proof fn lemma_wake_transition(s: AnimationTimerState, usage: u32, hour: u32, is_cat: bool)
    requires
        s.is_sleeping,
        usage >= IDLE_USAGE_HUNDREDTHS,
    ensures
        !spec_poll(s, usage, hour, is_cat).is_sleeping,
        spec_poll(s, usage, hour, is_cat).frame_index == 0,
        spec_poll(s, usage, hour, is_cat).idle_accumulator_ms == 0,
{
}

} // verus!
