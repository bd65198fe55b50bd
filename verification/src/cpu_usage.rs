//! CPU usage from raw platform counters.  The platform layer reads the
//! counters — system times on one platform, host tick counts on the other —
//! and the monitors here turn consecutive readings into a normalized usage
//! percentage, kept in hundredths of a percent so that the whole pipeline
//! stays in integers.

use vstd::prelude::*;

verus! {

/// Usage computed from one pair of consecutive readings: the share of the
/// elapsed total that was not idle, in hundredths of a percent, clamped to
/// [0, 10000].  The first reading, and a reading with no elapsed total,
/// count as zero usage.
pub open spec fn spec_cpu_usage(prev: Option<(int, int)>, total: int, idle: int) -> int {
    match prev {
        None => 0,
        Some((prev_total, prev_idle)) => {
            let total_diff = total - prev_total;
            let idle_diff = idle - prev_idle;
            if total_diff <= 0 {
                0
            } else {
                let idle_clamped = if idle_diff < 0 {
                    0
                } else if idle_diff > total_diff {
                    total_diff
                } else {
                    idle_diff
                };
                10000 - (idle_clamped * 10000) / total_diff
            }
        },
    }
}

/// The clamped ratio stays within one whole: 0 <= (a * 10000) / d <= 10000
/// for 0 <= a <= d.
proof fn lemma_ratio_bounds(a: int, d: int)
    requires
        0 < d,
        0 <= a <= d,
    ensures
        0 <= (a * 10000) / d <= 10000,
{
    assert(a * 10000 <= d * 10000) by (nonlinear_arith)
        requires
            0 <= a <= d,
    ;
    vstd::arithmetic::div_mod::lemma_div_is_ordered(a * 10000, d * 10000, d);
    vstd::arithmetic::div_mod::lemma_div_multiples_vanish(10000, d);
    vstd::arithmetic::div_mod::lemma_div_pos_is_pos(a * 10000, d);
    assert(a * 10000 >= 0) by (nonlinear_arith)
        requires
            0 <= a,
    ;
}

/// Monitor over the system-times counters: totals in 100 ns units, split
/// into kernel+user and idle.  Keeps the previous reading; the first call
/// reports zero.
pub struct WindowsCpuMonitor {
    prev: Option<(u128, u128)>,
}

impl WindowsCpuMonitor {
    /// The previous reading, for specification purposes.
    pub closed spec fn prev_view(self) -> Option<(int, int)> {
        match self.prev {
            None => None,
            Some((t, i)) => Some((t as int, i as int)),
        }
    }

    /// A monitor with no reading taken yet.
    pub fn new() -> (r: Self)
        ensures
            r.prev_view() is None,
    {
        WindowsCpuMonitor { prev: None }
    }

    /// Usage between the previous reading and this one.  The caller reads
    /// the raw times and hands their totals in; the deltas, the clamping
    /// and the percentage all happen here.
    pub fn get_cpu_usage(&mut self, kernel_time: u64, user_time: u64, idle_time: u64) -> (r: u32)
        ensures
            r == spec_cpu_usage(
                old(self).prev_view(),
                kernel_time + user_time,
                idle_time as int,
            ),
            r <= 10000,
            final(self).prev_view() == Some((kernel_time + user_time, idle_time as int)),
    {
        let total: u128 = kernel_time as u128 + user_time as u128;
        let idle: u128 = idle_time as u128;
        let usage = compute_usage_u128(&self.prev, total, idle);
        self.prev = Some((total, idle));
        usage
    }
}

/// Monitor over the host tick counters: cumulative user, system, idle and
/// nice ticks.  Keeps the previous totals; the first call reports zero.
pub struct MacosCpuMonitor {
    prev: Option<(u128, u128)>,
}

impl MacosCpuMonitor {
    /// The previous reading, for specification purposes.
    pub closed spec fn prev_view(self) -> Option<(int, int)> {
        match self.prev {
            None => None,
            Some((t, i)) => Some((t as int, i as int)),
        }
    }

    /// A monitor with no reading taken yet.
    pub fn new() -> (r: Self)
        ensures
            r.prev_view() is None,
    {
        MacosCpuMonitor { prev: None }
    }

    /// Usage between the previous tick totals and these.
    pub fn get_cpu_usage(&mut self, user: u32, system: u32, idle: u32, nice: u32) -> (r: u32)
        ensures
            r == spec_cpu_usage(
                old(self).prev_view(),
                user + system + idle + nice,
                idle as int,
            ),
            r <= 10000,
            final(self).prev_view() == Some((user + system + idle + nice, idle as int)),
    {
        let total: u128 = user as u128 + system as u128 + idle as u128 + nice as u128;
        let idle_ticks: u128 = idle as u128;
        let usage = compute_usage_u128(&self.prev, total, idle_ticks);
        self.prev = Some((total, idle_ticks));
        usage
    }
}

/// The shared delta computation over the stored previous reading.  The
/// bound on `total` is generous: both platforms' counters fit well under
/// it, and it keeps the scaled ratio inside the arithmetic.
fn compute_usage_u128(prev: &Option<(u128, u128)>, total: u128, idle: u128) -> (r: u32)
    requires
        total < 0x100000000000000000,
    ensures
        r == spec_cpu_usage(
            match prev {
                None => None,
                Some((t, i)) => Some((*t as int, *i as int)),
            },
            total as int,
            idle as int,
        ),
        r <= 10000,
{
    match prev {
        None => 0,
        Some((prev_total, prev_idle)) => {
            if total > *prev_total {
                let total_diff = total - *prev_total;
                let idle_diff = if idle > *prev_idle {
                    idle - *prev_idle
                } else {
                    0
                };
                let idle_clamped = if idle_diff > total_diff {
                    total_diff
                } else {
                    idle_diff
                };
                proof {
                    lemma_ratio_bounds(idle_clamped as int, total_diff as int);
                    assert(idle_clamped * 10000 <= 0x100000000000000000 * 10000)
                        by (nonlinear_arith)
                        requires
                            0 <= idle_clamped <= 0x100000000000000000,
                    ;
                }
                let ratio = (idle_clamped * 10000) / total_diff;
                10000 - (ratio as u32)
            } else {
                0
            }
        },
    }
}

/// A file time's two halves joined into one 64-bit count of 100 ns units.
pub fn filetime_to_u64(low: u32, high: u32) -> (r: u64)
    ensures
        r == high * 0x100000000 + low,
{
    let l = low as u64;
    let h = high as u64;
    proof {
        assert((h << 32u64) | l == h * 0x100000000 + l) by (bit_vector)
            requires
                h < 0x100000000,
                l < 0x100000000,
        ;
    }
    (h << 32) | l
}

} // verus!
