//! Settings of charts, and the time axis that charts of several
//! instruments share.

use vstd::arithmetic::div_mod::{lemma_fundamental_div_mod, lemma_mod_bound};
use vstd::prelude::*;

verus! {

/// What a price level stands for.
#[derive(Debug, Clone, Copy, PartialEq)]
pub enum LevelType {
    Support,
    Resistance,
    Breakout,
}

/// How a chart follows its data.
#[derive(Debug, Clone, Copy, PartialEq)]
pub enum Autoscale {
    CenterLatest,
    FitToVisible,
    FitToVolume,
    LockToPrice,
    DynamicRange,
}

impl Default for Autoscale {
    fn default() -> (r: Self)
        ensures
            r == Autoscale::CenterLatest,
    {
        Autoscale::CenterLatest
    }
}

/// How the depth of the market is drawn.
#[derive(Debug, Clone, Copy)]
pub struct MarketDepthStudy {
    pub levels: u32,
    pub show_cumulative: bool,
    pub animate_changes: bool,
}

impl Default for MarketDepthStudy {
    fn default() -> (r: Self)
        ensures
            r == (MarketDepthStudy { levels: 10, show_cumulative: true, animate_changes: true }),
    {
        MarketDepthStudy { levels: 10, show_cumulative: true, animate_changes: true }
    }
}

/// How much work drawing may take.
#[derive(Debug, Clone, Copy, PartialEq)]
pub enum RenderQuality {
    Low,
    Medium,
    High,
}

/// The limits within which a chart is kept and drawn.
#[derive(Debug, Clone, Copy)]
pub struct PerformanceConfig {
    pub max_data_points: usize,
    pub render_quality: RenderQuality,
    pub update_frequency: u32,
    pub cache_enabled: bool,
}

impl Default for PerformanceConfig {
    fn default() -> (r: Self)
        ensures
            r == (PerformanceConfig {
                max_data_points: 10000,
                render_quality: RenderQuality::Medium,
                update_frequency: 60,
                cache_enabled: true,
            }),
    {
        PerformanceConfig {
            max_data_points: 10000,
            render_quality: RenderQuality::Medium,
            update_frequency: 60,
            cache_enabled: true,
        }
    }
}

/// How many points of a series are shown; zero shows them all.
#[derive(Copy, Clone, Debug, Eq, PartialEq, Structural)]
pub struct Zoom(pub usize);

impl Default for Zoom {
    fn default() -> (r: Self)
        ensures
            r == Zoom(0),
    {
        Zoom(0)
    }
}

impl Zoom {
    /// Shows all data.
    pub fn all() -> (r: Self)
        ensures
            r == Zoom(0),
    {
        Zoom(0)
    }

    /// Shows the last `n` points.
    pub fn points(n: usize) -> (r: Self)
        ensures
            r == Zoom(n),
    {
        Zoom(n)
    }

    /// Whether all data is shown.
    pub fn is_all(self) -> (r: bool)
        ensures
            r == (self.0 == 0),
    {
        self.0 == 0
    }
}

/// The steps between the ticks of a time axis that are tried, from the
/// finest to the coarsest, in milliseconds.
pub open spec fn tick_candidates() -> Seq<u64> {
    seq![
        1_000u64,
        2_000u64,
        5_000u64,
        10_000u64,
        15_000u64,
        30_000u64,
        60_000u64,
        120_000u64,
        300_000u64,
        600_000u64,
        900_000u64,
        1_800_000u64,
        3_600_000u64,
        7_200_000u64,
        14_400_000u64,
        21_600_000u64,
        43_200_000u64,
        86_400_000u64,
        172_800_000u64,
        604_800_000u64,
        1_209_600_000u64,
        2_592_000_000u64,
        7_776_000_000u64,
        15_552_000_000u64,
        31_536_000_000u64,
    ]
}

/// The steps between the ticks of a time axis that are tried, from the
/// finest to the coarsest, in milliseconds.
pub fn time_tick_candidates() -> (r: Vec<u64>)
    ensures
        r@ == tick_candidates(),
        forall|i: int, j: int| 0 <= i < j < r@.len() ==> r@[i] < r@[j],
{
    let r: Vec<u64> = vec![
        1_000u64,
        2_000u64,
        5_000u64,
        10_000u64,
        15_000u64,
        30_000u64,
        60_000u64,
        120_000u64,
        300_000u64,
        600_000u64,
        900_000u64,
        1_800_000u64,
        3_600_000u64,
        7_200_000u64,
        14_400_000u64,
        21_600_000u64,
        43_200_000u64,
        86_400_000u64,
        172_800_000u64,
        604_800_000u64,
        1_209_600_000u64,
        2_592_000_000u64,
        7_776_000_000u64,
        15_552_000_000u64,
        31_536_000_000u64,
    ];
    assert(r@ =~= tick_candidates());
    r
}

/// The last multiple of `dt` at or before `ts`; `ts` itself where `dt` is
/// zero.
pub open spec fn floor_to(ts: u64, dt: u64) -> u64 {
    if dt == 0 {
        ts
    } else {
        (ts - ts % dt) as u64
    }
}

/// The first multiple of `dt` at or after `ts`, or the largest `u64` where
/// that multiple lies beyond it; `ts` itself where `dt` is zero.
pub open spec fn ceil_to(ts: u64, dt: u64) -> u64 {
    if dt == 0 || ts % dt == 0 {
        ts
    } else if ts - ts % dt + dt > u64::MAX {
        u64::MAX
    } else {
        (ts - ts % dt + dt) as u64
    }
}

/// Aligns a time down to a step.
pub fn align_floor(ts: u64, dt: u64) -> (r: u64)
    ensures
        r == floor_to(ts, dt),
        r <= ts,
        dt > 0 ==> r % dt == 0 && ts - r == ts % dt,
{
    if dt == 0 {
        return ts;
    }
    proof {
        lemma_fundamental_div_mod(ts as int, dt as int);
        lemma_mod_bound(ts as int, dt as int);
        assert((ts / dt) * dt == dt * (ts / dt)) by (nonlinear_arith);
        vstd::arithmetic::div_mod::lemma_mod_multiples_basic((ts / dt) as int, dt as int);
    }
    (ts / dt) * dt
}

/// Aligns a time up to a step.
pub fn align_ceil(ts: u64, dt: u64) -> (r: u64)
    ensures
        r == ceil_to(ts, dt),
        r >= ts,
{
    if dt == 0 {
        return ts;
    }
    let f: u64 = align_floor(ts, dt);
    proof {
        lemma_mod_bound(ts as int, dt as int);
        assert(f == ts - ts % dt);
        assert((f == ts) == (ts % dt == 0));
    }
    if f == ts {
        ts
    } else {
        match f.checked_add(dt) {
            Some(up) => up,
            None => u64::MAX,
        }
    }
}

/// A time that is aligned stays where it is, whichever way it is aligned
/// again.
pub proof fn lemma_align_idempotent(ts: u64, dt: u64)
    ensures
        floor_to(floor_to(ts, dt), dt) == floor_to(ts, dt),
        ceil_to(floor_to(ts, dt), dt) == floor_to(ts, dt),
{
    if dt > 0 {
        lemma_fundamental_div_mod(ts as int, dt as int);
        lemma_mod_bound(ts as int, dt as int);
        let f = (ts - ts % dt) as int;
        assert(f == dt * (ts / dt));
        assert(f == (ts / dt) * dt) by (nonlinear_arith)
            requires
                f == dt * (ts / dt),
        ;
        vstd::arithmetic::div_mod::lemma_mod_multiples_basic((ts / dt) as int, dt as int);
    }
}

} // verus!
