//! The commit pass: clamps every controller's values to its limits and plans
//! the hardware writes that apply them, in the fixed order general, battery,
//! CPU, GPU. The host performs the writes in order and reports failures per
//! subsystem; one failure does not stop the writes of another subsystem.
use vstd::prelude::*;
use crate::cpu::{Cpu, Cpus, MinMax};
use crate::fpl::{st_manual, st_request, st_target, Component, ForcePerformanceLevel, LevelState, PerformanceLevel};
use crate::limits::{spec_range_max_or, spec_range_min_or, range_max_or_fallback, range_min_or_fallback};
use crate::cpu::CpuState;
use crate::settings::{memory_clock_maxed, Battery, Gpu, GpuState, Settings};

verus! {

/// Lowest maximum CPU clock allowed where the limits do not say, MHz.
pub const CPU_MIN_MAX_CLOCK: u64 = 200;
/// Lowest minimum CPU clock allowed where the limits do not say, MHz.
pub const CPU_MIN_MIN_CLOCK: u64 = 1400;
/// Highest CPU clock where the limits do not say, MHz.
pub const CPU_MAX_CLOCK: u64 = 3500;
/// GPU clock range where the limits do not say, MHz.
pub const GPU_MIN_CLOCK: u64 = 200;
pub const GPU_MAX_CLOCK: u64 = 1600;
/// GPU memory clock range where the limits do not say, MHz.
pub const GPU_MIN_MEMORY_CLOCK: u64 = 400;
pub const GPU_MAX_MEMORY_CLOCK: u64 = 800;
/// Power limit ranges where the limits do not say, in the hardware's unit.
pub const MIN_FAST_PPT: u64 = 1_000_000;
pub const MAX_FAST_PPT: u64 = 30_000_000;
pub const MIN_SLOW_PPT: u64 = 1_000_000;
pub const MAX_SLOW_PPT: u64 = 29_000_000;
/// Power limit written when a forced one is cleared and the limits give no default.
pub const MIDDLE_PPT: u64 = 15_000_000;
/// Hardware power units per watt where the limits do not say.
pub const PPT_DIVISOR: u64 = 1_000_000;

/// Which bound of a clock range a write sets.
#[derive(Clone, Copy, Debug, PartialEq, Eq, Structural)]
pub enum ClockBound {
    Min,
    Max,
}

/// One write to the hardware control surface.
#[derive(Debug)]
pub enum HwWrite {
    Smt(bool),
    CpuOnline { index: usize, online: bool },
    CpuGovernor { index: usize, governor: String },
    CpuClock { index: usize, bound: ClockBound, mhz: u64 },
    CpuClockConfirm { index: usize },
    CpuClockReset { index: usize },
    ForceLevel(PerformanceLevel),
    GpuFastPpt(u64),
    GpuSlowPpt(u64),
    GpuClock { bound: ClockBound, mhz: u64 },
    GpuClockConfirm,
    /// The memory clock to allow, and whether that is the highest setting.
    GpuMemoryClock { mhz: u64, maxed: bool },
    ChargeRate(u64),
    ChargeMode(String),
    ChargeLimit(u64),
}

/// `v` brought into `[lo, hi]`.
pub open spec fn clamp(v: u64, lo: u64, hi: u64) -> u64 {
    if v < lo {
        lo
    } else if v > hi {
        hi
    } else {
        v
    }
}

pub fn clamp_u64(v: u64, lo: u64, hi: u64) -> (r: u64)
    ensures
        r == clamp(v, lo, hi),
{
    if v < lo {
        lo
    } else if v > hi {
        hi
    } else {
        v
    }
}

pub open spec fn clamp_opt(v: Option<u64>, lo: u64, hi: u64) -> Option<u64> {
    match v {
        Some(x) => Some(clamp(x, lo, hi)),
        None => None,
    }
}

/// Clock bounds of a CPU clamped to what its limits allow.
pub open spec fn cpu_clamped(c: Cpu) -> Option<MinMax<u64>> {
    match c.clock_limits {
        Some(m) => Some(
            MinMax {
                min: clamp_opt(
                    m.min,
                    spec_range_min_or(c.limits.clock_max, CPU_MIN_MAX_CLOCK),
                    spec_range_max_or(c.limits.clock_min, CPU_MAX_CLOCK),
                ),
                max: clamp_opt(
                    m.max,
                    spec_range_min_or(c.limits.clock_max, CPU_MIN_MAX_CLOCK),
                    spec_range_max_or(c.limits.clock_max, CPU_MAX_CLOCK),
                ),
            },
        ),
        None => None,
    }
}

fn clamp_opt_u64(v: Option<u64>, lo: u64, hi: u64) -> (r: Option<u64>)
    ensures
        r == clamp_opt(v, lo, hi),
{
    match v {
        Some(x) => Some(clamp_u64(x, lo, hi)),
        None => None,
    }
}

/// The level write owed by the coordinator, and its state after it.
pub open spec fn st_level(v: LevelState, force: bool) -> (Seq<HwWrite>, LevelState) {
    let t = st_target(v);
    (if force || v.2 != Some(t) {
        seq![HwWrite::ForceLevel(t)]
    } else {
        Seq::empty()
    }, (v.0, v.1, Some(t)))
}

/// One write where a value is present, none where it is absent.
pub open spec fn opt_write(w: Option<HwWrite>) -> Seq<HwWrite> {
    match w {
        Some(x) => seq![x],
        None => Seq::empty(),
    }
}

/// The platform lets this CPU's clocks be set.
pub open spec fn cpu_controllable(c: Cpu) -> bool {
    c.limits.clock_min is Some || c.limits.clock_max is Some
}

/// The clock writes of one CPU (with clamped bounds), the coordinator's state
/// after them, and whether bounds are then forced. Bounds set: manual mode,
/// the maximum, the minimum raised to the floor. Bounds cleared where a
/// reset is owed: manual mode released, the default bounds while another
/// controller keeps manual mode, then (not while resuming) the defaults
/// forced, confirmed, reset and confirmed in manual mode.
pub open spec fn cpu_clock_plan(c: Cpu, v: LevelState, force: bool) -> (Seq<HwWrite>, LevelState, bool) {
    let i = c.index;
    let dmax = spec_range_max_or(c.limits.clock_max, CPU_MAX_CLOCK);
    let dmin = spec_range_min_or(c.limits.clock_min, CPU_MIN_MIN_CLOCK);
    match c.clock_limits {
        Some(m) => {
            let l = st_level(st_request(v, Component::Cpu(i), true), force);
            let maxw = match m.max {
                Some(x) => seq![HwWrite::CpuClock { index: i, bound: ClockBound::Max, mhz: x }],
                None => Seq::empty(),
            };
            let minw = match m.min {
                Some(x) => seq![
                    HwWrite::CpuClock { index: i, bound: ClockBound::Min, mhz: if x < dmin { dmin } else { x } },
                ],
                None => Seq::empty(),
            };
            (l.0 + maxw + minw, l.1, true)
        },
        None => if c.state.clock_limits_set || (c.state.is_resuming && !c.limits.skip_resume_reclock)
            || st_manual(v) {
            let l = st_level(st_request(v, Component::Cpu(i), false), force);
            let d = if st_manual(l.1) {
                seq![
                    HwWrite::CpuClock { index: i, bound: ClockBound::Max, mhz: dmax },
                    HwWrite::CpuClock { index: i, bound: ClockBound::Min, mhz: dmin },
                ]
            } else {
                Seq::empty()
            };
            if !c.state.is_resuming {
                let l2 = st_level(st_request(l.1, Component::Cpu(i), true), force);
                (l.0 + d + l2.0 + seq![
                    HwWrite::CpuClock { index: i, bound: ClockBound::Max, mhz: dmax },
                    HwWrite::CpuClock { index: i, bound: ClockBound::Min, mhz: dmin },
                    HwWrite::CpuClockConfirm { index: i },
                    HwWrite::CpuClockReset { index: i },
                    HwWrite::CpuClockConfirm { index: i },
                ], st_request(l2.1, Component::Cpu(i), false), false)
            } else {
                (l.0 + d, l.1, false)
            }
        } else {
            (Seq::empty(), v, c.state.clock_limits_set)
        },
    }
}

/// A CPU with its bounds clamped.
pub open spec fn cpu_with_clamped(c: Cpu) -> Cpu {
    Cpu { clock_limits: cpu_clamped(c), ..c }
}

/// All writes of one CPU: its online flag (never CPU 0, only where owed), its
/// clocks where the platform controls them (with a confirm while manual mode
/// holds), its governor where it is online (CPU 0 always is).
pub open spec fn cpu_plan(c: Cpu, v: LevelState, force: bool) -> (Seq<HwWrite>, LevelState) {
    let online = if c.index != 0 && c.state.do_set_online {
        seq![HwWrite::CpuOnline { index: c.index, online: c.online }]
    } else {
        Seq::empty()
    };
    let gov = if c.index == 0 || c.online {
        seq![HwWrite::CpuGovernor { index: c.index, governor: c.governor }]
    } else {
        Seq::empty()
    };
    if cpu_controllable(c) {
        let p = cpu_clock_plan(cpu_with_clamped(c), v, force);
        let conf = if st_manual(p.1) {
            seq![HwWrite::CpuClockConfirm { index: c.index }]
        } else {
            Seq::empty()
        };
        (online + p.0 + conf + gov, p.1)
    } else {
        (online + gov, v)
    }
}

/// CPU `i` as the commit pass sees it: its online flag owed while SMT is on
/// or the CPU is even, and resuming where `resume` is set.
pub open spec fn cpu_for_commit(c: Cpu, smt: bool, i: int, resume: bool) -> Cpu {
    Cpu {
        state: CpuState {
            do_set_online: smt || i % 2 == 0,
            is_resuming: c.state.is_resuming || resume,
            ..c.state
        },
        ..c
    }
}

/// The writes of CPUs `i..` in order, and the coordinator's state after them.
pub open spec fn cpus_plan_from(cpus: Seq<Cpu>, smt: bool, i: int, v: LevelState, force: bool, resume: bool) -> (
    Seq<HwWrite>,
    LevelState,
)
    decreases cpus.len() - i,
{
    if i < 0 || i >= cpus.len() {
        (Seq::empty(), v)
    } else {
        let p = cpu_plan(cpu_for_commit(cpus[i], smt, i, resume), v, force);
        let rest = cpus_plan_from(cpus, smt, i + 1, p.1, force, resume);
        (p.0 + rest.0, rest.1)
    }
}

proof fn lemma_cpus_plan_same(
    a: Seq<Cpu>,
    b: Seq<Cpu>,
    smt: bool,
    i: int,
    v: LevelState,
    force: bool,
    ra: bool,
    rb: bool,
)
    requires
        a.len() == b.len(),
        forall|k: int| 0 <= k < a.len() ==> cpu_for_commit(a[k], smt, k, ra) == cpu_for_commit(b[k], smt, k, rb),
    ensures
        cpus_plan_from(a, smt, i, v, force, ra) == cpus_plan_from(b, smt, i, v, force, rb),
    decreases a.len() - i,
{
    if 0 <= i < a.len() {
        let p = cpu_plan(cpu_for_commit(a[i], smt, i, ra), v, force);
        lemma_cpus_plan_same(a, b, smt, i + 1, p.1, force, ra, rb);
    }
}

impl Cpu {
    pub fn clamp_all(&mut self)
        ensures
            *final(self) == cpu_with_clamped(*old(self)),
    {
        if let Some(c) = self.clock_limits {
            let lo = range_min_or_fallback(&self.limits.clock_max, CPU_MIN_MAX_CLOCK);
            let min_hi = range_max_or_fallback(&self.limits.clock_min, CPU_MAX_CLOCK);
            let max_hi = range_max_or_fallback(&self.limits.clock_max, CPU_MAX_CLOCK);
            self.clock_limits = Some(
                MinMax { min: clamp_opt_u64(c.min, lo, min_hi), max: clamp_opt_u64(c.max, lo, max_hi) },
            );
        }
    }

    /// Plans the writes of this CPU's clock bounds (see [`cpu_clock_plan`]).
    #[verifier::rlimit(100)]
    pub fn plan_clocks(&mut self, fpl: &mut ForcePerformanceLevel, force: bool, out: &mut Vec<HwWrite>)
        ensures
            final(out)@ == old(out)@ + cpu_clock_plan(*old(self), old(fpl).state(), force).0,
            final(fpl).state() == cpu_clock_plan(*old(self), old(fpl).state(), force).1,
            *final(self) == (Cpu {
                state: CpuState {
                    clock_limits_set: cpu_clock_plan(*old(self), old(fpl).state(), force).2,
                    ..old(self).state
                },
                ..*old(self)
            }),
    {
        let index = self.index;
        let ghost start = out@;
        let ghost v0 = fpl.state();
        proof {
            fpl.lemma_state_manual();
        }
        match self.clock_limits {
            Some(c) => {
                fpl.request(Component::Cpu(index), true);
                push_level(fpl, force, out);
                self.state.clock_limits_set = true;
                let ghost a = out@;
                if let Some(max) = c.max {
                    out.push(HwWrite::CpuClock { index, bound: ClockBound::Max, mhz: max });
                }
                let ghost b = out@;
                if let Some(min) = c.min {
                    let floor = range_min_or_fallback(&self.limits.clock_min, CPU_MIN_MIN_CLOCK);
                    let valid_min = if min < floor {
                        floor
                    } else {
                        min
                    };
                    out.push(HwWrite::CpuClock { index, bound: ClockBound::Min, mhz: valid_min });
                }
                assert(out@ =~= start + cpu_clock_plan(*old(self), v0, force).0);
            },
            None => {
                let owed = self.state.clock_limits_set || (self.state.is_resuming
                    && !self.limits.skip_resume_reclock) || fpl.needs_manual();
                if owed {
                    self.state.clock_limits_set = false;
                    fpl.request(Component::Cpu(index), false);
                    push_level(fpl, force, out);
                    let ghost l1 = fpl.state();
                    let ghost a = out@;
                    proof {
                        fpl.lemma_state_manual();
                    }
                    let max = range_max_or_fallback(&self.limits.clock_max, CPU_MAX_CLOCK);
                    let min = range_min_or_fallback(&self.limits.clock_min, CPU_MIN_MIN_CLOCK);
                    if fpl.needs_manual() {
                        out.push(HwWrite::CpuClock { index, bound: ClockBound::Max, mhz: max });
                        out.push(HwWrite::CpuClock { index, bound: ClockBound::Min, mhz: min });
                    }
                    let ghost b = out@;
                    if !self.state.is_resuming {
                        fpl.request(Component::Cpu(index), true);
                        push_level(fpl, force, out);
                        out.push(HwWrite::CpuClock { index, bound: ClockBound::Max, mhz: max });
                        out.push(HwWrite::CpuClock { index, bound: ClockBound::Min, mhz: min });
                        out.push(HwWrite::CpuClockConfirm { index });
                        out.push(HwWrite::CpuClockReset { index });
                        out.push(HwWrite::CpuClockConfirm { index });
                        fpl.request(Component::Cpu(index), false);
                    }
                    assert(out@ =~= start + cpu_clock_plan(*old(self), v0, force).0);
                }
            },
        }
    }

    /// Clamps the clock bounds and plans this CPU's writes (see [`cpu_plan`]).
    #[verifier::rlimit(100)]
    pub fn on_set(&mut self, fpl: &mut ForcePerformanceLevel, force: bool, out: &mut Vec<HwWrite>)
        ensures
            final(out)@ == old(out)@ + cpu_plan(*old(self), old(fpl).state(), force).0,
            final(fpl).state() == cpu_plan(*old(self), old(fpl).state(), force).1,
            final(self).clock_limits == cpu_clamped(*old(self)),
            final(self).online == old(self).online,
            final(self).governor == old(self).governor,
            final(self).index == old(self).index,
            final(self).limits == old(self).limits,
            final(self).state.is_resuming == old(self).state.is_resuming,
            final(self).state.do_set_online == old(self).state.do_set_online,
    {
        let ghost start = out@;
        let ghost v0 = fpl.state();
        self.clamp_all();
        let index = self.index;
        if index != 0 && self.state.do_set_online {
            out.push(HwWrite::CpuOnline { index, online: self.online });
        }
        let ghost a = out@;
        if self.limits.clock_min.is_some() || self.limits.clock_max.is_some() {
            self.plan_clocks(fpl, force, out);
            proof {
                fpl.lemma_state_manual();
            }
            if fpl.needs_manual() {
                out.push(HwWrite::CpuClockConfirm { index });
            }
        }
        let ghost b = out@;
        if index == 0 || self.online {
            out.push(HwWrite::CpuGovernor { index, governor: self.governor.clone() });
        }
        assert(out@ =~= start + cpu_plan(*old(self), v0, force).0);
    }
}

/// Writes the coordinator's level where one is owed, and records it as written.
fn push_level(fpl: &mut ForcePerformanceLevel, force: bool, out: &mut Vec<HwWrite>)
    ensures
        final(out)@ == old(out)@ + st_level(old(fpl).state(), force).0,
        final(fpl).state() == st_level(old(fpl).state(), force).1,
        final(fpl).cpu@ == old(fpl).cpu@,
        final(fpl).gpu == old(fpl).gpu,
{
    proof {
        fpl.lemma_state_manual();
    }
    let ghost start = out@;
    match fpl.enforce(force) {
        Some(level) => {
            out.push(HwWrite::ForceLevel(level));
            fpl.record_write(level, true);
        },
        None => {},
    }
    assert(fpl.state().0 =~= old(fpl).state().0);
    assert(out@ =~= start + st_level(old(fpl).state(), force).0);
}

impl Cpus {
    /// Plans the writes of every CPU: the SMT switch first where the kernel
    /// offers one, then each CPU in order (see [`cpus_plan_from`]).
    pub fn on_set(&mut self, fpl: &mut ForcePerformanceLevel, force: bool, out: &mut Vec<HwWrite>)
        ensures
            final(out)@ == old(out)@ + (if old(self).smt_capable {
                seq![HwWrite::Smt(old(self).smt)]
            } else {
                Seq::empty()
            }) + cpus_plan_from(old(self).cpus@, old(self).smt, 0, old(fpl).state(), force, false).0,
            final(fpl).state() == cpus_plan_from(
                old(self).cpus@,
                old(self).smt,
                0,
                old(fpl).state(),
                force,
                false,
            ).1,
            final(self).cpus@.len() == old(self).cpus@.len(),
            final(self).smt == old(self).smt,
            final(self).smt_capable == old(self).smt_capable,
            final(self).online_view() == old(self).online_view(),
            forall|i: int|
                0 <= i < old(self).cpus@.len() ==> (#[trigger] final(self).cpus@[i]).clock_limits
                    == cpu_clamped(old(self).cpus@[i]) && final(self).cpus@[i].governor
                    == old(self).cpus@[i].governor,
    {
        let ghost start = out@;
        let ghost whole = cpus_plan_from(self.cpus@, self.smt, 0, fpl.state(), force, false);
        if self.smt_capable {
            out.push(HwWrite::Smt(self.smt));
        }
        let ghost after_smt = out@;
        let n = self.cpus.len();
        let mut i: usize = 0;
        while i < n
            invariant
                n == self.cpus@.len(),
                n == old(self).cpus@.len(),
                i <= n,
                self.smt == old(self).smt,
                self.smt_capable == old(self).smt_capable,
                whole == cpus_plan_from(old(self).cpus@, old(self).smt, 0, old(fpl).state(), force, false),
                after_smt + whole.0 == out@ + cpus_plan_from(
                    old(self).cpus@,
                    old(self).smt,
                    i as int,
                    fpl.state(),
                    force,
                    false,
                ).0,
                whole.1 == cpus_plan_from(old(self).cpus@, old(self).smt, i as int, fpl.state(), force, false).1,
                forall|k: int|
                    0 <= k < n ==> (#[trigger] self.cpus@[k]).online == old(self).cpus@[k].online
                        && self.cpus@[k].governor == old(self).cpus@[k].governor
                        && self.cpus@[k].clock_limits == (if k < i {
                        cpu_clamped(old(self).cpus@[k])
                    } else {
                        old(self).cpus@[k].clock_limits
                    }) && (k >= i ==> self.cpus@[k] == old(self).cpus@[k]),
            decreases n - i,
        {
            let ghost o = out@;
            let ghost v = fpl.state();
            let do_set = self.smt || i % 2 == 0;
            self.cpus[i].state.do_set_online = do_set;
            assert(self.cpus@[i as int] == cpu_for_commit(old(self).cpus@[i as int], self.smt, i as int, false));
            self.cpus[i].on_set(fpl, force, out);
            proof {
                let p = cpu_plan(cpu_for_commit(old(self).cpus@[i as int], old(self).smt, i as int, false), v, force);
                let rest = cpus_plan_from(old(self).cpus@, old(self).smt, i + 1, p.1, force, false);
                assert(cpus_plan_from(old(self).cpus@, old(self).smt, i as int, v, force, false).0 == p.0 + rest.0);
                assert(o + (p.0 + rest.0) =~= (o + p.0) + rest.0);
            }
            i = i + 1;
        }
        assert(out@ + cpus_plan_from(old(self).cpus@, old(self).smt, n as int, fpl.state(), force, false).0 =~= out@);
        assert(self.online_view() =~= old(self).online_view());
        assert(out@ =~= start + (if old(self).smt_capable {
            seq![HwWrite::Smt(old(self).smt)]
        } else {
            Seq::empty()
        }) + whole.0);
    }

    /// Marks every CPU as replaying (or no longer replaying) after a wake from sleep.
    pub fn set_resuming(&mut self, resuming: bool)
        ensures
            final(self).cpus@.len() == old(self).cpus@.len(),
            final(self).smt == old(self).smt,
            final(self).smt_capable == old(self).smt_capable,
            final(self).global_governors == old(self).global_governors,
            final(self).provider == old(self).provider,
            forall|k: int|
                0 <= k < old(self).cpus@.len() ==> #[trigger] final(self).cpus@[k] == (Cpu {
                    state: CpuState { is_resuming: resuming, ..old(self).cpus@[k].state },
                    ..old(self).cpus@[k]
                }),
    {
        let n = self.cpus.len();
        let mut i: usize = 0;
        while i < n
            invariant
                n == self.cpus@.len(),
                n == old(self).cpus@.len(),
                i <= n,
                self.smt == old(self).smt,
                self.smt_capable == old(self).smt_capable,
                self.global_governors == old(self).global_governors,
                self.provider == old(self).provider,
                forall|k: int|
                    0 <= k < n ==> #[trigger] self.cpus@[k] == (if k < i {
                        Cpu {
                            state: CpuState { is_resuming: resuming, ..old(self).cpus@[k].state },
                            ..old(self).cpus@[k]
                        }
                    } else {
                        old(self).cpus@[k]
                    }),
            decreases n - i,
        {
            self.cpus[i].state.is_resuming = resuming;
            i = i + 1;
        }
    }
}

/// Hardware power units per watt of the GPU's limits.
pub open spec fn ppt_divisor(g: Gpu) -> u64 {
    match g.limits.ppt_divisor {
        Some(d) => if d == 0 { 1 } else { d },
        None => PPT_DIVISOR,
    }
}

/// A power limit in watts converted to the hardware's unit and clamped; a
/// product past the largest number counts as the largest number.
pub open spec fn ppt_raw(watts: u64, div: u64, lo: u64, hi: u64) -> u64 {
    let product = watts * div;
    clamp(if product > u64::MAX { u64::MAX } else { product as u64 }, lo, hi)
}

fn ppt_to_raw(watts: u64, div: u64, lo: u64, hi: u64) -> (r: u64)
    ensures
        r == ppt_raw(watts, div, lo, hi),
{
    let product = match watts.checked_mul(div) {
        Some(p) => p,
        None => u64::MAX,
    };
    clamp_u64(product, lo, hi)
}

/// What the commit pass does with one power limit: the value kept (in watts),
/// whether a limit is then forced, and the raw value to write, if any. Where
/// the platform gives no such limit, nothing is kept or written.
pub open spec fn ppt_plan(
    controllable: bool,
    value: Option<u64>,
    forced: bool,
    div: u64,
    lo: u64,
    hi: u64,
    default: Option<u64>,
) -> (Option<u64>, bool, Option<u64>) {
    if !controllable {
        (None, false, None)
    } else {
        match value {
            Some(w) => {
                let raw = ppt_raw(w, div, lo, hi);
                (Some((raw / div) as u64), true, Some(raw))
            },
            None => if forced {
                (None, false, Some(
                    match default {
                        Some(d) => d,
                        None => MIDDLE_PPT,
                    },
                ))
            } else {
                (None, false, None)
            },
        }
    }
}

fn plan_ppt(
    controllable: bool,
    value: Option<u64>,
    forced: bool,
    div: u64,
    lo: u64,
    hi: u64,
    default: Option<u64>,
) -> (r: (Option<u64>, bool, Option<u64>))
    requires
        div > 0,
    ensures
        r == ppt_plan(controllable, value, forced, div, lo, hi, default),
{
    if !controllable {
        return (None, false, None);
    }
    match value {
        Some(w) => {
            let raw = ppt_to_raw(w, div, lo, hi);
            (Some(raw / div), true, Some(raw))
        },
        None => if forced {
            (None, false, Some(
                match default {
                    Some(d) => d,
                    None => MIDDLE_PPT,
                },
            ))
        } else {
            (None, false, None)
        },
    }
}

/// The memory clock writes: where the platform controls it, manual mode
/// asked for below the highest setting (or while clock bounds are set), then
/// the clamped clock (or the highest allowed) with whether it is the highest.
/// Also gives the coordinator's state and the memory clock kept.
pub open spec fn gpu_mem_plan(g: Gpu, v: LevelState, force: bool) -> (Seq<HwWrite>, LevelState, Option<u64>) {
    if g.limits.memory_clock is Some {
        let lo = spec_range_min_or(g.limits.memory_clock, GPU_MIN_MEMORY_CLOCK);
        let hi = spec_range_max_or(g.limits.memory_clock, GPU_MAX_MEMORY_CLOCK);
        let mc = clamp_opt(g.memory_clock, lo, hi);
        let mhz = match mc {
            Some(m) => m,
            None => hi,
        };
        let maxed = memory_clock_maxed(Gpu { memory_clock: mc, ..g });
        let l = st_level(st_request(v, Component::Gpu, !maxed || g.clock_limits is Some), force);
        (l.0 + seq![HwWrite::GpuMemoryClock { mhz, maxed }], l.1, mc)
    } else {
        (Seq::empty(), v, g.memory_clock)
    }
}

/// The GPU clock writes where the platform controls them: bounds set (clamped
/// to the limits) in manual mode and confirmed; bounds cleared where a reset
/// is owed: manual mode released, and the default bounds while another
/// controller keeps manual mode. Also gives the coordinator's state, the
/// bounds kept and whether bounds are then forced.
pub open spec fn gpu_clock_plan(g: Gpu, v: LevelState, force: bool) -> (
    Seq<HwWrite>,
    LevelState,
    Option<MinMax<u64>>,
    bool,
) {
    if !(g.limits.clock_min is Some || g.limits.clock_max is Some) {
        (Seq::empty(), v, g.clock_limits, g.state.clock_limits_set)
    } else {
        match g.clock_limits {
            Some(c) => {
                let min = clamp_opt(
                    c.min,
                    spec_range_min_or(g.limits.clock_min, GPU_MIN_CLOCK),
                    spec_range_max_or(g.limits.clock_min, GPU_MAX_CLOCK),
                );
                let max = clamp_opt(
                    c.max,
                    spec_range_min_or(g.limits.clock_max, GPU_MIN_CLOCK),
                    spec_range_max_or(g.limits.clock_max, GPU_MAX_CLOCK),
                );
                let l = st_level(st_request(v, Component::Gpu, true), force);
                let maxw = match max {
                    Some(m) => seq![HwWrite::GpuClock { bound: ClockBound::Max, mhz: m }],
                    None => Seq::empty(),
                };
                let minw = match min {
                    Some(m) => seq![HwWrite::GpuClock { bound: ClockBound::Min, mhz: m }],
                    None => Seq::empty(),
                };
                (l.0 + maxw + minw + seq![HwWrite::GpuClockConfirm], l.1, Some(MinMax { min, max }), true)
            },
            None => if g.state.clock_limits_set || (g.state.is_resuming && !g.limits.skip_resume_reclock)
                || st_manual(v) {
                let l = st_level(st_request(v, Component::Gpu, false), force);
                let d = if st_manual(l.1) {
                    seq![
                        HwWrite::GpuClock {
                            bound: ClockBound::Max,
                            mhz: spec_range_max_or(g.limits.clock_max, GPU_MAX_CLOCK),
                        },
                        HwWrite::GpuClock {
                            bound: ClockBound::Min,
                            mhz: spec_range_min_or(g.limits.clock_min, GPU_MIN_CLOCK),
                        },
                        HwWrite::GpuClockConfirm,
                    ]
                } else {
                    Seq::empty()
                };
                (l.0 + d, l.1, None, false)
            } else {
                (Seq::empty(), v, None, g.state.clock_limits_set)
            },
        }
    }
}

/// All writes of the GPU: power limits, memory clock, clock bounds.
pub open spec fn gpu_plan(g: Gpu, v: LevelState, force: bool) -> (Seq<HwWrite>, LevelState) {
    let ppts = opt_write(
        match g.spec_fast_plan().2 {
            Some(raw) => Some(HwWrite::GpuFastPpt(raw)),
            None => None,
        },
    ) + opt_write(
        match g.spec_slow_plan().2 {
            Some(raw) => Some(HwWrite::GpuSlowPpt(raw)),
            None => None,
        },
    );
    let m = gpu_mem_plan(g, v, force);
    let c = gpu_clock_plan(g, m.1, force);
    (ppts + m.0 + c.0, c.1)
}

impl Gpu {
    pub open spec fn spec_fast_plan(self) -> (Option<u64>, bool, Option<u64>) {
        ppt_plan(
            self.limits.fast_ppt is Some,
            self.fast_ppt,
            self.state.fast_ppt_set,
            ppt_divisor(self),
            spec_range_min_or(self.limits.fast_ppt, MIN_FAST_PPT),
            spec_range_max_or(self.limits.fast_ppt, MAX_FAST_PPT),
            self.limits.fast_ppt_default,
        )
    }

    pub open spec fn spec_slow_plan(self) -> (Option<u64>, bool, Option<u64>) {
        ppt_plan(
            self.limits.slow_ppt is Some,
            self.slow_ppt,
            self.state.slow_ppt_set,
            ppt_divisor(self),
            spec_range_min_or(self.limits.slow_ppt, MIN_SLOW_PPT),
            spec_range_max_or(self.limits.slow_ppt, MAX_SLOW_PPT),
            self.limits.slow_ppt_default,
        )
    }

    fn divisor(&self) -> (r: u64)
        ensures
            r == ppt_divisor(*self),
            r > 0,
    {
        match self.limits.ppt_divisor {
            Some(d) => if d == 0 {
                1
            } else {
                d
            },
            None => PPT_DIVISOR,
        }
    }

    /// Plans both power limits (see [`ppt_plan`]).
    pub fn plan_ppts(&mut self, out: &mut Vec<HwWrite>)
        ensures
            final(out)@ == old(out)@ + opt_write(
                match old(self).spec_fast_plan().2 {
                    Some(raw) => Some(HwWrite::GpuFastPpt(raw)),
                    None => None,
                },
            ) + opt_write(
                match old(self).spec_slow_plan().2 {
                    Some(raw) => Some(HwWrite::GpuSlowPpt(raw)),
                    None => None,
                },
            ),
            *final(self) == (Gpu {
                fast_ppt: old(self).spec_fast_plan().0,
                slow_ppt: old(self).spec_slow_plan().0,
                state: GpuState {
                    fast_ppt_set: old(self).spec_fast_plan().1,
                    slow_ppt_set: old(self).spec_slow_plan().1,
                    ..old(self).state
                },
                ..*old(self)
            }),
    {
        let ghost start = out@;
        let div = self.divisor();
        let fast = plan_ppt(
            self.limits.fast_ppt.is_some(),
            self.fast_ppt,
            self.state.fast_ppt_set,
            div,
            range_min_or_fallback(&self.limits.fast_ppt, MIN_FAST_PPT),
            range_max_or_fallback(&self.limits.fast_ppt, MAX_FAST_PPT),
            self.limits.fast_ppt_default,
        );
        let slow = plan_ppt(
            self.limits.slow_ppt.is_some(),
            self.slow_ppt,
            self.state.slow_ppt_set,
            div,
            range_min_or_fallback(&self.limits.slow_ppt, MIN_SLOW_PPT),
            range_max_or_fallback(&self.limits.slow_ppt, MAX_SLOW_PPT),
            self.limits.slow_ppt_default,
        );
        self.fast_ppt = fast.0;
        self.state.fast_ppt_set = fast.1;
        if let Some(raw) = fast.2 {
            out.push(HwWrite::GpuFastPpt(raw));
        }
        self.slow_ppt = slow.0;
        self.state.slow_ppt_set = slow.1;
        if let Some(raw) = slow.2 {
            out.push(HwWrite::GpuSlowPpt(raw));
        }
        assert(out@ =~= start + opt_write(
            match old(self).spec_fast_plan().2 {
                Some(raw) => Some(HwWrite::GpuFastPpt(raw)),
                None => None,
            },
        ) + opt_write(
            match old(self).spec_slow_plan().2 {
                Some(raw) => Some(HwWrite::GpuSlowPpt(raw)),
                None => None,
            },
        ));
    }

    /// Plans the memory clock (see [`gpu_mem_plan`]).
    pub fn plan_memory_clock(&mut self, fpl: &mut ForcePerformanceLevel, force: bool, out: &mut Vec<HwWrite>)
        ensures
            final(out)@ == old(out)@ + gpu_mem_plan(*old(self), old(fpl).state(), force).0,
            final(fpl).state() == gpu_mem_plan(*old(self), old(fpl).state(), force).1,
            *final(self) == (Gpu { memory_clock: gpu_mem_plan(*old(self), old(fpl).state(), force).2, ..*old(self) }),
    {
        let ghost start = out@;
        if self.limits.memory_clock.is_some() {
            let lo = range_min_or_fallback(&self.limits.memory_clock, GPU_MIN_MEMORY_CLOCK);
            let hi = range_max_or_fallback(&self.limits.memory_clock, GPU_MAX_MEMORY_CLOCK);
            self.memory_clock = clamp_opt_u64(self.memory_clock, lo, hi);
            let mhz = match self.memory_clock {
                Some(m) => m,
                None => hi,
            };
            // a lowered memory clock needs manual mode, as set clocks do
            let maxed = self.is_memory_clock_maxed();
            fpl.request(Component::Gpu, !maxed || self.clock_limits.is_some());
            push_level(fpl, force, out);
            out.push(HwWrite::GpuMemoryClock { mhz, maxed });
            assert(out@ =~= start + gpu_mem_plan(*old(self), old(fpl).state(), force).0);
        }
    }

    /// Plans the clock bounds (see [`gpu_clock_plan`]).
    pub fn plan_clocks(&mut self, fpl: &mut ForcePerformanceLevel, force: bool, out: &mut Vec<HwWrite>)
        ensures
            final(out)@ == old(out)@ + gpu_clock_plan(*old(self), old(fpl).state(), force).0,
            final(fpl).state() == gpu_clock_plan(*old(self), old(fpl).state(), force).1,
            *final(self) == (Gpu {
                clock_limits: gpu_clock_plan(*old(self), old(fpl).state(), force).2,
                state: GpuState {
                    clock_limits_set: gpu_clock_plan(*old(self), old(fpl).state(), force).3,
                    ..old(self).state
                },
                ..*old(self)
            }),
    {
        let ghost start = out@;
        proof {
            fpl.lemma_state_manual();
        }
        if self.limits.clock_min.is_none() && self.limits.clock_max.is_none() {
            assert(out@ =~= start + gpu_clock_plan(*old(self), old(fpl).state(), force).0);
            return ;
        }
        match self.clock_limits {
            Some(c) => {
                let min = clamp_opt_u64(
                    c.min,
                    range_min_or_fallback(&self.limits.clock_min, GPU_MIN_CLOCK),
                    range_max_or_fallback(&self.limits.clock_min, GPU_MAX_CLOCK),
                );
                let max = clamp_opt_u64(
                    c.max,
                    range_min_or_fallback(&self.limits.clock_max, GPU_MIN_CLOCK),
                    range_max_or_fallback(&self.limits.clock_max, GPU_MAX_CLOCK),
                );
                self.clock_limits = Some(MinMax { min, max });
                fpl.request(Component::Gpu, true);
                push_level(fpl, force, out);
                self.state.clock_limits_set = true;
                if let Some(m) = max {
                    out.push(HwWrite::GpuClock { bound: ClockBound::Max, mhz: m });
                }
                if let Some(m) = min {
                    out.push(HwWrite::GpuClock { bound: ClockBound::Min, mhz: m });
                }
                out.push(HwWrite::GpuClockConfirm);
            },
            None => {
                let owed = self.state.clock_limits_set || (self.state.is_resuming
                    && !self.limits.skip_resume_reclock) || fpl.needs_manual();
                if owed {
                    self.state.clock_limits_set = false;
                    fpl.request(Component::Gpu, false);
                    push_level(fpl, force, out);
                    proof {
                        fpl.lemma_state_manual();
                    }
                    if fpl.needs_manual() {
                        let max = range_max_or_fallback(&self.limits.clock_max, GPU_MAX_CLOCK);
                        let min = range_min_or_fallback(&self.limits.clock_min, GPU_MIN_CLOCK);
                        out.push(HwWrite::GpuClock { bound: ClockBound::Max, mhz: max });
                        out.push(HwWrite::GpuClock { bound: ClockBound::Min, mhz: min });
                        out.push(HwWrite::GpuClockConfirm);
                    }
                }
            },
        }
        assert(out@ =~= start + gpu_clock_plan(*old(self), old(fpl).state(), force).0);
    }

    /// Plans the GPU's writes (see [`gpu_plan`]).
    #[verifier::rlimit(100)]
    pub fn on_set(&mut self, fpl: &mut ForcePerformanceLevel, force: bool, out: &mut Vec<HwWrite>)
        ensures
            final(out)@ == old(out)@ + gpu_plan(*old(self), old(fpl).state(), force).0,
            final(fpl).state() == gpu_plan(*old(self), old(fpl).state(), force).1,
            final(self).fast_ppt == old(self).spec_fast_plan().0,
            final(self).slow_ppt == old(self).spec_slow_plan().0,
            final(self).memory_clock == gpu_mem_plan(*old(self), old(fpl).state(), force).2,
            final(self).clock_limits == gpu_clock_plan(
                *old(self),
                gpu_mem_plan(*old(self), old(fpl).state(), force).1,
                force,
            ).2,
            final(self).limits == old(self).limits,
            final(self).provider == old(self).provider,
    {
        let ghost start = out@;
        let ghost v0 = fpl.state();
        self.plan_ppts(out);
        let ghost g1 = *self;
        let ghost a = out@;
        self.plan_memory_clock(fpl, force, out);
        let ghost b = out@;
        let ghost v1 = fpl.state();
        assert(gpu_mem_plan(g1, v0, force) == gpu_mem_plan(*old(self), v0, force));
        let ghost g2 = *self;
        self.plan_clocks(fpl, force, out);
        assert(gpu_clock_plan(g2, v1, force) == gpu_clock_plan(*old(self), v1, force));
        assert(out@ =~= start + gpu_plan(*old(self), v0, force).0);
    }
}

impl Battery {
    /// Plans the battery's writes: charge rate, charge mode and charge limit,
    /// each where it is set.
    pub fn on_set(&self, out: &mut Vec<HwWrite>)
        ensures
            final(out)@ == old(out)@ + battery_writes(*self),
    {
        let ghost start = out@;
        if let Some(rate) = self.charge_rate {
            out.push(HwWrite::ChargeRate(rate));
        }
        if let Some(mode) = &self.charge_mode {
            out.push(HwWrite::ChargeMode(mode.clone()));
        }
        if let Some(limit) = self.charge_limit {
            out.push(HwWrite::ChargeLimit(limit));
        }
        assert(out@ =~= start + battery_writes(*self));
    }
}

/// The battery's writes, in order.
pub open spec fn battery_writes(b: Battery) -> Seq<HwWrite> {
    (match b.charge_rate {
        Some(r) => seq![HwWrite::ChargeRate(r)],
        None => Seq::empty(),
    }) + (match b.charge_mode {
        Some(m) => seq![HwWrite::ChargeMode(m)],
        None => Seq::empty(),
    }) + (match b.charge_limit {
        Some(l) => seq![HwWrite::ChargeLimit(l)],
        None => Seq::empty(),
    })
}

/// The GPU as the commit pass sees it: resuming where `resume` is set.
pub open spec fn gpu_for_commit(g: Gpu, resume: bool) -> Gpu {
    Gpu { state: GpuState { is_resuming: g.state.is_resuming || resume, ..g.state }, ..g }
}

/// The writes of a commit pass over `st`: the battery's, the SMT switch and
/// each CPU's, then the GPU's; and the coordinator's state after them. The
/// general controller writes nothing.
pub open spec fn settings_plan(st: Settings, v: LevelState, force: bool, resume: bool) -> (Seq<HwWrite>, LevelState) {
    let smtw = if st.cpus.smt_capable {
        seq![HwWrite::Smt(st.cpus.smt)]
    } else {
        Seq::empty()
    };
    let c = cpus_plan_from(st.cpus.cpus@, st.cpus.smt, 0, v, force, resume);
    let g = gpu_plan(gpu_for_commit(st.gpu, resume), c.1, force);
    (battery_writes(st.battery) + smtw + c.0 + g.0, g.1)
}

impl Settings {
    /// The commit pass: clamps and plans every controller's writes, battery
    /// first, then the CPUs, then the GPU. `force` reissues the coordinator's
    /// level even where it seems unchanged.
    pub fn on_set(&mut self, fpl: &mut ForcePerformanceLevel, force: bool) -> (r: Vec<HwWrite>)
        ensures
            r@ == settings_plan(*old(self), old(fpl).state(), force, false).0,
            final(fpl).state() == settings_plan(*old(self), old(fpl).state(), force, false).1,
            final(self).general == old(self).general,
            final(self).battery == old(self).battery,
            final(self).cpus.online_view() == old(self).cpus.online_view(),
            final(self).cpus.smt == old(self).cpus.smt,
            final(self).cpus.cpus@.len() == old(self).cpus.cpus@.len(),
            forall|i: int|
                0 <= i < old(self).cpus.cpus@.len() ==> (#[trigger] final(self).cpus.cpus@[i]).clock_limits
                    == cpu_clamped(old(self).cpus.cpus@[i]) && final(self).cpus.cpus@[i].governor
                    == old(self).cpus.cpus@[i].governor,
            final(self).gpu.fast_ppt == old(self).gpu.spec_fast_plan().0,
            final(self).gpu.slow_ppt == old(self).gpu.spec_slow_plan().0,
    {
        let ghost v0 = fpl.state();
        let mut out: Vec<HwWrite> = Vec::new();
        self.battery.on_set(&mut out);
        let ghost a = out@;
        self.cpus.on_set(fpl, force, &mut out);
        let ghost b = out@;
        assert(gpu_for_commit(old(self).gpu, false) == old(self).gpu);
        self.gpu.on_set(fpl, force, &mut out);
        assert(out@ =~= settings_plan(*old(self), v0, force, false).0);
        out
    }

    /// Replays the current values after a wake from sleep: the commit pass
    /// with every controller resuming and the coordinator's level reissued.
    pub fn on_resume(&mut self, fpl: &mut ForcePerformanceLevel) -> (r: Vec<HwWrite>)
        ensures
            r@ == settings_plan(*old(self), old(fpl).state(), true, true).0,
            final(fpl).state() == settings_plan(*old(self), old(fpl).state(), true, true).1,
            final(self).general == old(self).general,
            final(self).battery == old(self).battery,
            final(self).cpus.online_view() == old(self).cpus.online_view(),
    {
        let ghost v0 = fpl.state();
        self.cpus.set_resuming(true);
        self.gpu.state.is_resuming = true;
        proof {
            lemma_cpus_plan_same(self.cpus.cpus@, old(self).cpus.cpus@, self.cpus.smt, 0, v0, true, false, true);
            assert(gpu_for_commit(self.gpu, false) == gpu_for_commit(old(self).gpu, true));
        }
        assert(self.cpus.online_view() =~= old(self).cpus.online_view());
        let writes = self.on_set(fpl, true);
        let ghost mid = self.cpus.online_view();
        self.cpus.set_resuming(false);
        self.gpu.state.is_resuming = false;
        assert(self.cpus.online_view() =~= mid);
        writes
    }
}

} // verus!
