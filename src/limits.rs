//! Capability limits: what a platform lets each subsystem control, and how an
//! override record is merged onto them.
use vstd::prelude::*;

verus! {

/// An optional (min, max) pair of bounds.
#[derive(Clone, Copy, Debug)]
pub struct RangeLimit<T> {
    pub min: Option<T>,
    pub max: Option<T>,
}

/// A range that an override uses to clear a field: both bounds absent.
pub open spec fn is_clearing<T>(r: RangeLimit<T>) -> bool {
    r.min is None && r.max is None
}

/// Merge rule for a range field: an absent override keeps the base, a present
/// override with both bounds absent clears it, any other override replaces it.
pub open spec fn merge_range<T>(base: Option<RangeLimit<T>>, ov: Option<RangeLimit<T>>) -> Option<
    RangeLimit<T>,
> {
    match ov {
        None => base,
        Some(r) => if is_clearing(r) {
            None
        } else {
            Some(r)
        },
    }
}

/// Merge rule for a plain optional field: a present override replaces the base.
pub open spec fn merge_value<T>(base: Option<T>, ov: Option<T>) -> Option<T> {
    match ov {
        None => base,
        Some(v) => Some(v),
    }
}

pub fn merge_range_field<T: Copy>(base: Option<RangeLimit<T>>, ov: Option<RangeLimit<T>>) -> (r:
    Option<RangeLimit<T>>)
    ensures
        r == merge_range(base, ov),
{
    match ov {
        None => base,
        Some(range) => {
            if range.min.is_none() && range.max.is_none() {
                None
            } else {
                Some(range)
            }
        },
    }
}

pub fn merge_value_field<T>(base: Option<T>, ov: Option<T>) -> (r: Option<T>)
    ensures
        r == merge_value(base, ov),
{
    match ov {
        None => base,
        Some(v) => Some(v),
    }
}

/// The lower bound of `range`, or `fallback` where the range or its bound is absent.
pub open spec fn spec_range_min_or<I>(range: Option<RangeLimit<I>>, fallback: I) -> I {
    match range {
        Some(r) => match r.min {
            Some(v) => v,
            None => fallback,
        },
        None => fallback,
    }
}

/// The upper bound of `range`, or `fallback` where the range or its bound is absent.
pub open spec fn spec_range_max_or<I>(range: Option<RangeLimit<I>>, fallback: I) -> I {
    match range {
        Some(r) => match r.max {
            Some(v) => v,
            None => fallback,
        },
        None => fallback,
    }
}

pub fn range_min_or_fallback<I: Copy>(range: &Option<RangeLimit<I>>, fallback: I) -> (r: I)
    ensures
        r == spec_range_min_or(*range, fallback),
{
    match range {
        Some(lim) => match lim.min {
            Some(v) => v,
            None => fallback,
        },
        None => fallback,
    }
}

pub fn range_max_or_fallback<I: Copy>(range: &Option<RangeLimit<I>>, fallback: I) -> (r: I)
    ensures
        r == spec_range_max_or(*range, fallback),
{
    match range {
        Some(lim) => match lim.max {
            Some(v) => v,
            None => fallback,
        },
        None => fallback,
    }
}

/// Which CPU driver a platform uses.
#[derive(Clone, Copy, Debug, PartialEq, Eq, Structural)]
pub enum CpuLimitType {
    SteamDeck,
    SteamDeckOLED,
    Generic,
    GenericAMD,
    Unknown,
    DevMode,
}

/// Which GPU driver a platform uses.
#[derive(Clone, Copy, Debug, PartialEq, Eq, Structural)]
pub enum GpuLimitType {
    SteamDeck,
    SteamDeckAdvance,
    SteamDeckOLED,
    Generic,
    GenericAMD,
    Unknown,
    DevMode,
}

/// Which battery driver a platform uses.
#[derive(Clone, Copy, Debug, PartialEq, Eq, Structural)]
pub enum BatteryLimitType {
    SteamDeck,
    SteamDeckOLED,
    Generic,
    Unknown,
    DevMode,
}

/// Limits of one CPU (hardware thread). Clocks in MHz.
#[derive(Debug)]
pub struct GenericCpuLimit {
    pub clock_min: Option<RangeLimit<u64>>,
    pub clock_max: Option<RangeLimit<u64>>,
    pub clock_step: Option<u64>,
    pub tdp: Option<RangeLimit<u64>>,
    pub tdp_boost: Option<RangeLimit<u64>>,
    pub tdp_divisor: Option<u64>,
    pub tdp_step: Option<u64>,
    pub skip_resume_reclock: bool,
    pub experiments: bool,
}

impl GenericCpuLimit {
    pub open spec fn merged(self, ov: Self) -> Self {
        GenericCpuLimit {
            clock_min: merge_range(self.clock_min, ov.clock_min),
            clock_max: merge_range(self.clock_max, ov.clock_max),
            clock_step: merge_value(self.clock_step, ov.clock_step),
            tdp: merge_range(self.tdp, ov.tdp),
            tdp_boost: merge_range(self.tdp_boost, ov.tdp_boost),
            tdp_divisor: merge_value(self.tdp_divisor, ov.tdp_divisor),
            tdp_step: merge_value(self.tdp_step, ov.tdp_step),
            skip_resume_reclock: ov.skip_resume_reclock,
            experiments: ov.experiments,
        }
    }

    /// The record as merged onto one with every field absent: ranges with
    /// both bounds absent become absent.
    pub open spec fn normalized(self) -> Self {
        GenericCpuLimit {
            clock_min: merge_range(None, self.clock_min),
            clock_max: merge_range(None, self.clock_max),
            tdp: merge_range(None, self.tdp),
            tdp_boost: merge_range(None, self.tdp_boost),
            ..self
        }
    }

    pub fn normalize(&self) -> (r: Self)
        ensures
            r == self.normalized(),
    {
        GenericCpuLimit {
            clock_min: merge_range_field(None, self.clock_min),
            clock_max: merge_range_field(None, self.clock_max),
            clock_step: self.clock_step,
            tdp: merge_range_field(None, self.tdp),
            tdp_boost: merge_range_field(None, self.tdp_boost),
            tdp_divisor: self.tdp_divisor,
            tdp_step: self.tdp_step,
            skip_resume_reclock: self.skip_resume_reclock,
            experiments: self.experiments,
        }
    }

    pub fn copy(&self) -> (r: Self)
        ensures
            r == *self,
    {
        GenericCpuLimit {
            clock_min: self.clock_min,
            clock_max: self.clock_max,
            clock_step: self.clock_step,
            tdp: self.tdp,
            tdp_boost: self.tdp_boost,
            tdp_divisor: self.tdp_divisor,
            tdp_step: self.tdp_step,
            skip_resume_reclock: self.skip_resume_reclock,
            experiments: self.experiments,
        }
    }

    pub fn default_for(t: &CpuLimitType, _index: usize) -> (r: Self)
        ensures
            r == Self::spec_default_for(*t),
    {
        match t {
            CpuLimitType::SteamDeck | CpuLimitType::SteamDeckOLED => Self::default_steam_deck(),
            CpuLimitType::DevMode => GenericCpuLimit {
                clock_min: Some(RangeLimit { min: Some(100), max: Some(5000) }),
                clock_max: Some(RangeLimit { min: Some(100), max: Some(4800) }),
                clock_step: Some(100),
                tdp: Some(RangeLimit { min: Some(1_000_000), max: Some(100_000_000) }),
                tdp_boost: Some(RangeLimit { min: Some(1_000_000), max: Some(110_000_000) }),
                tdp_divisor: Some(1_000_000),
                tdp_step: Some(1),
                skip_resume_reclock: false,
                experiments: true,
            },
            _ => GenericCpuLimit {
                clock_min: None,
                clock_max: None,
                clock_step: Some(100),
                tdp: None,
                tdp_boost: None,
                tdp_divisor: None,
                tdp_step: None,
                skip_resume_reclock: false,
                experiments: false,
            },
        }
    }

    pub open spec fn spec_default_for(t: CpuLimitType) -> Self {
        match t {
            CpuLimitType::SteamDeck | CpuLimitType::SteamDeckOLED => Self::spec_steam_deck(),
            CpuLimitType::DevMode => GenericCpuLimit {
                clock_min: Some(RangeLimit { min: Some(100), max: Some(5000) }),
                clock_max: Some(RangeLimit { min: Some(100), max: Some(4800) }),
                clock_step: Some(100),
                tdp: Some(RangeLimit { min: Some(1_000_000), max: Some(100_000_000) }),
                tdp_boost: Some(RangeLimit { min: Some(1_000_000), max: Some(110_000_000) }),
                tdp_divisor: Some(1_000_000),
                tdp_step: Some(1),
                skip_resume_reclock: false,
                experiments: true,
            },
            _ => GenericCpuLimit {
                clock_min: None,
                clock_max: None,
                clock_step: Some(100),
                tdp: None,
                tdp_boost: None,
                tdp_divisor: None,
                tdp_step: None,
                skip_resume_reclock: false,
                experiments: false,
            },
        }
    }

    pub open spec fn spec_steam_deck() -> Self {
        GenericCpuLimit {
            clock_min: Some(RangeLimit { min: Some(1400), max: Some(3500) }),
            clock_max: Some(RangeLimit { min: Some(400), max: Some(3500) }),
            clock_step: Some(100),
            tdp: None,
            tdp_boost: None,
            tdp_divisor: None,
            tdp_step: None,
            skip_resume_reclock: false,
            experiments: false,
        }
    }

    pub fn default_steam_deck() -> (r: Self)
        ensures
            r == Self::spec_steam_deck(),
    {
        GenericCpuLimit {
            clock_min: Some(RangeLimit { min: Some(1400), max: Some(3500) }),
            clock_max: Some(RangeLimit { min: Some(400), max: Some(3500) }),
            clock_step: Some(100),
            tdp: None,
            tdp_boost: None,
            tdp_divisor: None,
            tdp_step: None,
            skip_resume_reclock: false,
            experiments: false,
        }
    }

    pub fn apply_override(&mut self, limit_override: Self)
        ensures
            *final(self) == old(self).merged(limit_override),
    {
        self.clock_min = merge_range_field(self.clock_min, limit_override.clock_min);
        self.clock_max = merge_range_field(self.clock_max, limit_override.clock_max);
        self.clock_step = merge_value_field(self.clock_step, limit_override.clock_step);
        self.tdp = merge_range_field(self.tdp, limit_override.tdp);
        self.tdp_boost = merge_range_field(self.tdp_boost, limit_override.tdp_boost);
        self.tdp_divisor = merge_value_field(self.tdp_divisor, limit_override.tdp_divisor);
        self.tdp_step = merge_value_field(self.tdp_step, limit_override.tdp_step);
        self.skip_resume_reclock = limit_override.skip_resume_reclock;
        self.experiments = limit_override.experiments;
    }
}

/// Per-CPU limits for a whole CPU package.
#[derive(Debug)]
pub struct GenericCpusLimit {
    pub cpus: Vec<GenericCpuLimit>,
    pub global_governors: bool,
    pub experiments: bool,
}

/// The per-CPU arrays merged: replaced wholesale when the lengths differ and
/// the override is not empty (each record as merged onto an empty one, so
/// that a range with both bounds absent is absent), else merged element by
/// element.
pub open spec fn merged_cpu_seq(base: Seq<GenericCpuLimit>, ov: Seq<GenericCpuLimit>) -> Seq<
    GenericCpuLimit,
> {
    if base.len() != ov.len() && ov.len() > 0 {
        Seq::new(ov.len(), |i: int| ov[i].normalized())
    } else {
        Seq::new(base.len(), |i: int| if i < ov.len() { base[i].merged(ov[i]) } else { base[i] })
    }
}

/// Number of CPUs to assume where the kernel does not say.
pub const DEFAULT_CPU_COUNT: usize = 8;

impl GenericCpusLimit {
    /// `self` is what merging `ov` onto `base` gives.
    pub open spec fn is_merge_of(self, base: Self, ov: Self) -> bool {
        &&& self.cpus@ == merged_cpu_seq(base.cpus@, ov.cpus@)
        &&& self.global_governors == ov.global_governors
        &&& self.experiments == ov.experiments
    }

    /// The two records hold the same limits.
    pub open spec fn same_as(self, other: Self) -> bool {
        &&& self.cpus@ == other.cpus@
        &&& self.global_governors == other.global_governors
        &&& self.experiments == other.experiments
    }

    /// Default limits for a platform; `present` is the number of CPUs the
    /// kernel reports, used by the platforms without a fixed layout.
    pub fn default_for(t: CpuLimitType, present: Option<usize>) -> (r: Self)
        ensures
            r.cpus@.len() == match t {
                CpuLimitType::SteamDeck | CpuLimitType::SteamDeckOLED => 8,
                CpuLimitType::DevMode => 11,
                _ => match present {
                    Some(n) => n,
                    None => DEFAULT_CPU_COUNT,
                },
            },
            forall|i: int| 0 <= i < r.cpus@.len() ==> r.cpus@[i] == GenericCpuLimit::spec_default_for(t),
            r.global_governors,
            r.experiments == (t == CpuLimitType::DevMode),
    {
        let count: usize = match t {
            CpuLimitType::SteamDeck | CpuLimitType::SteamDeckOLED => 8,
            CpuLimitType::DevMode => 11,
            _ => match present {
                Some(n) => n,
                None => DEFAULT_CPU_COUNT,
            },
        };
        let mut cpus: Vec<GenericCpuLimit> = Vec::new();
        let mut i: usize = 0;
        while i < count
            invariant
                i <= count,
                cpus@.len() == i,
                forall|j: int| 0 <= j < i ==> cpus@[j] == GenericCpuLimit::spec_default_for(t),
            decreases count - i,
        {
            cpus.push(GenericCpuLimit::default_for(&t, i));
            i = i + 1;
        }
        GenericCpusLimit {
            cpus,
            global_governors: true,
            experiments: t == CpuLimitType::DevMode,
        }
    }

    pub fn apply_override(&mut self, limit_override: Self)
        ensures
            final(self).is_merge_of(*old(self), limit_override),
    {
        let ghost base = self.cpus@;
        let ghost ov = limit_override.cpus@;
        let GenericCpusLimit { cpus: ov_cpus, global_governors, experiments } = limit_override;
        if self.cpus.len() != ov_cpus.len() && ov_cpus.len() > 0 {
            let mut cpus: Vec<GenericCpuLimit> = Vec::new();
            let mut i: usize = 0;
            while i < ov_cpus.len()
                invariant
                    ov_cpus@ == ov,
                    i <= ov.len(),
                    cpus@.len() == i,
                    forall|j: int| 0 <= j < i ==> cpus@[j] == ov[j].normalized(),
                decreases ov.len() - i,
            {
                cpus.push(ov_cpus[i].normalize());
                i = i + 1;
            }
            assert(cpus@ =~= merged_cpu_seq(base, ov));
            self.cpus = cpus;
        } else {
            let n = self.cpus.len();
            let mut i: usize = 0;
            while i < n && i < ov_cpus.len()
                invariant
                    n == base.len(),
                    ov_cpus@ == ov,
                    self.cpus@.len() == n,
                    i <= n,
                    forall|j: int|
                        0 <= j < n ==> self.cpus@[j] == (if j < i && j < ov.len() {
                            base[j].merged(ov[j])
                        } else {
                            base[j]
                        }),
                decreases n - i,
            {
                let mut cpu = self.cpus[i].copy();
                cpu.apply_override(ov_cpus[i].copy());
                self.cpus.set(i, cpu);
                i = i + 1;
            }
            assert(self.cpus@ =~= merged_cpu_seq(base, ov));
        }
        self.global_governors = global_governors;
        self.experiments = experiments;
    }
}

/// Limits of the GPU. Power in the platform's raw unit (see `ppt_divisor`),
/// clocks in MHz.
#[derive(Debug)]
pub struct GenericGpuLimit {
    pub fast_ppt: Option<RangeLimit<u64>>,
    pub fast_ppt_default: Option<u64>,
    pub slow_ppt: Option<RangeLimit<u64>>,
    pub slow_ppt_default: Option<u64>,
    pub ppt_divisor: Option<u64>,
    pub ppt_step: Option<u64>,
    pub tdp: Option<RangeLimit<u64>>,
    pub tdp_boost: Option<RangeLimit<u64>>,
    pub tdp_divisor: Option<u64>,
    pub tdp_step: Option<u64>,
    pub clock_min: Option<RangeLimit<u64>>,
    pub clock_max: Option<RangeLimit<u64>>,
    pub clock_step: Option<u64>,
    pub memory_clock: Option<RangeLimit<u64>>,
    pub memory_clock_step: Option<u64>,
    pub skip_resume_reclock: bool,
    pub experiments: bool,
}

impl GenericGpuLimit {
    pub open spec fn merged(self, ov: Self) -> Self {
        GenericGpuLimit {
            fast_ppt: merge_range(self.fast_ppt, ov.fast_ppt),
            fast_ppt_default: merge_value(self.fast_ppt_default, ov.fast_ppt_default),
            slow_ppt: merge_range(self.slow_ppt, ov.slow_ppt),
            slow_ppt_default: merge_value(self.slow_ppt_default, ov.slow_ppt_default),
            ppt_divisor: merge_value(self.ppt_divisor, ov.ppt_divisor),
            ppt_step: merge_value(self.ppt_step, ov.ppt_step),
            tdp: merge_range(self.tdp, ov.tdp),
            tdp_boost: merge_range(self.tdp_boost, ov.tdp_boost),
            tdp_divisor: merge_value(self.tdp_divisor, ov.tdp_divisor),
            tdp_step: merge_value(self.tdp_step, ov.tdp_step),
            clock_min: merge_range(self.clock_min, ov.clock_min),
            clock_max: merge_range(self.clock_max, ov.clock_max),
            clock_step: merge_value(self.clock_step, ov.clock_step),
            memory_clock: merge_range(self.memory_clock, ov.memory_clock),
            memory_clock_step: merge_value(self.memory_clock_step, ov.memory_clock_step),
            skip_resume_reclock: ov.skip_resume_reclock,
            experiments: ov.experiments,
        }
    }

    pub open spec fn spec_empty() -> Self {
        GenericGpuLimit {
            fast_ppt: None,
            fast_ppt_default: None,
            slow_ppt: None,
            slow_ppt_default: None,
            ppt_divisor: None,
            ppt_step: None,
            tdp: None,
            tdp_boost: None,
            tdp_divisor: None,
            tdp_step: None,
            clock_min: None,
            clock_max: None,
            clock_step: None,
            memory_clock: None,
            memory_clock_step: None,
            skip_resume_reclock: false,
            experiments: false,
        }
    }

    pub fn empty() -> (r: Self)
        ensures
            r == Self::spec_empty(),
    {
        GenericGpuLimit {
            fast_ppt: None,
            fast_ppt_default: None,
            slow_ppt: None,
            slow_ppt_default: None,
            ppt_divisor: None,
            ppt_step: None,
            tdp: None,
            tdp_boost: None,
            tdp_divisor: None,
            tdp_step: None,
            clock_min: None,
            clock_max: None,
            clock_step: None,
            memory_clock: None,
            memory_clock_step: None,
            skip_resume_reclock: false,
            experiments: false,
        }
    }

    pub open spec fn spec_steam_deck() -> Self {
        GenericGpuLimit {
            fast_ppt: Some(RangeLimit { min: Some(1000000), max: Some(30_000_000) }),
            fast_ppt_default: Some(15_000_000),
            slow_ppt: Some(RangeLimit { min: Some(1000000), max: Some(29_000_000) }),
            slow_ppt_default: Some(15_000_000),
            ppt_divisor: Some(1_000_000),
            ppt_step: Some(1),
            tdp: None,
            tdp_boost: None,
            tdp_divisor: None,
            tdp_step: None,
            clock_min: Some(RangeLimit { min: Some(400), max: Some(1600) }),
            clock_max: Some(RangeLimit { min: Some(400), max: Some(1600) }),
            clock_step: Some(100),
            memory_clock: None,
            memory_clock_step: None,
            skip_resume_reclock: false,
            experiments: false,
        }
    }

    pub fn default_steam_deck() -> (r: Self)
        ensures
            r == Self::spec_steam_deck(),
    {
        GenericGpuLimit {
            fast_ppt: Some(RangeLimit { min: Some(1000000), max: Some(30_000_000) }),
            fast_ppt_default: Some(15_000_000),
            slow_ppt: Some(RangeLimit { min: Some(1000000), max: Some(29_000_000) }),
            slow_ppt_default: Some(15_000_000),
            ppt_divisor: Some(1_000_000),
            ppt_step: Some(1),
            tdp: None,
            tdp_boost: None,
            tdp_divisor: None,
            tdp_step: None,
            clock_min: Some(RangeLimit { min: Some(400), max: Some(1600) }),
            clock_max: Some(RangeLimit { min: Some(400), max: Some(1600) }),
            clock_step: Some(100),
            memory_clock: None,
            memory_clock_step: None,
            skip_resume_reclock: false,
            experiments: false,
        }
    }

    pub open spec fn spec_steam_deck_oled() -> Self {
        GenericGpuLimit { memory_clock_step: Some(200), ..Self::spec_steam_deck() }
    }

    pub fn default_steam_deck_oled() -> (r: Self)
        ensures
            r == Self::spec_steam_deck_oled(),
    {
        let mut sd = Self::default_steam_deck();
        sd.memory_clock_step = Some(200);
        sd
    }

    pub open spec fn spec_dev_mode() -> Self {
        GenericGpuLimit {
            fast_ppt: Some(RangeLimit { min: Some(3_000_000), max: Some(11_000_000) }),
            fast_ppt_default: Some(10_000_000),
            slow_ppt: Some(RangeLimit { min: Some(7_000_000), max: Some(11_000_000) }),
            slow_ppt_default: Some(10_000_000),
            ppt_divisor: Some(1_000_000),
            ppt_step: Some(1),
            tdp: Some(RangeLimit { min: Some(1_000_000), max: Some(100_000_000) }),
            tdp_boost: Some(RangeLimit { min: Some(1_000_000), max: Some(110_000_000) }),
            tdp_divisor: Some(1_000_000),
            tdp_step: Some(1),
            clock_min: Some(RangeLimit { min: Some(100), max: Some(1000) }),
            clock_max: Some(RangeLimit { min: Some(100), max: Some(1100) }),
            clock_step: Some(100),
            memory_clock: Some(RangeLimit { min: Some(100), max: Some(1100) }),
            memory_clock_step: Some(100),
            skip_resume_reclock: false,
            experiments: true,
        }
    }

    pub fn default_dev_mode() -> (r: Self)
        ensures
            r == Self::spec_dev_mode(),
    {
        GenericGpuLimit {
            fast_ppt: Some(RangeLimit { min: Some(3_000_000), max: Some(11_000_000) }),
            fast_ppt_default: Some(10_000_000),
            slow_ppt: Some(RangeLimit { min: Some(7_000_000), max: Some(11_000_000) }),
            slow_ppt_default: Some(10_000_000),
            ppt_divisor: Some(1_000_000),
            ppt_step: Some(1),
            tdp: Some(RangeLimit { min: Some(1_000_000), max: Some(100_000_000) }),
            tdp_boost: Some(RangeLimit { min: Some(1_000_000), max: Some(110_000_000) }),
            tdp_divisor: Some(1_000_000),
            tdp_step: Some(1),
            clock_min: Some(RangeLimit { min: Some(100), max: Some(1000) }),
            clock_max: Some(RangeLimit { min: Some(100), max: Some(1100) }),
            clock_step: Some(100),
            memory_clock: Some(RangeLimit { min: Some(100), max: Some(1100) }),
            memory_clock_step: Some(100),
            skip_resume_reclock: false,
            experiments: true,
        }
    }

    pub open spec fn spec_default_for(t: GpuLimitType) -> Self {
        match t {
            GpuLimitType::SteamDeck | GpuLimitType::SteamDeckAdvance => Self::spec_steam_deck(),
            GpuLimitType::SteamDeckOLED => Self::spec_steam_deck_oled(),
            GpuLimitType::DevMode => Self::spec_dev_mode(),
            _ => Self::spec_empty(),
        }
    }

    pub fn default_for(t: GpuLimitType) -> (r: Self)
        ensures
            r == Self::spec_default_for(t),
    {
        match t {
            GpuLimitType::SteamDeck | GpuLimitType::SteamDeckAdvance => Self::default_steam_deck(),
            GpuLimitType::SteamDeckOLED => Self::default_steam_deck_oled(),
            GpuLimitType::DevMode => Self::default_dev_mode(),
            _ => Self::empty(),
        }
    }

    pub fn apply_override(&mut self, limit_override: Self)
        ensures
            *final(self) == old(self).merged(limit_override),
    {
        self.fast_ppt = merge_range_field(self.fast_ppt, limit_override.fast_ppt);
        self.fast_ppt_default = merge_value_field(
            self.fast_ppt_default,
            limit_override.fast_ppt_default,
        );
        self.slow_ppt = merge_range_field(self.slow_ppt, limit_override.slow_ppt);
        self.slow_ppt_default = merge_value_field(
            self.slow_ppt_default,
            limit_override.slow_ppt_default,
        );
        self.ppt_divisor = merge_value_field(self.ppt_divisor, limit_override.ppt_divisor);
        self.ppt_step = merge_value_field(self.ppt_step, limit_override.ppt_step);
        self.tdp = merge_range_field(self.tdp, limit_override.tdp);
        self.tdp_boost = merge_range_field(self.tdp_boost, limit_override.tdp_boost);
        self.tdp_divisor = merge_value_field(self.tdp_divisor, limit_override.tdp_divisor);
        self.tdp_step = merge_value_field(self.tdp_step, limit_override.tdp_step);
        self.clock_min = merge_range_field(self.clock_min, limit_override.clock_min);
        self.clock_max = merge_range_field(self.clock_max, limit_override.clock_max);
        self.clock_step = merge_value_field(self.clock_step, limit_override.clock_step);
        self.memory_clock = merge_range_field(self.memory_clock, limit_override.memory_clock);
        self.memory_clock_step = merge_value_field(
            self.memory_clock_step,
            limit_override.memory_clock_step,
        );
        self.skip_resume_reclock = limit_override.skip_resume_reclock;
        self.experiments = limit_override.experiments;
    }
}

/// Extra switches of the battery driver.
#[derive(Debug)]
pub struct LimitExtras {
    pub experiments: bool,
    /// Names of hardware quirks known on the platform, each at most once.
    pub quirks: Vec<String>,
}

/// Limits of the battery. Charge rate in mA, charge limit in percent.
#[derive(Debug)]
pub struct GenericBatteryLimit {
    pub charge_rate: Option<RangeLimit<u64>>,
    pub charge_modes: Vec<String>,
    pub charge_limit: Option<RangeLimit<u64>>,
    pub extra_readouts: bool,
    pub extras: LimitExtras,
}

impl GenericBatteryLimit {
    pub open spec fn merged(self, ov: Self) -> Self {
        GenericBatteryLimit {
            charge_rate: merge_range(self.charge_rate, ov.charge_rate),
            charge_modes: if self.charge_modes@.len() != ov.charge_modes@.len()
                && ov.charge_modes@.len() > 0 {
                ov.charge_modes
            } else {
                self.charge_modes
            },
            charge_limit: merge_range(self.charge_limit, ov.charge_limit),
            extra_readouts: ov.extra_readouts,
            extras: ov.extras,
        }
    }

    pub fn apply_override(&mut self, limit_override: Self)
        ensures
            *final(self) == old(self).merged(limit_override),
    {
        let GenericBatteryLimit { charge_rate, charge_modes, charge_limit, extra_readouts, extras } =
            limit_override;
        self.charge_rate = merge_range_field(self.charge_rate, charge_rate);
        if self.charge_modes.len() != charge_modes.len() && charge_modes.len() > 0 {
            self.charge_modes = charge_modes;
        }
        self.charge_limit = merge_range_field(self.charge_limit, charge_limit);
        self.extra_readouts = extra_readouts;
        self.extras = extras;
    }
}

/// A subsystem's limits together with the driver that uses them.
#[derive(Debug)]
pub struct Limit<P, L> {
    pub provider: P,
    pub limits: L,
}

pub type CpuLimit = Limit<CpuLimitType, GenericCpusLimit>;

pub type GpuLimit = Limit<GpuLimitType, GenericGpuLimit>;

pub type BatteryLimit = Limit<BatteryLimitType, GenericBatteryLimit>;

/// Capability limits of a platform, one record per subsystem.
#[derive(Debug)]
pub struct Limits {
    pub cpu: CpuLimit,
    pub gpu: GpuLimit,
    pub battery: BatteryLimit,
}

impl Limits {
    /// `self` is what merging `ov` onto `base` gives; providers stay those of `base`.
    pub open spec fn is_merge_of(self, base: Self, ov: Self) -> bool {
        &&& self.cpu.provider == base.cpu.provider
        &&& self.gpu.provider == base.gpu.provider
        &&& self.battery.provider == base.battery.provider
        &&& self.cpu.limits.is_merge_of(base.cpu.limits, ov.cpu.limits)
        &&& self.gpu.limits == base.gpu.limits.merged(ov.gpu.limits)
        &&& self.battery.limits == base.battery.limits.merged(ov.battery.limits)
    }

    /// The two records hold the same limits.
    pub open spec fn same_as(self, other: Self) -> bool {
        &&& self.cpu.provider == other.cpu.provider
        &&& self.gpu.provider == other.gpu.provider
        &&& self.battery.provider == other.battery.provider
        &&& self.cpu.limits.same_as(other.cpu.limits)
        &&& self.gpu.limits == other.gpu.limits
        &&& self.battery.limits == other.battery.limits
    }

    /// Merges `limit_override`, where there is one, onto these limits.
    pub fn apply_override(&mut self, limit_override: Option<Self>)
        ensures
            match limit_override {
                Some(ov) => final(self).is_merge_of(*old(self), ov),
                None => *final(self) == *old(self),
            },
    {
        if let Some(ov) = limit_override {
            let Limits { cpu, gpu, battery } = ov;
            self.cpu.limits.apply_override(cpu.limits);
            self.gpu.limits.apply_override(gpu.limits);
            self.battery.limits.apply_override(battery.limits);
        }
    }
}

/// A range field that the override gives with both bounds absent is absent
/// after the merge, whatever the base held.
pub proof fn lemma_clearing_override_clears<T>(base: Option<RangeLimit<T>>, r: RangeLimit<T>)
    requires
        is_clearing(r),
    ensures
        merge_range(base, Some(r)) is None,
{
}

/// A per-CPU clock range that the override gives with both bounds absent is
/// absent after the merge, whether the array is merged element by element
/// or replaced wholesale.
pub proof fn lemma_cpu_clearing_override_clears(base: Seq<GenericCpuLimit>, ov: Seq<GenericCpuLimit>, i: int)
    requires
        0 <= i < ov.len(),
        i < merged_cpu_seq(base, ov).len(),
    ensures
        (ov[i].clock_min matches Some(r) && is_clearing(r)) ==> merged_cpu_seq(base, ov)[i].clock_min is None,
        (ov[i].clock_max matches Some(r) && is_clearing(r)) ==> merged_cpu_seq(base, ov)[i].clock_max is None,
{
}

proof fn lemma_cpu_merge_idempotent(b: GenericCpuLimit, o: GenericCpuLimit)
    ensures
        b.merged(o).merged(o) == b.merged(o),
{
}

proof fn lemma_cpu_normalized_merge(o: GenericCpuLimit)
    ensures
        o.normalized().merged(o) == o.normalized(),
{
}

/// Merging one override twice gives what merging it once gives, for every
/// base and every override.
pub proof fn lemma_override_idempotent(base: Limits, once: Limits, twice: Limits, ov: Limits)
    requires
        once.is_merge_of(base, ov),
        twice.is_merge_of(once, ov),
    ensures
        twice.same_as(once),
{
    let b = base.cpu.limits.cpus@;
    let o = ov.cpu.limits.cpus@;
    let m1 = once.cpu.limits.cpus@;
    let m2 = twice.cpu.limits.cpus@;
    if b.len() != o.len() && o.len() > 0 {
        assert forall|i: int| 0 <= i < m2.len() implies m2[i] == m1[i] by {
            lemma_cpu_normalized_merge(o[i]);
        }
    } else {
        assert forall|i: int| 0 <= i < m2.len() implies m2[i] == m1[i] by {
            if i < o.len() {
                lemma_cpu_merge_idempotent(b[i], o[i]);
            }
        }
    }
    assert(m2 =~= m1);
}

} // verus!
