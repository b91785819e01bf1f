//! What each controller lets the user set, in the units the user sees.
use vstd::prelude::*;
use crate::commit::{
    CPU_MAX_CLOCK, CPU_MIN_MAX_CLOCK, GPU_MAX_CLOCK, GPU_MAX_MEMORY_CLOCK, GPU_MIN_CLOCK,
    GPU_MIN_MEMORY_CLOCK, MAX_FAST_PPT, MIN_FAST_PPT, MIN_SLOW_PPT, PPT_DIVISOR,
};
use crate::cpu::{Cpu, Cpus};
use crate::limits::{range_max_or_fallback, range_min_or_fallback, spec_range_max_or, spec_range_min_or, RangeLimit};
use crate::settings::{Battery, Gpu, Settings};

verus! {

/// Clock step where the limits do not say, MHz.
pub const CLOCK_STEP: u64 = 100;
/// Memory clock step where the limits do not say, MHz.
pub const MEMORY_STEP: u64 = 400;

/// What one CPU lets the user set.
#[derive(Debug)]
pub struct CpuLimits {
    pub clock_min_limits: Option<RangeLimit<u64>>,
    pub clock_max_limits: Option<RangeLimit<u64>>,
    pub clock_step: u64,
    pub governors: Vec<String>,
}

/// What the CPU array lets the user set.
#[derive(Debug)]
pub struct CpusLimits {
    pub cpus: Vec<CpuLimits>,
    pub count: usize,
    pub smt_capable: bool,
    /// Governors offered to every CPU at once; empty where each CPU has its own.
    pub governors: Vec<String>,
}

/// What the GPU lets the user set; power in watts, clocks in MHz.
#[derive(Debug)]
pub struct GpuLimits {
    pub fast_ppt_limits: Option<RangeLimit<u64>>,
    pub slow_ppt_limits: Option<RangeLimit<u64>>,
    pub ppt_step: u64,
    pub clock_min_limits: Option<RangeLimit<u64>>,
    pub clock_max_limits: Option<RangeLimit<u64>>,
    pub clock_step: u64,
    pub memory_control: Option<RangeLimit<u64>>,
    pub memory_step: u64,
}

/// What the battery lets the user set.
#[derive(Debug)]
pub struct BatteryLimits {
    pub charge_current: Option<RangeLimit<u64>>,
    pub charge_modes: Vec<String>,
    pub charge_limit: Option<RangeLimit<u64>>,
}

/// What every controller lets the user set; the general controller offers nothing.
#[derive(Debug)]
pub struct SettingsLimits {
    pub battery: BatteryLimits,
    pub cpu: CpusLimits,
    pub gpu: GpuLimits,
}

fn copy_strings(v: &Vec<String>) -> (r: Vec<String>)
    ensures
        r@ == v@,
{
    let mut r: Vec<String> = Vec::new();
    let mut i: usize = 0;
    while i < v.len()
        invariant
            i <= v@.len(),
            r@ =~= v@.subrange(0, i as int),
        decreases v@.len() - i,
    {
        r.push(v[i].clone());
        i = i + 1;
    }
    assert(r@ =~= v@);
    r
}

impl Cpu {
    /// The clock ranges the user may pick from; the lower bound of both
    /// ranges comes from the maximum clock's limits.
    pub fn limits(&self, governors: &Vec<String>) -> (r: CpuLimits)
        ensures
            r.clock_min_limits == Some(
                RangeLimit {
                    min: Some(spec_range_min_or(self.limits.clock_max, CPU_MIN_MAX_CLOCK)),
                    max: Some(spec_range_max_or(self.limits.clock_min, CPU_MAX_CLOCK)),
                },
            ),
            r.clock_max_limits == Some(
                RangeLimit {
                    min: Some(spec_range_min_or(self.limits.clock_max, CPU_MIN_MAX_CLOCK)),
                    max: Some(spec_range_max_or(self.limits.clock_max, CPU_MAX_CLOCK)),
                },
            ),
            r.clock_step == match self.limits.clock_step {
                Some(s) => s,
                None => CLOCK_STEP,
            },
            r.governors@ == governors@,
    {
        let lo = range_min_or_fallback(&self.limits.clock_max, CPU_MIN_MAX_CLOCK);
        CpuLimits {
            clock_min_limits: Some(
                RangeLimit {
                    min: Some(lo),
                    max: Some(range_max_or_fallback(&self.limits.clock_min, CPU_MAX_CLOCK)),
                },
            ),
            clock_max_limits: Some(
                RangeLimit {
                    min: Some(lo),
                    max: Some(range_max_or_fallback(&self.limits.clock_max, CPU_MAX_CLOCK)),
                },
            ),
            clock_step: match self.limits.clock_step {
                Some(s) => s,
                None => CLOCK_STEP,
            },
            governors: copy_strings(governors),
        }
    }
}

impl Cpus {
    /// What the CPUs let the user set; `governors` are those the kernel offers.
    pub fn limits(&self, governors: &Vec<String>) -> (r: CpusLimits)
        ensures
            r.cpus@.len() == self.cpus@.len(),
            r.count == self.cpus@.len(),
            r.smt_capable == self.smt_capable,
            r.governors@ == (if self.global_governors && self.cpus@.len() > 0 {
                governors@
            } else {
                Seq::<String>::empty()
            }),
            forall|i: int|
                0 <= i < r.cpus@.len() ==> (#[trigger] r.cpus@[i]).clock_step == match self.cpus@[i].limits.clock_step {
                    Some(s) => s,
                    None => CLOCK_STEP,
                },
    {
        let mut cpus: Vec<CpuLimits> = Vec::new();
        let mut i: usize = 0;
        while i < self.cpus.len()
            invariant
                i <= self.cpus@.len(),
                cpus@.len() == i,
                forall|j: int|
                    0 <= j < i ==> (#[trigger] cpus@[j]).clock_step == match self.cpus@[j].limits.clock_step {
                        Some(s) => s,
                        None => CLOCK_STEP,
                    },
            decreases self.cpus@.len() - i,
        {
            cpus.push(self.cpus[i].limits(governors));
            i = i + 1;
        }
        let global = if self.global_governors && self.cpus.len() > 0 {
            copy_strings(governors)
        } else {
            Vec::new()
        };
        CpusLimits { cpus, count: self.cpus.len(), smt_capable: self.smt_capable, governors: global }
    }
}

impl Gpu {
    /// What the GPU lets the user set: power ranges in watts (the limits
    /// divided by the platform's divisor), clock and memory clock ranges.
    pub fn limits(&self) -> (r: GpuLimits)
        ensures
            r.fast_ppt_limits == Some(
                RangeLimit {
                    min: Some(
                        (spec_range_min_or(self.limits.fast_ppt, MIN_FAST_PPT) / crate::commit::ppt_divisor(
                            *self,
                        )) as u64,
                    ),
                    max: Some(
                        (spec_range_max_or(self.limits.fast_ppt, MAX_FAST_PPT) / crate::commit::ppt_divisor(
                            *self,
                        )) as u64,
                    ),
                },
            ),
            r.ppt_step == match self.limits.ppt_step {
                Some(s) => s,
                None => 1,
            },
            r.clock_min_limits == Some(
                RangeLimit {
                    min: Some(spec_range_min_or(self.limits.clock_min, GPU_MIN_CLOCK)),
                    max: Some(spec_range_max_or(self.limits.clock_min, GPU_MAX_CLOCK)),
                },
            ),
            r.clock_max_limits == Some(
                RangeLimit {
                    min: Some(spec_range_min_or(self.limits.clock_max, GPU_MIN_CLOCK)),
                    max: Some(spec_range_max_or(self.limits.clock_max, GPU_MAX_CLOCK)),
                },
            ),
            r.clock_step == match self.limits.clock_step {
                Some(s) => s,
                None => CLOCK_STEP,
            },
            r.memory_step == match self.limits.memory_clock_step {
                Some(s) => s,
                None => MEMORY_STEP,
            },
    {
        let div = match self.limits.ppt_divisor {
            Some(d) => if d == 0 {
                1
            } else {
                d
            },
            None => PPT_DIVISOR,
        };
        GpuLimits {
            fast_ppt_limits: Some(
                RangeLimit {
                    min: Some(range_min_or_fallback(&self.limits.fast_ppt, MIN_FAST_PPT) / div),
                    max: Some(range_max_or_fallback(&self.limits.fast_ppt, MAX_FAST_PPT) / div),
                },
            ),
            slow_ppt_limits: Some(
                RangeLimit {
                    min: Some(range_min_or_fallback(&self.limits.slow_ppt, MIN_SLOW_PPT) / div),
                    max: Some(range_max_or_fallback(&self.limits.slow_ppt, MIN_SLOW_PPT) / div),
                },
            ),
            ppt_step: match self.limits.ppt_step {
                Some(s) => s,
                None => 1,
            },
            clock_min_limits: Some(
                RangeLimit {
                    min: Some(range_min_or_fallback(&self.limits.clock_min, GPU_MIN_CLOCK)),
                    max: Some(range_max_or_fallback(&self.limits.clock_min, GPU_MAX_CLOCK)),
                },
            ),
            clock_max_limits: Some(
                RangeLimit {
                    min: Some(range_min_or_fallback(&self.limits.clock_max, GPU_MIN_CLOCK)),
                    max: Some(range_max_or_fallback(&self.limits.clock_max, GPU_MAX_CLOCK)),
                },
            ),
            clock_step: match self.limits.clock_step {
                Some(s) => s,
                None => CLOCK_STEP,
            },
            memory_control: Some(
                RangeLimit {
                    min: Some(range_min_or_fallback(&self.limits.memory_clock, GPU_MIN_MEMORY_CLOCK)),
                    max: Some(range_max_or_fallback(&self.limits.memory_clock, GPU_MAX_MEMORY_CLOCK)),
                },
            ),
            memory_step: match self.limits.memory_clock_step {
                Some(s) => s,
                None => MEMORY_STEP,
            },
        }
    }
}

impl Battery {
    /// What the battery lets the user set: exactly its limits.
    pub fn limits(&self) -> (r: BatteryLimits)
        ensures
            r.charge_current == self.limits.charge_rate,
            r.charge_modes@ == self.limits.charge_modes@,
            r.charge_limit == self.limits.charge_limit,
    {
        BatteryLimits {
            charge_current: self.limits.charge_rate,
            charge_modes: copy_strings(&self.limits.charge_modes),
            charge_limit: self.limits.charge_limit,
        }
    }
}

impl Settings {
    /// What every controller lets the user set.
    pub fn limits(&self, governors: &Vec<String>) -> (r: SettingsLimits)
        ensures
            r.cpu.count == self.cpus.cpus@.len(),
            r.battery.charge_current == self.battery.limits.charge_rate,
            r.gpu.clock_step == match self.gpu.limits.clock_step {
                Some(s) => s,
                None => CLOCK_STEP,
            },
    {
        SettingsLimits { battery: self.battery.limits(), cpu: self.cpus.limits(governors), gpu: self.gpu.limits() }
    }
}

} // verus!
