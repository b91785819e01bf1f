//! The GPU driver of generic AMD platforms, whose limits go through the
//! RyzenAdj interface: which values to set, and which to put back.
use vstd::prelude::*;
use crate::commit::{ppt_divisor, ppt_raw, GPU_MAX_CLOCK, GPU_MIN_CLOCK, MAX_FAST_PPT, MAX_SLOW_PPT, MIN_FAST_PPT, MIN_SLOW_PPT};
use crate::limits::{range_max_or_fallback, range_min_or_fallback, spec_range_max_or, spec_range_min_or};
use crate::settings::{Gpu, GpuState};

verus! {

/// One call on the RyzenAdj interface.
#[derive(Clone, Copy, Debug, PartialEq, Eq, Structural)]
pub enum AmdWrite {
    FastLimit(u64),
    SlowLimit(u64),
    MaxGfxClock(u64),
    MinGfxClock(u64),
}

/// The fast power limit to force, in the hardware's unit, where one is set.
pub open spec fn amd_fast(g: Gpu) -> Option<u64> {
    match g.fast_ppt {
        Some(w) => Some(
            ppt_raw(
                w,
                ppt_divisor(g),
                spec_range_min_or(g.limits.fast_ppt, MIN_FAST_PPT),
                spec_range_max_or(g.limits.fast_ppt, MAX_FAST_PPT),
            ),
        ),
        None => None,
    }
}

/// The slow power limit to force, in the hardware's unit, where one is set.
pub open spec fn amd_slow(g: Gpu) -> Option<u64> {
    match g.slow_ppt {
        Some(w) => Some(
            ppt_raw(
                w,
                ppt_divisor(g),
                spec_range_min_or(g.limits.slow_ppt, MIN_SLOW_PPT),
                spec_range_max_or(g.limits.slow_ppt, MAX_SLOW_PPT),
            ),
        ),
        None => None,
    }
}

pub open spec fn amd_limit_write(fast: bool, x: u64) -> AmdWrite {
    if fast {
        AmdWrite::FastLimit(x)
    } else {
        AmdWrite::SlowLimit(x)
    }
}

/// One power limit: set it where one is forced (remembering the hardware's
/// value `read` the first time), else put the remembered value back once.
/// Gives the writes and what is remembered after.
pub open spec fn amd_ppt_step(
    value: Option<u64>,
    saved: Option<u64>,
    read: Option<u64>,
    fast: bool,
) -> (Seq<AmdWrite>, Option<u64>) {
    match value {
        Some(x) => (seq![amd_limit_write(fast, x)], if saved is None { read } else { saved }),
        None => match saved {
            Some(y) => (seq![amd_limit_write(fast, y)], None),
            None => (Seq::empty(), None),
        },
    }
}

/// The clock writes: the bounds where set; where cleared after being set,
/// the widest bounds the limits allow.
pub open spec fn amd_clock_writes(g: Gpu) -> Seq<AmdWrite> {
    match g.clock_limits {
        Some(c) => (match c.max {
            Some(m) => seq![AmdWrite::MaxGfxClock(m)],
            None => Seq::empty(),
        }) + (match c.min {
            Some(m) => seq![AmdWrite::MinGfxClock(m)],
            None => Seq::empty(),
        }),
        None => if g.state.clock_limits_set {
            seq![
                AmdWrite::MaxGfxClock(spec_range_max_or(g.limits.clock_max, GPU_MAX_CLOCK)),
                AmdWrite::MinGfxClock(spec_range_min_or(g.limits.clock_min, GPU_MIN_CLOCK)),
            ]
        } else {
            Seq::empty()
        },
    }
}

/// All writes of a commit on a generic AMD GPU, given the hardware's current
/// fast and slow limits where they were read.
pub open spec fn amd_gpu_writes(g: Gpu, read_fast: Option<u64>, read_slow: Option<u64>) -> Seq<AmdWrite> {
    amd_ppt_step(amd_fast(g), g.state.saved_fast_ppt, read_fast, true).0
        + amd_ppt_step(amd_slow(g), g.state.saved_slow_ppt, read_slow, false).0
        + amd_clock_writes(g)
}

/// The driver state after such a commit.
pub open spec fn amd_gpu_state(g: Gpu, read_fast: Option<u64>, read_slow: Option<u64>) -> GpuState {
    GpuState {
        saved_fast_ppt: amd_ppt_step(amd_fast(g), g.state.saved_fast_ppt, read_fast, true).1,
        saved_slow_ppt: amd_ppt_step(amd_slow(g), g.state.saved_slow_ppt, read_slow, false).1,
        clock_limits_set: g.clock_limits is Some,
        fast_ppt_set: g.fast_ppt is Some,
        slow_ppt_set: g.slow_ppt is Some,
        ..g.state
    }
}

/// The writes that replay the current values after a wake from sleep.
pub open spec fn amd_resume_writes(g: Gpu) -> Seq<AmdWrite> {
    (match amd_fast(g) {
        Some(x) => seq![AmdWrite::FastLimit(x)],
        None => Seq::empty(),
    }) + (match amd_slow(g) {
        Some(x) => seq![AmdWrite::SlowLimit(x)],
        None => Seq::empty(),
    }) + match g.clock_limits {
        Some(c) => (match c.max {
            Some(m) => seq![AmdWrite::MaxGfxClock(m)],
            None => Seq::empty(),
        }) + (match c.min {
            Some(m) => seq![AmdWrite::MinGfxClock(m)],
            None => Seq::empty(),
        }),
        None => Seq::empty(),
    }
}

impl Gpu {
    fn amd_limits(&self) -> (r: (Option<u64>, Option<u64>))
        ensures
            r == (amd_fast(*self), amd_slow(*self)),
    {
        let div = match self.limits.ppt_divisor {
            Some(d) => if d == 0 {
                1
            } else {
                d
            },
            None => crate::commit::PPT_DIVISOR,
        };
        let fast = match self.fast_ppt {
            Some(w) => {
                let p = match w.checked_mul(div) {
                    Some(p) => p,
                    None => u64::MAX,
                };
                Some(
                    crate::commit::clamp_u64(
                        p,
                        range_min_or_fallback(&self.limits.fast_ppt, MIN_FAST_PPT),
                        range_max_or_fallback(&self.limits.fast_ppt, MAX_FAST_PPT),
                    ),
                )
            },
            None => None,
        };
        let slow = match self.slow_ppt {
            Some(w) => {
                let p = match w.checked_mul(div) {
                    Some(p) => p,
                    None => u64::MAX,
                };
                Some(
                    crate::commit::clamp_u64(
                        p,
                        range_min_or_fallback(&self.limits.slow_ppt, MIN_SLOW_PPT),
                        range_max_or_fallback(&self.limits.slow_ppt, MAX_SLOW_PPT),
                    ),
                )
            },
            None => None,
        };
        (fast, slow)
    }

    /// Plans a commit on a generic AMD GPU. `read_fast` and `read_slow` are
    /// the hardware's limits as read before the commit (`None` where they
    /// could not be read); the first forced limit remembers them, and a
    /// cleared limit puts the remembered value back.
    #[verifier::rlimit(100)]
    pub fn plan_amd_gpu(&mut self, read_fast: Option<u64>, read_slow: Option<u64>) -> (r: Vec<AmdWrite>)
        ensures
            r@ == amd_gpu_writes(*old(self), read_fast, read_slow),
            final(self).state == amd_gpu_state(*old(self), read_fast, read_slow),
            final(self).fast_ppt == old(self).fast_ppt,
            final(self).slow_ppt == old(self).slow_ppt,
            final(self).clock_limits == old(self).clock_limits,
            final(self).limits == old(self).limits,
    {
        let (fast, slow) = self.amd_limits();
        let mut out: Vec<AmdWrite> = Vec::new();
        match fast {
            Some(x) => {
                out.push(AmdWrite::FastLimit(x));
                if self.state.saved_fast_ppt.is_none() {
                    self.state.saved_fast_ppt = read_fast;
                }
            },
            None => {
                if let Some(y) = self.state.saved_fast_ppt {
                    out.push(AmdWrite::FastLimit(y));
                }
                self.state.saved_fast_ppt = None;
            },
        }
        let ghost a = out@;
        assert(a =~= amd_ppt_step(amd_fast(*old(self)), old(self).state.saved_fast_ppt, read_fast, true).0);
        match slow {
            Some(x) => {
                out.push(AmdWrite::SlowLimit(x));
                if self.state.saved_slow_ppt.is_none() {
                    self.state.saved_slow_ppt = read_slow;
                }
            },
            None => {
                if let Some(y) = self.state.saved_slow_ppt {
                    out.push(AmdWrite::SlowLimit(y));
                }
                self.state.saved_slow_ppt = None;
            },
        }
        let ghost b = out@;
        assert(b =~= a + amd_ppt_step(amd_slow(*old(self)), old(self).state.saved_slow_ppt, read_slow, false).0);
        match self.clock_limits {
            Some(c) => {
                if let Some(m) = c.max {
                    out.push(AmdWrite::MaxGfxClock(m));
                }
                if let Some(m) = c.min {
                    out.push(AmdWrite::MinGfxClock(m));
                }
            },
            None => {
                if self.state.clock_limits_set {
                    out.push(AmdWrite::MaxGfxClock(range_max_or_fallback(&self.limits.clock_max, GPU_MAX_CLOCK)));
                    out.push(AmdWrite::MinGfxClock(range_min_or_fallback(&self.limits.clock_min, GPU_MIN_CLOCK)));
                }
            },
        }
        self.state.clock_limits_set = self.clock_limits.is_some();
        self.state.fast_ppt_set = self.fast_ppt.is_some();
        self.state.slow_ppt_set = self.slow_ppt.is_some();
        assert(out@ =~= amd_gpu_writes(*old(self), read_fast, read_slow));
        out
    }

    /// The writes that replay the current values after a wake from sleep;
    /// the driver state stays as it is.
    pub fn plan_amd_gpu_resume(&self) -> (r: Vec<AmdWrite>)
        ensures
            r@ == amd_resume_writes(*self),
    {
        let (fast, slow) = self.amd_limits();
        let mut out: Vec<AmdWrite> = Vec::new();
        if let Some(x) = fast {
            out.push(AmdWrite::FastLimit(x));
        }
        if let Some(x) = slow {
            out.push(AmdWrite::SlowLimit(x));
        }
        if let Some(c) = self.clock_limits {
            if let Some(m) = c.max {
                out.push(AmdWrite::MaxGfxClock(m));
            }
            if let Some(m) = c.min {
                out.push(AmdWrite::MinGfxClock(m));
            }
        }
        assert(out@ =~= amd_resume_writes(*self));
        out
    }
}

} // verus!
