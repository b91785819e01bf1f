//! The CPU array: per-CPU online flag, governor and clock bounds, and the
//! symmetric-multithreading switch.
use vstd::prelude::*;
use crate::limits::{GenericCpuLimit, GenericCpusLimit};
use crate::persist::{CpuJson, DriverJson, MinMaxJson};

verus! {

/// Optional lower and upper bounds of a value.
#[derive(Clone, Copy, Debug)]
pub struct MinMax<T> {
    pub max: Option<T>,
    pub min: Option<T>,
}

/// Ephemeral driver state of one CPU.
#[derive(Clone, Copy, Debug)]
pub struct CpuState {
    /// Clock bounds are currently forced on the hardware.
    pub clock_limits_set: bool,
    /// The values are being replayed after a wake from sleep.
    pub is_resuming: bool,
    /// The online flag is to be written on the next commit.
    pub do_set_online: bool,
}

/// One CPU (hardware thread).
#[derive(Debug)]
pub struct Cpu {
    pub online: bool,
    pub clock_limits: Option<MinMax<u64>>,
    pub governor: String,
    pub limits: GenericCpuLimit,
    pub index: usize,
    pub state: CpuState,
}

/// All CPUs of the machine.
#[derive(Debug)]
pub struct Cpus {
    pub cpus: Vec<Cpu>,
    pub smt: bool,
    pub smt_capable: bool,
    /// One governor list applies to every CPU.
    pub global_governors: bool,
    pub provider: DriverJson,
}

/// The default governor of a CPU that has no stored one.
pub open spec fn default_governor() -> Seq<char> {
    "schedutil"@
}

impl Cpu {
    pub fn from_limits(index: usize, limits: GenericCpuLimit) -> (r: Self)
        ensures
            r.online,
            r.clock_limits is None,
            r.governor@ == default_governor(),
            r.limits == limits,
            r.index == index,
            !r.state.clock_limits_set,
            !r.state.is_resuming,
            r.state.do_set_online,
    {
        Cpu {
            online: true,
            clock_limits: None,
            governor: String::from_str("schedutil"),
            limits,
            index,
            state: CpuState { clock_limits_set: false, is_resuming: false, do_set_online: true },
        }
    }

    /// Restores a CPU from its stored record; clock bounds are kept only where
    /// the limits allow clock control.
    pub fn from_json_and_limits(other: CpuJson, index: usize, limits: GenericCpuLimit) -> (r: Self)
        ensures
            r.online == other.online,
            r.governor == other.governor,
            r.clock_limits == (if limits.clock_min is Some || limits.clock_max is Some {
                match other.clock_limits {
                    Some(c) => Some(MinMax { max: c.max, min: c.min }),
                    None => None,
                }
            } else {
                None
            }),
            r.limits == limits,
            r.index == index,
            !r.state.clock_limits_set,
            !r.state.is_resuming,
            r.state.do_set_online,
    {
        let controllable = limits.clock_min.is_some() || limits.clock_max.is_some();
        let clock_limits = if controllable {
            match other.clock_limits {
                Some(c) => Some(MinMax { max: c.max, min: c.min }),
                None => None,
            }
        } else {
            None
        };
        Cpu {
            online: other.online,
            clock_limits,
            governor: other.governor,
            limits,
            index,
            state: CpuState { clock_limits_set: false, is_resuming: false, do_set_online: true },
        }
    }

    pub fn json(&self) -> (r: CpuJson)
        ensures
            r.online == self.online,
            r.governor == self.governor,
            r.clock_limits == match self.clock_limits {
                Some(c) => Some(MinMaxJson { max: c.max, min: c.min }),
                None => None,
            },
            r.root is None,
    {
        CpuJson {
            online: self.online,
            clock_limits: match self.clock_limits {
                Some(c) => Some(MinMaxJson { max: c.max, min: c.min }),
                None => None,
            },
            governor: self.governor.clone(),
            root: None,
        }
    }
}

/// The online flags of `cpus`.
pub open spec fn online_of(cpus: Seq<Cpu>) -> Seq<bool> {
    Seq::new(cpus.len(), |i: int| cpus[i].online)
}

/// `i` is the highest even index whose CPU is online.
pub open spec fn is_highest_even_online(online: Seq<bool>, i: int) -> bool {
    &&& 0 <= i < online.len()
    &&& i % 2 == 0
    &&& online[i]
    &&& forall|j: int| i < j < online.len() && j % 2 == 0 ==> !online[j]
}

/// Online flags after SMT is switched on: those before, plus the odd sibling
/// of the highest online even CPU where that sibling exists.
pub open spec fn smt_on_online(online: Seq<bool>) -> Seq<bool> {
    Seq::new(
        online.len(),
        |k: int| online[k] || (k % 2 == 1 && is_highest_even_online(online, k - 1)),
    )
}

/// Online flags after SMT is switched off: only the even CPUs that were online.
pub open spec fn smt_off_online(online: Seq<bool>) -> Seq<bool> {
    Seq::new(online.len(), |k: int| online[k] && k % 2 == 0)
}

/// `after` differs from `before` at most in the online flag.
pub open spec fn same_but_online(after: Cpu, before: Cpu) -> bool {
    &&& after.clock_limits == before.clock_limits
    &&& after.governor == before.governor
    &&& after.limits == before.limits
    &&& after.index == before.index
    &&& after.state == before.state
}

/// `after` differs from `before` at most in the governor.
pub open spec fn same_but_governor(after: Cpu, before: Cpu) -> bool {
    &&& after.online == before.online
    &&& after.clock_limits == before.clock_limits
    &&& after.limits == before.limits
    &&& after.index == before.index
    &&& after.state == before.state
}

/// `after` differs from `before` at most in the clock bounds.
pub open spec fn same_but_clocks(after: Cpu, before: Cpu) -> bool {
    &&& after.online == before.online
    &&& after.governor == before.governor
    &&& after.limits == before.limits
    &&& after.index == before.index
    &&& after.state == before.state
}

impl Cpus {
    pub open spec fn online_view(self) -> Seq<bool> {
        online_of(self.cpus@)
    }

    pub fn len(&self) -> (r: usize)
        ensures
            r == self.cpus@.len(),
    {
        self.cpus.len()
    }

    /// The online flag of every CPU.
    pub fn online_flags(&self) -> (r: Vec<bool>)
        ensures
            r@ == self.online_view(),
    {
        let mut r: Vec<bool> = Vec::new();
        let mut i: usize = 0;
        while i < self.cpus.len()
            invariant
                i <= self.cpus@.len(),
                r@ =~= self.online_view().subrange(0, i as int),
            decreases self.cpus@.len() - i,
        {
            r.push(self.cpus[i].online);
            i = i + 1;
        }
        assert(r@ =~= self.online_view());
        r
    }

    /// The governor of every CPU.
    pub fn governors(&self) -> (r: Vec<String>)
        ensures
            r@.len() == self.cpus@.len(),
            forall|i: int| 0 <= i < r@.len() ==> r@[i] == self.cpus@[i].governor,
    {
        let mut r: Vec<String> = Vec::new();
        let mut i: usize = 0;
        while i < self.cpus.len()
            invariant
                i <= self.cpus@.len(),
                r@.len() == i,
                forall|j: int| 0 <= j < i ==> r@[j] == self.cpus@[j].governor,
            decreases self.cpus@.len() - i,
        {
            r.push(self.cpus[i].governor.clone());
            i = i + 1;
        }
        r
    }

    /// Sets the online flag of CPU `index`; an index past the end changes nothing.
    pub fn set_online(&mut self, index: usize, online: bool)
        ensures
            final(self).cpus@.len() == old(self).cpus@.len(),
            final(self).smt == old(self).smt,
            final(self).smt_capable == old(self).smt_capable,
            final(self).global_governors == old(self).global_governors,
            final(self).provider == old(self).provider,
            forall|k: int|
                0 <= k < old(self).cpus@.len() ==> same_but_online(
                    #[trigger] final(self).cpus@[k],
                    old(self).cpus@[k],
                ) && final(self).cpus@[k].online == (if k == index {
                    online
                } else {
                    old(self).cpus@[k].online
                }),
    {
        if index < self.cpus.len() {
            self.cpus[index].online = online;
        }
    }

    /// Sets the governor of CPU `index`; an index past the end changes nothing.
    pub fn set_governor(&mut self, index: usize, governor: String)
        ensures
            final(self).cpus@.len() == old(self).cpus@.len(),
            final(self).smt == old(self).smt,
            final(self).smt_capable == old(self).smt_capable,
            final(self).global_governors == old(self).global_governors,
            final(self).provider == old(self).provider,
            forall|k: int|
                0 <= k < old(self).cpus@.len() ==> same_but_governor(
                    #[trigger] final(self).cpus@[k],
                    old(self).cpus@[k],
                ) && final(self).cpus@[k].governor == (if k == index {
                    governor
                } else {
                    old(self).cpus@[k].governor
                }),
    {
        if index < self.cpus.len() {
            self.cpus[index].governor = governor;
        }
    }

    /// Sets the clock bounds of CPU `index`; an index past the end changes nothing.
    pub fn set_clock_limits(&mut self, index: usize, limits: Option<MinMax<u64>>)
        ensures
            final(self).cpus@.len() == old(self).cpus@.len(),
            final(self).smt == old(self).smt,
            final(self).smt_capable == old(self).smt_capable,
            final(self).global_governors == old(self).global_governors,
            final(self).provider == old(self).provider,
            forall|k: int|
                0 <= k < old(self).cpus@.len() ==> same_but_clocks(
                    #[trigger] final(self).cpus@[k],
                    old(self).cpus@[k],
                ) && final(self).cpus@[k].clock_limits == (if k == index {
                    limits
                } else {
                    old(self).cpus@[k].clock_limits
                }),
    {
        if index < self.cpus.len() {
            self.cpus[index].clock_limits = limits;
        }
    }

    /// Switches SMT and returns the resulting online flags. Switching it on
    /// brings the odd sibling of the highest online even CPU online;
    /// switching it off takes every odd CPU offline. Asking for the current
    /// state changes nothing.
    pub fn set_smt(&mut self, status: bool) -> (r: Vec<bool>)
        ensures
            final(self).smt == status,
            final(self).cpus@.len() == old(self).cpus@.len(),
            final(self).smt_capable == old(self).smt_capable,
            final(self).global_governors == old(self).global_governors,
            final(self).provider == old(self).provider,
            forall|k: int|
                0 <= k < old(self).cpus@.len() ==> same_but_online(
                    #[trigger] final(self).cpus@[k],
                    old(self).cpus@[k],
                ),
            final(self).online_view() == (if old(self).smt == status {
                old(self).online_view()
            } else if status {
                smt_on_online(old(self).online_view())
            } else {
                smt_off_online(old(self).online_view())
            }),
            r@ == final(self).online_view(),
    {
        let ghost before = self.online_view();
        let n = self.cpus.len();
        if self.smt == status {
        } else if status {
            self.smt = true;
            let mut highest: Option<usize> = None;
            let mut i: usize = 0;
            while i < n
                invariant
                    n == self.cpus@.len(),
                    self.online_view() == before,
                    i <= n,
                    match highest {
                        Some(h) => h < i && h % 2 == 0 && before[h as int] && forall|j: int|
                            h < j < i && j % 2 == 0 ==> !before[j],
                        None => forall|j: int| 0 <= j < i && j % 2 == 0 ==> !before[j],
                    },
                decreases n - i,
            {
                if self.cpus[i].online && i % 2 == 0 {
                    highest = Some(i);
                }
                i = i + 1;
            }
            let ghost mid = self.cpus@;
            if let Some(h) = highest {
                if h + 1 < n {
                    self.cpus[h + 1].online = true;
                }
                assert(is_highest_even_online(before, h as int));
                assert forall|k: int| 0 <= k < n implies self.online_view()[k] == smt_on_online(
                    before,
                )[k] by {
                    if k % 2 == 1 && is_highest_even_online(before, k - 1) {
                        if k - 1 != h {
                            if k - 1 < h {
                                assert(!before[h as int]);
                            } else {
                                assert(!before[k - 1]);
                            }
                        }
                    }
                }
            } else {
                assert forall|k: int| 0 <= k < n implies self.online_view()[k] == smt_on_online(
                    before,
                )[k] by {
                    if k % 2 == 1 && is_highest_even_online(before, k - 1) {
                        assert(!before[k - 1]);
                    }
                }
            }
            assert(self.online_view() =~= smt_on_online(before));
        } else {
            self.smt = false;
            let mut i: usize = 0;
            while i < n
                invariant
                    n == self.cpus@.len(),
                    n == before.len(),
                    i <= n,
                    !self.smt,
                    forall|k: int|
                        0 <= k < n ==> same_but_online(
                            #[trigger] self.cpus@[k],
                            old(self).cpus@[k],
                        ),
                    forall|k: int|
                        0 <= k < n ==> #[trigger] self.cpus@[k].online == (if k < i {
                            before[k] && k % 2 == 0
                        } else {
                            before[k]
                        }),
                    self.smt_capable == old(self).smt_capable,
                    self.global_governors == old(self).global_governors,
                    self.provider == old(self).provider,
                decreases n - i,
            {
                if i % 2 == 1 {
                    self.cpus[i].online = false;
                }
                i = i + 1;
            }
            assert(self.online_view() =~= smt_off_online(before));
        }
        self.online_flags()
    }
}

/// Index of the first `-` in `s`, if any.
pub open spec fn first_dash(s: Seq<char>, k: int) -> bool {
    &&& 0 <= k < s.len()
    &&& s[k] == '-'
    &&& forall|j: int| 0 <= j < k ==> s[j] != '-'
}

/// Number of CPUs from the kernel's list of present CPUs (`0-7`): one more
/// than the number after the first dash; `None` where there is no dash or
/// what follows it is not a number that fits.
pub fn cpu_count(present: &str) -> (r: Option<usize>)
    ensures
        match r {
            Some(n) => exists|k: int|
                first_dash(present@, k) && crate::community::is_digits(present@.subrange(k + 1, present@.len() as int))
                    && n == crate::community::digits_value(present@.subrange(k + 1, present@.len() as int)) + 1,
            None => (forall|k: int| !first_dash(present@, k)) || exists|k: int|
                first_dash(present@, k) && (!crate::community::is_digits(present@.subrange(k + 1, present@.len() as int))
                    || crate::community::digits_value(present@.subrange(k + 1, present@.len() as int)) + 1 > usize::MAX),
        },
{
    let n = present.unicode_len();
    let mut k: usize = 0;
    while k < n && present.get_char(k) != '-'
        invariant
            n == present@.len(),
            k <= n,
            forall|j: int| 0 <= j < k ==> present@[j] != '-',
        decreases n - k,
    {
        k = k + 1;
    }
    if k == n {
        assert forall|j: int| !first_dash(present@, j) by {
            if first_dash(present@, j) {
                assert(present@[j] != '-');
            }
        }
        return None;
    }
    assert(first_dash(present@, k as int));
    let rest = present.substring_char(k + 1, n);
    match crate::community::parse_decimal(rest) {
        Some(v) => {
            if v >= usize::MAX as u128 {
                None
            } else {
                Some((v + 1) as usize)
            }
        },
        None => None,
    }
}

} // verus!
