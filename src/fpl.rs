//! The forced-performance-level coordinator: one hardware mode switch that
//! both the CPU and the GPU controllers need in manual mode before their fixed
//! limits take effect.
use vstd::prelude::*;

verus! {

/// The hardware's performance-level mode.
#[derive(Clone, Copy, Debug, PartialEq, Eq, Structural)]
pub enum PerformanceLevel {
    Auto,
    Manual,
}

/// Which controller asks for manual mode.
#[derive(Clone, Copy, Debug, PartialEq, Eq, Structural)]
pub enum Component {
    /// The CPU of the given index.
    Cpu(usize),
    Gpu,
}

/// Shared state of the mode switch: which CPUs and whether the GPU need
/// manual mode, and the level last written to the hardware.
#[derive(Debug)]
pub struct ForcePerformanceLevel {
    /// Entry `i` is set where CPU `i` needs manual mode.
    pub cpu: Vec<bool>,
    pub gpu: bool,
    /// The level last written successfully; `None` where unknown.
    pub written: Option<PerformanceLevel>,
}

/// Entry `j` of `flags` is present and set.
pub open spec fn flag_at(flags: Seq<bool>, j: int) -> bool {
    0 <= j < flags.len() && flags[j]
}

/// The coordinator's state as values: the CPUs that need manual mode,
/// whether the GPU does, and the level last written.
pub type LevelState = (Set<int>, bool, Option<PerformanceLevel>);

/// Some controller needs manual mode.
pub open spec fn st_manual(v: LevelState) -> bool {
    (exists|j: int| v.0.contains(j)) || v.1
}

/// The level the hardware should be at.
pub open spec fn st_target(v: LevelState) -> PerformanceLevel {
    if st_manual(v) {
        PerformanceLevel::Manual
    } else {
        PerformanceLevel::Auto
    }
}

/// The state after `component` says whether it needs manual mode.
pub open spec fn st_request(v: LevelState, component: Component, wants: bool) -> LevelState {
    match component {
        Component::Cpu(i) => (if wants {
            v.0.insert(i as int)
        } else {
            v.0.remove(i as int)
        }, v.1, v.2),
        Component::Gpu => (v.0, wants, v.2),
    }
}

impl ForcePerformanceLevel {
    pub open spec fn state(self) -> LevelState {
        (Set::new(|j: int| flag_at(self.cpu@, j)), self.gpu, self.written)
    }

    pub proof fn lemma_state_manual(self)
        ensures
            self.spec_needs_manual() == st_manual(self.state()),
            self.spec_target() == st_target(self.state()),
    {
        if self.cpu_wants() {
            let j = choose|j: int| #[trigger] flag_at(self.cpu@, j);
            assert(self.state().0.contains(j));
        }
        if exists|j: int| self.state().0.contains(j) {
            let j = choose|j: int| self.state().0.contains(j);
            assert(flag_at(self.cpu@, j));
        }
    }

    /// Some CPU needs manual mode.
    pub open spec fn cpu_wants(self) -> bool {
        exists|i: int| #[trigger] flag_at(self.cpu@, i)
    }

    pub open spec fn spec_needs_manual(self) -> bool {
        self.cpu_wants() || self.gpu
    }

    pub open spec fn spec_target(self) -> PerformanceLevel {
        if self.spec_needs_manual() {
            PerformanceLevel::Manual
        } else {
            PerformanceLevel::Auto
        }
    }

    pub fn new() -> (r: Self)
        ensures
            !r.spec_needs_manual(),
            r.written is None,
    {
        ForcePerformanceLevel { cpu: Vec::new(), gpu: false, written: None }
    }

    /// Forgets every request and what was written.
    pub fn reset(&mut self)
        ensures
            !final(self).spec_needs_manual(),
            final(self).written is None,
    {
        self.cpu = Vec::new();
        self.gpu = false;
        self.written = None;
    }

    /// Records whether `component` needs manual mode.
    pub fn request(&mut self, component: Component, wants_manual: bool)
        ensures
            final(self).state() == st_request(old(self).state(), component, wants_manual),
            final(self).written == old(self).written,
            match component {
                Component::Cpu(i) => {
                    &&& final(self).gpu == old(self).gpu
                    &&& forall|j: int|
                        0 <= j ==> #[trigger] flag_at(final(self).cpu@, j) == if j == i {
                            wants_manual
                        } else {
                            flag_at(old(self).cpu@, j)
                        }
                },
                Component::Gpu => {
                    &&& final(self).cpu@ == old(self).cpu@
                    &&& final(self).gpu == wants_manual
                },
            },
    {
        match component {
            Component::Cpu(index) => {
                if index >= self.cpu.len() && !wants_manual {
                    return ;
                }
                while self.cpu.len() <= index
                    invariant
                        forall|j: int|
                            #![trigger flag_at(self.cpu@, j)]
                            flag_at(self.cpu@, j) == flag_at(old(self).cpu@, j),
                        self.cpu@.len() <= index as int + 1 || self.cpu@.len() == old(self).cpu@.len(),
                        self.gpu == old(self).gpu,
                        self.written == old(self).written,
                    decreases index as int + 1 - self.cpu@.len(),
                {
                    let ghost before = self.cpu@;
                    self.cpu.push(false);
                    assert forall|j: int| #[trigger] flag_at(self.cpu@, j) == flag_at(before, j) by {
                        if 0 <= j < before.len() {
                            assert(self.cpu@[j] == before[j]);
                        }
                    }
                }
                let ghost before = self.cpu@;
                self.cpu.set(index, wants_manual);
                assert forall|j: int|
                    0 <= j implies #[trigger] flag_at(self.cpu@, j) == if j == index {
                    wants_manual
                } else {
                    flag_at(before, j)
                } by {
                    if 0 <= j < before.len() && j != index {
                        assert(self.cpu@[j] == before[j]);
                    }
                }
            },
            Component::Gpu => {
                self.gpu = wants_manual;
            },
        }
        proof {
            match component {
                Component::Cpu(i) => {
                    assert(self.state().0 =~= st_request(old(self).state(), component, wants_manual).0);
                },
                Component::Gpu => {
                    assert(self.state().0 =~= old(self).state().0);
                },
            }
        }
    }

    /// Some controller needs manual mode.
    pub fn needs_manual(&self) -> (r: bool)
        ensures
            r == self.spec_needs_manual(),
    {
        if self.gpu {
            return true;
        }
        let mut i: usize = 0;
        while i < self.cpu.len()
            invariant
                i <= self.cpu@.len(),
                forall|j: int| 0 <= j < i ==> !#[trigger] flag_at(self.cpu@, j),
            decreases self.cpu@.len() - i,
        {
            if self.cpu[i] {
                assert(flag_at(self.cpu@, i as int));
                return true;
            }
            i = i + 1;
        }
        false
    }

    /// The level the hardware should be at.
    pub fn target(&self) -> (r: PerformanceLevel)
        ensures
            r == self.spec_target(),
    {
        if self.needs_manual() {
            PerformanceLevel::Manual
        } else {
            PerformanceLevel::Auto
        }
    }

    /// The level to write now, if any: the target where it differs from the
    /// level last written, and always where `force` is set (right after a
    /// wake from sleep, or on hardware known to drift back to auto).
    pub fn enforce(&self, force: bool) -> (r: Option<PerformanceLevel>)
        ensures
            r == (if force || self.written != Some(self.spec_target()) {
                Some(self.spec_target())
            } else {
                None
            }),
    {
        let target = self.target();
        if force {
            return Some(target);
        }
        match self.written {
            Some(level) => {
                if level == target {
                    None
                } else {
                    Some(target)
                }
            },
            None => Some(target),
        }
    }

    /// Records the outcome of writing `level`: a failed write leaves what the
    /// hardware holds unknown.
    pub fn record_write(&mut self, level: PerformanceLevel, ok: bool)
        ensures
            final(self).cpu@ == old(self).cpu@,
            final(self).gpu == old(self).gpu,
            final(self).written == (if ok {
                Some(level)
            } else {
                None
            }),
    {
        self.written = if ok {
            Some(level)
        } else {
            None
        };
    }
}

} // verus!
