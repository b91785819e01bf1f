//! The apply/commit worker: it applies queued intents to the controllers,
//! and once per drained batch that changed something runs one commit pass,
//! releases the callers waiting for an idle queue, and persists one snapshot.
use vstd::prelude::*;
use crate::commit::{settings_plan, HwWrite};
use crate::cpu::{Cpus, MinMax};
use crate::fpl::ForcePerformanceLevel;
use crate::persist::{DriverJson, SettingsJson};
use crate::settings::{Battery, General, Gpu, Settings, VariantInfo};

verus! {

/// What an intent hands back to the caller waiting on it.
#[derive(Debug)]
pub enum Reply {
    Nothing,
    Flag(bool),
    Flags(Vec<bool>),
    Clocks(Option<MinMax<u64>>),
    Governors(Vec<String>),
    Ppt(Option<u64>, Option<u64>),
    Value(Option<u64>),
    Mode(Option<String>),
    Text(String),
    Variant(VariantInfo),
    Provider(DriverJson),
    Snapshot(SettingsJson),
    Limits(crate::caps::SettingsLimits),
}

/// Intents for the CPU controllers.
#[derive(Debug)]
pub enum CpuMessage {
    SetCpuOnline(usize, bool),
    SetCpusOnline(Vec<bool>),
    SetSmt(bool),
    GetSmt,
    GetCpusOnline,
    SetClockLimits(usize, Option<MinMax<u64>>),
    GetClockLimits(usize),
    SetCpuGovernor(usize, String),
    SetCpusGovernor(Vec<String>),
    GetCpusGovernor,
}

/// Intents for the GPU controller.
#[derive(Debug)]
pub enum GpuMessage {
    SetPpt(Option<u64>, Option<u64>),
    GetPpt,
    SetClockLimits(Option<MinMax<u64>>),
    GetClockLimits,
    SetMemoryClock(Option<u64>),
    GetMemoryClock,
}

/// Intents for the battery controller.
#[derive(Debug)]
pub enum BatteryMessage {
    SetChargeRate(Option<u64>),
    GetChargeRate,
    SetChargeMode(Option<String>),
    GetChargeMode,
    SetChargeLimit(Option<u64>),
    GetChargeLimit,
}

/// Intents for the general controller.
#[derive(Debug)]
pub enum GeneralMessage {
    SetPersistent(bool),
    GetPersistent,
    GetCurrentProfileName,
    GetPath,
    GetCurrentVariant,
    ApplyNow,
}

/// An intent submitted to the worker.
#[derive(Debug)]
pub enum ApiMessage {
    Battery(BatteryMessage),
    Cpu(CpuMessage),
    Gpu(GpuMessage),
    General(GeneralMessage),
    /// The machine woke from sleep: replay the current values.
    OnResume,
    OnPluggedIn,
    OnUnplugged,
    /// Register a caller to release after the next commit.
    WaitForEmptyQueue,
    /// Replace the whole driver set (a variant, the main settings or the
    /// system defaults, as built by the host).
    Load(Settings),
    /// Which driver backs a subsystem: "battery", "cpu"/"cpus", "gpu", else general.
    GetProvider(String),
    /// Hand out the current snapshot for upload to the community store.
    UploadCurrentVariant,
    /// What every controller lets the user set, given the governors the
    /// kernel offers.
    GetLimits(Vec<String>),
}

impl CpuMessage {
    pub open spec fn spec_is_modify(&self) -> bool {
        match self {
            CpuMessage::SetCpuOnline(..) | CpuMessage::SetCpusOnline(..) | CpuMessage::SetSmt(..)
            | CpuMessage::SetClockLimits(..) | CpuMessage::SetCpuGovernor(..)
            | CpuMessage::SetCpusGovernor(..) => true,
            _ => false,
        }
    }

    /// The intent changes settings.
    pub fn is_modify(&self) -> (r: bool)
        ensures
            r == self.spec_is_modify(),
    {
        match self {
            CpuMessage::SetCpuOnline(..) | CpuMessage::SetCpusOnline(..) | CpuMessage::SetSmt(..)
            | CpuMessage::SetClockLimits(..) | CpuMessage::SetCpuGovernor(..)
            | CpuMessage::SetCpusGovernor(..) => true,
            _ => false,
        }
    }

    /// What applying the intent does to `before`, giving `after` and `r`
    /// (whether it changed settings, and the reply).
    pub open spec fn spec_step(self, before: Cpus, after: Cpus, r: (bool, Reply)) -> bool {
        &&& r.0 == self.spec_is_modify()
        &&& !self.spec_is_modify() ==> after == before
        &&& after.cpus@.len() == before.cpus@.len()
        &&& match self {
            CpuMessage::SetCpuOnline(i, s) => after.online_view() == (if i
                < before.cpus@.len() {
                before.online_view().update(i as int, s)
            } else {
                before.online_view()
            }),
            CpuMessage::SetCpusOnline(v) => after.online_view() == Seq::new(
                before.cpus@.len(),
                |k: int|
                    if k < v@.len() {
                        v@[k]
                    } else {
                        before.online_view()[k]
                    },
            ),
            CpuMessage::SetSmt(s) => {
        &&& after.smt == s
        &&& after.online_view() == (if before.smt == s {
                    before.online_view()
                } else if s {
                    crate::cpu::smt_on_online(before.online_view())
                } else {
                    crate::cpu::smt_off_online(before.online_view())
                })
        &&& r.1 matches Reply::Flags(f) && f@ == after.online_view()
            },
            CpuMessage::GetSmt => r.1 == Reply::Flag(before.smt),
            CpuMessage::GetCpusOnline => r.1 matches Reply::Flags(f) && f@ == before.online_view(),
            CpuMessage::SetClockLimits(i, c) => forall|k: int|
                0 <= k < before.cpus@.len() ==> (#[trigger] after.cpus@[k]).clock_limits
                    == (if k == i {
                    c
                } else {
                    before.cpus@[k].clock_limits
                }),
            CpuMessage::GetClockLimits(i) => r.1 == (if i < before.cpus@.len() {
                Reply::Clocks(before.cpus@[i as int].clock_limits)
            } else {
                Reply::Nothing
            }),
            CpuMessage::SetCpuGovernor(i, g) => forall|k: int|
                0 <= k < before.cpus@.len() ==> (#[trigger] after.cpus@[k]).governor
                    == (if k == i {
                    g
                } else {
                    before.cpus@[k].governor
                }),
            CpuMessage::SetCpusGovernor(v) => forall|k: int|
                0 <= k < before.cpus@.len() ==> (#[trigger] after.cpus@[k]).governor
                    == (if k < v@.len() {
                    v@[k]
                } else {
                    before.cpus@[k].governor
                }),
            CpuMessage::GetCpusGovernor => r.1 matches Reply::Governors(g) && g@.len() == before.cpus@.len() && forall|k: int|
                0 <= k < g@.len() ==> #[trigger] g@[k] == before.cpus@[k].governor
        }
    }

    /// Applies the intent to the CPU array; returns whether it changed
    /// settings, and the reply.
    pub fn process(self, cpus: &mut Cpus) -> (r: (bool, Reply))
        ensures
            self.spec_step(*old(cpus), *final(cpus), r),

    {
        let dirty = self.is_modify();
        let reply = match self {
            CpuMessage::SetCpuOnline(index, status) => {
                cpus.set_online(index, status);
                assert(cpus.online_view() =~= (if index < old(cpus).cpus@.len() {
                    old(cpus).online_view().update(index as int, status)
                } else {
                    old(cpus).online_view()
                }));
                Reply::Nothing
            },
            CpuMessage::SetCpusOnline(flags) => {
                let n = flags.len();
                let mut i: usize = 0;
                while i < n
                    invariant
                        n == flags@.len(),
                        i <= n,
                        cpus.cpus@.len() == old(cpus).cpus@.len(),
                        forall|k: int|
                            0 <= k < old(cpus).cpus@.len() ==> #[trigger] cpus.cpus@[k].online == (
                            if k < i && k < n {
                                flags@[k]
                            } else {
                                old(cpus).cpus@[k].online
                            }),
                    decreases n - i,
                {
                    cpus.set_online(i, flags[i]);
                    i = i + 1;
                }
                assert(cpus.online_view() =~= Seq::new(
                    old(cpus).cpus@.len(),
                    |k: int|
                        if k < flags@.len() {
                            flags@[k]
                        } else {
                            old(cpus).online_view()[k]
                        },
                ));
                Reply::Nothing
            },
            CpuMessage::SetSmt(status) => Reply::Flags(cpus.set_smt(status)),
            CpuMessage::GetSmt => Reply::Flag(cpus.smt),
            CpuMessage::GetCpusOnline => Reply::Flags(cpus.online_flags()),
            CpuMessage::SetClockLimits(index, clocks) => {
                cpus.set_clock_limits(index, clocks);
                Reply::Nothing
            },
            CpuMessage::GetClockLimits(index) => {
                if index < cpus.cpus.len() {
                    Reply::Clocks(cpus.cpus[index].clock_limits)
                } else {
                    Reply::Nothing
                }
            },
            CpuMessage::SetCpuGovernor(index, gov) => {
                cpus.set_governor(index, gov);
                Reply::Nothing
            },
            CpuMessage::SetCpusGovernor(govs) => {
                let n = govs.len();
                let mut i: usize = 0;
                while i < n
                    invariant
                        n == govs@.len(),
                        i <= n,
                        cpus.cpus@.len() == old(cpus).cpus@.len(),
                        forall|k: int|
                            0 <= k < old(cpus).cpus@.len() ==> #[trigger] cpus.cpus@[k].governor
                                == (if k < i && k < n {
                                govs@[k]
                            } else {
                                old(cpus).cpus@[k].governor
                            }),
                    decreases n - i,
                {
                    cpus.set_governor(i, govs[i].clone());
                    i = i + 1;
                }
                Reply::Nothing
            },
            CpuMessage::GetCpusGovernor => Reply::Governors(cpus.governors()),
        };
        (dirty, reply)
    }
}

impl GpuMessage {
    pub open spec fn spec_is_modify(&self) -> bool {
        match self {
            GpuMessage::SetPpt(..) | GpuMessage::SetClockLimits(..) | GpuMessage::SetMemoryClock(
                ..,
            ) => true,
            _ => false,
        }
    }

    /// The intent changes settings.
    pub fn is_modify(&self) -> (r: bool)
        ensures
            r == self.spec_is_modify(),
    {
        match self {
            GpuMessage::SetPpt(..) | GpuMessage::SetClockLimits(..) | GpuMessage::SetMemoryClock(
                ..,
            ) => true,
            _ => false,
        }
    }

    /// What applying the intent does to `before`, giving `after` and `r`
    /// (whether it changed settings, and the reply).
    pub open spec fn spec_step(self, before: Gpu, after: Gpu, r: (bool, Reply)) -> bool {
        &&& r.0 == self.spec_is_modify()
        &&& !self.spec_is_modify() ==> after == before
        &&& after.limits == before.limits
        &&& after.provider == before.provider
        &&& after.state == before.state
        &&& match self {
            GpuMessage::SetPpt(fast, slow) => after.fast_ppt == fast && after.slow_ppt
                == slow && after.clock_limits == before.clock_limits && after.memory_clock == before.memory_clock,
            GpuMessage::GetPpt => r.1 == Reply::Ppt(before.fast_ppt, before.slow_ppt),
            GpuMessage::SetClockLimits(c) => after.clock_limits == c && after.fast_ppt
                == before.fast_ppt && after.slow_ppt == before.slow_ppt && after.memory_clock == before.memory_clock,
            GpuMessage::GetClockLimits => r.1 == Reply::Clocks(before.clock_limits),
            GpuMessage::SetMemoryClock(m) => after.memory_clock == m && after.fast_ppt
                == before.fast_ppt && after.slow_ppt == before.slow_ppt && after.clock_limits == before.clock_limits,
            GpuMessage::GetMemoryClock => r.1 == Reply::Value(before.memory_clock)
        }
    }

    /// Applies the intent to the GPU controller; returns whether it changed
    /// settings, and the reply.
    pub fn process(self, gpu: &mut Gpu) -> (r: (bool, Reply))
        ensures
            self.spec_step(*old(gpu), *final(gpu), r),

    {
        let dirty = self.is_modify();
        let reply = match self {
            GpuMessage::SetPpt(fast, slow) => {
                gpu.fast_ppt = fast;
                gpu.slow_ppt = slow;
                Reply::Nothing
            },
            GpuMessage::GetPpt => Reply::Ppt(gpu.fast_ppt, gpu.slow_ppt),
            GpuMessage::SetClockLimits(c) => {
                gpu.clock_limits = c;
                Reply::Nothing
            },
            GpuMessage::GetClockLimits => Reply::Clocks(gpu.clock_limits),
            GpuMessage::SetMemoryClock(m) => {
                gpu.memory_clock = m;
                Reply::Nothing
            },
            GpuMessage::GetMemoryClock => Reply::Value(gpu.memory_clock),
        };
        (dirty, reply)
    }
}

impl BatteryMessage {
    pub open spec fn spec_is_modify(&self) -> bool {
        match self {
            BatteryMessage::SetChargeRate(..) | BatteryMessage::SetChargeMode(..)
            | BatteryMessage::SetChargeLimit(..) => true,
            _ => false,
        }
    }

    /// The intent changes settings.
    pub fn is_modify(&self) -> (r: bool)
        ensures
            r == self.spec_is_modify(),
    {
        match self {
            BatteryMessage::SetChargeRate(..) | BatteryMessage::SetChargeMode(..)
            | BatteryMessage::SetChargeLimit(..) => true,
            _ => false,
        }
    }

    /// What applying the intent does to `before`, giving `after` and `r`
    /// (whether it changed settings, and the reply).
    pub open spec fn spec_step(self, before: Battery, after: Battery, r: (bool, Reply)) -> bool {
        &&& r.0 == self.spec_is_modify()
        &&& !self.spec_is_modify() ==> after == before
        &&& after.events == before.events
        &&& after.limits == before.limits
        &&& after.provider == before.provider
        &&& match self {
            BatteryMessage::SetChargeRate(v) => after.charge_rate == v && after.charge_mode == before.charge_mode && after.charge_limit == before.charge_limit,
            BatteryMessage::GetChargeRate => r.1 == Reply::Value(before.charge_rate),
            BatteryMessage::SetChargeMode(m) => after.charge_mode == m && after.charge_rate == before.charge_rate && after.charge_limit == before.charge_limit,
            BatteryMessage::GetChargeMode => r.1 matches Reply::Mode(m) && m == before.charge_mode,
            BatteryMessage::SetChargeLimit(v) => after.charge_limit == v && after.charge_rate == before.charge_rate && after.charge_mode == before.charge_mode,
            BatteryMessage::GetChargeLimit => r.1 == Reply::Value(before.charge_limit)
        }
    }

    /// Applies the intent to the battery controller; returns whether it
    /// changed settings, and the reply.
    pub fn process(self, battery: &mut Battery) -> (r: (bool, Reply))
        ensures
            self.spec_step(*old(battery), *final(battery), r),

    {
        let dirty = self.is_modify();
        let reply = match self {
            BatteryMessage::SetChargeRate(v) => {
                battery.charge_rate = v;
                Reply::Nothing
            },
            BatteryMessage::GetChargeRate => Reply::Value(battery.charge_rate),
            BatteryMessage::SetChargeMode(m) => {
                battery.charge_mode = m;
                Reply::Nothing
            },
            BatteryMessage::GetChargeMode => Reply::Mode(
                crate::persist::copy_opt_string(&battery.charge_mode),
            ),
            BatteryMessage::SetChargeLimit(v) => {
                battery.charge_limit = v;
                Reply::Nothing
            },
            BatteryMessage::GetChargeLimit => Reply::Value(battery.charge_limit),
        };
        (dirty, reply)
    }
}

impl GeneralMessage {
    pub open spec fn spec_is_modify(&self) -> bool {
        match self {
            GeneralMessage::SetPersistent(..) | GeneralMessage::ApplyNow => true,
            _ => false,
        }
    }

    /// The intent changes settings (or asks for a commit).
    pub fn is_modify(&self) -> (r: bool)
        ensures
            r == self.spec_is_modify(),
    {
        match self {
            GeneralMessage::SetPersistent(..) | GeneralMessage::ApplyNow => true,
            _ => false,
        }
    }

    /// What applying the intent does to `before`, giving `after` and `r`
    /// (whether it changed settings, and the reply).
    pub open spec fn spec_step(self, before: General, after: General, r: (bool, Reply)) -> bool {
        &&& r.0 == self.spec_is_modify()
        &&& match self {
            GeneralMessage::SetPersistent(v) => after == (General {
                persistent: v,
                ..before
            }),
            _ => after == before
        }
        &&& match self {
            GeneralMessage::GetPersistent => r.1 == Reply::Flag(before.persistent),
            GeneralMessage::GetCurrentProfileName => r.1 matches Reply::Text(t) && t == before.name,
            GeneralMessage::GetPath => r.1 matches Reply::Text(t) && t == before.path,
            GeneralMessage::GetCurrentVariant => r.1 matches Reply::Variant(v) && v.id_num == before.variant_id && v.name == before.variant_name,
            _ => r.1 == Reply::Nothing
        }
    }

    /// Applies the intent to the general controller; returns whether it
    /// changed settings, and the reply.
    pub fn process(self, general: &mut General) -> (r: (bool, Reply))
        ensures
            self.spec_step(*old(general), *final(general), r),

    {
        let dirty = self.is_modify();
        let reply = match self {
            GeneralMessage::SetPersistent(v) => {
                general.persistent = v;
                Reply::Nothing
            },
            GeneralMessage::GetPersistent => Reply::Flag(general.persistent),
            GeneralMessage::GetCurrentProfileName => Reply::Text(general.name.clone()),
            GeneralMessage::GetPath => Reply::Text(general.path.clone()),
            GeneralMessage::GetCurrentVariant => Reply::Variant(general.get_variant_info()),
            GeneralMessage::ApplyNow => Reply::Nothing,
        };
        (dirty, reply)
    }
}

impl ApiMessage {
    /// The intent changes settings; reads, waits, resume replays and uploads do not.
    pub open spec fn spec_is_modify(&self) -> bool {
        match self {
            ApiMessage::Battery(m) => m.spec_is_modify(),
            ApiMessage::Cpu(m) => m.spec_is_modify(),
            ApiMessage::Gpu(m) => m.spec_is_modify(),
            ApiMessage::General(m) => m.spec_is_modify(),
            ApiMessage::OnPluggedIn | ApiMessage::OnUnplugged | ApiMessage::Load(_) => true,
            _ => false,
        }
    }
}

/// What the persistence step does with the current variant.
#[derive(Debug)]
pub enum Persist {
    /// Store this snapshot in the application's variant collection.
    Save(SettingsJson),
    /// Delete any stale settings file of the application.
    Delete,
}

/// What the host does at the end of one drained batch.
#[derive(Debug)]
pub struct CycleActions {
    /// The commit pass's writes, in order; `None` where nothing changed.
    pub commit: Option<Vec<HwWrite>>,
    /// How many of the callers waiting for an idle queue to release, oldest first.
    pub release_waiters: u64,
    /// The one persistence step of the batch, if any.
    pub persist: Option<Persist>,
}

/// Writes planned for a wake from sleep, and the replies of a batch.
#[derive(Debug)]
pub struct BatchOutcome {
    /// One reply per intent, in order.
    pub replies: Vec<Reply>,
    /// Writes that replay the current values after a wake from sleep.
    pub resume: Vec<HwWrite>,
    pub actions: CycleActions,
}

/// The worker's own state between batches.
#[derive(Debug)]
pub struct ApiMessageHandler {
    /// Callers waiting for the next commit.
    pub waiting: u64,
    /// Some intent since the last commit changed settings.
    pub dirty: bool,
    /// The coordinator of the forced performance level.
    pub fpl: ForcePerformanceLevel,
}

/// The actions of a batch, given whether it changed settings: with a change,
/// exactly one commit pass, every waiter released, and one persistence step
/// (a save of the snapshot where the profile is persistent, else a delete);
/// without, nothing at all.
pub open spec fn is_cycle(a: CycleActions, dirty: bool, waiting: u64, settings: Settings) -> bool {
    if dirty {
        &&& a.commit is Some
        &&& a.release_waiters == waiting
        &&& match a.persist {
            Some(Persist::Save(s)) => settings.general.persistent && settings.is_snapshot(s),
            Some(Persist::Delete) => !settings.general.persistent,
            None => false,
        }
    } else {
        &&& a.commit is None
        &&& a.release_waiters == 0
        &&& a.persist is None
    }
}

impl ApiMessageHandler {
    pub fn new() -> (r: Self)
        ensures
            r.waiting == 0,
            !r.dirty,
            !r.fpl.spec_needs_manual(),
    {
        ApiMessageHandler { waiting: 0, dirty: false, fpl: ForcePerformanceLevel::new() }
    }

    /// Applies one intent; records whether it changed settings. A resume
    /// replay's writes are appended to `resume`.
    pub fn process(&mut self, settings: &mut Settings, message: ApiMessage, resume: &mut Vec<HwWrite>) -> (r:
        Reply)
        ensures
            final(self).dirty == (old(self).dirty || message.spec_is_modify()),
            final(self).waiting == (if message is WaitForEmptyQueue && old(self).waiting < u64::MAX {
                (old(self).waiting + 1) as u64
            } else {
                old(self).waiting
            }),
            !(message.spec_is_modify() || message is OnResume) ==> *final(settings) == *old(settings),
            !(message is OnResume) ==> final(resume)@ == old(resume)@,
            match message {
                ApiMessage::Cpu(m) => {
                    &&& m.spec_step(old(settings).cpus, final(settings).cpus, (m.spec_is_modify(), r))
                    &&& final(settings).general == old(settings).general
                    &&& final(settings).gpu == old(settings).gpu
                    &&& final(settings).battery == old(settings).battery
                },
                ApiMessage::Gpu(m) => {
                    &&& m.spec_step(old(settings).gpu, final(settings).gpu, (m.spec_is_modify(), r))
                    &&& final(settings).general == old(settings).general
                    &&& final(settings).cpus == old(settings).cpus
                    &&& final(settings).battery == old(settings).battery
                },
                ApiMessage::Battery(m) => {
                    &&& m.spec_step(old(settings).battery, final(settings).battery, (m.spec_is_modify(), r))
                    &&& final(settings).general == old(settings).general
                    &&& final(settings).cpus == old(settings).cpus
                    &&& final(settings).gpu == old(settings).gpu
                },
                ApiMessage::General(m) => {
                    &&& m.spec_step(old(settings).general, final(settings).general, (m.spec_is_modify(), r))
                    &&& final(settings).cpus == old(settings).cpus
                    &&& final(settings).gpu == old(settings).gpu
                    &&& final(settings).battery == old(settings).battery
                },
                ApiMessage::OnResume => {
                    &&& final(resume)@ == old(resume)@ + settings_plan(
                        *old(settings),
                        old(self).fpl.state(),
                        true,
                        true,
                    ).0
                    &&& final(self).fpl.state() == settings_plan(
                        *old(settings),
                        old(self).fpl.state(),
                        true,
                        true,
                    ).1
                    &&& r == Reply::Nothing
                },
                ApiMessage::GetLimits(_) => r is Limits,
                ApiMessage::Load(s) => *final(settings) == s && !final(self).fpl.spec_needs_manual(),
                ApiMessage::GetProvider(name) => r == Reply::Provider(
                    provider_spec(*old(settings), name@),
                ),
                ApiMessage::UploadCurrentVariant => r matches Reply::Snapshot(s) && old(settings).is_snapshot(s),
                _ => true,
            },
    {
        let dirty = match message {
            ApiMessage::Battery(m) => m.process(&mut settings.battery),
            ApiMessage::Cpu(m) => m.process(&mut settings.cpus),
            ApiMessage::Gpu(m) => m.process(&mut settings.gpu),
            ApiMessage::General(m) => m.process(&mut settings.general),
            ApiMessage::OnResume => {
                let mut writes = settings.on_resume(&mut self.fpl);
                resume.append(&mut writes);
                (false, Reply::Nothing)
            },
            ApiMessage::OnPluggedIn | ApiMessage::OnUnplugged => (true, Reply::Nothing),
            ApiMessage::WaitForEmptyQueue => {
                if self.waiting < u64::MAX {
                    self.waiting = self.waiting + 1;
                }
                (false, Reply::Nothing)
            },
            ApiMessage::Load(new_settings) => {
                *settings = new_settings;
                self.fpl.reset();
                (true, Reply::Nothing)
            },
            ApiMessage::GetProvider(name) => {
                let provider = provider_of(settings, name.as_str());
                (false, Reply::Provider(provider))
            },
            ApiMessage::UploadCurrentVariant => (false, Reply::Snapshot(settings.json())),
            ApiMessage::GetLimits(governors) => (false, Reply::Limits(settings.limits(&governors))),
        };
        self.dirty = self.dirty || dirty.0;
        dirty.1
    }

    /// Ends a drained batch: where some intent changed settings, runs the
    /// commit pass once, releases every waiter and decides the one
    /// persistence step; otherwise does nothing.
    pub fn end_cycle(&mut self, settings: &mut Settings) -> (r: CycleActions)
        ensures
            is_cycle(r, old(self).dirty, old(self).waiting, *final(settings)),
            !final(self).dirty,
            final(self).waiting == (if old(self).dirty {
                0
            } else {
                old(self).waiting
            }),
            !old(self).dirty ==> *final(settings) == *old(settings),
            old(self).dirty ==> {
                &&& r.commit matches Some(w) && w@ == settings_plan(
                    *old(settings),
                    old(self).fpl.state(),
                    false,
                    false,
                ).0
                &&& final(self).fpl.state() == settings_plan(
                    *old(settings),
                    old(self).fpl.state(),
                    false,
                    false,
                ).1
                &&& final(settings).general == old(settings).general
                &&& final(settings).battery == old(settings).battery
                &&& final(settings).cpus.online_view() == old(settings).cpus.online_view()
                &&& final(settings).cpus.cpus@.len() == old(settings).cpus.cpus@.len()
                &&& forall|i: int|
                    0 <= i < old(settings).cpus.cpus@.len() ==> (#[trigger] final(settings).cpus.cpus@[i]).clock_limits == crate::commit::cpu_clamped(
                        old(settings).cpus.cpus@[i],
                    ) && final(settings).cpus.cpus@[i].governor == old(settings).cpus.cpus@[i].governor
                &&& final(settings).gpu.fast_ppt == old(settings).gpu.spec_fast_plan().0
                &&& final(settings).gpu.slow_ppt == old(settings).gpu.spec_slow_plan().0
            },
    {
        if !self.dirty {
            return CycleActions { commit: None, release_waiters: 0, persist: None };
        }
        let writes = settings.on_set(&mut self.fpl, false);
        let release = self.waiting;
        self.waiting = 0;
        self.dirty = false;
        let persist = if settings.general.persistent {
            Persist::Save(settings.json())
        } else {
            Persist::Delete
        };
        CycleActions { commit: Some(writes), release_waiters: release, persist: Some(persist) }
    }

    /// Handles one drained batch: applies every intent in order, then ends
    /// the cycle.
    pub fn process_batch(&mut self, settings: &mut Settings, batch: Vec<ApiMessage>) -> (r:
        BatchOutcome)
        requires
            !old(self).dirty,
        ensures
            r.replies@.len() == batch@.len(),
            is_cycle(
                r.actions,
                exists|i: int| 0 <= i < batch@.len() && (#[trigger] batch@[i]).spec_is_modify(),
                final(self).waiting_before_commit(old(self).waiting, batch@),
                *final(settings),
            ),
            !final(self).dirty,
            (forall|i: int|
                0 <= i < batch@.len() ==> !(#[trigger] batch@[i]).spec_is_modify() && !(
                batch@[i] is OnResume)) ==> *final(settings) == *old(settings) && r.resume@.len()
                == 0,
    {
        let ghost msgs = batch@;
        let mut replies: Vec<Reply> = Vec::new();
        let mut resume: Vec<HwWrite> = Vec::new();
        let mut batch = batch;
        let n = batch.len();
        let mut i: usize = 0;
        while i < n
            invariant
                n == msgs.len(),
                i <= n,
                batch@ == msgs.subrange(i as int, n as int),
                replies@.len() == i,
                self.dirty == exists|j: int| 0 <= j < i && (#[trigger] msgs[j]).spec_is_modify(),
                self.waiting == count_waits(old(self).waiting, msgs.subrange(0, i as int)),
                (forall|j: int|
                    0 <= j < i ==> !(#[trigger] msgs[j]).spec_is_modify() && !(msgs[j] is OnResume))
                    ==> *settings == *old(settings) && resume@.len() == 0,
            decreases n - i,
        {
            let msg = batch.remove(0);
            assert(msg == msgs[i as int]);
            let reply = self.process(settings, msg, &mut resume);
            replies.push(reply);
            assert(msgs.subrange(0, i + 1).drop_last() =~= msgs.subrange(0, i as int));
            i = i + 1;
        }
        assert(msgs.subrange(0, n as int) =~= msgs);
        let actions = self.end_cycle(settings);
        BatchOutcome { replies, resume, actions }
    }

    /// How many callers wait when the batch's cycle ends.
    pub open spec fn waiting_before_commit(self, start: u64, msgs: Seq<ApiMessage>) -> u64 {
        count_waits(start, msgs)
    }
}

/// Waiters after `msgs`, starting from `start`; the count saturates.
pub open spec fn count_waits(start: u64, msgs: Seq<ApiMessage>) -> u64
    decreases msgs.len(),
{
    if msgs.len() == 0 {
        start
    } else {
        let before = count_waits(start, msgs.drop_last());
        if msgs.last() is WaitForEmptyQueue && before < u64::MAX {
            (before + 1) as u64
        } else {
            before
        }
    }
}

/// The driver behind the subsystem called `name`.
pub open spec fn provider_spec(settings: Settings, name: Seq<char>) -> DriverJson {
    if name == "battery"@ {
        settings.battery.provider
    } else if name == "cpu"@ || name == "cpus"@ {
        settings.cpus.provider
    } else if name == "gpu"@ {
        settings.gpu.provider
    } else {
        settings.general.driver
    }
}

/// The driver behind a subsystem, by name.
pub fn provider_of(settings: &Settings, name: &str) -> (r: DriverJson)
    ensures
        r == provider_spec(*settings, name@),
{
    if str_eq(name, "battery") {
        settings.battery.provider
    } else if str_eq(name, "cpu") || str_eq(name, "cpus") {
        settings.cpus.provider
    } else if str_eq(name, "gpu") {
        settings.gpu.provider
    } else {
        settings.general.driver
    }
}

/// Whether two strings hold the same characters.
pub fn str_eq(a: &str, b: &str) -> (r: bool)
    ensures
        r == (a@ == b@),
{
    let n = a.unicode_len();
    if n != b.unicode_len() {
        return false;
    }
    let mut i: usize = 0;
    while i < n
        invariant
            n == a@.len(),
            n == b@.len(),
            i <= n,
            forall|k: int| 0 <= k < i ==> a@[k] == b@[k],
        decreases n - i,
    {
        if a.get_char(i) != b.get_char(i) {
            return false;
        }
        i = i + 1;
    }
    assert(a@ =~= b@);
    true
}

} // verus!
