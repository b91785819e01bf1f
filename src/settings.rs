//! The driver set: general, CPU, GPU and battery controllers built from the
//! resolved limits and, where there is one, a stored record.
use vstd::prelude::*;
use crate::cpu::{Cpu, Cpus, MinMax};
use crate::limits::{
    BatteryLimitType, CpuLimitType, GenericBatteryLimit, GenericCpuLimit, GenericGpuLimit,
    GpuLimitType, Limits,
};
use crate::persist::{
    copy_opt_string, BatteryEventJson, BatteryJson, DriverJson, GpuJson, MinMaxJson, SettingsJson,
    LATEST_VERSION,
};

verus! {

/// Ephemeral driver state of the GPU.
#[derive(Clone, Copy, Debug)]
pub struct GpuState {
    /// Clock bounds are currently forced on the hardware.
    pub clock_limits_set: bool,
    /// A fast power limit is currently forced on the hardware.
    pub fast_ppt_set: bool,
    /// A slow power limit is currently forced on the hardware.
    pub slow_ppt_set: bool,
    /// The values are being replayed after a wake from sleep.
    pub is_resuming: bool,
    /// The fast power limit the hardware had before one was forced, where
    /// the driver reads it back.
    pub saved_fast_ppt: Option<u64>,
    /// The same for the slow power limit.
    pub saved_slow_ppt: Option<u64>,
}

/// The GPU controller; power limits in watts, clocks in MHz.
#[derive(Debug)]
pub struct Gpu {
    pub fast_ppt: Option<u64>,
    pub slow_ppt: Option<u64>,
    pub clock_limits: Option<MinMax<u64>>,
    pub memory_clock: Option<u64>,
    pub limits: GenericGpuLimit,
    pub provider: DriverJson,
    pub state: GpuState,
}

/// The battery controller; charge rate in mA, charge limit in percent.
#[derive(Debug)]
pub struct Battery {
    pub charge_rate: Option<u64>,
    pub charge_mode: Option<String>,
    pub charge_limit: Option<u64>,
    pub events: Vec<BatteryEventJson>,
    pub limits: GenericBatteryLimit,
    pub provider: DriverJson,
}

/// Identity and persistence of the current profile.
#[derive(Debug)]
pub struct General {
    pub persistent: bool,
    /// Settings file name, relative to the settings directory.
    pub path: String,
    pub app_id: u64,
    pub name: String,
    pub variant_id: u64,
    pub variant_name: String,
    pub driver: DriverJson,
}

/// Which subsystem a value or an error belongs to.
#[derive(Clone, Copy, Debug, PartialEq, Eq, Structural)]
pub enum SettingVariant {
    Battery,
    Cpu,
    Gpu,
    General,
}

impl SettingVariant {
    pub fn name(&self) -> (r: &'static str)
        ensures
            r@ == match *self {
                SettingVariant::Battery => "Battery"@,
                SettingVariant::Cpu => "CPU"@,
                SettingVariant::Gpu => "GPU"@,
                SettingVariant::General => "General"@,
            },
    {
        match self {
            SettingVariant::Battery => "Battery",
            SettingVariant::Cpu => "CPU",
            SettingVariant::Gpu => "GPU",
            SettingVariant::General => "General",
        }
    }
}

/// Id and name of a variant, as the interface shows it.
#[derive(Debug)]
pub struct VariantInfo {
    pub id: String,
    pub name: String,
    pub id_num: u64,
}

/// Facts about the host that driver construction needs.
#[derive(Clone, Copy, Debug)]
pub struct Platform {
    /// Number of CPUs the kernel reports as present, where it says.
    pub cpu_present: Option<usize>,
    /// The kernel offers an SMT switch.
    pub smt_capable: bool,
}

pub open spec fn cpu_driver(t: CpuLimitType) -> DriverJson {
    match t {
        CpuLimitType::SteamDeck => DriverJson::SteamDeck,
        CpuLimitType::SteamDeckOLED => DriverJson::SteamDeckOLED,
        CpuLimitType::Generic => DriverJson::Generic,
        CpuLimitType::GenericAMD => DriverJson::GenericAMD,
        CpuLimitType::Unknown => DriverJson::Unknown,
        CpuLimitType::DevMode => DriverJson::DevMode,
    }
}

pub open spec fn gpu_driver(t: GpuLimitType) -> DriverJson {
    match t {
        GpuLimitType::SteamDeck | GpuLimitType::SteamDeckAdvance => DriverJson::SteamDeck,
        GpuLimitType::SteamDeckOLED => DriverJson::SteamDeckOLED,
        GpuLimitType::Generic => DriverJson::Generic,
        GpuLimitType::GenericAMD => DriverJson::GenericAMD,
        GpuLimitType::Unknown => DriverJson::Unknown,
        GpuLimitType::DevMode => DriverJson::DevMode,
    }
}

pub open spec fn battery_driver(t: BatteryLimitType) -> DriverJson {
    match t {
        BatteryLimitType::SteamDeck => DriverJson::SteamDeck,
        BatteryLimitType::SteamDeckOLED => DriverJson::SteamDeckOLED,
        BatteryLimitType::Generic => DriverJson::Generic,
        BatteryLimitType::Unknown => DriverJson::Unknown,
        BatteryLimitType::DevMode => DriverJson::DevMode,
    }
}

pub fn cpu_driver_of(t: CpuLimitType) -> (r: DriverJson)
    ensures
        r == cpu_driver(t),
{
    match t {
        CpuLimitType::SteamDeck => DriverJson::SteamDeck,
        CpuLimitType::SteamDeckOLED => DriverJson::SteamDeckOLED,
        CpuLimitType::Generic => DriverJson::Generic,
        CpuLimitType::GenericAMD => DriverJson::GenericAMD,
        CpuLimitType::Unknown => DriverJson::Unknown,
        CpuLimitType::DevMode => DriverJson::DevMode,
    }
}

pub fn gpu_driver_of(t: GpuLimitType) -> (r: DriverJson)
    ensures
        r == gpu_driver(t),
{
    match t {
        GpuLimitType::SteamDeck | GpuLimitType::SteamDeckAdvance => DriverJson::SteamDeck,
        GpuLimitType::SteamDeckOLED => DriverJson::SteamDeckOLED,
        GpuLimitType::Generic => DriverJson::Generic,
        GpuLimitType::GenericAMD => DriverJson::GenericAMD,
        GpuLimitType::Unknown => DriverJson::Unknown,
        GpuLimitType::DevMode => DriverJson::DevMode,
    }
}

pub fn battery_driver_of(t: BatteryLimitType) -> (r: DriverJson)
    ensures
        r == battery_driver(t),
{
    match t {
        BatteryLimitType::SteamDeck => DriverJson::SteamDeck,
        BatteryLimitType::SteamDeckOLED => DriverJson::SteamDeckOLED,
        BatteryLimitType::Generic => DriverJson::Generic,
        BatteryLimitType::Unknown => DriverJson::Unknown,
        BatteryLimitType::DevMode => DriverJson::DevMode,
    }
}

pub open spec fn min_max_of(j: Option<MinMaxJson<u64>>) -> Option<MinMax<u64>> {
    match j {
        Some(c) => Some(MinMax { max: c.max, min: c.min }),
        None => None,
    }
}

pub open spec fn min_max_json_of(j: Option<MinMax<u64>>) -> Option<MinMaxJson<u64>> {
    match j {
        Some(c) => Some(MinMaxJson { max: c.max, min: c.min }),
        None => None,
    }
}

/// A stored value is kept only where the platform can control it.
pub open spec fn kept_if<T>(controllable: bool, v: Option<T>) -> Option<T> {
    if controllable {
        v
    } else {
        None
    }
}

pub open spec fn gpu_clocks_controllable(l: GenericGpuLimit) -> bool {
    l.clock_min is Some || l.clock_max is Some
}

/// The controllers of a driver set built on `limits`: restored from
/// `stored` where given (each value filtered through what the limits
/// support), else seeded from the limits alone.
pub open spec fn controllers_built(
    cpus: Cpus,
    gpu: Gpu,
    battery: Battery,
    stored: Option<SettingsJson>,
    limits: Limits,
    platform: Platform,
) -> bool {
    match stored {
        Some(s) => {
            &&& cpus_restored(
                cpus,
                s.cpus@,
                limits.cpu.provider,
                limits.cpu.limits.cpus@,
                limits.cpu.limits.global_governors,
                platform,
            )
            &&& gpu_restored(gpu, s.gpu, limits.gpu.limits, gpu_driver(limits.gpu.provider))
            &&& battery_restored(
                battery,
                s.battery,
                limits.battery.limits,
                battery_driver(limits.battery.provider),
            )
        },
        None => {
            &&& cpus_seeded(
                cpus,
                limits.cpu.provider,
                limits.cpu.limits.cpus@,
                limits.cpu.limits.global_governors,
                platform,
            )
            &&& gpu_seeded(gpu, limits.gpu.limits, gpu_driver(limits.gpu.provider))
            &&& battery_seeded(battery, limits.battery.limits, battery_driver(limits.battery.provider))
        },
    }
}

/// What the constructors give.
pub open spec fn gpu_seeded(r: Gpu, limits: GenericGpuLimit, provider: DriverJson) -> bool {
    &&& r.fast_ppt is None
    &&& r.slow_ppt is None
    &&& r.clock_limits is None
    &&& r.memory_clock is None
    &&& r.limits == limits
    &&& r.provider == provider
    &&& r.state == (GpuState {
        clock_limits_set: false,
        fast_ppt_set: false,
        slow_ppt_set: false,
        is_resuming: false,
        saved_fast_ppt: None,
        saved_slow_ppt: None,
    })
}

pub open spec fn gpu_restored(r: Gpu, other: GpuJson, limits: GenericGpuLimit, provider: DriverJson) -> bool {
    &&& r.fast_ppt == kept_if(limits.fast_ppt is Some, other.fast_ppt)
    &&& r.slow_ppt == kept_if(limits.slow_ppt is Some, other.slow_ppt)
    &&& r.clock_limits == kept_if(
        gpu_clocks_controllable(limits),
        min_max_of(other.clock_limits),
    )
    &&& r.memory_clock == kept_if(limits.memory_clock is Some, other.memory_clock)
    &&& r.limits == limits
    &&& r.provider == provider
    &&& r.state == (GpuState {
        clock_limits_set: false,
        fast_ppt_set: false,
        slow_ppt_set: false,
        is_resuming: false,
        saved_fast_ppt: None,
        saved_slow_ppt: None,
    })
}

pub open spec fn battery_seeded(r: Battery, limits: GenericBatteryLimit, provider: DriverJson) -> bool {
    &&& r.charge_rate is None
    &&& r.charge_mode is None
    &&& r.charge_limit is None
    &&& r.events@.len() == 0
    &&& r.limits == limits
    &&& r.provider == provider
}

pub open spec fn battery_restored(r: Battery, other: BatteryJson, limits: GenericBatteryLimit, provider: DriverJson) -> bool {
    &&& r.charge_rate == kept_if(limits.charge_rate is Some, other.charge_rate)
    &&& r.charge_mode == kept_if(limits.charge_modes@.len() > 0, other.charge_mode)
    &&& r.charge_limit == kept_if(limits.charge_limit is Some, other.charge_limit)
    &&& r.events@ == other.events@
    &&& r.limits == limits
    &&& r.provider == provider
}

pub open spec fn cpus_seeded(r: Cpus, t: CpuLimitType, limits: Seq<GenericCpuLimit>, global_governors: bool, platform: Platform) -> bool {
    &&& r.cpus@.len() == built_cpu_count(platform, None, limits.len() as int)
    &&& cpus_indexed(r)
    &&& forall|i: int|
        0 <= i < r.cpus@.len() ==> {
            &&& (#[trigger] r.cpus@[i]).online
            &&& r.cpus@[i].clock_limits is None
            &&& r.cpus@[i].governor@ == crate::cpu::default_governor()
            &&& r.cpus@[i].limits == cpu_limit_at(limits, t, i)
        }
    &&& r.smt == platform.smt_capable
    &&& r.smt_capable == platform.smt_capable
    &&& r.global_governors == global_governors
    &&& r.provider == cpu_driver(t)
}

pub open spec fn cpus_restored(r: Cpus, stored: Seq<crate::persist::CpuJson>, t: CpuLimitType, limits: Seq<GenericCpuLimit>, global_governors: bool, platform: Platform) -> bool {
    &&& r.cpus@.len() == built_cpu_count(platform, Some(stored.len() as int), limits.len() as int)
    &&& cpus_indexed(r)
    &&& forall|i: int|
        0 <= i < r.cpus@.len() ==> {
            &&& (#[trigger] r.cpus@[i]).limits == cpu_limit_at(limits, t, i)
            &&& if i < stored.len() {
                &&& r.cpus@[i].online == stored[i].online
                &&& r.cpus@[i].governor == stored[i].governor
                &&& r.cpus@[i].clock_limits == kept_if(
                    r.cpus@[i].limits.clock_min is Some || r.cpus@[i].limits.clock_max is Some,
                    min_max_of(stored[i].clock_limits),
                )
            } else {
                &&& r.cpus@[i].online
                &&& r.cpus@[i].clock_limits is None
                &&& r.cpus@[i].governor@ == crate::cpu::default_governor()
            }
        }
    &&& r.smt == (platform.smt_capable && guess_smt(stored))
    &&& r.smt_capable == platform.smt_capable
    &&& r.global_governors == global_governors
    &&& r.provider == cpu_driver(t)
}

impl Gpu {
    pub fn from_limits(limits: GenericGpuLimit, provider: DriverJson) -> (r: Self)
        ensures
            gpu_seeded(r, limits, provider),

    {
        Gpu {
            fast_ppt: None,
            slow_ppt: None,
            clock_limits: None,
            memory_clock: None,
            limits,
            provider,
            state: GpuState {
                clock_limits_set: false,
                fast_ppt_set: false,
                slow_ppt_set: false,
                is_resuming: false,
                saved_fast_ppt: None,
                saved_slow_ppt: None,
            },
        }
    }

    /// Restores the GPU from its stored record, dropping what the limits do
    /// not let the platform control.
    pub fn from_json_and_limits(other: &GpuJson, limits: GenericGpuLimit, provider: DriverJson) -> (r:
        Self)
        ensures
            gpu_restored(r, *other, limits, provider),

    {
        let fast_ppt = if limits.fast_ppt.is_some() {
            other.fast_ppt
        } else {
            None
        };
        let slow_ppt = if limits.slow_ppt.is_some() {
            other.slow_ppt
        } else {
            None
        };
        let clock_limits = if limits.clock_min.is_some() || limits.clock_max.is_some() {
            match other.clock_limits {
                Some(c) => Some(MinMax { max: c.max, min: c.min }),
                None => None,
            }
        } else {
            None
        };
        let memory_clock = if limits.memory_clock.is_some() {
            other.memory_clock
        } else {
            None
        };
        Gpu {
            fast_ppt,
            slow_ppt,
            clock_limits,
            memory_clock,
            limits,
            provider,
            state: GpuState {
                clock_limits_set: false,
                fast_ppt_set: false,
                slow_ppt_set: false,
                is_resuming: false,
                saved_fast_ppt: None,
                saved_slow_ppt: None,
            },
        }
    }

    pub fn json(&self) -> (r: GpuJson)
        ensures
            r.fast_ppt == self.fast_ppt,
            r.slow_ppt == self.slow_ppt,
            r.tdp is None,
            r.tdp_boost is None,
            r.clock_limits == min_max_json_of(self.clock_limits),
            r.memory_clock == self.memory_clock,
            r.root is None,
    {
        GpuJson {
            fast_ppt: self.fast_ppt,
            slow_ppt: self.slow_ppt,
            tdp: None,
            tdp_boost: None,
            clock_limits: match self.clock_limits {
                Some(c) => Some(MinMaxJson { max: c.max, min: c.min }),
                None => None,
            },
            memory_clock: self.memory_clock,
            root: None,
        }
    }
}

impl Battery {
    pub fn from_limits(limits: GenericBatteryLimit, provider: DriverJson) -> (r: Self)
        ensures
            battery_seeded(r, limits, provider),

    {
        Battery {
            charge_rate: None,
            charge_mode: None,
            charge_limit: None,
            events: Vec::new(),
            limits,
            provider,
        }
    }

    /// Restores the battery from its stored record, dropping what the limits
    /// do not let the platform control.
    pub fn from_json_and_limits(other: &BatteryJson, limits: GenericBatteryLimit, provider: DriverJson) -> (r:
        Self)
        ensures
            battery_restored(r, *other, limits, provider),

    {
        let copy = other.copy();
        let charge_rate = if limits.charge_rate.is_some() {
            other.charge_rate
        } else {
            None
        };
        let charge_mode = if limits.charge_modes.len() > 0 {
            copy.charge_mode
        } else {
            None
        };
        let charge_limit = if limits.charge_limit.is_some() {
            other.charge_limit
        } else {
            None
        };
        Battery { charge_rate, charge_mode, charge_limit, events: copy.events, limits, provider }
    }

    pub fn json(&self) -> (r: BatteryJson)
        ensures
            r.charge_rate == self.charge_rate,
            r.charge_mode == self.charge_mode,
            r.charge_limit == self.charge_limit,
            r.events@ == self.events@,
            r.root is None,
    {
        let mut events: Vec<BatteryEventJson> = Vec::new();
        let mut i: usize = 0;
        while i < self.events.len()
            invariant
                i <= self.events@.len(),
                events@ =~= self.events@.subrange(0, i as int),
            decreases self.events@.len() - i,
        {
            events.push(self.events[i].copy());
            i = i + 1;
        }
        assert(events@ =~= self.events@);
        BatteryJson {
            charge_rate: self.charge_rate,
            charge_mode: copy_opt_string(&self.charge_mode),
            charge_limit: self.charge_limit,
            events,
            root: None,
        }
    }
}

impl General {
    pub fn get_variant_info(&self) -> (r: VariantInfo)
        ensures
            r.id@ == crate::text::decimal(self.variant_id as nat),
            r.name == self.variant_name,
            r.id_num == self.variant_id,
    {
        VariantInfo {
            id: crate::text::decimal_string(self.variant_id as u128),
            name: self.variant_name.clone(),
            id_num: self.variant_id,
        }
    }
}

/// The four controllers of the running machine.
#[derive(Debug)]
pub struct Settings {
    pub general: General,
    pub cpus: Cpus,
    pub gpu: Gpu,
    pub battery: Battery,
}

/// The CPU array holds one CPU per index, each knowing its index.
pub open spec fn cpus_indexed(c: Cpus) -> bool {
    forall|i: int| 0 <= i < c.cpus@.len() ==> (#[trigger] c.cpus@[i]).index == i
}

/// Whether some odd CPU of a stored record is online, which shows SMT was on.
pub open spec fn guess_smt(cpus: Seq<crate::persist::CpuJson>) -> bool {
    exists|i: int| 0 <= i < cpus.len() && i % 2 == 1 && (#[trigger] cpus[i]).online
}

/// Limits of CPU `i`: the platform's record for it, or the family default.
pub open spec fn cpu_limit_at(limits: Seq<GenericCpuLimit>, t: CpuLimitType, i: int) -> GenericCpuLimit {
    if i < limits.len() {
        limits[i]
    } else {
        GenericCpuLimit::spec_default_for(t)
    }
}

/// Number of CPUs a driver set holds: what the kernel reports, else as many
/// as the stored record (or, without one, the limits) give.
pub open spec fn built_cpu_count(platform: Platform, stored: Option<int>, limits_len: int) -> int {
    match platform.cpu_present {
        Some(n) => n as int,
        None => match stored {
            Some(s) => s,
            None => limits_len,
        },
    }
}

fn any_odd_online(stored: &Vec<crate::persist::CpuJson>) -> (r: bool)
    ensures
        r == guess_smt(stored@),
{
    let mut i: usize = 0;
    while i < stored.len()
        invariant
            i <= stored@.len(),
            forall|j: int| 0 <= j < i && j % 2 == 1 ==> !(#[trigger] stored@[j]).online,
        decreases stored@.len() - i,
    {
        if i % 2 == 1 && stored[i].online {
            return true;
        }
        i = i + 1;
    }
    false
}

fn cpu_limit_for(limits: &Vec<GenericCpuLimit>, t: CpuLimitType, i: usize) -> (r: GenericCpuLimit)
    ensures
        r == cpu_limit_at(limits@, t, i as int),
{
    if i < limits.len() {
        limits[i].copy()
    } else {
        GenericCpuLimit::default_for(&t, i)
    }
}

impl Cpus {
    /// Builds the CPU array from the limits alone: every CPU online with the
    /// default governor and no clock bounds, SMT on where the kernel offers it.
    pub fn from_limits(
        t: CpuLimitType,
        limits: &Vec<GenericCpuLimit>,
        global_governors: bool,
        platform: Platform,
    ) -> (r: Self)
        ensures
            cpus_seeded(r, t, limits@, global_governors, platform),

    {
        let n: usize = match platform.cpu_present {
            Some(n) => n,
            None => limits.len(),
        };
        let mut cpus: Vec<Cpu> = Vec::new();
        let mut i: usize = 0;
        while i < n
            invariant
                i <= n,
                cpus@.len() == i,
                forall|j: int|
                    0 <= j < i ==> {
                        &&& (#[trigger] cpus@[j]).online
                        &&& cpus@[j].clock_limits is None
                        &&& cpus@[j].governor@ == crate::cpu::default_governor()
                        &&& cpus@[j].limits == cpu_limit_at(limits@, t, j)
                        &&& cpus@[j].index == j
                    },
            decreases n - i,
        {
            cpus.push(Cpu::from_limits(i, cpu_limit_for(limits, t, i)));
            i = i + 1;
        }
        Cpus {
            cpus,
            smt: platform.smt_capable,
            smt_capable: platform.smt_capable,
            global_governors,
            provider: cpu_driver_of(t),
        }
    }

    /// Builds the CPU array from a stored record: stored CPUs beyond what the
    /// kernel reports are dropped, missing ones get defaults, and SMT is on
    /// where the kernel offers it and some odd CPU was stored online.
    pub fn from_json_and_limits(
        stored: &Vec<crate::persist::CpuJson>,
        t: CpuLimitType,
        limits: &Vec<GenericCpuLimit>,
        global_governors: bool,
        platform: Platform,
    ) -> (r: Self)
        ensures
            cpus_restored(r, stored@, t, limits@, global_governors, platform),

    {
        let n: usize = match platform.cpu_present {
            Some(n) => n,
            None => stored.len(),
        };
        let mut cpus: Vec<Cpu> = Vec::new();
        let mut i: usize = 0;
        while i < n
            invariant
                i <= n,
                cpus@.len() == i,
                forall|j: int|
                    0 <= j < i ==> {
                        &&& (#[trigger] cpus@[j]).limits == cpu_limit_at(limits@, t, j)
                        &&& cpus@[j].index == j
                        &&& if j < stored@.len() {
                            &&& cpus@[j].online == stored@[j].online
                            &&& cpus@[j].governor == stored@[j].governor
                            &&& cpus@[j].clock_limits == kept_if(
                                cpus@[j].limits.clock_min is Some
                                    || cpus@[j].limits.clock_max is Some,
                                min_max_of(stored@[j].clock_limits),
                            )
                        } else {
                            &&& cpus@[j].online
                            &&& cpus@[j].clock_limits is None
                            &&& cpus@[j].governor@ == crate::cpu::default_governor()
                        }
                    },
            decreases n - i,
        {
            let lim = cpu_limit_for(limits, t, i);
            if i < stored.len() {
                cpus.push(Cpu::from_json_and_limits(stored[i].copy(), i, lim));
            } else {
                cpus.push(Cpu::from_limits(i, lim));
            }
            i = i + 1;
        }
        let odd_online = any_odd_online(stored);
        Cpus {
            cpus,
            smt: platform.smt_capable && odd_online,
            smt_capable: platform.smt_capable,
            global_governors,
            provider: cpu_driver_of(t),
        }
    }

    pub fn json(&self) -> (r: Vec<crate::persist::CpuJson>)
        ensures
            r@.len() == self.cpus@.len(),
            forall|i: int|
                0 <= i < r@.len() ==> {
                    &&& (#[trigger] r@[i]).online == self.cpus@[i].online
                    &&& r@[i].governor == self.cpus@[i].governor
                    &&& r@[i].clock_limits == min_max_json_of(self.cpus@[i].clock_limits)
                    &&& r@[i].root is None
                },
    {
        let mut r: Vec<crate::persist::CpuJson> = Vec::new();
        let mut i: usize = 0;
        while i < self.cpus.len()
            invariant
                i <= self.cpus@.len(),
                r@.len() == i,
                forall|j: int|
                    0 <= j < i ==> {
                        &&& (#[trigger] r@[j]).online == self.cpus@[j].online
                        &&& r@[j].governor == self.cpus@[j].governor
                        &&& r@[j].clock_limits == min_max_json_of(self.cpus@[j].clock_limits)
                        &&& r@[j].root is None
                    },
            decreases self.cpus@.len() - i,
        {
            r.push(self.cpus[i].json());
            i = i + 1;
        }
        r
    }
}

impl Settings {
    /// The snapshot of every subsystem that is stored for the current variant.
    pub open spec fn is_snapshot(self, r: SettingsJson) -> bool {
        &&& r.version == LATEST_VERSION
        &&& r.name == self.general.variant_name
        &&& r.variant == self.general.variant_id
        &&& r.persistent == self.general.persistent
        &&& r.cpus@.len() == self.cpus.cpus@.len()
        &&& forall|i: int|
            0 <= i < r.cpus@.len() ==> {
                &&& (#[trigger] r.cpus@[i]).online == self.cpus.cpus@[i].online
                &&& r.cpus@[i].governor == self.cpus.cpus@[i].governor
                &&& r.cpus@[i].clock_limits == min_max_json_of(self.cpus.cpus@[i].clock_limits)
            }
        &&& r.gpu.fast_ppt == self.gpu.fast_ppt
        &&& r.gpu.slow_ppt == self.gpu.slow_ppt
        &&& r.gpu.clock_limits == min_max_json_of(self.gpu.clock_limits)
        &&& r.gpu.memory_clock == self.gpu.memory_clock
        &&& r.battery.charge_rate == self.battery.charge_rate
        &&& r.battery.charge_mode == self.battery.charge_mode
        &&& r.battery.charge_limit == self.battery.charge_limit
        &&& r.battery.events@ == self.battery.events@
        &&& r.provider == Some(self.general.driver)
    }

    pub fn json(&self) -> (r: SettingsJson)
        ensures
            self.is_snapshot(r),
    {
        SettingsJson {
            version: LATEST_VERSION,
            name: self.general.variant_name.clone(),
            variant: self.general.variant_id,
            persistent: self.general.persistent,
            cpus: self.cpus.json(),
            gpu: self.gpu.json(),
            battery: self.battery.json(),
            provider: Some(self.general.driver),
        }
    }

    /// Builds the driver set: each subsystem's driver is picked by the
    /// limits' provider; a stored record, where given, supplies the values,
    /// filtered through what the limits support.
    pub fn build(general: General, stored: Option<&SettingsJson>, limits: Limits, platform: Platform) -> (r:
        Self)
        ensures
            r.general == general,
            controllers_built(
                r.cpus,
                r.gpu,
                r.battery,
                match stored {
                    Some(s) => Some(*s),
                    None => None,
                },
                limits,
                platform,
            ),
    {
        let Limits { cpu, gpu, battery } = limits;
        match stored {
            Some(s) => {
                let cpus = Cpus::from_json_and_limits(
                    &s.cpus,
                    cpu.provider,
                    &cpu.limits.cpus,
                    cpu.limits.global_governors,
                    platform,
                );
                let gpu_d = Gpu::from_json_and_limits(&s.gpu, gpu.limits, gpu_driver_of(gpu.provider));
                let battery_d = Battery::from_json_and_limits(
                    &s.battery,
                    battery.limits,
                    battery_driver_of(battery.provider),
                );
                Settings { general, cpus, gpu: gpu_d, battery: battery_d }
            },
            None => {
                let cpus = Cpus::from_limits(
                    cpu.provider,
                    &cpu.limits.cpus,
                    cpu.limits.global_governors,
                    platform,
                );
                let gpu_d = Gpu::from_limits(gpu.limits, gpu_driver_of(gpu.provider));
                let battery_d = Battery::from_limits(
                    battery.limits,
                    battery_driver_of(battery.provider),
                );
                Settings { general, cpus, gpu: gpu_d, battery: battery_d }
            },
        }
    }
}

/// Hardware revision of the flagship handheld.
#[derive(Clone, Copy, Debug, PartialEq, Eq, Structural)]
pub enum Model {
    LCD,
    OLED,
}

/// Whether the charger is connected, as last reported.
#[derive(Clone, Copy, Debug, PartialEq, Eq, Structural)]
pub enum ChargeState {
    PluggedIn,
    Unplugged,
    Unknown,
}

/// The memory clock is at its highest setting (or unset): within one step
/// of the limit's maximum where a step is known, else equal to it.
pub open spec fn memory_clock_maxed(g: Gpu) -> bool {
    match (g.memory_clock, g.limits.memory_clock) {
        (Some(clock), Some(limit)) => match limit.max {
            Some(max) => match g.limits.memory_clock_step {
                Some(step) => clock > max - step,
                None => clock == max,
            },
            None => true,
        },
        _ => true,
    }
}

impl Gpu {
    pub fn is_memory_clock_maxed(&self) -> (r: bool)
        ensures
            r == memory_clock_maxed(*self),
    {
        match (self.memory_clock, self.limits.memory_clock) {
            (Some(clock), Some(limit)) => match limit.max {
                Some(max) => match self.limits.memory_clock_step {
                    Some(step) => if step > max {
                        true
                    } else {
                        clock > max - step
                    },
                    None => clock == max,
                },
                None => true,
            },
            _ => true,
        }
    }
}

} // verus!
