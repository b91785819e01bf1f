//! The capability catalog: the ordered device profiles, with the built-in
//! catalog used where no cached or downloaded one is at hand.
use vstd::prelude::*;
use crate::detect::{Conditions, Config};
use crate::limits::{
    BatteryLimitType, CpuLimitType, GenericBatteryLimit, GenericCpuLimit, GenericCpusLimit,
    GenericGpuLimit, GpuLimitType, Limit, LimitExtras, Limits, RangeLimit,
};

verus! {

/// A message from the catalog's maintainers to the operator.
#[derive(Debug)]
pub struct DeveloperMessage {
    pub id: u64,
    pub title: String,
    pub body: String,
    pub url: Option<String>,
}

/// The catalog document.
#[derive(Debug)]
pub struct Base {
    /// Device profiles, tried in order; the last one matches everywhere.
    pub configs: Vec<Config>,
    pub messages: Vec<DeveloperMessage>,
    /// Where to download the next version of the catalog.
    pub refresh: Option<String>,
    /// Base address of the community settings store.
    pub store: Option<String>,
}

/// Number of profiles in the built-in catalog.
pub const BUILT_IN_PROFILES: usize = 8;

fn cpuinfo_condition(pattern: &str) -> (r: Conditions)
    ensures
        r.cpuinfo matches Some(p) && p@ == pattern@,
        r.dmi is None,
        r.os is None,
        r.command is None,
        r.file_exists is None,
{
    Conditions {
        dmi: None,
        cpuinfo: Some(String::from_str(pattern)),
        os: None,
        command: None,
        file_exists: None,
    }
}

fn empty_battery() -> (r: GenericBatteryLimit)
    ensures
        r.charge_rate is None,
        r.charge_modes@.len() == 0,
        r.charge_limit is None,
{
    GenericBatteryLimit {
        charge_rate: None,
        charge_modes: Vec::new(),
        charge_limit: None,
        extra_readouts: false,
        extras: LimitExtras { experiments: false, quirks: Vec::new() },
    }
}

fn steam_deck_battery() -> (r: GenericBatteryLimit)
    ensures
        r.charge_rate == Some(RangeLimit { min: Some(250u64), max: Some(2500u64) }),
        r.charge_modes@.len() == 3,
        r.charge_limit == Some(RangeLimit { min: Some(10u64), max: Some(90u64) }),
{
    let mut modes: Vec<String> = Vec::new();
    modes.push(String::from_str("normal"));
    modes.push(String::from_str("discharge"));
    modes.push(String::from_str("idle"));
    GenericBatteryLimit {
        charge_rate: Some(RangeLimit { min: Some(250), max: Some(2500) }),
        charge_modes: modes,
        charge_limit: Some(RangeLimit { min: Some(10), max: Some(90) }),
        extra_readouts: false,
        extras: LimitExtras { experiments: false, quirks: Vec::new() },
    }
}

/// `count` CPUs with the same clock range, in MHz.
fn amd_cpus(count: usize, clock_min: u64, clock_max: u64) -> (r: GenericCpusLimit)
    ensures
        r.cpus@.len() == count,
        r.global_governors,
{
    let mut cpus: Vec<GenericCpuLimit> = Vec::new();
    let mut i: usize = 0;
    while i < count
        invariant
            i <= count,
            cpus@.len() == i,
        decreases count - i,
    {
        cpus.push(
            GenericCpuLimit {
                clock_min: Some(RangeLimit { min: Some(clock_min), max: Some(clock_max) }),
                clock_max: Some(RangeLimit { min: Some(clock_min), max: Some(clock_max) }),
                clock_step: Some(100),
                tdp: None,
                tdp_boost: None,
                tdp_divisor: None,
                tdp_step: None,
                skip_resume_reclock: false,
                experiments: false,
            },
        );
        i = i + 1;
    }
    GenericCpusLimit { cpus, global_governors: true, experiments: false }
}

/// A generic AMD GPU: power limits in mW, clocks in MHz where given.
fn amd_gpu(fast_max: u64, slow_max: u64, clocks: Option<(u64, u64)>) -> (r: GenericGpuLimit)
    ensures
        r.fast_ppt == Some(RangeLimit { min: Some(1000u64), max: Some(fast_max) }),
        r.slow_ppt == Some(RangeLimit { min: Some(1000u64), max: Some(slow_max) }),
        r.ppt_divisor == Some(1000u64),
{
    let mut g = GenericGpuLimit::empty();
    g.fast_ppt = Some(RangeLimit { min: Some(1_000), max: Some(fast_max) });
    g.slow_ppt = Some(RangeLimit { min: Some(1_000), max: Some(slow_max) });
    g.ppt_step = Some(1_000);
    g.ppt_divisor = Some(1_000);
    if let Some((lo, hi)) = clocks {
        g.clock_min = Some(RangeLimit { min: Some(lo), max: Some(hi) });
        g.clock_max = Some(RangeLimit { min: Some(lo), max: Some(hi) });
        g.clock_step = Some(100);
    }
    g
}

fn steam_deck_config(name: &str, pattern: &str, gpu: GenericGpuLimit) -> (r: Config)
    ensures
        r.name@ == name@,
        r.conditions.cpuinfo matches Some(p) && p@ == pattern@,
        r.limits.cpu.provider == CpuLimitType::SteamDeck,
        r.limits.gpu.provider == GpuLimitType::SteamDeck,
        r.limits.battery.provider == BatteryLimitType::SteamDeck,
        r.limits.cpu.limits.cpus@.len() == 8,
        r.limits.gpu.limits == gpu,
{
    Config {
        name: String::from_str(name),
        conditions: cpuinfo_condition(pattern),
        limits: Limits {
            cpu: Limit {
                provider: CpuLimitType::SteamDeck,
                limits: GenericCpusLimit::default_for(CpuLimitType::SteamDeck, None),
            },
            gpu: Limit { provider: GpuLimitType::SteamDeck, limits: gpu },
            battery: Limit { provider: BatteryLimitType::SteamDeck, limits: steam_deck_battery() },
        },
    }
}

fn amd_config(name: &str, pattern: &str, cpus: GenericCpusLimit, gpu: GenericGpuLimit) -> (r: Config)
    ensures
        r.name@ == name@,
        r.conditions.cpuinfo matches Some(p) && p@ == pattern@,
        r.limits.cpu.provider == CpuLimitType::GenericAMD,
        r.limits.gpu.provider == GpuLimitType::GenericAMD,
        r.limits.battery.provider == BatteryLimitType::Generic,
        r.limits.cpu.limits.cpus@ == cpus.cpus@,
        r.limits.gpu.limits == gpu,
{
    Config {
        name: String::from_str(name),
        conditions: cpuinfo_condition(pattern),
        limits: Limits {
            cpu: Limit { provider: CpuLimitType::GenericAMD, limits: cpus },
            gpu: Limit { provider: GpuLimitType::GenericAMD, limits: gpu },
            battery: Limit { provider: BatteryLimitType::Generic, limits: empty_battery() },
        },
    }
}

fn fallback_config() -> (r: Config)
    ensures
        r.conditions.dmi is None,
        r.conditions.cpuinfo is None,
        r.conditions.os is None,
        r.conditions.command is None,
        r.conditions.file_exists is None,
        r.limits.cpu.provider == CpuLimitType::Unknown,
        r.limits.gpu.provider == GpuLimitType::Unknown,
        r.limits.battery.provider == BatteryLimitType::Unknown,
{
    Config {
        name: String::from_str("Fallback"),
        conditions: Conditions { dmi: None, cpuinfo: None, os: None, command: None, file_exists: None },
        limits: Limits {
            cpu: Limit {
                provider: CpuLimitType::Unknown,
                limits: GenericCpusLimit::default_for(CpuLimitType::Unknown, None),
            },
            gpu: Limit {
                provider: GpuLimitType::Unknown,
                limits: GenericGpuLimit::default_for(GpuLimitType::Unknown),
            },
            battery: Limit { provider: BatteryLimitType::Unknown, limits: empty_battery() },
        },
    }
}

impl Base {
    /// Every profile but the last has a CPU pattern; the last has no
    /// condition at all and so matches every machine.
    pub open spec fn ends_with_fallback(self) -> bool {
        &&& self.configs@.len() > 0
        &&& self.configs@.last().conditions.dmi is None
        &&& self.configs@.last().conditions.cpuinfo is None
        &&& self.configs@.last().conditions.os is None
        &&& self.configs@.last().conditions.command is None
        &&& self.configs@.last().conditions.file_exists is None
    }

    /// Keeps the refresh address of `previous` where this catalog has none,
    /// so that a stored catalog never loses the way to its next update.
    pub fn keep_refresh_of(&mut self, previous: &Option<String>)
        ensures
            final(self).refresh == (if old(self).refresh is None {
                *previous
            } else {
                old(self).refresh
            }),
            final(self).configs == old(self).configs,
            final(self).messages == old(self).messages,
            final(self).store == old(self).store,
    {
        if self.refresh.is_none() {
            self.refresh = crate::persist::copy_opt_string(previous);
        }
    }
}

impl Default for Base {
    fn default() -> (r: Self)
        ensures
            r.configs@.len() == BUILT_IN_PROFILES,
            r.ends_with_fallback(),
            r.configs@.last().limits.cpu.provider == CpuLimitType::Unknown,
            r.configs@.last().limits.gpu.provider == GpuLimitType::Unknown,
            r.configs@.last().limits.battery.provider == BatteryLimitType::Unknown,
            forall|i: int| 0 <= i < r.configs@.len() - 1 ==> (#[trigger] r.configs@[i]).conditions.cpuinfo is Some,
            r.configs@[0].limits.cpu.provider == CpuLimitType::SteamDeck,
            r.configs@[0].limits.gpu.limits == GenericGpuLimit::spec_steam_deck(),
            r.configs@[1].limits.gpu.limits == GenericGpuLimit::spec_steam_deck_oled(),
            r.refresh is Some,
            r.messages@.len() == 1,
    {
        let mut configs: Vec<Config> = Vec::new();
        configs.push(
            steam_deck_config(
                "Steam Deck",
                "model name\t: AMD Custom APU 0405\n",
                GenericGpuLimit::default_for(GpuLimitType::SteamDeck),
            ),
        );
        configs.push(
            steam_deck_config(
                "Steam Deck OLED",
                "model name\t: AMD Custom APU 0932\n",
                GenericGpuLimit::default_for(GpuLimitType::SteamDeckOLED),
            ),
        );
        configs.push(
            amd_config(
                "AMD R3 2300U",
                "model name\t+: AMD Ryzen 3 2300U\n",
                amd_cpus(4, 1000, 3700),
                amd_gpu(25_000, 25_000, Some((400, 1100))),
            ),
        );
        configs.push(
            amd_config(
                "AMD R5 5560U",
                "model name\t+: AMD Ryzen 5 5560U\n",
                amd_cpus(12, 1000, 4000),
                amd_gpu(25_000, 25_000, Some((400, 1600))),
            ),
        );
        configs.push(
            amd_config(
                "AMD R7 5825U",
                "model name\t+: AMD Ryzen 7 5825U\n",
                amd_cpus(16, 1000, 4500),
                amd_gpu(28_000, 28_000, Some((400, 2200))),
            ),
        );
        configs.push(
            amd_config(
                "AMD R7 6800U",
                "model name\t+: AMD Ryzen 7 6800U( with Radeon Graphics)?\n",
                amd_cpus(16, 1000, 4700),
                amd_gpu(28_000, 28_000, Some((400, 2200))),
            ),
        );
        configs.push(
            amd_config(
                "AMD R7 7840U",
                "model name\\s+: AMD Ryzen 7 7840U( w\\/ Radeon  780M Graphics)?\n",
                amd_cpus(16, 400, 5100),
                amd_gpu(53_000, 43_000, None),
            ),
        );
        configs.push(fallback_config());
        let mut messages: Vec<DeveloperMessage> = Vec::new();
        messages.push(
            DeveloperMessage {
                id: 1,
                title: String::from_str("Welcome"),
                body: String::from_str(
                    "Thanks for installing PowerTools! For more information, please check the wiki. For bugs and requests, please create an issue.",
                ),
                url: Some(String::from_str("https://git.ngni.us/NG-SD-Plugins/PowerTools/wiki")),
            },
        );
        Base {
            configs,
            messages,
            refresh: Some(String::from_str("http://limits.ngni.us:45000/powertools/v2")),
            store: None,
        }
    }
}

/// What the catalog refresh worker does next.
#[derive(Clone, Copy, Debug, PartialEq, Eq, Structural)]
pub enum RefreshAction {
    /// The catalog names no address to refresh from: the worker ends.
    Stop,
    /// The cached catalog is older than the refresh period: download it.
    Fetch,
    /// Sleep until the next check.
    Wait,
}

impl Base {
    /// The refresh worker's decision at time `now_s` for a catalog last
    /// updated at `updated_s` (seconds): stop without a refresh address,
    /// fetch once `period_s` has passed, else wait. A clock that went back
    /// counts as no time passed.
    pub fn refresh_step(&self, now_s: u64, updated_s: u64, period_s: u64) -> (r: RefreshAction)
        ensures
            r == (if self.refresh is None {
                RefreshAction::Stop
            } else if now_s >= updated_s && now_s - updated_s >= period_s {
                RefreshAction::Fetch
            } else {
                RefreshAction::Wait
            }),
    {
        if self.refresh.is_none() {
            RefreshAction::Stop
        } else if now_s >= updated_s && now_s - updated_s >= period_s {
            RefreshAction::Fetch
        } else {
            RefreshAction::Wait
        }
    }

    /// Takes a downloaded catalog in place of this one, keeping this one's
    /// refresh address where the download has none.
    pub fn adopt(&mut self, downloaded: Base)
        ensures
            final(self).configs == downloaded.configs,
            final(self).messages == downloaded.messages,
            final(self).store == downloaded.store,
            final(self).refresh == (if downloaded.refresh is None {
                old(self).refresh
            } else {
                downloaded.refresh
            }),
    {
        let previous = crate::persist::copy_opt_string(&self.refresh);
        *self = downloaded;
        self.keep_refresh_of(&previous);
    }
}

} // verus!
