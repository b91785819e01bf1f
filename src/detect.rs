//! Device detection: matching the running machine against the capability
//! catalog, first match wins.
use vstd::prelude::*;
use crate::limits::{
    BatteryLimitType, CpuLimitType, GenericBatteryLimit, GenericCpusLimit, GenericGpuLimit,
    GpuLimitType, Limit, LimitExtras, Limits,
};

verus! {

/// What a multi-line regular expression `pattern` says of `text`: `None` where
/// the pattern does not compile, else whether it matches somewhere in the text.
pub uninterp spec fn multiline_match(pattern: Seq<char>, text: Seq<char>) -> Option<bool>;

/// Relies on regex::RegexBuilder (with `multi_line(true)`), its `build`, and
/// Regex::is_match: the outcome depends on the pattern and the text alone.
#[verifier::external_body]
fn regex_multiline_match(pattern: &str, text: &str) -> (r: Option<bool>)
    ensures
        r == multiline_match(pattern@, text@),
{
    match regex::RegexBuilder::new(pattern).multi_line(true).build() {
        Ok(re) => Some(re.is_match(text)),
        Err(_) => None,
    }
}

/// Conditions under which a device profile applies. Every present condition
/// must hold; a profile with none applies everywhere.
#[derive(Debug)]
pub struct Conditions {
    /// Pattern for the firmware table dump.
    pub dmi: Option<String>,
    /// Pattern for the CPU information text.
    pub cpuinfo: Option<String>,
    /// Pattern for the OS release text.
    pub os: Option<String>,
    /// Shell command that must exit with status 0.
    pub command: Option<String>,
    /// Path that must exist.
    pub file_exists: Option<String>,
}

/// Text read from the running machine.
#[derive(Debug)]
pub struct Signatures {
    pub dmi: String,
    pub cpuinfo: String,
    pub os: String,
}

/// What the host found when it ran a profile's command and file checks.
#[derive(Clone, Copy, Debug)]
pub struct HostProbe {
    /// Whether the command exited with status 0; `None` where it could not be run.
    pub command_ok: Option<bool>,
    /// Whether the path exists.
    pub file_exists: bool,
}

/// A pattern condition holds where it is absent, or where it compiles and matches.
pub open spec fn pattern_holds(outcome: Option<Option<bool>>) -> bool {
    match outcome {
        None => true,
        Some(o) => o == Some(true),
    }
}

/// Outcome of an optional pattern on a text: `None` where there is no pattern.
pub open spec fn pattern_outcome(pattern: Option<String>, text: Seq<char>) -> Option<Option<bool>> {
    match pattern {
        None => None,
        Some(p) => Some(multiline_match(p@, text)),
    }
}

impl Conditions {
    pub fn is_empty(&self) -> (r: bool)
        ensures
            r == (self.dmi is None && self.cpuinfo is None && self.os is None && self.command is None
                && self.file_exists is None),
    {
        self.dmi.is_none() && self.cpuinfo.is_none() && self.os.is_none() && self.command.is_none()
            && self.file_exists.is_none()
    }

    /// The conditions hold, given the outcome of each pattern (`None` where the
    /// pattern is absent) and the host's probe.
    pub open spec fn spec_holds_given(
        self,
        dmi: Option<Option<bool>>,
        cpuinfo: Option<Option<bool>>,
        os: Option<Option<bool>>,
        probe: HostProbe,
    ) -> bool {
        &&& pattern_holds(dmi)
        &&& pattern_holds(cpuinfo)
        &&& pattern_holds(os)
        &&& (self.command is Some ==> probe.command_ok != Some(false))
        &&& (self.file_exists is Some ==> probe.file_exists)
    }

    /// The conditions hold on the machine whose text is `sig`.
    pub open spec fn spec_matches(self, sig: Signatures, probe: HostProbe) -> bool {
        self.spec_holds_given(
            pattern_outcome(self.dmi, sig.dmi@),
            pattern_outcome(self.cpuinfo, sig.cpuinfo@),
            pattern_outcome(self.os, sig.os@),
            probe,
        )
    }

    pub fn holds_given(
        &self,
        dmi: Option<Option<bool>>,
        cpuinfo: Option<Option<bool>>,
        os: Option<Option<bool>>,
        probe: &HostProbe,
    ) -> (r: bool)
        ensures
            r == self.spec_holds_given(dmi, cpuinfo, os, *probe),
    {
        let mut matches = true;
        if let Some(o) = dmi {
            matches = matches && o == Some(true);
        }
        if let Some(o) = cpuinfo {
            matches = matches && o == Some(true);
        }
        if let Some(o) = os {
            matches = matches && o == Some(true);
        }
        if self.command.is_some() {
            matches = matches && probe.command_ok != Some(false);
        }
        if self.file_exists.is_some() {
            matches = matches && probe.file_exists;
        }
        matches
    }

    pub fn matches(&self, sig: &Signatures, probe: &HostProbe) -> (r: bool)
        ensures
            r == self.spec_matches(*sig, *probe),
    {
        let dmi = match &self.dmi {
            Some(p) => Some(regex_multiline_match(p.as_str(), sig.dmi.as_str())),
            None => None,
        };
        let cpuinfo = match &self.cpuinfo {
            Some(p) => Some(regex_multiline_match(p.as_str(), sig.cpuinfo.as_str())),
            None => None,
        };
        let os = match &self.os {
            Some(p) => Some(regex_multiline_match(p.as_str(), sig.os.as_str())),
            None => None,
        };
        self.holds_given(dmi, cpuinfo, os, probe)
    }
}

/// One device profile of the catalog.
#[derive(Debug)]
pub struct Config {
    pub name: String,
    pub conditions: Conditions,
    pub limits: Limits,
}

/// Limits of a machine that no profile matched: every driver unknown and
/// every field absent.
pub open spec fn is_unknown_limits(l: Limits) -> bool {
    &&& l.cpu.provider == CpuLimitType::Unknown
    &&& l.cpu.limits.cpus@.len() == 0
    &&& !l.cpu.limits.global_governors
    &&& !l.cpu.limits.experiments
    &&& l.gpu.provider == GpuLimitType::Unknown
    &&& l.gpu.limits == GenericGpuLimit::spec_empty()
    &&& l.battery.provider == BatteryLimitType::Unknown
    &&& l.battery.limits.charge_rate is None
    &&& l.battery.limits.charge_modes@.len() == 0
    &&& l.battery.limits.charge_limit is None
    &&& !l.battery.limits.extra_readouts
    &&& !l.battery.limits.extras.experiments
    &&& l.battery.limits.extras.quirks@.len() == 0
}

pub fn unknown_limits() -> (r: Limits)
    ensures
        is_unknown_limits(r),
{
    Limits {
        cpu: Limit {
            provider: CpuLimitType::Unknown,
            limits: GenericCpusLimit { cpus: Vec::new(), global_governors: false, experiments: false },
        },
        gpu: Limit { provider: GpuLimitType::Unknown, limits: GenericGpuLimit::empty() },
        battery: Limit {
            provider: BatteryLimitType::Unknown,
            limits: GenericBatteryLimit {
                charge_rate: None,
                charge_modes: Vec::new(),
                charge_limit: None,
                extra_readouts: false,
                extras: LimitExtras { experiments: false, quirks: Vec::new() },
            },
        },
    }
}

/// Result of detection: the index of the profile that matched, if any, and
/// the limits to use.
#[derive(Debug)]
pub struct Resolved {
    pub profile: Option<usize>,
    pub limits: Limits,
}

/// `i` is the first profile whose conditions hold, per `holds`.
pub open spec fn is_first_match(holds: Seq<bool>, i: int) -> bool {
    &&& 0 <= i < holds.len()
    &&& holds[i]
    &&& forall|j: int| 0 <= j < i ==> !holds[j]
}

/// The outcome of detection over `configs`, given whether each profile's
/// conditions hold.
pub open spec fn is_resolution(
    r: Resolved,
    configs: Seq<Config>,
    holds: Seq<bool>,
    limit_override: Option<Limits>,
) -> bool {
    match r.profile {
        Some(i) => {
            &&& is_first_match(holds, i as int)
            &&& match limit_override {
                Some(ov) => r.limits.is_merge_of(configs[i as int].limits, ov),
                None => r.limits == configs[i as int].limits,
            }
        },
        None => {
            &&& forall|j: int| 0 <= j < holds.len() ==> !holds[j]
            &&& is_unknown_limits(r.limits)
        },
    }
}

/// Picks the first profile whose entry of `holds` is true, and merges the
/// override onto its limits; falls back to the unknown limits.
pub fn resolve_given(configs: Vec<Config>, holds: &Vec<bool>, limit_override: Option<Limits>) -> (r:
    Resolved)
    requires
        holds@.len() == configs@.len(),
    ensures
        is_resolution(r, configs@, holds@, limit_override),
{
    let mut i: usize = 0;
    while i < holds.len() && !holds[i]
        invariant
            i <= holds@.len(),
            forall|j: int| 0 <= j < i ==> !holds@[j],
        decreases holds@.len() - i,
    {
        i = i + 1;
    }
    if i < holds.len() {
        let mut remaining = configs;
        let conf = remaining.remove(i);
        let mut limits = conf.limits;
        limits.apply_override(limit_override);
        Resolved { profile: Some(i), limits }
    } else {
        Resolved { profile: None, limits: unknown_limits() }
    }
}

/// Whether each profile holds on the machine described by `sig` and `probes`.
pub open spec fn holds_on(configs: Seq<Config>, sig: Signatures, probes: Seq<HostProbe>) -> Seq<
    bool,
> {
    Seq::new(configs.len(), |i: int| configs[i].conditions.spec_matches(sig, probes[i]))
}

/// Detects the running machine: the first profile of `configs` whose
/// conditions hold on `sig` (with `probes[i]` the host's probe for profile
/// `i`) gives the limits, with `limit_override` merged onto them.
pub fn resolve(
    configs: Vec<Config>,
    sig: &Signatures,
    probes: &Vec<HostProbe>,
    limit_override: Option<Limits>,
) -> (r: Resolved)
    requires
        probes@.len() == configs@.len(),
    ensures
        is_resolution(r, configs@, holds_on(configs@, *sig, probes@), limit_override),
{
    let mut holds: Vec<bool> = Vec::new();
    let mut i: usize = 0;
    while i < configs.len()
        invariant
            i <= configs@.len(),
            probes@.len() == configs@.len(),
            holds@ =~= holds_on(configs@, *sig, probes@).subrange(0, i as int),
        decreases configs@.len() - i,
    {
        let h = configs[i].conditions.matches(sig, &probes[i]);
        holds.push(h);
        i = i + 1;
    }
    assert(holds@ =~= holds_on(configs@, *sig, probes@));
    resolve_given(configs, &holds, limit_override)
}

/// Detection picks the first matching profile: where profile `p` holds and no
/// earlier one does, the result is `p`'s limits (with the override merged),
/// whatever later profiles would say.
pub proof fn lemma_first_match_wins(
    r: Resolved,
    configs: Seq<Config>,
    holds: Seq<bool>,
    limit_override: Option<Limits>,
    p: int,
)
    requires
        is_resolution(r, configs, holds, limit_override),
        0 <= p < holds.len(),
        holds[p],
        forall|j: int| 0 <= j < p ==> !holds[j],
    ensures
        r.profile == Some(p as usize),
        match limit_override {
            Some(ov) => r.limits.is_merge_of(configs[p].limits, ov),
            None => r.limits == configs[p].limits,
        },
{
    match r.profile {
        Some(i) => {
            if (i as int) < p {
            } else if (i as int) > p {
                assert(!holds[p]);
            }
        },
        None => {
            assert(!holds[p]);
        },
    }
}

/// The battery driver of the running machine, as detection picks it.
pub fn auto_detect_provider(
    configs: Vec<Config>,
    sig: &Signatures,
    probes: &Vec<HostProbe>,
    limit_override: Option<Limits>,
) -> (r: crate::persist::DriverJson)
    requires
        probes@.len() == configs@.len(),
    ensures
        exists|res: Resolved|
            is_resolution(res, configs@, holds_on(configs@, *sig, probes@), limit_override)
                && r == crate::settings::battery_driver(res.limits.battery.provider),
{
    let res = resolve(configs, sig, probes, limit_override);
    crate::settings::battery_driver_of(res.limits.battery.provider)
}

/// What the hidden button does on a machine with the given driver.
#[derive(Clone, Copy, Debug, PartialEq, Eq, Structural)]
pub enum ButtonAction {
    /// Flash the power LED.
    FlashLed,
    /// Nothing to do; say so in the log.
    Nothing,
}

/// The hidden button flashes the LED on the flagship handheld only.
pub fn maybe_do_button(provider: crate::persist::DriverJson) -> (r: ButtonAction)
    ensures
        r == (if provider == crate::persist::DriverJson::SteamDeck {
            ButtonAction::FlashLed
        } else {
            ButtonAction::Nothing
        }),
{
    match provider {
        crate::persist::DriverJson::SteamDeck => ButtonAction::FlashLed,
        _ => ButtonAction::Nothing,
    }
}

} // verus!
