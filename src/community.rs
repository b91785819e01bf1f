//! The community settings store as this library sees it: the records it
//! exchanges, their conversion from and to stored records, and its addresses.
use vstd::prelude::*;
use crate::persist::{
    copy_opt_string, BatteryEventJson, BatteryJson, CpuJson, DriverJson, GpuJson, MinMaxJson,
    SettingsJson, LATEST_VERSION, NEW_VARIANT_ID,
};
use crate::text::{decimal, decimal_string};

verus! {

/// Optional lower and upper bounds.
#[derive(Clone, Copy, Debug)]
pub struct MinMax<T> {
    pub max: Option<T>,
    pub min: Option<T>,
}

/// A battery setting bound to a power event.
#[derive(Debug)]
pub struct BatteryEvent {
    pub trigger: String,
    pub charge_rate: Option<u64>,
    pub charge_mode: Option<String>,
}

#[derive(Debug)]
pub struct Battery {
    pub charge_rate: Option<u64>,
    pub charge_mode: Option<String>,
    pub events: Vec<BatteryEvent>,
}

#[derive(Debug)]
pub struct Cpu {
    pub online: bool,
    pub clock_limits: Option<MinMax<u64>>,
    pub governor: String,
}

#[derive(Debug)]
pub struct Gpu {
    pub fast_ppt: Option<u64>,
    pub slow_ppt: Option<u64>,
    pub tdp: Option<u64>,
    pub tdp_boost: Option<u64>,
    pub clock_limits: Option<MinMax<u64>>,
    pub memory_clock: Option<u64>,
}

/// The values of every component of a shared configuration.
#[derive(Debug)]
pub struct Config {
    pub cpus: Vec<Cpu>,
    pub gpu: Gpu,
    pub battery: Battery,
}

/// A shared configuration with who shared it, for which application.
#[derive(Debug)]
pub struct Metadata {
    pub name: String,
    pub steam_app_id: u32,
    pub steam_user_id: u64,
    pub steam_username: String,
    pub tags: Vec<String>,
    /// Decimal text of a 128-bit id.
    pub id: String,
    pub config: Config,
}

/// Whether `c` is an ASCII digit, and its value.
pub open spec fn digit_value(c: char) -> nat {
    (c as nat - '0' as nat) as nat
}

pub open spec fn is_digit(c: char) -> bool {
    '0' <= c <= '9'
}

/// `s` is a non-empty run of ASCII digits.
pub open spec fn is_digits(s: Seq<char>) -> bool {
    s.len() > 0 && forall|i: int| 0 <= i < s.len() ==> #[trigger] is_digit(s[i])
}

/// The number a run of digits denotes.
pub open spec fn digits_value(s: Seq<char>) -> nat
    decreases s.len(),
{
    if s.len() == 0 {
        0
    } else {
        digits_value(s.drop_last()) * 10 + digit_value(s.last())
    }
}

proof fn lemma_digit_char(d: nat)
    requires
        d < 10,
    ensures
        is_digit(crate::text::digit_char(d)),
        digit_value(crate::text::digit_char(d)) == d,
{
}

/// The decimal text of a number is a run of digits that denotes it.
pub proof fn lemma_decimal_round_trip(n: nat)
    ensures
        is_digits(decimal(n)),
        digits_value(decimal(n)) == n,
    decreases n,
{
    if n < 10 {
        lemma_digit_char(n);
        assert(decimal(n).drop_last() =~= Seq::<char>::empty());
        assert(digits_value(decimal(n)) == digits_value(Seq::<char>::empty()) * 10 + digit_value(
            decimal(n).last(),
        ));
    } else {
        lemma_decimal_round_trip(n / 10);
        lemma_digit_char(n % 10);
        let s = decimal(n);
        assert(s.drop_last() =~= decimal(n / 10));
        assert(s.last() == crate::text::digit_char(n % 10));
        assert(digits_value(s) == digits_value(decimal(n / 10)) * 10 + digit_value(s.last()));
        assert(n == (n / 10) * 10 + n % 10) by (nonlinear_arith);
        assert forall|i: int| 0 <= i < s.len() implies #[trigger] is_digit(s[i]) by {
            if i < s.len() - 1 {
                assert(s[i] == decimal(n / 10)[i]);
            }
        }
    }
}

/// The number that the digits of `s` denote, where they are digits and it fits in 128 bits.
pub fn parse_decimal(s: &str) -> (r: Option<u128>)
    ensures
        match r {
            Some(v) => is_digits(s@) && digits_value(s@) == v,
            None => !is_digits(s@) || digits_value(s@) > u128::MAX,
        },
{
    let n = s.unicode_len();
    if n == 0 {
        return None;
    }
    let mut value: u128 = 0;
    let mut i: usize = 0;
    while i < n
        invariant
            n == s@.len(),
            i <= n,
            is_digits(s@.subrange(0, i as int)) || i == 0,
            value == digits_value(s@.subrange(0, i as int)),
        decreases n - i,
    {
        let c = s.get_char(i);
        assert(s@.subrange(0, i + 1).drop_last() =~= s@.subrange(0, i as int));
        if !('0' <= c && c <= '9') {
            assert(!is_digit(s@[i as int]));
            return None;
        }
        let d = (c as u32 - '0' as u32) as u128;
        if value > (u128::MAX - d) / 10 {
            proof {
                assert(digits_value(s@.subrange(0, i + 1)) > u128::MAX) by (nonlinear_arith)
                    requires
                        value > (u128::MAX - d) / 10,
                        digits_value(s@.subrange(0, i + 1)) == value * 10 + d,
                        d <= 9,
                ;
                lemma_prefix_value_bound(s@, i as int + 1);
            }
            return None;
        }
        value = value * 10 + d;
        i = i + 1;
    }
    assert(s@.subrange(0, n as int) =~= s@);
    Some(value)
}

/// A longer run of digits denotes at least as much as its prefix.
proof fn lemma_prefix_value_bound(s: Seq<char>, k: int)
    requires
        0 < k <= s.len(),
        digits_value(s.subrange(0, k)) > u128::MAX,
    ensures
        !is_digits(s) || digits_value(s) > u128::MAX,
    decreases s.len() - k,
{
    if k < s.len() {
        assert(s.subrange(0, k + 1).drop_last() =~= s.subrange(0, k));
        assert(digits_value(s.subrange(0, k + 1)) >= digits_value(s.subrange(0, k)) * 10) by (nonlinear_arith)
            requires
                digits_value(s.subrange(0, k + 1)) == digits_value(s.subrange(0, k)) * 10
                    + digit_value(s.subrange(0, k + 1).last()),
        ;
        lemma_prefix_value_bound(s, k + 1);
    } else {
        assert(s.subrange(0, k) =~= s);
    }
}

impl Metadata {
    /// Stores `id` as its decimal text.
    pub fn set_id(&mut self, id: u128)
        ensures
            final(self).id@ == decimal(id as nat),
            final(self).name == old(self).name,
            final(self).steam_app_id == old(self).steam_app_id,
            final(self).steam_user_id == old(self).steam_user_id,
            final(self).tags == old(self).tags,
    {
        self.id = decimal_string(id);
    }

    /// The id, from its decimal text.
    pub fn get_id(&self) -> (r: u128)
        requires
            is_digits(self.id@),
            digits_value(self.id@) <= u128::MAX,
        ensures
            r == digits_value(self.id@),
    {
        match parse_decimal(self.id.as_str()) {
            Some(v) => v,
            None => 0,
        }
    }
}

/// Reading back an id that was set gives that id.
pub proof fn lemma_id_round_trip(m: Metadata, id: u128)
    requires
        m.id@ == decimal(id as nat),
    ensures
        is_digits(m.id@),
        digits_value(m.id@) == id,
{
    lemma_decimal_round_trip(id as nat);
}

/// Where the community store is reached.
#[derive(Debug)]
pub struct StoreLocation {
    pub base_url: Option<String>,
}

/// Address used where none was configured.
pub open spec fn fallback_base_url() -> Seq<char> {
    "https://powertools.ngni.us"@
}

impl StoreLocation {
    pub open spec fn spec_base(self) -> Seq<char> {
        match self.base_url {
            Some(u) => u@,
            None => fallback_base_url(),
        }
    }

    pub fn set_base_url(&mut self, base_url: String)
        ensures
            final(self).base_url == Some(base_url),
    {
        self.base_url = Some(base_url);
    }

    pub fn get_base_url(&self) -> (r: String)
        ensures
            r@ == self.spec_base(),
    {
        match &self.base_url {
            Some(u) => u.clone(),
            None => String::from_str("https://powertools.ngni.us"),
        }
    }

    /// Address of the list of configurations shared for an application.
    pub fn url_search_by_app_id(&self, steam_app_id: u32) -> (r: String)
        ensures
            r@ == self.spec_base() + "/api/setting/by_app_id/"@ + decimal(steam_app_id as nat),
    {
        let mut s = self.get_base_url();
        s.append("/api/setting/by_app_id/");
        let d = decimal_string(steam_app_id as u128);
        s.append(d.as_str());
        s
    }

    /// Address of one shared configuration.
    pub fn url_download_config_by_id(&self, id: u128) -> (r: String)
        ensures
            r@ == self.spec_base() + "/api/setting/by_id/"@ + decimal(id as nat),
    {
        let mut s = self.get_base_url();
        s.append("/api/setting/by_id/");
        let d = decimal_string(id);
        s.append(d.as_str());
        s
    }

    /// Address that accepts a configuration to share.
    pub fn url_upload_config(&self) -> (r: String)
        ensures
            r@ == self.spec_base() + "/api/setting"@,
    {
        let mut s = self.get_base_url();
        s.append("/api/setting");
        s
    }
}

/// Stored bounds in the shared form.
pub open spec fn web_min_max(m: Option<MinMaxJson<u64>>) -> Option<MinMax<u64>> {
    match m {
        Some(l) => Some(MinMax { min: l.min, max: l.max }),
        None => None,
    }
}

/// Shared bounds in the stored form.
pub open spec fn json_min_max(m: Option<MinMax<u64>>) -> Option<MinMaxJson<u64>> {
    match m {
        Some(l) => Some(MinMaxJson { min: l.min, max: l.max }),
        None => None,
    }
}

/// Converting a stored record to the shared form and back keeps every value
/// the shared form carries.
pub proof fn lemma_web_round_trip(s: SettingsJson, m: Metadata, r: SettingsJson)
    requires
        m.name == s.name,
        m.config.cpus@.len() == s.cpus@.len(),
        forall|i: int|
            0 <= i < m.config.cpus@.len() ==> (#[trigger] m.config.cpus@[i]).online == s.cpus@[i].online
                && m.config.cpus@[i].governor == s.cpus@[i].governor && m.config.cpus@[i].clock_limits
                == web_min_max(s.cpus@[i].clock_limits),
        m.config.gpu.clock_limits == web_min_max(s.gpu.clock_limits),
        r.cpus@.len() == m.config.cpus@.len(),
        forall|i: int|
            0 <= i < r.cpus@.len() ==> (#[trigger] r.cpus@[i]).clock_limits == json_min_max(
                m.config.cpus@[i].clock_limits,
            ),
        r.gpu.clock_limits == json_min_max(m.config.gpu.clock_limits),
    ensures
        forall|i: int| 0 <= i < r.cpus@.len() ==> (#[trigger] r.cpus@[i]).clock_limits == s.cpus@[i].clock_limits,
        r.gpu.clock_limits == s.gpu.clock_limits,
{
}

fn cpu_to_web(c: &CpuJson) -> (r: Cpu)
    ensures
        r.online == c.online,
        r.governor == c.governor,
        r.clock_limits == match c.clock_limits {
            Some(l) => Some(MinMax { min: l.min, max: l.max }),
            None => None,
        },
{
    Cpu {
        online: c.online,
        clock_limits: match c.clock_limits {
            Some(l) => Some(MinMax { min: l.min, max: l.max }),
            None => None,
        },
        governor: c.governor.clone(),
    }
}

fn cpu_from_web(c: &Cpu) -> (r: CpuJson)
    ensures
        r.online == c.online,
        r.governor == c.governor,
        r.clock_limits == match c.clock_limits {
            Some(l) => Some(MinMaxJson { min: l.min, max: l.max }),
            None => None,
        },
        r.root is None,
{
    CpuJson {
        online: c.online,
        clock_limits: match c.clock_limits {
            Some(l) => Some(MinMaxJson { min: l.min, max: l.max }),
            None => None,
        },
        governor: c.governor.clone(),
        root: None,
    }
}

/// The shared form of a stored record, offered by a user for an application.
pub fn settings_to_web_config(app_id: u32, user_id: u64, username: String, settings: &SettingsJson) -> (r:
    Metadata)
    ensures
        r.name == settings.name,
        r.steam_app_id == app_id,
        r.steam_user_id == user_id,
        r.steam_username == username,
        r.tags@.len() == 1 && r.tags@[0]@ == "wip"@,
        r.id@ == Seq::<char>::empty(),
        r.config.cpus@.len() == settings.cpus@.len(),
        forall|i: int|
            0 <= i < r.config.cpus@.len() ==> (#[trigger] r.config.cpus@[i]).online
                == settings.cpus@[i].online && r.config.cpus@[i].governor
                == settings.cpus@[i].governor && r.config.cpus@[i].clock_limits == web_min_max(
                settings.cpus@[i].clock_limits,
            ),
        r.config.gpu.clock_limits == web_min_max(settings.gpu.clock_limits),
        forall|i: int|
            0 <= i < r.config.battery.events@.len() ==> (#[trigger] r.config.battery.events@[i]).trigger
                == settings.battery.events@[i].trigger && r.config.battery.events@[i].charge_rate
                == settings.battery.events@[i].charge_rate && r.config.battery.events@[i].charge_mode
                == settings.battery.events@[i].charge_mode,
        r.config.gpu.fast_ppt == settings.gpu.fast_ppt,
        r.config.gpu.slow_ppt == settings.gpu.slow_ppt,
        r.config.gpu.tdp == settings.gpu.tdp,
        r.config.gpu.tdp_boost == settings.gpu.tdp_boost,
        r.config.gpu.memory_clock == settings.gpu.memory_clock,
        r.config.battery.charge_rate == settings.battery.charge_rate,
        r.config.battery.charge_mode == settings.battery.charge_mode,
        r.config.battery.events@.len() == settings.battery.events@.len(),
{
    let mut cpus: Vec<Cpu> = Vec::new();
    let mut i: usize = 0;
    while i < settings.cpus.len()
        invariant
            i <= settings.cpus@.len(),
            cpus@.len() == i,
            forall|j: int|
                0 <= j < i ==> (#[trigger] cpus@[j]).online == settings.cpus@[j].online
                    && cpus@[j].governor == settings.cpus@[j].governor && cpus@[j].clock_limits
                    == web_min_max(settings.cpus@[j].clock_limits),
        decreases settings.cpus@.len() - i,
    {
        cpus.push(cpu_to_web(&settings.cpus[i]));
        i = i + 1;
    }
    let mut events: Vec<BatteryEvent> = Vec::new();
    let mut k: usize = 0;
    while k < settings.battery.events.len()
        invariant
            k <= settings.battery.events@.len(),
            events@.len() == k,
            forall|j: int|
                0 <= j < k ==> (#[trigger] events@[j]).trigger == settings.battery.events@[j].trigger
                    && events@[j].charge_rate == settings.battery.events@[j].charge_rate
                    && events@[j].charge_mode == settings.battery.events@[j].charge_mode,
        decreases settings.battery.events@.len() - k,
    {
        let e = &settings.battery.events[k];
        events.push(
            BatteryEvent {
                trigger: e.trigger.clone(),
                charge_rate: e.charge_rate,
                charge_mode: copy_opt_string(&e.charge_mode),
            },
        );
        k = k + 1;
    }
    let mut tags: Vec<String> = Vec::new();
    tags.push(String::from_str("wip"));
    Metadata {
        name: settings.name.clone(),
        steam_app_id: app_id,
        steam_user_id: user_id,
        steam_username: username,
        tags,
        id: String::new(),
        config: Config {
            cpus,
            gpu: Gpu {
                fast_ppt: settings.gpu.fast_ppt,
                slow_ppt: settings.gpu.slow_ppt,
                tdp: settings.gpu.tdp,
                tdp_boost: settings.gpu.tdp_boost,
                clock_limits: match settings.gpu.clock_limits {
                    Some(l) => Some(MinMax { min: l.min, max: l.max }),
                    None => None,
                },
                memory_clock: settings.gpu.memory_clock,
            },
            battery: Battery {
                charge_rate: settings.battery.charge_rate,
                charge_mode: copy_opt_string(&settings.battery.charge_mode),
                events,
            },
        },
    }
}

/// A downloaded configuration as a stored record: persistent, auto-detected
/// drivers, and asking for a new variant id when it is added.
pub fn web_config_to_settings_json(meta: &Metadata) -> (r: SettingsJson)
    ensures
        r.version == LATEST_VERSION,
        r.name == meta.name,
        r.variant == NEW_VARIANT_ID,
        r.persistent,
        r.provider == Some(DriverJson::AutoDetect),
        r.cpus@.len() == meta.config.cpus@.len(),
        forall|i: int|
            0 <= i < r.cpus@.len() ==> (#[trigger] r.cpus@[i]).online == meta.config.cpus@[i].online
                && r.cpus@[i].governor == meta.config.cpus@[i].governor && r.cpus@[i].root is None
                && r.cpus@[i].clock_limits == json_min_max(meta.config.cpus@[i].clock_limits),
        r.gpu.clock_limits == json_min_max(meta.config.gpu.clock_limits),
        forall|i: int|
            0 <= i < r.battery.events@.len() ==> (#[trigger] r.battery.events@[i]).trigger
                == meta.config.battery.events@[i].trigger && r.battery.events@[i].charge_rate
                == meta.config.battery.events@[i].charge_rate && r.battery.events@[i].charge_mode
                == meta.config.battery.events@[i].charge_mode,
        r.gpu.fast_ppt == meta.config.gpu.fast_ppt,
        r.gpu.slow_ppt == meta.config.gpu.slow_ppt,
        r.gpu.tdp == meta.config.gpu.tdp,
        r.gpu.tdp_boost == meta.config.gpu.tdp_boost,
        r.gpu.memory_clock == meta.config.gpu.memory_clock,
        r.gpu.root is None,
        r.battery.charge_rate == meta.config.battery.charge_rate,
        r.battery.charge_mode == meta.config.battery.charge_mode,
        r.battery.charge_limit is None,
        r.battery.events@.len() == meta.config.battery.events@.len(),
{
    let mut cpus: Vec<CpuJson> = Vec::new();
    let mut i: usize = 0;
    while i < meta.config.cpus.len()
        invariant
            i <= meta.config.cpus@.len(),
            cpus@.len() == i,
            forall|j: int|
                0 <= j < i ==> (#[trigger] cpus@[j]).online == meta.config.cpus@[j].online
                    && cpus@[j].governor == meta.config.cpus@[j].governor && cpus@[j].root is None
                    && cpus@[j].clock_limits == json_min_max(meta.config.cpus@[j].clock_limits),
        decreases meta.config.cpus@.len() - i,
    {
        cpus.push(cpu_from_web(&meta.config.cpus[i]));
        i = i + 1;
    }
    let mut events: Vec<BatteryEventJson> = Vec::new();
    let mut k: usize = 0;
    while k < meta.config.battery.events.len()
        invariant
            k <= meta.config.battery.events@.len(),
            events@.len() == k,
            forall|j: int|
                0 <= j < k ==> (#[trigger] events@[j]).trigger == meta.config.battery.events@[j].trigger
                    && events@[j].charge_rate == meta.config.battery.events@[j].charge_rate
                    && events@[j].charge_mode == meta.config.battery.events@[j].charge_mode,
        decreases meta.config.battery.events@.len() - k,
    {
        let e = &meta.config.battery.events[k];
        events.push(
            BatteryEventJson {
                trigger: e.trigger.clone(),
                charge_rate: e.charge_rate,
                charge_mode: copy_opt_string(&e.charge_mode),
            },
        );
        k = k + 1;
    }
    SettingsJson {
        version: LATEST_VERSION,
        name: meta.name.clone(),
        variant: NEW_VARIANT_ID,
        persistent: true,
        cpus,
        gpu: GpuJson {
            fast_ppt: meta.config.gpu.fast_ppt,
            slow_ppt: meta.config.gpu.slow_ppt,
            tdp: meta.config.gpu.tdp,
            tdp_boost: meta.config.gpu.tdp_boost,
            clock_limits: match meta.config.gpu.clock_limits {
                Some(l) => Some(MinMaxJson { min: l.min, max: l.max }),
                None => None,
            },
            memory_clock: meta.config.gpu.memory_clock,
            root: None,
        },
        battery: BatteryJson {
            charge_rate: meta.config.battery.charge_rate,
            charge_mode: copy_opt_string(&meta.config.battery.charge_mode),
            charge_limit: None,
            events,
            root: None,
        },
        provider: Some(DriverJson::AutoDetect),
    }
}

/// Prepares an upload of `settings` for application `id` by user `user_id`
/// (decimal text); `None` where the user id is not a 64-bit number. The
/// application id keeps its low 32 bits.
pub fn upload_settings(id: u64, user_id: &str, username: String, settings: &SettingsJson) -> (r:
    Option<Metadata>)
    ensures
        match r {
            Some(m) => {
                &&& is_digits(user_id@)
                &&& m.steam_user_id == digits_value(user_id@)
                &&& m.steam_app_id == id as u32
                &&& m.steam_username == username
                &&& m.name == settings.name
            },
            None => !is_digits(user_id@) || digits_value(user_id@) > u64::MAX,
        },
{
    match parse_decimal(user_id) {
        Some(v) => {
            if v > u64::MAX as u128 {
                None
            } else {
                Some(settings_to_web_config(id as u32, v as u64, username, settings))
            }
        },
        None => None,
    }
}

} // verus!
