//! Persisted settings records and the variant collection stored per
//! application.
use vstd::prelude::*;
use crate::text::{decimal, decimal_string};

verus! {

/// The id a record carries to ask for a fresh id.
pub const NEW_VARIANT_ID: u64 = 0xFFFF_FFFF_FFFF_FFFF;

/// Version of the records this library writes.
pub const LATEST_VERSION: u64 = 0;

/// Optional lower and upper bounds.
#[derive(Clone, Copy, Debug)]
pub struct MinMaxJson<T> {
    pub max: Option<T>,
    pub min: Option<T>,
}

/// Which driver family a record was made with.
#[derive(Clone, Copy, Debug, PartialEq, Eq, Structural)]
pub enum DriverJson {
    SteamDeck,
    SteamDeckOLED,
    Generic,
    GenericAMD,
    Unknown,
    AutoDetect,
    DevMode,
}

/// Stored values of one CPU.
#[derive(Debug)]
pub struct CpuJson {
    pub online: bool,
    pub clock_limits: Option<MinMaxJson<u64>>,
    pub governor: String,
    pub root: Option<String>,
}

/// Stored values of the GPU; power limits in watts, clocks in MHz.
#[derive(Debug)]
pub struct GpuJson {
    pub fast_ppt: Option<u64>,
    pub slow_ppt: Option<u64>,
    pub tdp: Option<u64>,
    pub tdp_boost: Option<u64>,
    pub clock_limits: Option<MinMaxJson<u64>>,
    pub memory_clock: Option<u64>,
    pub root: Option<String>,
}

/// A battery setting that applies when a power event happens.
#[derive(Debug)]
pub struct BatteryEventJson {
    pub trigger: String,
    pub charge_rate: Option<u64>,
    pub charge_mode: Option<String>,
}

/// Stored values of the battery; charge limit in percent.
#[derive(Debug)]
pub struct BatteryJson {
    pub charge_rate: Option<u64>,
    pub charge_mode: Option<String>,
    pub charge_limit: Option<u64>,
    pub events: Vec<BatteryEventJson>,
    pub root: Option<String>,
}

/// A versioned snapshot of every subsystem's user-visible values.
#[derive(Debug)]
pub struct SettingsJson {
    pub version: u64,
    pub name: String,
    pub variant: u64,
    pub persistent: bool,
    pub cpus: Vec<CpuJson>,
    pub gpu: GpuJson,
    pub battery: BatteryJson,
    pub provider: Option<DriverJson>,
}

impl CpuJson {
    pub fn copy(&self) -> (r: Self)
        ensures
            r == *self,
    {
        CpuJson {
            online: self.online,
            clock_limits: self.clock_limits,
            governor: self.governor.clone(),
            root: match &self.root {
                Some(s) => Some(s.clone()),
                None => None,
            },
        }
    }
}

impl GpuJson {
    pub fn copy(&self) -> (r: Self)
        ensures
            r == *self,
    {
        GpuJson {
            fast_ppt: self.fast_ppt,
            slow_ppt: self.slow_ppt,
            tdp: self.tdp,
            tdp_boost: self.tdp_boost,
            clock_limits: self.clock_limits,
            memory_clock: self.memory_clock,
            root: match &self.root {
                Some(s) => Some(s.clone()),
                None => None,
            },
        }
    }
}

pub fn copy_opt_string(s: &Option<String>) -> (r: Option<String>)
    ensures
        r == *s,
{
    match s {
        Some(v) => Some(v.clone()),
        None => None,
    }
}

impl BatteryEventJson {
    pub fn copy(&self) -> (r: Self)
        ensures
            r == *self,
    {
        BatteryEventJson {
            trigger: self.trigger.clone(),
            charge_rate: self.charge_rate,
            charge_mode: copy_opt_string(&self.charge_mode),
        }
    }
}

impl BatteryJson {
    /// The two records hold the same values.
    pub open spec fn same_as(self, other: Self) -> bool {
        &&& self.charge_rate == other.charge_rate
        &&& self.charge_mode == other.charge_mode
        &&& self.charge_limit == other.charge_limit
        &&& self.events@ == other.events@
        &&& self.root == other.root
    }

    pub fn copy(&self) -> (r: Self)
        ensures
            r.same_as(*self),
    {
        let mut events: Vec<BatteryEventJson> = Vec::new();
        let mut i: usize = 0;
        while i < self.events.len()
            invariant
                i <= self.events@.len(),
                events@ =~= self.events@.subrange(0, i as int),
            decreases self.events@.len() - i,
        {
            events.push(self.events[i].copy());
            i = i + 1;
        }
        assert(events@ =~= self.events@);
        BatteryJson {
            charge_rate: self.charge_rate,
            charge_mode: copy_opt_string(&self.charge_mode),
            charge_limit: self.charge_limit,
            events,
            root: copy_opt_string(&self.root),
        }
    }

    pub fn empty() -> (r: Self)
        ensures
            r.charge_rate is None,
            r.charge_mode is None,
            r.charge_limit is None,
            r.events@.len() == 0,
            r.root is None,
    {
        BatteryJson {
            charge_rate: None,
            charge_mode: None,
            charge_limit: None,
            events: Vec::new(),
            root: None,
        }
    }
}

impl SettingsJson {
    /// The two records hold the same values.
    pub open spec fn same_as(self, other: Self) -> bool {
        &&& self.version == other.version
        &&& self.name == other.name
        &&& self.variant == other.variant
        &&& self.persistent == other.persistent
        &&& self.cpus@ == other.cpus@
        &&& self.gpu == other.gpu
        &&& self.battery.same_as(other.battery)
        &&& self.provider == other.provider
    }

    pub fn copy(&self) -> (r: Self)
        ensures
            r.same_as(*self),
    {
        let mut cpus: Vec<CpuJson> = Vec::new();
        let mut i: usize = 0;
        while i < self.cpus.len()
            invariant
                i <= self.cpus@.len(),
                cpus@ =~= self.cpus@.subrange(0, i as int),
            decreases self.cpus@.len() - i,
        {
            cpus.push(self.cpus[i].copy());
            i = i + 1;
        }
        assert(cpus@ =~= self.cpus@);
        SettingsJson {
            version: self.version,
            name: self.name.clone(),
            variant: self.variant,
            persistent: self.persistent,
            cpus,
            gpu: self.gpu.copy(),
            battery: self.battery.copy(),
            provider: self.provider,
        }
    }
}

/// Whether `id` is the key of some entry.
pub open spec fn has_id(entries: Seq<(u64, SettingsJson)>, id: u64) -> bool {
    exists|j: int| 0 <= j < entries.len() && #[trigger] entries[j].0 == id
}

/// The largest key of a non-empty list of entries.
pub open spec fn max_id(entries: Seq<(u64, SettingsJson)>) -> u64
    decreases entries.len(),
{
    if entries.len() <= 1 {
        if entries.len() == 0 { 0 } else { entries[0].0 }
    } else {
        let rest = max_id(entries.drop_last());
        if entries.last().0 > rest { entries.last().0 } else { rest }
    }
}

/// The id a new variant gets: one past the largest id, or 1 in an empty collection.
pub open spec fn next_id(entries: Seq<(u64, SettingsJson)>) -> int {
    if entries.len() == 0 {
        1
    } else {
        max_id(entries) + 1
    }
}

/// The variants of one application, as stored on disk.
#[derive(Debug)]
pub struct FileJson {
    pub version: u64,
    pub name: String,
    pub app_id: u64,
    /// Variant records keyed by id; no id occurs twice.
    pub variants: Vec<(u64, SettingsJson)>,
}

/// Why the variant collection could not be updated.
#[derive(Debug, PartialEq, Eq, Structural)]
pub enum StoreError {
    /// A record was to be removed from a collection that does not exist.
    Missing,
    /// The largest id is already the largest number, so no new id is left.
    IdsExhausted,
}

/// The name a variant gets where its record has none: `Variant <id>`.
pub open spec fn default_variant_name(id: u64) -> Seq<char> {
    "Variant "@ + decimal(id as nat)
}

pub fn variant_name_for(id: u64) -> (r: String)
    ensures
        r@ == default_variant_name(id),
{
    let mut s = String::from_str("Variant ");
    let d = decimal_string(id as u128);
    s.append(d.as_str());
    s
}

/// `rec` is `incoming` with the id and name a stored record gets: `id`, and
/// `Variant <id>` where the name is empty.
pub open spec fn is_named_record(rec: SettingsJson, incoming: SettingsJson, id: u64) -> bool {
    &&& rec.variant == id
    &&& rec.name@ == (if incoming.name@.len() == 0 {
        default_variant_name(id)
    } else {
        incoming.name@
    })
    &&& rec.version == incoming.version
    &&& rec.persistent == incoming.persistent
    &&& rec.cpus@ == incoming.cpus@
    &&& rec.gpu == incoming.gpu
    &&& rec.battery.same_as(incoming.battery)
    &&& rec.provider == incoming.provider
}

/// `after` is `before` with the record for `rec.variant` put in place: the
/// entry of that id overwritten where there is one, else appended.
pub open spec fn is_upsert(
    after: Seq<(u64, SettingsJson)>,
    before: Seq<(u64, SettingsJson)>,
    rec: SettingsJson,
) -> bool {
    if has_id(before, rec.variant) {
        &&& after.len() == before.len()
        &&& forall|j: int|
            0 <= j < before.len() ==> if before[j].0 == rec.variant {
                after[j].0 == rec.variant && after[j].1.same_as(rec)
            } else {
                after[j] == before[j]
            }
    } else {
        &&& after.len() == before.len() + 1
        &&& after.drop_last() == before
        &&& after.last().0 == rec.variant
        &&& after.last().1.same_as(rec)
    }
}

impl FileJson {
    /// No id occurs twice.
    pub open spec fn well_formed(self) -> bool {
        forall|a: int, b: int|
            0 <= a < b < self.variants@.len() ==> #[trigger] self.variants@[a].0
                != #[trigger] self.variants@[b].0
    }

    /// Index of the entry with id `id`, if any.
    pub fn find(&self, id: u64) -> (r: Option<usize>)
        ensures
            match r {
                Some(j) => j < self.variants@.len() && self.variants@[j as int].0 == id,
                None => !has_id(self.variants@, id),
            },
    {
        let mut j: usize = 0;
        while j < self.variants.len()
            invariant
                j <= self.variants@.len(),
                forall|k: int| 0 <= k < j ==> self.variants@[k].0 != id,
            decreases self.variants@.len() - j,
        {
            if self.variants[j].0 == id {
                return Some(j);
            }
            j = j + 1;
        }
        None
    }

    /// The id a new variant gets; `None` where the largest id leaves no room.
    pub fn next_available_id(&self) -> (r: Option<u64>)
        ensures
            match r {
                Some(id) => id == next_id(self.variants@),
                None => next_id(self.variants@) > u64::MAX,
            },
    {
        if self.variants.len() == 0 {
            return Some(1);
        }
        let mut max: u64 = self.variants[0].0;
        let mut j: usize = 1;
        while j < self.variants.len()
            invariant
                1 <= j <= self.variants@.len(),
                max == max_id(self.variants@.subrange(0, j as int)),
            decreases self.variants@.len() - j,
        {
            assert(self.variants@.subrange(0, j + 1).drop_last() =~= self.variants@.subrange(0, j as int));
            if self.variants[j].0 > max {
                max = self.variants[j].0;
            }
            j = j + 1;
        }
        assert(self.variants@.subrange(0, j as int) =~= self.variants@);
        if max == u64::MAX {
            None
        } else {
            Some(max + 1)
        }
    }

    /// Puts `rec` at its id: overwrites the entry of that id, or appends one.
    pub fn upsert(&mut self, rec: SettingsJson)
        requires
            old(self).well_formed(),
        ensures
            final(self).well_formed(),
            is_upsert(final(self).variants@, old(self).variants@, rec),
            final(self).version == old(self).version,
            final(self).name == old(self).name,
            final(self).app_id == old(self).app_id,
    {
        let id = rec.variant;
        match self.find(id) {
            Some(j) => {
                let ghost before = self.variants@;
                self.variants.set(j, (id, rec.copy()));
                assert forall|k: int| 0 <= k < before.len() && before[k].0 == id implies k == j by {
                    if k != j {
                        if k < j {
                            assert(before[k].0 != before[j as int].0);
                        } else {
                            assert(before[j as int].0 != before[k].0);
                        }
                    }
                }
            },
            None => {
                let ghost before = self.variants@;
                self.variants.push((id, rec.copy()));
                assert(self.variants@.drop_last() =~= before);
                assert forall|a: int, b: int|
                    0 <= a < b < self.variants@.len() implies #[trigger] self.variants@[a].0
                    != #[trigger] self.variants@[b].0 by {
                    if b == before.len() {
                        assert(before[a].0 != id);
                    }
                }
            },
        }
    }

    /// Takes out the entry with id `id`, where there is one.
    pub fn remove_variant(&mut self, id: u64)
        requires
            old(self).well_formed(),
        ensures
            final(self).well_formed(),
            !has_id(final(self).variants@, id),
            match old(self).find_spec(id) {
                Some(j) => final(self).variants@ == old(self).variants@.remove(j as int),
                None => final(self).variants@ == old(self).variants@,
            },
            final(self).version == old(self).version,
            final(self).name == old(self).name,
            final(self).app_id == old(self).app_id,
    {
        let ghost before = self.variants@;
        match self.find(id) {
            Some(j) => {
                let _ = self.variants.remove(j);
                proof {
                    assert(before[j as int].0 == id);
                    assert forall|k: int| 0 <= k < self.variants@.len() implies self.variants@[k].0
                        != id by {
                        if k < j {
                            assert(before[k].0 != before[j as int].0);
                        } else {
                            assert(self.variants@[k] == before[k + 1]);
                            assert(before[j as int].0 != before[k + 1].0);
                        }
                    }
                    assert forall|a: int, b: int|
                        0 <= a < b < self.variants@.len() implies #[trigger] self.variants@[a].0
                        != #[trigger] self.variants@[b].0 by {
                        let a2 = if a < j { a } else { a + 1 };
                        let b2 = if b < j { b } else { b + 1 };
                        assert(self.variants@[a] == before[a2]);
                        assert(self.variants@[b] == before[b2]);
                    }
                    assert(old(self).find_spec(id) == Some(j));
                }
            },
            None => {},
        }
    }

    /// Index of the entry with id `id`, if any.
    pub open spec fn find_spec(self, id: u64) -> Option<usize> {
        if has_id(self.variants@, id) {
            Some(choose|j: usize| j < self.variants@.len() && self.variants@[j as int].0 == id)
        } else {
            None
        }
    }

    /// Records `setting` in the collection `existing` of an application
    /// (`None`: no collection is stored yet), and returns the collection to
    /// store with the record as stored.
    ///
    /// A record that is not persistent is taken out of the collection and
    /// not added again. A persistent one is put at its id; a record that asks
    /// for a new id gets one past the largest id (1 where the collection is
    /// new or empty), and one without a name is named `Variant <id>`.
    pub fn update_variant_or_create(
        existing: Option<FileJson>,
        app_id: u64,
        setting: SettingsJson,
        app_name: String,
    ) -> (r: Result<(FileJson, SettingsJson), StoreError>)
        requires
            match existing {
                Some(f) => f.well_formed(),
                None => true,
            },
        ensures
            match r {
                Ok((file, rec)) => {
                    &&& file.well_formed()
                    &&& if !setting.persistent {
                        &&& existing is Some
                        &&& rec.same_as(setting)
                        &&& file.version == existing.unwrap().version
                        &&& file.name == existing.unwrap().name
                        &&& file.app_id == existing.unwrap().app_id
                        &&& !has_id(file.variants@, setting.variant)
                        &&& match existing.unwrap().find_spec(setting.variant) {
                            Some(j) => file.variants@ == existing.unwrap().variants@.remove(j as int),
                            None => file.variants@ == existing.unwrap().variants@,
                        }
                    } else {
                        let id: int = if setting.variant == NEW_VARIANT_ID {
                            match existing {
                                Some(f) => next_id(f.variants@),
                                None => 1,
                            }
                        } else {
                            setting.variant as int
                        };
                        &&& is_named_record(rec, setting, id as u64)
                        &&& rec.variant == id
                        &&& match existing {
                            Some(f) => {
                                &&& file.version == f.version
                                &&& file.name == f.name
                                &&& file.app_id == f.app_id
                                &&& is_upsert(file.variants@, f.variants@, rec)
                            },
                            None => {
                                &&& file.version == 0
                                &&& file.name == app_name
                                &&& file.app_id == app_id
                                &&& file.variants@.len() == 1
                                &&& file.variants@[0].0 == rec.variant
                                &&& file.variants@[0].1.same_as(rec)
                            },
                        }
                    }
                },
                Err(e) => {
                    &&& e == StoreError::Missing <==> (!setting.persistent && existing is None)
                    &&& e == StoreError::IdsExhausted <==> (setting.persistent
                        && setting.variant == NEW_VARIANT_ID && existing is Some && next_id(
                        existing.unwrap().variants@,
                    ) > u64::MAX)
                },
            },
            r is Err ==> ((!setting.persistent && existing is None) || (setting.persistent
                && setting.variant == NEW_VARIANT_ID && existing is Some && next_id(
                existing.unwrap().variants@,
            ) > u64::MAX)),
    {
        let mut setting = setting;
        if !setting.persistent {
            match existing {
                None => return Err(StoreError::Missing),
                Some(file) => {
                    let mut file = file;
                    file.remove_variant(setting.variant);
                    return Ok((file, setting));
                },
            }
        }
        match existing {
            Some(file) => {
                let mut file = file;
                if setting.variant == NEW_VARIANT_ID {
                    match file.next_available_id() {
                        Some(id) => setting.variant = id,
                        None => return Err(StoreError::IdsExhausted),
                    }
                }
                if setting.name.as_str().unicode_len() == 0 {
                    setting.name = variant_name_for(setting.variant);
                }
                file.upsert(setting.copy());
                Ok((file, setting))
            },
            None => {
                if setting.variant == NEW_VARIANT_ID {
                    setting.variant = 1;
                }
                if setting.name.as_str().unicode_len() == 0 {
                    setting.name = variant_name_for(setting.variant);
                }
                let mut variants: Vec<(u64, SettingsJson)> = Vec::new();
                variants.push((setting.variant, setting.copy()));
                let file = FileJson { version: 0, app_id, name: app_name, variants };
                Ok((file, setting))
            },
        }
    }
}

} // verus!
