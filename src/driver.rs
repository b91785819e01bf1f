//! Loading driver sets: from a stored variant, from the system defaults, and
//! switching variants within an application's collection.
use vstd::prelude::*;
use crate::detect::Resolved;
use crate::limits::Limits;
use crate::persist::{has_id, DriverJson, FileJson, SettingsJson, StoreError, NEW_VARIANT_ID};
use crate::cpu::Cpus;
use crate::settings::{controllers_built, Battery, General, Gpu, Platform, Settings, SettingVariant};

verus! {

/// The four controllers built for one load.
#[derive(Debug)]
pub struct Driver {
    pub general: General,
    pub cpus: Cpus,
    pub gpu: Gpu,
    pub battery: Battery,
}

/// What went wrong while loading or switching settings.
#[derive(Debug, PartialEq, Eq, Structural)]
pub enum SettingErrorKind {
    /// The primary variant was asked of a collection without variants.
    EmptyFile,
    /// The collection has no variant of this id.
    MissingVariant(u64),
    /// The variant collection could not be updated.
    Store(StoreError),
}

/// An error of one subsystem.
#[derive(Debug, PartialEq, Eq, Structural)]
pub struct SettingError {
    pub kind: SettingErrorKind,
    pub setting: SettingVariant,
}

/// The general controller of a freshly built driver set.
pub open spec fn is_fresh_general(
    g: General,
    persistent: bool,
    path: String,
    app_id: u64,
    name: String,
    variant_id: u64,
    variant_name: String,
) -> bool {
    g == General {
        persistent,
        path,
        app_id,
        name,
        variant_id,
        variant_name,
        driver: DriverJson::AutoDetect,
    }
}

/// The stored record a driver set is restored from: the record where a
/// profile matched, none otherwise.
pub open spec fn restored_from(detected: Resolved, settings: SettingsJson) -> Option<SettingsJson> {
    if detected.profile is Some {
        Some(settings)
    } else {
        None
    }
}

impl Driver {
    /// Builds the driver set for a stored variant on the detected limits.
    /// Where no profile matched, the profile is not persistent and the
    /// controllers are the unknown platform's, ignoring the record.
    pub fn init(
        name: String,
        settings: &SettingsJson,
        json_path: String,
        app_id: u64,
        detected: Resolved,
        platform: Platform,
    ) -> (r: Self)
        ensures
            is_fresh_general(
                r.general,
                detected.profile is Some,
                json_path,
                app_id,
                name,
                settings.variant,
                settings.name,
            ),
            controllers_built(
                r.cpus,
                r.gpu,
                r.battery,
                restored_from(detected, *settings),
                detected.limits,
                platform,
            ),
    {
        let matched = detected.profile.is_some();
        let general = General {
            persistent: matched,
            path: json_path,
            app_id,
            name,
            variant_id: settings.variant,
            variant_name: settings.name.clone(),
            driver: DriverJson::AutoDetect,
        };
        let stored = if matched {
            Some(settings)
        } else {
            None
        };
        let s = Settings::build(general, stored, detected.limits, platform);
        Driver { general: s.general, cpus: s.cpus, gpu: s.gpu, battery: s.battery }
    }

    /// Builds the driver set of the system defaults, on the resolved limits.
    pub fn system_default(
        json_path: String,
        app_id: u64,
        name: String,
        variant_id: u64,
        variant_name: String,
        limits: Limits,
        platform: Platform,
    ) -> (r: Self)
        ensures
            is_fresh_general(r.general, false, json_path, app_id, name, variant_id, variant_name),
            controllers_built(r.cpus, r.gpu, r.battery, None, limits, platform),
    {
        let general = General {
            persistent: false,
            path: json_path,
            app_id,
            name,
            variant_id,
            variant_name,
            driver: DriverJson::AutoDetect,
        };
        let s = Settings::build(general, None, limits, platform);
        Driver { general: s.general, cpus: s.cpus, gpu: s.gpu, battery: s.battery }
    }

    pub fn into_settings(self) -> (r: Settings)
        ensures
            r.general == self.general,
            r.cpus == self.cpus,
            r.gpu == self.gpu,
            r.battery == self.battery,
    {
        Settings { general: self.general, cpus: self.cpus, gpu: self.gpu, battery: self.battery }
    }
}

/// The smallest id of a non-empty collection.
pub open spec fn is_min_id(entries: Seq<(u64, SettingsJson)>, k: int) -> bool {
    &&& 0 <= k < entries.len()
    &&& forall|j: int| 0 <= j < entries.len() ==> entries[k].0 <= #[trigger] entries[j].0
}

/// Entry `k` holds `s` and is the entry asked for: the one of id `id`, or,
/// where the primary variant (id 0) is not stored, the one of the smallest id.
pub open spec fn picks(entries: Seq<(u64, SettingsJson)>, id: u64, s: SettingsJson, k: int) -> bool {
    &&& 0 <= k < entries.len()
    &&& entries[k].1 == s
    &&& (entries[k].0 == id || (!has_id(entries, id) && id == 0 && is_min_id(entries, k)))
}

/// `s` is the variant asked for by `id`.
pub open spec fn is_variant_of(entries: Seq<(u64, SettingsJson)>, id: u64, s: SettingsJson) -> bool {
    exists|k: int| #[trigger] picks(entries, id, s, k)
}

impl Settings {
    /// Builds the driver set for a stored variant.
    pub fn from_json(
        name: String,
        other: SettingsJson,
        json_path: String,
        app_id: u64,
        detected: Resolved,
        platform: Platform,
    ) -> (r: Self)
        ensures
            is_fresh_general(
                r.general,
                detected.profile is Some,
                json_path,
                app_id,
                name,
                other.variant,
                other.name,
            ),
            controllers_built(
                r.cpus,
                r.gpu,
                r.battery,
                restored_from(detected, other),
                detected.limits,
                platform,
            ),
    {
        Driver::init(name, &other, json_path, app_id, detected, platform).into_settings()
    }

    /// Builds the driver set of the system defaults.
    pub fn system_default(
        json_path: String,
        app_id: u64,
        name: String,
        variant_id: u64,
        variant_name: String,
        limits: Limits,
        platform: Platform,
    ) -> (r: Self)
        ensures
            is_fresh_general(r.general, false, json_path, app_id, name, variant_id, variant_name),
            controllers_built(r.cpus, r.gpu, r.battery, None, limits, platform),
    {
        Driver::system_default(json_path, app_id, name, variant_id, variant_name, limits, platform).into_settings()
    }

    /// Replaces the driver set with the system defaults, keeping the path and
    /// application of the current profile.
    pub fn load_system_default(
        &mut self,
        name: String,
        variant_id: u64,
        variant_name: String,
        limits: Limits,
        platform: Platform,
    )
        ensures
            is_fresh_general(
                final(self).general,
                false,
                old(self).general.path,
                old(self).general.app_id,
                name,
                variant_id,
                variant_name,
            ),
            controllers_built(final(self).cpus, final(self).gpu, final(self).battery, None, limits, platform),
    {
        let path = self.general.path.clone();
        let d = Driver::system_default(
            path,
            self.general.app_id,
            name,
            variant_id,
            variant_name,
            limits,
            platform,
        );
        *self = d.into_settings();
    }

    /// The variant `variant_id` of a collection; the primary variant (id 0)
    /// falls back to the variant of the smallest id where it is not stored.
    pub fn get_variant<'a>(settings_file: &'a FileJson, variant_id: u64, variant_name: String) -> (r:
        Result<&'a SettingsJson, SettingError>)
        ensures
            match r {
                Ok(s) => is_variant_of(settings_file.variants@, variant_id, *s),
                Err(e) => {
                    &&& e.setting == SettingVariant::General
                    &&& !has_id(settings_file.variants@, variant_id)
                    &&& e.kind == (if variant_id == 0 {
                        SettingErrorKind::EmptyFile
                    } else {
                        SettingErrorKind::MissingVariant(variant_id)
                    })
                    &&& variant_id == 0 ==> settings_file.variants@.len() == 0
                },
            },
            has_id(settings_file.variants@, variant_id) || (variant_id == 0
                && settings_file.variants@.len() > 0) ==> r is Ok,
    {
        match settings_file.find(variant_id) {
            Some(j) => {
                let r = &settings_file.variants[j].1;
                assert(settings_file.variants@[j as int].1 == *r);
                assert(picks(settings_file.variants@, variant_id, *r, j as int));
                Ok(r)
            },
            None => {
                if variant_id == 0 {
                    let n = settings_file.variants.len();
                    if n == 0 {
                        return Err(
                            SettingError {
                                kind: SettingErrorKind::EmptyFile,
                                setting: SettingVariant::General,
                            },
                        );
                    }
                    let mut best: usize = 0;
                    let mut i: usize = 1;
                    while i < n
                        invariant
                            n == settings_file.variants@.len(),
                            1 <= i <= n,
                            best < i,
                            forall|j: int|
                                0 <= j < i ==> settings_file.variants@[best as int].0
                                    <= #[trigger] settings_file.variants@[j].0,
                        decreases n - i,
                    {
                        if settings_file.variants[i].0 < settings_file.variants[best].0 {
                            best = i;
                        }
                        i = i + 1;
                    }
                    assert(is_min_id(settings_file.variants@, best as int));
                    let r = &settings_file.variants[best].1;
                    assert(settings_file.variants@[best as int].1 == *r);
                    assert(picks(settings_file.variants@, variant_id, *r, best as int));
                    Ok(r)
                } else {
                    Err(
                        SettingError {
                            kind: SettingErrorKind::MissingVariant(variant_id),
                            setting: SettingVariant::General,
                        },
                    )
                }
            },
        }
    }

    /// Stores the current values as a new variant of the collection
    /// `existing` (`None`: none is stored yet) and switches to it; returns the
    /// collection to store.
    pub fn create_and_load_variant(
        &mut self,
        existing: Option<FileJson>,
        app_id: u64,
        variant_name: String,
    ) -> (r: Result<FileJson, SettingError>)
        requires
            match existing {
                Some(f) => f.well_formed(),
                None => true,
            },
        ensures
            final(self).general.persistent,
            final(self).cpus == old(self).cpus,
            final(self).gpu == old(self).gpu,
            final(self).battery == old(self).battery,
            match r {
                Ok(file) => {
                    &&& file.well_formed()
                    &&& has_id(file.variants@, final(self).general.variant_id)
                    &&& final(self).general.variant_id != NEW_VARIANT_ID || existing is Some
                },
                Err(e) => e.setting == SettingVariant::General && e.kind == SettingErrorKind::Store(
                    StoreError::IdsExhausted,
                ),
            },
            existing is None ==> r is Ok && final(self).general.variant_id == 1,
    {
        self.general.persistent = true;
        self.general.variant_id = NEW_VARIANT_ID;
        self.general.variant_name = variant_name;
        let snapshot = self.json();
        let app_name = self.general.name.clone();
        match crate::persist::FileJson::update_variant_or_create(existing, app_id, snapshot, app_name) {
            Ok((file, rec)) => {
                self.general.variant_id = rec.variant;
                self.general.variant_name = rec.name;
                proof {
                    if existing is Some {
                        let f = existing.unwrap();
                        if has_id(f.variants@, rec.variant) {
                            let j = choose|j: int|
                                0 <= j < f.variants@.len() && #[trigger] f.variants@[j].0
                                    == rec.variant;
                            assert(file.variants@[j].0 == rec.variant);
                        } else {
                            assert(file.variants@[file.variants@.len() - 1].0 == rec.variant);
                        }
                    } else {
                        assert(file.variants@[0].0 == rec.variant);
                    }
                }
                Ok(file)
            },
            Err(e) => Err(SettingError { kind: SettingErrorKind::Store(e), setting: SettingVariant::General }),
        }
    }

    /// Loads variant `variant` of the application's collection `existing`
    /// (`None`: no settings file exists) and makes `filename` the profile's
    /// file. A variant id of [`NEW_VARIANT_ID`] creates a new variant from
    /// the current values. Without a file, the profile becomes
    /// non-persistent (on the system defaults where `system_defaults` is
    /// set). A stored variant that is persistent rebuilds the controllers
    /// from it; one that is not only renames the profile. Returns whether
    /// the profile is persistent, and the collection to store where one was
    /// changed; on an error the settings are left as they were, unless a new
    /// variant could not be numbered.
    pub fn load_file(
        &mut self,
        existing: Option<FileJson>,
        filename: String,
        app_id: u64,
        name: String,
        variant: u64,
        variant_name: String,
        system_defaults: bool,
        detected: Resolved,
        platform: Platform,
    ) -> (r: Result<(bool, Option<FileJson>), SettingError>)
        requires
            match existing {
                Some(f) => f.well_formed(),
                None => true,
            },
        ensures
            match r {
                Ok((persistent, to_store)) => {
                    &&& persistent == final(self).general.persistent
                    &&& final(self).general.app_id == app_id
                    &&& final(self).general.path == filename
                    &&& (variant == NEW_VARIANT_ID) == to_store is Some
                },
                Err(e) => e.setting == SettingVariant::General,
            },
            variant == NEW_VARIANT_ID ==> match r {
                Ok((persistent, to_store)) => {
                    &&& persistent
                    &&& to_store matches Some(f) && f.well_formed() && has_id(
                        f.variants@,
                        final(self).general.variant_id,
                    )
                    &&& existing is None ==> final(self).general.variant_id == 1
                },
                Err(e) => e.kind == SettingErrorKind::Store(StoreError::IdsExhausted) && existing is Some,
            },
            (existing is None && variant != NEW_VARIANT_ID) ==> {
                &&& r == Ok::<(bool, Option<FileJson>), SettingError>((false, None))
                &&& final(self).general == (General {
                    persistent: false,
                    path: filename,
                    app_id,
                    name,
                    variant_id: variant,
                    variant_name,
                    driver: if system_defaults {
                        DriverJson::AutoDetect
                    } else {
                        old(self).general.driver
                    },
                })
                &&& if system_defaults {
                    controllers_built(
                        final(self).cpus,
                        final(self).gpu,
                        final(self).battery,
                        None,
                        detected.limits,
                        platform,
                    )
                } else {
                    &&& final(self).cpus == old(self).cpus
                    &&& final(self).gpu == old(self).gpu
                    &&& final(self).battery == old(self).battery
                }
            },
            match existing {
                Some(f) => variant != NEW_VARIANT_ID ==> {
                &&& r is Ok <==> (has_id(f.variants@, variant) || (variant == 0 && f.variants@.len() > 0))
                &&& r is Err ==> *final(self) == *old(self)
                &&& r is Ok ==> exists|s: SettingsJson|
                    #[trigger] is_variant_of(f.variants@, variant, s) && r == Ok::<
                        (bool, Option<FileJson>),
                        SettingError,
                    >((final(self).general.persistent, None)) && if s.persistent {
                        &&& is_fresh_general(
                            final(self).general,
                            detected.profile is Some,
                            filename,
                            app_id,
                            name,
                            s.variant,
                            s.name,
                        )
                        &&& controllers_built(
                            final(self).cpus,
                            final(self).gpu,
                            final(self).battery,
                            restored_from(detected, s),
                            detected.limits,
                            platform,
                        )
                    } else {
                        &&& final(self).general == (General {
                            persistent: false,
                            path: filename,
                            app_id,
                            name,
                            variant_id: s.variant,
                            variant_name: s.name,
                            driver: old(self).general.driver,
                        })
                        &&& final(self).cpus == old(self).cpus
                        &&& final(self).gpu == old(self).gpu
                        &&& final(self).battery == old(self).battery
                    }
                },
                None => true,
            },
    {
        let json_path = filename.clone();
        match existing {
            Some(file) => {
                if variant == NEW_VARIANT_ID {
                    let f = self.create_and_load_variant(Some(file), app_id, variant_name)?;
                    self.general.app_id = app_id;
                    self.general.path = filename;
                    return Ok((self.general.persistent, Some(f)));
                }
                let settings_json = Self::get_variant(&file, variant, variant_name)?;
                let ghost sj = *settings_json;
                if !settings_json.persistent {
                    self.general.persistent = false;
                    self.general.name = name;
                    self.general.variant_name = settings_json.name.clone();
                    self.general.variant_id = settings_json.variant;
                } else {
                    let d = Driver::init(name, settings_json, json_path, app_id, detected, platform);
                    *self = d.into_settings();
                }
                self.general.app_id = app_id;
                self.general.path = filename;
                let r = Ok((self.general.persistent, None));
                assert(is_variant_of(file.variants@, variant, sj));
                r
            },
            None => {
                if system_defaults {
                    self.load_system_default(
                        name,
                        variant,
                        variant_name.clone(),
                        detected.limits,
                        platform,
                    );
                } else {
                    self.general.name = name;
                    self.general.variant_name = variant_name.clone();
                    self.general.variant_id = variant;
                }
                self.general.persistent = false;
                if variant == NEW_VARIANT_ID {
                    let f = self.create_and_load_variant(None, app_id, variant_name)?;
                    self.general.app_id = app_id;
                    self.general.path = filename;
                    return Ok((self.general.persistent, Some(f)));
                }
                self.general.app_id = app_id;
                self.general.path = filename;
                Ok((self.general.persistent, None))
            },
        }
    }
}

impl FileJson {
    /// Id and name of every variant of the collection, in stored order.
    pub fn variant_infos(&self) -> (r: Vec<crate::settings::VariantInfo>)
        ensures
            r@.len() == self.variants@.len(),
            forall|i: int|
                0 <= i < r@.len() ==> (#[trigger] r@[i]).id_num == self.variants@[i].0 && r@[i].name
                    == self.variants@[i].1.name && r@[i].id@ == crate::text::decimal(
                    self.variants@[i].0 as nat,
                ),
    {
        let mut r: Vec<crate::settings::VariantInfo> = Vec::new();
        let mut i: usize = 0;
        while i < self.variants.len()
            invariant
                i <= self.variants@.len(),
                r@.len() == i,
                forall|j: int|
                    0 <= j < i ==> (#[trigger] r@[j]).id_num == self.variants@[j].0 && r@[j].name
                        == self.variants@[j].1.name && r@[j].id@ == crate::text::decimal(
                        self.variants@[j].0 as nat,
                    ),
            decreases self.variants@.len() - i,
        {
            let id = self.variants[i].0;
            r.push(
                crate::settings::VariantInfo {
                    id: crate::text::decimal_string(id as u128),
                    name: self.variants[i].1.name.clone(),
                    id_num: id,
                },
            );
            i = i + 1;
        }
        r
    }
}

impl General {
    /// The variants of the profile's collection (`None`: no collection is
    /// stored), or else the current variant alone.
    pub fn get_variants(&self, file: Option<&FileJson>) -> (r: Vec<crate::settings::VariantInfo>)
        ensures
            match file {
                Some(f) => r@.len() == f.variants@.len(),
                None => r@.len() == 1 && r@[0].id_num == self.variant_id && r@[0].name
                    == self.variant_name,
            },
    {
        match file {
            Some(f) => f.variant_infos(),
            None => {
                let mut r: Vec<crate::settings::VariantInfo> = Vec::new();
                r.push(self.get_variant_info());
                r
            },
        }
    }
}

} // verus!
