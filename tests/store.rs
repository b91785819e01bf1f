use powertools::driver::SettingErrorKind;
use powertools::persist::{
    BatteryJson, FileJson, GpuJson, SettingsJson, StoreError, NEW_VARIANT_ID,
};
use powertools::settings::Settings;

fn record(variant: u64, name: &str, persistent: bool) -> SettingsJson {
    SettingsJson {
        version: 0,
        name: name.to_string(),
        variant,
        persistent,
        cpus: Vec::new(),
        gpu: GpuJson {
            fast_ppt: None,
            slow_ppt: None,
            tdp: None,
            tdp_boost: None,
            clock_limits: None,
            memory_clock: None,
            root: None,
        },
        battery: BatteryJson::empty(),
        provider: None,
    }
}

fn file_with(ids: &[u64]) -> FileJson {
    FileJson {
        version: 0,
        name: "Game".to_string(),
        app_id: 7,
        variants: ids.iter().map(|&id| (id, record(id, "x", true))).collect(),
    }
}

#[test]
fn new_id_is_one_past_largest() {
    let file = file_with(&[0, 3, 5]);
    let (file, rec) = FileJson::update_variant_or_create(
        Some(file),
        7,
        record(NEW_VARIANT_ID, "", true),
        "Game".to_string(),
    )
    .unwrap();
    assert_eq!(rec.variant, 6);
    assert_eq!(rec.name, "Variant 6");
    assert_eq!(file.variants.len(), 4);
    assert_eq!(file.variants[3].0, 6);
}

#[test]
fn new_id_in_new_collection_is_one() {
    let (file, rec) = FileJson::update_variant_or_create(
        None,
        7,
        record(NEW_VARIANT_ID, "", true),
        "Game".to_string(),
    )
    .unwrap();
    assert_eq!(rec.variant, 1);
    assert_eq!(rec.name, "Variant 1");
    assert_eq!(file.name, "Game");
    assert_eq!(file.app_id, 7);
    assert_eq!(file.variants.len(), 1);
}

#[test]
fn new_id_in_empty_collection_is_one() {
    let file = file_with(&[]);
    let (_, rec) = FileJson::update_variant_or_create(
        Some(file),
        7,
        record(NEW_VARIANT_ID, "Mine", true),
        "Game".to_string(),
    )
    .unwrap();
    assert_eq!(rec.variant, 1);
    assert_eq!(rec.name, "Mine");
}

#[test]
fn existing_id_is_overwritten() {
    let file = file_with(&[0, 3]);
    let (file, rec) = FileJson::update_variant_or_create(
        Some(file),
        7,
        record(3, "Quiet", true),
        "Game".to_string(),
    )
    .unwrap();
    assert_eq!(rec.variant, 3);
    assert_eq!(file.variants.len(), 2);
    assert_eq!(file.variants[1].1.name, "Quiet");
}

#[test]
fn non_persistent_record_is_removed() {
    let file = file_with(&[0, 3, 5]);
    let (file, _) = FileJson::update_variant_or_create(
        Some(file),
        7,
        record(3, "x", false),
        "Game".to_string(),
    )
    .unwrap();
    let ids: Vec<u64> = file.variants.iter().map(|v| v.0).collect();
    assert_eq!(ids, vec![0, 5]);
}

#[test]
fn non_persistent_without_file_is_missing() {
    let r = FileJson::update_variant_or_create(None, 7, record(3, "x", false), "Game".to_string());
    assert_eq!(r.err(), Some(StoreError::Missing));
}

#[test]
fn no_id_left_after_largest() {
    let file = file_with(&[u64::MAX]);
    let r = FileJson::update_variant_or_create(
        Some(file),
        7,
        record(NEW_VARIANT_ID, "", true),
        "Game".to_string(),
    );
    assert_eq!(r.err(), Some(StoreError::IdsExhausted));
}

#[test]
fn next_available_id_values() {
    assert_eq!(file_with(&[]).next_available_id(), Some(1));
    assert_eq!(file_with(&[4, 2]).next_available_id(), Some(5));
}

#[test]
fn primary_variant_falls_back_to_smallest_id() {
    let file = file_with(&[9, 4, 6]);
    let v = Settings::get_variant(&file, 0, "Primary".to_string()).unwrap();
    assert_eq!(v.variant, 4);
    let v = Settings::get_variant(&file, 6, "x".to_string()).unwrap();
    assert_eq!(v.variant, 6);
}

#[test]
fn missing_variants_are_errors() {
    let file = file_with(&[9]);
    let e = Settings::get_variant(&file, 3, "x".to_string()).unwrap_err();
    assert_eq!(e.kind, SettingErrorKind::MissingVariant(3));
    let empty = file_with(&[]);
    let e = Settings::get_variant(&empty, 0, "x".to_string()).unwrap_err();
    assert_eq!(e.kind, SettingErrorKind::EmptyFile);
}

#[test]
fn variant_listing() {
    let file = file_with(&[3, 1]);
    let infos = file.variant_infos();
    assert_eq!(infos.len(), 2);
    assert_eq!(infos[0].id, "3");
    assert_eq!(infos[1].id_num, 1);
}

fn deck_limits() -> powertools::limits::Limits {
    powertools::catalog::Base::default().configs.into_iter().next().unwrap().limits
}

fn detected() -> powertools::detect::Resolved {
    powertools::detect::Resolved { profile: Some(0), limits: deck_limits() }
}

fn platform() -> powertools::settings::Platform {
    powertools::settings::Platform { cpu_present: Some(8), smt_capable: true }
}

#[test]
fn load_without_file_is_not_persistent() {
    let mut s = Settings::system_default("x.ron".to_string(), 1, "A".to_string(), 0, "Primary".to_string(), deck_limits(), platform());
    let r = s
        .load_file(None, "9.ron".to_string(), 9, "Game".to_string(), 0, "Primary".to_string(), false, detected(), platform())
        .unwrap();
    assert_eq!(r.0, false);
    assert!(r.1.is_none());
    assert_eq!(s.general.path, "9.ron");
    assert_eq!(s.general.app_id, 9);
    assert_eq!(s.general.name, "Game");
}

#[test]
fn load_new_variant_creates_collection() {
    let mut s = Settings::system_default("x.ron".to_string(), 1, "A".to_string(), 0, "Primary".to_string(), deck_limits(), platform());
    let (persistent, file) = s
        .load_file(None, "9.ron".to_string(), 9, "Game".to_string(), NEW_VARIANT_ID, "Loud".to_string(), false, detected(), platform())
        .unwrap();
    assert!(persistent);
    let file = file.unwrap();
    assert_eq!(file.variants.len(), 1);
    assert_eq!(s.general.variant_id, 1);
    assert_eq!(s.general.variant_name, "Loud");
}

#[test]
fn load_stored_variant_restores_values() {
    let mut stored = record(3, "Quiet", true);
    stored.gpu.fast_ppt = Some(12);
    let file = FileJson { version: 0, name: "Game".to_string(), app_id: 9, variants: vec![(3, stored)] };
    let mut s = Settings::system_default("x.ron".to_string(), 1, "A".to_string(), 0, "Primary".to_string(), deck_limits(), platform());
    let (persistent, to_store) = s
        .load_file(Some(file), "9.ron".to_string(), 9, "Game".to_string(), 3, "Quiet".to_string(), false, detected(), platform())
        .unwrap();
    assert!(persistent);
    assert!(to_store.is_none());
    assert_eq!(s.gpu.fast_ppt, Some(12));
    assert_eq!(s.general.variant_id, 3);
    assert_eq!(s.cpus.cpus.len(), 8);
}

#[test]
fn stored_variant_without_matching_profile_is_not_persistent() {
    let stored = record(3, "Quiet", true);
    let file = FileJson { version: 0, name: "Game".to_string(), app_id: 9, variants: vec![(3, stored)] };
    let mut s = Settings::system_default("x.ron".to_string(), 1, "A".to_string(), 0, "Primary".to_string(), deck_limits(), platform());
    let nothing = powertools::detect::Resolved { profile: None, limits: powertools::detect::unknown_limits() };
    let (persistent, _) = s
        .load_file(Some(file), "9.ron".to_string(), 9, "Game".to_string(), 3, "Quiet".to_string(), false, nothing, platform())
        .unwrap();
    assert!(!persistent);
    assert_eq!(s.general.variant_id, 3);
}

#[test]
fn missing_variant_leaves_settings() {
    let file = file_with(&[1]);
    let mut s = Settings::system_default("x.ron".to_string(), 1, "A".to_string(), 0, "Primary".to_string(), deck_limits(), platform());
    let r = s.load_file(Some(file), "9.ron".to_string(), 9, "Game".to_string(), 4, "X".to_string(), false, detected(), platform());
    assert!(r.is_err());
    assert_eq!(s.general.path, "x.ron");
    assert_eq!(s.general.app_id, 1);
}
