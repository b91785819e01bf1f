use powertools::limits::{GenericGpuLimit, GpuLimitType, RangeLimit};

#[test]
fn clearing_override_removes_fast_ppt() {
    let mut base = GenericGpuLimit::default_for(GpuLimitType::SteamDeck);
    let mut ov = GenericGpuLimit::default_for(GpuLimitType::Unknown);
    ov.fast_ppt = Some(RangeLimit { min: None, max: None });
    base.apply_override(ov);
    assert!(base.fast_ppt.is_none());
    assert_eq!(base.slow_ppt.unwrap().max, Some(29_000_000));
}

use powertools::limits::{
    range_max_or_fallback, range_min_or_fallback, CpuLimitType, GenericCpuLimit, GenericCpusLimit,
};
use powertools::catalog::Base;

#[test]
fn merging_same_override_twice_is_stable() {
    let mut once = Base::default().configs.into_iter().next().unwrap().limits;
    let mut ov = Base::default().configs.into_iter().nth(2).unwrap().limits;
    ov.gpu.limits.clock_min = Some(RangeLimit { min: None, max: None });
    ov.cpu.limits.cpus[0].clock_step = Some(50);
    let ov2 = {
        let mut o = Base::default().configs.into_iter().nth(2).unwrap().limits;
        o.gpu.limits.clock_min = Some(RangeLimit { min: None, max: None });
        o.cpu.limits.cpus[0].clock_step = Some(50);
        o
    };
    once.apply_override(Some(ov));
    let snapshot = format!("{:?}", once);
    once.apply_override(Some(ov2));
    assert_eq!(format!("{:?}", once), snapshot);
    assert!(once.gpu.limits.clock_min.is_none());
    assert_eq!(once.cpu.limits.cpus.len(), 4);
}

#[test]
fn equal_length_cpus_merge_per_element() {
    let mut base = GenericCpusLimit::default_for(CpuLimitType::SteamDeck, None);
    let mut ov = GenericCpusLimit::default_for(CpuLimitType::Generic, Some(8));
    ov.cpus[1].clock_max = Some(RangeLimit { min: Some(500), max: Some(3000) });
    ov.global_governors = false;
    base.apply_override(ov);
    assert_eq!(base.cpus.len(), 8);
    assert_eq!(base.cpus[1].clock_max.unwrap().max, Some(3000));
    assert_eq!(base.cpus[0].clock_max.unwrap().max, Some(3500));
    assert!(!base.global_governors);
}

#[test]
fn empty_cpu_override_keeps_base_array() {
    let mut base = GenericCpusLimit::default_for(CpuLimitType::DevMode, None);
    let ov = GenericCpusLimit { cpus: Vec::new(), global_governors: true, experiments: false };
    base.apply_override(ov);
    assert_eq!(base.cpus.len(), 11);
    assert!(!base.experiments);
}

#[test]
fn absent_override_field_keeps_base() {
    let mut base = GenericCpuLimit::default_for(&CpuLimitType::SteamDeck, 0);
    let ov = GenericCpuLimit::default_for(&CpuLimitType::Unknown, 0);
    base.apply_override(ov);
    assert_eq!(base.clock_min.unwrap().min, Some(1400));
}

#[test]
fn default_cpu_counts() {
    assert_eq!(GenericCpusLimit::default_for(CpuLimitType::Generic, None).cpus.len(), 8);
    assert_eq!(GenericCpusLimit::default_for(CpuLimitType::Generic, Some(16)).cpus.len(), 16);
    assert_eq!(GenericCpusLimit::default_for(CpuLimitType::SteamDeckOLED, Some(16)).cpus.len(), 8);
}

#[test]
fn range_fallbacks() {
    let r = Some(RangeLimit { min: Some(3u64), max: None });
    assert_eq!(range_min_or_fallback(&r, 9), 3);
    assert_eq!(range_max_or_fallback(&r, 9), 9);
    assert_eq!(range_min_or_fallback::<u64>(&None, 4), 4);
}

#[test]
fn oled_gpu_has_memory_step() {
    assert_eq!(GenericGpuLimit::default_for(GpuLimitType::SteamDeckOLED).memory_clock_step, Some(200));
    assert_eq!(GenericGpuLimit::default_for(GpuLimitType::SteamDeck).memory_clock_step, None);
    assert_eq!(GenericGpuLimit::default_for(GpuLimitType::DevMode).fast_ppt_default, Some(10_000_000));
}

#[test]
fn wholesale_cpu_override_clears_empty_ranges_once() {
    let base_cpus = GenericCpusLimit::default_for(CpuLimitType::SteamDeck, None);
    let mut ov = GenericCpusLimit::default_for(CpuLimitType::Generic, Some(2));
    ov.cpus[0].clock_min = Some(RangeLimit { min: None, max: None });
    ov.cpus[0].clock_max = Some(RangeLimit { min: Some(1), max: Some(2) });
    let ov2 = GenericCpusLimit {
        cpus: ov.cpus.iter().map(|c| c.copy()).collect(),
        global_governors: ov.global_governors,
        experiments: ov.experiments,
    };
    let mut merged = base_cpus;
    merged.apply_override(ov);
    assert_eq!(merged.cpus.len(), 2);
    assert!(merged.cpus[0].clock_min.is_none());
    let once = format!("{:?}", merged);
    merged.apply_override(ov2);
    assert_eq!(format!("{:?}", merged), once);
}
