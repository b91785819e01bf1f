use powertools::catalog::Base;
use powertools::detect::{
    auto_detect_provider, maybe_do_button, resolve, ButtonAction, Conditions, Config, HostProbe,
    Signatures,
};
use powertools::limits::{CpuLimitType, GpuLimitType};
use powertools::persist::DriverJson;

fn sig(cpuinfo: &str) -> Signatures {
    Signatures { dmi: String::new(), cpuinfo: cpuinfo.to_string(), os: String::new() }
}

fn probes(n: usize) -> Vec<HostProbe> {
    vec![HostProbe { command_ok: None, file_exists: false }; n]
}

#[test]
fn steam_deck_cpu_picks_first_profile() {
    let configs = Base::default().configs;
    let n = configs.len();
    let r = resolve(configs, &sig("vendor\nmodel name\t: AMD Custom APU 0405\nflags\n"), &probes(n), None);
    assert_eq!(r.profile, Some(0));
    assert_eq!(r.limits.cpu.provider, CpuLimitType::SteamDeck);
    assert_eq!(r.limits.cpu.limits.cpus.len(), 8);
}

#[test]
fn unknown_cpu_falls_to_last_profile() {
    let configs = Base::default().configs;
    let n = configs.len();
    let r = resolve(configs, &sig("model name\t: Some Other CPU\n"), &probes(n), None);
    assert_eq!(r.profile, Some(n - 1));
    assert_eq!(r.limits.gpu.provider, GpuLimitType::Unknown);
}

#[test]
fn earlier_profile_wins_over_later_match() {
    let a = Base::default().configs.into_iter().nth(2).unwrap();
    let mut b = Base::default().configs.into_iter().nth(0).unwrap();
    b.conditions.cpuinfo = Some("AMD".to_string());
    let mut c = Base::default().configs.into_iter().nth(1).unwrap();
    c.conditions.cpuinfo = Some("Ryzen".to_string());
    let configs = vec![a, b, c];
    let r = resolve(configs, &sig("model name\t: AMD Ryzen 9\n"), &probes(3), None);
    assert_eq!(r.profile, Some(1));
    assert_eq!(r.limits.cpu.provider, CpuLimitType::SteamDeck);
}

#[test]
fn malformed_pattern_skips_only_that_profile() {
    let mut bad = Base::default().configs.into_iter().nth(3).unwrap();
    bad.conditions.cpuinfo = Some("(unclosed".to_string());
    let good = Base::default().configs.into_iter().nth(0).unwrap();
    let mut good = good;
    good.conditions.cpuinfo = Some("unclosed".to_string());
    let r = resolve(vec![bad, good], &sig("(unclosed"), &probes(2), None);
    assert_eq!(r.profile, Some(1));
}

#[test]
fn no_match_gives_unknown_limits() {
    let mut only = Base::default().configs.into_iter().nth(0).unwrap();
    only.conditions.command = Some("false".to_string());
    only.conditions.cpuinfo = None;
    let probe = vec![HostProbe { command_ok: Some(false), file_exists: false }];
    let r = resolve(vec![only], &sig(""), &probe, None);
    assert_eq!(r.profile, None);
    assert_eq!(r.limits.cpu.provider, CpuLimitType::Unknown);
    assert!(r.limits.cpu.limits.cpus.is_empty());
    assert!(r.limits.gpu.limits.fast_ppt.is_none());
}

#[test]
fn command_that_cannot_run_is_ignored() {
    let mut only = Base::default().configs.into_iter().nth(0).unwrap();
    only.conditions.command = Some("x".to_string());
    only.conditions.cpuinfo = None;
    let probe = vec![HostProbe { command_ok: None, file_exists: false }];
    let r = resolve(vec![only], &sig(""), &probe, None);
    assert_eq!(r.profile, Some(0));
}

#[test]
fn missing_file_condition_fails() {
    let mut only = Base::default().configs.into_iter().nth(0).unwrap();
    only.conditions.file_exists = Some("/nope".to_string());
    only.conditions.cpuinfo = None;
    let r = resolve(vec![only], &sig(""), &probes(1), None);
    assert_eq!(r.profile, None);
}

#[test]
fn override_applied_to_match() {
    let configs = Base::default().configs;
    let n = configs.len();
    let mut ov = Base::default().configs.into_iter().nth(0).unwrap().limits;
    ov.gpu.limits.fast_ppt = Some(powertools::limits::RangeLimit { min: None, max: None });
    let r = resolve(configs, &sig("model name\t: AMD Custom APU 0405\n"), &probes(n), Some(ov));
    assert!(r.limits.gpu.limits.fast_ppt.is_none());
    assert!(r.limits.gpu.limits.slow_ppt.is_some());
}

#[test]
fn provider_of_detected_battery() {
    let configs = Base::default().configs;
    let n = configs.len();
    let p = auto_detect_provider(configs, &sig("model name\t: AMD Custom APU 0932\n"), &probes(n), None);
    assert_eq!(p, DriverJson::SteamDeck);
    assert_eq!(maybe_do_button(p), ButtonAction::FlashLed);
    assert_eq!(maybe_do_button(DriverJson::Generic), ButtonAction::Nothing);
}

#[test]
fn empty_conditions() {
    let c = Conditions { dmi: None, cpuinfo: None, os: None, command: None, file_exists: None };
    assert!(c.is_empty());
    let c = Conditions { os: Some("x".to_string()), ..c };
    assert!(!c.is_empty());
}

#[test]
fn catalog_ends_with_fallback() {
    let base = Base::default();
    assert_eq!(base.configs.len(), 8);
    let last: &Config = base.configs.last().unwrap();
    assert!(last.conditions.is_empty());
    assert_eq!(base.configs[3].limits.cpu.limits.cpus.len(), 12);
}
