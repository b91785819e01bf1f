use powertools::cpu::{Cpu, Cpus};
use powertools::limits::{CpuLimitType, GenericCpuLimit};
use powertools::persist::DriverJson;

fn cpus(online: &[bool], smt: bool) -> Cpus {
    let cpus = online
        .iter()
        .enumerate()
        .map(|(i, &on)| {
            let mut c = Cpu::from_limits(i, GenericCpuLimit::default_for(&CpuLimitType::Generic, i));
            c.online = on;
            c
        })
        .collect();
    Cpus { cpus, smt, smt_capable: true, global_governors: true, provider: DriverJson::Generic }
}

#[test]
fn smt_on_brings_sibling_of_highest_even_online() {
    let mut c = cpus(&[true, false, true, false, false, false], false);
    let r = c.set_smt(true);
    assert_eq!(r, vec![true, false, true, true, false, false]);
    assert!(c.smt);
}

#[test]
fn smt_on_without_room_for_sibling() {
    let mut c = cpus(&[true, false, false, false, true], false);
    let r = c.set_smt(true);
    assert_eq!(r, vec![true, false, false, false, true]);
}

#[test]
fn smt_off_keeps_even_online_only() {
    let mut c = cpus(&[true, true, false, true, true, true], true);
    let r = c.set_smt(false);
    assert_eq!(r, vec![true, false, false, false, true, false]);
    assert!(!c.smt);
}

#[test]
fn smt_unchanged_when_already_set() {
    let mut c = cpus(&[true, true, false, true], true);
    let r = c.set_smt(true);
    assert_eq!(r, vec![true, true, false, true]);
}

#[test]
fn governor_and_online_setters_ignore_out_of_range() {
    let mut c = cpus(&[true, true], true);
    c.set_governor(5, "performance".to_string());
    c.set_online(7, false);
    assert_eq!(c.governors(), vec!["schedutil".to_string(), "schedutil".to_string()]);
    assert_eq!(c.online_flags(), vec![true, true]);
}

#[test]
fn present_cpu_list_counts() {
    assert_eq!(powertools::cpu::cpu_count("0-7"), Some(8));
    assert_eq!(powertools::cpu::cpu_count("0-15"), Some(16));
    assert_eq!(powertools::cpu::cpu_count("0"), None);
    assert_eq!(powertools::cpu::cpu_count("0-7\n"), None);
}
