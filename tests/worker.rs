use powertools::api::{
    ApiMessage, ApiMessageHandler, BatteryMessage, CpuMessage, GeneralMessage, GpuMessage, Persist, Reply,
};
use powertools::catalog::Base;
use powertools::persist::DriverJson;
use powertools::settings::{General, Platform, Settings};

fn deck_settings(persistent: bool) -> Settings {
    let base = Base::default();
    let limits = base.configs.into_iter().next().unwrap().limits;
    let general = General {
        persistent,
        path: "42.ron".to_string(),
        app_id: 42,
        name: "Game".to_string(),
        variant_id: 0,
        variant_name: "Primary".to_string(),
        driver: DriverJson::AutoDetect,
    };
    Settings::build(general, None, limits, Platform { cpu_present: Some(8), smt_capable: true })
}

#[test]
fn two_changes_one_commit_one_record() {
    let mut settings = deck_settings(true);
    let mut handler = ApiMessageHandler::new();
    let batch = vec![
        ApiMessage::Cpu(CpuMessage::SetCpuGovernor(2, "performance".to_string())),
        ApiMessage::Gpu(GpuMessage::SetPpt(Some(15), None)),
    ];
    let out = handler.process_batch(&mut settings, batch);
    assert_eq!(out.replies.len(), 2);
    assert!(out.actions.commit.is_some());
    match out.actions.persist {
        Some(Persist::Save(record)) => {
            assert_eq!(record.cpus[2].governor, "performance");
            assert_eq!(record.gpu.fast_ppt, Some(15));
        }
        other => panic!("expected one save, got {:?}", other),
    }
    assert_eq!(settings.cpus.cpus[2].governor, "performance");
    assert_eq!(settings.gpu.fast_ppt, Some(15));
}

#[test]
fn many_changes_still_one_commit() {
    let mut settings = deck_settings(false);
    let mut handler = ApiMessageHandler::new();
    let batch = vec![
        ApiMessage::WaitForEmptyQueue,
        ApiMessage::Cpu(CpuMessage::SetCpuOnline(3, false)),
        ApiMessage::Cpu(CpuMessage::SetCpuOnline(5, false)),
        ApiMessage::Gpu(GpuMessage::SetPpt(Some(10), Some(9))),
        ApiMessage::WaitForEmptyQueue,
    ];
    let out = handler.process_batch(&mut settings, batch);
    assert!(out.actions.commit.is_some());
    assert_eq!(out.actions.release_waiters, 2);
    assert!(matches!(out.actions.persist, Some(Persist::Delete)));
}

#[test]
fn reads_only_write_nothing() {
    let mut settings = deck_settings(true);
    let mut handler = ApiMessageHandler::new();
    let batch = vec![
        ApiMessage::Cpu(CpuMessage::GetCpusOnline),
        ApiMessage::Gpu(GpuMessage::GetPpt),
        ApiMessage::General(GeneralMessage::GetPersistent),
        ApiMessage::WaitForEmptyQueue,
    ];
    let out = handler.process_batch(&mut settings, batch);
    assert!(out.actions.commit.is_none());
    assert!(out.actions.persist.is_none());
    assert_eq!(out.actions.release_waiters, 0);
    assert!(matches!(out.replies[2], Reply::Flag(true)));
    match &out.replies[0] {
        Reply::Flags(f) => assert_eq!(f.len(), 8),
        other => panic!("unexpected reply {:?}", other),
    }
}

#[test]
fn waiters_released_by_later_commit() {
    let mut settings = deck_settings(false);
    let mut handler = ApiMessageHandler::new();
    let out = handler.process_batch(&mut settings, vec![ApiMessage::WaitForEmptyQueue]);
    assert_eq!(out.actions.release_waiters, 0);
    let out = handler.process_batch(
        &mut settings,
        vec![ApiMessage::General(GeneralMessage::ApplyNow)],
    );
    assert_eq!(out.actions.release_waiters, 1);
}

#[test]
fn provider_by_name() {
    let mut settings = deck_settings(false);
    let mut handler = ApiMessageHandler::new();
    let out = handler.process_batch(
        &mut settings,
        vec![
            ApiMessage::GetProvider("cpu".to_string()),
            ApiMessage::GetProvider("other".to_string()),
        ],
    );
    assert!(matches!(out.replies[0], Reply::Provider(DriverJson::SteamDeck)));
    assert!(matches!(out.replies[1], Reply::Provider(DriverJson::AutoDetect)));
}

#[test]
fn fast_ppt_clamped_to_limits_on_commit() {
    let mut settings = deck_settings(true);
    let mut handler = ApiMessageHandler::new();
    let out = handler.process_batch(
        &mut settings,
        vec![ApiMessage::Gpu(GpuMessage::SetPpt(Some(100), Some(15)))],
    );
    assert_eq!(settings.gpu.fast_ppt, Some(30));
    assert_eq!(settings.gpu.slow_ppt, Some(15));
    let writes = format!("{:?}", out.actions.commit.unwrap());
    assert!(writes.contains("GpuFastPpt(30000000)"));
    assert!(writes.contains("GpuSlowPpt(15000000)"));
}

#[test]
fn commit_writes_battery_first_then_cpus() {
    let mut settings = deck_settings(false);
    let mut handler = ApiMessageHandler::new();
    let out = handler.process_batch(
        &mut settings,
        vec![
            ApiMessage::Battery(BatteryMessage::SetChargeRate(Some(1000))),
            ApiMessage::Cpu(CpuMessage::SetClockLimits(
                1,
                Some(powertools::cpu::MinMax { min: Some(100), max: Some(9000) }),
            )),
        ],
    );
    let writes: Vec<String> = out.actions.commit.unwrap().iter().map(|w| format!("{:?}", w)).collect();
    assert_eq!(writes[0], "ChargeRate(1000)");
    assert_eq!(writes[1], "Smt(true)");
    let clocks = settings.cpus.cpus[1].clock_limits.unwrap();
    assert_eq!(clocks.max, Some(3500));
    assert_eq!(clocks.min, Some(400));
    assert!(writes.iter().any(|w| w == "ForceLevel(Manual)"));
    assert!(writes.iter().any(|w| w == "CpuClock { index: 1, bound: Min, mhz: 1400 }"));
}

#[test]
fn resume_replays_without_commit() {
    let mut settings = deck_settings(false);
    let mut handler = ApiMessageHandler::new();
    let out = handler.process_batch(&mut settings, vec![ApiMessage::OnResume]);
    assert!(out.actions.commit.is_none());
    assert!(out.actions.persist.is_none());
    let writes: Vec<String> = out.resume.iter().map(|w| format!("{:?}", w)).collect();
    assert_eq!(writes[0], "Smt(true)");
    assert!(writes.iter().any(|w| w.starts_with("ForceLevel")));
}

#[test]
fn snapshot_for_upload() {
    let mut settings = deck_settings(true);
    let mut handler = ApiMessageHandler::new();
    let out = handler.process_batch(&mut settings, vec![ApiMessage::UploadCurrentVariant]);
    match &out.replies[0] {
        Reply::Snapshot(s) => {
            assert_eq!(s.cpus.len(), 8);
            assert_eq!(s.name, "Primary");
            assert!(s.persistent);
        }
        other => panic!("unexpected reply {:?}", other),
    }
    assert!(out.actions.commit.is_none());
}

#[test]
fn cleared_clocks_reset_but_not_on_resume() {
    let mut settings = deck_settings(false);
    let mut handler = ApiMessageHandler::new();
    let limits = Some(powertools::cpu::MinMax { min: Some(1500), max: Some(2500) });
    handler.process_batch(&mut settings, vec![ApiMessage::Cpu(CpuMessage::SetClockLimits(1, limits))]);
    let out = handler.process_batch(&mut settings, vec![ApiMessage::Cpu(CpuMessage::SetClockLimits(1, None))]);
    let writes: Vec<String> = out.actions.commit.unwrap().iter().map(|w| format!("{:?}", w)).collect();
    assert!(writes.iter().any(|w| w == "CpuClockReset { index: 1 }"));
    let out = handler.process_batch(&mut settings, vec![ApiMessage::OnResume]);
    let writes: Vec<String> = out.resume.iter().map(|w| format!("{:?}", w)).collect();
    assert!(!writes.iter().any(|w| w.starts_with("CpuClockReset")));
}

#[test]
fn limits_echo_in_user_units() {
    let mut settings = deck_settings(false);
    let mut handler = ApiMessageHandler::new();
    let govs = vec!["schedutil".to_string(), "performance".to_string()];
    let out = handler.process_batch(&mut settings, vec![ApiMessage::GetLimits(govs)]);
    match &out.replies[0] {
        Reply::Limits(l) => {
            assert_eq!(l.cpu.count, 8);
            assert_eq!(l.cpu.governors.len(), 2);
            let fast = l.gpu.fast_ppt_limits.unwrap();
            assert_eq!((fast.min, fast.max), (Some(1), Some(30)));
            let cmin = l.cpu.cpus[0].clock_min_limits.unwrap();
            assert_eq!((cmin.min, cmin.max), (Some(400), Some(3500)));
            assert_eq!(l.battery.charge_modes.len(), 3);
        }
        other => panic!("unexpected reply {:?}", other),
    }
    assert!(out.actions.commit.is_none());
}

#[test]
fn system_defaults_test() {
    let limits = Base::default().configs.into_iter().next().unwrap().limits;
    let settings = Settings::system_default(
        "idc".into(),
        0,
        "Cool name".into(),
        0,
        "Variant 0".into(),
        limits,
        Platform { cpu_present: Some(8), smt_capable: true },
    );
    println!("Loaded system settings: {:?}", settings);
    assert_eq!(settings.general.name, "Cool name");
    assert_eq!(settings.general.variant_name, "Variant 0");
    assert!(!settings.general.persistent);
}

#[test]
fn unknown_gpu_ignores_power_limits() {
    let limits = powertools::detect::unknown_limits();
    let general = General {
        persistent: false,
        path: "x".to_string(),
        app_id: 0,
        name: "n".to_string(),
        variant_id: 0,
        variant_name: "v".to_string(),
        driver: DriverJson::AutoDetect,
    };
    let mut settings = Settings::build(general, None, limits, Platform { cpu_present: Some(2), smt_capable: false });
    let mut handler = ApiMessageHandler::new();
    let out = handler.process_batch(&mut settings, vec![ApiMessage::Gpu(GpuMessage::SetPpt(Some(15), Some(10)))]);
    let writes = format!("{:?}", out.actions.commit.unwrap());
    assert!(!writes.contains("Ppt"));
    assert_eq!(settings.gpu.fast_ppt, None);
}
