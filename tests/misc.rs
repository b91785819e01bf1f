use powertools::catalog::Base;
use powertools::community::{parse_decimal, upload_settings, StoreLocation};
use powertools::fpl::{Component, ForcePerformanceLevel, PerformanceLevel};
use powertools::led::{set_led, wait_ready_for_read, wait_ready_for_write, write_read, PortOp, Setting};
use powertools::paths::{
    cpu_available_governors_path, cpu_governor_path, cpu_online_path, filename,
    setting_folder_by_app_id, setting_folder_by_tag, setting_folder_by_user_id, setting_path_by_id,
    version_filepath,
};
use powertools::persist::{variant_name_for, BatteryJson, GpuJson, SettingsJson};
use powertools::text::decimal_string;
use powertools::cli::{Args, Operation};

#[test]
fn decimal_text() {
    assert_eq!(decimal_string(0), "0");
    assert_eq!(decimal_string(907), "907");
    assert_eq!(decimal_string(u128::MAX), "340282366920938463463374607431768211455");
    assert_eq!(variant_name_for(12), "Variant 12");
}

#[test]
fn kernel_paths() {
    assert_eq!(cpu_online_path(3), "/sys/devices/system/cpu/cpu3/online");
    assert_eq!(cpu_governor_path(10), "/sys/devices/system/cpu/cpu10/cpufreq/scaling_governor");
    assert_eq!(
        cpu_available_governors_path(0),
        "/sys/devices/system/cpu/cpu0/cpufreq/scaling_available_governors"
    );
    assert_eq!(version_filepath("/home/deck/.config/powertools"), "/home/deck/.config/powertools/.version");
}

#[test]
fn store_paths() {
    assert_eq!(filename(17, "ron"), "17.ron");
    assert_eq!(setting_path_by_id("/srv", 5, "json"), "/srv/settings/by_id/5.json");
    assert_eq!(setting_folder_by_app_id("r", 1091500), "r/settings/by_app_id/1091500");
    assert_eq!(setting_folder_by_user_id("r", 76561198), "r/settings/by_user_id/76561198");
    assert_eq!(setting_folder_by_tag("r", "wip"), "r/settings/by_tag/wip");
}

#[test]
fn parse_numbers() {
    assert_eq!(parse_decimal("0042"), Some(42));
    assert_eq!(parse_decimal(""), None);
    assert_eq!(parse_decimal("12a"), None);
    assert_eq!(parse_decimal("340282366920938463463374607431768211455"), Some(u128::MAX));
    assert_eq!(parse_decimal("340282366920938463463374607431768211456"), None);
}

#[test]
fn store_addresses() {
    let mut loc = StoreLocation { base_url: None };
    assert_eq!(loc.url_upload_config(), "https://powertools.ngni.us/api/setting");
    loc.set_base_url("http://x".to_string());
    assert_eq!(loc.get_base_url(), "http://x");
    assert_eq!(loc.url_search_by_app_id(70), "http://x/api/setting/by_app_id/70");
    assert_eq!(loc.url_download_config_by_id(9), "http://x/api/setting/by_id/9");
}

fn record() -> SettingsJson {
    SettingsJson {
        version: 0,
        name: "Mine".to_string(),
        variant: 2,
        persistent: true,
        cpus: Vec::new(),
        gpu: GpuJson {
            fast_ppt: Some(12),
            slow_ppt: None,
            tdp: None,
            tdp_boost: None,
            clock_limits: None,
            memory_clock: None,
            root: None,
        },
        battery: BatteryJson::empty(),
        provider: None,
    }
}

#[test]
fn upload_needs_numeric_user() {
    assert!(upload_settings(1, "abc", "me".to_string(), &record()).is_none());
    let mut m = upload_settings(1091500, "76561198", "me".to_string(), &record()).unwrap();
    assert_eq!(m.steam_user_id, 76561198);
    assert_eq!(m.steam_app_id, 1091500);
    assert_eq!(m.tags, vec!["wip".to_string()]);
    assert_eq!(m.config.gpu.fast_ppt, Some(12));
    m.set_id(123456789012345678901234567890);
    assert_eq!(m.id, "123456789012345678901234567890");
    assert_eq!(m.get_id(), 123456789012345678901234567890);
    let back = powertools::community::web_config_to_settings_json(&m);
    assert_eq!(back.variant, u64::MAX);
    assert_eq!(back.gpu.fast_ppt, Some(12));
}

#[test]
fn led_bytes() {
    let ops = set_led(false, true, false);
    assert_eq!(ops.len(), 5);
    assert_eq!(ops[2], PortOp::Write { port: 0x68, value: 199 });
    assert_eq!(ops[4], PortOp::Write { port: 0x68, value: 0x82 });
    let ops = powertools::led::set(Setting::ChargeMode, 0x42);
    assert_eq!(ops[2], PortOp::Write { port: 0x68, value: 0x76 });
    assert_eq!(write_read(0x32)[4], PortOp::Read { port: 0x68 });
    assert!(wait_ready_for_write(0, 2));
    assert!(!wait_ready_for_write(0, 1));
    assert!(!wait_ready_for_write(0x1ffff, 2));
    assert!(wait_ready_for_read(5, 0));
    assert!(!wait_ready_for_read(5, 1));
}

#[test]
fn performance_level_writes_only_on_change() {
    let mut f = ForcePerformanceLevel::new();
    assert_eq!(f.enforce(false), Some(PerformanceLevel::Auto));
    f.record_write(PerformanceLevel::Auto, true);
    assert_eq!(f.enforce(false), None);
    assert_eq!(f.enforce(true), Some(PerformanceLevel::Auto));
    f.request(Component::Cpu(3), true);
    assert!(f.needs_manual());
    assert_eq!(f.enforce(false), Some(PerformanceLevel::Manual));
    f.record_write(PerformanceLevel::Manual, true);
    f.request(Component::Gpu, true);
    f.request(Component::Cpu(3), false);
    assert_eq!(f.enforce(false), None);
    f.request(Component::Gpu, false);
    assert_eq!(f.target(), PerformanceLevel::Auto);
    f.record_write(PerformanceLevel::Auto, false);
    assert_eq!(f.enforce(false), Some(PerformanceLevel::Auto));
}

#[test]
fn refresh_address_is_kept() {
    let mut b = Base::default();
    let previous = b.refresh.clone();
    b.refresh = None;
    b.keep_refresh_of(&previous);
    assert_eq!(b.refresh, previous);
    b.keep_refresh_of(&Some("other".to_string()));
    assert_eq!(b.refresh, previous);
}

#[test]
fn default_args() {
    let a = Args { port: None, log: None, verbose: false, op: None };
    assert!(a.is_default());
    let a = Args { op: Some(Operation::Clean), ..a };
    assert!(!a.is_default());
}
