use powertools::amd::AmdWrite;
use powertools::catalog::{Base, RefreshAction};
use powertools::persist::DriverJson;
use powertools::settings::{General, Gpu, Platform, Settings};

fn amd_gpu() -> Gpu {
    let limits = Base::default().configs.into_iter().nth(2).unwrap().limits;
    let general = General {
        persistent: false,
        path: "x.ron".to_string(),
        app_id: 1,
        name: "A".to_string(),
        variant_id: 0,
        variant_name: "Primary".to_string(),
        driver: DriverJson::AutoDetect,
    };
    Settings::build(general, None, limits, Platform { cpu_present: Some(4), smt_capable: false }).gpu
}

#[test]
fn amd_remembers_and_restores_limits() {
    let mut g = amd_gpu();
    g.fast_ppt = Some(15);
    g.slow_ppt = Some(10);
    let w = g.plan_amd_gpu(Some(20_000), Some(18_000));
    assert_eq!(w, vec![AmdWrite::FastLimit(15_000), AmdWrite::SlowLimit(10_000)]);
    assert_eq!(g.state.saved_fast_ppt, Some(20_000));
    assert_eq!(g.state.saved_slow_ppt, Some(18_000));
    g.fast_ppt = None;
    g.slow_ppt = None;
    let w = g.plan_amd_gpu(Some(1), Some(1));
    assert_eq!(w, vec![AmdWrite::FastLimit(20_000), AmdWrite::SlowLimit(18_000)]);
    assert_eq!(g.state.saved_fast_ppt, None);
    assert!(g.plan_amd_gpu(None, None).is_empty());
}

#[test]
fn amd_clock_bounds_widened_when_cleared() {
    let mut g = amd_gpu();
    g.clock_limits = Some(powertools::cpu::MinMax { min: Some(500), max: Some(900) });
    let w = g.plan_amd_gpu(None, None);
    assert_eq!(w, vec![AmdWrite::MaxGfxClock(900), AmdWrite::MinGfxClock(500)]);
    assert_eq!(g.plan_amd_gpu_resume(), vec![AmdWrite::MaxGfxClock(900), AmdWrite::MinGfxClock(500)]);
    g.clock_limits = None;
    let w = g.plan_amd_gpu(None, None);
    assert_eq!(w, vec![AmdWrite::MaxGfxClock(1100), AmdWrite::MinGfxClock(400)]);
}

#[test]
fn refresh_decisions() {
    let mut b = Base::default();
    assert_eq!(b.refresh_step(100, 50, 60), RefreshAction::Wait);
    assert_eq!(b.refresh_step(200, 50, 60), RefreshAction::Fetch);
    assert_eq!(b.refresh_step(10, 50, 60), RefreshAction::Wait);
    let mut downloaded = Base::default();
    downloaded.refresh = None;
    let before = b.refresh.clone();
    b.adopt(downloaded);
    assert_eq!(b.refresh, before);
    b.refresh = None;
    assert_eq!(b.refresh_step(200, 50, 60), RefreshAction::Stop);
}
