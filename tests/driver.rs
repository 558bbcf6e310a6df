use amdgpu_waybar::{select_gpu_handle, Config, ResolveError, SensorError, SensorReadings, WaybarGpuModule};

fn fixture(activity: u32) -> SensorReadings {
    SensorReadings { gfx_activity: Some(activity), vram_total: Some(4096), vram_used: Some(1024), hotspot_temp: Some(70) }
}

#[test]
fn config_defaults() {
    let c = Config { format: None, gpu_idx: None, interval_millis: None };
    assert_eq!(c.format_string(), "{gpu_usage_percent}%");
    assert_eq!(c.gpu_index(), 0);
    assert_eq!(c.interval(), 1000);
    let c = Config { format: Some("{gpu_temp}C".to_string()), gpu_idx: Some(2), interval_millis: Some(250) };
    assert_eq!(c.format_string(), "{gpu_temp}C");
    assert_eq!(c.gpu_index(), 2);
    assert_eq!(c.interval(), 250);
}

#[test]
fn module_init_and_ticks() {
    let c = Config { format: None, gpu_idx: None, interval_millis: None };
    let mut m = WaybarGpuModule::init(&c, &fixture(37)).unwrap();
    assert_eq!(m.label(), "37%");
    assert_eq!(m.tick(&fixture(80)), Ok("80%".to_string()));
    let broken = SensorReadings { hotspot_temp: None, ..fixture(90) };
    assert_eq!(m.tick(&broken), Err(SensorError::Temperature));
    assert_eq!(m.stats.gpu_usage, 90);
    assert!(WaybarGpuModule::init(&c, &broken).is_err());
}

#[test]
fn resolver_picks_in_enumeration_order() {
    let sockets = vec![vec![10u32, 11], vec![], vec![20]];
    assert_eq!(select_gpu_handle(&sockets, 0), Ok(10));
    assert_eq!(select_gpu_handle(&sockets, 1), Ok(11));
    assert_eq!(select_gpu_handle(&sockets, 2), Ok(20));
}

#[test]
fn resolver_without_handles_fails() {
    let none: Vec<Vec<u32>> = vec![];
    assert_eq!(select_gpu_handle(&none, 0), Err(ResolveError::NoGpuFound { index: 0, available: 0 }));
    let empty_sockets: Vec<Vec<u32>> = vec![vec![], vec![]];
    assert_eq!(select_gpu_handle(&empty_sockets, 3), Err(ResolveError::NoGpuFound { index: 3, available: 0 }));
}

#[test]
fn resolver_index_at_count_fails_separately() {
    let sockets = vec![vec![1u32, 2]];
    assert_eq!(select_gpu_handle(&sockets, 2), Err(ResolveError::IndexOutOfBounds { index: 2, available: 2 }));
    assert_eq!(select_gpu_handle(&sockets, 3), Err(ResolveError::NoGpuFound { index: 3, available: 2 }));
}
