use ironpass::assets::{
    core_candidates, first_present, geo_candidate_dirs, probe_paths,
    standard_geo_dirs,
};
use ironpass::backend::{version_line, BackendCapability, BackendType, CoreType, GeoAssetStatus};
use ironpass::core_process::{
    backoff_ms, choose_located, exited_immediately_message, locate_binary, locate_sing_box, which_xray_in_path,
    CoreSupervisor, ExitDecision, RestartOutcome, MAX_RESTART_ATTEMPTS,
};

#[test]
fn supervisor_restarts_five_times_then_gives_up() {
    let mut s = CoreSupervisor::new(CoreType::Xray);
    s.on_started(Some(42), 5_000);
    assert_eq!(s.status(7_999), (Some(42), Some(2), None));
    let mut waits = Vec::new();
    for _ in 0..MAX_RESTART_ATTEMPTS {
        match s.on_exit(Some(1)) {
            ExitDecision::Restart { attempt, backoff_ms } => {
                waits.push((attempt, backoff_ms));
                s.on_restart_outcome(RestartOutcome::Running { pid: Some(43), at_ms: 10_000 });
                assert_eq!(s.start_time_ms, Some(10_000));
            }
            ExitDecision::GiveUp => panic!("gave up too early"),
        }
    }
    assert_eq!(waits, vec![(1, 1000), (2, 2000), (3, 4000), (4, 8000), (5, 16000)]);
    assert_eq!(s.on_exit(Some(-9)), ExitDecision::GiveUp);
    assert!(!s.running);
    assert_eq!(s.start_time_ms, None);
    assert_eq!(
        s.status(20_000),
        (None, None, Some("xray-core exited with code Some(-9)".to_string()))
    );
    assert_eq!(s.last_error.as_deref(), Some("xray-core exited with code Some(-9)"));
}

#[test]
fn uptime_is_whole_seconds_since_start() {
    let mut s = CoreSupervisor::new(CoreType::Xray);
    assert_eq!(s.status(1_000), (None, None, None));
    s.on_started(Some(9), 1_500);
    assert_eq!(s.status(1_500).1, Some(0));
    assert_eq!(s.status(2_499).1, Some(0));
    assert_eq!(s.status(2_500).1, Some(1));
    assert_eq!(s.status(62_000).1, Some(60));
    assert_eq!(s.status(1_000).1, Some(0));
    s.on_exit(Some(1));
    assert_eq!(s.start_time_ms, Some(1_500));
    s.on_restart_outcome(RestartOutcome::ConfigWriteFailed);
    assert_eq!(s.start_time_ms, Some(1_500));
    s.on_stopped();
    assert_eq!(s.status(5_000).1, None);
}

#[test]
fn a_new_start_resets_the_restart_count() {
    let mut s = CoreSupervisor::new(CoreType::SingBox);
    s.on_started(None, 0);
    s.on_exit(None);
    assert_eq!(s.restart_count, 1);
    assert_eq!(s.last_error.as_deref(), Some("sing-box exited with code None"));
    s.on_started(Some(7), 100);
    assert_eq!(s.restart_count, 0);
    assert_eq!(s.last_error, None);
    s.on_stopped();
    assert!(!s.running);
    assert_eq!(s.pid, None);
}

#[test]
fn failed_restarts_end_supervision() {
    let mut s = CoreSupervisor::new(CoreType::SingBox);
    s.on_started(Some(1), 0);
    s.on_exit(Some(0));
    s.on_restart_outcome(RestartOutcome::SpawnFailed("no such file".into()));
    assert!(!s.running);
    assert_eq!(s.last_error.as_deref(), Some("Failed to restart sing-box: no such file"));
    s.on_started(Some(2), 0);
    s.on_exit(Some(0));
    s.on_restart_outcome(RestartOutcome::ExitedImmediately);
    assert_eq!(s.last_error.as_deref(), Some("Restarted sing-box exited immediately"));
}

#[test]
fn backoff_and_messages() {
    assert_eq!(backoff_ms(1), 1000);
    assert_eq!(backoff_ms(5), 16000);
    assert_eq!(exited_immediately_message(CoreType::Xray, Some(2)), "xray-core exited immediately with code 2");
    assert_eq!(exited_immediately_message(CoreType::SingBox, None), "sing-box exited immediately with code -1");
}

#[test]
fn core_names_and_arguments() {
    assert_eq!(CoreType::SingBox.run_args("/tmp/c.json"), vec!["run", "-c", "/tmp/c.json"]);
    assert_eq!(CoreType::Xray.run_args("/tmp/c.json"), vec!["run", "-config", "/tmp/c.json"]);
    assert_eq!(CoreType::Xray.config_file_name("abc"), "xray-abc.json");
    assert_eq!(CoreType::SingBox.binary_names(), vec!["sing-box", "sing-box.exe", "sb"]);
    assert_eq!(BackendType::SingBox.as_str(), "sing_box");
    assert_eq!(BackendType::Auto.as_str(), "auto");
    assert_eq!(BackendType::Xray.as_str(), "xray");
    assert_eq!(BackendType::from_str("sing_box"), Err("Unknown backend type: sing_box".to_string()));
    assert_eq!(BackendType::from_str("XRAY-Core"), Ok(BackendType::Xray));
    assert_eq!(BackendType::from_str("v2ray"), Err("Unknown backend type: v2ray".to_string()));
    for t in [BackendType::Auto, BackendType::Xray] {
        assert_eq!(BackendType::from_str(t.as_str()), Ok(t));
    }
}

#[test]
fn missing_binaries_are_reported() {
    let dirs = vec!["/nonexistent/one".to_string(), "/nonexistent/two".to_string()];
    assert_eq!(
        locate_binary(CoreType::Xray, Some("/nonexistent/xray"), &dirs),
        Err("xray binary not found. Install it or set the path via CLI/config.".to_string())
    );
    assert_eq!(
        locate_binary(CoreType::SingBox, None, &dirs),
        Err("sing-box binary not found. Install it or set the path via CLI/config.".to_string())
    );
    assert_eq!(which_xray_in_path(&dirs), Err("xray not found in PATH".to_string()));
    assert_eq!(
        locate_sing_box(None, &dirs),
        Err("sing-box binary not found. Install sing-box or set sing_box_path in config.".to_string())
    );
}

#[test]
fn search_order_of_core_binaries() {
    let dirs = vec!["/a".to_string(), "/b/".to_string()];
    assert_eq!(
        core_candidates(&["xray", "xray.exe"], Some("/opt/x"), &dirs),
        vec!["/opt/x", "/a/xray", "/b/xray", "/a/xray.exe", "/b/xray.exe"]
    );
    let cands = vec!["p".to_string(), "q".to_string(), "r".to_string()];
    assert_eq!(first_present(&cands, &vec![false, true, true]), Some("q".to_string()));
    assert_eq!(first_present(&cands, &vec![false, false, false]), None);
}

#[test]
fn geo_asset_directories() {
    assert_eq!(
        standard_geo_dirs(Some("/home/u".into())),
        vec!["/usr/local/bin", "/usr/share/xray", "/usr/share/v2ray", "/home/u/.config/xray"]
    );
    assert_eq!(
        geo_candidate_dirs(Some("/opt/xray/xray"), None),
        vec!["/opt/xray", "/usr/local/bin", "/usr/share/xray", "/usr/share/v2ray"]
    );
    assert_eq!(geo_candidate_dirs(Some("xray"), None)[0], "");
}

#[test]
fn capabilities_and_versions() {
    let c = BackendCapability::from_probe(&Some("/usr/bin/xray".into()), GeoAssetStatus::new(true), Some("Xray 1.8".into()));
    assert!(c.available && c.geo_assets_available);
    let c = BackendCapability::from_probe(&None, GeoAssetStatus::new(false), None);
    assert!(!c.available);
    assert_eq!(version_line("Xray 1.8.4 (Xray, Penetrates Everything.)\r\nA unified platform\n"), Some("Xray 1.8.4 (Xray, Penetrates Everything.)".to_string()));
    assert_eq!(version_line("  sing-box version 1.9.0  \n"), Some("sing-box version 1.9.0".to_string()));
    assert_eq!(version_line(""), None);
}

#[test]
fn located_binary_prefers_an_existing_configured_path() {
    assert_eq!(
        choose_located(CoreType::Xray, Some("/opt/xray"), true, Some("/usr/bin/xray".into())),
        Ok("/opt/xray".to_string())
    );
    assert_eq!(
        choose_located(CoreType::Xray, Some("/opt/xray"), false, Some("/usr/bin/xray".into())),
        Ok("/usr/bin/xray".to_string())
    );
    assert_eq!(
        choose_located(CoreType::SingBox, None, true, Some("/usr/bin/sb".into())),
        Ok("/usr/bin/sb".to_string())
    );
    assert_eq!(
        choose_located(CoreType::SingBox, Some("/x"), false, None),
        Err("sing-box binary not found. Install it or set the path via CLI/config.".to_string())
    );
}

#[test]
fn geo_assets_are_probed_by_name_in_each_directory() {
    let dirs = vec!["/opt/xray".to_string(), "/usr/share/xray/".to_string()];
    assert_eq!(probe_paths(&dirs, "geoip.dat"), vec!["/opt/xray/geoip.dat", "/usr/share/xray/geoip.dat"]);
    assert_eq!(probe_paths(&vec![], "geosite.dat"), Vec::<String>::new());
}

#[test]
fn a_stop_during_the_backoff_stands() {
    let mut s = CoreSupervisor::new(CoreType::Xray);
    s.on_started(Some(1), 0);
    assert!(matches!(s.on_exit(Some(1)), ExitDecision::Restart { attempt: 1, backoff_ms: 1000 }));
    s.on_stopped();
    assert!(s.on_restart_outcome(RestartOutcome::Running { pid: Some(2), at_ms: 1_000 }));
    assert!(!s.running);
    assert_eq!(s.pid, Some(2));
    assert!(!s.on_restart_outcome(RestartOutcome::ConfigWriteFailed));
}

#[test]
fn a_whole_run_restarts_five_times_with_doubling_waits() {
    let mut s = CoreSupervisor::new(CoreType::SingBox);
    s.on_started(Some(1), 0);
    let mut decisions = Vec::new();
    for k in 0..8u32 {
        let d = s.on_exit(Some(1));
        decisions.push(d);
        if d == ExitDecision::GiveUp {
            break;
        }
        assert!(s.on_restart_outcome(RestartOutcome::Running { pid: Some(10 + k), at_ms: 0 }));
    }
    assert_eq!(
        decisions,
        vec![
            ExitDecision::Restart { attempt: 1, backoff_ms: 1000 },
            ExitDecision::Restart { attempt: 2, backoff_ms: 2000 },
            ExitDecision::Restart { attempt: 3, backoff_ms: 4000 },
            ExitDecision::Restart { attempt: 4, backoff_ms: 8000 },
            ExitDecision::Restart { attempt: 5, backoff_ms: 16000 },
            ExitDecision::GiveUp,
        ]
    );
    assert!(!s.running);
    assert_eq!(s.pid, None);
    assert_eq!(s.start_time_ms, None);
    assert_eq!(s.last_error.as_deref(), Some("sing-box exited with code Some(1)"));
}
