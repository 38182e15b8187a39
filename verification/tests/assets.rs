use ironpass::assets::{any_true, detect_geo_assets, geo_status_from_presence};

#[test]
fn missing_assets_report_not_available() {
    let status = detect_geo_assets(Some("/nonexistent/bin/core"));
    assert!(!status.available);
}

#[test]
fn geo_status_needs_both_files_somewhere() {
    assert!(geo_status_from_presence(&vec![false, true], &vec![true, false]).available);
    assert!(!geo_status_from_presence(&vec![false, true], &vec![false, false]).available);
    assert!(!geo_status_from_presence(&vec![], &vec![true]).available);
    assert!(any_true(&vec![false, false, true]));
    assert!(!any_true(&vec![]));
}
