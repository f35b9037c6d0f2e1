use youwee::updater::{
    is_youwee_updater_temp_dir, record_updater_removal, unreadable_temp_dir_report,
    updater_entry_action, UpdaterCleanupReport,
};

#[test]
fn updater_directory_names_are_recognized() {
    assert!(is_youwee_updater_temp_dir("Youwee-0.19.1-updater-Ab12Cd"));
    assert!(is_youwee_updater_temp_dir("Youwee-1.0.0-updater-x-updater-ABCDEF"));
    assert!(!is_youwee_updater_temp_dir("OtherApp-1.0.0-updater-Ab12Cd"));
    assert!(!is_youwee_updater_temp_dir("Youwee-0.19.1-custom.33-updater-too-long"));
    assert!(!is_youwee_updater_temp_dir("Youwee--updater-Ab12Cd"));
    assert!(!is_youwee_updater_temp_dir("Youwee-1.0-updater-Ab1_Cd"));
}

#[test]
fn removes_only_youwee_updater_directories() {
    let mut report = UpdaterCleanupReport::default();
    for (name, is_dir, removed) in [
        ("Youwee-0.1.0-updater-Ab12Cd", true, true),
        ("OtherApp-1.0.0-updater-Ab12Cd", true, true),
        ("Youwee-0.19.1-custom.33-updater-too-long", true, true),
        ("Youwee-0.0.9-updater-Zz99Zz", false, true),
    ] {
        let (remove, current) = updater_entry_action(Some(name), is_dir, "0.1.0");
        if remove {
            record_updater_removal(&mut report, current, removed);
        }
    }
    assert_eq!(report.removed, 1);
    assert_eq!(report.failed, 0);
    assert!(report.current_version_detected);
    assert_eq!(updater_entry_action(None, true, "0.1.0"), (false, false));
    let mut failing = UpdaterCleanupReport::default();
    record_updater_removal(&mut failing, false, false);
    assert_eq!(failing, UpdaterCleanupReport { removed: 0, failed: 1, current_version_detected: false });
    assert_eq!(unreadable_temp_dir_report(), failing);
}
