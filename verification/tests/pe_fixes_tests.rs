use masterbooter::pe_fixes::{
    apply_fix, fix_hive_edit, fix_schedule, get_all_fixes, get_default_enabled_fixes,
    hive_load_accepted, hive_values_all_set, loaded_hive_key, wallpaper_removal_error, FixCategory,
    FixOptions, FixOutcome,
};

#[test]
fn test_get_all_fixes() {
    let fixes = get_all_fixes();
    assert_eq!(fixes.len(), 5);

    let dpi = fixes.iter().find(|f| f.id == "dpi_scaling");
    assert!(dpi.is_some());
    assert!(dpi.unwrap().default_enabled);
}

#[test]
fn test_default_fixes() {
    let defaults = get_default_enabled_fixes();

    assert_eq!(defaults.len(), 5);
    assert!(defaults.contains(&"dpi_scaling".to_string()));
    assert!(defaults.contains(&"wallpaper_host".to_string()));
    assert!(defaults.contains(&"disable_crash_dialogs".to_string()));
}

fn outcome(found: bool, error: Option<&str>, all_set: bool) -> FixOutcome {
    FixOutcome {
        target_found: found,
        setup_error: error.map(|e| e.to_string()),
        all_values_set: all_set,
    }
}

#[test]
fn unknown_fix_fails_and_says_so() {
    let r = apply_fix("no_such_fix", &FixOptions::default(), &outcome(true, None, true));
    assert!(!r.success);
    assert_eq!(r.fix_id, "no_such_fix");
    assert_eq!(r.fix_name, "no_such_fix");
    assert_eq!(r.message, "Unknown fix: no_such_fix");
}

#[test]
fn dpi_fix_results() {
    let opts = FixOptions::default();
    let r = apply_fix("dpi_scaling", &opts, &outcome(false, None, true));
    assert!(!r.success);
    assert_eq!(r.message, "Default registry hive not found");
    let r = apply_fix("dpi_scaling", &opts, &outcome(true, Some("access denied"), true));
    assert_eq!(r.message, "Failed to load registry hive: access denied");
    let r = apply_fix("dpi_scaling", &opts, &outcome(true, None, false));
    assert!(!r.success);
    assert_eq!(r.message, "Some registry values could not be set");
    let r = apply_fix("dpi_scaling", &opts, &outcome(true, None, true));
    assert!(r.success);
    assert_eq!(r.fix_name, "DPI Scaling Fix");
    assert_eq!(r.message, "DPI scaling disabled (100% forced)");
}

#[test]
fn other_fix_results() {
    let opts = FixOptions::default();
    let r = apply_fix("wallpaper_host", &opts, &outcome(false, Some("in use"), false));
    assert!(!r.success);
    assert_eq!(r.message, "Failed to remove or rename: in use");
    let r = apply_fix("wallpaper_host", &opts, &outcome(false, None, false));
    assert!(r.success);
    let r = apply_fix("font_fix", &opts, &outcome(true, Some("disk full"), true));
    assert_eq!(r.message, "Failed to write reg file: disk full");
    let r = apply_fix("disable_crash_dialogs", &opts, &outcome(false, None, true));
    assert_eq!(r.message, "SOFTWARE hive not found");
    let r = apply_fix("enable_long_paths", &opts, &outcome(true, None, false));
    assert_eq!(r.message, "Failed to modify registry");
    let r = apply_fix("enable_long_paths", &opts, &outcome(true, None, true));
    assert!(r.success);
    assert_eq!(r.message, "Long path support enabled");
}

#[test]
fn hive_edits() {
    let dpi = fix_hive_edit("dpi_scaling").unwrap();
    assert_eq!(dpi.hive_file, r"Windows\System32\config\default");
    assert_eq!(dpi.hive_name, "_WinPE_DPI_Fix");
    assert_eq!(dpi.values.len(), 3);
    assert_eq!(dpi.values[2].data, "4120");
    let wall = fix_hive_edit("wallpaper_host").unwrap();
    assert_eq!(wall.values.len(), 4);
    assert!(fix_hive_edit("nope").is_none());
    assert_eq!(
        loaded_hive_key("_WinPE_DPI_Fix", r"Control Panel\Desktop"),
        r"HKLM\_WinPE_DPI_Fix\Control Panel\Desktop"
    );
}

#[test]
fn hive_load_counts_when_already_loaded() {
    assert!(hive_load_accepted(true, ""));
    assert!(hive_load_accepted(false, "The process cannot access the file because it is being used"));
    assert!(!hive_load_accepted(false, "Access is denied."));
}

#[test]
fn schedule_skips_unknown_but_counts_them() {
    let ids = vec!["font_fix".to_string(), "bogus".to_string(), "dpi_scaling".to_string()];
    let s = fix_schedule(&ids);
    assert_eq!(s.len(), 2);
    assert_eq!(s[0].fix_id, "font_fix");
    assert_eq!(s[0].display_name, "Font Rendering Fix");
    assert_eq!(s[0].position, 1);
    assert_eq!(s[1].position, 3);
    assert_eq!(s[1].total, 3);
}

#[test]
fn fix_category_names() {
    assert_eq!(FixCategory::Display.display_name(), "Display & UI");
    assert_eq!(FixCategory::Compatibility.display_name(), "Compatibility");
}

#[test]
fn wallpaper_removal_falls_back_to_rename() {
    assert_eq!(wallpaper_removal_error(None, false), None);
    assert_eq!(wallpaper_removal_error(Some("denied".to_string()), true), None);
    assert_eq!(wallpaper_removal_error(Some("denied".to_string()), false), Some("denied".to_string()));
}

#[test]
fn hive_values_count_failed_and_unstarted_writes() {
    assert!(hive_values_all_set(true, true, &[Some(true), Some(true)], true));
    assert!(!hive_values_all_set(true, true, &[Some(true), Some(false)], false));
    assert!(!hive_values_all_set(true, true, &[None], true));
    assert!(hive_values_all_set(true, true, &[None], false));
    assert!(!hive_values_all_set(false, false, &[], true));
    assert!(hive_values_all_set(false, false, &[], false));
    assert!(hive_values_all_set(true, false, &[Some(false)], true));
}
