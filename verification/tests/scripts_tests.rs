use masterbooter::deploy::DeployConfig;
use masterbooter::scripts::{
    file_extension, file_stem, is_script_file, profile_file_name, profile_for_saving,
    run_all_batch, run_once_registration, sanitize_profile_name, script_copy_plan, select_profiles,
    select_scripts, sort_names, str_le,
};

#[test]
fn extensions_follow_path_rules() {
    assert_eq!(file_extension("setup.ps1"), Some("ps1".to_string()));
    assert_eq!(file_extension("archive.tar.gz"), Some("gz".to_string()));
    assert_eq!(file_extension(".bashrc"), None);
    assert_eq!(file_extension("noext"), None);
    assert_eq!(file_extension("trailing."), Some(String::new()));
    assert_eq!(file_stem("work.json"), "work");
    assert_eq!(file_stem(".json"), ".json");
}

#[test]
fn scripts_are_recognized_by_extension() {
    assert!(is_script_file("a.PS1"));
    assert!(is_script_file("b.reg"));
    assert!(is_script_file("c.Vbs"));
    assert!(!is_script_file("notes.txt"));
    assert!(!is_script_file(".bat"));
}

#[test]
fn scripts_are_filtered_and_sorted() {
    let names = vec![
        "z.bat".to_string(),
        "readme.md".to_string(),
        "A.ps1".to_string(),
        "m.cmd".to_string(),
    ];
    assert_eq!(select_scripts(&names), vec!["A.ps1", "m.cmd", "z.bat"]);
}

#[test]
fn sorting_matches_string_order() {
    let v: Vec<String> = vec!["b", "a", "B", "ab", "", "a", "é", "z"].into_iter().map(String::from).collect();
    let mut expected = v.clone();
    expected.sort();
    assert_eq!(sort_names(v), expected);
    assert!(str_le("abc", "abd"));
    assert!(str_le("ab", "abc"));
    assert!(!str_le("b", "a"));
}

#[test]
fn run_all_batch_runs_each_script() {
    let bat = run_all_batch(&vec!["1.ps1".to_string(), "2.REG".to_string(), "3.exe".to_string()]);
    let log = r"C:\Temp\MasterBooter\RunAll.log";
    assert!(bat.starts_with("@echo off\r\n"));
    assert!(bat.contains(&format!(
        "powershell.exe -ExecutionPolicy Bypass -NonInteractive -File \"%~dp01.ps1\" >> \"{}\" 2>&1\r\n",
        log
    )));
    assert!(bat.contains(&format!("reg import \"%~dp02.REG\" >> \"{}\" 2>&1\r\n", log)));
    assert!(bat.contains(&format!("call \"%~dp03.exe\" >> \"{}\" 2>&1\r\n", log)));
    assert!(bat.contains("echo [%TIME%] Finished: 3.exe (exit code: %ERRORLEVEL%)"));
    assert!(bat.ends_with(&format!(
        "echo ============================================ >> \"{}\"\r\n",
        log
    )));
    let empty = run_all_batch(&vec![]);
    assert!(empty.contains("All scripts finished"));
}

#[test]
fn run_once_values() {
    let r = run_once_registration("E:");
    assert_eq!(r.hive_file, r"E:\Windows\System32\Config\SOFTWARE");
    assert_eq!(r.run_once_key, r"HKLM\TEMP_MASTERBOOTER\Microsoft\Windows\CurrentVersion\RunOnce");
    assert_eq!(r.command, r#"cmd /c "C:\Temp\MasterBooter\RunAll.bat""#);
}

#[test]
fn profile_names() {
    assert_eq!(sanitize_profile_name("My Lab/Profile:1"), "My LabProfile1");
    assert_eq!(sanitize_profile_name("Café_2-x"), "Café_2-x");
    assert_eq!(profile_file_name("Office PCs"), Ok("Office PCs.json".to_string()));
    assert_eq!(profile_file_name("../.."), Err("Profile name cannot be empty".to_string()));
    let names = vec!["b.json".to_string(), "a.json".to_string(), "c.JSON".to_string(), "d.txt".to_string()];
    assert_eq!(select_profiles(&names), vec!["a", "b"]);
}

#[test]
fn saved_profile_drops_session_fields() {
    let mut c = DeployConfig::default();
    c.wim_path = "D:\\sources\\install.wim".to_string();
    c.edition = "Windows 11 Pro".to_string();
    c.edition_index = 6;
    c.computer_name = "PC-1".to_string();
    let p = profile_for_saving(c);
    assert!(p.wim_path.is_empty());
    assert!(p.edition.is_empty());
    assert_eq!(p.edition_index, 0);
    assert_eq!(p.computer_name, "PC-1");
}

#[test]
fn script_copy_plan_skips_fails_and_registers_only_in_normal_mode() {
    let none: Vec<String> = vec![];
    assert!(matches!(script_copy_plan(&none, None, true), Ok(None)));
    let scripts = vec!["a.ps1".to_string()];
    match script_copy_plan(&scripts, None, false) {
        Err(e) => assert_eq!(e, "Could not find newly installed Windows. Scripts not copied."),
        _ => panic!("expected an error"),
    }
    let plan = script_copy_plan(&scripts, Some("D:"), false).unwrap().unwrap();
    assert_eq!(plan.target_folder, r"D:\Temp\MasterBooter");
    assert_eq!(plan.run_all, run_all_batch(&scripts));
    assert!(plan.run_once.is_none());
    let plan = script_copy_plan(&scripts, Some("D:"), true).unwrap().unwrap();
    let reg = plan.run_once.unwrap();
    assert_eq!(reg.hive_file, run_once_registration("D:").hive_file);
    assert_eq!(reg.hive_file, r"D:\Windows\System32\Config\SOFTWARE");
}
