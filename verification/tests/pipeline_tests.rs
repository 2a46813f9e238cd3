use masterbooter::deploy::{BootMode, DeployConfig};
use masterbooter::pipeline::{
    after_answer_file_written, after_disk_format, after_dism_check, after_interactive_setup,
    after_reboot, after_scripts_copied, after_setup_finished, after_setup_search,
    after_win11_bypass, bypass_failure, bypass_outcome, diskpart_format_script, start_deploy,
    start_normal_install, win11_bypass_values, DeployAction, DeployStep, SetupOutcome,
};
use masterbooter::unattend::generate_autounattend;

fn texts(step: &DeployStep) -> Vec<(i32, String)> {
    step.reports.clone()
}

fn finish_message(step: &DeployStep) -> (bool, String) {
    match &step.action {
        DeployAction::Finish(r) => (r.success, r.message.clone()),
        _ => panic!("expected a finished step"),
    }
}

#[test]
fn validation_rejects_missing_image_and_edition() {
    let c = DeployConfig::default();
    let s = start_deploy(&c);
    assert_eq!(texts(&s), vec![(0, "Validating deployment configuration...".to_string())]);
    assert_eq!(
        finish_message(&s),
        (false, "No Windows image selected. Please browse for an install.wim or install.esd file.".to_string())
    );
    let mut c = DeployConfig::default();
    c.wim_path = "D:\\sources\\install.wim".to_string();
    assert_eq!(
        finish_message(&start_deploy(&c)).1,
        "No Windows edition selected. Please select an edition from the image."
    );
    c.edition = "Windows 11 Pro".to_string();
    assert!(matches!(start_deploy(&c).action, DeployAction::CheckDism));
}

#[test]
fn dism_missing_stops() {
    let c = DeployConfig::default();
    let s = after_dism_check(&c, false, false);
    assert!(s.reports.is_empty());
    assert_eq!(
        finish_message(&s),
        (false, "DISM is not available. Are you running from WinPE or a Windows environment?".to_string())
    );
}

#[test]
fn chosen_disk_is_formatted() {
    let mut c = DeployConfig::default();
    c.disk_id = 1;
    let s = after_dism_check(&c, false, true);
    assert_eq!(
        texts(&s),
        vec![(5, "Configuration validated".to_string()), (5, "Formatting Disk 1 (UEFI)...".to_string())]
    );
    assert!(matches!(s.action, DeployAction::FormatDisk { disk_id: 1, boot_mode: BootMode::UEFI }));
    let f = after_disk_format(&c, false, Err("diskpart failed".to_string()));
    assert_eq!(finish_message(&f).1, "Disk formatting failed: diskpart failed");
    let ok = after_disk_format(&c, false, Ok(()));
    assert_eq!(ok.reports[0], (15, "Disk formatted successfully".to_string()));
    assert_eq!(ok.reports[1], (15, "Applying Windows 11 bypass...".to_string()));
    assert!(matches!(ok.action, DeployAction::ApplyWin11Bypass));
}

#[test]
fn no_disk_and_no_bypass_goes_to_answer_file() {
    let mut c = DeployConfig::default();
    c.bypass_win11 = false;
    let s = after_dism_check(&c, true, true);
    let expected: Vec<(i32, String)> = vec![
        (5, "Configuration validated"),
        (15, "Skipping disk format (Windows will choose)"),
        (20, "Windows 11 bypass not needed"),
        (20, "Generating autounattend.xml..."),
        (30, "autounattend.xml generated"),
        (30, "Writing autounattend.xml..."),
    ]
    .into_iter()
    .map(|(p, t)| (p, t.to_string()))
    .collect();
    assert_eq!(texts(&s), expected);
    match &s.action {
        DeployAction::WriteAnswerFile { xml } => assert_eq!(xml, &generate_autounattend(&c, true)),
        _ => panic!("expected the answer file to be written"),
    }
    let b = after_win11_bypass(&c, false);
    assert_eq!(b.reports[0], (20, "Windows 11 bypass applied".to_string()));
}

#[test]
fn setup_outcomes() {
    let w = after_answer_file_written(Err("denied".to_string()));
    assert_eq!(finish_message(&w).1, "Failed to write autounattend.xml: denied");
    assert!(matches!(after_answer_file_written(Ok(())).action, DeployAction::LaunchSetup));
    let f = after_setup_finished(SetupOutcome::Exited { success: false, code: Some(-2147467259) });
    assert_eq!(finish_message(&f).1, "Windows Setup exited with code: 0x80004005");
    let f = after_setup_finished(SetupOutcome::Exited { success: false, code: None });
    assert_eq!(finish_message(&f).1, "Windows Setup exited with code: 0xFFFFFFFF");
    let f = after_setup_finished(SetupOutcome::Exited { success: false, code: Some(42) });
    assert_eq!(finish_message(&f).1, format!("Windows Setup exited with code: 0x{:X}", 42));
    let ok = after_setup_finished(SetupOutcome::Exited { success: true, code: Some(0) });
    assert!(matches!(ok.action, DeployAction::CopyScripts { normal_mode: false }));
    let c = after_scripts_copied(Err("no target".to_string()));
    assert_eq!(c.reports[0], (93, "Warning: Script copy issue: no target".to_string()));
    assert!(matches!(c.action, DeployAction::Reboot));
    let r = after_reboot(false);
    assert_eq!(r.reports, vec![(100, "Reboot initiated".to_string())]);
    assert_eq!(finish_message(&r), (true, "Windows deployment complete! System is rebooting.".to_string()));
}

#[test]
fn normal_install_steps() {
    let s = start_normal_install();
    assert!(matches!(s.action, DeployAction::FindSetup));
    let e = after_setup_search(Err("setup.exe not found".to_string()));
    assert_eq!(
        finish_message(&e).1,
        "Cannot find setup.exe: setup.exe not found. Make sure a Windows ISO is mounted or available."
    );
    let f = after_interactive_setup(SetupOutcome::Exited { success: false, code: Some(-1) });
    assert_eq!(finish_message(&f).1, "Windows Setup exited with error code: -1 (0xFFFFFFFF)");
    let w = after_interactive_setup(SetupOutcome::WaitFailed("gone".to_string()));
    assert_eq!(finish_message(&w).1, "Failed to wait for setup.exe: gone");
}

#[test]
fn diskpart_scripts() {
    let uefi = diskpart_format_script(0, BootMode::UEFI);
    assert_eq!(
        uefi,
        "select disk 0\nclean\nconvert gpt\ncreate partition efi size=100\nformat quick fs=fat32 label=\"System\"\nassign letter=S\ncreate partition msr size=16\ncreate partition primary\nformat quick fs=ntfs label=\"Windows\"\nassign letter=C\nexit\n"
    );
    let bios = diskpart_format_script(3, BootMode::BIOS);
    assert!(bios.starts_with("select disk 3\nclean\ncreate partition primary size=100\n"));
    assert!(bios.contains("active\n"));
}

#[test]
fn bypass_values_and_errors() {
    let v = win11_bypass_values();
    assert_eq!(v.len(), 7);
    assert_eq!(v[6], (r"HKLM\SOFTWARE\Microsoft\Windows\CurrentVersion\OOBE", "BypassNRO", "1"));
    assert!(bypass_outcome(&vec![]).is_ok());
    let e1 = bypass_failure(r"HKLM\SYSTEM\Setup\LabConfig", "BypassTPMCheck", "Access is denied.");
    assert_eq!(e1, r"HKLM\SYSTEM\Setup\LabConfig\BypassTPMCheck: Access is denied.");
    let e = bypass_outcome(&vec![e1.clone(), "x: y".to_string()]);
    assert_eq!(e, Err(format!("Some bypass keys failed: {}; x: y", e1)));
}

#[test]
fn a_successful_run_reports_rising_percentages_up_to_100() {
    let mut c = DeployConfig::default();
    c.wim_path = "D:\\sources\\install.wim".to_string();
    c.edition = "Windows 11 Pro".to_string();
    c.disk_id = 0;
    c.bypass_win11 = true;
    let steps = vec![
        start_deploy(&c),
        after_dism_check(&c, false, true),
        after_disk_format(&c, false, Ok(())),
        after_win11_bypass(&c, false),
        after_answer_file_written(Ok(())),
        masterbooter::pipeline::after_setup_launched(Ok(())),
        after_setup_finished(SetupOutcome::Exited { success: true, code: Some(0) }),
        after_scripts_copied(Ok(())),
        after_reboot(true),
    ];
    let percents: Vec<i32> = steps.iter().flat_map(|s| s.reports.iter().map(|r| r.0)).collect();
    assert!(percents.windows(2).all(|w| w[0] <= w[1]));
    assert!(percents.iter().all(|p| (0..=100).contains(p)));
    assert_eq!(*percents.last().unwrap(), 100);
    assert!(finish_message(steps.last().unwrap()).0);
}
