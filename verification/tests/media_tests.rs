use masterbooter::adk_packages::{
    adk_version_from_manifest, get_all_packages, install_result, package_cab_names,
    parse_installed_packages, winpe_ocs_path, DismRun,
};
use masterbooter::pe_tools::{pe_tools_summary, PeTool};
use masterbooter::pipeline::{
    choose_install_image, image_kind, install_image_candidates, most_recent, mount_iso_script,
    mounted_drive, push_hex_upper, unsupported_image_message, ImageKind,
};
use masterbooter::tools::{extension_is, extracted_program, installed_version, strip_verbatim_prefix};
use masterbooter::updater::update_download_percent;
use masterbooter::pe_tools::{pe_download_status, PeDownloadResult};
use masterbooter::pe_fixes::{fix_steps, FixSteps};
use masterbooter::deploy::DiskInfo;
use masterbooter::pipeline::{diskpart_disks_outcome, powershell_disks_suffice};
use masterbooter::scripts::sanitize_profile_name;

#[test]
fn image_kinds_and_messages() {
    assert_eq!(image_kind("wim"), ImageKind::InstallImage);
    assert_eq!(image_kind("esd"), ImageKind::InstallImage);
    assert_eq!(image_kind("iso"), ImageKind::DiscImage);
    assert_eq!(image_kind("vhd"), ImageKind::Unsupported);
    assert_eq!(
        unsupported_image_message("vhd"),
        "Unsupported file type: .vhd. Please select a .wim, .esd, or .iso file."
    );
    assert_eq!(
        mount_iso_script(r"C:\iso\win.iso"),
        r"(Mount-DiskImage -ImagePath 'C:\iso\win.iso' -PassThru | Get-Volume).DriveLetter"
    );
}

#[test]
fn mounted_iso_drive_and_image() {
    assert_eq!(mounted_drive(" E \r\n"), Ok("E:".to_string()));
    assert_eq!(mounted_drive("\r\n"), Err("ISO mounted but no drive letter assigned".to_string()));
    assert_eq!(choose_install_image("E:", true, true), Ok(r"E:\sources\install.wim".to_string()));
    assert_eq!(choose_install_image("E:", false, true), Ok(r"E:\sources\install.esd".to_string()));
    assert_eq!(
        choose_install_image("E:", false, false),
        Err(r"No install.wim or install.esd found in ISO at E:\sources\".to_string())
    );
    assert_eq!(
        install_image_candidates("F:"),
        (r"F:\sources\install.wim".to_string(), r"F:\sources\install.esd".to_string())
    );
}

#[test]
fn most_recent_keeps_the_first_of_equals() {
    assert_eq!(most_recent(&[]), None);
    assert_eq!(most_recent(&[5, 9, 9, 1]), Some(1));
    assert_eq!(most_recent(&[7]), Some(0));
}

#[test]
fn hex_digits() {
    let mut s = String::new();
    push_hex_upper(&mut s, 0x80004005);
    assert_eq!(s, "80004005");
    let mut z = String::new();
    push_hex_upper(&mut z, 0);
    assert_eq!(z, "0");
}

#[test]
fn tool_file_helpers() {
    assert!(extension_is("data1.CAB", "cab"));
    assert!(!extension_is("cab", "cab"));
    assert!(extracted_program("Profwiz.exe"));
    assert!(!extracted_program("Download.exe"));
    assert!(!extracted_program("tool.EXE"));
    assert_eq!(strip_verbatim_prefix(r"\\?\C:\Tools"), r"C:\Tools");
    assert_eq!(strip_verbatim_prefix(r"C:\Tools"), r"C:\Tools");
    assert_eq!(installed_version(Some(" 2.1\n"), false), Some("2.1".to_string()));
    assert_eq!(installed_version(None, true), Some("Installed".to_string()));
    assert_eq!(installed_version(None, false), None);
    assert_eq!(update_download_percent(50, 100), 45);
    assert_eq!(update_download_percent(200, 100), 90);
}

#[test]
fn package_installation_results() {
    let pkgs = get_all_packages();
    let wmi = pkgs.iter().find(|p| p.id == "wmi").unwrap();
    let (base, lang) = package_cab_names(wmi);
    assert_eq!(base, "WinPE-WMI.cab");
    assert_eq!(lang, "WinPE-WMI_en-us.cab");
    let r = install_result(wmi, r"C:\ocs\WinPE-WMI.cab", false, DismRun::Failed(String::new()));
    assert!(!r.success);
    assert_eq!(r.message, r"Package not found: C:\ocs\WinPE-WMI.cab");
    let r = install_result(
        wmi,
        "x",
        true,
        DismRun::Ran { success: false, stdout: "Error: 0x800f081e".to_string(), stderr: "bad".to_string() },
    );
    assert_eq!(r.message, "DISM failed: Error: 0x800f081e\nbad");
    let r = install_result(
        wmi,
        "x",
        true,
        DismRun::Ran { success: false, stdout: "The package is already installed".to_string(), stderr: String::new() },
    );
    assert!(r.success);
    assert_eq!(r.message, "Installed successfully");
    assert_eq!(r.package_name, wmi.display_name);
    let r = install_result(wmi, "x", true, DismRun::Failed("not found".to_string()));
    assert_eq!(r.message, "Failed to run DISM: not found");
}

#[test]
fn adk_paths_and_versions() {
    assert_eq!(
        winpe_ocs_path(r"C:\Program Files (x86)\Windows Kits\10", "amd64"),
        r"C:\Program Files (x86)\Windows Kits\10\Assessment and Deployment Kit\Windows Preinstallation Environment\amd64\WinPE_OCs"
    );
    assert_eq!(adk_version_from_manifest(Some("<x>10.0.22621.1</x>")), "10.1.22621 (Windows 11 22H2)");
    assert_eq!(adk_version_from_manifest(None), "Windows 10/11 ADK");
    let listing = "Package Identity : WinPE-WMI-Package~31bf3856ad364e35~amd64~~10.0\r\nState : Installed\r\n";
    assert_eq!(parse_installed_packages(listing), vec!["WinPE-WMI-Package~31bf3856ad364e35~amd64~~10.0"]);
}

#[test]
fn pe_tools_summary_counts_present_tools() {
    let t = |present: bool| PeTool {
        name: "x".to_string(),
        description: String::new(),
        category: String::new(),
        version: String::new(),
        exe: "x.exe".to_string(),
        is_shell: false,
        create_shortcut: true,
        enabled_by_default: true,
        auto_launch: false,
        download_url: String::new(),
        fallback_url: String::new(),
        folder_path: String::new(),
        enabled: true,
        is_present: present,
    };
    assert_eq!(pe_tools_summary(&[t(true), t(false), t(true)]), "2 of 3 downloaded");
    assert_eq!(pe_tools_summary(&[]), "0 of 0 downloaded");
}

#[test]
fn pe_download_status_texts() {
    let r = |ok: bool| PeDownloadResult {
        tool_name: "t".to_string(),
        success: ok,
        error_message: if ok { None } else { Some("x".to_string()) },
        files_extracted: vec![],
    };
    assert_eq!(pe_download_status(3, &[r(true), r(true)]), "2 downloaded, 1 already present");
    assert_eq!(pe_download_status(2, &[r(true), r(true)]), "All 2 PE tools downloaded successfully");
    assert_eq!(pe_download_status(4, &[]), "All checked PE tools already downloaded");
    assert_eq!(pe_download_status(5, &[r(true), r(false)]), "1 downloaded, 1 failed, 3 already present");
    assert_eq!(pe_download_status(0, &[r(false)]), "0 downloaded, 1 failed, 0 already present");
}

#[test]
fn fix_steps_by_id() {
    assert_eq!(fix_steps("wallpaper_host"), FixSteps::RemoveFileThenHive);
    assert_eq!(fix_steps("font_fix"), FixSteps::WriteFileThenHive);
    assert_eq!(fix_steps("dpi_scaling"), FixSteps::HiveOnly { unstarted_write_fails: false });
    assert_eq!(fix_steps("enable_long_paths"), FixSteps::HiveOnly { unstarted_write_fails: true });
    assert_eq!(fix_steps("other"), FixSteps::Unknown);
}

#[test]
fn disk_detection_fallback() {
    let d = DiskInfo {
        number: 0,
        friendly_name: "Disk 0".to_string(),
        size_bytes: 1,
        partition_style: "MBR".to_string(),
        is_system_disk: true,
    };
    assert!(powershell_disks_suffice(&Ok(vec![d.clone()])));
    assert!(!powershell_disks_suffice(&Ok(vec![])));
    assert!(!powershell_disks_suffice(&Err("x".to_string())));
    assert_eq!(diskpart_disks_outcome(Ok(vec![d])).unwrap().len(), 1);
    assert_eq!(
        diskpart_disks_outcome(Ok(vec![])).unwrap_err(),
        "No disks detected. Are any physical disks connected?"
    );
    assert_eq!(diskpart_disks_outcome(Err("boom".to_string())).unwrap_err(), "Disk detection failed: boom");
}

#[test]
fn sanitizing_twice_changes_nothing() {
    let once = sanitize_profile_name("a/b\\c:d e-f_g?");
    assert_eq!(once, "abcd e-f_g");
    assert_eq!(sanitize_profile_name(&once), once);
}
