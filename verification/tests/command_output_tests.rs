use masterbooter::command_output::{
    backup_date, parse_diskpart_disks, parse_key_detection, parse_powershell_disks,
    parse_system_disk_number, parse_wim_info,
};
use masterbooter::updater::{
    release_check_result, update_check_error, version_changed, GitHubAsset, GitHubRelease,
    VersionInfo,
};

#[test]
fn wim_info_editions() {
    let out = "Deployment Image Servicing and Management tool\r\n\r\nIndex : 1\r\nName : Windows 11 Home\r\nDescription : Windows 11 Home\r\nSize : 16,123,456,789 bytes\r\n\r\nIndex : 6\r\nName : Windows 11 Pro\r\nSize : 16,200,000,000 bytes\r\n\r\nThe operation completed successfully.\r\n";
    let eds = parse_wim_info(out).unwrap();
    assert_eq!(eds.len(), 2);
    assert_eq!(eds[0].index, 1);
    assert_eq!(eds[0].name, "Windows 11 Home");
    assert_eq!(eds[0].size_bytes, 16_123_456_789);
    assert_eq!(eds[1].index, 6);
    assert_eq!(eds[1].name, "Windows 11 Pro");
    let err = parse_wim_info("Error: 2\r\n").unwrap_err();
    assert_eq!(err, "No Windows editions found in the image. Is this a valid install.wim or install.esd?");
}

#[test]
fn powershell_disk_lines() {
    let out = "0|Samsung SSD 960 EVO|500107862016|GPT\r\n\r\n1|WD Blue|1000204886016|MBR\r\nbad line\r\n";
    let d = parse_powershell_disks(out, Some(1));
    assert_eq!(d.len(), 2);
    assert_eq!(d[0].friendly_name, "Samsung SSD 960 EVO");
    assert!(!d[0].is_system_disk);
    assert!(d[1].is_system_disk);
    let d = parse_powershell_disks(out, None);
    assert!(d[0].is_system_disk);
    assert_eq!(parse_system_disk_number(" 2\r\n"), Some(2));
    assert_eq!(parse_system_disk_number(""), None);
}

#[test]
fn diskpart_disk_lines() {
    let out = "  Disk ###  Status         Size     Free     Dyn  Gpt\r\n  --------  -------------  -------  -------  ---  ---\r\n  Disk 0    Online          238 GB  1024 KB        *\r\n  Disk 1    Online          931 GB      0 B\r\n";
    let d = parse_diskpart_disks(out, None).unwrap();
    assert_eq!(d.len(), 2);
    assert_eq!(d[0].number, 0);
    assert_eq!(d[0].size_bytes, 238 * 1_073_741_824);
    assert_eq!(d[0].partition_style, "GPT");
    assert_eq!(d[0].friendly_name, "Disk 0");
    assert_eq!(d[1].partition_style, "MBR");
    assert!(d[0].is_system_disk);
}

#[test]
fn diskpart_size_is_the_size_column() {
    let out = "  Disk ###  Status   Size     Free     Dyn  Gpt\n  Disk 0    Online   238 GB    12 GB        *\n";
    let d = parse_diskpart_disks(out, Some(0)).unwrap();
    assert_eq!(d.len(), 1);
    assert_eq!(d[0].number, 0);
    assert_eq!(d[0].friendly_name, "Disk 0");
    assert_eq!(d[0].size_bytes, 238 * 1_073_741_824);
    assert_eq!(d[0].partition_style, "GPT");
    assert!(d[0].is_system_disk);
}

#[test]
fn key_detection_lines() {
    let out = "OEM_KEY:AAAAA-BBBBB\r\nINSTALLED_KEY: CCCCC-DDDDD \r\nEDITION:Windows 11 Pro\r\nSTATUS:Licensed\r\nHOSTNAME:PC1\r\n";
    let k = parse_key_detection(out, "2024-01-01".to_string());
    assert_eq!(k.oem_key, "AAAAA-BBBBB");
    assert_eq!(k.installed_key, "CCCCC-DDDDD");
    assert_eq!(k.edition, "Windows 11 Pro");
    assert_eq!(k.status, "Licensed");
    assert_eq!(k.hostname, "PC1");
    assert_eq!(k.date, "2024-01-01");
    assert_eq!(backup_date(0), "1970-01-01");
}

#[test]
fn release_results() {
    let release = GitHubRelease {
        tag_name: "v1.2.0".to_string(),
        body: Some("notes".to_string()),
        assets: vec![GitHubAsset {
            name: "MasterBooter.EXE".to_string(),
            browser_download_url: "https://example/masterbooter.exe".to_string(),
            size: 9_000_000,
        }],
    };
    let r = release_check_result("1.0.0", &release);
    assert!(r.update_available);
    assert_eq!(r.latest_version, "1.2.0");
    assert_eq!(r.current_version, "1.0.0");
    assert_eq!(r.release_notes, "notes");
    assert_eq!(r.download_url, "https://example/masterbooter.exe");
    assert_eq!(r.download_size, 9_000_000);
    assert_eq!(r.error, "");
    let r = release_check_result("1.2.0", &release);
    assert!(!r.update_available);
    assert_eq!(r.latest_version, "1.2.0");
    assert_eq!(r.download_url, "");
    assert_eq!(r.download_size, 0);
    let e = update_check_error("1.0.0", "Could not reach GitHub: timeout".to_string());
    assert!(!e.update_available);
    assert_eq!(e.error, "Could not reach GitHub: timeout");
}

#[test]
fn version_tracking() {
    assert!(version_changed(&None, "1.0.0"));
    let v = Some(VersionInfo { last_run_version: "1.0.0".to_string() });
    assert!(!version_changed(&v, "1.0.0"));
    assert!(version_changed(&v, "1.0.1"));
}
