use masterbooter::pe_tools::{
    archive_file_kept, default_manifests, default_true, flatten_single_subfolder, detect_download_type, get_config_path,
    get_pe_tools_folder, installer_exe_kept, pe_download_step, set_pe_tool_enabled,
    start_pe_download, tool_categories, tools_needing_download, PeDownloadAction,
    PeDownloadEvent, PeDownloadType, PeTool, PeToolsConfig,
};
use masterbooter::tools::{
    download_percent, get_all_tools, get_backup_tools_path, get_executable_path, get_tool_by_id,
    get_tool_path, get_tools_base_path, msi_exe_wanted, temp_download_file, zip_entries_to_extract,
    DownloadType,
};

#[test]
fn tools_by_id() {
    let t = get_tool_by_id("disk2vhd").unwrap();
    assert_eq!(t.executable_name, "disk2vhd64.exe");
    assert_eq!(t.download_type, DownloadType::Zip);
    assert!(get_tool_by_id("sysprepprep").is_some());
    assert!(get_tool_by_id("nope").is_none());
    let all = get_all_tools();
    assert_eq!(all.len(), 5);
    assert!(all.iter().all(|t| t.id != "sysprepprep"));
}

#[test]
fn tool_paths() {
    assert_eq!(get_backup_tools_path(r"E:\MB"), r"E:\MB\backup_tools");
    assert_eq!(get_tools_base_path(r"E:\MB\"), r"E:\MB\backup_tools");
    let t = get_tool_by_id("profwiz").unwrap();
    assert_eq!(get_tool_path(r"E:\MB", &t), r"E:\MB\backup_tools\profwiz");
    assert_eq!(get_executable_path(r"E:\MB", &t), r"E:\MB\backup_tools\profwiz\Profwiz.exe");
    assert_eq!(temp_download_file(DownloadType::Msi), "download.msi");
    assert_eq!(download_percent(512, 1024), 50);
    assert_eq!(download_percent(1024, 1024), 100);
}

#[test]
fn zip_and_msi_selection() {
    let names = vec!["app.exe".to_string(), "lib.dll".to_string(), "lang/".to_string(), "en.ini".to_string()];
    let dirs = vec![false, false, true, false];
    assert_eq!(zip_entries_to_extract(&names, &dirs), vec![true, true, false, true]);
    let names = vec!["tool.exe".to_string(), "readme.txt".to_string()];
    assert_eq!(zip_entries_to_extract(&names, &vec![false, false]), vec![true, false]);
    assert!(msi_exe_wanted("Profwiz.exe"));
    assert!(!msi_exe_wanted("Icon.abc.exe"));
    assert!(!msi_exe_wanted("MsiExec.exe"));
    assert!(!msi_exe_wanted("Uninstall-Tool.exe"));
    assert!(!msi_exe_wanted("!setup.exe"));
}

#[test]
fn download_types() {
    assert_eq!(detect_download_type("https://x/a.7z"), PeDownloadType::SevenZip);
    assert_eq!(detect_download_type("https://x/A.ZIP"), PeDownloadType::Zip);
    assert_eq!(detect_download_type("https://x/setup.Exe"), PeDownloadType::SelfExtractingExe);
    assert_eq!(detect_download_type("https://x/file"), PeDownloadType::Unknown);
}

#[test]
fn pe_tool_settings_read_back() {
    let mut c = PeToolsConfig::default();
    assert!(c.enabled_for("WinXShell", true));
    set_pe_tool_enabled(&mut c, "WinXShell", false);
    assert!(!c.enabled_for("WinXShell", true));
    set_pe_tool_enabled(&mut c, "7-Zip", true);
    set_pe_tool_enabled(&mut c, "WinXShell", true);
    assert!(c.enabled_for("WinXShell", false));
    assert!(c.enabled_for("7-Zip", false));
    assert!(!c.enabled_for("Other", false));
    assert_eq!(c.enabled_tools.len(), 2);
}

#[test]
fn pe_tools_folder_and_config() {
    assert_eq!(get_pe_tools_folder(r"E:\MB", true, true), r"E:\MB\pe_tools");
    assert_eq!(get_pe_tools_folder(r"E:\MB", false, true), "pe_tools");
    assert_eq!(get_pe_tools_folder(r"E:\MB", false, false), r"E:\MB\pe_tools");
    assert_eq!(get_config_path(r"E:\MB\pe_tools"), r"E:\MB\pe_tools_config.json");
    assert_eq!(get_config_path("pe_tools"), "pe_tools_config.json");
    assert_eq!(tool_categories(), vec!["shell", "network", "disk", "security", "utilities", "system"]);
    assert!(default_true());
    let m = default_manifests();
    assert_eq!(m.len(), 12);
    assert_eq!(m[0].0, "shell/WinXShell/tool.toml");
    assert!(m[0].1.contains("is_shell = true"));
}

fn tool(url: &str, fallback: &str, present: bool) -> PeTool {
    PeTool {
        name: "Demo".to_string(),
        description: String::new(),
        category: "disk".to_string(),
        version: "1".to_string(),
        exe: "demo.exe".to_string(),
        is_shell: false,
        create_shortcut: true,
        enabled_by_default: true,
        auto_launch: false,
        download_url: url.to_string(),
        fallback_url: fallback.to_string(),
        folder_path: r"E:\pe_tools\disk\Demo".to_string(),
        enabled: true,
        is_present: present,
    }
}

#[test]
fn download_without_url_or_when_present() {
    let (_, a) = start_pe_download(&tool("", "", false));
    match a {
        PeDownloadAction::Done(r) => {
            assert!(!r.success);
            assert_eq!(r.error_message, Some("No download URL specified".to_string()));
        }
        _ => panic!("expected done"),
    }
    let (_, a) = start_pe_download(&tool("https://x/a.zip", "", true));
    match a {
        PeDownloadAction::Done(r) => {
            assert!(r.success);
            assert_eq!(r.files_extracted, vec!["demo.exe".to_string()]);
        }
        _ => panic!("expected done"),
    }
}

#[test]
fn download_falls_back_after_failure() {
    let (s, a) = start_pe_download(&tool("https://x/a.7z", "https://mirror/b.zip", false));
    assert!(matches!(a, PeDownloadAction::CreateFolder));
    let (s, a) = pe_download_step(s, PeDownloadEvent::FolderCreated(Ok(())));
    match &a {
        PeDownloadAction::Fetch { url, temp_file } => {
            assert_eq!(url, "https://x/a.7z");
            assert_eq!(temp_file, "download.7z");
        }
        _ => panic!("expected fetch"),
    }
    let (s, a) = pe_download_step(s, PeDownloadEvent::Fetched(Err("HTTP error: 404".to_string())));
    match &a {
        PeDownloadAction::Fetch { url, temp_file } => {
            assert_eq!(url, "https://mirror/b.zip");
            assert_eq!(temp_file, "download.zip");
        }
        _ => panic!("expected the fallback"),
    }
    assert_eq!(s.last_error, "Download failed from https://x/a.7z: HTTP error: 404");
    let (s, a) = pe_download_step(s, PeDownloadEvent::Fetched(Ok(())));
    assert!(matches!(a, PeDownloadAction::Unpack { kind: PeDownloadType::Zip, .. }));
    let (_, a) = pe_download_step(s, PeDownloadEvent::Unpacked(Err("7-Zip not found".to_string())));
    match a {
        PeDownloadAction::Done(r) => {
            assert!(!r.success);
            assert_eq!(r.error_message, Some("Extraction failed: 7-Zip not found".to_string()));
        }
        _ => panic!("expected done"),
    }
}

#[test]
fn unknown_format_and_success() {
    let (s, _) = start_pe_download(&tool("https://x/file", "", false));
    let (s, _) = pe_download_step(s, PeDownloadEvent::FolderCreated(Ok(())));
    let (s, a) = pe_download_step(s, PeDownloadEvent::Fetched(Ok(())));
    assert!(matches!(a, PeDownloadAction::Unpack { kind: PeDownloadType::Unknown, .. }));
    let (_, a) = pe_download_step(s, PeDownloadEvent::Unpacked(Ok(vec![])));
    match a {
        PeDownloadAction::Done(r) => assert_eq!(
            r.error_message,
            Some("Extraction failed: Unknown download format".to_string())
        ),
        _ => panic!("expected done"),
    }
    let (s, _) = start_pe_download(&tool("https://x/a.zip", "", false));
    let (s, _) = pe_download_step(s, PeDownloadEvent::FolderCreated(Ok(())));
    let (s, _) = pe_download_step(s, PeDownloadEvent::Fetched(Ok(())));
    let (_, a) = pe_download_step(s, PeDownloadEvent::Unpacked(Ok(vec!["demo.exe".to_string()])));
    match a {
        PeDownloadAction::Done(r) => {
            assert!(r.success);
            assert_eq!(r.error_message, None);
        }
        _ => panic!("expected done"),
    }
    let (s, _) = start_pe_download(&tool("https://x/a.zip", "", false));
    let (_, a) = pe_download_step(s, PeDownloadEvent::FolderCreated(Err("denied".to_string())));
    match a {
        PeDownloadAction::Done(r) => assert_eq!(r.error_message, Some("Failed to create folder: denied".to_string())),
        _ => panic!("expected done"),
    }
}

#[test]
fn which_tools_need_download() {
    let tools = vec![
        tool("https://x/a.zip", "", false),
        tool("https://x/a.zip", "", true),
        tool("", "https://m/a.zip", false),
        PeTool { enabled: false, ..tool("https://x/a.zip", "", false) },
        tool("https://x/b.zip", "", false),
    ];
    assert_eq!(tools_needing_download(&tools), vec![0, 2, 4]);
    assert!(archive_file_kept("Demo.exe"));
    assert!(!archive_file_kept("download.7z"));
    assert!(installer_exe_kept("tool.exe"));
    assert!(!installer_exe_kept("download.exe"));
    assert!(!installer_exe_kept("readme.txt"));
}

#[test]
fn lone_subfolder_is_moved_up_only_when_it_holds_the_program() {
    assert!(flatten_single_subfolder(false, 1, true));
    assert!(!flatten_single_subfolder(true, 1, true));
    assert!(!flatten_single_subfolder(false, 2, true));
    assert!(!flatten_single_subfolder(false, 1, false));
}
