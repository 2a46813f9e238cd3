use masterbooter::deploy::{get_generic_key, BootMode, DeployConfig, DiskInfo, WimEdition};
use masterbooter::first_logon::{build_first_logon_commands, first_logon_command_list, LogonCommand};
use masterbooter::unattend::{escape_xml, generate_autounattend, render_autounattend};

const ATTRS: &str = r#" processorArchitecture="amd64" publicKeyToken="31bf3856ad364e35" language="neutral" versionScope="nonSxS" xmlns:wcm="http://schemas.microsoft.com/WMIConfig/2002/State" xmlns:xsi="http://www.w3.org/2001/XMLSchema-instance">"#;

fn esc(s: &str) -> String {
    s.replace('&', "&amp;")
        .replace('<', "&lt;")
        .replace('>', "&gt;")
        .replace('"', "&quot;")
        .replace('\'', "&apos;")
}

fn cmd(order: usize, line: &str, desc: &str) -> String {
    format!(
        "                <SynchronousCommand wcm:action=\"add\">\n                    <Order>{}</Order>\n                    <CommandLine>{}</CommandLine>\n                    <Description>{}</Description>\n                    <RequiresUserInput>false</RequiresUserInput>\n                </SynchronousCommand>\n",
        order, line, esc(desc)
    )
}

fn expected_commands(list: &[LogonCommand]) -> String {
    let mut out = String::new();
    for (i, c) in list.iter().enumerate() {
        match c {
            LogonCommand::Registry { description, key, value, reg_type, data } => {
                let line = format!(
                    "reg add &quot;{}&quot; /v {} /t {} /d {} /f",
                    esc(key), esc(value), esc(reg_type), esc(data)
                );
                out.push_str(&cmd(i + 1, &line, description));
            }
            LogonCommand::Raw { description, command } => {
                out.push_str(&cmd(i + 1, &esc(command), description));
            }
            LogonCommand::PowerShell { description, command } => {
                let line = format!(
                    "powershell -ExecutionPolicy Bypass -NoProfile -Command &quot;{}&quot;",
                    esc(command)
                );
                out.push_str(&cmd(i + 1, &line, description));
            }
        }
    }
    out
}

fn expected_xml(c: &DeployConfig, key: &str, scripts: bool) -> String {
    let l = esc(&c.language);
    let locale = format!(
        "            <InputLocale>{l}</InputLocale>\n            <SystemLocale>{l}</SystemLocale>\n            <UILanguage>{l}</UILanguage>\n            <UserLocale>{l}</UserLocale>\n"
    );
    let mut x = String::new();
    x.push_str("<?xml version=\"1.0\" encoding=\"utf-8\"?>\n<unattend xmlns=\"urn:schemas-microsoft-com:unattend\">\n");
    x.push_str("    <settings pass=\"windowsPE\">\n");
    x.push_str(&format!("        <component name=\"Microsoft-Windows-International-Core-WinPE\"{ATTRS}\n"));
    x.push_str(&format!("            <SetupUILanguage>\n                <UILanguage>{l}</UILanguage>\n            </SetupUILanguage>\n"));
    x.push_str(&locale);
    x.push_str("        </component>\n");
    x.push_str(&format!("        <component name=\"Microsoft-Windows-Setup\"{ATTRS}\n"));
    if c.disk_id >= 0 {
        x.push_str(&format!("            <DiskConfiguration>\n                <WillShowUI>OnError</WillShowUI>\n                <Disk wcm:action=\"add\">\n                    <DiskID>{}</DiskID>\n                    <WillWipeDisk>true</WillWipeDisk>\n", c.disk_id));
        let part = |o: u32, extra: &str| format!("                        <CreatePartition wcm:action=\"add\">\n                            <Order>{o}</Order>\n{extra}                        </CreatePartition>\n");
        let modp = |o: u32, extra: &str| format!("                        <ModifyPartition wcm:action=\"add\">\n                            <Order>{o}</Order>\n                            <PartitionID>{o}</PartitionID>\n{extra}                        </ModifyPartition>\n");
        let line = |t: &str| format!("                            {t}\n");
        x.push_str("                    <CreatePartitions>\n");
        match c.boot_mode {
            BootMode::UEFI => {
                x.push_str(&part(1, &(line("<Size>100</Size>") + &line("<Type>EFI</Type>"))));
                x.push_str(&part(2, &(line("<Size>16</Size>") + &line("<Type>MSR</Type>"))));
                x.push_str(&part(3, &(line("<Extend>true</Extend>") + &line("<Type>Primary</Type>"))));
                x.push_str("                    </CreatePartitions>\n                    <ModifyPartitions>\n");
                x.push_str(&modp(1, &(line("<Format>FAT32</Format>") + &line("<Label>System</Label>"))));
                x.push_str(&modp(2, ""));
                x.push_str(&modp(3, &(line("<Format>NTFS</Format>") + &line("<Label>Windows</Label>") + &line("<Letter>C</Letter>"))));
            }
            BootMode::BIOS => {
                x.push_str(&part(1, &(line("<Size>100</Size>") + &line("<Type>Primary</Type>"))));
                x.push_str(&part(2, &(line("<Extend>true</Extend>") + &line("<Type>Primary</Type>"))));
                x.push_str("                    </CreatePartitions>\n                    <ModifyPartitions>\n");
                x.push_str(&modp(1, &(line("<Active>true</Active>") + &line("<Format>NTFS</Format>") + &line("<Label>System Reserved</Label>"))));
                x.push_str(&modp(2, &(line("<Format>NTFS</Format>") + &line("<Label>Windows</Label>") + &line("<Letter>C</Letter>"))));
            }
        }
        x.push_str("                    </ModifyPartitions>\n");
        x.push_str("                </Disk>\n            </DiskConfiguration>\n");
    }
    if !c.edition.is_empty() {
        x.push_str("            <ImageInstall>\n                <OSImage>\n");
        if c.disk_id >= 0 {
            let p = match c.boot_mode { BootMode::UEFI => "3", BootMode::BIOS => "2" };
            x.push_str(&format!("                    <InstallTo>\n                        <DiskID>{}</DiskID>\n                        <PartitionID>{}</PartitionID>\n                    </InstallTo>\n", c.disk_id, p));
        }
        x.push_str(&format!("                    <InstallFrom>\n                        <MetaData wcm:action=\"add\">\n                            <Key>/IMAGE/NAME</Key>\n                            <Value>{}</Value>\n                        </MetaData>\n                    </InstallFrom>\n                </OSImage>\n            </ImageInstall>\n", esc(&c.edition)));
    }
    x.push_str("            <UserData>\n                <AcceptEula>true</AcceptEula>\n");
    if !key.is_empty() {
        x.push_str(&format!("                <ProductKey>\n                    <Key>{}</Key>\n                </ProductKey>\n", esc(key)));
    }
    x.push_str("            </UserData>\n        </component>\n    </settings>\n");
    x.push_str("    <settings pass=\"specialize\">\n");
    x.push_str(&format!("        <component name=\"Microsoft-Windows-Shell-Setup\"{ATTRS}\n"));
    x.push_str(&format!("            <ComputerName>{}</ComputerName>\n            <TimeZone>{}</TimeZone>\n", esc(&c.computer_name), esc(&c.timezone)));
    if !c.organization.is_empty() {
        x.push_str(&format!("            <RegisteredOrganization>{}</RegisteredOrganization>\n", esc(&c.organization)));
    }
    if !c.owner_name.is_empty() {
        x.push_str(&format!("            <RegisteredOwner>{}</RegisteredOwner>\n", esc(&c.owner_name)));
    }
    x.push_str("        </component>\n");
    if c.prevent_device_encryption {
        x.push_str(&format!("        <component name=\"Microsoft-Windows-SecureStartup-FilterDriver\"{ATTRS}\n            <PreventDeviceEncryption>true</PreventDeviceEncryption>\n        </component>\n"));
    }
    x.push_str("    </settings>\n    <settings pass=\"oobeSystem\">\n");
    x.push_str(&format!("        <component name=\"Microsoft-Windows-Shell-Setup\"{ATTRS}\n"));
    if c.enable_autologon && !c.user_name.is_empty() {
        x.push_str(&format!("            <AutoLogon>\n                <Enabled>true</Enabled>\n                <LogonCount>1</LogonCount>\n                <Username>{}</Username>\n", esc(&c.user_name)));
        if !c.user_password.is_empty() {
            x.push_str(&format!("                <Password>\n                    <Value>{}</Value>\n                    <PlainText>true</PlainText>\n                </Password>\n", esc(&c.user_password)));
        }
        x.push_str("            </AutoLogon>\n");
    }
    if !c.user_name.is_empty() {
        x.push_str(&format!("            <UserAccounts>\n                <LocalAccounts>\n                    <LocalAccount wcm:action=\"add\">\n                        <Name>{}</Name>\n", esc(&c.user_name)));
        if !c.user_display_name.is_empty() {
            x.push_str(&format!("                        <DisplayName>{}</DisplayName>\n", esc(&c.user_display_name)));
        }
        x.push_str(&format!("                        <Group>{}</Group>\n", if c.user_is_admin { "Administrators" } else { "Users" }));
        if !c.user_password.is_empty() {
            x.push_str(&format!("                        <Password>\n                            <Value>{}</Value>\n                            <PlainText>true</PlainText>\n                        </Password>\n", esc(&c.user_password)));
        }
        x.push_str("                    </LocalAccount>\n                </LocalAccounts>\n            </UserAccounts>\n");
    }
    x.push_str("            <OOBE>\n");
    if c.skip_eula {
        x.push_str("                <HideEULAPage>true</HideEULAPage>\n");
    }
    if c.skip_oobe {
        x.push_str("                <HideOEMRegistrationScreen>true</HideOEMRegistrationScreen>\n                <HideOnlineAccountScreens>true</HideOnlineAccountScreens>\n                <HideWirelessSetupInOOBE>true</HideWirelessSetupInOOBE>\n                <SkipMachineOOBE>true</SkipMachineOOBE>\n                <SkipUserOOBE>true</SkipUserOOBE>\n");
    }
    if c.skip_network {
        x.push_str("                <HideWirelessSetupInOOBE>true</HideWirelessSetupInOOBE>\n");
    }
    x.push_str("                <ProtectYourPC>3</ProtectYourPC>\n                <NetworkLocation>Work</NetworkLocation>\n            </OOBE>\n");
    let fl = expected_commands(&first_logon_command_list(c, scripts));
    x.push_str("            <FirstLogonCommands>\n");
    x.push_str(&fl);
    x.push_str("            </FirstLogonCommands>\n");
    x.push_str("        </component>\n");
    x.push_str(&format!("        <component name=\"Microsoft-Windows-International-Core\"{ATTRS}\n"));
    x.push_str(&locale);
    x.push_str("        </component>\n    </settings>\n</unattend>\n");
    x
}

#[test]
fn escape_xml_replaces_the_five_characters() {
    assert_eq!(escape_xml(r#"a&b<c>d"e'f"#), "a&amp;b&lt;c&gt;d&quot;e&apos;f");
    assert_eq!(escape_xml("plain"), "plain");
    assert_eq!(escape_xml("&amp;"), "&amp;amp;");
}

#[test]
fn generic_keys_match_without_regard_to_case() {
    assert_eq!(get_generic_key("Windows 11 Pro"), Some("VK7JG-NPHTM-C97JM-9MPGT-3V66T"));
    assert_eq!(get_generic_key("WINDOWS 11 PRO"), Some("VK7JG-NPHTM-C97JM-9MPGT-3V66T"));
    assert_eq!(get_generic_key("Windows 10 Home"), Some("YTMG3-N6DKC-DKB77-7M9GH-8HVX7"));
    assert_eq!(get_generic_key("pro"), Some("VK7JG-NPHTM-C97JM-9MPGT-3V66T"));
    assert_eq!(get_generic_key("Windows 11 Ultimate"), None);
    assert_eq!(get_generic_key(""), None);
}

#[test]
fn default_config_answer_file_is_exact() {
    let c = DeployConfig::default();
    assert_eq!(generate_autounattend(&c, false), expected_xml(&c, "", false));
    assert_eq!(generate_autounattend(&c, true), expected_xml(&c, "", true));
}

#[test]
fn answer_file_with_disk_edition_and_user_key() {
    let mut c = DeployConfig::default();
    c.disk_id = 2;
    c.edition = "Windows 11 Pro".to_string();
    c.product_key = "AAAAA-BBBBB-CCCCC-DDDDD-EEEEE".to_string();
    c.organization = "R&D <Lab>".to_string();
    c.owner_name = "O'Neil".to_string();
    c.user_password = "p\"w".to_string();
    let xml = generate_autounattend(&c, false);
    assert_eq!(xml, expected_xml(&c, "AAAAA-BBBBB-CCCCC-DDDDD-EEEEE", false));
    assert!(xml.contains("<PartitionID>3</PartitionID>"));
    assert!(xml.contains("<RegisteredOrganization>R&amp;D &lt;Lab&gt;</RegisteredOrganization>"));

    c.boot_mode = BootMode::BIOS;
    c.product_key.clear();
    let xml = generate_autounattend(&c, false);
    assert_eq!(xml, expected_xml(&c, "VK7JG-NPHTM-C97JM-9MPGT-3V66T", false));
    assert!(xml.contains("<Label>System Reserved</Label>"));
}

#[test]
fn answer_file_without_key_or_user() {
    let mut c = DeployConfig::default();
    c.edition = "Windows 11 Mystery".to_string();
    c.user_name.clear();
    c.prevent_device_encryption = false;
    let xml = generate_autounattend(&c, false);
    assert_eq!(xml, expected_xml(&c, "", false));
    assert!(!xml.contains("<ProductKey>"));
    assert!(!xml.contains("<UserAccounts>"));
    assert_eq!(render_autounattend(&c, "K", false), expected_xml(&c, "K", false));
}

#[test]
fn default_first_logon_commands() {
    let c = DeployConfig::default();
    let list = first_logon_command_list(&c, false);
    assert_eq!(list.len(), 23);
    let with_scripts = first_logon_command_list(&c, true);
    assert_eq!(with_scripts.len(), 24);
    match with_scripts.last().unwrap() {
        LogonCommand::Raw { description, command } => {
            assert_eq!(description, "Run MasterBooter post-install scripts");
            assert_eq!(command, r#"cmd /c "C:\Temp\MasterBooter\RunAll.bat""#);
        }
        _ => panic!("expected the scripts command last"),
    }
    let text = build_first_logon_commands(&c, false);
    assert!(text.contains("<Order>1</Order>"));
    assert!(text.contains("<Order>23</Order>"));
    assert!(!text.contains("<Order>24</Order>"));
    assert!(text.contains("<CommandLine>net accounts /maxpwage:unlimited</CommandLine>"));
    assert!(text.contains("/v SearchboxTaskbarMode /t REG_DWORD /d 2 /f"));
    assert!(text.contains("group=&amp;quot;Remote Desktop&amp;quot;"));
    assert_eq!(text, expected_commands(&list));
}

#[test]
fn minimal_config_keeps_the_password_command() {
    let mut c = DeployConfig::default();
    c.disable_telemetry = false;
    c.disable_location = false;
    c.disable_ads = false;
    c.disable_suggested_apps = false;
    c.disable_bing_search = false;
    c.enable_rdp = false;
    c.disable_bitlocker = false;
    c.disable_fast_startup = false;
    c.high_performance = false;
    c.show_file_extensions = false;
    c.classic_context_menu = false;
    c.taskbar_search_mode = 0;
    c.hide_task_view = false;
    c.hide_widgets = false;
    c.disable_cortana = false;
    c.disable_teams = false;
    c.disable_copilot = false;
    c.disable_widgets_service = false;
    let text = build_first_logon_commands(&c, false);
    assert_eq!(
        text,
        cmd(1, "net accounts /maxpwage:unlimited", "Set password to never expire")
    );
}

#[test]
fn domain_join_doubles_quotes() {
    let mut c = DeployConfig::default();
    c.join_domain = true;
    c.domain_name = "corp.local".to_string();
    c.domain_username = "o'brien".to_string();
    c.domain_password = "it's".to_string();
    let list = first_logon_command_list(&c, false);
    let ps = list.iter().find_map(|x| match x {
        LogonCommand::PowerShell { command, .. } => Some(command.clone()),
        _ => None,
    });
    assert_eq!(
        ps.unwrap(),
        "Add-Computer -DomainName 'corp.local' -Credential (New-Object PSCredential('o''brien', (ConvertTo-SecureString 'it''s' -AsPlainText -Force))) -Restart -Force"
    );
    let text = build_first_logon_commands(&c, false);
    assert!(text.contains("powershell -ExecutionPolicy Bypass -NoProfile -Command &quot;Add-Computer -DomainName &apos;corp.local&apos;"));

    c.domain_name.clear();
    assert!(!first_logon_command_list(&c, false)
        .iter()
        .any(|x| matches!(x, LogonCommand::PowerShell { .. })));
}

#[test]
fn edition_and_disk_sizes() {
    let e = WimEdition { index: 1, name: "Windows 11 Pro".to_string(), size_bytes: 4_831_838_208 };
    assert_eq!(e.size_display(), format!("{:.1} GB", 4_831_838_208f64 / 1_073_741_824.0));
    let small = WimEdition { index: 2, name: "x".to_string(), size_bytes: 524_288_000 };
    assert_eq!(small.size_display(), "500 MB");
    let d = DiskInfo {
        number: 0,
        friendly_name: "Samsung SSD".to_string(),
        size_bytes: 500_107_862_016,
        partition_style: "GPT".to_string(),
        is_system_disk: true,
    };
    assert_eq!(d.size_display(), format!("{:.0} GB", 500_107_862_016f64 / 1_073_741_824.0));
    assert_eq!(d.display_string(), format!("Disk 0: Samsung SSD ({}, GPT) [SYSTEM]", d.size_display()));
    let big = DiskInfo { size_bytes: 2_199_023_255_552, is_system_disk: false, ..d };
    assert_eq!(big.size_display(), "2.0 TB");
}

#[test]
fn boot_mode_default_and_name() {
    assert_eq!(BootMode::default(), BootMode::UEFI);
    assert_eq!(BootMode::BIOS.as_str(), "BIOS");
}

#[test]
fn sizes_match_float_formatting() {
    let values: Vec<u64> = vec![
        0, 1, 524_287, 524_288, 1_048_575, 1_048_576, 1_073_741_823, 1_073_741_824,
        1_610_612_736, 4_831_838_208, 16_123_456_789, 536_870_911_999, 1_099_511_627_775,
        1_099_511_627_776, 1_649_267_441_664, 2_000_398_934_016, 9_007_199_254_740_993,
        u64::MAX,
    ];
    for b in values {
        let e = WimEdition { index: 1, name: String::new(), size_bytes: b };
        let gb = b as f64 / 1_073_741_824.0;
        let expected = if gb >= 1.0 {
            format!("{:.1} GB", gb)
        } else {
            format!("{:.0} MB", b as f64 / 1_048_576.0)
        };
        assert_eq!(e.size_display(), expected, "edition bytes = {}", b);
        let d = DiskInfo {
            number: 1,
            friendly_name: String::new(),
            size_bytes: b,
            partition_style: String::new(),
            is_system_disk: false,
        };
        let expected = if gb >= 1024.0 {
            format!("{:.1} TB", gb / 1024.0)
        } else {
            format!("{:.0} GB", gb)
        };
        assert_eq!(d.size_display(), expected, "disk bytes = {}", b);
    }
}

#[test]
fn escaped_text_decodes_back_one_entity_kind_at_a_time() {
    for s in ["&lt;", "a&b<c>d\"e'f", "&amp;amp;", "<<&>>", "plain", ""] {
        let e = escape_xml(s);
        assert!(!e.contains('<') && !e.contains('>') && !e.contains('"') && !e.contains('\''));
        let back = e
            .replace("&lt;", "<")
            .replace("&gt;", ">")
            .replace("&quot;", "\"")
            .replace("&apos;", "'")
            .replace("&amp;", "&");
        assert_eq!(back, s);
    }
}

#[test]
fn executable_path_lies_in_the_tool_folder() {
    for t in masterbooter::tools::get_all_tools() {
        let exe = masterbooter::tools::get_executable_path(r"C:\MB", &t);
        let folder = masterbooter::tools::get_tool_path(r"C:\MB", &t);
        assert_eq!(exe.rsplit_once('\\').map(|(dir, _)| dir.to_string()), Some(folder));
    }
}
