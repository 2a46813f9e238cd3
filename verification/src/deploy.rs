//! Windows deployment: the configuration and its defaults, generic product
//! keys, disk and image descriptions, and the readers for the output of
//! DISM, PowerShell and diskpart.

use vstd::prelude::*;
use crate::units::{push_scaled, scaled_text};
use crate::text::{
    decimal, push_decimal,
    chars_equal_lit, push_str, skip_chars, starts_with, starts_with_exec, to_chars, to_lowercase,
    unicode_lowercase,
};

verus! {

/// Boot mode for the installation: UEFI (GPT) or BIOS (MBR).
#[derive(Debug, Clone, Copy, PartialEq, Eq, Structural)]
pub enum BootMode {
    UEFI,
    BIOS,
}

impl BootMode {
    /// The mode's name, "UEFI" or "BIOS".
    pub fn as_str(&self) -> (r: &'static str)
        ensures
            r@ == (match self {
                BootMode::UEFI => "UEFI"@,
                BootMode::BIOS => "BIOS"@,
            }),
    {
        match self {
            BootMode::UEFI => "UEFI",
            BootMode::BIOS => "BIOS",
        }
    }
}

impl Default for BootMode {
    /// UEFI: what the firmware reports in WinPE, what an EFI folder means,
    /// and the fallback for modern machines all lead to it.
    fn default() -> (r: Self)
        ensures
            r == BootMode::UEFI,
    {
        BootMode::UEFI
    }
}

// ---------------------------------------------------------------------------
// Generic product keys (edition selectors, not activation keys)
// ---------------------------------------------------------------------------

/// Lowercase edition names and the generic keys that select them.
pub open spec fn generic_keys() -> Seq<(Seq<char>, Seq<char>)> {
    seq![
        ("home"@, "YTMG3-N6DKC-DKB77-7M9GH-8HVX7"@),
        ("home n"@, "4CPRK-NM3K3-X6XXQ-RXX86-WXCHW"@),
        ("home single language"@, "BT79Q-G7N6G-PGBYW-4YWX6-6F4BT"@),
        ("pro"@, "VK7JG-NPHTM-C97JM-9MPGT-3V66T"@),
        ("pro n"@, "2B87N-8KFHP-DKV6R-Y2C8J-PKCKT"@),
        ("pro education"@, "8PTT6-RNW4C-6V7J2-C2D3X-MHBPB"@),
        ("pro education n"@, "GJTYN-HDMQY-FRR76-HVGC7-QPF8P"@),
        ("pro for workstations"@, "DXG7C-N36C4-C4HTG-X4T3X-2YV77"@),
        ("pro n for workstations"@, "WYPNQ-8C467-V2W6J-TX4WX-WT2RQ"@),
        ("education"@, "YNMGQ-8RYV3-4PGQ3-C8XTP-7CFBY"@),
        ("education n"@, "84NGF-MHBT6-FXBX8-QWJK7-DRR8H"@),
        ("enterprise"@, "XGVPP-NMH47-7TTHJ-W3FW7-8HV2C"@),
        ("enterprise n"@, "WGGHN-J84D6-QYCPR-T7PJ7-X766F"@),
    ]
}

fn generic_key_table() -> (r: Vec<(&'static str, &'static str)>)
    ensures
        r@.map_values(|e: (&'static str, &'static str)| (e.0@, e.1@)) == generic_keys(),
{
    let r = vec![
        ("home", "YTMG3-N6DKC-DKB77-7M9GH-8HVX7"),
        ("home n", "4CPRK-NM3K3-X6XXQ-RXX86-WXCHW"),
        ("home single language", "BT79Q-G7N6G-PGBYW-4YWX6-6F4BT"),
        ("pro", "VK7JG-NPHTM-C97JM-9MPGT-3V66T"),
        ("pro n", "2B87N-8KFHP-DKV6R-Y2C8J-PKCKT"),
        ("pro education", "8PTT6-RNW4C-6V7J2-C2D3X-MHBPB"),
        ("pro education n", "GJTYN-HDMQY-FRR76-HVGC7-QPF8P"),
        ("pro for workstations", "DXG7C-N36C4-C4HTG-X4T3X-2YV77"),
        ("pro n for workstations", "WYPNQ-8C467-V2W6J-TX4WX-WT2RQ"),
        ("education", "YNMGQ-8RYV3-4PGQ3-C8XTP-7CFBY"),
        ("education n", "84NGF-MHBT6-FXBX8-QWJK7-DRR8H"),
        ("enterprise", "XGVPP-NMH47-7TTHJ-W3FW7-8HV2C"),
        ("enterprise n", "WGGHN-J84D6-QYCPR-T7PJ7-X766F"),
    ];
    proof {
        assert(r@.map_values(|e: (&'static str, &'static str)| (e.0@, e.1@)) =~= generic_keys());
    }
    r
}

/// The lowercase edition name with a leading "windows 11 ", "windows 10 " or
/// "windows " removed (the first that applies).
pub open spec fn edition_part(lower: Seq<char>) -> Seq<char> {
    if starts_with(lower, "windows 11 "@) {
        lower.skip(11)
    } else if starts_with(lower, "windows 10 "@) {
        lower.skip(11)
    } else if starts_with(lower, "windows "@) {
        lower.skip(8)
    } else {
        lower
    }
}

/// The key of the first table entry at or after `i` named `edition`.
pub open spec fn key_from(t: Seq<(Seq<char>, Seq<char>)>, edition: Seq<char>, i: int) -> Option<
    Seq<char>,
>
    decreases t.len() - i,
{
    if i < 0 || i >= t.len() {
        None
    } else if t[i].0 == edition {
        Some(t[i].1)
    } else {
        key_from(t, edition, i + 1)
    }
}

/// The generic key for an already lowercased edition name.
pub open spec fn generic_key_lower(lower: Seq<char>) -> Option<Seq<char>> {
    key_from(generic_keys(), edition_part(lower), 0)
}

/// The generic key for an edition name as DISM reports it, matched without
/// regard to case after the "Windows 10/11" prefix.
pub open spec fn generic_key_for(edition_name: Seq<char>) -> Option<Seq<char>> {
    generic_key_lower(unicode_lowercase(edition_name))
}

/// The key of the table entry at `i` is found from `j` on when no entry
/// between `j` and `i` has its name.
proof fn lemma_key_from_finds(t: Seq<(Seq<char>, Seq<char>)>, j: int, i: int)
    requires
        0 <= j <= i < t.len(),
        forall|k: int| j <= k < i ==> t[k].0 != t[i].0,
    ensures
        key_from(t, t[i].0, j) == Some(t[i].1),
    decreases i - j,
{
    if j < i {
        lemma_key_from_finds(t, j + 1, i);
    }
}

/// No two table entries share a name.
proof fn lemma_generic_key_names_distinct()
    ensures
        forall|k: int, i: int|
            0 <= k < i < generic_keys().len() ==> generic_keys()[k].0 != generic_keys()[i].0,
{
    reveal_strlit("home");
    reveal_strlit("home n");
    reveal_strlit("home single language");
    reveal_strlit("pro");
    reveal_strlit("pro n");
    reveal_strlit("pro education");
    reveal_strlit("pro education n");
    reveal_strlit("pro for workstations");
    reveal_strlit("pro n for workstations");
    reveal_strlit("education");
    reveal_strlit("education n");
    reveal_strlit("enterprise");
    reveal_strlit("enterprise n");
    assert(generic_keys()[0].0.len() == 4);
    assert(generic_keys()[1].0.len() == 6);
    assert(generic_keys()[2].0.len() == 20);
    assert(generic_keys()[3].0.len() == 3);
    assert(generic_keys()[4].0.len() == 5);
    assert(generic_keys()[5].0.len() == 13);
    assert(generic_keys()[6].0.len() == 15);
    assert(generic_keys()[7].0.len() == 20);
    assert(generic_keys()[8].0.len() == 22);
    assert(generic_keys()[9].0.len() == 9);
    assert(generic_keys()[10].0.len() == 11);
    assert(generic_keys()[11].0.len() == 10);
    assert(generic_keys()[12].0.len() == 12);
    assert(generic_keys()[2].0[0] != generic_keys()[7].0[0]);
}

/// Each edition of the table, named as DISM names it ("Windows 11 <name>",
/// "Windows 10 <name>") or bare, gets exactly its own key: an edition whose
/// name begins with another's (Pro Education and Pro, Home N and Home) is
/// not taken for that other one.
pub proof fn lemma_generic_key_exact(i: int)
    requires
        0 <= i < generic_keys().len(),
    ensures
        generic_key_lower("windows 11 "@ + generic_keys()[i].0) == Some(generic_keys()[i].1),
        generic_key_lower("windows 10 "@ + generic_keys()[i].0) == Some(generic_keys()[i].1),
        generic_key_lower(generic_keys()[i].0) == Some(generic_keys()[i].1),
{
    lemma_generic_key_names_distinct();
    lemma_key_from_finds(generic_keys(), 0, i);
    reveal_strlit("windows 11 ");
    reveal_strlit("windows 10 ");
    reveal_strlit("windows ");
    reveal_strlit("home");
    reveal_strlit("home n");
    reveal_strlit("home single language");
    reveal_strlit("pro");
    reveal_strlit("pro n");
    reveal_strlit("pro education");
    reveal_strlit("pro education n");
    reveal_strlit("pro for workstations");
    reveal_strlit("pro n for workstations");
    reveal_strlit("education");
    reveal_strlit("education n");
    reveal_strlit("enterprise");
    reveal_strlit("enterprise n");
    let n = generic_keys()[i].0;
    let a = "windows 11 "@ + n;
    assert(a.take(11) =~= "windows 11 "@);
    assert(a.skip(11) =~= n);
    let b = "windows 10 "@ + n;
    assert(b.take(11) =~= "windows 10 "@);
    assert(!starts_with(b, "windows 11 "@)) by {
        if starts_with(b, "windows 11 "@) {
            assert(b.take(11)[9] == "windows 11 "@[9]);
        }
    }
    assert(b.skip(11) =~= n);
    assert(!starts_with(n, "windows "@)) by {
        if starts_with(n, "windows "@) {
            assert(n.take(8)[0] == 'w');
            assert(n[0] == 'w');
        }
    }
    assert(!starts_with(n, "windows 11 "@)) by {
        if starts_with(n, "windows 11 "@) {
            assert(n.take(11)[0] == 'w');
            assert(n[0] == 'w');
        }
    }
    assert(!starts_with(n, "windows 10 "@)) by {
        if starts_with(n, "windows 10 "@) {
            assert(n.take(11)[0] == 'w');
            assert(n[0] == 'w');
        }
    }
}

/// A key is only ever given for an edition whose name, after the
/// "Windows 10/11" prefix, is exactly a table entry's name, and it is that
/// entry's key.
pub proof fn lemma_generic_key_sound(lower: Seq<char>)
    ensures
        generic_key_lower(lower) matches Some(k) ==> exists|i: int|
            0 <= i < generic_keys().len() && #[trigger] generic_keys()[i].0 == edition_part(lower)
                && generic_keys()[i].1 == k,
{
    lemma_key_from_sound(generic_keys(), edition_part(lower), 0);
}

proof fn lemma_key_from_sound(t: Seq<(Seq<char>, Seq<char>)>, e: Seq<char>, j: int)
    ensures
        key_from(t, e, j) matches Some(k) ==> exists|i: int|
            0 <= i < t.len() && #[trigger] t[i].0 == e && t[i].1 == k,
    decreases t.len() - j,
{
    if 0 <= j < t.len() && t[j].0 != e {
        lemma_key_from_sound(t, e, j + 1);
    }
}

/// The generic key for a lowercased edition name (e.g. "windows 11 pro").
pub fn generic_key_for_lowercase(lower: &str) -> (r: Option<&'static str>)
    ensures
        match generic_key_lower(lower@) {
            Some(k) => r matches Some(s) && s@ == k,
            None => r is None,
        },
{
    proof {
        reveal_strlit("windows 11 ");
        reveal_strlit("windows 10 ");
        reveal_strlit("windows ");
    }
    let l = to_chars(lower);
    let edition: Vec<char> = if starts_with_exec(l.as_slice(), to_chars("windows 11 ").as_slice()) {
        skip_chars(l.as_slice(), 11)
    } else if starts_with_exec(l.as_slice(), to_chars("windows 10 ").as_slice()) {
        skip_chars(l.as_slice(), 11)
    } else if starts_with_exec(l.as_slice(), to_chars("windows ").as_slice()) {
        skip_chars(l.as_slice(), 8)
    } else {
        l
    };
    proof {
        assert(edition@ == edition_part(lower@));
    }
    let table = generic_key_table();
    let ghost t = generic_keys();
    let mut i: usize = 0;
    while i < table.len()
        invariant
            i <= table@.len(),
            t == table@.map_values(|e: (&'static str, &'static str)| (e.0@, e.1@)),
            t == generic_keys(),
            edition@ == edition_part(lower@),
            key_from(t, edition@, 0) == key_from(t, edition@, i as int),
        decreases table@.len() - i,
    {
        let (name, key) = table[i];
        proof {
            assert(t[i as int] == (name@, key@));
        }
        if chars_equal_lit(edition.as_slice(), name) {
            return Some(key);
        }
        i = i + 1;
    }
    None
}

/// Looks up the generic product key for a Windows edition name as DISM
/// reports it (e.g. "Windows 11 Pro"); `None` for an unknown edition.
pub fn get_generic_key(edition_name: &str) -> (r: Option<&'static str>)
    ensures
        match generic_key_for(edition_name@) {
            Some(k) => r matches Some(s) && s@ == k,
            None => r is None,
        },
{
    let lower = to_lowercase(edition_name);
    generic_key_for_lowercase(lower.as_str())
}

} // verus!

verus! {

// ---------------------------------------------------------------------------
// Editions and disks
// ---------------------------------------------------------------------------

/// A Windows edition found in a WIM or ESD file.
#[derive(Debug, Clone)]
pub struct WimEdition {
    /// WIM image index (1-based).
    pub index: u32,
    /// Edition name, e.g. "Windows 11 Pro".
    pub name: String,
    /// Uncompressed size in bytes.
    pub size_bytes: u64,
}

/// An edition's size: gigabytes with one decimal from 1 GiB up, whole
/// megabytes below.
pub open spec fn edition_size_text(b: nat) -> Seq<char> {
    if b >= 1073741824 {
        scaled_text(b, 1073741824, true) + " GB"@
    } else {
        scaled_text(b, 1048576, false) + " MB"@
    }
}

impl WimEdition {
    /// A readable size, e.g. "4.5 GB".
    pub fn size_display(&self) -> (r: String)
        ensures
            r@ == edition_size_text(self.size_bytes as nat),
    {
        let mut s = String::new();
        if self.size_bytes >= 1073741824 {
            push_scaled(&mut s, self.size_bytes, 1073741824, true);
            push_str(&mut s, " GB");
        } else {
            push_scaled(&mut s, self.size_bytes, 1048576, false);
            push_str(&mut s, " MB");
        }
        s
    }
}

/// A physical disk.
#[derive(Debug, Clone)]
pub struct DiskInfo {
    /// Disk number, as diskpart's "select disk N" takes it.
    pub number: u32,
    /// Friendly name, e.g. "Samsung SSD 960 EVO".
    pub friendly_name: String,
    /// Total size in bytes.
    pub size_bytes: u64,
    /// "GPT" or "MBR".
    pub partition_style: String,
    /// The disk holding C: (or disk 0 when that is unknown).
    pub is_system_disk: bool,
}

/// A disk's size: terabytes with one decimal from 1 TiB up, whole
/// gigabytes below.
pub open spec fn disk_size_text(b: nat) -> Seq<char> {
    if b >= 1099511627776 {
        scaled_text(b, 1099511627776, true) + " TB"@
    } else {
        scaled_text(b, 1073741824, false) + " GB"@
    }
}

/// "Disk N: name (size, style)", followed by " [SYSTEM]" for the system disk.
pub open spec fn disk_line(d: DiskInfo) -> Seq<char> {
    "Disk "@ + decimal(d.number as nat) + ": "@ + d.friendly_name@ + " ("@ + disk_size_text(
        d.size_bytes as nat,
    ) + ", "@ + d.partition_style@ + ")"@ + if d.is_system_disk {
        " [SYSTEM]"@
    } else {
        ""@
    }
}

impl DiskInfo {
    /// A readable size, e.g. "500 GB" or "1.5 TB".
    pub fn size_display(&self) -> (r: String)
        ensures
            r@ == disk_size_text(self.size_bytes as nat),
    {
        let mut s = String::new();
        if self.size_bytes >= 1099511627776 {
            push_scaled(&mut s, self.size_bytes, 1099511627776, true);
            push_str(&mut s, " TB");
        } else {
            push_scaled(&mut s, self.size_bytes, 1073741824, false);
            push_str(&mut s, " GB");
        }
        s
    }

    /// The line shown for the disk, e.g. "Disk 0: Samsung SSD (500 GB, GPT)".
    pub fn display_string(&self) -> (r: String)
        ensures
            r@ == disk_line(*self),
    {
        let mut s = String::new();
        push_str(&mut s, "Disk ");
        push_decimal(&mut s, self.number as u64);
        push_str(&mut s, ": ");
        push_str(&mut s, self.friendly_name.as_str());
        push_str(&mut s, " (");
        let size = self.size_display();
        push_str(&mut s, size.as_str());
        push_str(&mut s, ", ");
        push_str(&mut s, self.partition_style.as_str());
        push_str(&mut s, ")");
        if self.is_system_disk {
            push_str(&mut s, " [SYSTEM]");
        } else {
            push_str(&mut s, "");
        }
        proof {
            assert(s@ =~= disk_line(*self));
        }
        s
    }
}

} // verus!

verus! {

// ---------------------------------------------------------------------------
// Deployment configuration
// ---------------------------------------------------------------------------

/// All deployment settings, one field per setting in the interface.
#[derive(Debug, Clone)]
pub struct DeployConfig {
    /// Path to install.wim or install.esd (or ISO to mount)
    pub wim_path: String,
    /// Selected edition name (e.g., "Windows 11 Pro")
    pub edition: String,
    /// Selected edition index in the WIM (1-based)
    pub edition_index: u32,
    /// Computer name (max 15 chars, or "*" for auto-generate)
    pub computer_name: String,
    /// Windows timezone identifier (e.g., "Eastern Standard Time")
    pub timezone: String,
    /// Language/locale code (e.g., "en-US")
    pub language: String,
    /// Boot mode: UEFI (GPT) or BIOS (MBR)
    pub boot_mode: BootMode,
    /// Target disk number (-1 = let Windows choose/prompt)
    pub disk_id: i32,
    /// Enable Windows 11 hardware requirements bypass
    pub bypass_win11: bool,
    /// Username for the new account (e.g., "Admin")
    pub user_name: String,
    /// Password for the new account (empty = no password)
    pub user_password: String,
    /// Display name shown on login screen
    pub user_display_name: String,
    /// Whether the user should be an Administrator (true) or standard User (false)
    pub user_is_admin: bool,
    /// Automatically log in as this user after setup
    pub enable_autologon: bool,
    /// Skip the entire Out-of-Box Experience
    pub skip_oobe: bool,
    /// Skip the EULA acceptance screen
    pub skip_eula: bool,
    /// Skip network configuration (offline install)
    pub skip_network: bool,
    /// Windows product key (leave empty to skip)
    pub product_key: String,
    /// Organization name for Windows registration
    pub organization: String,
    /// Owner name for Windows registration
    pub owner_name: String,
    /// Disable telemetry and diagnostic data collection
    pub disable_telemetry: bool,
    /// Disable location history tracking
    pub disable_location: bool,
    /// Disable personalized advertising ID
    pub disable_ads: bool,
    /// Disable suggested apps and Content Delivery Manager
    pub disable_suggested_apps: bool,
    /// Disable Bing search results in Start menu
    pub disable_bing_search: bool,
    /// Disable Windows SmartScreen filter
    pub disable_smartscreen: bool,
    /// Enable Remote Desktop (RDP) for remote access
    pub enable_rdp: bool,
    /// Disable User Account Control prompts (not recommended)
    pub disable_uac: bool,
    /// Disable Windows Defender antivirus (not recommended)
    pub disable_defender: bool,
    /// Disable Windows Firewall (not recommended)
    pub disable_firewall: bool,
    /// Disable Core Isolation / Virtualization-Based Security
    pub disable_vbs: bool,
    /// Disable automatic BitLocker device encryption
    pub disable_bitlocker: bool,
    /// Disable Fast Startup (forces clean cold boot every time)
    pub disable_fast_startup: bool,
    /// Enable High Performance power plan
    pub high_performance: bool,
    /// Disable System Restore (saves disk space)
    pub disable_system_restore: bool,
    /// Show file extensions in Explorer (e.g., "document.docx" instead of "document")
    pub show_file_extensions: bool,
    /// Show hidden files and folders in Explorer
    pub show_hidden_files: bool,
    /// Use classic right-click context menu on Windows 11
    pub classic_context_menu: bool,
    /// Taskbar search display mode: 0=show box, 1=icon only, 2=hidden
    pub taskbar_search_mode: u8,
    /// Hide the Task View button on the taskbar
    pub hide_task_view: bool,
    /// Hide the Widgets button on the taskbar (Windows 11)
    pub hide_widgets: bool,
    /// Left-align the taskbar instead of centered (Windows 11)
    pub taskbar_left_align: bool,
    /// Disable Cortana
    pub disable_cortana: bool,
    /// Disable OneDrive auto-install
    pub disable_onedrive: bool,
    /// Disable Teams chat icon
    pub disable_teams: bool,
    /// Disable Copilot AI assistant
    pub disable_copilot: bool,
    /// Disable Widgets service
    pub disable_widgets_service: bool,
    /// Join a domain instead of workgroup
    pub join_domain: bool,
    /// Domain name to join (e.g., "contoso.com")
    pub domain_name: String,
    /// Domain join username (e.g., "DOMAIN\\Administrator")
    pub domain_username: String,
    /// Domain join password
    pub domain_password: String,
    /// Workgroup name (used if not joining domain)
    pub workgroup: String,
    /// Prevent automatic device encryption during setup
    pub prevent_device_encryption: bool,
}

impl Default for DeployConfig {
    /// IT-deployment defaults: tracking off, RDP on, protections kept,
    /// common clutter removed, a local "Admin" account, workgroup join.
    fn default() -> (r: Self)
        ensures
            r.wim_path@ == Seq::<char>::empty(),
            r.edition@ == Seq::<char>::empty(),
            r.edition_index == 0,
            r.computer_name@ == "*"@,
            r.timezone@ == "Eastern Standard Time"@,
            r.language@ == "en-US"@,
            r.boot_mode == BootMode::UEFI,
            r.disk_id == -1,
            r.bypass_win11 == true,
            r.user_name@ == "Admin"@,
            r.user_password@ == Seq::<char>::empty(),
            r.user_display_name@ == "Administrator"@,
            r.user_is_admin == true,
            r.enable_autologon == true,
            r.skip_oobe == true,
            r.skip_eula == true,
            r.skip_network == false,
            r.product_key@ == Seq::<char>::empty(),
            r.organization@ == Seq::<char>::empty(),
            r.owner_name@ == Seq::<char>::empty(),
            r.disable_telemetry == true,
            r.disable_location == true,
            r.disable_ads == true,
            r.disable_suggested_apps == true,
            r.disable_bing_search == true,
            r.disable_smartscreen == false,
            r.enable_rdp == true,
            r.disable_uac == false,
            r.disable_defender == false,
            r.disable_firewall == false,
            r.disable_vbs == false,
            r.disable_bitlocker == true,
            r.disable_fast_startup == true,
            r.high_performance == true,
            r.disable_system_restore == false,
            r.show_file_extensions == true,
            r.show_hidden_files == false,
            r.classic_context_menu == true,
            r.taskbar_search_mode == 2,
            r.hide_task_view == true,
            r.hide_widgets == true,
            r.taskbar_left_align == false,
            r.disable_cortana == true,
            r.disable_onedrive == false,
            r.disable_teams == true,
            r.disable_copilot == true,
            r.disable_widgets_service == true,
            r.join_domain == false,
            r.domain_name@ == Seq::<char>::empty(),
            r.domain_username@ == Seq::<char>::empty(),
            r.domain_password@ == Seq::<char>::empty(),
            r.workgroup@ == "WORKGROUP"@,
            r.prevent_device_encryption == true,
    {
        DeployConfig {
            wim_path: String::new(),
            edition: String::new(),
            edition_index: 0,
            computer_name: String::from_str("*"),
            timezone: String::from_str("Eastern Standard Time"),
            language: String::from_str("en-US"),
            boot_mode: BootMode::default(),
            disk_id: -1,
            bypass_win11: true,
            user_name: String::from_str("Admin"),
            user_password: String::new(),
            user_display_name: String::from_str("Administrator"),
            user_is_admin: true,
            enable_autologon: true,
            skip_oobe: true,
            skip_eula: true,
            skip_network: false,
            product_key: String::new(),
            organization: String::new(),
            owner_name: String::new(),
            disable_telemetry: true,
            disable_location: true,
            disable_ads: true,
            disable_suggested_apps: true,
            disable_bing_search: true,
            disable_smartscreen: false,
            enable_rdp: true,
            disable_uac: false,
            disable_defender: false,
            disable_firewall: false,
            disable_vbs: false,
            disable_bitlocker: true,
            disable_fast_startup: true,
            high_performance: true,
            disable_system_restore: false,
            show_file_extensions: true,
            show_hidden_files: false,
            classic_context_menu: true,
            taskbar_search_mode: 2,
            hide_task_view: true,
            hide_widgets: true,
            taskbar_left_align: false,
            disable_cortana: true,
            disable_onedrive: false,
            disable_teams: true,
            disable_copilot: true,
            disable_widgets_service: true,
            join_domain: false,
            domain_name: String::new(),
            domain_username: String::new(),
            domain_password: String::new(),
            workgroup: String::from_str("WORKGROUP"),
            prevent_device_encryption: true,
        }
    }
}

/// The outcome of a deployment run.
#[derive(Debug, Clone)]
pub struct DeployResult {
    /// Whether the deployment completed.
    pub success: bool,
    /// Status or error details.
    pub message: String,
}

/// Detected Windows product keys, as saved next to the program.
#[derive(Debug, Clone)]
pub struct WindowsKeyInfo {
    /// Key embedded in the firmware (may be empty).
    pub oem_key: String,
    /// The installed key, decoded from the registry.
    pub installed_key: String,
    /// Edition, e.g. "Windows 11 Pro".
    pub edition: String,
    /// License status, e.g. "Licensed".
    pub status: String,
    /// The machine's name.
    pub hostname: String,
    /// Date of the backup, e.g. "2026-02-18".
    pub date: String,
}

} // verus!
