//! Third-party tools for backup and system preparation: what they are,
//! where they come from, where they live next to the program, and which of
//! the files unpacked from their downloads are kept.

use vstd::prelude::*;
use crate::scripts::{file_extension, name_extension};
use crate::text::{
    contains, ends_with, eq_ignore_ascii_case, eq_ignore_ascii_case_exec, push_str, starts_with,
    str_contains, str_ends_with, str_equal, str_starts_with, to_lowercase, unicode_lowercase,
};

verus! {

/// How a tool's download is turned into the installed tool.
#[derive(Debug, Clone, Copy, PartialEq, Eq, Structural)]
pub enum DownloadType {
    /// Direct EXE - just save the file
    DirectExe,
    /// ZIP archive - extract EXE files only
    Zip,
    /// MSI installer - extract using msiexec
    Msi,
    /// Self-extracting EXE (like Inno Setup)
    SelfExtractingExe,
}

/// A tool that can be downloaded next to the program.
#[derive(Debug, Clone, Copy)]
pub struct BundledTool {
    /// Unique ID (e.g., "fabs", "profwiz"), also its folder's name
    pub id: &'static str,
    /// Display name for the interface
    pub display_name: &'static str,
    /// Executable filename
    pub executable_name: &'static str,
    /// Description for the interface
    pub description: &'static str,
    /// Download URL (official source)
    pub download_url: &'static str,
    /// How to process the download
    pub download_type: DownloadType,
}

/// A tool's fields as mathematical values.
pub struct ToolView {
    pub id: Seq<char>,
    pub display_name: Seq<char>,
    pub executable_name: Seq<char>,
    pub description: Seq<char>,
    pub download_url: Seq<char>,
    pub download_type: DownloadType,
}

impl View for BundledTool {
    type V = ToolView;

    open spec fn view(&self) -> ToolView {
        ToolView {
            id: self.id@,
            display_name: self.display_name@,
            executable_name: self.executable_name@,
            description: self.description@,
            download_url: self.download_url@,
            download_type: self.download_type,
        }
    }
}

pub open spec fn tool_views(s: Seq<BundledTool>) -> Seq<ToolView> {
    s.map_values(|t: BundledTool| t@)
}

pub open spec fn fabs_autobackup_view() -> ToolView {
    ToolView {
        id: "fabs"@,
        display_name: "Fab's AutoBackup 7 Pro"@,
        executable_name: "AutoBackup7Pro.exe"@,
        description: "Professional user profile backup and restore tool. Activate with your own license."@,
        download_url: "https://download.fpnet.fr/trial/AutoBackup7Pro.exe"@,
        download_type: DownloadType::SelfExtractingExe,
    }
}

pub open spec fn profwiz_view() -> ToolView {
    ToolView {
        id: "profwiz"@,
        display_name: "User Profile Wizard (Personal Edition)"@,
        executable_name: "Profwiz.exe"@,
        description: "Migrate user profiles between domains or computers. Free for personal use."@,
        download_url: "https://www.forensit.com/Downloads/Profwiz.msi"@,
        download_type: DownloadType::Msi,
    }
}

pub open spec fn transwiz_view() -> ToolView {
    ToolView {
        id: "transwiz"@,
        display_name: "Transwiz (Profile Transfer)"@,
        executable_name: "Transwiz.exe"@,
        description: "Transfer user profiles to a new computer. Backup profiles to a file and restore on another PC."@,
        download_url: "https://www.forensit.com/Downloads/Transwiz.msi"@,
        download_type: DownloadType::Msi,
    }
}

pub open spec fn disk2vhd_view() -> ToolView {
    ToolView {
        id: "disk2vhd"@,
        display_name: "Disk2VHD"@,
        executable_name: "disk2vhd64.exe"@,
        description: "Create VHD/VHDX disk images from physical disks."@,
        download_url: "https://download.sysinternals.com/files/Disk2vhd.zip"@,
        download_type: DownloadType::Zip,
    }
}

pub open spec fn hdd_raw_copy_view() -> ToolView {
    ToolView {
        id: "hddrawcopy"@,
        display_name: "HDD Raw Copy Tool"@,
        executable_name: "HDDRawCopy1.20Portable.exe"@,
        description: "Sector-by-sector raw disk copy. Creates exact clones including hidden partitions."@,
        download_url: "https://hddguru.com/software/HDD-Raw-Copy-Tool/HDDRawCopy1.20Portable.exe"@,
        download_type: DownloadType::DirectExe,
    }
}

pub open spec fn sysprep_preparator_view() -> ToolView {
    ToolView {
        id: "sysprepprep"@,
        display_name: "Sysprep Preparator"@,
        executable_name: "SysprepPreparator.exe"@,
        description: "Wizard-based tool to prepare Windows for imaging. Runs compatibility checks, cleanup, and sysprep."@,
        download_url: "https://github.com/CodingWonders/SysprepPreparator/releases/download/DT_25122/SysprepPreparator.zip"@,
        download_type: DownloadType::Zip,
    }
}

/// Fab's AutoBackup 7 Pro: user profile backup.
pub fn fabs_autobackup() -> (r: BundledTool)
    ensures
        r@ == fabs_autobackup_view(),
{
    BundledTool {
        id: "fabs",
        display_name: "Fab's AutoBackup 7 Pro",
        executable_name: "AutoBackup7Pro.exe",
        description: "Professional user profile backup and restore tool. Activate with your own license.",
        download_url: "https://download.fpnet.fr/trial/AutoBackup7Pro.exe",
        download_type: DownloadType::SelfExtractingExe,
    }
}

/// User Profile Wizard: profile migration.
pub fn profwiz() -> (r: BundledTool)
    ensures
        r@ == profwiz_view(),
{
    BundledTool {
        id: "profwiz",
        display_name: "User Profile Wizard (Personal Edition)",
        executable_name: "Profwiz.exe",
        description: "Migrate user profiles between domains or computers. Free for personal use.",
        download_url: "https://www.forensit.com/Downloads/Profwiz.msi",
        download_type: DownloadType::Msi,
    }
}

/// Transwiz: profile transfer.
pub fn transwiz() -> (r: BundledTool)
    ensures
        r@ == transwiz_view(),
{
    BundledTool {
        id: "transwiz",
        display_name: "Transwiz (Profile Transfer)",
        executable_name: "Transwiz.exe",
        description: "Transfer user profiles to a new computer. Backup profiles to a file and restore on another PC.",
        download_url: "https://www.forensit.com/Downloads/Transwiz.msi",
        download_type: DownloadType::Msi,
    }
}

/// Disk2VHD: disk imaging.
pub fn disk2vhd() -> (r: BundledTool)
    ensures
        r@ == disk2vhd_view(),
{
    BundledTool {
        id: "disk2vhd",
        display_name: "Disk2VHD",
        executable_name: "disk2vhd64.exe",
        description: "Create VHD/VHDX disk images from physical disks.",
        download_url: "https://download.sysinternals.com/files/Disk2vhd.zip",
        download_type: DownloadType::Zip,
    }
}

/// HDD Raw Copy Tool: sector-by-sector disk copy.
pub fn hdd_raw_copy() -> (r: BundledTool)
    ensures
        r@ == hdd_raw_copy_view(),
{
    BundledTool {
        id: "hddrawcopy",
        display_name: "HDD Raw Copy Tool",
        executable_name: "HDDRawCopy1.20Portable.exe",
        description: "Sector-by-sector raw disk copy. Creates exact clones including hidden partitions.",
        download_url: "https://hddguru.com/software/HDD-Raw-Copy-Tool/HDDRawCopy1.20Portable.exe",
        download_type: DownloadType::DirectExe,
    }
}

/// Sysprep Preparator: prepares Windows for imaging.
pub fn sysprep_preparator() -> (r: BundledTool)
    ensures
        r@ == sysprep_preparator_view(),
{
    BundledTool {
        id: "sysprepprep",
        display_name: "Sysprep Preparator",
        executable_name: "SysprepPreparator.exe",
        description: "Wizard-based tool to prepare Windows for imaging. Runs compatibility checks, cleanup, and sysprep.",
        download_url: "https://github.com/CodingWonders/SysprepPreparator/releases/download/DT_25122/SysprepPreparator.zip",
        download_type: DownloadType::Zip,
    }
}

/// The tool with identifier `id`, among the backup and the system
/// preparation tools.
pub open spec fn tool_with_id(id: Seq<char>) -> Option<ToolView> {
    if id == "fabs"@ {
        Some(fabs_autobackup_view())
    } else if id == "profwiz"@ {
        Some(profwiz_view())
    } else if id == "transwiz"@ {
        Some(transwiz_view())
    } else if id == "disk2vhd"@ {
        Some(disk2vhd_view())
    } else if id == "hddrawcopy"@ {
        Some(hdd_raw_copy_view())
    } else if id == "sysprepprep"@ {
        Some(sysprep_preparator_view())
    } else {
        None
    }
}

/// Looks a tool up by its identifier, among the backup and the system
/// preparation tools.
pub fn get_tool_by_id(id: &str) -> (r: Option<BundledTool>)
    ensures
        match tool_with_id(id@) {
            Some(t) => r matches Some(x) && x@ == t,
            None => r is None,
        },
{
    if str_equal(id, "fabs") {
        Some(fabs_autobackup())
    } else if str_equal(id, "profwiz") {
        Some(profwiz())
    } else if str_equal(id, "transwiz") {
        Some(transwiz())
    } else if str_equal(id, "disk2vhd") {
        Some(disk2vhd())
    } else if str_equal(id, "hddrawcopy") {
        Some(hdd_raw_copy())
    } else if str_equal(id, "sysprepprep") {
        Some(sysprep_preparator())
    } else {
        None
    }
}

/// The backup tools, in the order "Download All" fetches them (the system
/// preparation tool is not one of them).
pub open spec fn backup_tools() -> Seq<ToolView> {
    seq![
        fabs_autobackup_view(),
        profwiz_view(),
        transwiz_view(),
        disk2vhd_view(),
        hdd_raw_copy_view(),
    ]
}

/// All backup tools.
pub fn get_all_tools() -> (r: Vec<BundledTool>)
    ensures
        tool_views(r@) == backup_tools(),
{
    let r = vec![fabs_autobackup(), profwiz(), transwiz(), disk2vhd(), hdd_raw_copy()];
    proof {
        assert(tool_views(r@) =~= backup_tools());
    }
    r
}

// ---------------------------------------------------------------------------
// Where tools live
// ---------------------------------------------------------------------------

/// `name` appended to the Windows path `base`, with one `\` between them.
pub open spec fn join_path(base: Seq<char>, name: Seq<char>) -> Seq<char> {
    if base.len() == 0 {
        name
    } else if base.last() == '\\' || base.last() == '/' {
        base + name
    } else {
        base + seq!['\\'] + name
    }
}

/// Appends the relative path `name` to the Windows path `base`.
pub fn join(base: &str, name: &str) -> (r: String)
    ensures
        r@ == join_path(base@, name@),
{
    proof {
        reveal_strlit("\\");
        reveal_strlit("/");
    }
    let mut r = String::new();
    push_str(&mut r, base);
    if !base.is_empty() && !str_ends_with(base, "\\") && !str_ends_with(base, "/") {
        r.push('\\');
    }
    push_str(&mut r, name);
    proof {
        assert("\\"@ =~= seq!['\\']);
        assert("/"@ =~= seq!['/']);
        if base@.len() > 0 {
            let t = base@.skip(base@.len() - 1);
            assert(t =~= seq![base@.last()]);
            if base@.last() == '\\' {
                assert(t =~= "\\"@);
            } else {
                assert(t[0] != "\\"@[0]);
            }
            if base@.last() == '/' {
                assert(t =~= "/"@);
            } else {
                assert(t[0] != "/"@[0]);
            }
        }
    }
    r
}

/// The backup tools folder, `backup_tools` next to the program (whose
/// folder is `app_dir`).
pub fn get_backup_tools_path(app_dir: &str) -> (r: String)
    ensures
        r@ == join_path(app_dir@, "backup_tools"@),
{
    join(app_dir, "backup_tools")
}

/// The same folder as `get_backup_tools_path`.
pub fn get_tools_base_path(app_dir: &str) -> (r: String)
    ensures
        r@ == join_path(app_dir@, "backup_tools"@),
{
    get_backup_tools_path(app_dir)
}

/// A tool's own folder: its identifier under the backup tools folder.
pub fn get_tool_path(app_dir: &str, tool: &BundledTool) -> (r: String)
    ensures
        r@ == join_path(join_path(app_dir@, "backup_tools"@), tool.id@),
{
    let base = get_tools_base_path(app_dir);
    join(base.as_str(), tool.id)
}

/// A tool's executable inside its folder.
pub fn get_executable_path(app_dir: &str, tool: &BundledTool) -> (r: String)
    ensures
        r@ == join_path(
            join_path(join_path(app_dir@, "backup_tools"@), tool.id@),
            tool.executable_name@,
        ),
{
    let folder = get_tool_path(app_dir, tool);
    join(folder.as_str(), tool.executable_name)
}

/// Whether `c` separates the parts of a path.
pub open spec fn is_separator(c: char) -> bool {
    c == '\\' || c == '/'
}

/// `s` holds no path separator.
pub open spec fn separator_free(s: Seq<char>) -> bool
    decreases s.len(),
{
    s.len() == 0 || (!is_separator(s.last()) && separator_free(s.drop_last()))
}

/// The folder of `folder` joined with a plain file name is `folder` again.
proof fn lemma_parent_of_joined(folder: Seq<char>, name: Seq<char>)
    requires
        folder.len() > 0,
        separator_free(name),
    ensures
        crate::pe_tools::parent_dir(folder + seq!['\\'] + name) == folder,
    decreases name.len(),
{
    let p = folder + seq!['\\'] + name;
    if name.len() == 0 {
        assert(p.drop_last() =~= folder);
    } else {
        assert(p.last() == name.last());
        assert(p.drop_last() =~= folder + seq!['\\'] + name.drop_last());
        lemma_parent_of_joined(folder, name.drop_last());
    }
}

/// The folder of a tool, below the program's folder `app_dir`.
pub open spec fn tool_folder_of(app_dir: Seq<char>, t: ToolView) -> Seq<char> {
    join_path(join_path(app_dir, "backup_tools"@), t.id)
}

/// The path of a tool's executable, below the program's folder `app_dir`.
pub open spec fn executable_of(app_dir: Seq<char>, t: ToolView) -> Seq<char> {
    join_path(tool_folder_of(app_dir, t), t.executable_name)
}

/// The tools this program knows.
pub open spec fn is_bundled(t: ToolView) -> bool {
    ||| t == fabs_autobackup_view()
    ||| t == profwiz_view()
    ||| t == transwiz_view()
    ||| t == disk2vhd_view()
    ||| t == hdd_raw_copy_view()
    ||| t == sysprep_preparator_view()
}

/// Every bundled tool's executable lies directly in the tool's folder.
pub proof fn lemma_bundled_executables_in_tool_folders(app_dir: Seq<char>)
    ensures
        forall|t: ToolView|
            is_bundled(t) ==> crate::pe_tools::parent_dir(#[trigger] executable_of(app_dir, t))
                == tool_folder_of(app_dir, t),
{
    reveal_with_fuel(separator_free, 30);
    reveal_strlit("fabs");
    reveal_strlit("AutoBackup7Pro.exe");
    assert(separator_free("AutoBackup7Pro.exe"@));
    lemma_executable_in_tool_folder(app_dir, "fabs"@, "AutoBackup7Pro.exe"@);
    reveal_strlit("profwiz");
    reveal_strlit("Profwiz.exe");
    assert(separator_free("Profwiz.exe"@));
    lemma_executable_in_tool_folder(app_dir, "profwiz"@, "Profwiz.exe"@);
    reveal_strlit("transwiz");
    reveal_strlit("Transwiz.exe");
    assert(separator_free("Transwiz.exe"@));
    lemma_executable_in_tool_folder(app_dir, "transwiz"@, "Transwiz.exe"@);
    reveal_strlit("disk2vhd");
    reveal_strlit("disk2vhd64.exe");
    assert(separator_free("disk2vhd64.exe"@));
    lemma_executable_in_tool_folder(app_dir, "disk2vhd"@, "disk2vhd64.exe"@);
    reveal_strlit("hddrawcopy");
    reveal_strlit("HDDRawCopy1.20Portable.exe");
    assert(separator_free("HDDRawCopy1.20Portable.exe"@));
    lemma_executable_in_tool_folder(app_dir, "hddrawcopy"@, "HDDRawCopy1.20Portable.exe"@);
    reveal_strlit("sysprepprep");
    reveal_strlit("SysprepPreparator.exe");
    assert(separator_free("SysprepPreparator.exe"@));
    lemma_executable_in_tool_folder(app_dir, "sysprepprep"@, "SysprepPreparator.exe"@);
}

/// A tool's executable lies directly in the tool's folder: the folder of
/// the executable's path is the tool's path, for a tool whose identifier is
/// a non-empty name not ending in a separator and whose executable name
/// holds no separator.
pub proof fn lemma_executable_in_tool_folder(app_dir: Seq<char>, id: Seq<char>, exe: Seq<char>)
    requires
        id.len() > 0,
        !is_separator(id.last()),
        separator_free(exe),
    ensures
        crate::pe_tools::parent_dir(join_path(join_path(join_path(app_dir, "backup_tools"@), id), exe))
            == join_path(join_path(app_dir, "backup_tools"@), id),
{
    let folder = join_path(join_path(app_dir, "backup_tools"@), id);
    let base = join_path(app_dir, "backup_tools"@);
    reveal_strlit("backup_tools");
    if base.len() == 0 {
        assert(folder == id);
    } else if base.last() == '\\' || base.last() == '/' {
        assert(folder == base + id);
        assert(folder.last() == id.last());
    } else {
        assert(folder == base + seq!['\\'] + id);
        assert(folder.last() == id.last());
    }
    assert(folder.len() > 0);
    assert(!is_separator(folder.last()));
    assert(join_path(folder, exe) == folder + seq!['\\'] + exe);
    lemma_parent_of_joined(folder, exe);
}

/// The name a download is saved under in the tool's folder before it is
/// processed.
pub open spec fn temp_download_name(t: DownloadType) -> Seq<char> {
    match t {
        DownloadType::DirectExe => "download.exe"@,
        DownloadType::Zip => "download.zip"@,
        DownloadType::Msi => "download.msi"@,
        DownloadType::SelfExtractingExe => "download.exe"@,
    }
}

pub fn temp_download_file(t: DownloadType) -> (r: &'static str)
    ensures
        r@ == temp_download_name(t),
{
    match t {
        DownloadType::DirectExe => "download.exe",
        DownloadType::Zip => "download.zip",
        DownloadType::Msi => "download.msi",
        DownloadType::SelfExtractingExe => "download.exe",
    }
}

/// The percentage of a download of `total` bytes done after `downloaded`
/// bytes (truncated to 32 bits as reported).
pub fn download_percent(downloaded: u64, total: u64) -> (r: u32)
    requires
        total > 0,
        downloaded * 100 <= u64::MAX,
    ensures
        r == ((downloaded * 100) / (total as int)) as u32,
{
    ((downloaded * 100) / total) as u32
}

/// The places searched for 7-Zip, in order: the two Program Files
/// folders, next to the program, and in the backup tools folder.
pub fn seven_zip_candidates(app_dir: &str) -> (r: Vec<String>)
    ensures
        r@.len() == 4,
        r@[0]@ == r"C:\Program Files\7-Zip\7z.exe"@,
        r@[1]@ == r"C:\Program Files (x86)\7-Zip\7z.exe"@,
        r@[2]@ == join_path(app_dir@, "7z.exe"@),
        r@[3]@ == join_path(join_path(app_dir@, "backup_tools"@), "7z.exe"@),
{
    let base = get_tools_base_path(app_dir);
    vec![
        r"C:\Program Files\7-Zip\7z.exe".to_owned(),
        r"C:\Program Files (x86)\7-Zip\7z.exe".to_owned(),
        join(app_dir, "7z.exe"),
        join(base.as_str(), "7z.exe"),
    ]
}

// ---------------------------------------------------------------------------
// Which unpacked files are kept
// ---------------------------------------------------------------------------

/// Whether a ZIP holds a whole application (a DLL beside an EXE), given its
/// entry names lowercased: then everything is extracted, else only EXEs.
pub open spec fn zip_is_application(lower_names: Seq<Seq<char>>) -> bool {
    (exists|i: int| 0 <= i < lower_names.len() && ends_with(lower_names[i], ".dll"@)) && (exists|
        i: int,
    | 0 <= i < lower_names.len() && ends_with(lower_names[i], ".exe"@))
}

/// For each ZIP entry (by its lowercased name, and whether it is a
/// folder): whether its file is extracted.
pub open spec fn zip_entry_extracted(extract_all: bool, lower_name: Seq<char>, is_dir: bool) -> bool {
    !is_dir && (extract_all || ends_with(lower_name, ".exe"@))
}

/// Which entries of a ZIP download are extracted, given the entries'
/// lowercased names and whether each is a folder.
pub fn zip_entries_to_extract(lower_names: &Vec<String>, is_dir: &Vec<bool>) -> (r: Vec<bool>)
    requires
        lower_names@.len() == is_dir@.len(),
    ensures
        r@.len() == lower_names@.len(),
        forall|k: int|
            0 <= k < r@.len() ==> #[trigger] r@[k] == zip_entry_extracted(
                zip_is_application(crate::text::strings_of(lower_names@)),
                lower_names@[k]@,
                is_dir@[k],
            ),
{
    let ghost names = crate::text::strings_of(lower_names@);
    let mut has_dll = false;
    let mut has_exe = false;
    let mut i: usize = 0;
    while i < lower_names.len()
        invariant
            i <= lower_names@.len(),
            names == crate::text::strings_of(lower_names@),
            has_dll == (exists|j: int| 0 <= j < i && ends_with(names[j], ".dll"@)),
            has_exe == (exists|j: int| 0 <= j < i && ends_with(names[j], ".exe"@)),
        decreases lower_names@.len() - i,
    {
        let n = lower_names[i].as_str();
        let d = str_ends_with(n, ".dll");
        let e = str_ends_with(n, ".exe");
        proof {
            assert(names[i as int] == n@);
            assert((exists|j: int| 0 <= j < i + 1 && ends_with(names[j], ".dll"@)) == (has_dll
                || d)) by {
                if d {
                    assert(0 <= i < i + 1 && ends_with(names[i as int], ".dll"@));
                }
            }
            assert((exists|j: int| 0 <= j < i + 1 && ends_with(names[j], ".exe"@)) == (has_exe
                || e)) by {
                if e {
                    assert(0 <= i < i + 1 && ends_with(names[i as int], ".exe"@));
                }
            }
        }
        has_dll = has_dll || d;
        has_exe = has_exe || e;
        i = i + 1;
    }
    let extract_all = has_dll && has_exe;
    let mut r: Vec<bool> = Vec::new();
    let mut k: usize = 0;
    while k < lower_names.len()
        invariant
            k <= lower_names@.len(),
            lower_names@.len() == is_dir@.len(),
            names == crate::text::strings_of(lower_names@),
            extract_all == zip_is_application(names),
            r@.len() == k,
            forall|j: int|
                0 <= j < k ==> #[trigger] r@[j] == zip_entry_extracted(
                    extract_all,
                    lower_names@[j]@,
                    is_dir@[j],
                ),
        decreases lower_names@.len() - k,
    {
        let wanted = !is_dir[k] && (extract_all || str_ends_with(lower_names[k].as_str(), ".exe"));
        r.push(wanted);
        k = k + 1;
    }
    r
}

/// Whether an EXE found in an unpacked MSI is kept, by its lowercased name:
/// icons, `!`-prefixed metadata, msiexec itself and uninstallers are not.
pub open spec fn msi_exe_kept(lower_name: Seq<char>) -> bool {
    !(starts_with(lower_name, "icon."@) || starts_with(lower_name, "!"@) || lower_name
        == "msiexec.exe"@ || contains(lower_name, "uninstall"@))
}

/// Whether an EXE unpacked from an MSI is copied into the tool's folder.
pub fn msi_exe_wanted(file_name: &str) -> (r: bool)
    ensures
        r == msi_exe_kept(unicode_lowercase(file_name@)),
{
    let lower = to_lowercase(file_name);
    let l = lower.as_str();
    !(str_starts_with(l, "icon.") || str_starts_with(l, "!") || str_equal(l, "msiexec.exe")
        || str_contains(l, "uninstall"))
}


/// A folder path without the `\\?\` prefix that resolving a path adds on
/// Windows.
pub fn strip_verbatim_prefix(path: &str) -> (r: String)
    ensures
        r@ == if starts_with(path@, r"\\?\"@) {
            path@.skip(4)
        } else {
            path@
        },
{
    proof {
        reveal_strlit(r"\\?\");
    }
    let cs = crate::text::to_chars(path);
    if str_starts_with(path, r"\\?\") {
        let rest = crate::text::skip_chars(cs.as_slice(), 4);
        crate::text::string_from(rest.as_slice())
    } else {
        path.to_owned()
    }
}

/// The installed version shown for a tool: the trimmed text of its
/// version.txt when that can be read, else "Installed" when its executable
/// is there, else none.
pub fn installed_version(version_text: Option<&str>, executable_present: bool) -> (r: Option<
    String,
>)
    ensures
        match version_text {
            Some(t) => r matches Some(v) && v@ == crate::text::trim(t@),
            None => if executable_present {
                r matches Some(v) && v@ == "Installed"@
            } else {
                r is None
            },
        },
{
    match version_text {
        Some(t) => {
            let cs = crate::text::to_chars(t);
            let v = crate::text::trim_chars(cs.as_slice());
            Some(crate::text::string_from(v.as_slice()))
        },
        None => if executable_present {
            Some("Installed".to_owned())
        } else {
            None
        },
    }
}


/// Whether a file name's extension is `ext`, ignoring ASCII case (a name
/// without an extension has none).
pub fn extension_is(file_name: &str, ext: &str) -> (r: bool)
    ensures
        r == match name_extension(file_name@) {
            Some(e) => eq_ignore_ascii_case(e, ext@),
            None => false,
        },
{
    match file_extension(file_name) {
        Some(e) => {
            let a = crate::text::to_chars(e.as_str());
            let b = crate::text::to_chars(ext);
            eq_ignore_ascii_case_exec(a.as_slice(), b.as_slice())
        },
        None => false,
    }
}

/// Whether a file left in a tool's folder after extracting an installer is
/// one of the tool's programs: its extension is exactly `exe` and its
/// lowercased name does not start with `download` (the installer itself).
pub fn extracted_program(file_name: &str) -> (r: bool)
    ensures
        r == (name_extension(file_name@) == Some("exe"@) && !starts_with(
            unicode_lowercase(file_name@),
            "download"@,
        )),
{
    let is_exe = match file_extension(file_name) {
        Some(e) => str_equal(e.as_str(), "exe"),
        None => false,
    };
    let lower = to_lowercase(file_name);
    is_exe && !str_starts_with(lower.as_str(), "download")
}

} // verus!
