//! Fixes for WinPE images, applied to the mounted image at build time by
//! editing its offline registry hives and files: the catalog of fixes, the
//! registry values each one writes, and how what happened on disk turns
//! into each fix's result.

use vstd::prelude::*;
use crate::text::{contains, push_str, str_contains, str_equal, strings_of};

verus! {

/// Categories for grouping fixes in the interface.
#[derive(Debug, Clone, Copy, PartialEq, Eq, Structural)]
pub enum FixCategory {
    /// Display and UI related fixes
    Display,
    /// Compatibility fixes
    Compatibility,
}

pub open spec fn fix_category_name(c: FixCategory) -> Seq<char> {
    match c {
        FixCategory::Display => "Display & UI"@,
        FixCategory::Compatibility => "Compatibility"@,
    }
}

impl FixCategory {
    /// The category's heading in the interface.
    pub fn display_name(&self) -> (r: &'static str)
        ensures
            r@ == fix_category_name(*self),
    {
        match self {
            FixCategory::Display => "Display & UI",
            FixCategory::Compatibility => "Compatibility",
        }
    }
}

/// One fix that can be switched on or off for an image build.
#[derive(Debug, Clone, Copy)]
pub struct PeFix {
    /// Internal identifier
    pub id: &'static str,
    /// Name shown in the interface
    pub display_name: &'static str,
    /// What the fix does
    pub description: &'static str,
    /// Grouping in the interface
    pub category: FixCategory,
    /// Selected unless the user deselects it
    pub default_enabled: bool,
    /// Needs the Windows ADK
    pub requires_adk: bool,
}

/// A fix's fields as mathematical values.
pub struct FixView {
    pub id: Seq<char>,
    pub display_name: Seq<char>,
    pub description: Seq<char>,
    pub category: FixCategory,
    pub default_enabled: bool,
    pub requires_adk: bool,
}

impl View for PeFix {
    type V = FixView;

    open spec fn view(&self) -> FixView {
        FixView {
            id: self.id@,
            display_name: self.display_name@,
            description: self.description@,
            category: self.category,
            default_enabled: self.default_enabled,
            requires_adk: self.requires_adk,
        }
    }
}

pub open spec fn fix_views(s: Seq<PeFix>) -> Seq<FixView> {
    s.map_values(|f: PeFix| f@)
}

/// The fixes on offer: three for the display, two for compatibility, all
/// selected by default and none needing the ADK. These are the offline
/// registry and file edits made to the mounted image; user profile folders,
/// TEMP variables and the environment are set up at run time by the
/// launcher script, so no fix here touches them.
pub open spec fn fix_catalog() -> Seq<FixView> {
    seq![
        FixView {
            id: "dpi_scaling"@,
            display_name: "DPI Scaling Fix"@,
            description: "Fix blurry/small text on high-DPI displays by disabling automatic scaling"@,
            category: FixCategory::Display,
            default_enabled: true,
            requires_adk: false,
        },
        FixView {
            id: "wallpaper_host"@,
            display_name: "Remove WallpaperHost.exe"@,
            description: "Remove WallpaperHost.exe to fix display issues with software rendering"@,
            category: FixCategory::Display,
            default_enabled: true,
            requires_adk: false,
        },
        FixView {
            id: "font_fix"@,
            display_name: "Font Rendering Fix"@,
            description: "Fix Segoe UI italic rendering issue that causes garbled text"@,
            category: FixCategory::Display,
            default_enabled: true,
            requires_adk: false,
        },
        FixView {
            id: "disable_crash_dialogs"@,
            display_name: "Disable Crash Dialogs"@,
            description: "Prevent Windows Error Reporting dialogs from appearing"@,
            category: FixCategory::Compatibility,
            default_enabled: true,
            requires_adk: false,
        },
        FixView {
            id: "enable_long_paths"@,
            display_name: "Enable Long Paths"@,
            description: "Enable support for paths longer than 260 characters"@,
            category: FixCategory::Compatibility,
            default_enabled: true,
            requires_adk: false,
        },
    ]
}

/// All fixes on offer, in the order the interface lists them.
pub fn get_all_fixes() -> (r: Vec<PeFix>)
    ensures
        fix_views(r@) == fix_catalog(),
{
    let r = vec![
        PeFix {
            id: "dpi_scaling",
            display_name: "DPI Scaling Fix",
            description: "Fix blurry/small text on high-DPI displays by disabling automatic scaling",
            category: FixCategory::Display,
            default_enabled: true,
            requires_adk: false,
        },
        PeFix {
            id: "wallpaper_host",
            display_name: "Remove WallpaperHost.exe",
            description: "Remove WallpaperHost.exe to fix display issues with software rendering",
            category: FixCategory::Display,
            default_enabled: true,
            requires_adk: false,
        },
        PeFix {
            id: "font_fix",
            display_name: "Font Rendering Fix",
            description: "Fix Segoe UI italic rendering issue that causes garbled text",
            category: FixCategory::Display,
            default_enabled: true,
            requires_adk: false,
        },
        PeFix {
            id: "disable_crash_dialogs",
            display_name: "Disable Crash Dialogs",
            description: "Prevent Windows Error Reporting dialogs from appearing",
            category: FixCategory::Compatibility,
            default_enabled: true,
            requires_adk: false,
        },
        PeFix {
            id: "enable_long_paths",
            display_name: "Enable Long Paths",
            description: "Enable support for paths longer than 260 characters",
            category: FixCategory::Compatibility,
            default_enabled: true,
            requires_adk: false,
        },
    ];
    proof {
        assert(fix_views(r@) =~= fix_catalog());
    }
    r
}

/// The identifiers of the fixes in `s` that are selected by default, in order.
pub open spec fn default_fix_ids(s: Seq<FixView>) -> Seq<Seq<char>>
    decreases s.len(),
{
    if s.len() == 0 {
        Seq::empty()
    } else {
        let rest = default_fix_ids(s.drop_last());
        if s.last().default_enabled {
            rest.push(s.last().id)
        } else {
            rest
        }
    }
}

/// Identifiers of the fixes selected by default, in catalog order.
pub fn get_default_enabled_fixes() -> (r: Vec<String>)
    ensures
        strings_of(r@) == default_fix_ids(fix_catalog()),
{
    let all = get_all_fixes();
    let mut r: Vec<String> = Vec::new();
    let mut i: usize = 0;
    while i < all.len()
        invariant
            i <= all@.len(),
            fix_views(all@) == fix_catalog(),
            strings_of(r@) == default_fix_ids(fix_views(all@.take(i as int))),
        decreases all@.len() - i,
    {
        let f = all[i];
        proof {
            let fv = fix_views(all@.take(i + 1));
            assert(fv.drop_last() =~= fix_views(all@.take(i as int)));
            assert(fv.last() == f@);
        }
        if f.default_enabled {
            let ghost before = r@;
            r.push(f.id.to_owned());
            proof {
                assert(strings_of(r@) =~= strings_of(before).push(f.id@));
            }
        }
        i = i + 1;
    }
    proof {
        assert(all@.take(all@.len() as int) =~= all@);
    }
    r
}

/// The outcome of applying one fix.
#[derive(Debug)]
pub struct FixResult {
    pub fix_id: String,
    pub fix_name: String,
    pub success: bool,
    pub message: String,
}

/// A fix result as mathematical values.
pub struct FixResultView {
    pub fix_id: Seq<char>,
    pub fix_name: Seq<char>,
    pub success: bool,
    pub message: Seq<char>,
}

impl View for FixResult {
    type V = FixResultView;

    open spec fn view(&self) -> FixResultView {
        FixResultView {
            fix_id: self.fix_id@,
            fix_name: self.fix_name@,
            success: self.success,
            message: self.message@,
        }
    }
}

/// Settings for fixes that need more than on or off; none do at present.
#[derive(Debug, Clone)]
pub struct FixOptions {}

impl Default for FixOptions {
    fn default() -> (r: Self)
        ensures
            r == (FixOptions {}),
    {
        FixOptions {}
    }
}

/// What applying a fix found on the mounted image:
/// - `target_found`: the file the fix edits was there (the hive for the
///   DPI, crash-dialog and long-path fixes);
/// - `setup_error`: the step that must succeed before any value is written
///   failed, with its error (loading the hive for the DPI fix, removing and
///   then renaming WallpaperHost.exe, writing the font .reg file);
/// - `all_values_set`: every registry value that is checked was written
///   (all values of the DPI fix, the value of the long-path fix).
pub struct FixOutcome {
    pub target_found: bool,
    pub setup_error: Option<String>,
    pub all_values_set: bool,
}

pub open spec fn fix_result_of(
    id: Seq<char>,
    name: Seq<char>,
    success: bool,
    message: Seq<char>,
) -> FixResultView {
    FixResultView { fix_id: id, fix_name: name, success, message }
}

/// The result of the fix `id` given what applying it found.
pub open spec fn fix_result(
    id: Seq<char>,
    target_found: bool,
    setup_error: Option<Seq<char>>,
    all_values_set: bool,
) -> FixResultView {
    if id == "dpi_scaling"@ {
        let name = "DPI Scaling Fix"@;
        if !target_found {
            fix_result_of(id, name, false, "Default registry hive not found"@)
        } else if setup_error is Some {
            fix_result_of(
                id,
                name,
                false,
                "Failed to load registry hive: "@ + setup_error->0,
            )
        } else if all_values_set {
            fix_result_of(id, name, true, "DPI scaling disabled (100% forced)"@)
        } else {
            fix_result_of(id, name, false, "Some registry values could not be set"@)
        }
    } else if id == "wallpaper_host"@ {
        let name = "Remove WallpaperHost.exe"@;
        if setup_error is Some {
            fix_result_of(id, name, false, "Failed to remove or rename: "@ + setup_error->0)
        } else {
            fix_result_of(id, name, true, "WallpaperHost removed, wallpaper registry keys set"@)
        }
    } else if id == "font_fix"@ {
        let name = "Font Rendering Fix"@;
        if setup_error is Some {
            fix_result_of(id, name, false, "Failed to write reg file: "@ + setup_error->0)
        } else {
            fix_result_of(id, name, true, "Segoe UI italic fix applied"@)
        }
    } else if id == "disable_crash_dialogs"@ {
        let name = "Disable Crash Dialogs"@;
        if !target_found {
            fix_result_of(id, name, false, "SOFTWARE hive not found"@)
        } else {
            fix_result_of(id, name, true, "WER and crash dialogs disabled"@)
        }
    } else if id == "enable_long_paths"@ {
        let name = "Enable Long Paths"@;
        if !target_found {
            fix_result_of(id, name, false, "SYSTEM hive not found"@)
        } else if all_values_set {
            fix_result_of(id, name, true, "Long path support enabled"@)
        } else {
            fix_result_of(id, name, false, "Failed to modify registry"@)
        }
    } else {
        fix_result_of(id, id, false, "Unknown fix: "@ + id)
    }
}

pub open spec fn outcome_error(o: FixOutcome) -> Option<Seq<char>> {
    match o.setup_error {
        Some(e) => Some(e@),
        None => None,
    }
}

fn make_result(id: &str, name: &str, success: bool, message: String) -> (r: FixResult)
    ensures
        r@ == fix_result_of(id@, name@, success, message@),
{
    FixResult { fix_id: id.to_owned(), fix_name: name.to_owned(), success, message }
}

fn message_with(prefix: &str, detail: &str) -> (r: String)
    ensures
        r@ == prefix@ + detail@,
{
    let mut m = String::new();
    push_str(&mut m, prefix);
    push_str(&mut m, detail);
    m
}

/// The result of applying the fix `fix_id`, given what applying it found.
/// An identifier that names no fix gives a failed result that says so.
pub fn apply_fix(fix_id: &str, options: &FixOptions, outcome: &FixOutcome) -> (r: FixResult)
    ensures
        r@ == fix_result(
            fix_id@,
            outcome.target_found,
            outcome_error(*outcome),
            outcome.all_values_set,
        ),
{
    if str_equal(fix_id, "dpi_scaling") {
        let name = "DPI Scaling Fix";
        if !outcome.target_found {
            make_result(fix_id, name, false, "Default registry hive not found".to_owned())
        } else {
            match &outcome.setup_error {
                Some(e) => make_result(
                    fix_id,
                    name,
                    false,
                    message_with("Failed to load registry hive: ", e.as_str()),
                ),
                None => if outcome.all_values_set {
                    make_result(fix_id, name, true, "DPI scaling disabled (100% forced)".to_owned())
                } else {
                    make_result(
                        fix_id,
                        name,
                        false,
                        "Some registry values could not be set".to_owned(),
                    )
                },
            }
        }
    } else if str_equal(fix_id, "wallpaper_host") {
        let name = "Remove WallpaperHost.exe";
        match &outcome.setup_error {
            Some(e) => make_result(
                fix_id,
                name,
                false,
                message_with("Failed to remove or rename: ", e.as_str()),
            ),
            None => make_result(
                fix_id,
                name,
                true,
                "WallpaperHost removed, wallpaper registry keys set".to_owned(),
            ),
        }
    } else if str_equal(fix_id, "font_fix") {
        let name = "Font Rendering Fix";
        match &outcome.setup_error {
            Some(e) => make_result(
                fix_id,
                name,
                false,
                message_with("Failed to write reg file: ", e.as_str()),
            ),
            None => make_result(fix_id, name, true, "Segoe UI italic fix applied".to_owned()),
        }
    } else if str_equal(fix_id, "disable_crash_dialogs") {
        let name = "Disable Crash Dialogs";
        if !outcome.target_found {
            make_result(fix_id, name, false, "SOFTWARE hive not found".to_owned())
        } else {
            make_result(fix_id, name, true, "WER and crash dialogs disabled".to_owned())
        }
    } else if str_equal(fix_id, "enable_long_paths") {
        let name = "Enable Long Paths";
        if !outcome.target_found {
            make_result(fix_id, name, false, "SYSTEM hive not found".to_owned())
        } else if outcome.all_values_set {
            make_result(fix_id, name, true, "Long path support enabled".to_owned())
        } else {
            make_result(fix_id, name, false, "Failed to modify registry".to_owned())
        }
    } else {
        make_result(fix_id, fix_id, false, message_with("Unknown fix: ", fix_id))
    }
}


// ---------------------------------------------------------------------------
// What each fix writes
// ---------------------------------------------------------------------------

/// A registry value that a fix writes: the subkey under the loaded hive,
/// the value's name, its type and its data.
#[derive(Debug, Clone, Copy)]
pub struct RegistryValue {
    pub subkey: &'static str,
    pub name: &'static str,
    pub reg_type: &'static str,
    pub data: &'static str,
}

impl View for RegistryValue {
    type V = (Seq<char>, Seq<char>, Seq<char>, Seq<char>);

    open spec fn view(&self) -> (Seq<char>, Seq<char>, Seq<char>, Seq<char>) {
        (self.subkey@, self.name@, self.reg_type@, self.data@)
    }
}

/// The offline hive a fix edits: its file under the mounted image (path
/// components separated by `\`), the temporary name it is loaded under
/// (`HKLM\<name>`), and the values written into it, in order.
pub struct HiveEdit {
    pub hive_file: &'static str,
    pub hive_name: &'static str,
    pub values: Vec<RegistryValue>,
}

pub struct HiveEditView {
    pub hive_file: Seq<char>,
    pub hive_name: Seq<char>,
    pub values: Seq<(Seq<char>, Seq<char>, Seq<char>, Seq<char>)>,
}

impl View for HiveEdit {
    type V = HiveEditView;

    open spec fn view(&self) -> HiveEditView {
        HiveEditView {
            hive_file: self.hive_file@,
            hive_name: self.hive_name@,
            values: self.values@.map_values(|v: RegistryValue| v@),
        }
    }
}

/// The hive edit of the fix `id`: the DPI fix forces 100% scaling in the
/// default user's desktop settings; the wallpaper fix points the desktop at
/// the branding wallpaper (stretched to fill); the font fix maps Segoe UI
/// Italic to the regular face; the crash-dialog fix hides error reporting
/// and the debugger prompt; the long-path fix enables long paths.
pub open spec fn hive_edit_for(id: Seq<char>) -> Option<HiveEditView> {
    if id == "dpi_scaling"@ {
        Some(HiveEditView {
            hive_file: r"Windows\System32\config\default"@,
            hive_name: "_WinPE_DPI_Fix"@,
            values: seq![
                (r"Control Panel\Desktop"@, "LogPixels"@, "REG_DWORD"@, "96"@),
                (r"Control Panel\Desktop"@, "Win8DpiScaling"@, "REG_DWORD"@, "1"@),
                (r"Control Panel\Desktop"@, "DpiScalingVer"@, "REG_DWORD"@, "4120"@),
            ],
        })
    } else if id == "wallpaper_host"@ {
        Some(HiveEditView {
            hive_file: r"Windows\System32\config\default"@,
            hive_name: "PE-DEFAULT"@,
            values: seq![
                (r"Control Panel\Desktop"@, "Wallpaper"@, "REG_SZ"@, r"X:\Windows\Web\Wallpaper\Windows\wallpaper.jpg"@),
                (r"Control Panel\Desktop"@, "WallpaperStyle"@, "REG_SZ"@, "10"@),
                (r"Control Panel\Desktop"@, "TileWallpaper"@, "REG_SZ"@, "0"@),
                (r"Software\Microsoft\Internet Explorer\Desktop\General"@, "WallpaperSource"@, "REG_SZ"@, r"X:\Windows\Web\Wallpaper\Windows\wallpaper.jpg"@),
            ],
        })
    } else if id == "font_fix"@ {
        Some(HiveEditView {
            hive_file: r"Windows\System32\config\SOFTWARE"@,
            hive_name: "_WinPE_Font_Fix"@,
            values: seq![
                (r"Microsoft\Windows NT\CurrentVersion\Fonts"@, "Segoe UI Italic (TrueType)"@, "REG_SZ"@, "segoeui.ttf"@),
            ],
        })
    } else if id == "disable_crash_dialogs"@ {
        Some(HiveEditView {
            hive_file: r"Windows\System32\config\SOFTWARE"@,
            hive_name: "_WinPE_Crash_Fix"@,
            values: seq![
                (r"Microsoft\Windows\Windows Error Reporting"@, "DontShowUI"@, "REG_DWORD"@, "1"@),
                (r"Microsoft\Windows NT\CurrentVersion\AeDebug"@, "Auto"@, "REG_SZ"@, "0"@),
            ],
        })
    } else if id == "enable_long_paths"@ {
        Some(HiveEditView {
            hive_file: r"Windows\System32\config\SYSTEM"@,
            hive_name: "_WinPE_LongPath_Fix"@,
            values: seq![
                (r"ControlSet001\Control\FileSystem"@, "LongPathsEnabled"@, "REG_DWORD"@, "1"@),
            ],
        })
    } else {
        None
    }
}

fn hive_edit(hive_file: &'static str, hive_name: &'static str, values: Vec<RegistryValue>) -> (r:
    Option<HiveEdit>)
    ensures
        r matches Some(e) && e.hive_file == hive_file && e.hive_name == hive_name && e.values
            == values,
{
    Some(HiveEdit { hive_file, hive_name, values })
}

/// The registry hive the fix `fix_id` edits and what it writes there; none
/// for an identifier that names no fix.
pub fn fix_hive_edit(fix_id: &str) -> (r: Option<HiveEdit>)
    ensures
        match r {
            Some(e) => hive_edit_for(fix_id@) == Some(e@),
            None => hive_edit_for(fix_id@) is None,
        },
{
    let r = if str_equal(fix_id, "dpi_scaling") {
        hive_edit(
            r"Windows\System32\config\default",
            "_WinPE_DPI_Fix",
            vec![
                RegistryValue { subkey: r"Control Panel\Desktop", name: "LogPixels", reg_type: "REG_DWORD", data: "96" },
                RegistryValue { subkey: r"Control Panel\Desktop", name: "Win8DpiScaling", reg_type: "REG_DWORD", data: "1" },
                RegistryValue { subkey: r"Control Panel\Desktop", name: "DpiScalingVer", reg_type: "REG_DWORD", data: "4120" },
            ],
        )
    } else if str_equal(fix_id, "wallpaper_host") {
        hive_edit(
            r"Windows\System32\config\default",
            "PE-DEFAULT",
            vec![
                RegistryValue { subkey: r"Control Panel\Desktop", name: "Wallpaper", reg_type: "REG_SZ", data: r"X:\Windows\Web\Wallpaper\Windows\wallpaper.jpg" },
                RegistryValue { subkey: r"Control Panel\Desktop", name: "WallpaperStyle", reg_type: "REG_SZ", data: "10" },
                RegistryValue { subkey: r"Control Panel\Desktop", name: "TileWallpaper", reg_type: "REG_SZ", data: "0" },
                RegistryValue { subkey: r"Software\Microsoft\Internet Explorer\Desktop\General", name: "WallpaperSource", reg_type: "REG_SZ", data: r"X:\Windows\Web\Wallpaper\Windows\wallpaper.jpg" },
            ],
        )
    } else if str_equal(fix_id, "font_fix") {
        hive_edit(
            r"Windows\System32\config\SOFTWARE",
            "_WinPE_Font_Fix",
            vec![
                RegistryValue { subkey: r"Microsoft\Windows NT\CurrentVersion\Fonts", name: "Segoe UI Italic (TrueType)", reg_type: "REG_SZ", data: "segoeui.ttf" },
            ],
        )
    } else if str_equal(fix_id, "disable_crash_dialogs") {
        hive_edit(
            r"Windows\System32\config\SOFTWARE",
            "_WinPE_Crash_Fix",
            vec![
                RegistryValue { subkey: r"Microsoft\Windows\Windows Error Reporting", name: "DontShowUI", reg_type: "REG_DWORD", data: "1" },
                RegistryValue { subkey: r"Microsoft\Windows NT\CurrentVersion\AeDebug", name: "Auto", reg_type: "REG_SZ", data: "0" },
            ],
        )
    } else if str_equal(fix_id, "enable_long_paths") {
        hive_edit(
            r"Windows\System32\config\SYSTEM",
            "_WinPE_LongPath_Fix",
            vec![
                RegistryValue { subkey: r"ControlSet001\Control\FileSystem", name: "LongPathsEnabled", reg_type: "REG_DWORD", data: "1" },
            ],
        )
    } else {
        None
    };
    proof {
        if let Some(e) = &r {
            assert(e@.values =~= hive_edit_for(fix_id@)->0.values);
        }
    }
    r
}

/// The full key of a subkey of a hive loaded under `HKLM\<hive_name>`.
pub open spec fn hive_key(hive_name: Seq<char>, subkey: Seq<char>) -> Seq<char> {
    "HKLM\\"@ + hive_name + "\\"@ + subkey
}

/// `HKLM\<hive_name>\<subkey>`, the key that `reg add` writes to.
pub fn loaded_hive_key(hive_name: &str, subkey: &str) -> (r: String)
    ensures
        r@ == hive_key(hive_name@, subkey@),
{
    let mut k = String::new();
    push_str(&mut k, "HKLM\\");
    push_str(&mut k, hive_name);
    push_str(&mut k, "\\");
    push_str(&mut k, subkey);
    k
}

/// `HKLM\<hive_name>`, where `reg load` mounts the hive.
pub fn loaded_hive_root(hive_name: &str) -> (r: String)
    ensures
        r@ == "HKLM\\"@ + hive_name@,
{
    let mut k = String::new();
    push_str(&mut k, "HKLM\\");
    push_str(&mut k, hive_name);
    k
}

/// Whether a `reg load` of the wallpaper fix's hive counts as loaded: it
/// succeeded, or it failed because the hive is already loaded.
pub fn hive_load_accepted(succeeded: bool, stderr: &str) -> (r: bool)
    ensures
        r == (succeeded || contains(stderr@, "already in use"@) || contains(
            stderr@,
            "being used"@,
        )),
{
    succeeded || str_contains(stderr, "already in use") || str_contains(stderr, "being used")
}

/// The file the wallpaper fix removes (or renames to `.exe.bak`).
pub fn wallpaper_host_file() -> (r: &'static str)
    ensures
        r@ == r"Windows\System32\WallpaperHost.exe"@,
{
    r"Windows\System32\WallpaperHost.exe"
}

/// What removing the wallpaper host leaves as the setup error: none when the
/// file was deleted, or, failing that, renamed out of the way; otherwise the
/// error of the deletion.
pub fn wallpaper_removal_error(remove_error: Option<String>, rename_succeeded: bool) -> (r: Option<
    String,
>)
    ensures
        r == (if remove_error is None || rename_succeeded {
            None
        } else {
            remove_error
        }),
{
    match remove_error {
        None => None,
        Some(e) => if rename_succeeded {
            None
        } else {
            Some(e)
        },
    }
}

/// Whether a `reg add` counts as done: it ran and succeeded (`Some(true)`),
/// or it could not be started and such a write is not counted as a failure.
pub open spec fn write_counts_as_set(w: Option<bool>, unstarted_write_fails: bool) -> bool {
    match w {
        Some(ok) => ok,
        None => !unstarted_write_fails,
    }
}

/// Whether every value of a hive edit was set: the load could be started (or
/// an unstarted `reg` is not counted against the fix), and, when the hive
/// was loaded and accepted, every write counted as done. `writes` holds one
/// entry per value written: `Some(succeeded)`, or `None` when `reg` could
/// not be started.
pub fn hive_values_all_set(
    load_started: bool,
    accepted: bool,
    writes: &[Option<bool>],
    unstarted_write_fails: bool,
) -> (r: bool)
    ensures
        r == (!(!load_started && unstarted_write_fails) && (load_started && accepted ==> forall|
            i: int,
        | 0 <= i < writes@.len() ==> write_counts_as_set(#[trigger] writes@[i], unstarted_write_fails))),
{
    let mut all_set = !(!load_started && unstarted_write_fails);
    if load_started && accepted {
        let mut i: usize = 0;
        let mut every: bool = true;
        while i < writes.len()
            invariant
                i <= writes@.len(),
                every == forall|k: int|
                    0 <= k < i ==> write_counts_as_set(#[trigger] writes@[k], unstarted_write_fails),
            decreases writes@.len() - i,
        {
            let ok = match writes[i] {
                Some(b) => b,
                None => !unstarted_write_fails,
            };
            every = every && ok;
            i = i + 1;
        }
        all_set = all_set && every;
    }
    all_set
}

/// Where the font fix writes its .reg file under the mounted image.
pub fn font_fix_reg_path() -> (r: &'static str)
    ensures
        r@ == r"Windows\Setup\FontFix.reg"@,
{
    r"Windows\Setup\FontFix.reg"
}

/// The .reg file of the font fix, which maps both italic Segoe UI faces to
/// their regular files.
pub open spec fn font_fix_reg_text() -> Seq<char> {
    "Windows Registry Editor Version 5.00\n\n; Fix Segoe UI Italic rendering issue in WinPE\n; Maps italic variant to regular to prevent garbled text\n\n[HKEY_LOCAL_MACHINE\\SOFTWARE\\Microsoft\\Windows NT\\CurrentVersion\\Fonts]\n\"Segoe UI Italic (TrueType)\"=\"segoeui.ttf\"\n\"Segoe UI Bold Italic (TrueType)\"=\"segoeuib.ttf\"\n"@
}

pub fn font_fix_reg_content() -> (r: &'static str)
    ensures
        r@ == font_fix_reg_text(),
{
    "Windows Registry Editor Version 5.00\n\n; Fix Segoe UI Italic rendering issue in WinPE\n; Maps italic variant to regular to prevent garbled text\n\n[HKEY_LOCAL_MACHINE\\SOFTWARE\\Microsoft\\Windows NT\\CurrentVersion\\Fonts]\n\"Segoe UI Italic (TrueType)\"=\"segoeui.ttf\"\n\"Segoe UI Bold Italic (TrueType)\"=\"segoeuib.ttf\"\n"
}


// ---------------------------------------------------------------------------
// Applying a selection of fixes
// ---------------------------------------------------------------------------

/// The interface name of the fix `id` in `s`, if `s` has it.
pub open spec fn fix_name_of(s: Seq<FixView>, id: Seq<char>) -> Option<Seq<char>>
    decreases s.len(),
{
    if s.len() == 0 {
        None
    } else if s[0].id == id {
        Some(s[0].display_name)
    } else {
        fix_name_of(s.drop_first(), id)
    }
}

fn find_fix_name(fixes: &Vec<PeFix>, id: &str) -> (r: Option<&'static str>)
    ensures
        match fix_name_of(fix_views(fixes@), id@) {
            Some(n) => r matches Some(x) && x@ == n,
            None => r is None,
        },
{
    let ghost all = fix_views(fixes@);
    let mut i: usize = 0;
    proof {
        assert(all.skip(0) =~= all);
    }
    while i < fixes.len()
        invariant
            i <= fixes@.len(),
            all == fix_views(fixes@),
            fix_name_of(all, id@) == fix_name_of(all.skip(i as int), id@),
        decreases fixes@.len() - i,
    {
        proof {
            assert(all.skip(i as int)[0] == fixes@[i as int]@);
            assert(all.skip(i as int).drop_first() =~= all.skip(i + 1));
        }
        if str_equal(fixes[i].id, id) {
            return Some(fixes[i].display_name);
        }
        i = i + 1;
    }
    proof {
        assert(all.skip(i as int) =~= Seq::<FixView>::empty());
    }
    None
}

/// A fix to apply, with what the progress report shows for it: its name,
/// its position among the selected identifiers (from 1) and their count.
pub struct ScheduledFix {
    pub fix_id: String,
    pub display_name: &'static str,
    pub position: usize,
    pub total: usize,
}

/// For each selected identifier that names a fix, in order: the identifier,
/// the fix's name and its position among all selected identifiers (from 1).
/// Unknown identifiers are skipped but keep their place in the count.
pub open spec fn fix_schedule_of(ids: Seq<Seq<char>>) -> Seq<(Seq<char>, Seq<char>, nat)>
    decreases ids.len(),
{
    if ids.len() == 0 {
        Seq::empty()
    } else {
        let rest = fix_schedule_of(ids.drop_last());
        match fix_name_of(fix_catalog(), ids.last()) {
            Some(name) => rest.push((ids.last(), name, ids.len())),
            None => rest,
        }
    }
}

pub open spec fn scheduled_views(s: Seq<ScheduledFix>) -> Seq<(Seq<char>, Seq<char>, nat)> {
    s.map_values(|f: ScheduledFix| (f.fix_id@, f.display_name@, f.position as nat))
}

/// The fixes to apply for a selection, in the order selected, each with its
/// progress position; every entry's `total` is the number of selected
/// identifiers.
pub fn fix_schedule(enabled_fix_ids: &[String]) -> (r: Vec<ScheduledFix>)
    ensures
        scheduled_views(r@) == fix_schedule_of(strings_of(enabled_fix_ids@)),
        forall|k: int| 0 <= k < r@.len() ==> #[trigger] r@[k].total == enabled_fix_ids@.len(),
{
    let all = get_all_fixes();
    let total = enabled_fix_ids.len();
    let mut r: Vec<ScheduledFix> = Vec::new();
    let mut i: usize = 0;
    while i < enabled_fix_ids.len()
        invariant
            i <= enabled_fix_ids@.len(),
            total == enabled_fix_ids@.len(),
            fix_views(all@) == fix_catalog(),
            scheduled_views(r@) == fix_schedule_of(strings_of(enabled_fix_ids@.take(i as int))),
            forall|k: int| 0 <= k < r@.len() ==> #[trigger] r@[k].total == total,
        decreases enabled_fix_ids@.len() - i,
    {
        let id = &enabled_fix_ids[i];
        let ghost ids = strings_of(enabled_fix_ids@.take(i + 1));
        proof {
            assert(ids.drop_last() =~= strings_of(enabled_fix_ids@.take(i as int)));
            assert(ids.last() == id@);
        }
        match find_fix_name(&all, id.as_str()) {
            Some(name) => {
                let ghost before = r@;
                r.push(
                    ScheduledFix { fix_id: id.clone(), display_name: name, position: i + 1, total },
                );
                proof {
                    assert(scheduled_views(r@) =~= scheduled_views(before).push(
                        (id@, name@, (i + 1) as nat),
                    ));
                }
            },
            None => {},
        }
        i = i + 1;
    }
    proof {
        assert(enabled_fix_ids@.take(i as int) =~= enabled_fix_ids@);
    }
    r
}


/// What applying a fix does on the mounted image, besides its hive edit.
#[derive(Debug, Clone, Copy, PartialEq, Eq, Structural)]
pub enum FixSteps {
    /// Only the hive edit; the hive must be there. A value write that could
    /// not even be started counts as failed when `unstarted_write_fails`.
    HiveOnly { unstarted_write_fails: bool },
    /// Remove (or else rename) WallpaperHost.exe, then edit the hive when
    /// it is there, counting a hive already loaded as loaded.
    RemoveFileThenHive,
    /// Write the font .reg file, then edit the hive when it is there.
    WriteFileThenHive,
    /// Nothing: the identifier names no fix.
    Unknown,
}

pub open spec fn fix_steps_for(id: Seq<char>) -> FixSteps {
    if id == "wallpaper_host"@ {
        FixSteps::RemoveFileThenHive
    } else if id == "font_fix"@ {
        FixSteps::WriteFileThenHive
    } else if id == "dpi_scaling"@ || id == "disable_crash_dialogs"@ {
        FixSteps::HiveOnly { unstarted_write_fails: false }
    } else if id == "enable_long_paths"@ {
        FixSteps::HiveOnly { unstarted_write_fails: true }
    } else {
        FixSteps::Unknown
    }
}

/// The steps of the fix `fix_id`.
pub fn fix_steps(fix_id: &str) -> (r: FixSteps)
    ensures
        r == fix_steps_for(fix_id@),
{
    if str_equal(fix_id, "wallpaper_host") {
        FixSteps::RemoveFileThenHive
    } else if str_equal(fix_id, "font_fix") {
        FixSteps::WriteFileThenHive
    } else if str_equal(fix_id, "dpi_scaling") || str_equal(fix_id, "disable_crash_dialogs") {
        FixSteps::HiveOnly { unstarted_write_fails: false }
    } else if str_equal(fix_id, "enable_long_paths") {
        FixSteps::HiveOnly { unstarted_write_fails: true }
    } else {
        FixSteps::Unknown
    }
}

} // verus!
