//! Tools bundled into WinPE images: their manifests, which of them are
//! enabled, what kind of download each URL is, and the steps of fetching
//! and unpacking one tool, with the primary URL first and the fallback
//! after it.

use vstd::prelude::*;
use crate::text::{
    ends_with, push_str, starts_with, str_ends_with, str_equal, str_starts_with, to_lowercase,
    unicode_lowercase,
};
use crate::tools::{join, join_path};

verus! {

/// A tool that can go into a PE build, as its `tool.toml` describes it,
/// with the fields filled in when it is found on disk.
#[derive(Debug, Clone)]
pub struct PeTool {
    /// Display name of the tool
    pub name: String,
    /// Short description of what the tool does
    pub description: String,
    /// Category: shell, network, disk, security, utilities, system
    pub category: String,
    /// Version string
    pub version: String,
    /// Main executable file (relative to the tool folder)
    pub exe: String,
    /// Replaces the shell (only one can be active)
    pub is_shell: bool,
    /// Gets a desktop shortcut in PE
    pub create_shortcut: bool,
    /// Enabled unless the configuration says otherwise
    pub enabled_by_default: bool,
    /// Started when PE starts, before the shell
    pub auto_launch: bool,
    /// Primary download URL (the manufacturer)
    pub download_url: String,
    /// Fallback download URL (a mirror), tried when the primary fails
    pub fallback_url: String,
    /// The tool's folder
    pub folder_path: String,
    /// Enabled for the build
    pub enabled: bool,
    /// Its executable is present
    pub is_present: bool,
}

/// What a manifest that does not say whether to create a shortcut means.
pub fn default_true() -> (r: bool)
    ensures
        r,
{
    true
}

// ---------------------------------------------------------------------------
// Which tools are enabled
// ---------------------------------------------------------------------------

/// Which tools are enabled, by name, and the manifests of tools the user
/// added. An entry later in `enabled_tools` overrides an earlier one for
/// the same name.
#[derive(Debug, Clone)]
pub struct PeToolsConfig {
    pub enabled_tools: Vec<(String, bool)>,
    pub custom_tools: Vec<String>,
}

impl Default for PeToolsConfig {
    fn default() -> (r: Self)
        ensures
            r.enabled_tools@.len() == 0,
            r.custom_tools@.len() == 0,
    {
        PeToolsConfig { enabled_tools: Vec::new(), custom_tools: Vec::new() }
    }
}

pub open spec fn entry_views(s: Seq<(String, bool)>) -> Seq<(Seq<char>, bool)> {
    s.map_values(|e: (String, bool)| (e.0@, e.1))
}

/// The setting recorded for `name`: the value of the last entry for it.
pub open spec fn setting_of(s: Seq<(Seq<char>, bool)>, name: Seq<char>) -> Option<bool>
    decreases s.len(),
{
    if s.len() == 0 {
        None
    } else if s.last().0 == name {
        Some(s.last().1)
    } else {
        setting_of(s.drop_last(), name)
    }
}

/// Whether the tool `name` is enabled: its recorded setting, else its
/// manifest's default.
pub open spec fn tool_enabled(s: Seq<(Seq<char>, bool)>, name: Seq<char>, default: bool) -> bool {
    match setting_of(s, name) {
        Some(v) => v,
        None => default,
    }
}

impl PeToolsConfig {
    pub open spec fn settings(&self) -> Seq<(Seq<char>, bool)> {
        entry_views(self.enabled_tools@)
    }

    /// Whether the tool `name` is enabled, given its manifest's default.
    pub fn enabled_for(&self, name: &str, default: bool) -> (r: bool)
        ensures
            r == tool_enabled(self.settings(), name@, default),
    {
        let ghost s = self.settings();
        let mut i: usize = self.enabled_tools.len();
        proof {
            assert(s.take(i as int) =~= s);
        }
        while i > 0
            invariant
                i <= self.enabled_tools@.len(),
                s == self.settings(),
                setting_of(s, name@) == setting_of(s.take(i as int), name@),
            decreases i,
        {
            let e = &self.enabled_tools[i - 1];
            proof {
                assert(s.take(i as int).last() == (e.0@, e.1));
                assert(s.take(i as int).drop_last() =~= s.take(i - 1));
            }
            if str_equal(e.0.as_str(), name) {
                return e.1;
            }
            i = i - 1;
        }
        default
    }
}

/// Records whether the tool `tool_name` is enabled: afterwards it reads
/// back as `enabled`, and every other tool reads as before.
pub fn set_pe_tool_enabled(config: &mut PeToolsConfig, tool_name: &str, enabled: bool)
    ensures
        forall|n: Seq<char>|
            #[trigger] setting_of(final(config).settings(), n) == if n == tool_name@ {
                Some(enabled)
            } else {
                setting_of(old(config).settings(), n)
            },
        final(config).custom_tools@ == old(config).custom_tools@,
{
    let ghost s = config.settings();
    let mut updated: Vec<(String, bool)> = Vec::new();
    let mut found = false;
    let mut i: usize = 0;
    while i < config.enabled_tools.len()
        invariant
            i <= config.enabled_tools@.len(),
            s == config.settings(),
            found == (setting_of(s.take(i as int), tool_name@) is Some),
            forall|n: Seq<char>|
                #[trigger] setting_of(entry_views(updated@), n) == if n == tool_name@ && found {
                    Some(enabled)
                } else {
                    setting_of(s.take(i as int), n)
                },
        decreases config.enabled_tools@.len() - i,
    {
        let e = &config.enabled_tools[i];
        let matches = str_equal(e.0.as_str(), tool_name);
        let v = if matches {
            enabled
        } else {
            e.1
        };
        let ghost before = updated@;
        updated.push((e.0.clone(), v));
        proof {
            let nu = entry_views(updated@);
            let ns = s.take(i + 1);
            assert(nu =~= entry_views(before).push((e.0@, v)));
            assert(ns =~= s.take(i as int).push((e.0@, e.1)));
            assert(nu.drop_last() =~= entry_views(before));
            assert(ns.drop_last() =~= s.take(i as int));
            assert forall|n: Seq<char>|
                #[trigger] setting_of(nu, n) == if n == tool_name@ && (found || matches) {
                    Some(enabled)
                } else {
                    setting_of(ns, n)
                } by {
                assert(setting_of(nu, n) == if e.0@ == n {
                    Some(v)
                } else {
                    setting_of(entry_views(before), n)
                });
                assert(setting_of(ns, n) == if e.0@ == n {
                    Some(e.1)
                } else {
                    setting_of(s.take(i as int), n)
                });
            }
        }
        found = found || matches;
        i = i + 1;
    }
    if !found {
        let ghost before = updated@;
        updated.push((tool_name.to_owned(), enabled));
        proof {
            let nu = entry_views(updated@);
            assert(nu =~= entry_views(before).push((tool_name@, enabled)));
            assert(nu.drop_last() =~= entry_views(before));
            assert forall|n: Seq<char>|
                #[trigger] setting_of(nu, n) == if n == tool_name@ {
                    Some(enabled)
                } else {
                    setting_of(s.take(i as int), n)
                } by {
                assert(setting_of(nu, n) == if tool_name@ == n {
                    Some(enabled)
                } else {
                    setting_of(entry_views(before), n)
                });
            }
        }
    }
    proof {
        assert(s.take(i as int) =~= s);
    }
    config.enabled_tools = updated;
}

/// Setting a tool's flag and then reading it gives the flag back, whatever
/// the tool's default; other tools keep what they read before.
pub proof fn lemma_setting_reads_back(
    before: Seq<(Seq<char>, bool)>,
    after: Seq<(Seq<char>, bool)>,
    name: Seq<char>,
    enabled: bool,
    other: Seq<char>,
    default: bool,
)
    requires
        forall|n: Seq<char>|
            #[trigger] setting_of(after, n) == if n == name {
                Some(enabled)
            } else {
                setting_of(before, n)
            },
    ensures
        tool_enabled(after, name, default) == enabled,
        other != name ==> tool_enabled(after, other, default) == tool_enabled(
            before,
            other,
            default,
        ),
{
    assert(setting_of(after, name) == Some(enabled));
    assert(setting_of(after, other) == if other == name {
        Some(enabled)
    } else {
        setting_of(before, other)
    });
}

// ---------------------------------------------------------------------------
// Where the PE tools live
// ---------------------------------------------------------------------------

/// The PE tools folder: `pe_tools` next to the program if it is there,
/// else `pe_tools` in the working directory if that is there, else (to be
/// created) next to the program.
pub fn get_pe_tools_folder(app_dir: &str, next_to_program_exists: bool, in_working_dir_exists: bool) -> (r:
    String)
    ensures
        r@ == if !next_to_program_exists && in_working_dir_exists {
            "pe_tools"@
        } else {
            join_path(app_dir@, "pe_tools"@)
        },
{
    if !next_to_program_exists && in_working_dir_exists {
        "pe_tools".to_owned()
    } else {
        join(app_dir, "pe_tools")
    }
}

/// The folder that holds `path`: everything before its last separator
/// (the separator itself when it is the first character), or nothing when
/// it has none.
pub open spec fn parent_dir(path: Seq<char>) -> Seq<char>
    decreases path.len(),
{
    if path.len() == 0 {
        Seq::empty()
    } else if path.last() == '\\' || path.last() == '/' {
        if path.len() == 1 {
            path
        } else {
            path.drop_last()
        }
    } else {
        parent_dir(path.drop_last())
    }
}

fn parent_of(path: &str) -> (r: String)
    ensures
        r@ == parent_dir(path@),
{
    let cs = crate::text::to_chars(path);
    let mut n: usize = cs.len();
    proof {
        assert(cs@.take(n as int) =~= cs@);
    }
    while n > 0
        invariant
            n <= cs@.len(),
            cs@ == path@,
            parent_dir(cs@) == parent_dir(cs@.take(n as int)),
        decreases n,
    {
        let c = cs[n - 1];
        proof {
            assert(cs@.take(n as int).last() == c);
            assert(cs@.take(n as int).drop_last() =~= cs@.take(n - 1));
        }
        if c == '\\' || c == '/' {
            let keep = if n == 1 {
                1
            } else {
                n - 1
            };
            let r = crate::text::string_from(&cs.as_slice()[0..keep]);
            proof {
                assert(cs@.subrange(0, keep as int) =~= if n == 1 {
                    cs@.take(n as int)
                } else {
                    cs@.take(n as int).drop_last()
                });
            }
            return r;
        }
        n = n - 1;
    }
    proof {
        assert(cs@.take(0) =~= Seq::<char>::empty());
    }
    String::new()
}

/// The PE tools settings file, `pe_tools_config.json` beside the PE tools
/// folder.
pub fn get_config_path(tools_folder: &str) -> (r: String)
    ensures
        r@ == join_path(parent_dir(tools_folder@), "pe_tools_config.json"@),
{
    let parent = parent_of(tools_folder);
    join(parent.as_str(), "pe_tools_config.json")
}

/// The category folders searched for tools, in order.
pub fn tool_categories() -> (r: Vec<&'static str>)
    ensures
        r@.len() == 6,
        r@[0]@ == "shell"@,
        r@[1]@ == "network"@,
        r@[2]@ == "disk"@,
        r@[3]@ == "security"@,
        r@[4]@ == "utilities"@,
        r@[5]@ == "system"@,
{
    vec!["shell", "network", "disk", "security", "utilities", "system"]
}

// ---------------------------------------------------------------------------
// Downloads
// ---------------------------------------------------------------------------

/// The format of a download.
#[derive(Debug, Clone, Copy, PartialEq, Eq, Structural)]
pub enum PeDownloadType {
    /// .7z archive - extract with 7-Zip
    SevenZip,
    /// .zip archive - extract with 7-Zip or built-in
    Zip,
    /// Self-extracting installer (like 7-Zip itself)
    SelfExtractingExe,
    /// Direct executable - just download and place
    DirectExe,
    /// Unknown format
    Unknown,
}

/// The format of a download, by the ending of its lowercased URL: `.7z`,
/// `.zip`, or `.exe` (taken for a self-extracting installer).
pub open spec fn download_type_of(url_lower: Seq<char>) -> PeDownloadType {
    if ends_with(url_lower, ".7z"@) {
        PeDownloadType::SevenZip
    } else if ends_with(url_lower, ".zip"@) {
        PeDownloadType::Zip
    } else if ends_with(url_lower, ".exe"@) {
        PeDownloadType::SelfExtractingExe
    } else {
        PeDownloadType::Unknown
    }
}

/// The format of a download whose URL is already lowercased.
pub fn download_type_of_lowercase(url_lower: &str) -> (r: PeDownloadType)
    ensures
        r == download_type_of(url_lower@),
{
    if str_ends_with(url_lower, ".7z") {
        PeDownloadType::SevenZip
    } else if str_ends_with(url_lower, ".zip") {
        PeDownloadType::Zip
    } else if str_ends_with(url_lower, ".exe") {
        PeDownloadType::SelfExtractingExe
    } else {
        PeDownloadType::Unknown
    }
}

/// The format of a download, from its URL without regard to case.
pub fn detect_download_type(url: &str) -> (r: PeDownloadType)
    ensures
        r == download_type_of(unicode_lowercase(url@)),
{
    let lower = to_lowercase(url);
    download_type_of_lowercase(lower.as_str())
}

/// The name a download is saved under in the tool's folder.
pub open spec fn pe_temp_name(t: PeDownloadType) -> Seq<char> {
    match t {
        PeDownloadType::SevenZip => "download.7z"@,
        PeDownloadType::Zip => "download.zip"@,
        PeDownloadType::SelfExtractingExe => "download.exe"@,
        PeDownloadType::DirectExe => "download.exe"@,
        PeDownloadType::Unknown => "download.download"@,
    }
}

pub fn pe_temp_file(t: PeDownloadType) -> (r: String)
    ensures
        r@ == pe_temp_name(t),
{
    match t {
        PeDownloadType::SevenZip => "download.7z".to_owned(),
        PeDownloadType::Zip => "download.zip".to_owned(),
        PeDownloadType::SelfExtractingExe => "download.exe".to_owned(),
        PeDownloadType::DirectExe => "download.exe".to_owned(),
        PeDownloadType::Unknown => "download.download".to_owned(),
    }
}

/// The outcome of fetching one tool.
#[derive(Debug)]
pub struct PeDownloadResult {
    pub tool_name: String,
    pub success: bool,
    pub error_message: Option<String>,
    pub files_extracted: Vec<String>,
}

pub struct PeDownloadResultView {
    pub tool_name: Seq<char>,
    pub success: bool,
    pub error_message: Option<Seq<char>>,
    pub files_extracted: Seq<Seq<char>>,
}

impl View for PeDownloadResult {
    type V = PeDownloadResultView;

    open spec fn view(&self) -> PeDownloadResultView {
        PeDownloadResultView {
            tool_name: self.tool_name@,
            success: self.success,
            error_message: match self.error_message {
                Some(e) => Some(e@),
                None => None,
            },
            files_extracted: crate::text::strings_of(self.files_extracted@),
        }
    }
}

pub open spec fn download_failed(name: Seq<char>, error: Seq<char>) -> PeDownloadResultView {
    PeDownloadResultView {
        tool_name: name,
        success: false,
        error_message: Some(error),
        files_extracted: Seq::empty(),
    }
}

pub open spec fn download_succeeded(name: Seq<char>, files: Seq<Seq<char>>) -> PeDownloadResultView {
    PeDownloadResultView { tool_name: name, success: true, error_message: None, files_extracted: files }
}

/// Where fetching a tool stands: the URLs to try (the primary, then the
/// fallback, each when set), the one being tried, its format, and the
/// last error met.
pub struct PeDownload {
    pub tool_name: String,
    pub exe: String,
    pub urls: Vec<String>,
    pub attempt: usize,
    pub kind: PeDownloadType,
    pub last_error: String,
}

/// What to do next to fetch a tool.
pub enum PeDownloadAction {
    /// Create the tool's folder; answer with `FolderCreated`.
    CreateFolder,
    /// Report 0%, download `url` into `temp_file` in the tool's folder
    /// (removing it if that fails); answer with `Fetched`.
    Fetch { url: String, temp_file: String },
    /// Report 80%, unpack `temp_file` as `kind` says (an archive with
    /// 7-Zip, an installer by extracting or running it, a plain executable
    /// by renaming it to the tool's executable, an unknown format not at
    /// all), remove it, move a lone subfolder's contents up when the
    /// executable is not found, report 100%; answer with `Unpacked`.
    Unpack { kind: PeDownloadType, temp_file: String },
    /// Stop with this result.
    Done(PeDownloadResult),
}

/// What the last action came to.
pub enum PeDownloadEvent {
    FolderCreated(Result<(), String>),
    Fetched(Result<(), String>),
    /// The files unpacked, or why unpacking failed; for an unknown format
    /// the error's text is not used.
    Unpacked(Result<Vec<String>, String>),
}

/// Whether `r` is the state and action that try the URL at `index`: fetch
/// it into the temporary file for its format.
pub open spec fn tries_url(
    s: PeDownload,
    index: int,
    last_error: Seq<char>,
    r: (PeDownload, PeDownloadAction),
) -> bool {
    let url = s.urls@[index]@;
    let kind = download_type_of(unicode_lowercase(url));
    &&& r.0.tool_name@ == s.tool_name@
    &&& r.0.exe@ == s.exe@
    &&& r.0.urls@ == s.urls@
    &&& r.0.attempt == index
    &&& r.0.kind == kind
    &&& r.0.last_error@ == last_error
    &&& r.1 matches PeDownloadAction::Fetch { url: u, temp_file: t } && u@ == url && t@
        == pe_temp_name(kind)
}

/// Whether `r` moves on from the URL being tried after `error`: to the next
/// URL, or, when there is none, to a failure with `error`.
pub open spec fn moves_on(s: PeDownload, error: Seq<char>, r: (PeDownload, PeDownloadAction)) -> bool {
    if s.attempt + 1 < s.urls@.len() {
        tries_url(s, s.attempt + 1, error, r)
    } else {
        r.1 matches PeDownloadAction::Done(res) && res@ == download_failed(s.tool_name@, error)
    }
}

fn failed_result(tool_name: &String, error: String) -> (r: PeDownloadResult)
    ensures
        r@ == download_failed(tool_name@, error@),
{
    let r = PeDownloadResult {
        tool_name: tool_name.clone(),
        success: false,
        error_message: Some(error),
        files_extracted: Vec::new(),
    };
    proof {
        assert(r@.files_extracted =~= Seq::<Seq<char>>::empty());
    }
    r
}

fn try_url(s: PeDownload, index: usize, last_error: String) -> (r: (PeDownload, PeDownloadAction))
    requires
        index < s.urls@.len(),
    ensures
        tries_url(s, index as int, last_error@, r),
{
    let url = s.urls[index].clone();
    let kind = detect_download_type(url.as_str());
    let temp_file = pe_temp_file(kind);
    let next = PeDownload {
        tool_name: s.tool_name,
        exe: s.exe,
        urls: s.urls,
        attempt: index,
        kind,
        last_error,
    };
    (next, PeDownloadAction::Fetch { url, temp_file })
}

fn move_on(s: PeDownload, error: String) -> (r: (PeDownload, PeDownloadAction))
    ensures
        moves_on(s, error@, r),
{
    if s.attempt < s.urls.len() && s.attempt + 1 < s.urls.len() {
        let next = s.attempt + 1;
        try_url(s, next, error)
    } else {
        let result = failed_result(&s.tool_name, error.clone());
        let state = PeDownload {
            tool_name: s.tool_name,
            exe: s.exe,
            urls: s.urls,
            attempt: s.attempt,
            kind: s.kind,
            last_error: error,
        };
        (state, PeDownloadAction::Done(result))
    }
}

/// Starts fetching a tool. A tool with no URL at all fails at once; a tool
/// that is present succeeds at once with its executable; otherwise its
/// folder is created first.
pub fn start_pe_download(tool: &PeTool) -> (r: (PeDownload, PeDownloadAction))
    ensures
        tool.download_url@.len() == 0 && tool.fallback_url@.len() == 0 ==> (r.1 matches PeDownloadAction::Done(res)
            && res@ == download_failed(tool.name@, "No download URL specified"@)),
        !(tool.download_url@.len() == 0 && tool.fallback_url@.len() == 0) && tool.is_present
            ==> (r.1 matches PeDownloadAction::Done(res) && res@ == download_succeeded(
            tool.name@,
            seq![tool.exe@],
        )),
        !(tool.download_url@.len() == 0 && tool.fallback_url@.len() == 0) && !tool.is_present
            ==> r.1 is CreateFolder,
        r.0.tool_name@ == tool.name@,
        r.0.exe@ == tool.exe@,
        crate::text::strings_of(r.0.urls@) == (if tool.download_url@.len() > 0 {
            seq![tool.download_url@]
        } else {
            Seq::empty()
        }) + (if tool.fallback_url@.len() > 0 {
            seq![tool.fallback_url@]
        } else {
            Seq::empty()
        }),
        r.0.attempt == 0,
        r.0.last_error@.len() == 0,
{
    let mut urls: Vec<String> = Vec::new();
    if !tool.download_url.as_str().is_empty() {
        urls.push(tool.download_url.clone());
    }
    let ghost mid = urls@;
    if !tool.fallback_url.as_str().is_empty() {
        urls.push(tool.fallback_url.clone());
    }
    proof {
        assert(crate::text::strings_of(urls@) =~= (if tool.download_url@.len() > 0 {
            seq![tool.download_url@]
        } else {
            Seq::empty()
        }) + (if tool.fallback_url@.len() > 0 {
            seq![tool.fallback_url@]
        } else {
            Seq::empty()
        }));
    }
    let state = PeDownload {
        tool_name: tool.name.clone(),
        exe: tool.exe.clone(),
        urls,
        attempt: 0,
        kind: PeDownloadType::Unknown,
        last_error: String::new(),
    };
    if tool.download_url.as_str().is_empty() && tool.fallback_url.as_str().is_empty() {
        let result = failed_result(&tool.name, "No download URL specified".to_owned());
        (state, PeDownloadAction::Done(result))
    } else if tool.is_present {
        let result = PeDownloadResult {
            tool_name: tool.name.clone(),
            success: true,
            error_message: None,
            files_extracted: vec![tool.exe.clone()],
        };
        proof {
            assert(result@.files_extracted =~= seq![tool.exe@]);
        }
        (state, PeDownloadAction::Done(result))
    } else {
        (state, PeDownloadAction::CreateFolder)
    }
}

/// Takes one step of fetching a tool. A folder that cannot be created ends
/// it with that error; once the folder is there the first URL is tried. A
/// failed download or unpacking is remembered (`Download failed from
/// <url>: <error>`, `Extraction failed: <error>`) and the next URL is
/// tried; with none left the last error is the result. An unpacked
/// download ends it with the files unpacked.
pub fn pe_download_step(state: PeDownload, event: PeDownloadEvent) -> (r: (
    PeDownload,
    PeDownloadAction,
))
    ensures
        match event {
            PeDownloadEvent::FolderCreated(Err(e)) => r.1 matches PeDownloadAction::Done(res)
                && res@ == download_failed(state.tool_name@, "Failed to create folder: "@ + e@),
            PeDownloadEvent::FolderCreated(Ok(())) => if state.urls@.len() > 0 {
                tries_url(state, 0, state.last_error@, r)
            } else {
                r.1 matches PeDownloadAction::Done(res) && res@ == download_failed(
                    state.tool_name@,
                    state.last_error@,
                )
            },
            PeDownloadEvent::Fetched(Err(e)) => moves_on(
                state,
                "Download failed from "@ + (if state.attempt < state.urls@.len() {
                    state.urls@[state.attempt as int]@
                } else {
                    Seq::empty()
                }) + ": "@ + e@,
                r,
            ),
            PeDownloadEvent::Fetched(Ok(())) => r.1 matches PeDownloadAction::Unpack {
                kind: k,
                temp_file: t,
            } && k == state.kind && t@ == pe_temp_name(state.kind) && r.0 == state,
            PeDownloadEvent::Unpacked(u) => if state.kind == PeDownloadType::Unknown {
                moves_on(state, "Extraction failed: Unknown download format"@, r)
            } else {
                match u {
                    Ok(files) => r.1 matches PeDownloadAction::Done(res) && res@
                        == download_succeeded(state.tool_name@, crate::text::strings_of(files@)),
                    Err(e) => moves_on(state, "Extraction failed: "@ + e@, r),
                }
            },
        },
{
    match event {
        PeDownloadEvent::FolderCreated(Err(e)) => {
            let mut m = String::new();
            push_str(&mut m, "Failed to create folder: ");
            push_str(&mut m, e.as_str());
            let result = failed_result(&state.tool_name, m);
            (state, PeDownloadAction::Done(result))
        },
        PeDownloadEvent::FolderCreated(Ok(())) => {
            if state.urls.len() > 0 {
                let e = state.last_error.clone();
                try_url(state, 0, e)
            } else {
                let result = failed_result(&state.tool_name, state.last_error.clone());
                (state, PeDownloadAction::Done(result))
            }
        },
        PeDownloadEvent::Fetched(Err(e)) => {
            let mut m = String::new();
            push_str(&mut m, "Download failed from ");
            if state.attempt < state.urls.len() {
                push_str(&mut m, state.urls[state.attempt].as_str());
            }
            push_str(&mut m, ": ");
            push_str(&mut m, e.as_str());
            proof {
                assert(m@ =~= "Download failed from "@ + (if state.attempt < state.urls@.len() {
                    state.urls@[state.attempt as int]@
                } else {
                    Seq::empty()
                }) + ": "@ + e@);
            }
            move_on(state, m)
        },
        PeDownloadEvent::Fetched(Ok(())) => {
            let kind = state.kind;
            let temp_file = pe_temp_file(kind);
            (state, PeDownloadAction::Unpack { kind, temp_file })
        },
        PeDownloadEvent::Unpacked(u) => {
            if state.kind == PeDownloadType::Unknown {
                move_on(state, "Extraction failed: Unknown download format".to_owned())
            } else {
                match u {
                    Ok(files) => {
                        let result = PeDownloadResult {
                            tool_name: state.tool_name.clone(),
                            success: true,
                            error_message: None,
                            files_extracted: files,
                        };
                        (state, PeDownloadAction::Done(result))
                    },
                    Err(e) => {
                        let mut m = String::new();
                        push_str(&mut m, "Extraction failed: ");
                        push_str(&mut m, e.as_str());
                        move_on(state, m)
                    },
                }
            }
        },
    }
}

/// The tools to fetch before a build: every enabled tool that is not present
/// (in list order, as indices into `tools`); one with only a fallback URL is
/// fetched from that.
pub fn tools_needing_download(tools: &[PeTool]) -> (r: Vec<usize>)
    ensures
        forall|k: int| 0 <= k < r@.len() ==> #[trigger] r@[k] < tools@.len(),
        forall|k: int, l: int| 0 <= k < l < r@.len() ==> r@[k] < r@[l],
        forall|i: int|
            0 <= i < tools@.len() ==> (r@.contains(i as usize) <==> (tools@[i].enabled
                && !tools@[i].is_present)),
{
    let mut r: Vec<usize> = Vec::new();
    let mut i: usize = 0;
    while i < tools.len()
        invariant
            i <= tools@.len(),
            forall|k: int| 0 <= k < r@.len() ==> #[trigger] r@[k] < i,
            forall|k: int, l: int| 0 <= k < l < r@.len() ==> r@[k] < r@[l],
            forall|j: int|
                0 <= j < i ==> (r@.contains(j as usize) <==> (tools@[j].enabled
                    && !tools@[j].is_present)),
        decreases tools@.len() - i,
    {
        let t = &tools[i];
        if t.enabled && !t.is_present {
            let ghost before = r@;
            r.push(i);
            proof {
                assert forall|j: int| 0 <= j < i + 1 implies (r@.contains(j as usize) <==> (
                tools@[j].enabled && !tools@[j].is_present)) by {
                    if j < i {
                        if before.contains(j as usize) {
                            let k = choose|k: int| 0 <= k < before.len() && before[k] == j as usize;
                            assert(r@[k] == j as usize);
                        }
                        if r@.contains(j as usize) {
                            let k = choose|k: int| 0 <= k < r@.len() && r@[k] == j as usize;
                            assert(k < before.len());
                            assert(before[k] == j as usize);
                        }
                    } else {
                        assert(r@[before.len() as int] == i);
                    }
                }
            }
        } else {
            proof {
                assert(!r@.contains(i));
            }
        }
        i = i + 1;
    }
    r
}

/// Whether an unpacked tool's lone subfolder is moved up: the executable is
/// not where the manifest says, there is exactly one subfolder, and the
/// executable is in it.
pub fn flatten_single_subfolder(exe_in_folder: bool, subfolders: usize, exe_in_subfolder: bool) -> (r:
    bool)
    ensures
        r == (!exe_in_folder && subfolders == 1 && exe_in_subfolder),
{
    !exe_in_folder && subfolders == 1 && exe_in_subfolder
}

/// Whether a file found after unpacking an archive counts as unpacked: any
/// but the download itself (`download.*`).
pub fn archive_file_kept(name: &str) -> (r: bool)
    ensures
        r == !starts_with(name@, "download."@),
{
    !str_starts_with(name, "download.")
}

/// Whether a file found after extracting an installer counts, by its
/// lowercased name: an executable other than the download itself.
pub fn installer_exe_kept(lower_name: &str) -> (r: bool)
    ensures
        r == (!starts_with(lower_name@, "download."@) && ends_with(lower_name@, ".exe"@)),
{
    !str_starts_with(lower_name, "download.") && str_ends_with(lower_name, ".exe")
}

/// Whether a file found after running an installer counts, by its
/// lowercased name: any but the download itself.
pub fn installer_file_kept(lower_name: &str) -> (r: bool)
    ensures
        r == !starts_with(lower_name@, "download."@),
{
    !str_starts_with(lower_name, "download.")
}


/// The manifests written when the PE tools folder is first created (or
/// refreshed after an update): each tool's `tool.toml` path under the
/// folder, and its text.
pub open spec fn default_manifest_list() -> Seq<(Seq<char>, Seq<char>)> {
    seq![
        ("shell/WinXShell/tool.toml"@, r#"[tool]
name = "WinXShell"
description = "Desktop shell with taskbar, start menu, and system tray for WinPE"
category = "shell"
version = "2.5"
exe = "WinXShell_x64.exe"
is_shell = true
create_shortcut = false
enabled_by_default = true
auto_launch = false
download_url = "https://github.com/Howweird/Masterbooter-Tools/releases/download/v1.0/WinXShell.zip"
"#@),
        ("shell/Explorer++/tool.toml"@, r#"[tool]
name = "Explorer++"
description = "Lightweight file manager with tabbed browsing"
category = "shell"
version = "1.4.0"
exe = "Explorer++.exe"
is_shell = false
create_shortcut = true
enabled_by_default = true
auto_launch = false
download_url = "https://github.com/derceg/explorerplusplus/releases/download/version-1.4.0/explorerpp_x64.zip"
fallback_url = "https://github.com/Howweird/Masterbooter-Tools/releases/download/v1.0/Explorer++.zip"
"#@),
        ("shell/FileExplorer/tool.toml"@, r#"[tool]
name = "File Explorer"
description = "Lightweight dual-pane file explorer with search for WinPE and live Windows"
category = "shell"
version = "1.0"
exe = "File Explorer (PE).exe"
is_shell = false
create_shortcut = true
enabled_by_default = true
auto_launch = false
download_url = "https://www.pcassistsoftware.co.uk/downloads/File_Explorer_PE.7z"
fallback_url = "https://github.com/Howweird/Masterbooter-Tools/releases/download/v1.0/FileExplorer.zip"
"#@),
        ("network/PENetwork/tool.toml"@, r#"[tool]
name = "PENetwork"
description = "Network configuration tool for WinPE - IP, DNS, WiFi, shares"
category = "network"
version = "0.59.B12"
exe = "PENetwork.exe"
is_shell = false
create_shortcut = true
enabled_by_default = true
auto_launch = true
download_url = "https://github.com/Howweird/Masterbooter-Tools/releases/download/v1.0/PENetwork.zip"
"#@),
        ("network/WebBrowser/tool.toml"@, r#"[tool]
name = "Web Browser"
description = "Compact portable web browser for WinPE and live Windows"
category = "network"
version = "1.0"
exe = "Web Browser (PE).exe"
is_shell = false
create_shortcut = true
enabled_by_default = true
auto_launch = false
download_url = "https://www.pcassistsoftware.co.uk/downloads/Web_Browser_PE.7z"
fallback_url = "https://github.com/Howweird/Masterbooter-Tools/releases/download/v1.0/WebBrowser.zip"
"#@),
        ("disk/CrystalDiskInfo/tool.toml"@, r#"[tool]
name = "CrystalDiskInfo"
description = "Disk health monitoring and SMART data"
category = "disk"
version = "9.7.2"
exe = "DiskInfo64.exe"
is_shell = false
create_shortcut = true
enabled_by_default = true
download_url = "https://downloads.sourceforge.net/project/crystaldiskinfo/9.7.2/CrystalDiskInfo9_7_2.zip"
fallback_url = "https://github.com/Howweird/Masterbooter-Tools/releases/download/v1.0/CrystalDiskInfo.zip"
"#@),
        ("disk/DiskCheck/tool.toml"@, r#"[tool]
name = "Disk Check"
description = "Monitor hard drive SMART status in WinPE and live Windows"
category = "disk"
version = "1.0"
exe = "Disk Check (PE) x64.exe"
is_shell = false
create_shortcut = true
enabled_by_default = true
auto_launch = false
download_url = "https://www.pcassistsoftware.co.uk/downloads/Disk_Check_PE.7z"
fallback_url = "https://github.com/Howweird/Masterbooter-Tools/releases/download/v1.0/DiskCheck.zip"
"#@),
        ("system/DISMTool/tool.toml"@, r#"[tool]
name = "DISM Tool"
description = "GUI interface for DISM - works on running OS, mounted WIM, or offline OS"
category = "system"
version = "1.0"
exe = "DISM_Tool.exe"
is_shell = false
create_shortcut = true
enabled_by_default = true
auto_launch = false
download_url = "https://www.pcassistsoftware.co.uk/downloads/DISM_Tool.7z"
fallback_url = "https://github.com/Howweird/Masterbooter-Tools/releases/download/v1.0/DISMTool.zip"
"#@),
        ("utilities/7-Zip/tool.toml"@, r#"[tool]
name = "7-Zip"
description = "File archiver with high compression ratio"
category = "utilities"
version = "24.09"
exe = "7zFM.exe"
is_shell = false
create_shortcut = true
enabled_by_default = true
auto_launch = false
download_url = "https://github.com/Howweird/Masterbooter-Tools/releases/download/v1.0/7-Zip.zip"
"#@),
        ("utilities/Autoruns/tool.toml"@, r#"[tool]
name = "Autoruns"
description = "Sysinternals tool to view and manage auto-starting programs"
category = "utilities"
version = "14.11"
exe = "Autoruns64.exe"
is_shell = false
create_shortcut = true
enabled_by_default = true
auto_launch = false
download_url = "https://download.sysinternals.com/files/Autoruns.zip"
fallback_url = "https://github.com/Howweird/Masterbooter-Tools/releases/download/v1.0/Autoruns.zip"
"#@),
        ("utilities/EventViewer/tool.toml"@, r#"[tool]
name = "Event Viewer"
description = "Examine Windows event logs from WinPE or live Windows"
category = "utilities"
version = "1.0"
exe = "Event Viewer PE.exe"
is_shell = false
create_shortcut = true
enabled_by_default = true
auto_launch = false
download_url = "https://www.pcassistsoftware.co.uk/downloads/Event_Viewer_PE.7z"
fallback_url = "https://github.com/Howweird/Masterbooter-Tools/releases/download/v1.0/EventViewer.zip"
"#@),
        ("utilities/InstalledSoftware/tool.toml"@, r#"[tool]
name = "Installed Software"
description = "List installed software on host systems from WinPE or live Windows"
category = "utilities"
version = "1.0"
exe = "Installed Software PE.exe"
is_shell = false
create_shortcut = true
enabled_by_default = true
auto_launch = false
download_url = "https://www.pcassistsoftware.co.uk/downloads/Installed_Software_PE.7z"
fallback_url = "https://github.com/Howweird/Masterbooter-Tools/releases/download/v1.0/InstalledSoftware.zip"
"#@),
    ]
}

/// The default tool manifests, as (path under the PE tools folder, text).
pub fn default_manifests() -> (r: Vec<(&'static str, &'static str)>)
    ensures
        r@.map_values(|m: (&'static str, &'static str)| (m.0@, m.1@)) == default_manifest_list(),
{
    let r = vec![
        ("shell/WinXShell/tool.toml", r#"[tool]
name = "WinXShell"
description = "Desktop shell with taskbar, start menu, and system tray for WinPE"
category = "shell"
version = "2.5"
exe = "WinXShell_x64.exe"
is_shell = true
create_shortcut = false
enabled_by_default = true
auto_launch = false
download_url = "https://github.com/Howweird/Masterbooter-Tools/releases/download/v1.0/WinXShell.zip"
"#),
        ("shell/Explorer++/tool.toml", r#"[tool]
name = "Explorer++"
description = "Lightweight file manager with tabbed browsing"
category = "shell"
version = "1.4.0"
exe = "Explorer++.exe"
is_shell = false
create_shortcut = true
enabled_by_default = true
auto_launch = false
download_url = "https://github.com/derceg/explorerplusplus/releases/download/version-1.4.0/explorerpp_x64.zip"
fallback_url = "https://github.com/Howweird/Masterbooter-Tools/releases/download/v1.0/Explorer++.zip"
"#),
        ("shell/FileExplorer/tool.toml", r#"[tool]
name = "File Explorer"
description = "Lightweight dual-pane file explorer with search for WinPE and live Windows"
category = "shell"
version = "1.0"
exe = "File Explorer (PE).exe"
is_shell = false
create_shortcut = true
enabled_by_default = true
auto_launch = false
download_url = "https://www.pcassistsoftware.co.uk/downloads/File_Explorer_PE.7z"
fallback_url = "https://github.com/Howweird/Masterbooter-Tools/releases/download/v1.0/FileExplorer.zip"
"#),
        ("network/PENetwork/tool.toml", r#"[tool]
name = "PENetwork"
description = "Network configuration tool for WinPE - IP, DNS, WiFi, shares"
category = "network"
version = "0.59.B12"
exe = "PENetwork.exe"
is_shell = false
create_shortcut = true
enabled_by_default = true
auto_launch = true
download_url = "https://github.com/Howweird/Masterbooter-Tools/releases/download/v1.0/PENetwork.zip"
"#),
        ("network/WebBrowser/tool.toml", r#"[tool]
name = "Web Browser"
description = "Compact portable web browser for WinPE and live Windows"
category = "network"
version = "1.0"
exe = "Web Browser (PE).exe"
is_shell = false
create_shortcut = true
enabled_by_default = true
auto_launch = false
download_url = "https://www.pcassistsoftware.co.uk/downloads/Web_Browser_PE.7z"
fallback_url = "https://github.com/Howweird/Masterbooter-Tools/releases/download/v1.0/WebBrowser.zip"
"#),
        ("disk/CrystalDiskInfo/tool.toml", r#"[tool]
name = "CrystalDiskInfo"
description = "Disk health monitoring and SMART data"
category = "disk"
version = "9.7.2"
exe = "DiskInfo64.exe"
is_shell = false
create_shortcut = true
enabled_by_default = true
download_url = "https://downloads.sourceforge.net/project/crystaldiskinfo/9.7.2/CrystalDiskInfo9_7_2.zip"
fallback_url = "https://github.com/Howweird/Masterbooter-Tools/releases/download/v1.0/CrystalDiskInfo.zip"
"#),
        ("disk/DiskCheck/tool.toml", r#"[tool]
name = "Disk Check"
description = "Monitor hard drive SMART status in WinPE and live Windows"
category = "disk"
version = "1.0"
exe = "Disk Check (PE) x64.exe"
is_shell = false
create_shortcut = true
enabled_by_default = true
auto_launch = false
download_url = "https://www.pcassistsoftware.co.uk/downloads/Disk_Check_PE.7z"
fallback_url = "https://github.com/Howweird/Masterbooter-Tools/releases/download/v1.0/DiskCheck.zip"
"#),
        ("system/DISMTool/tool.toml", r#"[tool]
name = "DISM Tool"
description = "GUI interface for DISM - works on running OS, mounted WIM, or offline OS"
category = "system"
version = "1.0"
exe = "DISM_Tool.exe"
is_shell = false
create_shortcut = true
enabled_by_default = true
auto_launch = false
download_url = "https://www.pcassistsoftware.co.uk/downloads/DISM_Tool.7z"
fallback_url = "https://github.com/Howweird/Masterbooter-Tools/releases/download/v1.0/DISMTool.zip"
"#),
        ("utilities/7-Zip/tool.toml", r#"[tool]
name = "7-Zip"
description = "File archiver with high compression ratio"
category = "utilities"
version = "24.09"
exe = "7zFM.exe"
is_shell = false
create_shortcut = true
enabled_by_default = true
auto_launch = false
download_url = "https://github.com/Howweird/Masterbooter-Tools/releases/download/v1.0/7-Zip.zip"
"#),
        ("utilities/Autoruns/tool.toml", r#"[tool]
name = "Autoruns"
description = "Sysinternals tool to view and manage auto-starting programs"
category = "utilities"
version = "14.11"
exe = "Autoruns64.exe"
is_shell = false
create_shortcut = true
enabled_by_default = true
auto_launch = false
download_url = "https://download.sysinternals.com/files/Autoruns.zip"
fallback_url = "https://github.com/Howweird/Masterbooter-Tools/releases/download/v1.0/Autoruns.zip"
"#),
        ("utilities/EventViewer/tool.toml", r#"[tool]
name = "Event Viewer"
description = "Examine Windows event logs from WinPE or live Windows"
category = "utilities"
version = "1.0"
exe = "Event Viewer PE.exe"
is_shell = false
create_shortcut = true
enabled_by_default = true
auto_launch = false
download_url = "https://www.pcassistsoftware.co.uk/downloads/Event_Viewer_PE.7z"
fallback_url = "https://github.com/Howweird/Masterbooter-Tools/releases/download/v1.0/EventViewer.zip"
"#),
        ("utilities/InstalledSoftware/tool.toml", r#"[tool]
name = "Installed Software"
description = "List installed software on host systems from WinPE or live Windows"
category = "utilities"
version = "1.0"
exe = "Installed Software PE.exe"
is_shell = false
create_shortcut = true
enabled_by_default = true
auto_launch = false
download_url = "https://www.pcassistsoftware.co.uk/downloads/Installed_Software_PE.7z"
fallback_url = "https://github.com/Howweird/Masterbooter-Tools/releases/download/v1.0/InstalledSoftware.zip"
"#),
    ];
    proof {
        assert(r@.map_values(|m: (&'static str, &'static str)| (m.0@, m.1@)) =~= default_manifest_list());
    }
    r
}

/// The category folder created empty beside the manifests.
pub fn empty_category_folder() -> (r: &'static str)
    ensures
        r@ == "security"@,
{
    "security"
}


/// How many of the tools are present.
pub open spec fn present_count(tools: Seq<PeTool>) -> nat
    decreases tools.len(),
{
    if tools.len() == 0 {
        0
    } else {
        present_count(tools.drop_last()) + if tools.last().is_present {
            1nat
        } else {
            0nat
        }
    }
}

proof fn lemma_present_count_bounded(tools: Seq<PeTool>)
    ensures
        present_count(tools) <= tools.len(),
    decreases tools.len(),
{
    if tools.len() > 0 {
        lemma_present_count_bounded(tools.drop_last());
    }
}

/// The PE tools summary: `<present> of <total> downloaded`.
pub fn pe_tools_summary(tools: &[PeTool]) -> (r: String)
    ensures
        r@ == crate::text::decimal(present_count(tools@)) + " of "@ + crate::text::decimal(
            tools@.len() as nat,
        ) + " downloaded"@,
{
    let mut present: usize = 0;
    let mut i: usize = 0;
    while i < tools.len()
        invariant
            i <= tools@.len(),
            present == present_count(tools@.take(i as int)),
        decreases tools@.len() - i,
    {
        proof {
            assert(tools@.take(i + 1).drop_last() =~= tools@.take(i as int));
            assert(tools@.take(i + 1).last() == tools@[i as int]);
            lemma_present_count_bounded(tools@.take(i as int));
        }
        if tools[i].is_present {
            present = present + 1;
        }
        i = i + 1;
    }
    proof {
        assert(tools@.take(i as int) =~= tools@);
    }
    let mut s = String::new();
    crate::text::push_decimal(&mut s, present as u64);
    push_str(&mut s, " of ");
    crate::text::push_decimal(&mut s, tools.len() as u64);
    push_str(&mut s, " downloaded");
    s
}


/// How many of the results are successes.
pub open spec fn successes(results: Seq<PeDownloadResult>) -> nat
    decreases results.len(),
{
    if results.len() == 0 {
        0
    } else {
        successes(results.drop_last()) + if results.last().success {
            1nat
        } else {
            0nat
        }
    }
}

proof fn lemma_successes_bounded(results: Seq<PeDownloadResult>)
    ensures
        successes(results) <= results.len(),
    decreases results.len(),
{
    if results.len() > 0 {
        lemma_successes_bounded(results.drop_last());
    }
}

/// The status after fetching the checked tools: all fetched (some maybe
/// already there), all already there, or how many were fetched, failed and
/// were already there.
pub open spec fn download_status_text(succeeded: nat, failed: nat, skipped: nat) -> Seq<char> {
    if failed == 0 && succeeded > 0 {
        if skipped > 0 {
            crate::text::decimal(succeeded) + " downloaded, "@ + crate::text::decimal(skipped)
                + " already present"@
        } else {
            "All "@ + crate::text::decimal(succeeded) + " PE tools downloaded successfully"@
        }
    } else if succeeded == 0 && failed == 0 {
        "All checked PE tools already downloaded"@
    } else {
        crate::text::decimal(succeeded) + " downloaded, "@ + crate::text::decimal(failed)
            + " failed, "@ + crate::text::decimal(skipped) + " already present"@
    }
}

/// The status after fetching the tools, `enabled_count` of which were
/// checked; those checked but not fetched were already there.
pub fn pe_download_status(enabled_count: usize, results: &[PeDownloadResult]) -> (r: String)
    ensures
        ({
            let s = successes(results@);
            let f = results@.len() - s;
            let skipped = if enabled_count >= results@.len() {
                enabled_count - results@.len()
            } else {
                0
            };
            r@ == download_status_text(s, f as nat, skipped as nat)
        }),
{
    let mut succeeded: usize = 0;
    let mut i: usize = 0;
    while i < results.len()
        invariant
            i <= results@.len(),
            succeeded == successes(results@.take(i as int)),
        decreases results@.len() - i,
    {
        proof {
            assert(results@.take(i + 1).drop_last() =~= results@.take(i as int));
            assert(results@.take(i + 1).last() == results@[i as int]);
            lemma_successes_bounded(results@.take(i as int));
        }
        if results[i].success {
            succeeded = succeeded + 1;
        }
        i = i + 1;
    }
    proof {
        assert(results@.take(i as int) =~= results@);
        lemma_successes_bounded(results@);
    }
    let failed = results.len() - succeeded;
    let skipped = if enabled_count >= results.len() {
        enabled_count - results.len()
    } else {
        0
    };
    let mut m = String::new();
    if failed == 0 && succeeded > 0 {
        if skipped > 0 {
            crate::text::push_decimal(&mut m, succeeded as u64);
            push_str(&mut m, " downloaded, ");
            crate::text::push_decimal(&mut m, skipped as u64);
            push_str(&mut m, " already present");
        } else {
            push_str(&mut m, "All ");
            crate::text::push_decimal(&mut m, succeeded as u64);
            push_str(&mut m, " PE tools downloaded successfully");
        }
    } else if succeeded == 0 && failed == 0 {
        push_str(&mut m, "All checked PE tools already downloaded");
    } else {
        crate::text::push_decimal(&mut m, succeeded as u64);
        push_str(&mut m, " downloaded, ");
        crate::text::push_decimal(&mut m, failed as u64);
        push_str(&mut m, " failed, ");
        crate::text::push_decimal(&mut m, skipped as u64);
        push_str(&mut m, " already present");
    }
    m
}

} // verus!
