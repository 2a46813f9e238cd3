//! Post-install scripts and saved deployment profiles: which files count as
//! scripts, the batch file that runs them in order with a log, how the
//! installed system is told to run it, and how profiles are named and
//! listed.

use vstd::prelude::*;
use crate::deploy::DeployConfig;
use crate::text::{push_str, str_equal, string_from, strings_of, to_chars, to_lowercase, unicode_lowercase};

verus! {

// ---------------------------------------------------------------------------
// Names in order
// ---------------------------------------------------------------------------

/// `a` sorts before or equal to `b` as Rust orders strings: character by
/// character by code point, a prefix first.
pub open spec fn lex_le(a: Seq<char>, b: Seq<char>) -> bool
    decreases a.len(),
{
    if a.len() == 0 {
        true
    } else if b.len() == 0 {
        false
    } else if (a[0] as u32) != (b[0] as u32) {
        (a[0] as u32) < (b[0] as u32)
    } else {
        lex_le(a.drop_first(), b.drop_first())
    }
}

/// Any two names are ordered one way or the other.
pub proof fn lemma_lex_total(a: Seq<char>, b: Seq<char>)
    ensures
        lex_le(a, b) || lex_le(b, a),
    decreases a.len(),
{
    if a.len() > 0 && b.len() > 0 && (a[0] as u32) == (b[0] as u32) {
        lemma_lex_total(a.drop_first(), b.drop_first());
    }
}

/// The order is transitive.
pub proof fn lemma_lex_transitive(a: Seq<char>, b: Seq<char>, c: Seq<char>)
    requires
        lex_le(a, b),
        lex_le(b, c),
    ensures
        lex_le(a, c),
    decreases a.len(),
{
    if a.len() > 0 && b.len() > 0 && c.len() > 0 && (a[0] as u32) == (b[0] as u32) && (b[0] as u32)
        == (c[0] as u32) {
        lemma_lex_transitive(a.drop_first(), b.drop_first(), c.drop_first());
    }
}

/// Whether `a` sorts before or equal to `b`.
pub fn str_le(a: &str, b: &str) -> (r: bool)
    ensures
        r == lex_le(a@, b@),
{
    let ac = to_chars(a);
    let bc = to_chars(b);
    let mut i: usize = 0;
    proof {
        assert(ac@.skip(0) =~= ac@);
        assert(bc@.skip(0) =~= bc@);
    }
    while i < ac.len() && i < bc.len()
        invariant
            i <= ac@.len(),
            i <= bc@.len(),
            ac@ == a@,
            bc@ == b@,
            lex_le(a@, b@) == lex_le(ac@.skip(i as int), bc@.skip(i as int)),
        decreases ac@.len() - i,
    {
        let x = ac[i];
        let y = bc[i];
        proof {
            assert(ac@.skip(i as int)[0] == x);
            assert(bc@.skip(i as int)[0] == y);
            assert(ac@.skip(i as int).drop_first() =~= ac@.skip(i + 1));
            assert(bc@.skip(i as int).drop_first() =~= bc@.skip(i + 1));
        }
        if (x as u32) != (y as u32) {
            return (x as u32) < (y as u32);
        }
        i = i + 1;
    }
    i == ac.len()
}

pub open spec fn sorted_names(s: Seq<Seq<char>>) -> bool {
    forall|i: int, j: int| 0 <= i < j < s.len() ==> lex_le(#[trigger] s[i], #[trigger] s[j])
}

/// `names` in ascending order (the same names, as many times each).
pub fn sort_names(names: Vec<String>) -> (r: Vec<String>)
    ensures
        sorted_names(strings_of(r@)),
        strings_of(r@).to_multiset() == strings_of(names@).to_multiset(),
{
    broadcast use vstd::seq_lib::to_multiset_build, vstd::seq_lib::to_multiset_insert;

    let mut r: Vec<String> = Vec::new();
    let mut i: usize = 0;
    proof {
        assert(strings_of(names@).take(0) =~= Seq::<Seq<char>>::empty());
        assert(strings_of(r@) =~= Seq::<Seq<char>>::empty());
    }
    while i < names.len()
        invariant
            i <= names@.len(),
            sorted_names(strings_of(r@)),
            strings_of(r@).to_multiset() == strings_of(names@).take(i as int).to_multiset(),
        decreases names@.len() - i,
    {
        let x = names[i].clone();
        let mut pos: usize = 0;
        while pos < r.len() && str_le(r[pos].as_str(), x.as_str())
            invariant
                pos <= r@.len(),
                forall|k: int| 0 <= k < pos ==> lex_le(#[trigger] strings_of(r@)[k], x@),
            decreases r@.len() - pos,
        {
            pos = pos + 1;
        }
        let ghost before = strings_of(r@);
        proof {
            if pos < r@.len() {
                lemma_lex_total(before[pos as int], x@);
            }
        }
        r.insert(pos, x);
        proof {
            let after = strings_of(r@);
            assert(after =~= before.insert(pos as int, names@[i as int]@));
            assert forall|a: int, b: int| 0 <= a < b < after.len() implies lex_le(
                #[trigger] after[a],
                #[trigger] after[b],
            ) by {
                if b < pos {
                    assert(after[a] == before[a] && after[b] == before[b]);
                } else if b == pos {
                    assert(after[a] == before[a]);
                } else if a == pos {
                    assert(after[b] == before[b - 1]);
                    if b - 1 > pos {
                        lemma_lex_transitive(x@, before[pos as int], before[b - 1]);
                    }
                } else if a < pos {
                    assert(after[a] == before[a] && after[b] == before[b - 1]);
                } else {
                    assert(after[a] == before[a - 1] && after[b] == before[b - 1]);
                }
            }
            assert(strings_of(names@).take(i + 1) =~= strings_of(names@).take(i as int).push(
                names@[i as int]@,
            ));
            vstd::seq_lib::to_multiset_insert(before, pos as int, names@[i as int]@);
            vstd::seq_lib::to_multiset_build(strings_of(names@).take(i as int), names@[i as int]@);
        }
        i = i + 1;
    }
    proof {
        assert(strings_of(names@).take(names@.len() as int) =~= strings_of(names@));
    }
    r
}

// ---------------------------------------------------------------------------
// File extensions
// ---------------------------------------------------------------------------

/// The index of the last `.` in `name`, or -1.
pub open spec fn last_dot(name: Seq<char>) -> int
    decreases name.len(),
{
    if name.len() == 0 {
        -1
    } else if name.last() == '.' {
        name.len() - 1
    } else {
        last_dot(name.drop_last())
    }
}

proof fn lemma_last_dot_bounds(name: Seq<char>)
    ensures
        -1 <= last_dot(name) < name.len(),
        last_dot(name) >= 0 ==> name[last_dot(name)] == '.',
    decreases name.len(),
{
    if name.len() > 0 && name.last() != '.' {
        lemma_last_dot_bounds(name.drop_last());
    }
}

/// The extension of a file name, as `Path::extension` gives it: what
/// follows the last `.`, unless that `.` starts the name or there is none.
pub open spec fn name_extension(name: Seq<char>) -> Option<Seq<char>> {
    if last_dot(name) > 0 {
        Some(name.skip(last_dot(name) + 1))
    } else {
        None
    }
}

/// The name without its extension, as `Path::file_stem` gives it for a name
/// that has one.
pub open spec fn name_stem(name: Seq<char>) -> Seq<char> {
    if last_dot(name) > 0 {
        name.take(last_dot(name))
    } else {
        name
    }
}

fn last_dot_exec(cs: &Vec<char>) -> (r: usize)
    ensures
        r as int == last_dot(cs@) + 1,
{
    let mut n: usize = cs.len();
    proof {
        assert(cs@.take(n as int) =~= cs@);
    }
    while n > 0
        invariant
            n <= cs@.len(),
            last_dot(cs@) == last_dot(cs@.take(n as int)),
        decreases n,
    {
        proof {
            assert(cs@.take(n as int).last() == cs@[n - 1]);
            assert(cs@.take(n as int).drop_last() =~= cs@.take(n - 1));
        }
        if cs[n - 1] == '.' {
            return n;
        }
        n = n - 1;
    }
    proof {
        assert(cs@.take(0) =~= Seq::<char>::empty());
    }
    0
}

/// The extension of a file name, if it has one.
pub fn file_extension(name: &str) -> (r: Option<String>)
    ensures
        match name_extension(name@) {
            Some(e) => r matches Some(x) && x@ == e,
            None => r is None,
        },
{
    let cs = to_chars(name);
    let d = last_dot_exec(&cs);
    proof {
        lemma_last_dot_bounds(cs@);
    }
    if d > 1 {
        let e = string_from(&cs.as_slice()[d..cs.len()]);
        proof {
            assert(cs@.subrange(d as int, cs@.len() as int) =~= cs@.skip(d as int));
        }
        Some(e)
    } else {
        None
    }
}

/// The name without its extension.
pub fn file_stem(name: &str) -> (r: String)
    ensures
        r@ == name_stem(name@),
{
    let cs = to_chars(name);
    let d = last_dot_exec(&cs);
    proof {
        lemma_last_dot_bounds(cs@);
    }
    if d > 1 {
        let s = string_from(&cs.as_slice()[0..d - 1]);
        proof {
            assert(cs@.subrange(0, d - 1) =~= cs@.take(d - 1));
        }
        s
    } else {
        name.to_owned()
    }
}

// ---------------------------------------------------------------------------
// Scripts
// ---------------------------------------------------------------------------

/// The script types that can run at first logon, by lowercased extension.
pub open spec fn script_extension(lower_ext: Seq<char>) -> bool {
    lower_ext == "ps1"@ || lower_ext == "bat"@ || lower_ext == "cmd"@ || lower_ext == "exe"@
        || lower_ext == "reg"@ || lower_ext == "vbs"@
}

/// Whether a lowercased extension is a script type.
pub fn is_script_extension(lower_ext: &str) -> (r: bool)
    ensures
        r == script_extension(lower_ext@),
{
    str_equal(lower_ext, "ps1") || str_equal(lower_ext, "bat") || str_equal(lower_ext, "cmd")
        || str_equal(lower_ext, "exe") || str_equal(lower_ext, "reg") || str_equal(
        lower_ext,
        "vbs",
    )
}

/// A file counts as a script when its extension, lowercased, is a script
/// type.
pub open spec fn script_name(name: Seq<char>) -> bool {
    match name_extension(name) {
        Some(e) => script_extension(unicode_lowercase(e)),
        None => false,
    }
}

/// Whether the file `name` is a script.
pub fn is_script_file(name: &str) -> (r: bool)
    ensures
        r == script_name(name@),
{
    match file_extension(name) {
        Some(e) => {
            let lower = to_lowercase(e.as_str());
            is_script_extension(lower.as_str())
        },
        None => false,
    }
}

/// The script names among `names`, in order.
pub open spec fn scripts_among(names: Seq<Seq<char>>) -> Seq<Seq<char>>
    decreases names.len(),
{
    if names.len() == 0 {
        Seq::empty()
    } else if script_name(names.last()) {
        scripts_among(names.drop_last()).push(names.last())
    } else {
        scripts_among(names.drop_last())
    }
}

/// The scripts among the files of the scripts folder, sorted by name.
pub fn select_scripts(file_names: &Vec<String>) -> (r: Vec<String>)
    ensures
        sorted_names(strings_of(r@)),
        strings_of(r@).to_multiset() == scripts_among(strings_of(file_names@)).to_multiset(),
{
    let mut kept: Vec<String> = Vec::new();
    let mut i: usize = 0;
    while i < file_names.len()
        invariant
            i <= file_names@.len(),
            strings_of(kept@) == scripts_among(strings_of(file_names@.take(i as int))),
        decreases file_names@.len() - i,
    {
        let n = &file_names[i];
        proof {
            assert(strings_of(file_names@.take(i + 1)).drop_last() =~= strings_of(
                file_names@.take(i as int),
            ));
            assert(strings_of(file_names@.take(i + 1)).last() == n@);
        }
        if is_script_file(n.as_str()) {
            let ghost before = strings_of(kept@);
            kept.push(n.clone());
            proof {
                assert(strings_of(kept@) =~= before.push(n@));
            }
        }
        i = i + 1;
    }
    proof {
        assert(file_names@.take(file_names@.len() as int) =~= file_names@);
    }
    sort_names(kept)
}

/// Where the batch file logs, on the installed system.
pub open spec fn run_all_log() -> Seq<char> {
    r"C:\Temp\MasterBooter\RunAll.log"@
}

/// The line that runs one script, by its lowercased extension: PowerShell
/// with the execution policy bypassed for `.ps1`, `reg import` for `.reg`,
/// `call` for the rest; each with its output appended to the log.
pub open spec fn invocation_line(name: Seq<char>, lower_ext: Seq<char>) -> Seq<char> {
    if lower_ext == "ps1"@ {
        "powershell.exe -ExecutionPolicy Bypass -NonInteractive -File \"%~dp0"@ + name
            + "\" >> \""@ + run_all_log() + "\" 2>&1\r\n"@
    } else if lower_ext == "reg"@ {
        "reg import \"%~dp0"@ + name + "\" >> \""@ + run_all_log() + "\" 2>&1\r\n"@
    } else {
        "call \"%~dp0"@ + name + "\" >> \""@ + run_all_log() + "\" 2>&1\r\n"@
    }
}

/// The lines for one script: log its start, run it, log its exit code and
/// a blank line.
pub open spec fn script_block(name: Seq<char>, lower_ext: Seq<char>) -> Seq<char> {
    "echo [%TIME%] Running: "@ + name + " >> \""@ + run_all_log() + "\"\r\n"@ + invocation_line(
        name,
        lower_ext,
    ) + "echo [%TIME%] Finished: "@ + name + " (exit code: %ERRORLEVEL%) >> \""@ + run_all_log()
        + "\"\r\n"@ + "echo. >> \""@ + run_all_log() + "\"\r\n\r\n"@
}

/// The lowercased extension a script is run by (none counts as empty).
pub open spec fn run_extension(name: Seq<char>) -> Seq<char> {
    match name_extension(name) {
        Some(e) => unicode_lowercase(e),
        None => Seq::empty(),
    }
}

pub open spec fn script_blocks(names: Seq<Seq<char>>) -> Seq<char>
    decreases names.len(),
{
    if names.len() == 0 {
        Seq::empty()
    } else {
        script_blocks(names.drop_last()) + script_block(names.last(), run_extension(names.last()))
    }
}

pub open spec fn run_all_header() -> Seq<char> {
    "@echo off\r\nREM ============================================\r\nREM MasterBooter Post-Install Scripts\r\nREM This file was generated by MasterBooter.\r\nREM It runs all FirstLogon scripts in order.\r\nREM ============================================\r\n\r\n"@
        + "echo ============================================ >> \""@ + run_all_log() + "\"\r\n"@
        + "echo MasterBooter Scripts - Started: %DATE% %TIME% >> \""@ + run_all_log()
        + "\"\r\n"@ + "echo ============================================ >> \""@ + run_all_log()
        + "\"\r\n\r\n"@
}

pub open spec fn run_all_footer() -> Seq<char> {
    "echo ============================================ >> \""@ + run_all_log() + "\"\r\n"@
        + "echo All scripts finished: %DATE% %TIME% >> \""@ + run_all_log() + "\"\r\n"@
        + "echo ============================================ >> \""@ + run_all_log()
        + "\"\r\n"@
}

/// RunAll.bat: runs the scripts in the given order, logging each one's
/// start, output and exit code.
pub open spec fn run_all_text(names: Seq<Seq<char>>) -> Seq<char> {
    run_all_header() + script_blocks(names) + run_all_footer()
}

fn push_log(out: &mut String)
    ensures
        final(out)@ == old(out)@ + run_all_log(),
{
    push_str(out, r"C:\Temp\MasterBooter\RunAll.log");
}

/// The lines that run one script, given its lowercased extension (empty
/// when it has none).
pub fn script_lines(name: &str, lower_ext: &str) -> (r: String)
    ensures
        r@ == script_block(name@, lower_ext@),
{
    let mut b = String::new();
    push_str(&mut b, "echo [%TIME%] Running: ");
    push_str(&mut b, name);
    push_str(&mut b, " >> \"");
    push_log(&mut b);
    push_str(&mut b, "\"\r\n");
    let ghost mid = b@;
    if str_equal(lower_ext, "ps1") {
        push_str(&mut b, "powershell.exe -ExecutionPolicy Bypass -NonInteractive -File \"%~dp0");
    } else if str_equal(lower_ext, "reg") {
        push_str(&mut b, "reg import \"%~dp0");
    } else {
        push_str(&mut b, "call \"%~dp0");
    }
    push_str(&mut b, name);
    push_str(&mut b, "\" >> \"");
    push_log(&mut b);
    push_str(&mut b, "\" 2>&1\r\n");
    proof {
        assert(b@ =~= mid + invocation_line(name@, lower_ext@));
    }
    push_str(&mut b, "echo [%TIME%] Finished: ");
    push_str(&mut b, name);
    push_str(&mut b, " (exit code: %ERRORLEVEL%) >> \"");
    push_log(&mut b);
    push_str(&mut b, "\"\r\n");
    push_str(&mut b, "echo. >> \"");
    push_log(&mut b);
    push_str(&mut b, "\"\r\n\r\n");
    proof {
        assert(b@ =~= script_block(name@, lower_ext@));
    }
    b
}

/// The text of RunAll.bat for the scripts, in the order given.
pub fn run_all_batch(script_names: &Vec<String>) -> (r: String)
    ensures
        r@ == run_all_text(strings_of(script_names@)),
{
    let mut b = String::new();
    push_str(
        &mut b,
        "@echo off\r\nREM ============================================\r\nREM MasterBooter Post-Install Scripts\r\nREM This file was generated by MasterBooter.\r\nREM It runs all FirstLogon scripts in order.\r\nREM ============================================\r\n\r\n",
    );
    push_str(&mut b, "echo ============================================ >> \"");
    push_log(&mut b);
    push_str(&mut b, "\"\r\n");
    push_str(&mut b, "echo MasterBooter Scripts - Started: %DATE% %TIME% >> \"");
    push_log(&mut b);
    push_str(&mut b, "\"\r\n");
    push_str(&mut b, "echo ============================================ >> \"");
    push_log(&mut b);
    push_str(&mut b, "\"\r\n\r\n");
    proof {
        assert(b@ =~= run_all_header());
    }
    let ghost names = strings_of(script_names@);
    let mut i: usize = 0;
    while i < script_names.len()
        invariant
            i <= script_names@.len(),
            names == strings_of(script_names@),
            b@ == run_all_header() + script_blocks(names.take(i as int)),
        decreases script_names@.len() - i,
    {
        let name = script_names[i].as_str();
        let lower_ext = match file_extension(name) {
            Some(e) => to_lowercase(e.as_str()),
            None => String::new(),
        };
        let lines = script_lines(name, lower_ext.as_str());
        push_str(&mut b, lines.as_str());
        proof {
            assert(names.take(i + 1).drop_last() =~= names.take(i as int));
            assert(names.take(i + 1).last() == name@);
            assert(lower_ext@ == run_extension(name@));
            assert(b@ =~= run_all_header() + script_blocks(names.take(i + 1)));
        }
        i = i + 1;
    }
    push_str(&mut b, "echo ============================================ >> \"");
    push_log(&mut b);
    push_str(&mut b, "\"\r\n");
    push_str(&mut b, "echo All scripts finished: %DATE% %TIME% >> \"");
    push_log(&mut b);
    push_str(&mut b, "\"\r\n");
    push_str(&mut b, "echo ============================================ >> \"");
    push_log(&mut b);
    push_str(&mut b, "\"\r\n");
    proof {
        assert(names.take(i as int) =~= names);
        assert(b@ =~= run_all_text(names));
    }
    b
}

/// Where the scripts and RunAll.bat go on the installed system's drive.
pub fn scripts_target_folder(target_drive: &str) -> (r: String)
    ensures
        r@ == target_drive@ + r"\Temp\MasterBooter"@,
{
    let mut s = String::new();
    push_str(&mut s, target_drive);
    push_str(&mut s, r"\Temp\MasterBooter");
    s
}

/// What makes the installed system run RunAll.bat once at the first logon
/// when there is no answer file: its SOFTWARE hive (on `target_drive`),
/// the key it is loaded under, the RunOnce key inside it, and the value
/// name and command set there.
pub struct RunOnceRegistration {
    pub hive_file: String,
    pub mount_key: String,
    pub run_once_key: String,
    pub value_name: String,
    pub command: String,
}

/// `r` is the run-once registration for the system on `target_drive`.
pub open spec fn run_once_for(r: RunOnceRegistration, target_drive: Seq<char>) -> bool {
    &&& r.hive_file@ == target_drive + r"\Windows\System32\Config\SOFTWARE"@
    &&& r.mount_key@ == r"HKLM\TEMP_MASTERBOOTER"@
    &&& r.run_once_key@ == r"HKLM\TEMP_MASTERBOOTER"@ + r"\Microsoft\Windows\CurrentVersion\RunOnce"@
    &&& r.value_name@ == "MasterBooterScripts"@
    &&& r.command@ == r#"cmd /c "C:\Temp\MasterBooter\RunAll.bat""#@
}

pub fn run_once_registration(target_drive: &str) -> (r: RunOnceRegistration)
    ensures
        run_once_for(r, target_drive@),
{
    let mut hive_file = String::new();
    push_str(&mut hive_file, target_drive);
    push_str(&mut hive_file, r"\Windows\System32\Config\SOFTWARE");
    let mut run_once_key = String::new();
    push_str(&mut run_once_key, r"HKLM\TEMP_MASTERBOOTER");
    push_str(&mut run_once_key, r"\Microsoft\Windows\CurrentVersion\RunOnce");
    RunOnceRegistration {
        hive_file,
        mount_key: r"HKLM\TEMP_MASTERBOOTER".to_owned(),
        run_once_key,
        value_name: "MasterBooterScripts".to_owned(),
        command: r#"cmd /c "C:\Temp\MasterBooter\RunAll.bat""#.to_owned(),
    }
}

/// What copying the first-logon scripts to the installed system does: the
/// folder they go to, the RunAll.bat text written there, and, in normal
/// mode (no answer file runs them), the run-once registration.
pub struct ScriptCopyPlan {
    pub target_folder: String,
    pub run_all: String,
    pub run_once: Option<RunOnceRegistration>,
}

/// The message when no installed system was found to copy the scripts to.
pub open spec fn no_target_message() -> Seq<char> {
    "Could not find newly installed Windows. Scripts not copied."@
}

/// The plan for copying `scripts` (already selected and sorted) to the
/// system found on `target_drive`: nothing to do without scripts (`Ok(None)`,
/// whatever the drive), an error without a target drive, else the folder,
/// RunAll.bat and, only in normal mode, the run-once registration.
pub fn script_copy_plan(scripts: &Vec<String>, target_drive: Option<&str>, normal_mode: bool) -> (r:
    Result<Option<ScriptCopyPlan>, String>)
    ensures
        scripts@.len() == 0 ==> r == Ok::<Option<ScriptCopyPlan>, String>(None),
        scripts@.len() > 0 && target_drive is None ==> (r matches Err(e) && e@ == no_target_message()),
        scripts@.len() > 0 && target_drive is Some ==> (r matches Ok(Some(plan)) && {
            let d = target_drive->0@;
            &&& plan.target_folder@ == d + r"\Temp\MasterBooter"@
            &&& plan.run_all@ == run_all_text(strings_of(scripts@))
            &&& (normal_mode <==> plan.run_once is Some)
            &&& (plan.run_once matches Some(reg) ==> run_once_for(reg, d))
        }),
{
    if scripts.len() == 0 {
        return Ok(None);
    }
    match target_drive {
        None => Err("Could not find newly installed Windows. Scripts not copied.".to_owned()),
        Some(d) => {
            let run_once = if normal_mode {
                Some(run_once_registration(d))
            } else {
                None
            };
            Ok(
                Some(
                    ScriptCopyPlan {
                        target_folder: scripts_target_folder(d),
                        run_all: run_all_batch(scripts),
                        run_once,
                    },
                ),
            )
        },
    }
}

// ---------------------------------------------------------------------------
// Profiles
// ---------------------------------------------------------------------------

/// Whether `c` is alphabetic or numeric in Unicode, as `char::is_alphanumeric`
/// says.
pub uninterp spec fn unicode_alphanumeric(c: char) -> bool;

/// `char::is_alphanumeric`. Claimed: the result is `unicode_alphanumeric(c)`,
/// a fixed function of the character (the Unicode tables are not stated).
#[verifier::external_body]
fn is_alphanumeric(c: char) -> (r: bool)
    ensures
        r == unicode_alphanumeric(c),
{
    c.is_alphanumeric()
}

/// A character kept in a profile's file name: alphanumeric, space, `-`, `_`.
pub open spec fn profile_char(c: char) -> bool {
    unicode_alphanumeric(c) || c == ' ' || c == '-' || c == '_'
}

pub open spec fn sanitized(name: Seq<char>) -> Seq<char>
    decreases name.len(),
{
    if name.len() == 0 {
        Seq::empty()
    } else if profile_char(name.last()) {
        sanitized(name.drop_last()).push(name.last())
    } else {
        sanitized(name.drop_last())
    }
}

/// A sanitized profile name holds only characters allowed in it, and
/// sanitizing it again changes nothing.
pub proof fn lemma_sanitized_is_clean(name: Seq<char>)
    ensures
        forall|i: int| 0 <= i < sanitized(name).len() ==> profile_char(#[trigger] sanitized(name)[i]),
        sanitized(sanitized(name)) == sanitized(name),
    decreases name.len(),
{
    if name.len() > 0 {
        let rest = name.drop_last();
        lemma_sanitized_is_clean(rest);
        if profile_char(name.last()) {
            let t = sanitized(rest).push(name.last());
            assert(t.drop_last() =~= sanitized(rest));
            assert(t.last() == name.last());
            assert(sanitized(t) == sanitized(sanitized(rest)).push(name.last()));
        }
    }
}

/// The profile name with every character that may not go into a file name
/// removed (path separators among them).
pub fn sanitize_profile_name(name: &str) -> (r: String)
    ensures
        r@ == sanitized(name@),
{
    let cs = to_chars(name);
    let mut r = String::new();
    let mut i: usize = 0;
    while i < cs.len()
        invariant
            i <= cs@.len(),
            cs@ == name@,
            r@ == sanitized(cs@.take(i as int)),
        decreases cs@.len() - i,
    {
        let c = cs[i];
        proof {
            assert(cs@.take(i + 1).drop_last() =~= cs@.take(i as int));
            assert(cs@.take(i + 1).last() == c);
        }
        if is_alphanumeric(c) || c == ' ' || c == '-' || c == '_' {
            r.push(c);
        }
        i = i + 1;
    }
    proof {
        assert(cs@.take(i as int) =~= cs@);
    }
    r
}

/// The file a profile is saved to: its sanitized name with `.json`; an
/// error when nothing of the name is left.
pub fn profile_file_name(name: &str) -> (r: Result<String, String>)
    ensures
        sanitized(name@).len() == 0 ==> (r matches Err(e) && e@ == "Profile name cannot be empty"@),
        sanitized(name@).len() > 0 ==> (r matches Ok(f) && f@ == sanitized(name@) + ".json"@),
{
    let mut safe = sanitize_profile_name(name);
    if safe.as_str().is_empty() {
        return Err("Profile name cannot be empty".to_owned());
    }
    push_str(&mut safe, ".json");
    Ok(safe)
}

/// The configuration as a profile keeps it: without the image, the edition
/// and its index, which belong to one session.
pub fn profile_for_saving(config: DeployConfig) -> (r: DeployConfig)
    ensures
        r == (DeployConfig {
            wim_path: r.wim_path,
            edition: r.edition,
            edition_index: 0,
            ..config
        }),
        r.wim_path@.len() == 0,
        r.edition@.len() == 0,
{
    let mut c = config;
    c.wim_path = String::new();
    c.edition = String::new();
    c.edition_index = 0;
    c
}

/// The profile names among `names`: the stems of the names with the
/// extension `json` (exactly), in order.
pub open spec fn profiles_among(names: Seq<Seq<char>>) -> Seq<Seq<char>>
    decreases names.len(),
{
    if names.len() == 0 {
        Seq::empty()
    } else if name_extension(names.last()) == Some("json"@) {
        profiles_among(names.drop_last()).push(name_stem(names.last()))
    } else {
        profiles_among(names.drop_last())
    }
}

/// The saved profiles among the files of the profiles folder, by name,
/// sorted.
pub fn select_profiles(file_names: &Vec<String>) -> (r: Vec<String>)
    ensures
        sorted_names(strings_of(r@)),
        strings_of(r@).to_multiset() == profiles_among(strings_of(file_names@)).to_multiset(),
{
    let mut kept: Vec<String> = Vec::new();
    let mut i: usize = 0;
    while i < file_names.len()
        invariant
            i <= file_names@.len(),
            strings_of(kept@) == profiles_among(strings_of(file_names@.take(i as int))),
        decreases file_names@.len() - i,
    {
        let n = &file_names[i];
        proof {
            assert(strings_of(file_names@.take(i + 1)).drop_last() =~= strings_of(
                file_names@.take(i as int),
            ));
            assert(strings_of(file_names@.take(i + 1)).last() == n@);
        }
        let is_json = match file_extension(n.as_str()) {
            Some(e) => str_equal(e.as_str(), "json"),
            None => false,
        };
        if is_json {
            let ghost before = strings_of(kept@);
            let stem = file_stem(n.as_str());
            kept.push(stem);
            proof {
                assert(strings_of(kept@) =~= before.push(name_stem(n@)));
            }
        }
        i = i + 1;
    }
    proof {
        assert(file_names@.take(file_names@.len() as int) =~= file_names@);
    }
    sort_names(kept)
}

} // verus!
