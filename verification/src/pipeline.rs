//! The steps of a deployment, as decisions between pieces of outside work.
//! Each function takes what the last piece of work came to and says what
//! progress to report and what to do next; the caller does the work (runs
//! diskpart, writes the answer file, waits for Windows Setup, ...) and
//! calls the function for its outcome.

use vstd::prelude::*;
use crate::deploy::{BootMode, DeployConfig, DeployResult, DiskInfo};
use crate::text::{push_signed_decimal, push_str, signed_decimal};
use crate::unattend::{answer_file, effective_product_key, generate_autounattend};

verus! {

// ---------------------------------------------------------------------------
// Hexadecimal exit codes
// ---------------------------------------------------------------------------

pub open spec fn hex_digit(d: nat) -> char {
    if d < 10 {
        (('0' as u32) + d) as char
    } else {
        (('A' as u32) + d - 10) as char
    }
}

/// `n` in upper-case hexadecimal, without leading zeros.
pub open spec fn hex_upper(n: nat) -> Seq<char>
    decreases n,
{
    if n < 16 {
        seq![hex_digit(n)]
    } else {
        hex_upper(n / 16).push(hex_digit(n % 16))
    }
}

fn hex_digit_exec(d: u64) -> (c: char)
    requires
        d < 16,
    ensures
        c == hex_digit(d as nat),
{
    if d < 10 {
        let b = (d as u8) + 48u8;
        b as char
    } else {
        let b = (d as u8) + 55u8;
        b as char
    }
}

/// Appends `n` in upper-case hexadecimal.
pub fn push_hex_upper(out: &mut String, n: u64)
    ensures
        final(out)@ == old(out)@ + hex_upper(n as nat),
    decreases n,
{
    if n >= 16 {
        push_hex_upper(out, n / 16);
    }
    let c = hex_digit_exec(n % 16);
    out.push(c);
    proof {
        if n < 16 {
            assert(n % 16 == n);
        }
    }
}

/// An exit code as `{:X}` shows an `i32`: the hexadecimal of its 32 bits.
pub open spec fn exit_code_hex(code: i32) -> Seq<char> {
    hex_upper((code as u32) as nat)
}

fn push_exit_code_hex(out: &mut String, code: i32)
    ensures
        final(out)@ == old(out)@ + exit_code_hex(code),
{
    let bits = code as u32;
    push_hex_upper(out, bits as u64);
}

// ---------------------------------------------------------------------------
// Steps and what they lead to
// ---------------------------------------------------------------------------

/// What to do next.
pub enum DeployAction {
    /// See whether dism.exe runs.
    CheckDism,
    /// Wipe and partition the disk with diskpart.
    FormatDisk { disk_id: i32, boot_mode: BootMode },
    /// Set the Windows 11 requirement bypass values (failures are only
    /// warnings).
    ApplyWin11Bypass,
    /// Write the answer file (autounattend.xml in the temporary folder).
    WriteAnswerFile { xml: String },
    /// Start setup.exe with the written answer file and without reboot.
    LaunchSetup,
    /// Look for setup.exe on the drives.
    FindSetup,
    /// Start setup.exe without an answer file and without reboot.
    LaunchInteractiveSetup,
    /// Wait for setup.exe to exit.
    WaitForSetup,
    /// Copy the first-logon scripts to the installed system (and, in
    /// normal mode, register them to run once).
    CopyScripts { normal_mode: bool },
    /// Restart the machine (shutdown, or wpeutil where that fails).
    Reboot,
    /// Stop with this result.
    Finish(DeployResult),
}

pub enum DeployActionView {
    CheckDism,
    FormatDisk { disk_id: i32, boot_mode: BootMode },
    ApplyWin11Bypass,
    WriteAnswerFile { xml: Seq<char> },
    LaunchSetup,
    FindSetup,
    LaunchInteractiveSetup,
    WaitForSetup,
    CopyScripts { normal_mode: bool },
    Reboot,
    Finish { success: bool, message: Seq<char> },
}

impl View for DeployAction {
    type V = DeployActionView;

    open spec fn view(&self) -> DeployActionView {
        match self {
            DeployAction::CheckDism => DeployActionView::CheckDism,
            DeployAction::FormatDisk { disk_id, boot_mode } => DeployActionView::FormatDisk {
                disk_id: *disk_id,
                boot_mode: *boot_mode,
            },
            DeployAction::ApplyWin11Bypass => DeployActionView::ApplyWin11Bypass,
            DeployAction::WriteAnswerFile { xml } => DeployActionView::WriteAnswerFile { xml: xml@ },
            DeployAction::LaunchSetup => DeployActionView::LaunchSetup,
            DeployAction::FindSetup => DeployActionView::FindSetup,
            DeployAction::LaunchInteractiveSetup => DeployActionView::LaunchInteractiveSetup,
            DeployAction::WaitForSetup => DeployActionView::WaitForSetup,
            DeployAction::CopyScripts { normal_mode } => DeployActionView::CopyScripts {
                normal_mode: *normal_mode,
            },
            DeployAction::Reboot => DeployActionView::Reboot,
            DeployAction::Finish(r) => DeployActionView::Finish {
                success: r.success,
                message: r.message@,
            },
        }
    }
}

/// The progress to report (percent and status, in order) and the next
/// action.
pub struct DeployStep {
    pub reports: Vec<(i32, String)>,
    pub action: DeployAction,
}

pub open spec fn report_views(v: Seq<(i32, String)>) -> Seq<(i32, Seq<char>)> {
    v.map_values(|r: (i32, String)| (r.0, r.1@))
}

impl View for DeployStep {
    type V = (Seq<(i32, Seq<char>)>, DeployActionView);

    open spec fn view(&self) -> (Seq<(i32, Seq<char>)>, DeployActionView) {
        (report_views(self.reports@), self.action@)
    }
}

/// How waiting for setup.exe ended.
pub enum SetupOutcome {
    /// It exited, successfully or not, with its exit code if it had one.
    Exited { success: bool, code: Option<i32> },
    /// Waiting for it failed.
    WaitFailed(String),
}

/// The percentage below which nothing is reported after `a` is done: each
/// step reports from the floor of the action that led to it up to the floor
/// of the action it asks for, so a whole run reports non-decreasing
/// percentages from 0 to 100.
pub open spec fn action_floor(a: DeployActionView) -> int {
    match a {
        DeployActionView::CheckDism => 5,
        DeployActionView::FormatDisk { .. } => 15,
        DeployActionView::ApplyWin11Bypass => 15,
        DeployActionView::WriteAnswerFile { .. } => 30,
        DeployActionView::LaunchSetup => 35,
        DeployActionView::FindSetup => 5,
        DeployActionView::LaunchInteractiveSetup => 15,
        DeployActionView::WaitForSetup => 40,
        DeployActionView::CopyScripts { .. } => 90,
        DeployActionView::Reboot => 95,
        DeployActionView::Finish { .. } => 100,
    }
}

/// A step's reports are non-decreasing percentages between `lo` and the
/// floor of the action it asks for (which is not below `lo`, and at most
/// 100), and a successful finish is reported at 100.
pub open spec fn progress_ok(step: (Seq<(i32, Seq<char>)>, DeployActionView), lo: int) -> bool {
    &&& lo <= action_floor(step.1)
    &&& forall|i: int|
        #![trigger step.0[i]]
        0 <= i < step.0.len() ==> lo <= step.0[i].0 && step.0[i].0 <= action_floor(step.1)
    &&& forall|i: int, j: int| 0 <= i < j < step.0.len() ==> step.0[i].0 <= step.0[j].0
    &&& (step.1 matches DeployActionView::Finish { success, .. } && success ==> step.0.len() > 0
        && step.0.last().0 == 100)
}

pub open spec fn fail(message: Seq<char>) -> DeployActionView {
    DeployActionView::Finish { success: false, message }
}

fn report(reports: &mut Vec<(i32, String)>, percent: i32, status: String)
    ensures
        report_views(final(reports)@) == report_views(old(reports)@).push((percent, status@)),
{
    let ghost before = reports@;
    reports.push((percent, status));
    proof {
        assert(report_views(reports@) =~= report_views(before).push((percent, status@)));
    }
}

fn finish(reports: Vec<(i32, String)>, success: bool, message: String) -> (r: DeployStep)
    ensures
        r@ == (report_views(reports@), DeployActionView::Finish { success, message: message@ }),
{
    DeployStep { reports, action: DeployAction::Finish(DeployResult { success, message }) }
}

fn message_with(prefix: &str, detail: &str) -> (r: String)
    ensures
        r@ == prefix@ + detail@,
{
    let mut m = String::new();
    push_str(&mut m, prefix);
    push_str(&mut m, detail);
    m
}

// ---------------------------------------------------------------------------
// Automated installation
// ---------------------------------------------------------------------------

/// The status shown while a disk is formatted: `Formatting Disk <n>
/// (<mode>)...`.
pub open spec fn formatting_status(disk_id: i32, mode: BootMode) -> Seq<char> {
    "Formatting Disk "@ + signed_decimal(disk_id as int) + " ("@ + (match mode {
        BootMode::UEFI => "UEFI"@,
        BootMode::BIOS => "BIOS"@,
    }) + ")..."@
}

/// Reports from generating the answer file up to writing it, and the write.
pub open spec fn answer_file_stage(c: DeployConfig, has_scripts: bool) -> (
    Seq<(i32, Seq<char>)>,
    DeployActionView,
) {
    (
        seq![
            (20i32, "Generating autounattend.xml..."@),
            (30i32, "autounattend.xml generated"@),
            (30i32, "Writing autounattend.xml..."@),
        ],
        DeployActionView::WriteAnswerFile {
            xml: answer_file(c, effective_product_key(c), has_scripts),
        },
    )
}

/// The bypass step when it is asked for, else straight on to the answer
/// file.
pub open spec fn bypass_stage(c: DeployConfig, has_scripts: bool) -> (
    Seq<(i32, Seq<char>)>,
    DeployActionView,
) {
    if c.bypass_win11 {
        (seq![(15i32, "Applying Windows 11 bypass..."@)], DeployActionView::ApplyWin11Bypass)
    } else {
        let next = answer_file_stage(c, has_scripts);
        (seq![(20i32, "Windows 11 bypass not needed"@)] + next.0, next.1)
    }
}

fn push_answer_file_stage(reports: Vec<(i32, String)>, c: &DeployConfig, has_scripts: bool) -> (r:
    DeployStep)
    ensures
        r@ == (
            report_views(reports@) + answer_file_stage(*c, has_scripts).0,
            answer_file_stage(*c, has_scripts).1,
        ),
{
    let mut reports = reports;
    let ghost start = report_views(reports@);
    report(&mut reports, 20, "Generating autounattend.xml...".to_owned());
    let xml = generate_autounattend(c, has_scripts);
    report(&mut reports, 30, "autounattend.xml generated".to_owned());
    report(&mut reports, 30, "Writing autounattend.xml...".to_owned());
    proof {
        assert(report_views(reports@) =~= start + answer_file_stage(*c, has_scripts).0);
    }
    DeployStep { reports, action: DeployAction::WriteAnswerFile { xml } }
}

fn push_bypass_stage(reports: Vec<(i32, String)>, c: &DeployConfig, has_scripts: bool) -> (r:
    DeployStep)
    ensures
        r@ == (
            report_views(reports@) + bypass_stage(*c, has_scripts).0,
            bypass_stage(*c, has_scripts).1,
        ),
{
    let mut reports = reports;
    let ghost start = report_views(reports@);
    if c.bypass_win11 {
        report(&mut reports, 15, "Applying Windows 11 bypass...".to_owned());
        proof {
            assert(report_views(reports@) =~= start + bypass_stage(*c, has_scripts).0);
        }
        DeployStep { reports, action: DeployAction::ApplyWin11Bypass }
    } else {
        report(&mut reports, 20, "Windows 11 bypass not needed".to_owned());
        let ghost mid = report_views(reports@);
        let r = push_answer_file_stage(reports, c, has_scripts);
        proof {
            assert(r@.0 =~= start + bypass_stage(*c, has_scripts).0);
        }
        r
    }
}

/// First step: check that an image and an edition are chosen, then see
/// whether DISM runs.
pub fn start_deploy(config: &DeployConfig) -> (r: DeployStep)
    ensures
        progress_ok(r@, 0),
        r@.0 == seq![(0i32, "Validating deployment configuration..."@)],
        r@.1 == if config.wim_path@.len() == 0 {
            fail(
                "No Windows image selected. Please browse for an install.wim or install.esd file."@,
            )
        } else if config.edition@.len() == 0 {
            fail("No Windows edition selected. Please select an edition from the image."@)
        } else {
            DeployActionView::CheckDism
        },
{
    let mut reports: Vec<(i32, String)> = Vec::new();
    report(&mut reports, 0, "Validating deployment configuration...".to_owned());
    proof {
        assert(report_views(reports@) =~= seq![(0i32, "Validating deployment configuration..."@)]);
    }
    if config.wim_path.as_str().is_empty() {
        finish(
            reports,
            false,
            "No Windows image selected. Please browse for an install.wim or install.esd file.".to_owned(),
        )
    } else if config.edition.as_str().is_empty() {
        finish(
            reports,
            false,
            "No Windows edition selected. Please select an edition from the image.".to_owned(),
        )
    } else {
        DeployStep { reports, action: DeployAction::CheckDism }
    }
}

/// After the DISM check: stop if DISM does not run; else format the chosen
/// disk, or with no disk chosen go on to the bypass.
pub fn after_dism_check(config: &DeployConfig, has_firstlogon_scripts: bool, dism_available: bool) -> (r:
    DeployStep)
    ensures
        progress_ok(r@, action_floor(DeployActionView::CheckDism)),
        !dism_available ==> r@ == (
            Seq::<(i32, Seq<char>)>::empty(),
            fail(
                "DISM is not available. Are you running from WinPE or a Windows environment?"@,
            ),
        ),
        dism_available && config.disk_id >= 0 ==> r@ == (
            seq![
                (5i32, "Configuration validated"@),
                (5i32, formatting_status(config.disk_id, config.boot_mode)),
            ],
            DeployActionView::FormatDisk { disk_id: config.disk_id, boot_mode: config.boot_mode },
        ),
        dism_available && config.disk_id < 0 ==> r@ == (
            seq![
                (5i32, "Configuration validated"@),
                (15i32, "Skipping disk format (Windows will choose)"@),
            ] + bypass_stage(*config, has_firstlogon_scripts).0,
            bypass_stage(*config, has_firstlogon_scripts).1,
        ),
{
    let mut reports: Vec<(i32, String)> = Vec::new();
    if !dism_available {
        proof {
            assert(report_views(reports@) =~= Seq::<(i32, Seq<char>)>::empty());
        }
        return finish(
            reports,
            false,
            "DISM is not available. Are you running from WinPE or a Windows environment?".to_owned(),
        );
    }
    report(&mut reports, 5, "Configuration validated".to_owned());
    if config.disk_id >= 0 {
        let mut status = String::new();
        push_str(&mut status, "Formatting Disk ");
        push_signed_decimal(&mut status, config.disk_id as i64);
        push_str(&mut status, " (");
        push_str(&mut status, config.boot_mode.as_str());
        push_str(&mut status, ")...");
        report(&mut reports, 5, status);
        proof {
            assert(report_views(reports@) =~= seq![
                (5i32, "Configuration validated"@),
                (5i32, formatting_status(config.disk_id, config.boot_mode)),
            ]);
        }
        DeployStep {
            reports,
            action: DeployAction::FormatDisk { disk_id: config.disk_id, boot_mode: config.boot_mode },
        }
    } else {
        report(&mut reports, 15, "Skipping disk format (Windows will choose)".to_owned());
        proof {
            let head = seq![
                (5i32, "Configuration validated"@),
                (15i32, "Skipping disk format (Windows will choose)"@),
            ];
            assert(report_views(reports@) =~= head);
            lemma_bypass_stage_progress(*config, has_firstlogon_scripts);
            assert(reports_between(head, 5, 15));
            lemma_reports_concat(
                head,
                bypass_stage(*config, has_firstlogon_scripts).0,
                5,
                15,
                action_floor(bypass_stage(*config, has_firstlogon_scripts).1),
            );
        }
        push_bypass_stage(reports, config, has_firstlogon_scripts)
    }
}

/// Reports between `lo` and `hi`, non-decreasing.
pub open spec fn reports_between(v: Seq<(i32, Seq<char>)>, lo: int, hi: int) -> bool {
    &&& forall|i: int| #![trigger v[i]] 0 <= i < v.len() ==> lo <= v[i].0 && v[i].0 <= hi
    &&& forall|i: int, j: int| 0 <= i < j < v.len() ==> v[i].0 <= v[j].0
}

proof fn lemma_reports_concat(a: Seq<(i32, Seq<char>)>, b: Seq<(i32, Seq<char>)>, lo: int, mid: int, hi: int)
    requires
        reports_between(a, lo, mid),
        reports_between(b, mid, hi),
        lo <= mid <= hi,
    ensures
        reports_between(a + b, lo, hi),
{
    let c = a + b;
    assert forall|i: int| #![trigger c[i]] 0 <= i < c.len() implies lo <= c[i].0 && c[i].0 <= hi by {
        if i < a.len() {
            assert(c[i] == a[i]);
            assert(lo <= a[i].0 <= mid);
        } else {
            assert(c[i] == b[i - a.len()]);
            assert(mid <= b[i - a.len()].0 <= hi);
        }
    }
    assert forall|i: int, j: int| 0 <= i < j < c.len() implies c[i].0 <= c[j].0 by {
        if j < a.len() {
            assert(c[i] == a[i]);
            assert(c[j] == a[j]);
        } else if i >= a.len() {
            assert(c[i] == b[i - a.len()]);
            assert(c[j] == b[j - a.len()]);
        } else {
            assert(c[i] == a[i]);
            assert(c[j] == b[j - a.len()]);
            assert(a[i].0 <= mid);
            assert(mid <= b[j - a.len()].0);
        }
    }
}

proof fn lemma_answer_file_stage_progress(c: DeployConfig, has_scripts: bool)
    ensures
        reports_between(answer_file_stage(c, has_scripts).0, 20, action_floor(answer_file_stage(c, has_scripts).1)),
{
}

proof fn lemma_bypass_stage_progress(c: DeployConfig, has_scripts: bool)
    ensures
        reports_between(bypass_stage(c, has_scripts).0, 15, action_floor(bypass_stage(c, has_scripts).1)),
{
    if !c.bypass_win11 {
        lemma_answer_file_stage_progress(c, has_scripts);
        lemma_reports_concat(seq![(20i32, "Windows 11 bypass not needed"@)], answer_file_stage(c, has_scripts).0, 15, 20, 30);
    }
}

/// The reports of a run of steps, in order.
pub open spec fn run_reports(steps: Seq<(Seq<(i32, Seq<char>)>, DeployActionView)>) -> Seq<
    (i32, Seq<char>),
>
    decreases steps.len(),
{
    if steps.len() == 0 {
        Seq::empty()
    } else {
        run_reports(steps.drop_last()) + steps.last().0
    }
}

/// Over a whole deployment (each step's reports meeting `progress_ok` from
/// the floor of the action before it, as every step function ensures, the
/// first from 0), the reported percentages never go down and stay within
/// 0..=100, and a run that finishes successfully ends at 100.
pub proof fn lemma_run_progress(steps: Seq<(Seq<(i32, Seq<char>)>, DeployActionView)>)
    requires
        steps.len() > 0,
        progress_ok(steps[0], 0),
        forall|k: int| 0 < k < steps.len() ==> progress_ok(#[trigger] steps[k], action_floor(steps[k - 1].1)),
    ensures
        reports_between(run_reports(steps), 0, 100),
        steps.last().1 matches DeployActionView::Finish { success, .. } && success ==> run_reports(steps).last().0 == 100,
    decreases steps.len(),
{
    lemma_run_prefix(steps, steps.len() as int);
    assert(steps.take(steps.len() as int) =~= steps);
    let last = steps.last();
    if last.1 matches DeployActionView::Finish { success, .. } && success {
        assert(run_reports(steps) == run_reports(steps.drop_last()) + last.0);
        assert(run_reports(steps).last() == last.0.last());
    }
}

proof fn lemma_run_prefix(steps: Seq<(Seq<(i32, Seq<char>)>, DeployActionView)>, n: int)
    requires
        0 < n <= steps.len(),
        progress_ok(steps[0], 0),
        forall|k: int| 0 < k < steps.len() ==> progress_ok(#[trigger] steps[k], action_floor(steps[k - 1].1)),
    ensures
        reports_between(run_reports(steps.take(n)), 0, action_floor(steps[n - 1].1)),
        0 <= action_floor(steps[n - 1].1) <= 100,
    decreases n,
{
    let p = steps.take(n);
    assert(p.drop_last() =~= steps.take(n - 1));
    assert(p.last() == steps[n - 1]);
    if n == 1 {
        assert(steps.take(0) =~= Seq::<(Seq<(i32, Seq<char>)>, DeployActionView)>::empty());
        lemma_reports_concat(Seq::empty(), steps[0].0, 0, 0, action_floor(steps[0].1));
        assert(Seq::<(i32, Seq<char>)>::empty() + steps[0].0 =~= steps[0].0);
    } else {
        lemma_run_prefix(steps, n - 1);
        assert(progress_ok(steps[n - 1], action_floor(steps[n - 2].1)));
        lemma_reports_concat(
            run_reports(steps.take(n - 1)),
            steps[n - 1].0,
            0,
            action_floor(steps[n - 2].1),
            action_floor(steps[n - 1].1),
        );
    }
}

/// After formatting: stop if it failed, else go on to the bypass.
pub fn after_disk_format(
    config: &DeployConfig,
    has_firstlogon_scripts: bool,
    result: Result<(), String>,
) -> (r: DeployStep)
    ensures
        progress_ok(r@, action_floor(DeployActionView::FormatDisk { disk_id: config.disk_id, boot_mode: config.boot_mode })),
        match result {
            Err(e) => r@ == (
                Seq::<(i32, Seq<char>)>::empty(),
                fail("Disk formatting failed: "@ + e@),
            ),
            Ok(()) => r@ == (
                seq![(15i32, "Disk formatted successfully"@)] + bypass_stage(
                    *config,
                    has_firstlogon_scripts,
                ).0,
                bypass_stage(*config, has_firstlogon_scripts).1,
            ),
        },
{
    let mut reports: Vec<(i32, String)> = Vec::new();
    match result {
        Err(e) => {
            proof {
                assert(report_views(reports@) =~= Seq::<(i32, Seq<char>)>::empty());
            }
            finish(reports, false, message_with("Disk formatting failed: ", e.as_str()))
        },
        Ok(()) => {
            report(&mut reports, 15, "Disk formatted successfully".to_owned());
            proof {
                assert(report_views(reports@) =~= seq![(15i32, "Disk formatted successfully"@)]);
                lemma_bypass_stage_progress(*config, has_firstlogon_scripts);
                lemma_reports_concat(
                    seq![(15i32, "Disk formatted successfully"@)],
                    bypass_stage(*config, has_firstlogon_scripts).0,
                    15,
                    15,
                    action_floor(bypass_stage(*config, has_firstlogon_scripts).1),
                );
            }
            push_bypass_stage(reports, config, has_firstlogon_scripts)
        },
    }
}

/// After the bypass (whose failures are only warnings): generate and write
/// the answer file.
pub fn after_win11_bypass(config: &DeployConfig, has_firstlogon_scripts: bool) -> (r: DeployStep)
    ensures
        progress_ok(r@, action_floor(DeployActionView::ApplyWin11Bypass)),
        r@ == (
            seq![(20i32, "Windows 11 bypass applied"@)] + answer_file_stage(
                *config,
                has_firstlogon_scripts,
            ).0,
            answer_file_stage(*config, has_firstlogon_scripts).1,
        ),
{
    let mut reports: Vec<(i32, String)> = Vec::new();
    report(&mut reports, 20, "Windows 11 bypass applied".to_owned());
    proof {
        assert(report_views(reports@) =~= seq![(20i32, "Windows 11 bypass applied"@)]);
        lemma_answer_file_stage_progress(*config, has_firstlogon_scripts);
        lemma_reports_concat(
            seq![(20i32, "Windows 11 bypass applied"@)],
            answer_file_stage(*config, has_firstlogon_scripts).0,
            15,
            20,
            30,
        );
    }
    push_answer_file_stage(reports, config, has_firstlogon_scripts)
}

/// After writing the answer file: stop if that failed, else launch Setup.
pub fn after_answer_file_written(result: Result<(), String>) -> (r: DeployStep)
    ensures
        progress_ok(r@, action_floor(DeployActionView::WriteAnswerFile { xml: Seq::empty() })),
        match result {
            Err(e) => r@ == (
                Seq::<(i32, Seq<char>)>::empty(),
                fail("Failed to write autounattend.xml: "@ + e@),
            ),
            Ok(()) => r@ == (
                seq![
                    (35i32, "autounattend.xml written"@),
                    (35i32, "Launching Windows Setup..."@),
                ],
                DeployActionView::LaunchSetup,
            ),
        },
{
    let mut reports: Vec<(i32, String)> = Vec::new();
    match result {
        Err(e) => {
            proof {
                assert(report_views(reports@) =~= Seq::<(i32, Seq<char>)>::empty());
            }
            finish(reports, false, message_with("Failed to write autounattend.xml: ", e.as_str()))
        },
        Ok(()) => {
            report(&mut reports, 35, "autounattend.xml written".to_owned());
            report(&mut reports, 35, "Launching Windows Setup...".to_owned());
            proof {
                assert(report_views(reports@) =~= seq![
                    (35i32, "autounattend.xml written"@),
                    (35i32, "Launching Windows Setup..."@),
                ]);
            }
            DeployStep { reports, action: DeployAction::LaunchSetup }
        },
    }
}

/// After launching Setup: stop if it did not start, else wait for it.
pub fn after_setup_launched(result: Result<(), String>) -> (r: DeployStep)
    ensures
        progress_ok(r@, action_floor(DeployActionView::LaunchSetup)),
        match result {
            Err(e) => r@ == (
                Seq::<(i32, Seq<char>)>::empty(),
                fail("Failed to launch setup: "@ + e@),
            ),
            Ok(()) => r@ == (
                seq![(40i32, "Windows Setup is running... This will take a while."@)],
                DeployActionView::WaitForSetup,
            ),
        },
{
    let mut reports: Vec<(i32, String)> = Vec::new();
    match result {
        Err(e) => {
            proof {
                assert(report_views(reports@) =~= Seq::<(i32, Seq<char>)>::empty());
            }
            finish(reports, false, message_with("Failed to launch setup: ", e.as_str()))
        },
        Ok(()) => {
            report(&mut reports, 40, "Windows Setup is running... This will take a while.".to_owned());
            proof {
                assert(report_views(reports@) =~= seq![
                    (40i32, "Windows Setup is running... This will take a while."@),
                ]);
            }
            DeployStep { reports, action: DeployAction::WaitForSetup }
        },
    }
}

pub open spec fn code_or_unknown(code: Option<i32>) -> i32 {
    match code {
        Some(c) => c,
        None => -1i32,
    }
}

/// After Setup exits: stop unless it succeeded (showing its exit code in
/// hexadecimal, -1 when it had none), else copy the scripts.
pub fn after_setup_finished(outcome: SetupOutcome) -> (r: DeployStep)
    ensures
        progress_ok(r@, action_floor(DeployActionView::WaitForSetup)),
        match outcome {
            SetupOutcome::Exited { success: true, .. } => r@ == (
                seq![
                    (90i32, "Windows Setup completed"@),
                    (90i32, "Copying post-install scripts to target..."@),
                ],
                DeployActionView::CopyScripts { normal_mode: false },
            ),
            SetupOutcome::Exited { success: false, code } => r@ == (
                Seq::<(i32, Seq<char>)>::empty(),
                fail("Windows Setup exited with code: 0x"@ + exit_code_hex(code_or_unknown(code))),
            ),
            SetupOutcome::WaitFailed(e) => r@ == (
                Seq::<(i32, Seq<char>)>::empty(),
                fail("Failed to wait for setup.exe: "@ + e@),
            ),
        },
{
    let mut reports: Vec<(i32, String)> = Vec::new();
    proof {
        assert(report_views(reports@) =~= Seq::<(i32, Seq<char>)>::empty());
    }
    match outcome {
        SetupOutcome::Exited { success, code } => {
            if success {
                report(&mut reports, 90, "Windows Setup completed".to_owned());
                report(&mut reports, 90, "Copying post-install scripts to target...".to_owned());
                proof {
                    assert(report_views(reports@) =~= seq![
                        (90i32, "Windows Setup completed"@),
                        (90i32, "Copying post-install scripts to target..."@),
                    ]);
                }
                DeployStep { reports, action: DeployAction::CopyScripts { normal_mode: false } }
            } else {
                let c = match code {
                    Some(c) => c,
                    None => -1,
                };
                let mut m = String::new();
                push_str(&mut m, "Windows Setup exited with code: 0x");
                push_exit_code_hex(&mut m, c);
                finish(reports, false, m)
            }
        },
        SetupOutcome::WaitFailed(e) => finish(
            reports,
            false,
            message_with("Failed to wait for setup.exe: ", e.as_str()),
        ),
    }
}

/// After copying the scripts (a failure is only a warning): reboot.
pub fn after_scripts_copied(result: Result<(), String>) -> (r: DeployStep)
    ensures
        progress_ok(r@, action_floor(DeployActionView::CopyScripts { normal_mode: false })),
        r@ == (
            seq![
                (93i32, match result {
                    Ok(()) => "Post-install scripts copied successfully"@,
                    Err(e) => "Warning: Script copy issue: "@ + e@,
                }),
                (95i32, "Post-install step complete"@),
                (95i32, "Preparing to reboot..."@),
            ],
            DeployActionView::Reboot,
        ),
{
    let mut reports: Vec<(i32, String)> = Vec::new();
    let status = match result {
        Ok(()) => "Post-install scripts copied successfully".to_owned(),
        Err(e) => message_with("Warning: Script copy issue: ", e.as_str()),
    };
    report(&mut reports, 93, status);
    report(&mut reports, 95, "Post-install step complete".to_owned());
    report(&mut reports, 95, "Preparing to reboot...".to_owned());
    proof {
        assert(report_views(reports@) =~= seq![
            (93i32, match result {
                Ok(()) => "Post-install scripts copied successfully"@,
                Err(e) => "Warning: Script copy issue: "@ + e@,
            }),
            (95i32, "Post-install step complete"@),
            (95i32, "Preparing to reboot..."@),
        ]);
    }
    DeployStep { reports, action: DeployAction::Reboot }
}

/// After the reboot command: the deployment is complete.
pub fn after_reboot(shutdown_succeeded: bool) -> (r: DeployStep)
    ensures
        progress_ok(r@, action_floor(DeployActionView::Reboot)),
        r@ == (
            seq![
                (100i32, if shutdown_succeeded {
                    "Rebooting in 5 seconds..."@
                } else {
                    "Reboot initiated"@
                }),
            ],
            DeployActionView::Finish {
                success: true,
                message: "Windows deployment complete! System is rebooting."@,
            },
        ),
{
    let mut reports: Vec<(i32, String)> = Vec::new();
    let status = if shutdown_succeeded {
        "Rebooting in 5 seconds...".to_owned()
    } else {
        "Reboot initiated".to_owned()
    };
    report(&mut reports, 100, status);
    proof {
        assert(report_views(reports@) =~= seq![
            (100i32, if shutdown_succeeded {
                "Rebooting in 5 seconds..."@
            } else {
                "Reboot initiated"@
            }),
        ]);
    }
    finish(reports, true, "Windows deployment complete! System is rebooting.".to_owned())
}

// ---------------------------------------------------------------------------
// Normal (interactive) installation
// ---------------------------------------------------------------------------

/// First step of a normal installation: look for setup.exe.
pub fn start_normal_install() -> (r: DeployStep)
    ensures
        progress_ok(r@, 0),
        r@ == (seq![(5i32, "Looking for Windows Setup..."@)], DeployActionView::FindSetup),
{
    let mut reports: Vec<(i32, String)> = Vec::new();
    report(&mut reports, 5, "Looking for Windows Setup...".to_owned());
    proof {
        assert(report_views(reports@) =~= seq![(5i32, "Looking for Windows Setup..."@)]);
    }
    DeployStep { reports, action: DeployAction::FindSetup }
}

/// After looking for setup.exe: stop if it was not found, else start it.
pub fn after_setup_search(result: Result<(), String>) -> (r: DeployStep)
    ensures
        progress_ok(r@, action_floor(DeployActionView::FindSetup)),
        match result {
            Err(e) => r@ == (
                Seq::<(i32, Seq<char>)>::empty(),
                fail(
                    "Cannot find setup.exe: "@ + e@
                        + ". Make sure a Windows ISO is mounted or available."@,
                ),
            ),
            Ok(()) => r@ == (
                seq![(15i32, "Launching Windows Setup (interactive)..."@)],
                DeployActionView::LaunchInteractiveSetup,
            ),
        },
{
    let mut reports: Vec<(i32, String)> = Vec::new();
    match result {
        Err(e) => {
            proof {
                assert(report_views(reports@) =~= Seq::<(i32, Seq<char>)>::empty());
            }
            let mut m = message_with("Cannot find setup.exe: ", e.as_str());
            push_str(&mut m, ". Make sure a Windows ISO is mounted or available.");
            finish(reports, false, m)
        },
        Ok(()) => {
            report(&mut reports, 15, "Launching Windows Setup (interactive)...".to_owned());
            proof {
                assert(report_views(reports@) =~= seq![
                    (15i32, "Launching Windows Setup (interactive)..."@),
                ]);
            }
            DeployStep { reports, action: DeployAction::LaunchInteractiveSetup }
        },
    }
}

/// After starting Setup interactively: stop if it did not start, else wait.
pub fn after_interactive_launch(result: Result<(), String>) -> (r: DeployStep)
    ensures
        progress_ok(r@, action_floor(DeployActionView::LaunchInteractiveSetup)),
        match result {
            Err(e) => r@ == (
                Seq::<(i32, Seq<char>)>::empty(),
                fail("Failed to launch setup.exe: "@ + e@),
            ),
            Ok(()) => r@ == (
                seq![(20i32, "Windows Setup is running — follow the on-screen prompts..."@)],
                DeployActionView::WaitForSetup,
            ),
        },
{
    let mut reports: Vec<(i32, String)> = Vec::new();
    match result {
        Err(e) => {
            proof {
                assert(report_views(reports@) =~= Seq::<(i32, Seq<char>)>::empty());
            }
            finish(reports, false, message_with("Failed to launch setup.exe: ", e.as_str()))
        },
        Ok(()) => {
            report(
                &mut reports,
                20,
                "Windows Setup is running — follow the on-screen prompts...".to_owned(),
            );
            proof {
                assert(report_views(reports@) =~= seq![
                    (20i32, "Windows Setup is running — follow the on-screen prompts..."@),
                ]);
            }
            DeployStep { reports, action: DeployAction::WaitForSetup }
        },
    }
}

/// After interactive Setup exits: stop unless it succeeded (showing its
/// exit code in decimal and hexadecimal), else copy the scripts and
/// register them to run once.
pub fn after_interactive_setup(outcome: SetupOutcome) -> (r: DeployStep)
    ensures
        progress_ok(r@, action_floor(DeployActionView::WaitForSetup)),
        match outcome {
            SetupOutcome::Exited { success: true, .. } => r@ == (
                seq![(90i32, "Copying post-install scripts..."@)],
                DeployActionView::CopyScripts { normal_mode: true },
            ),
            SetupOutcome::Exited { success: false, code } => r@ == (
                Seq::<(i32, Seq<char>)>::empty(),
                fail(
                    "Windows Setup exited with error code: "@ + signed_decimal(
                        code_or_unknown(code) as int,
                    ) + " (0x"@ + exit_code_hex(code_or_unknown(code)) + ")"@,
                ),
            ),
            SetupOutcome::WaitFailed(e) => r@ == (
                Seq::<(i32, Seq<char>)>::empty(),
                fail("Failed to wait for setup.exe: "@ + e@),
            ),
        },
{
    let mut reports: Vec<(i32, String)> = Vec::new();
    proof {
        assert(report_views(reports@) =~= Seq::<(i32, Seq<char>)>::empty());
    }
    match outcome {
        SetupOutcome::Exited { success, code } => {
            if success {
                report(&mut reports, 90, "Copying post-install scripts...".to_owned());
                proof {
                    assert(report_views(reports@) =~= seq![
                        (90i32, "Copying post-install scripts..."@),
                    ]);
                }
                DeployStep { reports, action: DeployAction::CopyScripts { normal_mode: true } }
            } else {
                let c = match code {
                    Some(c) => c,
                    None => -1,
                };
                let mut m = String::new();
                push_str(&mut m, "Windows Setup exited with error code: ");
                push_signed_decimal(&mut m, c as i64);
                push_str(&mut m, " (0x");
                push_exit_code_hex(&mut m, c);
                push_str(&mut m, ")");
                finish(reports, false, m)
            }
        },
        SetupOutcome::WaitFailed(e) => finish(
            reports,
            false,
            message_with("Failed to wait for setup.exe: ", e.as_str()),
        ),
    }
}

/// After copying the scripts in a normal installation (a failure is only a
/// warning): reboot.
pub fn after_normal_scripts_copied() -> (r: DeployStep)
    ensures
        progress_ok(r@, action_floor(DeployActionView::CopyScripts { normal_mode: true })),
        r@ == (seq![(95i32, "Rebooting..."@)], DeployActionView::Reboot),
{
    let mut reports: Vec<(i32, String)> = Vec::new();
    report(&mut reports, 95, "Rebooting...".to_owned());
    proof {
        assert(report_views(reports@) =~= seq![(95i32, "Rebooting..."@)]);
    }
    DeployStep { reports, action: DeployAction::Reboot }
}

/// After the reboot command of a normal installation: it is complete.
pub fn after_normal_reboot() -> (r: DeployStep)
    ensures
        progress_ok(r@, action_floor(DeployActionView::Reboot)),
        r@ == (
            seq![(100i32, "Complete!"@)],
            DeployActionView::Finish {
                success: true,
                message: "Normal installation complete. System will reboot shortly."@,
            },
        ),
{
    let mut reports: Vec<(i32, String)> = Vec::new();
    report(&mut reports, 100, "Complete!".to_owned());
    proof {
        assert(report_views(reports@) =~= seq![(100i32, "Complete!"@)]);
    }
    finish(reports, true, "Normal installation complete. System will reboot shortly.".to_owned())
}


// ---------------------------------------------------------------------------
// Disk preparation and the Windows 11 bypass
// ---------------------------------------------------------------------------

/// The diskpart script that wipes a disk and lays it out for the boot mode:
/// GPT with EFI (100 MB, FAT32, S:), MSR (16 MB) and Windows (NTFS, C:) for
/// UEFI; System Reserved (100 MB, NTFS, active, S:) and Windows (NTFS, C:)
/// for BIOS.
pub open spec fn diskpart_script(disk_id: i32, mode: BootMode) -> Seq<char> {
    "select disk "@ + signed_decimal(disk_id as int) + match mode {
        BootMode::UEFI => "\nclean\nconvert gpt\ncreate partition efi size=100\nformat quick fs=fat32 label=\"System\"\nassign letter=S\ncreate partition msr size=16\ncreate partition primary\nformat quick fs=ntfs label=\"Windows\"\nassign letter=C\nexit\n"@,
        BootMode::BIOS => "\nclean\ncreate partition primary size=100\nformat quick fs=ntfs label=\"System Reserved\"\nactive\nassign letter=S\ncreate partition primary\nformat quick fs=ntfs label=\"Windows\"\nassign letter=C\nexit\n"@,
    }
}

/// The script's closing lines: the rest of the disk becomes the Windows
/// partition, formatted NTFS and given the letter C.
pub open spec fn windows_partition_lines() -> Seq<char> {
    "create partition primary\nformat quick fs=ntfs label=\"Windows\"\nassign letter=C\nexit\n"@
}

/// Whatever the disk and boot mode, the script selects and wipes exactly the
/// chosen disk first, makes it GPT for UEFI (and starts with the 100 MB
/// system partition for BIOS), and ends by creating the Windows partition on
/// the rest of the disk, formatted NTFS with the letter C.
pub proof fn lemma_format_script_shape(disk_id: i32, mode: BootMode)
    ensures
        crate::text::starts_with(
            diskpart_script(disk_id, mode),
            "select disk "@ + signed_decimal(disk_id as int) + "\nclean\n"@,
        ),
        mode == BootMode::UEFI ==> crate::text::starts_with(
            diskpart_script(disk_id, mode),
            "select disk "@ + signed_decimal(disk_id as int) + "\nclean\nconvert gpt\n"@,
        ),
        mode == BootMode::BIOS ==> crate::text::starts_with(
            diskpart_script(disk_id, mode),
            "select disk "@ + signed_decimal(disk_id as int)
                + "\nclean\ncreate partition primary size=100\n"@,
        ),
        crate::text::ends_with(diskpart_script(disk_id, mode), windows_partition_lines()),
{
    let head = "select disk "@ + signed_decimal(disk_id as int);
    let tail = match mode {
        BootMode::UEFI => "\nclean\nconvert gpt\ncreate partition efi size=100\nformat quick fs=fat32 label=\"System\"\nassign letter=S\ncreate partition msr size=16\ncreate partition primary\nformat quick fs=ntfs label=\"Windows\"\nassign letter=C\nexit\n"@,
        BootMode::BIOS => "\nclean\ncreate partition primary size=100\nformat quick fs=ntfs label=\"System Reserved\"\nactive\nassign letter=S\ncreate partition primary\nformat quick fs=ntfs label=\"Windows\"\nassign letter=C\nexit\n"@,
    };
    reveal_strlit("\nclean\nconvert gpt\ncreate partition efi size=100\nformat quick fs=fat32 label=\"System\"\nassign letter=S\ncreate partition msr size=16\ncreate partition primary\nformat quick fs=ntfs label=\"Windows\"\nassign letter=C\nexit\n");
    reveal_strlit("\nclean\ncreate partition primary size=100\nformat quick fs=ntfs label=\"System Reserved\"\nactive\nassign letter=S\ncreate partition primary\nformat quick fs=ntfs label=\"Windows\"\nassign letter=C\nexit\n");
    reveal_strlit("create partition primary\nformat quick fs=ntfs label=\"Windows\"\nassign letter=C\nexit\n");
    reveal_strlit("\nclean\n");
    reveal_strlit("\nclean\nconvert gpt\n");
    reveal_strlit("\nclean\ncreate partition primary size=100\n");
    let script = diskpart_script(disk_id, mode);
    assert(script == head + tail);
    let p = windows_partition_lines();
    assert(script.skip(script.len() - p.len()) =~= p);
    assert(script.take((head + "\nclean\n"@).len() as int) =~= head + "\nclean\n"@);
    if mode == BootMode::UEFI {
        assert(script.take((head + "\nclean\nconvert gpt\n"@).len() as int) =~= head
            + "\nclean\nconvert gpt\n"@);
    } else {
        assert(script.take((head + "\nclean\ncreate partition primary size=100\n"@).len() as int)
            =~= head + "\nclean\ncreate partition primary size=100\n"@);
    }
}

/// The diskpart script for formatting `disk_id` for `boot_mode`.
pub fn diskpart_format_script(disk_id: i32, boot_mode: BootMode) -> (r: String)
    ensures
        r@ == diskpart_script(disk_id, boot_mode),
{
    let mut s = String::new();
    push_str(&mut s, "select disk ");
    push_signed_decimal(&mut s, disk_id as i64);
    match boot_mode {
        BootMode::UEFI => push_str(
            &mut s,
            "\nclean\nconvert gpt\ncreate partition efi size=100\nformat quick fs=fat32 label=\"System\"\nassign letter=S\ncreate partition msr size=16\ncreate partition primary\nformat quick fs=ntfs label=\"Windows\"\nassign letter=C\nexit\n",
        ),
        BootMode::BIOS => push_str(
            &mut s,
            "\nclean\ncreate partition primary size=100\nformat quick fs=ntfs label=\"System Reserved\"\nactive\nassign letter=S\ncreate partition primary\nformat quick fs=ntfs label=\"Windows\"\nassign letter=C\nexit\n",
        ),
    }
    s
}

/// The registry values (key, name, data; all `REG_DWORD`) that let Windows
/// 11 Setup skip its Secure Boot, TPM, CPU, RAM and storage checks, upgrade
/// on an unsupported TPM or CPU, and skip the network in OOBE.
pub open spec fn win11_bypass_list() -> Seq<(Seq<char>, Seq<char>, Seq<char>)> {
    seq![
        (r"HKLM\SYSTEM\Setup\LabConfig"@, "BypassSecureBootCheck"@, "1"@),
        (r"HKLM\SYSTEM\Setup\LabConfig"@, "BypassTPMCheck"@, "1"@),
        (r"HKLM\SYSTEM\Setup\LabConfig"@, "BypassCPUCheck"@, "1"@),
        (r"HKLM\SYSTEM\Setup\LabConfig"@, "BypassRAMCheck"@, "1"@),
        (r"HKLM\SYSTEM\Setup\LabConfig"@, "BypassStorageCheck"@, "1"@),
        (r"HKLM\SYSTEM\Setup\MoSetup"@, "AllowUpgradesWithUnsupportedTPMOrCPU"@, "1"@),
        (r"HKLM\SOFTWARE\Microsoft\Windows\CurrentVersion\OOBE"@, "BypassNRO"@, "1"@),
    ]
}

/// The Windows 11 bypass values, in the order they are set.
pub fn win11_bypass_values() -> (r: Vec<(&'static str, &'static str, &'static str)>)
    ensures
        r@.map_values(|v: (&'static str, &'static str, &'static str)| (v.0@, v.1@, v.2@))
            == win11_bypass_list(),
{
    let r = vec![
        (r"HKLM\SYSTEM\Setup\LabConfig", "BypassSecureBootCheck", "1"),
        (r"HKLM\SYSTEM\Setup\LabConfig", "BypassTPMCheck", "1"),
        (r"HKLM\SYSTEM\Setup\LabConfig", "BypassCPUCheck", "1"),
        (r"HKLM\SYSTEM\Setup\LabConfig", "BypassRAMCheck", "1"),
        (r"HKLM\SYSTEM\Setup\LabConfig", "BypassStorageCheck", "1"),
        (r"HKLM\SYSTEM\Setup\MoSetup", "AllowUpgradesWithUnsupportedTPMOrCPU", "1"),
        (r"HKLM\SOFTWARE\Microsoft\Windows\CurrentVersion\OOBE", "BypassNRO", "1"),
    ];
    proof {
        assert(r@.map_values(|v: (&'static str, &'static str, &'static str)| (v.0@, v.1@, v.2@))
            =~= win11_bypass_list());
    }
    r
}

/// How a value that could not be set is reported: `<key>\<name>: <error>`.
pub fn bypass_failure(key: &str, name: &str, error: &str) -> (r: String)
    ensures
        r@ == key@ + "\\"@ + name@ + ": "@ + error@,
{
    let mut m = String::new();
    push_str(&mut m, key);
    push_str(&mut m, "\\");
    push_str(&mut m, name);
    push_str(&mut m, ": ");
    push_str(&mut m, error);
    m
}

/// The texts of `s` joined with `sep` between them.
pub open spec fn joined(s: Seq<Seq<char>>, sep: Seq<char>) -> Seq<char>
    decreases s.len(),
{
    if s.len() == 0 {
        Seq::empty()
    } else if s.len() == 1 {
        s[0]
    } else {
        joined(s.drop_last(), sep) + sep + s.last()
    }
}

/// The outcome of setting the bypass values: fine when none failed, else
/// all failures in one message.
pub fn bypass_outcome(errors: &Vec<String>) -> (r: Result<(), String>)
    ensures
        errors@.len() == 0 ==> r is Ok,
        errors@.len() > 0 ==> (r matches Err(m) && m@ == "Some bypass keys failed: "@ + joined(
            crate::text::strings_of(errors@),
            "; "@,
        )),
{
    if errors.len() == 0 {
        return Ok(());
    }
    let ghost es = crate::text::strings_of(errors@);
    let mut m = String::new();
    push_str(&mut m, "Some bypass keys failed: ");
    let ghost start = m@;
    let mut i: usize = 0;
    while i < errors.len()
        invariant
            i <= errors@.len(),
            es == crate::text::strings_of(errors@),
            m@ == start + joined(es.take(i as int), "; "@),
        decreases errors@.len() - i,
    {
        proof {
            assert(es.take(i + 1).drop_last() =~= es.take(i as int));
            assert(es.take(i + 1).last() == errors@[i as int]@);
        }
        if i > 0 {
            push_str(&mut m, "; ");
        } else {
            proof {
                assert(es.take(0) =~= Seq::<Seq<char>>::empty());
            }
        }
        push_str(&mut m, errors[i].as_str());
        i = i + 1;
    }
    proof {
        assert(es.take(i as int) =~= es);
    }
    Err(m)
}


// ---------------------------------------------------------------------------
// Installation media
// ---------------------------------------------------------------------------

/// What a chosen image file is, by its lowercased extension.
#[derive(Debug, Clone, Copy, PartialEq, Eq, Structural)]
pub enum ImageKind {
    /// An install.wim or install.esd, used as it is.
    InstallImage,
    /// An ISO, mounted to find the install image inside.
    DiscImage,
    /// Anything else, which is refused.
    Unsupported,
}

pub open spec fn image_kind_of(lower_ext: Seq<char>) -> ImageKind {
    if lower_ext == "wim"@ || lower_ext == "esd"@ {
        ImageKind::InstallImage
    } else if lower_ext == "iso"@ {
        ImageKind::DiscImage
    } else {
        ImageKind::Unsupported
    }
}

/// The kind of an image file, from its lowercased extension (empty when it
/// has none).
pub fn image_kind(lower_ext: &str) -> (r: ImageKind)
    ensures
        r == image_kind_of(lower_ext@),
{
    if crate::text::str_equal(lower_ext, "wim") || crate::text::str_equal(lower_ext, "esd") {
        ImageKind::InstallImage
    } else if crate::text::str_equal(lower_ext, "iso") {
        ImageKind::DiscImage
    } else {
        ImageKind::Unsupported
    }
}

/// Why an image file is refused.
pub fn unsupported_image_message(lower_ext: &str) -> (r: String)
    ensures
        r@ == "Unsupported file type: ."@ + lower_ext@
            + ". Please select a .wim, .esd, or .iso file."@,
{
    let mut m = message_with("Unsupported file type: .", lower_ext);
    push_str(&mut m, ". Please select a .wim, .esd, or .iso file.");
    m
}

/// The PowerShell command that mounts an ISO and prints its drive letter.
pub fn mount_iso_script(image_path: &str) -> (r: String)
    ensures
        r@ == "(Mount-DiskImage -ImagePath '"@ + image_path@
            + "' -PassThru | Get-Volume).DriveLetter"@,
{
    let mut m = message_with("(Mount-DiskImage -ImagePath '", image_path);
    push_str(&mut m, "' -PassThru | Get-Volume).DriveLetter");
    m
}

/// The drive of a mounted ISO, from what the mount command printed: its
/// trimmed output with a colon, or an error when it printed nothing.
pub fn mounted_drive(mount_output: &str) -> (r: Result<String, String>)
    ensures
        crate::text::trim(mount_output@).len() == 0 ==> (r matches Err(e) && e@
            == "ISO mounted but no drive letter assigned"@),
        crate::text::trim(mount_output@).len() > 0 ==> (r matches Ok(d) && d@ == crate::text::trim(
            mount_output@,
        ) + ":"@),
{
    let cs = crate::text::to_chars(mount_output);
    let t = crate::text::trim_chars(cs.as_slice());
    if t.len() == 0 {
        return Err("ISO mounted but no drive letter assigned".to_owned());
    }
    let mut d = crate::text::string_from(t.as_slice());
    push_str(&mut d, ":");
    Ok(d)
}

/// The install image on a mounted ISO: `sources\install.wim` if it is
/// there, else `sources\install.esd`, else an error.
pub fn choose_install_image(drive: &str, wim_exists: bool, esd_exists: bool) -> (r: Result<
    String,
    String,
>)
    ensures
        wim_exists ==> (r matches Ok(p) && p@ == drive@ + r"\sources\install.wim"@),
        !wim_exists && esd_exists ==> (r matches Ok(p) && p@ == drive@
            + r"\sources\install.esd"@),
        !wim_exists && !esd_exists ==> (r matches Err(e) && e@
            == "No install.wim or install.esd found in ISO at "@ + drive@ + r"\sources\"@),
{
    if wim_exists {
        Ok(message_with(drive, r"\sources\install.wim"))
    } else if esd_exists {
        Ok(message_with(drive, r"\sources\install.esd"))
    } else {
        let mut m = message_with("No install.wim or install.esd found in ISO at ", drive);
        push_str(&mut m, r"\sources\");
        Err(m)
    }
}

/// The install image paths looked for on a mounted ISO.
pub fn install_image_candidates(drive: &str) -> (r: (String, String))
    ensures
        r.0@ == drive@ + r"\sources\install.wim"@,
        r.1@ == drive@ + r"\sources\install.esd"@,
{
    (message_with(drive, r"\sources\install.wim"), message_with(drive, r"\sources\install.esd"))
}

/// Among the drives holding a Windows installation, with the times their
/// SYSTEM hives were modified, the index of the most recently modified one
/// (the first of equals).
pub fn most_recent(modified: &[u128]) -> (r: Option<usize>)
    ensures
        modified@.len() == 0 <==> r is None,
        r matches Some(i) ==> i < modified@.len() && (forall|j: int|
            0 <= j < modified@.len() ==> modified@[j] <= modified@[i as int]) && (forall|j: int|
            0 <= j < i ==> modified@[j] < modified@[i as int]),
{
    if modified.len() == 0 {
        return None;
    }
    let mut best: usize = 0;
    let mut i: usize = 1;
    while i < modified.len()
        invariant
            1 <= i <= modified@.len(),
            best < i,
            forall|j: int| 0 <= j < i ==> modified@[j] <= modified@[best as int],
            forall|j: int| 0 <= j < best ==> modified@[j] < modified@[best as int],
        decreases modified@.len() - i,
    {
        if modified[i] > modified[best] {
            best = i;
        }
        i = i + 1;
    }
    Some(best)
}


/// Whether the disks PowerShell found are the answer: it ran and found
/// some. Otherwise diskpart is asked.
pub fn powershell_disks_suffice(found: &Result<Vec<DiskInfo>, String>) -> (r: bool)
    ensures
        r == (found matches Ok(d) && d@.len() > 0),
{
    match found {
        Ok(d) => d.len() > 0,
        Err(_) => false,
    }
}

/// The outcome of asking diskpart after PowerShell found nothing: its
/// disks, or an error when it found none or failed.
pub fn diskpart_disks_outcome(found: Result<Vec<DiskInfo>, String>) -> (r: Result<
    Vec<DiskInfo>,
    String,
>)
    ensures
        match found {
            Ok(d) => if d@.len() > 0 {
                r matches Ok(x) && x@ == d@
            } else {
                r matches Err(e) && e@ == "No disks detected. Are any physical disks connected?"@
            },
            Err(e) => r matches Err(m) && m@ == "Disk detection failed: "@ + e@,
        },
{
    match found {
        Ok(d) => if d.len() > 0 {
            Ok(d)
        } else {
            Err("No disks detected. Are any physical disks connected?".to_owned())
        },
        Err(e) => Err(message_with("Disk detection failed: ", e.as_str())),
    }
}

} // verus!
