//! The answer file (autounattend.xml) that drives an unattended Windows
//! Setup, built from the deployment configuration, and its first-logon
//! commands.

use vstd::prelude::*;
use crate::deploy::{generic_key_for, get_generic_key, BootMode, DeployConfig};
use crate::first_logon::{build_first_logon_commands, first_logon_commands, render_commands};
use crate::text::{push_signed_decimal, push_str, signed_decimal, starts_with, to_chars};

verus! {

// ---------------------------------------------------------------------------
// XML escaping
// ---------------------------------------------------------------------------

/// `&amp;`
pub open spec fn amp_entity() -> Seq<char> {
    seq!['&', 'a', 'm', 'p', ';']
}

/// `&lt;`
pub open spec fn lt_entity() -> Seq<char> {
    seq!['&', 'l', 't', ';']
}

/// `&gt;`
pub open spec fn gt_entity() -> Seq<char> {
    seq!['&', 'g', 't', ';']
}

/// `&quot;`
pub open spec fn quot_entity() -> Seq<char> {
    seq!['&', 'q', 'u', 'o', 't', ';']
}

/// `&apos;`
pub open spec fn apos_entity() -> Seq<char> {
    seq!['&', 'a', 'p', 'o', 's', ';']
}

/// The escaped form of one character.
pub open spec fn escape_char(c: char) -> Seq<char> {
    if c == '&' {
        amp_entity()
    } else if c == '<' {
        lt_entity()
    } else if c == '>' {
        gt_entity()
    } else if c == '"' {
        quot_entity()
    } else if c == '\'' {
        apos_entity()
    } else {
        seq![c]
    }
}

/// `s` with `& < > " '` replaced by their XML entities.
pub open spec fn escape(s: Seq<char>) -> Seq<char>
    decreases s.len(),
{
    if s.len() == 0 {
        Seq::empty()
    } else {
        escape_char(s[0]) + escape(s.drop_first())
    }
}

/// Decodes the five entities that `escape` produces; other text is kept.
pub open spec fn unescape(s: Seq<char>) -> Seq<char>
    decreases s.len(),
{
    if s.len() == 0 {
        Seq::empty()
    } else if starts_with(s, amp_entity()) {
        seq!['&'] + unescape(s.skip(5))
    } else if starts_with(s, lt_entity()) {
        seq!['<'] + unescape(s.skip(4))
    } else if starts_with(s, gt_entity()) {
        seq!['>'] + unescape(s.skip(4))
    } else if starts_with(s, quot_entity()) {
        seq!['"'] + unescape(s.skip(6))
    } else if starts_with(s, apos_entity()) {
        seq!['\''] + unescape(s.skip(6))
    } else {
        seq![s[0]] + unescape(s.drop_first())
    }
}

proof fn lemma_escape_append(a: Seq<char>, b: Seq<char>)
    ensures
        escape(a + b) == escape(a) + escape(b),
    decreases a.len(),
{
    if a.len() == 0 {
        assert(a + b =~= b);
        assert(escape(a) + escape(b) =~= escape(b));
    } else {
        assert((a + b).drop_first() =~= a.drop_first() + b);
        assert((a + b)[0] == a[0]);
        lemma_escape_append(a.drop_first(), b);
        assert(escape_char(a[0]) + (escape(a.drop_first()) + escape(b)) =~= (escape_char(a[0])
            + escape(a.drop_first())) + escape(b));
    }
}

proof fn lemma_unescape_after_entity(c: char, rest: Seq<char>)
    ensures
        unescape(escape_char(c) + rest) == seq![c] + unescape(rest),
{
    let s = escape_char(c) + rest;
    if c == '&' {
        assert(s.take(5) =~= amp_entity());
        assert(starts_with(s, amp_entity()));
        assert(s.skip(5) =~= rest);
    } else if c == '<' {
        assert(!starts_with(s, amp_entity()));
        assert(s.take(4) =~= lt_entity());
        assert(starts_with(s, lt_entity()));
        assert(s.skip(4) =~= rest);
    } else if c == '>' {
        assert(!starts_with(s, amp_entity()));
        assert(!starts_with(s, lt_entity()));
        assert(s.take(4) =~= gt_entity());
        assert(starts_with(s, gt_entity()));
        assert(s.skip(4) =~= rest);
    } else if c == '"' {
        assert(!starts_with(s, amp_entity()));
        assert(!starts_with(s, lt_entity()));
        assert(!starts_with(s, gt_entity()));
        assert(s.take(6) =~= quot_entity());
        assert(starts_with(s, quot_entity()));
        assert(s.skip(6) =~= rest);
    } else if c == '\'' {
        assert(!starts_with(s, amp_entity()));
        assert(!starts_with(s, lt_entity()));
        assert(!starts_with(s, gt_entity()));
        assert(!starts_with(s, quot_entity()));
        assert(s.take(6) =~= apos_entity());
        assert(starts_with(s, apos_entity()));
        assert(s.skip(6) =~= rest);
    } else {
        assert(s[0] == c);
        assert(!starts_with(s, amp_entity()));
        assert(!starts_with(s, lt_entity()));
        assert(!starts_with(s, gt_entity()));
        assert(!starts_with(s, quot_entity()));
        assert(!starts_with(s, apos_entity()));
        assert(s.drop_first() =~= rest);
    }
}

/// Unescaping an escaped text gives the text back.
pub proof fn lemma_escape_roundtrip(s: Seq<char>)
    ensures
        unescape(escape(s)) == s,
    decreases s.len(),
{
    if s.len() > 0 {
        lemma_escape_roundtrip(s.drop_first());
        lemma_unescape_after_entity(s[0], escape(s.drop_first()));
        assert(seq![s[0]] + s.drop_first() =~= s);
    }
}

/// Escaped text holds none of `< > " '`, so it cannot end an element or an
/// attribute value.
pub proof fn lemma_escape_no_markup(s: Seq<char>)
    ensures
        forall|i: int|
            0 <= i < escape(s).len() ==> escape(s)[i] != '<' && escape(s)[i] != '>' && escape(
                s,
            )[i] != '"' && escape(s)[i] != '\'',
    decreases s.len(),
{
    if s.len() > 0 {
        lemma_escape_no_markup(s.drop_first());
        let a = escape_char(s[0]);
        let b = escape(s.drop_first());
        assert forall|i: int| 0 <= i < (a + b).len() implies (a + b)[i] != '<' && (a + b)[i] != '>'
            && (a + b)[i] != '"' && (a + b)[i] != '\'' by {
            if i < a.len() {
                assert((a + b)[i] == a[i]);
            } else {
                assert((a + b)[i] == b[i - a.len()]);
            }
        }
    }
}

/// `s` with each occurrence of `pat`, found from left to right without
/// overlapping, replaced by `rep` (as `str::replace` does for a non-empty
/// pattern).
pub open spec fn replace_all(s: Seq<char>, pat: Seq<char>, rep: Seq<char>) -> Seq<char>
    decreases s.len(),
{
    if pat.len() == 0 || s.len() == 0 {
        s
    } else if starts_with(s, pat) {
        rep + replace_all(s.skip(pat.len() as int), pat, rep)
    } else {
        seq![s[0]] + replace_all(s.drop_first(), pat, rep)
    }
}

/// Decodes escaped text one entity kind after another: `&lt;`, `&gt;`,
/// `&quot;`, `&apos;`, and lastly `&amp;`.
pub open spec fn unescape_in_turn(t: Seq<char>) -> Seq<char> {
    replace_all(
        replace_all(
            replace_all(
                replace_all(replace_all(t, lt_entity(), seq!['<']), gt_entity(), seq!['>']),
                quot_entity(),
                seq!['"'],
            ),
            apos_entity(),
            seq!['\''],
        ),
        amp_entity(),
        seq!['&'],
    )
}

/// The entity decoded at step `k` of `unescape_in_turn`, and its character.
pub open spec fn step_entity(k: int) -> Seq<char> {
    if k == 0 {
        lt_entity()
    } else if k == 1 {
        gt_entity()
    } else if k == 2 {
        quot_entity()
    } else if k == 3 {
        apos_entity()
    } else {
        amp_entity()
    }
}

pub open spec fn step_char(k: int) -> char {
    if k == 0 {
        '<'
    } else if k == 1 {
        '>'
    } else if k == 2 {
        '"'
    } else if k == 3 {
        '\''
    } else {
        '&'
    }
}

/// Whether `c` is still escaped after `k` decoding steps.
pub open spec fn still_escaped(c: char, k: int) -> bool {
    ||| c == '<' && k < 1
    ||| c == '>' && k < 2
    ||| c == '"' && k < 3
    ||| c == '\'' && k < 4
    ||| c == '&' && k < 5
}

/// The text after `k` decoding steps of `escape(s)`.
pub open spec fn escaped_from(s: Seq<char>, k: int) -> Seq<char>
    decreases s.len(),
{
    if s.len() == 0 {
        Seq::empty()
    } else {
        (if still_escaped(s[0], k) {
            escape_char(s[0])
        } else {
            seq![s[0]]
        }) + escaped_from(s.drop_first(), k)
    }
}

proof fn lemma_escaped_from_ends(s: Seq<char>)
    ensures
        escaped_from(s, 0) == escape(s),
        escaped_from(s, 5) == s,
    decreases s.len(),
{
    if s.len() > 0 {
        lemma_escaped_from_ends(s.drop_first());
        assert(seq![s[0]] + s.drop_first() =~= s);
    }
}

/// Text holding no `&` passes through a replacement of a pattern that
/// starts with `&`.
proof fn lemma_replace_plain(x: Seq<char>, r: Seq<char>, pat: Seq<char>, rep: Seq<char>)
    requires
        pat.len() > 0,
        pat[0] == '&',
        forall|i: int| 0 <= i < x.len() ==> #[trigger] x[i] != '&',
    ensures
        replace_all(x + r, pat, rep) == x + replace_all(r, pat, rep),
    decreases x.len(),
{
    if x.len() > 0 {
        let s = x + r;
        assert(s[0] == x[0]);
        assert(!starts_with(s, pat)) by {
            if starts_with(s, pat) {
                assert(s.take(pat.len() as int)[0] == pat[0]);
            }
        }
        assert(s.drop_first() =~= x.drop_first() + r);
        lemma_replace_plain(x.drop_first(), r, pat, rep);
        assert(seq![x[0]] + (x.drop_first() + replace_all(r, pat, rep)) =~= x + replace_all(
            r,
            pat,
            rep,
        ));
    }
}

/// Decoding step `k` turns the text after `k` steps into the text after
/// `k + 1` steps.
proof fn lemma_decode_step(s: Seq<char>, k: int)
    requires
        0 <= k < 5,
    ensures
        replace_all(escaped_from(s, k), step_entity(k), seq![step_char(k)]) == escaped_from(
            s,
            k + 1,
        ),
    decreases s.len(),
{
    let pat = step_entity(k);
    let rep = seq![step_char(k)];
    if s.len() > 0 {
        let c = s[0];
        let rest = escaped_from(s.drop_first(), k);
        lemma_decode_step(s.drop_first(), k);
        if still_escaped(c, k) && c == step_char(k) {
            let t = escape_char(c) + rest;
            assert(escape_char(c) == pat);
            assert(t.take(pat.len() as int) =~= pat);
            assert(t.skip(pat.len() as int) =~= rest);
            assert(!still_escaped(c, k + 1));
        } else if still_escaped(c, k) {
            let e = escape_char(c);
            let t = e + rest;
            assert(e[0] == '&');
            assert(!starts_with(t, pat)) by {
                if starts_with(t, pat) {
                    let w = t.take(pat.len() as int);
                    assert(w == pat);
                    if c == '&' {
                        assert(w[2] == e[2]);
                    } else if c == '\'' && k == 4 {
                        assert(w[2] == e[2]);
                    } else {
                        assert(w[1] == e[1]);
                    }
                }
            }
            assert(t.drop_first() =~= e.drop_first() + rest);
            lemma_replace_plain(e.drop_first(), rest, pat, rep);
            assert(seq![e[0]] + (e.drop_first() + replace_all(rest, pat, rep)) =~= e
                + replace_all(rest, pat, rep));
            assert(still_escaped(c, k + 1));
        } else {
            assert(c != '&');
            lemma_replace_plain(seq![c], rest, pat, rep);
            assert(!still_escaped(c, k + 1));
        }
    }
}

/// Decoding an escaped text one entity kind after another (`&lt;`, `&gt;`,
/// `&quot;`, `&apos;`, and lastly `&amp;`) gives the text back, so escaping
/// never maps two texts to one.
pub proof fn lemma_escape_decoded_in_turn(s: Seq<char>)
    ensures
        unescape_in_turn(escape(s)) == s,
{
    lemma_escaped_from_ends(s);
    lemma_decode_step(s, 0);
    lemma_decode_step(s, 1);
    lemma_decode_step(s, 2);
    lemma_decode_step(s, 3);
    lemma_decode_step(s, 4);
}

/// Appends `escape(s)`.
pub fn push_escaped(out: &mut String, s: &str)
    ensures
        final(out)@ == old(out)@ + escape(s@),
{
    let cs = to_chars(s);
    let ghost start = out@;
    let mut i: usize = 0;
    while i < cs.len()
        invariant
            i <= cs@.len(),
            out@ == start + escape(cs@.take(i as int)),
        decreases cs@.len() - i,
    {
        let c = cs[i];
        let ghost before = out@;
        if c == '&' {
            push_str(out, "&amp;");
        } else if c == '<' {
            push_str(out, "&lt;");
        } else if c == '>' {
            push_str(out, "&gt;");
        } else if c == '"' {
            push_str(out, "&quot;");
        } else if c == '\'' {
            push_str(out, "&apos;");
        } else {
            out.push(c);
        }
        proof {
            reveal_strlit("&amp;");
            reveal_strlit("&lt;");
            reveal_strlit("&gt;");
            reveal_strlit("&quot;");
            reveal_strlit("&apos;");
            assert("&amp;"@ =~= amp_entity());
            assert("&lt;"@ =~= lt_entity());
            assert("&gt;"@ =~= gt_entity());
            assert("&quot;"@ =~= quot_entity());
            assert("&apos;"@ =~= apos_entity());
            assert(out@ == before + escape_char(c));
            assert(cs@.take(i + 1) =~= cs@.take(i as int) + seq![c]);
            lemma_escape_append(cs@.take(i as int), seq![c]);
            assert(escape(seq![c]) =~= escape_char(c)) by {
                assert(seq![c].drop_first() =~= Seq::<char>::empty());
                assert(escape(Seq::<char>::empty()) =~= Seq::<char>::empty());
                assert(escape_char(c) + Seq::<char>::empty() =~= escape_char(c));
            }
        }
        i = i + 1;
    }
    proof {
        assert(cs@.take(cs@.len() as int) =~= cs@);
    }
}

/// Escapes the special XML characters of a text: `& < > " '`.
pub fn escape_xml(s: &str) -> (r: String)
    ensures
        r@ == escape(s@),
{
    let mut r = String::new();
    push_escaped(&mut r, s);
    r
}


// ---------------------------------------------------------------------------
// The answer file
// ---------------------------------------------------------------------------

/// The attributes that every `<component>` element carries, and the `>` and
/// line break that close its start tag.
pub open spec fn component_attributes() -> Seq<char> {
    " processorArchitecture=\"amd64\" publicKeyToken=\"31bf3856ad364e35\" language=\"neutral\" versionScope=\"nonSxS\" xmlns:wcm=\"http://schemas.microsoft.com/WMIConfig/2002/State\" xmlns:xsi=\"http://www.w3.org/2001/XMLSchema-instance\">\n"@
}

fn push_component_attributes(out: &mut String)
    ensures
        final(out)@ == old(out)@ + component_attributes(),
{
    push_str(
        out,
        " processorArchitecture=\"amd64\" publicKeyToken=\"31bf3856ad364e35\" language=\"neutral\" versionScope=\"nonSxS\" xmlns:wcm=\"http://schemas.microsoft.com/WMIConfig/2002/State\" xmlns:xsi=\"http://www.w3.org/2001/XMLSchema-instance\">\n",
    );
}

/// The input, system, UI and user locale, each set to `language`.
pub open spec fn locale_settings(language: Seq<char>) -> Seq<char> {
    "            <InputLocale>"@ + escape(language) + "</InputLocale>\n            <SystemLocale>"@
        + escape(language) + "</SystemLocale>\n            <UILanguage>"@ + escape(language)
        + "</UILanguage>\n            <UserLocale>"@ + escape(language) + "</UserLocale>\n"@
}

fn push_locale_settings(out: &mut String, language: &str)
    ensures
        final(out)@ == old(out)@ + locale_settings(language@),
{
    let ghost start = out@;
    push_str(out, "            <InputLocale>");
    push_escaped(out, language);
    push_str(out, "</InputLocale>\n            <SystemLocale>");
    push_escaped(out, language);
    push_str(out, "</SystemLocale>\n            <UILanguage>");
    push_escaped(out, language);
    push_str(out, "</UILanguage>\n            <UserLocale>");
    push_escaped(out, language);
    push_str(out, "</UserLocale>\n");
    proof {
        assert(out@ =~= start + locale_settings(language@));
    }
}

/// The partitions created and formatted on the wiped disk: EFI (100 MB,
/// FAT32), MSR (16 MB) and Windows for UEFI; System Reserved (100 MB,
/// active) and Windows for BIOS.
pub open spec fn partition_layout(mode: BootMode) -> Seq<char> {
    match mode {
        BootMode::UEFI => "                    <CreatePartitions>\n                        <CreatePartition wcm:action=\"add\">\n                            <Order>1</Order>\n                            <Size>100</Size>\n                            <Type>EFI</Type>\n                        </CreatePartition>\n                        <CreatePartition wcm:action=\"add\">\n                            <Order>2</Order>\n                            <Size>16</Size>\n                            <Type>MSR</Type>\n                        </CreatePartition>\n                        <CreatePartition wcm:action=\"add\">\n                            <Order>3</Order>\n                            <Extend>true</Extend>\n                            <Type>Primary</Type>\n                        </CreatePartition>\n                    </CreatePartitions>\n                    <ModifyPartitions>\n                        <ModifyPartition wcm:action=\"add\">\n                            <Order>1</Order>\n                            <PartitionID>1</PartitionID>\n                            <Format>FAT32</Format>\n                            <Label>System</Label>\n                        </ModifyPartition>\n                        <ModifyPartition wcm:action=\"add\">\n                            <Order>2</Order>\n                            <PartitionID>2</PartitionID>\n                        </ModifyPartition>\n                        <ModifyPartition wcm:action=\"add\">\n                            <Order>3</Order>\n                            <PartitionID>3</PartitionID>\n                            <Format>NTFS</Format>\n                            <Label>Windows</Label>\n                            <Letter>C</Letter>\n                        </ModifyPartition>\n                    </ModifyPartitions>\n"@,
        BootMode::BIOS => "                    <CreatePartitions>\n                        <CreatePartition wcm:action=\"add\">\n                            <Order>1</Order>\n                            <Size>100</Size>\n                            <Type>Primary</Type>\n                        </CreatePartition>\n                        <CreatePartition wcm:action=\"add\">\n                            <Order>2</Order>\n                            <Extend>true</Extend>\n                            <Type>Primary</Type>\n                        </CreatePartition>\n                    </CreatePartitions>\n                    <ModifyPartitions>\n                        <ModifyPartition wcm:action=\"add\">\n                            <Order>1</Order>\n                            <PartitionID>1</PartitionID>\n                            <Active>true</Active>\n                            <Format>NTFS</Format>\n                            <Label>System Reserved</Label>\n                        </ModifyPartition>\n                        <ModifyPartition wcm:action=\"add\">\n                            <Order>2</Order>\n                            <PartitionID>2</PartitionID>\n                            <Format>NTFS</Format>\n                            <Label>Windows</Label>\n                            <Letter>C</Letter>\n                        </ModifyPartition>\n                    </ModifyPartitions>\n"@,
    }
}

fn push_partition_layout(out: &mut String, mode: BootMode)
    ensures
        final(out)@ == old(out)@ + partition_layout(mode),
{
    match mode {
        BootMode::UEFI => push_str(
            out,
            "                    <CreatePartitions>\n                        <CreatePartition wcm:action=\"add\">\n                            <Order>1</Order>\n                            <Size>100</Size>\n                            <Type>EFI</Type>\n                        </CreatePartition>\n                        <CreatePartition wcm:action=\"add\">\n                            <Order>2</Order>\n                            <Size>16</Size>\n                            <Type>MSR</Type>\n                        </CreatePartition>\n                        <CreatePartition wcm:action=\"add\">\n                            <Order>3</Order>\n                            <Extend>true</Extend>\n                            <Type>Primary</Type>\n                        </CreatePartition>\n                    </CreatePartitions>\n                    <ModifyPartitions>\n                        <ModifyPartition wcm:action=\"add\">\n                            <Order>1</Order>\n                            <PartitionID>1</PartitionID>\n                            <Format>FAT32</Format>\n                            <Label>System</Label>\n                        </ModifyPartition>\n                        <ModifyPartition wcm:action=\"add\">\n                            <Order>2</Order>\n                            <PartitionID>2</PartitionID>\n                        </ModifyPartition>\n                        <ModifyPartition wcm:action=\"add\">\n                            <Order>3</Order>\n                            <PartitionID>3</PartitionID>\n                            <Format>NTFS</Format>\n                            <Label>Windows</Label>\n                            <Letter>C</Letter>\n                        </ModifyPartition>\n                    </ModifyPartitions>\n",
        ),
        BootMode::BIOS => push_str(
            out,
            "                    <CreatePartitions>\n                        <CreatePartition wcm:action=\"add\">\n                            <Order>1</Order>\n                            <Size>100</Size>\n                            <Type>Primary</Type>\n                        </CreatePartition>\n                        <CreatePartition wcm:action=\"add\">\n                            <Order>2</Order>\n                            <Extend>true</Extend>\n                            <Type>Primary</Type>\n                        </CreatePartition>\n                    </CreatePartitions>\n                    <ModifyPartitions>\n                        <ModifyPartition wcm:action=\"add\">\n                            <Order>1</Order>\n                            <PartitionID>1</PartitionID>\n                            <Active>true</Active>\n                            <Format>NTFS</Format>\n                            <Label>System Reserved</Label>\n                        </ModifyPartition>\n                        <ModifyPartition wcm:action=\"add\">\n                            <Order>2</Order>\n                            <PartitionID>2</PartitionID>\n                            <Format>NTFS</Format>\n                            <Label>Windows</Label>\n                            <Letter>C</Letter>\n                        </ModifyPartition>\n                    </ModifyPartitions>\n",
        ),
    }
}

/// The disk to wipe and partition, present only when a disk was chosen
/// (`disk_id >= 0`).
pub open spec fn disk_configuration(c: DeployConfig) -> Seq<char> {
    if c.disk_id >= 0 {
        "            <DiskConfiguration>\n                <WillShowUI>OnError</WillShowUI>\n                <Disk wcm:action=\"add\">\n                    <DiskID>"@
            + signed_decimal(c.disk_id as int)
            + "</DiskID>\n                    <WillWipeDisk>true</WillWipeDisk>\n"@ + partition_layout(
            c.boot_mode,
        ) + "                </Disk>\n            </DiskConfiguration>\n"@
    } else {
        Seq::empty()
    }
}

fn push_disk_configuration(out: &mut String, c: &DeployConfig)
    ensures
        final(out)@ == old(out)@ + disk_configuration(*c),
{
    let ghost start = out@;
    if c.disk_id >= 0 {
        push_str(
            out,
            "            <DiskConfiguration>\n                <WillShowUI>OnError</WillShowUI>\n                <Disk wcm:action=\"add\">\n                    <DiskID>",
        );
        push_signed_decimal(out, c.disk_id as i64);
        push_str(out, "</DiskID>\n                    <WillWipeDisk>true</WillWipeDisk>\n");
        push_partition_layout(out, c.boot_mode);
        push_str(out, "                </Disk>\n            </DiskConfiguration>\n");
    }
    proof {
        assert(out@ =~= start + disk_configuration(*c));
    }
}

/// The partition Windows goes to on the wiped disk: the third (after EFI
/// and MSR) for UEFI, the second (after System Reserved) for BIOS.
pub open spec fn install_partition(mode: BootMode) -> Seq<char> {
    match mode {
        BootMode::UEFI => "3"@,
        BootMode::BIOS => "2"@,
    }
}

/// Where to install from: the edition by its image name, and on the chosen
/// disk its install partition. Present only when an edition was chosen.
pub open spec fn image_install(c: DeployConfig) -> Seq<char> {
    if c.edition@.len() > 0 {
        "            <ImageInstall>\n                <OSImage>\n"@ + (if c.disk_id >= 0 {
            "                    <InstallTo>\n                        <DiskID>"@ + signed_decimal(
                c.disk_id as int,
            ) + "</DiskID>\n                        <PartitionID>"@ + install_partition(
                c.boot_mode,
            ) + "</PartitionID>\n                    </InstallTo>\n"@
        } else {
            Seq::empty()
        })
            + "                    <InstallFrom>\n                        <MetaData wcm:action=\"add\">\n                            <Key>/IMAGE/NAME</Key>\n                            <Value>"@
            + escape(c.edition@)
            + "</Value>\n                        </MetaData>\n                    </InstallFrom>\n                </OSImage>\n            </ImageInstall>\n"@
    } else {
        Seq::empty()
    }
}

fn push_image_install(out: &mut String, c: &DeployConfig)
    ensures
        final(out)@ == old(out)@ + image_install(*c),
{
    let ghost start = out@;
    if !c.edition.as_str().is_empty() {
        push_str(out, "            <ImageInstall>\n                <OSImage>\n");
        let ghost mid = out@;
        if c.disk_id >= 0 {
            push_str(out, "                    <InstallTo>\n                        <DiskID>");
            push_signed_decimal(out, c.disk_id as i64);
            push_str(out, "</DiskID>\n                        <PartitionID>");
            match c.boot_mode {
                BootMode::UEFI => push_str(out, "3"),
                BootMode::BIOS => push_str(out, "2"),
            }
            push_str(out, "</PartitionID>\n                    </InstallTo>\n");
        }
        let ghost mid2 = out@;
        push_str(
            out,
            "                    <InstallFrom>\n                        <MetaData wcm:action=\"add\">\n                            <Key>/IMAGE/NAME</Key>\n                            <Value>",
        );
        push_escaped(out, c.edition.as_str());
        push_str(
            out,
            "</Value>\n                        </MetaData>\n                    </InstallFrom>\n                </OSImage>\n            </ImageInstall>\n",
        );
        proof {
            assert(mid2 =~= mid + (if c.disk_id >= 0 {
                "                    <InstallTo>\n                        <DiskID>"@ + signed_decimal(
                    c.disk_id as int,
                ) + "</DiskID>\n                        <PartitionID>"@ + install_partition(
                    c.boot_mode,
                ) + "</PartitionID>\n                    </InstallTo>\n"@
            } else {
                Seq::empty()
            }));
        }
    }
    proof {
        assert(out@ =~= start + image_install(*c));
    }
}

/// The EULA acceptance and, when there is one, the product key.
pub open spec fn user_data(key: Seq<char>) -> Seq<char> {
    "            <UserData>\n                <AcceptEula>true</AcceptEula>\n"@ + (if key.len() > 0 {
        "                <ProductKey>\n                    <Key>"@ + escape(key)
            + "</Key>\n                </ProductKey>\n"@
    } else {
        Seq::empty()
    }) + "            </UserData>\n"@
}

fn push_user_data(out: &mut String, key: &str)
    ensures
        final(out)@ == old(out)@ + user_data(key@),
{
    let ghost start = out@;
    push_str(out, "            <UserData>\n                <AcceptEula>true</AcceptEula>\n");
    if !key.is_empty() {
        push_str(out, "                <ProductKey>\n                    <Key>");
        push_escaped(out, key);
        push_str(out, "</Key>\n                </ProductKey>\n");
    }
    push_str(out, "            </UserData>\n");
    proof {
        assert(out@ =~= start + user_data(key@));
    }
}

/// The windowsPE pass: languages, disk layout, image and product key.
pub open spec fn windows_pe_pass(c: DeployConfig, key: Seq<char>) -> Seq<char> {
    "    <settings pass=\"windowsPE\">\n        <component name=\"Microsoft-Windows-International-Core-WinPE\""@
        + component_attributes()
        + "            <SetupUILanguage>\n                <UILanguage>"@ + escape(c.language@)
        + "</UILanguage>\n            </SetupUILanguage>\n"@ + locale_settings(c.language@)
        + "        </component>\n        <component name=\"Microsoft-Windows-Setup\""@
        + component_attributes() + disk_configuration(c) + image_install(c) + user_data(key)
        + "        </component>\n    </settings>\n"@
}

fn push_windows_pe_pass(out: &mut String, c: &DeployConfig, key: &str)
    ensures
        final(out)@ == old(out)@ + windows_pe_pass(*c, key@),
{
    let ghost start = out@;
    push_str(
        out,
        "    <settings pass=\"windowsPE\">\n        <component name=\"Microsoft-Windows-International-Core-WinPE\"",
    );
    push_component_attributes(out);
    push_str(out, "            <SetupUILanguage>\n                <UILanguage>");
    push_escaped(out, c.language.as_str());
    push_str(out, "</UILanguage>\n            </SetupUILanguage>\n");
    push_locale_settings(out, c.language.as_str());
    push_str(out, "        </component>\n        <component name=\"Microsoft-Windows-Setup\"");
    push_component_attributes(out);
    push_disk_configuration(out, c);
    push_image_install(out, c);
    push_user_data(out, key);
    push_str(out, "        </component>\n    </settings>\n");
    proof {
        assert(out@ =~= start + windows_pe_pass(*c, key@));
    }
}

/// The registered organization and owner, each when it is set.
pub open spec fn registration(c: DeployConfig) -> Seq<char> {
    (if c.organization@.len() > 0 {
        "            <RegisteredOrganization>"@ + escape(c.organization@)
            + "</RegisteredOrganization>\n"@
    } else {
        Seq::empty()
    }) + (if c.owner_name@.len() > 0 {
        "            <RegisteredOwner>"@ + escape(c.owner_name@) + "</RegisteredOwner>\n"@
    } else {
        Seq::empty()
    })
}

fn push_registration(out: &mut String, c: &DeployConfig)
    ensures
        final(out)@ == old(out)@ + registration(*c),
{
    let ghost start = out@;
    if !c.organization.as_str().is_empty() {
        push_str(out, "            <RegisteredOrganization>");
        push_escaped(out, c.organization.as_str());
        push_str(out, "</RegisteredOrganization>\n");
    }
    let ghost mid = out@;
    if !c.owner_name.as_str().is_empty() {
        push_str(out, "            <RegisteredOwner>");
        push_escaped(out, c.owner_name.as_str());
        push_str(out, "</RegisteredOwner>\n");
    }
    proof {
        assert(mid =~= start + (if c.organization@.len() > 0 {
            "            <RegisteredOrganization>"@ + escape(c.organization@)
                + "</RegisteredOrganization>\n"@
        } else {
            Seq::empty()
        }));
        assert(out@ =~= start + registration(*c));
    }
}

/// The component that keeps Windows from encrypting the device on its own,
/// when that is asked for.
pub open spec fn encryption_opt_out(c: DeployConfig) -> Seq<char> {
    if c.prevent_device_encryption {
        "        <component name=\"Microsoft-Windows-SecureStartup-FilterDriver\""@
            + component_attributes()
            + "            <PreventDeviceEncryption>true</PreventDeviceEncryption>\n        </component>\n"@
    } else {
        Seq::empty()
    }
}

fn push_encryption_opt_out(out: &mut String, c: &DeployConfig)
    ensures
        final(out)@ == old(out)@ + encryption_opt_out(*c),
{
    let ghost start = out@;
    if c.prevent_device_encryption {
        push_str(out, "        <component name=\"Microsoft-Windows-SecureStartup-FilterDriver\"");
        push_component_attributes(out);
        push_str(
            out,
            "            <PreventDeviceEncryption>true</PreventDeviceEncryption>\n        </component>\n",
        );
    }
    proof {
        assert(out@ =~= start + encryption_opt_out(*c));
    }
}

/// The specialize pass: computer name, time zone, registration, and the
/// opt-out of automatic device encryption.
pub open spec fn specialize_pass(c: DeployConfig) -> Seq<char> {
    "    <settings pass=\"specialize\">\n        <component name=\"Microsoft-Windows-Shell-Setup\""@
        + component_attributes() + "            <ComputerName>"@ + escape(c.computer_name@)
        + "</ComputerName>\n            <TimeZone>"@ + escape(c.timezone@) + "</TimeZone>\n"@
        + registration(c) + "        </component>\n"@ + encryption_opt_out(c)
        + "    </settings>\n"@
}

fn push_specialize_pass(out: &mut String, c: &DeployConfig)
    ensures
        final(out)@ == old(out)@ + specialize_pass(*c),
{
    let ghost start = out@;
    push_str(
        out,
        "    <settings pass=\"specialize\">\n        <component name=\"Microsoft-Windows-Shell-Setup\"",
    );
    push_component_attributes(out);
    push_str(out, "            <ComputerName>");
    push_escaped(out, c.computer_name.as_str());
    push_str(out, "</ComputerName>\n            <TimeZone>");
    push_escaped(out, c.timezone.as_str());
    push_str(out, "</TimeZone>\n");
    push_registration(out, c);
    push_str(out, "        </component>\n");
    push_encryption_opt_out(out, c);
    push_str(out, "    </settings>\n");
    proof {
        assert(out@ =~= start + specialize_pass(*c));
    }
}

/// Automatic logon, once, as the new user (with its password if it has
/// one); present when asked for and a user name is set.
pub open spec fn auto_logon(c: DeployConfig) -> Seq<char> {
    if c.enable_autologon && c.user_name@.len() > 0 {
        "            <AutoLogon>\n                <Enabled>true</Enabled>\n                <LogonCount>1</LogonCount>\n                <Username>"@
            + escape(c.user_name@) + "</Username>\n"@ + (if c.user_password@.len() > 0 {
            "                <Password>\n                    <Value>"@ + escape(c.user_password@)
                + "</Value>\n                    <PlainText>true</PlainText>\n                </Password>\n"@
        } else {
            Seq::empty()
        }) + "            </AutoLogon>\n"@
    } else {
        Seq::empty()
    }
}

fn push_auto_logon(out: &mut String, c: &DeployConfig)
    ensures
        final(out)@ == old(out)@ + auto_logon(*c),
{
    let ghost start = out@;
    if c.enable_autologon && !c.user_name.as_str().is_empty() {
        push_str(
            out,
            "            <AutoLogon>\n                <Enabled>true</Enabled>\n                <LogonCount>1</LogonCount>\n                <Username>",
        );
        push_escaped(out, c.user_name.as_str());
        push_str(out, "</Username>\n");
        let ghost a = out@;
        if !c.user_password.as_str().is_empty() {
            push_str(out, "                <Password>\n                    <Value>");
            push_escaped(out, c.user_password.as_str());
            push_str(
                out,
                "</Value>\n                    <PlainText>true</PlainText>\n                </Password>\n",
            );
        }
        let ghost b = out@;
        push_str(out, "            </AutoLogon>\n");
        proof {
            assert(b =~= a + (if c.user_password@.len() > 0 {
                "                <Password>\n                    <Value>"@ + escape(c.user_password@)
                    + "</Value>\n                    <PlainText>true</PlainText>\n                </Password>\n"@
            } else {
                Seq::empty()
            }));
        }
    }
    proof {
        assert(out@ =~= start + auto_logon(*c));
    }
}

/// The local account to create: name, display name, group (Administrators
/// or Users) and password; present when a user name is set.
pub open spec fn user_accounts(c: DeployConfig) -> Seq<char> {
    if c.user_name@.len() > 0 {
        "            <UserAccounts>\n                <LocalAccounts>\n                    <LocalAccount wcm:action=\"add\">\n                        <Name>"@
            + escape(c.user_name@) + "</Name>\n"@ + (if c.user_display_name@.len() > 0 {
            "                        <DisplayName>"@ + escape(c.user_display_name@)
                + "</DisplayName>\n"@
        } else {
            Seq::empty()
        }) + "                        <Group>"@ + (if c.user_is_admin {
            "Administrators"@
        } else {
            "Users"@
        }) + "</Group>\n"@ + (if c.user_password@.len() > 0 {
            "                        <Password>\n                            <Value>"@ + escape(
                c.user_password@,
            )
                + "</Value>\n                            <PlainText>true</PlainText>\n                        </Password>\n"@
        } else {
            Seq::empty()
        })
            + "                    </LocalAccount>\n                </LocalAccounts>\n            </UserAccounts>\n"@
    } else {
        Seq::empty()
    }
}

fn push_user_accounts(out: &mut String, c: &DeployConfig)
    ensures
        final(out)@ == old(out)@ + user_accounts(*c),
{
    let ghost start = out@;
    if !c.user_name.as_str().is_empty() {
        push_str(
            out,
            "            <UserAccounts>\n                <LocalAccounts>\n                    <LocalAccount wcm:action=\"add\">\n                        <Name>",
        );
        push_escaped(out, c.user_name.as_str());
        push_str(out, "</Name>\n");
        let ghost a = out@;
        if !c.user_display_name.as_str().is_empty() {
            push_str(out, "                        <DisplayName>");
            push_escaped(out, c.user_display_name.as_str());
            push_str(out, "</DisplayName>\n");
        }
        let ghost b = out@;
        push_str(out, "                        <Group>");
        if c.user_is_admin {
            push_str(out, "Administrators");
        } else {
            push_str(out, "Users");
        }
        push_str(out, "</Group>\n");
        let ghost d = out@;
        if !c.user_password.as_str().is_empty() {
            push_str(out, "                        <Password>\n                            <Value>");
            push_escaped(out, c.user_password.as_str());
            push_str(
                out,
                "</Value>\n                            <PlainText>true</PlainText>\n                        </Password>\n",
            );
        }
        let ghost e = out@;
        push_str(
            out,
            "                    </LocalAccount>\n                </LocalAccounts>\n            </UserAccounts>\n",
        );
        proof {
            assert(b =~= a + (if c.user_display_name@.len() > 0 {
                "                        <DisplayName>"@ + escape(c.user_display_name@)
                    + "</DisplayName>\n"@
            } else {
                Seq::empty()
            }));
            assert(d =~= b + "                        <Group>"@ + (if c.user_is_admin {
                "Administrators"@
            } else {
                "Users"@
            }) + "</Group>\n"@);
            assert(e =~= d + (if c.user_password@.len() > 0 {
                "                        <Password>\n                            <Value>"@ + escape(
                    c.user_password@,
                )
                    + "</Value>\n                            <PlainText>true</PlainText>\n                        </Password>\n"@
            } else {
                Seq::empty()
            }));
        }
    }
    proof {
        assert(out@ =~= start + user_accounts(*c));
    }
}

/// The out-of-box experience: the pages to skip, "don't change" for
/// protection settings, and a work network.
pub open spec fn oobe_settings(c: DeployConfig) -> Seq<char> {
    "            <OOBE>\n"@ + (if c.skip_eula {
        "                <HideEULAPage>true</HideEULAPage>\n"@
    } else {
        Seq::empty()
    }) + (if c.skip_oobe {
        "                <HideOEMRegistrationScreen>true</HideOEMRegistrationScreen>\n                <HideOnlineAccountScreens>true</HideOnlineAccountScreens>\n                <HideWirelessSetupInOOBE>true</HideWirelessSetupInOOBE>\n                <SkipMachineOOBE>true</SkipMachineOOBE>\n                <SkipUserOOBE>true</SkipUserOOBE>\n"@
    } else {
        Seq::empty()
    }) + (if c.skip_network {
        "                <HideWirelessSetupInOOBE>true</HideWirelessSetupInOOBE>\n"@
    } else {
        Seq::empty()
    })
        + "                <ProtectYourPC>3</ProtectYourPC>\n                <NetworkLocation>Work</NetworkLocation>\n            </OOBE>\n"@
}

fn push_oobe_settings(out: &mut String, c: &DeployConfig)
    ensures
        final(out)@ == old(out)@ + oobe_settings(*c),
{
    let ghost start = out@;
    push_str(out, "            <OOBE>\n");
    let ghost a = out@;
    if c.skip_eula {
        push_str(out, "                <HideEULAPage>true</HideEULAPage>\n");
    }
    let ghost b = out@;
    if c.skip_oobe {
        push_str(
            out,
            "                <HideOEMRegistrationScreen>true</HideOEMRegistrationScreen>\n                <HideOnlineAccountScreens>true</HideOnlineAccountScreens>\n                <HideWirelessSetupInOOBE>true</HideWirelessSetupInOOBE>\n                <SkipMachineOOBE>true</SkipMachineOOBE>\n                <SkipUserOOBE>true</SkipUserOOBE>\n",
        );
    }
    let ghost d = out@;
    if c.skip_network {
        push_str(out, "                <HideWirelessSetupInOOBE>true</HideWirelessSetupInOOBE>\n");
    }
    push_str(
        out,
        "                <ProtectYourPC>3</ProtectYourPC>\n                <NetworkLocation>Work</NetworkLocation>\n            </OOBE>\n",
    );
    proof {
        assert(out@ =~= start + oobe_settings(*c));
    }
}

/// `<FirstLogonCommands>` around the rendered commands, when there are any.
pub open spec fn first_logon_section(commands: Seq<char>) -> Seq<char> {
    if commands.len() > 0 {
        "            <FirstLogonCommands>\n"@ + commands + "            </FirstLogonCommands>\n"@
    } else {
        Seq::empty()
    }
}

/// The oobeSystem pass: automatic logon, the user account, the OOBE pages,
/// the first-logon commands and the locale of the installed system.
pub open spec fn oobe_system_pass(c: DeployConfig, has_scripts: bool) -> Seq<char> {
    "    <settings pass=\"oobeSystem\">\n        <component name=\"Microsoft-Windows-Shell-Setup\""@
        + component_attributes() + auto_logon(c) + user_accounts(c) + oobe_settings(c)
        + first_logon_section(render_commands(first_logon_commands(c, has_scripts), 1))
        + "        </component>\n        <component name=\"Microsoft-Windows-International-Core\""@
        + component_attributes() + locale_settings(c.language@)
        + "        </component>\n    </settings>\n"@
}

fn push_oobe_system_pass(out: &mut String, c: &DeployConfig, has_firstlogon_scripts: bool)
    ensures
        final(out)@ == old(out)@ + oobe_system_pass(*c, has_firstlogon_scripts),
{
    let ghost start = out@;
    push_str(
        out,
        "    <settings pass=\"oobeSystem\">\n        <component name=\"Microsoft-Windows-Shell-Setup\"",
    );
    push_component_attributes(out);
    push_auto_logon(out, c);
    push_user_accounts(out, c);
    push_oobe_settings(out, c);
    let first_logon = build_first_logon_commands(c, has_firstlogon_scripts);
    let ghost a = out@;
    if !first_logon.as_str().is_empty() {
        push_str(out, "            <FirstLogonCommands>\n");
        push_str(out, first_logon.as_str());
        push_str(out, "            </FirstLogonCommands>\n");
    }
    proof {
        assert(out@ =~= a + first_logon_section(first_logon@));
    }
    push_str(
        out,
        "        </component>\n        <component name=\"Microsoft-Windows-International-Core\"",
    );
    push_component_attributes(out);
    push_locale_settings(out, c.language.as_str());
    push_str(out, "        </component>\n    </settings>\n");
    proof {
        assert(out@ =~= start + oobe_system_pass(*c, has_firstlogon_scripts));
    }
}

/// The whole answer file for a configuration, a product key (empty for
/// none) and whether there are first-logon scripts to run.
pub open spec fn answer_file(c: DeployConfig, key: Seq<char>, has_scripts: bool) -> Seq<char> {
    "<?xml version=\"1.0\" encoding=\"utf-8\"?>\n<unattend xmlns=\"urn:schemas-microsoft-com:unattend\">\n"@
        + windows_pe_pass(c, key) + specialize_pass(c) + oobe_system_pass(c, has_scripts)
        + "</unattend>\n"@
}

/// The key that goes into the answer file: the user's own key, else the
/// generic key of the chosen edition, else none.
pub open spec fn effective_product_key(c: DeployConfig) -> Seq<char> {
    if c.product_key@.len() > 0 {
        c.product_key@
    } else {
        match generic_key_for(c.edition@) {
            Some(k) => k,
            None => Seq::empty(),
        }
    }
}

/// The answer file for `config` with the given product key (empty for
/// none).
pub fn render_autounattend(config: &DeployConfig, product_key: &str, has_firstlogon_scripts: bool) -> (r:
    String)
    ensures
        r@ == answer_file(*config, product_key@, has_firstlogon_scripts),
{
    let mut xml = String::new();
    push_str(
        &mut xml,
        "<?xml version=\"1.0\" encoding=\"utf-8\"?>\n<unattend xmlns=\"urn:schemas-microsoft-com:unattend\">\n",
    );
    push_windows_pe_pass(&mut xml, config, product_key);
    push_specialize_pass(&mut xml, config);
    push_oobe_system_pass(&mut xml, config, has_firstlogon_scripts);
    push_str(&mut xml, "</unattend>\n");
    proof {
        assert(xml@ =~= answer_file(*config, product_key@, has_firstlogon_scripts));
    }
    xml
}

/// The complete autounattend.xml for a configuration: the windowsPE pass
/// (languages, disk layout, image, product key), the specialize pass
/// (machine identity) and the oobeSystem pass (user, OOBE, first-logon
/// tweaks). Without a product key of its own the edition's generic key
/// selects the edition. `has_firstlogon_scripts` says whether post-install
/// scripts were added for the first logon.
pub fn generate_autounattend(config: &DeployConfig, has_firstlogon_scripts: bool) -> (r: String)
    ensures
        r@ == answer_file(*config, effective_product_key(*config), has_firstlogon_scripts),
{
    if !config.product_key.as_str().is_empty() {
        render_autounattend(config, config.product_key.as_str(), has_firstlogon_scripts)
    } else {
        match get_generic_key(config.edition.as_str()) {
            Some(generic) => render_autounattend(config, generic, has_firstlogon_scripts),
            None => {
                proof {
                    reveal_strlit("");
                }
                render_autounattend(config, "", has_firstlogon_scripts)
            },
        }
    }
}

} // verus!
