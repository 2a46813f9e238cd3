//! Readers for what DISM, PowerShell and diskpart print: Windows editions in
//! an image, physical disks, the system disk, and detected product keys.

use vstd::prelude::*;
use crate::deploy::{DiskInfo, WimEdition, WindowsKeyInfo};
use crate::text::{
    chars_start_with, decimal, is_digit, lines, parse_u32, parse_u64,
    parse_unsigned, parse_unsigned_exec, push_decimal, second_piece, second_piece_exec, seqs_of,
    split_lines, starts_with, string_from, to_chars, trim, trim_chars,
};

verus! {

// ---------------------------------------------------------------------------
// DISM /Get-WimInfo
// ---------------------------------------------------------------------------

/// An edition as the reader builds it: index, name, size in bytes.
pub type EditionView = (nat, Seq<char>, nat);

pub open spec fn edition_view(e: WimEdition) -> EditionView {
    (e.index as nat, e.name@, e.size_bytes as nat)
}

/// The reader's state between lines.
pub struct WimScan {
    pub done: Seq<EditionView>,
    pub index: Option<nat>,
    pub name: Seq<char>,
    pub size: nat,
}

/// The digits of `s`, in order.
pub open spec fn digits_in(s: Seq<char>) -> Seq<char>
    decreases s.len(),
{
    if s.len() == 0 {
        Seq::empty()
    } else if is_digit(s.last()) {
        digits_in(s.drop_last()).push(s.last())
    } else {
        digits_in(s.drop_last())
    }
}

/// The text after the first colon of a line, trimmed.
pub open spec fn field_value(line: Seq<char>) -> Seq<char> {
    trim(second_piece(line, ':'))
}

pub open spec fn labeled(line: Seq<char>, spaced: Seq<char>, tight: Seq<char>) -> bool {
    starts_with(line, spaced) || starts_with(line, tight)
}

/// One (untrimmed) line of DISM output applied to the state.
pub open spec fn wim_step(st: WimScan, raw: Seq<char>) -> WimScan {
    let line = trim(raw);
    if labeled(line, "Index :"@, "Index:"@) {
        WimScan {
            done: match st.index {
                Some(i) => st.done.push((i, st.name, st.size)),
                None => st.done,
            },
            index: parse_u32(field_value(line)),
            name: Seq::empty(),
            size: 0,
        }
    } else if labeled(line, "Name :"@, "Name:"@) {
        WimScan { name: field_value(line), ..st }
    } else if labeled(line, "Size :"@, "Size:"@) {
        WimScan {
            size: match parse_u64(digits_in(field_value(line))) {
                Some(v) => v,
                None => 0,
            },
            ..st
        }
    } else {
        st
    }
}

pub open spec fn wim_scan(ls: Seq<Seq<char>>) -> WimScan
    decreases ls.len(),
{
    if ls.len() == 0 {
        WimScan { done: Seq::empty(), index: None, name: Seq::empty(), size: 0 }
    } else {
        wim_step(wim_scan(ls.drop_last()), ls.last())
    }
}

/// The editions listed in DISM's `/Get-WimInfo` output, in order: each
/// "Index" line starts an edition, the "Name" and "Size" lines after it fill
/// it in (the size keeps only its digits; a missing or unreadable size is
/// 0), and an index that is not a number drops that edition.
pub open spec fn wim_editions(output: Seq<char>) -> Seq<EditionView> {
    let st = wim_scan(lines(output));
    match st.index {
        Some(i) => st.done.push((i, st.name, st.size)),
        None => st.done,
    }
}

/// The digits of a character slice.
fn digits_of(s: &[char]) -> (r: Vec<char>)
    ensures
        r@ == digits_in(s@),
{
    let mut r: Vec<char> = Vec::new();
    let mut i: usize = 0;
    while i < s.len()
        invariant
            i <= s@.len(),
            r@ == digits_in(s@.take(i as int)),
        decreases s@.len() - i,
    {
        proof {
            assert(s@.take(i + 1).drop_last() =~= s@.take(i as int));
            assert(s@.take(i + 1).last() == s@[i as int]);
        }
        if '0' <= s[i] && s[i] <= '9' {
            r.push(s[i]);
        }
        i = i + 1;
    }
    proof {
        assert(s@.take(s@.len() as int) =~= s@);
    }
    r
}

/// Whether a trimmed line starts with one of two labels.
fn labeled_exec(line: &[char], spaced: &str, tight: &str) -> (r: bool)
    ensures
        r == labeled(line@, spaced@, tight@),
{
    chars_start_with(line, spaced) || chars_start_with(line, tight)
}

/// The trimmed text after the first colon.
fn field_value_exec(line: &[char]) -> (r: Vec<char>)
    ensures
        r@ == field_value(line@),
{
    let v = second_piece_exec(line, ':');
    trim_chars(v.as_slice())
}

/// Reads the editions out of DISM's `/Get-WimInfo` output. It is an error
/// when there are none.
pub fn parse_wim_info(output: &str) -> (r: Result<Vec<WimEdition>, String>)
    ensures
        match r {
            Ok(v) => v@.map_values(|e: WimEdition| edition_view(e)) == wim_editions(output@)
                && v@.len() > 0,
            Err(m) => wim_editions(output@).len() == 0 && m@
                == "No Windows editions found in the image. Is this a valid install.wim or install.esd?"@,
        },
{
    let text = to_chars(output);
    let ls = split_lines(text.as_slice());
    let ghost lv = seqs_of(ls@);
    let mut editions: Vec<WimEdition> = Vec::new();
    let mut index: Option<u32> = None;
    let mut name: Vec<char> = Vec::new();
    let mut size: u64 = 0;
    let mut i: usize = 0;
    while i < ls.len()
        invariant
            i <= ls@.len(),
            lv == seqs_of(ls@),
            lv == lines(output@),
            ({
                let st = wim_scan(lv.take(i as int));
                &&& editions@.map_values(|e: WimEdition| edition_view(e)) == st.done
                &&& match index {
                    Some(x) => st.index == Some(x as nat),
                    None => st.index is None,
                }
                &&& name@ == st.name
                &&& size as nat == st.size
            }),
        decreases ls@.len() - i,
    {
        let ghost st = wim_scan(lv.take(i as int));
        proof {
            assert(lv.take(i + 1).drop_last() =~= lv.take(i as int));
            assert(lv.take(i + 1).last() == ls@[i as int]@);
        }
        let line = trim_chars(ls[i].as_slice());
        if labeled_exec(line.as_slice(), "Index :", "Index:") {
            if let Some(idx) = index {
                let ghost before = editions@;
                editions.push(WimEdition { index: idx, name: string_from(name.as_slice()), size_bytes: size });
                proof {
                    assert(editions@.map_values(|e: WimEdition| edition_view(e)) =~= before.map_values(
                        |e: WimEdition| edition_view(e),
                    ).push((idx as nat, name@, size as nat)));
                }
            }
            let v = field_value_exec(line.as_slice());
            index = match parse_unsigned_exec(v.as_slice(), 4294967295u64) {
                Some(x) => Some(x as u32),
                None => None,
            };
            name = Vec::new();
            size = 0;
        } else if labeled_exec(line.as_slice(), "Name :", "Name:") {
            name = field_value_exec(line.as_slice());
        } else if labeled_exec(line.as_slice(), "Size :", "Size:") {
            let v = field_value_exec(line.as_slice());
            let d = digits_of(v.as_slice());
            size = match parse_unsigned_exec(d.as_slice(), 18446744073709551615u64) {
                Some(x) => x,
                None => 0,
            };
        }
        i = i + 1;
    }
    proof {
        assert(lv.take(lv.len() as int) =~= lv);
    }
    if let Some(idx) = index {
        let ghost before = editions@;
        editions.push(WimEdition { index: idx, name: string_from(name.as_slice()), size_bytes: size });
        proof {
            assert(editions@.map_values(|e: WimEdition| edition_view(e)) =~= before.map_values(
                |e: WimEdition| edition_view(e),
            ).push((idx as nat, name@, size as nat)));
        }
    }
    if editions.len() == 0 {
        Err(String::from_str("No Windows editions found in the image. Is this a valid install.wim or install.esd?"))
    } else {
        Ok(editions)
    }
}

} // verus!

verus! {

// ---------------------------------------------------------------------------
// Disks
// ---------------------------------------------------------------------------

/// A disk as the readers build it: number, name, size, partition style,
/// system flag.
pub type DiskView = (nat, Seq<char>, nat, Seq<char>, bool);

pub open spec fn disk_view(d: DiskInfo) -> DiskView {
    (d.number as nat, d.friendly_name@, d.size_bytes as nat, d.partition_style@, d.is_system_disk)
}

/// Whether disk `n` is the system disk: the disk holding C: when that is
/// known, disk 0 otherwise.
pub open spec fn is_system(system_disk: Option<u32>, n: nat) -> bool {
    match system_disk {
        Some(sd) => n == sd as nat,
        None => n == 0,
    }
}

fn is_system_exec(system_disk: Option<u32>, n: u32) -> (r: bool)
    ensures
        r == is_system(system_disk, n as nat),
{
    match system_disk {
        Some(sd) => n == sd,
        None => n == 0,
    }
}

pub open spec fn number_or_zero(v: Option<nat>) -> nat {
    match v {
        Some(x) => x,
        None => 0,
    }
}

/// One line of the PowerShell listing "Number|FriendlyName|Size|Style".
pub open spec fn powershell_disk(line: Seq<char>, system_disk: Option<u32>) -> Option<DiskView> {
    let t = trim(line);
    let parts = crate::text::split(t, '|');
    if t.len() == 0 || parts.len() < 4 {
        None
    } else {
        let n = number_or_zero(parse_u32(trim(parts[0])));
        Some((
            n,
            trim(parts[1]),
            number_or_zero(parse_u64(trim(parts[2]))),
            trim(parts[3]),
            is_system(system_disk, n),
        ))
    }
}

/// The disks in the PowerShell listing, one per line with at least four
/// `|`-separated fields; a number or size that does not read is 0.
pub open spec fn powershell_disks(ls: Seq<Seq<char>>, system_disk: Option<u32>) -> Seq<DiskView>
    decreases ls.len(),
{
    if ls.len() == 0 {
        Seq::empty()
    } else {
        let rest = powershell_disks(ls.drop_last(), system_disk);
        match powershell_disk(ls.last(), system_disk) {
            Some(d) => rest.push(d),
            None => rest,
        }
    }
}

/// `s` holds no `|`.
pub open spec fn bar_free(s: Seq<char>) -> bool {
    forall|i: int| 0 <= i < s.len() ==> s[i] != '|'
}

/// A PowerShell listing line written as `number|name|size|style` reads back
/// as that disk: the number and the size are the written numbers (any size
/// that fits in 64 bits, so disks above 4 GiB keep their size), the name and
/// style are the written ones without surrounding whitespace.
pub proof fn lemma_powershell_line_reads_back(
    n: nat,
    name: Seq<char>,
    size: nat,
    style: Seq<char>,
    system_disk: Option<u32>,
)
    requires
        n <= u32::MAX,
        size <= u64::MAX,
        bar_free(name),
        bar_free(style),
        style.len() > 0,
        !crate::text::is_ws(style.last()),
    ensures
        powershell_disk(
            decimal(n) + seq!['|'] + name + seq!['|'] + decimal(size) + seq!['|'] + style,
            system_disk,
        ) == Some((n, trim(name), size, trim(style), is_system(system_disk, n))),
{
    let a = decimal(n);
    let c = decimal(size);
    crate::text::lemma_decimal_reads_back(n, u32::MAX as nat);
    crate::text::lemma_decimal_reads_back(size, u64::MAX as nat);
    crate::text::lemma_decimal_digits(n);
    crate::text::lemma_decimal_digits(size);
    let line = a + seq!['|'] + name + seq!['|'] + c + seq!['|'] + style;
    let e1 = a.len() as int;
    let e2 = e1 + 1 + name.len();
    let e3 = e2 + 1 + c.len();
    assert(line.len() == e3 + 1 + style.len());
    // The line has no surrounding whitespace.
    assert(line[0] == a[0]);
    assert(crate::text::is_digit(a[0]));
    assert(crate::text::trim_start(line) == line);
    assert(line.last() == style.last());
    assert(trim(line) == line);
    // Its pieces between the bars.
    assert forall|j: int| 0 <= j < e1 implies line[j] != '|' by {
        assert(line[j] == a[j]);
        assert(crate::text::is_digit(a[j]));
    }
    assert(line[e1] == '|');
    assert forall|j: int| e1 + 1 <= j < e2 implies line[j] != '|' by {
        assert(line[j] == name[j - e1 - 1]);
    }
    assert(line[e2] == '|');
    assert forall|j: int| e2 + 1 <= j < e3 implies line[j] != '|' by {
        assert(line[j] == c[j - e2 - 1]);
        assert(crate::text::is_digit(c[j - e2 - 1]));
    }
    assert(line[e3] == '|');
    assert forall|j: int| e3 + 1 <= j < line.len() implies line[j] != '|' by {
        assert(line[j] == style[j - e3 - 1]);
    }
    crate::text::lemma_split_at(line, '|', 0, e1);
    crate::text::lemma_split_at(line, '|', e1 + 1, e2);
    crate::text::lemma_split_at(line, '|', e2 + 1, e3);
    crate::text::lemma_split_last(line, '|', e3 + 1);
    assert(line.subrange(0, e1) =~= a);
    assert(line.subrange(e1 + 1, e2) =~= name);
    assert(line.subrange(e2 + 1, e3) =~= c);
    assert(line.subrange(e3 + 1, line.len() as int) =~= style);
    let parts = crate::text::split(line, '|');
    assert(parts =~= seq![a, name, c, style]);
    assert(parse_u32(trim(parts[0])) == Some(n));
    assert(parse_u64(trim(parts[2])) == Some(size));
}

/// A number read with `str::parse`, or 0.
fn number_or_zero_exec(s: &[char], max: u64) -> (r: u64)
    ensures
        r as nat == number_or_zero(parse_unsigned(s@, max as nat)),
{
    match parse_unsigned_exec(s, max) {
        Some(v) => v,
        None => 0,
    }
}

/// Reads the disks out of the PowerShell `Get-Disk` listing, marking the
/// system disk.
pub fn parse_powershell_disks(output: &str, system_disk: Option<u32>) -> (r: Vec<DiskInfo>)
    ensures
        r@.map_values(|d: DiskInfo| disk_view(d)) == powershell_disks(lines(output@), system_disk),
{
    let text = to_chars(output);
    let ls = split_lines(text.as_slice());
    let ghost lv = seqs_of(ls@);
    let mut r: Vec<DiskInfo> = Vec::new();
    let mut i: usize = 0;
    while i < ls.len()
        invariant
            i <= ls@.len(),
            lv == seqs_of(ls@),
            lv == lines(output@),
            r@.map_values(|d: DiskInfo| disk_view(d)) == powershell_disks(lv.take(i as int), system_disk),
        decreases ls@.len() - i,
    {
        proof {
            assert(lv.take(i + 1).drop_last() =~= lv.take(i as int));
            assert(lv.take(i + 1).last() == ls@[i as int]@);
        }
        let t = trim_chars(ls[i].as_slice());
        let parts = crate::text::split_char(t.as_slice(), '|');
        if t.len() > 0 && parts.len() >= 4 {
            proof {
                assert forall|k: int| 0 <= k < parts@.len() implies seqs_of(parts@)[k] == parts@[k]@ by {}
            }
            let f0 = trim_chars(parts[0].as_slice());
            let f1 = trim_chars(parts[1].as_slice());
            let f2 = trim_chars(parts[2].as_slice());
            let f3 = trim_chars(parts[3].as_slice());
            let n = number_or_zero_exec(f0.as_slice(), 4294967295u64) as u32;
            let size = number_or_zero_exec(f2.as_slice(), 18446744073709551615u64);
            let sys = is_system_exec(system_disk, n);
            let ghost before = r@;
            r.push(DiskInfo {
                number: n,
                friendly_name: string_from(f1.as_slice()),
                size_bytes: size,
                partition_style: string_from(f3.as_slice()),
                is_system_disk: sys,
            });
            proof {
                assert(r@.map_values(|d: DiskInfo| disk_view(d)) =~= before.map_values(
                    |d: DiskInfo| disk_view(d),
                ).push(disk_view(r@.last())));
            }
        }
        i = i + 1;
    }
    proof {
        assert(lv.take(lv.len() as int) =~= lv);
    }
    r
}

/// The disk holding C:, from PowerShell's one-number answer.
pub fn parse_system_disk_number(output: &str) -> (r: Option<u32>)
    ensures
        match parse_u32(trim(output@)) {
            Some(v) => r == Some(v as u32),
            None => r is None,
        },
{
    let text = to_chars(output);
    let t = trim_chars(text.as_slice());
    match parse_unsigned_exec(t.as_slice(), 4294967295u64) {
        Some(v) => Some(v as u32),
        None => None,
    }
}

} // verus!

verus! {

/// Bytes per unit word of diskpart's size column (0 for other words).
pub open spec fn unit_bytes(w: Seq<char>) -> nat {
    if w == "TB"@ {
        1099511627776
    } else if w == "GB"@ {
        1073741824
    } else if w == "MB"@ {
        1048576
    } else {
        0
    }
}

/// The disk's total size on a diskpart line: the first number followed by a
/// unit word, read from word `k` on (the Size column comes before the Free
/// one); 0 when no such pair follows, `None` when it does not fit in 64 bits.
pub open spec fn size_from(ws: Seq<Seq<char>>, k: int) -> Option<nat>
    decreases ws.len() - k,
{
    if k < 0 || k >= ws.len() {
        Some(0)
    } else if parse_u64(ws[k]) is Some && k + 1 < ws.len() && unit_bytes(ws[k + 1]) > 0 {
        let v = parse_u64(ws[k])->0 * unit_bytes(ws[k + 1]);
        if v > u64::MAX {
            None
        } else {
            Some(v)
        }
    } else {
        size_from(ws, k + 1)
    }
}

/// One line of diskpart's "list disk": `Ok(None)` for a line that lists no
/// disk, `Err(())` for a size too large for 64 bits.
pub open spec fn diskpart_line(raw: Seq<char>, system_disk: Option<u32>) -> Result<
    Option<DiskView>,
    (),
> {
    let t = trim(raw);
    if !starts_with(t, "Disk "@) || crate::text::contains(t, "###"@) || crate::text::contains(
        t,
        "Status"@,
    ) {
        Ok(None)
    } else {
        match parse_u32(crate::text::leading_digits(t.skip(5))) {
            None => Ok(None),
            Some(n) => match size_from(crate::text::words(t), 0) {
                None => Err(()),
                Some(sz) => Ok(
                    Some(
                        (
                            n,
                            "Disk "@ + decimal(n),
                            sz,
                            if crate::text::ends_with(t, "*"@) {
                                "GPT"@
                            } else {
                                "MBR"@
                            },
                            is_system(system_disk, n),
                        ),
                    ),
                ),
            },
        }
    }
}

/// The disks in diskpart's "list disk" output; `None` when a size does not
/// fit in 64 bits.
pub open spec fn diskpart_disks(ls: Seq<Seq<char>>, system_disk: Option<u32>) -> Option<
    Seq<DiskView>,
>
    decreases ls.len(),
{
    if ls.len() == 0 {
        Some(Seq::empty())
    } else {
        match diskpart_disks(ls.drop_last(), system_disk) {
            None => None,
            Some(rest) => match diskpart_line(ls.last(), system_disk) {
                Err(_) => None,
                Ok(None) => Some(rest),
                Ok(Some(d)) => Some(rest.push(d)),
            },
        }
    }
}

/// The unit word's byte count.
fn unit_bytes_exec(w: &[char]) -> (r: u64)
    ensures
        r as nat == unit_bytes(w@),
{
    if crate::text::chars_equal_lit(w, "TB") {
        1099511627776
    } else if crate::text::chars_equal_lit(w, "GB") {
        1073741824
    } else if crate::text::chars_equal_lit(w, "MB") {
        1048576
    } else {
        0
    }
}

/// The disk size on a diskpart line, given its words.
fn diskpart_size(ws: &Vec<Vec<char>>) -> (r: Option<u64>)
    ensures
        size_from(seqs_of(ws@), 0) == match r {
            Some(x) => Some(x as nat),
            None => None::<nat>,
        },
{
    let ghost wv = seqs_of(ws@);
    let mut i: usize = 0;
    while i < ws.len()
        invariant
            i <= ws@.len(),
            wv == seqs_of(ws@),
            size_from(wv, 0) == size_from(wv, i as int),
        decreases ws@.len() - i,
    {
        proof {
            assert(wv[i as int] == ws@[i as int]@);
            if i + 1 < ws@.len() {
                assert(wv[i + 1] == ws@[i + 1]@);
            }
        }
        match parse_unsigned_exec(ws[i].as_slice(), 18446744073709551615u64) {
            Some(num) => {
                if i + 1 < ws.len() {
                    let unit = unit_bytes_exec(ws[i + 1].as_slice());
                    if unit > 0 {
                        if num > 18446744073709551615u64 / unit {
                            proof {
                                assert(num * unit > u64::MAX) by (nonlinear_arith)
                                    requires
                                        num > 18446744073709551615u64 / unit,
                                        unit > 0,
                                ;
                            }
                            return None;
                        }
                        proof {
                            assert(num * unit <= u64::MAX) by (nonlinear_arith)
                                requires
                                    num <= 18446744073709551615u64 / unit,
                                    unit > 0,
                            ;
                        }
                        return Some(num * unit);
                    }
                }
            },
            None => {},
        }
        i = i + 1;
    }
    Some(0)
}

} // verus!

verus! {

/// Reads the disks out of diskpart's "list disk" output, marking the system
/// disk; diskpart names no models, so each disk is called "Disk N", and a
/// trailing `*` marks GPT. `None` when a size does not fit in 64 bits.
pub fn parse_diskpart_disks(output: &str, system_disk: Option<u32>) -> (r: Option<Vec<DiskInfo>>)
    ensures
        match diskpart_disks(lines(output@), system_disk) {
            Some(ds) => r matches Some(v) && v@.map_values(|d: DiskInfo| disk_view(d)) == ds,
            None => r is None,
        },
{
    let text = to_chars(output);
    let ls = split_lines(text.as_slice());
    let ghost lv = seqs_of(ls@);
    let mut r: Vec<DiskInfo> = Vec::new();
    let mut i: usize = 0;
    while i < ls.len()
        invariant
            i <= ls@.len(),
            lv == seqs_of(ls@),
            lv == lines(output@),
            diskpart_disks(lv.take(i as int), system_disk) == Some(
                r@.map_values(|d: DiskInfo| disk_view(d)),
            ),
        decreases ls@.len() - i,
    {
        proof {
            assert(lv.take(i + 1).drop_last() =~= lv.take(i as int));
            assert(lv.take(i + 1).last() == ls@[i as int]@);
        }
        let t = trim_chars(ls[i].as_slice());
        if chars_start_with(t.as_slice(), "Disk ") && !crate::text::chars_contain(t.as_slice(), "###")
            && !crate::text::chars_contain(t.as_slice(), "Status") {
            proof {
                reveal_strlit("Disk ");
            }
            let rest = crate::text::skip_chars(t.as_slice(), 5);
            let ns = crate::text::leading_digits_exec(rest.as_slice());
            match parse_unsigned_exec(ns.as_slice(), 4294967295u64) {
                Some(n64) => {
                    let n = n64 as u32;
                    let ws = crate::text::split_words(t.as_slice());
                    match diskpart_size(&ws) {
                        None => {
                            proof {
                                lemma_diskpart_none(lv, i + 1, lv.len() as int, system_disk);
                                assert(lv.take(lv.len() as int) =~= lv);
                            }
                            return None;
                        },
                        Some(sz) => {
                            let gpt = crate::text::chars_end_with(t.as_slice(), "*");
                            let mut name = String::new();
                            crate::text::push_str(&mut name, "Disk ");
                            push_decimal(&mut name, n64);
                            let style = if gpt {
                                String::from_str("GPT")
                            } else {
                                String::from_str("MBR")
                            };
                            let sys = is_system_exec(system_disk, n);
                            let ghost before = r@;
                            r.push(DiskInfo {
                                number: n,
                                friendly_name: name,
                                size_bytes: sz,
                                partition_style: style,
                                is_system_disk: sys,
                            });
                            proof {
                                assert(r@.map_values(|d: DiskInfo| disk_view(d)) =~= before.map_values(
                                    |d: DiskInfo| disk_view(d),
                                ).push(disk_view(r@.last())));
                                assert(rest@ == t@.skip(5));
                                assert(seqs_of(ws@) == crate::text::words(t@));
                                assert(parse_u32(ns@) == Some(n64 as nat));
                                assert(n as nat == n64 as nat);
                                assert(size_from(crate::text::words(t@), 0) == Some(sz as nat));
                                assert(diskpart_line(lv[i as int], system_disk) == Ok::<Option<DiskView>, ()>(Some(disk_view(r@.last()))));
                            }
                        },
                    }
                },
                None => {
                    proof {
                        assert(rest@ == t@.skip(5));
                        assert(diskpart_line(lv[i as int], system_disk) == Ok::<Option<DiskView>, ()>(None));
                    }
                },
            }
        } else {
            proof {
                assert(diskpart_line(lv[i as int], system_disk) == Ok::<Option<DiskView>, ()>(None));
            }
        }
        i = i + 1;
    }
    proof {
        assert(lv.take(lv.len() as int) =~= lv);
    }
    Some(r)
}

proof fn lemma_diskpart_none(ls: Seq<Seq<char>>, k: int, m: int, system_disk: Option<u32>)
    requires
        0 <= k <= m <= ls.len(),
        diskpart_disks(ls.take(k), system_disk) is None,
    ensures
        diskpart_disks(ls.take(m), system_disk) is None,
    decreases m - k,
{
    if k < m {
        lemma_diskpart_none(ls, k, m - 1, system_disk);
        assert(ls.take(m).drop_last() =~= ls.take(m - 1));
    }
}

} // verus!

verus! {

// ---------------------------------------------------------------------------
// Product key detection
// ---------------------------------------------------------------------------

/// The labeled values read so far: OEM key, installed key, edition, status,
/// host name.
pub type KeyScan = (Seq<char>, Seq<char>, Seq<char>, Seq<char>, Seq<char>);

/// One output line applied: a line starting with a label sets that value to
/// the trimmed rest of the line.
pub open spec fn key_step(st: KeyScan, raw: Seq<char>) -> KeyScan {
    let t = trim(raw);
    if starts_with(t, "OEM_KEY:"@) {
        (trim(t.skip(8)), st.1, st.2, st.3, st.4)
    } else if starts_with(t, "INSTALLED_KEY:"@) {
        (st.0, trim(t.skip(14)), st.2, st.3, st.4)
    } else if starts_with(t, "EDITION:"@) {
        (st.0, st.1, trim(t.skip(8)), st.3, st.4)
    } else if starts_with(t, "STATUS:"@) {
        (st.0, st.1, st.2, trim(t.skip(7)), st.4)
    } else if starts_with(t, "HOSTNAME:"@) {
        (st.0, st.1, st.2, st.3, trim(t.skip(9)))
    } else {
        st
    }
}

pub open spec fn key_scan(ls: Seq<Seq<char>>) -> KeyScan
    decreases ls.len(),
{
    if ls.len() == 0 {
        (Seq::empty(), Seq::empty(), Seq::empty(), Seq::empty(), Seq::empty())
    } else {
        key_step(key_scan(ls.drop_last()), ls.last())
    }
}

/// The date text of a backup taken `secs` seconds after 1970, by the
/// program's simple calendar (365-day years, 30-day months).
pub open spec fn backup_date_text(secs: nat) -> Seq<char> {
    let days = secs / 86400;
    let rest = days % 365;
    let month = rest / 30 + 1;
    let day = rest % 30 + 1;
    decimal(1970 + days / 365) + "-"@ + crate::text::decimal_padded(
        if month < 12 { month } else { 12 },
        2,
    ) + "-"@ + crate::text::decimal_padded(if day < 31 { day } else { 31 }, 2)
}

/// The date stamp for a key backup taken `secs` seconds after 1970.
pub fn backup_date(secs: u64) -> (r: String)
    ensures
        r@ == backup_date_text(secs as nat),
{
    let days = secs / 86400;
    let rest = days % 365;
    let month = rest / 30 + 1;
    let day = rest % 30 + 1;
    let mut s = String::new();
    push_decimal(&mut s, 1970 + days / 365);
    crate::text::push_str(&mut s, "-");
    crate::text::push_decimal2(&mut s, if month < 12 { month } else { 12 });
    crate::text::push_str(&mut s, "-");
    crate::text::push_decimal2(&mut s, if day < 31 { day } else { 31 });
    proof {
        assert(s@ =~= backup_date_text(secs as nat));
    }
    s
}

/// The value after a label, trimmed.
fn labeled_value(t: &[char], n: usize) -> (r: String)
    requires
        n <= t@.len(),
    ensures
        r@ == trim(t@.skip(n as int)),
{
    let rest = crate::text::skip_chars(t, n);
    let v = trim_chars(rest.as_slice());
    string_from(v.as_slice())
}

/// Reads the labeled lines of the key-detection script's output
/// ("OEM_KEY:", "INSTALLED_KEY:", "EDITION:", "STATUS:", "HOSTNAME:"); a
/// label seen twice keeps its last value, and a missing one stays empty.
pub fn parse_key_detection(output: &str, date: String) -> (r: WindowsKeyInfo)
    ensures
        (r.oem_key@, r.installed_key@, r.edition@, r.status@, r.hostname@) == key_scan(
            lines(output@),
        ),
        r.date == date,
{
    proof {
        reveal_strlit("OEM_KEY:");
        reveal_strlit("INSTALLED_KEY:");
        reveal_strlit("EDITION:");
        reveal_strlit("STATUS:");
        reveal_strlit("HOSTNAME:");
    }
    let text = to_chars(output);
    let ls = split_lines(text.as_slice());
    let ghost lv = seqs_of(ls@);
    let mut info = WindowsKeyInfo {
        oem_key: String::new(),
        installed_key: String::new(),
        edition: String::new(),
        status: String::new(),
        hostname: String::new(),
        date,
    };
    let mut i: usize = 0;
    while i < ls.len()
        invariant
            i <= ls@.len(),
            lv == seqs_of(ls@),
            lv == lines(output@),
            (info.oem_key@, info.installed_key@, info.edition@, info.status@, info.hostname@)
                == key_scan(lv.take(i as int)),
            info.date == date,
            "OEM_KEY:"@.len() == 8,
            "INSTALLED_KEY:"@.len() == 14,
            "EDITION:"@.len() == 8,
            "STATUS:"@.len() == 7,
            "HOSTNAME:"@.len() == 9,
        decreases ls@.len() - i,
    {
        proof {
            assert(lv.take(i + 1).drop_last() =~= lv.take(i as int));
            assert(lv.take(i + 1).last() == ls@[i as int]@);
        }
        let t = trim_chars(ls[i].as_slice());
        if chars_start_with(t.as_slice(), "OEM_KEY:") {
            info.oem_key = labeled_value(t.as_slice(), 8);
        } else if chars_start_with(t.as_slice(), "INSTALLED_KEY:") {
            info.installed_key = labeled_value(t.as_slice(), 14);
        } else if chars_start_with(t.as_slice(), "EDITION:") {
            info.edition = labeled_value(t.as_slice(), 8);
        } else if chars_start_with(t.as_slice(), "STATUS:") {
            info.status = labeled_value(t.as_slice(), 7);
        } else if chars_start_with(t.as_slice(), "HOSTNAME:") {
            info.hostname = labeled_value(t.as_slice(), 9);
        }
        i = i + 1;
    }
    proof {
        assert(lv.take(lv.len() as int) =~= lv);
    }
    info
}

} // verus!
