//! System figures: the static system description, benchmark scores, disk
//! and sensor selection, network interface rows, memory, and the page file.

use vstd::prelude::*;
use crate::text::{
    chars_of, contains, contains_chars, double_quotes, lowercase, parse_u32, parse_u64,
    parse_unsigned, quote_doubled, same_text, split_chars, split_pieces, string_of,
    to_lowercase, trim, trim_chars, trimmed,
};

verus! {

/// Static facts about the machine.
pub struct SystemInfo {
    pub os_name: String,
    pub hostname: String,
    pub cpu_brand: String,
    pub cpu_cores: u32,
    pub uptime_secs: u64,
}

/// The text, or `fallback` when there is none.
pub open spec fn or_text(s: Option<Seq<char>>, fallback: Seq<char>) -> Seq<char> {
    match s {
        Some(t) => t,
        None => fallback,
    }
}

/// The system name shown: the OS name (`Windows` when unknown), followed by a
/// space and the OS version when that is known and not empty.
pub open spec fn os_full_name(name: Option<Seq<char>>, version: Option<Seq<char>>) -> Seq<char> {
    let n = or_text(name, "Windows"@);
    let v = or_text(version, Seq::empty());
    if v.len() == 0 {
        n
    } else {
        n + " "@ + v
    }
}

/// Describes the machine from what the system reports: OS name and version,
/// host name, the brand of the first processor and the number of processors
/// (each possibly unknown), and the uptime. An unknown host is `PC`; an unknown
/// processor is `Processeur inconnu`; a known brand is trimmed.
pub fn system_info(
    os_name: Option<String>,
    os_version: Option<String>,
    host_name: Option<String>,
    first_cpu_brand: Option<String>,
    cpu_count: usize,
    uptime_secs: u64,
) -> (r: SystemInfo)
    ensures
        r.os_name@ == os_full_name(os_name.deep_view(), os_version.deep_view()),
        r.hostname@ == or_text(host_name.deep_view(), "PC"@),
        r.cpu_brand@ == (match first_cpu_brand {
            Some(b) => trimmed(b@),
            None => "Processeur inconnu"@,
        }),
        r.cpu_cores == cpu_count as u32,
        r.uptime_secs == uptime_secs,
{
    let name = match os_name {
        Some(n) => n,
        None => String::from_str("Windows"),
    };
    let os_full = match os_version {
        Some(v) => {
            if v.as_str().is_empty() {
                name
            } else {
                let mut full = name;
                full.append(" ");
                full.append(v.as_str());
                full
            }
        },
        None => name,
    };
    let hostname = match host_name {
        Some(h) => h,
        None => String::from_str("PC"),
    };
    let cpu_brand = match first_cpu_brand {
        Some(b) => trim(b.as_str()),
        None => String::from_str("Processeur inconnu"),
    };
    SystemInfo {
        os_name: os_full,
        hostname,
        cpu_brand,
        cpu_cores: #[verifier::truncate] (cpu_count as u32),
        uptime_secs,
    }
}

/// Benchmark scores.
pub struct BenchmarkResult {
    pub cpu_score: u32,
    pub ram_score: u32,
    pub disk_score: u32,
    pub total_score: u32,
    pub duration_ms: u64,
}

/// The overall score: the CPU and memory scores count twice, the disk score
/// once, and the sum is divided by five, rounding down.
pub open spec fn total_score(cpu: u32, ram: u32, disk: u32) -> int {
    (cpu * 2 + ram * 2 + disk) / 5
}

/// The overall score is the weighted mean of the three scores, rounded down:
/// the CPU and memory scores weigh two, the disk score one, out of five.
pub proof fn law_total_score_weights(cpu: u32, ram: u32, disk: u32)
    ensures
        total_score(cpu, ram, disk) * 5 <= 2 * cpu + 2 * ram + disk < total_score(cpu, ram, disk) * 5 + 5,
{
}

/// The benchmark result for the given scores and duration (see `total_score`).
pub fn benchmark_result(cpu_score: u32, ram_score: u32, disk_score: u32, duration_ms: u64) -> (r: BenchmarkResult)
    requires
        cpu_score * 2 + ram_score * 2 + disk_score <= u32::MAX,
    ensures
        r.cpu_score == cpu_score,
        r.ram_score == ram_score,
        r.disk_score == disk_score,
        r.total_score == total_score(cpu_score, ram_score, disk_score),
        r.total_score * 5 <= 2 * cpu_score + 2 * ram_score + disk_score < r.total_score * 5 + 5,
        r.duration_ms == duration_ms,
{
    let total_score = (cpu_score * 2 + ram_score * 2 + disk_score) / 5;
    BenchmarkResult { cpu_score, ram_score, disk_score, total_score, duration_ms }
}

/// The score for a timing at the ends of its scale: 100 when it took at most
/// `fast` milliseconds, 20 when it took at least `slow`; in between the score
/// is interpolated by the caller.
pub open spec fn band_score(ms: u32, fast: u32, slow: u32) -> Option<u32> {
    if ms <= fast {
        Some(100)
    } else if ms >= slow {
        Some(20)
    } else {
        None
    }
}

/// The score for a timing at the ends of its scale (see `band_score`).
pub fn score_band(ms: u32, fast: u32, slow: u32) -> (r: Option<u32>)
    ensures
        r == band_score(ms, fast, slow),
{
    if ms <= fast {
        Some(100)
    } else if ms >= slow {
        Some(20)
    } else {
        None
    }
}

/// One disk: where it is mounted, its size and its free space, in bytes.
pub struct DiskSpace {
    pub mount_point: String,
    pub total: u64,
    pub available: u64,
}

/// Whether a disk mounted here holds the system: its mount point starts with
/// `C` or is `/`.
pub open spec fn is_system_mount_point(mp: Seq<char>) -> bool {
    (mp.len() > 0 && mp[0] == 'C') || mp == "/"@
}

/// Whether a disk mounted here holds the system (see `is_system_mount_point`).
pub fn is_system_mount(mp: &str) -> (r: bool)
    ensures
        r == is_system_mount_point(mp@),
{
    let cs = chars_of(mp);
    (cs.len() > 0 && cs[0] == 'C') || same_text(mp, "/")
}

/// The index of the first system disk, if any.
pub open spec fn first_system_disk_spec(disks: Seq<DiskSpace>) -> Option<int> {
    if exists|i: int| 0 <= i < disks.len() && is_system_mount_point(#[trigger] disks[i].mount_point@) {
        Some(
            choose|i: int|
                0 <= i < disks.len() && is_system_mount_point(#[trigger] disks[i].mount_point@) && forall|k: int|
                    0 <= k < i ==> !is_system_mount_point(#[trigger] disks[k].mount_point@),
        )
    } else {
        None
    }
}

/// The index of the first disk that holds the system; none when no disk does.
pub fn first_system_disk(disks: &Vec<DiskSpace>) -> (r: Option<usize>)
    ensures
        match r {
            Some(i) => i < disks@.len() && is_system_mount_point(disks@[i as int].mount_point@) && forall|k: int|
                0 <= k < i ==> !is_system_mount_point(#[trigger] disks@[k].mount_point@),
            None => forall|k: int| 0 <= k < disks@.len() ==> !is_system_mount_point(#[trigger] disks@[k].mount_point@),
        },
{
    let n = disks.len();
    for i in 0..n
        invariant
            n == disks@.len(),
            forall|k: int| 0 <= k < i ==> !is_system_mount_point(#[trigger] disks@[k].mount_point@),
    {
        if is_system_mount(disks[i].mount_point.as_str()) {
            return Some(i);
        }
    }
    None
}

/// The used and total space of the system disk: the first disk that holds the
/// system, its used space being its size less its free space (0 when the free
/// space is larger); `(0, 1)` when no disk holds the system.
pub fn system_disk_usage(disks: &Vec<DiskSpace>) -> (r: (u64, u64))
    ensures
        match first_system_disk_spec(disks@) {
            Some(i) => r == (
                if disks@[i].available <= disks@[i].total {
                    (disks@[i].total - disks@[i].available) as u64
                } else {
                    0u64
                },
                disks@[i].total,
            ),
            None => r == (0u64, 1u64),
        },
{
    match first_system_disk(disks) {
        Some(i) => {
            let ghost chosen = first_system_disk_spec(disks@);
            assert(is_system_mount_point(disks@[i as int].mount_point@));
            assert(chosen == Some(i as int)) by {
                let c = chosen.unwrap();
                if c < i {
                } else if c > i {
                }
            }
            let d = &disks[i];
            let used = if d.available <= d.total {
                d.total - d.available
            } else {
                0
            };
            (used, d.total)
        },
        None => (0, 1),
    }
}

/// Whole gibibytes in `bytes`, kept to 32 bits as a cast to `u32` keeps them.
pub open spec fn whole_gib(bytes: u64) -> u32 {
    ((bytes / 1073741824) % 4294967296) as u32
}

/// Whole gibibytes in `bytes` (see `whole_gib`).
pub fn gib_of(bytes: u64) -> (r: u32)
    ensures
        r == whole_gib(bytes),
{
    ((bytes / 1073741824) % 4294967296) as u32
}

/// The name fragments that mark a temperature sensor as one of the processor.
pub open spec fn cpu_sensor_words() -> Seq<&'static str> {
    seq!["cpu", "core", "tctl", "package", "k10temp", "coretemp"]
}

/// Whether lower-case text contains one of the processor words.
pub open spec fn has_cpu_word(lower: Seq<char>) -> bool {
    exists|i: int| 0 <= i < cpu_sensor_words().len() && contains(lower, #[trigger] cpu_sensor_words()[i]@)
}

/// Whether a temperature sensor with this label measures the processor: its
/// lower-case label contains one of the processor words.
pub open spec fn is_cpu_sensor(label: Seq<char>) -> bool {
    has_cpu_word(lowercase(label))
}

/// Whether a label, already in lower case, contains one of the processor
/// words (see `has_cpu_word`).
pub fn has_cpu_sensor_word(lower: &str) -> (r: bool)
    ensures
        r == has_cpu_word(lower@),
{
    let hay = chars_of(lower);
    let words: Vec<&'static str> = vec!["cpu", "core", "tctl", "package", "k10temp", "coretemp"];
    let n = words.len();
    for i in 0..n
        invariant
            n == words@.len(),
            words@ == cpu_sensor_words(),
            hay@ == lower@,
            forall|k: int| 0 <= k < i ==> !contains(lower@, #[trigger] cpu_sensor_words()[k]@),
    {
        let needle = chars_of(words[i]);
        if contains_chars(hay.as_slice(), needle.as_slice()) {
            assert(contains(lower@, cpu_sensor_words()[i as int]@));
            return true;
        }
    }
    false
}

/// Whether a temperature sensor with this label measures the processor (see
/// `is_cpu_sensor`).
pub fn is_cpu_temp_label(label: &str) -> (r: bool)
    ensures
        r == is_cpu_sensor(label@),
{
    let lower = to_lowercase(label);
    has_cpu_sensor_word(lower.as_str())
}

/// The counters of one network interface: totals since start, and the bytes
/// moved since the last reading.
pub struct InterfaceCounters {
    pub name: String,
    pub bytes_sent: u64,
    pub bytes_recv: u64,
    pub packets_sent: u64,
    pub packets_recv: u64,
    pub sent_since: u64,
    pub recv_since: u64,
}

/// Whether an interface has carried any traffic.
pub open spec fn has_traffic(c: InterfaceCounters) -> bool {
    c.bytes_recv > 0 || c.bytes_sent > 0
}

/// The interfaces that carried traffic, in order.
pub open spec fn active_interfaces(s: Seq<InterfaceCounters>) -> Seq<InterfaceCounters> {
    s.filter(|c: InterfaceCounters| has_traffic(c))
}

/// The interfaces to report, and whether their rates are measured: those that
/// carried traffic, with rates; when none did, all of them, with zero rates.
pub fn traffic_rows(ifaces: Vec<InterfaceCounters>) -> (r: (Vec<InterfaceCounters>, bool))
    ensures
        active_interfaces(ifaces@).len() > 0 ==> r.0@ == active_interfaces(ifaces@) && r.1,
        active_interfaces(ifaces@).len() == 0 ==> r.0@ == ifaces@ && !r.1,
{
    let ghost all = ifaces@;
    let mut active: Vec<InterfaceCounters> = Vec::new();
    let mut idle: Vec<InterfaceCounters> = Vec::new();
    let mut rest = ifaces;
    let n = rest.len();
    let mut k: usize = 0;
    while k < n
        invariant
            k <= n == all.len(),
            rest@ == all.skip(k as int),
            active@ == active_interfaces(all.take(k as int)),
            idle@ == all.take(k as int).filter(|c: InterfaceCounters| !has_traffic(c)),
            active@.len() == 0 ==> idle@ == all.take(k as int),
        decreases n - k,
    {
        reveal_with_fuel(Seq::filter, 1);
        assert(all.skip(k as int)[0] == all[k as int]);
        let c = rest.remove(0);
        assert(rest@ =~= all.skip(k + 1));
        assert(all.take(k + 1).drop_last() == all.take(k as int));
        if c.bytes_recv > 0 || c.bytes_sent > 0 {
            active.push(c);
        } else {
            idle.push(c);
        }
        k += 1;
    }
    assert(all.take(n as int) == all);
    if active.len() > 0 {
        (active, true)
    } else {
        (idle, false)
    }
}

/// The memory that cleaning freed: the drop in used memory, or 0 when it did
/// not drop.
pub open spec fn freed_memory(before: u64, after: u64) -> u64 {
    if before > after {
        (before - after) as u64
    } else {
        0
    }
}

/// The memory that cleaning freed (see `freed_memory`).
pub fn memory_freed(before: u64, after: u64) -> (r: u64)
    ensures
        r == freed_memory(before, after),
{
    if before > after {
        before - after
    } else {
        0
    }
}

/// The page file setup: managed by the system, or fixed initial and maximum
/// sizes in MB.
pub struct PageFileSettings {
    pub is_auto: bool,
    pub min_mb: u32,
    pub max_mb: u32,
}

/// The page file setup in the output of the WMI query, `auto|min|max`: split at
/// every `|`; with fewer than three fields, managed by the system and no sizes.
/// The setup is managed unless the first field, trimmed and in lower case,
/// reads `false`; a size that is not a `u32` reads as 0.
pub open spec fn page_file_setup(output: Seq<char>) -> (bool, u32, u32) {
    let p = split_pieces(output, '|', None);
    if p.len() >= 3 {
        (
            lowercase(trimmed(p[0])) != "false"@,
            match parse_unsigned(trimmed(p[1]), u32::MAX as nat) {
                Some(v) => v as u32,
                None => 0,
            },
            match parse_unsigned(trimmed(p[2]), u32::MAX as nat) {
                Some(v) => v as u32,
                None => 0,
            },
        )
    } else {
        (true, 0, 0)
    }
}

/// A trimmed field read as a `u32`, or 0.
fn trimmed_u32(field: &Vec<char>) -> (r: u32)
    ensures
        r == (match parse_unsigned(trimmed(field@), u32::MAX as nat) {
            Some(v) => v as u32,
            None => 0,
        }),
{
    let t = trim_chars(field.as_slice());
    let s = string_of(t.as_slice());
    match parse_u32(s.as_str()) {
        Some(v) => v,
        None => 0,
    }
}

/// Reads the page file setup from the output of the WMI query (see
/// `page_file_setup`).
pub fn parse_page_file_settings(output: &str) -> (r: PageFileSettings)
    ensures
        (r.is_auto, r.min_mb, r.max_mb) == page_file_setup(output@),
{
    let cs = chars_of(output);
    let p = split_chars(cs.as_slice(), '|', None);
    if p.len() < 3 {
        return PageFileSettings { is_auto: true, min_mb: 0, max_mb: 0 };
    }
    let ghost ps = split_pieces(output@, '|', None);
    assert(p@[0]@ == ps[0] && p@[1]@ == ps[1] && p@[2]@ == ps[2]);
    let first = trim_chars(p[0].as_slice());
    let first = string_of(first.as_slice());
    let first = to_lowercase(first.as_str());
    let is_auto = !same_text(first.as_str(), "false");
    PageFileSettings { is_auto, min_mb: trimmed_u32(&p[1]), max_mb: trimmed_u32(&p[2]) }
}

/// The script that gives the page file fixed sizes: 1.5 and 3 times the
/// installed memory, on the system drive.
pub const PAGE_FILE_FIXED: &'static str = r#"
$ramMB = [int]((Get-WmiObject Win32_ComputerSystem).TotalPhysicalMemory / 1MB)
$minMB = [int]($ramMB * 1.5); $maxMB = [int]($ramMB * 3)
$cs = Get-WmiObject Win32_ComputerSystem; $cs.AutomaticManagedPagefile = $false; $cs.Put() | Out-Null
Get-WmiObject Win32_PageFileSetting | ForEach-Object { $_.Delete() | Out-Null }
$pf = ([WMIClass]"Win32_PageFileSetting").CreateInstance()
$pf.Name = "$env:SystemDrive\pagefile.sys"; $pf.InitialSize = $minMB; $pf.MaximumSize = $maxMB
$pf.Put() | Out-Null; $true
"#;

/// The script that hands the page file back to the system.
pub const PAGE_FILE_AUTO: &'static str = r#"$cs = Get-WmiObject Win32_ComputerSystem; $cs.AutomaticManagedPagefile = $true; $cs.Put() | Out-Null; $true"#;

/// The script that sets up the page file: fixed sizes to optimise, else
/// managed by the system.
pub fn page_file_script(optimize: bool) -> (r: &'static str)
    ensures
        r == (if optimize {
            PAGE_FILE_FIXED
        } else {
            PAGE_FILE_AUTO
        }),
{
    if optimize {
        PAGE_FILE_FIXED
    } else {
        PAGE_FILE_AUTO
    }
}

/// The script that starts the program at `exe` again with administrator
/// rights, the path quoted for PowerShell.
pub open spec fn relaunch_script(exe: Seq<char>) -> Seq<char> {
    "Start-Process -FilePath '"@ + quote_doubled(exe) + "' -Verb RunAs -WindowStyle Hidden"@
}

/// The script that starts the program at `exe` again with administrator
/// rights (see `relaunch_script`).
pub fn relaunch_as_admin_script(exe: &str) -> (r: String)
    ensures
        r@ == relaunch_script(exe@),
{
    let q = double_quotes(exe);
    let mut s = String::from_str("Start-Process -FilePath '");
    s.append(q.as_str());
    s.append("' -Verb RunAs -WindowStyle Hidden");
    s
}

/// The size of the recycle bin that its query printed: the output, trimmed,
/// read as a `u64`, or 0 when it is not one.
pub open spec fn recycle_bin_size(output: Seq<char>) -> u64 {
    match parse_unsigned(trimmed(output), u64::MAX as nat) {
        Some(v) => v as u64,
        None => 0,
    }
}

/// Reads the size of the recycle bin from its query's output (see
/// `recycle_bin_size`).
pub fn recycle_bin_bytes(output: &str) -> (r: u64)
    ensures
        r == recycle_bin_size(output@),
{
    let t = trim(output);
    match parse_u64(t.as_str()) {
        Some(v) => v,
        None => 0,
    }
}


/// The WMI query that prints the page file setup as `auto|min|max`.
pub const PAGE_FILE_QUERY: &'static str = r#"
$cs = Get-WmiObject Win32_ComputerSystem -EA SilentlyContinue
$pf = Get-WmiObject Win32_PageFileSetting -EA SilentlyContinue | Select-Object -First 1
$auto = if ($cs) { [string]$cs.AutomaticManagedPagefile } else { 'True' }
$min  = if ($pf) { $pf.InitialSize } else { 0 }
$max  = if ($pf) { $pf.MaximumSize } else { 0 }
"$auto|$min|$max"
"#;

/// The script that empties the working set of every process.
pub const RAM_CLEAN_SCRIPT: &'static str = r#"
Add-Type @'
using System;
using System.Runtime.InteropServices;
using System.Diagnostics;
public class RamCleaner {
    [DllImport("psapi.dll")] public static extern bool EmptyWorkingSet(IntPtr handle);
    public static int Clean() {
        int count = 0;
        foreach (var p in Process.GetProcesses()) {
            try { EmptyWorkingSet(p.Handle); count++; } catch {}
        }
        return count;
    }
}
'@
[RamCleaner]::Clean() | Out-Null
"#;

/// The query that prints the total size of the items in the recycle bin.
pub const RECYCLE_BIN_SIZE_QUERY: &'static str = r#"
$shell = New-Object -ComObject Shell.Application
$bin = $shell.Namespace(0xA)
$total = 0
foreach ($item in $bin.Items()) { $total += $item.Size }
$total
"#;

} // verus!
