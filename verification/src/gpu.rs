//! Graphics card statistics, read from the output of `nvidia-smi` or of the
//! WMI query that stands in for it.

use vstd::prelude::*;
use crate::text::{chars_of, parse_u32, parse_unsigned, split_chars, split_pieces, string_of, trim_chars, trimmed};

verus! {

/// Graphics card statistics.
pub struct GpuStats {
    pub name: String,
    pub usage: u32,
    pub temp: u32,
    pub vram_used_mb: u32,
    pub vram_total_mb: u32,
}

/// What a `GpuStats` holds, its name as text.
pub struct GpuRecord {
    pub name: Seq<char>,
    pub usage: u32,
    pub temp: u32,
    pub vram_used_mb: u32,
    pub vram_total_mb: u32,
}

impl View for GpuStats {
    type V = GpuRecord;

    open spec fn view(&self) -> GpuRecord {
        GpuRecord {
            name: self.name@,
            usage: self.usage,
            temp: self.temp,
            vram_used_mb: self.vram_used_mb,
            vram_total_mb: self.vram_total_mb,
        }
    }
}

/// A field read as a `u32`, or 0 when it is not one.
pub open spec fn u32_or_zero(s: Seq<char>) -> u32 {
    match parse_unsigned(s, u32::MAX as nat) {
        Some(v) => v as u32,
        None => 0,
    }
}

/// The statistics reported before any query has answered: a card named `GPU`,
/// every figure 0.
pub open spec fn unknown_gpu() -> GpuRecord {
    GpuRecord { name: "GPU"@, usage: 0, temp: 0, vram_used_mb: 0, vram_total_mb: 0 }
}

/// The statistics reported before any query has answered (see `unknown_gpu`).
pub fn default_gpu_stats() -> (g: GpuStats)
    ensures
        g@ == unknown_gpu(),
{
    GpuStats { name: String::from_str("GPU"), usage: 0, temp: 0, vram_used_mb: 0, vram_total_mb: 0 }
}

/// The statistics in the output of `nvidia-smi` asked for name, use,
/// temperature, used and total memory as CSV: the output, trimmed, split at
/// commas into at most five fields, each trimmed; none when there are fewer
/// than five. A field that is not a `u32` reads as 0.
pub open spec fn nvidia_smi_gpu(output: Seq<char>) -> Option<GpuRecord> {
    let p = split_pieces(trimmed(output), ',', Some(5));
    if p.len() >= 5 {
        Some(
            GpuRecord {
                name: trimmed(p[0]),
                usage: u32_or_zero(trimmed(p[1])),
                temp: u32_or_zero(trimmed(p[2])),
                vram_used_mb: u32_or_zero(trimmed(p[3])),
                vram_total_mb: u32_or_zero(trimmed(p[4])),
            },
        )
    } else {
        None
    }
}

/// A field read as a `u32`, or 0.
fn field_u32(field: &Vec<char>) -> (r: u32)
    ensures
        r == u32_or_zero(field@),
{
    let s = string_of(field.as_slice());
    match parse_u32(s.as_str()) {
        Some(v) => v,
        None => 0,
    }
}

/// Reads the statistics from the output of `nvidia-smi` (see `nvidia_smi_gpu`).
pub fn gpu_from_nvidia_smi(output: &str) -> (r: Option<GpuStats>)
    ensures
        match r {
            Some(g) => nvidia_smi_gpu(output@) == Some(g@),
            None => nvidia_smi_gpu(output@) is None,
        },
{
    let cs = chars_of(output);
    let line = trim_chars(cs.as_slice());
    let p = split_chars(line.as_slice(), ',', Some(5));
    if p.len() < 5 {
        return None;
    }
    let ghost ps = split_pieces(trimmed(output@), ',', Some(5));
    assert(p@[0]@ == ps[0] && p@[1]@ == ps[1] && p@[2]@ == ps[2] && p@[3]@ == ps[3] && p@[4]@ == ps[4]);
    let name = trim_chars(p[0].as_slice());
    let usage = trim_chars(p[1].as_slice());
    let temp = trim_chars(p[2].as_slice());
    let used = trim_chars(p[3].as_slice());
    let total = trim_chars(p[4].as_slice());
    Some(
        GpuStats {
            name: string_of(name.as_slice()),
            usage: field_u32(&usage),
            temp: field_u32(&temp),
            vram_used_mb: field_u32(&used),
            vram_total_mb: field_u32(&total),
        },
    )
}

/// The statistics in the output of the WMI query, `name|use|0|0|memory`: split
/// at `|` into at most five fields, not trimmed; the temperature is always 0;
/// with fewer than five fields, the unknown card. A field that is not a `u32`
/// reads as 0.
pub open spec fn wmi_gpu(output: Seq<char>) -> GpuRecord {
    let p = split_pieces(output, '|', Some(5));
    if p.len() >= 5 {
        GpuRecord {
            name: p[0],
            usage: u32_or_zero(p[1]),
            temp: 0,
            vram_used_mb: u32_or_zero(p[3]),
            vram_total_mb: u32_or_zero(p[4]),
        }
    } else {
        unknown_gpu()
    }
}

/// Reads the statistics from the output of the WMI query (see `wmi_gpu`).
pub fn gpu_from_wmi(output: &str) -> (r: GpuStats)
    ensures
        r@ == wmi_gpu(output@),
{
    let cs = chars_of(output);
    let p = split_chars(cs.as_slice(), '|', Some(5));
    if p.len() < 5 {
        return default_gpu_stats();
    }
    let ghost ps = split_pieces(output@, '|', Some(5));
    assert(p@[0]@ == ps[0] && p@[1]@ == ps[1] && p@[3]@ == ps[3] && p@[4]@ == ps[4]);
    GpuStats {
        name: string_of(p[0].as_slice()),
        usage: field_u32(&p[1]),
        temp: 0,
        vram_used_mb: field_u32(&p[3]),
        vram_total_mb: field_u32(&p[4]),
    }
}


/// The WMI query that stands in for `nvidia-smi`: it prints `name|use|0|0|memory`
/// for the first video controller.
pub const GPU_WMI_QUERY: &'static str = r#"
$vc = Get-WmiObject Win32_VideoController -EA SilentlyContinue | Select -First 1
if (!$vc) { "GPU|0|0|0|0"; exit }
$name = $vc.Caption
$adRam = [int]($vc.AdapterRAM / 1MB)
$usage = try {
    $wmi = Get-WmiObject -NS 'root\cimv2' -Class Win32_PerfFormattedData_GPUPerformanceCounters_GPUEngine -EA Stop
    [int](($wmi | Where Name -match '3D' | Measure UtilizationPercentage -Average).Average)
} catch { 0 }
"$name|$usage|0|0|$adRam"
"#;

} // verus!
