//! Coarse local hardware capability: whether an NVIDIA GPU is present and
//! its memory (from `nvidia-smi`'s CSV report), CPU figures, and RAM
//! (from `sysinfo`). Absence of a signal degrades to a conservative
//! CPU-only report, never an error.
use vstd::prelude::*;

use crate::text::{
    chars_of, find_char, first_of, owned, parse_u64, parse_u64_spec, string_of_range, strip_suffix,
    strip_suffix_spec, trim, trim_bounds, trimmed,
};

verus! {

/// What the control plane knows about the machine it runs on.
#[derive(Debug, Clone)]
pub struct HardwareReport {
    pub has_nvidia_gpu: bool,
    pub gpu_name: Option<String>,
    pub driver_version: Option<String>,
    /// `nvidia-smi`'s reported VRAM size, in bytes.
    pub vram_bytes: Option<u64>,
    pub cpu_cores: usize,
    pub cpu_architecture: String,
    pub total_ram_bytes: u64,
}

/// Currently available capacity, read before a pin/eviction decision.
#[derive(Debug, Clone)]
pub struct MemorySnapshot {
    pub total_ram_bytes: u64,
    /// RAM the system reports available for use right now.
    pub available_ram_bytes: u64,
    pub total_vram_bytes: Option<u64>,
    pub available_vram_bytes: Option<u64>,
}

/// `sysinfo::System`, the handle RAM figures are read through.
#[verifier::external_type_specification]
#[verifier::external_body]
pub struct ExSystem(sysinfo::System);

/// `sysinfo::System::new`: a handle with nothing loaded yet.
#[verifier::external_body]
fn new_system() -> (r: sysinfo::System) {
    sysinfo::System::new()
}

/// `sysinfo::System::refresh_memory`: reloads the RAM and swap figures.
#[verifier::external_body]
fn refresh_memory(sys: &mut sysinfo::System) {
    sys.refresh_memory()
}

/// `sysinfo::System::total_memory`: total RAM in bytes, as last loaded.
/// The value is the machine's; nothing is stated of it.
#[verifier::external_body]
fn total_memory(sys: &sysinfo::System) -> (r: u64) {
    sys.total_memory()
}

/// `sysinfo::System::available_memory`: RAM available for reuse, in
/// bytes, as last loaded. The value is the machine's; nothing is stated
/// of it.
#[verifier::external_body]
fn available_memory(sys: &sysinfo::System) -> (r: u64) {
    sys.available_memory()
}

/// The machine's total RAM, in bytes.
pub fn total_ram_bytes() -> (r: u64) {
    let mut sys = new_system();
    refresh_memory(&mut sys);
    total_memory(&sys)
}

/// The MiB count of an `nvidia-smi` memory field such as `4096 MiB`: the
/// text before a trailing `MiB`, trimmed, as a `u64`.
pub open spec fn spec_parse_mib(field: Seq<char>) -> Option<u64> {
    match strip_suffix_spec(field, "MiB"@) {
        Some(r) => parse_u64_spec(trimmed(r)),
        None => None,
    }
}

/// The field's size in bytes: its MiB count times 2^20, when that fits in
/// a `u64`; nothing for any other shape or a size too large to hold.
pub open spec fn spec_mib_bytes(field: Seq<char>) -> Option<u64> {
    match spec_parse_mib(field) {
        Some(m) => if m * 1048576 <= u64::MAX {
            Some((m * 1048576) as u64)
        } else {
            None
        },
        None => None,
    }
}

/// Parses an `nvidia-smi` memory field (e.g. `4096 MiB`) into bytes;
/// `None` on any other shape, and on a size too large for a `u64`.
pub fn parse_mib_to_bytes(field: &str) -> (r: Option<u64>)
    ensures
        r == spec_mib_bytes(field@),
{
    let stripped = match strip_suffix(field, "MiB") {
        Some(s) => s,
        None => return None,
    };
    let t = trim(stripped.as_str());
    match parse_u64(t.as_str()) {
        Some(mib) => mib.checked_mul(1048576),
        None => None,
    }
}

/// `s` split at its first comma: the part before and, when there is a
/// comma, the rest after it.
pub open spec fn split_comma(s: Seq<char>) -> (Seq<char>, Option<Seq<char>>) {
    let k = first_of(s, ',');
    if k < s.len() {
        (s.take(k as int), Some(s.skip(k + 1 as int)))
    } else {
        (s, None)
    }
}

/// The first line of `text`, trimmed (`text.lines().next()`).
pub open spec fn first_line(text: Seq<char>) -> Seq<char> {
    trimmed(text.take(first_of(text, '\n') as int))
}

/// The up to four comma-separated fields of a line (`splitn(4, ',')`):
/// the fourth is the whole rest.
pub open spec fn csv_fields(line: Seq<char>) -> (
    Seq<char>,
    Option<Seq<char>>,
    Option<Seq<char>>,
    Option<Seq<char>>,
) {
    let r1 = split_comma(line).1;
    let f1 = match r1 {
        Some(r) => Some(split_comma(r).0),
        None => None,
    };
    let r2 = match r1 {
        Some(r) => split_comma(r).1,
        None => None,
    };
    let f2 = match r2 {
        Some(r) => Some(split_comma(r).0),
        None => None,
    };
    let r3 = match r2 {
        Some(r) => split_comma(r).1,
        None => None,
    };
    (split_comma(line).0, f1, f2, r3)
}

/// GPU identity and memory from one `nvidia-smi` CSV line.
#[derive(Debug, Clone)]
pub struct NvidiaGpuMemory {
    pub name: Option<String>,
    pub driver_version: Option<String>,
    pub total_bytes: Option<u64>,
    pub free_bytes: Option<u64>,
}

pub open spec fn opt_trimmed(f: Option<Seq<char>>) -> Option<Seq<char>> {
    match f {
        Some(x) => Some(trimmed(x)),
        None => None,
    }
}

pub open spec fn opt_mib_bytes(f: Option<Seq<char>>) -> Option<u64> {
    match f {
        Some(x) => spec_mib_bytes(trimmed(x)),
        None => None,
    }
}

pub open spec fn str_opt_view(o: Option<String>) -> Option<Seq<char>> {
    match o {
        Some(s) => Some(s@),
        None => None,
    }
}

/// Reading of `nvidia-smi --query-gpu=name,driver_version,memory.total,memory.free
/// --format=csv,noheader`: nothing when the first line is blank; otherwise
/// the trimmed name and driver fields and the parsed memory fields, each
/// absent when missing or malformed.
pub open spec fn spec_parse_nvidia_csv(text: Seq<char>) -> Option<
    (Option<Seq<char>>, Option<Seq<char>>, Option<u64>, Option<u64>),
> {
    let line = first_line(text);
    if line.len() == 0 {
        None
    } else {
        let f = csv_fields(line);
        Some((Some(trimmed(f.0)), opt_trimmed(f.1), opt_mib_bytes(f.2), opt_mib_bytes(f.3)))
    }
}

pub open spec fn gpu_view(g: Option<NvidiaGpuMemory>) -> Option<
    (Option<Seq<char>>, Option<Seq<char>>, Option<u64>, Option<u64>),
> {
    match g {
        Some(x) => Some(
            (str_opt_view(x.name), str_opt_view(x.driver_version), x.total_bytes, x.free_bytes),
        ),
        None => None,
    }
}

/// Position just past the field starting at `from` in `v[..to]`, and
/// where the next one starts (if a comma follows).
fn next_field(v: &Vec<char>, from: usize, to: usize) -> (r: (usize, Option<usize>))
    requires
        from <= to <= v@.len(),
    ensures
        ({
            let s = v@.subrange(from as int, to as int);
            &&& from <= r.0 <= to
            &&& v@.subrange(from as int, r.0 as int) == split_comma(s).0
            &&& match r.1 {
                Some(n) => n == r.0 + 1 && n <= to && split_comma(s).1 == Some(
                    v@.subrange(n as int, to as int),
                ),
                None => split_comma(s).1 is None && r.0 == to,
            }
        }),
{
    let k = find_char(v, from, to, ',');
    let ghost s = v@.subrange(from as int, to as int);
    if k < to {
        assert(s.take((k - from) as int) =~= v@.subrange(from as int, k as int));
        assert(s.skip((k - from) + 1 as int) =~= v@.subrange(k + 1, to as int));
        (k, Some(k + 1))
    } else {
        assert(s =~= v@.subrange(from as int, k as int));
        (k, None)
    }
}

/// The trimmed text of `v[from..to]`.
fn trimmed_range(v: &Vec<char>, from: usize, to: usize) -> (r: String)
    requires
        from <= to <= v@.len(),
    ensures
        r@ == trimmed(v@.subrange(from as int, to as int)),
{
    let (a, b) = trim_bounds(v, from, to);
    string_of_range(v, a, b)
}

/// The bytes of the memory field `v[from..to]`, trimmed first.
fn mib_range(v: &Vec<char>, from: usize, to: usize) -> (r: Option<u64>)
    requires
        from <= to <= v@.len(),
    ensures
        r == opt_mib_bytes(Some(v@.subrange(from as int, to as int))),
{
    let t = trimmed_range(v, from, to);
    parse_mib_to_bytes(t.as_str())
}

/// Reads `nvidia-smi`'s CSV report (see [`spec_parse_nvidia_csv`]).
pub fn parse_nvidia_smi_csv(text: &str) -> (r: Option<NvidiaGpuMemory>)
    ensures
        gpu_view(r) == spec_parse_nvidia_csv(text@),
{
    let all = chars_of(text);
    let nl = find_char(&all, 0, all.len(), '\n');
    assert(all@.subrange(0, all@.len() as int) =~= all@);
    assert(all@.subrange(0, nl as int) =~= text@.take(first_of(text@, '\n') as int));
    let (a, b) = trim_bounds(&all, 0, nl);
    let line_str = string_of_range(&all, a, b);
    let v = chars_of(line_str.as_str());
    let ghost line = first_line(text@);
    assert(v@ == line);
    if v.len() == 0 {
        return None;
    }
    assert(v@.subrange(0, v@.len() as int) =~= line);
    let ghost f = csv_fields(line);
    let (e0, n1) = next_field(&v, 0, v.len());
    let name = trimmed_range(&v, 0, e0);
    let mut driver: Option<String> = None;
    let mut total: Option<u64> = None;
    let mut free: Option<u64> = None;
    if let Some(s1) = n1 {
        let (e1, n2) = next_field(&v, s1, v.len());
        driver = Some(trimmed_range(&v, s1, e1));
        if let Some(s2) = n2 {
            let (e2, n3) = next_field(&v, s2, v.len());
            total = mib_range(&v, s2, e2);
            if let Some(s3) = n3 {
                free = mib_range(&v, s3, v.len());
            }
        }
    }
    Some(NvidiaGpuMemory { name: Some(name), driver_version: driver, total_bytes: total, free_bytes: free })
}

/// The hardware report from what the caller observed: `nvidia-smi`'s
/// output when it ran successfully, the available parallelism when known
/// (one core otherwise, and never fewer than one), and the CPU
/// architecture; RAM is read here. Never fails: a GPU field that cannot
/// be read is simply absent.
pub fn detect(nvidia_smi_output: Option<&str>, cpu_parallelism: Option<usize>, cpu_architecture: &str) -> (r:
    HardwareReport)
    ensures
        ({
            let gpu = match nvidia_smi_output {
                Some(t) => spec_parse_nvidia_csv(t@),
                None => None,
            };
            &&& r.has_nvidia_gpu == gpu is Some
            &&& str_opt_view(r.gpu_name) == (match gpu {
                Some(g) => g.0,
                None => None,
            })
            &&& str_opt_view(r.driver_version) == (match gpu {
                Some(g) => g.1,
                None => None,
            })
            &&& r.vram_bytes == (match gpu {
                Some(g) => g.2,
                None => None,
            })
            &&& r.cpu_cores == (match cpu_parallelism {
                Some(n) => if n > 0 {
                    n
                } else {
                    1
                },
                None => 1,
            })
            &&& r.cpu_cores >= 1
            &&& r.cpu_architecture@ == cpu_architecture@
        }),
{
    let gpu = match nvidia_smi_output {
        Some(t) => parse_nvidia_smi_csv(t),
        None => None,
    };
    let (has_nvidia_gpu, gpu_name, driver_version, vram_bytes) = match gpu {
        Some(g) => (true, g.name, g.driver_version, g.total_bytes),
        None => (false, None, None, None),
    };
    HardwareReport {
        has_nvidia_gpu,
        gpu_name,
        driver_version,
        vram_bytes,
        cpu_cores: match cpu_parallelism {
            Some(n) => if n > 0 {
                n
            } else {
                1
            },
            None => 1,
        },
        cpu_architecture: owned(cpu_architecture),
        total_ram_bytes: total_ram_bytes(),
    }
}

/// A capacity snapshot: RAM read here, VRAM from `nvidia-smi`'s output
/// when it ran successfully (absent otherwise).
pub fn snapshot_memory(nvidia_smi_output: Option<&str>) -> (r: MemorySnapshot)
    ensures
        ({
            let gpu = match nvidia_smi_output {
                Some(t) => spec_parse_nvidia_csv(t@),
                None => None,
            };
            &&& r.total_vram_bytes == (match gpu {
                Some(g) => g.2,
                None => None,
            })
            &&& r.available_vram_bytes == (match gpu {
                Some(g) => g.3,
                None => None,
            })
        }),
{
    let mut sys = new_system();
    refresh_memory(&mut sys);
    let gpu = match nvidia_smi_output {
        Some(t) => parse_nvidia_smi_csv(t),
        None => None,
    };
    let (total_vram_bytes, available_vram_bytes) = match gpu {
        Some(g) => (g.total_bytes, g.free_bytes),
        None => (None, None),
    };
    MemorySnapshot {
        total_ram_bytes: total_memory(&sys),
        available_ram_bytes: available_memory(&sys),
        total_vram_bytes,
        available_vram_bytes,
    }
}

} // verus!
