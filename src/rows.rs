//! From a report to a set of normalised rows: free-form strings are mapped onto
//! closed vocabularies and sizes onto bins.

use vstd::prelude::*;

use crate::anonymization::{cache_bins, floor_bin, mem_bins, round_cache, round_mem};
use crate::payload::{Payload, PayloadV1};

verus! {

/// What any string outside a vocabulary becomes.
pub open spec fn unknown_name() -> Seq<char> {
    "unknown"@
}

/// Architectures reported by the CPU-detection library.
pub open spec fn arch_vocabulary() -> Seq<Seq<char>> {
    seq!["aarch64"@, "x86"@]
}

/// Manufacturers reported by the CPU-detection library.
pub open spec fn manufacturer_vocabulary() -> Seq<Seq<char>> {
    seq!["intel"@, "apple"@]
}

/// Operating systems, as Rust names them.
pub open spec fn os_vocabulary() -> Seq<Seq<char>> {
    seq!["linux"@, "macos"@, "windows"@, "freebsd"@, "openbsd"@]
}

/// `s` itself where the vocabulary holds it (compared exactly, case
/// included), else `"unknown"`.
pub open spec fn normalized(s: Seq<char>, vocabulary: Seq<Seq<char>>) -> Seq<char> {
    if vocabulary.contains(s) {
        s
    } else {
        unknown_name()
    }
}

pub open spec fn views_of(list: Seq<&'static str>) -> Seq<Seq<char>> {
    list.map_values(|s: &'static str| s@)
}

/// Character-by-character equality of two strings.
pub fn str_equal(a: &str, b: &str) -> (r: bool)
    ensures
        r == (a@ == b@),
{
    let n = a.unicode_len();
    if n != b.unicode_len() {
        return false;
    }
    let mut i: usize = 0;
    while i < n
        invariant
            n == a@.len(),
            n == b@.len(),
            i <= n,
            forall|j: int| 0 <= j < i ==> a@[j] == b@[j],
        decreases n - i,
    {
        if a.get_char(i) != b.get_char(i) {
            return false;
        }
        i = i + 1;
    }
    assert(a@ =~= b@);
    true
}

fn normalize_string(input: &str, list: &[&'static str]) -> (r: &'static str)
    ensures
        r@ == normalized(input@, views_of(list@)),
{
    let mut i: usize = 0;
    while i < list.len()
        invariant
            i <= list@.len(),
            forall|j: int| 0 <= j < i ==> list@[j]@ != input@,
        decreases list@.len() - i,
    {
        if str_equal(list[i], input) {
            assert(views_of(list@)[i as int] == input@);
            return list[i];
        }
        i = i + 1;
    }
    assert(!views_of(list@).contains(input@)) by {
        if views_of(list@).contains(input@) {
            let j = choose|j: int| 0 <= j < views_of(list@).len() && views_of(list@)[j] == input@;
            assert(list@[j]@ == input@);
        }
    }
    "unknown"
}

/// Map a manufacturer onto its vocabulary.
pub fn normalize_manufacturer(input: &str) -> (r: &'static str)
    ensures
        r@ == normalized(input@, manufacturer_vocabulary()),
{
    let list: [&'static str; 2] = ["intel", "apple"];
    assert(views_of(list@) =~= manufacturer_vocabulary());
    normalize_string(input, &list)
}

/// Map an architecture onto its vocabulary.
pub fn normalize_architecture(arch: &str) -> (r: &'static str)
    ensures
        r@ == normalized(arch@, arch_vocabulary()),
{
    let list: [&'static str; 2] = ["aarch64", "x86"];
    assert(views_of(list@) =~= arch_vocabulary());
    normalize_string(arch, &list)
}

/// Map an operating system onto its vocabulary.
pub fn normalize_os(os: &str) -> (r: &'static str)
    ensures
        r@ == normalized(os@, os_vocabulary()),
{
    let list: [&'static str; 5] = ["linux", "macos", "windows", "freebsd", "openbsd"];
    assert(views_of(list@) =~= os_vocabulary());
    normalize_string(os, &list)
}

/// A normalised operating system is in the vocabulary or is `"unknown"`.
pub proof fn lemma_normalize_os_closed(s: Seq<char>)
    ensures
        os_vocabulary().contains(normalized(s, os_vocabulary()))
            || normalized(s, os_vocabulary()) == unknown_name(),
{
}

/// Normalising an operating system twice is the same as once.
pub proof fn lemma_normalize_os_idempotent(s: Seq<char>)
    ensures
        normalized(normalized(s, os_vocabulary()), os_vocabulary()) == normalized(
            s,
            os_vocabulary(),
        ),
{
    reveal_strlit("unknown");
    reveal_strlit("linux");
    reveal_strlit("macos");
    reveal_strlit("windows");
    reveal_strlit("freebsd");
    reveal_strlit("openbsd");
    if !os_vocabulary().contains(s) {
        assert(!os_vocabulary().contains(unknown_name())) by {
            if os_vocabulary().contains(unknown_name()) {
                let j = choose|j: int|
                    0 <= j < os_vocabulary().len() && os_vocabulary()[j] == unknown_name();
                assert(os_vocabulary()[j][0] != unknown_name()[0]);
            }
        }
    }
}

/// The capability flags that are stored, with the CPU's normalised identity.
#[derive(Debug)]
pub struct CpuCapabilitiesRow {
    pub architecture: &'static str,
    pub manufacturer: &'static str,
    pub x86_sse2: bool,
    pub x86_sse3: bool,
    pub x86_ssse3: bool,
    pub x86_sse4_1: bool,
    pub x86_fma3: bool,
    pub x86_avx: bool,
    pub x86_avx2: bool,
    pub x86_avx512f: bool,
}

/// Binned cache sizes, with the CPU's normalised identity.
#[derive(Debug)]
pub struct CpuCachesRow {
    pub architecture: &'static str,
    pub manufacturer: &'static str,
    pub l1i: u64,
    pub l1d: u64,
    pub l1u: u64,
    pub l2i: u64,
    pub l2d: u64,
    pub l2u: u64,
    pub l3i: u64,
    pub l3d: u64,
    pub l3u: u64,
}

#[derive(Debug)]
pub struct OsRow {
    pub os: &'static str,
    pub architecture: &'static str,
}

#[derive(Debug)]
pub struct MemoryRow {
    pub os: &'static str,
    pub manufacturer: &'static str,
    pub total_mem: u64,
}

#[derive(Debug)]
pub struct Rows {
    pub cpu_capabilities: CpuCapabilitiesRow,
    pub cpu_caches: CpuCachesRow,
    pub os: OsRow,
    pub memory: MemoryRow,
}

pub open spec fn is_cpu_caps_row(p: PayloadV1, r: CpuCapabilitiesRow) -> bool {
    let c = p.simdsp.cpu_capabilities;
    &&& r.architecture@ == normalized(p.simdsp.cpu_architecture@, arch_vocabulary())
    &&& r.manufacturer@ == normalized(p.simdsp.cpu_manufacturer@, manufacturer_vocabulary())
    &&& r.x86_sse2 == c.x86_sse2
    &&& r.x86_sse3 == c.x86_sse3
    &&& r.x86_ssse3 == c.x86_ssse3
    &&& r.x86_sse4_1 == c.x86_sse4_1
    &&& r.x86_fma3 == c.x86_fma3
    &&& r.x86_avx == c.x86_avx
    &&& r.x86_avx2 == c.x86_avx2
    &&& r.x86_avx512f == c.x86_avx512f
}

pub open spec fn is_caches_row(p: PayloadV1, r: CpuCachesRow) -> bool {
    let c = p.simdsp.cache_info;
    &&& r.architecture@ == normalized(p.simdsp.cpu_architecture@, arch_vocabulary())
    &&& r.manufacturer@ == normalized(p.simdsp.cpu_manufacturer@, manufacturer_vocabulary())
    &&& r.l1i == floor_bin(cache_bins(), c.l1i)
    &&& r.l1d == floor_bin(cache_bins(), c.l1d)
    &&& r.l1u == floor_bin(cache_bins(), c.l1u)
    &&& r.l2i == floor_bin(cache_bins(), c.l2i)
    &&& r.l2d == floor_bin(cache_bins(), c.l2d)
    &&& r.l2u == floor_bin(cache_bins(), c.l2u)
    &&& r.l3i == floor_bin(cache_bins(), c.l3i)
    &&& r.l3d == floor_bin(cache_bins(), c.l3d)
    &&& r.l3u == floor_bin(cache_bins(), c.l3u)
}

pub open spec fn is_os_row(p: PayloadV1, r: OsRow) -> bool {
    &&& r.os@ == normalized(p.os@, os_vocabulary())
    &&& r.architecture@ == normalized(p.simdsp.cpu_architecture@, arch_vocabulary())
}

pub open spec fn is_memory_row(p: PayloadV1, r: MemoryRow) -> bool {
    &&& r.os@ == normalized(p.os@, os_vocabulary())
    &&& r.manufacturer@ == normalized(p.simdsp.cpu_manufacturer@, manufacturer_vocabulary())
    &&& r.total_mem == floor_bin(mem_bins(), p.memory.total)
}

pub open spec fn are_rows_of(p: PayloadV1, r: Rows) -> bool {
    &&& is_cpu_caps_row(p, r.cpu_capabilities)
    &&& is_caches_row(p, r.cpu_caches)
    &&& is_os_row(p, r.os)
    &&& is_memory_row(p, r.memory)
}

/// Hand a value on unchanged.
pub fn identity<T>(input: T) -> (r: T)
    ensures
        r == input,
{
    input
}

fn extract_cpu_caps(payload: &PayloadV1) -> (r: CpuCapabilitiesRow)
    ensures
        is_cpu_caps_row(*payload, r),
{
    let c = &payload.simdsp.cpu_capabilities;
    CpuCapabilitiesRow {
        manufacturer: normalize_manufacturer(payload.simdsp.cpu_manufacturer.as_str()),
        architecture: normalize_architecture(payload.simdsp.cpu_architecture.as_str()),
        x86_sse2: identity(c.x86_sse2),
        x86_sse3: identity(c.x86_sse3),
        x86_ssse3: identity(c.x86_ssse3),
        x86_sse4_1: identity(c.x86_sse4_1),
        x86_avx: identity(c.x86_avx),
        x86_avx2: identity(c.x86_avx2),
        x86_avx512f: identity(c.x86_avx512f),
        x86_fma3: identity(c.x86_fma3),
    }
}

fn extract_caches_row(payload: &PayloadV1) -> (r: CpuCachesRow)
    ensures
        is_caches_row(*payload, r),
{
    let c = &payload.simdsp.cache_info;
    CpuCachesRow {
        manufacturer: normalize_manufacturer(payload.simdsp.cpu_manufacturer.as_str()),
        architecture: normalize_architecture(payload.simdsp.cpu_architecture.as_str()),
        l1i: round_cache(c.l1i),
        l1d: round_cache(c.l1d),
        l1u: round_cache(c.l1u),
        l2i: round_cache(c.l2i),
        l2d: round_cache(c.l2d),
        l2u: round_cache(c.l2u),
        l3i: round_cache(c.l3i),
        l3d: round_cache(c.l3d),
        l3u: round_cache(c.l3u),
    }
}

fn extract_os_row(payload: &PayloadV1) -> (r: OsRow)
    ensures
        is_os_row(*payload, r),
{
    OsRow {
        os: normalize_os(payload.os.as_str()),
        architecture: normalize_architecture(payload.simdsp.cpu_architecture.as_str()),
    }
}

fn extract_mem_row(payload: &PayloadV1) -> (r: MemoryRow)
    ensures
        is_memory_row(*payload, r),
{
    MemoryRow {
        manufacturer: normalize_manufacturer(payload.simdsp.cpu_manufacturer.as_str()),
        os: normalize_os(payload.os.as_str()),
        total_mem: round_mem(payload.memory.total),
    }
}

/// The normalised rows of a report.
pub fn payload_to_rows(payload: &Payload) -> (r: Rows)
    ensures
        match *payload {
            Payload::V1(p) => are_rows_of(p, r),
        },
{
    match payload {
        Payload::V1(p) => Rows {
            cpu_capabilities: extract_cpu_caps(p),
            cpu_caches: extract_caches_row(p),
            os: extract_os_row(p),
            memory: extract_mem_row(p),
        },
    }
}

} // verus!
