//! The versioned report that a client submits.

use vstd::prelude::*;

use crate::machine_id::{double_hash_of, hostname_or_unknown, machine_id, machine_id_input};

verus! {

/// Feature flags of the reporting CPU.
#[derive(Clone, Copy, Debug, PartialEq, Eq, Structural)]
pub struct CpuCapabilities {
    pub x86_sse2: bool,
    pub x86_sse3: bool,
    pub x86_ssse3: bool,
    pub x86_sse4_1: bool,
    pub x86_popcnt_insn: bool,
    pub x86_avx: bool,
    pub x86_avx2: bool,
    pub x86_fma3: bool,
    pub x86_fma4: bool,
    pub x86_xop: bool,
    pub x86_avx512f: bool,
    pub x86_avx512bw: bool,
    pub x86_avx512dq: bool,
    pub x86_avx512vl: bool,
}

/// Cache sizes in bytes: levels 1 to 3, each instruction, data and unified.
#[derive(Clone, Copy, Debug, PartialEq, Eq, Structural)]
pub struct CacheInfo {
    pub l1i: u64,
    pub l1d: u64,
    pub l1u: u64,
    pub l2i: u64,
    pub l2d: u64,
    pub l2u: u64,
    pub l3i: u64,
    pub l3d: u64,
    pub l3u: u64,
}

/// What the CPU-detection library reports.
#[derive(Clone, Debug)]
pub struct SystemInfo {
    pub cpu_manufacturer: String,
    pub cpu_architecture: String,
    pub cache_info: CacheInfo,
    pub cpu_capabilities: CpuCapabilities,
}

/// Total memory of the machine, in bytes.
#[derive(Clone, Copy, Debug, PartialEq, Eq, Structural)]
pub struct Memory {
    pub total: u64,
}

/// The first version of the report.
#[derive(Clone, Debug)]
pub struct PayloadV1 {
    pub simdsp: SystemInfo,
    pub memory: Memory,
    pub os: String,
    pub application_name: String,
    pub machine_id: String,
}

/// A report of any version; the wire form tags it with `version`.
#[derive(Clone, Debug)]
pub enum Payload {
    V1(PayloadV1),
}

/// The report of a machine from the facts gathered on it: memory as the
/// operating system gives it, in KiB, is stored in bytes, and the machine
/// identifier is derived from the MAC address and host name.
pub fn payload_from_facts(
    simdsp: SystemInfo,
    total_memory_kib: u64,
    mac: [u8; 6],
    hostname: Option<&str>,
    os: String,
    application_name: String,
) -> (r: PayloadV1)
    requires
        total_memory_kib <= u64::MAX / 1024,
    ensures
        r.simdsp == simdsp,
        r.memory.total == total_memory_kib * 1024,
        r.os == os,
        r.application_name == application_name,
        r.machine_id@ == double_hash_of(machine_id_input(mac@, hostname_or_unknown(hostname))),
        r.machine_id@.len() == 128,
{
    let machine_id = machine_id(mac, hostname);
    PayloadV1 {
        simdsp,
        memory: Memory { total: total_memory_kib * 1024 },
        os,
        application_name,
        machine_id,
    }
}

} // verus!
