use hwsurvey::payload::{CacheInfo, CpuCapabilities, Memory, Payload, PayloadV1, SystemInfo};
use hwsurvey::rows::{
    identity, normalize_architecture, normalize_manufacturer, normalize_os, payload_to_rows,
    str_equal,
};

fn sample_payload(os: &str, arch: &str, manufacturer: &str) -> PayloadV1 {
    PayloadV1 {
        simdsp: SystemInfo {
            cpu_manufacturer: manufacturer.to_string(),
            cpu_architecture: arch.to_string(),
            cache_info: CacheInfo {
                l1i: 32768,
                l1d: 49152,
                l1u: 0,
                l2i: 0,
                l2d: 0,
                l2u: 1310720,
                l3i: 0,
                l3d: 0,
                l3u: 25165824,
            },
            cpu_capabilities: CpuCapabilities {
                x86_sse2: true,
                x86_sse3: true,
                x86_ssse3: false,
                x86_sse4_1: true,
                x86_popcnt_insn: true,
                x86_avx: false,
                x86_avx2: true,
                x86_fma3: false,
                x86_fma4: false,
                x86_xop: false,
                x86_avx512f: true,
                x86_avx512bw: false,
                x86_avx512dq: false,
                x86_avx512vl: false,
            },
        },
        memory: Memory { total: 34_359_738_368 + 5 },
        os: os.to_string(),
        application_name: "app".to_string(),
        machine_id: "id".to_string(),
    }
}

#[test]
fn os_normalization() {
    assert_eq!(normalize_os("linux"), "linux");
    assert_eq!(normalize_os("Linux"), "unknown");
    assert_eq!(normalize_os("plan9"), "unknown");
    assert_eq!(normalize_os("openbsd"), "openbsd");
    assert_eq!(normalize_os(""), "unknown");
}

#[test]
fn os_normalization_is_idempotent() {
    for s in ["linux", "Linux", "macos", "windows", "freebsd", "plan9", "unknown", ""] {
        let once = normalize_os(s);
        assert_eq!(normalize_os(once), once);
        assert!(["linux", "macos", "windows", "freebsd", "openbsd", "unknown"].contains(&once));
    }
}

#[test]
fn architecture_and_manufacturer_normalization() {
    assert_eq!(normalize_architecture("aarch64"), "aarch64");
    assert_eq!(normalize_architecture("x86"), "x86");
    assert_eq!(normalize_architecture("x86_64"), "unknown");
    assert_eq!(normalize_manufacturer("intel"), "intel");
    assert_eq!(normalize_manufacturer("apple"), "apple");
    assert_eq!(normalize_manufacturer("Intel"), "unknown");
    assert_eq!(normalize_manufacturer("amd"), "unknown");
}

#[test]
fn string_equality() {
    assert!(str_equal("abc", "abc"));
    assert!(!str_equal("abc", "abd"));
    assert!(!str_equal("abc", "ab"));
    assert!(str_equal("", ""));
    assert!(str_equal("héllo", "héllo"));
}

#[test]
fn identity_returns_its_argument() {
    assert_eq!(identity(7u64), 7);
    assert_eq!(identity("x"), "x");
}

#[test]
fn rows_of_a_report() {
    let rows = payload_to_rows(&Payload::V1(sample_payload("linux", "x86", "intel")));
    assert_eq!(rows.cpu_capabilities.architecture, "x86");
    assert_eq!(rows.cpu_capabilities.manufacturer, "intel");
    assert!(rows.cpu_capabilities.x86_sse2);
    assert!(!rows.cpu_capabilities.x86_ssse3);
    assert!(rows.cpu_capabilities.x86_avx2);
    assert!(!rows.cpu_capabilities.x86_fma3);
    assert!(rows.cpu_capabilities.x86_avx512f);
    assert_eq!(rows.cpu_caches.l1i, 32768);
    assert_eq!(rows.cpu_caches.l1d, 32768);
    assert_eq!(rows.cpu_caches.l1u, 0);
    assert_eq!(rows.cpu_caches.l2u, 1048576);
    assert_eq!(rows.cpu_caches.l3u, 16777216);
    assert_eq!(rows.os.os, "linux");
    assert_eq!(rows.os.architecture, "x86");
    assert_eq!(rows.memory.os, "linux");
    assert_eq!(rows.memory.manufacturer, "intel");
    assert_eq!(rows.memory.total_mem, 17_179_869_184);
}

#[test]
fn rows_of_a_report_with_unknown_names() {
    let rows = payload_to_rows(&Payload::V1(sample_payload("haiku", "riscv64", "AMD")));
    assert_eq!(rows.os.os, "unknown");
    assert_eq!(rows.os.architecture, "unknown");
    assert_eq!(rows.cpu_caches.manufacturer, "unknown");
    assert_eq!(rows.memory.manufacturer, "unknown");
}
