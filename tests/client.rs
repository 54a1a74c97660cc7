use hwsurvey::machine_id::{double_hash, machine_id, machine_id_text, salt_input, SALT};
use hwsurvey::payload::{payload_from_facts, CacheInfo, CpuCapabilities, SystemInfo};
use hwsurvey::sender::{
    compute_jitter, compute_sleep, next_step, AttemptOutcome, NextStep, JITTER_MAX_MS,
    JITTER_MIN_MS, MAX_ATTEMPTS,
};

const MAC: [u8; 6] = [0x01, 0x23, 0x45, 0x67, 0x89, 0xab];

fn system_info() -> SystemInfo {
    SystemInfo {
        cpu_manufacturer: "intel".to_string(),
        cpu_architecture: "x86".to_string(),
        cache_info: CacheInfo {
            l1i: 1,
            l1d: 2,
            l1u: 3,
            l2i: 4,
            l2d: 5,
            l2u: 6,
            l3i: 7,
            l3d: 8,
            l3u: 9,
        },
        cpu_capabilities: CpuCapabilities {
            x86_sse2: true,
            x86_sse3: false,
            x86_ssse3: false,
            x86_sse4_1: false,
            x86_popcnt_insn: false,
            x86_avx: false,
            x86_avx2: false,
            x86_fma3: false,
            x86_fma4: false,
            x86_xop: false,
            x86_avx512f: false,
            x86_avx512bw: false,
            x86_avx512dq: false,
            x86_avx512vl: false,
        },
    }
}

#[test]
fn double_hash_known_values() {
    assert_eq!(
        double_hash("0123456789ab\nmyhost"),
        "52d3572a7f8501f7ea5c32db23b9b4d0a2c69898e3ae9de1db5bc50c3e16e94dd0b13992ed3f53ce1e63e6d75b9be88c326a393b3dde11b6a4abfda7ae67a879"
    );
    assert_eq!(
        double_hash(""),
        "7e02655e1f2ae8cb5e9515187f2bfd9370f29b58d4c3fa38e4d166d7249f6d476603c190f03f5f1285bb535c576233f38dd61627cf94552231eaa4b15c164a48"
    );
}

#[test]
fn machine_id_hashes_mac_hex_and_hostname() {
    assert_eq!(machine_id(MAC, Some("myhost")), double_hash("0123456789ab\nmyhost"));
    assert_eq!(
        machine_id(MAC, None),
        "1c2b77cd394a0f8d829e413e3855448a2e5e2f6e2cc3d06c05931e53e49d9ff78bd01b4df21c25ad383a1807ddd062e1afe08aaf10888f863e5a59b2d0352df7"
    );
}

#[test]
fn machine_id_is_deterministic_and_input_sensitive() {
    let a = machine_id(MAC, Some("myhost"));
    assert_eq!(a, machine_id(MAC, Some("myhost")));
    assert_eq!(a.len(), 128);
    assert!(a.chars().all(|c| c.is_ascii_digit() || ('a'..='f').contains(&c)));
    assert_ne!(a, machine_id(MAC, Some("myhost2")));
    let mut other = MAC;
    other[5] = 0xac;
    assert_ne!(a, machine_id(other, Some("myhost")));
}

#[test]
fn test_payload_building() {
    let p = payload_from_facts(
        system_info(),
        16_000_000,
        MAC,
        Some("myhost"),
        "linux".to_string(),
        "test_app".to_string(),
    );
    assert_eq!(p.memory.total, 16_384_000_000);
    assert_eq!(p.application_name, "test_app");
    assert_eq!(p.os, "linux");
    assert_eq!(p.machine_id, machine_id(MAC, Some("myhost")));
    assert_eq!(p.simdsp.cache_info.l3u, 9);
}

#[test]
fn backoff_under_fixed_jitter() {
    assert_eq!(compute_sleep(1, 20_000), Some(50_000));
    assert_eq!(compute_sleep(2, 20_000), Some(2_500_000));
    assert_eq!(compute_sleep(3, 20_000), Some(125_000_000));
}

#[test]
fn backoff_edges() {
    assert_eq!(compute_sleep(0, 20_000), Some(1000));
    assert_eq!(compute_sleep(1, JITTER_MIN_MS), Some(40_000));
    assert_eq!(compute_sleep(1, JITTER_MAX_MS), Some(60_000));
    assert_eq!(compute_sleep(2, 20_001), Some(2_500_100));
    assert_eq!(compute_sleep(8, JITTER_MAX_MS), Some(167_961_600_000_000_000));
    assert_eq!(compute_sleep(9, JITTER_MIN_MS), Some(262_144_000_000_000_000));
    assert_eq!(compute_sleep(9, 20_000), Some(1_953_125_000_000_000_000));
    assert_eq!(compute_sleep(10, JITTER_MIN_MS), Some(10_485_760_000_000_000_000));
    assert_eq!(compute_sleep(10, 20_000), None);
    assert_eq!(compute_sleep(11, JITTER_MIN_MS), None);
    assert_eq!(compute_sleep(u64::MAX, 20_000), None);
}

#[test]
fn jitter_stays_in_range() {
    for _ in 0..200 {
        let j = compute_jitter();
        assert!(JITTER_MIN_MS <= j && j <= JITTER_MAX_MS);
    }
}

#[test]
fn retry_decisions() {
    assert_eq!(next_step(1, MAX_ATTEMPTS, AttemptOutcome::Sent, 20_000), NextStep::Finished);
    assert_eq!(next_step(1, MAX_ATTEMPTS, AttemptOutcome::Failed, 20_000), NextStep::Retry(50_000));
    assert_eq!(
        next_step(2, MAX_ATTEMPTS, AttemptOutcome::Failed, 20_000),
        NextStep::Retry(2_500_000)
    );
    assert_eq!(next_step(5, MAX_ATTEMPTS, AttemptOutcome::Failed, 20_000), NextStep::GiveUp);
    assert_eq!(next_step(1, 1, AttemptOutcome::Failed, 20_000), NextStep::GiveUp);
    assert_eq!(
        next_step(9, 20, AttemptOutcome::Failed, 20_000),
        NextStep::Retry(1_953_125_000_000_000_000)
    );
    assert_eq!(next_step(10, 20, AttemptOutcome::Failed, 20_000), NextStep::GiveUp);
}

#[test]
fn machine_id_text_is_mac_hex_newline_hostname() {
    assert_eq!(machine_id_text(MAC, Some("myhost")), "0123456789ab\nmyhost");
    assert_eq!(machine_id_text([0xff, 0, 0x0a, 0xa0, 1, 0x10], None), "ff000aa00110\nunknown");
}

#[test]
fn salted_message_layout() {
    let m = salt_input("héllo");
    let mut expected = SALT.as_bytes().to_vec();
    expected.push(0);
    expected.extend_from_slice("héllo".as_bytes());
    assert_eq!(m, expected);
    assert_eq!(m.len(), 36 + 1 + 6);
}
