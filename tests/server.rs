use hwsurvey::payload::{CacheInfo, CpuCapabilities, Memory, PayloadV1, SystemInfo};
use hwsurvey::request::{
    accept_submission, admit_submission, body_within_limit, resolve_ip, response_status, SubmitError,
    MAX_BODY_BYTES,
};

const TOKEN: &str = "8bd8e7c2-4a4b-4b61-9a55-5c1e1f3b6a10";

fn payload() -> PayloadV1 {
    PayloadV1 {
        simdsp: SystemInfo {
            cpu_manufacturer: "apple".to_string(),
            cpu_architecture: "aarch64".to_string(),
            cache_info: CacheInfo {
                l1i: 0,
                l1d: 0,
                l1u: 0,
                l2i: 0,
                l2d: 0,
                l2u: 0,
                l3i: 0,
                l3d: 0,
                l3u: 0,
            },
            cpu_capabilities: CpuCapabilities {
                x86_sse2: false,
                x86_sse3: false,
                x86_ssse3: false,
                x86_sse4_1: false,
                x86_popcnt_insn: false,
                x86_avx: false,
                x86_avx2: false,
                x86_fma3: false,
                x86_fma4: false,
                x86_xop: false,
                x86_avx512f: false,
                x86_avx512bw: false,
                x86_avx512dq: false,
                x86_avx512vl: false,
            },
        },
        memory: Memory { total: 8 << 30 },
        os: "macos".to_string(),
        application_name: "voyager".to_string(),
        machine_id: "m".to_string(),
    }
}

#[test]
fn accepted_submission_carries_its_metadata() {
    let w = accept_submission(
        TOKEN,
        Some("1.2.3.4".to_string()),
        Some("US".to_string()),
        400,
        Some(payload()),
        42,
    )
    .unwrap();
    assert_eq!(w.token, 0x8bd8e7c2_4a4b_4b61_9a55_5c1e1f3b6a10);
    assert_eq!(w.ip.as_deref(), Some("1.2.3.4"));
    assert_eq!(w.country.as_deref(), Some("US"));
    assert_eq!(w.received_at, 42);
    assert_eq!(w.payload.os, "macos");
    assert_eq!(response_status(&Ok(())), 200);
}

#[test]
fn simple_form_token_is_accepted() {
    let w = accept_submission("8bd8e7c24a4b4b619a555c1e1f3b6a10", None, None, 1, Some(payload()), 0);
    assert_eq!(w.unwrap().token, 0x8bd8e7c2_4a4b_4b61_9a55_5c1e1f3b6a10);
}

#[test]
fn bad_token_is_refused_first() {
    let r = accept_submission("not-a-uuid", None, None, 20_000, None, 0);
    assert!(matches!(r, Err(SubmitError::BadToken)));
    assert_eq!(response_status(&Err(SubmitError::BadToken)), 400);
}

#[test]
fn oversized_body_is_refused() {
    let r = accept_submission(TOKEN, None, None, MAX_BODY_BYTES + 1, Some(payload()), 0);
    assert!(matches!(r, Err(SubmitError::BodyTooLarge)));
    assert!(accept_submission(TOKEN, None, None, MAX_BODY_BYTES, Some(payload()), 0).is_ok());
    assert!(body_within_limit(10_240));
    assert!(!body_within_limit(10_241));
}

#[test]
fn unparsable_body_is_refused() {
    let r = accept_submission(TOKEN, None, None, 10, None, 0);
    assert!(matches!(r, Err(SubmitError::BadPayload)));
}

#[test]
fn every_failure_is_a_400() {
    for e in [
        SubmitError::BadToken,
        SubmitError::BodyTooLarge,
        SubmitError::BadPayload,
        SubmitError::QueueFull,
    ] {
        assert_eq!(response_status(&Err(e)), 400);
    }
}

#[test]
fn proxy_ip_is_preferred() {
    assert_eq!(
        resolve_ip(Some("9.9.9.9".to_string()), Some("10.0.0.1".to_string())).as_deref(),
        Some("9.9.9.9")
    );
    assert_eq!(resolve_ip(None, Some("10.0.0.1".to_string())).as_deref(), Some("10.0.0.1"));
    assert_eq!(resolve_ip(None, None), None);
}

#[test]
fn admission_checks_token_then_size_then_body() {
    assert!(matches!(
        admit_submission(None, None, None, 20_000, None, 0),
        Err(SubmitError::BadToken)
    ));
    assert!(matches!(
        admit_submission(Some(7), None, None, 20_000, None, 0),
        Err(SubmitError::BodyTooLarge)
    ));
    assert!(matches!(
        admit_submission(Some(7), None, None, 100, None, 0),
        Err(SubmitError::BadPayload)
    ));
    let w = admit_submission(Some(7), None, Some("XX".to_string()), 100, Some(payload()), 5).unwrap();
    assert_eq!(w.token, 7);
    assert_eq!(w.country.as_deref(), Some("XX"));
    assert_eq!(w.ip, None);
    assert_eq!(w.received_at, 5);
}
