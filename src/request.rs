//! What the ingestion endpoint decides about one submission. Any failure is
//! answered with 400 and nothing more, as callers are untrusted; an accepted
//! report is answered with 200 as soon as it is queued.

use vstd::prelude::*;

use crate::payload::PayloadV1;
use crate::writer::WorkItem;

verus! {

/// The largest request body accepted, in bytes.
pub const MAX_BODY_BYTES: usize = 10240;

/// The UUID that `uuid` reads from the text, as its 128-bit value, if the text
/// is a UUID in one of the forms it accepts.
pub uninterp spec fn uuid_parse(s: Seq<char>) -> Option<u128>;

/// Relies on uuid's `Uuid::parse_str`: the UUID that the text spells, if any,
/// taken as its 128-bit value.
#[verifier::external_body]
fn parse_uuid(s: &str) -> (r: Option<u128>)
    ensures
        r == uuid_parse(s@),
{
    uuid::Uuid::parse_str(s).ok().map(|u| u.as_u128())
}

/// Why a submission is refused.
#[derive(Clone, Copy, Debug, PartialEq, Eq, Structural)]
pub enum SubmitError {
    /// The `token` query parameter is not a UUID.
    BadToken,
    /// The body is larger than the limit.
    BodyTooLarge,
    /// The body is not a report.
    BadPayload,
    /// The writer has too many items waiting.
    QueueFull,
}

/// The caller's IP: the proxy's `CF-Connecting-IP` header where present, else
/// the socket's remote address.
pub fn resolve_ip(cf_connecting_ip: Option<String>, remote_addr: Option<String>) -> (r: Option<
    String,
>)
    ensures
        r == (if cf_connecting_ip.is_some() {
            cf_connecting_ip
        } else {
            remote_addr
        }),
{
    match cf_connecting_ip {
        Some(ip) => Some(ip),
        None => remote_addr,
    }
}

/// Whether a body of `len` bytes may be read.
pub fn body_within_limit(len: usize) -> (r: bool)
    ensures
        r == (len <= MAX_BODY_BYTES),
{
    len <= MAX_BODY_BYTES
}

/// What a submission comes to: refused where `token` is not a UUID, or the
/// body is larger than the limit, or it is not a report (checked in this
/// order); else a work item of it.
pub open spec fn admission(
    token: Option<u128>,
    ip: Option<String>,
    country: Option<String>,
    body_len: usize,
    payload: Option<PayloadV1>,
    received_at: i64,
) -> Result<WorkItem, SubmitError> {
    match token {
        None => Err(SubmitError::BadToken),
        Some(t) => if body_len > MAX_BODY_BYTES {
            Err(SubmitError::BodyTooLarge)
        } else {
            match payload {
                None => Err(SubmitError::BadPayload),
                Some(p) => Ok(WorkItem { token: t, country, ip, payload: p, received_at }),
            }
        },
    }
}

/// The work item of a submission whose token parsed to `token` (`None` where
/// it did not), with a body of `body_len` bytes that parsed to `payload`
/// (`None` where it did not), from the caller's IP and country, received at
/// `received_at`.
pub fn admit_submission(
    token: Option<u128>,
    ip: Option<String>,
    country: Option<String>,
    body_len: usize,
    payload: Option<PayloadV1>,
    received_at: i64,
) -> (r: Result<WorkItem, SubmitError>)
    ensures
        r == admission(token, ip, country, body_len, payload, received_at),
{
    let token = match token {
        Some(t) => t,
        None => {
            return Err(SubmitError::BadToken);
        },
    };
    if !body_within_limit(body_len) {
        return Err(SubmitError::BodyTooLarge);
    }
    match payload {
        Some(payload) => Ok(WorkItem { token, country, ip, payload, received_at }),
        None => Err(SubmitError::BadPayload),
    }
}

/// The work item of a submission with the query token text `token`; see
/// `admit_submission`.
pub fn accept_submission(
    token: &str,
    ip: Option<String>,
    country: Option<String>,
    body_len: usize,
    payload: Option<PayloadV1>,
    received_at: i64,
) -> (r: Result<WorkItem, SubmitError>)
    ensures
        r == admission(uuid_parse(token@), ip, country, body_len, payload, received_at),
{
    admit_submission(parse_uuid(token), ip, country, body_len, payload, received_at)
}

/// The HTTP status of a submission: 200 once queued, 400 on any failure.
pub fn response_status(outcome: &Result<(), SubmitError>) -> (r: u16)
    ensures
        r == (if outcome.is_ok() {
            200u16
        } else {
            400u16
        }),
{
    match outcome {
        Ok(()) => 200,
        Err(_) => 400,
    }
}

} // verus!
