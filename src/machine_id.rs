//! The machine identifier of a report: a salted SHA-512 of the MAC address and
//! the host name, hex-encoded and hashed once more, so that neither can be read
//! back from it.

use vstd::prelude::*;
use vstd::utf8::{encode_utf8, encode_utf8_decode_utf8};

verus! {

/// The salt that each machine identifier is hashed with.
pub const SALT: &'static str = "98badb58-e077-11ec-8edf-00d8612ce6ed";

/// The SHA-512 digest of `data`.
pub uninterp spec fn sha512_of(data: Seq<u8>) -> Seq<u8>;

pub open spec fn hex_digit(d: int) -> char {
    seq!['0', '1', '2', '3', '4', '5', '6', '7', '8', '9', 'a', 'b', 'c', 'd', 'e', 'f'][d]
}

/// Each byte of `b` as two lowercase hex digits, high half first.
pub open spec fn hex_of(b: Seq<u8>) -> Seq<char> {
    Seq::new(
        2 * b.len(),
        |i: int|
            if i % 2 == 0 {
                hex_digit(b[i / 2] as int / 16)
            } else {
                hex_digit(b[i / 2] as int % 16)
            },
    )
}

/// The bytes hashed first: the salt, a zero byte, then the input's UTF-8.
pub open spec fn salted_message(input: Seq<char>) -> Seq<u8> {
    encode_utf8(SALT@) + seq![0u8] + encode_utf8(input)
}

/// The hex of the SHA-512 of the hex of the SHA-512 of the salted input.
pub open spec fn double_hash_of(input: Seq<char>) -> Seq<char> {
    hex_of(sha512_of(encode_utf8(hex_of(sha512_of(salted_message(input))))))
}

/// What a machine is known by before hashing: the MAC address in hex, a line
/// break, and the host name.
pub open spec fn machine_id_input(mac: Seq<u8>, hostname: Seq<char>) -> Seq<char> {
    hex_of(mac) + "\n"@ + hostname
}

/// The host name, or `"unknown"` where none could be had.
pub open spec fn hostname_or_unknown(hostname: Option<&str>) -> Seq<char> {
    match hostname {
        Some(h) => h@,
        None => "unknown"@,
    }
}

/// Relies on sha2's `Sha512::digest`: the SHA-512 digest of the bytes, 64
/// bytes long.
#[verifier::external_body]
fn sha512(data: &[u8]) -> (r: Vec<u8>)
    ensures
        r@ == sha512_of(data@),
        r@.len() == 64,
{
    <sha2::Sha512 as sha2::Digest>::digest(data).to_vec()
}

/// Relies on hex::encode: two lowercase hex digits for each byte, in order.
#[verifier::external_body]
fn hex_encode(data: &[u8]) -> (r: String)
    ensures
        r@ == hex_of(data@),
{
    hex::encode(data)
}

/// The salt, a zero byte, and the UTF-8 of `input`.
pub fn salt_input(input: &str) -> (r: Vec<u8>)
    ensures
        r@ == salted_message(input@),
{
    let mut message: Vec<u8> = Vec::new();
    message.extend_from_slice(SALT.as_bytes());
    message.push(0u8);
    message.extend_from_slice(input.as_bytes());
    assert(message@ =~= salted_message(input@));
    message
}

/// Hash `input` with the salt, hex-encode the digest, and hash and hex-encode
/// that text again.
pub fn double_hash(input: &str) -> (r: String)
    ensures
        r@ == double_hash_of(input@),
        r@.len() == 128,
{
    let message = salt_input(input);
    let first = sha512(message.as_slice());
    let level2 = hex_encode(first.as_slice());
    let second = sha512(level2.as_str().as_bytes());
    hex_encode(second.as_slice())
}

/// The text that identifies a machine before hashing: the MAC address in
/// lowercase hex, a line break, and the host name (`"unknown"` where there is
/// none).
pub fn machine_id_text(mac: [u8; 6], hostname: Option<&str>) -> (r: String)
    ensures
        r@ == machine_id_input(mac@, hostname_or_unknown(hostname)),
{
    let mut input = hex_encode(mac.as_slice());
    input.append("\n");
    match hostname {
        Some(h) => input.append(h),
        None => input.append("unknown"),
    }
    input
}

/// The identifier of a machine with this MAC address and host name.
pub fn machine_id(mac: [u8; 6], hostname: Option<&str>) -> (r: String)
    ensures
        r@ == double_hash_of(machine_id_input(mac@, hostname_or_unknown(hostname))),
        r@.len() == 128,
{
    let input = machine_id_text(mac, hostname);
    double_hash(input.as_str())
}

proof fn lemma_hex_digit_injective(a: int, b: int)
    requires
        0 <= a < 16,
        0 <= b < 16,
        hex_digit(a) == hex_digit(b),
    ensures
        a == b,
{
}

proof fn lemma_hex_of_injective(m1: Seq<u8>, m2: Seq<u8>)
    requires
        m1.len() == m2.len(),
        hex_of(m1) == hex_of(m2),
    ensures
        m1 == m2,
{
    assert forall|k: int| 0 <= k < m1.len() implies m1[k] == m2[k] by {
        assert((2 * k) / 2 == k && (2 * k) % 2 == 0 && (2 * k + 1) / 2 == k && (2 * k + 1) % 2 == 1);
        let a1 = m1[k] as int;
        let a2 = m2[k] as int;
        assert(hex_of(m1)[2 * k] == hex_digit(a1 / 16));
        assert(hex_of(m2)[2 * k] == hex_digit(a2 / 16));
        assert(hex_of(m1)[2 * k + 1] == hex_digit(a1 % 16));
        assert(hex_of(m2)[2 * k + 1] == hex_digit(a2 % 16));
        lemma_hex_digit_injective(a1 / 16, a2 / 16);
        lemma_hex_digit_injective(a1 % 16, a2 % 16);
        assert(a1 == 16 * (a1 / 16) + a1 % 16);
        assert(a2 == 16 * (a2 / 16) + a2 % 16);
    }
    assert(m1 =~= m2);
}

/// Distinct machines give distinct bytes to the hash: where the MAC address
/// or the host name differs, so does the salted message. (That the digests
/// then differ is what SHA-512 is trusted for, and is not stated here.)
pub proof fn lemma_distinct_machines_hash_distinct_messages(
    mac1: Seq<u8>,
    hostname1: Seq<char>,
    mac2: Seq<u8>,
    hostname2: Seq<char>,
)
    requires
        mac1.len() == 6,
        mac2.len() == 6,
        mac1 != mac2 || hostname1 != hostname2,
    ensures
        salted_message(machine_id_input(mac1, hostname1)) != salted_message(
            machine_id_input(mac2, hostname2),
        ),
{
    reveal_strlit("\n");
    let x1 = machine_id_input(mac1, hostname1);
    let x2 = machine_id_input(mac2, hostname2);
    if salted_message(x1) == salted_message(x2) {
        let p = encode_utf8(SALT@) + seq![0u8];
        assert(salted_message(x1).subrange(p.len() as int, salted_message(x1).len() as int)
            =~= encode_utf8(x1));
        assert(salted_message(x2).subrange(p.len() as int, salted_message(x2).len() as int)
            =~= encode_utf8(x2));
        encode_utf8_decode_utf8(x1);
        encode_utf8_decode_utf8(x2);
        assert(x1 == x2);
        assert(x1.subrange(0, 12) =~= hex_of(mac1));
        assert(x2.subrange(0, 12) =~= hex_of(mac2));
        lemma_hex_of_injective(mac1, mac2);
        assert(x1.subrange(13, x1.len() as int) =~= hostname1);
        assert(x2.subrange(13, x2.len() as int) =~= hostname2);
    }
}

} // verus!
