//! Identifiers: random UUIDs, the one-shot UUID, and the IDs of service checks.

use vstd::prelude::*;
use vstd::string::StringSliceAdditionalSpecFns;
use crate::text::{uuid_text, uuid_string, push_str};

verus! {

/// Makes a random UUID with `uuid::Uuid::new_v4`, as a 128-bit number. Which number is
/// left to chance; it is a version 4 UUID of the RFC 4122 variant, as the crate sets
/// those bits.
#[verifier::external_body]
pub(crate) fn new_uuid() -> (r: u128)
    ensures
        (r >> 76) & 0xf == 4,
        (r >> 62) & 0x3 == 2,
{
    uuid::Uuid::new_v4().as_u128()
}

/// The number that bytes spell, most significant first.
pub open spec fn big_endian(bytes: Seq<u8>) -> nat
    decreases bytes.len(),
{
    if bytes.len() == 0 {
        0
    } else {
        big_endian(bytes.drop_last()) * 256 + bytes.last() as nat
    }
}

/// The text whose bytes make the one-shot UUID.
pub const ONESHOT_TEXT: &'static str = "--- one shot ---";

/// The UUID one-shot checks run under: the sixteen bytes of `--- one shot ---`.
pub fn oneshot_uuid() -> (r: u128)
    ensures
        r == big_endian(ONESHOT_TEXT.spec_bytes()),
{
    let b = ONESHOT_TEXT.as_bytes();
    let mut v: u128 = 0;
    let mut i: usize = 0;
    let n = b.len();
    proof {
        reveal_strlit("--- one shot ---");
        broadcast use vstd::string::is_ascii_spec_bytes;
        assert(vstd::string::is_ascii(ONESHOT_TEXT));
        assert(ONESHOT_TEXT.spec_bytes().len() == 16);
    }
    while i < n
        invariant
            n == b@.len(),
            n <= 16,
            i <= n,
            b@ == ONESHOT_TEXT.spec_bytes(),
            v == big_endian(b@.take(i as int)),
            v < pow256(i as nat),
        decreases n - i,
    {
        proof {
            assert(b@.take(i + 1).drop_last() =~= b@.take(i as int));
            lemma_pow256_step(i as nat);
            assert(v * 256 + b@[i as int] < pow256((i + 1) as nat)) by (nonlinear_arith)
                requires
                    v < pow256(i as nat),
                    pow256((i + 1) as nat) == pow256(i as nat) * 256,
                    b@[i as int] < 256,
            ;
            lemma_pow256_bound((i + 1) as nat);
        }
        v = v * 256 + (b[i] as u128);
        i += 1;
    }
    proof {
        assert(b@.take(n as int) =~= b@);
    }
    v
}

/// 256 to the power `k`.
pub open spec fn pow256(k: nat) -> nat
    decreases k,
{
    if k == 0 {
        1
    } else {
        pow256((k - 1) as nat) * 256
    }
}

proof fn lemma_pow256_step(k: nat)
    ensures
        pow256(k + 1) == pow256(k) * 256,
{
}

proof fn lemma_pow256_bound(k: nat)
    requires
        k <= 16,
    ensures
        pow256(k) <= 0x1_0000_0000_0000_0000_0000_0000_0000_0000,
    decreases k,
{
    if k > 0 {
        lemma_pow256_bound((k - 1) as nat);
        assert(pow256(k) == pow256((k - 1) as nat) * 256);
        if k <= 15 {
            lemma_pow256_small((k - 1) as nat);
        } else {
            lemma_pow256_small(15);
            assert(pow256(15) <= 0x1_0000_0000_0000_0000_0000_0000_0000_00);
        }
    }
}

proof fn lemma_pow256_small(k: nat)
    requires
        k <= 15,
    ensures
        pow256(k) <= 0x1_0000_0000_0000_0000_0000_0000_0000_00,
    decreases k,
{
    if k > 0 {
        lemma_pow256_small((k - 1) as nat);
        assert(pow256((k - 1) as nat) <= 0x1_0000_0000_0000_0000_0000_0000_0000) by {
            if k - 1 <= 14 {
                lemma_pow256_tiny((k - 1) as nat);
            }
        }
    }
}

proof fn lemma_pow256_tiny(k: nat)
    requires
        k <= 14,
    ensures
        pow256(k) <= 0x1_0000_0000_0000_0000_0000_0000_0000,
{
    reveal_with_fuel(pow256, 15);
    assert(pow256(14) == 0x1_0000_0000_0000_0000_0000_0000_0000);
    lemma_pow256_monotone(k, 14);
}

proof fn lemma_pow256_monotone(a: nat, b: nat)
    requires
        a <= b,
    ensures
        pow256(a) <= pow256(b),
    decreases b,
{
    if a < b {
        lemma_pow256_monotone(a, (b - 1) as nat);
    }
}

/// The text a service check's ID is made from: the host's UUID and the service's, each
/// written out with hyphens, joined by a hyphen.
pub open spec fn check_id_source(host_id: u128, service_id: u128) -> Seq<char> {
    uuid_text(host_id) + "-"@ + uuid_text(service_id)
}

/// What `sha256::digest` gives for a text.
pub uninterp spec fn sha256_digest(text: Seq<char>) -> Seq<char>;

/// Is `c` a lowercase hexadecimal digit?
pub open spec fn is_lower_hex(c: char) -> bool {
    ('0' <= c <= '9') || ('a' <= c <= 'f')
}

/// Hashes a text's UTF-8 bytes with `sha256::digest`; the digest is named. The crate
/// writes the 32 bytes of the hash with `hex::encode`, as 64 lowercase hexadecimal
/// digits.
#[verifier::external_body]
fn sha256_hex(text: &str) -> (r: String)
    ensures
        r@ == sha256_digest(text@),
        r@.len() == 64,
        forall|i: int| 0 <= i < 64 ==> is_lower_hex(#[trigger] r@[i]),
{
    sha256::digest(text)
}

/// The ID of the check of a service on a host: the SHA-256 digest of their UUIDs; see
/// [`check_id_source`].
pub fn generate_service_check_id(host_id: u128, service_id: u128) -> (r: String)
    ensures
        r@ == sha256_digest(check_id_source(host_id, service_id)),
        r@.len() == 64,
{
    let mut source = uuid_string(host_id);
    push_str(&mut source, "-");
    let s = uuid_string(service_id);
    push_str(&mut source, s.as_str());
    sha256_hex(source.as_str())
}

} // verus!
