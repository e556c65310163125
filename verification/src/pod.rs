use vstd::prelude::*;

verus! {

/// The eight little-endian bytes of `v`, the layout of a `u64` stored
/// without alignment.
pub open spec fn le_bytes(v: u64) -> Seq<u8> {
    seq![
        v as u8,
        (v >> 8u64) as u8,
        (v >> 16u64) as u8,
        (v >> 24u64) as u8,
        (v >> 32u64) as u8,
        (v >> 40u64) as u8,
        (v >> 48u64) as u8,
        (v >> 56u64) as u8,
    ]
}

/// Two values with the same little-endian bytes are equal.
pub proof fn lemma_le_bytes_injective(a: u64, b: u64)
    requires
        le_bytes(a) == le_bytes(b),
    ensures
        a == b,
{
    assert(le_bytes(a)[0] == le_bytes(b)[0]);
    assert(le_bytes(a)[1] == le_bytes(b)[1]);
    assert(le_bytes(a)[2] == le_bytes(b)[2]);
    assert(le_bytes(a)[3] == le_bytes(b)[3]);
    assert(le_bytes(a)[4] == le_bytes(b)[4]);
    assert(le_bytes(a)[5] == le_bytes(b)[5]);
    assert(le_bytes(a)[6] == le_bytes(b)[6]);
    assert(le_bytes(a)[7] == le_bytes(b)[7]);
    assert(a == b) by (bit_vector)
        requires
            a as u8 == b as u8,
            (a >> 8u64) as u8 == (b >> 8u64) as u8,
            (a >> 16u64) as u8 == (b >> 16u64) as u8,
            (a >> 24u64) as u8 == (b >> 24u64) as u8,
            (a >> 32u64) as u8 == (b >> 32u64) as u8,
            (a >> 40u64) as u8 == (b >> 40u64) as u8,
            (a >> 48u64) as u8 == (b >> 48u64) as u8,
            (a >> 56u64) as u8 == (b >> 56u64) as u8,
    ;
}

/// Calls spl-pod's `From<u64>` for `PodU64` and takes its bytes. The source
/// stores `n.to_le_bytes()`.
#[verifier::external_body]
pub(crate) fn pod_u64_from(v: u64) -> (b: [u8; 8])
    ensures
        b@ == le_bytes(v),
{
    spl_pod::primitives::PodU64::from(v).0
}

/// Calls spl-pod's `From<PodU64>` for `u64` on the given bytes. The source
/// reads them with `u64::from_le_bytes`.
#[verifier::external_body]
pub(crate) fn pod_u64_into(b: [u8; 8]) -> (v: u64)
    ensures
        le_bytes(v) == b@,
{
    u64::from(spl_pod::primitives::PodU64(b))
}

} // verus!
