use vstd::prelude::*;

verus! {

/// The 32-byte Blake2b digest, under the ledger's fixed personalization, of
/// a byte sequence.  The digest is a function of the bytes alone; its value
/// is given by the hash primitive and is not restated here.
pub uninterp spec fn blake2b_ckb(data: Seq<u8>) -> Seq<u8>;

/// Relies on `ckb_hash::blake2b_256`: the Blake2b-256 digest of exactly the
/// given bytes, computed with CKB's fixed personalization, depending on the
/// bytes alone.
#[verifier::external_body]
fn blake2b_256_digest(data: &[u8]) -> (r: [u8; 32])
    ensures
        r@ == blake2b_ckb(data@),
{
    ckb_hash::blake2b_256(data)
}

/// Appends every byte of `src` to `dst`, in order.
pub fn append_bytes(dst: &mut Vec<u8>, src: &[u8])
    ensures
        final(dst)@ == old(dst)@ + src@,
{
    let ghost orig = dst@;
    let mut i: usize = 0;
    while i < src.len()
        invariant
            i <= src@.len(),
            dst@ == orig + src@.take(i as int),
        decreases src@.len() - i,
    {
        dst.push(src[i]);
        proof {
            assert(src@.take(i + 1) =~= src@.take(i as int).push(src@[i as int]));
        }
        i = i + 1;
    }
    proof {
        assert(src@.take(src@.len() as int) =~= src@);
    }
}

/// Derives the identity a freshly minted cell must declare: the digest of
/// the transition's first input's serialized form followed by the governed
/// output's position as eight little-endian bytes.
pub fn compute_expected_type_id(first_input: &[u8], output_index: u64) -> (r: [u8; 32])
    ensures
        r@ == blake2b_ckb(first_input@ + vstd::bytes::spec_u64_to_le_bytes(output_index)),
{
    let mut data: Vec<u8> = Vec::new();
    append_bytes(&mut data, first_input);
    let tail = vstd::bytes::u64_to_le_bytes(output_index);
    append_bytes(&mut data, tail.as_slice());
    proof {
        assert(data@ =~= first_input@ + vstd::bytes::spec_u64_to_le_bytes(output_index));
    }
    blake2b_256_digest(data.as_slice())
}

} // verus!
