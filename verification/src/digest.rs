//! SHA-256 over byte strings, and the 32-byte word in which a digest is carried.

use alloy_primitives::FixedBytes;
use alloy_primitives::B256;
use sha2::Digest;
use sha2::Sha256;
use vstd::prelude::*;

verus! {

/// `alloy_primitives::FixedBytes`, declared together with its single public field:
/// to the verifier a word is the byte array it wraps and nothing else.
#[verifier::external_type_specification]
pub struct ExFixedBytes<const N: usize>(FixedBytes<N>);

/// `Clone::clone` of `alloy_primitives::FixedBytes`. The impl is derived and the type is
/// `Copy`: the clone is the word itself.
pub assume_specification<const N: usize>[ <FixedBytes<N> as Clone>::clone ](
    word: &FixedBytes<N>,
) -> (copy: FixedBytes<N>)
    ensures
        copy == *word,
;

/// The SHA-256 digest of a byte string.
pub uninterp spec fn sha256_digest(data: Seq<u8>) -> Seq<u8>;

/// `sha2::Sha256::digest`: hashes the whole of `data` in one call. Trusted to return the
/// SHA-256 digest, which the bytes of `data` alone determine.
#[verifier::external_body]
pub(crate) fn sha256(data: &[u8]) -> (out: [u8; 32])
    ensures
        out@ == sha256_digest(data@),
{
    Sha256::digest(data).into()
}

/// The bytes of a digest word.
pub open spec fn word_bytes(word: B256) -> Seq<u8> {
    word.0@
}

/// The digests of `items`, one per item and in the same order.
pub open spec fn digests_of(items: Seq<Seq<u8>>) -> Seq<Seq<u8>> {
    items.map_values(|item: Seq<u8>| sha256_digest(item))
}

/// The digest of a list of byte strings: each item is hashed on its own, the digests are
/// laid end to end, and that string is hashed once more.
pub open spec fn list_digest(items: Seq<Seq<u8>>) -> Seq<u8> {
    sha256_digest(digests_of(items).flatten())
}

/// The byte strings that a list of 32-byte blocks holds.
pub open spec fn block_bytes(blocks: Seq<[u8; 32]>) -> Seq<Seq<u8>> {
    blocks.map_values(|block: [u8; 32]| block@)
}

/// Lays 32-byte blocks end to end, first block first.
pub fn concat_blocks(blocks: &Vec<[u8; 32]>) -> (out: Vec<u8>)
    ensures
        out@ == block_bytes(blocks@).flatten(),
        out@.len() == 32 * blocks@.len(),
{
    let mut out: Vec<u8> = Vec::new();
    let mut i: usize = 0;
    assert(block_bytes(blocks@).take(0) =~= Seq::<Seq<u8>>::empty());
    while i < blocks.len()
        invariant
            i <= blocks.len(),
            out@ == block_bytes(blocks@).take(i as int).flatten(),
            out@.len() == 32 * i,
        decreases blocks.len() - i,
    {
        let block = &blocks[i];
        let ghost before = out@;
        let mut j: usize = 0;
        while j < 32
            invariant
                j <= 32,
                out@ == before + block@.take(j as int),
            decreases 32 - j,
        {
            out.push(block[j]);
            proof {
                assert(block@.take(j + 1) =~= block@.take(j as int).push(block@[j as int]));
                assert(out@ =~= before + block@.take(j + 1));
            }
            j += 1;
        }
        proof {
            let all = block_bytes(blocks@);
            assert(block@.take(32) =~= block@);
            assert(all.take(i + 1) =~= all.take(i as int).push(block@));
            all.take(i as int).lemma_flatten_push(block@);
        }
        i += 1;
    }
    assert(block_bytes(blocks@).take(blocks@.len() as int) =~= block_bytes(blocks@));
    out
}

} // verus!
