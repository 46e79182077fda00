use vstd::prelude::*;

use sha2::Digest;

verus! {

/// The SHA-256 digest of `data`.
pub uninterp spec fn sha256_of(data: Seq<u8>) -> Seq<u8>;

/// Relies on `sha2::Sha256::digest`: the SHA-256 digest of the bytes, which depends on the
/// bytes alone.
#[verifier::external_body]
fn sha256(data: &Vec<u8>) -> (r: [u8; 32])
    ensures
        r@ == sha256_of(data@),
{
    sha2::Sha256::digest(data.as_slice()).into()
}

/// The chunk of 32 zero bytes.
pub open spec fn zero_chunk() -> Seq<u8> {
    Seq::new(32, |i: int| 0u8)
}

/// The parent of two nodes: the digest of the two, one after the other.
pub open spec fn hash_pair(left: Seq<u8>, right: Seq<u8>) -> Seq<u8> {
    sha256_of(left + right)
}

/// The digest that stands for an all-zero subtree of the given depth.
pub open spec fn zero_hash(depth: nat) -> Seq<u8>
    decreases depth,
{
    if depth == 0 {
        zero_chunk()
    } else {
        hash_pair(zero_hash((depth - 1) as nat), zero_hash((depth - 1) as nat))
    }
}

/// `nodes`, with the zero subtree of their depth added if there is an odd number of them.
pub open spec fn pad_even(nodes: Seq<Seq<u8>>, depth: nat) -> Seq<Seq<u8>> {
    if nodes.len() % 2 == 1 { nodes.push(zero_hash(depth)) } else { nodes }
}

/// The level above `nodes`: each pair of neighbours hashed into one.
pub open spec fn merkle_level(nodes: Seq<Seq<u8>>) -> Seq<Seq<u8>> {
    Seq::new(nodes.len() / 2, |i: int| hash_pair(nodes[2 * i], nodes[2 * i + 1]))
}

/// The root of the tree whose nodes at `depth` are `nodes`, the missing ones being zero
/// subtrees: the same root as that of the leaves padded with zero chunks to a power of two.
pub open spec fn merkle_root(nodes: Seq<Seq<u8>>, depth: nat) -> Seq<u8>
    decreases nodes.len(),
{
    if nodes.len() == 0 {
        zero_hash(depth)
    } else if nodes.len() == 1 {
        nodes[0]
    } else {
        merkle_root(merkle_level(pad_even(nodes, depth)), depth + 1)
    }
}

/// The root of the tree over `leaves`, padded with zero chunks to a power of two.
pub open spec fn merkleize(leaves: Seq<Seq<u8>>) -> Seq<u8> {
    merkle_root(leaves, 0)
}

pub open spec fn chunk_views(chunks: Seq<[u8; 32]>) -> Seq<Seq<u8>> {
    chunks.map_values(|c: [u8; 32]| c@)
}

/// The chunk of 32 zero bytes.
pub fn zero_bytes32() -> (r: [u8; 32])
    ensures
        r@ == zero_chunk(),
{
    let z = [0u8; 32];
    proof {
        broadcast use vstd::array::axiom_spec_array_fill_for_copy_type;
        assert(z == vstd::array::spec_array_fill_for_copy_type::<u8, 32>(0u8));
        assert(forall|i: int| 0 <= i < 32 ==> z@[i] == 0u8);
    }
    assert(z@ =~= zero_chunk());
    z
}

fn hash_pair_exec(left: &[u8; 32], right: &[u8; 32]) -> (r: [u8; 32])
    ensures
        r@ == hash_pair(left@, right@),
{
    let mut data: Vec<u8> = Vec::new();
    let mut i: usize = 0;
    while i < 32
        invariant
            i <= 32,
            data@ == left@.take(i as int),
        decreases 32 - i,
    {
        data.push(left[i]);
        i = i + 1;
        assert(data@ =~= left@.take(i as int));
    }
    let mut j: usize = 0;
    while j < 32
        invariant
            j <= 32,
            data@ == left@ + right@.take(j as int),
        decreases 32 - j,
    {
        data.push(right[j]);
        j = j + 1;
        assert(data@ =~= left@ + right@.take(j as int));
    }
    assert(right@.take(32) =~= right@);
    sha256(&data)
}

/// The root of the tree over `leaves`, padded with zero chunks to a power of two.
pub fn merkleize_chunks(leaves: Vec<[u8; 32]>) -> (r: [u8; 32])
    ensures
        r@ == merkleize(chunk_views(leaves@)),
{
    let mut level = leaves;
    let mut zero = zero_bytes32();
    let ghost mut depth: nat = 0;
    while level.len() > 1
        invariant
            merkle_root(chunk_views(level@), depth) == merkleize(chunk_views(leaves@)),
            zero@ == zero_hash(depth),
        decreases level@.len(),
    {
        let ghost before = chunk_views(level@);
        if level.len() % 2 == 1 {
            level.push(zero);
        }
        assert(chunk_views(level@) =~= pad_even(before, depth));
        let len = level.len();
        let half = len / 2;
        let mut next: Vec<[u8; 32]> = Vec::new();
        let mut k: usize = 0;
        while k < half
            invariant
                len == level@.len(),
                half == len / 2,
                k <= half,
                chunk_views(next@) == merkle_level(chunk_views(level@)).take(k as int),
            decreases half - k,
        {
            assert(2 * k + 1 < level@.len()) by (nonlinear_arith)
                requires
                    k < half,
                    half == len / 2,
                    len == level@.len(),
            ;
            let h = hash_pair_exec(&level[2 * k], &level[2 * k + 1]);
            proof {
                assert(chunk_views(level@)[2 * k as int] == level@[2 * k as int]@);
                assert(chunk_views(level@)[2 * k as int + 1] == level@[2 * k as int + 1]@);
                assert(merkle_level(chunk_views(level@))[k as int] == h@);
            }
            let ghost old_next = next@;
            next.push(h);
            k = k + 1;
            assert(chunk_views(next@) =~= chunk_views(old_next).push(h@));
            assert(chunk_views(next@) =~= merkle_level(chunk_views(level@)).take(k as int));
        }
        assert(chunk_views(next@) =~= merkle_level(chunk_views(level@)));
        level = next;
        zero = hash_pair_exec(&zero, &zero);
        proof {
            depth = depth + 1;
        }
    }
    if level.len() == 0 {
        zero
    } else {
        assert(chunk_views(level@)[0] == level@[0]@);
        level[0]
    }
}

} // verus!
