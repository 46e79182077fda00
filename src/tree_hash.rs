use vstd::prelude::*;

use crate::merkle::{chunk_views, merkleize, merkleize_chunks, zero_bytes32};
use crate::store::Address;

verus! {

/// Number of bytes in a tree-hash chunk.
pub const HASHSIZE: usize = 32;

/// How a type is laid out when it is merkleized.
#[derive(Debug, Clone, Copy, PartialEq, Eq, Structural)]
pub enum TreeHashType {
    Basic,
    Vector,
    List,
    Container,
}

/// A 32-byte tree-hash root.
#[derive(Debug, Clone, Copy, PartialEq, Eq)]
pub struct Hash256 {
    pub bytes: [u8; 32],
}

impl Hash256 {
    pub fn as_bytes(&self) -> (r: &[u8])
        ensures
            r@ == self.bytes@,
    {
        self.bytes.as_slice()
    }
}

/// The `k` low-order bytes of `n`, least significant first.
pub open spec fn le_bytes(n: nat, k: nat) -> Seq<u8>
    decreases k,
{
    if k == 0 {
        seq![]
    } else {
        seq![(n % 256) as u8] + le_bytes(n / 256, (k - 1) as nat)
    }
}

pub proof fn lemma_le_bytes_len(n: nat, k: nat)
    ensures
        le_bytes(n, k).len() == k,
    decreases k,
{
    if k > 0 {
        lemma_le_bytes_len(n / 256, (k - 1) as nat);
    }
}

/// `s` followed by zeros up to a whole chunk.
pub open spec fn pad_chunk(s: Seq<u8>) -> Seq<u8> {
    s + Seq::new((32 - s.len()) as nat, |i: int| 0u8)
}

/// The chunk that holds `n` in its first eight bytes, little-endian, and zeros after.
pub open spec fn int_chunk(n: u64) -> Seq<u8> {
    pad_chunk(le_bytes(n as nat, 8))
}

/// The `width` low-order bytes of `v`, least significant first.
pub fn le_bytes_vec(v: u64, width: usize) -> (r: Vec<u8>)
    requires
        width <= 8,
    ensures
        r@ == le_bytes(v as nat, width as nat),
{
    let mut out: Vec<u8> = Vec::new();
    let mut rest: u64 = v;
    let mut i: usize = 0;
    while i < width
        invariant
            i <= width <= 8,
            out@ + le_bytes(rest as nat, (width - i) as nat) == le_bytes(v as nat, width as nat),
        decreases width - i,
    {
        let ghost before = out@;
        out.push((rest % 256) as u8);
        proof {
            let tail = le_bytes((rest / 256) as nat, (width - i - 1) as nat);
            assert(le_bytes(rest as nat, (width - i) as nat) == seq![(rest % 256) as u8] + tail);
            assert(out@ + tail =~= before + (seq![(rest % 256) as u8] + tail));
        }
        rest = rest / 256;
        i = i + 1;
    }
    assert(out@ =~= out@ + le_bytes(rest as nat, 0));
    out
}

/// The root of an integer: its little-endian bytes, padded with zeros to a chunk.
pub fn int_to_hash256(n: u64) -> (r: Hash256)
    ensures
        r.bytes@ == int_chunk(n),
{
    let le = le_bytes_vec(n, 8);
    proof {
        lemma_le_bytes_len(n as nat, 8);
    }
    let mut bytes = zero_bytes32();
    let mut i: usize = 0;
    while i < 8
        invariant
            0 <= i <= 8,
            le@ == le_bytes(n as nat, 8),
            le@.len() == 8,
            forall|j: int| 0 <= j < i ==> bytes@[j] == le@[j],
            forall|j: int| i <= j < 32 ==> bytes@[j] == 0,
        decreases 8 - i,
    {
        bytes[i] = le[i];
        i = i + 1;
    }
    assert(bytes@ =~= int_chunk(n));
    Hash256 { bytes }
}

/// The bytes cut into chunks of 32, the last one padded with zeros.
pub open spec fn chunks_of(b: Seq<u8>) -> Seq<Seq<u8>> {
    Seq::new(
        ((b.len() + 31) / 32) as nat,
        |i: int| pad_chunk(b.subrange(32 * i, if 32 * i + 32 <= b.len() { 32 * i + 32 } else { b.len() as int })),
    )
}

/// The root of a byte vector: its chunks, merkleized. Up to 32 bytes this is the bytes
/// themselves, padded with zeros.
pub open spec fn bytes_root(b: Seq<u8>) -> Seq<u8> {
    merkleize(chunks_of(b))
}

fn chunk_at(bytes: &[u8], start: usize) -> (r: [u8; 32])
    requires
        start < bytes@.len(),
    ensures
        r@ == pad_chunk(bytes@.subrange(start as int, if start + 32 <= bytes@.len() { start + 32 } else { bytes@.len() as int })),
{
    let end: usize = if bytes.len() - start >= 32 { start + 32 } else { bytes.len() };
    let mut chunk = zero_bytes32();
    let mut i: usize = 0;
    while start + i < end
        invariant
            start < end <= bytes@.len(),
            end - start <= 32,
            i <= end - start,
            forall|j: int| 0 <= j < i ==> chunk@[j] == bytes@[start + j],
            forall|j: int| i <= j < 32 ==> chunk@[j] == 0,
        decreases end - start - i,
    {
        chunk[i] = bytes[start + i];
        i = i + 1;
    }
    assert(chunk@ =~= pad_chunk(bytes@.subrange(start as int, end as int)));
    chunk
}

/// The root of a byte vector: its chunks of 32 (the last one padded with zeros), merkleized.
pub fn bytes_tree_hash_root(bytes: &[u8]) -> (r: Hash256)
    ensures
        r.bytes@ == bytes_root(bytes@),
{
    let n = bytes.len();
    let count: usize = n / 32 + if n % 32 == 0 { 0 } else { 1 };
    assert(count == (n + 31) / 32);
    let mut chunks: Vec<[u8; 32]> = Vec::new();
    let mut k: usize = 0;
    while k < count
        invariant
            n == bytes@.len(),
            count == (n + 31) / 32,
            k <= count,
            chunk_views(chunks@) == chunks_of(bytes@).take(k as int),
        decreases count - k,
    {
        assert(32 * k < n) by (nonlinear_arith)
            requires
                k < count,
                count == (n + 31) / 32,
        ;
        let c = chunk_at(bytes, 32 * k);
        let ghost old_chunks = chunks@;
        chunks.push(c);
        k = k + 1;
        assert(chunk_views(chunks@) =~= chunk_views(old_chunks).push(c@));
        assert(chunk_views(chunks@) =~= chunks_of(bytes@).take(k as int));
    }
    assert(chunks_of(bytes@).take(k as int) =~= chunks_of(bytes@));
    Hash256 { bytes: merkleize_chunks(chunks) }
}

/// A vector holding the bytes of `s`.
pub fn copy_bytes(s: &[u8]) -> (r: Vec<u8>)
    ensures
        r@ == s@,
{
    let mut out: Vec<u8> = Vec::new();
    let mut i: usize = 0;
    while i < s.len()
        invariant
            i <= s@.len(),
            out@ == s@.take(i as int),
        decreases s@.len() - i,
    {
        out.push(s[i]);
        i = i + 1;
        assert(out@ =~= s@.take(i as int));
    }
    assert(s@.take(i as int) =~= s@);
    out
}

/// How a value is merkleized.
pub trait TreeHash {
    /// The root of the value.
    spec fn root_spec(&self) -> Seq<u8>;

    /// Whether values of the type are packed into chunks, several to a chunk.
    spec fn packed_spec() -> bool;

    spec fn type_spec() -> TreeHashType;

    /// The bytes of the value as they stand in a packed chunk.
    spec fn packed_encoding_spec(&self) -> Seq<u8>;

    /// How many values share a chunk.
    spec fn packing_factor_spec() -> nat;

    fn tree_hash_type() -> (r: TreeHashType)
        ensures
            r == Self::type_spec(),
    ;

    /// The bytes of the value as they stand in a packed chunk.
    fn tree_hash_packed_encoding(&self) -> (r: Vec<u8>)
        requires
            Self::packed_spec(),
        ensures
            r@ == self.packed_encoding_spec(),
    ;

    /// How many values share a chunk.
    fn tree_hash_packing_factor() -> (r: usize)
        requires
            Self::packed_spec(),
        ensures
            r == Self::packing_factor_spec(),
    ;

    fn tree_hash_root(&self) -> (r: Hash256)
        ensures
            r.bytes@ == self.root_spec(),
    ;
}

impl TreeHash for u8 {
    open spec fn root_spec(&self) -> Seq<u8> {
        int_chunk(*self as u64)
    }

    open spec fn type_spec() -> TreeHashType {
        TreeHashType::Basic
    }

    open spec fn packed_encoding_spec(&self) -> Seq<u8> {
        le_bytes(*self as nat, 1)
    }

    open spec fn packing_factor_spec() -> nat {
        32
    }

    open spec fn packed_spec() -> bool {
        true
    }

    fn tree_hash_type() -> TreeHashType {
        TreeHashType::Basic
    }

    fn tree_hash_packed_encoding(&self) -> Vec<u8> {
        le_bytes_vec(*self as u64, 1)
    }

    fn tree_hash_packing_factor() -> usize {
        HASHSIZE / 1
    }

    fn tree_hash_root(&self) -> (r: Hash256) {
        int_to_hash256(*self as u64)
    }
}

impl TreeHash for u16 {
    open spec fn root_spec(&self) -> Seq<u8> {
        int_chunk(*self as u64)
    }

    open spec fn type_spec() -> TreeHashType {
        TreeHashType::Basic
    }

    open spec fn packed_encoding_spec(&self) -> Seq<u8> {
        le_bytes(*self as nat, 2)
    }

    open spec fn packing_factor_spec() -> nat {
        16
    }

    open spec fn packed_spec() -> bool {
        true
    }

    fn tree_hash_type() -> TreeHashType {
        TreeHashType::Basic
    }

    fn tree_hash_packed_encoding(&self) -> Vec<u8> {
        le_bytes_vec(*self as u64, 2)
    }

    fn tree_hash_packing_factor() -> usize {
        HASHSIZE / 2
    }

    fn tree_hash_root(&self) -> (r: Hash256) {
        int_to_hash256(*self as u64)
    }
}

impl TreeHash for u32 {
    open spec fn root_spec(&self) -> Seq<u8> {
        int_chunk(*self as u64)
    }

    open spec fn type_spec() -> TreeHashType {
        TreeHashType::Basic
    }

    open spec fn packed_encoding_spec(&self) -> Seq<u8> {
        le_bytes(*self as nat, 4)
    }

    open spec fn packing_factor_spec() -> nat {
        8
    }

    open spec fn packed_spec() -> bool {
        true
    }

    fn tree_hash_type() -> TreeHashType {
        TreeHashType::Basic
    }

    fn tree_hash_packed_encoding(&self) -> Vec<u8> {
        le_bytes_vec(*self as u64, 4)
    }

    fn tree_hash_packing_factor() -> usize {
        HASHSIZE / 4
    }

    fn tree_hash_root(&self) -> (r: Hash256) {
        int_to_hash256(*self as u64)
    }
}

impl TreeHash for u64 {
    open spec fn root_spec(&self) -> Seq<u8> {
        int_chunk(*self)
    }

    open spec fn type_spec() -> TreeHashType {
        TreeHashType::Basic
    }

    open spec fn packed_encoding_spec(&self) -> Seq<u8> {
        le_bytes(*self as nat, 8)
    }

    open spec fn packing_factor_spec() -> nat {
        4
    }

    open spec fn packed_spec() -> bool {
        true
    }

    fn tree_hash_type() -> TreeHashType {
        TreeHashType::Basic
    }

    fn tree_hash_packed_encoding(&self) -> Vec<u8> {
        le_bytes_vec(*self, 8)
    }

    fn tree_hash_packing_factor() -> usize {
        HASHSIZE / 8
    }

    fn tree_hash_root(&self) -> (r: Hash256) {
        int_to_hash256(*self)
    }
}

impl TreeHash for bool {
    open spec fn root_spec(&self) -> Seq<u8> {
        int_chunk(if *self { 1 } else { 0 })
    }

    open spec fn type_spec() -> TreeHashType {
        TreeHashType::Basic
    }

    open spec fn packed_encoding_spec(&self) -> Seq<u8> {
        le_bytes(if *self { 1nat } else { 0nat }, 1)
    }

    open spec fn packing_factor_spec() -> nat {
        32
    }

    open spec fn packed_spec() -> bool {
        true
    }

    fn tree_hash_type() -> TreeHashType {
        TreeHashType::Basic
    }

    fn tree_hash_packed_encoding(&self) -> Vec<u8> {
        let byte: u8 = if *self { 1 } else { 0 };
        byte.tree_hash_packed_encoding()
    }

    fn tree_hash_packing_factor() -> usize {
        u8::tree_hash_packing_factor()
    }

    fn tree_hash_root(&self) -> (r: Hash256) {
        int_to_hash256(if *self { 1 } else { 0 })
    }
}

impl<const LEN: usize> TreeHash for [u8; LEN] {
    open spec fn root_spec(&self) -> Seq<u8> {
        bytes_root(self@)
    }

    open spec fn type_spec() -> TreeHashType {
        TreeHashType::Vector
    }

    open spec fn packed_encoding_spec(&self) -> Seq<u8> {
        self@
    }

    open spec fn packing_factor_spec() -> nat {
        1
    }

    open spec fn packed_spec() -> bool {
        false
    }

    fn tree_hash_type() -> TreeHashType {
        TreeHashType::Vector
    }

    fn tree_hash_packed_encoding(&self) -> Vec<u8> {
        copy_bytes(self.as_slice())
    }

    fn tree_hash_packing_factor() -> usize {
        1
    }

    fn tree_hash_root(&self) -> (r: Hash256) {
        bytes_tree_hash_root(self.as_slice())
    }
}

impl TreeHash for Hash256 {
    open spec fn root_spec(&self) -> Seq<u8> {
        self.bytes@
    }

    open spec fn type_spec() -> TreeHashType {
        TreeHashType::Vector
    }

    open spec fn packed_encoding_spec(&self) -> Seq<u8> {
        self.bytes@
    }

    open spec fn packing_factor_spec() -> nat {
        1
    }

    open spec fn packed_spec() -> bool {
        true
    }

    fn tree_hash_type() -> TreeHashType {
        TreeHashType::Vector
    }

    fn tree_hash_packed_encoding(&self) -> Vec<u8> {
        copy_bytes(self.bytes.as_slice())
    }

    fn tree_hash_packing_factor() -> usize {
        1
    }

    fn tree_hash_root(&self) -> (r: Hash256) {
        *self
    }
}

impl TreeHash for Address {
    open spec fn root_spec(&self) -> Seq<u8> {
        pad_chunk(self.bytes@)
    }

    open spec fn type_spec() -> TreeHashType {
        TreeHashType::Vector
    }

    open spec fn packed_encoding_spec(&self) -> Seq<u8> {
        pad_chunk(self.bytes@)
    }

    open spec fn packing_factor_spec() -> nat {
        1
    }

    open spec fn packed_spec() -> bool {
        true
    }

    fn tree_hash_type() -> TreeHashType {
        TreeHashType::Vector
    }

    fn tree_hash_packed_encoding(&self) -> Vec<u8> {
        let root = self.tree_hash_root();
        copy_bytes(root.bytes.as_slice())
    }

    fn tree_hash_packing_factor() -> usize {
        1
    }

    fn tree_hash_root(&self) -> (r: Hash256) {
        let mut result = zero_bytes32();
        let mut i: usize = 0;
        while i < 20
            invariant
                i <= 20,
                forall|j: int| 0 <= j < i ==> result@[j] == self.bytes@[j],
                forall|j: int| i <= j < 32 ==> result@[j] == 0,
            decreases 20 - i,
        {
            result[i] = self.bytes[i];
            i = i + 1;
        }
        assert(result@ =~= pad_chunk(self.bytes@));
        Hash256 { bytes: result }
    }
}

} // verus!
