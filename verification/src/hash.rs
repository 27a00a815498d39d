//! Fixed-size byte strings: 160-bit addresses, 256-bit hashes and storage
//! words, and the 2048-bit log bloom of a block.

use crate::uint::U256;
use vstd::prelude::*;

verus! {

/// The number that a byte string spells when read with the most significant
/// byte first.
pub open spec fn be_value(bytes: Seq<u8>) -> nat
    decreases bytes.len(),
{
    if bytes.len() == 0 {
        0
    } else {
        be_value(bytes.drop_last()) * 256 + bytes.last() as nat
    }
}

/// Byte strings of one length that spell the same number are the same.
pub proof fn lemma_be_value_injective(a: Seq<u8>, b: Seq<u8>)
    requires
        a.len() == b.len(),
        be_value(a) == be_value(b),
    ensures
        a == b,
    decreases a.len(),
{
    if a.len() > 0 {
        assert(a.last() == b.last() && be_value(a.drop_last()) == be_value(b.drop_last())) by {
            let x = be_value(a.drop_last());
            let y = be_value(b.drop_last());
            assert(x * 256 + a.last() as nat == y * 256 + b.last() as nat);
        }
        lemma_be_value_injective(a.drop_last(), b.drop_last());
        assert(a =~= a.drop_last().push(a.last()));
        assert(b =~= b.drop_last().push(b.last()));
    } else {
        assert(a =~= b);
    }
}

/// 256 to the power of `k`.
pub open spec fn pow256(k: nat) -> nat
    decreases k,
{
    if k == 0 {
        1
    } else {
        256 * pow256((k - 1) as nat)
    }
}

/// The `k` bytes that spell a number below 256^k, most significant first.
pub open spec fn be_bytes(n: nat, k: nat) -> Seq<u8>
    decreases k,
{
    if k == 0 {
        Seq::empty()
    } else {
        be_bytes(n / 256, (k - 1) as nat).push((n % 256) as u8)
    }
}

/// The bytes of a number spell that number.
pub proof fn lemma_be_bytes(n: nat, k: nat)
    requires
        n < pow256(k),
    ensures
        be_bytes(n, k).len() == k,
        be_value(be_bytes(n, k)) == n,
    decreases k,
{
    if k > 0 {
        lemma_be_bytes(n / 256, (k - 1) as nat);
        let s = be_bytes(n, k);
        assert(s.drop_last() =~= be_bytes(n / 256, (k - 1) as nat));
    }
}

/// The array that holds the first `k` bytes of a sequence, and zero after
/// them.
pub open spec fn array_from(bytes: Seq<u8>, k: nat) -> [u8; 32]
    decreases k,
{
    if k == 0 {
        vstd::array::spec_array_fill_for_copy_type::<u8, 32>(0u8)
    } else {
        vstd::array::spec_array_update(
            array_from(bytes, (k - 1) as nat),
            k - 1,
            bytes[k - 1],
        )
    }
}

/// The array made from the first `k` bytes of a sequence holds them.
pub proof fn lemma_array_from(bytes: Seq<u8>, k: nat)
    requires
        k <= 32,
    ensures
        forall|j: int| 0 <= j < k ==> array_from(bytes, k)@[j] == bytes[j],
    decreases k,
{
    if k > 0 {
        lemma_array_from(bytes, (k - 1) as nat);
    }
}

/// 256^32 is 2^256.
pub proof fn lemma_pow256_32()
    ensures
        pow256(32) == crate::uint::max_u256() + 1,
{
    assert(pow256(4) == 0x1_0000_0000nat) by {
        reveal_with_fuel(pow256, 5);
    }
    assert(pow256(8) == 0x1_0000_0000_0000_0000nat) by {
        lemma_pow256_add(4, 4);
    }
    assert(pow256(16) == 0x1_0000_0000_0000_0000_0000_0000_0000_0000nat) by {
        lemma_pow256_add(8, 8);
    }
    lemma_pow256_add(16, 16);
}

/// 256^(a + b) is 256^a times 256^b.
pub proof fn lemma_pow256_add(a: nat, b: nat)
    ensures
        pow256(a + b) == pow256(a) * pow256(b),
    decreases a,
{
    if a > 0 {
        lemma_pow256_add((a - 1) as nat, b);
        assert(pow256(a + b) == 256 * pow256((a - 1 + b) as nat));
        assert(256 * (pow256((a - 1) as nat) * pow256(b)) == (256 * pow256((a - 1) as nat))
            * pow256(b)) by (nonlinear_arith);
    } else {
        assert(pow256(a + b) == pow256(b));
        assert(pow256(a) * pow256(b) == pow256(b)) by (nonlinear_arith)
            requires
                pow256(a) == 1,
        ;
    }
}

/// The hash whose bytes are all zero.
pub open spec fn zero_hash() -> H256 {
    H256(vstd::array::spec_array_fill_for_copy_type::<u8, 32>(0u8))
}

/// A 160-bit account address.
#[derive(Clone, Copy, Debug, PartialEq, Eq)]
pub struct H160(pub [u8; 20]);

/// A 256-bit hash, storage key or storage word.
#[derive(Clone, Copy, Debug, PartialEq, Eq)]
pub struct H256(pub [u8; 32]);

/// The 2048-bit bloom filter over the addresses and topics of a block's logs.
#[derive(Clone, Copy, Debug, PartialEq, Eq)]
pub struct Bloom(pub [u8; 256]);

impl View for H160 {
    type V = Seq<u8>;

    open spec fn view(&self) -> Seq<u8> {
        self.0@
    }
}

impl View for H256 {
    type V = Seq<u8>;

    open spec fn view(&self) -> Seq<u8> {
        self.0@
    }
}

impl View for Bloom {
    type V = Seq<u8>;

    open spec fn view(&self) -> Seq<u8> {
        self.0@
    }
}

/// Whether two byte arrays of one length hold the same bytes.
fn same_bytes<const N: usize>(a: &[u8; N], b: &[u8; N]) -> (r: bool)
    ensures
        r == (a@ == b@),
        r == (*a == *b),
{
    let mut i: usize = 0;
    while i < N
        invariant
            i <= N,
            forall|j: int| 0 <= j < i ==> a[j] == b[j],
        decreases N - i,
    {
        if a[i] != b[i] {
            return false;
        }
        i = i + 1;
    }
    assert(a@ =~= b@);
    assert(*a =~= *b);
    true
}

impl H160 {
    /// The address whose bytes are all zero.
    pub fn zero() -> (r: H160)
        ensures
            r@ == Seq::new(20, |i: int| 0u8),
    {
        let r = H160([0u8; 20]);
        assert(r@ =~= Seq::new(20, |i: int| 0u8));
        r
    }

    /// Whether two addresses are the same.
    pub fn eq(&self, other: &H160) -> (r: bool)
        ensures
            r == (*self == *other),
            r == (self@ == other@),
    {
        same_bytes(&self.0, &other.0)
    }
}

impl H256 {
    /// The hash whose bytes are all zero.
    pub fn zero() -> (r: H256)
        ensures
            r == zero_hash(),
            r@ == Seq::new(32, |i: int| 0u8),
    {
        let r = H256([0u8; 32]);
        assert(r@ =~= Seq::new(32, |i: int| 0u8));
        r
    }

    /// The number that the 32 bytes spell, most significant byte first.
    pub open spec fn word(&self) -> nat {
        be_value(self@)
    }

    /// The hash that spells a given number; meant for numbers below 2^256.
    pub open spec fn of_word(n: nat) -> H256 {
        choose|h: H256| h.word() == n
    }

    /// Every number below 2^256 is the number that its hash spells.
    pub proof fn lemma_of_word_value(n: nat)
        requires
            n <= crate::uint::max_u256(),
        ensures
            H256::of_word(n).word() == n,
    {
        lemma_pow256_32();
        lemma_be_bytes(n, 32);
        let bytes = be_bytes(n, 32);
        lemma_array_from(bytes, 32);
        let h = H256(array_from(bytes, 32));
        assert(h@ =~= bytes);
        assert(h.word() == n);
    }

    /// A hash is the hash that spells its number.
    pub proof fn lemma_of_word(self)
        ensures
            H256::of_word(self.word()) == self,
    {
        let other = H256::of_word(self.word());
        assert(other.word() == self.word());
        lemma_be_value_injective(other@, self@);
        assert(other.0 =~= self.0);
    }

    /// Whether two hashes are the same.
    pub fn eq(&self, other: &H256) -> (r: bool)
        ensures
            r == (*self == *other),
            r == (self@ == other@),
    {
        same_bytes(&self.0, &other.0)
    }

    /// The storage key or word that spells a 64-bit number.
    pub fn from_low_u64_be(v: u64) -> (r: H256)
        ensures
            r.word() == v,
            r == H256::of_word(v as nat),
    {
        let r = word_from_u64(v);
        proof {
            r.lemma_of_word();
        }
        r
    }

    /// The storage word that spells a 256-bit number.
    pub fn from_u256(v: U256) -> (r: H256)
        ensures
            r.word() == v@,
            r == H256::of_word(v@),
    {
        let r = word_from_u256(v);
        proof {
            r.lemma_of_word();
        }
        r
    }

    /// The 256-bit number that a storage word spells.
    pub fn to_u256(&self) -> (r: U256)
        ensures
            r@ == self.word(),
    {
        word_to_u256(self)
    }
}

impl Bloom {
    /// The filter that holds given bytes; meant for 256 bytes.
    pub open spec fn of(bytes: Seq<u8>) -> Bloom {
        choose|b: Bloom| b@ == bytes
    }

    /// A filter is the filter that holds its bytes.
    pub proof fn lemma_of(self)
        ensures
            Bloom::of(self@) == self,
    {
        let other = Bloom::of(self@);
        assert(other@ == self@);
        assert(other.0 =~= self.0);
    }

    /// The empty filter.
    pub fn zero() -> (r: Bloom)
        ensures
            r@ == Seq::new(256, |i: int| 0u8),
    {
        let r = Bloom([0u8; 256]);
        assert(r@ =~= Seq::new(256, |i: int| 0u8));
        r
    }

    /// Adds one log address or topic to the filter.
    pub fn accrue(&mut self, input: &[u8])
        ensures
            final(self)@ == bloom_accrued(old(self)@, input@),
    {
        let next = bloom_accrue(self, input);
        *self = next;
    }
}

/// The filter that `ethereum_types::Bloom::accrue` leaves when it is given a
/// filter and the raw bytes of one input.
pub uninterp spec fn bloom_accrued(bloom: Seq<u8>, input: Seq<u8>) -> Seq<u8>;

/// `ethereum_types::Bloom::accrue` with `BloomInput::Raw`: hashes the input
/// and sets three bits of the filter that the hash selects. The result
/// depends on the filter and the input alone.
#[verifier::external_body]
fn bloom_accrue(bloom: &Bloom, input: &[u8]) -> (r: Bloom)
    ensures
        r@ == bloom_accrued(bloom@, input@),
{
    let mut filter = ethereum_types::Bloom(bloom.0);
    filter.accrue(ethereum_types::BloomInput::Raw(input));
    Bloom(filter.0)
}

/// `primitive_types::H256::from_low_u64_be`: 32 bytes that are zero but for
/// the last eight, which hold the number with the most significant byte
/// first.
#[verifier::external_body]
fn word_from_u64(v: u64) -> (r: H256)
    ensures
        be_value(r@) == v,
{
    H256(primitive_types::H256::from_low_u64_be(v).0)
}

/// `primitive_types::U256::to_big_endian` on a buffer of 32 bytes: the bytes
/// of the number, most significant first.
#[verifier::external_body]
fn word_from_u256(v: U256) -> (r: H256)
    ensures
        be_value(r@) == v@,
{
    let mut bytes = [0u8; 32];
    primitive_types::U256(v.0).to_big_endian(&mut bytes);
    H256(bytes)
}

/// `primitive_types::U256::from_big_endian` on 32 bytes: the number that the
/// bytes spell, most significant first.
#[verifier::external_body]
fn word_to_u256(h: &H256) -> (r: U256)
    ensures
        r@ == be_value(h@),
{
    U256(primitive_types::U256::from_big_endian(&h.0).0)
}

} // verus!
