//! Digests and the SHA-256 based hashing of tagged structures.

use vstd::prelude::*;
use vstd::bytes::{spec_u16_to_le_bytes, spec_u32_to_le_bytes};
use vstd::string::StringSliceAdditionalSpecFns;

verus! {

/// The number of bytes in a [`Digest`].
pub const DIGEST_BYTES: usize = 32;

/// The result of a hash function: 256 bits, held as 32 bytes.
#[derive(Clone, Copy, Debug, PartialEq, Eq, Hash)]
pub struct Digest {
    /// The bytes of the digest, in the order in which they are hashed.
    pub bytes: [u8; 32],
}

impl View for Digest {
    type V = Seq<u8>;

    open spec fn view(&self) -> Seq<u8> {
        self.bytes@
    }
}

/// The bytes of the digest of all zeroes.
pub open spec fn zero_digest() -> Seq<u8> {
    Seq::new(32, |i: int| 0u8)
}

impl Digest {
    /// The digest of all zeroes.
    pub fn zero() -> (digest: Digest)
        ensures
            digest@ == zero_digest(),
    {
        let bytes: [u8; 32] = [0u8; 32];
        assert(bytes@.len() == 32);
        assert forall|i: int| 0 <= i < 32 implies bytes@[i] == 0u8 by {
            vstd::array::axiom_spec_array_fill_for_copy_type::<u8, 32>(0u8);
        }
        assert(bytes@ =~= zero_digest());
        Digest { bytes }
    }

    /// A digest made of the given bytes.
    pub fn new(bytes: [u8; 32]) -> (digest: Digest)
        ensures
            digest@ == bytes@,
    {
        Digest { bytes }
    }

    /// The bytes of the digest.
    pub fn as_bytes(&self) -> (bytes: &[u8; 32])
        ensures
            bytes@ == self@,
    {
        &self.bytes
    }

    /// Whether two digests hold the same bytes.
    pub fn equals(&self, other: &Digest) -> (same: bool)
        ensures
            same == (self@ == other@),
    {
        let mut i: usize = 0;
        while i < 32
            invariant
                i <= 32,
                forall|j: int| 0 <= j < i ==> self@[j] == other@[j],
            decreases 32 - i,
        {
            if self.bytes[i] != other.bytes[i] {
                return false;
            }
            i = i + 1;
        }
        assert(self@ =~= other@);
        true
    }
}

/// The digest that holds the given 32 bytes.
pub open spec fn digest_of(bytes: Seq<u8>) -> Digest {
    choose|digest: Digest| digest@ == bytes
}

/// A digest is determined by its bytes.
pub proof fn lemma_digest_of_view(digest: Digest)
    ensures
        digest_of(digest@) == digest,
{
    let chosen = digest_of(digest@);
    assert(chosen@ == digest@);
    assert(chosen.bytes =~= digest.bytes);
}

/// The SHA-256 hash, as FIPS 180-4 defines it, of a sequence of bytes.
pub uninterp spec fn sha256_of(bytes: Seq<u8>) -> Seq<u8>;

/// The bytes of a sequence of digests, one after the other.
pub open spec fn concat_digests(down: Seq<Seq<u8>>) -> Seq<u8>
    decreases down.len(),
{
    if down.len() == 0 {
        Seq::empty()
    } else {
        concat_digests(down.drop_last()) + down.last()
    }
}

/// The bytes of a sequence of words, each word in little-endian order.
pub open spec fn words_le(data: Seq<u32>) -> Seq<u8>
    decreases data.len(),
{
    if data.len() == 0 {
        Seq::empty()
    } else {
        words_le(data.drop_last()) + spec_u32_to_le_bytes(data.last())
    }
}

/// The digest of a tagged structure: the hash of the tag's own hash, the
/// digests of the fields that are themselves structures, the plain words, and
/// the number of digests as two bytes.
pub open spec fn tagged_struct_of(tag: Seq<u8>, down: Seq<Seq<u8>>, data: Seq<u32>) -> Seq<u8> {
    sha256_of(
        sha256_of(tag) + concat_digests(down) + words_le(data) + spec_u16_to_le_bytes(
            down.len() as u16,
        ),
    )
}

/// The digest of a tagged list: the empty list is the digest of all zeroes,
/// and a longer one is the tagged structure of its head and of its tail's digest.
pub open spec fn tagged_list_of(tag: Seq<u8>, list: Seq<Seq<u8>>) -> Seq<u8>
    decreases list.len(),
{
    if list.len() == 0 {
        zero_digest()
    } else {
        tagged_struct_of(tag, seq![list[0], tagged_list_of(tag, list.skip(1))], Seq::empty())
    }
}

/// The byte sequences that a vector of digests holds.
pub open spec fn digests_view(down: Seq<Digest>) -> Seq<Seq<u8>> {
    down.map_values(|d: Digest| d@)
}

/// Calls `hash_bytes` of risc0_zkp's CPU implementation of SHA-256. Trusted:
/// the result is the SHA-256 hash of the given bytes.
#[verifier::external_body]
pub(crate) fn hash_bytes(bytes: &[u8]) -> (digest: Digest)
    ensures
        digest@ == sha256_of(bytes@),
{
    let hashed: risc0_zkp::core::digest::Digest =
        *<risc0_zkp::core::hash::sha::cpu::Impl as risc0_zkp::core::hash::sha::Sha256>::hash_bytes(bytes);
    Digest { bytes: hashed.into() }
}

/// Calls `risc0_binfmt::tagged_struct` with SHA-256. Trusted: the result is
/// the hash that [`tagged_struct_of`] describes. The outside function panics
/// on more than 65535 digests, which `requires` leaves out.
#[verifier::external_body]
pub(crate) fn tagged_struct(tag: &str, down: &Vec<Digest>, data: &Vec<u32>) -> (digest: Digest)
    requires
        down.len() <= 0xffff,
    ensures
        digest@ == tagged_struct_of(tag.spec_bytes(), digests_view(down@), data@),
{
    let down: Vec<risc0_zkp::core::digest::Digest> =
        down.iter().map(|d| risc0_zkp::core::digest::Digest::from(d.bytes)).collect();
    let hashed = risc0_binfmt::tagged_struct::<risc0_zkp::core::hash::sha::cpu::Impl>(
        tag,
        &down,
        data,
    );
    Digest { bytes: hashed.into() }
}

/// Calls `risc0_binfmt::tagged_list` with SHA-256. Trusted: the result is the
/// hash that [`tagged_list_of`] describes.
#[verifier::external_body]
pub(crate) fn tagged_list(tag: &str, list: &Vec<Digest>) -> (digest: Digest)
    ensures
        digest@ == tagged_list_of(tag.spec_bytes(), digests_view(list@)),
{
    let list: Vec<risc0_zkp::core::digest::Digest> =
        list.iter().map(|d| risc0_zkp::core::digest::Digest::from(d.bytes)).collect();
    let hashed = risc0_binfmt::tagged_list::<risc0_zkp::core::hash::sha::cpu::Impl>(tag, &list);
    Digest { bytes: hashed.into() }
}

/// The result of the SHA-256 compression function, started from the standard
/// initial state, on the block made of two digests.
pub uninterp spec fn sha256_pair_of(left: Seq<u8>, right: Seq<u8>) -> Seq<u8>;

/// Calls `hash_pair` of risc0_zkp's CPU implementation of SHA-256. Trusted:
/// the result is the compression of the two digests, a function of them alone.
#[verifier::external_body]
pub(crate) fn hash_pair(left: &Digest, right: &Digest) -> (digest: Digest)
    ensures
        digest@ == sha256_pair_of(left@, right@),
{
    let left = risc0_zkp::core::digest::Digest::from(left.bytes);
    let right = risc0_zkp::core::digest::Digest::from(right.bytes);
    let hashed: risc0_zkp::core::digest::Digest =
        *<risc0_zkp::core::hash::sha::cpu::Impl as risc0_zkp::core::hash::sha::Sha256>::hash_pair(
            &left,
            &right,
        );
    Digest { bytes: hashed.into() }
}

} // verus!
