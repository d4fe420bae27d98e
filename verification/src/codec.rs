//! Fixed-layout binary encoding and decoding of a zero-knowledge proof.
//!
//! A proof is a fixed sequence of 24 hashes of 32 bytes each, so exactly
//! 768 bytes on the wire. Decoding either yields a fully populated proof or
//! an error; there are no partial results.

use vstd::prelude::*;

verus! {

/// Number of bytes in each hash of a proof.
pub const HASH_LENGTH: usize = 32;

/// Number of hashes in a proof.
pub const PROOF_LENGTH: usize = 24;

/// Total number of bytes in an encoded proof.
pub const PROOF_BYTE_LENGTH: usize = 768;

/// Raw proof bytes: a fixed sequence of 32-byte hashes.
#[derive(Debug)]
pub struct Proof {
    hashes: Vec<Vec<u8>>,
}

/// Errors that decoding a proof from its wire form can produce.
#[derive(Debug, Clone, Copy, PartialEq, Eq, Structural)]
pub enum ProofEncodingError {
    /// The input is not exactly [`PROOF_BYTE_LENGTH`] bytes long.
    InvalidLength { expected: usize, got: usize },
    /// A 32-byte chunk could not be sliced out of the input. Structurally
    /// unreachable once the length is validated, but kept as a distinct
    /// error for forward compatibility.
    InvalidHash { index: usize },
}

impl View for Proof {
    type V = Seq<Seq<u8>>;

    closed spec fn view(&self) -> Seq<Seq<u8>> {
        Seq::new(self.hashes@.len(), |i: int| self.hashes@[i]@)
    }
}

/// The bytes of a sequence of hashes, concatenated in order.
pub open spec fn bytes_of_hashes(hs: Seq<Seq<u8>>) -> Seq<u8>
    decreases hs.len(),
{
    if hs.len() == 0 {
        Seq::empty()
    } else {
        bytes_of_hashes(hs.drop_last()) + hs.last()
    }
}

/// The 24 consecutive 32-byte chunks of a 768-byte sequence.
pub open spec fn decoded_hashes(b: Seq<u8>) -> Seq<Seq<u8>> {
    Seq::new(24, |i: int| b.subrange(32 * i, 32 * i + 32))
}

/// Concatenating hashes of 32 bytes each yields 32 bytes per hash.
pub proof fn lemma_bytes_of_hashes_len(hs: Seq<Seq<u8>>)
    requires
        forall|i: int| 0 <= i < hs.len() ==> (#[trigger] hs[i]).len() == 32,
    ensures
        bytes_of_hashes(hs).len() == 32 * hs.len(),
    decreases hs.len(),
{
    if hs.len() > 0 {
        lemma_bytes_of_hashes_len(hs.drop_last());
    }
}

proof fn lemma_decoded_prefix(b: Seq<u8>, n: int)
    requires
        b.len() == 768,
        0 <= n <= 24,
    ensures
        bytes_of_hashes(decoded_hashes(b).take(n)) == b.take(32 * n),
    decreases n,
{
    if n == 0 {
        assert(decoded_hashes(b).take(0) =~= Seq::<Seq<u8>>::empty());
        assert(b.take(0) =~= Seq::<u8>::empty());
    } else {
        lemma_decoded_prefix(b, n - 1);
        let d = decoded_hashes(b);
        assert(d.take(n).drop_last() =~= d.take(n - 1));
        assert(d.take(n).last() == b.subrange(32 * (n - 1), 32 * n));
        assert(b.take(32 * n) =~= b.take(32 * (n - 1)) + b.subrange(32 * (n - 1), 32 * n));
    }
}

/// Law: decoding a 768-byte sequence into hashes and re-encoding the hashes
/// yields the identical byte sequence.
pub proof fn lemma_decode_encode_roundtrip(b: Seq<u8>)
    requires
        b.len() == 768,
    ensures
        bytes_of_hashes(decoded_hashes(b)) == b,
{
    lemma_decoded_prefix(b, 24);
    assert(decoded_hashes(b).take(24) =~= decoded_hashes(b));
    assert(b.take(768) =~= b);
}

impl Proof {
    /// A proof holds exactly 24 hashes of 32 bytes each.
    pub open spec fn wf(&self) -> bool {
        &&& self@.len() == 24
        &&& forall|i: int| 0 <= i < self@.len() ==> (#[trigger] self@[i]).len() == 32
    }

    /// Convert the proof into a byte vector: the 24 hashes concatenated in
    /// order, 768 bytes in total.
    pub fn as_bytes(&self) -> (r: Vec<u8>)
        requires
            self.wf(),
        ensures
            r@ == bytes_of_hashes(self@),
            r@.len() == 768,
    {
        proof {
            assert(self.hashes@.len() == self@.len());
        }
        let mut bytes: Vec<u8> = Vec::new();
        let mut i: usize = 0;
        while i < 24
            invariant
                self.wf(),
                self.hashes@.len() == 24,
                0 <= i <= 24,
                bytes@ == bytes_of_hashes(self@.take(i as int)),
            decreases 24 - i,
        {
            proof {
                assert(self@[i as int] == self.hashes@[i as int]@);
                assert(self@[i as int].len() == 32);
            }
            let h = &self.hashes[i];
            let mut j: usize = 0;
            while j < 32
                invariant
                    0 <= j <= 32,
                    h@.len() == 32,
                    h@ == self@[i as int],
                    0 <= i < 24,
                    bytes@ == bytes_of_hashes(self@.take(i as int)) + self@[i as int].take(
                        j as int,
                    ),
                decreases 32 - j,
            {
                bytes.push(h[j]);
                proof {
                    assert(self@[i as int].take(j + 1) =~= self@[i as int].take(j as int).push(
                        self@[i as int][j as int],
                    ));
                }
                j += 1;
            }
            proof {
                assert(self@[i as int].take(32) =~= self@[i as int]);
                assert(self@.take(i + 1).drop_last() =~= self@.take(i as int));
                assert(self@.take(i + 1).last() == self@[i as int]);
            }
            i += 1;
        }
        proof {
            assert(self@.take(24) =~= self@);
            lemma_bytes_of_hashes_len(self@);
        }
        bytes
    }

    /// Convert the proof into a vector of its 24 hashes, 32 bytes each.
    pub fn to_fixed_bytes(&self) -> (r: Vec<Vec<u8>>)
        requires
            self.wf(),
        ensures
            r@.len() == 24,
            forall|i: int| 0 <= i < 24 ==> (#[trigger] r@[i])@ == self@[i],
    {
        proof {
            assert(self.hashes@.len() == self@.len());
        }
        let mut out: Vec<Vec<u8>> = Vec::new();
        let mut i: usize = 0;
        while i < 24
            invariant
                self.wf(),
                self.hashes@.len() == 24,
                0 <= i <= 24,
                out@.len() == i,
                forall|k: int| 0 <= k < i ==> (#[trigger] out@[k])@ == self@[k],
            decreases 24 - i,
        {
            proof {
                assert(self@[i as int] == self.hashes@[i as int]@);
                assert(self@[i as int].len() == 32);
            }
            let h = &self.hashes[i];
            let mut copy: Vec<u8> = Vec::new();
            let mut j: usize = 0;
            while j < 32
                invariant
                    0 <= j <= 32,
                    h@.len() == 32,
                    h@ == self@[i as int],
                    0 <= i < 24,
                    copy@ == self@[i as int].take(j as int),
                decreases 32 - j,
            {
                copy.push(h[j]);
                proof {
                    assert(self@[i as int].take(j + 1) =~= self@[i as int].take(j as int).push(
                        self@[i as int][j as int],
                    ));
                }
                j += 1;
            }
            proof {
                assert(self@[i as int].take(32) =~= self@[i as int]);
            }
            out.push(copy);
            i += 1;
        }
        out
    }

    /// Convert a byte slice into a proof.
    ///
    /// Fails with [`ProofEncodingError::InvalidLength`], reporting the
    /// expected and the actual length, whenever the input is not exactly
    /// 768 bytes; every 768-byte input decodes successfully, and re-encoding
    /// the result gives back the input.
    pub fn try_from_slice(slice: &[u8]) -> (r: Result<Proof, ProofEncodingError>)
        ensures
            slice@.len() == 768 ==> (r matches Ok(p) && p.wf() && p@ == decoded_hashes(slice@)
                && bytes_of_hashes(p@) == slice@),
            slice@.len() != 768 ==> r == Err::<Proof, ProofEncodingError>(
                (ProofEncodingError::InvalidLength { expected: 768, got: slice@.len() as usize }),
            ),
    {
        if slice.len() != 768 {
            return Err(ProofEncodingError::InvalidLength { expected: 768, got: slice.len() });
        }
        let mut hashes: Vec<Vec<u8>> = Vec::new();
        let mut i: usize = 0;
        while i < 24
            invariant
                slice@.len() == 768,
                0 <= i <= 24,
                hashes@.len() == i,
                forall|k: int| 0 <= k < i ==> (#[trigger] hashes@[k])@ == slice@.subrange(
                    32 * k,
                    32 * k + 32,
                ),
            decreases 24 - i,
        {
            let mut h: Vec<u8> = Vec::new();
            let mut j: usize = 0;
            while j < 32
                invariant
                    slice@.len() == 768,
                    0 <= i < 24,
                    0 <= j <= 32,
                    h@ == slice@.subrange(32 * (i as int), 32 * (i as int) + (j as int)),
                decreases 32 - j,
            {
                h.push(slice[32 * i + j]);
                proof {
                    let a = 32 * (i as int);
                    assert(slice@.subrange(a, a + (j + 1)) =~= slice@.subrange(a, a + (j as int))
                        .push(slice@[a + j]));
                }
                j += 1;
            }
            hashes.push(h);
            i += 1;
        }
        let p = Proof { hashes };
        proof {
            assert forall|k: int| 0 <= k < 24 implies #[trigger] p@[k] == decoded_hashes(slice@)[k]
            by {
                assert(p@[k] == p.hashes@[k]@);
            }
            assert(p@ =~= decoded_hashes(slice@));
            lemma_decode_encode_roundtrip(slice@);
        }
        Ok(p)
    }
}

} // verus!
