//! Byte-pattern scanning: an ordered set of signatures, tested for exact
//! contiguous occurrence anywhere in a buffer. The per-signature containment
//! check is verified; the fan-out across signatures is data-parallel with no
//! shared mutable state, so the boolean result is independent of order.

use vstd::prelude::*;

use crate::errors::CryptoError;
use crate::hexfmt::{hex_to_bytes, hex_val, is_hex};

verus! {

/// The pattern occurs in the buffer starting at offset `i`.
pub open spec fn matches_at(data: Seq<u8>, pat: Seq<u8>, i: int) -> bool {
    &&& 0 <= i
    &&& i + pat.len() <= data.len()
    &&& forall|j: int| 0 <= j < pat.len() ==> data[i + j] == #[trigger] pat[j]
}

/// The pattern occurs as a contiguous byte run somewhere in the buffer.
pub open spec fn has_pattern(data: Seq<u8>, pat: Seq<u8>) -> bool {
    exists|i: int| matches_at(data, pat, i)
}

/// At least one of the signatures occurs in the buffer.
pub open spec fn any_signature_matches(sigs: Seq<Seq<u8>>, data: Seq<u8>) -> bool {
    exists|k: int| 0 <= k < sigs.len() && has_pattern(data, #[trigger] sigs[k])
}

/// An empty signature set never matches any buffer.
pub proof fn lemma_empty_signature_set(data: Seq<u8>)
    ensures
        !any_signature_matches(Seq::<Seq<u8>>::empty(), data),
{
}

/// A signature longer than the buffer never occurs in it.
pub proof fn lemma_long_signature_never_matches(data: Seq<u8>, pat: Seq<u8>)
    requires
        pat.len() > data.len(),
    ensures
        !has_pattern(data, pat),
{
    assert forall|i: int| !matches_at(data, pat, i) by {
        if 0 <= i {
            assert(i + pat.len() > data.len());
        }
    }
}

/// Whether the pattern occurs at offset `i` of the buffer, by exact byte
/// comparison over the pattern's full length.
fn pattern_at(data: &Vec<u8>, pat: &Vec<u8>, i: usize) -> (r: bool)
    requires
        i + pat@.len() <= data@.len(),
    ensures
        r == matches_at(data@, pat@, i as int),
{
    proof {
        assert(data@.len() == data.len());
    }
    let mut j: usize = 0;
    while j < pat.len()
        invariant
            i + pat@.len() <= data@.len(),
            data@.len() <= usize::MAX,
            j <= pat@.len(),
            forall|l: int| 0 <= l < j ==> data@[i + l] == #[trigger] pat@[l],
        decreases pat@.len() - j,
    {
        if data[i + j] != pat[j] {
            assert(!matches_at(data@, pat@, i as int));
            return false;
        }
        j += 1;
    }
    true
}

/// Whether the pattern occurs as a contiguous byte run anywhere in the
/// buffer. An empty pattern occurs trivially; a pattern longer than the
/// buffer never does.
pub fn find_pattern(data: &Vec<u8>, pat: &Vec<u8>) -> (r: bool)
    ensures
        r == has_pattern(data@, pat@),
{
    if pat.len() > data.len() {
        proof {
            lemma_long_signature_never_matches(data@, pat@);
        }
        return false;
    }
    if pat.len() == 0 {
        proof {
            assert(matches_at(data@, pat@, 0));
        }
        return true;
    }
    let end: usize = data.len() - pat.len();
    let mut i: usize = 0;
    while i <= end
        invariant
            1 <= pat@.len() <= data@.len(),
            data@.len() <= usize::MAX,
            end == data@.len() - pat@.len(),
            i <= end + 1,
            forall|k: int| 0 <= k < i ==> !matches_at(data@, pat@, k),
        decreases end + 1 - i,
    {
        if pattern_at(data, pat, i) {
            return true;
        }
        i += 1;
    }
    proof {
        assert forall|k: int| !matches_at(data@, pat@, k) by {
            if matches_at(data@, pat@, k) {
                assert(0 <= k && k + pat@.len() <= data@.len());
                assert(k < i);
            }
        }
    }
    false
}

/// Relies on rayon's parallel iterator (par_iter().any): each signature is
/// tested independently by the verified `find_pattern` with no shared mutable
/// state, and `any` returns whether some signature matched, which is the same
/// boolean whatever the evaluation order.
#[verifier::external_body]
fn par_any_signature(sigs: &Vec<Vec<u8>>, data: &Vec<u8>) -> (r: bool)
    ensures
        r == any_signature_matches(sigs.deep_view(), data@),
{
    rayon::iter::ParallelIterator::any(
        rayon::iter::IntoParallelRefIterator::par_iter(sigs),
        |sig: &Vec<u8>| find_pattern(data, sig),
    )
}

/// An ordered, duplicate-keeping collection of byte-pattern signatures,
/// grown only by explicit addition and scanned against in-memory buffers.
pub struct MemoryScanner {
    signatures: Vec<Vec<u8>>,
}

impl MemoryScanner {
    /// The signatures this scanner holds, in insertion order.
    pub closed spec fn sigs(self) -> Seq<Seq<u8>> {
        self.signatures.deep_view()
    }

    /// A scanner with an empty signature set.
    pub fn new() -> (r: Self)
        ensures
            r.sigs() == Seq::<Seq<u8>>::empty(),
    {
        let r = MemoryScanner { signatures: Vec::new() };
        proof {
            assert(r.sigs() =~= Seq::<Seq<u8>>::empty());
        }
        r
    }

    /// Decode a hex-encoded pattern and append it to the signature set;
    /// rejected exactly when the string is not valid hex, leaving the set
    /// unchanged.
    pub fn add_signature(&mut self, signature: String) -> (r: Result<(), CryptoError>)
        ensures
            is_hex(signature@) ==> r is Ok && final(self).sigs() == old(self).sigs().push(
                hex_val(signature@),
            ),
            !is_hex(signature@) ==> final(self).sigs() == old(self).sigs() && (r matches Err(e)
                && e == CryptoError::Validation),
    {
        let bytes = match hex_to_bytes(signature.as_str()) {
            Some(b) => b,
            None => {
                return Err(CryptoError::Validation);
            },
        };
        let ghost prev = self.signatures.deep_view();
        let ghost added = bytes@;
        self.signatures.push(bytes);
        proof {
            assert forall|k: int| 0 <= k < self.signatures@.len() implies self.sigs()[k]
                =~= prev.push(added)[k] by {
                if k < prev.len() {
                    assert(self.signatures@[k] == old(self).signatures@[k]);
                }
            }
            assert(self.sigs() =~~= prev.push(hex_val(signature@)));
        }
        Ok(())
    }

    /// Whether at least one signature occurs as a contiguous byte run in the
    /// buffer; false on an empty signature set. The signatures are tested in
    /// parallel, which cannot change the result.
    pub fn scan_data(&self, data: &Vec<u8>) -> (r: bool)
        ensures
            r == any_signature_matches(self.sigs(), data@),
    {
        par_any_signature(&self.signatures, data)
    }
}

} // verus!
