//! Lossless conversion between a native path and its raw byte representation.
//!
//! On the host platform a filename is an arbitrary byte sequence, not
//! necessarily valid text. A [`NativePath`] therefore carries exactly those
//! bytes, and [`encode`] / [`decode`] convert between a path and its bytes
//! without any interpretation, so that a regex substitution can run on the
//! bytes and the result can be turned back into a path, losslessly.

use vstd::prelude::*;

verus! {

/// A native file-system path, modeled as the raw byte sequence that the
/// platform stores for it. Any byte sequence is a representable path value.
pub struct NativePath {
    pub bytes: Vec<u8>,
}

impl View for NativePath {
    type V = Seq<u8>;

    open spec fn view(&self) -> Seq<u8> {
        self.bytes@
    }
}

/// Copies a byte vector element by element.
pub fn copy_bytes(v: &Vec<u8>) -> (r: Vec<u8>)
    ensures
        r@ == v@,
{
    let mut r: Vec<u8> = Vec::new();
    let mut i: usize = 0;
    while i < v.len()
        invariant
            i <= v@.len(),
            r@ == v@.subrange(0, i as int),
        decreases v@.len() - i,
    {
        r.push(v[i]);
        i = i + 1;
    }
    assert(r@ == v@);
    r
}

/// Reports whether two byte vectors hold the same bytes.
pub fn bytes_equal(a: &Vec<u8>, b: &Vec<u8>) -> (r: bool)
    ensures
        r <==> a@ == b@,
{
    if a.len() != b.len() {
        assert(a@ != b@) by {
            assert(a@.len() != b@.len());
        }
        return false;
    }
    let mut i: usize = 0;
    while i < a.len()
        invariant
            i <= a@.len(),
            a@.len() == b@.len(),
            forall|j: int| 0 <= j < i ==> a@[j] == b@[j],
        decreases a@.len() - i,
    {
        if a[i] != b[i] {
            return false;
        }
        i = i + 1;
    }
    assert(a@ =~= b@);
    true
}

/// Encodes a native path as its raw bytes. Total: every path encodes, and the
/// bytes are exactly the path's own, so that `decode` can invert the step.
pub fn encode(p: &NativePath) -> (b: Vec<u8>)
    ensures
        b@ == p@,
{
    copy_bytes(&p.bytes)
}

/// Decodes raw bytes into a native path. Total on every byte sequence: no
/// text validity is required of the bytes.
pub fn decode(bytes: Vec<u8>) -> (p: NativePath)
    ensures
        p@ == bytes@,
{
    NativePath { bytes }
}

/// Law: the codec round-trips. If `b` is what `encode` returns on `p` and `q`
/// is what `decode` returns on `b` — which is exactly what their contracts
/// state of the two calls — then `q` carries the same bytes as `p`, for every
/// representable native path `p`.
pub proof fn lemma_codec_round_trip(p: NativePath, b: Vec<u8>, q: NativePath)
    requires
        b@ == p@,
        q@ == b@,
    ensures
        q@ == p@,
{
}

} // verus!
