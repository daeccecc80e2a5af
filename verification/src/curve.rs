//! Conversion of an affine curve point between two independent curve-point
//! representations whose coordinate fields share the same prime modulus and
//! internal encoding.
//!
//! A finite point's coordinates are carried as the four little-endian 64-bit
//! limbs of the field element's raw representation; the conversion re-encodes
//! each coordinate as the 32 raw little-endian bytes the target library's
//! field constructor expects, with no modular reduction. The point at
//! infinity maps to the target's defined identity value, never to a
//! coordinate-wise encoding.

use vstd::bytes::{
    lemma_auto_spec_u64_to_from_le_bytes, spec_u64_from_le_bytes, spec_u64_to_le_bytes,
    u64_from_le_bytes, u64_to_le_bytes,
};
use vstd::prelude::*;
use vstd::slice::slice_subrange;

verus! {

/// A source-library affine point, as the conversion reads it: the infinity
/// marker and the raw limbs of each coordinate.
pub struct SourcePointRepr {
    pub infinity: bool,
    pub x: Vec<u64>,
    pub y: Vec<u64>,
}

impl SourcePointRepr {
    /// Each coordinate has exactly four 64-bit limbs.
    pub open spec fn wf(self) -> bool {
        self.x@.len() == 4 && self.y@.len() == 4
    }
}

/// A target-library affine point: either the library's identity value or a
/// finite point whose coordinates are raw 32-byte strings.
pub enum TargetPointRepr {
    Identity,
    Finite { x: Vec<u8>, y: Vec<u8> },
}

impl TargetPointRepr {
    pub open spec fn wf(self) -> bool {
        self matches TargetPointRepr::Finite { x, y } ==> x@.len() == 32 && y@.len() == 32
    }
}

/// The raw byte string of a coordinate: its limbs, least significant first,
/// each spelled as eight little-endian bytes.
pub open spec fn spec_limbs_to_bytes(limbs: Seq<u64>) -> Seq<u8>
    decreases limbs.len(),
{
    if limbs.len() == 0 {
        Seq::empty()
    } else {
        spec_u64_to_le_bytes(limbs[0]) + spec_limbs_to_bytes(limbs.drop_first())
    }
}

/// The inverse reading: each aligned group of eight bytes is one limb.
pub open spec fn spec_bytes_to_limbs(bytes: Seq<u8>) -> Seq<u64>
    decreases bytes.len(),
{
    if bytes.len() < 8 {
        Seq::empty()
    } else {
        seq![spec_u64_from_le_bytes(bytes.take(8))] + spec_bytes_to_limbs(bytes.skip(8))
    }
}

proof fn lemma_limbs_to_bytes_len(limbs: Seq<u64>)
    ensures
        spec_limbs_to_bytes(limbs).len() == 8 * limbs.len(),
    decreases limbs.len(),
{
    lemma_auto_spec_u64_to_from_le_bytes();
    if limbs.len() > 0 {
        lemma_limbs_to_bytes_len(limbs.drop_first());
    }
}

/// Re-encoding a coordinate's limbs as raw bytes and reading them back gives
/// the original limbs: the byte encoding loses nothing.
pub proof fn lemma_limbs_bytes_round_trip(limbs: Seq<u64>)
    ensures
        spec_bytes_to_limbs(spec_limbs_to_bytes(limbs)) == limbs,
    decreases limbs.len(),
{
    lemma_auto_spec_u64_to_from_le_bytes();
    if limbs.len() == 0 {
        assert(spec_bytes_to_limbs(spec_limbs_to_bytes(limbs)) =~= limbs);
    } else {
        let bytes = spec_limbs_to_bytes(limbs);
        lemma_limbs_to_bytes_len(limbs.drop_first());
        assert(bytes.take(8) =~= spec_u64_to_le_bytes(limbs[0]));
        assert(bytes.skip(8) =~= spec_limbs_to_bytes(limbs.drop_first()));
        lemma_limbs_bytes_round_trip(limbs.drop_first());
        assert(spec_bytes_to_limbs(bytes) =~= limbs);
    }
}

/// Spell a coordinate's limbs as its raw little-endian byte string.
pub fn limbs_to_bytes(limbs: &Vec<u64>) -> (r: Vec<u8>)
    ensures
        r@ == spec_limbs_to_bytes(limbs@),
        r@.len() == 8 * limbs@.len(),
{
    let mut out: Vec<u8> = Vec::new();
    let mut i: usize = 0;
    proof {
        lemma_limbs_to_bytes_len(limbs@);
    }
    while i < limbs.len()
        invariant
            i <= limbs@.len(),
            out@ =~= spec_limbs_to_bytes(limbs@.take(i as int)),
            out@.len() == 8 * i,
        decreases limbs@.len() - i,
    {
        let mut piece = u64_to_le_bytes(limbs[i]);
        out.append(&mut piece);
        i = i + 1;
        proof {
            lemma_limbs_to_bytes_append(limbs@.take(i as int));
            assert(limbs@.take(i as int).drop_last() =~= limbs@.take(i - 1));
            assert(out@ =~= spec_limbs_to_bytes(limbs@.take(i as int)));
            lemma_limbs_to_bytes_len(limbs@.take(i as int));
        }
    }
    proof {
        assert(limbs@.take(limbs@.len() as int) =~= limbs@);
    }
    out
}

/// Unfolding from the back: the encoding of a non-empty limb sequence is the
/// encoding of its front followed by the last limb's bytes.
proof fn lemma_limbs_to_bytes_append(limbs: Seq<u64>)
    requires
        limbs.len() > 0,
    ensures
        spec_limbs_to_bytes(limbs) == spec_limbs_to_bytes(limbs.drop_last()) + spec_u64_to_le_bytes(
            limbs.last(),
        ),
    decreases limbs.len(),
{
    if limbs.len() == 1 {
        assert(spec_limbs_to_bytes(limbs.drop_first()) =~= Seq::<u8>::empty());
        assert(spec_limbs_to_bytes(limbs.drop_last()) =~= Seq::<u8>::empty());
        assert(spec_limbs_to_bytes(limbs) =~= spec_limbs_to_bytes(limbs.drop_last())
            + spec_u64_to_le_bytes(limbs.last()));
    } else {
        lemma_limbs_to_bytes_append(limbs.drop_first());
        assert(limbs.drop_first().drop_last() =~= limbs.drop_last().drop_first());
        assert(limbs.drop_first().last() == limbs.last());
        assert(spec_limbs_to_bytes(limbs) =~= spec_limbs_to_bytes(limbs.drop_last())
            + spec_u64_to_le_bytes(limbs.last()));
    }
}

/// Read a raw byte string back into coordinate limbs.
pub fn bytes_to_limbs(bytes: &Vec<u8>) -> (r: Vec<u64>)
    requires
        bytes@.len() % 8 == 0,
    ensures
        r@ == spec_bytes_to_limbs(bytes@),
        r@.len() == bytes@.len() / 8,
{
    let mut out: Vec<u64> = Vec::new();
    let mut i: usize = 0;
    proof {
        assert(bytes@.skip(0) =~= bytes@);
        assert(spec_bytes_to_limbs(bytes@) =~= Seq::<u64>::empty() + spec_bytes_to_limbs(
            bytes@.skip(0),
        ));
    }
    while bytes.len() - i >= 8
        invariant
            bytes@.len() % 8 == 0,
            i % 8 == 0,
            i <= bytes@.len(),
            out@.len() == i / 8,
            spec_bytes_to_limbs(bytes@) =~= out@ + spec_bytes_to_limbs(bytes@.skip(i as int)),
        decreases bytes@.len() - i,
    {
        let piece = slice_subrange(bytes.as_slice(), i, i + 8);
        let limb = u64_from_le_bytes(piece);
        out.push(limb);
        proof {
            assert(bytes@.skip(i as int).take(8) =~= bytes@.subrange(i as int, i + 8));
            assert(bytes@.skip(i as int).skip(8) =~= bytes@.skip(i + 8));
        }
        i = i + 8;
    }
    proof {
        assert(i == bytes@.len());
        assert(bytes@.skip(i as int) =~= Seq::<u8>::empty());
        assert(spec_bytes_to_limbs(bytes@) =~= out@);
    }
    out
}

/// Convert a source-library affine point into the target representation.
/// Infinity becomes the target's identity value; a finite point's
/// coordinates are re-encoded byte-for-byte, with no reduction.
pub fn convert_point_repr(p: &SourcePointRepr) -> (r: TargetPointRepr)
    requires
        p.wf(),
    ensures
        r.wf(),
        p.infinity ==> r is Identity,
        !p.infinity ==> (r matches TargetPointRepr::Finite { x, y } && x@ == spec_limbs_to_bytes(
            p.x@,
        ) && y@ == spec_limbs_to_bytes(p.y@)),
{
    if p.infinity {
        TargetPointRepr::Identity
    } else {
        let x = limbs_to_bytes(&p.x);
        let y = limbs_to_bytes(&p.y);
        TargetPointRepr::Finite { x, y }
    }
}

/// The inverse mapping: the identity becomes the source's infinity marker
/// (with zero coordinates), and a finite point's coordinate bytes are read
/// back into limbs.
pub fn recover_point_repr(r: &TargetPointRepr) -> (p: SourcePointRepr)
    requires
        r.wf(),
    ensures
        p.wf(),
        r is Identity <==> p.infinity,
        r matches TargetPointRepr::Finite { x, y } ==> p.x@ == spec_bytes_to_limbs(x@) && p.y@
            == spec_bytes_to_limbs(y@),
{
    match r {
        TargetPointRepr::Identity => {
            let zero: Vec<u64> = vec![0u64, 0u64, 0u64, 0u64];
            let zero2: Vec<u64> = vec![0u64, 0u64, 0u64, 0u64];
            SourcePointRepr { infinity: true, x: zero, y: zero2 }
        },
        TargetPointRepr::Finite { x, y } => {
            let xl = bytes_to_limbs(x);
            let yl = bytes_to_limbs(y);
            SourcePointRepr { infinity: false, x: xl, y: yl }
        },
    }
}

/// Round-trip law: converting a finite point and mapping it back yields the
/// original coordinate limbs, and the infinity point maps to the identity
/// value and back to infinity.
pub proof fn lemma_point_conversion_round_trip(p: SourcePointRepr, q: TargetPointRepr)
    requires
        p.wf(),
        q.wf(),
        p.infinity ==> q is Identity,
        !p.infinity ==> (q matches TargetPointRepr::Finite { x, y } && x@ == spec_limbs_to_bytes(
            p.x@,
        ) && y@ == spec_limbs_to_bytes(p.y@)),
    ensures
        p.infinity ==> q is Identity,
        !p.infinity ==> (q matches TargetPointRepr::Finite { x, y }
            && spec_bytes_to_limbs(x@) == p.x@
            && spec_bytes_to_limbs(y@) == p.y@),
{
    if !p.infinity {
        lemma_limbs_bytes_round_trip(p.x@);
        lemma_limbs_bytes_round_trip(p.y@);
    }
}

} // verus!
