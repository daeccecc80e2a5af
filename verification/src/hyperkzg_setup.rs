//! Construction of the prover setup from a trusted-setup byte stream.
//!
//! A trusted-setup file is a flat sequence of 32-byte compressed source-curve
//! points. Each is deserialized and validated by the source curve library
//! and read out as the library's own point representation; every point is
//! also converted into the target library's representation, from which the
//! caller builds the target commitment key and derives the verifier key.
//! The unconverted points are the prover setup, in stream order.

use vstd::prelude::*;
use vstd::slice::slice_subrange;

use ark_serialize::CanonicalDeserialize;
use halo2curves::serde::SerdeObject;

use crate::bench_runner::BenchRunError;
use crate::curve::{convert_point_repr, SourcePointRepr, TargetPointRepr};

verus! {

/// The size of one compressed source-curve point in a trusted-setup stream.
pub const COMPRESSED_POINT_BYTES: usize = 32;

#[verifier::external_type_specification]
#[verifier::external_body]
pub struct ExHalo2G1Affine(halo2curves::bn256::G1Affine);

/// Whether 32 bytes are a valid compressed source-curve point.
pub uninterp spec fn source_point_parses(chunk: Seq<u8>) -> bool;

/// The coordinate limbs (x, then y) of the point a valid chunk denotes.
pub uninterp spec fn source_point_of(chunk: Seq<u8>) -> (Seq<u64>, Seq<u64>);

/// Relies on ark-serialize's `deserialize_compressed` on the source curve's
/// affine points: validation and the decoded point are functions of the 32
/// input bytes alone. Success is exactly a valid encoding; on success the
/// raw limbs of each coordinate are read out.
#[verifier::external_body]
fn source_point_limbs_from_compressed(bytes: &[u8]) -> (r: Result<(Vec<u64>, Vec<u64>), String>)
    requires
        bytes@.len() == COMPRESSED_POINT_BYTES,
    ensures
        r is Ok <==> source_point_parses(bytes@),
        r matches Ok(p) ==> {
            &&& p.0@ == source_point_of(bytes@).0
            &&& p.1@ == source_point_of(bytes@).1
            &&& p.0@.len() == 4
            &&& p.1@.len() == 4
        },
{
    match ark_bn254::G1Affine::deserialize_compressed(bytes) {
        Ok(p) => Ok(((p.x.0).0.to_vec(), (p.y.0).0.to_vec())),
        Err(err) => Err(err.to_string()),
    }
}

/// The source library marks the point at infinity in a compressed encoding by
/// the second-highest bit of the final byte.
pub const INFINITY_FLAG_MASK: u8 = 0x40;

/// What the point decoded from one valid chunk is: the named coordinate
/// limbs, with the infinity marker read from the encoding's flag bit.
pub open spec fn spec_decoded_point(chunk: Seq<u8>, p: SourcePointRepr) -> bool {
    &&& p.x@ == source_point_of(chunk).0
    &&& p.y@ == source_point_of(chunk).1
    &&& p.infinity == ((chunk[31] & INFINITY_FLAG_MASK) != 0)
}

/// Deserialize one compressed source point into the library's representation.
/// Exactly the valid encodings succeed, and the decoded point carries the
/// named limbs and the encoding's infinity flag.
fn source_point_from_compressed(bytes: &[u8]) -> (r: Result<SourcePointRepr, String>)
    requires
        bytes@.len() == COMPRESSED_POINT_BYTES,
    ensures
        r is Ok <==> source_point_parses(bytes@),
        r matches Ok(p) ==> p.wf() && spec_decoded_point(bytes@, p),
{
    match source_point_limbs_from_compressed(bytes) {
        Ok((x, y)) => {
            let infinity = bytes[COMPRESSED_POINT_BYTES - 1] & INFINITY_FLAG_MASK != 0;
            Ok(SourcePointRepr { infinity, x, y })
        },
        Err(message) => Err(message),
    }
}

/// The target-library affine point whose coordinates have the given raw
/// 32-byte representations.
pub uninterp spec fn target_point_of(
    x: Seq<u8>,
    y: Seq<u8>,
) -> halo2curves::bn256::G1Affine;

/// The all-zero raw coordinate: the raw spelling of the field's zero.
pub open spec fn spec_zero_coord() -> Seq<u8> {
    Seq::new(32, |i: int| 0u8)
}

/// Relies on the target curve library's raw-byte field constructor
/// (`from_raw_bytes_unchecked`): each 32-byte coordinate is read as four
/// little-endian limbs, raw, with no reduction, so the built point is a
/// function of the coordinate bytes alone.
#[verifier::external_body]
fn target_point_from_raw_coords(x: &[u8], y: &[u8]) -> (r: halo2curves::bn256::G1Affine)
    requires
        x@.len() == 32,
        y@.len() == 32,
    ensures
        r == target_point_of(x@, y@),
{
    halo2curves::bn256::G1Affine {
        x: halo2curves::bn256::Fq::from_raw_bytes_unchecked(x),
        y: halo2curves::bn256::Fq::from_raw_bytes_unchecked(y),
    }
}

/// Relies on the target curve library's `Default` for its affine point: the
/// defined identity value, whose coordinates are both the field's zero —
/// the very value the raw-byte constructor builds from all-zero coordinate
/// bytes, since the raw spelling of zero is all zero bytes.
#[verifier::external_body]
fn target_point_identity() -> (r: halo2curves::bn256::G1Affine)
    ensures
        r == target_point_of(spec_zero_coord(), spec_zero_coord()),
{
    halo2curves::bn256::G1Affine::default()
}

/// The target-library value one source point converts to: the identity value
/// for infinity — never an encoding of the stored coordinates — and the raw
/// re-encoding of the coordinate limbs, with no reduction, for a finite
/// point.
pub open spec fn spec_converted_point(p: SourcePointRepr) -> halo2curves::bn256::G1Affine {
    if p.infinity {
        target_point_of(spec_zero_coord(), spec_zero_coord())
    } else {
        target_point_of(
            crate::curve::spec_limbs_to_bytes(p.x@),
            crate::curve::spec_limbs_to_bytes(p.y@),
        )
    }
}

/// Convert one source-library point into the target library's affine point:
/// infinity becomes the target's identity value, a finite point is re-encoded
/// coordinate-wise through the verified byte conversion.
pub fn convert_to_halo2_bn256_g1_affine(p: &SourcePointRepr) -> (r: halo2curves::bn256::G1Affine)
    requires
        p.wf(),
    ensures
        r == spec_converted_point(*p),
{
    match convert_point_repr(p) {
        TargetPointRepr::Identity => target_point_identity(),
        TargetPointRepr::Finite { x, y } => target_point_from_raw_coords(
            x.as_slice(),
            y.as_slice(),
        ),
    }
}

/// The prover setup: the deserialized source-library points (what proofs are
/// generated with) paired with their target-library conversions (what the
/// commitment key, and from it the verifier key, is built from).
///
/// That a proof generated with the prover points verifies against the key
/// derived from the converted points is a property of the outside proof
/// scheme, and is not stated here.
pub struct CommitmentSetup {
    pub prover_points: Vec<SourcePointRepr>,
    pub converted_points: Vec<halo2curves::bn256::G1Affine>,
}

impl CommitmentSetup {
    /// One converted point per prover point, every point well-formed.
    pub open spec fn wf(self) -> bool {
        &&& self.converted_points@.len() == self.prover_points@.len()
        &&& forall|i: int|
            0 <= i < self.prover_points@.len() ==> (#[trigger] self.prover_points@[i]).wf()
    }
}

/// The `i`-th 32-byte chunk of a setup stream.
pub open spec fn spec_chunk(bytes: Seq<u8>, i: int) -> Seq<u8> {
    bytes.subrange(32 * i, 32 * i + 32)
}

/// A whole stream is valid when its length is a whole number of chunks and
/// every chunk is a valid compressed point.
pub open spec fn spec_stream_parses(bytes: Seq<u8>) -> bool {
    &&& bytes.len() % 32 == 0
    &&& forall|i: int|
        0 <= i < bytes.len() / 32 ==> #[trigger] source_point_parses(spec_chunk(bytes, i))
}

/// Deserialize a flat trusted-setup byte stream. Exactly the valid streams
/// succeed: trailing bytes or an invalid point are a setup failure. On
/// success the `i`-th prover point is the decoded point of the `i`-th
/// chunk, in stream order, each paired with its target-library conversion.
pub fn load_setup_from_bytes(bytes: &[u8]) -> (r: Result<CommitmentSetup, BenchRunError>)
    ensures
        r is Ok <==> spec_stream_parses(bytes@),
        r matches Ok(s) ==> {
            &&& s.wf()
            &&& s.prover_points@.len() == bytes@.len() / 32
            &&& forall|i: int|
                0 <= i < s.prover_points@.len() ==> spec_decoded_point(
                    spec_chunk(bytes@, i),
                    #[trigger] s.prover_points@[i],
                )
            &&& forall|i: int|
                0 <= i < s.prover_points@.len() ==> #[trigger] s.converted_points@[i]
                    == spec_converted_point(s.prover_points@[i])
        },
        r matches Err(e) ==> e is Setup,
{
    if bytes.len() % COMPRESSED_POINT_BYTES != 0 {
        return Err(
            BenchRunError::Setup("trusted setup stream is not a whole number of points".to_owned()),
        );
    }
    let mut prover_points: Vec<SourcePointRepr> = Vec::new();
    let mut converted_points: Vec<halo2curves::bn256::G1Affine> = Vec::new();
    let mut off: usize = 0;
    while off < bytes.len()
        invariant
            bytes@.len() % 32 == 0,
            off % 32 == 0,
            off <= bytes@.len(),
            prover_points@.len() == off / 32,
            converted_points@.len() == prover_points@.len(),
            forall|k: int|
                0 <= k < prover_points@.len() ==> (#[trigger] prover_points@[k]).wf(),
            forall|k: int|
                0 <= k < prover_points@.len() ==> #[trigger] source_point_parses(
                    spec_chunk(bytes@, k),
                ),
            forall|k: int|
                0 <= k < prover_points@.len() ==> spec_decoded_point(
                    spec_chunk(bytes@, k),
                    #[trigger] prover_points@[k],
                ),
            forall|k: int|
                0 <= k < prover_points@.len() ==> #[trigger] converted_points@[k]
                    == spec_converted_point(prover_points@[k]),
        decreases bytes@.len() - off,
    {
        let ghost idx: int = off as int / 32;
        proof {
            assert(off == 32 * idx);
            assert(off + COMPRESSED_POINT_BYTES <= bytes@.len());
        }
        let chunk = slice_subrange(bytes, off, off + COMPRESSED_POINT_BYTES);
        proof {
            assert(chunk@ =~= spec_chunk(bytes@, idx));
        }
        match source_point_from_compressed(chunk) {
            Ok(p) => {
                let converted = convert_to_halo2_bn256_g1_affine(&p);
                prover_points.push(p);
                converted_points.push(converted);
            },
            Err(message) => {
                proof {
                    assert(!source_point_parses(spec_chunk(bytes@, idx)));
                    assert(idx < bytes@.len() / 32);
                    assert(!spec_stream_parses(bytes@));
                }
                return Err(BenchRunError::Setup(message));
            },
        }
        off = off + COMPRESSED_POINT_BYTES;
    }
    proof {
        assert(off == bytes@.len());
        assert(spec_stream_parses(bytes@));
    }
    Ok(CommitmentSetup { prover_points, converted_points })
}

} // verus!
