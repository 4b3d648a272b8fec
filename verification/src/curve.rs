//! The trusted boundary to the elliptic-curve, hashing and proof-system
//! collaborators.
//!
//! Curve points, curve scalars and proof objects are opaque to the
//! verifier. Each operation the validation logic relies on is given an
//! abstract name (an uninterpreted spec function), and one wrapper per
//! outside function relates the call to its name. Everything above this
//! module is verified against those names.

use vstd::prelude::*;

use group::Curve;
use group::GroupEncoding;

verus! {

#[verifier::external_type_specification]
#[verifier::external_body]
pub struct ExExtendedPoint(jubjub::ExtendedPoint);

#[verifier::external_type_specification]
#[verifier::external_body]
pub struct ExFr(jubjub::Fr);

#[verifier::external_type_specification]
#[verifier::external_body]
pub struct ExScalar(bls12_381::Scalar);

#[verifier::external_type_specification]
#[verifier::external_body]
pub struct ExBls12(bls12_381::Bls12);

/// An opaque proof object of the proof-verification backend.
///
/// The backend's own proof type is generic over an engine whose trait the
/// verifier refuses to see through, so the object is held in an opaque
/// struct and built from its serialized form.
#[verifier::external_body]
pub struct GrothProof {
    inner: bellman::groth16::Proof<bls12_381::Bls12>,
}

/// An opaque prepared verifying key of the proof-verification backend,
/// held opaquely for the same reason as `GrothProof`.
#[verifier::external_body]
pub struct GrothVerifyingKey {
    inner: bellman::groth16::PreparedVerifyingKey<bls12_381::Bls12>,
}

/// The sum of two curve points.
pub uninterp spec fn pt_add(a: jubjub::ExtendedPoint, b: jubjub::ExtendedPoint) -> jubjub::ExtendedPoint;

/// The difference of two curve points.
pub uninterp spec fn pt_sub(a: jubjub::ExtendedPoint, b: jubjub::ExtendedPoint) -> jubjub::ExtendedPoint;

/// The negation of a curve point.
pub uninterp spec fn pt_neg(a: jubjub::ExtendedPoint) -> jubjub::ExtendedPoint;

/// The scalar multiple of a curve point.
pub uninterp spec fn pt_mul(p: jubjub::ExtendedPoint, s: jubjub::Fr) -> jubjub::ExtendedPoint;

/// The point multiplied by the cofactor of the curve.
pub uninterp spec fn pt_mul_cofactor(p: jubjub::ExtendedPoint) -> jubjub::ExtendedPoint;

/// Whether the point is the neutral element of the curve group.
pub uninterp spec fn pt_is_identity(p: jubjub::ExtendedPoint) -> bool;

/// Whether the point lies in the small-order (torsion) subgroup.
pub uninterp spec fn pt_is_small_order(p: jubjub::ExtendedPoint) -> bool;

/// The canonical 32-byte encoding of a curve point.
pub uninterp spec fn pt_bytes(p: jubjub::ExtendedPoint) -> Seq<u8>;

/// The point encoded by 32 bytes under the canonical rules, if any.
pub uninterp spec fn pt_decode(b: Seq<u8>) -> Option<jubjub::ExtendedPoint>;

/// The point encoded by 32 bytes under the legacy rules that also accept
/// the two historical non-canonical encodings, if any.
pub uninterp spec fn pt_decode_legacy(b: Seq<u8>) -> Option<jubjub::ExtendedPoint>;

/// The curve point with the affine coordinates given as raw 64-bit limbs.
pub uninterp spec fn pt_from_coords(u: Seq<u64>, v: Seq<u64>) -> jubjub::ExtendedPoint;

/// The affine u-coordinate of a point, as a field element of the proof
/// system.
pub uninterp spec fn pt_affine_u(p: jubjub::ExtendedPoint) -> bls12_381::Scalar;

/// The affine v-coordinate of a point, as a field element of the proof
/// system.
pub uninterp spec fn pt_affine_v(p: jubjub::ExtendedPoint) -> bls12_381::Scalar;

/// The curve scalar encoded canonically by 32 little-endian bytes, if the
/// value is below the group order.
pub uninterp spec fn fr_from_bytes(b: Seq<u8>) -> Option<jubjub::Fr>;

/// The curve scalar obtained by reducing 64 little-endian bytes modulo the
/// group order.
pub uninterp spec fn fr_from_wide(b: Seq<u8>) -> jubjub::Fr;

/// The curve scalar with the given small integer value.
pub uninterp spec fn fr_of_u64(v: u64) -> jubjub::Fr;

/// The 64-byte personalized hash digest of a byte string.
pub uninterp spec fn blake2b_of(person: Seq<u8>, data: Seq<u8>) -> Seq<u8>;

/// The fixed little-endian packing of a bit string into field elements of
/// the proof system.
pub uninterp spec fn multipack_of(bits: Seq<bool>) -> Seq<bls12_381::Scalar>;

/// Whether the proof system accepts a proof for the given prepared
/// verifying key and public inputs.
pub uninterp spec fn groth16_accepts(
    vk: GrothVerifyingKey,
    proof: GrothProof,
    inputs: Seq<bls12_381::Scalar>,
) -> bool;

/// The proof object encoded by a byte string, if it parses.
pub uninterp spec fn groth_proof_read(bytes: Seq<u8>) -> Option<GrothProof>;

/// The prepared verifying key encoded by a byte string, if it parses.
pub uninterp spec fn groth_vk_read(bytes: Seq<u8>) -> Option<GrothVerifyingKey>;

/// Whether a value is a well-formed representation of a point on the
/// curve. The curve type does not enforce this: its unchecked raw
/// constructor admits off-curve coordinates, and the algebraic laws and
/// the canonical encoding are only guaranteed for curve points.
pub uninterp spec fn pt_valid(p: jubjub::ExtendedPoint) -> bool;

/// Whether two values encode the same point of the curve. A point has
/// several projective representations but exactly one canonical
/// encoding, so the encodings decide.
pub open spec fn pt_same(a: jubjub::ExtendedPoint, b: jubjub::ExtendedPoint) -> bool {
    pt_bytes(a) == pt_bytes(b)
}

/// The fixed generator against which spend authorization signatures are
/// verified, by its affine coordinates.
pub open spec fn spec_spend_auth_generator() -> jubjub::ExtendedPoint {
    pt_from_coords(
        seq![
            0x47bf_4692_0a95_a753u64, 0xd5b9_a7d3_ef8e_2827u64, 0xd418_a7ff_2675_3b6au64,
            0x0926_d4f3_2059_c712u64,
        ],
        seq![
            0x3056_32ad_aaf2_b530u64, 0x6d65_674d_cedb_ddbcu64, 0x53bb_37d0_c21c_fd05u64,
            0x57a1_019e_6de9_b675u64,
        ],
    )
}

/// The fixed generator against which spend authorization signatures are
/// verified.
pub fn spend_auth_generator() -> (r: jubjub::ExtendedPoint)
    ensures
        r == spec_spend_auth_generator(),
{
    let u: [u64; 4] = [
        0x47bf_4692_0a95_a753,
        0xd5b9_a7d3_ef8e_2827,
        0xd418_a7ff_2675_3b6a,
        0x0926_d4f3_2059_c712,
    ];
    let v: [u64; 4] = [
        0x3056_32ad_aaf2_b530,
        0x6d65_674d_cedb_ddbc,
        0x53bb_37d0_c21c_fd05,
        0x57a1_019e_6de9_b675,
    ];
    let r = point_from_raw(&u, &v);
    proof {
        assert(u@ =~= seq![
            0x47bf_4692_0a95_a753u64, 0xd5b9_a7d3_ef8e_2827u64, 0xd418_a7ff_2675_3b6au64,
            0x0926_d4f3_2059_c712u64,
        ]);
        assert(v@ =~= seq![
            0x3056_32ad_aaf2_b530u64, 0x6d65_674d_cedb_ddbcu64, 0x53bb_37d0_c21c_fd05u64,
            0x57a1_019e_6de9_b675u64,
        ]);
    }
    r
}

/// The fixed generator that commits to the value of a note, by its affine
/// coordinates.
pub open spec fn spec_value_commitment_value_generator() -> jubjub::ExtendedPoint {
    pt_from_coords(
        seq![
            0x3618_3b2c_b4d7_ef51u64, 0x9472_c89a_c043_042du64, 0xd861_8ed1_d15f_ef4eu64,
            0x273f_910d_9ecc_1615u64,
        ],
        seq![
            0xa77a_81f5_0667_c8d7u64, 0xbc33_32d0_fa1c_cd18u64, 0xd322_94fd_8977_4ad6u64,
            0x466a_7e3a_82f6_7ab1u64,
        ],
    )
}

/// The fixed generator that commits to the value of a note.
pub fn value_commitment_value_generator() -> (r: jubjub::ExtendedPoint)
    ensures
        r == spec_value_commitment_value_generator(),
{
    let u: [u64; 4] = [
        0x3618_3b2c_b4d7_ef51,
        0x9472_c89a_c043_042d,
        0xd861_8ed1_d15f_ef4e,
        0x273f_910d_9ecc_1615,
    ];
    let v: [u64; 4] = [
        0xa77a_81f5_0667_c8d7,
        0xbc33_32d0_fa1c_cd18,
        0xd322_94fd_8977_4ad6,
        0x466a_7e3a_82f6_7ab1,
    ];
    let r = point_from_raw(&u, &v);
    proof {
        assert(u@ =~= seq![
            0x3618_3b2c_b4d7_ef51u64, 0x9472_c89a_c043_042du64, 0xd861_8ed1_d15f_ef4eu64,
            0x273f_910d_9ecc_1615u64,
        ]);
        assert(v@ =~= seq![
            0xa77a_81f5_0667_c8d7u64, 0xbc33_32d0_fa1c_cd18u64, 0xd322_94fd_8977_4ad6u64,
            0x466a_7e3a_82f6_7ab1u64,
        ]);
    }
    r
}

/// The fixed generator that hides a value commitment, the base of the
/// binding signature, by its affine coordinates.
pub open spec fn spec_value_commitment_randomness_generator() -> jubjub::ExtendedPoint {
    pt_from_coords(
        seq![
            0x3bce_3b77_9366_4337u64, 0xd1d8_da41_af03_744eu64, 0x7ff6_826a_d580_04b4u64,
            0x6800_f4fa_0f00_1cfcu64,
        ],
        seq![
            0x3cae_fab9_380b_6a8bu64, 0xad46_f1b0_473b_803bu64, 0xe6fb_2a6e_1e22_ab50u64,
            0x6d81_d3a9_cb45_dedbu64,
        ],
    )
}

/// The fixed generator that hides a value commitment, the base of the
/// binding signature.
pub fn value_commitment_randomness_generator() -> (r: jubjub::ExtendedPoint)
    ensures
        r == spec_value_commitment_randomness_generator(),
{
    let u: [u64; 4] = [
        0x3bce_3b77_9366_4337,
        0xd1d8_da41_af03_744e,
        0x7ff6_826a_d580_04b4,
        0x6800_f4fa_0f00_1cfc,
    ];
    let v: [u64; 4] = [
        0x3cae_fab9_380b_6a8b,
        0xad46_f1b0_473b_803b,
        0xe6fb_2a6e_1e22_ab50,
        0x6d81_d3a9_cb45_dedb,
    ];
    let r = point_from_raw(&u, &v);
    proof {
        assert(u@ =~= seq![
            0x3bce_3b77_9366_4337u64, 0xd1d8_da41_af03_744eu64, 0x7ff6_826a_d580_04b4u64,
            0x6800_f4fa_0f00_1cfcu64,
        ]);
        assert(v@ =~= seq![
            0x3cae_fab9_380b_6a8bu64, 0xad46_f1b0_473b_803bu64, 0xe6fb_2a6e_1e22_ab50u64,
            0x6d81_d3a9_cb45_dedbu64,
        ]);
    }
    r
}

/// What the library trusts of the curve, stated of the points that the
/// values encode and restricted to well-formed curve points
/// (`pt_valid`): the operations are closed over curve points and well
/// defined on the points they encode, addition is commutative and
/// associative, the identity point is neutral and unique, subtraction
/// adds the negation, decoding yields only curve points, and the three
/// fixed generators lie on the curve. Nothing is claimed about which
/// projective representation an operation returns, nor about off-curve
/// values.
pub open spec fn pt_curve_facts() -> bool {
    &&& forall|a: jubjub::ExtendedPoint, b: jubjub::ExtendedPoint|
        pt_valid(a) && pt_valid(b) ==> pt_valid(#[trigger] pt_add(a, b))
    &&& forall|a: jubjub::ExtendedPoint, b: jubjub::ExtendedPoint|
        pt_valid(a) && pt_valid(b) ==> pt_valid(#[trigger] pt_sub(a, b))
    &&& forall|a: jubjub::ExtendedPoint| pt_valid(a) ==> pt_valid(#[trigger] pt_neg(a))
    &&& forall|a: jubjub::ExtendedPoint, s: jubjub::Fr|
        pt_valid(a) ==> pt_valid(#[trigger] pt_mul(a, s))
    &&& forall|a: jubjub::ExtendedPoint| pt_valid(a) ==> pt_valid(#[trigger] pt_mul_cofactor(a))
    &&& forall|b: Seq<u8>| #[trigger] pt_decode(b) matches Some(p) ==> pt_valid(p)
    &&& forall|b: Seq<u8>| #[trigger] pt_decode_legacy(b) matches Some(p) ==> pt_valid(p)
    &&& pt_valid(spec_spend_auth_generator())
    &&& pt_valid(spec_value_commitment_value_generator())
    &&& pt_valid(spec_value_commitment_randomness_generator())
    &&& forall|a: jubjub::ExtendedPoint, b: jubjub::ExtendedPoint, c: jubjub::ExtendedPoint|
        #![trigger pt_add(a, c), pt_add(b, c)]
        pt_valid(a) && pt_valid(b) && pt_valid(c) && pt_same(a, b) ==> pt_same(
            pt_add(a, c),
            pt_add(b, c),
        )
    &&& forall|a: jubjub::ExtendedPoint, b: jubjub::ExtendedPoint|
        pt_valid(a) && pt_valid(b) ==> pt_same(#[trigger] pt_add(a, b), pt_add(b, a))
    &&& forall|a: jubjub::ExtendedPoint, b: jubjub::ExtendedPoint, c: jubjub::ExtendedPoint|
        pt_valid(a) && pt_valid(b) && pt_valid(c) ==> pt_same(
            #[trigger] pt_add(pt_add(a, b), c),
            pt_add(a, pt_add(b, c)),
        )
    &&& forall|e: jubjub::ExtendedPoint, a: jubjub::ExtendedPoint|
        pt_valid(e) && pt_valid(a) && pt_is_identity(e) ==> pt_same(#[trigger] pt_add(e, a), a)
    &&& forall|e1: jubjub::ExtendedPoint, e2: jubjub::ExtendedPoint|
        #![trigger pt_is_identity(e1), pt_is_identity(e2)]
        pt_valid(e1) && pt_valid(e2) && pt_is_identity(e1) && pt_is_identity(e2) ==> pt_same(
            e1,
            e2,
        )
    &&& forall|a: jubjub::ExtendedPoint, b: jubjub::ExtendedPoint|
        pt_valid(a) && pt_valid(b) ==> pt_same(#[trigger] pt_sub(a, b), pt_add(a, pt_neg(b)))
    &&& forall|a: jubjub::ExtendedPoint, b: jubjub::ExtendedPoint, s: jubjub::Fr|
        #![trigger pt_mul(a, s), pt_mul(b, s)]
        pt_valid(a) && pt_valid(b) && pt_same(a, b) ==> pt_same(pt_mul(a, s), pt_mul(b, s))
    &&& forall|a: jubjub::ExtendedPoint, b: jubjub::ExtendedPoint|
        #![trigger pt_mul_cofactor(a), pt_mul_cofactor(b)]
        pt_valid(a) && pt_valid(b) && pt_same(a, b) ==> pt_same(
            pt_mul_cofactor(a),
            pt_mul_cofactor(b),
        )
    &&& forall|a: jubjub::ExtendedPoint, b: jubjub::ExtendedPoint|
        #![trigger pt_is_identity(a), pt_is_identity(b)]
        pt_valid(a) && pt_valid(b) && pt_same(a, b) ==> pt_is_identity(a) == pt_is_identity(b)
}

/// What holds of the point that `point_identity` returns: it is a
/// well-formed representation of the neutral element, and the curve
/// facts hold of the abstract operations.
pub open spec fn identity_point_properties(r: jubjub::ExtendedPoint) -> bool {
    pt_is_identity(r) && pt_valid(r) && pt_curve_facts()
}

/// Relies on jubjub::ExtendedPoint::identity: a well-formed
/// representation of the neutral element of the curve group. The crate
/// documents the curve points as an abelian group under addition, closed
/// under the operations, which is what `pt_curve_facts` states of the
/// abstract operations on valid representations.
#[verifier::external_body]
pub(crate) fn point_identity() -> (r: jubjub::ExtendedPoint)
    ensures
        identity_point_properties(r),
{
    jubjub::ExtendedPoint::identity()
}

/// Relies on point addition of jubjub::ExtendedPoint.
#[verifier::external_body]
pub(crate) fn point_add(a: &jubjub::ExtendedPoint, b: &jubjub::ExtendedPoint) -> (r:
    jubjub::ExtendedPoint)
    ensures
        r == pt_add(*a, *b),
{
    a + b
}

/// Relies on point subtraction of jubjub::ExtendedPoint.
#[verifier::external_body]
pub(crate) fn point_sub(a: &jubjub::ExtendedPoint, b: &jubjub::ExtendedPoint) -> (r:
    jubjub::ExtendedPoint)
    ensures
        r == pt_sub(*a, *b),
{
    a - b
}

/// Relies on point negation of jubjub::ExtendedPoint.
#[verifier::external_body]
pub(crate) fn point_negate(a: &jubjub::ExtendedPoint) -> (r: jubjub::ExtendedPoint)
    ensures
        r == pt_neg(*a),
{
    -(*a)
}

/// Relies on scalar multiplication of jubjub::ExtendedPoint by jubjub::Fr.
#[verifier::external_body]
pub(crate) fn point_mul(p: &jubjub::ExtendedPoint, s: &jubjub::Fr) -> (r: jubjub::ExtendedPoint)
    ensures
        r == pt_mul(*p, *s),
{
    p * s
}

/// Relies on jubjub::ExtendedPoint::mul_by_cofactor.
#[verifier::external_body]
pub(crate) fn point_mul_by_cofactor(p: &jubjub::ExtendedPoint) -> (r: jubjub::ExtendedPoint)
    ensures
        r == pt_mul_cofactor(*p),
{
    p.mul_by_cofactor()
}

/// Relies on jubjub::ExtendedPoint::is_identity.
#[verifier::external_body]
pub(crate) fn point_is_identity(p: &jubjub::ExtendedPoint) -> (r: bool)
    ensures
        r == pt_is_identity(*p),
{
    p.is_identity().into()
}

/// Relies on jubjub::ExtendedPoint::is_small_order.
#[verifier::external_body]
pub(crate) fn point_is_small_order(p: &jubjub::ExtendedPoint) -> (r: bool)
    ensures
        r == pt_is_small_order(*p),
{
    p.is_small_order().into()
}

/// Relies on the canonical point encoding (group::GroupEncoding::to_bytes):
/// 32 bytes per point. The conversion to affine form inverts the
/// projective denominator and panics on malformed representations, which
/// the precondition excludes.
#[verifier::external_body]
pub(crate) fn point_to_bytes(p: &jubjub::ExtendedPoint) -> (r: [u8; 32])
    requires
        pt_valid(*p),
    ensures
        r@ == pt_bytes(*p),
{
    p.to_bytes()
}

/// Relies on the canonical point decoding (group::GroupEncoding::from_bytes),
/// which fails on encodings that are not canonical or not on the curve,
/// so whatever it returns is a well-formed curve point.
#[verifier::external_body]
pub(crate) fn point_decode(b: &[u8; 32]) -> (r: Option<jubjub::ExtendedPoint>)
    ensures
        r == pt_decode(b@),
        r matches Some(p) ==> pt_valid(p),
{
    jubjub::ExtendedPoint::from_bytes(b).into()
}

/// Relies on jubjub::AffinePoint::from_bytes_pre_zip216_compatibility, the
/// decoding that preserves the two historically accepted non-canonical
/// encodings; it still rejects anything off the curve, so whatever it
/// returns is a well-formed curve point.
#[verifier::external_body]
pub(crate) fn point_decode_legacy(b: &[u8; 32]) -> (r: Option<jubjub::ExtendedPoint>)
    ensures
        r == pt_decode_legacy(b@),
        r matches Some(p) ==> pt_valid(p),
{
    let ct = jubjub::AffinePoint::from_bytes_pre_zip216_compatibility(*b);
    if bool::from(ct.is_some()) {
        Some(ct.unwrap().to_extended())
    } else {
        None
    }
}

/// Relies on jubjub::AffinePoint::from_raw_unchecked, which builds the
/// point with the given affine coordinates.
#[verifier::external_body]
pub(crate) fn point_from_raw(u: &[u64; 4], v: &[u64; 4]) -> (r: jubjub::ExtendedPoint)
    ensures
        r == pt_from_coords(u@, v@),
{
    jubjub::AffinePoint::from_raw_unchecked(
        bls12_381::Scalar::from_raw(*u),
        bls12_381::Scalar::from_raw(*v),
    ).to_extended()
}

/// Relies on jubjub::AffinePoint::get_u after conversion to affine form,
/// which panics on malformed representations; the precondition excludes
/// them.
#[verifier::external_body]
pub(crate) fn affine_u(p: &jubjub::ExtendedPoint) -> (r: bls12_381::Scalar)
    requires
        pt_valid(*p),
    ensures
        r == pt_affine_u(*p),
{
    p.to_affine().get_u()
}

/// Relies on jubjub::AffinePoint::get_v after conversion to affine form,
/// which panics on malformed representations; the precondition excludes
/// them.
#[verifier::external_body]
pub(crate) fn affine_v(p: &jubjub::ExtendedPoint) -> (r: bls12_381::Scalar)
    requires
        pt_valid(*p),
    ensures
        r == pt_affine_v(*p),
{
    p.to_affine().get_v()
}

/// Relies on jubjub::Fr::from_bytes: canonical little-endian decoding that
/// fails on values at or above the group order.
#[verifier::external_body]
pub(crate) fn fr_decode(b: &[u8; 32]) -> (r: Option<jubjub::Fr>)
    ensures
        r == fr_from_bytes(b@),
{
    jubjub::Fr::from_bytes(b).into()
}

/// Relies on jubjub::Fr::from_bytes_wide: reduction of a 64-byte
/// little-endian value modulo the group order.
#[verifier::external_body]
pub(crate) fn fr_decode_wide(b: &[u8; 64]) -> (r: jubjub::Fr)
    ensures
        r == fr_from_wide(b@),
{
    jubjub::Fr::from_bytes_wide(b)
}

/// Relies on the conversion of a 64-bit integer into a curve scalar.
#[verifier::external_body]
pub(crate) fn fr_from_small(v: u64) -> (r: jubjub::Fr)
    ensures
        r == fr_of_u64(v),
{
    jubjub::Fr::from(v)
}

/// Relies on blake2b_simd: a 64-byte BLAKE2b digest with a 16-byte
/// personalization; the digest depends on the personalization and the data
/// alone.
#[verifier::external_body]
pub(crate) fn blake2b_personal(person: &[u8; 16], data: &[u8]) -> (r: [u8; 64])
    ensures
        r@ == blake2b_of(person@, data@),
{
    let hash = blake2b_simd::Params::new()
        .hash_length(64)
        .personal(person)
        .to_state()
        .update(data)
        .finalize();
    let mut out = [0u8; 64];
    out.copy_from_slice(hash.as_bytes());
    out
}

/// The little-endian bit expansion of a byte string: bit `j` of byte `i`
/// stands at position `i * 8 + j`.
pub open spec fn le_bits_of(bytes: Seq<u8>) -> Seq<bool> {
    Seq::new(bytes.len() * 8, |k: int| (bytes[k / 8] >> ((k % 8) as u8)) & 1 == 1)
}

/// The little-endian byte-to-bit expansion, proved against `le_bits_of`:
/// its whole behaviour is that two-line statement, so it is written here
/// rather than taken on trust.
pub(crate) fn bytes_to_bits_le(bytes: &[u8; 32]) -> (r: Vec<bool>)
    ensures
        r@ == le_bits_of(bytes@),
{
    let mut r: Vec<bool> = Vec::new();
    let mut i: usize = 0;
    while i < 32
        invariant
            i <= 32,
            r@.len() == i * 8,
            forall|k: int| 0 <= k < i * 8 ==> r@[k] == le_bits_of(bytes@)[k],
        decreases 32 - i,
    {
        let b = bytes[i];
        let mut j: usize = 0;
        while j < 8
            invariant
                i < 32,
                j <= 8,
                b == bytes@[i as int],
                r@.len() == i * 8 + j,
                forall|k: int| 0 <= k < i * 8 + j ==> r@[k] == le_bits_of(bytes@)[k],
            decreases 8 - j,
        {
            r.push((b >> (j as u8)) & 1 == 1);
            proof {
                assert((i * 8 + j) as int / 8 == i && (i * 8 + j) as int % 8 == j)
                    by (nonlinear_arith)
                    requires i < 32 && j < 8
                ;
            }
            j = j + 1;
        }
        i = i + 1;
    }
    proof {
        assert(r@ =~= le_bits_of(bytes@));
    }
    r
}

/// Relies on bellman's multipacking of bits into field elements: the
/// result depends on the bits alone, and 256 bits always pack into exactly
/// two field elements.
#[verifier::external_body]
pub(crate) fn multipack_scalars(bits: &Vec<bool>) -> (r: Vec<bls12_381::Scalar>)
    ensures
        r@ == multipack_of(bits@),
        bits@.len() == 256 ==> r@.len() == 2,
{
    bellman::gadgets::multipack::compute_multipacking::<bls12_381::Scalar>(bits.as_slice())
}

/// Relies on bellman's proof verifier: acceptance is a deterministic
/// function of the prepared verifying key, the proof and the public
/// inputs.
#[verifier::external_body]
pub(crate) fn groth16_verify(
    vk: &GrothVerifyingKey,
    proof: &GrothProof,
    inputs: &Vec<bls12_381::Scalar>,
) -> (r: bool)
    ensures
        r == groth16_accepts(*vk, *proof, inputs@),
{
    bellman::groth16::verify_proof(&vk.inner, &proof.inner, inputs.as_slice()).is_ok()
}

impl GrothProof {
    /// Relies on bellman's proof parser: the proof object read from the
    /// fixed-size serialized form, a function of the bytes alone.
    #[verifier::external_body]
    pub fn read(bytes: &[u8]) -> (r: Option<GrothProof>)
        ensures
            r == groth_proof_read(bytes@),
    {
        bellman::groth16::Proof::read(bytes).ok().map(|inner| GrothProof { inner })
    }
}

impl GrothVerifyingKey {
    /// Relies on bellman's verifying-key parser and preparation: the
    /// prepared key read from the serialized verifying key, a function of
    /// the bytes alone.
    #[verifier::external_body]
    pub fn read(bytes: &[u8]) -> (r: Option<GrothVerifyingKey>)
        ensures
            r == groth_vk_read(bytes@),
    {
        bellman::groth16::VerifyingKey::read(bytes)
            .ok()
            .map(|vk| GrothVerifyingKey { inner: bellman::groth16::prepare_verifying_key(&vk) })
    }
}

} // verus!
