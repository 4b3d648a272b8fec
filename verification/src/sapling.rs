//! The per-transaction shielded-value verifier: consensus checks on spend
//! and output descriptions, a homomorphic running sum of their value
//! commitments, and the final balance-and-binding-signature check.

use vstd::prelude::*;

use crate::curve::{
    affine_u, affine_v, bytes_to_bits_le, fr_from_small, fr_of_u64, groth16_accepts,
    groth16_verify, le_bits_of, multipack_of, multipack_scalars, point_add, point_identity,
    point_is_small_order, point_mul, point_negate, point_sub, point_to_bytes, pt_add,
    pt_affine_u, pt_affine_v, pt_bytes, pt_curve_facts, pt_is_identity, pt_is_small_order,
    pt_mul, pt_neg, pt_same, pt_sub, pt_valid, spec_spend_auth_generator,
    spec_value_commitment_randomness_generator, spec_value_commitment_value_generator,
    spend_auth_generator, value_commitment_randomness_generator,
    value_commitment_value_generator, GrothProof, GrothVerifyingKey,
};
use crate::redjubjub::{PublicKey, Signature};

verus! {

/// The largest representable declared value balance: the monetary cap of
/// the chain in its smallest unit.
pub const MAX_MONEY: i64 = 2_100_000_000_000_000;

/// One signed term of the running sum: a spend's commitment counts
/// positively, an output's negatively.
pub open spec fn spec_signed_step(
    acc: jubjub::ExtendedPoint,
    term: (bool, jubjub::ExtendedPoint),
) -> jubjub::ExtendedPoint {
    if term.0 {
        pt_add(acc, term.1)
    } else {
        pt_sub(acc, term.1)
    }
}

/// The running sum accumulated from `init` over the signed terms, in
/// order.
pub open spec fn spec_signed_sum(
    init: jubjub::ExtendedPoint,
    terms: Seq<(bool, jubjub::ExtendedPoint)>,
) -> jubjub::ExtendedPoint
    decreases terms.len(),
{
    if terms.len() == 0 {
        init
    } else {
        spec_signed_step(spec_signed_sum(init, terms.drop_last()), terms.last())
    }
}

/// Whether a declared value balance lies in the representable signed
/// range.
pub open spec fn spec_in_balance_range(v: int) -> bool {
    -MAX_MONEY <= v <= MAX_MONEY
}

/// The commitment derived from an in-range declared value balance: the
/// balance's magnitude times the value generator, negated for a negative
/// balance.
pub open spec fn spec_value_balance_commitment(v: int) -> jubjub::ExtendedPoint
    recommends
        spec_in_balance_range(v),
{
    let magnitude = if v < 0 {
        (-v) as u64
    } else {
        v as u64
    };
    let base = pt_mul(spec_value_commitment_value_generator(), fr_of_u64(magnitude));
    if v < 0 {
        pt_neg(base)
    } else {
        base
    }
}

/// The public-input vector of a spend proof: the affine coordinates of
/// the re-randomized verification key and of the value commitment, the
/// anchor, and the two field elements that pack the nullifier bits.
pub open spec fn spec_spend_inputs(
    rk: jubjub::ExtendedPoint,
    cv: jubjub::ExtendedPoint,
    anchor: bls12_381::Scalar,
    nullifier: Seq<u8>,
) -> Seq<bls12_381::Scalar> {
    seq![
        pt_affine_u(rk), pt_affine_v(rk), pt_affine_u(cv), pt_affine_v(cv), anchor,
    ] + multipack_of(le_bits_of(nullifier))
}

/// The public-input vector of an output proof: the affine coordinates of
/// the ephemeral key and of the value commitment, then the note
/// commitment.
pub open spec fn spec_output_inputs(
    cv: jubjub::ExtendedPoint,
    epk: jubjub::ExtendedPoint,
    cmu: bls12_381::Scalar,
) -> Seq<bls12_381::Scalar> {
    seq![
        pt_affine_u(epk), pt_affine_v(epk), pt_affine_u(cv), pt_affine_v(cv), cmu,
    ]
}

/// The 64-byte message a signature covers: the encoding of the
/// verification key followed by the sighash.
pub open spec fn spec_signature_message(key: jubjub::ExtendedPoint, sighash: Seq<u8>) -> Seq<u8> {
    pt_bytes(key) + sighash
}

/// The value a signed term contributes to the running sum: the
/// commitment itself for a spend, its negation for an output.
pub open spec fn spec_signed_value(term: (bool, jubjub::ExtendedPoint)) -> jubjub::ExtendedPoint {
    if term.0 {
        term.1
    } else {
        pt_neg(term.1)
    }
}

proof fn lemma_step_is_add(acc: jubjub::ExtendedPoint, term: (bool, jubjub::ExtendedPoint))
    requires
        pt_curve_facts(),
        pt_valid(acc),
        pt_valid(term.1),
    ensures
        pt_same(spec_signed_step(acc, term), pt_add(acc, spec_signed_value(term))),
{
}

proof fn lemma_step_congruent(
    acc1: jubjub::ExtendedPoint,
    acc2: jubjub::ExtendedPoint,
    term: (bool, jubjub::ExtendedPoint),
)
    requires
        pt_curve_facts(),
        pt_same(acc1, acc2),
        pt_valid(acc1),
        pt_valid(acc2),
        pt_valid(term.1),
    ensures
        pt_same(spec_signed_step(acc1, term), spec_signed_step(acc2, term)),
{
    lemma_step_is_add(acc1, term);
    lemma_step_is_add(acc2, term);
    assert(pt_valid(spec_signed_value(term)));
    assert(pt_same(
        pt_add(acc1, spec_signed_value(term)),
        pt_add(acc2, spec_signed_value(term)),
    ));
}

proof fn lemma_signed_sum_valid(
    init: jubjub::ExtendedPoint,
    s: Seq<(bool, jubjub::ExtendedPoint)>,
)
    requires
        pt_curve_facts(),
        pt_valid(init),
        forall|j: int| 0 <= j < s.len() ==> #[trigger] pt_valid(s[j].1),
    ensures
        pt_valid(spec_signed_sum(init, s)),
    decreases s.len(),
{
    if s.len() > 0 {
        assert forall|j: int| 0 <= j < s.drop_last().len() implies #[trigger] pt_valid(
            s.drop_last()[j].1,
        ) by {
            assert(s.drop_last()[j] == s[j]);
        }
        lemma_signed_sum_valid(init, s.drop_last());
        assert(pt_valid(s.last().1));
    }
}

proof fn lemma_signed_sum_remove(
    init: jubjub::ExtendedPoint,
    s: Seq<(bool, jubjub::ExtendedPoint)>,
    i: int,
)
    requires
        pt_curve_facts(),
        pt_valid(init),
        forall|j: int| 0 <= j < s.len() ==> #[trigger] pt_valid(s[j].1),
        0 <= i < s.len(),
    ensures
        pt_same(
            spec_signed_sum(init, s),
            pt_add(spec_signed_sum(init, s.remove(i)), spec_signed_value(s[i])),
        ),
    decreases s.len(),
{
    assert forall|j: int| 0 <= j < s.drop_last().len() implies #[trigger] pt_valid(
        s.drop_last()[j].1,
    ) by {
        assert(s.drop_last()[j] == s[j]);
    }
    if i == s.len() - 1 {
        assert(s.remove(i) =~= s.drop_last());
        lemma_signed_sum_valid(init, s.drop_last());
        lemma_step_is_add(spec_signed_sum(init, s.drop_last()), s.last());
    } else {
        let sp = s.drop_last();
        assert forall|j: int| 0 <= j < sp.remove(i).len() implies #[trigger] pt_valid(
            sp.remove(i)[j].1,
        ) by {
            if j < i {
                assert(sp.remove(i)[j] == sp[j]);
            } else {
                assert(sp.remove(i)[j] == sp[j + 1]);
            }
        }
        let x = spec_signed_sum(init, sp.remove(i));
        let a = spec_signed_value(s[i]);
        let b = spec_signed_value(s.last());
        let sps = spec_signed_sum(init, sp);
        lemma_signed_sum_valid(init, sp);
        lemma_signed_sum_valid(init, sp.remove(i));
        assert(pt_valid(a) && pt_valid(b));
        assert(pt_valid(pt_add(x, a)) && pt_valid(pt_add(a, b)) && pt_valid(pt_add(b, a))
            && pt_valid(pt_add(x, b)));
        // The whole sum ends with the last term.
        lemma_step_is_add(sps, s.last());
        // The sum without the last term, with the chosen term pulled out.
        lemma_signed_sum_remove(init, sp, i);
        assert(pt_same(pt_add(sps, b), pt_add(pt_add(x, a), b)));
        // Exchange the two pulled-out terms.
        assert(pt_same(pt_add(pt_add(x, a), b), pt_add(x, pt_add(a, b))));
        assert(pt_same(pt_add(x, pt_add(a, b)), pt_add(pt_add(a, b), x)));
        assert(pt_same(pt_add(pt_add(a, b), x), pt_add(pt_add(b, a), x)));
        assert(pt_same(pt_add(pt_add(b, a), x), pt_add(x, pt_add(b, a))));
        assert(pt_same(pt_add(pt_add(x, b), a), pt_add(x, pt_add(b, a))));
        // The shortened sum also ends with the last term.
        assert(s.remove(i).drop_last() =~= sp.remove(i));
        assert(s.remove(i).last() == s.last());
        lemma_step_is_add(x, s.remove(i).last());
        assert(pt_valid(spec_signed_sum(init, s.remove(i))));
        assert(pt_same(
            pt_add(spec_signed_sum(init, s.remove(i)), a),
            pt_add(pt_add(x, b), a),
        ));
    }
}

/// Law: the signed sum depends only on the multiset of its terms. Any
/// reordering of the same spends and outputs accumulates to the same
/// point.
pub proof fn lemma_signed_sum_permutation(
    init: jubjub::ExtendedPoint,
    s1: Seq<(bool, jubjub::ExtendedPoint)>,
    s2: Seq<(bool, jubjub::ExtendedPoint)>,
)
    requires
        pt_curve_facts(),
        pt_valid(init),
        forall|j: int| 0 <= j < s1.len() ==> #[trigger] pt_valid(s1[j].1),
        forall|j: int| 0 <= j < s2.len() ==> #[trigger] pt_valid(s2[j].1),
        s1.to_multiset() == s2.to_multiset(),
    ensures
        pt_same(spec_signed_sum(init, s1), spec_signed_sum(init, s2)),
    decreases s1.len(),
{
    broadcast use vstd::seq_lib::group_to_multiset_ensures;

    if s1.len() == 0 {
        assert(s1.to_multiset().len() == s1.len());
        assert(s2.to_multiset().len() == s2.len());
        assert(s2.len() == 0);
    } else {
        let t = s1.last();
        assert(s1.contains(t));
        assert(s1.to_multiset().count(t) > 0);
        assert(s2.to_multiset().count(t) > 0);
        assert(s2.contains(t));
        let i = s2.index_of(t);
        assert(0 <= i < s2.len() && s2[i] == t);
        assert(s1 =~= s1.drop_last().push(t));
        assert(s1.to_multiset() =~= s1.drop_last().to_multiset().insert(t));
        assert(s2.remove(i).to_multiset() =~= s2.to_multiset().remove(t));
        assert(s1.drop_last().to_multiset() =~= s1.to_multiset().remove(t));
        assert forall|j: int| 0 <= j < s1.drop_last().len() implies #[trigger] pt_valid(
            s1.drop_last()[j].1,
        ) by {
            assert(s1.drop_last()[j] == s1[j]);
        }
        assert forall|j: int| 0 <= j < s2.remove(i).len() implies #[trigger] pt_valid(
            s2.remove(i)[j].1,
        ) by {
            if j < i {
                assert(s2.remove(i)[j] == s2[j]);
            } else {
                assert(s2.remove(i)[j] == s2[j + 1]);
            }
        }
        lemma_signed_sum_permutation(init, s1.drop_last(), s2.remove(i));
        lemma_signed_sum_valid(init, s1.drop_last());
        lemma_signed_sum_valid(init, s2.remove(i));
        lemma_step_is_add(spec_signed_sum(init, s1.drop_last()), t);
        assert(pt_valid(spec_signed_value(t)));
        assert(pt_same(
            pt_add(spec_signed_sum(init, s1.drop_last()), spec_signed_value(t)),
            pt_add(spec_signed_sum(init, s2.remove(i)), spec_signed_value(t)),
        ));
        lemma_signed_sum_remove(init, s2, i);
    }
}

proof fn lemma_signed_sum_init_congruent(
    init1: jubjub::ExtendedPoint,
    init2: jubjub::ExtendedPoint,
    s: Seq<(bool, jubjub::ExtendedPoint)>,
)
    requires
        pt_curve_facts(),
        pt_same(init1, init2),
        pt_valid(init1),
        pt_valid(init2),
        forall|j: int| 0 <= j < s.len() ==> #[trigger] pt_valid(s[j].1),
    ensures
        pt_same(spec_signed_sum(init1, s), spec_signed_sum(init2, s)),
    decreases s.len(),
{
    if s.len() > 0 {
        assert forall|j: int| 0 <= j < s.drop_last().len() implies #[trigger] pt_valid(
            s.drop_last()[j].1,
        ) by {
            assert(s.drop_last()[j] == s[j]);
        }
        lemma_signed_sum_init_congruent(init1, init2, s.drop_last());
        lemma_signed_sum_valid(init1, s.drop_last());
        lemma_signed_sum_valid(init2, s.drop_last());
        lemma_step_congruent(
            spec_signed_sum(init1, s.drop_last()),
            spec_signed_sum(init2, s.drop_last()),
            s.last(),
        );
    }
}

/// A context object for verifying the shielded components of a single
/// transaction.
///
/// The context accumulates the value commitments of the spends it has
/// checked minus those of the outputs, and carries the
/// signature-malleability policy fixed at construction. The ghost fields
/// record the signed terms that entered the sum, so that the contracts
/// can speak of the sum's composition.
pub struct SaplingVerificationContext {
    /// The running sum: spend commitments added, output commitments
    /// subtracted.
    pub cv_sum: jubjub::ExtendedPoint,
    /// Whether only canonical signature-point encodings are accepted.
    pub zip216_enabled: bool,
    /// The signed terms accumulated so far, in call order.
    pub terms: Ghost<Seq<(bool, jubjub::ExtendedPoint)>>,
    /// The neutral element the sum started from.
    pub initial: Ghost<jubjub::ExtendedPoint>,
}

impl SaplingVerificationContext {
    /// The context's integrity: every accumulated commitment and the
    /// running sum are well-formed curve points, and the running sum is
    /// exactly the signed sum of the recorded terms over the group
    /// structure of the curve.
    pub open spec fn wf(self) -> bool {
        &&& pt_curve_facts()
        &&& pt_is_identity(self.initial@)
        &&& pt_valid(self.initial@)
        &&& forall|i: int| 0 <= i < self.terms@.len() ==> #[trigger] pt_valid(self.terms@[i].1)
        &&& pt_valid(self.cv_sum)
        &&& self.cv_sum == spec_signed_sum(self.initial@, self.terms@)
    }

    /// Construct a new context to be used with a single transaction.
    pub fn new(zip216_enabled: bool) -> (r: Self)
        ensures
            r.wf(),
            r.zip216_enabled == zip216_enabled,
            r.terms@ == Seq::<(bool, jubjub::ExtendedPoint)>::empty(),
            pt_is_identity(r.cv_sum),
    {
        let id = point_identity();
        SaplingVerificationContext {
            cv_sum: id,
            zip216_enabled,
            terms: Ghost(Seq::empty()),
            initial: Ghost(id),
        }
    }

    /// Performs the consensus checks on one spend description and
    /// accumulates its value commitment into the running sum.
    ///
    /// A small-order value commitment or verification key is rejected
    /// with no state change. Otherwise the commitment is added to the
    /// sum unconditionally — a later signature or proof failure discards
    /// the transaction as a whole, so the partial sum is never consumed —
    /// and the call succeeds exactly when the authorization signature
    /// verifies over the key's encoding followed by the sighash, and the
    /// proof verifies against the spend's public inputs.
    ///
    /// The caller hands well-formed curve points, as decoding produces
    /// them; the curve library's affine conversions are partial on
    /// anything else.
    pub fn check_spend(
        &mut self,
        cv: jubjub::ExtendedPoint,
        anchor: bls12_381::Scalar,
        nullifier: &[u8; 32],
        rk: PublicKey,
        sighash_value: &[u8; 32],
        spend_auth_sig: Signature,
        zkproof: &GrothProof,
        verifying_key: &GrothVerifyingKey,
    ) -> (r: bool)
        requires
            old(self).wf(),
            pt_valid(cv),
            pt_valid(rk.0),
        ensures
            final(self).wf(),
            final(self).zip216_enabled == old(self).zip216_enabled,
            final(self).initial == old(self).initial,
            pt_is_small_order(cv) || pt_is_small_order(rk.0) ==> *final(self) == *old(self) && r
                == false,
            !(pt_is_small_order(cv) || pt_is_small_order(rk.0)) ==> {
                &&& final(self).cv_sum == pt_add(old(self).cv_sum, cv)
                &&& final(self).terms@ == old(self).terms@.push((true, cv))
                &&& r == (PublicKey::spec_verify(
                    rk.0,
                    spec_signature_message(rk.0, sighash_value@),
                    spend_auth_sig,
                    spec_spend_auth_generator(),
                    old(self).zip216_enabled,
                ) && groth16_accepts(
                    *verifying_key,
                    *zkproof,
                    spec_spend_inputs(rk.0, cv, anchor, nullifier@),
                ))
            },
    {
        if point_is_small_order(&cv) || point_is_small_order(&rk.0) {
            return false;
        }
        // Accumulate the value commitment in the context.
        self.cv_sum = point_add(&self.cv_sum, &cv);
        proof {
            self.terms@ = self.terms@.push((true, cv));
            assert(self.terms@.drop_last() =~= old(self).terms@);
            assert(self.terms@.last() == (true, cv));
            assert(self.cv_sum == spec_signed_sum(self.initial@, self.terms@));
            assert(pt_valid(self.cv_sum));
            assert forall|k: int| 0 <= k < self.terms@.len() implies #[trigger] pt_valid(
                self.terms@[k].1,
            ) by {
                if k < old(self).terms@.len() {
                    assert(self.terms@[k] == old(self).terms@[k]);
                } else {
                    assert(self.terms@[k] == (true, cv));
                }
            }
        }

        // The signature's message: the key's encoding followed by the
        // sighash.
        let rk_bytes = point_to_bytes(&rk.0);
        let mut message: Vec<u8> = Vec::new();
        let mut i: usize = 0;
        while i < 32
            invariant
                i <= 32,
                message@ == rk_bytes@.take(i as int),
            decreases 32 - i,
        {
            message.push(rk_bytes[i]);
            i = i + 1;
            proof {
                assert(message@ =~= rk_bytes@.take(i as int));
            }
        }
        let mut j: usize = 0;
        while j < 32
            invariant
                j <= 32,
                message@ == rk_bytes@ + sighash_value@.take(j as int),
            decreases 32 - j,
        {
            message.push(sighash_value[j]);
            j = j + 1;
            proof {
                assert(message@ =~= rk_bytes@ + sighash_value@.take(j as int));
            }
        }
        proof {
            assert(message@ =~= spec_signature_message(rk.0, sighash_value@));
        }

        // Verify the authorization signature.
        let generator = spend_auth_generator();
        let sig_ok = rk.verify_with_zip216(
            message.as_slice(),
            &spend_auth_sig,
            &generator,
            self.zip216_enabled,
        );
        if !sig_ok {
            return false;
        }

        // Construct the public inputs of the spend circuit.
        let mut inputs: Vec<bls12_381::Scalar> = Vec::new();
        inputs.push(affine_u(&rk.0));
        inputs.push(affine_v(&rk.0));
        inputs.push(affine_u(&cv));
        inputs.push(affine_v(&cv));
        inputs.push(anchor);
        let bits = bytes_to_bits_le(nullifier);
        let packed = multipack_scalars(&bits);
        inputs.push(packed[0]);
        inputs.push(packed[1]);
        proof {
            assert(packed@.take(2) =~= packed@);
            assert(inputs@ =~= spec_spend_inputs(rk.0, cv, anchor, nullifier@));
        }

        // Verify the proof.
        groth16_verify(verifying_key, zkproof, &inputs)
    }

    /// Performs the consensus checks on one output description and
    /// subtracts its value commitment from the running sum.
    ///
    /// A small-order value commitment or ephemeral key is rejected with
    /// no state change. Otherwise the commitment is subtracted
    /// unconditionally, and the call succeeds exactly when the proof
    /// verifies against the output's public inputs: the ephemeral key's
    /// coordinates, the value commitment's coordinates, then the note
    /// commitment.
    ///
    /// The caller hands well-formed curve points, as decoding produces
    /// them; the curve library's affine conversions are partial on
    /// anything else.
    pub fn check_output(
        &mut self,
        cv: jubjub::ExtendedPoint,
        cmu: bls12_381::Scalar,
        epk: jubjub::ExtendedPoint,
        zkproof: &GrothProof,
        verifying_key: &GrothVerifyingKey,
    ) -> (r: bool)
        requires
            old(self).wf(),
            pt_valid(cv),
            pt_valid(epk),
        ensures
            final(self).wf(),
            final(self).zip216_enabled == old(self).zip216_enabled,
            final(self).initial == old(self).initial,
            pt_is_small_order(cv) || pt_is_small_order(epk) ==> *final(self) == *old(self) && r
                == false,
            !(pt_is_small_order(cv) || pt_is_small_order(epk)) ==> {
                &&& final(self).cv_sum == pt_sub(old(self).cv_sum, cv)
                &&& final(self).terms@ == old(self).terms@.push((false, cv))
                &&& r == groth16_accepts(
                    *verifying_key,
                    *zkproof,
                    spec_output_inputs(cv, epk, cmu),
                )
            },
    {
        if point_is_small_order(&cv) || point_is_small_order(&epk) {
            return false;
        }
        // Deduct the value commitment from the context.
        self.cv_sum = point_sub(&self.cv_sum, &cv);
        proof {
            self.terms@ = self.terms@.push((false, cv));
            assert(self.terms@.drop_last() =~= old(self).terms@);
            assert(self.terms@.last() == (false, cv));
            assert(self.cv_sum == spec_signed_sum(self.initial@, self.terms@));
            assert(pt_valid(self.cv_sum));
            assert forall|k: int| 0 <= k < self.terms@.len() implies #[trigger] pt_valid(
                self.terms@[k].1,
            ) by {
                if k < old(self).terms@.len() {
                    assert(self.terms@[k] == old(self).terms@[k]);
                } else {
                    assert(self.terms@[k] == (false, cv));
                }
            }
        }

        // Construct the public inputs of the output circuit.
        let mut inputs: Vec<bls12_381::Scalar> = Vec::new();
        inputs.push(affine_u(&epk));
        inputs.push(affine_v(&epk));
        inputs.push(affine_u(&cv));
        inputs.push(affine_v(&cv));
        inputs.push(cmu);
        proof {
            assert(inputs@ =~= spec_output_inputs(cv, epk, cmu));
        }

        // Verify the proof.
        groth16_verify(verifying_key, zkproof, &inputs)
    }

    /// What `final_check` decides: an out-of-range declared balance is
    /// rejected outright; otherwise the balance's derived commitment is
    /// subtracted from the running sum, and the binding signature must
    /// verify under that derived key over its encoding followed by the
    /// sighash.
    pub open spec fn spec_final_check(
        self,
        value_balance: i64,
        sighash: Seq<u8>,
        binding_sig: Signature,
    ) -> bool {
        if !spec_in_balance_range(value_balance as int) {
            false
        } else {
            let bvk = pt_sub(
                self.cv_sum,
                spec_value_balance_commitment(value_balance as int),
            );
            PublicKey::spec_verify(
                bvk,
                spec_signature_message(bvk, sighash),
                binding_sig,
                spec_value_commitment_randomness_generator(),
                self.zip216_enabled,
            )
        }
    }

    /// Performs the final consensus checks on the declared value balance
    /// and the binding signature, after every spend and output of the
    /// transaction has been checked.
    ///
    /// Succeeds exactly when the declared balance is in range and the
    /// binding signature verifies under the key obtained by subtracting
    /// the balance's derived commitment from the running sum: only the
    /// party knowing the sum of all blinding randomness can produce that
    /// signature, which proves value conservation. The context must be
    /// well formed, as construction and the check calls keep it.
    pub fn final_check(
        &self,
        value_balance: i64,
        sighash_value: &[u8; 32],
        binding_sig: Signature,
    ) -> (r: bool)
        requires
            self.wf(),
        ensures
            r == self.spec_final_check(value_balance, sighash_value@, binding_sig),
            !spec_in_balance_range(value_balance as int) ==> r == false,
    {
        // Reject a declared balance outside the representable range; the
        // bound also keeps the magnitude computation below from
        // overflowing.
        if value_balance < -MAX_MONEY || value_balance > MAX_MONEY {
            return false;
        }

        // The commitment derived from the declared balance.
        let magnitude: u64 = if value_balance < 0 {
            (-value_balance) as u64
        } else {
            value_balance as u64
        };
        let base = value_commitment_value_generator();
        let scaled = point_mul(&base, &fr_from_small(magnitude));
        let balance_commitment = if value_balance < 0 {
            point_negate(&scaled)
        } else {
            scaled
        };

        // Subtract it from the running sum to obtain the binding
        // verification key, a well-formed point since the operations are
        // closed over them.
        let bvk = point_sub(&self.cv_sum, &balance_commitment);
        proof {
            assert(pt_valid(pt_mul(spec_value_commitment_value_generator(), fr_of_u64(
                magnitude,
            ))));
            assert(pt_valid(spec_value_balance_commitment(value_balance as int)));
            assert(pt_valid(bvk));
        }

        // The signature's message: the derived key's encoding followed by
        // the sighash.
        let bvk_bytes = point_to_bytes(&bvk);
        let mut message: Vec<u8> = Vec::new();
        let mut i: usize = 0;
        while i < 32
            invariant
                i <= 32,
                message@ == bvk_bytes@.take(i as int),
            decreases 32 - i,
        {
            message.push(bvk_bytes[i]);
            i = i + 1;
            proof {
                assert(message@ =~= bvk_bytes@.take(i as int));
            }
        }
        let mut j: usize = 0;
        while j < 32
            invariant
                j <= 32,
                message@ == bvk_bytes@ + sighash_value@.take(j as int),
            decreases 32 - j,
        {
            message.push(sighash_value[j]);
            j = j + 1;
            proof {
                assert(message@ =~= bvk_bytes@ + sighash_value@.take(j as int));
            }
        }
        proof {
            assert(message@ =~= spec_signature_message(
                pt_sub(self.cv_sum, spec_value_balance_commitment(value_balance as int)),
                sighash_value@,
            ));
        }

        // Verify the binding signature.
        let generator = value_commitment_randomness_generator();
        PublicKey(bvk).verify_with_zip216(
            message.as_slice(),
            &binding_sig,
            &generator,
            self.zip216_enabled,
        )
    }
}

/// Law: the accumulator is additive and order-independent. Two contexts
/// that accumulated the same multiset of signed commitments — however
/// their spend calls and output calls were interleaved or permuted —
/// hold running sums that encode the same point.
pub proof fn lemma_accumulator_order_independent(
    a: SaplingVerificationContext,
    b: SaplingVerificationContext,
)
    requires
        a.wf(),
        b.wf(),
        a.terms@.to_multiset() == b.terms@.to_multiset(),
    ensures
        pt_same(a.cv_sum, b.cv_sum),
{
    assert(pt_same(a.initial@, b.initial@));
    lemma_signed_sum_init_congruent(a.initial@, b.initial@, a.terms@);
    lemma_signed_sum_permutation(b.initial@, a.terms@, b.terms@);
}

/// Law: permuting the spend calls or the output calls of a transaction
/// does not change the outcome of the final check, since that outcome
/// depends on the accumulated terms only through the point their sum
/// encodes.
pub proof fn lemma_final_check_order_independent(
    a: SaplingVerificationContext,
    b: SaplingVerificationContext,
    value_balance: i64,
    sighash: Seq<u8>,
    binding_sig: Signature,
)
    requires
        a.wf(),
        b.wf(),
        a.zip216_enabled == b.zip216_enabled,
        a.terms@.to_multiset() == b.terms@.to_multiset(),
    ensures
        a.spec_final_check(value_balance, sighash, binding_sig) == b.spec_final_check(
            value_balance,
            sighash,
            binding_sig,
        ),
{
    lemma_accumulator_order_independent(a, b);
    if spec_in_balance_range(value_balance as int) {
        let c = spec_value_balance_commitment(value_balance as int);
        let bvk_a = pt_sub(a.cv_sum, c);
        let bvk_b = pt_sub(b.cv_sum, c);
        // Subtraction is well defined on the points the sums encode.
        assert(pt_same(bvk_a, pt_add(a.cv_sum, pt_neg(c))));
        assert(pt_same(pt_add(a.cv_sum, pt_neg(c)), pt_add(b.cv_sum, pt_neg(c))));
        assert(pt_same(bvk_b, pt_add(b.cv_sum, pt_neg(c))));
        assert(pt_same(bvk_a, bvk_b));
        // Equal encodings give the same signed message, and acceptance
        // depends on the key only through the point it encodes.
        assert(spec_signature_message(bvk_a, sighash) == spec_signature_message(bvk_b, sighash));
        crate::redjubjub::lemma_verify_respects_point(
            bvk_a,
            bvk_b,
            spec_signature_message(bvk_a, sighash),
            binding_sig,
            spec_value_commitment_randomness_generator(),
            a.zip216_enabled,
        );
    }
}

} // verus!
