//! Verification of RedDSA signatures over the curve: authorization
//! signatures of spends and the binding signature of a transaction.

use vstd::prelude::*;

use crate::curve::{
    blake2b_of, blake2b_personal, fr_decode, fr_decode_wide, fr_from_bytes, fr_from_wide,
    point_add, point_decode, point_decode_legacy, point_is_identity, point_mul,
    point_mul_by_cofactor, point_sub, pt_add, pt_curve_facts, pt_decode, pt_decode_legacy,
    pt_is_identity, pt_mul, pt_mul_cofactor, pt_neg, pt_same, pt_sub, pt_valid,
};

verus! {

/// The 16-byte personalization under which signature challenges are
/// hashed; its bytes spell `Zcash_RedJubjubH`.
pub open spec fn spec_challenge_personalization() -> Seq<u8> {
    seq![
        90u8, 99u8, 97u8, 115u8, 104u8, 95u8, 82u8, 101u8, 100u8, 74u8, 117u8, 98u8, 106u8,
        117u8, 98u8, 72u8,
    ]
}

fn challenge_personalization() -> (r: [u8; 16])
    ensures
        r@ == spec_challenge_personalization(),
{
    let r: [u8; 16] = [90, 99, 97, 115, 104, 95, 82, 101, 100, 74, 117, 98, 106, 117, 98, 72];
    proof {
        assert(r@ =~= spec_challenge_personalization());
    }
    r
}

/// The challenge scalar of a signature: the wide reduction of the
/// personalized digest of the signature's point encoding followed by the
/// message.
pub open spec fn spec_h_star(a: Seq<u8>, b: Seq<u8>) -> jubjub::Fr {
    fr_from_wide(blake2b_of(spec_challenge_personalization(), a + b))
}

fn h_star(a: &[u8; 32], b: &[u8]) -> (r: jubjub::Fr)
    ensures
        r == spec_h_star(a@, b@),
{
    let mut data: Vec<u8> = Vec::new();
    let mut i: usize = 0;
    while i < 32
        invariant
            i <= 32,
            data@ == a@.take(i as int),
        decreases 32 - i,
    {
        data.push(a[i]);
        i = i + 1;
        proof {
            assert(data@ =~= a@.take(i as int));
        }
    }
    proof {
        assert(data@ =~= a@);
    }
    let mut j: usize = 0;
    while j < b.len()
        invariant
            j <= b@.len(),
            data@ == a@ + b@.take(j as int),
        decreases b@.len() - j,
    {
        data.push(b[j]);
        j = j + 1;
        proof {
            assert(data@ =~= a@ + b@.take(j as int));
        }
    }
    proof {
        assert(data@ =~= a@ + b@);
    }
    let person = challenge_personalization();
    let digest = blake2b_personal(&person, data.as_slice());
    fr_decode_wide(&digest)
}

/// A detached RedDSA signature: the encoding of the commitment point and
/// the encoding of the response scalar.
#[derive(Clone, Copy)]
pub struct Signature {
    pub rbar: [u8; 32],
    pub sbar: [u8; 32],
}

/// A RedDSA verification key: a point of the curve.
pub struct PublicKey(pub jubjub::ExtendedPoint);

impl PublicKey {
    /// Whether the scheme accepts `sig` over `msg` for the key `vk`
    /// against `generator`. The policy flag selects whether the
    /// commitment point must be canonically encoded or may use the two
    /// historically tolerated encodings; the response scalar must always
    /// be canonical, and the verification equation is checked in the
    /// cofactor-cleared group.
    pub open spec fn spec_verify(
        vk: jubjub::ExtendedPoint,
        msg: Seq<u8>,
        sig: Signature,
        generator: jubjub::ExtendedPoint,
        zip216_enabled: bool,
    ) -> bool {
        let c = spec_h_star(sig.rbar@, msg);
        let rp = if zip216_enabled {
            pt_decode(sig.rbar@)
        } else {
            pt_decode_legacy(sig.rbar@)
        };
        let s = fr_from_bytes(sig.sbar@);
        match (rp, s) {
            (Some(rpv), Some(sv)) => pt_is_identity(
                pt_mul_cofactor(pt_sub(pt_add(pt_mul(vk, c), rpv), pt_mul(generator, sv))),
            ),
            _ => false,
        }
    }

    /// Verifies `sig` over `msg` against the fixed `generator`, accepting
    /// legacy encodings of the commitment point exactly when
    /// `zip216_enabled` is false.
    pub fn verify_with_zip216(
        &self,
        msg: &[u8],
        sig: &Signature,
        generator: &jubjub::ExtendedPoint,
        zip216_enabled: bool,
    ) -> (r: bool)
        ensures
            r == Self::spec_verify(self.0, msg@, *sig, *generator, zip216_enabled),
    {
        let c = h_star(&sig.rbar, msg);
        let rp = if zip216_enabled {
            point_decode(&sig.rbar)
        } else {
            point_decode_legacy(&sig.rbar)
        };
        match rp {
            None => false,
            Some(rpv) => {
                match fr_decode(&sig.sbar) {
                    None => false,
                    Some(sv) => {
                        let t1 = point_mul(&self.0, &c);
                        let t2 = point_add(&t1, &rpv);
                        let t3 = point_mul(generator, &sv);
                        let t4 = point_sub(&t2, &t3);
                        point_is_identity(&point_mul_by_cofactor(&t4))
                    },
                }
            },
        }
    }
}

/// Law: acceptance of a signature depends on the verification key only
/// through the point it encodes, never on which representation of that
/// point is at hand.
pub proof fn lemma_verify_respects_point(
    vk1: jubjub::ExtendedPoint,
    vk2: jubjub::ExtendedPoint,
    msg: Seq<u8>,
    sig: Signature,
    generator: jubjub::ExtendedPoint,
    zip216_enabled: bool,
)
    requires
        pt_curve_facts(),
        pt_same(vk1, vk2),
        pt_valid(vk1),
        pt_valid(vk2),
        pt_valid(generator),
    ensures
        PublicKey::spec_verify(vk1, msg, sig, generator, zip216_enabled)
            == PublicKey::spec_verify(vk2, msg, sig, generator, zip216_enabled),
{
    let c = spec_h_star(sig.rbar@, msg);
    let rp = if zip216_enabled {
        pt_decode(sig.rbar@)
    } else {
        pt_decode_legacy(sig.rbar@)
    };
    match (rp, fr_from_bytes(sig.sbar@)) {
        (Some(rpv), Some(sv)) => {
            assert(pt_valid(rpv));
            let m1 = pt_mul(vk1, c);
            let m2 = pt_mul(vk2, c);
            assert(pt_valid(m1) && pt_valid(m2));
            assert(pt_same(m1, m2));
            let a1 = pt_add(m1, rpv);
            let a2 = pt_add(m2, rpv);
            assert(pt_valid(a1) && pt_valid(a2));
            assert(pt_same(a1, a2));
            let g = pt_mul(generator, sv);
            assert(pt_valid(g) && pt_valid(pt_neg(g)));
            assert(pt_same(pt_sub(a1, g), pt_add(a1, pt_neg(g))));
            assert(pt_same(pt_add(a1, pt_neg(g)), pt_add(a2, pt_neg(g))));
            assert(pt_same(pt_sub(a2, g), pt_add(a2, pt_neg(g))));
            assert(pt_same(pt_sub(a1, g), pt_sub(a2, g)));
            assert(pt_valid(pt_sub(a1, g)) && pt_valid(pt_sub(a2, g)));
            assert(pt_same(pt_mul_cofactor(pt_sub(a1, g)), pt_mul_cofactor(pt_sub(a2, g))));
        },
        _ => {},
    }
}

} // verus!
