//! The boundary to the threshold-BLS primitive library.
//!
//! Every curve value — scalar, point, polynomial, signature — crosses this
//! boundary as a fixed-format serialized byte string; the rest of the crate
//! never inspects the bytes. Results that are functions of their arguments
//! alone carry an uninterpreted name, so that the callers' contracts can be
//! exact without restating curve arithmetic.

use vstd::prelude::*;

use threshold_bls::curve::bls12381::{PairingCurve, Scalar, G1};
use threshold_bls::group::Element;
use threshold_bls::poly::{Eval, Idx, Poly};
use threshold_bls::sig::{G1Scheme, Scheme, Share as BlsShare, SignatureScheme, ThresholdScheme};

verus! {

/// The Feldman commitment of a serialized secret polynomial.
pub uninterp spec fn commit_of(poly: Seq<u8>) -> Seq<u8>;

/// The evaluation of a serialized secret polynomial at a share index.
pub uninterp spec fn secret_eval_of(poly: Seq<u8>, index: int) -> Seq<u8>;

/// The evaluation of a serialized commitment polynomial at a share index.
pub uninterp spec fn commit_eval_of(commitment: Seq<u8>, index: int) -> Seq<u8>;

/// The sum of two serialized scalars.
pub uninterp spec fn scalar_sum_of(a: Seq<u8>, b: Seq<u8>) -> Seq<u8>;

/// The sum of two serialized commitment polynomials.
pub uninterp spec fn commit_sum_of(a: Seq<u8>, b: Seq<u8>) -> Seq<u8>;

/// The constant term of a serialized commitment polynomial: the public key.
pub uninterp spec fn public_key_of(commitment: Seq<u8>) -> Seq<u8>;

/// Whether a serialized share scalar matches a serialized commitment
/// polynomial at a share index (the Feldman verification equation).
pub uninterp spec fn share_valid(commitment: Seq<u8>, index: int, share: Seq<u8>) -> bool;

/// The partial signature that the share `(index, private)` yields on `msg`.
pub uninterp spec fn partial_sig_of(index: int, private: Seq<u8>, msg: Seq<char>) -> Seq<u8>;

/// Whether a partial signature on `msg` matches the public share that the
/// commitment polynomial assigns to the signer's index.
pub uninterp spec fn partial_sig_valid(commitment: Seq<u8>, msg: Seq<char>, partial: Seq<u8>) -> bool;

/// The aggregation of the given partial signatures under a threshold.
pub uninterp spec fn aggregate_of(threshold: int, partials: Seq<Seq<u8>>) -> Seq<u8>;

/// Whether the given partial signatures can be aggregated at all: every
/// envelope readable, every signer index in the share-index space, all
/// signer indices distinct, every carried signature well-formed.
pub uninterp spec fn aggregate_ok(threshold: int, partials: Seq<Seq<u8>>) -> bool;

/// Whether an aggregated signature on `msg` verifies under a public key.
pub uninterp spec fn signature_valid(public_key: Seq<u8>, msg: Seq<char>, signature: Seq<u8>) -> bool;

/// Relies on threshold_bls `Scheme::keypair` for `G1Scheme` over BLS12-381.
/// The pair is freshly random: nothing is promised of its value.
#[verifier::external_body]
pub(crate) fn new_keypair() -> (Vec<u8>, Vec<u8>) {
    let (pr, pu) = G1Scheme::<PairingCurve>::keypair(&mut rand::thread_rng());
    (
        bincode::serialize(&pr).unwrap_or_default(),
        bincode::serialize(&pu).unwrap_or_default(),
    )
}

/// Relies on threshold_bls `Poly::<Scalar>::new_from` and `Poly::set`: a
/// fresh random polynomial of degree `threshold - 1` whose constant term is
/// the given private scalar. The coefficients beyond the constant term are
/// random: nothing is promised of the value.
#[verifier::external_body]
pub(crate) fn new_secret_poly(private: &Vec<u8>, threshold: usize) -> Vec<u8>
    requires
        threshold >= 1,
{
    let mut poly = Poly::<Scalar>::new_from(threshold - 1, &mut rand::thread_rng());
    if let Ok(s) = bincode::deserialize::<Scalar>(private) {
        poly.set(0, s);
    }
    bincode::serialize(&poly).unwrap_or_default()
}

/// Relies on threshold_bls `Poly::<Scalar>::commit::<G1>`: the Feldman
/// commitment is a function of the polynomial bytes alone.
#[verifier::external_body]
pub(crate) fn commit_poly(poly: &Vec<u8>) -> (r: Vec<u8>)
    ensures
        r@ == commit_of(poly@),
{
    match bincode::deserialize::<Poly<Scalar>>(poly) {
        Ok(p) => bincode::serialize(&p.commit::<G1>()).unwrap_or_default(),
        Err(_) => Vec::new(),
    }
}

/// Relies on threshold_bls `Poly::<Scalar>::eval`: the evaluation is a
/// function of the polynomial bytes and the index alone.
#[verifier::external_body]
pub(crate) fn eval_secret(poly: &Vec<u8>, index: usize) -> (r: Vec<u8>)
    requires
        index < 4294967295,
    ensures
        r@ == secret_eval_of(poly@, index as int),
{
    match bincode::deserialize::<Poly<Scalar>>(poly) {
        Ok(p) => bincode::serialize(&p.eval(index as Idx).value).unwrap_or_default(),
        Err(_) => Vec::new(),
    }
}

/// Relies on threshold_bls `Poly::<G1>::eval`: the evaluation is a function
/// of the commitment bytes and the index alone.
#[verifier::external_body]
pub(crate) fn eval_commitment(commitment: &Vec<u8>, index: usize) -> (r: Vec<u8>)
    requires
        index < 4294967295,
    ensures
        r@ == commit_eval_of(commitment@, index as int),
{
    match bincode::deserialize::<Poly<G1>>(commitment) {
        Ok(p) => bincode::serialize(&p.eval(index as Idx).value).unwrap_or_default(),
        Err(_) => Vec::new(),
    }
}

/// Relies on threshold_bls `Element::add` for `Scalar`.
#[verifier::external_body]
pub(crate) fn add_scalars(a: &Vec<u8>, b: &Vec<u8>) -> (r: Vec<u8>)
    ensures
        r@ == scalar_sum_of(a@, b@),
{
    match (bincode::deserialize::<Scalar>(a), bincode::deserialize::<Scalar>(b)) {
        (Ok(mut x), Ok(y)) => {
            x.add(&y);
            bincode::serialize(&x).unwrap_or_default()
        },
        _ => Vec::new(),
    }
}

/// Relies on threshold_bls `Poly::<G1>::add` (coefficient-wise point sums).
#[verifier::external_body]
pub(crate) fn add_commitments(a: &Vec<u8>, b: &Vec<u8>) -> (r: Vec<u8>)
    ensures
        r@ == commit_sum_of(a@, b@),
{
    match (bincode::deserialize::<Poly<G1>>(a), bincode::deserialize::<Poly<G1>>(b)) {
        (Ok(mut x), Ok(y)) => {
            x.add(&y);
            bincode::serialize(&x).unwrap_or_default()
        },
        _ => Vec::new(),
    }
}

/// Relies on threshold_bls `Poly::public_key`: the constant term of the
/// commitment polynomial. The wrapper reads the coefficient vector (the
/// polynomial's wire format) itself, since `public_key` cannot take a
/// polynomial with no coefficients; that case joins the malformed-input arm.
#[verifier::external_body]
pub(crate) fn commitment_public_key(commitment: &Vec<u8>) -> (r: Vec<u8>)
    ensures
        r@ == public_key_of(commitment@),
{
    match bincode::deserialize::<Vec<G1>>(commitment) {
        Ok(cs) if cs.len() > 0 => {
            bincode::serialize(Poly::<G1>::from(cs).public_key()).unwrap_or_default()
        },
        _ => Vec::new(),
    }
}

/// The share-verification capability. Relies on threshold_bls
/// `Poly::<G1>::eval`, `Element::mul` and `G1`'s equality: the share scalar
/// matches when the commitment evaluated at the index equals the generator
/// multiplied by the share.
#[verifier::external_body]
pub(crate) fn verify_share(commitment: &Vec<u8>, index: usize, share: &Vec<u8>) -> (r: bool)
    requires
        index < 4294967295,
    ensures
        r == share_valid(commitment@, index as int, share@),
{
    match (bincode::deserialize::<Poly<G1>>(commitment), bincode::deserialize::<Scalar>(share)) {
        (Ok(c), Ok(s)) => {
            let mut expected = G1::one();
            expected.mul(&s);
            c.eval(index as Idx).value == expected
        },
        _ => false,
    }
}

/// Relies on threshold_bls `ThresholdScheme::partial_sign` for `G1Scheme`:
/// BLS signing is deterministic, so the partial signature is a function of
/// the share and the message alone.
#[verifier::external_body]
pub(crate) fn bls_partial_sign(index: usize, private: &Vec<u8>, msg: &str) -> (r: Vec<u8>)
    requires
        index < 4294967295,
    ensures
        r@ == partial_sig_of(index as int, private@, msg@),
{
    match bincode::deserialize::<Scalar>(private) {
        Ok(s) => {
            let share = BlsShare { index: index as Idx, private: s };
            G1Scheme::<PairingCurve>::partial_sign(&share, msg.as_bytes()).unwrap_or_default()
        },
        Err(_) => Vec::new(),
    }
}

/// Relies on threshold_bls `ThresholdScheme::partial_verify` for `G1Scheme`:
/// the check is a function of the commitment polynomial, the message and the
/// partial signature alone. The wrapper reads the partial's envelope first
/// and refuses a claimed signer index outside the share-index space, which
/// the scheme's polynomial evaluation cannot take.
#[verifier::external_body]
pub(crate) fn bls_partial_verify(commitment: &Vec<u8>, msg: &str, partial: &Vec<u8>) -> (r: bool)
    ensures
        r == partial_sig_valid(commitment@, msg@, partial@),
{
    let envelope = bincode::deserialize::<Eval<Vec<u8>>>(partial);
    match (bincode::deserialize::<Poly<G1>>(commitment), envelope) {
        (Ok(p), Ok(e)) if e.index < Idx::MAX => {
            G1Scheme::<PairingCurve>::partial_verify(&p, msg.as_bytes(), partial).is_ok()
        },
        _ => false,
    }
}

/// Relies on threshold_bls `ThresholdScheme::aggregate` for `G1Scheme`,
/// which refuses fewer partial signatures than the threshold. The scheme's
/// reconstruction requires distinct signers, so the wrapper reads each
/// partial's envelope first and refuses an unreadable envelope, a signer
/// index outside the share-index space, and two partials claiming one
/// signer. Success and result are functions of the threshold and the
/// partial bytes alone.
#[verifier::external_body]
pub(crate) fn bls_aggregate(threshold: usize, partials: &Vec<Vec<u8>>) -> (r: Option<Vec<u8>>)
    ensures
        (r is Some) <==> (partials@.len() >= threshold
            && aggregate_ok(threshold as int, partials.deep_view())),
        r matches Some(v) ==> v@ == aggregate_of(threshold as int, partials.deep_view()),
{
    let mut seen: Vec<Idx> = Vec::new();
    for p in partials.iter() {
        match bincode::deserialize::<Eval<Vec<u8>>>(p) {
            Ok(e) if e.index < Idx::MAX && !seen.contains(&e.index) => seen.push(e.index),
            _ => return None,
        }
    }
    G1Scheme::<PairingCurve>::aggregate(threshold, partials.as_slice()).ok()
}

/// Relies on threshold_bls `SignatureScheme::verify` for `G1Scheme`: the
/// pairing check is a function of the public key, the message and the
/// signature alone.
#[verifier::external_body]
pub(crate) fn bls_verify(public_key: &Vec<u8>, msg: &str, signature: &Vec<u8>) -> (r: bool)
    ensures
        r == signature_valid(public_key@, msg@, signature@),
{
    match bincode::deserialize::<G1>(public_key) {
        Ok(p) => G1Scheme::<PairingCurve>::verify(&p, msg.as_bytes(), signature).is_ok(),
        Err(_) => false,
    }
}

} // verus!
