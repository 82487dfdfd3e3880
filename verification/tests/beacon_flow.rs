//! End-to-end scenarios: a full registration → key generation → commitment
//! → request → threshold signing → fulfilment run, and the failure paths
//! around it.

use randcast::controller::{Controller, GroupState, TaskState};
use randcast::controller::derive_randomness;
use randcast::dkg::{commitment_to_public_key, partial_public_key, run_dkg, setup};
use randcast::error::Error;
use randcast::sig::{aggregate, partial_sign, partial_verify, verify};
use randcast::util::{bytes_eq, is_all_same};

#[test]
fn end_to_end_randomness_beacon() {
    let (t, n) = (3usize, 5usize);
    let mut controller = Controller::new(0x8762_4875_6548_6346);

    let (mut board, phase0s) = setup(n, t).unwrap();

    // Registration: five nodes, indices in registration order.
    for i in 0..n {
        let registered = controller.node_register(
            format!("0x{}", i),
            phase0s[i].group.nodes[i].public_key.clone(),
            String::new(),
            format!("0x{}", i),
        );
        assert!(registered);
    }
    // A sixth registration is rejected: the registry is frozen.
    assert!(!controller.node_register(
        String::from("0x5"),
        vec![],
        String::new(),
        String::from("0x5")
    ));

    let dkg_task = controller.emit_dkg_task().unwrap();
    assert_eq!(dkg_task.group_index, 1);
    assert_eq!(dkg_task.epoch, 1);

    // The three-phase run: all five derive the same public polynomial.
    let outputs = run_dkg(&mut board, phase0s).unwrap();
    assert_eq!(outputs.len(), n);
    let publics: Vec<Vec<u8>> = outputs.iter().map(|o| o.public.clone()).collect();
    assert!(is_all_same(&publics));

    let public_poly = outputs[0].public.clone();
    let pubkey = commitment_to_public_key(&public_poly);
    assert!(!pubkey.is_empty());
    // The key is the polynomial's constant term, not the polynomial itself,
    // and partial public keys differ per index.
    assert!(!bytes_eq(&pubkey, &public_poly));
    assert!(!bytes_eq(&partial_public_key(&public_poly, 0), &public_poly));
    assert!(!bytes_eq(
        &partial_public_key(&public_poly, 0),
        &partial_public_key(&public_poly, 1)
    ));

    // Commitment: all five commit the same key; the group becomes available.
    for i in 0..n {
        let res = controller.commit_dkg(
            format!("0x{}", i),
            dkg_task.group_index,
            dkg_task.epoch,
            pubkey.clone(),
            partial_public_key(&public_poly, i),
            vec![],
        );
        assert!(res, "commit {} accepted", i);
    }
    {
        let group = controller.get_group(1).unwrap();
        assert_eq!(group.state, GroupState::Available);
        assert_eq!(group.committers.len(), n);
        assert!(bytes_eq(&group.public_key, &pubkey));
    }

    // A duplicate commit with identical arguments is a no-op.
    let duplicate = controller.commit_dkg(
        String::from("0x0"),
        dkg_task.group_index,
        dkg_task.epoch,
        pubkey.clone(),
        partial_public_key(&public_poly, 0),
        vec![],
    );
    assert!(!duplicate);
    assert_eq!(controller.get_group(1).unwrap().committers.len(), n);

    // No output exists before any fulfilment.
    assert_eq!(controller.get_last_output(), Err(Error::NoOutputAvailable));

    // Randomness request and signature task.
    let msg = String::from("ujehwsndfgljkhrlkg");
    assert!(controller.request(msg.clone()));
    let (sig_index, sig_message) = {
        let task = controller.emit_signature_task().unwrap();
        assert_eq!(task.state, TaskState::Pending);
        (task.index, task.message.clone())
    };
    assert_eq!(sig_message, msg);

    // Each node produces a partial signature; each one verifies.
    let partials: Vec<Vec<u8>> = outputs
        .iter()
        .map(|o| partial_sign(&o.share, &msg))
        .collect();
    for p in &partials {
        assert!(partial_verify(&public_poly, &msg, p));
    }

    // Aggregation with the threshold, and the terminal verification.
    let signature = aggregate(t, &partials).unwrap();
    assert!(verify(&pubkey, &msg, &signature));

    // Fulfilment by every node: the first wins, the rest are rejected
    // without side effect.
    let reward: Vec<(String, Vec<u8>)> = partials
        .iter()
        .enumerate()
        .map(|(i, p)| (format!("0x{}", i), p.clone()))
        .collect();
    for i in 0..n {
        let res = controller.fulfill(
            format!("0x{}", i),
            sig_index,
            signature.clone(),
            reward.clone(),
        );
        assert_eq!(res, i == 0);
    }

    // The beacon output exists and is the deterministic function of the
    // fulfilled aggregated signature.
    let output = controller.get_last_output().unwrap();
    assert_eq!(output, derive_randomness(&signature));
}

#[test]
fn aggregation_below_threshold_fails() {
    let (t, n) = (3usize, 5usize);
    let (mut board, phase0s) = setup(n, t).unwrap();
    let outputs = run_dkg(&mut board, phase0s).unwrap();
    let msg = "below-threshold";
    let partials: Vec<Vec<u8>> = outputs
        .iter()
        .take(2)
        .map(|o| partial_sign(&o.share, msg))
        .collect();
    assert_eq!(aggregate(t, &partials), Err(Error::NotEnoughPartialSignatures));
}

#[test]
fn duplicate_partial_signatures_are_refused() {
    let (t, n) = (3usize, 5usize);
    let (mut board, phase0s) = setup(n, t).unwrap();
    let outputs = run_dkg(&mut board, phase0s).unwrap();
    let msg = "distinct-signers";
    let p0 = partial_sign(&outputs[0].share, msg);
    let p1 = partial_sign(&outputs[1].share, msg);

    // Two copies of one signer's partial reach the count but not the
    // distinct-signer quorum: refused, never silently reconstructed.
    let duplicated = vec![p0.clone(), p0.clone(), p1.clone()];
    assert_eq!(aggregate(t, &duplicated), Err(Error::AggregationFailed));

    // The same signers, distinct, aggregate and verify.
    let distinct = vec![p0, p1, partial_sign(&outputs[2].share, msg)];
    let signature = aggregate(t, &distinct).unwrap();
    let pubkey = commitment_to_public_key(&outputs[0].public);
    assert!(verify(&pubkey, msg, &signature));
}

#[test]
fn tampered_partial_signature_is_rejected() {
    let (t, n) = (2usize, 3usize);
    let (mut board, phase0s) = setup(n, t).unwrap();
    let outputs = run_dkg(&mut board, phase0s).unwrap();
    let msg = "tamper-check";
    let good = partial_sign(&outputs[0].share, msg);
    assert!(partial_verify(&outputs[0].public, msg, &good));

    // Flipping one byte of the signature body breaks verification.
    let mut bad = good.clone();
    let last = bad.len() - 1;
    bad[last] ^= 0x01;
    assert!(!partial_verify(&outputs[0].public, msg, &bad));

    // A partial signature on another message is rejected for this one.
    let other = partial_sign(&outputs[0].share, "another message");
    assert!(!partial_verify(&outputs[0].public, msg, &other));

    // A partial signature under a claimed index it was not produced for is
    // rejected as well.
    let foreign = partial_sign(
        &randcast::sig::Share {
            index: outputs[1].share.index,
            private: outputs[0].share.private.clone(),
        },
        msg,
    );
    assert!(!partial_verify(&outputs[0].public, msg, &foreign));
}

#[test]
fn tampered_aggregate_fails_verification_and_fulfilment() {
    let (t, n) = (3usize, 5usize);
    let mut controller = Controller::new(7);
    let (mut board, phase0s) = setup(n, t).unwrap();
    for i in 0..n {
        assert!(controller.node_register(
            format!("0x{}", i),
            phase0s[i].group.nodes[i].public_key.clone(),
            String::new(),
            format!("0x{}", i)
        ));
    }
    let task = controller.emit_dkg_task().unwrap();
    let outputs = run_dkg(&mut board, phase0s).unwrap();
    let public_poly = outputs[0].public.clone();
    let pubkey = commitment_to_public_key(&public_poly);
    for i in 0..n {
        assert!(controller.commit_dkg(
            format!("0x{}", i),
            task.group_index,
            task.epoch,
            pubkey.clone(),
            partial_public_key(&public_poly, i),
            vec![],
        ));
    }
    let msg = String::from("integrity");
    assert!(controller.request(msg.clone()));

    let partials: Vec<Vec<u8>> = outputs
        .iter()
        .map(|o| partial_sign(&o.share, &msg))
        .collect();
    let signature = aggregate(t, &partials).unwrap();

    let mut tampered = signature.clone();
    let last = tampered.len() - 1;
    tampered[last] ^= 0x01;
    assert!(!verify(&pubkey, &msg, &tampered));

    // Fulfilment with a bad signature is rejected without side effect.
    assert!(!controller.fulfill(String::from("0x0"), 0, tampered, vec![]));
    assert_eq!(controller.get_last_output(), Err(Error::NoOutputAvailable));

    // The honest signature still goes through afterwards.
    assert!(controller.fulfill(String::from("0x0"), 0, signature.clone(), vec![]));
    assert_eq!(
        controller.get_last_output().unwrap(),
        derive_randomness(&signature)
    );
}

#[test]
fn identical_public_keys_across_thresholds() {
    // The identical-key invariant holds for every (t, n) with 1 <= t <= n.
    for &(t, n) in &[(1usize, 1usize), (1, 2), (2, 3), (3, 5), (5, 5)] {
        let (mut board, phase0s) = setup(n, t).unwrap();
        let outputs = run_dkg(&mut board, phase0s).unwrap();
        assert_eq!(outputs.len(), n);
        let publics: Vec<Vec<u8>> = outputs.iter().map(|o| o.public.clone()).collect();
        assert!(is_all_same(&publics), "t={} n={}", t, n);
        for (i, o) in outputs.iter().enumerate() {
            assert_eq!(o.share.index, i);
        }
    }
}
