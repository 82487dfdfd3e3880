//! Unit scenarios for the registry, the board barrier semantics, the
//! controller's rejection paths, and the byte utilities.

use randcast::board::{Board, ResponseBundle, SharesBundle};
use randcast::controller::{derive_randomness, Controller};
use randcast::dkg::{commitment_to_public_key, setup, Phase0, Phase3};
use randcast::error::Error;
use randcast::group::{Group, Node};
use randcast::sig::{aggregate, partial_verify, verify};
use randcast::util::{bytes_eq, clone_bytes, is_all_same};

fn bundle(dealer: usize, n: usize) -> SharesBundle {
    SharesBundle {
        dealer,
        commitment: vec![dealer as u8; 4],
        shares: (0..n).map(|j| vec![j as u8]).collect(),
    }
}

#[test]
fn group_rejects_bad_threshold_and_indices() {
    let nodes = |k: usize| (0..k).map(|i| Node::new(i, vec![i as u8])).collect::<Vec<_>>();
    assert!(matches!(Group::new(nodes(3), 0), Err(Error::InvalidThreshold)));
    assert!(matches!(Group::new(nodes(3), 4), Err(Error::InvalidThreshold)));
    assert!(Group::new(nodes(3), 3).is_ok());
    assert!(Group::new(nodes(1), 1).is_ok());

    let shuffled = vec![Node::new(1, vec![]), Node::new(0, vec![])];
    assert!(matches!(Group::new(shuffled, 1), Err(Error::NodeNotInGroup)));
}

#[test]
fn board_is_append_only_and_barriers_reads() {
    let mut board = Board::new(2);

    // Reading an unpopulated round is a protocol error, not an empty read.
    assert!(matches!(board.read_all_shares(), Err(Error::RoundIncomplete)));

    assert!(board.publish_shares(0, bundle(0, 2)).is_ok());
    // Still incomplete: one sender is missing.
    assert!(matches!(board.read_all_shares(), Err(Error::RoundIncomplete)));

    // Re-publishing by the same sender in the same round is rejected.
    assert!(matches!(
        board.publish_shares(0, bundle(0, 2)),
        Err(Error::DuplicatePublish)
    ));
    // A sender outside the group is rejected.
    assert!(matches!(
        board.publish_shares(2, bundle(2, 2)),
        Err(Error::SenderOutOfRange)
    ));

    assert!(board.publish_shares(1, bundle(1, 2)).is_ok());
    let all = board.read_all_shares().unwrap();
    assert_eq!(all.len(), 2);
    assert_eq!(all[0].dealer, 0);
    assert_eq!(all[1].dealer, 1);
    assert_eq!(all[0].commitment, vec![0u8; 4]);

    // The response round is a separate channel with the same rules.
    assert!(matches!(board.read_all_responses(), Err(Error::RoundIncomplete)));
    assert!(board
        .publish_responses(0, ResponseBundle { sender: 0, valid: vec![true, true] })
        .is_ok());
    assert!(matches!(
        board.publish_responses(0, ResponseBundle { sender: 0, valid: vec![true, true] }),
        Err(Error::DuplicatePublish)
    ));
    assert!(board
        .publish_responses(1, ResponseBundle { sender: 1, valid: vec![true, false] })
        .is_ok());
    let responses = board.read_all_responses().unwrap();
    assert_eq!(responses.len(), 2);
    assert_eq!(responses[1].valid, vec![true, false]);
}

#[test]
fn phase_typestate_edges() {
    let nodes = (0..3).map(|i| Node::new(i, vec![i as u8])).collect::<Vec<_>>();
    let group = Group::new(nodes, 2).unwrap();
    assert!(matches!(
        Phase0::new(3, vec![1, 2, 3], group),
        Err(Error::NodeNotInGroup)
    ));

    let nodes = (0..3).map(|i| Node::new(i, vec![i as u8])).collect::<Vec<_>>();
    let group = Group::new(nodes, 2).unwrap();
    assert_eq!(group.size(), 3);
    let phase0 = Phase0::new(2, vec![1, 2, 3], group).unwrap();
    assert_eq!(phase0.index, 2);

    // The justification round is represented, and errors loudly.
    assert!(matches!(
        Phase3 { index: 0 }.run(),
        Err(Error::JustificationRequired)
    ));
}

#[test]
fn setup_rejects_bad_parameters() {
    assert!(matches!(setup(5, 0), Err(Error::InvalidThreshold)));
    assert!(matches!(setup(5, 6), Err(Error::InvalidThreshold)));
    assert!(matches!(setup(0, 1), Err(Error::InvalidThreshold)));
    assert!(setup(1, 1).is_ok());
}

#[test]
fn controller_rejects_out_of_order_calls() {
    let mut c = Controller::new(1);

    // Nothing is available yet.
    assert!(matches!(c.emit_dkg_task(), Err(Error::NoDKGTask)));
    assert!(matches!(c.get_group(1), Err(Error::GroupNotFound)));
    assert!(matches!(c.emit_signature_task(), Err(Error::NoPendingTask)));
    assert_eq!(c.get_last_output(), Err(Error::NoOutputAvailable));
    assert!(!c.request(String::from("too early")));
    assert!(!c.fulfill(String::from("0x0"), 0, vec![], vec![]));

    // Registration accepts each identity once.
    assert!(c.node_register(String::from("0x0"), vec![0], String::new(), String::from("0x0")));
    assert!(!c.node_register(String::from("0x0"), vec![0], String::new(), String::from("0x0")));
    for i in 1..5 {
        assert!(c.node_register(
            format!("0x{}", i),
            vec![i as u8],
            String::new(),
            format!("0x{}", i)
        ));
    }

    // The group exists now, with the key-generation task outstanding.
    assert!(c.get_group(1).is_ok());
    assert!(matches!(c.get_group(2), Err(Error::GroupNotFound)));
    let task = c.emit_dkg_task().unwrap();
    assert_eq!((task.group_index, task.epoch), (1, 1));
    // The task is emitted once.
    assert!(matches!(c.emit_dkg_task(), Err(Error::NoDKGTask)));

    // Commits with a wrong group index, epoch or identity are rejected.
    assert!(!c.commit_dkg(String::from("0x0"), 2, 1, vec![1], vec![], vec![]));
    assert!(!c.commit_dkg(String::from("0x0"), 1, 9, vec![1], vec![], vec![]));
    assert!(!c.commit_dkg(String::from("0xff"), 1, 1, vec![1], vec![], vec![]));

    // A public key conflicting with an earlier committer's is rejected;
    // the conflict signals a faulty node, not a fatal error.
    assert!(c.commit_dkg(String::from("0x0"), 1, 1, vec![1], vec![], vec![]));
    assert!(!c.commit_dkg(String::from("0x1"), 1, 1, vec![2], vec![], vec![]));
    assert!(c.commit_dkg(String::from("0x1"), 1, 1, vec![1], vec![], vec![]));

    // Requests stay rejected until the group is available.
    assert!(!c.request(String::from("still too early")));
}

#[test]
fn byte_utilities_behave() {
    let a = vec![1u8, 2, 3];
    let b = clone_bytes(&a);
    assert!(bytes_eq(&a, &b));
    assert!(!bytes_eq(&a, &vec![1u8, 2]));
    assert!(!bytes_eq(&a, &vec![1u8, 2, 4]));

    assert!(is_all_same(&vec![vec![7u8], vec![7u8], vec![7u8]]));
    assert!(!is_all_same(&vec![vec![7u8], vec![8u8]]));
    assert!(is_all_same(&vec![vec![]]));
}

#[test]
fn malformed_curve_bytes_are_refused_without_panic() {
    // Eight zero bytes decode as a polynomial with no coefficients; taking
    // its public key must report the malformed input, not fail.
    let empty_poly = vec![0u8; 8];
    assert!(commitment_to_public_key(&empty_poly).is_empty());

    // A partial signature envelope claiming the largest possible signer
    // index, which no share can carry: refused, not evaluated.
    let mut crafted = vec![0u8; 8];
    crafted.extend_from_slice(&[0xff, 0xff, 0xff, 0xff]);
    assert!(!partial_verify(&empty_poly, "m", &crafted));
    assert_eq!(aggregate(1, &vec![crafted]), Err(Error::AggregationFailed));

    // Unreadable key and signature bytes fail verification quietly.
    assert!(!verify(&vec![], "m", &vec![]));
}

#[test]
fn randomness_output_is_a_function_of_the_signature() {
    let sig = vec![5u8, 6, 7, 8];
    assert_eq!(derive_randomness(&sig), derive_randomness(&sig.clone()));
    assert_ne!(derive_randomness(&sig), derive_randomness(&vec![5u8, 6, 7, 9]));
    // One exact value pins the fold: offset and prime of the 64-bit FNV-1a
    // family over the single byte 0x00.
    assert_eq!(
        derive_randomness(&vec![0u8]),
        (14695981039346656037u64 ^ 0).wrapping_mul(1099511628211)
    );
}
