//! The Joint-Feldman distributed key generation engine.
//!
//! Each participant walks a strictly sequential typestate progression:
//! `Phase0` (derive the secret polynomial and deal) publishes shares to the
//! board and yields `Phase1`; `Phase1` verifies every share addressed to the
//! node once the share round is complete, publishes a response per dealer,
//! and yields `Phase2`; `Phase2` reconstructs, from the complete response
//! round, the qualified dealer set, the shared public polynomial and the
//! node's long-term signing share — or asks for a justification round when
//! the complaints leave fewer qualified dealers than the threshold.
//!
//! Reconstruction is a function of the board contents alone, so every
//! participant that reaches an output over the same completed board derives
//! the identical public polynomial.

use vstd::prelude::*;

use crate::board::{Board, ResponseBundle, SharesBundle};
use crate::crypto;
use crate::error::Error;
use crate::group::Group;
use crate::sig::Share;
use crate::util::{clone_bytes, is_all_same};

verus! {

/// The share round is fully populated for `n` dealers: one bundle per
/// dealer, in dealer order, with one addressed share per recipient.
pub open spec fn bundles_complete(bs: Seq<SharesBundle>, n: int) -> bool {
    &&& bs.len() == n
    &&& forall|d: int| 0 <= d < n ==> (#[trigger] bs[d]).dealer == d && bs[d].shares@.len() == n
}

/// The response round is fully populated for `n` senders: one bundle per
/// sender, in sender order, with one verdict per dealer.
pub open spec fn responses_complete(rs: Seq<ResponseBundle>, n: int) -> bool {
    &&& rs.len() == n
    &&& forall|s: int| 0 <= s < n ==> (#[trigger] rs[s]).sender == s && rs[s].valid@.len() == n
}

/// A dealer is qualified when no participant complained about its share.
pub open spec fn dealer_qualified(rs: Seq<ResponseBundle>, d: int) -> bool {
    forall|s: int| 0 <= s < rs.len() ==> (#[trigger] rs[s]).valid@[d]
}

/// How many of the dealers `0..n` are qualified.
pub open spec fn qualified_count(rs: Seq<ResponseBundle>, n: int) -> int
    decreases n,
{
    if n <= 0 {
        0
    } else {
        qualified_count(rs, n - 1) + if dealer_qualified(rs, n - 1) {
            1int
        } else {
            0int
        }
    }
}

/// The commitments of the qualified dealers among `0..n`, in dealer order.
pub open spec fn qualified_commits(bs: Seq<SharesBundle>, rs: Seq<ResponseBundle>, n: int) -> Seq<
    Seq<u8>,
>
    decreases n,
{
    if n <= 0 {
        Seq::empty()
    } else {
        let rest = qualified_commits(bs, rs, n - 1);
        if dealer_qualified(rs, n - 1) {
            rest.push(bs[n - 1].commitment@)
        } else {
            rest
        }
    }
}

/// The shares that the qualified dealers among `0..n` addressed to
/// recipient `me`, in dealer order.
pub open spec fn qualified_shares_for(
    bs: Seq<SharesBundle>,
    rs: Seq<ResponseBundle>,
    n: int,
    me: int,
) -> Seq<Seq<u8>>
    decreases n,
{
    if n <= 0 {
        Seq::empty()
    } else {
        let rest = qualified_shares_for(bs, rs, n - 1, me);
        if dealer_qualified(rs, n - 1) {
            rest.push(bs[n - 1].shares@[me]@)
        } else {
            rest
        }
    }
}

/// The sum of a non-empty sequence of serialized commitment polynomials,
/// folded left to right.
pub open spec fn fold_commit_sum(s: Seq<Seq<u8>>) -> Seq<u8>
    decreases s.len(),
{
    if s.len() == 0 {
        Seq::empty()
    } else if s.len() == 1 {
        s[0]
    } else {
        crypto::commit_sum_of(fold_commit_sum(s.drop_last()), s.last())
    }
}

/// The sum of a non-empty sequence of serialized scalars, folded left to
/// right.
pub open spec fn fold_scalar_sum(s: Seq<Seq<u8>>) -> Seq<u8>
    decreases s.len(),
{
    if s.len() == 0 {
        Seq::empty()
    } else if s.len() == 1 {
        s[0]
    } else {
        crypto::scalar_sum_of(fold_scalar_sum(s.drop_last()), s.last())
    }
}

/// The shared public polynomial that a completed board determines: the sum
/// of the qualified dealers' commitments. It depends on the board contents
/// alone, never on which participant reconstructs.
pub open spec fn output_public(bs: Seq<SharesBundle>, rs: Seq<ResponseBundle>, n: int) -> Seq<u8> {
    fold_commit_sum(qualified_commits(bs, rs, n))
}

/// Any two participants that reconstruct from the same completed board
/// derive the identical shared public polynomial, whatever their indices.
pub proof fn lemma_same_board_same_public(
    bs: Seq<SharesBundle>,
    rs: Seq<ResponseBundle>,
    n: int,
    a: Seq<u8>,
    b: Seq<u8>,
)
    requires
        a == output_public(bs, rs, n),
        b == output_public(bs, rs, n),
    ensures
        a == b,
{
}

/// A node's output of a successful run: the shared public polynomial (as
/// commitment bytes) and the node's long-term signing share. For all honest
/// participants of one run the public polynomial is identical.
pub struct DKGOutput {
    pub public: Vec<u8>,
    pub share: Share,
}

/// Initial state: the node's private scalar and the finalized group.
pub struct Phase0 {
    pub index: usize,
    pub private: Vec<u8>,
    pub group: Group,
}

/// After dealing: the node has published its commitment and shares.
pub struct Phase1 {
    pub index: usize,
    pub group: Group,
}

/// After responding: the node has published its verdicts and may
/// reconstruct once the response round is complete.
pub struct Phase2 {
    pub index: usize,
    pub group: Group,
}

/// The justification round: complaints left fewer qualified dealers than
/// the threshold, and the run cannot conclude from public data alone.
pub struct Phase3 {
    pub index: usize,
}

/// Reconstruction either concludes with an output or must continue with a
/// justification round.
pub enum Phase2Result {
    Output(DKGOutput),
    GoToPhase3(Phase3),
}

impl Phase0 {
    pub open spec fn wf(&self) -> bool {
        self.group.wf() && self.index < self.group.nodes@.len()
    }

    /// Binds a participant to its group slot.
    pub fn new(index: usize, private: Vec<u8>, group: Group) -> (r: Result<Phase0, Error>)
        requires
            group.wf(),
        ensures
            r is Ok <==> index < group.nodes@.len(),
            r matches Ok(p) ==> p.index == index && p.private == private && p.group == group
                && p.wf(),
            r matches Err(e) ==> e == Error::NodeNotInGroup,
    {
        if index >= group.nodes.len() {
            return Err(Error::NodeNotInGroup);
        }
        Ok(Phase0 { index, private, group })
    }

    /// Deals: derives the secret polynomial with the node's private scalar
    /// as constant term, commits to it, evaluates it at every recipient
    /// index, and publishes the bundle. Fails exactly when this sender has
    /// already published in the share round.
    pub fn run(self, board: &mut Board) -> (r: Result<Phase1, Error>)
        requires
            self.wf(),
            old(board).wf(),
            old(board).size == self.group.nodes@.len(),
        ensures
            final(board).wf(),
            final(board).size == old(board).size,
            final(board).responses == old(board).responses,
            r is Ok <==> old(board).shares@[self.index as int] is None,
            r matches Err(e) ==> e == Error::DuplicatePublish && final(board).shares == old(
                board,
            ).shares,
            r matches Ok(p1) ==> p1.index == self.index && p1.group == self.group && ({
                &&& final(board).shares@[self.index as int] matches Some(sb)
                &&& forall|j: int|
                    0 <= j < old(board).size && j != self.index ==> final(board).shares@[j] == old(
                        board,
                    ).shares@[j]
                &&& {
                    let sb = final(board).shares@[self.index as int]->0;
                    &&& sb.dealer == self.index
                    &&& sb.shares@.len() == old(board).size
                    &&& exists|p: Seq<u8>|
                        sb.commitment@ == crypto::commit_of(p) && forall|j: int|
                            0 <= j < old(board).size ==> (#[trigger] sb.shares@[j])@
                                == crypto::secret_eval_of(p, j)
                }
            }),
    {
        let Phase0 { index, private, group } = self;
        let n = group.nodes.len();
        let poly = crypto::new_secret_poly(&private, group.threshold);
        let ghost gp = poly@;
        let commitment = crypto::commit_poly(&poly);
        let mut shares: Vec<Vec<u8>> = Vec::new();
        let mut j: usize = 0;
        while j < n
            invariant
                n <= 4294967295,
                j <= n,
                shares@.len() == j,
                gp == poly@,
                forall|k: int|
                    0 <= k < j ==> (#[trigger] shares@[k])@ == crypto::secret_eval_of(gp, k),
            decreases n - j,
        {
            shares.push(crypto::eval_secret(&poly, j));
            j = j + 1;
        }
        let bundle = SharesBundle { dealer: index, commitment, shares };
        let ghost gb = bundle;
        match board.publish_shares(index, bundle) {
            Ok(()) => {
                proof {
                    let sb = final(board).shares@[index as int]->0;
                    assert(sb == gb);
                    assert(sb.commitment@ == crypto::commit_of(gp));
                    assert(exists|p: Seq<u8>|
                        sb.commitment@ == crypto::commit_of(p) && forall|k: int|
                            0 <= k < old(board).size ==> (#[trigger] sb.shares@[k])@
                                == crypto::secret_eval_of(p, k));
                }
                Ok(Phase1 { index, group })
            },
            Err(_) => Err(Error::DuplicatePublish),
        }
    }
}

impl Phase1 {
    pub open spec fn wf(&self) -> bool {
        self.group.wf() && self.index < self.group.nodes@.len()
    }

    /// Responds: verifies, against each dealer's published commitment, the
    /// share that dealer addressed to this node, and publishes one verdict
    /// per dealer. Requires the share round to be complete. Fails exactly
    /// when this sender has already published in the response round.
    pub fn run(self, board: &mut Board, bundles: &Vec<SharesBundle>) -> (r: Result<Phase2, Error>)
        requires
            self.wf(),
            old(board).wf(),
            old(board).size == self.group.nodes@.len(),
            bundles_complete(bundles@, self.group.nodes@.len() as int),
        ensures
            final(board).wf(),
            final(board).size == old(board).size,
            final(board).shares == old(board).shares,
            r is Ok <==> old(board).responses@[self.index as int] is None,
            r matches Err(e) ==> e == Error::DuplicatePublish && final(board).responses == old(
                board,
            ).responses,
            r matches Ok(p2) ==> p2.index == self.index && p2.group == self.group && ({
                &&& final(board).responses@[self.index as int] matches Some(rb)
                &&& forall|j: int|
                    0 <= j < old(board).size && j != self.index ==> final(board).responses@[j]
                        == old(board).responses@[j]
                &&& {
                    let rb = final(board).responses@[self.index as int]->0;
                    &&& rb.sender == self.index
                    &&& rb.valid@.len() == old(board).size
                    &&& forall|d: int|
                        0 <= d < old(board).size ==> rb.valid@[d] == crypto::share_valid(
                            (#[trigger] bundles@[d]).commitment@,
                            self.index as int,
                            bundles@[d].shares@[self.index as int]@,
                        )
                }
            }),
    {
        let Phase1 { index, group } = self;
        let n = group.nodes.len();
        let mut valid: Vec<bool> = Vec::new();
        let mut d: usize = 0;
        while d < n
            invariant
                n <= 4294967295,
                index < n,
                bundles_complete(bundles@, n as int),
                d <= n,
                valid@.len() == d,
                forall|k: int|
                    0 <= k < d ==> valid@[k] == crypto::share_valid(
                        (#[trigger] bundles@[k]).commitment@,
                        index as int,
                        bundles@[k].shares@[index as int]@,
                    ),
            decreases n - d,
        {
            let v = crypto::verify_share(&bundles[d].commitment, index, &bundles[d].shares[index]);
            valid.push(v);
            d = d + 1;
        }
        let bundle = ResponseBundle { sender: index, valid };
        match board.publish_responses(index, bundle) {
            Ok(()) => Ok(Phase2 { index, group }),
            Err(_) => Err(Error::DuplicatePublish),
        }
    }
}

impl Phase2 {
    pub open spec fn wf(&self) -> bool {
        self.group.wf() && self.index < self.group.nodes@.len()
    }

    /// Reconstructs from the two completed rounds. A dealer with at least
    /// one complaint is excluded from the qualified set; while the
    /// qualified set still reaches the threshold, the node outputs the sum
    /// of the qualified commitments as the shared public polynomial and the
    /// sum of the qualified shares addressed to it as its signing share.
    /// Otherwise the run must continue with a justification round.
    pub fn run(self, bundles: &Vec<SharesBundle>, responses: &Vec<ResponseBundle>) -> (r:
        Phase2Result)
        requires
            self.wf(),
            bundles_complete(bundles@, self.group.nodes@.len() as int),
            responses_complete(responses@, self.group.nodes@.len() as int),
        ensures
            (r is GoToPhase3) <==> qualified_count(
                responses@,
                self.group.nodes@.len() as int,
            ) < self.group.threshold,
            r matches Phase2Result::GoToPhase3(p3) ==> p3.index == self.index,
            r matches Phase2Result::Output(out) ==> {
                let n = self.group.nodes@.len() as int;
                &&& out.public@ == output_public(bundles@, responses@, n)
                &&& out.share.index == self.index
                &&& out.share.wf()
                &&& out.share.private@ == fold_scalar_sum(
                    qualified_shares_for(bundles@, responses@, n, self.index as int),
                )
            },
    {
        let n = self.group.nodes.len();
        let ghost bs = bundles@;
        let ghost rs = responses@;
        let mut count: usize = 0;
        let mut public_acc: Option<Vec<u8>> = None;
        let mut share_acc: Option<Vec<u8>> = None;
        let mut d: usize = 0;
        while d < n
            invariant
                self.wf(),
                n == self.group.nodes@.len(),
                bs == bundles@,
                rs == responses@,
                bundles_complete(bs, n as int),
                responses_complete(rs, n as int),
                d <= n,
                count <= d,
                count == qualified_count(rs, d as int),
                qualified_commits(bs, rs, d as int).len() == count,
                qualified_shares_for(bs, rs, d as int, self.index as int).len() == count,
                (public_acc is None) <==> count == 0,
                (share_acc is None) <==> count == 0,
                public_acc matches Some(v) ==> v@ == fold_commit_sum(
                    qualified_commits(bs, rs, d as int),
                ),
                share_acc matches Some(v) ==> v@ == fold_scalar_sum(
                    qualified_shares_for(bs, rs, d as int, self.index as int),
                ),
            decreases n - d,
        {
            let mut ok = true;
            let mut s: usize = 0;
            while s < n
                invariant
                    n == rs.len(),
                    rs == responses@,
                    responses_complete(rs, n as int),
                    d < n,
                    s <= n,
                    ok == (forall|j: int| 0 <= j < s ==> (#[trigger] rs[j]).valid@[d as int]),
                decreases n - s,
            {
                if !responses[s].valid[d] {
                    ok = false;
                }
                s = s + 1;
            }
            proof {
                assert(ok == dealer_qualified(rs, d as int));
            }
            let ghost prev_commits = qualified_commits(bs, rs, d as int);
            let ghost prev_shares = qualified_shares_for(bs, rs, d as int, self.index as int);
            if ok {
                let new_public = match &public_acc {
                    None => clone_bytes(&bundles[d].commitment),
                    Some(acc) => crypto::add_commitments(acc, &bundles[d].commitment),
                };
                let new_share = match &share_acc {
                    None => clone_bytes(&bundles[d].shares[self.index]),
                    Some(acc) => crypto::add_scalars(acc, &bundles[d].shares[self.index]),
                };
                proof {
                    let next_commits = qualified_commits(bs, rs, d + 1 as int);
                    let next_shares = qualified_shares_for(bs, rs, d + 1 as int, self.index as int);
                    assert(next_commits == prev_commits.push(bs[d as int].commitment@));
                    assert(next_shares == prev_shares.push(
                        bs[d as int].shares@[self.index as int]@,
                    ));
                    if count == 0 {
                        assert(fold_commit_sum(next_commits) == next_commits[0]);
                        assert(fold_scalar_sum(next_shares) == next_shares[0]);
                    } else {
                        assert(next_commits.drop_last() =~= prev_commits);
                        assert(next_shares.drop_last() =~= prev_shares);
                        assert(fold_commit_sum(next_commits) == crypto::commit_sum_of(
                            fold_commit_sum(prev_commits),
                            bs[d as int].commitment@,
                        ));
                        assert(fold_scalar_sum(next_shares) == crypto::scalar_sum_of(
                            fold_scalar_sum(prev_shares),
                            bs[d as int].shares@[self.index as int]@,
                        ));
                    }
                }
                public_acc = Some(new_public);
                share_acc = Some(new_share);
                count = count + 1;
            } else {
                proof {
                    assert(qualified_commits(bs, rs, d + 1 as int) == prev_commits);
                    assert(qualified_shares_for(bs, rs, d + 1 as int, self.index as int)
                        == prev_shares);
                }
            }
            d = d + 1;
        }
        if count < self.group.threshold {
            return Phase2Result::GoToPhase3(Phase3 { index: self.index });
        }
        let public = match public_acc {
            Some(v) => v,
            None => {
                proof {
                    assert(false);
                }
                Vec::new()
            },
        };
        let private = match share_acc {
            Some(v) => v,
            None => {
                proof {
                    assert(false);
                }
                Vec::new()
            },
        };
        Phase2Result::Output(
            DKGOutput { public, share: Share { index: self.index, private } },
        )
    }
}

/// The group public key that a shared public polynomial determines: its
/// constant term, serialized.
pub fn commitment_to_public_key(commitment: &Vec<u8>) -> (r: Vec<u8>)
    ensures
        r@ == crypto::public_key_of(commitment@),
{
    crypto::commitment_public_key(commitment)
}

/// The partial public key a shared public polynomial assigns to a node: its
/// evaluation at the node's index, serialized.
pub fn partial_public_key(commitment: &Vec<u8>, index: usize) -> (r: Vec<u8>)
    requires
        index < 4294967295,
    ensures
        r@ == crypto::commit_eval_of(commitment@, index as int),
{
    crypto::eval_commitment(commitment, index)
}

/// Sets a run up: draws one keypair per participant, freezes the group with
/// indices in registration order, binds every participant to its slot and
/// allocates the board.
pub fn setup(n: usize, t: usize) -> (r: Result<(Board, Vec<Phase0>), Error>)
    ensures
        r is Ok <==> 1 <= t <= n && n <= 4294967295,
        r matches Ok(pair) ==> pair.0.wf() && pair.0.size == n && (forall|i: int|
            0 <= i < n ==> pair.0.shares@[i] is None) && (forall|i: int|
            0 <= i < n ==> pair.0.responses@[i] is None) && pair.1@.len() == n && (forall|i: int|
            0 <= i < n ==> (#[trigger] pair.1@[i]).wf() && pair.1@[i].index == i
                && pair.1@[i].group.nodes@.len() == n && pair.1@[i].group.threshold == t),
        r matches Ok(pair) ==> forall|i: int, k: int|
            0 <= i < n && 0 <= k < n ==> (#[trigger] pair.1@[i].group.nodes@[k]).index == k
                && pair.1@[i].group.nodes@[k].public_key@
                    == pair.1@[0].group.nodes@[k].public_key@,
        r matches Err(e) ==> e == Error::InvalidThreshold || e == Error::TooManyNodes,
{
    if t < 1 || t > n {
        return Err(Error::InvalidThreshold);
    }
    if n > 4294967295 {
        return Err(Error::TooManyNodes);
    }
    let mut privates: Vec<Vec<u8>> = Vec::new();
    let mut nodes: Vec<crate::group::Node> = Vec::new();
    let mut i: usize = 0;
    while i < n
        invariant
            i <= n,
            privates@.len() == i,
            nodes@.len() == i,
            forall|j: int| 0 <= j < i ==> (#[trigger] nodes@[j]).index == j,
        decreases n - i,
    {
        let (private, public) = crypto::new_keypair();
        privates.push(private);
        nodes.push(crate::group::Node::new(i, public));
        i = i + 1;
    }
    let group = match Group::new(nodes, t) {
        Ok(g) => g,
        Err(e) => {
            proof {
                assert(false);
            }
            return Err(e);
        },
    };
    let mut phase0s: Vec<Phase0> = Vec::new();
    let mut i: usize = 0;
    while i < n
        invariant
            i <= n,
            privates@.len() == n,
            group.wf(),
            group.nodes@.len() == n,
            group.threshold == t,
            phase0s@.len() == i,
            forall|j: int|
                0 <= j < i ==> (#[trigger] phase0s@[j]).wf() && phase0s@[j].index == j
                    && phase0s@[j].group.nodes@.len() == n && phase0s@[j].group.threshold == t,
            forall|j: int, k: int|
                0 <= j < i && 0 <= k < n ==> (#[trigger] phase0s@[j].group.nodes@[k]).index == k
                    && phase0s@[j].group.nodes@[k].public_key@ == group.nodes@[k].public_key@,
        decreases n - i,
    {
        let p = Phase0 { index: i, private: clone_bytes(&privates[i]), group: group.duplicate() };
        phase0s.push(p);
        i = i + 1;
    }
    Ok((Board::new(n), phase0s))
}

/// Runs the three-phase protocol for every participant over one shared
/// board, synchronizing at each round barrier. On success every participant
/// holds an output, and all the outputs carry the identical shared public
/// polynomial; when complaints leave fewer qualified dealers than the
/// threshold, the run asks for the justification round instead.
pub fn run_dkg(board: &mut Board, phase0s: Vec<Phase0>) -> (r: Result<Vec<DKGOutput>, Error>)
    requires
        old(board).wf(),
        old(board).size == phase0s@.len(),
        phase0s@.len() >= 1,
        forall|i: int| 0 <= i < old(board).size ==> old(board).shares@[i] is None,
        forall|i: int| 0 <= i < old(board).size ==> old(board).responses@[i] is None,
        forall|i: int|
            0 <= i < phase0s@.len() ==> (#[trigger] phase0s@[i]).wf() && phase0s@[i].index == i
                && phase0s@[i].group.nodes@.len() == phase0s@.len()
                && phase0s@[i].group.threshold == phase0s@[0].group.threshold,
    ensures
        final(board).wf(),
        final(board).size == old(board).size,
        r matches Err(e) ==> e == Error::JustificationRequired
            && exists|bs: Seq<SharesBundle>, rs: Seq<ResponseBundle>| {
            &&& #[trigger] bundles_complete(bs, old(board).size as int)
            &&& #[trigger] responses_complete(rs, old(board).size as int)
            &&& qualified_count(rs, old(board).size as int) < phase0s@[0].group.threshold
        },
        r matches Ok(outs) ==> outs@.len() == old(board).size && (forall|i: int|
            0 <= i < outs@.len() ==> (#[trigger] outs@[i]).share.index == i
                && outs@[i].share.wf() && outs@[i].public@ == outs@[0].public@),
        r matches Ok(outs) ==> exists|bs: Seq<SharesBundle>, rs: Seq<ResponseBundle>| {
            &&& #[trigger] bundles_complete(bs, old(board).size as int)
            &&& #[trigger] responses_complete(rs, old(board).size as int)
            &&& qualified_count(rs, old(board).size as int) >= phase0s@[0].group.threshold
            &&& forall|i: int|
                0 <= i < outs@.len() ==> (#[trigger] outs@[i]).public@ == output_public(
                    bs,
                    rs,
                    old(board).size as int,
                ) && outs@[i].share.private@ == fold_scalar_sum(
                    qualified_shares_for(bs, rs, old(board).size as int, i),
                )
        },
{
    let n = board.size;
    let ghost t0 = phase0s@[0].group.threshold;

    // Share round: every participant deals.
    let mut rest0 = phase0s;
    let mut phase1s: Vec<Phase1> = Vec::new();
    while rest0.len() > 0
        invariant
            board.wf(),
            board.size == n,
            phase1s@.len() + rest0@.len() == n,
            forall|i: int|
                0 <= i < rest0@.len() ==> (#[trigger] rest0@[i]).wf() && rest0@[i].index
                    == phase1s@.len() + i && rest0@[i].group.nodes@.len() == n
                    && rest0@[i].group.threshold == t0,
            forall|i: int|
                0 <= i < phase1s@.len() ==> (#[trigger] phase1s@[i]).wf() && phase1s@[i].index == i
                    && phase1s@[i].group.nodes@.len() == n && phase1s@[i].group.threshold == t0,
            forall|j: int| 0 <= j < n ==> (board.shares@[j] is Some <==> j < phase1s@.len()),
            forall|j: int|
                0 <= j < phase1s@.len() ==> (#[trigger] board.shares@[j])->0.dealer == j
                    && board.shares@[j]->0.shares@.len() == n,
            forall|j: int| 0 <= j < n ==> board.responses@[j] is None,
        decreases rest0@.len(),
    {
        let p0 = rest0.remove(0);
        match p0.run(board) {
            Ok(p1) => phase1s.push(p1),
            Err(_) => {
                proof {
                    assert(false);
                }
                return Err(Error::JustificationRequired);
            },
        }
    }
    let bundles = match board.read_all_shares() {
        Ok(b) => b,
        Err(_) => {
            proof {
                assert(false);
            }
            return Err(Error::JustificationRequired);
        },
    };
    proof {
        assert(bundles_complete(bundles@, n as int));
    }

    // Response round: every participant verifies and responds.
    let mut rest1 = phase1s;
    let mut phase2s: Vec<Phase2> = Vec::new();
    while rest1.len() > 0
        invariant
            board.wf(),
            board.size == n,
            bundles_complete(bundles@, n as int),
            phase2s@.len() + rest1@.len() == n,
            forall|i: int|
                0 <= i < rest1@.len() ==> (#[trigger] rest1@[i]).wf() && rest1@[i].index
                    == phase2s@.len() + i && rest1@[i].group.nodes@.len() == n
                    && rest1@[i].group.threshold == t0,
            forall|i: int|
                0 <= i < phase2s@.len() ==> (#[trigger] phase2s@[i]).wf() && phase2s@[i].index == i
                    && phase2s@[i].group.nodes@.len() == n && phase2s@[i].group.threshold == t0,
            forall|j: int| 0 <= j < n ==> (board.responses@[j] is Some <==> j < phase2s@.len()),
            forall|j: int|
                0 <= j < phase2s@.len() ==> (#[trigger] board.responses@[j])->0.sender == j
                    && board.responses@[j]->0.valid@.len() == n,
        decreases rest1@.len(),
    {
        let p1 = rest1.remove(0);
        match p1.run(board, &bundles) {
            Ok(p2) => phase2s.push(p2),
            Err(_) => {
                proof {
                    assert(false);
                }
                return Err(Error::JustificationRequired);
            },
        }
    }
    let responses = match board.read_all_responses() {
        Ok(b) => b,
        Err(_) => {
            proof {
                assert(false);
            }
            return Err(Error::JustificationRequired);
        },
    };
    proof {
        assert(responses_complete(responses@, n as int));
    }

    // Reconstruction: every participant derives its output locally.
    let mut rest2 = phase2s;
    let mut outs: Vec<DKGOutput> = Vec::new();
    while rest2.len() > 0
        invariant
            board.wf(),
            board.size == n,
            n == old(board).size,
            n >= 1,
            t0 == phase0s@[0].group.threshold,
            bundles_complete(bundles@, n as int),
            responses_complete(responses@, n as int),
            outs@.len() + rest2@.len() == n,
            forall|i: int|
                0 <= i < rest2@.len() ==> (#[trigger] rest2@[i]).wf() && rest2@[i].index
                    == outs@.len() + i && rest2@[i].group.nodes@.len() == n
                    && rest2@[i].group.threshold == t0,
            forall|i: int|
                0 <= i < outs@.len() ==> (#[trigger] outs@[i]).share.index == i
                    && outs@[i].share.wf() && outs@[i].public@ == output_public(
                    bundles@,
                    responses@,
                    n as int,
                ) && outs@[i].share.private@ == fold_scalar_sum(
                    qualified_shares_for(bundles@, responses@, n as int, i),
                ),
            outs@.len() > 0 ==> qualified_count(responses@, n as int) >= t0,
        decreases rest2@.len(),
    {
        let p2 = rest2.remove(0);
        match p2.run(&bundles, &responses) {
            Phase2Result::Output(out) => outs.push(out),
            Phase2Result::GoToPhase3(_) => {
                proof {
                    assert(bundles_complete(bundles@, old(board).size as int)
                        && responses_complete(responses@, old(board).size as int)
                        && qualified_count(responses@, old(board).size as int) < phase0s@[
                        0].group.threshold);
                }
                return Err(Error::JustificationRequired);
            },
        }
    }

    // Integrity check demanded by the protocol: every participant must have
    // derived the identical public polynomial.
    let mut publics: Vec<Vec<u8>> = Vec::new();
    let mut i: usize = 0;
    while i < outs.len()
        invariant
            board.wf(),
            board.size == n,
            outs@.len() == n,
            n >= 1,
            i <= n,
            publics@.len() == i,
            bundles_complete(bundles@, n as int),
            responses_complete(responses@, n as int),
            qualified_count(responses@, n as int) >= t0,
            forall|j: int|
                0 <= j < outs@.len() ==> (#[trigger] outs@[j]).share.index == j
                    && outs@[j].share.wf() && outs@[j].public@ == output_public(
                    bundles@,
                    responses@,
                    n as int,
                ) && outs@[j].share.private@ == fold_scalar_sum(
                    qualified_shares_for(bundles@, responses@, n as int, j),
                ),
            forall|j: int|
                0 <= j < outs@.len() ==> (#[trigger] outs@[j]).public@ == outs@[0].public@,
            forall|j: int| 0 <= j < i ==> (#[trigger] publics@[j])@ == outs@[j].public@,
        decreases n - i,
    {
        publics.push(clone_bytes(&outs[i].public));
        i = i + 1;
    }
    if !is_all_same(&publics) {
        return Err(Error::InconsistentPublicKeys);
    }
    proof {
        let gn = old(board).size as int;
        assert(bundles_complete(bundles@, gn) && responses_complete(responses@, gn)
            && qualified_count(responses@, gn) >= phase0s@[0].group.threshold && forall|i: int|
            0 <= i < outs@.len() ==> (#[trigger] outs@[i]).public@ == output_public(
                bundles@,
                responses@,
                gn,
            ) && outs@[i].share.private@ == fold_scalar_sum(
                qualified_shares_for(bundles@, responses@, gn, i),
            ));
    }
    Ok(outs)
}

impl Phase3 {
    /// The justification round is part of the protocol's contract but not
    /// of this implementation: reaching it is reported loudly instead of
    /// being silently assumed away.
    pub fn run(&self) -> (r: Result<DKGOutput, Error>)
        ensures
            r matches Err(e) && e == Error::JustificationRequired,
    {
        Err(Error::JustificationRequired)
    }
}

} // verus!
