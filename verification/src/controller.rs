//! The coordinating authority: an explicit state container whose transition
//! functions validate their preconditions and return typed outcomes.
//!
//! Group lifecycle: `Forming` (no group yet) → `DKGRequested` (the target
//! participant count was reached and a key-generation task was recorded) →
//! `Committing` (the task was emitted) → `Available` (every member committed
//! a consistent result). Randomness lifecycle: an accepted request creates a
//! `Pending` signature task bound to the available group; a fulfilment must
//! re-verify the aggregated signature before the task becomes `Fulfilled`
//! and the beacon output is updated.
//!
//! Duplicate commits and duplicate fulfilments are idempotent rejections:
//! they return `false` and leave the state untouched.

use vstd::prelude::*;

use crate::crypto;
use crate::error::Error;
use crate::sig;
use crate::util::bytes_eq;

verus! {

/// The participant count at which the registry freezes into a group.
pub const DEFAULT_GROUP_SIZE: usize = 5;

/// The reconstruction threshold of a freshly formed group.
pub const DEFAULT_THRESHOLD: usize = 3;

/// The multiplier of the output-derivation fold.
pub const RANDOMNESS_PRIME: u64 = 1099511628211;

/// The initial accumulator of the output-derivation fold.
pub const RANDOMNESS_OFFSET: u64 = 14695981039346656037;

/// One step of the output-derivation fold over the signature bytes.
pub open spec fn randomness_step(acc: u64, b: u8) -> u64 {
    (acc ^ (b as u64)).wrapping_mul(RANDOMNESS_PRIME)
}

/// The fold over the first `k` signature bytes.
pub open spec fn randomness_fold(sig: Seq<u8>, k: int) -> u64
    decreases k,
{
    if k <= 0 {
        RANDOMNESS_OFFSET
    } else {
        randomness_step(randomness_fold(sig, k - 1), sig[k - 1])
    }
}

/// The beacon output: a deterministic function of the fulfilled aggregated
/// signature, and of nothing else.
pub open spec fn randomness_of(sig: Seq<u8>) -> u64 {
    randomness_fold(sig, sig.len() as int)
}

/// Computes `randomness_of` over the given signature bytes.
pub fn derive_randomness(sig: &Vec<u8>) -> (r: u64)
    ensures
        r == randomness_of(sig@),
{
    let mut acc: u64 = RANDOMNESS_OFFSET;
    let mut i: usize = 0;
    while i < sig.len()
        invariant
            i <= sig@.len(),
            acc == randomness_fold(sig@, i as int),
        decreases sig@.len() - i,
    {
        acc = (acc ^ (sig[i] as u64)).wrapping_mul(RANDOMNESS_PRIME);
        i = i + 1;
    }
    acc
}

/// Whether some string in `ids` holds the characters `id`.
pub open spec fn seq_contains_string(ids: Seq<String>, id: Seq<char>) -> bool {
    exists|i: int| 0 <= i < ids.len() && (#[trigger] ids[i])@ == id
}

/// True exactly when some string in `v` holds the same characters as `id`.
pub fn contains_string(v: &Vec<String>, id: &String) -> (r: bool)
    ensures
        r == seq_contains_string(v@, id@),
{
    let mut i: usize = 0;
    while i < v.len()
        invariant
            i <= v@.len(),
            forall|j: int| 0 <= j < i ==> (#[trigger] v@[j])@ != id@,
        decreases v@.len() - i,
    {
        if v[i].eq(id) {
            return true;
        }
        i = i + 1;
    }
    false
}

/// The position of the first available group, if any.
fn first_available_group(groups: &Vec<ControllerGroup>) -> (r: Option<usize>)
    ensures
        r matches Some(k) ==> k < groups@.len() && k as int == first_available_from(groups@, 0),
        r is None <==> first_available_from(groups@, 0) < 0,
{
    let mut k: usize = 0;
    while k < groups.len()
        invariant
            k <= groups@.len(),
            first_available_from(groups@, 0) == first_available_from(groups@, k as int),
        decreases groups@.len() - k,
    {
        if groups[k].state == GroupState::Available {
            return Some(k);
        }
        k = k + 1;
    }
    None
}

/// The lifecycle of a group.
#[derive(Clone, Copy, Debug, PartialEq, Eq, Structural)]
pub enum GroupState {
    Forming,
    DKGRequested,
    Committing,
    Available,
}

/// The lifecycle of a signature task.
#[derive(Clone, Copy, Debug, PartialEq, Eq, Structural)]
pub enum TaskState {
    Pending,
    Fulfilled,
}

/// A request for a group to run distributed key generation.
#[derive(Clone, Copy, Debug, PartialEq, Eq, Structural)]
pub struct DKGTask {
    pub group_index: usize,
    pub epoch: usize,
}

/// A registered participant.
pub struct RegisteredNode {
    pub id_address: String,
    pub dkg_public_key: Vec<u8>,
    pub node_rpc_endpoint: String,
    pub signing_address: String,
}

/// A formed group: member identities in registration order, the threshold,
/// the epoch, and — once commits arrive — the agreed public key and the set
/// of committers.
pub struct ControllerGroup {
    pub index: usize,
    pub epoch: usize,
    pub threshold: usize,
    pub state: GroupState,
    pub members: Vec<String>,
    pub public_key: Vec<u8>,
    pub committers: Vec<String>,
    pub partial_public_keys: Vec<(String, Vec<u8>)>,
    pub disqualified: Vec<String>,
}

/// A request for the group to jointly sign `message`; fulfilment records
/// the aggregated signature, who fulfilled, and the committers eligible for
/// reward accounting.
pub struct SignatureTask {
    pub index: usize,
    pub group_index: usize,
    pub message: String,
    pub state: TaskState,
    pub signature: Vec<u8>,
    pub fulfiller: Option<String>,
    pub reward_committers: Vec<String>,
}

/// The coordination state machine.
pub struct Controller {
    pub entropy: u64,
    pub nodes: Vec<RegisteredNode>,
    pub groups: Vec<ControllerGroup>,
    pub dkg_task: Option<DKGTask>,
    pub tasks: Vec<SignatureTask>,
    pub last_output: Option<u64>,
}

/// Whether some registered node carries the identity `id`.
pub open spec fn nodes_contain(nodes: Seq<RegisteredNode>, id: Seq<char>) -> bool {
    exists|i: int| 0 <= i < nodes.len() && (#[trigger] nodes[i]).id_address@ == id
}

/// The position of the first `Available` group at or after `k`, or `-1`.
pub open spec fn first_available_from(groups: Seq<ControllerGroup>, k: int) -> int
    decreases groups.len() - k,
{
    if k < 0 || k >= groups.len() {
        -1
    } else if groups[k].state == GroupState::Available {
        k
    } else {
        first_available_from(groups, k + 1)
    }
}

/// The position of the first `Pending` task at or after `k`, or `-1`.
pub open spec fn first_pending_from(tasks: Seq<SignatureTask>, k: int) -> int
    decreases tasks.len() - k,
{
    if k < 0 || k >= tasks.len() {
        -1
    } else if tasks[k].state == TaskState::Pending {
        k
    } else {
        first_pending_from(tasks, k + 1)
    }
}

/// A `commit_dkg` call is accepted exactly under these conditions: the
/// group exists and awaits commits, the epoch matches, the caller is a
/// member that has not committed yet, and the reported public key does not
/// conflict with a previously committed one.
pub open spec fn commit_accepts(
    c: Controller,
    id: Seq<char>,
    gi: int,
    ep: int,
    pk: Seq<u8>,
) -> bool {
    &&& 1 <= gi <= c.groups@.len()
    &&& {
        let g = c.groups@[gi - 1];
        &&& g.state == GroupState::Committing
        &&& g.epoch == ep
        &&& seq_contains_string(g.members@, id)
        &&& !seq_contains_string(g.committers@, id)
        &&& (g.committers@.len() > 0 ==> g.public_key@ == pk)
    }
}

/// How an accepted `commit_dkg` call changes the state: the caller joins
/// the committers, its partial public key and disqualification report are
/// recorded, the first commit fixes the group public key, and the group
/// becomes `Available` once every member committed.
pub open spec fn commit_transition(
    pre: Controller,
    post: Controller,
    id: String,
    gi: int,
    pk: Seq<u8>,
    ppk: Vec<u8>,
    dq: Seq<String>,
) -> bool {
    &&& post.entropy == pre.entropy
    &&& post.nodes == pre.nodes
    &&& post.dkg_task == pre.dkg_task
    &&& post.tasks == pre.tasks
    &&& post.last_output == pre.last_output
    &&& post.groups@.len() == pre.groups@.len()
    &&& forall|j: int|
        0 <= j < pre.groups@.len() && j != gi - 1 ==> post.groups@[j] == pre.groups@[j]
    &&& {
        let g = pre.groups@[gi - 1];
        let g2 = post.groups@[gi - 1];
        &&& g2.index == g.index
        &&& g2.epoch == g.epoch
        &&& g2.threshold == g.threshold
        &&& g2.members == g.members
        &&& g2.committers@ == g.committers@.push(id)
        &&& g2.partial_public_keys@ == g.partial_public_keys@.push((id, ppk))
        &&& g2.public_key@ == if g.committers@.len() == 0 {
            pk
        } else {
            g.public_key@
        }
        &&& g2.disqualified@ == g.disqualified@ + dq
        &&& g2.state == if g.committers@.len() + 1 == g.members@.len() {
            GroupState::Available
        } else {
            GroupState::Committing
        }
    }
}

/// A `fulfill` call is accepted exactly under these conditions: the task
/// exists, is still pending, and the aggregated signature verifies under
/// the bound group's public key and the task's message.
pub open spec fn fulfill_accepts(c: Controller, index: int, sig: Seq<u8>) -> bool {
    &&& 0 <= index < c.tasks@.len()
    &&& c.tasks@[index].state == TaskState::Pending
    &&& crypto::signature_valid(
        c.groups@[c.tasks@[index].group_index - 1].public_key@,
        c.tasks@[index].message@,
        sig,
    )
}

/// How an accepted `fulfill` call changes the state: the task becomes
/// `Fulfilled`, carrying the signature, the fulfiller and the reward set,
/// and the beacon output becomes a deterministic function of the signature.
pub open spec fn fulfill_transition(
    pre: Controller,
    post: Controller,
    id: String,
    index: int,
    sig: Vec<u8>,
    rewards: Seq<(String, Vec<u8>)>,
) -> bool {
    &&& post.entropy == pre.entropy
    &&& post.nodes == pre.nodes
    &&& post.groups == pre.groups
    &&& post.dkg_task == pre.dkg_task
    &&& post.tasks@.len() == pre.tasks@.len()
    &&& forall|j: int| 0 <= j < pre.tasks@.len() && j != index ==> post.tasks@[j] == pre.tasks@[j]
    &&& {
        let t = pre.tasks@[index];
        let t2 = post.tasks@[index];
        &&& t2.index == t.index
        &&& t2.group_index == t.group_index
        &&& t2.message == t.message
        &&& t2.state == TaskState::Fulfilled
        &&& t2.signature == sig
        &&& t2.fulfiller == Some(id)
        &&& t2.reward_committers@.len() == rewards.len()
        &&& forall|k: int|
            0 <= k < rewards.len() ==> (#[trigger] t2.reward_committers@[k]) == rewards[k].0
    }
    &&& post.last_output == Some(randomness_of(sig@))
}

impl Controller {
    /// Structural facts every operation preserves: groups are stored under
    /// their one-based index, commit counts agree with the group state, and
    /// tasks are stored under their index and bound to an existing group.
    pub open spec fn wf(&self) -> bool {
        &&& forall|g: int|
            0 <= g < self.groups@.len() ==> {
                let grp = #[trigger] self.groups@[g];
                &&& grp.index == g + 1
                &&& grp.threshold >= 1
                &&& grp.members@.len() >= 1
                &&& (grp.state == GroupState::DKGRequested ==> grp.committers@.len() == 0)
                &&& (grp.state == GroupState::Committing ==> grp.committers@.len()
                    < grp.members@.len())
                &&& (grp.state == GroupState::Available ==> grp.committers@.len()
                    == grp.members@.len())
            }
        &&& forall|t: int|
            0 <= t < self.tasks@.len() ==> {
                let task = #[trigger] self.tasks@[t];
                &&& task.index == t
                &&& 1 <= task.group_index <= self.groups@.len()
            }
        &&& (self.dkg_task matches Some(t) ==> 1 <= t.group_index <= self.groups@.len())
        &&& (self.groups@.len() == 0 ==> self.nodes@.len() < DEFAULT_GROUP_SIZE)
    }

    /// Deploys a fresh controller, recording the deployment entropy.
    pub fn new(initial_entropy: u64) -> (c: Controller)
        ensures
            c.wf(),
            c.entropy == initial_entropy,
            c.nodes@.len() == 0,
            c.groups@.len() == 0,
            c.dkg_task is None,
            c.tasks@.len() == 0,
            c.last_output is None,
    {
        Controller {
            entropy: initial_entropy,
            nodes: Vec::new(),
            groups: Vec::new(),
            dkg_task: None,
            tasks: Vec::new(),
            last_output: None,
        }
    }

    /// Registers a node. Accepted only while the registry is still forming
    /// (no group exists) and the identity is new; reaching the target
    /// participant count freezes the registry into a group, with indices in
    /// registration order, and records the key-generation task.
    pub fn node_register(
        &mut self,
        id_address: String,
        dkg_public_key: Vec<u8>,
        node_rpc_endpoint: String,
        signing_address: String,
    ) -> (r: bool)
        requires
            old(self).wf(),
        ensures
            final(self).wf(),
            r == (old(self).groups@.len() == 0 && !nodes_contain(old(self).nodes@, id_address@)),
            !r ==> *final(self) == *old(self),
            r ==> final(self).entropy == old(self).entropy && final(self).tasks == old(self).tasks
                && final(self).last_output == old(self).last_output && final(self).nodes@ == old(
                self,
            ).nodes@.push(
                RegisteredNode { id_address, dkg_public_key, node_rpc_endpoint, signing_address },
            ),
            r && old(self).nodes@.len() + 1 < DEFAULT_GROUP_SIZE ==> final(self).groups == old(
                self,
            ).groups && final(self).dkg_task == old(self).dkg_task,
            r && old(self).nodes@.len() + 1 == DEFAULT_GROUP_SIZE ==> {
                &&& final(self).groups@.len() == 1
                &&& final(self).dkg_task == Some(DKGTask { group_index: 1, epoch: 1 })
                &&& {
                    let g = final(self).groups@[0];
                    &&& g.index == 1
                    &&& g.epoch == 1
                    &&& g.threshold == DEFAULT_THRESHOLD
                    &&& g.state == GroupState::DKGRequested
                    &&& g.members@.len() == DEFAULT_GROUP_SIZE
                    &&& forall|i: int|
                        0 <= i < DEFAULT_GROUP_SIZE ==> (#[trigger] g.members@[i])
                            == final(self).nodes@[i].id_address
                    &&& g.committers@.len() == 0
                    &&& g.partial_public_keys@.len() == 0
                    &&& g.disqualified@.len() == 0
                }
            },
    {
        if self.groups.len() > 0 {
            return false;
        }
        let mut i: usize = 0;
        while i < self.nodes.len()
            invariant
                *self == *old(self),
                old(self).wf(),
                self.groups@.len() == 0,
                i <= self.nodes@.len(),
                forall|j: int| 0 <= j < i ==> (#[trigger] self.nodes@[j]).id_address@ != id_address@,
            decreases self.nodes@.len() - i,
        {
            if self.nodes[i].id_address.eq(&id_address) {
                proof {
                    assert(nodes_contain(old(self).nodes@, id_address@));
                }
                return false;
            }
            i = i + 1;
        }
        self.nodes.push(
            RegisteredNode { id_address, dkg_public_key, node_rpc_endpoint, signing_address },
        );
        if self.nodes.len() == DEFAULT_GROUP_SIZE {
            let mut members: Vec<String> = Vec::new();
            let mut i: usize = 0;
            while i < self.nodes.len()
                invariant
                    self.entropy == old(self).entropy,
                    self.groups == old(self).groups,
                    self.dkg_task == old(self).dkg_task,
                    self.tasks == old(self).tasks,
                    self.last_output == old(self).last_output,
                    self.nodes@ == old(self).nodes@.push(
                        RegisteredNode {
                            id_address,
                            dkg_public_key,
                            node_rpc_endpoint,
                            signing_address,
                        },
                    ),
                    self.nodes@.len() == DEFAULT_GROUP_SIZE,
                    self.groups@.len() == 0,
                    old(self).wf(),
                    i <= self.nodes@.len(),
                    members@.len() == i,
                    forall|j: int|
                        0 <= j < i ==> (#[trigger] members@[j]) == self.nodes@[j].id_address,
                decreases self.nodes@.len() - i,
            {
                members.push(self.nodes[i].id_address.clone());
                i = i + 1;
            }
            let g = ControllerGroup {
                index: 1,
                epoch: 1,
                threshold: DEFAULT_THRESHOLD,
                state: GroupState::DKGRequested,
                members,
                public_key: Vec::new(),
                committers: Vec::new(),
                partial_public_keys: Vec::new(),
                disqualified: Vec::new(),
            };
            self.groups.push(g);
            self.dkg_task = Some(DKGTask { group_index: 1, epoch: 1 });
        }
        true
    }

    /// Surfaces the recorded key-generation task; the group then awaits
    /// commits. Accepted only while the group still has the task
    /// outstanding.
    pub fn emit_dkg_task(&mut self) -> (r: Result<DKGTask, Error>)
        requires
            old(self).wf(),
        ensures
            final(self).wf(),
            r is Ok <==> (old(self).dkg_task matches Some(t) && old(self).groups@[t.group_index
                - 1].state == GroupState::DKGRequested),
            r matches Err(e) ==> e == Error::NoDKGTask && *final(self) == *old(self),
            r matches Ok(t) ==> old(self).dkg_task == Some(t) && final(self).entropy == old(
                self,
            ).entropy && final(self).nodes == old(self).nodes && final(self).dkg_task == old(
                self,
            ).dkg_task && final(self).tasks == old(self).tasks && final(self).last_output == old(
                self,
            ).last_output && final(self).groups@.len() == old(self).groups@.len() && (forall|j: int|
                0 <= j < old(self).groups@.len() && j != t.group_index - 1
                    ==> final(self).groups@[j] == old(self).groups@[j]) && {
                let g = old(self).groups@[t.group_index - 1];
                let g2 = final(self).groups@[t.group_index - 1];
                &&& g2.index == g.index
                &&& g2.epoch == g.epoch
                &&& g2.threshold == g.threshold
                &&& g2.state == GroupState::Committing
                &&& g2.members == g.members
                &&& g2.public_key == g.public_key
                &&& g2.committers == g.committers
                &&& g2.partial_public_keys == g.partial_public_keys
                &&& g2.disqualified == g.disqualified
            },
    {
        let task = match &self.dkg_task {
            Some(t) => *t,
            None => {
                return Err(Error::NoDKGTask);
            },
        };
        let gidx = task.group_index - 1;
        if self.groups[gidx].state != GroupState::DKGRequested {
            return Err(Error::NoDKGTask);
        }
        let mut g = self.groups.remove(gidx);
        g.state = GroupState::Committing;
        self.groups.insert(gidx, g);
        proof {
            assert(final(self).groups@ =~= old(self).groups@.update(
                gidx as int,
                final(self).groups@[gidx as int],
            ));
        }
        Ok(task)
    }

    /// Records one node's reported key-generation result. Rejected — without
    /// side effect — on a wrong group index or epoch, a non-member, a
    /// duplicate commit, or a public key that conflicts with a previously
    /// committed one. Once every member has committed consistently the
    /// group becomes `Available`.
    pub fn commit_dkg(
        &mut self,
        id_address: String,
        group_index: usize,
        group_epoch: usize,
        public_key: Vec<u8>,
        partial_public_key: Vec<u8>,
        disqualified_nodes: Vec<String>,
    ) -> (r: bool)
        requires
            old(self).wf(),
        ensures
            final(self).wf(),
            r == commit_accepts(
                *old(self),
                id_address@,
                group_index as int,
                group_epoch as int,
                public_key@,
            ),
            !r ==> *final(self) == *old(self),
            r ==> commit_transition(
                *old(self),
                *final(self),
                id_address,
                group_index as int,
                public_key@,
                partial_public_key,
                disqualified_nodes@,
            ),
    {
        if group_index < 1 || group_index > self.groups.len() {
            return false;
        }
        let gidx = group_index - 1;
        if self.groups[gidx].state != GroupState::Committing {
            return false;
        }
        if self.groups[gidx].epoch != group_epoch {
            return false;
        }
        if !contains_string(&self.groups[gidx].members, &id_address) {
            return false;
        }
        if contains_string(&self.groups[gidx].committers, &id_address) {
            return false;
        }
        if self.groups[gidx].committers.len() > 0 && !bytes_eq(
            &self.groups[gidx].public_key,
            &public_key,
        ) {
            return false;
        }
        let mut g = self.groups.remove(gidx);
        let was_first = g.committers.len() == 0;
        g.committers.push(id_address.clone());
        g.partial_public_keys.push((id_address, partial_public_key));
        if was_first {
            g.public_key = public_key;
        }
        let mut dq = disqualified_nodes;
        g.disqualified.append(&mut dq);
        if g.committers.len() == g.members.len() {
            g.state = GroupState::Available;
        }
        self.groups.insert(gidx, g);
        proof {
            assert(final(self).groups@ =~= old(self).groups@.update(
                gidx as int,
                final(self).groups@[gidx as int],
            ));
        }
        true
    }

    /// A read-only snapshot of a formed group.
    pub fn get_group(&self, index: usize) -> (r: Result<&ControllerGroup, Error>)
        ensures
            r is Ok <==> 1 <= index <= self.groups@.len(),
            r matches Ok(g) ==> *g == self.groups@[index - 1],
            r matches Err(e) ==> e == Error::GroupNotFound,
    {
        if index < 1 || index > self.groups.len() {
            return Err(Error::GroupNotFound);
        }
        Ok(&self.groups[index - 1])
    }

    /// Accepts a randomness request once at least one group is available:
    /// a pending signature task, bound to the first available group and to
    /// the message derived from the seed, is appended.
    pub fn request(&mut self, seed: String) -> (r: bool)
        requires
            old(self).wf(),
        ensures
            final(self).wf(),
            r == (first_available_from(old(self).groups@, 0) >= 0),
            !r ==> *final(self) == *old(self),
            r ==> final(self).entropy == old(self).entropy && final(self).nodes == old(self).nodes
                && final(self).groups == old(self).groups && final(self).dkg_task == old(
                self,
            ).dkg_task && final(self).last_output == old(self).last_output
                && final(self).tasks@.len() == old(self).tasks@.len() + 1 && (forall|j: int|
                0 <= j < old(self).tasks@.len() ==> final(self).tasks@[j] == old(self).tasks@[j])
                && {
                let t = final(self).tasks@[old(self).tasks@.len() as int];
                &&& t.index == old(self).tasks@.len()
                &&& t.group_index == first_available_from(old(self).groups@, 0) + 1
                &&& t.message == seed
                &&& t.state == TaskState::Pending
                &&& t.signature@.len() == 0
                &&& t.fulfiller is None
                &&& t.reward_committers@.len() == 0
            },
    {
        let found: usize = match first_available_group(&self.groups) {
            Some(k) => k,
            None => {
                return false;
            },
        };
        let group_count: usize = self.groups.len();
        assert(found < group_count);
        let t = SignatureTask {
            index: self.tasks.len(),
            group_index: found + 1,
            message: seed,
            state: TaskState::Pending,
            signature: Vec::new(),
            fulfiller: None,
            reward_committers: Vec::new(),
        };
        self.tasks.push(t);
        true
    }

    /// Surfaces the earliest pending signature task, read-only.
    pub fn emit_signature_task(&self) -> (r: Result<&SignatureTask, Error>)
        ensures
            r is Ok <==> first_pending_from(self.tasks@, 0) >= 0,
            r matches Ok(t) ==> *t == self.tasks@[first_pending_from(self.tasks@, 0)],
            r matches Err(e) ==> e == Error::NoPendingTask,
    {
        let mut k: usize = 0;
        while k < self.tasks.len()
            invariant
                k <= self.tasks@.len(),
                first_pending_from(self.tasks@, 0) == first_pending_from(self.tasks@, k as int),
            decreases self.tasks@.len() - k,
        {
            if self.tasks[k].state == TaskState::Pending {
                return Ok(&self.tasks[k]);
            }
            k = k + 1;
        }
        Err(Error::NoPendingTask)
    }

    /// Accepts a fulfilment of a pending task after independently
    /// re-verifying the aggregated signature against the bound group's
    /// public key and the task's message. A duplicate or unknown task index
    /// and a failing signature are rejected without side effect.
    pub fn fulfill(
        &mut self,
        id_address: String,
        index: usize,
        signature: Vec<u8>,
        partial_signatures: Vec<(String, Vec<u8>)>,
    ) -> (r: bool)
        requires
            old(self).wf(),
        ensures
            final(self).wf(),
            r == fulfill_accepts(*old(self), index as int, signature@),
            !r ==> *final(self) == *old(self),
            r ==> fulfill_transition(
                *old(self),
                *final(self),
                id_address,
                index as int,
                signature,
                partial_signatures@,
            ),
    {
        if index >= self.tasks.len() {
            return false;
        }
        if self.tasks[index].state != TaskState::Pending {
            return false;
        }
        let gidx = self.tasks[index].group_index - 1;
        let ok = sig::verify(
            &self.groups[gidx].public_key,
            self.tasks[index].message.as_str(),
            &signature,
        );
        if !ok {
            return false;
        }
        let out = derive_randomness(&signature);
        let mut rewards: Vec<String> = Vec::new();
        let mut k: usize = 0;
        while k < partial_signatures.len()
            invariant
                k <= partial_signatures@.len(),
                rewards@.len() == k,
                forall|j: int|
                    0 <= j < k ==> (#[trigger] rewards@[j]) == partial_signatures@[j].0,
            decreases partial_signatures@.len() - k,
        {
            rewards.push(partial_signatures[k].0.clone());
            k = k + 1;
        }
        let mut t = self.tasks.remove(index);
        t.state = TaskState::Fulfilled;
        t.signature = signature;
        t.fulfiller = Some(id_address);
        t.reward_committers = rewards;
        self.tasks.insert(index, t);
        self.last_output = Some(out);
        proof {
            assert(final(self).tasks@ =~= old(self).tasks@.update(
                index as int,
                final(self).tasks@[index as int],
            ));
        }
        true
    }

    /// The output of the most recently fulfilled task; fails with "no
    /// output available" while nothing was ever fulfilled.
    pub fn get_last_output(&self) -> (r: Result<u64, Error>)
        ensures
            r is Ok <==> self.last_output is Some,
            r matches Ok(v) ==> self.last_output == Some(v),
            r matches Err(e) ==> e == Error::NoOutputAvailable,
    {
        match self.last_output {
            Some(v) => Ok(v),
            None => Err(Error::NoOutputAvailable),
        }
    }
}

/// Re-issuing `commit_dkg` with the same arguments after an accepted commit
/// is rejected: the committer set now contains the caller, so the same call
/// finds a duplicate — and a rejected call leaves the state untouched.
pub proof fn lemma_commit_dkg_idempotent(
    pre: Controller,
    post: Controller,
    id: String,
    gi: int,
    ep: int,
    pk: Seq<u8>,
    ppk: Vec<u8>,
    dq: Seq<String>,
)
    requires
        commit_accepts(pre, id@, gi, ep, pk),
        commit_transition(pre, post, id, gi, pk, ppk, dq),
    ensures
        !commit_accepts(post, id@, gi, ep, pk),
{
    let g2 = post.groups@[gi - 1];
    assert(g2.committers@[g2.committers@.len() - 1]@ == id@);
    assert(seq_contains_string(g2.committers@, id@));
}

/// Re-issuing `fulfill` on a fulfilled task is rejected: the task is no
/// longer pending — and a rejected call leaves the state untouched.
pub proof fn lemma_fulfill_idempotent(
    pre: Controller,
    post: Controller,
    id: String,
    index: int,
    sig: Vec<u8>,
    rewards: Seq<(String, Vec<u8>)>,
)
    requires
        fulfill_accepts(pre, index, sig@),
        fulfill_transition(pre, post, id, index, sig, rewards),
    ensures
        !fulfill_accepts(post, index, sig@),
{
}

/// After an accepted fulfilment the beacon output exists and is the
/// deterministic function `randomness_of` of the fulfilled aggregated
/// signature — of the signature alone.
pub proof fn lemma_output_deterministic(
    pre: Controller,
    post: Controller,
    id: String,
    index: int,
    sig: Vec<u8>,
    rewards: Seq<(String, Vec<u8>)>,
)
    requires
        fulfill_transition(pre, post, id, index, sig, rewards),
    ensures
        post.last_output == Some(randomness_of(sig@)),
{
}

} // verus!
