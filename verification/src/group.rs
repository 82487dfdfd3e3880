//! The registry of participants: an ordered, index-stable group of nodes
//! together with the reconstruction threshold.

use vstd::prelude::*;

use crate::error::Error;
use crate::util::clone_bytes;

verus! {

/// One participant: its ordinal position in the group and its public key.
/// Indices are later used as polynomial evaluation points, so they must be
/// unique, zero-based and stable.
pub struct Node {
    pub index: usize,
    pub public_key: Vec<u8>,
}

impl Node {
    pub fn new(index: usize, public_key: Vec<u8>) -> (r: Node)
        ensures
            r.index == index,
            r.public_key == public_key,
    {
        Node { index, public_key }
    }
}

/// The finalized set of participants and the threshold `t` with
/// `1 <= t <= n`. Immutable once formed.
pub struct Group {
    pub nodes: Vec<Node>,
    pub threshold: usize,
}

impl Group {
    /// Indices are zero-based and sequential, the threshold lies in
    /// `1..=n`, and every index fits in the share-index space.
    pub open spec fn wf(&self) -> bool {
        &&& 1 <= self.threshold <= self.nodes@.len()
        &&& self.nodes@.len() <= 4294967295
        &&& forall|i: int| 0 <= i < self.nodes@.len() ==> (#[trigger] self.nodes@[i]).index == i
    }

    /// Forms a group, refusing a threshold outside `1..=n`, a participant
    /// count outside the share-index space, and out-of-order indices.
    pub fn new(nodes: Vec<Node>, threshold: usize) -> (r: Result<Group, Error>)
        ensures
            r matches Ok(g) ==> g.wf() && g.nodes == nodes && g.threshold == threshold,
            r is Err <==> !(
                1 <= threshold <= nodes@.len()
                && nodes@.len() <= 4294967295
                && forall|i: int| 0 <= i < nodes@.len() ==> (#[trigger] nodes@[i]).index == i
            ),
            r matches Err(e) ==> (e == Error::InvalidThreshold || e == Error::TooManyNodes
                || e == Error::NodeNotInGroup),
    {
        if threshold < 1 || threshold > nodes.len() {
            return Err(Error::InvalidThreshold);
        }
        if nodes.len() > 4294967295 {
            return Err(Error::TooManyNodes);
        }
        let mut i: usize = 0;
        while i < nodes.len()
            invariant
                i <= nodes@.len(),
                forall|j: int| 0 <= j < i ==> (#[trigger] nodes@[j]).index == j,
            decreases nodes@.len() - i,
        {
            if nodes[i].index != i {
                return Err(Error::NodeNotInGroup);
            }
            i = i + 1;
        }
        Ok(Group { nodes, threshold })
    }

    /// The number of participants.
    pub fn size(&self) -> (r: usize)
        ensures
            r == self.nodes@.len(),
    {
        self.nodes.len()
    }

    /// A structurally equal copy of the group.
    pub fn duplicate(&self) -> (r: Group)
        ensures
            r.threshold == self.threshold,
            r.nodes@.len() == self.nodes@.len(),
            forall|i: int| 0 <= i < self.nodes@.len() ==>
                (#[trigger] r.nodes@[i]).index == self.nodes@[i].index
                && r.nodes@[i].public_key@ == self.nodes@[i].public_key@,
            self.wf() ==> r.wf(),
    {
        let mut nodes: Vec<Node> = Vec::new();
        let mut i: usize = 0;
        while i < self.nodes.len()
            invariant
                i <= self.nodes@.len(),
                nodes@.len() == i,
                forall|j: int| 0 <= j < i ==>
                    (#[trigger] nodes@[j]).index == self.nodes@[j].index
                    && nodes@[j].public_key@ == self.nodes@[j].public_key@,
            decreases self.nodes@.len() - i,
        {
            let n = Node {
                index: self.nodes[i].index,
                public_key: clone_bytes(&self.nodes[i].public_key),
            };
            nodes.push(n);
            i = i + 1;
        }
        Group { nodes, threshold: self.threshold }
    }
}

} // verus!
