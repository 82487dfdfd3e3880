//! The broadcast board: a shared, append-only, per-round message store that
//! is the exclusive means of information flow between the phases of one
//! distributed key generation run, and the synchronization barrier between
//! them. There are two rounds — share distribution and verification
//! responses — each keyed by sender index. A sender may publish at most once
//! per round (re-publishing is rejected as a protocol violation), and a
//! round may only be read once every expected sender has published.
//!
//! This in-memory board is a single-process stand-in for a real broadcast
//! medium, and it carries each dealer's shares addressed to their recipients
//! but not encrypted to them: every share is readable by whoever holds the
//! board. A distributed deployment must encrypt each addressed share to its
//! recipient's public key before publishing, or the dealers' secrets leak to
//! every observer of the transport.

use vstd::prelude::*;

use crate::error::Error;
use crate::util::clone_bytes;

verus! {

/// What a dealer publishes in the share-distribution round: its Feldman
/// commitment vector and one addressed share per recipient index.
pub struct SharesBundle {
    pub dealer: usize,
    pub commitment: Vec<u8>,
    pub shares: Vec<Vec<u8>>,
}

/// What a participant publishes in the response round: one verdict per
/// dealer — `true` for a valid share, `false` for a complaint.
pub struct ResponseBundle {
    pub sender: usize,
    pub valid: Vec<bool>,
}

/// Structural equality of share bundles, byte for byte.
pub open spec fn shares_bundle_eq(a: SharesBundle, b: SharesBundle) -> bool {
    &&& a.dealer == b.dealer
    &&& a.commitment@ == b.commitment@
    &&& a.shares@.len() == b.shares@.len()
    &&& forall|i: int| 0 <= i < a.shares@.len() ==> a.shares@[i]@ == b.shares@[i]@
}

/// Structural equality of response bundles.
pub open spec fn response_bundle_eq(a: ResponseBundle, b: ResponseBundle) -> bool {
    a.sender == b.sender && a.valid@ == b.valid@
}

impl SharesBundle {
    /// A structurally equal copy.
    pub fn duplicate(&self) -> (r: SharesBundle)
        ensures
            shares_bundle_eq(r, *self),
    {
        let mut shares: Vec<Vec<u8>> = Vec::new();
        let mut i: usize = 0;
        while i < self.shares.len()
            invariant
                i <= self.shares@.len(),
                shares@.len() == i,
                forall|j: int| 0 <= j < i ==> (#[trigger] shares@[j])@ == self.shares@[j]@,
            decreases self.shares@.len() - i,
        {
            shares.push(clone_bytes(&self.shares[i]));
            i = i + 1;
        }
        SharesBundle {
            dealer: self.dealer,
            commitment: clone_bytes(&self.commitment),
            shares,
        }
    }
}

impl ResponseBundle {
    /// A structurally equal copy.
    pub fn duplicate(&self) -> (r: ResponseBundle)
        ensures
            response_bundle_eq(r, *self),
    {
        let mut valid: Vec<bool> = Vec::new();
        let mut i: usize = 0;
        while i < self.valid.len()
            invariant
                i <= self.valid@.len(),
                valid@ == self.valid@.subrange(0, i as int),
            decreases self.valid@.len() - i,
        {
            valid.push(self.valid[i]);
            proof {
                assert(valid@ =~= self.valid@.subrange(0, i + 1 as int));
            }
            i = i + 1;
        }
        proof {
            assert(valid@ =~= self.valid@);
        }
        ResponseBundle { sender: self.sender, valid }
    }
}

/// The board for one run with `size` expected senders.
pub struct Board {
    pub size: usize,
    pub shares: Vec<Option<SharesBundle>>,
    pub responses: Vec<Option<ResponseBundle>>,
}

impl Board {
    pub open spec fn wf(&self) -> bool {
        self.shares@.len() == self.size && self.responses@.len() == self.size
    }

    /// An empty board for `size` senders.
    pub fn new(size: usize) -> (b: Board)
        ensures
            b.wf(),
            b.size == size,
            forall|i: int| 0 <= i < size ==> b.shares@[i] is None,
            forall|i: int| 0 <= i < size ==> b.responses@[i] is None,
    {
        let mut shares: Vec<Option<SharesBundle>> = Vec::new();
        let mut responses: Vec<Option<ResponseBundle>> = Vec::new();
        let mut i: usize = 0;
        while i < size
            invariant
                i <= size,
                shares@.len() == i,
                responses@.len() == i,
                forall|j: int| 0 <= j < i ==> shares@[j] is None,
                forall|j: int| 0 <= j < i ==> responses@[j] is None,
            decreases size - i,
        {
            shares.push(None);
            responses.push(None);
            i = i + 1;
        }
        Board { size, shares, responses }
    }

    /// Publishes a share bundle for the given sender; rejected when the
    /// sender is out of range or has already published in this round.
    pub fn publish_shares(&mut self, sender: usize, bundle: SharesBundle) -> (r: Result<(), Error>)
        requires
            old(self).wf(),
        ensures
            final(self).wf(),
            final(self).size == old(self).size,
            final(self).responses == old(self).responses,
            r is Ok <==> sender < old(self).size && old(self).shares@[sender as int] is None,
            r matches Err(e) ==> final(self).shares == old(self).shares
                && (e == Error::SenderOutOfRange <==> sender >= old(self).size)
                && (e == Error::SenderOutOfRange || e == Error::DuplicatePublish),
            r is Ok ==> final(self).shares@ == old(self).shares@.update(
                sender as int,
                Some(bundle),
            ),
    {
        if sender >= self.size {
            return Err(Error::SenderOutOfRange);
        }
        if self.shares[sender].is_some() {
            return Err(Error::DuplicatePublish);
        }
        self.shares.set(sender, Some(bundle));
        Ok(())
    }

    /// Publishes a response bundle for the given sender; rejected when the
    /// sender is out of range or has already published in this round.
    pub fn publish_responses(&mut self, sender: usize, bundle: ResponseBundle) -> (r: Result<
        (),
        Error,
    >)
        requires
            old(self).wf(),
        ensures
            final(self).wf(),
            final(self).size == old(self).size,
            final(self).shares == old(self).shares,
            r is Ok <==> sender < old(self).size && old(self).responses@[sender as int] is None,
            r matches Err(e) ==> final(self).responses == old(self).responses
                && (e == Error::SenderOutOfRange <==> sender >= old(self).size)
                && (e == Error::SenderOutOfRange || e == Error::DuplicatePublish),
            r is Ok ==> final(self).responses@ == old(self).responses@.update(
                sender as int,
                Some(bundle),
            ),
    {
        if sender >= self.size {
            return Err(Error::SenderOutOfRange);
        }
        if self.responses[sender].is_some() {
            return Err(Error::DuplicatePublish);
        }
        self.responses.set(sender, Some(bundle));
        Ok(())
    }

    /// Reads the whole share-distribution round, ordered by sender. Errors
    /// while any expected sender has not published: reading a round before
    /// it is complete is a protocol error.
    pub fn read_all_shares(&self) -> (r: Result<Vec<SharesBundle>, Error>)
        requires
            self.wf(),
        ensures
            r is Ok <==> (forall|i: int| 0 <= i < self.size ==> self.shares@[i] is Some),
            r matches Ok(v) ==> v@.len() == self.size && forall|i: int|
                0 <= i < self.size ==> shares_bundle_eq(#[trigger] v@[i], self.shares@[i]->0),
            r matches Err(e) ==> e == Error::RoundIncomplete,
    {
        let mut out: Vec<SharesBundle> = Vec::new();
        let mut i: usize = 0;
        while i < self.size
            invariant
                self.wf(),
                i <= self.size,
                out@.len() == i,
                forall|j: int| 0 <= j < i ==> self.shares@[j] is Some,
                forall|j: int| 0 <= j < i ==> shares_bundle_eq(
                    #[trigger] out@[j],
                    self.shares@[j]->0,
                ),
            decreases self.size - i,
        {
            match &self.shares[i] {
                Some(b) => out.push(b.duplicate()),
                None => {
                    return Err(Error::RoundIncomplete);
                },
            }
            i = i + 1;
        }
        Ok(out)
    }

    /// Reads the whole response round, ordered by sender. Errors while any
    /// expected sender has not published.
    pub fn read_all_responses(&self) -> (r: Result<Vec<ResponseBundle>, Error>)
        requires
            self.wf(),
        ensures
            r is Ok <==> (forall|i: int| 0 <= i < self.size ==> self.responses@[i] is Some),
            r matches Ok(v) ==> v@.len() == self.size && forall|i: int|
                0 <= i < self.size ==> response_bundle_eq(#[trigger] v@[i], self.responses@[i]->0),
            r matches Err(e) ==> e == Error::RoundIncomplete,
    {
        let mut out: Vec<ResponseBundle> = Vec::new();
        let mut i: usize = 0;
        while i < self.size
            invariant
                self.wf(),
                i <= self.size,
                out@.len() == i,
                forall|j: int| 0 <= j < i ==> self.responses@[j] is Some,
                forall|j: int| 0 <= j < i ==> response_bundle_eq(
                    #[trigger] out@[j],
                    self.responses@[j]->0,
                ),
            decreases self.size - i,
        {
            match &self.responses[i] {
                Some(b) => out.push(b.duplicate()),
                None => {
                    return Err(Error::RoundIncomplete);
                },
            }
            i = i + 1;
        }
        Ok(out)
    }
}

} // verus!
