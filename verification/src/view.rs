//! The parameters of the replica group and the view: the epoch that
//! names the current leader.

use vstd::prelude::*;

use crate::communication::NodeId;
use crate::error::{Error, ErrorKind};
use crate::ordering::SeqNo;

verus! {

/// The parameters of a BFT system: `n` replicas, of which up to `f` may
/// fail byzantinely; they must satisfy `n >= 3f + 1`.
#[derive(Debug, Copy, Clone, PartialEq, Eq, Structural)]
pub struct SystemParams {
    /// The total number of replicas in the system.
    pub n: usize,
    /// The number of byzantine replicas the system tolerates.
    pub f: usize,
}

impl SystemParams {
    /// The well-formedness of the parameters: enough replicas for the
    /// tolerated faults, with counts small enough for the quorum
    /// arithmetic, and ids that fit their 32-bit representation.
    pub open spec fn wf(self) -> bool {
        &&& self.f <= 0x1000_0000
        &&& self.n >= 3 * self.f + 1
        &&& self.n <= u32::MAX
    }

    /// Builds the system parameters, rejecting combinations that do not
    /// satisfy `n >= 3f + 1` or whose counts are out of range.
    pub fn new(n: usize, f: usize) -> (r: Result<SystemParams, Error>)
        ensures
            r is Ok <==> (SystemParams { n, f }).wf(),
            r is Ok ==> r->Ok_0 == (SystemParams { n, f }),
            r is Err ==> r->Err_0.spec_kind() == ErrorKind::Communication,
    {
        if f > 0x1000_0000 || n > u32::MAX as usize || n < 3 * f + 1 {
            return Err(Error::wrapped(ErrorKind::Communication, "Invalid number of replicas"));
        }
        Ok(SystemParams { n, f })
    }

    /// The total number of replicas.
    pub fn n(&self) -> (r: usize)
        ensures
            r == self.n,
    {
        self.n
    }

    /// The number of tolerated byzantine replicas.
    pub fn f(&self) -> (r: usize)
        ensures
            r == self.f,
    {
        self.f
    }

    /// The number of matching votes that decides: `2f + 1`.
    pub fn quorum(&self) -> (r: usize)
        requires
            self.wf(),
        ensures
            r == 2 * self.f + 1,
    {
        2 * self.f + 1
    }
}

/// The current view of the system: an epoch naming the replica that
/// leads consensus.
#[derive(Debug, Copy, Clone, PartialEq, Eq, Structural)]
pub struct ViewInfo {
    /// The sequence number of this view.
    pub seq: SeqNo,
    /// The parameters of the replica group this view ranges over.
    pub params: SystemParams,
}

/// The id of the replica leading view `seq` over `n` replicas: views
/// rotate the leadership round-robin.
pub open spec fn spec_leader(seq: SeqNo, n: int) -> int {
    (seq.0 as u32) as int % n
}

impl ViewInfo {
    /// Builds the view with sequence number `seq` over the group
    /// described by `params`.
    pub fn new(seq: SeqNo, params: SystemParams) -> (r: ViewInfo)
        ensures
            r == (ViewInfo { seq, params }),
    {
        ViewInfo { seq, params }
    }

    /// The sequence number of this view.
    pub fn sequence_number(&self) -> (r: SeqNo)
        ensures
            r == self.seq,
    {
        self.seq
    }

    /// The parameters of the replica group.
    pub fn params(&self) -> (r: &SystemParams)
        ensures
            r == self.params,
    {
        &self.params
    }

    /// The id of the replica leading this view.
    pub fn leader(&self) -> (r: NodeId)
        requires
            self.params.wf(),
        ensures
            r == NodeId(spec_leader(self.seq, self.params.n as int) as u32),
            r.0 < self.params.n,
    {
        let raw: u32 = self.seq.0 as u32;
        let id: usize = raw as usize % self.params.n;
        NodeId(id as u32)
    }
}

} // verus!
