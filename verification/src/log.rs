//! A module to manage the message log: the pool of pending requests, the
//! decided consensus messages, and the periodic checkpoints that let the
//! log be garbage collected.

use vstd::prelude::*;

use crate::collections::{om_contains, om_get, om_removed, OrderedMap};
use crate::communication::NodeId;
use crate::crypto::Digest;
use crate::cst::RecoveryState;
use crate::error::{Error, ErrorKind};
use crate::executable::{Update, UpdateBatch};
use crate::message::{
    spec_unique_digest_bytes,
    ConsensusMessage,
    ConsensusMessageKind,
    Header,
    RequestMessage,
    SystemMessage,
};
use crate::ordering::SeqNo;
use crate::view::ViewInfo;

verus! {

broadcast use crate::crypto::lemma_digest_view_len;

/// Checkpoint period.
///
/// Every `PERIOD` messages, the message log is cleared, and a new log
/// checkpoint is initiated.
pub const PERIOD: u32 = 1000;

/// Information reported after a logging operation.
#[derive(Debug)]
pub enum Info {
    /// Nothing to report.
    Nil,
    /// The log became full. We are waiting for the execution layer to
    /// provide the current serialized application state, so we can
    /// complete the log's garbage collection and eventually its
    /// checkpoint.
    BeginCheckpoint,
}

/// Represents a local checkpoint.
///
/// Contains the last application state, as well as the sequence number
/// which decided the last batch of requests executed before the
/// checkpoint.
pub struct Checkpoint<S> {
    /// The sequence number of the last batch executed before the
    /// checkpoint.
    pub seq: SeqNo,
    /// The application state at that point.
    pub appstate: S,
}

impl<S> Checkpoint<S> {
    /// Returns the sequence number of the batch of client requests
    /// decided before the local checkpoint.
    pub fn sequence_number(&self) -> (r: SeqNo)
        ensures
            r == self.seq,
    {
        self.seq
    }

    /// Returns a reference to the state of the application before the
    /// local checkpoint.
    pub fn state(&self) -> (r: &S)
        ensures
            r == self.appstate,
    {
        &self.appstate
    }

    /// Returns the inner values within this local checkpoint.
    pub fn into_inner(self) -> (r: (SeqNo, S))
        ensures
            r.0 == self.seq,
            r.1 == self.appstate,
    {
        (self.seq, self.appstate)
    }
}

impl<S: Clone> Clone for Checkpoint<S> {
    /// The clone decides the same sequence number and carries a clone of
    /// the application state.
    fn clone(&self) -> (res: Self)
        ensures
            res.seq == self.seq,
            vstd::pervasive::cloned::<S>(self.appstate, res.appstate),
    {
        Checkpoint { seq: self.seq, appstate: self.appstate.clone() }
    }
}

/// The life cycle of the log's checkpoint.
pub enum CheckpointState<S> {
    /// No checkpoint has been performed yet.
    Unstarted,
    /// A checkpoint was begun: we are waiting for the application state
    /// from the execution layer.
    Partial {
        /// Sequence number of the last executed request.
        seq: SeqNo,
    },
    /// As `Partial`, but keeping the earlier completed checkpoint, in
    /// case corruption takes place before the new one completes.
    PartialWithEarlier {
        /// Sequence number of the last executed request.
        seq: SeqNo,
        /// The earlier completed checkpoint.
        earlier: Checkpoint<S>,
    },
    /// The application state was received; the checkpoint is finalized.
    Complete(Checkpoint<S>),
}

/// Contains a system message as well as its respective header.
pub struct StoredMessage<M> {
    /// The wire header the message arrived under.
    pub header: Header,
    /// The stored message itself.
    pub message: M,
}

impl<M> StoredMessage<M> {
    /// Constructs a new `StoredMessage`.
    pub fn new(header: Header, message: M) -> (r: Self)
        ensures
            r.header == header,
            r.message == message,
    {
        Self { header, message }
    }

    /// Returns the stored message's header.
    pub fn header(&self) -> (r: &Header)
        ensures
            r == self.header,
    {
        &self.header
    }

    /// Returns the stored system message.
    pub fn message(&self) -> (r: &M)
        ensures
            r == self.message,
    {
        &self.message
    }

    /// Return the inner types of this `StoredMessage`.
    pub fn into_inner(self) -> (r: (Header, M))
        ensures
            r.0 == self.header,
            r.1 == self.message,
    {
        (self.header, self.message)
    }
}

impl<M: Clone> Clone for StoredMessage<M> {
    /// The clone keeps the header and carries a clone of the message.
    fn clone(&self) -> (res: Self)
        ensures
            res.header == self.header,
            vstd::pervasive::cloned::<M>(self.message, res.message),
    {
        StoredMessage { header: self.header, message: self.message.clone() }
    }
}

/// Subset of a `Log`, containing only consensus messages.
pub struct DecisionLog {
    /// The `PRE-PREPARE` messages accepted since the last checkpoint.
    pub pre_prepares: Vec<StoredMessage<ConsensusMessage>>,
    /// The `PREPARE` messages accepted since the last checkpoint.
    pub prepares: Vec<StoredMessage<ConsensusMessage>>,
    /// The `COMMIT` messages accepted since the last checkpoint.
    pub commits: Vec<StoredMessage<ConsensusMessage>>,
}

/// Whether two stored consensus messages carry the same content.
pub open spec fn stored_cm_eq(a: StoredMessage<ConsensusMessage>, b: StoredMessage<ConsensusMessage>)
    -> bool {
    a.header == b.header && crate::message::cm_eq(a.message, b.message)
}

/// Whether two lists of stored consensus messages carry the same
/// content, element for element.
pub open spec fn stored_cm_seq_eq(
    a: Seq<StoredMessage<ConsensusMessage>>,
    b: Seq<StoredMessage<ConsensusMessage>>,
) -> bool {
    a.len() == b.len() && forall|i: int| 0 <= i < a.len() ==> stored_cm_eq(a[i], #[trigger] b[i])
}

/// Whether two decision logs hold the same messages.
pub open spec fn declog_eq(a: DecisionLog, b: DecisionLog) -> bool {
    &&& stored_cm_seq_eq(a.pre_prepares@, b.pre_prepares@)
    &&& stored_cm_seq_eq(a.prepares@, b.prepares@)
    &&& stored_cm_seq_eq(a.commits@, b.commits@)
}

/// Copies a vector of stored consensus messages, element for element.
fn clone_stored_consensus(v: &Vec<StoredMessage<ConsensusMessage>>) -> (res: Vec<
    StoredMessage<ConsensusMessage>,
>)
    ensures
        stored_cm_seq_eq(v@, res@),
{
    let mut res: Vec<StoredMessage<ConsensusMessage>> = Vec::new();
    let mut i: usize = 0;
    while i < v.len()
        invariant
            0 <= i <= v@.len(),
            res@.len() == i,
            forall|j: int| 0 <= j < i ==> stored_cm_eq(v@[j], #[trigger] res@[j]),
        decreases v@.len() - i,
    {
        let stored = &v[i];
        res.push(StoredMessage { header: stored.header, message: stored.message.clone() });
        i = i + 1;
    }
    res
}

impl DecisionLog {
    /// Returns a brand new `DecisionLog`.
    pub fn new() -> (r: Self)
        ensures
            r.pre_prepares@.len() == 0,
            r.prepares@.len() == 0,
            r.commits@.len() == 0,
    {
        Self { pre_prepares: Vec::new(), prepares: Vec::new(), commits: Vec::new() }
    }

    /// Returns the list of `PRE-PREPARE` messages after the last
    /// checkpoint at the moment of the creation of this `DecisionLog`.
    pub fn pre_prepares(&self) -> (r: &[StoredMessage<ConsensusMessage>])
        ensures
            r@ == self.pre_prepares@,
    {
        self.pre_prepares.as_slice()
    }

    /// Returns the list of `PREPARE` messages after the last checkpoint
    /// at the moment of the creation of this `DecisionLog`.
    pub fn prepares(&self) -> (r: &[StoredMessage<ConsensusMessage>])
        ensures
            r@ == self.prepares@,
    {
        self.prepares.as_slice()
    }

    /// Returns the list of `COMMIT` messages after the last checkpoint
    /// at the moment of the creation of this `DecisionLog`.
    pub fn commits(&self) -> (r: &[StoredMessage<ConsensusMessage>])
        ensures
            r@ == self.commits@,
    {
        self.commits.as_slice()
    }
}

impl Clone for DecisionLog {
    /// The clone holds the same consensus messages.
    fn clone(&self) -> (res: Self)
        ensures
            declog_eq(*self, res),
    {
        DecisionLog {
            pre_prepares: clone_stored_consensus(&self.pre_prepares),
            prepares: clone_stored_consensus(&self.prepares),
            commits: clone_stored_consensus(&self.commits),
        }
    }
}

/// A stored client request, as the log keeps it.
pub type StoredRequest<O> = StoredMessage<RequestMessage<O>>;

/// Represents a log of messages received by the BFT system.
pub struct Log<S, O, P> {
    /// The sequence number of the last decided batch known to the log.
    pub curr_seq: SeqNo,
    /// The number of client requests to gather before proposing a
    /// batch.
    pub batch_size: usize,
    /// The decided consensus messages since the last checkpoint.
    pub declog: DecisionLog,
    /// The pool of pending client requests, in arrival order, keyed by
    /// their unique digest.
    pub requests: OrderedMap<StoredRequest<O>>,
    /// The requests pulled out of the pool for the batch under
    /// decision, keyed by their unique digest.
    pub deciding: OrderedMap<StoredRequest<O>>,
    /// The operations applied since the last checkpoint.
    pub decided: Vec<O>,
    /// The state of the periodic checkpoint.
    pub checkpoint: CheckpointState<S>,
    /// Marks the reply type `P`, which the log stores no values of.
    pub _marker: core::marker::PhantomData<P>,
}

impl<S, O, P> Log<S, O, P> {
    /// The well-formedness of the log: both request maps hold each
    /// digest at most once.
    pub open spec fn wf(&self) -> bool {
        self.requests.wf() && self.deciding.wf()
    }

    /// Creates a new message log.
    ///
    /// The value `batch_size` represents the maximum number of client
    /// requests to queue before executing a consensus instance.
    pub fn new(batch_size: usize) -> (r: Self)
        ensures
            r.wf(),
            r.curr_seq == SeqNo(0),
            r.batch_size == batch_size,
            r.declog.pre_prepares@.len() == 0,
            r.declog.prepares@.len() == 0,
            r.declog.commits@.len() == 0,
            r.requests.entries@.len() == 0,
            r.deciding.entries@.len() == 0,
            r.decided@.len() == 0,
            r.checkpoint is Unstarted,
    {
        Self {
            curr_seq: SeqNo(0),
            batch_size,
            declog: DecisionLog::new(),
            requests: OrderedMap::new(),
            deciding: OrderedMap::new(),
            decided: Vec::new(),
            checkpoint: CheckpointState::Unstarted,
            _marker: core::marker::PhantomData,
        }
    }

    /// Returns a reference to a subset of this log, containing only
    /// consensus messages.
    pub fn decision_log(&self) -> (r: &DecisionLog)
        ensures
            r == self.declog,
    {
        &self.declog
    }

    /// Update the log state, received from the CST protocol: the
    /// decision log, the decided operations and the checkpoint are
    /// overwritten with the recovered ones, while the pool of pending
    /// requests stays as it is.
    pub fn install_state(&mut self, last_seq: SeqNo, rs: RecoveryState<S, O>)
        ensures
            final(self).curr_seq == last_seq,
            final(self).declog == rs.declog,
            final(self).decided == rs.requests,
            final(self).checkpoint == CheckpointState::Complete(rs.checkpoint),
            final(self).batch_size == old(self).batch_size,
            final(self).requests == old(self).requests,
            final(self).deciding == old(self).deciding,
    {
        self.declog = rs.declog;
        self.decided = rs.requests;
        self.checkpoint = CheckpointState::Complete(rs.checkpoint);
        self.curr_seq = last_seq;
    }

    /// Take a snapshot of the log, used to recover a replica: the view,
    /// a clone of the completed checkpoint, the operations decided
    /// since it, and the decision log.
    ///
    /// This method fails when we are still waiting for the latest
    /// application state to be returned by the execution layer.
    pub fn snapshot(&self, view: ViewInfo) -> (r: Result<RecoveryState<S, O>, Error>) where
        S: Clone,
        O: Clone,

        ensures
            self.checkpoint matches CheckpointState::Complete(c) ==> r is Ok && ({
                let rs = r->Ok_0;
                &&& rs.view == view
                &&& rs.checkpoint.seq == c.seq
                &&& vstd::pervasive::cloned::<S>(c.appstate, rs.checkpoint.appstate)
                &&& rs.requests@.len() == self.decided@.len()
                &&& forall|i: int| 0 <= i < self.decided@.len()
                    ==> vstd::pervasive::cloned::<O>(self.decided@[i], #[trigger] rs.requests@[i])
                &&& declog_eq(self.declog, rs.declog)
            }),
            !(self.checkpoint is Complete) ==> r is Err
                && r->Err_0.spec_kind() == ErrorKind::Log,
    {
        match &self.checkpoint {
            CheckpointState::Complete(checkpoint) => Ok(RecoveryState::new(
                view,
                checkpoint.clone(),
                clone_ops(&self.decided),
                self.declog.clone(),
            )),
            _ => Err(Error::wrapped(ErrorKind::Log, "Checkpoint to be finalized")),
        }
    }

    /// Adds a new `message` and its respective `header` to the log:
    /// requests enter the pending pool under their unique digest, and
    /// consensus messages append to the phase list of the decision log;
    /// the other kinds are not handled by the log.
    pub fn insert(&mut self, header: Header, message: SystemMessage<S, O, P>)
        requires
            old(self).wf(),
        ensures
            final(self).wf(),
            final(self).curr_seq == old(self).curr_seq,
            final(self).batch_size == old(self).batch_size,
            final(self).decided == old(self).decided,
            final(self).checkpoint == old(self).checkpoint,
            final(self).deciding == old(self).deciding,
            message matches SystemMessage::Request(m) ==> ({
                &&& crate::collections::om_upserted(
                    old(self).requests.entries@,
                    final(self).requests.entries@,
                    spec_unique_digest_bytes(header),
                    (StoredMessage { header, message: m }),
                )
                &&& final(self).declog == old(self).declog
            }),
            message matches SystemMessage::Consensus(c) ==> ({
                let stored = (StoredMessage { header, message: c });
                &&& final(self).requests == old(self).requests
                &&& match c.kind {
                    ConsensusMessageKind::PrePrepare(_) => final(self).declog.pre_prepares@
                        == old(self).declog.pre_prepares@.push(stored)
                        && final(self).declog.prepares@ == old(self).declog.prepares@
                        && final(self).declog.commits@ == old(self).declog.commits@,
                    ConsensusMessageKind::Prepare(_) => final(self).declog.prepares@
                        == old(self).declog.prepares@.push(stored)
                        && final(self).declog.pre_prepares@ == old(self).declog.pre_prepares@
                        && final(self).declog.commits@ == old(self).declog.commits@,
                    ConsensusMessageKind::Commit(_) => final(self).declog.commits@
                        == old(self).declog.commits@.push(stored)
                        && final(self).declog.pre_prepares@ == old(self).declog.pre_prepares@
                        && final(self).declog.prepares@ == old(self).declog.prepares@,
                }
            }),
            !(message is Request) && !(message is Consensus) ==> *final(self) == *old(self),
    {
        match message {
            SystemMessage::Request(message) => {
                let digest = header.unique_digest();
                let stored = StoredMessage::new(header, message);
                self.requests.insert(digest, stored);
                proof {
                    let oe = old(self).requests.entries@;
                    if !om_contains(oe, spec_unique_digest_bytes(header)) {
                        assert(self.requests.entries@.drop_last() =~= oe);
                    }
                }
            },
            SystemMessage::Consensus(message) => {
                let stored = StoredMessage::new(header, message);
                match &stored.message.kind {
                    ConsensusMessageKind::PrePrepare(_) => self.declog.pre_prepares.push(stored),
                    ConsensusMessageKind::Prepare(_) => self.declog.prepares.push(stored),
                    ConsensusMessageKind::Commit(_) => self.declog.commits.push(stored),
                }
            },
            // rest are not handled by the log
            _ => (),
        }
    }

    /// Checks if this `Log` has a particular request with the given
    /// `digest`, pending or under decision.
    pub fn has_request(&self, digest: &Digest) -> (r: bool)
        requires
            self.wf(),
        ensures
            r == (om_contains(self.deciding.entries@, digest@)
                || om_contains(self.requests.entries@, digest@)),
    {
        if self.deciding.contains_key(digest) {
            true
        } else if self.requests.contains_key(digest) {
            true
        } else {
            false
        }
    }

    /// Retrieves the next batch of requests available for proposing, if
    /// any: one pending request moves to the batch under decision, and
    /// once that batch holds `batch_size` requests their digests are
    /// returned, in order.
    pub fn next_batch(&mut self) -> (r: Option<Vec<Digest>>)
        requires
            old(self).wf(),
        ensures
            final(self).wf(),
            final(self).curr_seq == old(self).curr_seq,
            final(self).batch_size == old(self).batch_size,
            final(self).decided == old(self).decided,
            final(self).checkpoint == old(self).checkpoint,
            final(self).declog == old(self).declog,
            old(self).requests.entries@.len() == 0 ==> r is None && *final(self) == *old(self),
            old(self).requests.entries@.len() > 0 ==> ({
                let moved = old(self).requests.entries@[0];
                &&& final(self).requests.entries@ == old(self).requests.entries@.skip(1)
                &&& crate::collections::om_upserted(
                    old(self).deciding.entries@,
                    final(self).deciding.entries@,
                    moved.0@,
                    moved.1,
                )
                &&& if final(self).deciding.entries@.len() >= old(self).batch_size {
                    r matches Some(batch) && batch@.len() == old(self).batch_size
                        && (forall|i: int| 0 <= i < batch@.len()
                            ==> batch@[i] == final(self).deciding.entries@[i].0)
                } else {
                    r is None
                }
            }),
    {
        let front = match self.requests.pop_front() {
            Some(front) => front,
            None => {
                return None;
            },
        };
        self.deciding.insert(front.0, front.1);
        proof {
            let oe = old(self).deciding.entries@;
            if !om_contains(oe, old(self).requests.entries@[0].0@) {
                assert(self.deciding.entries@.drop_last() =~= oe);
            }
        }
        if self.deciding.len() >= self.batch_size {
            Some(self.deciding.front_keys(self.batch_size))
        } else {
            None
        }
    }
}

/// Whether the log holds a request under the digest bytes `d`, pending
/// or under decision.
pub open spec fn spec_has_request<O>(
    dec: Seq<(Digest, StoredRequest<O>)>,
    req: Seq<(Digest, StoredRequest<O>)>,
    d: Seq<u8>,
) -> bool {
    om_contains(dec, d) || om_contains(req, d)
}

/// Whether `b` is `a` with everything but the decision log untouched.
pub open spec fn spec_log_same_but_declog<S, O, P>(a: Log<S, O, P>, b: Log<S, O, P>) -> bool {
    &&& b.curr_seq == a.curr_seq
    &&& b.batch_size == a.batch_size
    &&& b.decided == a.decided
    &&& b.checkpoint == a.checkpoint
    &&& b.requests == a.requests
    &&& b.deciding == a.deciding
}

/// Whether `b` is `a` with the consensus message `(h, m)` appended to
/// the phase list its kind names, and nothing else changed.
pub open spec fn spec_consensus_logged<S, O, P>(
    a: Log<S, O, P>,
    b: Log<S, O, P>,
    h: Header,
    m: ConsensusMessage,
) -> bool {
    let stored = (StoredMessage { header: h, message: m });
    &&& spec_log_same_but_declog(a, b)
    &&& match m.kind {
        ConsensusMessageKind::PrePrepare(_) => b.declog.pre_prepares@
            == a.declog.pre_prepares@.push(stored) && b.declog.prepares@ == a.declog.prepares@
            && b.declog.commits@ == a.declog.commits@,
        ConsensusMessageKind::Prepare(_) => b.declog.prepares@ == a.declog.prepares@.push(stored)
            && b.declog.pre_prepares@ == a.declog.pre_prepares@
            && b.declog.commits@ == a.declog.commits@,
        ConsensusMessageKind::Commit(_) => b.declog.commits@ == a.declog.commits@.push(stored)
            && b.declog.pre_prepares@ == a.declog.pre_prepares@
            && b.declog.prepares@ == a.declog.prepares@,
    }
}

/// The stored request the log holds under the digest bytes `d`, looked
/// up first in the batch under decision and then in the pending pool.
pub open spec fn spec_lookup<O>(
    dec: Seq<(Digest, StoredRequest<O>)>,
    req: Seq<(Digest, StoredRequest<O>)>,
    d: Seq<u8>,
) -> Option<StoredRequest<O>> {
    if om_contains(dec, d) {
        Some(om_get(dec, d))
    } else if om_contains(req, d) {
        Some(om_get(req, d))
    } else {
        None
    }
}

/// The stored requests the log holds among the digests `ds`, in order,
/// skipping the digests found in neither request map.
pub open spec fn spec_found<O>(
    dec: Seq<(Digest, StoredRequest<O>)>,
    req: Seq<(Digest, StoredRequest<O>)>,
    ds: Seq<Digest>,
) -> Seq<StoredRequest<O>>
    decreases ds.len(),
{
    if ds.len() == 0 {
        Seq::empty()
    } else {
        spec_found(dec, req, ds.drop_last()) + match spec_lookup(dec, req, ds.last()@) {
            Some(m) => seq![m],
            None => Seq::empty(),
        }
    }
}

/// The stored request found under the digest bytes `d`, looked up first
/// in the batch under decision and then in the pending pool, together
/// with the two maps after its removal.
pub open spec fn spec_take<O>(
    dec: Seq<(Digest, StoredRequest<O>)>,
    req: Seq<(Digest, StoredRequest<O>)>,
    d: Seq<u8>,
) -> Option<(StoredRequest<O>, Seq<(Digest, StoredRequest<O>)>, Seq<(Digest, StoredRequest<O>)>)> {
    if om_contains(dec, d) {
        Some((om_get(dec, d), om_removed(dec, d), req))
    } else if om_contains(req, d) {
        Some((om_get(req, d), dec, om_removed(req, d)))
    } else {
        None
    }
}

/// The updates gathered by draining the digests `ds`, in order, out of
/// the two request maps, together with the maps left behind; `None`
/// when some digest is found in neither map at its turn.
pub open spec fn spec_drain<O>(
    dec: Seq<(Digest, StoredRequest<O>)>,
    req: Seq<(Digest, StoredRequest<O>)>,
    ds: Seq<Digest>,
) -> Option<(Seq<Update<O>>, Seq<(Digest, StoredRequest<O>)>, Seq<(Digest, StoredRequest<O>)>)>
    decreases ds.len(),
{
    if ds.len() == 0 {
        Some((Seq::empty(), dec, req))
    } else {
        match spec_take(dec, req, ds[0]@) {
            None => None,
            Some(t) => match spec_drain(t.1, t.2, ds.skip(1)) {
                None => None,
                Some(rest) => Some(
                    (
                        seq![
                            (Update {
                                from: NodeId(t.0.header.from),
                                digest: ds[0],
                                operation: t.0.message.operation,
                            }),
                        ] + rest.0,
                        rest.1,
                        rest.2,
                    ),
                ),
            },
        }
    }
}

/// Draining one more digest after `ds` first drains `ds`, then takes
/// the extra digest out of the maps the drain left behind.
proof fn lemma_drain_snoc<O>(
    dec: Seq<(Digest, StoredRequest<O>)>,
    req: Seq<(Digest, StoredRequest<O>)>,
    ds: Seq<Digest>,
    d: Digest,
)
    ensures
        spec_drain(dec, req, ds.push(d)) == (match spec_drain(dec, req, ds) {
            Some(t) => match spec_take(t.1, t.2, d@) {
                Some(u) => Some(
                    (
                        t.0 + seq![
                            (Update {
                                from: NodeId(u.0.header.from),
                                digest: d,
                                operation: u.0.message.operation,
                            }),
                        ],
                        u.1,
                        u.2,
                    ),
                ),
                None => None::<
                    (
                        Seq<Update<O>>,
                        Seq<(Digest, StoredRequest<O>)>,
                        Seq<(Digest, StoredRequest<O>)>,
                    ),
                >,
            },
            None => None,
        }),
    decreases ds.len(),
{
    reveal_with_fuel(spec_drain, 3);
    let snoc = ds.push(d);
    if ds.len() == 0 {
        assert(snoc[0] == d);
        assert(snoc.skip(1) =~= Seq::<Digest>::empty());
        match spec_take(dec, req, d@) {
            Some(u) => {
                assert(Seq::<Update<O>>::empty() + seq![
                    (Update {
                        from: NodeId(u.0.header.from),
                        digest: d,
                        operation: u.0.message.operation,
                    }),
                ] =~= seq![
                    (Update {
                        from: NodeId(u.0.header.from),
                        digest: d,
                        operation: u.0.message.operation,
                    }),
                ] + Seq::<Update<O>>::empty());
            },
            None => (),
        }
    } else {
        assert(snoc[0] == ds[0]);
        assert(snoc.skip(1) =~= ds.skip(1).push(d));
        match spec_take(dec, req, ds[0]@) {
            None => (),
            Some(t) => {
                lemma_drain_snoc(t.1, t.2, ds.skip(1), d);
                let head = seq![
                    (Update {
                        from: NodeId(t.0.header.from),
                        digest: ds[0],
                        operation: t.0.message.operation,
                    }),
                ];
                match spec_drain(t.1, t.2, ds.skip(1)) {
                    None => (),
                    Some(rest) => {
                        match spec_take(rest.1, rest.2, d@) {
                            None => (),
                            Some(u) => {
                                assert(head + (rest.0 + seq![
                                    (Update {
                                        from: NodeId(u.0.header.from),
                                        digest: d,
                                        operation: u.0.message.operation,
                                    }),
                                ]) =~= (head + rest.0) + seq![
                                    (Update {
                                        from: NodeId(u.0.header.from),
                                        digest: d,
                                        operation: u.0.message.operation,
                                    }),
                                ]);
                            },
                        }
                    },
                }
            },
        }
    }
}

impl<S, O, P> Log<S, O, P> {
    /// Clone the requests corresponding to the provided list of hash
    /// digests: for each digest that the log holds, first looking at
    /// the batch under decision and then at the pending pool, the
    /// stored request, in the given order; unknown digests are skipped.
    pub fn clone_requests(&self, digests: &[Digest]) -> (r: Vec<StoredRequest<O>>) where O: Clone
        requires
            self.wf(),
        ensures
            ({
                let found = spec_found(self.deciding.entries@, self.requests.entries@, digests@);
                &&& r@.len() == found.len()
                &&& forall|i: int| 0 <= i < found.len() ==> (#[trigger] r@[i]).header
                    == found[i].header && vstd::pervasive::cloned::<RequestMessage<O>>(
                    found[i].message,
                    r@[i].message,
                )
            }),
    {
        let mut r: Vec<StoredRequest<O>> = Vec::new();
        proof {
            assert(digests@.subrange(0, 0) =~= Seq::<Digest>::empty());
        }
        let mut k: usize = 0;
        while k < digests.len()
            invariant
                0 <= k <= digests@.len(),
                self.wf(),
                ({
                    let found = spec_found(
                        self.deciding.entries@,
                        self.requests.entries@,
                        digests@.subrange(0, k as int),
                    );
                    &&& r@.len() == found.len()
                    &&& forall|i: int| 0 <= i < found.len() ==> (#[trigger] r@[i]).header
                        == found[i].header && vstd::pervasive::cloned::<RequestMessage<O>>(
                        found[i].message,
                        r@[i].message,
                    )
                }),
            decreases digests@.len() - k,
        {
            proof {
                assert(digests@.subrange(0, k as int + 1).drop_last() =~= digests@.subrange(
                    0,
                    k as int,
                ));
                assert(digests@.subrange(0, k as int + 1).last() == digests@[k as int]);
            }
            let digest = &digests[k];
            match self.deciding.get(digest) {
                Some(stored) => r.push(stored.clone()),
                None => match self.requests.get(digest) {
                    Some(stored) => r.push(stored.clone()),
                    None => (),
                },
            }
            k = k + 1;
        }
        proof {
            assert(digests@.subrange(0, digests@.len() as int) =~= digests@);
        }
        r
    }

    /// Finalize a batch of client requests, retrieving the payload
    /// associated with their given digests `digests`.
    ///
    /// Each digest's request leaves the batch under decision (or,
    /// failing that, the pending pool) and enters the update batch, in
    /// the given order; its operation is also recorded as decided. When
    /// the sequence number read off the latest `PRE-PREPARE` is positive
    /// and divisible by `PERIOD`, a checkpoint begins and
    /// `Info::BeginCheckpoint` is reported in place of `Info::Nil`.
    pub fn finalize_batch(&mut self, digests: &[Digest]) -> (r: Result<
        (Info, UpdateBatch<O>),
        Error,
    >) where O: Clone
        requires
            old(self).wf(),
        ensures
            final(self).wf(),
            final(self).batch_size == old(self).batch_size,
            spec_drain(old(self).deciding.entries@, old(self).requests.entries@, digests@)
                is None ==> r is Err && r->Err_0.spec_kind() == ErrorKind::Log
                && final(self).declog == old(self).declog
                && final(self).decided == old(self).decided
                && final(self).checkpoint == old(self).checkpoint
                && final(self).curr_seq == old(self).curr_seq
                // the digests before the missing one stay drained: the
                // maps are exactly what draining that prefix leaves
                && exists|k: int|
                {
                    &&& 0 <= k < digests@.len()
                    &&& #[trigger] spec_drain(
                        old(self).deciding.entries@,
                        old(self).requests.entries@,
                        digests@.subrange(0, k),
                    ) matches Some(t) && spec_take(t.1, t.2, digests@[k]@) is None
                        && final(self).deciding.entries@ == t.1
                        && final(self).requests.entries@ == t.2
                },
            spec_drain(old(self).deciding.entries@, old(self).requests.entries@, digests@)
                matches Some(t) ==> ({
                let updates = t.0;
                let old_len = old(self).decided@.len() as int;
                let last = if old(self).declog.pre_prepares@.len() > 0 {
                    old(self).declog.pre_prepares@.last().message.seq
                } else {
                    old(self).curr_seq
                };
                let period_hit = (last.0 as u32) > 0 && (last.0 as u32) as int % (PERIOD as int)
                    == 0;
                &&& final(self).deciding.entries@ == t.1
                &&& final(self).requests.entries@ == t.2
                &&& final(self).declog == old(self).declog
                &&& final(self).curr_seq == old(self).curr_seq
                &&& final(self).decided@.len() == old_len + updates.len()
                &&& final(self).decided@.subrange(0, old_len) == old(self).decided@
                &&& forall|i: int| 0 <= i < updates.len() ==> vstd::pervasive::cloned::<O>(
                    updates[i].operation,
                    #[trigger] final(self).decided@[old_len + i],
                )
                &&& if !period_hit {
                    r matches Ok(pair) && pair.0 is Nil && pair.1.inner@ == updates
                        && final(self).checkpoint == old(self).checkpoint
                } else {
                    match old(self).checkpoint {
                        CheckpointState::Unstarted => r matches Ok(pair)
                            && pair.0 is BeginCheckpoint && pair.1.inner@ == updates
                            && final(self).checkpoint == (CheckpointState::<S>::Partial { seq: last }),
                        CheckpointState::Complete(earlier) => r matches Ok(pair)
                            && pair.0 is BeginCheckpoint && pair.1.inner@ == updates
                            && final(self).checkpoint
                            == (CheckpointState::<S>::PartialWithEarlier { seq: last, earlier }),
                        _ => r is Err && r->Err_0.spec_kind() == ErrorKind::Log
                            && final(self).checkpoint is Unstarted,
                    }
                }
            }),
    {
        let ghost odec = old(self).deciding.entries@;
        let ghost oreq = old(self).requests.entries@;
        let mut batch = UpdateBatch::<O>::new();
        proof {
            assert(digests@.skip(0) =~= digests@);
            let init = spec_drain(odec, oreq, digests@);
            if init is Some {
                assert(batch.inner@ + init->Some_0.0 =~= init->Some_0.0);
            }
            assert(digests@.subrange(0, 0) =~= Seq::<Digest>::empty());
        }
        let mut k: usize = 0;
        while k < digests.len()
            invariant
                0 <= k <= digests@.len(),
                odec == old(self).deciding.entries@,
                oreq == old(self).requests.entries@,
                self.wf(),
                self.declog == old(self).declog,
                self.decided == old(self).decided,
                self.checkpoint == old(self).checkpoint,
                self.curr_seq == old(self).curr_seq,
                self.batch_size == old(self).batch_size,
                spec_drain(odec, oreq, digests@) == (match spec_drain(
                    self.deciding.entries@,
                    self.requests.entries@,
                    digests@.skip(k as int),
                ) {
                    None => None,
                    Some(t) => Some((batch.inner@ + t.0, t.1, t.2)),
                }),
                spec_drain(odec, oreq, digests@.subrange(0, k as int)) == Some(
                    (batch.inner@, self.deciding.entries@, self.requests.entries@),
                ),
            decreases digests@.len() - k,
        {
            let ghost cur_dec = self.deciding.entries@;
            let ghost cur_req = self.requests.entries@;
            let digest = digests[k];
            let stored = match self.deciding.remove(&digest) {
                Some(stored) => stored,
                None => match self.requests.remove(&digest) {
                    Some(stored) => stored,
                    None => {
                        proof {
                            assert(digests@.skip(k as int)[0] == digests@[k as int]);
                            assert(spec_take(cur_dec, cur_req, digests@[k as int]@) is None);
                            assert(spec_drain(cur_dec, cur_req, digests@.skip(k as int)) is None);
                            // the drained prefix names the residue
                            assert(spec_drain(odec, oreq, digests@.subrange(0, k as int))
                                matches Some(t) && spec_take(t.1, t.2, digests@[k as int]@)
                                is None && self.deciding.entries@ == t.1
                                && self.requests.entries@ == t.2);
                        }
                        return Err(Error::simple(ErrorKind::Log));
                    },
                },
            };
            let ghost prev_batch = batch.inner@;
            let (header, message) = stored.into_inner();
            batch.add(header.from(), digest, message.into_inner());
            proof {
                let dk = digests@[k as int];
                assert(digests@.skip(k as int)[0] == dk);
                assert(digests@.skip(k as int).skip(1) =~= digests@.skip(k as int + 1));
                let t = spec_take(cur_dec, cur_req, dk@);
                assert(t is Some);
                let u = (Update {
                    from: NodeId(t->Some_0.0.header.from),
                    digest: dk,
                    operation: t->Some_0.0.message.operation,
                });
                assert(batch.inner@ == prev_batch.push(u));
                let next = spec_drain(
                    self.deciding.entries@,
                    self.requests.entries@,
                    digests@.skip(k as int + 1),
                );
                if next is Some {
                    let rest = next->Some_0;
                    assert(prev_batch + (seq![u] + rest.0) =~= batch.inner@ + rest.0);
                }
                lemma_drain_snoc(odec, oreq, digests@.subrange(0, k as int), dk);
                assert(digests@.subrange(0, k as int).push(dk) =~= digests@.subrange(
                    0,
                    k as int + 1,
                ));
                assert(prev_batch + seq![u] =~= batch.inner@);
            }
            k = k + 1;
        }
        proof {
            assert(digests@.skip(digests@.len() as int) =~= Seq::<Digest>::empty());
            let tail = spec_drain(
                self.deciding.entries@,
                self.requests.entries@,
                digests@.skip(digests@.len() as int),
            );
            assert(tail matches Some(t) && batch.inner@ + t.0 =~= batch.inner@);
        }
        let ghost dec_after = self.deciding;
        let ghost req_after = self.requests;
        let ghost decided_before = self.decided@;
        let mut j: usize = 0;
        while j < batch.inner.len()
            invariant
                0 <= j <= batch.inner@.len(),
                self.wf(),
                self.declog == old(self).declog,
                self.checkpoint == old(self).checkpoint,
                self.curr_seq == old(self).curr_seq,
                self.batch_size == old(self).batch_size,
                self.deciding == dec_after,
                self.requests == req_after,
                self.decided@.len() == decided_before.len() + j,
                self.decided@.subrange(0, decided_before.len() as int) == decided_before,
                forall|i: int| 0 <= i < j ==> vstd::pervasive::cloned::<O>(
                    batch.inner@[i].operation,
                    #[trigger] self.decided@[decided_before.len() + i],
                ),
            decreases batch.inner@.len() - j,
        {
            let update = &batch.inner[j];
            self.decided.push(update.operation().clone());
            proof {
                assert(self.decided@.subrange(0, decided_before.len() as int) =~= decided_before);
            }
            j = j + 1;
        }
        let last_seq = if self.declog.pre_prepares.len() > 0 {
            let stored_pre_prepare = &self.declog.pre_prepares[self.declog.pre_prepares.len() - 1];
            stored_pre_prepare.message.sequence_number()
        } else {
            self.curr_seq
        };
        let last_seq_u32: u32 = last_seq.0 as u32;
        let info = if last_seq_u32 > 0 && last_seq_u32 % PERIOD == 0 {
            match self.begin_checkpoint(last_seq) {
                Ok(info) => info,
                Err(e) => {
                    return Err(e);
                },
            }
        } else {
            Info::Nil
        };
        Ok((info, batch))
    }

    /// Starts a checkpoint at `seq`: a first checkpoint becomes
    /// `Partial`, and one following a completed checkpoint keeps the
    /// earlier one; beginning while another checkpoint is under way
    /// fails.
    fn begin_checkpoint(&mut self, seq: SeqNo) -> (r: Result<Info, Error>)
        ensures
            final(self).curr_seq == old(self).curr_seq,
            final(self).batch_size == old(self).batch_size,
            final(self).declog == old(self).declog,
            final(self).decided == old(self).decided,
            final(self).requests == old(self).requests,
            final(self).deciding == old(self).deciding,
            match old(self).checkpoint {
                CheckpointState::Unstarted => r matches Ok(i) && i is BeginCheckpoint
                    && final(self).checkpoint == (CheckpointState::<S>::Partial { seq }),
                CheckpointState::Complete(earlier) => r matches Ok(i) && i is BeginCheckpoint
                    && final(self).checkpoint
                    == (CheckpointState::<S>::PartialWithEarlier { seq, earlier }),
                _ => r is Err && r->Err_0.spec_kind() == ErrorKind::Log
                    && final(self).checkpoint is Unstarted,
            },
    {
        let mut earlier = CheckpointState::Unstarted;
        core::mem::swap(&mut self.checkpoint, &mut earlier);
        self.checkpoint = match earlier {
            CheckpointState::Unstarted => CheckpointState::Partial { seq },
            CheckpointState::Complete(earlier) => CheckpointState::PartialWithEarlier {
                seq,
                earlier,
            },
            _ => {
                return Err(Error::wrapped(ErrorKind::Log, "Invalid checkpoint state detected"));
            },
        };
        Ok(Info::BeginCheckpoint)
    }

    /// End the state of an on-going checkpoint.
    ///
    /// This method should only be called when `finalize_batch()` reports
    /// `Info::BeginCheckpoint`, and the requested application state is
    /// received on the core server task's master channel. The decided
    /// operations and the voting messages are dropped; the latest
    /// `PRE-PREPARE` alone stays, so the in-flight consensus instance
    /// keeps its context, and the log's sequence number becomes its
    /// sequence number.
    pub fn finalize_checkpoint(&mut self, appstate: S) -> (r: Result<(), Error>)
        ensures
            final(self).batch_size == old(self).batch_size,
            final(self).requests == old(self).requests,
            final(self).deciding == old(self).deciding,
            match old(self).checkpoint {
                CheckpointState::Unstarted => r is Err
                    && r->Err_0.spec_kind() == ErrorKind::Log && *final(self) == *old(self),
                CheckpointState::Complete(_) => r is Err
                    && r->Err_0.spec_kind() == ErrorKind::Log && *final(self) == *old(self),
                CheckpointState::Partial { seq } => r is Ok
                    && spec_checkpoint_finalized(*old(self), *final(self), seq, appstate),
                CheckpointState::PartialWithEarlier { seq, .. } => r is Ok
                    && spec_checkpoint_finalized(*old(self), *final(self), seq, appstate),
            },
    {
        let seq = match &self.checkpoint {
            CheckpointState::Unstarted => {
                return Err(Error::wrapped(ErrorKind::Log, "No checkpoint has been initiated yet"));
            },
            CheckpointState::Complete(_) => {
                return Err(Error::wrapped(ErrorKind::Log, "Checkpoint already finalized"));
            },
            CheckpointState::Partial { seq } => *seq,
            CheckpointState::PartialWithEarlier { seq, .. } => *seq,
        };
        self.checkpoint = CheckpointState::Complete(Checkpoint { seq, appstate });
        self.decided.clear();
        match self.declog.pre_prepares.pop() {
            Some(last_pre_prepare) => {
                self.declog.pre_prepares.clear();
                // the id of the last accepted pre-prepare names the
                // request currently being processed
                self.curr_seq = last_pre_prepare.message.sequence_number();
                self.declog.pre_prepares.push(last_pre_prepare);
                proof {
                    assert(self.declog.pre_prepares@ =~= seq![
                        old(self).declog.pre_prepares@.last(),
                    ]);
                }
            },
            None => {
                // no stored PRE-PREPARE messages, NOOP
            },
        }
        self.declog.prepares.clear();
        self.declog.commits.clear();
        Ok(())
    }
}

/// How a log looks after its checkpoint at `seq` completes with the
/// application state `appstate`: the decided operations are dropped, the
/// latest `PRE-PREPARE` alone survives and names the log's sequence
/// number, and the votes are cleared.
pub open spec fn spec_checkpoint_finalized<S, O, P>(
    old_log: Log<S, O, P>,
    new_log: Log<S, O, P>,
    seq: SeqNo,
    appstate: S,
) -> bool {
    &&& new_log.checkpoint == CheckpointState::Complete(Checkpoint { seq, appstate })
    &&& new_log.decided@.len() == 0
    &&& new_log.declog.prepares@.len() == 0
    &&& new_log.declog.commits@.len() == 0
    &&& if old_log.declog.pre_prepares@.len() > 0 {
        new_log.declog.pre_prepares@ == seq![old_log.declog.pre_prepares@.last()]
            && new_log.curr_seq == old_log.declog.pre_prepares@.last().message.seq
    } else {
        new_log.declog.pre_prepares@.len() == 0 && new_log.curr_seq == old_log.curr_seq
    }
}

/// Copies a vector of operations, cloning each element.
pub(crate) fn clone_ops<O: Clone>(v: &Vec<O>) -> (res: Vec<O>)
    ensures
        res@.len() == v@.len(),
        forall|i: int| 0 <= i < v@.len()
            ==> vstd::pervasive::cloned::<O>(v@[i], #[trigger] res@[i]),
{
    let mut res: Vec<O> = Vec::new();
    let mut i: usize = 0;
    while i < v.len()
        invariant
            0 <= i <= v@.len(),
            res@.len() == i,
            forall|j: int| 0 <= j < i
                ==> vstd::pervasive::cloned::<O>(v@[j], #[trigger] res@[j]),
        decreases v@.len() - i,
    {
        res.push(v[i].clone());
        i = i + 1;
    }
    res
}

} // verus!
