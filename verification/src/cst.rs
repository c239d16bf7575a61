//! The collaborative state transfer algorithm.
//!
//! A lagging or recovering replica discovers the latest decided
//! consensus sequence number from a quorum of peers, then fetches and
//! validates a recovery snapshot holding a checkpoint and the decided
//! tail of the log.

use vstd::prelude::*;

use crate::collections::{om_contains, om_get, OrderedMap};
use crate::communication::NodeId;
use crate::consensus::Consensus;
use crate::crypto::Digest;
use crate::error::Error;
use crate::executable::{ExecutorHandle, Reply, Request, Service, State};
use crate::log::{Checkpoint, CheckpointState, DecisionLog, Log};
use crate::message::{CstMessage, CstMessageKind, Header};
use crate::ordering::{spec_index_of, Either, InvalidSeqNo, SeqNo};
use crate::view::ViewInfo;

verus! {

/// Contains state used by a recovering node: the view, a checkpoint of
/// the application state, and the operations decided since it.
pub struct RecoveryState<S, O> {
    /// The view the snapshot was taken in.
    pub view: ViewInfo,
    /// The checkpointed application state.
    pub checkpoint: Checkpoint<S>,
    /// The operations decided after the checkpoint; used to replay the
    /// log on recovering replicas. The request batches have been
    /// concatenated, for memory efficiency.
    pub requests: Vec<O>,
    /// The decided consensus messages after the checkpoint.
    pub declog: DecisionLog,
}

impl<S, O> RecoveryState<S, O> {
    /// Creates a new `RecoveryState`.
    pub fn new(view: ViewInfo, checkpoint: Checkpoint<S>, requests: Vec<O>, declog: DecisionLog)
        -> (r: Self)
        ensures
            r.view == view,
            r.checkpoint == checkpoint,
            r.requests == requests,
            r.declog == declog,
    {
        Self { view, checkpoint, requests, declog }
    }

    /// Returns the view this `RecoveryState` is tracking.
    pub fn view(&self) -> (r: ViewInfo)
        ensures
            r == self.view,
    {
        self.view
    }

    /// Returns the local checkpoint of this recovery state.
    pub fn checkpoint(&self) -> (r: &Checkpoint<S>)
        ensures
            r == self.checkpoint,
    {
        &self.checkpoint
    }

    /// Returns the operations embedded in the requests sent by clients
    /// after the last checkpoint at the moment of the creation of this
    /// `RecoveryState`.
    pub fn requests(&self) -> (r: &[O])
        ensures
            r@ == self.requests@,
    {
        self.requests.as_slice()
    }

    /// Returns a reference to the decided consensus messages of this
    /// recovery state.
    pub fn decision_log(&self) -> (r: &DecisionLog)
        ensures
            r == self.declog,
    {
        &self.declog
    }
}

/// Allow a replica to recover from the state received by peer nodes:
/// the consensus protocol skips to the recovered instance, the executor
/// is handed the checkpointed state and the operations to replay, and
/// the log adopts the recovered decision log and checkpoint.
///
/// Fails only when the executor task is gone; the consensus instance
/// has then already advanced, and the log is untouched.
pub fn install_recovery_state<S>(
    recovery_state: RecoveryState<State<S>, Request<S>>,
    log: &mut Log<State<S>, Request<S>, Reply<S>>,
    executor: &mut ExecutorHandle<S>,
    consensus: &mut Consensus,
) -> (r: Result<(), Error>) where S: Service, State<S>: Clone, Request<S>: Clone
    requires
        old(consensus).wf(),
    ensures
        final(consensus).wf(),
        final(consensus).phase is Init,
        ({
            let target = if recovery_state.declog.pre_prepares@.len() == 0 {
                old(consensus).tbo.curr_seq
            } else {
                recovery_state.declog.pre_prepares@.last().message.seq
            };
            &&& final(consensus).tbo.curr_seq == crate::consensus::spec_catch_up(
                old(consensus).tbo.curr_seq,
                target,
            )
            &&& spec_index_of(final(consensus).tbo.curr_seq.0 as int, target.0 as int)
                != Either::<InvalidSeqNo, int>::Left(InvalidSeqNo::Small)
        }),
        r is Err ==> r->Err_0.spec_kind() == crate::error::ErrorKind::Executable && *final(log)
            == *old(log),
        r is Ok ==> final(log).declog == recovery_state.declog && final(log).decided
            == recovery_state.requests && final(log).checkpoint
            == CheckpointState::Complete(recovery_state.checkpoint) && final(log).curr_seq
            == final(consensus).tbo.curr_seq && final(log).requests == old(log).requests
            && final(log).deciding == old(log).deciding,
{
    let state = recovery_state.checkpoint().state().clone();
    let requests = crate::log::clone_ops(&recovery_state.requests);
    consensus.install_new_phase(&recovery_state);
    match executor.install_state(state, requests) {
        Ok(()) => (),
        Err(e) => {
            return Err(e);
        },
    }
    log.install_state(consensus.sequence_number(), recovery_state);
    Ok(())
}

/// The phase of the state transfer protocol a node is in.
pub enum ProtoPhase<S, O> {
    /// Not transferring state; serving the requests of peers.
    Init,
    /// A peer asked for our state while our checkpoint was not yet
    /// complete; the request is parked until it is.
    WaitingCheckpoint(Header, CstMessage<S, O>),
    /// Waiting for replies naming the latest decided consensus
    /// sequence number; the counter counts them.
    ReceivingCid(usize),
    /// Waiting for replies carrying a recovery state; the counter
    /// counts them.
    ReceivingState(usize),
}

/// A recovery state received from peers, together with how many peers
/// sent one hashing to the same digest.
pub struct ReceivedState<S, O> {
    /// How many peers sent this state.
    pub count: usize,
    /// The state itself.
    pub state: RecoveryState<S, O>,
}

/// Status returned from processing a state transfer message.
pub enum CstStatus<S, O> {
    /// We are not running the CST protocol.
    ///
    /// Drop any attempt of processing a message in this condition.
    Nil,
    /// The CST protocol is currently running.
    Running,
    /// We should request the latest cid from the view.
    RequestLatestCid,
    /// We should request the latest state from the view.
    RequestState,
    /// We have received and validated the largest consensus sequence
    /// number available.
    SeqNo(SeqNo),
    /// We have received and validated the state from a group of
    /// replicas.
    State(RecoveryState<S, O>),
}

/// Represents progress in the CST state machine.
///
/// To clarify, the mention of state machine here has nothing to do with
/// the SMR protocol, but rather the implementation in code of the CST
/// protocol.
pub enum CstProgress<S, O> {
    /// This value represents null progress in the CST code's state
    /// machine.
    Nil,
    /// We have a fresh new message to feed the CST state machine, from
    /// the communication layer.
    Message(Header, CstMessage<S, O>),
}

/// One more vote on top of `i`, saturating at the largest possible
/// quorum.
pub open spec fn spec_cst_incr(i: int) -> int {
    if i >= crate::consensus::VOTE_CEIL {
        i
    } else {
        i + 1
    }
}

/// The doubled timeout, saturating instead of overflowing.
pub open spec fn spec_doubled(t: u64) -> u64 {
    if t <= u64::MAX / 2 {
        (2 * t) as u64
    } else {
        u64::MAX
    }
}

/// Represents the state of an on-going collaborative state transfer
/// protocol execution.
pub struct CollabStateTransfer<S, O> {
    /// The largest decided sequence number reported so far in the
    /// current discovery round.
    pub latest_cid: SeqNo,
    /// The sequence number naming the current state transfer round.
    pub cst_seq: SeqNo,
    /// How many replies agreed on `latest_cid`.
    pub latest_cid_count: usize,
    /// The timeout, in milliseconds, the first request of a round
    /// waits.
    pub base_timeout: u64,
    /// The timeout, in milliseconds, the current round waits; it
    /// doubles at every expiry.
    pub curr_timeout: u64,
    /// The recovery states received in the current round, bucketed by
    /// the digest of the message that carried them.
    pub received_states: OrderedMap<ReceivedState<S, O>>,
    /// The phase the protocol is in.
    pub phase: ProtoPhase<S, O>,
}

/// Whether the vote counter of a state transfer phase stays within the
/// saturation ceiling.
pub open spec fn spec_cst_phase_bounded<S, O>(phase: ProtoPhase<S, O>) -> bool {
    match phase {
        ProtoPhase::ReceivingCid(i) => i <= crate::consensus::VOTE_CEIL,
        ProtoPhase::ReceivingState(i) => i <= crate::consensus::VOTE_CEIL,
        _ => true,
    }
}

impl<S, O> CollabStateTransfer<S, O> {
    /// The well-formedness of the state transfer state.
    pub open spec fn wf(&self) -> bool {
        &&& self.received_states.wf()
        &&& spec_cst_phase_bounded(self.phase)
        &&& self.latest_cid_count <= crate::consensus::VOTE_CEIL
    }

    /// Craete a new instance of `CollabStateTransfer`, waiting
    /// `base_timeout` milliseconds on the first request of a round.
    pub fn new(base_timeout: u64) -> (r: Self)
        ensures
            r.wf(),
            r.base_timeout == base_timeout,
            r.curr_timeout == base_timeout,
            r.phase is Init,
            r.latest_cid == SeqNo(0),
            r.latest_cid_count == 0,
            r.cst_seq == SeqNo(0),
            r.received_states.entries@.len() == 0,
    {
        Self {
            base_timeout,
            curr_timeout: base_timeout,
            received_states: OrderedMap::new(),
            phase: ProtoPhase::Init,
            latest_cid: SeqNo(0),
            latest_cid_count: 0,
            cst_seq: SeqNo(0),
        }
    }

    /// Checks if the CST layer is waiting for a local checkpoint to
    /// complete.
    ///
    /// This is used when a node is sending state to a peer.
    pub fn needs_checkpoint(&self) -> (r: bool)
        ensures
            r == (self.phase is WaitingCheckpoint),
    {
        matches!(self.phase, ProtoPhase::WaitingCheckpoint(_, _))
    }

    /// Answers a peer's request for our state with a snapshot of the
    /// log when the checkpoint is complete; otherwise parks the request
    /// until the checkpoint completes.
    fn process_reply_state<P>(
        &mut self,
        header: Header,
        message: CstMessage<S, O>,
        view: ViewInfo,
        log: &Log<S, O, P>,
    ) -> (r: Option<(NodeId, CstMessage<S, O>)>) where S: Clone, O: Clone
        requires
            old(self).wf(),
        ensures
            final(self).wf(),
            final(self).latest_cid == old(self).latest_cid,
            final(self).cst_seq == old(self).cst_seq,
            final(self).latest_cid_count == old(self).latest_cid_count,
            final(self).base_timeout == old(self).base_timeout,
            final(self).curr_timeout == old(self).curr_timeout,
            final(self).received_states == old(self).received_states,
            log.checkpoint is Complete ==> final(self).phase == old(self).phase && (
            r matches Some((to, reply)) && to == NodeId(header.from) && reply.seq == message.seq
                && reply.kind is ReplyState),
            !(log.checkpoint is Complete) ==> r is None && final(self).phase
                == (ProtoPhase::<S, O>::WaitingCheckpoint(header, message)),
    {
        let snapshot = match log.snapshot(view) {
            Ok(snapshot) => snapshot,
            Err(_) => {
                self.phase = ProtoPhase::WaitingCheckpoint(header, message);
                return None;
            },
        };
        let reply = CstMessage::new(
            message.sequence_number(),
            CstMessageKind::ReplyState(snapshot),
        );
        Some((header.from(), reply))
    }

    /// Advances the state of the CST state machine: serves the requests
    /// of peers when idle, and counts the replies of the current
    /// discovery or state fetch round, concluding it at quorum.
    ///
    /// The second component of the result is a reply the caller must
    /// send to the named peer.
    pub fn process_message<P>(
        &mut self,
        progress: CstProgress<S, O>,
        view: ViewInfo,
        consensus: &Consensus,
        log: &Log<S, O, P>,
    ) -> (r: (CstStatus<S, O>, Option<(NodeId, CstMessage<S, O>)>)) where S: Clone, O: Clone
        requires
            old(self).wf(),
            view.params.wf(),
        ensures
            final(self).wf(),
            final(self).base_timeout == old(self).base_timeout,
            final(self).cst_seq == old(self).cst_seq,
            match old(self).phase {
                ProtoPhase::WaitingCheckpoint(h, m) => r.0 is Nil && if log.checkpoint
                    is Complete {
                    final(self).phase is Init && (r.1 matches Some((to, reply)) && to
                        == NodeId(h.from) && reply.seq == m.seq && reply.kind is ReplyState)
                } else {
                    r.1 is None && final(self).phase
                        == (ProtoPhase::<S, O>::WaitingCheckpoint(h, m))
                },
                ProtoPhase::Init => r.0 is Nil && match progress {
                    CstProgress::Message(h, m) => match m.kind {
                        CstMessageKind::RequestLatestConsensusSeq => *final(self) == *old(self)
                            && (r.1 matches Some((to, reply)) && to == NodeId(h.from)
                            && reply.seq == m.seq && (reply.kind matches
                        CstMessageKind::ReplyLatestConsensusSeq(cid) && cid
                            == consensus.tbo.curr_seq)),
                        CstMessageKind::RequestState => if log.checkpoint is Complete {
                            *final(self) == *old(self) && (r.1 matches Some((to, reply))
                                && to == NodeId(h.from) && reply.seq == m.seq
                                && reply.kind is ReplyState)
                        } else {
                            r.1 is None && final(self).phase
                                == (ProtoPhase::<S, O>::WaitingCheckpoint(h, m))
                                && final(self).received_states == old(self).received_states
                                && final(self).curr_timeout == old(self).curr_timeout
                                && final(self).latest_cid == old(self).latest_cid
                                && final(self).latest_cid_count == old(self).latest_cid_count
                        },
                        _ => r.1 is None && *final(self) == *old(self),
                    },
                    CstProgress::Nil => r.1 is None && *final(self) == *old(self),
                },
                ProtoPhase::ReceivingCid(i) => match progress {
                    CstProgress::Nil => r.0 is RequestLatestCid && *final(self) == *old(self),
                    CstProgress::Message(h, m) => {
                        &&& r.1 is None
                        &&& if m.seq.spec_next() != old(self).cst_seq {
                            r.0 is Running && *final(self) == *old(self)
                        } else if !(m.kind is ReplyLatestConsensusSeq) {
                            r.0 is Running && *final(self) == *old(self)
                        } else {
                            let reported = m.kind->ReplyLatestConsensusSeq_0;
                            let i2 = spec_cst_incr(i as int);
                            &&& final(self).received_states == old(self).received_states
                            &&& match spec_index_of(
                                reported.0 as int,
                                old(self).latest_cid.0 as int,
                            ) {
                                Either::Left(InvalidSeqNo::Small) => final(self).latest_cid
                                    == old(self).latest_cid && final(self).latest_cid_count
                                    == old(self).latest_cid_count,
                                Either::Right(d) => if d == 0 {
                                    final(self).latest_cid == old(self).latest_cid
                                        && final(self).latest_cid_count == spec_cst_incr(
                                        old(self).latest_cid_count as int,
                                    )
                                } else {
                                    final(self).latest_cid == reported
                                        && final(self).latest_cid_count == 1
                                },
                                Either::Left(InvalidSeqNo::Big) => final(self).latest_cid
                                    == reported && final(self).latest_cid_count == 1,
                            }
                            &&& if i2 == crate::consensus::spec_quorum(view) {
                                &&& final(self).phase is Init
                                &&& if final(self).latest_cid_count > view.params.f {
                                    r.0 matches CstStatus::SeqNo(cid) && cid
                                        == final(self).latest_cid && final(self).curr_timeout
                                        == final(self).base_timeout
                                } else {
                                    r.0 is RequestLatestCid && final(self).curr_timeout
                                        == old(self).curr_timeout
                                }
                            } else {
                                r.0 is Running && final(self).phase
                                    == ProtoPhase::<S, O>::ReceivingCid(i2 as usize)
                                    && final(self).curr_timeout == old(self).curr_timeout
                            }
                        }
                    },
                },
                ProtoPhase::ReceivingState(i) => match progress {
                    CstProgress::Nil => r.0 is RequestState && *final(self) == *old(self),
                    CstProgress::Message(h, m) => {
                        &&& r.1 is None
                        &&& if m.seq.spec_next() != old(self).cst_seq || !(m.kind is ReplyState) {
                            r.0 is Running && *final(self) == *old(self)
                        } else {
                            let i2 = spec_cst_incr(i as int);
                            if i2 != crate::consensus::spec_quorum(view) {
                                r.0 is Running && final(self).phase
                                    == ProtoPhase::<S, O>::ReceivingState(i2 as usize)
                                    && final(self).curr_timeout == old(self).curr_timeout
                            } else {
                                let old_es = old(self).received_states.entries@;
                                let newcount = if om_contains(old_es, h.digest@) {
                                    spec_cst_incr(om_get(old_es, h.digest@).count as int)
                                } else {
                                    1
                                };
                                &&& final(self).received_states.entries@.len() == 0
                                &&& final(self).curr_timeout == final(self).base_timeout
                                &&& match r.0 {
                                    CstStatus::State(rs) => (exists|j: int|
                                        0 <= j < old_es.len() && (#[trigger] old_es[j]).1.count
                                            > view.params.f && rs == old_es[j].1.state)
                                        || (newcount > view.params.f && rs
                                        == m.kind->ReplyState_0),
                                    CstStatus::RequestState => true,
                                    _ => false,
                                }
                            }
                        }
                    },
                },
            },
    {
        match &self.phase {
            ProtoPhase::WaitingCheckpoint(_, _) => {
                // take the parked request out and try to serve it again
                let mut phase = ProtoPhase::Init;
                core::mem::swap(&mut self.phase, &mut phase);
                match phase {
                    ProtoPhase::WaitingCheckpoint(header, message) => {
                        let reply = self.process_reply_state(header, message, view, log);
                        (CstStatus::Nil, reply)
                    },
                    _ => vstd::pervasive::unreached(),
                }
            },
            ProtoPhase::Init => {
                let (header, message) = match progress {
                    CstProgress::Nil => {
                        return (CstStatus::Nil, None);
                    },
                    CstProgress::Message(header, message) => (header, message),
                };
                match &message.kind {
                    CstMessageKind::RequestLatestConsensusSeq => {
                        let kind = CstMessageKind::ReplyLatestConsensusSeq(
                            consensus.sequence_number(),
                        );
                        let reply = CstMessage::new(message.sequence_number(), kind);
                        (CstStatus::Nil, Some((header.from(), reply)))
                    },
                    CstMessageKind::RequestState => {
                        let reply = self.process_reply_state(header, message, view, log);
                        (CstStatus::Nil, reply)
                    },
                    // we are not running cst, so drop any reply msgs
                    _ => (CstStatus::Nil, None),
                }
            },
            ProtoPhase::ReceivingCid(i) => {
                let i = *i;
                let (_header, message) = match progress {
                    CstProgress::Nil => {
                        return (CstStatus::RequestLatestCid, None);
                    },
                    CstProgress::Message(header, message) => (header, message),
                };
                // drop cst messages of other rounds: the round under way
                // is the one `cst_seq` will succeed
                if message.sequence_number().next() != self.cst_seq {
                    return (CstStatus::Running, None);
                }
                match message.kind() {
                    CstMessageKind::ReplyLatestConsensusSeq(seq) => {
                        let seq = *seq;
                        match seq.partial_cmp(&self.latest_cid) {
                            Some(core::cmp::Ordering::Greater) => {
                                self.latest_cid = seq;
                                self.latest_cid_count = 1;
                            },
                            Some(core::cmp::Ordering::Equal) => {
                                self.latest_cid_count =
                                    if self.latest_cid_count >= crate::consensus::VOTE_CEIL {
                                    self.latest_cid_count
                                } else {
                                    self.latest_cid_count + 1
                                };
                            },
                            _ => (),
                        }
                    },
                    // drop invalid message kinds
                    _ => {
                        return (CstStatus::Running, None);
                    },
                }
                // check if we have gathered enough cid replies from
                // peer nodes
                let i = if i >= crate::consensus::VOTE_CEIL {
                    i
                } else {
                    i + 1
                };
                if i == view.params().quorum() {
                    self.phase = ProtoPhase::Init;
                    if self.latest_cid_count > view.params().f() {
                        // reset timeout, since req was successful
                        self.curr_timeout = self.base_timeout;
                        // the latest cid was available in at least
                        // f+1 replicas
                        (CstStatus::SeqNo(self.latest_cid), None)
                    } else {
                        (CstStatus::RequestLatestCid, None)
                    }
                } else {
                    self.phase = ProtoPhase::ReceivingCid(i);
                    (CstStatus::Running, None)
                }
            },
            ProtoPhase::ReceivingState(i) => {
                let i = *i;
                let (header, mut message) = match progress {
                    CstProgress::Nil => {
                        return (CstStatus::RequestState, None);
                    },
                    CstProgress::Message(header, message) => (header, message),
                };
                if message.sequence_number().next() != self.cst_seq {
                    return (CstStatus::Running, None);
                }
                let state = match message.take_state() {
                    Some(state) => state,
                    // drop invalid message kinds
                    None => {
                        return (CstStatus::Running, None);
                    },
                };
                // bucket the state by the digest of the message that
                // carried it
                let digest = *header.digest();
                let count = match self.received_states.get(&digest) {
                    Some(received) => if received.count >= crate::consensus::VOTE_CEIL {
                        received.count
                    } else {
                        received.count + 1
                    },
                    None => 1,
                };
                self.received_states.insert(digest, ReceivedState { count, state });
                // check if we have gathered enough state replies from
                // peer nodes
                let i = if i >= crate::consensus::VOTE_CEIL {
                    i
                } else {
                    i + 1
                };
                if i != view.params().quorum() {
                    self.phase = ProtoPhase::ReceivingState(i);
                    return (CstStatus::Running, None);
                }
                // NOTE: clear saved states when we return; this is
                // important, because each state may be several GBs in
                // size
                // check if we have at least f+1 matching states; the
                // reply just counted keeps the map non-empty
                let mut best: usize = 0;
                let mut best_count: usize = {
                    let first = &self.received_states.entries[0];
                    first.1.count
                };
                let mut k: usize = 1;
                while k < self.received_states.len()
                    invariant
                        self.wf(),
                        self.received_states.entries@.len() > 0,
                        0 < k <= self.received_states.entries@.len(),
                        best < k,
                        best_count == self.received_states.entries@[best as int].1.count,
                        forall|j: int| 0 <= j < k
                            ==> (#[trigger] self.received_states.entries@[j]).1.count
                            <= best_count,
                    decreases self.received_states.entries@.len() - k,
                {
                    let entry = &self.received_states.entries[k];
                    let bc = {
                        let best_entry = &self.received_states.entries[best];
                        best_entry.1.count
                    };
                    if entry.1.count > bc {
                        best = k;
                        best_count = entry.1.count;
                    }
                    k = k + 1;
                }
                let entry = self.received_states.entries.remove(best);
                let mut cleared = OrderedMap::new();
                core::mem::swap(&mut self.received_states, &mut cleared);
                // reset timeout, since req was successful
                self.curr_timeout = self.base_timeout;
                // return the state
                if entry.1.count > view.params().f() {
                    (CstStatus::State(entry.1.state), None)
                } else {
                    (CstStatus::RequestState, None)
                }
            },
        }
    }

    /// Advances the sequence number naming the state transfer rounds,
    /// returning the round it names.
    fn next_seq(&mut self) -> (r: SeqNo)
        ensures
            r == old(self).cst_seq,
            *final(self) == (CollabStateTransfer {
                cst_seq: old(self).cst_seq.spec_next(),
                ..*old(self)
            }),
    {
        let next = self.cst_seq;
        self.cst_seq = self.cst_seq.next();
        next
    }

    /// Handle a timeout received from the timeouts layer: a timeout of
    /// the current round doubles the waiting time and asks for the
    /// round to be retried; stale timeouts are ignored.
    pub fn timed_out(&mut self, seq: SeqNo) -> (r: CstStatus<S, O>)
        requires
            old(self).wf(),
        ensures
            final(self).wf(),
            seq.spec_next() != old(self).cst_seq ==> r is Nil && *final(self) == *old(self),
            seq.spec_next() == old(self).cst_seq ==> match old(self).phase {
                ProtoPhase::ReceivingCid(_) => r is RequestLatestCid && *final(self)
                    == (CollabStateTransfer {
                    curr_timeout: spec_doubled(old(self).curr_timeout),
                    ..*old(self)
                }),
                ProtoPhase::ReceivingState(_) => r is RequestState && *final(self)
                    == (CollabStateTransfer {
                    curr_timeout: spec_doubled(old(self).curr_timeout),
                    ..*old(self)
                }),
                _ => r is Nil && *final(self) == *old(self),
            },
    {
        if seq.next() != self.cst_seq {
            // the timeout we received is for a request that has
            // already completed, therefore we ignore it
            return CstStatus::Nil;
        }
        match &self.phase {
            // retry requests if receiving state and we have timed out
            ProtoPhase::ReceivingCid(_) => {
                self.curr_timeout = double_timeout(self.curr_timeout);
                CstStatus::RequestLatestCid
            },
            ProtoPhase::ReceivingState(_) => {
                self.curr_timeout = double_timeout(self.curr_timeout);
                CstStatus::RequestState
            },
            // ignore timeouts if not receiving any kind of state from
            // peer nodes
            _ => CstStatus::Nil,
        }
    }

    /// Used by a recovering node to retrieve the latest sequence number
    /// attributed to a client request by the consensus layer: begins a
    /// discovery round and returns the request the caller must
    /// broadcast to the replicas of the view, after registering a
    /// timeout of `curr_timeout` milliseconds for the round.
    pub fn request_latest_consensus_seq_no(&mut self, view: ViewInfo) -> (r: CstMessage<S, O>)
        requires
            old(self).wf(),
        ensures
            final(self).wf(),
            final(self).latest_cid == SeqNo(0),
            final(self).latest_cid_count == 0,
            final(self).cst_seq == old(self).cst_seq.spec_next(),
            final(self).phase == ProtoPhase::<S, O>::ReceivingCid(0),
            final(self).curr_timeout == old(self).curr_timeout,
            final(self).base_timeout == old(self).base_timeout,
            final(self).received_states == old(self).received_states,
            r.seq == old(self).cst_seq,
            r.kind is RequestLatestConsensusSeq,
    {
        // reset state of latest seq no. request
        self.latest_cid = SeqNo(0);
        self.latest_cid_count = 0;
        let cst_seq = self.next_seq();
        self.phase = ProtoPhase::ReceivingCid(0);
        CstMessage::new(cst_seq, CstMessageKind::RequestLatestConsensusSeq)
    }

    /// Used by a recovering node to retrieve the latest state: begins a
    /// state fetch round and returns the request the caller must
    /// broadcast to the replicas of the view, after registering a
    /// timeout of `curr_timeout` milliseconds for the round.
    pub fn request_latest_state(&mut self, view: ViewInfo) -> (r: CstMessage<S, O>)
        requires
            old(self).wf(),
        ensures
            final(self).wf(),
            final(self).received_states.entries@.len() == 0,
            final(self).cst_seq == old(self).cst_seq.spec_next(),
            final(self).phase == ProtoPhase::<S, O>::ReceivingState(0),
            final(self).curr_timeout == old(self).curr_timeout,
            final(self).base_timeout == old(self).base_timeout,
            final(self).latest_cid == old(self).latest_cid,
            final(self).latest_cid_count == old(self).latest_cid_count,
            r.seq == old(self).cst_seq,
            r.kind is RequestState,
    {
        // reset the map of received states
        let mut cleared = OrderedMap::new();
        core::mem::swap(&mut self.received_states, &mut cleared);
        let cst_seq = self.next_seq();
        self.phase = ProtoPhase::ReceivingState(0);
        CstMessage::new(cst_seq, CstMessageKind::RequestState)
    }

    /// The timeout, in milliseconds, the current round's request should
    /// wait before being retried.
    pub fn current_timeout(&self) -> (r: u64)
        ensures
            r == self.curr_timeout,
    {
        self.curr_timeout
    }
}

/// Doubles a timeout, saturating instead of overflowing.
fn double_timeout(t: u64) -> (r: u64)
    ensures
        r == spec_doubled(t),
{
    if t <= u64::MAX / 2 {
        2 * t
    } else {
        u64::MAX
    }
}

} // verus!
