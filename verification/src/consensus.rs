//! The consensus algorithm: a three-phase protocol that totally orders
//! batches of client requests, with an ordered queue buffering the
//! messages of instances that have not started yet.

use std::collections::VecDeque;

use vstd::prelude::*;

use crate::communication::NodeId;
use crate::crypto::Digest;
use crate::cst::RecoveryState;
use crate::log::Log;
use crate::message::{ConsensusMessage, ConsensusMessageKind, Header, SystemMessage};
use crate::ordering::{spec_index_of, Either, InvalidSeqNo, SeqNo};
use crate::view::ViewInfo;

verus! {

broadcast use vstd::std_specs::vecdeque::group_vec_dequeue_axioms;

/// One buffered consensus message, waiting for its instance.
pub type QueuedMessage = (Header, ConsensusMessage);

/// One phase's buffer: slot `i` holds the messages of the instance `i`
/// places after the current one.
pub type TboSlots = VecDeque<VecDeque<QueuedMessage>>;

/// Represents the status of calling `poll()` on a `TboQueue`.
pub enum ConsensusPollStatus {
    /// The replica associated with this `TboQueue` should poll its main
    /// channel for more messages.
    Recv,
    /// The replica associated with this `TboQueue` should propose a new
    /// client request to be ordered, if it is the leader, and then it
    /// should poll its main channel for more messages.
    TryProposeAndRecv,
    /// A new consensus message is available to be processed.
    NextMessage(Header, ConsensusMessage),
}

/// Whether queueing `(h, m)` at slot `index` turned the slots `old_q`
/// into `new_q`: the message is appended to its slot, which exists
/// afterwards, slots in between are created empty, and every other slot
/// keeps its messages.
pub open spec fn spec_slot_queued(
    old_q: Seq<VecDeque<QueuedMessage>>,
    new_q: Seq<VecDeque<QueuedMessage>>,
    index: int,
    h: Header,
    m: ConsensusMessage,
) -> bool {
    &&& new_q.len() == vstd::math::max(old_q.len() as int, index + 1)
    &&& new_q[index]@ == (if index < old_q.len() {
        old_q[index]@
    } else {
        Seq::<QueuedMessage>::empty()
    }).push((h, m))
    &&& forall|j: int| 0 <= j < old_q.len() && j != index ==> new_q[j]@ == old_q[j]@
    &&& forall|j: int| old_q.len() <= j < new_q.len() && j != index ==> new_q[j]@.len() == 0
}

/// Whether queueing `(h, m)` relative to the instance `curr_seq` turned
/// the slots `old_q` into `new_q`: messages of an older instance, or of
/// one too far ahead, are dropped, and the others land in the slot their
/// distance names.
pub open spec fn spec_tbo_queued(
    old_q: Seq<VecDeque<QueuedMessage>>,
    new_q: Seq<VecDeque<QueuedMessage>>,
    curr_seq: SeqNo,
    h: Header,
    m: ConsensusMessage,
) -> bool {
    match spec_index_of(m.seq.0 as int, curr_seq.0 as int) {
        Either::Right(index) => spec_slot_queued(old_q, new_q, index, h, m),
        Either::Left(_) => new_q == old_q,
    }
}

/// Whether popping the front message of the current instance's slot
/// turned the slots `old_q` into `new_q`, yielding `popped`.
pub open spec fn spec_slot_popped(
    old_q: Seq<VecDeque<QueuedMessage>>,
    new_q: Seq<VecDeque<QueuedMessage>>,
    popped: QueuedMessage,
) -> bool {
    &&& old_q.len() > 0
    &&& old_q[0]@.len() > 0
    &&& popped == old_q[0]@[0]
    &&& new_q.len() == old_q.len()
    &&& new_q[0]@ == old_q[0]@.skip(1)
    &&& forall|j: int| 1 <= j < old_q.len() ==> new_q[j]@ == old_q[j]@
}

/// Whether the current instance's slot has no message to pop.
pub open spec fn spec_slot_empty(q: Seq<VecDeque<QueuedMessage>>) -> bool {
    q.len() == 0 || q[0]@.len() == 0
}

/// Whether two slot sequences hold the same messages, slot for slot.
pub open spec fn spec_slots_view_eq(
    a: Seq<VecDeque<QueuedMessage>>,
    b: Seq<VecDeque<QueuedMessage>>,
) -> bool {
    a.len() == b.len() && forall|j: int| 0 <= j < a.len() ==> a[j]@ == (#[trigger] b[j])@
}

/// Whether rotating the slots by one instance turned `old_q` into
/// `new_q`: the front slot is recycled to the back, empty.
pub open spec fn spec_slots_advanced(
    old_q: Seq<VecDeque<QueuedMessage>>,
    new_q: Seq<VecDeque<QueuedMessage>>,
) -> bool {
    if old_q.len() == 0 {
        new_q == old_q
    } else {
        &&& new_q.len() == old_q.len()
        &&& forall|j: int| 0 <= j < old_q.len() - 1 ==> new_q[j]@ == old_q[j + 1]@
        &&& new_q.last()@.len() == 0
    }
}

/// A message queued for the current instance while its slot was empty
/// is the message a later pop yields: buffering is first in, first out.
pub proof fn lemma_queued_then_popped(
    q0: Seq<VecDeque<QueuedMessage>>,
    q1: Seq<VecDeque<QueuedMessage>>,
    q2: Seq<VecDeque<QueuedMessage>>,
    h: Header,
    m: ConsensusMessage,
    popped: QueuedMessage,
)
    requires
        spec_slot_empty(q0),
        spec_slot_queued(q0, q1, 0, h, m),
        spec_slot_popped(q1, q2, popped),
    ensures
        popped == (h, m),
{
}

/// Represents a queue of messages to be ordered in a consensus
/// instance.
///
/// Because of the asynchrony of the Internet, messages may arrive out of
/// context, e.g. for the same consensus instance, a `PRE-PREPARE`
/// reaches a node after a `PREPARE`. A `TboQueue` arranges these
/// messages to be processed in the correct order.
pub struct TboQueue {
    /// The id of the consensus instance this queue is anchored at.
    pub curr_seq: SeqNo,
    /// Whether polling may be able to extract a buffered message.
    pub get_queue: bool,
    /// The buffered `PRE-PREPARE` messages, one slot per instance.
    pub pre_prepares: TboSlots,
    /// The buffered `PREPARE` messages, one slot per instance.
    pub prepares: TboSlots,
    /// The buffered `COMMIT` messages, one slot per instance.
    pub commits: TboSlots,
}

/// Appends `(h, m)` to the slot `index` of `tbo`, extending the slots
/// with empty ones as needed.
fn slot_queue_at(tbo: &mut TboSlots, index: usize, h: Header, m: ConsensusMessage)
    requires
        index < 0x1_0000,
        old(tbo)@.len() <= 0x1_0000,
    ensures
        spec_slot_queued(old(tbo)@, final(tbo)@, index as int, h, m),
        final(tbo)@.len() <= 0x1_0000,
{
    while tbo.len() <= index
        invariant
            index < 0x1_0000,
            tbo@.len() >= old(tbo)@.len(),
            tbo@.len() <= vstd::math::max(old(tbo)@.len() as int, index + 1),
            tbo@.subrange(0, old(tbo)@.len() as int) == old(tbo)@,
            forall|j: int| old(tbo)@.len() <= j < tbo@.len() ==> tbo@[j]@.len() == 0,
        decreases index + 1 - tbo@.len(),
    {
        tbo.push_back(VecDeque::new());
        proof {
            assert(tbo@.subrange(0, old(tbo)@.len() as int) =~= old(tbo)@);
        }
    }
    let ghost padded = tbo@;
    let mut slot = match tbo.remove(index) {
        Some(slot) => slot,
        None => vstd::pervasive::unreached(),
    };
    slot.push_back((h, m));
    let ghost slotv = slot;
    tbo.insert(index, slot);
    proof {
        let oq = old(tbo)@;
        let ii = index as int;
        assert(padded.len() == vstd::math::max(oq.len() as int, ii + 1));
        assert(tbo@[ii] == slotv);
        assert(tbo@ =~= padded.update(ii, slotv));
        assert forall|j: int| 0 <= j < oq.len() && j != ii implies tbo@[j]@ == oq[j]@ by {
            assert(padded[j] == padded.subrange(0, oq.len() as int)[j]);
        }
        if ii < oq.len() {
            assert(padded[ii] == padded.subrange(0, oq.len() as int)[ii]);
        } else {
            assert(padded[ii]@ =~= Seq::<QueuedMessage>::empty());
        }
        assert(tbo@[ii]@ == padded[ii]@.push((h, m)));
    }
}

/// Pops the front message of the current instance's slot of `tbo`, if
/// there is one.
fn slot_pop(tbo: &mut TboSlots) -> (r: Option<QueuedMessage>)
    ensures
        match r {
            Some(popped) => spec_slot_popped(old(tbo)@, final(tbo)@, popped),
            None => spec_slot_empty(old(tbo)@) && spec_slots_view_eq(old(tbo)@, final(tbo)@),
        },
{
    if tbo.len() == 0 {
        return None;
    }
    let mut slot = match tbo.remove(0) {
        Some(slot) => slot,
        None => vstd::pervasive::unreached(),
    };
    let popped = slot.pop_front();
    tbo.insert(0, slot);
    proof {
        assert(tbo@ =~= old(tbo)@.update(0, tbo@[0]));
        if popped is Some {
            assert(tbo@[0]@ =~= old(tbo)@[0]@.skip(1));
        }
    }
    popped
}

/// Rotates the slots of `tbo` by one instance, recycling the front
/// slot's storage at the back.
fn slots_advance(tbo: &mut TboSlots)
    ensures
        spec_slots_advanced(old(tbo)@, final(tbo)@),
{
    match tbo.pop_front() {
        Some(mut slot) => {
            // recycle memory
            slot.clear();
            tbo.push_back(slot);
        },
        None => (),
    }
}

impl TboQueue {
    /// The bound every phase buffer stays under; far above the furthest
    /// slot a message can index, which `DROP_SEQNO_THRES` caps.
    pub open spec fn wf(&self) -> bool {
        &&& self.pre_prepares@.len() <= 0x1_0000
        &&& self.prepares@.len() <= 0x1_0000
        &&& self.commits@.len() <= 0x1_0000
    }

    /// Creates a new queue anchored at the instance `curr_seq`.
    pub fn new(curr_seq: SeqNo) -> (r: Self)
        ensures
            r.curr_seq == curr_seq,
            !r.get_queue,
            r.pre_prepares@.len() == 0,
            r.prepares@.len() == 0,
            r.commits@.len() == 0,
            r.wf(),
    {
        Self {
            curr_seq,
            get_queue: false,
            pre_prepares: VecDeque::new(),
            prepares: VecDeque::new(),
            commits: VecDeque::new(),
        }
    }

    /// Signal this `TboQueue` that it may be able to extract new
    /// consensus messages from its internal storage.
    pub fn signal(&mut self)
        ensures
            *final(self) == (TboQueue { get_queue: true, ..*old(self) }),
    {
        self.get_queue = true;
    }

    /// Reports the id of the consensus instance this `TboQueue` is
    /// tracking.
    pub fn sequence_number(&self) -> (r: SeqNo)
        ensures
            r == self.curr_seq,
    {
        self.curr_seq
    }

    /// Advances the message queue, and updates the consensus instance
    /// id.
    fn next_instance_queue(&mut self)
        requires
            old(self).wf(),
        ensures
            final(self).wf(),
            final(self).curr_seq == old(self).curr_seq.spec_next(),
            final(self).get_queue == old(self).get_queue,
            spec_slots_advanced(old(self).pre_prepares@, final(self).pre_prepares@),
            spec_slots_advanced(old(self).prepares@, final(self).prepares@),
            spec_slots_advanced(old(self).commits@, final(self).commits@),
    {
        self.curr_seq = self.curr_seq.next();
        slots_advance(&mut self.pre_prepares);
        slots_advance(&mut self.prepares);
        slots_advance(&mut self.commits);
    }

    /// Queues a consensus message for later processing, or drops it
    /// immediately if it pertains to an older consensus instance, or to
    /// one too far ahead.
    pub fn queue(&mut self, h: Header, m: ConsensusMessage)
        requires
            old(self).wf(),
        ensures
            final(self).wf(),
            final(self).curr_seq == old(self).curr_seq,
            final(self).get_queue == old(self).get_queue,
            match m.kind {
                ConsensusMessageKind::PrePrepare(_) => spec_tbo_queued(
                    old(self).pre_prepares@,
                    final(self).pre_prepares@,
                    old(self).curr_seq,
                    h,
                    m,
                ) && final(self).prepares@ == old(self).prepares@
                    && final(self).commits@ == old(self).commits@,
                ConsensusMessageKind::Prepare(_) => spec_tbo_queued(
                    old(self).prepares@,
                    final(self).prepares@,
                    old(self).curr_seq,
                    h,
                    m,
                ) && final(self).pre_prepares@ == old(self).pre_prepares@
                    && final(self).commits@ == old(self).commits@,
                ConsensusMessageKind::Commit(_) => spec_tbo_queued(
                    old(self).commits@,
                    final(self).commits@,
                    old(self).curr_seq,
                    h,
                    m,
                ) && final(self).pre_prepares@ == old(self).pre_prepares@
                    && final(self).prepares@ == old(self).prepares@,
            },
    {
        match &m.kind {
            ConsensusMessageKind::PrePrepare(_) => self.queue_pre_prepare(h, m),
            ConsensusMessageKind::Prepare(_) => self.queue_prepare(h, m),
            ConsensusMessageKind::Commit(_) => self.queue_commit(h, m),
        }
    }

    /// Queues a `PRE-PREPARE` message for later processing, or drops it
    /// immediately if it falls outside the instance window.
    fn queue_pre_prepare(&mut self, h: Header, m: ConsensusMessage)
        requires
            old(self).wf(),
        ensures
            final(self).wf(),
            spec_tbo_queued(old(self).pre_prepares@, final(self).pre_prepares@, old(self).curr_seq, h, m),
            final(self).prepares@ == old(self).prepares@,
            final(self).commits@ == old(self).commits@,
            final(self).curr_seq == old(self).curr_seq,
            final(self).get_queue == old(self).get_queue,
    {
        match m.sequence_number().index(self.curr_seq) {
            Either::Right(index) => slot_queue_at(&mut self.pre_prepares, index, h, m),
            Either::Left(_) => (),
        }
    }

    /// Queues a `PREPARE` message for later processing, or drops it
    /// immediately if it falls outside the instance window.
    fn queue_prepare(&mut self, h: Header, m: ConsensusMessage)
        requires
            old(self).wf(),
        ensures
            final(self).wf(),
            spec_tbo_queued(old(self).prepares@, final(self).prepares@, old(self).curr_seq, h, m),
            final(self).pre_prepares@ == old(self).pre_prepares@,
            final(self).commits@ == old(self).commits@,
            final(self).curr_seq == old(self).curr_seq,
            final(self).get_queue == old(self).get_queue,
    {
        match m.sequence_number().index(self.curr_seq) {
            Either::Right(index) => slot_queue_at(&mut self.prepares, index, h, m),
            Either::Left(_) => (),
        }
    }

    /// Queues a `COMMIT` message for later processing, or drops it
    /// immediately if it falls outside the instance window.
    fn queue_commit(&mut self, h: Header, m: ConsensusMessage)
        requires
            old(self).wf(),
        ensures
            final(self).wf(),
            spec_tbo_queued(old(self).commits@, final(self).commits@, old(self).curr_seq, h, m),
            final(self).pre_prepares@ == old(self).pre_prepares@,
            final(self).prepares@ == old(self).prepares@,
            final(self).curr_seq == old(self).curr_seq,
            final(self).get_queue == old(self).get_queue,
    {
        match m.sequence_number().index(self.curr_seq) {
            Either::Right(index) => slot_queue_at(&mut self.commits, index, h, m),
            Either::Left(_) => (),
        }
    }
}

/// Represents the current phase of the consensus protocol.
#[derive(Debug, Copy, Clone, PartialEq, Eq, Structural)]
pub enum ProtoPhase {
    /// Start of a new consensus instance.
    Init,
    /// Running the `PRE-PREPARE` phase.
    PrePreparing,
    /// A replica has accepted a `PRE-PREPARE` message, but it doesn't
    /// have the entirety of the requests it references in its log.
    PreparingRequests,
    /// Running the `PREPARE` phase. The integer represents the number
    /// of votes received.
    Preparing(usize),
    /// Running the `COMMIT` phase. The integer represents the number of
    /// votes received.
    Committing(usize),
}

/// Status returned from processing a consensus message.
pub enum ConsensusStatus {
    /// A particular node tried voting twice.
    VotedTwice(NodeId),
    /// A quorum still hasn't made a decision on a client request to be
    /// executed.
    Deciding,
    /// A quorum decided on the execution of the batch of requests with
    /// the given digests.
    Decided(Vec<Digest>),
}

/// The largest vote count a phase tracks; no legal quorum exceeds it,
/// and the counters saturate there rather than grow without bound on
/// stale votes.
pub const VOTE_CEIL: usize = 0x2000_0001;

/// One more vote on top of `i`, saturating at `VOTE_CEIL`.
pub open spec fn spec_incr(i: int) -> int {
    if i >= VOTE_CEIL {
        i
    } else {
        i + 1
    }
}

/// The quorum of the view: `2f + 1` matching votes decide.
pub open spec fn spec_quorum(view: ViewInfo) -> int {
    2 * view.params.f + 1
}

/// Contains the state of an active consensus instance, as well as
/// future instances.
pub struct Consensus {
    /// The number of request digests in the batch under decision.
    pub batch_size: usize,
    /// The digest of the accepted `PRE-PREPARE` message, which the
    /// votes of the later phases name.
    pub current_digest: Digest,
    /// The phase the protocol is in.
    pub phase: ProtoPhase,
    /// The queue of messages of instances that have not started.
    pub tbo: TboQueue,
    /// The request digests of the batch under decision.
    pub current: Vec<Digest>,
    /// The digests of the batch whose requests the log is still
    /// missing.
    pub missing_requests: VecDeque<Digest>,
}

/// Whether the vote counter of a phase stays within `VOTE_CEIL`.
pub open spec fn spec_phase_bounded(phase: ProtoPhase) -> bool {
    match phase {
        ProtoPhase::Preparing(i) => i <= VOTE_CEIL,
        ProtoPhase::Committing(i) => i <= VOTE_CEIL,
        _ => true,
    }
}

/// Whether `c` only queued the message `(h, m)` for later: the message
/// went to the buffer of its kind, and every other part of the state
/// stayed as it was.
pub open spec fn spec_only_queued(old_c: Consensus, new_c: Consensus, h: Header, m: ConsensusMessage)
    -> bool {
    &&& new_c.tbo.curr_seq == old_c.tbo.curr_seq
    &&& new_c.tbo.get_queue == old_c.tbo.get_queue
    &&& new_c.phase == old_c.phase
    &&& new_c.batch_size == old_c.batch_size
    &&& new_c.current_digest == old_c.current_digest
    &&& new_c.current == old_c.current
    &&& new_c.missing_requests == old_c.missing_requests
    &&& match m.kind {
        ConsensusMessageKind::PrePrepare(_) => spec_tbo_queued(
            old_c.tbo.pre_prepares@,
            new_c.tbo.pre_prepares@,
            old_c.tbo.curr_seq,
            h,
            m,
        ) && new_c.tbo.prepares@ == old_c.tbo.prepares@
            && new_c.tbo.commits@ == old_c.tbo.commits@,
        ConsensusMessageKind::Prepare(_) => spec_tbo_queued(
            old_c.tbo.prepares@,
            new_c.tbo.prepares@,
            old_c.tbo.curr_seq,
            h,
            m,
        ) && new_c.tbo.pre_prepares@ == old_c.tbo.pre_prepares@
            && new_c.tbo.commits@ == old_c.tbo.commits@,
        ConsensusMessageKind::Commit(_) => spec_tbo_queued(
            old_c.tbo.commits@,
            new_c.tbo.commits@,
            old_c.tbo.curr_seq,
            h,
            m,
        ) && new_c.tbo.pre_prepares@ == old_c.tbo.pre_prepares@
            && new_c.tbo.prepares@ == old_c.tbo.prepares@,
    }
}

/// Whether the three buffers of `new_c` hold the same messages as those
/// of `old_c`.
pub open spec fn spec_buffers_unchanged(old_c: Consensus, new_c: Consensus) -> bool {
    &&& new_c.tbo.pre_prepares@ == old_c.tbo.pre_prepares@
    &&& new_c.tbo.prepares@ == old_c.tbo.prepares@
    &&& new_c.tbo.commits@ == old_c.tbo.commits@
}

impl Consensus {
    /// The well-formedness of the consensus state: the recorded batch
    /// is exactly the digests of the accepted `PRE-PREPARE`, the vote
    /// counters are bounded, and the buffers are within their bound.
    pub open spec fn wf(&self) -> bool {
        &&& self.batch_size == self.current@.len()
        &&& spec_phase_bounded(self.phase)
        &&& self.tbo.wf()
    }

    /// Starts a new consensus protocol tracker at the instance
    /// `initial_seq_no`, for batches of at most `batch_size` requests.
    pub fn new(initial_seq_no: SeqNo, batch_size: usize) -> (r: Self)
        ensures
            r.wf(),
            r.phase is Init,
            r.batch_size == 0,
            r.current@.len() == 0,
            r.missing_requests@.len() == 0,
            r.tbo.curr_seq == initial_seq_no,
            !r.tbo.get_queue,
            r.tbo.pre_prepares@.len() == 0,
            r.tbo.prepares@.len() == 0,
            r.tbo.commits@.len() == 0,
    {
        Self {
            batch_size: 0,
            current_digest: Digest::zeroed(),
            phase: ProtoPhase::Init,
            tbo: TboQueue::new(initial_seq_no),
            current: Vec::with_capacity(batch_size),
            missing_requests: VecDeque::new(),
        }
    }

    /// Returns the current protocol phase.
    pub fn phase(&self) -> (r: ProtoPhase)
        ensures
            r == self.phase,
    {
        self.phase
    }

    /// Reports the id of the consensus instance under decision.
    pub fn sequence_number(&self) -> (r: SeqNo)
        ensures
            r == self.tbo.curr_seq,
    {
        self.tbo.curr_seq
    }

    /// Signal this queue that it may be able to extract new consensus
    /// messages from its internal storage.
    pub fn signal(&mut self)
        ensures
            *final(self) == (Consensus {
                tbo: TboQueue { get_queue: true, ..old(self).tbo },
                ..*old(self)
            }),
    {
        self.tbo.signal();
    }

    /// Queues a consensus message for later processing, or drops it
    /// immediately if it pertains to an older consensus instance, or to
    /// one too far ahead.
    pub fn queue(&mut self, h: Header, m: ConsensusMessage)
        requires
            old(self).wf(),
        ensures
            final(self).wf(),
            spec_only_queued(*old(self), *final(self), h, m),
    {
        self.tbo.queue(h, m);
    }

    /// Starts a new consensus instance.
    pub fn next_instance(&mut self)
        requires
            old(self).wf(),
        ensures
            final(self).wf(),
            final(self).tbo.curr_seq == old(self).tbo.curr_seq.spec_next(),
            final(self).tbo.get_queue == old(self).tbo.get_queue,
            spec_slots_advanced(old(self).tbo.pre_prepares@, final(self).tbo.pre_prepares@),
            spec_slots_advanced(old(self).tbo.prepares@, final(self).tbo.prepares@),
            spec_slots_advanced(old(self).tbo.commits@, final(self).tbo.commits@),
            final(self).phase == old(self).phase,
            final(self).batch_size == old(self).batch_size,
            final(self).current == old(self).current,
            final(self).current_digest == old(self).current_digest,
            final(self).missing_requests == old(self).missing_requests,
    {
        self.tbo.next_instance_queue();
    }

    /// Proposes a new batch of requests with digests `digests`.
    ///
    /// This function will only produce a `PRE-PREPARE` message to
    /// broadcast if the node is the leader of the current `view` and
    /// the protocol phase is `ProtoPhase::Init`.
    pub fn propose(&mut self, digests: Vec<Digest>, view: ViewInfo, node_id: NodeId) -> (r: Option<
        ConsensusMessage,
    >)
        requires
            old(self).wf(),
            view.params.wf(),
        ensures
            final(self).wf(),
            old(self).phase is Init ==> final(self).phase is PrePreparing && *final(self)
                == (Consensus { phase: ProtoPhase::PrePreparing, ..*old(self) }),
            !(old(self).phase is Init) ==> *final(self) == *old(self),
            r == if old(self).phase is Init && node_id
                == NodeId(crate::view::spec_leader(view.seq, view.params.n as int) as u32) {
                Some(
                    ConsensusMessage {
                        seq: old(self).tbo.curr_seq,
                        view: view.seq,
                        kind: ConsensusMessageKind::PrePrepare(digests),
                    },
                )
            } else {
                Option::<ConsensusMessage>::None
            },
    {
        match self.phase {
            ProtoPhase::Init => {
                self.phase = ProtoPhase::PrePreparing;
            },
            _ => {
                return None;
            },
        }
        if node_id != view.leader() {
            return None;
        }
        Some(
            ConsensusMessage::new(
                self.sequence_number(),
                view.sequence_number(),
                ConsensusMessageKind::PrePrepare(digests),
            ),
        )
    }

    /// Update the consensus protocol phase, according to the state
    /// received from peer nodes in the CST protocol: skip instances
    /// until the one the recovered decision log last pre-prepared, and
    /// reset to the initial phase.
    pub fn install_new_phase<S, O>(&mut self, recovery_state: &RecoveryState<S, O>)
        requires
            old(self).wf(),
        ensures
            final(self).wf(),
            final(self).phase is Init,
            final(self).batch_size == old(self).batch_size,
            final(self).current == old(self).current,
            final(self).current_digest == old(self).current_digest,
            final(self).missing_requests == old(self).missing_requests,
            ({
                let target = if recovery_state.declog.pre_prepares@.len() == 0 {
                    old(self).tbo.curr_seq
                } else {
                    recovery_state.declog.pre_prepares@.last().message.seq
                };
                &&& final(self).tbo.curr_seq == spec_catch_up(old(self).tbo.curr_seq, target)
                &&& spec_index_of(final(self).tbo.curr_seq.0 as int, target.0 as int)
                    != Either::<InvalidSeqNo, int>::Left(InvalidSeqNo::Small)
            }),
    {
        // get the latest seq no
        let pre_prepares = recovery_state.decision_log().pre_prepares();
        let seq_no = if pre_prepares.len() == 0 {
            self.sequence_number()
        } else {
            pre_prepares[pre_prepares.len() - 1].message.sequence_number()
        };
        // skip old messages
        while self.sequence_number() < seq_no
            invariant
                self.wf(),
                self.phase == old(self).phase,
                self.batch_size == old(self).batch_size,
                self.current == old(self).current,
                self.current_digest == old(self).current_digest,
                self.missing_requests == old(self).missing_requests,
                spec_catch_up(self.tbo.curr_seq, seq_no) == spec_catch_up(
                    old(self).tbo.curr_seq,
                    seq_no,
                ),
            decreases (seq_no.0 as int - self.tbo.curr_seq.0 as int) % 0x8000_0000,
        {
            let ghost prev = self.tbo.curr_seq;
            self.next_instance();
            proof {
                lemma_catch_up_step(prev, seq_no);
                assert(spec_catch_up(prev, seq_no) == spec_catch_up(self.tbo.curr_seq, seq_no));
            }
        }
        self.phase = ProtoPhase::Init;
        proof {
            assert(spec_catch_up(self.tbo.curr_seq, seq_no) == self.tbo.curr_seq);
        }
    }

    /// Sets the id of the current consensus instance, used by the state
    /// transfer protocol to jump forward: buffered messages of the
    /// skipped instances are dropped, and the phase resets.
    pub fn install_sequence_number(&mut self, seq: SeqNo)
        requires
            old(self).wf(),
        ensures
            final(self).wf(),
            final(self).batch_size == old(self).batch_size,
            final(self).current == old(self).current,
            final(self).current_digest == old(self).current_digest,
            final(self).missing_requests == old(self).missing_requests,
            final(self).tbo.get_queue == old(self).tbo.get_queue,
            match spec_index_of(seq.0 as int, old(self).tbo.curr_seq.0 as int) {
                Either::Right(limit) => if limit == 0 {
                    *final(self) == *old(self)
                } else {
                    &&& final(self).tbo.curr_seq == seq
                    &&& final(self).phase is Init
                    &&& if limit >= old(self).tbo.pre_prepares@.len() {
                        final(self).tbo.pre_prepares@.len() == 0
                            && final(self).tbo.prepares@.len() == 0
                            && final(self).tbo.commits@.len() == 0
                    } else {
                        final(self).tbo.pre_prepares@ == old(self).tbo.pre_prepares@.skip(limit)
                            && final(self).tbo.prepares@ == old(self).tbo.prepares@.skip(
                            vstd::math::min(limit, old(self).tbo.prepares@.len() as int),
                        )
                            && final(self).tbo.commits@ == old(self).tbo.commits@.skip(
                            vstd::math::min(limit, old(self).tbo.commits@.len() as int),
                        )
                    }
                },
                Either::Left(_) => {
                    &&& final(self).tbo.curr_seq == seq
                    &&& final(self).phase is Init
                    &&& final(self).tbo.pre_prepares@.len() == 0
                    &&& final(self).tbo.prepares@.len() == 0
                    &&& final(self).tbo.commits@.len() == 0
                },
            },
    {
        // drop old messages
        match seq.index(self.sequence_number()) {
            // nothing to do if we are on the same seq
            Either::Right(0) => {
                return;
            },
            // drop messages up to `limit`
            Either::Right(limit) => {
                if limit >= self.tbo.pre_prepares.len() {
                    // avoid draining the deque structures when the
                    // difference between the seq numbers is huge
                    self.tbo.pre_prepares.clear();
                    self.tbo.prepares.clear();
                    self.tbo.commits.clear();
                } else {
                    slots_drop(&mut self.tbo.pre_prepares, limit);
                    slots_drop(&mut self.tbo.prepares, limit);
                    slots_drop(&mut self.tbo.commits, limit);
                }
            },
            // drop all messages
            Either::Left(_) => {
                self.tbo.pre_prepares.clear();
                self.tbo.prepares.clear();
                self.tbo.commits.clear();
            },
        }
        // install new phase
        self.tbo.curr_seq = seq;
        self.phase = ProtoPhase::Init;
    }
}

/// The digests among `ds`, in order, whose requests the log is still
/// missing.
pub open spec fn spec_missing_digests<O>(
    dec: Seq<(Digest, crate::log::StoredRequest<O>)>,
    req: Seq<(Digest, crate::log::StoredRequest<O>)>,
    ds: Seq<Digest>,
) -> Seq<Digest>
    decreases ds.len(),
{
    if ds.len() == 0 {
        Seq::empty()
    } else {
        spec_missing_digests(dec, req, ds.drop_last()) + (if crate::log::spec_has_request(
            dec,
            req,
            ds.last()@,
        ) {
            Seq::<Digest>::empty()
        } else {
            seq![ds.last()]
        })
    }
}

/// The first sequence number along the chain of successors of `curr`
/// that no longer compares below `target`: the instance the catch-up of
/// `install_new_phase` stops at.
pub open spec fn spec_catch_up(curr: SeqNo, target: SeqNo) -> SeqNo
    decreases (target.0 as int - curr.0 as int) % 0x8000_0000,
    via spec_catch_up_decreases
{
    if spec_index_of(curr.0 as int, target.0 as int)
        == Either::<InvalidSeqNo, int>::Left(InvalidSeqNo::Small) {
        spec_catch_up(curr.spec_next(), target)
    } else {
        curr
    }
}

#[via_fn]
proof fn spec_catch_up_decreases(curr: SeqNo, target: SeqNo) {
    if spec_index_of(curr.0 as int, target.0 as int)
        == Either::<InvalidSeqNo, int>::Left(InvalidSeqNo::Small) {
        lemma_catch_up_step(curr, target);
    }
}

/// One catch-up step towards `target`: while `curr` compares below
/// `target`, the cyclic distance to `target` is positive and shrinks by
/// one when `curr` steps to its successor.
proof fn lemma_catch_up_step(curr: SeqNo, target: SeqNo)
    requires
        spec_index_of(curr.0 as int, target.0 as int)
            == Either::<InvalidSeqNo, int>::Left(InvalidSeqNo::Small),
    ensures
        (target.0 as int - curr.0 as int) % 0x8000_0000 > 0,
        (target.0 as int - curr.spec_next().0 as int) % 0x8000_0000
            < (target.0 as int - curr.0 as int) % 0x8000_0000,
{
    let c = curr.0 as int;
    let t = target.0 as int;
    let m = 0x8000_0000int;
    let d = crate::ordering::spec_wrap_i32(c - t);
    let corrected: int = if d > 10000 {
        d - m
    } else if d < -10000 {
        d + m
    } else {
        d
    };
    // the wrap and the correction only shift by multiples of `m`, so
    // `corrected` is congruent to `c - t`, and it is confined to one
    // negative period
    assert(-m < corrected < 0);
    let ka: int = if c - t < -m {
        2
    } else if c - t > m - 1 {
        -2
    } else {
        0
    };
    let kb: int = if d > 10000 {
        -1
    } else if d < -10000 {
        1
    } else {
        0
    };
    assert(corrected == c - t + (ka + kb) * m);
    // hence the forward distance is exactly `-corrected`
    assert((t - c) % m == (m * (ka + kb) + (- corrected)) % m);
    vstd::arithmetic::div_mod::lemma_mod_multiples_vanish(ka + kb, -corrected, m);
    vstd::arithmetic::div_mod::lemma_small_mod((-corrected) as nat, m as nat);
    assert((t - c) % m == -corrected);
    // one step forward shrinks the distance by one
    let c1 = curr.spec_next().0 as int;
    let kc: int = if curr.0 == i32::MAX {
        1
    } else {
        0
    };
    assert(c1 == c + 1 - kc * m);
    assert((t - c1) % m == (m * (ka + kb + kc) + (- corrected - 1)) % m);
    vstd::arithmetic::div_mod::lemma_mod_multiples_vanish(ka + kb + kc, -corrected - 1, m);
    vstd::arithmetic::div_mod::lemma_small_mod((-corrected - 1) as nat, m as nat);
    assert((t - c1) % m == -corrected - 1);
}

/// Copies a vector of digests, element for element.
fn copy_digests(v: &Vec<Digest>) -> (res: Vec<Digest>)
    ensures
        res@ == v@,
{
    let mut res: Vec<Digest> = Vec::new();
    let mut i: usize = 0;
    while i < v.len()
        invariant
            0 <= i <= v@.len(),
            res@ =~= v@.subrange(0, i as int),
        decreases v@.len() - i,
    {
        res.push(v[i]);
        i = i + 1;
    }
    proof {
        assert(res@ =~= v@);
    }
    res
}

impl Consensus {
    /// Check if we can process new consensus messages: yields a
    /// buffered message of the current phase and instance when the
    /// queue was signalled, asks the caller to propose when idle, and
    /// otherwise asks it to keep receiving.
    pub fn poll<S, O, P>(&mut self, log: &Log<S, O, P>) -> (r: ConsensusPollStatus)
        requires
            old(self).wf(),
            log.wf(),
        ensures
            final(self).wf(),
            final(self).tbo.curr_seq == old(self).tbo.curr_seq,
            final(self).batch_size == old(self).batch_size,
            final(self).current == old(self).current,
            final(self).current_digest == old(self).current_digest,
            match old(self).phase {
                ProtoPhase::Init => if old(self).tbo.get_queue {
                    &&& final(self).missing_requests == old(self).missing_requests
                    &&& spec_slots_view_eq(old(self).tbo.prepares@, final(self).tbo.prepares@)
                    &&& final(self).tbo.commits@ == old(self).tbo.commits@
                    &&& match r {
                        ConsensusPollStatus::NextMessage(h, m) => spec_slot_popped(
                            old(self).tbo.pre_prepares@,
                            final(self).tbo.pre_prepares@,
                            (h, m),
                        ) && final(self).phase is PrePreparing && final(self).tbo.get_queue,
                        ConsensusPollStatus::Recv => spec_slot_empty(old(self).tbo.pre_prepares@)
                            && spec_slots_view_eq(
                            old(self).tbo.pre_prepares@,
                            final(self).tbo.pre_prepares@,
                        ) && final(self).phase is Init && !final(self).tbo.get_queue,
                        _ => false,
                    }
                } else {
                    r is TryProposeAndRecv && *final(self) == *old(self)
                },
                ProtoPhase::PrePreparing => if old(self).tbo.get_queue {
                    &&& final(self).missing_requests == old(self).missing_requests
                    &&& final(self).phase is PrePreparing
                    &&& spec_slots_view_eq(old(self).tbo.prepares@, final(self).tbo.prepares@)
                    &&& final(self).tbo.commits@ == old(self).tbo.commits@
                    &&& match r {
                        ConsensusPollStatus::NextMessage(h, m) => spec_slot_popped(
                            old(self).tbo.pre_prepares@,
                            final(self).tbo.pre_prepares@,
                            (h, m),
                        ) && final(self).tbo.get_queue,
                        ConsensusPollStatus::Recv => spec_slot_empty(old(self).tbo.pre_prepares@)
                            && spec_slots_view_eq(
                            old(self).tbo.pre_prepares@,
                            final(self).tbo.pre_prepares@,
                        ) && !final(self).tbo.get_queue,
                        _ => false,
                    }
                } else {
                    r is Recv && *final(self) == *old(self)
                },
                ProtoPhase::PreparingRequests => {
                    &&& final(self).missing_requests@ == spec_missing_digests(
                        log.deciding.entries@,
                        log.requests.entries@,
                        old(self).missing_requests@,
                    )
                    &&& final(self).tbo.pre_prepares@ == old(self).tbo.pre_prepares@
                    &&& final(self).tbo.commits@ == old(self).tbo.commits@
                    &&& if final(self).missing_requests@.len() == 0 {
                        match r {
                            ConsensusPollStatus::NextMessage(h, m) => spec_slot_popped(
                                old(self).tbo.prepares@,
                                final(self).tbo.prepares@,
                                (h, m),
                            ) && final(self).phase == ProtoPhase::Preparing(0)
                                && final(self).tbo.get_queue == old(self).tbo.get_queue,
                            ConsensusPollStatus::Recv => spec_slot_empty(old(self).tbo.prepares@)
                                && spec_slots_view_eq(
                                old(self).tbo.prepares@,
                                final(self).tbo.prepares@,
                            ) && final(self).phase is PreparingRequests
                                && !final(self).tbo.get_queue,
                            _ => false,
                        }
                    } else {
                        r is Recv && final(self).phase is PreparingRequests
                            && spec_slots_view_eq(
                            old(self).tbo.prepares@,
                            final(self).tbo.prepares@,
                        ) && final(self).tbo.get_queue == old(self).tbo.get_queue
                    }
                },
                ProtoPhase::Preparing(_) => if old(self).tbo.get_queue {
                    &&& final(self).missing_requests == old(self).missing_requests
                    &&& final(self).phase == old(self).phase
                    &&& final(self).tbo.pre_prepares@ == old(self).tbo.pre_prepares@
                    &&& final(self).tbo.commits@ == old(self).tbo.commits@
                    &&& match r {
                        ConsensusPollStatus::NextMessage(h, m) => spec_slot_popped(
                            old(self).tbo.prepares@,
                            final(self).tbo.prepares@,
                            (h, m),
                        ) && final(self).tbo.get_queue,
                        ConsensusPollStatus::Recv => spec_slot_empty(old(self).tbo.prepares@)
                            && spec_slots_view_eq(
                            old(self).tbo.prepares@,
                            final(self).tbo.prepares@,
                        ) && !final(self).tbo.get_queue,
                        _ => false,
                    }
                } else {
                    r is Recv && *final(self) == *old(self)
                },
                ProtoPhase::Committing(_) => if old(self).tbo.get_queue {
                    &&& final(self).missing_requests == old(self).missing_requests
                    &&& final(self).phase == old(self).phase
                    &&& final(self).tbo.pre_prepares@ == old(self).tbo.pre_prepares@
                    &&& final(self).tbo.prepares@ == old(self).tbo.prepares@
                    &&& match r {
                        ConsensusPollStatus::NextMessage(h, m) => spec_slot_popped(
                            old(self).tbo.commits@,
                            final(self).tbo.commits@,
                            (h, m),
                        ) && final(self).tbo.get_queue,
                        ConsensusPollStatus::Recv => spec_slot_empty(old(self).tbo.commits@)
                            && spec_slots_view_eq(
                            old(self).tbo.commits@,
                            final(self).tbo.commits@,
                        ) && !final(self).tbo.get_queue,
                        _ => false,
                    }
                } else {
                    r is Recv && *final(self) == *old(self)
                },
            },
    {
        match self.phase {
            ProtoPhase::Init => {
                if self.tbo.get_queue {
                    match slot_pop(&mut self.tbo.pre_prepares) {
                        Some((header, message)) => {
                            self.phase = ProtoPhase::PrePreparing;
                            ConsensusPollStatus::NextMessage(header, message)
                        },
                        None => {
                            self.tbo.get_queue = false;
                            ConsensusPollStatus::Recv
                        },
                    }
                } else {
                    ConsensusPollStatus::TryProposeAndRecv
                }
            },
            ProtoPhase::PrePreparing => {
                if self.tbo.get_queue {
                    match slot_pop(&mut self.tbo.pre_prepares) {
                        Some((header, message)) => ConsensusPollStatus::NextMessage(
                            header,
                            message,
                        ),
                        None => {
                            self.tbo.get_queue = false;
                            ConsensusPollStatus::Recv
                        },
                    }
                } else {
                    ConsensusPollStatus::Recv
                }
            },
            ProtoPhase::PreparingRequests => {
                // drop the digests whose requests the log now has
                let ghost pre = *self;
                let ghost old_missing = self.missing_requests@;
                let mut i: usize = 0;
                let ghost mut k = 0int;
                while i < self.missing_requests.len()
                    invariant
                        log.wf(),
                        0 <= k <= old_missing.len(),
                        i <= self.missing_requests@.len(),
                        self.tbo == pre.tbo,
                        self.current == pre.current,
                        self.batch_size == pre.batch_size,
                        self.current_digest == pre.current_digest,
                        self.phase == pre.phase,
                        self.missing_requests@ =~= spec_missing_digests(
                            log.deciding.entries@,
                            log.requests.entries@,
                            old_missing.subrange(0, k),
                        ) + old_missing.skip(k),
                        i as int == spec_missing_digests(
                            log.deciding.entries@,
                            log.requests.entries@,
                            old_missing.subrange(0, k),
                        ).len(),
                    decreases old_missing.len() - k,
                {
                    proof {
                        assert(old_missing.subrange(0, k + 1).drop_last() =~= old_missing.subrange(
                            0,
                            k,
                        ));
                        assert(old_missing.subrange(0, k + 1).last() == old_missing[k]);
                    }
                    let digest = match self.missing_requests.remove(i) {
                        Some(digest) => digest,
                        None => vstd::pervasive::unreached(),
                    };
                    if log.has_request(&digest) {
                        proof {
                            assert(self.missing_requests@ =~= spec_missing_digests(
                                log.deciding.entries@,
                                log.requests.entries@,
                                old_missing.subrange(0, k + 1),
                            ) + old_missing.skip(k + 1));
                        }
                    } else {
                        self.missing_requests.insert(i, digest);
                        proof {
                            assert(self.missing_requests@ =~= spec_missing_digests(
                                log.deciding.entries@,
                                log.requests.entries@,
                                old_missing.subrange(0, k + 1),
                            ) + old_missing.skip(k + 1));
                        }
                        i = i + 1;
                    }
                    proof {
                        k = k + 1;
                    }
                }
                proof {
                    assert(old_missing.subrange(0, old_missing.len() as int) =~= old_missing);
                    assert(self.missing_requests@ =~= spec_missing_digests(
                        log.deciding.entries@,
                        log.requests.entries@,
                        old_missing,
                    ));
                }
                if self.missing_requests.len() == 0 {
                    match slot_pop(&mut self.tbo.prepares) {
                        Some((header, message)) => {
                            self.phase = ProtoPhase::Preparing(0);
                            ConsensusPollStatus::NextMessage(header, message)
                        },
                        None => {
                            self.tbo.get_queue = false;
                            ConsensusPollStatus::Recv
                        },
                    }
                } else {
                    ConsensusPollStatus::Recv
                }
            },
            ProtoPhase::Preparing(_) => {
                if self.tbo.get_queue {
                    match slot_pop(&mut self.tbo.prepares) {
                        Some((header, message)) => ConsensusPollStatus::NextMessage(
                            header,
                            message,
                        ),
                        None => {
                            self.tbo.get_queue = false;
                            ConsensusPollStatus::Recv
                        },
                    }
                } else {
                    ConsensusPollStatus::Recv
                }
            },
            ProtoPhase::Committing(_) => {
                if self.tbo.get_queue {
                    match slot_pop(&mut self.tbo.commits) {
                        Some((header, message)) => ConsensusPollStatus::NextMessage(
                            header,
                            message,
                        ),
                        None => {
                            self.tbo.get_queue = false;
                            ConsensusPollStatus::Recv
                        },
                    }
                } else {
                    ConsensusPollStatus::Recv
                }
            },
        }
    }

    /// Process a message for a particular consensus instance: messages
    /// of other instances are buffered, a `PRE-PREPARE` of the current
    /// instance is accepted and answered with a `PREPARE` vote (except
    /// on the leader), and matching `PREPARE` and `COMMIT` votes are
    /// counted until the quorum decides.
    ///
    /// The second component of the result is a message the caller must
    /// broadcast to the replicas of the view.
    pub fn process_message<S, O, P>(
        &mut self,
        header: Header,
        message: ConsensusMessage,
        view: ViewInfo,
        log: &mut Log<S, O, P>,
        node_id: NodeId,
    ) -> (r: (ConsensusStatus, Option<ConsensusMessage>))
        requires
            old(self).wf(),
            old(log).wf(),
            view.params.wf(),
        ensures
            final(self).wf(),
            final(log).wf(),
            match old(self).phase {
                ProtoPhase::Init => r.0 is Deciding && r.1 is None && spec_only_queued(
                    *old(self),
                    *final(self),
                    header,
                    message,
                ) && *final(log) == *old(log),
                ProtoPhase::PrePreparing => if message.kind is PrePrepare && message.seq
                    == old(self).tbo.curr_seq {
                    let digests = message.kind->PrePrepare_0;
                    &&& r.0 is Deciding
                    &&& final(self).batch_size == digests@.len()
                    &&& final(self).current@ == digests@
                    &&& final(self).current_digest == header.digest
                    &&& spec_buffers_unchanged(*old(self), *final(self))
                    &&& final(self).tbo.curr_seq == old(self).tbo.curr_seq
                    &&& final(self).tbo.get_queue == old(self).tbo.get_queue
                    &&& crate::log::spec_consensus_logged(*old(log), *final(log), header, message)
                    &&& final(self).missing_requests@ == old(self).missing_requests@
                        + spec_missing_digests(
                        old(log).deciding.entries@,
                        old(log).requests.entries@,
                        digests@,
                    )
                    &&& final(self).phase == (if final(self).missing_requests@.len() == 0 {
                        ProtoPhase::Preparing(0)
                    } else {
                        ProtoPhase::PreparingRequests
                    })
                    &&& r.1 == (if node_id == NodeId(
                        crate::view::spec_leader(view.seq, view.params.n as int) as u32,
                    ) {
                        Option::<ConsensusMessage>::None
                    } else {
                        Some(
                            ConsensusMessage {
                                seq: old(self).tbo.curr_seq,
                                view: view.seq,
                                kind: ConsensusMessageKind::Prepare(header.digest),
                            },
                        )
                    })
                } else {
                    r.0 is Deciding && r.1 is None && spec_only_queued(
                        *old(self),
                        *final(self),
                        header,
                        message,
                    ) && *final(log) == *old(log)
                },
                ProtoPhase::PreparingRequests => r.0 is Deciding && r.1 is None
                    && spec_only_queued(*old(self), *final(self), header, message) && *final(log)
                    == *old(log),
                ProtoPhase::Preparing(i) => if message.kind is Prepare && message.seq
                    == old(self).tbo.curr_seq {
                    let i2 = spec_incr(i as int);
                    &&& r.0 is Deciding
                    &&& crate::log::spec_consensus_logged(*old(log), *final(log), header, message)
                    &&& spec_buffers_unchanged(*old(self), *final(self))
                    &&& final(self).tbo.curr_seq == old(self).tbo.curr_seq
                    &&& final(self).tbo.get_queue == old(self).tbo.get_queue
                    &&& final(self).batch_size == old(self).batch_size
                    &&& final(self).current == old(self).current
                    &&& final(self).current_digest == old(self).current_digest
                    &&& final(self).missing_requests == old(self).missing_requests
                    &&& if i2 == spec_quorum(view) {
                        final(self).phase == ProtoPhase::Committing(0) && r.1 == Some(
                            ConsensusMessage {
                                seq: old(self).tbo.curr_seq,
                                view: view.seq,
                                kind: ConsensusMessageKind::Commit(old(self).current_digest),
                            },
                        )
                    } else {
                        final(self).phase == ProtoPhase::Preparing(i2 as usize) && r.1 is None
                    }
                } else {
                    r.0 is Deciding && r.1 is None && spec_only_queued(
                        *old(self),
                        *final(self),
                        header,
                        message,
                    ) && *final(log) == *old(log)
                },
                ProtoPhase::Committing(i) => if message.kind is Commit && message.seq
                    == old(self).tbo.curr_seq {
                    let i2 = spec_incr(i as int);
                    &&& r.1 is None
                    &&& crate::log::spec_consensus_logged(*old(log), *final(log), header, message)
                    &&& spec_buffers_unchanged(*old(self), *final(self))
                    &&& final(self).tbo.curr_seq == old(self).tbo.curr_seq
                    &&& final(self).tbo.get_queue == old(self).tbo.get_queue
                    &&& final(self).batch_size == old(self).batch_size
                    &&& final(self).current == old(self).current
                    &&& final(self).current_digest == old(self).current_digest
                    &&& final(self).missing_requests == old(self).missing_requests
                    &&& if i2 == spec_quorum(view) {
                        final(self).phase is Init && (r.0 matches ConsensusStatus::Decided(d)
                            && d@ == old(self).current@)
                    } else {
                        final(self).phase == ProtoPhase::Committing(i2 as usize)
                            && r.0 is Deciding
                    }
                } else {
                    r.0 is Deciding && r.1 is None && spec_only_queued(
                        *old(self),
                        *final(self),
                        header,
                        message,
                    ) && *final(log) == *old(log)
                },
            },
    {
        match self.phase {
            ProtoPhase::Init => {
                // in the init phase, we can't do anything; queue the
                // message for later
                self.tbo.queue(header, message);
                (ConsensusStatus::Deciding, None)
            },
            ProtoPhase::PrePreparing => {
                let matching = matches!(&message.kind, ConsensusMessageKind::PrePrepare(_))
                    && message.sequence_number() == self.sequence_number();
                if !matching {
                    self.tbo.queue(header, message);
                    return (ConsensusStatus::Deciding, None);
                }
                let digests = match &message.kind {
                    ConsensusMessageKind::PrePrepare(digests) => copy_digests(digests),
                    _ => vstd::pervasive::unreached(),
                };
                self.batch_size = digests.len();
                self.current = digests;
                self.current_digest = header.digest;
                // the leader can't vote for a prepare
                let reply = if node_id != view.leader() {
                    Some(
                        ConsensusMessage::new(
                            self.sequence_number(),
                            view.sequence_number(),
                            ConsensusMessageKind::Prepare(header.digest),
                        ),
                    )
                } else {
                    None
                };
                // add the message to the log
                log.insert(header, SystemMessage::<S, O, P>::Consensus(message));
                // gather the requests the log is missing
                let ghost pre = *self;
                let ghost old_missing = self.missing_requests@;
                let mut i: usize = 0;
                while i < self.current.len()
                    invariant
                        0 <= i <= self.current@.len(),
                        log.wf(),
                        log.deciding == old(log).deciding,
                        log.requests == old(log).requests,
                        self.tbo == pre.tbo,
                        self.current == pre.current,
                        self.batch_size == pre.batch_size,
                        self.current_digest == pre.current_digest,
                        self.phase == pre.phase,
                        self.missing_requests@ == old_missing + spec_missing_digests(
                            old(log).deciding.entries@,
                            old(log).requests.entries@,
                            self.current@.subrange(0, i as int),
                        ),
                    decreases self.current@.len() - i,
                {
                    proof {
                        assert(self.current@.subrange(0, i as int + 1).drop_last()
                            =~= self.current@.subrange(0, i as int));
                        assert(self.current@.subrange(0, i as int + 1).last()
                            == self.current@[i as int]);
                    }
                    let digest = self.current[i];
                    if !log.has_request(&digest) {
                        self.missing_requests.push_back(digest);
                    }
                    i = i + 1;
                }
                proof {
                    assert(self.current@.subrange(0, self.current@.len() as int)
                        =~= self.current@);
                }
                // try entering the preparing phase
                self.phase = if self.missing_requests.len() == 0 {
                    ProtoPhase::Preparing(0)
                } else {
                    ProtoPhase::PreparingRequests
                };
                (ConsensusStatus::Deciding, reply)
            },
            ProtoPhase::PreparingRequests => {
                // can't do anything while waiting for client requests;
                // queue the message for later
                self.tbo.queue(header, message);
                (ConsensusStatus::Deciding, None)
            },
            ProtoPhase::Preparing(i) => {
                let matching = matches!(&message.kind, ConsensusMessageKind::Prepare(_))
                    && message.sequence_number() == self.sequence_number();
                if !matching {
                    self.tbo.queue(header, message);
                    return (ConsensusStatus::Deciding, None);
                }
                let i = if i >= VOTE_CEIL {
                    i
                } else {
                    i + 1
                };
                // add the message to the log
                log.insert(header, SystemMessage::<S, O, P>::Consensus(message));
                // check if we have gathered enough votes, and
                // transition to a new phase
                let reply = if i == view.params().quorum() {
                    let commit = ConsensusMessage::new(
                        self.sequence_number(),
                        view.sequence_number(),
                        ConsensusMessageKind::Commit(self.current_digest),
                    );
                    self.phase = ProtoPhase::Committing(0);
                    Some(commit)
                } else {
                    self.phase = ProtoPhase::Preparing(i);
                    None
                };
                (ConsensusStatus::Deciding, reply)
            },
            ProtoPhase::Committing(i) => {
                let matching = matches!(&message.kind, ConsensusMessageKind::Commit(_))
                    && message.sequence_number() == self.sequence_number();
                if !matching {
                    self.tbo.queue(header, message);
                    return (ConsensusStatus::Deciding, None);
                }
                let i = if i >= VOTE_CEIL {
                    i
                } else {
                    i + 1
                };
                // add the message to the log
                log.insert(header, SystemMessage::<S, O, P>::Consensus(message));
                // check if we have gathered enough votes, and
                // transition to a new phase
                if i == view.params().quorum() {
                    // we have reached a decision; notify the core
                    // protocol
                    self.phase = ProtoPhase::Init;
                    (ConsensusStatus::Decided(copy_digests(&self.current)), None)
                } else {
                    self.phase = ProtoPhase::Committing(i);
                    (ConsensusStatus::Deciding, None)
                }
            },
        }
    }
}

/// Drops the first `limit` slots, or every slot when fewer exist.
fn slots_drop(tbo: &mut TboSlots, limit: usize)
    ensures
        final(tbo)@ == old(tbo)@.skip(vstd::math::min(limit as int, old(tbo)@.len() as int)),
{
    let mut k: usize = 0;
    while k < limit && tbo.len() > 0
        invariant
            k <= limit,
            k <= vstd::math::min(limit as int, old(tbo)@.len() as int),
            tbo@ == old(tbo)@.skip(k as int),
        decreases limit - k,
    {
        let popped = tbo.pop_front();
        proof {
            assert(tbo@ =~= old(tbo)@.skip(k as int + 1));
        }
        k = k + 1;
    }
    proof {
        if tbo@.len() == 0 {
            assert(tbo@ =~= old(tbo)@.skip(
                vstd::math::min(limit as int, old(tbo)@.len() as int),
            ));
        }
    }
}

} // verus!
