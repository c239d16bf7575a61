//! Scenario tests of the consensus engine: a full three-phase round over
//! four replicas, out-of-order buffering, and the drop policy of the
//! ordered queue.

use bafomet::communication::NodeId;
use bafomet::consensus::{Consensus, ConsensusPollStatus, ConsensusStatus, ProtoPhase};
use bafomet::crypto::Digest;
use bafomet::log::Log;
use bafomet::message::{
    ConsensusMessage, ConsensusMessageKind, Header, RequestMessage, SystemMessage, WireMessage,
};
use bafomet::ordering::SeqNo;
use bafomet::view::{SystemParams, ViewInfo};

type TestLog = Log<u64, u64, u64>;

fn view_n4() -> ViewInfo {
    let params = SystemParams::new(4, 1).expect("invalid params");
    ViewInfo::new(SeqNo::from(0u32), params)
}

fn header_from(from: u32, nonce: u64, payload: &[u8]) -> Header {
    let digest = {
        let d = ring::digest::digest(&ring::digest::SHA256, payload);
        Digest::from_bytes(d.as_ref()).expect("digest length")
    };
    let (header, _) = WireMessage::new(
        NodeId::from(from),
        NodeId::from(0u32),
        payload,
        nonce,
        Some(digest),
        None,
    )
    .into_inner();
    header
}

/// Inserts a client request into every log and returns its unique
/// digest, the one batches name it by.
fn insert_request(logs: &mut Vec<TestLog>, op: u64, nonce: u64) -> Digest {
    let header = header_from(1000, nonce, &op.to_le_bytes());
    let digest = header.unique_digest();
    for log in logs.iter_mut() {
        log.insert(header, SystemMessage::Request(RequestMessage::new(op)));
    }
    digest
}

#[test]
fn test_full_consensus_round() {
    // n = 4, f = 1, quorum = 3; replica 0 leads view 0
    let view = view_n4();
    let mut consensus: Vec<Consensus> = (0..4).map(|_| Consensus::new(SeqNo::from(0u32), 1)).collect();
    let mut logs: Vec<TestLog> = (0..4).map(|_| TestLog::new(1)).collect();
    let d1 = insert_request(&mut logs, 77, 1);

    // the leader proposes a batch with the single request, entering the
    // pre-preparing phase
    let pre_prepare = consensus[0]
        .propose(vec![d1], view, NodeId::from(0u32))
        .expect("leader must propose");

    // every replica processes the PRE-PREPARE; the followers receive it
    // while idle, so it is buffered and polled out, moving them to the
    // pre-preparing phase; each one but the leader answers with a
    // PREPARE vote
    let pp_header = header_from(0, 100, b"pre-prepare");
    let mut prepares = Vec::new();
    for id in 0..4u32 {
        let replica = &mut consensus[id as usize];
        let log = &mut logs[id as usize];
        let (header, message) = if id == 0 {
            (pp_header, pre_prepare.clone())
        } else {
            let (status, reply) =
                replica.process_message(pp_header, pre_prepare.clone(), view, log, NodeId::from(id));
            assert!(matches!(status, ConsensusStatus::Deciding));
            assert!(reply.is_none());
            replica.signal();
            match replica.poll(log) {
                ConsensusPollStatus::NextMessage(h, m) => (h, m),
                _ => panic!("expected the buffered pre-prepare"),
            }
        };
        assert!(matches!(replica.phase(), ProtoPhase::PrePreparing));
        let (status, reply) = replica.process_message(header, message, view, log, NodeId::from(id));
        assert!(matches!(status, ConsensusStatus::Deciding));
        match reply {
            Some(prepare) => {
                assert!(id != 0);
                assert!(matches!(prepare.kind(), ConsensusMessageKind::Prepare(_)));
                prepares.push((header_from(id, 200 + id as u64, b"prepare"), prepare));
            },
            None => assert_eq!(id, 0),
        }
        assert!(matches!(replica.phase(), ProtoPhase::Preparing(0)));
    }
    assert_eq!(prepares.len(), 3);

    // after collecting 2f + 1 = 3 prepares, each replica broadcasts a
    // COMMIT
    let mut commits = Vec::new();
    for id in 0..4u32 {
        let mut commit = None;
        for (ph, pm) in prepares.iter() {
            let (status, reply) = consensus[id as usize].process_message(
                *ph,
                pm.clone(),
                view,
                &mut logs[id as usize],
                NodeId::from(id),
            );
            assert!(matches!(status, ConsensusStatus::Deciding));
            if let Some(c) = reply {
                assert!(commit.is_none());
                commit = Some(c);
            }
        }
        let commit = commit.expect("quorum of prepares must produce a commit");
        assert!(matches!(commit.kind(), ConsensusMessageKind::Commit(_)));
        assert!(matches!(consensus[id as usize].phase(), ProtoPhase::Committing(0)));
        commits.push((header_from(id, 300 + id as u64, b"commit"), commit));
    }

    // after 3 commits every replica decides on the same batch
    for id in 0..4u32 {
        let mut decided = None;
        for (ch, cm) in commits.iter().take(3) {
            let (status, reply) = consensus[id as usize].process_message(
                *ch,
                cm.clone(),
                view,
                &mut logs[id as usize],
                NodeId::from(id),
            );
            assert!(reply.is_none());
            match status {
                ConsensusStatus::Deciding => (),
                ConsensusStatus::Decided(digests) => {
                    assert!(decided.is_none());
                    decided = Some(digests);
                },
                ConsensusStatus::VotedTwice(_) => panic!("unexpected vote accounting"),
            }
        }
        let digests = decided.expect("quorum of commits must decide");
        assert_eq!(digests, vec![d1]);
        assert!(matches!(consensus[id as usize].phase(), ProtoPhase::Init));
    }
}

#[test]
fn test_commit_queued_in_init_and_polled_later() {
    // replica 2 receives a COMMIT for its current instance while still
    // in the Init phase: the message is buffered in the front commit
    // slot, and a later poll in the Committing phase yields it
    let view = view_n4();
    let mut consensus = Consensus::new(SeqNo(5), 1);
    let mut log = TestLog::new(1);

    let commit_header = header_from(3, 42, b"early commit");
    let pp_digest = Digest::from_bytes(&[9u8; 32][..]).expect("digest length");
    let commit = ConsensusMessage::new(
        SeqNo(5),
        view.sequence_number(),
        ConsensusMessageKind::Commit(pp_digest),
    );
    let (status, reply) = consensus.process_message(
        commit_header,
        commit,
        view,
        &mut log,
        NodeId::from(2u32),
    );
    assert!(matches!(status, ConsensusStatus::Deciding));
    assert!(reply.is_none());
    assert_eq!(consensus.tbo.commits.len(), 1);
    assert_eq!(consensus.tbo.commits[0].len(), 1);

    // drive the replica to the Committing phase
    let mut logs = vec![log];
    let d1 = insert_request(&mut logs, 5, 77);
    let mut log = logs.pop().unwrap();
    let pp_header = header_from(0, 100, b"pre-prepare");
    let pre_prepare = ConsensusMessage::new(
        SeqNo(5),
        view.sequence_number(),
        ConsensusMessageKind::PrePrepare(vec![d1]),
    );
    consensus.process_message(pp_header, pre_prepare, view, &mut log, NodeId::from(2u32));
    consensus.signal();
    let (pp_header, pre_prepare) = match consensus.poll(&log) {
        ConsensusPollStatus::NextMessage(h, m) => (h, m),
        _ => panic!("expected the buffered pre-prepare"),
    };
    consensus.process_message(pp_header, pre_prepare, view, &mut log, NodeId::from(2u32));
    for from in [0u32, 1, 3] {
        let prepare = ConsensusMessage::new(
            SeqNo(5),
            view.sequence_number(),
            ConsensusMessageKind::Prepare(*pp_header.digest()),
        );
        let ph = header_from(from, 500 + from as u64, b"prepare");
        consensus.process_message(ph, prepare, view, &mut log, NodeId::from(2u32));
    }
    assert!(matches!(consensus.phase(), ProtoPhase::Committing(0)));

    // the buffered commit comes out of the queue
    consensus.signal();
    match consensus.poll(&log) {
        ConsensusPollStatus::NextMessage(h, m) => {
            assert_eq!(h, commit_header);
            assert_eq!(m.sequence_number(), SeqNo(5));
            assert!(matches!(m.kind(), ConsensusMessageKind::Commit(_)));
        },
        _ => panic!("expected the buffered commit"),
    }
}

#[test]
fn test_tbo_drop_policy() {
    // messages of older instances, and messages too far ahead, are
    // dropped; the others land in the slot their distance names
    let mut consensus = Consensus::new(SeqNo(10), 1);
    let header = header_from(1, 7, b"m");
    let digest = Digest::from_bytes(&[3u8; 32][..]).expect("digest length");

    // an old message is dropped
    let old = ConsensusMessage::new(SeqNo(9), SeqNo(0), ConsensusMessageKind::Prepare(digest));
    consensus.queue(header, old);
    assert_eq!(consensus.tbo.prepares.len(), 0);

    // a message beyond the drop threshold is dropped
    let far = ConsensusMessage::new(SeqNo(10 + 1501), SeqNo(0), ConsensusMessageKind::Prepare(digest));
    consensus.queue(header, far);
    assert_eq!(consensus.tbo.prepares.len(), 0);

    // a message within the window lands at the slot its distance names
    let ahead = ConsensusMessage::new(SeqNo(13), SeqNo(0), ConsensusMessageKind::Prepare(digest));
    consensus.queue(header, ahead);
    assert_eq!(consensus.tbo.prepares.len(), 4);
    assert_eq!(consensus.tbo.prepares[3].len(), 1);
    assert_eq!(consensus.tbo.prepares[0].len(), 0);

    // advancing the instance rotates the slots
    consensus.next_instance();
    assert_eq!(consensus.sequence_number(), SeqNo(11));
    assert_eq!(consensus.tbo.prepares[2].len(), 1);
}

#[test]
fn test_poll_try_propose_when_idle() {
    let mut consensus = Consensus::new(SeqNo::from(0u32), 1);
    let log = TestLog::new(1);
    assert!(matches!(consensus.poll(&log), ConsensusPollStatus::TryProposeAndRecv));
    consensus.signal();
    assert!(matches!(consensus.poll(&log), ConsensusPollStatus::Recv));
}
