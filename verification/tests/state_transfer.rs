//! Tests of the collaborative state transfer protocol: discovery of the
//! latest decided sequence number, state fetching, timeouts, and the
//! installation of a recovered state.

use bafomet::communication::NodeId;
use bafomet::consensus::Consensus;
use bafomet::crypto::Digest;
use bafomet::cst::{
    install_recovery_state, CollabStateTransfer, CstProgress, CstStatus, RecoveryState,
};
use bafomet::executable::{ExecutionRequest, Executor, ExecutorHandle, Service, SharedData};
use bafomet::log::{Info, Log};
use bafomet::message::{
    ConsensusMessage, ConsensusMessageKind, CstMessage, CstMessageKind, Header, RequestMessage,
    SystemMessage, WireMessage,
};
use bafomet::ordering::SeqNo;
use bafomet::view::{SystemParams, ViewInfo};

struct CounterData;

impl SharedData for CounterData {
    type State = u64;
    type Request = u64;
    type Reply = u64;
}

struct CounterService;

impl Service for CounterService {
    type Data = CounterData;

    fn initial_state(&mut self) -> Result<u64, bafomet::error::Error> {
        Ok(0)
    }

    fn update(&mut self, state: &mut u64, request: u64) -> u64 {
        *state = state.wrapping_add(request);
        *state
    }
}

type TestCst = CollabStateTransfer<u64, u64>;
type TestLog = Log<u64, u64, u64>;

fn view_n4() -> ViewInfo {
    let params = SystemParams::new(4, 1).expect("invalid params");
    ViewInfo::new(SeqNo::from(0u32), params)
}

fn header_from(from: u32, nonce: u64, payload: &[u8]) -> Header {
    let digest = {
        let d = ring::digest::digest(&ring::digest::SHA256, payload);
        Digest::from_bytes(d.as_ref()).expect("digest length")
    };
    let (header, _) = WireMessage::new(
        NodeId::from(from),
        NodeId::from(2u32),
        payload,
        nonce,
        Some(digest),
        None,
    )
    .into_inner();
    header
}

#[test]
fn test_cst_discovers_latest_cid() {
    // four replicas reply with latest cids {42, 42, 42, 7}: after the
    // third reply the quorum is met, 42 was seen more than f = 1 times,
    // and the discovery concludes with SeqNo(42)
    let view = view_n4();
    let consensus = Consensus::new(SeqNo::from(0u32), 1);
    let log = TestLog::new(1);
    let mut cst = TestCst::new(1000);

    let request = cst.request_latest_consensus_seq_no(view);
    assert!(matches!(request.kind(), CstMessageKind::RequestLatestConsensusSeq));
    let round = request.sequence_number();

    let replies = [42u32, 42, 7, 42];
    for (peer, cid) in replies.iter().enumerate().take(3) {
        let header = header_from(peer as u32, peer as u64, b"reply");
        let reply = CstMessage::new(
            round,
            CstMessageKind::ReplyLatestConsensusSeq(SeqNo::from(*cid)),
        );
        let (status, outgoing) = cst.process_message(
            CstProgress::Message(header, reply),
            view,
            &consensus,
            &log,
        );
        assert!(outgoing.is_none());
        match status {
            CstStatus::Running => assert!(peer < 2),
            CstStatus::SeqNo(cid) => {
                assert_eq!(peer, 2);
                assert_eq!(u32::from(cid), 42);
            },
            _ => panic!("unexpected discovery status"),
        }
    }
}

#[test]
fn test_cst_discovery_without_agreement_retries() {
    // replies {1, 2, 3}: no cid was seen more than f = 1 times, so the
    // discovery asks to be retried
    let view = view_n4();
    let consensus = Consensus::new(SeqNo::from(0u32), 1);
    let log = TestLog::new(1);
    let mut cst = TestCst::new(1000);
    let round = cst.request_latest_consensus_seq_no(view).sequence_number();
    let mut last = CstStatus::Nil;
    for (peer, cid) in [1u32, 2, 3].iter().enumerate() {
        let header = header_from(peer as u32, peer as u64, b"reply");
        let reply = CstMessage::new(
            round,
            CstMessageKind::ReplyLatestConsensusSeq(SeqNo::from(*cid)),
        );
        let (status, _) = cst.process_message(
            CstProgress::Message(header, reply),
            view,
            &consensus,
            &log,
        );
        last = status;
    }
    assert!(matches!(last, CstStatus::RequestLatestCid));
}

#[test]
fn test_cst_serves_latest_cid() {
    // a replica that is not transferring state answers discovery
    // requests with its current consensus sequence number
    let view = view_n4();
    let consensus = Consensus::new(SeqNo::from(33u32), 1);
    let log = TestLog::new(1);
    let mut cst = TestCst::new(1000);
    let header = header_from(3, 1, b"request");
    let request = CstMessage::<u64, u64>::new(
        SeqNo::from(9u32),
        CstMessageKind::RequestLatestConsensusSeq,
    );
    let (status, reply) = cst.process_message(
        CstProgress::Message(header, request),
        view,
        &consensus,
        &log,
    );
    assert!(matches!(status, CstStatus::Nil));
    let (to, reply) = reply.expect("the request must be answered");
    assert_eq!(to, NodeId::from(3u32));
    assert_eq!(reply.sequence_number(), SeqNo::from(9u32));
    match reply.kind() {
        CstMessageKind::ReplyLatestConsensusSeq(cid) => assert_eq!(u32::from(*cid), 33),
        _ => panic!("expected a cid reply"),
    }
}

#[test]
fn test_cst_timeouts() {
    let view = view_n4();
    let mut cst = TestCst::new(1000);
    let round = cst.request_latest_consensus_seq_no(view).sequence_number();
    // a stale timeout is ignored
    assert!(matches!(cst.timed_out(SeqNo::from(55u32)), CstStatus::Nil));
    assert_eq!(cst.current_timeout(), 1000);
    // a timeout of the current round doubles the waiting time
    assert!(matches!(cst.timed_out(round), CstStatus::RequestLatestCid));
    assert_eq!(cst.current_timeout(), 2000);
}

fn decided_recovery_state(ops: Vec<u64>, seq: u32, appstate: u64) -> RecoveryState<u64, u64> {
    let mut log = TestLog::new(1);
    let mut nonce = 1u64;
    for op in ops.iter() {
        let header = header_from(1000, nonce, &op.to_le_bytes());
        let digest = header.unique_digest();
        log.insert(header, SystemMessage::Request(RequestMessage::new(*op)));
        let pp_header = header_from(0, 50_000 + nonce, b"pre-prepare");
        let message =
            ConsensusMessage::new(SeqNo::from(seq), SeqNo::from(0u32), ConsensusMessageKind::PrePrepare(
                vec![digest],
            ));
        log.insert(pp_header, SystemMessage::Consensus(message));
        let (info, _) = log.finalize_batch(&[digest]).expect("batch must finalize");
        assert!(matches!(info, Info::Nil));
        nonce += 1;
    }
    RecoveryState::new(
        view_n4(),
        bafomet::log::Checkpoint { seq: SeqNo::from(seq), appstate },
        ops,
        log.decision_log().clone(),
    )
}

#[test]
fn test_cst_state_quorum() {
    // three replicas reply with states hashing to the same digest: after
    // the third reply the quorum is met and the fetched state returns
    let view = view_n4();
    let consensus = Consensus::new(SeqNo::from(0u32), 1);
    let log = TestLog::new(1);
    let mut cst = TestCst::new(1000);
    let round = cst.request_latest_state(view).sequence_number();

    let mut last = CstStatus::Nil;
    for peer in 0..3u32 {
        // the same state bytes hash to the same header digest
        let header = header_from(peer, 7, b"the agreed state");
        let rs = decided_recovery_state(vec![5, 6], 77, 11);
        let reply = CstMessage::new(round, CstMessageKind::ReplyState(rs));
        let (status, outgoing) =
            cst.process_message(CstProgress::Message(header, reply), view, &consensus, &log);
        assert!(outgoing.is_none());
        last = status;
        if peer < 2 {
            assert!(matches!(last, CstStatus::Running));
        }
    }
    match last {
        CstStatus::State(rs) => {
            assert_eq!(*rs.checkpoint().state(), 11);
            assert_eq!(rs.requests(), &[5, 6]);
        },
        _ => panic!("expected the fetched state"),
    }
}

#[test]
fn test_install_recovery_state() {
    // installing a recovered state advances consensus past the last
    // pre-prepared instance and overwrites the log
    let (tx, rx) = std::sync::mpsc::channel();
    let mut executor_handle = ExecutorHandle::<CounterService>::new(tx);
    let mut consensus = Consensus::new(SeqNo::from(0u32), 1);
    let mut log = TestLog::new(1);
    let rs = decided_recovery_state(vec![5, 6], 77, 11);

    install_recovery_state(rs, &mut log, &mut executor_handle, &mut consensus)
        .expect("install must succeed");
    assert_eq!(u32::from(consensus.sequence_number()), 77);
    assert_eq!(log.decision_log().pre_prepares().len(), 2);
    assert_eq!(u32::from(log.decision_log().pre_prepares()[1].message().sequence_number()), 77);

    // repeating the install is a no-op for the sequence number and
    // leaves the same decision log installed again
    let rs_again = decided_recovery_state(vec![5, 6], 77, 11);
    install_recovery_state(rs_again, &mut log, &mut executor_handle, &mut consensus)
        .expect("repeated install must succeed");
    assert_eq!(u32::from(consensus.sequence_number()), 77);
    assert_eq!(log.decision_log().pre_prepares().len(), 2);

    // the executor was handed the checkpointed state and the decided
    // operations to replay
    let mut executor = Executor::new(CounterService).expect("executor must start");
    match rx.try_recv().expect("an execution request must be queued") {
        ExecutionRequest::InstallState(state, after) => {
            assert_eq!(state, 11);
            assert_eq!(after, vec![5, 6]);
            executor.install_state(state, after);
        },
        _ => panic!("expected an install request"),
    }
    assert_eq!(executor.state, 22);
}

#[test]
fn test_install_state_without_replay() {
    // with nothing to replay, the installed state is exactly the
    // given one
    let mut executor = Executor::new(CounterService).expect("executor must start");
    executor.install_state(41, Vec::new());
    assert_eq!(executor.state, 41);
    // and a replay applies the operations on top of it
    executor.install_state(41, vec![1]);
    assert_eq!(executor.state, 42);
}

#[test]
fn test_executor_replies_match_requests() {
    let mut executor = Executor::new(CounterService).expect("executor must start");
    let mut batch = bafomet::executable::UpdateBatch::new();
    let d1 = Digest::from_bytes(&[1u8; 32][..]).expect("digest length");
    let d2 = Digest::from_bytes(&[2u8; 32][..]).expect("digest length");
    batch.add(NodeId::from(1000u32), d1, 3);
    batch.add(NodeId::from(1001u32), d2, 4);
    let (replies, appstate) = executor.update_batch_and_get_appstate(batch);
    assert_eq!(appstate, 7);
    let mut replies = replies.into_inner();
    assert_eq!(replies.len(), 2);
    let (to, digest, payload) = replies.remove(0).into_inner();
    assert_eq!(to, NodeId::from(1000u32));
    assert_eq!(digest, d1);
    assert_eq!(payload, 3);
    let (to, digest, payload) = replies.remove(0).into_inner();
    assert_eq!(to, NodeId::from(1001u32));
    assert_eq!(digest, d2);
    assert_eq!(payload, 7);
}
