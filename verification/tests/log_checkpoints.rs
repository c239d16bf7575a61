//! Tests of the message log: batching, request lookup, and the periodic
//! checkpoint life cycle.

use bafomet::communication::NodeId;
use bafomet::crypto::Digest;
use bafomet::error::ErrorKind;
use bafomet::log::{Info, Log, PERIOD};
use bafomet::message::{
    ConsensusMessage, ConsensusMessageKind, Header, RequestMessage, SystemMessage, WireMessage,
};
use bafomet::ordering::SeqNo;
use bafomet::view::{SystemParams, ViewInfo};

type TestLog = Log<u64, u64, u64>;

fn view_n4() -> ViewInfo {
    let params = SystemParams::new(4, 1).expect("invalid params");
    ViewInfo::new(SeqNo::from(0u32), params)
}

fn request_header(nonce: u64, payload: &[u8]) -> Header {
    let digest = {
        let d = ring::digest::digest(&ring::digest::SHA256, payload);
        Digest::from_bytes(d.as_ref()).expect("digest length")
    };
    let (header, _) = WireMessage::new(
        NodeId::from(1000u32),
        NodeId::from(0u32),
        payload,
        nonce,
        Some(digest),
        None,
    )
    .into_inner();
    header
}

fn insert_request(log: &mut TestLog, op: u64, nonce: u64) -> Digest {
    let header = request_header(nonce, &op.to_le_bytes());
    let digest = header.unique_digest();
    log.insert(header, SystemMessage::Request(RequestMessage::new(op)));
    digest
}

fn insert_pre_prepare(log: &mut TestLog, seq: SeqNo, digests: Vec<Digest>) {
    let header = request_header(90_000 + u32::from(seq) as u64, b"pre-prepare");
    let message = ConsensusMessage::new(seq, SeqNo::from(0u32), ConsensusMessageKind::PrePrepare(
        digests,
    ));
    log.insert(header, SystemMessage::Consensus(message));
}

#[test]
fn test_next_batch_and_has_request() {
    let mut log = TestLog::new(2);
    assert!(log.next_batch().is_none());
    let d1 = insert_request(&mut log, 1, 1);
    assert!(log.has_request(&d1));
    // one pending request moves to the deciding pool, but the batch is
    // not full yet
    assert!(log.next_batch().is_none());
    assert!(log.has_request(&d1));
    let d2 = insert_request(&mut log, 2, 2);
    let batch = log.next_batch().expect("batch must fill");
    assert_eq!(batch, vec![d1, d2]);
}

#[test]
fn test_clone_requests_skips_unknown() {
    let mut log = TestLog::new(8);
    let d1 = insert_request(&mut log, 1, 1);
    let d2 = insert_request(&mut log, 2, 2);
    let unknown = Digest::from_bytes(&[0xabu8; 32][..]).expect("digest length");
    let stored = log.clone_requests(&[d1, unknown, d2]);
    assert_eq!(stored.len(), 2);
    assert_eq!(*stored[0].message().operation(), 1);
    assert_eq!(*stored[1].message().operation(), 2);
}

#[test]
fn test_finalize_batch_unknown_digest_fails() {
    let mut log = TestLog::new(1);
    let unknown = Digest::from_bytes(&[0xcdu8; 32][..]).expect("digest length");
    let err = match log.finalize_batch(&[unknown]) {
        Ok(_) => panic!("an unknown digest must fail the batch"),
        Err(e) => e,
    };
    assert_eq!(err.kind(), ErrorKind::Log);
}

#[test]
fn test_finalize_batch_failure_residue() {
    // the digests drained before the missing one stay removed; those
    // after it stay in place
    let mut log = TestLog::new(8);
    let d1 = insert_request(&mut log, 1, 1);
    let d2 = insert_request(&mut log, 2, 2);
    let unknown = Digest::from_bytes(&[0xeeu8; 32][..]).expect("digest length");
    let err = match log.finalize_batch(&[d1, unknown, d2]) {
        Ok(_) => panic!("an unknown digest must fail the batch"),
        Err(e) => e,
    };
    assert_eq!(err.kind(), ErrorKind::Log);
    assert!(!log.has_request(&d1));
    assert!(log.has_request(&d2));
}

#[test]
fn test_checkpoint_period() {
    // after exactly PERIOD decided operations, finalize_batch asks for a
    // checkpoint; once the executor hands the state back, the snapshot
    // succeeds
    let mut log = TestLog::new(1);
    let view = view_n4();
    assert_eq!(err_kind(log.snapshot(view)), Some(ErrorKind::Log));
    assert_eq!(err_kind(log.finalize_checkpoint(0)), Some(ErrorKind::Log));

    for i in 1..=PERIOD {
        let d = insert_request(&mut log, i as u64, i as u64);
        insert_pre_prepare(&mut log, SeqNo::from(i), vec![d]);
        let (info, batch) = log.finalize_batch(&[d]).expect("batch must finalize");
        assert_eq!(batch.len(), 1);
        if i < PERIOD {
            assert!(matches!(info, Info::Nil));
        } else {
            assert!(matches!(info, Info::BeginCheckpoint));
        }
    }
    // the snapshot still fails while the checkpoint is partial
    assert_eq!(err_kind(log.snapshot(view)), Some(ErrorKind::Log));
    // the executor delivers the application state
    log.finalize_checkpoint(500_500).expect("checkpoint must finalize");
    let rs = log.snapshot(view).expect("snapshot must succeed");
    assert_eq!(*rs.checkpoint().state(), 500_500);
    assert_eq!(u32::from(rs.checkpoint().sequence_number()), PERIOD);
    // the decided operations were garbage collected
    assert_eq!(rs.requests().len(), 0);
    // only the latest pre-prepare survives
    assert_eq!(rs.decision_log().pre_prepares().len(), 1);
    // beginning a checkpoint twice in a row is refused
    assert_eq!(err_kind(log.finalize_checkpoint(0)), Some(ErrorKind::Log));
}

fn err_kind<T>(r: Result<T, bafomet::error::Error>) -> Option<ErrorKind> {
    match r {
        Ok(_) => None,
        Err(e) => Some(e.kind()),
    }
}

#[test]
fn test_install_state_overwrites_log() {
    let mut log = TestLog::new(1);
    let d = insert_request(&mut log, 9, 9);
    insert_pre_prepare(&mut log, SeqNo::from(1u32), vec![d]);
    log.finalize_batch(&[d]).expect("batch must finalize");

    let mut source = TestLog::new(1);
    let ds = insert_request(&mut source, 4, 4);
    insert_pre_prepare(&mut source, SeqNo::from(2001u32), vec![ds]);
    source.finalize_batch(&[ds]).expect("batch must finalize");
    let (info, _) = {
        let d2 = insert_request(&mut source, 5, 5);
        insert_pre_prepare(&mut source, SeqNo::from(3000u32), vec![d2]);
        source.finalize_batch(&[d2]).expect("batch must finalize")
    };
    assert!(matches!(info, Info::BeginCheckpoint));
    source.finalize_checkpoint(42).expect("checkpoint must finalize");
    let rs = source.snapshot(view_n4()).expect("snapshot must succeed");

    let pre_prepares = rs.decision_log().pre_prepares().len();
    log.install_state(SeqNo::from(3000u32), rs);
    assert_eq!(u32::from(log.decision_log().pre_prepares()[0].message().sequence_number()), 3000);
    assert_eq!(log.decision_log().pre_prepares().len(), pre_prepares);
}
