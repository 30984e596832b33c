//! The notification loop end to end, driven with hand-played host outcomes.

use eigenda_exex::pad::pad_payload;
use eigenda_exex::pipeline::{HostEvent, LoopAction, LoopPhase, NotificationLoop};
use eigenda_exex::types::{Block, ChainNotification, ExtractorConfig, LogEntry, NumHash, Receipt};

fn target_address() -> Vec<u8> {
    vec![0xA0u8; 20]
}

fn signature_hash() -> Vec<u8> {
    vec![0xBBu8; 32]
}

fn config() -> ExtractorConfig {
    ExtractorConfig { target_address: target_address(), signature_hash: signature_hash() }
}

fn batch_confirmed_log(header: Vec<u8>, batch_id: u32) -> LogEntry {
    let mut data = vec![0u8; 28];
    data.extend_from_slice(&batch_id.to_be_bytes());
    LogEntry { address: target_address(), topics: vec![signature_hash(), header], data }
}

#[test]
fn one_event_three_blobs_then_ack() {
    // one block, one transaction with one receipt, one matching log:
    // header 0xAA..AA, batch id 7; the service succeeds at indices 1..=3
    let header = vec![0xAAu8; 32];
    let tip = NumHash { number: 1234, hash: vec![0xCDu8; 32] };
    let n = ChainNotification {
        blocks: vec![Block {
            receipts: vec![Receipt { logs: vec![batch_confirmed_log(header.clone(), 7)] }],
        }],
        tip: NumHash { number: tip.number, hash: tip.hash.clone() },
    };
    let payloads = vec![b"one".to_vec(), b"two".to_vec(), b"three".to_vec()];

    let mut lp = NotificationLoop::new(config());
    assert!(lp.phase() == LoopPhase::AwaitingNotification);

    let (action, blob) = lp.step(HostEvent::Notification(n));
    assert!(blob.is_none());
    match action {
        LoopAction::RequestBlob(h, i) => {
            assert_eq!(h, header);
            assert_eq!(i, 1);
        },
        _ => panic!("expected a blob request"),
    }
    assert!(lp.phase() == LoopPhase::Retrieving);

    let mut got = Vec::new();
    for k in 0..3usize {
        let response = Some(pad_payload(&payloads[k]));
        let (action, blob) = lp.step(HostEvent::BlobResponse(response));
        let blob = blob.expect("a blob per successful lookup");
        assert_eq!(blob.batch_header_hash, header);
        assert_eq!(blob.blob_index, (k + 1) as u32);
        assert_eq!(blob.data, payloads[k]);
        got.push(blob);
        match action {
            LoopAction::RequestBlob(h, i) => {
                assert_eq!(h, header);
                assert_eq!(i, (k + 2) as u32);
            },
            _ => panic!("expected the next blob request"),
        }
    }
    assert_eq!(got.len(), 3);

    // the lookup at index 4 fails: the batch is done, the tip gets acknowledged
    let (action, blob) = lp.step(HostEvent::BlobResponse(None));
    assert!(blob.is_none());
    match action {
        LoopAction::SendAck(h) => {
            assert_eq!(h.number, tip.number);
            assert_eq!(h.hash, tip.hash);
        },
        _ => panic!("expected the acknowledgment"),
    }
    assert!(lp.phase() == LoopPhase::Acknowledging);

    let (action, blob) = lp.step(HostEvent::AckDelivered);
    assert!(blob.is_none());
    assert!(matches!(action, LoopAction::AwaitNotification));
    assert!(lp.phase() == LoopPhase::AwaitingNotification);
}

#[test]
fn notification_without_events_is_still_acknowledged() {
    let tip = NumHash { number: 9, hash: vec![0x11u8; 32] };
    let n = ChainNotification {
        blocks: vec![Block { receipts: vec![Receipt { logs: vec![] }] }],
        tip: NumHash { number: tip.number, hash: tip.hash.clone() },
    };
    let mut lp = NotificationLoop::new(config());
    let (action, blob) = lp.step(HostEvent::Notification(n));
    assert!(blob.is_none());
    match action {
        LoopAction::SendAck(h) => {
            assert_eq!(h.number, 9);
            assert_eq!(h.hash, tip.hash);
        },
        _ => panic!("expected an immediate acknowledgment"),
    }
    assert!(lp.phase() == LoopPhase::Acknowledging);
}

#[test]
fn two_batches_retrieved_in_event_order() {
    let header_a = vec![0xAAu8; 32];
    let header_b = vec![0xABu8; 32];
    let n = ChainNotification {
        blocks: vec![Block {
            receipts: vec![Receipt {
                logs: vec![
                    batch_confirmed_log(header_a.clone(), 1),
                    batch_confirmed_log(header_b.clone(), 2),
                ],
            }],
        }],
        tip: NumHash { number: 5, hash: vec![0x22u8; 32] },
    };
    let mut lp = NotificationLoop::new(config());
    let (action, _) = lp.step(HostEvent::Notification(n));
    match action {
        LoopAction::RequestBlob(h, i) => {
            assert_eq!(h, header_a);
            assert_eq!(i, 1);
        },
        _ => panic!("expected the first batch's request"),
    }
    // the first batch has one blob
    let (action, blob) = lp.step(HostEvent::BlobResponse(Some(pad_payload(&b"a1".to_vec()))));
    assert_eq!(blob.expect("one blob").batch_header_hash, header_a);
    assert!(matches!(action, LoopAction::RequestBlob(_, 2)));
    // its end moves the loop to the second batch, cursor back at 1
    let (action, blob) = lp.step(HostEvent::BlobResponse(None));
    assert!(blob.is_none());
    match action {
        LoopAction::RequestBlob(h, i) => {
            assert_eq!(h, header_b);
            assert_eq!(i, 1);
        },
        _ => panic!("expected the second batch's request"),
    }
    // the second batch is empty; then the ack follows
    let (action, _) = lp.step(HostEvent::BlobResponse(None));
    assert!(matches!(action, LoopAction::SendAck(_)));
}

#[test]
fn stream_end_finishes_the_loop() {
    let mut lp = NotificationLoop::new(config());
    let (action, blob) = lp.step(HostEvent::StreamEnded);
    assert!(blob.is_none());
    assert!(matches!(action, LoopAction::Stop));
    assert!(lp.phase() == LoopPhase::Finished);
}
