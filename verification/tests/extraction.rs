//! The event extractor over hand-built notifications: address filtering,
//! decode outcomes, ordering, and idempotence.

use eigenda_exex::decode::{decode_log, DecodeOutcome};
use eigenda_exex::extract::extract_events;
use eigenda_exex::types::{Block, ChainNotification, ExtractorConfig, LogEntry, NumHash, Receipt};

fn target_address() -> Vec<u8> {
    vec![0xA0u8; 20]
}

fn signature_hash() -> Vec<u8> {
    vec![0xBBu8; 32]
}

fn config() -> ExtractorConfig {
    ExtractorConfig { target_address: target_address(), signature_hash: signature_hash() }
}

fn event_log(address: Vec<u8>, header: u8, batch_id: u32) -> LogEntry {
    let mut data = vec![0u8; 28];
    data.extend_from_slice(&batch_id.to_be_bytes());
    LogEntry { address, topics: vec![signature_hash(), vec![header; 32]], data }
}

fn notification(blocks: Vec<Block>) -> ChainNotification {
    ChainNotification { blocks, tip: NumHash { number: 7, hash: vec![0xCC; 32] } }
}

#[test]
fn no_target_logs_no_events() {
    // logs from two other contracts, one of them shaped exactly like the event
    let other = event_log(vec![0x01; 20], 0xAA, 5);
    let another = event_log(vec![0x02; 20], 0xAB, 6);
    let n = notification(vec![Block {
        receipts: vec![Receipt { logs: vec![other, another] }],
    }]);
    let out = extract_events(&config(), &n);
    assert!(out.is_empty());
}

#[test]
fn foreign_address_never_appears() {
    // identical payloads; only the target's entry may come out
    let foreign = event_log(vec![0x01; 20], 0xAA, 5);
    let ours = event_log(target_address(), 0xAA, 5);
    let n = notification(vec![Block {
        receipts: vec![Receipt { logs: vec![foreign, ours] }],
    }]);
    let out = extract_events(&config(), &n);
    assert_eq!(out.len(), 1);
    assert_eq!(out[0].log_index, 1);
    assert_eq!(out[0].event.batch_id(), 5);
}

#[test]
fn decode_exact_batch_id() {
    let log = event_log(target_address(), 0xAA, 0x0102_0304);
    match decode_log(&signature_hash(), &log) {
        DecodeOutcome::Decoded(ev) => {
            assert_eq!(ev.batch_id(), 16_909_060);
            assert_eq!(ev.batch_header_hash(), &vec![0xAAu8; 32]);
        },
        _ => panic!("expected a decoded event"),
    }
}

#[test]
fn decode_signature_mismatch() {
    let mut log = event_log(target_address(), 0xAA, 5);
    log.topics[0] = vec![0xBEu8; 32];
    assert!(matches!(decode_log(&signature_hash(), &log), DecodeOutcome::SignatureMismatch));
    let bare = LogEntry { address: target_address(), topics: vec![], data: vec![] };
    assert!(matches!(decode_log(&signature_hash(), &bare), DecodeOutcome::SignatureMismatch));
}

#[test]
fn decode_malformed_shapes() {
    // missing indexed topic
    let one_topic = LogEntry {
        address: target_address(),
        topics: vec![signature_hash()],
        data: vec![0u8; 32],
    };
    assert!(matches!(decode_log(&signature_hash(), &one_topic), DecodeOutcome::Malformed));
    // short data word
    let mut short = event_log(target_address(), 0xAA, 5);
    short.data.truncate(31);
    assert!(matches!(decode_log(&signature_hash(), &short), DecodeOutcome::Malformed));
    // a non-zero byte where the id's padding must be zero
    let mut dirty = event_log(target_address(), 0xAA, 5);
    dirty.data[3] = 1;
    assert!(matches!(decode_log(&signature_hash(), &dirty), DecodeOutcome::Malformed));
}

#[test]
fn undecodable_entries_do_not_abort_the_scan() {
    let mut bad = event_log(target_address(), 0xAA, 5);
    bad.data.truncate(4);
    let good = event_log(target_address(), 0xAB, 6);
    let n = notification(vec![Block {
        receipts: vec![Receipt { logs: vec![bad, good] }],
    }]);
    let out = extract_events(&config(), &n);
    assert_eq!(out.len(), 1);
    assert_eq!(out[0].event.batch_id(), 6);
}

#[test]
fn events_come_in_log_order() {
    let n = notification(vec![
        Block {
            receipts: vec![
                Receipt { logs: vec![event_log(target_address(), 0x11, 1)] },
                Receipt { logs: vec![event_log(target_address(), 0x22, 2)] },
            ],
        },
        Block {
            receipts: vec![Receipt {
                logs: vec![
                    event_log(target_address(), 0x33, 3),
                    event_log(target_address(), 0x44, 4),
                ],
            }],
        },
    ]);
    let out = extract_events(&config(), &n);
    let ids: Vec<u32> = out.iter().map(|e| e.event.batch_id()).collect();
    assert_eq!(ids, vec![1, 2, 3, 4]);
    assert_eq!(out[0].block_index, 0);
    assert_eq!(out[0].tx_index, 0);
    assert_eq!(out[2].block_index, 1);
    assert_eq!(out[3].log_index, 1);
}

#[test]
fn decode_with_real_signature_hash() {
    // the on-chain first topic of BatchConfirmed(bytes32,uint32)
    let sig = alloy_primitives::keccak256(b"BatchConfirmed(bytes32,uint32)").to_vec();
    assert_eq!(sig.len(), 32);
    let mut data = vec![0u8; 28];
    data.extend_from_slice(&7u32.to_be_bytes());
    let log = LogEntry {
        address: target_address(),
        topics: vec![sig.clone(), vec![0xAA; 32]],
        data,
    };
    match decode_log(&sig, &log) {
        DecodeOutcome::Decoded(ev) => {
            assert_eq!(ev.batch_id(), 7);
            assert_eq!(ev.batch_header_hash(), &vec![0xAAu8; 32]);
        },
        _ => panic!("expected a decoded event"),
    }
    // the wrong signature is turned away
    let other = alloy_primitives::keccak256(b"SomethingElse(bytes32)").to_vec();
    assert!(matches!(decode_log(&other, &log), DecodeOutcome::SignatureMismatch));
}

#[test]
fn extraction_is_idempotent() {
    let n = notification(vec![Block {
        receipts: vec![Receipt {
            logs: vec![
                event_log(target_address(), 0x11, 1),
                event_log(vec![0x01; 20], 0x22, 2),
                event_log(target_address(), 0x33, 3),
            ],
        }],
    }]);
    let cfg = config();
    let first = extract_events(&cfg, &n);
    let second = extract_events(&cfg, &n);
    assert_eq!(first.len(), second.len());
    for (a, b) in first.iter().zip(second.iter()) {
        assert_eq!(a.block_index, b.block_index);
        assert_eq!(a.tx_index, b.tx_index);
        assert_eq!(a.log_index, b.log_index);
        assert_eq!(a.event.batch_id(), b.event.batch_id());
        assert_eq!(a.event.batch_header_hash(), b.event.batch_header_hash());
    }
}
