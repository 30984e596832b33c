//! Structural decoding of a log entry as the batch-confirmation event
//! `BatchConfirmed(bytes32 indexed batchHeaderHash, uint32 batchId)`.
//!
//! The header hash is the second topic word; the batch id is the last four
//! bytes of the 32-byte data word, big endian, whose leading 28 bytes must
//! be zero.

use vstd::prelude::*;
use crate::bytes::{be_u32_at, bytes_eq, copy_bytes, spec_be_u32};
use crate::types::{BatchConfirmedEvent, BatchConfirmedEventV, LogEntry, LogEntryV};

verus! {

/// Length in bytes of the event's non-indexed data: one ABI word.
pub const EVENT_DATA_LEN: usize = 32;

/// Offset of the big-endian batch id within the data word.
pub const BATCH_ID_OFFSET: usize = 28;

/// Number of topics of the event: the signature hash and the indexed header
/// hash.
pub const EVENT_TOPICS: usize = 2;

/// The outcome of decoding one log entry.
pub enum DecodeOutcome {
    /// The entry is the expected event; its decoded form is attached.
    Decoded(BatchConfirmedEvent),
    /// The entry's first topic is absent or is not the expected signature
    /// hash: some other event type.
    SignatureMismatch,
    /// The signature matches but the entry is not shaped like the event.
    Malformed,
}

/// The first topic of the entry is the expected signature hash.
pub open spec fn spec_signature_matches(sig: Seq<u8>, log: LogEntryV) -> bool {
    &&& log.topics.len() >= 1
    &&& log.topics[0] == sig
}

/// The entry is shaped like the event: exactly two topics, one data word,
/// and the bytes before the batch id all zero.
pub open spec fn spec_shape_ok(log: LogEntryV) -> bool {
    &&& log.topics.len() == EVENT_TOPICS
    &&& log.data.len() == EVENT_DATA_LEN
    &&& forall|i: int| 0 <= i < BATCH_ID_OFFSET ==> log.data[i] == 0
}

/// The decoded form of a well-shaped entry.
pub open spec fn spec_decoded_event(log: LogEntryV) -> BatchConfirmedEventV {
    BatchConfirmedEventV {
        batch_header_hash: log.topics[1],
        batch_id: spec_be_u32(log.data.skip(BATCH_ID_OFFSET as int)),
    }
}

/// Decodes one log entry against the expected signature hash. The outcome
/// tags exactly which of the three cases holds; a decode never fails the
/// caller.
pub fn decode_log(sig: &Vec<u8>, log: &LogEntry) -> (r: DecodeOutcome)
    ensures
        !spec_signature_matches(sig@, log@) ==> r is SignatureMismatch,
        spec_signature_matches(sig@, log@) && !spec_shape_ok(log@) ==> r is Malformed,
        spec_signature_matches(sig@, log@) && spec_shape_ok(log@) ==> (r matches
            DecodeOutcome::Decoded(ev) && ev@ == spec_decoded_event(log@)),
{
    if log.topics.len() == 0 {
        return DecodeOutcome::SignatureMismatch;
    }
    let sig_ok = bytes_eq(&log.topics[0], sig);
    proof {
        assert(log@.topics[0] == log.topics@[0]@);
    }
    if !sig_ok {
        return DecodeOutcome::SignatureMismatch;
    }
    if log.topics.len() != EVENT_TOPICS || log.data.len() != EVENT_DATA_LEN {
        return DecodeOutcome::Malformed;
    }
    let mut i: usize = 0;
    while i < BATCH_ID_OFFSET
        invariant
            i <= BATCH_ID_OFFSET,
            spec_signature_matches(sig@, log@),
            log@.topics.len() == EVENT_TOPICS,
            log@.data.len() == EVENT_DATA_LEN,
            forall|k: int| 0 <= k < i ==> log@.data[k] == 0,
        decreases BATCH_ID_OFFSET - i,
    {
        if log.data[i] != 0 {
            return DecodeOutcome::Malformed;
        }
        i = i + 1;
    }
    let batch_id = be_u32_at(&log.data, BATCH_ID_OFFSET);
    let batch_header_hash = copy_bytes(&log.topics[1]);
    proof {
        assert(log@.data.subrange(BATCH_ID_OFFSET as int, BATCH_ID_OFFSET as int + 4)
            =~= log@.data.skip(BATCH_ID_OFFSET as int));
        assert(log@.topics[1] == log.topics@[1]@);
    }
    DecodeOutcome::Decoded(BatchConfirmedEvent { batch_header_hash, batch_id })
}

} // verus!
