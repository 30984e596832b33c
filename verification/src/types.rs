//! Data model of the watcher: chain notifications as the host delivers them,
//! log entries, the decoded batch-confirmation event, and the records the
//! pipeline produces.

use vstd::prelude::*;

verus! {

/// Length in bytes of an emitting contract address.
pub const ADDRESS_LEN: usize = 20;

/// Length in bytes of a log topic word and of a batch-header hash.
pub const WORD_LEN: usize = 32;

/// One log record emitted by a contract: the emitting address, the indexed
/// topic words, and the opaque payload bytes.
pub struct LogEntry {
    pub address: Vec<u8>,
    pub topics: Vec<Vec<u8>>,
    pub data: Vec<u8>,
}

/// Mathematical value of a [`LogEntry`].
pub struct LogEntryV {
    pub address: Seq<u8>,
    pub topics: Seq<Seq<u8>>,
    pub data: Seq<u8>,
}

impl View for LogEntry {
    type V = LogEntryV;

    open spec fn view(&self) -> LogEntryV {
        LogEntryV {
            address: self.address@,
            topics: self.topics.deep_view(),
            data: self.data@,
        }
    }
}

impl DeepView for LogEntry {
    type V = LogEntryV;

    open spec fn deep_view(&self) -> LogEntryV {
        self.view()
    }
}

impl LogEntryV {
    /// Every topic is one 32-byte word.
    pub open spec fn wf(self) -> bool {
        forall|i: int| 0 <= i < self.topics.len() ==> (#[trigger] self.topics[i]).len() == WORD_LEN
    }
}

/// The receipt of one executed transaction: the log records it emitted, in
/// emission order.
pub struct Receipt {
    pub logs: Vec<LogEntry>,
}

/// Mathematical value of a [`Receipt`].
pub struct ReceiptV {
    pub logs: Seq<LogEntryV>,
}

impl View for Receipt {
    type V = ReceiptV;

    open spec fn view(&self) -> ReceiptV {
        ReceiptV { logs: self.logs.deep_view() }
    }
}

impl DeepView for Receipt {
    type V = ReceiptV;

    open spec fn deep_view(&self) -> ReceiptV {
        self.view()
    }
}

impl ReceiptV {
    pub open spec fn wf(self) -> bool {
        forall|i: int| 0 <= i < self.logs.len() ==> (#[trigger] self.logs[i]).wf()
    }
}

/// One committed block: the receipts of its transactions, one per executed
/// transaction, in transaction order (the host pairs them by position).
pub struct Block {
    pub receipts: Vec<Receipt>,
}

/// Mathematical value of a [`Block`].
pub struct BlockV {
    pub receipts: Seq<ReceiptV>,
}

impl View for Block {
    type V = BlockV;

    open spec fn view(&self) -> BlockV {
        BlockV { receipts: self.receipts.deep_view() }
    }
}

impl DeepView for Block {
    type V = BlockV;

    open spec fn deep_view(&self) -> BlockV {
        self.view()
    }
}

impl BlockV {
    pub open spec fn wf(self) -> bool {
        forall|i: int| 0 <= i < self.receipts.len() ==> (#[trigger] self.receipts[i]).wf()
    }
}

/// A block identifier: height and hash, as the host reports the tip of a
/// notification and as the pipeline acknowledges processed progress.
pub struct NumHash {
    pub number: u64,
    pub hash: Vec<u8>,
}

/// Mathematical value of a [`NumHash`].
pub struct NumHashV {
    pub number: u64,
    pub hash: Seq<u8>,
}

impl View for NumHash {
    type V = NumHashV;

    open spec fn view(&self) -> NumHashV {
        NumHashV { number: self.number, hash: self.hash@ }
    }
}

impl DeepView for NumHash {
    type V = NumHashV;

    open spec fn deep_view(&self) -> NumHashV {
        self.view()
    }
}

/// One unit of chain progress delivered by the host: the committed blocks in
/// order, and the tip (highest block) of this notification.
pub struct ChainNotification {
    pub blocks: Vec<Block>,
    pub tip: NumHash,
}

/// Mathematical value of a [`ChainNotification`].
pub struct ChainNotificationV {
    pub blocks: Seq<BlockV>,
    pub tip: NumHashV,
}

impl View for ChainNotification {
    type V = ChainNotificationV;

    open spec fn view(&self) -> ChainNotificationV {
        ChainNotificationV { blocks: self.blocks.deep_view(), tip: self.tip@ }
    }
}

impl ChainNotificationV {
    pub open spec fn wf(self) -> bool {
        forall|i: int| 0 <= i < self.blocks.len() ==> (#[trigger] self.blocks[i]).wf()
    }
}

/// The configuration the extractor is constructed with: the contract address
/// whose events are of interest, and the 32-byte signature hash (first topic)
/// of the batch-confirmation event.
pub struct ExtractorConfig {
    pub target_address: Vec<u8>,
    pub signature_hash: Vec<u8>,
}

/// Mathematical value of an [`ExtractorConfig`].
pub struct ExtractorConfigV {
    pub target_address: Seq<u8>,
    pub signature_hash: Seq<u8>,
}

impl View for ExtractorConfig {
    type V = ExtractorConfigV;

    open spec fn view(&self) -> ExtractorConfigV {
        ExtractorConfigV {
            target_address: self.target_address@,
            signature_hash: self.signature_hash@,
        }
    }
}

impl ExtractorConfigV {
    pub open spec fn wf(self) -> bool {
        &&& self.target_address.len() == ADDRESS_LEN
        &&& self.signature_hash.len() == WORD_LEN
    }
}

/// The decoded batch-confirmation event: the 32-byte batch-header hash and
/// the batch sequence number. Values of this type are only built by a
/// successful decode of a matching log entry.
pub struct BatchConfirmedEvent {
    pub batch_header_hash: Vec<u8>,
    pub batch_id: u32,
}

/// Mathematical value of a [`BatchConfirmedEvent`].
pub struct BatchConfirmedEventV {
    pub batch_header_hash: Seq<u8>,
    pub batch_id: u32,
}

impl View for BatchConfirmedEvent {
    type V = BatchConfirmedEventV;

    open spec fn view(&self) -> BatchConfirmedEventV {
        BatchConfirmedEventV {
            batch_header_hash: self.batch_header_hash@,
            batch_id: self.batch_id,
        }
    }
}

impl DeepView for BatchConfirmedEvent {
    type V = BatchConfirmedEventV;

    open spec fn deep_view(&self) -> BatchConfirmedEventV {
        self.view()
    }
}

impl BatchConfirmedEvent {
    /// The 32-byte header hash identifying the confirmed batch on chain.
    pub fn batch_header_hash(&self) -> (r: &Vec<u8>)
        ensures
            r@ == self@.batch_header_hash,
    {
        &self.batch_header_hash
    }

    /// The sequence number of the confirmed batch.
    pub fn batch_id(&self) -> (r: u32)
        ensures
            r == self@.batch_id,
    {
        self.batch_id
    }
}

/// One event found by the extractor, with the position of its source: block,
/// transaction (= receipt) and log indices within the notification.
pub struct ExtractedEvent {
    pub block_index: usize,
    pub tx_index: usize,
    pub log_index: usize,
    pub event: BatchConfirmedEvent,
}

/// Mathematical value of an [`ExtractedEvent`].
pub struct ExtractedEventV {
    pub block_index: int,
    pub tx_index: int,
    pub log_index: int,
    pub event: BatchConfirmedEventV,
}

impl View for ExtractedEvent {
    type V = ExtractedEventV;

    open spec fn view(&self) -> ExtractedEventV {
        ExtractedEventV {
            block_index: self.block_index as int,
            tx_index: self.tx_index as int,
            log_index: self.log_index as int,
            event: self.event@,
        }
    }
}

impl DeepView for ExtractedEvent {
    type V = ExtractedEventV;

    open spec fn deep_view(&self) -> ExtractedEventV {
        self.view()
    }
}

/// One blob recovered from the service: the owning batch header, the index
/// the blob was retrieved at, and the unpadded payload.
pub struct RetrievedBlob {
    pub batch_header_hash: Vec<u8>,
    pub blob_index: u32,
    pub data: Vec<u8>,
}

/// Mathematical value of a [`RetrievedBlob`].
pub struct RetrievedBlobV {
    pub batch_header_hash: Seq<u8>,
    pub blob_index: u32,
    pub data: Seq<u8>,
}

impl View for RetrievedBlob {
    type V = RetrievedBlobV;

    open spec fn view(&self) -> RetrievedBlobV {
        RetrievedBlobV {
            batch_header_hash: self.batch_header_hash@,
            blob_index: self.blob_index,
            data: self.data@,
        }
    }
}

impl DeepView for RetrievedBlob {
    type V = RetrievedBlobV;

    open spec fn deep_view(&self) -> RetrievedBlobV {
        self.view()
    }
}

} // verus!
