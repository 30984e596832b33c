//! Laws of the event extractor: every output event is sourced in a matching
//! log of the notification, a notification without logs of the target
//! contract yields nothing, and extraction is a pure function of its input.

use vstd::prelude::*;
use crate::decode::spec_decoded_event;
use crate::extract::{spec_block_events, spec_chain_events, spec_extract, spec_log_match,
    spec_receipt_events};
use crate::types::{BlockV, ChainNotificationV, ExtractedEventV, ExtractorConfigV, LogEntryV,
    ReceiptV, WORD_LEN};

verus! {

/// The event `e` is sourced at its recorded log position within `logs`: the
/// log there matches the filter and decodes to `e`'s event.
pub open spec fn event_from_log(
    cfg: ExtractorConfigV,
    logs: Seq<LogEntryV>,
    bi: int,
    ti: int,
    e: ExtractedEventV,
) -> bool {
    &&& e.block_index == bi
    &&& e.tx_index == ti
    &&& 0 <= e.log_index < logs.len()
    &&& spec_log_match(cfg, logs[e.log_index])
    &&& e.event == spec_decoded_event(logs[e.log_index])
}

/// The event `e` is sourced at its recorded position within the
/// notification: its indices are in range, the log entry there was emitted
/// by the target contract, matches the event signature and shape, and
/// decodes to `e`'s event.
pub open spec fn event_sourced(
    cfg: ExtractorConfigV,
    n: ChainNotificationV,
    e: ExtractedEventV,
) -> bool {
    &&& 0 <= e.block_index < n.blocks.len()
    &&& 0 <= e.tx_index < n.blocks[e.block_index].receipts.len()
    &&& event_from_log(
        cfg,
        n.blocks[e.block_index].receipts[e.tx_index].logs,
        e.block_index,
        e.tx_index,
        e,
    )
}

proof fn lemma_receipt_events_sourced(
    cfg: ExtractorConfigV,
    bi: int,
    ti: int,
    logs: Seq<LogEntryV>,
)
    ensures
        forall|k: int|
            0 <= k < spec_receipt_events(cfg, bi, ti, logs).len() ==> event_from_log(
                cfg,
                logs,
                bi,
                ti,
                #[trigger] spec_receipt_events(cfg, bi, ti, logs)[k],
            ),
    decreases logs.len(),
{
    if logs.len() > 0 {
        lemma_receipt_events_sourced(cfg, bi, ti, logs.drop_last());
        let prefix = spec_receipt_events(cfg, bi, ti, logs.drop_last());
        let whole = spec_receipt_events(cfg, bi, ti, logs);
        assert forall|k: int| 0 <= k < whole.len() implies event_from_log(
            cfg,
            logs,
            bi,
            ti,
            #[trigger] whole[k],
        ) by {
            if k < prefix.len() {
                assert(whole[k] == prefix[k]);
                assert(event_from_log(cfg, logs.drop_last(), bi, ti, prefix[k]));
                assert(logs[prefix[k].log_index] == logs.drop_last()[prefix[k].log_index]);
            } else {
                assert(spec_log_match(cfg, logs.last()));
                assert(whole[k].log_index == logs.len() - 1);
            }
        }
    }
}

proof fn lemma_block_events_sourced(
    cfg: ExtractorConfigV,
    bi: int,
    receipts: Seq<ReceiptV>,
)
    ensures
        forall|k: int|
            0 <= k < spec_block_events(cfg, bi, receipts).len() ==> {
                let e = #[trigger] spec_block_events(cfg, bi, receipts)[k];
                &&& e.block_index == bi
                &&& 0 <= e.tx_index < receipts.len()
                &&& event_from_log(cfg, receipts[e.tx_index].logs, bi, e.tx_index, e)
            },
    decreases receipts.len(),
{
    if receipts.len() > 0 {
        lemma_block_events_sourced(cfg, bi, receipts.drop_last());
        lemma_receipt_events_sourced(cfg, bi, receipts.len() - 1, receipts.last().logs);
        let prefix = spec_block_events(cfg, bi, receipts.drop_last());
        let tail = spec_receipt_events(cfg, bi, receipts.len() - 1, receipts.last().logs);
        let whole = spec_block_events(cfg, bi, receipts);
        assert forall|k: int| 0 <= k < whole.len() implies {
            let e = #[trigger] whole[k];
            &&& e.block_index == bi
            &&& 0 <= e.tx_index < receipts.len()
            &&& event_from_log(cfg, receipts[e.tx_index].logs, bi, e.tx_index, e)
        } by {
            if k < prefix.len() {
                assert(whole[k] == prefix[k]);
                assert(receipts[prefix[k].tx_index] == receipts.drop_last()[prefix[k].tx_index]);
            } else {
                assert(whole[k] == tail[k - prefix.len()]);
            }
        }
    }
}

proof fn lemma_chain_events_sourced(cfg: ExtractorConfigV, blocks: Seq<BlockV>)
    ensures
        forall|k: int|
            0 <= k < spec_chain_events(cfg, blocks).len() ==> {
                let e = #[trigger] spec_chain_events(cfg, blocks)[k];
                &&& 0 <= e.block_index < blocks.len()
                &&& 0 <= e.tx_index < blocks[e.block_index].receipts.len()
                &&& event_from_log(
                    cfg,
                    blocks[e.block_index].receipts[e.tx_index].logs,
                    e.block_index,
                    e.tx_index,
                    e,
                )
            },
    decreases blocks.len(),
{
    if blocks.len() > 0 {
        lemma_chain_events_sourced(cfg, blocks.drop_last());
        lemma_block_events_sourced(cfg, blocks.len() - 1, blocks.last().receipts);
        let prefix = spec_chain_events(cfg, blocks.drop_last());
        let tail = spec_block_events(cfg, blocks.len() - 1, blocks.last().receipts);
        let whole = spec_chain_events(cfg, blocks);
        assert forall|k: int| 0 <= k < whole.len() implies {
            let e = #[trigger] whole[k];
            &&& 0 <= e.block_index < blocks.len()
            &&& 0 <= e.tx_index < blocks[e.block_index].receipts.len()
            &&& event_from_log(
                cfg,
                blocks[e.block_index].receipts[e.tx_index].logs,
                e.block_index,
                e.tx_index,
                e,
            )
        } by {
            if k < prefix.len() {
                assert(whole[k] == prefix[k]);
                assert(blocks[prefix[k].block_index] == blocks.drop_last()[prefix[k].block_index]);
            } else {
                assert(whole[k] == tail[k - prefix.len()]);
            }
        }
    }
}

/// Law: a log entry whose address differs from the target contract address
/// never contributes to the extractor's output. Every extracted event is
/// sourced at a log of the notification that the filter matched, which
/// includes emission by the target address.
pub proof fn lemma_events_only_from_target(cfg: ExtractorConfigV, n: ChainNotificationV)
    ensures
        forall|k: int|
            0 <= k < spec_extract(cfg, n).len() ==> event_sourced(
                cfg,
                n,
                #[trigger] spec_extract(cfg, n)[k],
            ),
{
    lemma_chain_events_sourced(cfg, n.blocks);
}

/// Law: a notification containing no log entry of the target contract
/// address yields an empty extraction.
pub proof fn lemma_no_target_logs_no_events(cfg: ExtractorConfigV, n: ChainNotificationV)
    requires
        forall|b: int, t: int, l: int|
            0 <= b < n.blocks.len() && 0 <= t < n.blocks[b].receipts.len() && 0 <= l
                < n.blocks[b].receipts[t].logs.len() ==> (#[trigger] n.blocks[b].receipts[t].logs[l]).address
                != cfg.target_address,
    ensures
        spec_extract(cfg, n).len() == 0,
{
    lemma_events_only_from_target(cfg, n);
    if spec_extract(cfg, n).len() > 0 {
        let e = spec_extract(cfg, n)[0];
        assert(event_sourced(cfg, n, e));
        assert(n.blocks[e.block_index].receipts[e.tx_index].logs[e.log_index].address
            == cfg.target_address);
    }
}

/// Law: every extracted event carries a 32-byte batch-header hash, provided
/// the notification's topics are 32-byte words.
pub proof fn lemma_extracted_hash_len(cfg: ExtractorConfigV, n: ChainNotificationV)
    requires
        n.wf(),
    ensures
        forall|k: int|
            0 <= k < spec_extract(cfg, n).len() ==> (#[trigger] spec_extract(
                cfg,
                n,
            )[k]).event.batch_header_hash.len() == WORD_LEN,
{
    lemma_events_only_from_target(cfg, n);
    assert forall|k: int| 0 <= k < spec_extract(cfg, n).len() implies (#[trigger] spec_extract(
        cfg,
        n,
    )[k]).event.batch_header_hash.len() == WORD_LEN by {
        let e = spec_extract(cfg, n)[k];
        assert(event_sourced(cfg, n, e));
        let log = n.blocks[e.block_index].receipts[e.tx_index].logs[e.log_index];
        assert(log.wf());
        assert(log.topics[1].len() == WORD_LEN);
    }
}

/// Law: extraction is a pure function of the configuration and the
/// notification. Two extractions of the same notification yield the same
/// event sequence; together with the extractor's contract, re-running it
/// changes nothing.
pub proof fn lemma_extraction_deterministic(
    cfg: ExtractorConfigV,
    n: ChainNotificationV,
    first: Seq<ExtractedEventV>,
    second: Seq<ExtractedEventV>,
)
    requires
        first == spec_extract(cfg, n),
        second == spec_extract(cfg, n),
    ensures
        first == second,
{
}

} // verus!
