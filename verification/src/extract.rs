//! The event extractor: scans a chain notification block by block,
//! transaction by transaction, log by log, keeps the entries of the target
//! contract, and decodes them as batch-confirmation events.

use vstd::prelude::*;
use crate::bytes::bytes_eq;
use crate::decode::{decode_log, spec_decoded_event, spec_shape_ok, spec_signature_matches,
    DecodeOutcome};
use crate::types::{BlockV, ChainNotification, ChainNotificationV, ExtractedEvent,
    ExtractedEventV, ExtractorConfig, ExtractorConfigV, LogEntryV, ReceiptV};

verus! {

/// A log entry yields an event: it was emitted by the target contract,
/// carries the expected signature, and is shaped like the event.
pub open spec fn spec_log_match(cfg: ExtractorConfigV, log: LogEntryV) -> bool {
    &&& log.address == cfg.target_address
    &&& spec_signature_matches(cfg.signature_hash, log)
    &&& spec_shape_ok(log)
}

/// The events of one receipt's logs, in log order.
pub open spec fn spec_receipt_events(
    cfg: ExtractorConfigV,
    bi: int,
    ti: int,
    logs: Seq<LogEntryV>,
) -> Seq<ExtractedEventV>
    decreases logs.len(),
{
    if logs.len() == 0 {
        Seq::empty()
    } else {
        spec_receipt_events(cfg, bi, ti, logs.drop_last()) + (if spec_log_match(
            cfg,
            logs.last(),
        ) {
            seq![
                ExtractedEventV {
                    block_index: bi,
                    tx_index: ti,
                    log_index: logs.len() - 1,
                    event: spec_decoded_event(logs.last()),
                },
            ]
        } else {
            Seq::empty()
        })
    }
}

/// The events of one block's receipts, in transaction order.
pub open spec fn spec_block_events(cfg: ExtractorConfigV, bi: int, receipts: Seq<ReceiptV>) -> Seq<
    ExtractedEventV,
>
    decreases receipts.len(),
{
    if receipts.len() == 0 {
        Seq::empty()
    } else {
        spec_block_events(cfg, bi, receipts.drop_last()) + spec_receipt_events(
            cfg,
            bi,
            receipts.len() - 1,
            receipts.last().logs,
        )
    }
}

/// The events of a sequence of blocks, in block order.
pub open spec fn spec_chain_events(cfg: ExtractorConfigV, blocks: Seq<BlockV>) -> Seq<
    ExtractedEventV,
>
    decreases blocks.len(),
{
    if blocks.len() == 0 {
        Seq::empty()
    } else {
        spec_chain_events(cfg, blocks.drop_last()) + spec_block_events(
            cfg,
            blocks.len() - 1,
            blocks.last().receipts,
        )
    }
}

/// Everything the extractor yields for one notification, in the order the
/// logs appear in it.
pub open spec fn spec_extract(cfg: ExtractorConfigV, n: ChainNotificationV) -> Seq<
    ExtractedEventV,
> {
    spec_chain_events(cfg, n.blocks)
}

/// Extracts the batch-confirmation events of one notification. The result
/// is exactly the specified event sequence: entries of other contracts and
/// entries that do not decode are dropped, nothing is reordered, and a
/// decode failure never aborts the scan.
pub fn extract_events(cfg: &ExtractorConfig, n: &ChainNotification) -> (out: Vec<ExtractedEvent>)
    ensures
        out.deep_view() == spec_extract(cfg@, n@),
{
    let mut out: Vec<ExtractedEvent> = Vec::new();
    let mut bi: usize = 0;
    proof {
        assert(n@.blocks.take(0) =~= Seq::<BlockV>::empty());
        assert(out.deep_view() =~= spec_chain_events(cfg@, n@.blocks.take(0)));
    }
    while bi < n.blocks.len()
        invariant
            bi <= n.blocks.len(),
            n@.blocks.len() == n.blocks.len(),
            out.deep_view() == spec_chain_events(cfg@, n@.blocks.take(bi as int)),
        decreases n.blocks.len() - bi,
    {
        let block = &n.blocks[bi];
        let ghost block_v = n@.blocks[bi as int];
        proof {
            assert(block@ == block_v);
        }
        let mut ti: usize = 0;
        proof {
            assert(block_v.receipts.take(0) =~= Seq::<ReceiptV>::empty());
            assert(out.deep_view() =~= spec_chain_events(cfg@, n@.blocks.take(bi as int))
                + spec_block_events(cfg@, bi as int, block_v.receipts.take(0)));
        }
        while ti < block.receipts.len()
            invariant
                ti <= block.receipts.len(),
                bi < n@.blocks.len(),
                block == &n.blocks[bi as int],
                block_v == n@.blocks[bi as int],
                block_v.receipts.len() == block.receipts.len(),
                out.deep_view() == spec_chain_events(cfg@, n@.blocks.take(bi as int))
                    + spec_block_events(cfg@, bi as int, block_v.receipts.take(ti as int)),
            decreases block.receipts.len() - ti,
        {
            let receipt = &block.receipts[ti];
            let ghost receipt_v = block_v.receipts[ti as int];
            proof {
                assert(receipt@ == receipt_v);
            }
            let mut li: usize = 0;
            proof {
                assert(receipt_v.logs.take(0) =~= Seq::<LogEntryV>::empty());
                assert(out.deep_view() =~= spec_chain_events(cfg@, n@.blocks.take(bi as int))
                    + spec_block_events(cfg@, bi as int, block_v.receipts.take(ti as int))
                    + spec_receipt_events(cfg@, bi as int, ti as int, receipt_v.logs.take(0)));
            }
            while li < receipt.logs.len()
                invariant
                    li <= receipt.logs.len(),
                    bi < n@.blocks.len(),
                    ti < block_v.receipts.len(),
                    receipt == &n.blocks[bi as int].receipts[ti as int],
                    receipt_v == n@.blocks[bi as int].receipts[ti as int],
                    block_v == n@.blocks[bi as int],
                    receipt_v.logs.len() == receipt.logs.len(),
                    out.deep_view() == spec_chain_events(cfg@, n@.blocks.take(bi as int))
                        + spec_block_events(cfg@, bi as int, block_v.receipts.take(ti as int))
                        + spec_receipt_events(
                        cfg@,
                        bi as int,
                        ti as int,
                        receipt_v.logs.take(li as int),
                    ),
                decreases receipt.logs.len() - li,
            {
                let log = &receipt.logs[li];
                let ghost log_v = receipt_v.logs[li as int];
                proof {
                    assert(log@ == log_v);
                }
                let ghost out_prev = out.deep_view();
                if bytes_eq(&log.address, &cfg.target_address) {
                    match decode_log(&cfg.signature_hash, log) {
                        DecodeOutcome::Decoded(ev) => {
                            let e = ExtractedEvent {
                                block_index: bi,
                                tx_index: ti,
                                log_index: li,
                                event: ev,
                            };
                            proof {
                                assert(spec_log_match(cfg@, log_v));
                            }
                            out.push(e);
                            proof {
                                assert(out.deep_view() =~= out_prev + seq![e@]);
                            }
                        },
                        _ => {
                            proof {
                                assert(!spec_log_match(cfg@, log_v));
                            }
                        },
                    }
                } else {
                    proof {
                        assert(!spec_log_match(cfg@, log_v));
                    }
                }
                proof {
                    let logs = receipt_v.logs;
                    assert(logs.take(li + 1).drop_last() =~= logs.take(li as int));
                    assert(logs.take(li + 1).last() == log_v);
                    if spec_log_match(cfg@, log_v) {
                        assert(spec_receipt_events(cfg@, bi as int, ti as int, logs.take(li + 1))
                            =~= spec_receipt_events(cfg@, bi as int, ti as int, logs.take(li as int))
                            + seq![
                            ExtractedEventV {
                                block_index: bi as int,
                                tx_index: ti as int,
                                log_index: li as int,
                                event: spec_decoded_event(log_v),
                            },
                        ]);
                    } else {
                        assert(spec_receipt_events(cfg@, bi as int, ti as int, logs.take(li + 1))
                            =~= spec_receipt_events(
                            cfg@,
                            bi as int,
                            ti as int,
                            logs.take(li as int),
                        ));
                    }
                    assert(out.deep_view() =~= spec_chain_events(cfg@, n@.blocks.take(bi as int))
                        + spec_block_events(cfg@, bi as int, block_v.receipts.take(ti as int))
                        + spec_receipt_events(cfg@, bi as int, ti as int, logs.take(li + 1)));
                }
                li = li + 1;
            }
            proof {
                let receipts = block_v.receipts;
                assert(receipt_v.logs.take(receipt_v.logs.len() as int) =~= receipt_v.logs);
                assert(receipts.take(ti + 1).drop_last() =~= receipts.take(ti as int));
                assert(receipts.take(ti + 1).last() == receipt_v);
                assert(spec_block_events(cfg@, bi as int, receipts.take(ti + 1))
                    =~= spec_block_events(cfg@, bi as int, receipts.take(ti as int))
                    + spec_receipt_events(cfg@, bi as int, ti as int, receipt_v.logs));
                assert(out.deep_view() =~= spec_chain_events(cfg@, n@.blocks.take(bi as int))
                    + spec_block_events(cfg@, bi as int, receipts.take(ti + 1)));
            }
            ti = ti + 1;
        }
        proof {
            let blocks = n@.blocks;
            assert(block_v.receipts.take(block_v.receipts.len() as int) =~= block_v.receipts);
            assert(blocks.take(bi + 1).drop_last() =~= blocks.take(bi as int));
            assert(blocks.take(bi + 1).last() == block_v);
            assert(spec_chain_events(cfg@, blocks.take(bi + 1)) =~= spec_chain_events(
                cfg@,
                blocks.take(bi as int),
            ) + spec_block_events(cfg@, bi as int, block_v.receipts));
            assert(out.deep_view() =~= spec_chain_events(cfg@, blocks.take(bi + 1)));
        }
        bi = bi + 1;
    }
    proof {
        assert(n@.blocks.take(n@.blocks.len() as int) =~= n@.blocks);
    }
    out
}

} // verus!
