//! The notification loop, as a state machine. The host performs the waiting
//! and the wire traffic; each outside outcome is handed to [`NotificationLoop::step`],
//! which decides the next state and tells the host what to do next.
//!
//! Per notification the loop extracts the batch-confirmation events, runs
//! the retrieval protocol of each event's batch to exhaustion in event
//! order, and then — unconditionally, even when every batch was empty —
//! acknowledges the notification's tip exactly once. Choosing the next
//! event to retrieve needs no outside outcome, so it happens inside a
//! single step and never appears as a resting phase.

use vstd::prelude::*;
use crate::bytes::copy_bytes;
use crate::extract::{extract_events, spec_extract};
use crate::extract_laws::lemma_extracted_hash_len;
use crate::pad::unpad_spec;
use crate::retrieve::{RetrievalState, RetrievalStateV};
use crate::types::{ChainNotification, ChainNotificationV, ExtractedEvent, ExtractedEventV,
    ExtractorConfig, ExtractorConfigV, NumHash, NumHashV, RetrievedBlob, RetrievedBlobV,
    WORD_LEN};

verus! {

/// The resting phases of the loop between two outside outcomes.
#[derive(Clone, Copy, PartialEq, Eq, Structural, Debug)]
pub enum LoopPhase {
    /// Waiting for the host to deliver the next notification.
    AwaitingNotification,
    /// A blob lookup is in flight for the current batch.
    Retrieving,
    /// The acknowledgment of the current notification is in flight.
    Acknowledging,
    /// The host's notification stream ended; the loop exited cleanly.
    Finished,
}

/// One outside outcome handed to the loop.
pub enum HostEvent {
    /// The host delivered a notification.
    Notification(ChainNotification),
    /// The host's stream ended; no further notification will come.
    StreamEnded,
    /// The in-flight blob lookup came back: the raw padded payload on
    /// success, or `None` for absence or any other request failure.
    BlobResponse(Option<Vec<u8>>),
    /// The in-flight acknowledgment was delivered.
    AckDelivered,
}

/// Mathematical value of a [`HostEvent`].
pub enum HostEventV {
    Notification(ChainNotificationV),
    StreamEnded,
    BlobResponse(Option<Seq<u8>>),
    AckDelivered,
}

impl View for HostEvent {
    type V = HostEventV;

    open spec fn view(&self) -> HostEventV {
        match self {
            HostEvent::Notification(n) => HostEventV::Notification(n@),
            HostEvent::StreamEnded => HostEventV::StreamEnded,
            HostEvent::BlobResponse(r) => HostEventV::BlobResponse(r.deep_view()),
            HostEvent::AckDelivered => HostEventV::AckDelivered,
        }
    }
}

/// What the host is to do next.
pub enum LoopAction {
    /// Await the next notification (or the end of the stream).
    AwaitNotification,
    /// Issue a blob lookup for the given batch header at the given index.
    RequestBlob(Vec<u8>, u32),
    /// Send the given processed height to the host.
    SendAck(NumHash),
    /// Stop: the loop is finished.
    Stop,
}

/// Mathematical value of a [`LoopAction`].
pub enum LoopActionV {
    AwaitNotification,
    RequestBlob(Seq<u8>, u32),
    SendAck(NumHashV),
    Stop,
}

impl View for LoopAction {
    type V = LoopActionV;

    open spec fn view(&self) -> LoopActionV {
        match self {
            LoopAction::AwaitNotification => LoopActionV::AwaitNotification,
            LoopAction::RequestBlob(h, i) => LoopActionV::RequestBlob(h@, *i),
            LoopAction::SendAck(t) => LoopActionV::SendAck(t@),
            LoopAction::Stop => LoopActionV::Stop,
        }
    }
}

/// The loop's state: the configuration, the resting phase, and — while a
/// notification is being processed — its events, the cursor over them, its
/// tip, and the retrieval state of the current batch.
pub struct NotificationLoop {
    pub cfg: ExtractorConfig,
    pub phase: LoopPhase,
    pub events: Vec<ExtractedEvent>,
    pub next_event: usize,
    pub tip: NumHash,
    pub retrieval: RetrievalState,
}

/// Mathematical value of a [`NotificationLoop`].
pub struct NotificationLoopV {
    pub cfg: ExtractorConfigV,
    pub phase: LoopPhase,
    pub events: Seq<ExtractedEventV>,
    pub next_event: int,
    pub tip: NumHashV,
    pub retrieval: RetrievalStateV,
}

impl View for NotificationLoop {
    type V = NotificationLoopV;

    open spec fn view(&self) -> NotificationLoopV {
        NotificationLoopV {
            cfg: self.cfg@,
            phase: self.phase,
            events: self.events.deep_view(),
            next_event: self.next_event as int,
            tip: self.tip@,
            retrieval: self.retrieval@,
        }
    }
}

impl NotificationLoopV {
    /// Well-formedness between steps. While retrieving, the cursor stands
    /// one past the event whose batch is being retrieved, and the
    /// retrieval queries that event's header hash.
    pub open spec fn wf(self) -> bool {
        &&& self.cfg.wf()
        &&& (self.phase is Retrieving ==> {
            &&& 1 <= self.next_event <= self.events.len()
            &&& forall|k: int|
                0 <= k < self.events.len() ==> (#[trigger] self.events[k]).event.batch_header_hash.len()
                    == WORD_LEN
            &&& self.retrieval.wf()
            &&& !self.retrieval.done
            &&& self.retrieval.batch_header_hash == self.events[self.next_event
                - 1].event.batch_header_hash
        })
    }

    /// The outcomes the loop can take in its current phase.
    pub open spec fn accepts(self, ev: HostEventV) -> bool {
        match ev {
            HostEventV::Notification(n) => self.phase is AwaitingNotification && n.wf(),
            HostEventV::StreamEnded => self.phase is AwaitingNotification,
            HostEventV::BlobResponse(resp) => self.phase is Retrieving && (resp is Some
                ==> self.retrieval.next_index < u32::MAX),
            HostEventV::AckDelivered => self.phase is Acknowledging,
        }
    }
}

impl NotificationLoop {
    /// A fresh loop, waiting for the first notification.
    pub fn new(cfg: ExtractorConfig) -> (s: NotificationLoop)
        requires
            cfg@.wf(),
        ensures
            s@.cfg == cfg@,
            s@.phase is AwaitingNotification,
            s@.wf(),
    {
        NotificationLoop {
            cfg,
            phase: LoopPhase::AwaitingNotification,
            events: Vec::new(),
            next_event: 0,
            tip: NumHash { number: 0, hash: Vec::new() },
            retrieval: RetrievalState { batch_header_hash: Vec::new(), next_index: 1, done: true },
        }
    }

    /// The resting phase the loop is in.
    pub fn phase(&self) -> (p: LoopPhase)
        ensures
            p == self@.phase,
    {
        self.phase
    }

    /// Advances the loop by one outside outcome and returns what the host
    /// is to do next, together with the blob recovered by a successful
    /// lookup. Blobs of one batch come in strictly increasing index order
    /// from 1; batches come in the order their events stand in the
    /// notification; the tip is acknowledged exactly once per
    /// notification, after all its batches, empty or not.
    pub fn step(&mut self, ev: HostEvent) -> (r: (LoopAction, Option<RetrievedBlob>))
        requires
            old(self)@.wf(),
            old(self)@.accepts(ev@),
        ensures
            final(self)@.wf(),
            final(self)@.cfg == old(self)@.cfg,
            (ev@ matches HostEventV::Notification(nv) ==> {
                let es = spec_extract(old(self)@.cfg, nv);
                &&& final(self)@.events == es
                &&& final(self)@.tip == nv.tip
                &&& r.1 is None
                &&& (es.len() == 0 ==> {
                    &&& final(self)@.phase is Acknowledging
                    &&& r.0@ == LoopActionV::SendAck(nv.tip)
                })
                &&& (es.len() > 0 ==> {
                    &&& final(self)@.phase is Retrieving
                    &&& final(self)@.next_event == 1
                    &&& final(self)@.retrieval.batch_header_hash
                        == es[0].event.batch_header_hash
                    &&& final(self)@.retrieval.next_index == 1
                    &&& r.0@ == LoopActionV::RequestBlob(es[0].event.batch_header_hash, 1u32)
                })
            }),
            (ev@ is StreamEnded ==> final(self)@.phase is Finished && r.0@ is Stop && r.1
                is None),
            (ev@ matches HostEventV::BlobResponse(resp) ==> {
                &&& final(self)@.events == old(self)@.events
                &&& final(self)@.tip == old(self)@.tip
                &&& (resp matches Some(data) ==> {
                    &&& r.1 matches Some(blob) && blob@ == (RetrievedBlobV {
                        batch_header_hash: old(self)@.retrieval.batch_header_hash,
                        blob_index: old(self)@.retrieval.next_index,
                        data: unpad_spec(data),
                    })
                    &&& final(self)@.phase is Retrieving
                    &&& final(self)@.next_event == old(self)@.next_event
                    &&& final(self)@.retrieval.batch_header_hash == old(
                        self,
                    )@.retrieval.batch_header_hash
                    &&& final(self)@.retrieval.next_index == old(self)@.retrieval.next_index
                        + 1
                    &&& r.0@ == LoopActionV::RequestBlob(
                        old(self)@.retrieval.batch_header_hash,
                        (old(self)@.retrieval.next_index + 1) as u32,
                    )
                })
                &&& (resp is None ==> {
                    &&& r.1 is None
                    &&& (old(self)@.next_event < old(self)@.events.len() ==> {
                        &&& final(self)@.phase is Retrieving
                        &&& final(self)@.next_event == old(self)@.next_event + 1
                        &&& final(self)@.retrieval.batch_header_hash == old(self)@.events[old(
                            self,
                        )@.next_event].event.batch_header_hash
                        &&& final(self)@.retrieval.next_index == 1
                        &&& r.0@ == LoopActionV::RequestBlob(
                            old(self)@.events[old(self)@.next_event].event.batch_header_hash,
                            1u32,
                        )
                    })
                    &&& (old(self)@.next_event >= old(self)@.events.len() ==> {
                        &&& final(self)@.phase is Acknowledging
                        &&& r.0@ == LoopActionV::SendAck(old(self)@.tip)
                    })
                })
            }),
            (ev@ is AckDelivered ==> final(self)@.phase is AwaitingNotification && r.0@
                is AwaitNotification && r.1 is None),
    {
        match ev {
            HostEvent::Notification(n) => {
                let events = extract_events(&self.cfg, &n);
                proof {
                    lemma_extracted_hash_len(self.cfg@, n@);
                }
                self.events = events;
                self.tip = n.tip;
                if self.events.len() == 0 {
                    self.next_event = 0;
                    self.phase = LoopPhase::Acknowledging;
                    let ack = NumHash { number: self.tip.number, hash: copy_bytes(&self.tip.hash) };
                    (LoopAction::SendAck(ack), None)
                } else {
                    let hash = copy_bytes(&self.events[0].event.batch_header_hash);
                    self.retrieval = RetrievalState::start(&hash);
                    self.next_event = 1;
                    self.phase = LoopPhase::Retrieving;
                    (LoopAction::RequestBlob(hash, 1), None)
                }
            },
            HostEvent::StreamEnded => {
                self.phase = LoopPhase::Finished;
                (LoopAction::Stop, None)
            },
            HostEvent::BlobResponse(resp) => {
                match resp {
                    Some(data) => {
                        proof {
                            assert(data.deep_view() =~= data@);
                        }
                        let blob = self.retrieval.step(Some(data));
                        let hash = copy_bytes(self.retrieval.batch_header_hash());
                        let idx = self.retrieval.next_index();
                        (LoopAction::RequestBlob(hash, idx), blob)
                    },
                    None => {
                        if self.next_event < self.events.len() {
                            let hash = copy_bytes(
                                &self.events[self.next_event].event.batch_header_hash,
                            );
                            self.retrieval = RetrievalState::start(&hash);
                            self.next_event = self.next_event + 1;
                            (LoopAction::RequestBlob(hash, 1), None)
                        } else {
                            self.phase = LoopPhase::Acknowledging;
                            let ack = NumHash {
                                number: self.tip.number,
                                hash: copy_bytes(&self.tip.hash),
                            };
                            (LoopAction::SendAck(ack), None)
                        }
                    },
                }
            },
            HostEvent::AckDelivered => {
                self.phase = LoopPhase::AwaitingNotification;
                (LoopAction::AwaitNotification, None)
            },
        }
    }
}

} // verus!
