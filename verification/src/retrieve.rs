//! The batch retriever: the sequential, index-driven lookup protocol against
//! the remote blob service. The cursor starts at blob index 1 and advances
//! by one per successful lookup; the first failed lookup — whatever its
//! reason — ends the batch.

use vstd::prelude::*;
use crate::bytes::copy_bytes;
use crate::pad::{unpad_payload, unpad_spec};
use crate::types::{RetrievedBlob, RetrievedBlobV, WORD_LEN};

verus! {

/// The cursor of one batch's retrieval. Verified code only ever advances it
/// through [`RetrievalState::step`].
pub struct RetrievalState {
    pub batch_header_hash: Vec<u8>,
    pub next_index: u32,
    pub done: bool,
}

/// Mathematical value of a [`RetrievalState`].
pub struct RetrievalStateV {
    pub batch_header_hash: Seq<u8>,
    pub next_index: u32,
    pub done: bool,
}

impl View for RetrievalState {
    type V = RetrievalStateV;

    open spec fn view(&self) -> RetrievalStateV {
        RetrievalStateV {
            batch_header_hash: self.batch_header_hash@,
            next_index: self.next_index,
            done: self.done,
        }
    }
}

impl RetrievalStateV {
    pub open spec fn wf(self) -> bool {
        &&& self.batch_header_hash.len() == WORD_LEN
        &&& self.next_index >= 1
    }
}

impl RetrievalState {
    /// Begins the retrieval of one confirmed batch: the cursor stands at
    /// blob index 1 (index 0 is never queried by this protocol).
    pub fn start(batch_header_hash: &Vec<u8>) -> (s: RetrievalState)
        requires
            batch_header_hash@.len() == WORD_LEN,
        ensures
            s@.batch_header_hash == batch_header_hash@,
            s@.next_index == 1,
            !s@.done,
            s@.wf(),
    {
        RetrievalState {
            batch_header_hash: copy_bytes(batch_header_hash),
            next_index: 1,
            done: false,
        }
    }

    /// The batch ended: a lookup failed, and no further blob will be
    /// yielded.
    pub fn is_done(&self) -> (r: bool)
        ensures
            r == self@.done,
    {
        self.done
    }

    /// The header hash the protocol queries with.
    pub fn batch_header_hash(&self) -> (r: &Vec<u8>)
        ensures
            r@ == self@.batch_header_hash,
    {
        &self.batch_header_hash
    }

    /// The blob index the next lookup asks for.
    pub fn next_index(&self) -> (r: u32)
        ensures
            r == self@.next_index,
    {
        self.next_index
    }

    /// Advances the protocol by the outcome of one lookup at the current
    /// index. A successful response yields the unpadded blob and moves the
    /// cursor up by one; a failed response — absence or any other error,
    /// the protocol does not distinguish them — ends the batch and yields
    /// nothing.
    pub fn step(&mut self, response: Option<Vec<u8>>) -> (r: Option<RetrievedBlob>)
        requires
            old(self)@.wf(),
            !old(self)@.done,
            response is Some ==> old(self)@.next_index < u32::MAX,
        ensures
            final(self)@.wf(),
            final(self)@.batch_header_hash == old(self)@.batch_header_hash,
            response matches Some(data) ==> {
                &&& r matches Some(blob) && blob@ == (RetrievedBlobV {
                    batch_header_hash: old(self)@.batch_header_hash,
                    blob_index: old(self)@.next_index,
                    data: unpad_spec(data@),
                })
                &&& !final(self)@.done
                &&& final(self)@.next_index == old(self)@.next_index + 1
            },
            response is None ==> {
                &&& r is None
                &&& final(self)@.done
                &&& final(self)@.next_index == old(self)@.next_index
            },
    {
        match response {
            Some(data) => {
                let payload = unpad_payload(&data);
                let blob = RetrievedBlob {
                    batch_header_hash: copy_bytes(&self.batch_header_hash),
                    blob_index: self.next_index,
                    data: payload,
                };
                self.next_index = self.next_index + 1;
                Some(blob)
            },
            None => {
                self.done = true;
                None
            },
        }
    }
}

/// Runs the whole retrieval protocol against a service whose answers are
/// given up front: the lookup at blob index `k + 1` succeeds with
/// `responses[k]`, and the first lookup past them fails. The result is
/// exactly one blob per response, indices strictly increasing from 1, each
/// payload unpadded — and nothing at all when the very first lookup fails.
pub fn run_retrieval(batch_header_hash: &Vec<u8>, responses: &Vec<Vec<u8>>) -> (out: Vec<
    RetrievedBlob,
>)
    requires
        batch_header_hash@.len() == WORD_LEN,
        responses@.len() < u32::MAX,
    ensures
        out@.len() == responses@.len(),
        forall|k: int|
            0 <= k < out@.len() ==> (#[trigger] out@[k])@ == (RetrievedBlobV {
                batch_header_hash: batch_header_hash@,
                blob_index: (k + 1) as u32,
                data: unpad_spec(responses.deep_view()[k]),
            }),
{
    let mut st = RetrievalState::start(batch_header_hash);
    let mut out: Vec<RetrievedBlob> = Vec::new();
    let mut i: usize = 0;
    while i < responses.len()
        invariant
            i <= responses.len(),
            responses@.len() < u32::MAX,
            st@.wf(),
            !st@.done,
            st@.batch_header_hash == batch_header_hash@,
            st@.next_index == i + 1,
            out@.len() == i,
            forall|k: int|
                0 <= k < out@.len() ==> (#[trigger] out@[k])@ == (RetrievedBlobV {
                    batch_header_hash: batch_header_hash@,
                    blob_index: (k + 1) as u32,
                    data: unpad_spec(responses.deep_view()[k]),
                }),
        decreases responses.len() - i,
    {
        let chunk = copy_bytes(&responses[i]);
        proof {
            assert(chunk@ == responses.deep_view()[i as int]);
        }
        match st.step(Some(chunk)) {
            Some(blob) => {
                out.push(blob);
            },
            None => {
                proof {
                    assert(false);
                }
            },
        }
        i = i + 1;
    }
    let end = st.step(None);
    proof {
        assert(end is None);
        assert(st@.done);
    }
    out
}

} // verus!
