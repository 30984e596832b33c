//! The per-field-element padding scheme used by the blob service.
//!
//! Payloads are carried in 32-byte field elements whose first byte is
//! reserved: the padder splits the payload into 31-byte chunks and prepends
//! a zero byte to each; the unpadder drops the first byte of every 32-byte
//! chunk of the padded form.

use vstd::prelude::*;

verus! {

/// Size in bytes of one field element on the wire.
pub const ELEMENT_SIZE: usize = 32;

/// Payload bytes carried per field element (one byte is reserved).
pub const DATA_PER_ELEMENT: usize = 31;

/// The padded form of a payload: a zero byte before every 31-byte chunk.
pub open spec fn pad_spec(s: Seq<u8>) -> Seq<u8>
    decreases s.len(),
{
    if s.len() == 0 {
        Seq::empty()
    } else if s.len() <= DATA_PER_ELEMENT {
        seq![0u8] + s
    } else {
        (seq![0u8] + s.take(DATA_PER_ELEMENT as int)) + pad_spec(s.skip(DATA_PER_ELEMENT as int))
    }
}

/// The unpadded form of a padded payload: the first byte of every 32-byte
/// chunk is dropped.
pub open spec fn unpad_spec(s: Seq<u8>) -> Seq<u8>
    decreases s.len(),
{
    if s.len() == 0 {
        Seq::empty()
    } else if s.len() <= ELEMENT_SIZE {
        s.skip(1)
    } else {
        s.subrange(1, ELEMENT_SIZE as int) + unpad_spec(s.skip(ELEMENT_SIZE as int))
    }
}

/// Pads a payload for transmission: one zero byte before every 31-byte chunk.
pub fn pad_payload(data: &Vec<u8>) -> (r: Vec<u8>)
    ensures
        r@ == pad_spec(data@),
{
    let mut out: Vec<u8> = Vec::new();
    let mut i: usize = 0;
    proof {
        assert(data@.skip(0) =~= data@);
        assert(Seq::<u8>::empty() + pad_spec(data@) =~= pad_spec(data@));
    }
    while i < data.len()
        invariant
            i <= data.len(),
            pad_spec(data@) == out@ + pad_spec(data@.skip(i as int)),
        decreases data.len() - i,
    {
        let ghost rest = data@.skip(i as int);
        let end: usize = if data.len() - i < DATA_PER_ELEMENT {
            data.len()
        } else {
            i + DATA_PER_ELEMENT
        };
        let ghost out_before = out@;
        out.push(0u8);
        proof {
            assert(out@ =~= out_before + seq![0u8] + data@.subrange(i as int, i as int));
        }
        let mut j: usize = i;
        while j < end
            invariant
                i <= j <= end <= data.len(),
                out@ == out_before + seq![0u8] + data@.subrange(i as int, j as int),
            decreases end - j,
        {
            let b = data[j];
            out.push(b);
            proof {
                assert(data@.subrange(i as int, j + 1) =~= data@.subrange(i as int, j as int)
                    + seq![data@[j as int]]);
            }
            j = j + 1;
        }
        proof {
            if rest.len() <= DATA_PER_ELEMENT {
                assert(end == data.len());
                assert(rest =~= data@.subrange(i as int, end as int));
                assert(pad_spec(rest) == seq![0u8] + rest);
                assert(data@.skip(end as int) =~= Seq::<u8>::empty());
                assert(out@ + pad_spec(data@.skip(end as int)) =~= out_before + pad_spec(rest));
            } else {
                assert(end == i + DATA_PER_ELEMENT);
                assert(rest.take(DATA_PER_ELEMENT as int) =~= data@.subrange(
                    i as int,
                    end as int,
                ));
                assert(rest.skip(DATA_PER_ELEMENT as int) =~= data@.skip(end as int));
                assert(pad_spec(rest) == (seq![0u8] + data@.subrange(i as int, end as int))
                    + pad_spec(data@.skip(end as int)));
                assert(out@ + pad_spec(data@.skip(end as int)) =~= out_before + pad_spec(rest));
            }
        }
        i = end;
    }
    proof {
        assert(data@.skip(data@.len() as int) =~= Seq::<u8>::empty());
        assert(out@ =~= pad_spec(data@));
    }
    out
}

/// Strips the padding scheme from a service response: drops the first byte
/// of every 32-byte chunk, recovering the original payload.
pub fn unpad_payload(data: &Vec<u8>) -> (r: Vec<u8>)
    ensures
        r@ == unpad_spec(data@),
{
    let mut out: Vec<u8> = Vec::new();
    let mut i: usize = 0;
    proof {
        assert(data@.skip(0) =~= data@);
        assert(Seq::<u8>::empty() + unpad_spec(data@) =~= unpad_spec(data@));
    }
    while i < data.len()
        invariant
            i <= data.len(),
            unpad_spec(data@) == out@ + unpad_spec(data@.skip(i as int)),
        decreases data.len() - i,
    {
        let ghost rest = data@.skip(i as int);
        let end: usize = if data.len() - i < ELEMENT_SIZE {
            data.len()
        } else {
            i + ELEMENT_SIZE
        };
        let ghost out_before = out@;
        let mut j: usize = i + 1;
        proof {
            assert(out@ =~= out_before + data@.subrange(i as int + 1, i as int + 1));
        }
        while j < end
            invariant
                i + 1 <= j <= end <= data.len(),
                out@ == out_before + data@.subrange(i as int + 1, j as int),
            decreases end - j,
        {
            let b = data[j];
            out.push(b);
            proof {
                assert(data@.subrange(i as int + 1, j + 1) =~= data@.subrange(
                    i as int + 1,
                    j as int,
                ) + seq![data@[j as int]]);
            }
            j = j + 1;
        }
        proof {
            if rest.len() <= ELEMENT_SIZE {
                assert(end == data.len());
                assert(rest.skip(1) =~= data@.subrange(i as int + 1, end as int));
                assert(data@.skip(end as int) =~= Seq::<u8>::empty());
                assert(out@ + unpad_spec(data@.skip(end as int)) =~= out_before + unpad_spec(
                    rest,
                ));
            } else {
                assert(end == i + ELEMENT_SIZE);
                assert(rest.subrange(1, ELEMENT_SIZE as int) =~= data@.subrange(
                    i as int + 1,
                    end as int,
                ));
                assert(rest.skip(ELEMENT_SIZE as int) =~= data@.skip(end as int));
                assert(out@ + unpad_spec(data@.skip(end as int)) =~= out_before + unpad_spec(
                    rest,
                ));
            }
        }
        i = end;
    }
    proof {
        assert(data@.skip(data@.len() as int) =~= Seq::<u8>::empty());
        assert(out@ =~= unpad_spec(data@));
    }
    out
}

/// A non-empty payload has a non-empty padded form.
proof fn lemma_pad_nonempty(s: Seq<u8>)
    requires
        s.len() > 0,
    ensures
        pad_spec(s).len() > 0,
    decreases s.len(),
{
}

/// Unpadding undoes padding: the round trip over the wire scheme recovers
/// exactly the original payload, for every payload.
pub proof fn lemma_unpad_of_pad(s: Seq<u8>)
    ensures
        unpad_spec(pad_spec(s)) == s,
    decreases s.len(),
{
    if s.len() == 0 {
        assert(unpad_spec(pad_spec(s)) =~= s);
    } else if s.len() <= DATA_PER_ELEMENT {
        assert(pad_spec(s) == seq![0u8] + s);
        assert(pad_spec(s).len() == s.len() + 1 <= ELEMENT_SIZE);
        assert(unpad_spec(pad_spec(s)) =~= s);
    } else {
        let d = DATA_PER_ELEMENT as int;
        let a = seq![0u8] + s.take(d);
        let b = pad_spec(s.skip(d));
        assert(pad_spec(s) == a + b);
        lemma_pad_nonempty(s.skip(d));
        assert((a + b).len() > ELEMENT_SIZE);
        assert((a + b).subrange(1, ELEMENT_SIZE as int) =~= s.take(d));
        assert((a + b).skip(ELEMENT_SIZE as int) =~= b);
        lemma_unpad_of_pad(s.skip(d));
        assert(unpad_spec(pad_spec(s)) =~= s.take(d) + s.skip(d));
        assert(s.take(d) + s.skip(d) =~= s);
    }
}

} // verus!
