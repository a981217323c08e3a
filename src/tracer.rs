use vstd::prelude::*;

verus! {

/// The 4-byte big-endian encoding of `x`.
pub open spec fn be_bytes(x: u32) -> Seq<u8> {
    seq![(x >> 24u32) as u8, (x >> 16u32) as u8, (x >> 8u32) as u8, x as u8]
}

/// The integer that 4 big-endian bytes encode.
pub open spec fn from_be_bytes(b: Seq<u8>) -> u32
    recommends
        b.len() == 4,
{
    ((b[0] as u32) << 24u32) | ((b[1] as u32) << 16u32) | ((b[2] as u32) << 8u32) | (b[3] as u32)
}

/// The trace stream of a run whose constrained commits happened at the
/// program counters `pcs`, in order: one record per commit.
pub open spec fn trace_of(pcs: Seq<u32>) -> Seq<u8>
    decreases pcs.len(),
{
    if pcs.len() == 0 {
        Seq::empty()
    } else {
        trace_of(pcs.drop_last()) + be_bytes(pcs.last())
    }
}

/// A record reads back as the program counter it was written for.
pub proof fn lemma_be_bytes_round_trip(x: u32)
    ensures
        be_bytes(x).len() == 4,
        from_be_bytes(be_bytes(x)) == x,
{
    let b0 = (x >> 24u32) as u8;
    let b1 = (x >> 16u32) as u8;
    let b2 = (x >> 8u32) as u8;
    let b3 = x as u8;
    assert(((b0 as u32) << 24u32) | ((b1 as u32) << 16u32) | ((b2 as u32) << 8u32) | (b3 as u32)
        == x) by (bit_vector)
        requires
            b0 == (x >> 24u32) as u8,
            b1 == (x >> 16u32) as u8,
            b2 == (x >> 8u32) as u8,
            b3 == x as u8,
    ;
}

/// Appending the record of one more commit to the stream of a run gives the
/// stream of the longer run.
pub proof fn lemma_trace_extends(pcs: Seq<u32>, pc: u32)
    ensures
        trace_of(pcs) + be_bytes(pc) == trace_of(pcs.push(pc)),
{
    assert(pcs.push(pc).drop_last() == pcs);
}

/// After `n` constrained commits the stream holds exactly `n` 4-byte
/// records, the `i`-th of which is the big-endian program counter of the
/// `i`-th commit.
pub proof fn lemma_trace_records(pcs: Seq<u32>)
    ensures
        trace_of(pcs).len() == 4 * pcs.len(),
        forall|i: int|
            0 <= i < pcs.len() ==> #[trigger] trace_of(pcs).subrange(4 * i, 4 * i + 4) == be_bytes(
                pcs[i],
            ),
    decreases pcs.len(),
{
    if pcs.len() > 0 {
        let prefix = pcs.drop_last();
        lemma_trace_records(prefix);
        let t = trace_of(pcs);
        assert forall|i: int| 0 <= i < pcs.len() implies #[trigger] t.subrange(4 * i, 4 * i + 4)
            == be_bytes(pcs[i]) by {
            if i < prefix.len() {
                assert(t.subrange(4 * i, 4 * i + 4) =~= trace_of(prefix).subrange(4 * i, 4 * i + 4));
            } else {
                assert(t.subrange(4 * i, 4 * i + 4) =~= be_bytes(pcs.last()));
            }
        }
    }
}

/// Appends the big-endian encoding of `x` to `buf`.
pub fn push_be_bytes(buf: &mut Vec<u8>, x: u32)
    ensures
        final(buf)@ == old(buf)@ + be_bytes(x),
{
    buf.push((x >> 24u32) as u8);
    buf.push((x >> 16u32) as u8);
    buf.push((x >> 8u32) as u8);
    buf.push(x as u8);
    assert(buf@ =~= old(buf)@ + be_bytes(x));
}

} // verus!
