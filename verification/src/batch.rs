//! Coalescing sparse register reads into one covering span.
//!
//! Given a set of descriptors, the coalescer computes the single address
//! span `[lo, hi)` with `lo` the least register address and `hi` the
//! greatest end of a register, so that one wire read of the span covers
//! every descriptor. The words that come back are then sliced per
//! descriptor at its offset into the span and decoded. Gaps between
//! registers are read along with the rest and discarded: a single-span
//! strategy, deliberately simple at the cost of some extra words on the
//! wire. An empty input needs no wire read at all and yields no plan.

use vstd::prelude::*;

use crate::registers::{convertible, value_is_conversion, RegValue, Register, RegisterError};

verus! {

/// The plan of one coalesced read: the covering span, and for each input
/// descriptor its word offset into the span's response.
pub struct ReadPlan {
    /// First address of the span: the least register address.
    pub start: u16,
    /// Number of words in the span.
    pub count: u16,
    /// For each input descriptor, in input order, the offset of its first
    /// word in the span's response.
    pub offsets: Vec<usize>,
}

/// The least address among the descriptors.
pub open spec fn span_lo(regs: Seq<Register>) -> int
    recommends
        regs.len() > 0,
    decreases regs.len(),
{
    if regs.len() <= 1 {
        regs[0].address as int
    } else {
        let rest = span_lo(regs.drop_last());
        if regs.last().address < rest {
            regs.last().address as int
        } else {
            rest
        }
    }
}

/// The greatest end of a descriptor: one past the last address any of them
/// spans.
pub open spec fn span_hi(regs: Seq<Register>) -> int
    recommends
        regs.len() > 0,
    decreases regs.len(),
{
    if regs.len() <= 1 {
        regs[0].address + regs[0].quantity
    } else {
        let rest = span_hi(regs.drop_last());
        if regs.last().address + regs.last().quantity > rest {
            regs.last().address + regs.last().quantity
        } else {
            rest
        }
    }
}

/// The span covers every descriptor: no register starts before `span_lo`
/// or ends after `span_hi`, and some register starts at `span_lo` while
/// some register ends at `span_hi`.
pub proof fn lemma_span_covers(regs: Seq<Register>)
    requires
        regs.len() > 0,
    ensures
        forall|i: int|
            0 <= i < regs.len() ==> span_lo(regs) <= #[trigger] regs[i].address,
        forall|i: int|
            0 <= i < regs.len() ==> #[trigger] regs[i].address + regs[i].quantity <= span_hi(
                regs,
            ),
        exists|i: int| 0 <= i < regs.len() && span_lo(regs) == #[trigger] regs[i].address,
        exists|i: int|
            0 <= i < regs.len() && span_hi(regs) == #[trigger] regs[i].address + regs[i].quantity,
    decreases regs.len(),
{
    if regs.len() <= 1 {
        assert(span_lo(regs) == regs[0].address);
        assert(span_hi(regs) == regs[0].address + regs[0].quantity);
    } else {
        let rest = regs.drop_last();
        lemma_span_covers(rest);
        assert(forall|i: int| 0 <= i < regs.len() - 1 ==> rest[i] == #[trigger] regs[i]);
        assert(regs.last() == regs[regs.len() - 1]);
        let j = choose|i: int| 0 <= i < rest.len() && span_lo(rest) == #[trigger] rest[i].address;
        if regs.last().address < span_lo(rest) {
            assert(span_lo(regs) == regs[regs.len() - 1].address);
        } else {
            assert(span_lo(regs) == regs[j].address);
        }
        let m = choose|i: int|
            0 <= i < rest.len() && span_hi(rest) == #[trigger] rest[i].address + rest[i].quantity;
        if regs.last().address + regs.last().quantity > span_hi(rest) {
            assert(span_hi(regs) == regs[regs.len() - 1].address + regs[regs.len() - 1].quantity);
        } else {
            assert(span_hi(regs) == regs[m].address + regs[m].quantity);
        }
    }
}

/// Compute the plan of one coalesced read: no plan for an empty input, and
/// for a non-empty one the covering span together with each descriptor's
/// offset into it.
pub fn coalesce(regs: &[Register]) -> (r: Option<ReadPlan>)
    requires
        forall|i: int| 0 <= i < regs@.len() ==> (#[trigger] regs@[i]).wf(),
    ensures
        (r is Some) == (regs@.len() > 0),
        match r {
            Some(plan) => {
                &&& plan.start == span_lo(regs@)
                &&& plan.start + plan.count == span_hi(regs@)
                &&& plan.offsets@.len() == regs@.len()
                &&& forall|i: int|
                    0 <= i < regs@.len() ==> #[trigger] plan.offsets@[i] == regs@[i].address
                        - span_lo(regs@)
            },
            None => true,
        },
{
    if regs.len() == 0 {
        return None;
    }
    let mut lo: u16 = regs[0].address;
    let mut hi: u16 = regs[0].address + regs[0].quantity as u16;
    let mut k: usize = 1;
    proof {
        assert(regs@.take(1) =~= seq![regs@[0]]);
    }
    while k < regs.len()
        invariant
            1 <= k <= regs@.len(),
            forall|i: int| 0 <= i < regs@.len() ==> (#[trigger] regs@[i]).wf(),
            lo == span_lo(regs@.take(k as int)),
            hi == span_hi(regs@.take(k as int)),
        decreases regs@.len() - k,
    {
        proof {
            assert(regs@.take(k + 1).drop_last() =~= regs@.take(k as int));
            assert(regs@.take(k + 1).last() == regs@[k as int]);
        }
        if regs[k].address < lo {
            lo = regs[k].address;
        }
        let end = regs[k].address + regs[k].quantity as u16;
        if end > hi {
            hi = end;
        }
        k = k + 1;
    }
    proof {
        assert(regs@.take(regs@.len() as int) =~= regs@);
        lemma_span_covers(regs@);
    }
    let mut offsets: Vec<usize> = Vec::new();
    let mut k: usize = 0;
    while k < regs.len()
        invariant
            k <= regs@.len(),
            lo == span_lo(regs@),
            forall|i: int|
                0 <= i < regs@.len() ==> span_lo(regs@) <= #[trigger] regs@[i].address,
            offsets@.len() == k,
            forall|i: int|
                0 <= i < k ==> #[trigger] offsets@[i] == regs@[i].address - span_lo(regs@),
        decreases regs@.len() - k,
    {
        offsets.push((regs[k].address - lo) as usize);
        k = k + 1;
    }
    Some(ReadPlan { start: lo, count: hi - lo, offsets })
}

/// Slice a span's response back to its descriptors: for each one, the
/// words it spans, taken from the response at its offset.
pub fn split_span(regs: &[Register], start: u16, words: &[u16]) -> (r: Vec<Vec<u16>>)
    requires
        forall|i: int| 0 <= i < regs@.len() ==> (#[trigger] regs@[i]).wf(),
        forall|i: int| 0 <= i < regs@.len() ==> start <= #[trigger] regs@[i].address,
        forall|i: int|
            0 <= i < regs@.len() ==> #[trigger] regs@[i].address + regs@[i].quantity <= start
                + words@.len(),
    ensures
        r@.len() == regs@.len(),
        forall|i: int|
            0 <= i < regs@.len() ==> #[trigger] r@[i]@ == words@.subrange(
                regs@[i].address - start,
                regs@[i].address - start + regs@[i].quantity,
            ),
{
    let mut chunks: Vec<Vec<u16>> = Vec::new();
    let mut k: usize = 0;
    while k < regs.len()
        invariant
            k <= regs@.len(),
            forall|i: int| 0 <= i < regs@.len() ==> (#[trigger] regs@[i]).wf(),
            forall|i: int| 0 <= i < regs@.len() ==> start <= #[trigger] regs@[i].address,
            forall|i: int|
                0 <= i < regs@.len() ==> #[trigger] regs@[i].address + regs@[i].quantity <= start
                    + words@.len(),
            chunks@.len() == k,
            forall|i: int|
                0 <= i < k ==> #[trigger] chunks@[i]@ == words@.subrange(
                    regs@[i].address - start,
                    regs@[i].address - start + regs@[i].quantity,
                ),
        decreases regs@.len() - k,
    {
        let off = (regs[k].address - start) as usize;
        let size = regs[k].quantity as usize;
        let mut chunk: Vec<u16> = Vec::new();
        let mut j: usize = 0;
        while j < size
            invariant
                j <= size,
                k < regs@.len(),
                off == regs@[k as int].address - start,
                size == regs@[k as int].quantity,
                off + size <= words@.len(),
                chunk@.len() == j,
                forall|i: int| 0 <= i < j ==> #[trigger] chunk@[i] == words@[off + i],
            decreases size - j,
        {
            chunk.push(words[off + j]);
            j = j + 1;
        }
        proof {
            assert(chunk@ =~= words@.subrange(
                regs@[k as int].address - start,
                regs@[k as int].address - start + regs@[k as int].quantity,
            ));
        }
        chunks.push(chunk);
        k = k + 1;
    }
    chunks
}

/// Decode each descriptor's slice of a coalesced read. Either every slice
/// decodes and each value is paired with its descriptor, or the whole
/// batch fails with the first conversion error: there are no partial
/// results.
pub fn decode_batch<'a>(regs: &'a [Register], chunks: &Vec<Vec<u16>>) -> (r: Result<
    Vec<RegValue<'a>>,
    RegisterError,
>)
    requires
        chunks@.len() == regs@.len(),
    ensures
        (r is Ok) == (forall|i: int|
            0 <= i < regs@.len() ==> #[trigger] chunks@[i]@.len() == regs@[i].quantity
                && convertible(regs@[i].typ, chunks@[i]@)),
        match r {
            Ok(vals) => {
                &&& vals@.len() == regs@.len()
                &&& forall|i: int|
                    0 <= i < regs@.len() ==> value_is_conversion(
                        (#[trigger] vals@[i]).val,
                        regs@[i].typ,
                        chunks@[i]@,
                    )
                &&& forall|i: int| 0 <= i < regs@.len() ==> (#[trigger] vals@[i]).reg == regs@[i]
            },
            Err(_) => true,
        },
{
    let mut vals: Vec<RegValue<'a>> = Vec::new();
    let mut k: usize = 0;
    while k < regs.len()
        invariant
            k <= regs@.len(),
            chunks@.len() == regs@.len(),
            vals@.len() == k,
            forall|i: int|
                0 <= i < k ==> #[trigger] chunks@[i]@.len() == regs@[i].quantity && convertible(
                    regs@[i].typ,
                    chunks@[i]@,
                ),
            forall|i: int|
                0 <= i < k ==> value_is_conversion(
                    (#[trigger] vals@[i]).val,
                    regs@[i].typ,
                    chunks@[i]@,
                ),
            forall|i: int| 0 <= i < k ==> (#[trigger] vals@[i]).reg == regs@[i],
        decreases regs@.len() - k,
    {
        let reg: &'a Register = &regs[k];
        match reg.decode(&chunks[k]) {
            Ok(v) => {
                vals.push(RegValue { reg, val: v });
            },
            Err(e) => {
                return Err(e);
            },
        }
        k = k + 1;
    }
    Ok(vals)
}

} // verus!
