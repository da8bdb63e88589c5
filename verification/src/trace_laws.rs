//! What holds of every trace that the recorder can build, stated over the
//! mathematical values of traces and recorders.

use crate::packet_schema::PacketStructElem;
use crate::packet_schema::PacketStructLoggerView;
use crate::packet_schema::PacketStructTy;
use crate::packet_schema::PacketStructView;
use crate::packet_schema::spec_raw_slice;
use crate::ztl::zxarr::ZArray;
use vstd::prelude::*;

verus! {

/// The observed fields of a field list, in their order: what is left when the
/// gap records are taken out.
pub open spec fn observed(elements: Seq<PacketStructElem>) -> Seq<PacketStructElem>
    decreases elements.len(),
{
    if elements.len() == 0 {
        Seq::empty()
    } else if elements.last().is_gap() {
        observed(elements.drop_last())
    } else {
        observed(elements.drop_last()).push(elements.last())
    }
}

/// Sum of the consumed bytes of all records.
pub open spec fn total_byte_len(elements: Seq<PacketStructElem>) -> nat
    decreases elements.len(),
{
    if elements.len() == 0 {
        0
    } else {
        total_byte_len(elements.drop_last()) + elements.last().spec_byte_len()
    }
}

/// Sum of the bytes that the records stand for.
pub open spec fn total_extent(elements: Seq<PacketStructElem>) -> nat
    decreases elements.len(),
{
    if elements.len() == 0 {
        0
    } else {
        total_extent(elements.drop_last()) + elements.last().spec_extent()
    }
}

/// Each record ends where the next one starts, an end being the offset plus the
/// consumed bytes.
pub open spec fn contiguous_by_byte_len(elements: Seq<PacketStructElem>) -> bool {
    forall|i: int|
        0 <= i < elements.len() - 1 ==> #[trigger] elements[i].spec_end() == elements[i
            + 1].offset
}

/// Each record ends where the next one starts, an end being the offset plus the
/// bytes that the record stands for.
pub open spec fn contiguous_by_extent(elements: Seq<PacketStructElem>) -> bool {
    forall|i: int|
        0 <= i < elements.len() - 1 ==> (#[trigger] elements[i]).offset
            + elements[i].spec_extent() == elements[i + 1].offset
}

impl PacketStructView {
    /// The trace after the fields of `elems` have been appended one by one.
    pub open spec fn replay(self, elems: Seq<PacketStructElem>) -> Self
        decreases elems.len(),
    {
        if elems.len() == 0 {
            self
        } else {
            self.replay(elems.drop_last()).add_elem(elems.last())
        }
    }

    /// The records cover the buffer from its start up to the last known offset
    /// without hole or overlap.
    pub open spec fn covers(self) -> bool {
        &&& self.last_known_offset <= u64::MAX
        &&& if self.elements.len() == 0 {
            self.last_known_offset == 0
        } else {
            &&& self.elements[0].offset == 0
            &&& self.elements.last().offset + self.elements.last().spec_extent()
                == self.last_known_offset
        }
        &&& contiguous_by_extent(self.elements)
        &&& total_extent(self.elements) == self.last_known_offset
        &&& forall|i: int|
            0 <= i < self.elements.len() ==> (#[trigger] self.elements[i]).spec_extent() >= 1
    }

    /// An observed field that can follow the trace without overlap, with a gap
    /// that a gap record can hold and an end that an offset can hold.
    pub open spec fn accepts(self, elem: PacketStructElem) -> bool {
        &&& !elem.is_gap()
        &&& self.last_known_offset <= elem.offset
        &&& elem.offset - self.last_known_offset <= u32::MAX
        &&& elem.spec_end() <= u64::MAX
    }

    /// Every field of `elems` can follow what came before it.
    pub open spec fn accepts_all(self, elems: Seq<PacketStructElem>) -> bool
        decreases elems.len(),
    {
        elems.len() == 0 || (self.accepts_all(elems.drop_last()) && self.replay(
            elems.drop_last(),
        ).accepts(elems.last()))
    }
}

impl PacketStructLoggerView {
    /// The recorder after the fields of `elems` have been recorded one by one.
    pub open spec fn replay(self, elems: Seq<PacketStructElem>) -> Self
        decreases elems.len(),
    {
        if elems.len() == 0 {
            self
        } else {
            self.replay(elems.drop_last()).add_elem(elems.last())
        }
    }
}

/// Fields of which the first starts at offset zero and each other one where
/// the one before it ends.
pub open spec fn back_to_back(elems: Seq<PacketStructElem>) -> bool {
    &&& elems.len() > 0 ==> elems[0].offset == 0
    &&& contiguous_by_byte_len(elems)
}

/// The offsets rise from record to record, and no record reaches into the
/// next one.
pub open spec fn strictly_ordered(elements: Seq<PacketStructElem>) -> bool {
    forall|i: int, j: int|
        0 <= i < j < elements.len() ==> (#[trigger] elements[i]).offset < (
        #[trigger] elements[j]).offset && elements[i].offset + elements[i].spec_extent()
            <= elements[j].offset
}

/// Byte-length rule: fixed-width kinds consume 1, 2 and 4 bytes, the two
/// variable-length kinds their content and a two-byte length prefix.
pub proof fn lemma_byte_len_rule(n: u32)
    ensures
        PacketStructTy::I8.spec_byte_len() == 1,
        PacketStructTy::I16.spec_byte_len() == 2,
        PacketStructTy::I32.spec_byte_len() == 4,
        PacketStructTy::Buf(n).spec_byte_len() == n + 2,
        PacketStructTy::Str(n).spec_byte_len() == n + 2,
        PacketStructTy::Buf(n).spec_byte_len() == PacketStructTy::Str(n).spec_byte_len(),
{
}

/// A record appended to a field list is filtered like the others.
pub proof fn lemma_observed_push(elements: Seq<PacketStructElem>, elem: PacketStructElem)
    ensures
        observed(elements.push(elem)) == if elem.is_gap() {
            observed(elements)
        } else {
            observed(elements).push(elem)
        },
{
    assert(elements.push(elem).drop_last() =~= elements);
}

/// Appending an observed field adds it behind the observed fields that were
/// there, whether or not a gap record comes with it.
pub proof fn lemma_add_elem_observed(trace: PacketStructView, elem: PacketStructElem)
    requires
        !elem.is_gap(),
    ensures
        observed(trace.add_elem(elem).elements) == observed(trace.elements).push(elem),
{
    let filled = trace.handle_gap(elem.offset);
    if elem.offset > trace.last_known_offset {
        let gap = PacketStructElem::spec_gap(
            trace.last_known_offset as u64,
            (elem.offset - trace.last_known_offset) as u32,
        );
        lemma_observed_push(trace.elements, gap);
    }
    lemma_observed_push(filled.elements, elem);
}

/// Order preservation: however gap records are interleaved, the observed fields
/// of a trace are the appended fields in the order of the calls.
pub proof fn lemma_order_preserved(trace: PacketStructView, elems: Seq<PacketStructElem>)
    requires
        forall|i: int| 0 <= i < elems.len() ==> !(#[trigger] elems[i]).is_gap(),
    ensures
        observed(trace.replay(elems).elements) == observed(trace.elements) + elems,
        trace == PacketStructView::empty() ==> observed(trace.replay(elems).elements) == elems,
    decreases elems.len(),
{
    if elems.len() == 0 {
        assert(observed(trace.elements) + elems =~= observed(trace.elements));
    } else {
        let front = elems.drop_last();
        lemma_order_preserved(trace, front);
        lemma_add_elem_observed(trace.replay(front), elems.last());
        assert((observed(trace.elements) + front).push(elems.last()) =~= observed(trace.elements)
            + elems);
    }
    assert(Seq::<PacketStructElem>::empty() + elems =~= elems);
}

/// A recorder replays fields into its trace in progress and keeps the rest of
/// its state.
pub proof fn lemma_logger_replay(logger: PacketStructLoggerView, elems: Seq<PacketStructElem>)
    ensures
        logger.replay(elems) == (PacketStructLoggerView {
            cur: logger.cur.replay(elems),
            ..logger
        }),
    decreases elems.len(),
{
    if elems.len() > 0 {
        lemma_logger_replay(logger, elems.drop_last());
    }
}

/// Order preservation up to the persisted record: the record that a flush
/// hands out after a fresh recorder has recorded `elems` lists exactly these
/// fields, in the order of the calls, between its gap records, whatever buffer
/// the flush is given.
pub proof fn lemma_persisted_order(
    with_data: bool,
    elems: Seq<PacketStructElem>,
    data_offset: usize,
    data: ZArray<u8>,
)
    requires
        forall|i: int| 0 <= i < elems.len() ==> !(#[trigger] elems[i]).is_gap(),
    ensures
        ({
            let logger = PacketStructLoggerView::new(with_data).replay(elems);
            observed(logger.record(logger.cur, data_offset, data).strct.elements) == elems
        }),
{
    lemma_logger_replay(PacketStructLoggerView::new(with_data), elems);
    lemma_order_preserved(PacketStructView::empty(), elems);
}

/// No-gap case: a field that starts at the last known offset is appended
/// alone; no gap record is made for it.
pub proof fn lemma_no_gap_at_last_known_offset(trace: PacketStructView, elem: PacketStructElem)
    requires
        elem.offset == trace.last_known_offset,
    ensures
        trace.add_elem(elem).elements == trace.elements.push(elem),
        trace.add_elem(elem).last_known_offset == elem.spec_end(),
{
}

/// The last known offset is the end of the field that was appended last.
pub proof fn lemma_last_known_offset(trace: PacketStructView, elem: PacketStructElem)
    ensures
        trace.add_elem(elem).elements.last() == elem,
        trace.add_elem(elem).last_known_offset == elem.offset + elem.spec_byte_len(),
{
}

/// A record that starts where the last one ends keeps a field list contiguous
/// and adds the bytes it stands for to the total.
proof fn lemma_push_record(elements: Seq<PacketStructElem>, record: PacketStructElem)
    requires
        contiguous_by_extent(elements),
        elements.len() > 0 ==> elements.last().offset + elements.last().spec_extent()
            == record.offset,
    ensures
        contiguous_by_extent(elements.push(record)),
        total_extent(elements.push(record)) == total_extent(elements) + record.spec_extent(),
{
    let pushed = elements.push(record);
    assert(pushed.drop_last() =~= elements);
    assert forall|i: int| 0 <= i < pushed.len() - 1 implies (#[trigger] pushed[i]).offset
        + pushed[i].spec_extent() == pushed[i + 1].offset by {
        if i < elements.len() - 1 {
            assert(elements[i].offset + elements[i].spec_extent() == elements[i + 1].offset);
        }
    }
}

/// One field that the trace accepts keeps the trace covering the buffer from
/// its start to the end of that field.
pub proof fn lemma_add_elem_covers(trace: PacketStructView, elem: PacketStructElem)
    requires
        trace.covers(),
        trace.accepts(elem),
    ensures
        trace.add_elem(elem).covers(),
{
    let filled = trace.handle_gap(elem.offset);
    if elem.offset > trace.last_known_offset {
        let gap = PacketStructElem::spec_gap(
            trace.last_known_offset as u64,
            (elem.offset - trace.last_known_offset) as u32,
        );
        lemma_push_record(trace.elements, gap);
    }
    lemma_push_record(filled.elements, elem);
}

/// Records that cover the buffer are strictly ordered by offset and do not
/// overlap.
pub proof fn lemma_covers_strictly_ordered(trace: PacketStructView)
    requires
        trace.covers(),
    ensures
        strictly_ordered(trace.elements),
{
    assert forall|i: int, j: int| 0 <= i < j < trace.elements.len() implies (
    #[trigger] trace.elements[i]).offset < (#[trigger] trace.elements[j]).offset
        && trace.elements[i].offset + trace.elements[i].spec_extent()
        <= trace.elements[j].offset by {
        lemma_later_record_starts_behind(trace.elements, i, j);
    }
}

proof fn lemma_later_record_starts_behind(elements: Seq<PacketStructElem>, i: int, j: int)
    requires
        contiguous_by_extent(elements),
        forall|k: int| 0 <= k < elements.len() ==> (#[trigger] elements[k]).spec_extent() >= 1,
        0 <= i < j < elements.len(),
    ensures
        elements[i].offset + elements[i].spec_extent() <= elements[j].offset,
        elements[i].offset < elements[j].offset,
    decreases j - i,
{
    assert(elements[j - 1].offset + elements[j - 1].spec_extent() == elements[j].offset);
    if i < j - 1 {
        lemma_later_record_starts_behind(elements, i, j - 1);
    }
}

/// Gap invariant: after any sequence of appends in which no field starts before
/// the end of the one before it, the records, gap records included, cover the
/// buffer from offset zero to the end of the last field: each record ends where
/// the next one starts, the offsets rise strictly, and the bytes they stand for
/// add up to the last known offset.
pub proof fn lemma_replay_covers(elems: Seq<PacketStructElem>)
    requires
        PacketStructView::empty().accepts_all(elems),
    ensures
        PacketStructView::empty().replay(elems).covers(),
        strictly_ordered(PacketStructView::empty().replay(elems).elements),
    decreases elems.len(),
{
    if elems.len() > 0 {
        lemma_replay_covers(elems.drop_last());
        lemma_add_elem_covers(PacketStructView::empty().replay(elems.drop_last()), elems.last());
    }
    lemma_covers_strictly_ordered(PacketStructView::empty().replay(elems));
}

/// Back-to-back fields stay back to back when the last one is left out, and
/// the last one starts where the one before it ends.
proof fn lemma_back_to_back_front(elems: Seq<PacketStructElem>)
    requires
        back_to_back(elems),
        elems.len() > 0,
    ensures
        back_to_back(elems.drop_last()),
        elems.len() > 1 ==> elems.drop_last().last().spec_end() == elems.last().offset,
        elems.len() == 1 ==> elems.last().offset == 0,
{
    let front = elems.drop_last();
    assert forall|i: int| 0 <= i < front.len() - 1 implies #[trigger] front[i].spec_end()
        == front[i + 1].offset by {
        assert(elems[i].spec_end() == elems[i + 1].offset);
    }
    if elems.len() > 1 {
        assert(elems[elems.len() - 2].spec_end() == elems[elems.len() - 1].offset);
    }
}

/// Fields that follow one another back to back are recorded as they are: no
/// gap record is made.
pub proof fn lemma_back_to_back_replay(elems: Seq<PacketStructElem>)
    requires
        back_to_back(elems),
    ensures
        PacketStructView::empty().replay(elems).elements == elems,
        PacketStructView::empty().replay(elems).last_known_offset == if elems.len() == 0 {
            0
        } else {
            elems.last().spec_end()
        },
    decreases elems.len(),
{
    if elems.len() > 0 {
        lemma_back_to_back_front(elems);
        lemma_back_to_back_replay(elems.drop_last());
        assert(elems.drop_last().push(elems.last()) =~= elems);
    }
}

/// The consumed bytes of back-to-back fields add up to the end of the last one.
pub proof fn lemma_back_to_back_total(elems: Seq<PacketStructElem>)
    requires
        back_to_back(elems),
        elems.len() > 0,
    ensures
        total_byte_len(elems) == elems.last().spec_end(),
    decreases elems.len(),
{
    lemma_back_to_back_front(elems);
    if elems.len() > 1 {
        lemma_back_to_back_total(elems.drop_last());
    } else {
        assert(total_byte_len(elems.drop_last()) == 0);
    }
}

/// Gap invariant for fields that follow one another back to back, from offset
/// zero: the field list is the appended fields, each field ends where the next
/// one starts, and the consumed bytes of all fields, counted from the first
/// field's offset, add up to the end of the last field, which is the last known
/// offset.
pub proof fn lemma_gap_invariant(elems: Seq<PacketStructElem>)
    requires
        back_to_back(elems),
        elems.len() > 0,
    ensures
        ({
            let trace = PacketStructView::empty().replay(elems);
            &&& trace.elements == elems
            &&& contiguous_by_byte_len(trace.elements)
            &&& trace.elements[0].offset + total_byte_len(trace.elements)
                == trace.elements.last().spec_end()
            &&& trace.last_known_offset == trace.elements.last().spec_end()
        }),
{
    lemma_back_to_back_replay(elems);
    lemma_back_to_back_total(elems);
}

/// Idempotent flush: the state after a flush has no trace in progress and no
/// buffer, a second flush changes nothing, and the next field starts a fresh
/// trace from offset zero.
pub proof fn lemma_flush_resets(logger: PacketStructLoggerView, elem: PacketStructElem)
    ensures
        logger.reset().cur.elements == Seq::<PacketStructElem>::empty(),
        logger.reset().cur.last_known_offset == 0,
        logger.reset().buffer_ref is None,
        logger.reset().reset() == logger.reset(),
        logger.reset().add_elem(elem).cur == PacketStructView::empty().add_elem(elem),
{
}

/// Without a buffer reference a flush hands out the trace alone: the record
/// carries no payload bytes, whatever buffer the flush is given, and the trace
/// is the one that was in progress.
pub proof fn lemma_missing_buffer_reference(
    logger: PacketStructLoggerView,
    data_offset: usize,
    data: ZArray<u8>,
)
    requires
        logger.buffer_ref is None,
    ensures
        logger.record(logger.cur, data_offset, data).data is None,
        logger.record(logger.cur, data_offset, data).strct == logger.cur,
{
}

/// The payload bytes of a record are bounded: they are taken only where raw
/// data is wanted, they start at the payload offset, and there are exactly as
/// many of them as the length hint says, all within the buffer.
pub proof fn lemma_raw_slice_bounded(
    with_data: bool,
    data_offset: usize,
    size_hint: usize,
    buffer: Seq<u8>,
)
    ensures
        match spec_raw_slice(with_data, data_offset, Some(size_hint), buffer) {
            Some(bytes) => {
                &&& with_data
                &&& bytes.len() == size_hint
                &&& data_offset + size_hint <= buffer.len()
                &&& forall|i: int| 0 <= i < size_hint ==> bytes[i] == buffer[data_offset + i]
            },
            None => !with_data || buffer.len() <= data_offset || data_offset + size_hint
                > buffer.len(),
        },
{
}

} // verus!
