//! Schema inference for one protocol buffer: typed field records, gap filling and
//! the per-direction recorder that assembles and flushes a trace.

use crate::ztl::zxarr::ZArray;
use crate::ztl::zxstr::ZXString8;
use core::marker::PhantomData;
use vstd::prelude::*;
use vstd::std_specs::convert::FromSpecImpl;
use vstd::std_specs::convert::IntoSpec;
use vstd::string::StringExecFns;

verus! {

/// Opaque identifier of the code location that produced a field event.
pub type CallSiteId = usize;

/// The closed set of field kinds. The number carried by `Buf` and `Str` is the
/// content length in bytes, without the length prefix.
#[derive(Debug, Clone, Copy, PartialEq, Eq, Structural)]
pub enum PacketStructTy {
    I8,
    I16,
    I32,
    Buf(u32),
    Str(u32),
}

impl PacketStructTy {
    /// Bytes that a field of this kind consumes in the buffer. Variable-length
    /// kinds are preceded by a two-byte length prefix.
    pub open spec fn spec_byte_len(self) -> nat {
        match self {
            PacketStructTy::I8 => 1,
            PacketStructTy::I16 => 2,
            PacketStructTy::I32 => 4,
            PacketStructTy::Buf(n) => n as nat + 2,
            PacketStructTy::Str(n) => n as nat + 2,
        }
    }
}

/// A one-byte value is observed as an `I8` field.
impl From<u8> for PacketStructTy {
    fn from(_value: u8) -> (ty: Self) {
        PacketStructTy::I8
    }
}

impl FromSpecImpl<u8> for PacketStructTy {
    open spec fn obeys_from_spec() -> bool {
        true
    }

    open spec fn from_spec(_value: u8) -> Self {
        PacketStructTy::I8
    }
}

/// A two-byte value is observed as an `I16` field.
impl From<u16> for PacketStructTy {
    fn from(_value: u16) -> (ty: Self) {
        PacketStructTy::I16
    }
}

impl FromSpecImpl<u16> for PacketStructTy {
    open spec fn obeys_from_spec() -> bool {
        true
    }

    open spec fn from_spec(_value: u16) -> Self {
        PacketStructTy::I16
    }
}

/// A four-byte value is observed as an `I32` field.
impl From<u32> for PacketStructTy {
    fn from(_value: u32) -> (ty: Self) {
        PacketStructTy::I32
    }
}

impl FromSpecImpl<u32> for PacketStructTy {
    open spec fn obeys_from_spec() -> bool {
        true
    }

    open spec fn from_spec(_value: u32) -> Self {
        PacketStructTy::I32
    }
}

/// A byte slice is observed as a `Buf` field of its length, cut to 32 bits.
impl<'a> From<&'a [u8]> for PacketStructTy {
    fn from(value: &'a [u8]) -> (ty: Self) {
        PacketStructTy::Buf(value.len() as u32)
    }
}

impl<'a> FromSpecImpl<&'a [u8]> for PacketStructTy {
    open spec fn obeys_from_spec() -> bool {
        true
    }

    open spec fn from_spec(value: &'a [u8]) -> Self {
        PacketStructTy::Buf(value@.len() as u32)
    }
}

/// A string is observed as a `Str` field of its length, cut to 32 bits.
impl<'a> From<&'a ZXString8> for PacketStructTy {
    fn from(value: &'a ZXString8) -> (ty: Self) {
        PacketStructTy::Str(value.len() as u32)
    }
}

impl<'a> FromSpecImpl<&'a ZXString8> for PacketStructTy {
    open spec fn obeys_from_spec() -> bool {
        true
    }

    open spec fn from_spec(value: &'a ZXString8) -> Self {
        PacketStructTy::Str(value@.len() as u32)
    }
}

/// One observed field, or a synthetic gap when `ret_address` is `None`.
#[derive(Debug, Clone, Copy, PartialEq, Eq, Structural)]
pub struct PacketStructElem {
    pub ret_address: Option<CallSiteId>,
    pub ty: PacketStructTy,
    pub offset: u64,
}

impl PacketStructElem {
    /// The record of a field of the kind that `ty` converts to, observed at
    /// `offset` on behalf of the call site `ret_addr`.
    pub fn new<T: Into<PacketStructTy>>(offset: u64, ret_addr: CallSiteId, ty: T) -> (elem: Self)
        ensures
            elem.offset == offset,
            elem.ret_address == Some(ret_addr),
            T::obeys_into_spec() ==> elem.ty == ty.into_spec(),
    {
        PacketStructElem { ret_address: Some(ret_addr), ty: ty.into(), offset }
    }

    /// Bytes that the field consumes in the buffer.
    pub open spec fn spec_byte_len(self) -> nat {
        self.ty.spec_byte_len()
    }

    /// Bytes that the field consumes in the buffer: 1, 2 and 4 for the
    /// fixed-width kinds, the content length and two for the others.
    pub fn byte_len(&self) -> (len: u64)
        ensures
            len == self.spec_byte_len(),
    {
        match self.ty {
            PacketStructTy::I8 => 1,
            PacketStructTy::I16 => 2,
            PacketStructTy::I32 => 4,
            PacketStructTy::Buf(ln) => ln as u64 + 2,
            PacketStructTy::Str(ln) => ln as u64 + 2,
        }
    }
}

/// Diagnostic for a field whose offset lies before the end of the last recorded
/// field. The field is recorded all the same.
#[derive(Debug, Clone, Copy, PartialEq, Eq, Structural)]
pub struct OutOfOrderOffset {
    pub offset: u64,
    pub last_known_offset: u64,
}

/// The field list reconstructed for one buffer instance.
#[derive(Debug)]
pub struct PacketStruct {
    elements: Vec<PacketStructElem>,
    send_ret_addr: Option<CallSiteId>,
    exception_ret_addr: Option<CallSiteId>,
    last_known_offset: u64,
}

/// A trace as a mathematical value.
pub struct PacketStructView {
    pub elements: Seq<PacketStructElem>,
    pub send_ret_addr: Option<CallSiteId>,
    pub exception_ret_addr: Option<CallSiteId>,
    pub last_known_offset: nat,
}

impl PacketStructElem {
    /// A gap record stands for bytes that no observed operation accounted for.
    pub open spec fn is_gap(self) -> bool {
        self.ret_address is None
    }

    /// The gap record for `len` unobserved bytes that start at `offset`.
    pub open spec fn spec_gap(offset: u64, len: u32) -> Self {
        PacketStructElem { ret_address: None, ty: PacketStructTy::Buf(len), offset }
    }

    /// First offset behind an observed field.
    pub open spec fn spec_end(self) -> nat {
        self.offset as nat + self.spec_byte_len()
    }

    /// Bytes of the buffer that a record stands for. An observed field covers
    /// what it consumes; a gap covers exactly the bytes it was made for, and
    /// has no length prefix of its own.
    pub open spec fn spec_extent(self) -> nat {
        match self.ty {
            PacketStructTy::Buf(n) if self.is_gap() => n as nat,
            _ => self.spec_byte_len(),
        }
    }
}

impl PacketStructView {
    /// The trace without records, at offset zero and without marks.
    pub open spec fn empty() -> Self {
        PacketStructView {
            elements: Seq::empty(),
            send_ret_addr: None,
            exception_ret_addr: None,
            last_known_offset: 0,
        }
    }

    /// Gap detection: where `offset` lies behind the end of the last field, a
    /// gap record covers the bytes in between.
    pub open spec fn handle_gap(self, offset: u64) -> Self {
        if offset > self.last_known_offset {
            PacketStructView {
                elements: self.elements.push(
                    PacketStructElem::spec_gap(
                        self.last_known_offset as u64,
                        (offset - self.last_known_offset) as u32,
                    ),
                ),
                last_known_offset: offset as nat,
                ..self
            }
        } else {
            self
        }
    }

    /// Appending one observed field.
    pub open spec fn add_elem(self, elem: PacketStructElem) -> Self {
        let filled = self.handle_gap(elem.offset);
        PacketStructView {
            elements: filled.elements.push(elem),
            last_known_offset: elem.spec_end(),
            ..filled
        }
    }
}

impl View for PacketStruct {
    type V = PacketStructView;

    closed spec fn view(&self) -> PacketStructView {
        PacketStructView {
            elements: self.elements@,
            send_ret_addr: self.send_ret_addr,
            exception_ret_addr: self.exception_ret_addr,
            last_known_offset: self.last_known_offset as nat,
        }
    }
}

impl Default for PacketStruct {
    /// The empty trace.
    fn default() -> (trace: Self)
        ensures
            trace@ == PacketStructView::empty(),
    {
        PacketStruct {
            elements: Vec::new(),
            send_ret_addr: None,
            exception_ret_addr: None,
            last_known_offset: 0,
        }
    }
}

impl PacketStruct {
    /// The empty trace of an outbound buffer that `send_ret_addr` transmits.
    pub fn new_send(send_ret_addr: CallSiteId) -> (trace: Self)
        ensures
            trace@ == (PacketStructView {
                send_ret_addr: Some(send_ret_addr),
                ..PacketStructView::empty()
            }),
    {
        PacketStruct {
            elements: Vec::new(),
            send_ret_addr: Some(send_ret_addr),
            exception_ret_addr: None,
            last_known_offset: 0,
        }
    }

    /// The empty trace of an inbound buffer.
    pub fn new_recv() -> (trace: Self)
        ensures
            trace@ == PacketStructView::empty(),
    {
        PacketStruct {
            elements: Vec::new(),
            send_ret_addr: None,
            exception_ret_addr: None,
            last_known_offset: 0,
        }
    }

    /// The trace with the given records and marks, as it is read back from
    /// where it was persisted.
    pub fn from_parts(
        elements: Vec<PacketStructElem>,
        send_ret_addr: Option<CallSiteId>,
        exception_ret_addr: Option<CallSiteId>,
        last_known_offset: u64,
    ) -> (trace: Self)
        ensures
            trace@ == (PacketStructView {
                elements: elements@,
                send_ret_addr,
                exception_ret_addr,
                last_known_offset: last_known_offset as nat,
            }),
    {
        PacketStruct { elements, send_ret_addr, exception_ret_addr, last_known_offset }
    }

    /// The records in the order in which they were made.
    pub fn elements(&self) -> (elements: &Vec<PacketStructElem>)
        ensures
            elements@ == self@.elements,
    {
        &self.elements
    }

    /// Site that transmitted the buffer, once it is known.
    pub fn send_ret_addr(&self) -> (site: Option<CallSiteId>)
        ensures
            site == self@.send_ret_addr,
    {
        self.send_ret_addr
    }

    /// Site at which the protocol operation failed, if it did.
    pub fn exception_ret_addr(&self) -> (site: Option<CallSiteId>)
        ensures
            site == self@.exception_ret_addr,
    {
        self.exception_ret_addr
    }

    /// End of the field that was appended last; zero for an empty trace.
    pub fn last_known_offset(&self) -> (offset: u64)
        ensures
            offset == self@.last_known_offset,
    {
        self.last_known_offset
    }

    /// Makes the gap record for the bytes between the end of the last field
    /// and `offset`, where there are any.
    fn handle_gap(&mut self, offset: u64)
        ensures
            final(self)@ == old(self)@.handle_gap(offset),
    {
        if offset > self.last_known_offset {
            let gap = offset - self.last_known_offset;
            self.elements.push(
                PacketStructElem {
                    ret_address: None,
                    ty: PacketStructTy::Buf(gap as u32),
                    offset: self.last_known_offset,
                },
            );
            self.last_known_offset = offset;
        }
    }

    /// Records one observed field, after a gap record where the field does not
    /// start at the end of the last one. A field that starts before that end is
    /// recorded as it came and reported.
    pub fn add_elem(&mut self, elem: PacketStructElem) -> (diagnostic: Option<OutOfOrderOffset>)
        requires
            elem.spec_end() <= u64::MAX,
        ensures
            final(self)@ == old(self)@.add_elem(elem),
            diagnostic == if elem.offset < old(self)@.last_known_offset {
                Some(
                    OutOfOrderOffset {
                        offset: elem.offset,
                        last_known_offset: old(self)@.last_known_offset as u64,
                    },
                )
            } else {
                None
            },
    {
        let diagnostic = if elem.offset < self.last_known_offset {
            Some(
                OutOfOrderOffset {
                    offset: elem.offset,
                    last_known_offset: self.last_known_offset,
                },
            )
        } else {
            None
        };
        self.handle_gap(elem.offset);
        self.last_known_offset = elem.offset + elem.byte_len();
        self.elements.push(elem);
        diagnostic
    }
}

/// A protocol buffer as the recorder sees it: a raw array and, in it, the
/// payload that starts at a fixed offset.
pub trait ShroomPacket {
    /// Offset of the payload in the raw array.
    spec fn spec_data_offset() -> usize;

    /// The raw array behind the packet.
    spec fn spec_raw_data(&self) -> ZArray<u8>;

    /// Length of the payload in bytes.
    spec fn spec_len(&self) -> usize;

    /// Position of the next field, counted from the start of the payload.
    spec fn spec_offset(&self) -> usize;

    /// Offset of the payload in the raw array.
    fn data_offset() -> (data_offset: usize)
        ensures
            data_offset == Self::spec_data_offset(),
    ;

    /// The raw array behind the packet.
    fn raw_data(&self) -> (raw: &ZArray<u8>)
        ensures
            *raw == self.spec_raw_data(),
    ;

    /// Length of the payload in bytes. The payload lies within the raw array.
    fn len(&self) -> (len: usize)
        ensures
            len == self.spec_len(),
            Self::spec_data_offset() + len <= self.spec_raw_data()@.len(),
    ;

    /// Position of the next field, counted from the start of the payload.
    fn offset(&self) -> (offset: usize)
        ensures
            offset == self.spec_offset(),
    ;

    /// The payload.
    fn data(&self) -> (data: &[u8])
        ensures
            data@ == self.spec_raw_data()@.subrange(
                Self::spec_data_offset() as int,
                Self::spec_data_offset() + self.spec_len(),
            ),
            Self::spec_data_offset() + self.spec_len() <= self.spec_raw_data()@.len(),
    {
        let start = Self::data_offset();
        let len = self.len();
        let raw = self.raw_data().data();
        proof {
            vstd::slice::axiom_spec_len(raw);
        }
        &raw[start..start + len]
    }

    /// The operation code: the first two bytes of the payload, little endian.
    fn opcode(&self) -> (opcode: u16)
        requires
            self.spec_len() >= 2,
        ensures
            opcode == self.spec_raw_data()@[Self::spec_data_offset() as int] + 256
                * self.spec_raw_data()@[Self::spec_data_offset() + 1],
    {
        let data = self.data();
        let lo: u16 = data[0] as u16;
        let hi: u16 = data[1] as u16;
        lo + 256 * hi
    }
}

/// What one flush hands to the persistence sink: the finished trace and, where
/// it was asked for and a buffer was at hand, the payload bytes.
#[derive(Debug)]
pub struct PacketStructLog<'a> {
    strct: PacketStruct,
    data: Option<&'a [u8]>,
}

/// A flushed record as a mathematical value.
pub struct PacketStructLogView {
    pub strct: PacketStructView,
    pub data: Option<Seq<u8>>,
}

impl<'a> View for PacketStructLog<'a> {
    type V = PacketStructLogView;

    closed spec fn view(&self) -> PacketStructLogView {
        PacketStructLogView {
            strct: self.strct@,
            data: match self.data {
                Some(bytes) => Some(bytes@),
                None => None,
            },
        }
    }
}

/// The payload bytes that go into a record. They are taken only where raw data
/// is wanted and the buffer reaches beyond `data_offset`; then they are the
/// `len` bytes that start there, `len` being the hint or, without one, the
/// length of the buffer. A range that the buffer does not hold gives nothing.
pub open spec fn spec_raw_slice(
    with_data: bool,
    data_offset: usize,
    size_hint: Option<usize>,
    buffer: Seq<u8>,
) -> Option<Seq<u8>> {
    let len = match size_hint {
        Some(hint) => hint as nat,
        None => buffer.len(),
    };
    if with_data && buffer.len() > data_offset && data_offset + len <= buffer.len() {
        Some(buffer.subrange(data_offset as int, data_offset + len))
    } else {
        None
    }
}

/// The payload bytes that go into a record.
pub fn raw_slice<'a>(
    with_data: bool,
    data_offset: usize,
    size_hint: Option<usize>,
    buffer: &'a [u8],
) -> (slice: Option<&'a [u8]>)
    ensures
        match slice {
            Some(bytes) => spec_raw_slice(with_data, data_offset, size_hint, buffer@) == Some(
                bytes@,
            ),
            None => spec_raw_slice(with_data, data_offset, size_hint, buffer@) is None,
        },
{
    let total = buffer.len();
    let len = match size_hint {
        Some(hint) => hint,
        None => total,
    };
    if with_data && total > data_offset && len <= total - data_offset {
        Some(&buffer[data_offset..data_offset + len])
    } else {
        None
    }
}

/// The text that is appended to the file for one record: the serialised
/// record, closed by a comma and a line feed. Each record stands on its own, so
/// that a reader can stop behind any separator.
pub fn frame_record(record: &str) -> (framed: String)
    ensures
        framed@ == record@ + ",\n"@,
{
    String::from_str(record).concat(",\n")
}

impl<'a> PacketStructLog<'a> {
    /// The record of a trace and of the payload bytes that go with it.
    pub fn new(strct: PacketStruct, data: Option<&'a [u8]>) -> (log: Self)
        ensures
            log@.strct == strct@,
            match data {
                Some(bytes) => log@.data == Some(bytes@),
                None => log@.data is None,
            },
    {
        PacketStructLog { strct, data }
    }

    /// The finished trace.
    pub fn strct(&self) -> (strct: &PacketStruct)
        ensures
            strct@ == self@.strct,
    {
        &self.strct
    }

    /// The payload bytes, where the record carries them.
    pub fn data(&self) -> (data: Option<&'a [u8]>)
        ensures
            match data {
                Some(bytes) => self@.data == Some(bytes@),
                None => self@.data is None,
            },
    {
        self.data
    }
}

/// The capture unit of one direction. It owns the trace in progress and knows
/// which live buffer the trace belongs to; it never owns or copies that buffer.
#[derive(Debug)]
pub struct PacketStructLogger<P> {
    data_ptr: usize,
    data_size_hint: Option<usize>,
    cur: PacketStruct,
    with_data: bool,
    _p: PhantomData<P>,
}

/// A recorder as a mathematical value.
pub struct PacketStructLoggerView {
    /// Address of the live buffer behind the trace in progress.
    pub buffer_ref: Option<usize>,
    /// Payload length that was observed together with the buffer.
    pub size_hint: Option<usize>,
    pub cur: PacketStructView,
    pub with_data: bool,
}

impl PacketStructLoggerView {
    /// The recorder without a trace in progress and without a buffer.
    pub open spec fn new(with_data: bool) -> Self {
        PacketStructLoggerView {
            buffer_ref: None,
            size_hint: None,
            cur: PacketStructView::empty(),
            with_data,
        }
    }

    /// The state after a flush: no trace in progress and no buffer.
    pub open spec fn reset(self) -> Self {
        Self::new(self.with_data)
    }

    /// The state after the buffer at `ptr`, with `len` payload bytes, has been
    /// made known. The null address is no buffer.
    pub open spec fn set_packet_data(self, ptr: usize, len: usize) -> Self {
        PacketStructLoggerView {
            buffer_ref: if ptr == 0 {
                None
            } else {
                Some(ptr)
            },
            size_hint: Some(len),
            ..self
        }
    }

    /// The state after one observed field has been recorded.
    pub open spec fn add_elem(self, elem: PacketStructElem) -> Self {
        PacketStructLoggerView { cur: self.cur.add_elem(elem), ..self }
    }

    /// The record that a flush of `strct` produces from the snapshot `data` of
    /// a buffer. The snapshot counts only if it is the buffer that the recorder
    /// refers to.
    pub open spec fn record(
        self,
        strct: PacketStructView,
        data_offset: usize,
        data: ZArray<u8>,
    ) -> PacketStructLogView {
        PacketStructLogView {
            strct,
            data: if self.buffer_ref == Some(data.spec_ptr()) {
                spec_raw_slice(self.with_data, data_offset, self.size_hint, data@)
            } else {
                None
            },
        }
    }
}

impl<P> View for PacketStructLogger<P> {
    type V = PacketStructLoggerView;

    closed spec fn view(&self) -> PacketStructLoggerView {
        PacketStructLoggerView {
            buffer_ref: if self.data_ptr == 0 {
                None
            } else {
                Some(self.data_ptr)
            },
            size_hint: self.data_size_hint,
            cur: self.cur@,
            with_data: self.with_data,
        }
    }
}

impl<P: ShroomPacket> PacketStructLogger<P> {
    /// A recorder with no trace in progress. `with_data` says whether flushed
    /// records carry the payload bytes.
    pub fn new(with_data: bool) -> (logger: Self)
        ensures
            logger@ == PacketStructLoggerView::new(with_data),
    {
        PacketStructLogger {
            cur: PacketStruct::default(),
            data_ptr: 0,
            data_size_hint: None,
            with_data,
            _p: PhantomData,
        }
    }

    /// The trace in progress.
    pub fn cur(&self) -> (cur: &PacketStruct)
        ensures
            cur@ == self@.cur,
    {
        &self.cur
    }

    /// Address of the live buffer behind the trace in progress.
    pub fn buffer_ref(&self) -> (buffer_ref: Option<usize>)
        ensures
            buffer_ref == self@.buffer_ref,
    {
        if self.data_ptr == 0 {
            None
        } else {
            Some(self.data_ptr)
        }
    }

    /// Payload length that was observed together with the buffer.
    pub fn data_size_hint(&self) -> (hint: Option<usize>)
        ensures
            hint == self@.size_hint,
    {
        self.data_size_hint
    }

    /// Whether flushed records carry the payload bytes.
    pub fn with_data(&self) -> (with_data: bool)
        ensures
            with_data == self@.with_data,
    {
        self.with_data
    }

    /// Drops the trace in progress and the buffer reference.
    pub fn clear(&mut self)
        ensures
            final(self)@ == old(self)@.reset(),
    {
        self.data_ptr = 0;
        self.data_size_hint = None;
        self.cur = PacketStruct::default();
    }

    /// Notes which live buffer backs the trace in progress. Nothing is copied.
    pub fn set_packet_data(&mut self, pkt_ptr: &P)
        ensures
            final(self)@ == old(self)@.set_packet_data(
                pkt_ptr.spec_raw_data().spec_ptr(),
                pkt_ptr.spec_len(),
            ),
    {
        self.data_ptr = pkt_ptr.raw_data().as_ptr();
        self.data_size_hint = Some(pkt_ptr.len());
    }

    /// Records one observed field in the trace in progress.
    pub fn add_elem(&mut self, elem: PacketStructElem) -> (diagnostic: Option<OutOfOrderOffset>)
        requires
            elem.spec_end() <= u64::MAX,
        ensures
            final(self)@ == old(self)@.add_elem(elem),
            diagnostic == if elem.offset < old(self)@.cur.last_known_offset {
                Some(
                    OutOfOrderOffset {
                        offset: elem.offset,
                        last_known_offset: old(self)@.cur.last_known_offset as u64,
                    },
                )
            } else {
                None
            },
    {
        self.cur.add_elem(elem)
    }

    /// Hands out the trace in progress with the payload bytes from `data`, and
    /// starts afresh. The trace is handed out as it stands: no gap record is
    /// made for bytes behind the last field.
    fn finish_inner<'a>(&mut self, data: &'a ZArray<u8>) -> (log: PacketStructLog<'a>)
        ensures
            log@ == old(self)@.record(old(self)@.cur, P::spec_data_offset(), *data),
            final(self)@ == old(self)@.reset(),
    {
        let mut strct = PacketStruct::default();
        core::mem::swap(&mut self.cur, &mut strct);
        let data = if self.data_ptr != 0 && data.as_ptr() == self.data_ptr {
            raw_slice(self.with_data, P::data_offset(), self.data_size_hint, data.data())
        } else {
            None
        };
        self.clear();
        PacketStructLog { strct, data }
    }

    /// Flushes the trace of an inbound buffer whose processing has ended: hands
    /// out the trace with the payload of `p`, where raw data is wanted, and
    /// starts afresh.
    pub fn finish_process<'a>(&mut self, p: &'a P) -> (log: PacketStructLog<'a>)
        ensures
            log@.strct == old(self)@.cur,
            log@.data == spec_raw_slice(
                old(self)@.with_data,
                P::spec_data_offset(),
                Some(p.spec_len()),
                p.spec_raw_data()@,
            ),
            final(self)@ == old(self)@.reset(),
    {
        proof {
            p.spec_raw_data().lemma_null_is_empty();
        }
        self.set_packet_data(p);
        self.finish_inner(p.raw_data())
    }

    /// Flushes a trace whose protocol operation failed. What was observed up to
    /// then is kept and tagged with the site of the failure. `data` is the
    /// snapshot of the buffer that the recorder refers to, or the null array.
    pub fn finish_incomplete<'a>(
        &mut self,
        exception_ret_addr: CallSiteId,
        data: &'a ZArray<u8>,
    ) -> (log: PacketStructLog<'a>)
        ensures
            log@ == old(self)@.record(
                PacketStructView {
                    exception_ret_addr: Some(exception_ret_addr),
                    ..old(self)@.cur
                },
                P::spec_data_offset(),
                *data,
            ),
            final(self)@ == old(self)@.reset(),
    {
        self.cur.exception_ret_addr = Some(exception_ret_addr);
        self.finish_inner(data)
    }

    /// Flushes the trace of an outbound buffer that is being transmitted: hands
    /// out the trace, marked with the transmitting site, with the payload of
    /// `p`, where raw data is wanted, and starts afresh.
    pub fn finish_send<'a>(&mut self, send_ret_addr: CallSiteId, p: &'a P) -> (log:
        PacketStructLog<'a>)
        ensures
            log@.strct == (PacketStructView {
                send_ret_addr: Some(send_ret_addr),
                ..old(self)@.cur
            }),
            log@.data == spec_raw_slice(
                old(self)@.with_data,
                P::spec_data_offset(),
                Some(p.spec_len()),
                p.spec_raw_data()@,
            ),
            final(self)@ == old(self)@.reset(),
    {
        proof {
            p.spec_raw_data().lemma_null_is_empty();
        }
        self.set_packet_data(p);
        self.cur.send_ret_addr = Some(send_ret_addr);
        self.finish_inner(p.raw_data())
    }
}

} // verus!
