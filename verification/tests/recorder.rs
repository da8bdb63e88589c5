use shroom_trace::packet_schema::{
    frame_record, raw_slice, OutOfOrderOffset, PacketStruct, PacketStructElem, PacketStructLogger,
    PacketStructTy, ShroomPacket,
};
use shroom_trace::socket::{CInPacket, COutPacket};
use shroom_trace::ztl::zxarr::{ZArray, ZArrayHeader};
use shroom_trace::ztl::zxstr::{ZXString8, ZXStringHeader};
use std::sync::Mutex;

fn array_at(ptr: usize, bytes: Vec<u8>) -> ZArray<u8> {
    let header =
        ZArrayHeader { ref_count: 1, cap: bytes.len() as i32, byte_len: bytes.len() as i32 };
    ZArray::from_parts(ptr, header, bytes).unwrap()
}

fn out_packet(bytes: Vec<u8>, written: u32) -> COutPacket {
    COutPacket::new(0, array_at(0x1000, bytes), written, 0).unwrap()
}

fn in_packet(bytes: Vec<u8>, read: u32) -> CInPacket {
    let len = bytes.len() as u16;
    CInPacket::new(0, 2, array_at(0x2000, bytes), len, 0, len - 4, read).unwrap()
}

fn field(offset: u64, site: usize, ty: PacketStructTy) -> PacketStructElem {
    PacketStructElem::new(offset, site, ty)
}

#[test]
fn byte_len_follows_the_rule_for_every_kind() {
    assert_eq!(field(0, 1, PacketStructTy::I8).byte_len(), 1);
    assert_eq!(field(0, 1, PacketStructTy::I16).byte_len(), 2);
    assert_eq!(field(0, 1, PacketStructTy::I32).byte_len(), 4);
    assert_eq!(field(0, 1, PacketStructTy::Buf(0)).byte_len(), 2);
    assert_eq!(field(0, 1, PacketStructTy::Str(0)).byte_len(), 2);
    assert_eq!(field(0, 1, PacketStructTy::Buf(10)).byte_len(), 12);
    assert_eq!(field(0, 1, PacketStructTy::Str(10)).byte_len(), 12);
    assert_eq!(field(0, 1, PacketStructTy::Buf(u32::MAX)).byte_len(), 4294967297);
    assert_eq!(field(0, 1, PacketStructTy::Str(u32::MAX)).byte_len(), 4294967297);
}

#[test]
fn kinds_come_from_the_observed_values() {
    assert_eq!(PacketStructTy::from(7u8), PacketStructTy::I8);
    assert_eq!(PacketStructTy::from(7u16), PacketStructTy::I16);
    assert_eq!(PacketStructTy::from(7u32), PacketStructTy::I32);
    let bytes: &[u8] = &[1, 2, 3, 4, 5];
    assert_eq!(PacketStructTy::from(bytes), PacketStructTy::Buf(5));
    let text = ZXString8::from_parts(
        ZXStringHeader { ref_count: 1, cap: 3, byte_len: 3 },
        vec![b'a', b'b', b'c'],
    )
    .unwrap();
    assert_eq!(PacketStructTy::from(&text), PacketStructTy::Str(3));
    let elem = PacketStructElem::new(9, 0x77, 5u16);
    assert_eq!(
        elem,
        PacketStructElem { ret_address: Some(0x77), ty: PacketStructTy::I16, offset: 9 }
    );
}

#[test]
fn new_traces_are_empty() {
    let send = PacketStruct::new_send(0xabc);
    assert_eq!(send.elements().len(), 0);
    assert_eq!(send.last_known_offset(), 0);
    assert_eq!(send.send_ret_addr(), Some(0xabc));
    assert_eq!(send.exception_ret_addr(), None);
    let recv = PacketStruct::new_recv();
    assert_eq!(recv.elements().len(), 0);
    assert_eq!(recv.last_known_offset(), 0);
    assert_eq!(recv.send_ret_addr(), None);
    assert_eq!(recv.exception_ret_addr(), None);
    let plain = PacketStruct::default();
    assert_eq!(plain.elements().len(), 0);
    assert_eq!(plain.last_known_offset(), 0);
}

#[test]
fn two_adjacent_fields_flush_without_gap() {
    let mut logger = PacketStructLogger::<COutPacket>::new(false);
    assert_eq!(logger.add_elem(field(0, 0x401000, PacketStructTy::I16)), None);
    assert_eq!(logger.add_elem(field(2, 0x401010, PacketStructTy::I32)), None);
    let pkt = out_packet(vec![1, 0, 2, 0, 0, 0], 6);
    let log = logger.finish_send(0x402000, &pkt);
    let trace = log.strct();
    assert_eq!(
        trace.elements().as_slice(),
        &[
            field(0, 0x401000, PacketStructTy::I16),
            field(2, 0x401010, PacketStructTy::I32),
        ]
    );
    assert_eq!(trace.last_known_offset(), 6);
    assert_eq!(trace.send_ret_addr(), Some(0x402000));
    assert_eq!(trace.exception_ret_addr(), None);
    assert_eq!(log.data(), None);
}

#[test]
fn skipped_bytes_become_a_gap_record() {
    let mut logger = PacketStructLogger::<CInPacket>::new(false);
    logger.add_elem(field(0, 11, PacketStructTy::I8));
    logger.add_elem(field(5, 12, PacketStructTy::I16));
    let pkt = in_packet(vec![0; 11], 11);
    let log = logger.finish_process(&pkt);
    let elems = log.strct().elements();
    assert_eq!(elems.len(), 3);
    assert_eq!(
        elems[0],
        PacketStructElem { ret_address: Some(11), ty: PacketStructTy::I8, offset: 0 }
    );
    assert_eq!(
        elems[1],
        PacketStructElem { ret_address: None, ty: PacketStructTy::Buf(4), offset: 1 }
    );
    assert_eq!(
        elems[2],
        PacketStructElem { ret_address: Some(12), ty: PacketStructTy::I16, offset: 5 }
    );
    assert_eq!(log.strct().last_known_offset(), 7);
    assert_eq!(log.strct().send_ret_addr(), None);
}

#[test]
fn string_consumes_content_and_prefix() {
    let mut trace = PacketStruct::new_recv();
    let s = field(0, 1, PacketStructTy::Str(3));
    assert_eq!(s.byte_len(), 5);
    assert_eq!(trace.add_elem(s), None);
    assert_eq!(trace.last_known_offset(), 5);
    assert_eq!(trace.add_elem(field(5, 2, PacketStructTy::I8)), None);
    assert_eq!(
        trace.elements().as_slice(),
        &[field(0, 1, PacketStructTy::Str(3)), field(5, 2, PacketStructTy::I8)]
    );
    assert_eq!(trace.last_known_offset(), 6);
}

#[test]
fn flush_without_buffer_reference_has_no_raw_data() {
    let mut logger = PacketStructLogger::<CInPacket>::new(true);
    logger.add_elem(field(0, 7, PacketStructTy::I32));
    assert_eq!(logger.buffer_ref(), None);
    let nothing = ZArray::empty();
    let log = logger.finish_incomplete(0x500, &nothing);
    assert_eq!(log.data(), None);
    assert_eq!(log.strct().elements().as_slice(), &[field(0, 7, PacketStructTy::I32)]);
    assert_eq!(log.strct().exception_ret_addr(), Some(0x500));
    assert_eq!(log.strct().last_known_offset(), 4);
}

#[test]
fn a_snapshot_of_another_buffer_is_not_used() {
    let mut logger = PacketStructLogger::<COutPacket>::new(true);
    logger.add_elem(field(0, 7, PacketStructTy::I8));
    let other = array_at(0x9000, vec![1, 2, 3]);
    let log = logger.finish_incomplete(0x500, &other);
    assert_eq!(log.data(), None);

    let pkt = out_packet(vec![1, 2, 3, 4], 2);
    logger.set_packet_data(&pkt);
    assert_eq!(logger.buffer_ref(), Some(0x1000));
    let log = logger.finish_incomplete(0x501, &other);
    assert_eq!(log.data(), None);
}

#[test]
fn aborted_flush_keeps_the_partial_trace_and_the_payload() {
    let mut logger = PacketStructLogger::<CInPacket>::new(true);
    let pkt = in_packet(vec![9, 9, 9, 9, 0x34, 0x12, 7], 4);
    logger.set_packet_data(&pkt);
    assert_eq!(logger.buffer_ref(), Some(0x2000));
    assert_eq!(logger.data_size_hint(), Some(3));
    logger.add_elem(field(0, 21, PacketStructTy::I16));
    let log = logger.finish_incomplete(0x600, pkt.raw_data());
    assert_eq!(log.data(), Some(&[0x34u8, 0x12, 7][..]));
    assert_eq!(log.strct().elements().as_slice(), &[field(0, 21, PacketStructTy::I16)]);
    assert_eq!(log.strct().exception_ret_addr(), Some(0x600));
    assert_eq!(log.strct().send_ret_addr(), None);
    assert_eq!(logger.buffer_ref(), None);
    assert_eq!(logger.data_size_hint(), None);
    assert_eq!(logger.cur().elements().len(), 0);
}

#[test]
fn outbound_flush_carries_the_written_bytes_only() {
    let mut logger = PacketStructLogger::<COutPacket>::new(true);
    logger.add_elem(field(0, 1, PacketStructTy::I16));
    logger.add_elem(field(2, 2, PacketStructTy::I8));
    let pkt = out_packet(vec![0x10, 0x20, 0x30, 0xee, 0xee, 0xee, 0xee, 0xee], 3);
    let log = logger.finish_send(0x700, &pkt);
    assert_eq!(log.data(), Some(&[0x10u8, 0x20, 0x30][..]));
    assert_eq!(log.strct().send_ret_addr(), Some(0x700));
}

#[test]
fn inbound_flush_carries_the_payload_behind_the_frame_header() {
    let mut logger = PacketStructLogger::<CInPacket>::new(true);
    let pkt = in_packet(vec![1, 2, 3, 4, 0xaa, 0xbb], 6);
    logger.set_packet_data(&pkt);
    logger.add_elem(field(0, 1, PacketStructTy::I16));
    let log = logger.finish_process(&pkt);
    assert_eq!(log.data(), Some(&[0xaau8, 0xbb][..]));
    assert_eq!(log.strct().send_ret_addr(), None);
}

#[test]
fn inbound_flush_of_a_bare_frame_header_has_no_raw_data() {
    let mut logger = PacketStructLogger::<CInPacket>::new(true);
    let pkt = in_packet(vec![1, 2, 3, 4], 4);
    let log = logger.finish_process(&pkt);
    assert_eq!(log.data(), None);
    assert_eq!(log.strct().elements().len(), 0);
}

#[test]
fn raw_data_is_left_out_unless_asked_for() {
    let mut logger = PacketStructLogger::<COutPacket>::new(false);
    assert!(!logger.with_data());
    let pkt = out_packet(vec![1, 2, 3], 3);
    let log = logger.finish_send(1, &pkt);
    assert_eq!(log.data(), None);
}

#[test]
fn raw_slice_is_bounded_by_offset_and_length() {
    let buffer = [0u8, 1, 2, 3, 4, 5, 6, 7];
    assert_eq!(raw_slice(true, 4, Some(2), &buffer), Some(&[4u8, 5][..]));
    assert_eq!(raw_slice(true, 0, Some(8), &buffer), Some(&buffer[..]));
    assert_eq!(raw_slice(true, 0, None, &buffer), Some(&buffer[..]));
    assert_eq!(raw_slice(true, 7, Some(0), &buffer), Some(&[][..]));
    assert_eq!(raw_slice(false, 4, Some(2), &buffer), None);
    assert_eq!(raw_slice(true, 8, Some(0), &buffer), None);
    assert_eq!(raw_slice(true, 4, Some(5), &buffer), None);
    assert_eq!(raw_slice(true, 4, None, &buffer), None);
    assert_eq!(raw_slice(true, 0, Some(usize::MAX), &buffer), None);
    assert_eq!(raw_slice(true, 0, Some(0), &[]), None);
}

#[test]
fn a_field_before_the_last_end_is_kept_and_reported() {
    let mut trace = PacketStruct::new_recv();
    assert_eq!(trace.add_elem(field(0, 1, PacketStructTy::I32)), None);
    let diagnostic = trace.add_elem(field(2, 2, PacketStructTy::I8));
    assert_eq!(diagnostic, Some(OutOfOrderOffset { offset: 2, last_known_offset: 4 }));
    assert_eq!(
        trace.elements().as_slice(),
        &[field(0, 1, PacketStructTy::I32), field(2, 2, PacketStructTy::I8)]
    );
    assert_eq!(trace.last_known_offset(), 3);
    assert_eq!(trace.add_elem(field(3, 3, PacketStructTy::I8)), None);
    assert_eq!(trace.elements().len(), 3);
}

#[test]
fn a_field_at_the_last_known_offset_makes_no_gap() {
    let mut trace = PacketStruct::new_recv();
    trace.add_elem(field(3, 1, PacketStructTy::Buf(6)));
    let before = trace.elements().len();
    let at = trace.last_known_offset();
    assert_eq!(at, 11);
    trace.add_elem(field(at, 2, PacketStructTy::I8));
    assert_eq!(trace.elements().len(), before + 1);
    assert_eq!(trace.elements()[before], field(11, 2, PacketStructTy::I8));
}

#[test]
fn a_first_field_behind_the_start_is_preceded_by_a_gap() {
    let mut trace = PacketStruct::new_send(1);
    trace.add_elem(field(3, 5, PacketStructTy::I8));
    assert_eq!(
        trace.elements().as_slice(),
        &[
            PacketStructElem { ret_address: None, ty: PacketStructTy::Buf(3), offset: 0 },
            field(3, 5, PacketStructTy::I8),
        ]
    );
    assert_eq!(trace.last_known_offset(), 4);
}

#[test]
fn a_gap_longer_than_a_gap_record_holds_is_cut_to_32_bits() {
    let mut trace = PacketStruct::new_recv();
    trace.add_elem(field(0x1_0000_0005, 5, PacketStructTy::I8));
    assert_eq!(
        trace.elements()[0],
        PacketStructElem { ret_address: None, ty: PacketStructTy::Buf(5), offset: 0 }
    );
    assert_eq!(trace.last_known_offset(), 0x1_0000_0006);
}

#[test]
fn records_cover_the_buffer_when_gaps_count_as_their_length() {
    let mut trace = PacketStruct::new_recv();
    let fields = [
        field(2, 1, PacketStructTy::I16),
        field(4, 2, PacketStructTy::Str(3)),
        field(20, 3, PacketStructTy::I32),
        field(24, 4, PacketStructTy::Buf(0)),
        field(30, 5, PacketStructTy::I8),
    ];
    for f in fields {
        assert_eq!(trace.add_elem(f), None);
    }
    let elems = trace.elements();
    assert_eq!(elems.len(), 8);
    let extent = |e: &PacketStructElem| match (e.ret_address, e.ty) {
        (None, PacketStructTy::Buf(n)) => n as u64,
        _ => e.byte_len(),
    };
    assert_eq!(elems[0].offset, 0);
    for pair in elems.windows(2) {
        assert_eq!(pair[0].offset + extent(&pair[0]), pair[1].offset);
    }
    let total: u64 = elems.iter().map(extent).sum();
    assert_eq!(total, 31);
    assert_eq!(trace.last_known_offset(), 31);
}

#[test]
fn back_to_back_fields_add_up_to_the_last_end() {
    let mut trace = PacketStruct::new_recv();
    let fields = [
        field(0, 1, PacketStructTy::I16),
        field(2, 2, PacketStructTy::Str(3)),
        field(7, 3, PacketStructTy::I32),
        field(11, 4, PacketStructTy::Buf(1)),
    ];
    for f in fields {
        trace.add_elem(f);
    }
    assert_eq!(trace.elements().as_slice(), &fields);
    let total: u64 = trace.elements().iter().map(|e| e.byte_len()).sum();
    assert_eq!(trace.elements()[0].offset + total, 14);
    assert_eq!(trace.last_known_offset(), 14);
    for pair in trace.elements().windows(2) {
        assert_eq!(pair[0].offset + pair[0].byte_len(), pair[1].offset);
    }
}

#[test]
fn observed_fields_keep_the_order_of_the_calls() {
    let calls = [
        field(4, 1, PacketStructTy::I8),
        field(9, 2, PacketStructTy::I16),
        field(2, 3, PacketStructTy::I32),
        field(6, 4, PacketStructTy::Buf(2)),
        field(100, 5, PacketStructTy::Str(1)),
    ];
    let mut logger = PacketStructLogger::<COutPacket>::new(false);
    for f in calls {
        logger.add_elem(f);
    }
    let pkt = out_packet(vec![], 0);
    let log = logger.finish_send(9, &pkt);
    let observed: Vec<PacketStructElem> =
        log.strct().elements().iter().filter(|e| e.ret_address.is_some()).copied().collect();
    assert_eq!(observed.as_slice(), &calls);
    assert_eq!(log.strct().elements().len(), 8);
}

#[test]
fn a_flush_leaves_a_fresh_recorder() {
    let mut logger = PacketStructLogger::<COutPacket>::new(true);
    let pkt = out_packet(vec![1, 2, 3, 4], 4);
    logger.add_elem(field(0, 1, PacketStructTy::I32));
    let first = logger.finish_send(1, &pkt);
    assert_eq!(first.strct().elements().len(), 1);
    assert_eq!(logger.cur().elements().len(), 0);
    assert_eq!(logger.cur().last_known_offset(), 0);
    assert_eq!(logger.cur().send_ret_addr(), None);
    assert_eq!(logger.buffer_ref(), None);
    assert_eq!(logger.data_size_hint(), None);
    assert!(logger.with_data());

    let nothing = ZArray::empty();
    let empty = logger.finish_incomplete(2, &nothing);
    assert_eq!(empty.strct().elements().len(), 0);
    assert_eq!(logger.cur().elements().len(), 0);
    assert_eq!(logger.cur().last_known_offset(), 0);

    logger.add_elem(field(0, 3, PacketStructTy::I8));
    assert_eq!(logger.cur().elements().as_slice(), &[field(0, 3, PacketStructTy::I8)]);
    assert_eq!(logger.cur().last_known_offset(), 1);
}

#[test]
fn clear_drops_trace_and_buffer_reference() {
    let mut logger = PacketStructLogger::<COutPacket>::new(false);
    let pkt = out_packet(vec![1, 2], 1);
    logger.set_packet_data(&pkt);
    logger.add_elem(field(0, 1, PacketStructTy::I8));
    logger.clear();
    assert_eq!(logger.buffer_ref(), None);
    assert_eq!(logger.data_size_hint(), None);
    assert_eq!(logger.cur().elements().len(), 0);
    assert_eq!(logger.cur().last_known_offset(), 0);
}

#[test]
fn a_null_buffer_is_no_buffer_reference() {
    let mut logger = PacketStructLogger::<COutPacket>::new(true);
    let pkt = COutPacket::new(0, ZArray::empty(), 0, 0).unwrap();
    logger.set_packet_data(&pkt);
    assert_eq!(logger.buffer_ref(), None);
    assert_eq!(logger.data_size_hint(), Some(0));
    let log = logger.finish_send(1, &pkt);
    assert_eq!(log.data(), None);
}

#[test]
fn packets_report_payload_offset_and_opcode() {
    let out = out_packet(vec![0x34, 0x12, 9, 9, 9], 3);
    assert_eq!(COutPacket::data_offset(), 0);
    assert_eq!(out.len(), 3);
    assert_eq!(out.offset(), 3);
    assert_eq!(out.data(), &[0x34, 0x12, 9]);
    assert_eq!(out.opcode(), 0x1234);
    assert_eq!(out.raw_data().len(), 5);

    let inp = in_packet(vec![0, 0, 0, 0, 0xff, 0x01, 5], 6);
    assert_eq!(CInPacket::data_offset(), 4);
    assert_eq!(inp.len(), 3);
    assert_eq!(inp.offset(), 2);
    assert_eq!(inp.data(), &[0xff, 0x01, 5]);
    assert_eq!(inp.opcode(), 0x01ff);
}

#[test]
fn packets_that_do_not_fit_their_buffer_are_refused() {
    assert!(COutPacket::new(0, array_at(0x10, vec![1, 2]), 3, 0).is_none());
    assert!(COutPacket::new(0, array_at(0x10, vec![1, 2]), 2, 0).is_some());
    assert!(COutPacket::new(0, ZArray::empty(), 1, 0).is_none());
    assert!(CInPacket::new(0, 0, array_at(0x10, vec![1, 2, 3]), 3, 0, 0, 4).is_none());
    assert!(CInPacket::new(0, 0, array_at(0x10, vec![1, 2, 3, 4]), 4, 0, 0, 3).is_none());
    assert!(CInPacket::new(0, 0, array_at(0x10, vec![1, 2, 3, 4]), 4, 0, 0, 4).is_some());
}

#[test]
fn interleaved_callers_are_recorded_in_the_order_of_the_lock() {
    let logger = Mutex::new(PacketStructLogger::<COutPacket>::new(false));
    let turns = [0usize, 1, 1, 0, 1, 0, 0, 0, 1, 1, 0, 1];
    let mut next_step = [0u64, 0];
    let mut order = Vec::new();
    for caller in turns {
        let step = next_step[caller];
        next_step[caller] += 1;
        let elem = field(step * 4, caller * 1000 + step as usize, PacketStructTy::I32);
        let mut guard = logger.lock().unwrap();
        guard.add_elem(elem);
        order.push(elem);
    }
    let mut logger = logger.lock().unwrap();
    let pkt = out_packet(vec![], 0);
    let log = logger.finish_send(1, &pkt);
    let observed: Vec<PacketStructElem> =
        log.strct().elements().iter().filter(|e| e.ret_address.is_some()).copied().collect();
    assert_eq!(observed.len(), 12);
    assert_eq!(observed, order);
    for caller in 0..2usize {
        let own: Vec<usize> = observed
            .iter()
            .filter_map(|e| e.ret_address)
            .filter(|site| site / 1000 == caller)
            .collect();
        let expected: Vec<usize> = (0..6).map(|step| caller * 1000 + step).collect();
        assert_eq!(own, expected);
    }
}

#[test]
fn a_record_is_closed_by_its_separator() {
    assert_eq!(frame_record("{\"strct\":{}}"), "{\"strct\":{}},\n");
    assert_eq!(frame_record(""), ",\n");
}
