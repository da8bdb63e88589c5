//! The two packet types of the protocol as the recorder sees them: the outbound
//! packet under construction and the inbound packet being decoded.

use crate::packet_schema::ShroomPacket;
use crate::ztl::zxarr::ZArray;
use vstd::prelude::*;

verus! {

/// An outbound packet: a send buffer and the number of bytes written so far.
#[derive(Debug)]
pub struct COutPacket {
    is_loopback: i32,
    send_buf: ZArray<u8>,
    offset: u32,
    is_encrypted_by_shanda: i32,
}

/// An inbound packet: a receive buffer, whose first four bytes are the frame
/// header, and the position up to which it has been decoded.
#[derive(Debug)]
pub struct CInPacket {
    is_loopback: i32,
    state: i32,
    recv_buf: ZArray<u8>,
    len: u16,
    raw_seq: u16,
    data_len: u16,
    offset: u32,
}

impl COutPacket {
    #[verifier::type_invariant]
    spec fn inv(self) -> bool {
        self.offset <= self.send_buf@.len()
    }

    /// The send buffer.
    pub closed spec fn spec_send_buf(&self) -> ZArray<u8> {
        self.send_buf
    }

    /// Number of bytes written so far.
    pub closed spec fn spec_write_offset(&self) -> u32 {
        self.offset
    }

    /// A packet over `send_buf` into which `offset` bytes have been written.
    /// There is none where the buffer is shorter than that.
    pub fn new(
        is_loopback: i32,
        send_buf: ZArray<u8>,
        offset: u32,
        is_encrypted_by_shanda: i32,
    ) -> (pkt: Option<Self>)
        ensures
            pkt is Some <==> offset <= send_buf@.len(),
            pkt matches Some(p) ==> p.spec_send_buf() == send_buf && p.spec_write_offset()
                == offset,
    {
        if offset as usize <= send_buf.len() {
            Some(COutPacket { is_loopback, send_buf, offset, is_encrypted_by_shanda })
        } else {
            None
        }
    }
}

/// The payload of an outbound packet starts with the buffer and is what has
/// been written so far; the next field goes behind it.
impl ShroomPacket for COutPacket {
    open spec fn spec_data_offset() -> usize {
        0
    }

    open spec fn spec_raw_data(&self) -> ZArray<u8> {
        self.spec_send_buf()
    }

    open spec fn spec_len(&self) -> usize {
        self.spec_write_offset() as usize
    }

    open spec fn spec_offset(&self) -> usize {
        self.spec_write_offset() as usize
    }

    fn data_offset() -> (data_offset: usize) {
        0
    }

    fn raw_data(&self) -> (raw: &ZArray<u8>) {
        &self.send_buf
    }

    fn len(&self) -> (len: usize) {
        proof {
            use_type_invariant(self);
        }
        self.offset as usize
    }

    fn offset(&self) -> (offset: usize) {
        self.offset as usize
    }
}

impl CInPacket {
    #[verifier::type_invariant]
    spec fn inv(self) -> bool {
        &&& self.recv_buf@.len() >= 4
        &&& self.offset >= 4
    }

    /// The receive buffer.
    pub closed spec fn spec_recv_buf(&self) -> ZArray<u8> {
        self.recv_buf
    }

    /// Position of the next byte to decode, counted from the start of the
    /// receive buffer.
    pub closed spec fn spec_read_offset(&self) -> u32 {
        self.offset
    }

    /// A packet over `recv_buf` that has been decoded up to `offset`. There is
    /// none where the buffer or the offset leaves no room for the frame header.
    pub fn new(
        is_loopback: i32,
        state: i32,
        recv_buf: ZArray<u8>,
        len: u16,
        raw_seq: u16,
        data_len: u16,
        offset: u32,
    ) -> (pkt: Option<Self>)
        ensures
            pkt is Some <==> (recv_buf@.len() >= 4 && offset >= 4),
            pkt matches Some(p) ==> p.spec_recv_buf() == recv_buf && p.spec_read_offset() == offset,
    {
        if recv_buf.len() >= 4 && offset >= 4 {
            Some(CInPacket { is_loopback, state, recv_buf, len, raw_seq, data_len, offset })
        } else {
            None
        }
    }
}

/// The payload of an inbound packet is what follows the four-byte frame header;
/// positions in it are counted from its start.
impl ShroomPacket for CInPacket {
    open spec fn spec_data_offset() -> usize {
        4
    }

    open spec fn spec_raw_data(&self) -> ZArray<u8> {
        self.spec_recv_buf()
    }

    open spec fn spec_len(&self) -> usize {
        (self.spec_recv_buf()@.len() - 4) as usize
    }

    open spec fn spec_offset(&self) -> usize {
        (self.spec_read_offset() - 4) as usize
    }

    fn data_offset() -> (data_offset: usize) {
        4
    }

    fn raw_data(&self) -> (raw: &ZArray<u8>) {
        &self.recv_buf
    }

    fn len(&self) -> (len: usize) {
        proof {
            use_type_invariant(self);
        }
        self.recv_buf.len() - 4
    }

    fn offset(&self) -> (offset: usize) {
        proof {
            use_type_invariant(self);
        }
        self.offset as usize - 4
    }
}

} // verus!
