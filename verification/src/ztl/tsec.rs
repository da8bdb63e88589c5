//! Values that the observed process keeps scrambled in memory, together with a
//! running checksum over the key stream.

use crate::le_bytes::from_le_bytes;
use crate::le_bytes::le_bytes;
use crate::le_bytes::signed;
use crate::le_bytes::spec_from_le_bytes;
use crate::le_bytes::spec_le_bytes;
use crate::le_bytes::spec_signed;
use crate::le_bytes::spec_twos_complement;
use crate::le_bytes::twos_complement;
use vstd::prelude::*;

verus! {

/// Key with which a fresh value is scrambled.
pub const INITIAL_KEY: u8 = 11;

/// Checksum from which the scrambling of a fresh value starts.
pub const INITIAL_CHECKSUM: u16 = 39525;

/// Key that stands in for a key stream that has run to zero.
pub const ZERO_KEY_SUBSTITUTE: u8 = 42;

/// A value that can be kept scrambled: it has a byte form of fixed width.
pub trait TSecTypeConverter: Default + Sized {
    /// Number of bytes of the byte form.
    spec fn spec_width() -> nat;

    /// The byte form of the value.
    spec fn spec_to_bytes(&self) -> Seq<u8>;

    /// The value of a byte form.
    spec fn spec_from_bytes(bytes: Seq<u8>) -> Self;

    /// The byte form of the value.
    fn to_bytes(&self) -> (bytes: Vec<u8>)
        ensures
            bytes@ == self.spec_to_bytes(),
            bytes@.len() == Self::spec_width(),
    ;

    /// The value of a byte form.
    fn from_bytes(bytes: Vec<u8>) -> (value: Self)
        requires
            bytes@.len() == Self::spec_width(),
        ensures
            value == Self::spec_from_bytes(bytes@),
    ;
}

/// A 32-bit integer has the four bytes of its two's complement form, lowest
/// byte first.
impl TSecTypeConverter for i32 {
    open spec fn spec_width() -> nat {
        4
    }

    open spec fn spec_to_bytes(&self) -> Seq<u8> {
        spec_le_bytes(spec_twos_complement(*self as int))
    }

    open spec fn spec_from_bytes(bytes: Seq<u8>) -> Self {
        spec_signed(spec_from_le_bytes(bytes)) as i32
    }

    fn to_bytes(&self) -> (bytes: Vec<u8>) {
        let word = le_bytes(twos_complement(*self));
        let mut bytes: Vec<u8> = Vec::new();
        bytes.push(word[0]);
        bytes.push(word[1]);
        bytes.push(word[2]);
        bytes.push(word[3]);
        proof {
            assert(bytes@ =~= word@);
        }
        bytes
    }

    fn from_bytes(bytes: Vec<u8>) -> (value: Self) {
        signed(from_le_bytes(bytes.as_slice()))
    }
}

/// The key that scrambles the next byte: the running key, or its substitute
/// where the running key is zero.
pub open spec fn spec_effective_key(key: u8) -> u8 {
    if key == 0 {
        ZERO_KEY_SUBSTITUTE
    } else {
        key
    }
}

/// The running key after a byte: key, scrambled byte and 42 added up, modulo 256.
pub open spec fn spec_next_key(key: u8, out: u8) -> u8 {
    ((key + out + 42) % 256) as u8
}

/// The running checksum after a byte: the top three bits of the old checksum
/// plus the new key, combined bit by bit with the old checksum moved up by
/// three bits.
pub open spec fn spec_next_checksum(checksum: u16, key: u8) -> u16 {
    (((checksum >> 13) + key) as u16) | (checksum << 3)
}

/// Bytes run through the key stream, with the key and the checksum at the end.
pub struct TSecStream {
    pub bytes: Seq<u8>,
    pub key: u8,
    pub checksum: u16,
}

/// Runs `bytes` through the key stream that starts with `key` and `checksum`.
/// Each byte is combined with the effective key by exclusive or; the result
/// drives the key and the checksum for the next byte.
pub open spec fn spec_scramble(bytes: Seq<u8>, key: u8, checksum: u16) -> TSecStream
    decreases bytes.len(),
{
    if bytes.len() == 0 {
        TSecStream { bytes: Seq::empty(), key, checksum }
    } else {
        let before = spec_scramble(bytes.drop_last(), key, checksum);
        let effective = spec_effective_key(before.key);
        let out = bytes.last() ^ effective;
        let next = spec_next_key(effective, out);
        TSecStream {
            bytes: before.bytes.push(out),
            key: next,
            checksum: spec_next_checksum(before.checksum, next),
        }
    }
}

/// Runs `bytes` through the key stream in place and gives the key and the
/// checksum at the end.
fn scramble(bytes: &mut Vec<u8>, key: u8, checksum: u16) -> (end: (u8, u16))
    ensures
        final(bytes)@ == spec_scramble(old(bytes)@, key, checksum).bytes,
        final(bytes)@.len() == old(bytes)@.len(),
        end.0 == spec_scramble(old(bytes)@, key, checksum).key,
        end.1 == spec_scramble(old(bytes)@, key, checksum).checksum,
{
    let ghost start = bytes@;
    let n = bytes.len();
    let mut key = key;
    let mut checksum = checksum;
    let ghost key0 = key;
    let ghost checksum0 = checksum;
    let mut i: usize = 0;
    while i < n
        invariant
            i <= n,
            n == start.len(),
            bytes@.len() == n,
            forall|j: int| i <= j < n ==> bytes@[j] == start[j],
            bytes@.take(i as int) == spec_scramble(start.take(i as int), key0, checksum0).bytes,
            key == spec_scramble(start.take(i as int), key0, checksum0).key,
            checksum == spec_scramble(start.take(i as int), key0, checksum0).checksum,
        decreases n - i,
    {
        if key == 0 {
            key = 42;
        }
        let out: u8 = bytes[i] ^ key;
        bytes[i] = out;
        key = key.wrapping_add(out).wrapping_add(42);
        checksum = (checksum >> 13).wrapping_add(key as u16) | (checksum << 3);
        proof {
            let prefix = start.take(i + 1);
            assert(prefix.drop_last() =~= start.take(i as int));
            assert(prefix.last() == start[i as int]);
            let c = spec_scramble(start.take(i as int), key0, checksum0).checksum;
            assert((c >> 13) <= 7) by (bit_vector);
            assert(bytes@.take(i + 1) =~= spec_scramble(prefix, key0, checksum0).bytes);
        }
        i = i + 1;
    }
    proof {
        assert(start.take(n as int) =~= start);
        assert(bytes@.take(n as int) =~= bytes@);
    }
    (key, checksum)
}

/// A scrambled value with its key bytes and its checksum.
#[derive(Debug)]
pub struct TSecData<T> {
    data: T,
    keys: [u8; 3],
    checksum: u16,
}

/// The same record in its packed layout, used for values narrower than four
/// bytes.
#[derive(Debug)]
pub struct TSecDataPacked<T> {
    pub data: T,
    pub key: u8,
    pub fake_ptr1: u8,
    pub fake_ptr2: u8,
    pub checksum: u16,
}

/// A scrambled value as a mathematical value.
pub struct TSecDataView<T> {
    pub data: T,
    pub keys: Seq<u8>,
    pub checksum: u16,
}

impl<T> View for TSecData<T> {
    type V = TSecDataView<T>;

    closed spec fn view(&self) -> TSecDataView<T> {
        TSecDataView { data: self.data, keys: self.keys@, checksum: self.checksum }
    }
}

impl<T: TSecTypeConverter> TSecDataView<T> {
    /// The record after `data` has been stored in it.
    pub open spec fn encrypt(self, data: T) -> Self {
        let stream = spec_scramble(data.spec_to_bytes(), INITIAL_KEY, INITIAL_CHECKSUM);
        TSecDataView {
            data: T::spec_from_bytes(stream.bytes),
            keys: self.keys.update(0, INITIAL_KEY),
            checksum: stream.checksum,
        }
    }

    /// The value that the record gives back. The stored bytes are run through
    /// the key stream that starts with the first key byte and the stored
    /// checksum; the result counts only where the checksum at the end is the
    /// stored one.
    pub open spec fn decrypt(self) -> Option<T> {
        let stream = spec_scramble(self.data.spec_to_bytes(), self.keys[0], self.checksum);
        if stream.checksum == self.checksum {
            Some(T::spec_from_bytes(stream.bytes))
        } else {
            None
        }
    }

    /// The record after the low bytes of two decoy pointers have been noted.
    pub open spec fn set_fake_ptrs(self, ptr1: u32, ptr2: u32) -> Self {
        TSecDataView { keys: self.keys.update(1, ptr1 as u8).update(2, ptr2 as u8), ..self }
    }
}

impl<T> TSecData<T> {
    /// The stored value in its scrambled form.
    pub fn data(&self) -> (data: &T)
        ensures
            *data == self@.data,
    {
        &self.data
    }

    /// The key byte and the low bytes of the two decoy pointers.
    pub fn keys(&self) -> (keys: [u8; 3])
        ensures
            keys@ == self@.keys,
    {
        self.keys
    }

    /// The checksum at the end of the key stream with which the value was
    /// scrambled.
    pub fn checksum(&self) -> (checksum: u16)
        ensures
            checksum == self@.checksum,
    {
        self.checksum
    }
}

impl<T: TSecTypeConverter> TSecData<T> {
    /// Stores `data`: scrambles its byte form with the initial key and keeps
    /// the result, the key and the checksum at the end of the key stream.
    pub fn encrypt(&mut self, data: T)
        ensures
            final(self)@ == old(self)@.encrypt(data),
    {
        self.keys[0] = INITIAL_KEY;
        let mut bytes = data.to_bytes();
        let end = scramble(&mut bytes, INITIAL_KEY, INITIAL_CHECKSUM);
        self.checksum = end.1;
        self.data = T::from_bytes(bytes);
    }

    /// Gives the stored value back: runs the stored bytes through the key
    /// stream that starts with the first key byte and the stored checksum, and
    /// gives the result where the checksum at the end is the stored one.
    pub fn decrypt(&self) -> (value: Option<T>)
        ensures
            value == self@.decrypt(),
    {
        let mut bytes = self.data.to_bytes();
        let end = scramble(&mut bytes, self.keys[0], self.checksum);
        if end.1 == self.checksum {
            Some(T::from_bytes(bytes))
        } else {
            None
        }
    }

    /// Notes the low bytes of two decoy pointers beside the key.
    pub fn set_fake_ptrs(&mut self, ptr1: u32, ptr2: u32)
        ensures
            final(self)@ == old(self)@.set_fake_ptrs(ptr1, ptr2),
    {
        self.keys[1] = ptr1 as u8;
        self.keys[2] = ptr2 as u8;
    }
}

/// The owner of a scrambled value, with the two decoy pointers that go with it.
#[derive(Debug)]
pub struct TSecType<T> {
    fake_ptr1: u32,
    fake_ptr2: u32,
    sec_data: Box<TSecData<T>>,
}

/// A holder as a mathematical value.
pub struct TSecTypeView<T> {
    pub fake_ptr1: u32,
    pub fake_ptr2: u32,
    pub sec_data: TSecDataView<T>,
}

impl<T> View for TSecType<T> {
    type V = TSecTypeView<T>;

    closed spec fn view(&self) -> TSecTypeView<T> {
        TSecTypeView {
            fake_ptr1: self.fake_ptr1,
            fake_ptr2: self.fake_ptr2,
            sec_data: self.sec_data@,
        }
    }
}

impl<T: TSecTypeConverter> TSecTypeView<T> {
    /// The holder after `data` has been stored in it: the record holds the
    /// scrambled value and the low bytes of the holder's decoy pointers.
    pub open spec fn set(self, data: T) -> Self {
        TSecTypeView {
            sec_data: self.sec_data.encrypt(data).set_fake_ptrs(self.fake_ptr1, self.fake_ptr2),
            ..self
        }
    }
}

impl<T> TSecType<T> {
    /// The record that the holder owns.
    pub fn sec_data(&self) -> (sec_data: &TSecData<T>)
        ensures
            sec_data@ == self@.sec_data,
    {
        &self.sec_data
    }
}

impl<T: TSecTypeConverter> TSecType<T> {
    /// A holder of `data`, with null decoy pointers.
    pub fn create(data: T) -> (sec: Self)
        ensures
            sec@.fake_ptr1 == 0,
            sec@.fake_ptr2 == 0,
            sec@.sec_data.keys == seq![INITIAL_KEY, 0u8, 0u8],
            sec@.sec_data.checksum == spec_scramble(
                data.spec_to_bytes(),
                INITIAL_KEY,
                INITIAL_CHECKSUM,
            ).checksum,
            sec@.sec_data.data == T::spec_from_bytes(
                spec_scramble(data.spec_to_bytes(), INITIAL_KEY, INITIAL_CHECKSUM).bytes,
            ),
    {
        let sec_data = TSecData { data: T::default(), keys: [0;3], checksum: 0 };
        let mut sec = TSecType { fake_ptr1: 0, fake_ptr2: 0, sec_data: Box::new(sec_data) };
        sec.set(data);
        proof {
            assert(sec@.sec_data.keys =~= seq![INITIAL_KEY, 0u8, 0u8]);
        }
        sec
    }

    /// Gives the stored value back, where its checksum holds.
    pub fn get(&self) -> (value: Option<T>)
        ensures
            value == self@.sec_data.decrypt(),
    {
        self.sec_data.decrypt()
    }

    /// Stores `data` and notes the low bytes of the holder's decoy pointers.
    pub fn set(&mut self, data: T)
        ensures
            final(self)@ == old(self)@.set(data),
    {
        self.sec_data.encrypt(data);
        self.sec_data.set_fake_ptrs(self.fake_ptr1, self.fake_ptr2);
    }
}

} // verus!
