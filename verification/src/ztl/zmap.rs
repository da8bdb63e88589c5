//! Hashing of the keys of the hash map container.

use crate::ztl::zxstr::ZXString16;
use crate::ztl::zxstr::ZXString8;
use vstd::prelude::*;
use vstd::std_specs::cmp::PartialEqSpec;

verus! {

/// A key of the hash map container: it can be compared and hashed.
pub trait ZMapKey: Eq {
    /// The hash under which the key is kept.
    spec fn spec_zhash(&self) -> u32;

    /// The hash under which the key is kept.
    fn zhash(&self) -> (hash: u32)
        ensures
            hash == self.spec_zhash(),
    ;
}

/// A 32-bit word turned right by five bits: the low five bits become the high
/// five.
pub open spec fn spec_rotate_right_5(x: u32) -> u32 {
    (x / 32 + (x % 32) * 0x0800_0000) as u32
}

/// A 16-bit word turned right by five bits.
pub open spec fn spec_rotate_right_5_short(x: u16) -> u16 {
    (x / 32 + (x % 32) * 0x0800) as u16
}

/// A signed 16-bit value widened to 32 bits, given by its bit pattern: a set
/// top bit fills the upper half.
pub open spec fn spec_sign_extend(x: u16) -> u32 {
    if x >= 0x8000 {
        (x + 0xffff_0000) as u32
    } else {
        x as u32
    }
}

/// What one code unit adds to the hash of a string: one plus the unit moved up
/// by five bits within its own width.
pub open spec fn spec_unit_term(unit: int, width: int) -> nat {
    (1 + 32 * (unit % (width / 32))) as nat
}

/// Sum of the terms of eight-bit code units.
pub open spec fn spec_term_sum8(units: Seq<u8>) -> nat
    decreases units.len(),
{
    if units.len() == 0 {
        0
    } else {
        spec_term_sum8(units.drop_last()) + spec_unit_term(units.last() as int, 0x100)
    }
}

/// Sum of the terms of sixteen-bit code units.
pub open spec fn spec_term_sum16(units: Seq<u16>) -> nat
    decreases units.len(),
{
    if units.len() == 0 {
        0
    } else {
        spec_term_sum16(units.drop_last()) + spec_unit_term(units.last() as int, 0x1_0000)
    }
}

/// A 32-bit word turned right by five bits.
fn rotate_right_5(x: u32) -> (r: u32)
    ensures
        r == spec_rotate_right_5(x),
{
    let r = (x >> 5) | (x << 27);
    assert(r == x / 32 + (x % 32) * 0x0800_0000) by (bit_vector)
        requires
            r == (x >> 5) | (x << 27),
    ;
    r
}

/// A 16-bit word turned right by five bits.
fn rotate_right_5_short(x: u16) -> (r: u16)
    ensures
        r == spec_rotate_right_5_short(x),
{
    let r = (x >> 5) | (x << 11);
    assert(r == x / 32 + (x % 32) * 0x0800) by (bit_vector)
        requires
            r == (x >> 5) | (x << 11),
    ;
    r
}

/// An unsigned 32-bit key hashes to itself turned right by five bits.
impl ZMapKey for u32 {
    open spec fn spec_zhash(&self) -> u32 {
        spec_rotate_right_5(*self)
    }

    fn zhash(&self) -> (hash: u32) {
        rotate_right_5(*self)
    }
}

/// A signed 32-bit key hashes as its bit pattern does.
impl ZMapKey for i32 {
    open spec fn spec_zhash(&self) -> u32 {
        spec_rotate_right_5(*self as u32)
    }

    fn zhash(&self) -> (hash: u32) {
        rotate_right_5(*self as u32)
    }
}

/// An unsigned 16-bit key is turned within its sixteen bits.
impl ZMapKey for u16 {
    open spec fn spec_zhash(&self) -> u32 {
        spec_rotate_right_5_short(*self) as u32
    }

    fn zhash(&self) -> (hash: u32) {
        rotate_right_5_short(*self) as u32
    }
}

/// A signed 16-bit key is turned within its sixteen bits and then widened as
/// a signed number.
impl ZMapKey for i16 {
    open spec fn spec_zhash(&self) -> u32 {
        spec_sign_extend(spec_rotate_right_5_short(*self as u16))
    }

    fn zhash(&self) -> (hash: u32) {
        let turned: u16 = rotate_right_5_short(*self as u16);
        let signed: i16 = turned as i16;
        let hash: u32 = signed as u32;
        assert(hash == spec_sign_extend(turned)) by (bit_vector)
            requires
                signed == turned as i16,
                hash == signed as u32,
        ;
        hash
    }
}

/// A 64-bit key hashes as its low 32 bits do.
impl ZMapKey for u64 {
    open spec fn spec_zhash(&self) -> u32 {
        spec_rotate_right_5(*self as u32)
    }

    fn zhash(&self) -> (hash: u32) {
        (*self as u32).zhash()
    }
}

/// A signed 64-bit key hashes as its low 32 bits do.
impl ZMapKey for i64 {
    open spec fn spec_zhash(&self) -> u32 {
        spec_rotate_right_5(*self as i32 as u32)
    }

    fn zhash(&self) -> (hash: u32) {
        (*self as i32).zhash()
    }
}

/// A string of eight-bit code units hashes to the sum of the terms of its
/// code units.
impl ZMapKey for ZXString8 {
    /// The terms of all code units added up, modulo two to the thirty-second.
    open spec fn spec_zhash(&self) -> u32 {
        (spec_term_sum8(self@) % 0x1_0000_0000) as u32
    }

    fn zhash(&self) -> (hash: u32) {
        let data = self.data();
        let n = data.len();
        let mut acc: u32 = 0;
        let mut i: usize = 0;
        while i < n
            invariant
                i <= n,
                n == data@.len(),
                acc == spec_term_sum8(data@.take(i as int)) % 0x1_0000_0000,
            decreases n - i,
        {
            let c: u8 = data[i];
            let moved: u8 = c << 5;
            assert(moved == 32 * (c % 8)) by (bit_vector)
                requires
                    moved == c << 5,
            ;
            let term: u32 = 1 + moved as u32;
            proof {
                let prefix = data@.take(i + 1);
                assert(prefix.drop_last() =~= data@.take(i as int));
                assert(prefix.last() == c);
                assert(term == spec_unit_term(c as int, 0x100));
                vstd::arithmetic::div_mod::lemma_add_mod_noop(
                    spec_term_sum8(data@.take(i as int)) as int,
                    term as int,
                    0x1_0000_0000,
                );
                vstd::arithmetic::div_mod::lemma_small_mod(term as nat, 0x1_0000_0000);
            }
            acc = acc.wrapping_add(term);
            i = i + 1;
        }
        proof {
            assert(data@.take(n as int) =~= data@);
        }
        acc
    }
}

/// A string of sixteen-bit code units hashes to the sum of the terms of its
/// code units.
impl ZMapKey for ZXString16 {
    /// The terms of all code units added up, modulo two to the thirty-second.
    open spec fn spec_zhash(&self) -> u32 {
        (spec_term_sum16(self@) % 0x1_0000_0000) as u32
    }

    fn zhash(&self) -> (hash: u32) {
        let data = self.data();
        let n = data.len();
        let mut acc: u32 = 0;
        let mut i: usize = 0;
        while i < n
            invariant
                i <= n,
                n == data@.len(),
                acc == spec_term_sum16(data@.take(i as int)) % 0x1_0000_0000,
            decreases n - i,
        {
            let c: u16 = data[i];
            let moved: u16 = c << 5;
            assert(moved == 32 * (c % 2048)) by (bit_vector)
                requires
                    moved == c << 5,
            ;
            let term: u32 = 1 + moved as u32;
            proof {
                let prefix = data@.take(i + 1);
                assert(prefix.drop_last() =~= data@.take(i as int));
                assert(prefix.last() == c);
                assert(term == spec_unit_term(c as int, 0x1_0000));
                vstd::arithmetic::div_mod::lemma_add_mod_noop(
                    spec_term_sum16(data@.take(i as int)) as int,
                    term as int,
                    0x1_0000_0000,
                );
                vstd::arithmetic::div_mod::lemma_small_mod(term as nat, 0x1_0000_0000);
            }
            acc = acc.wrapping_add(term);
            i = i + 1;
        }
        proof {
            assert(data@.take(n as int) =~= data@);
        }
        acc
    }
}

/// One entry of a bucket.
#[derive(Debug)]
pub struct ZMapPair<K, V> {
    pub key: K,
    pub value: V,
}

/// A snapshot of the hash map container: its buckets, each with its entries in
/// the order of its chain.
#[derive(Debug)]
pub struct ZMap<K, V> {
    table: Vec<Vec<ZMapPair<K, V>>>,
}

impl<K, V> View for ZMap<K, V> {
    type V = Seq<Seq<ZMapPair<K, V>>>;

    closed spec fn view(&self) -> Seq<Seq<ZMapPair<K, V>>> {
        Seq::new(self.table@.len(), |i: int| self.table@[i]@)
    }
}

/// The bucket in which a key with this hash is kept.
pub open spec fn spec_bucket_index(hash: u32, table_size: nat) -> int {
    hash as int % table_size as int
}

/// Whether entry `index` of `bucket` is the first one whose key equals `key`.
pub open spec fn spec_is_first_match<K: PartialEq, V>(
    bucket: Seq<ZMapPair<K, V>>,
    key: K,
    index: int,
) -> bool {
    &&& 0 <= index < bucket.len()
    &&& bucket[index].key.eq_spec(&key)
    &&& forall|j: int| 0 <= j < index ==> !(#[trigger] bucket[j]).key.eq_spec(&key)
}

/// Whether no entry of `bucket` has a key that equals `key`.
pub open spec fn spec_no_match<K: PartialEq, V>(bucket: Seq<ZMapPair<K, V>>, key: K) -> bool {
    forall|j: int| 0 <= j < bucket.len() ==> !(#[trigger] bucket[j]).key.eq_spec(&key)
}

impl<K, V> ZMap<K, V> {
    #[verifier::type_invariant]
    spec fn inv(self) -> bool {
        0 < self.table@.len() <= u32::MAX
    }

    /// The map with the given buckets. There is none without a bucket or with
    /// more buckets than a 32-bit table size counts.
    pub fn from_buckets(table: Vec<Vec<ZMapPair<K, V>>>) -> (map: Option<Self>)
        ensures
            map is Some <==> 0 < table@.len() <= u32::MAX,
            map matches Some(m) ==> m@ == Seq::new(table@.len(), |i: int| table@[i]@),
    {
        if table.len() == 0 || table.len() > 0xffff_ffff {
            None
        } else {
            Some(ZMap { table })
        }
    }

    /// Number of buckets.
    pub fn table_size(&self) -> (size: u32)
        ensures
            size == self@.len(),
            size > 0,
    {
        proof {
            use_type_invariant(self);
        }
        self.table.len() as u32
    }
}

impl<K: ZMapKey, V> ZMap<K, V> {
    /// The value of the first entry with the key `key` in the bucket of that
    /// key's hash, where equality of keys behaves as its specification says.
    pub fn get_at(&self, key: &K) -> (value: Option<&V>)
        ensures
            K::obeys_eq_spec() ==> ({
                let bucket = self@[spec_bucket_index(key.spec_zhash(), self@.len())];
                match value {
                    Some(v) => exists|i: int|
                        spec_is_first_match(bucket, *key, i) && *v == bucket[i].value,
                    None => spec_no_match(bucket, *key),
                }
            }),
    {
        proof {
            use_type_invariant(self);
        }
        let hash = key.zhash();
        let index = hash as usize % self.table.len();
        let bucket = &self.table[index];
        proof {
            assert(index == spec_bucket_index(key.spec_zhash(), self@.len()));
            assert(self@[index as int] == bucket@);
        }
        let mut i: usize = 0;
        while i < bucket.len()
            invariant
                i <= bucket@.len(),
                self@[spec_bucket_index(key.spec_zhash(), self@.len())] == bucket@,
                K::obeys_eq_spec() ==> forall|j: int|
                    0 <= j < i ==> !(#[trigger] bucket@[j]).key.eq_spec(key),
            decreases bucket@.len() - i,
        {
            if bucket[i].key == *key {
                proof {
                    if K::obeys_eq_spec() {
                        assert(spec_is_first_match(bucket@, *key, i as int));
                    }
                }
                return Some(&bucket[i].value);
            }
            i = i + 1;
        }
        None
    }
}

} // verus!
