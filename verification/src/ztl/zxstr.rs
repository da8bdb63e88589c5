//! The string container: code units preceded by a header that counts their
//! bytes.

use vstd::layout::size_of;
use vstd::prelude::*;
use vstd::std_specs::cmp::PartialEqSpec;
use vstd::std_specs::cmp::PartialEqSpecImpl;
use vstd::string::StringSliceAdditionalSpecFns;
use vstd::utf8::valid_utf8;

verus! {

/// The header that stands in front of the code units of a live string.
#[derive(Debug, Clone, Copy, PartialEq, Eq, Structural)]
pub struct ZXStringHeader {
    pub ref_count: i32,
    pub cap: i32,
    pub byte_len: i32,
}

impl ZXStringHeader {
    /// Number of code units of type `T` that the header accounts for.
    pub open spec fn spec_len_of<T>(self) -> nat {
        (self.byte_len as usize as nat) / size_of::<T>()
    }

    /// Number of code units of type `T` that the header accounts for.
    pub fn len_of<T>(&self) -> (len: usize)
        requires
            size_of::<T>() > 0,
        ensures
            len == self.spec_len_of::<T>(),
    {
        (self.byte_len as usize) / core::mem::size_of::<T>()
    }
}

/// A snapshot of a string: the header in front of its code units and the code
/// units that the header accounts for. The null string has neither.
#[derive(Debug)]
pub struct ZXString<T> {
    header: Option<ZXStringHeader>,
    units: Vec<T>,
}

/// A string of eight-bit code units.
pub type ZXString8 = ZXString<u8>;

/// A string of sixteen-bit code units.
pub type ZXString16 = ZXString<u16>;

impl<T> View for ZXString<T> {
    type V = Seq<T>;

    closed spec fn view(&self) -> Seq<T> {
        if self.header is None {
            Seq::empty()
        } else {
            self.units@
        }
    }
}

/// What `String::from_utf16_lossy` makes of a sequence of UTF-16 code units.
pub uninterp spec fn spec_utf16_lossy(units: Seq<u16>) -> Seq<char>;

/// `core::str::from_utf8`: the bytes as text, where they are well-formed UTF-8,
/// and nothing where they are not.
#[verifier::external_body]
fn str_from_utf8(bytes: &[u8]) -> (text: Option<&str>)
    ensures
        text is Some <==> valid_utf8(bytes@),
        text matches Some(s) ==> s.spec_bytes() == bytes@,
{
    core::str::from_utf8(bytes).ok()
}

/// `String::from_utf16_lossy`: the text that the code units decode to, with the
/// replacement character in place of what is no valid UTF-16.
#[verifier::external_body]
fn string_from_utf16_lossy(units: &[u16]) -> (text: String)
    ensures
        text@ == spec_utf16_lossy(units@),
{
    String::from_utf16_lossy(units)
}

impl<T> ZXString<T> {
    #[verifier::type_invariant]
    spec fn inv(self) -> bool {
        match self.header {
            None => self.units@.len() == 0,
            Some(header) => size_of::<T>() > 0 && self.units@.len() == header.spec_len_of::<T>(),
        }
    }

    /// The header in front of the code units; the null string has none.
    pub closed spec fn spec_header(&self) -> Option<ZXStringHeader> {
        self.header
    }

    /// The null string.
    pub fn empty() -> (s: Self)
        ensures
            s.spec_header() is None,
            s@ == Seq::<T>::empty(),
    {
        ZXString { header: None, units: Vec::new() }
    }

    /// The string behind `header`, from what was read there. There is one where
    /// `T` has a size and `units` holds as many code units as `header`
    /// accounts for.
    pub fn from_parts(header: ZXStringHeader, units: Vec<T>) -> (s: Option<Self>)
        ensures
            s is Some <==> (size_of::<T>() > 0 && units@.len() == header.spec_len_of::<T>()),
            s matches Some(text) ==> text.spec_header() == Some(header) && text@ == units@,
    {
        if core::mem::size_of::<T>() == 0 {
            return None;
        }
        if units.len() != header.len_of::<T>() {
            return None;
        }
        Some(ZXString { header: Some(header), units })
    }

    /// The header in front of the code units; the null string has none.
    pub fn header(&self) -> (header: Option<&ZXStringHeader>)
        ensures
            header == match self.spec_header() {
                Some(h) => Some(&h),
                None => None,
            },
    {
        self.header.as_ref()
    }

    /// Number of code units.
    pub fn len(&self) -> (len: usize)
        ensures
            len == self@.len(),
            self.spec_header() matches Some(h) ==> len == h.spec_len_of::<T>(),
            self.spec_header() is None ==> len == 0,
    {
        proof {
            use_type_invariant(self);
        }
        match self.header() {
            Some(d) => d.len_of::<T>(),
            None => 0,
        }
    }

    /// Number of code units of the text.
    pub fn str_len(&self) -> (len: usize)
        ensures
            len == self@.len(),
    {
        let ln = self.len();
        if ln > 0 {
            ln
        } else {
            0
        }
    }

    /// Whether the string holds no code unit.
    pub fn is_empty(&self) -> (empty: bool)
        ensures
            empty == (self@.len() == 0),
    {
        self.len() == 0
    }

    /// Whether the string holds a code unit.
    pub fn is_not_empty(&self) -> (not_empty: bool)
        ensures
            not_empty == (self@.len() > 0),
    {
        !self.is_empty()
    }

    /// All code units that the header accounts for.
    pub fn data(&self) -> (data: &[T])
        ensures
            data@ == self@,
    {
        proof {
            use_type_invariant(self);
        }
        self.units.as_slice()
    }

    /// The code units of the text.
    pub fn data_str(&self) -> (data: &[T])
        ensures
            data@ == self@,
    {
        let data = self.data();
        let str_len = self.str_len();
        let text = &data[0..str_len];
        proof {
            assert(text@ =~= data@);
        }
        text
    }
}

/// Two strings are equal where their code units are: the headers do not count.
impl<T: PartialEq> PartialEq for ZXString<T> {
    fn eq(&self, other: &Self) -> (equal: bool) {
        let mine = self.data();
        let theirs = other.data();
        let n = mine.len();
        if n != theirs.len() {
            return false;
        }
        let mut i: usize = 0;
        while i < n
            invariant
                i <= n,
                n == mine@.len(),
                n == theirs@.len(),
                mine@ == self@,
                theirs@ == other@,
                T::obeys_eq_spec() ==> forall|j: int|
                    0 <= j < i ==> (#[trigger] mine@[j]).eq_spec(&theirs@[j]),
            decreases n - i,
        {
            if !(mine[i] == theirs[i]) {
                return false;
            }
            i = i + 1;
        }
        true
    }
}

impl<T: Eq> Eq for ZXString<T> {

}

impl<T: PartialEq> PartialEqSpecImpl for ZXString<T> {
    open spec fn obeys_eq_spec() -> bool {
        T::obeys_eq_spec()
    }

    open spec fn eq_spec(&self, other: &Self) -> bool {
        &&& self@.len() == other@.len()
        &&& forall|j: int| 0 <= j < self@.len() ==> (#[trigger] self@[j]).eq_spec(&other@[j])
    }
}

impl ZXString<u8> {
    /// The text, where the code units are well-formed UTF-8.
    pub fn as_str(&self) -> (text: Option<&str>)
        ensures
            text is Some <==> valid_utf8(self@),
            text matches Some(s) ==> s.spec_bytes() == self@,
    {
        str_from_utf8(self.data_str())
    }
}

impl ZXString<u16> {
    /// The text as an owned string, with the replacement character in place of
    /// what is no valid UTF-16.
    pub fn to_string_owned(&self) -> (text: String)
        ensures
            text@ == spec_utf16_lossy(self@),
    {
        string_from_utf16_lossy(self.data_str())
    }
}

} // verus!
