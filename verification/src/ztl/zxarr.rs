//! The array container: elements preceded by a header that counts their bytes.

use vstd::layout::size_of;
use vstd::prelude::*;

verus! {

/// The header that stands in front of the elements of a live array.
#[derive(Debug, Clone, Copy, PartialEq, Eq, Structural)]
pub struct ZArrayHeader {
    pub ref_count: i32,
    pub cap: i32,
    pub byte_len: i32,
}

impl ZArrayHeader {
    /// Number of elements of type `T` that the header accounts for.
    pub open spec fn spec_len_of<T>(self) -> nat {
        (self.byte_len as usize as nat) / size_of::<T>()
    }

    /// Number of elements of type `T` that the header accounts for.
    pub fn len_of<T>(&self) -> (len: usize)
        requires
            size_of::<T>() > 0,
        ensures
            len == self.spec_len_of::<T>(),
    {
        (self.byte_len as usize) / core::mem::size_of::<T>()
    }
}

/// A snapshot of an array: where its elements start, the header in front of
/// them and the elements that the header accounts for. The null array starts
/// at address zero and holds nothing.
#[derive(Debug)]
pub struct ZArray<T> {
    ptr: usize,
    header: ZArrayHeader,
    elems: Vec<T>,
}

impl<T> View for ZArray<T> {
    type V = Seq<T>;

    closed spec fn view(&self) -> Seq<T> {
        if self.ptr == 0 {
            Seq::empty()
        } else {
            self.elems@
        }
    }
}

impl<T> ZArray<T> {
    #[verifier::type_invariant]
    spec fn inv(self) -> bool {
        if self.ptr == 0 {
            self.elems@.len() == 0
        } else {
            &&& size_of::<T>() > 0
            &&& self.elems@.len() == self.header.spec_len_of::<T>()
        }
    }

    /// Address at which the elements start; zero for the null array.
    pub closed spec fn spec_ptr(&self) -> usize {
        self.ptr
    }

    /// The header in front of the elements; the null array has none.
    pub closed spec fn spec_header(&self) -> Option<ZArrayHeader> {
        if self.ptr == 0 {
            None
        } else {
            Some(self.header)
        }
    }

    /// The null array holds nothing.
    pub proof fn lemma_null_is_empty(&self)
        ensures
            self.spec_ptr() == 0 ==> self@ == Seq::<T>::empty(),
            self.spec_ptr() == 0 <==> self.spec_header() is None,
    {
    }

    /// The null array.
    pub fn empty() -> (arr: Self)
        ensures
            arr.spec_ptr() == 0,
            arr.spec_header() is None,
            arr@ == Seq::<T>::empty(),
    {
        ZArray {
            ptr: 0,
            header: ZArrayHeader { ref_count: 0, cap: 0, byte_len: 0 },
            elems: Vec::new(),
        }
    }

    /// The array that starts at `ptr`, from what was read there. There is one
    /// where `ptr` is not null, `T` has a size and `elems` holds as many
    /// elements as `header` accounts for.
    pub fn from_parts(ptr: usize, header: ZArrayHeader, elems: Vec<T>) -> (arr: Option<Self>)
        ensures
            arr is Some <==> (ptr != 0 && size_of::<T>() > 0 && elems@.len()
                == header.spec_len_of::<T>()),
            arr matches Some(a) ==> a.spec_ptr() == ptr && a.spec_header() == Some(header) && a@
                == elems@,
    {
        if ptr == 0 || core::mem::size_of::<T>() == 0 {
            return None;
        }
        if elems.len() != header.len_of::<T>() {
            return None;
        }
        Some(ZArray { ptr, header, elems })
    }

    /// Address at which the elements start; zero for the null array.
    pub fn as_ptr(&self) -> (ptr: usize)
        ensures
            ptr == self.spec_ptr(),
    {
        self.ptr
    }

    /// The header in front of the elements; the null array has none.
    pub fn header(&self) -> (header: Option<&ZArrayHeader>)
        ensures
            header == match self.spec_header() {
                Some(h) => Some(&h),
                None => None,
            },
    {
        if self.ptr == 0 {
            None
        } else {
            Some(&self.header)
        }
    }

    /// Number of elements: what the header accounts for, and zero for the null
    /// array.
    pub fn len(&self) -> (len: usize)
        ensures
            len == self@.len(),
            self.spec_header() matches Some(h) ==> len == h.spec_len_of::<T>(),
            self.spec_header() is None ==> len == 0,
    {
        proof {
            use_type_invariant(self);
        }
        match self.header() {
            Some(d) => d.len_of::<T>(),
            None => 0,
        }
    }

    /// Whether the array holds no element.
    pub fn is_empty(&self) -> (empty: bool)
        ensures
            empty == (self@.len() == 0),
    {
        self.len() == 0
    }

    /// Whether the array holds an element.
    pub fn is_not_empty(&self) -> (not_empty: bool)
        ensures
            not_empty == (self@.len() > 0),
    {
        !self.is_empty()
    }

    /// The elements.
    pub fn data(&self) -> (data: &[T])
        ensures
            data@ == self@,
    {
        proof {
            use_type_invariant(self);
        }
        self.elems.as_slice()
    }
}

} // verus!
