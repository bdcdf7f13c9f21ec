//! The thin growable array: a container whose handle is one owning pointer
//! and whose length and capacity counters live in a header at the front of
//! the single backing allocation, ahead of the element array.

use vstd::prelude::*;

use crate::growth;
use crate::handle::Unique;

verus! {

/// Byte offset of the element array in the backing allocation: the least
/// multiple of `T`'s alignment that is at least two header words, so that
/// both counters and every element are correctly aligned.
pub open spec fn header_offset<T>() -> nat {
    let words = 2 * vstd::layout::size_of::<usize>() as int;
    let align = vstd::layout::align_of::<T>() as int;
    (((words + align - 1) / align) * align) as nat
}

/// The element array starts at the least multiple of `T`'s alignment that
/// holds the two header words: the offset is aligned, the header fits below
/// it, and the next smaller multiple of the alignment would not fit it.
pub proof fn lemma_header_offset_minimal<T>()
    ensures
        header_offset::<T>() % vstd::layout::align_of::<T>() == 0,
        2 * vstd::layout::size_of::<usize>() <= header_offset::<T>() < 2 * vstd::layout::size_of::<
            usize,
        >() + vstd::layout::align_of::<T>(),
{
    broadcast use vstd::layout::align_nonzero;

    let w = 2 * vstd::layout::size_of::<usize>() as int;
    let a = vstd::layout::align_of::<T>() as int;
    let q = (w + a - 1) / a;
    assert(q * a % a == 0 && w <= q * a <= w + a - 1) by (nonlinear_arith)
        requires
            a >= 1,
            w >= 0,
            q == (w + a - 1) / a,
    ;
}

/// The backing allocation: a capacity word and a length word — the header —
/// followed by the element array. At most `cap` elements fit; the first
/// `len` are the live ones.
struct Storage<T> {
    cap: usize,
    len: usize,
    elems: Vec<T>,
}

/// A growable array with a one-word handle.
///
/// The handle owns at most one allocation, laid out as capacity word,
/// length word, then the elements; both counters are read through the
/// handle rather than stored beside it, so the container's own footprint
/// is exactly one machine pointer.
pub struct HeapVec<T> {
    ptr: Unique<Storage<T>>,
}

impl<T> HeapVec<T> {
    /// The live elements, in order.
    pub closed spec fn as_seq(&self) -> Seq<T> {
        match self.ptr@ {
            Option::Some(st) => st.elems@,
            Option::None => Seq::empty(),
        }
    }

    /// The capacity recorded in the header; zero while no allocation exists.
    pub closed spec fn spec_cap(&self) -> nat {
        match self.ptr@ {
            Option::Some(st) => st.cap as nat,
            Option::None => 0,
        }
    }

    /// The container invariant: a null handle stands for no allocation at
    /// all, and any real allocation holds its live elements — exactly as
    /// many as the length word says — within its recorded capacity.
    pub closed spec fn well_formed(&self) -> bool {
        match self.ptr@ {
            Option::Some(st) => st.len == st.elems@.len() && st.len <= st.cap && 1 <= st.cap,
            Option::None => true,
        }
    }
}

impl<T> View for HeapVec<T> {
    type V = Seq<T>;

    open spec fn view(&self) -> Seq<T> {
        self.as_seq()
    }
}

impl<T> HeapVec<T> {
    /// A container with the null-sentinel handle; no allocation is made.
    /// Zero-sized element types are unsupported, and are rejected here,
    /// at construction.
    pub fn new() -> (v: Self)
        requires
            vstd::layout::size_of::<T>() != 0,
        ensures
            v.well_formed(),
            v@ == Seq::<T>::empty(),
            v.spec_cap() == 0,
    {
        HeapVec { ptr: Unique::new(Option::None) }
    }

    /// Byte offset of the element array, from the head of the allocation.
    pub fn get_offset() -> (r: usize)
        ensures
            r as nat == header_offset::<T>(),
    {
        let words: usize = 2 * core::mem::size_of::<usize>();
        let align: usize = core::mem::align_of::<T>();
        proof {
            broadcast use vstd::layout::layout_of_primitives, vstd::layout::align_properties, vstd::layout::align_nonzero;

            assert(usize::BITS == 32 || usize::BITS == 64);
            assert(words == 8 || words == 16);
        }
        if align >= words {
            proof {
                assert((words + align - 1) as int / align as int == 1) by (nonlinear_arith)
                    requires
                        8 <= words <= align,
                ;
            }
            align
        } else {
            proof {
                let w = words as int;
                let a = align as int;
                assert(((w + a - 1) / a) * a <= w + a - 1) by (nonlinear_arith)
                    requires
                        1 <= a,
                        0 <= w,
                ;
            }
            ((words + align - 1) / align) * align
        }
    }

    /// Byte offset of the element slot at `index`, from the head of the
    /// allocation.
    pub fn get_offset_of(index: usize) -> (r: usize)
        requires
            header_offset::<T>() + index * vstd::layout::size_of::<T>() <= usize::MAX,
        ensures
            r as nat == header_offset::<T>() + index * vstd::layout::size_of::<T>(),
    {
        Self::get_offset() + core::mem::size_of::<T>() * index
    }

    /// Borrows the element region of the backing allocation; `None` while
    /// the handle is the null sentinel.
    pub fn data_ptr(&self) -> (r: Option<&Vec<T>>)
        requires
            self.well_formed(),
        ensures
            match r {
                Option::Some(region) => region@ == self@ && self.spec_cap() >= 1,
                Option::None => self@ == Seq::<T>::empty() && self.spec_cap() == 0,
            },
    {
        match self.ptr.as_ptr() {
            Option::Some(st) => Option::Some(&st.elems),
            Option::None => Option::None,
        }
    }

    /// The number of live elements: zero for the sentinel, else the second
    /// header word.
    pub fn len(&self) -> (n: usize)
        requires
            self.well_formed(),
        ensures
            n == self@.len(),
    {
        match self.ptr.as_ptr() {
            Option::Some(st) => st.len,
            Option::None => 0,
        }
    }

    /// The capacity: zero for the sentinel, else the first header word.
    pub fn capacity(&self) -> (n: usize)
        ensures
            n == self.spec_cap(),
    {
        match self.ptr.as_ptr() {
            Option::Some(st) => st.cap,
            Option::None => 0,
        }
    }

    /// Replaces the allocation by one that can hold one more element: the
    /// first call allocates room for a single element, every later call
    /// doubles the capacity. Called only on a full container.
    fn grow(&mut self)
        requires
            old(self).well_formed(),
            old(self)@.len() == old(self).spec_cap(),
            old(self).spec_cap() <= usize::MAX / 2,
        ensures
            final(self).well_formed(),
            final(self)@ == old(self)@,
            final(self).spec_cap() == growth::grown_cap(old(self).spec_cap()),
    {
        match self.ptr.take() {
            Option::None => {
                let st = Storage { cap: 1, len: 0, elems: Vec::new() };
                self.ptr = Unique::new(Option::Some(Box::new(st)));
            }
            Option::Some(mut b) => {
                let new_cap = b.cap * 2;
                b.elems.reserve(new_cap - b.len);
                b.cap = new_cap;
                self.ptr = Unique::new(Option::Some(b));
            }
        }
    }

    /// Appends `value` after the last live element, growing first when the
    /// container is full, then bumps the length word.
    pub fn push(&mut self, value: T)
        requires
            old(self).well_formed(),
            old(self)@.len() < usize::MAX / 2,
        ensures
            final(self).well_formed(),
            final(self)@ == old(self)@.push(value),
            final(self).spec_cap() == growth::cap_after_push(
                old(self).spec_cap(),
                old(self)@.len(),
            ),
    {
        if self.len() == self.capacity() {
            self.grow();
        }
        match self.ptr.take() {
            Option::Some(mut b) => {
                b.elems.push(value);
                b.len = b.len + 1;
                self.ptr = Unique::new(Option::Some(b));
            }
            Option::None => {
                vstd::pervasive::unreached()
            }
        }
    }

    /// Removes and returns the last live element, by decrementing the
    /// length word and reading the now-former-last slot out by value; the
    /// empty container yields `None`, a defined result rather than an
    /// error.
    pub fn pop(&mut self) -> (r: Option<T>)
        requires
            old(self).well_formed(),
        ensures
            final(self).well_formed(),
            final(self).spec_cap() == old(self).spec_cap(),
            old(self)@.len() == 0 ==> r is None && final(self)@ == old(self)@,
            old(self)@.len() > 0 ==> r == Option::Some(old(self)@.last()) && final(self)@
                == old(self)@.drop_last(),
    {
        if self.len() == 0 {
            Option::None
        } else {
            match self.ptr.take() {
                Option::Some(mut b) => {
                    b.len = b.len - 1;
                    let r = b.elems.pop();
                    self.ptr = Unique::new(Option::Some(b));
                    r
                }
                Option::None => {
                    vstd::pervasive::unreached()
                }
            }
        }
    }

    /// Inserts `value` at `index`, shifting the elements at `[index, len)`
    /// one slot to the right. An index past the length is a caller error
    /// and is excluded outright; `index == len` appends.
    pub fn insert(&mut self, index: usize, value: T)
        requires
            old(self).well_formed(),
            index <= old(self)@.len(),
            old(self)@.len() < usize::MAX / 2,
        ensures
            final(self).well_formed(),
            final(self)@ == old(self)@.insert(index as int, value),
            final(self).spec_cap() == growth::cap_after_push(
                old(self).spec_cap(),
                old(self)@.len(),
            ),
    {
        if self.capacity() == self.len() {
            self.grow();
        }
        match self.ptr.take() {
            Option::Some(mut b) => {
                b.elems.insert(index, value);
                b.len = b.len + 1;
                self.ptr = Unique::new(Option::Some(b));
            }
            Option::None => {
                vstd::pervasive::unreached()
            }
        }
    }

    /// Removes and returns the element at `index`, shifting the elements at
    /// `[index + 1, len)` one slot to the left. Removing at the length —
    /// even on a non-empty container — is a caller error and is excluded;
    /// `pop` is the operation for taking the last element.
    pub fn remove(&mut self, index: usize) -> (r: T)
        requires
            old(self).well_formed(),
            index < old(self)@.len(),
        ensures
            final(self).well_formed(),
            final(self).spec_cap() == old(self).spec_cap(),
            r == old(self)@[index as int],
            final(self)@ == old(self)@.remove(index as int),
    {
        match self.ptr.take() {
            Option::Some(mut b) => {
                b.len = b.len - 1;
                let r = b.elems.remove(index);
                self.ptr = Unique::new(Option::Some(b));
                r
            }
            Option::None => {
                vstd::pervasive::unreached()
            }
        }
    }

    /// Borrows the live element at `index`.
    pub fn get(&self, index: usize) -> (r: &T)
        requires
            self.well_formed(),
            index < self@.len(),
        ensures
            *r == self@[index as int],
    {
        match self.ptr.as_ptr() {
            Option::Some(st) => vstd::slice::slice_index_get(st.elems.as_slice(), index),
            Option::None => {
                vstd::pervasive::unreached()
            }
        }
    }

    /// Overwrites the live element at `index` with `value`.
    pub fn set(&mut self, index: usize, value: T)
        requires
            old(self).well_formed(),
            index < old(self)@.len(),
        ensures
            final(self).well_formed(),
            final(self).spec_cap() == old(self).spec_cap(),
            final(self)@ == old(self)@.update(index as int, value),
    {
        match self.ptr.take() {
            Option::Some(mut b) => {
                vstd::pervasive::VecAdditionalExecFns::set(&mut b.elems, index, value);
                self.ptr = Unique::new(Option::Some(b));
            }
            Option::None => {
                vstd::pervasive::unreached()
            }
        }
    }
}

} // verus!
