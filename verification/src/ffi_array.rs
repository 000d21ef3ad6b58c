//! The array, option and iterator types that cross the module boundary of the
//! pipeline.
use vstd::prelude::*;

verus! {

/// An optional value: `Present` holds one, `Absent` none.
#[derive(Debug)]
pub enum FFIOption<T> {
    Present(T),
    Absent,
}

/// An array of elements.
#[derive(Debug, Clone)]
pub struct FFIArray<T> {
    pub data: Vec<T>,
}

impl<T> View for FFIArray<T> {
    type V = Seq<T>;

    open spec fn view(&self) -> Seq<T> {
        self.data@
    }
}

impl<T> FFIArray<T> {
    /// The array holding the elements of `vec`, in order.
    pub fn from_vec(vec: Vec<T>) -> (res: FFIArray<T>)
        ensures
            res@ == vec@,
    {
        FFIArray { data: vec }
    }

    /// The elements of the array, in order.
    pub fn into_vec(self) -> (res: Vec<T>)
        ensures
            res@ == self@,
    {
        self.data
    }

    /// The number of elements.
    pub fn len(&self) -> (n: usize)
        ensures
            n == self@.len(),
    {
        self.data.len()
    }

    /// The element at `index`.
    pub fn index(&self, index: usize) -> (r: &T)
        requires
            index < self@.len(),
        ensures
            *r == self@[index as int],
    {
        &self.data[index]
    }
}

/// A cursor over the elements of an array.
#[derive(Debug)]
pub struct FFIIterator<'a, T> {
    pub arr: &'a FFIArray<T>,
    pub i: usize,
}

impl<'a> FFIIterator<'a, ()> {
    /// A cursor at the first element of `arr`.
    pub fn new<T>(arr: &'a FFIArray<T>) -> (it: FFIIterator<'a, T>)
        ensures
            it.arr == arr,
            it.i == 0,
    {
        FFIIterator::<'a, T> { arr, i: 0 }
    }
}

impl<'a, T: Clone> FFIIterator<'a, T> {
    /// The element under the cursor, which then moves one on; `None` once all
    /// elements have been handed out.
    pub fn next(&mut self) -> (res: Option<T>)
        requires
            old(self).i <= old(self).arr@.len(),
        ensures
            final(self).arr == old(self).arr,
            final(self).i <= final(self).arr@.len(),
            old(self).i == old(self).arr@.len() ==> res is None && final(self).i == old(self).i,
            old(self).i < old(self).arr@.len() ==> res is Some && final(self).i == old(self).i + 1
                && cloned::<T>(old(self).arr@[old(self).i as int], res->0),
    {
        if self.i == self.arr.len() {
            return None;
        }
        let res = Some(self.arr.index(self.i).clone());
        self.i = self.i + 1;
        res
    }
}

} // verus!
