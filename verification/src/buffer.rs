//! A labelled, fixed-length buffer of 32-bit integers.

use vstd::prelude::*;
use crate::sequence::{
    fits_i32, is_ramp, is_scaled, positive_count, positive_prefix, prefix_sum, ramp_fits,
    scaling_fits, sum_of, zeros,
};

verus! {

/// What a [`DataBuffer`] stands for: its label and its elements.
pub struct BufferView {
    pub name: Seq<char>,
    pub data: Seq<i32>,
}

/// A named buffer whose length is fixed when it is created.
#[derive(Debug)]
pub struct DataBuffer {
    data: Vec<i32>,
    name: String,
}

impl View for DataBuffer {
    type V = BufferView;

    closed spec fn view(&self) -> BufferView {
        BufferView { name: self.name@, data: self.data@ }
    }
}

impl DataBuffer {
    /// Takes ownership of `name` and allocates `size` elements, all zero.
    pub fn new(name: String, size: usize) -> (buffer: Self)
        ensures
            buffer@.name == name@,
            buffer@.data == zeros(size as nat),
    {
        let data: Vec<i32> = vec![0; size];
        assert(data@ =~= zeros(size as nat));
        DataBuffer { data, name }
    }

    /// Whether [`fill_with_values`](Self::fill_with_values) may be called
    /// with `start`: every value it would store is an `i32`.
    pub fn fill_fits(&self, start: i32) -> (fits: bool)
        ensures
            fits == ramp_fits(self@.data.len(), start as int),
    {
        let len: usize = self.data.len();
        len == 0 || (len - 1) as u128 <= (i32::MAX as i64 - start as i64) as u128
    }

    /// Overwrites the elements with `start, start + 1, start + 2, ...`.
    pub fn fill_with_values(&mut self, start: i32)
        requires
            ramp_fits(old(self)@.data.len(), start as int),
        ensures
            final(self)@.name == old(self)@.name,
            final(self)@.data.len() == old(self)@.data.len(),
            is_ramp(final(self)@.data, start as int),
    {
        let len: usize = self.data.len();
        let mut i: usize = 0;
        while i < len
            invariant
                i <= len,
                self.data.len() == len,
                self.name == old(self).name,
                ramp_fits(len as nat, start as int),
                forall|j: int| 0 <= j < i ==> (#[trigger] self.data[j]) == start + j,
            decreases len - i,
        {
            let value: i64 = start as i64 + i as i64;
            self.data[i] = value as i32;
            i += 1;
        }
    }

    /// Whether [`into_sum`](Self::into_sum) may be called: the sum of the
    /// elements is an `i32`.
    pub fn sum_fits(&self) -> (fits: bool)
        ensures
            fits == fits_i32(sum_of(self@.data)),
    {
        let total: i128 = exact_sum(&self.data);
        i32::MIN as i128 <= total && total <= i32::MAX as i128
    }

    /// Whether [`modify_buffer`] may be called with `multiplier`: every
    /// product it would store is an `i32`.
    pub fn scale_fits(&self, multiplier: i32) -> (fits: bool)
        ensures
            fits == scaling_fits(self@.data, multiplier as int),
    {
        let len: usize = self.data.len();
        let mut i: usize = 0;
        while i < len
            invariant
                i <= len,
                len == self.data.len(),
                forall|j: int| 0 <= j < i ==> fits_i32((#[trigger] self.data[j]) * multiplier),
            decreases len - i,
        {
            if self.data[i].checked_mul(multiplier).is_none() {
                return false;
            }
            i += 1;
        }
        true
    }

    /// Consumes the buffer and returns the sum of its elements.
    pub fn into_sum(self) -> (sum: i32)
        requires
            fits_i32(sum_of(self@.data)),
        ensures
            sum == sum_of(self@.data),
    {
        exact_sum(&self.data) as i32
    }

    /// The label given at creation.
    pub fn name(&self) -> (name: &str)
        ensures
            name@ == self@.name,
    {
        self.name.as_str()
    }

    /// The number of elements.
    pub fn len(&self) -> (len: usize)
        ensures
            len == self@.data.len(),
    {
        self.data.len()
    }

    /// The elements, in order.
    pub fn data(&self) -> (data: &Vec<i32>)
        ensures
            data@ == self@.data,
    {
        &self.data
    }
}

/// Adds up `data` in a type wide enough for any vector of `i32`.
fn exact_sum(data: &Vec<i32>) -> (total: i128)
    ensures
        total == sum_of(data@),
{
    let len: usize = data.len();
    let mut total: i128 = 0;
    let mut i: usize = 0;
    while i < len
        invariant
            i <= len,
            len == data.len(),
            total == prefix_sum(data@, i as nat),
            i * i32::MIN <= total <= i * i32::MAX,
        decreases len - i,
    {
        total = total + data[i] as i128;
        i += 1;
    }
    total
}

/// Counts the strictly positive elements of `buffer`.
///
/// The count is converted to `i32` by keeping its low 32 bits, so it is the
/// exact count for every buffer of at most `i32::MAX` elements.
pub fn process_buffer(buffer: &DataBuffer) -> (count: i32)
    ensures
        count == positive_count(buffer@.data) as i32,
        positive_count(buffer@.data) <= i32::MAX ==> count == positive_count(buffer@.data),
{
    let len: usize = buffer.data.len();
    let mut found: usize = 0;
    let mut i: usize = 0;
    while i < len
        invariant
            i <= len,
            len == buffer.data.len(),
            found == positive_prefix(buffer.data@, i as nat),
            found <= i,
        decreases len - i,
    {
        if buffer.data[i] > 0 {
            found += 1;
        }
        i += 1;
    }
    #[verifier::truncate]
    (found as i32)
}

/// Multiplies every element of `buffer` by `multiplier`.
pub fn modify_buffer(buffer: &mut DataBuffer, multiplier: i32)
    requires
        scaling_fits(old(buffer)@.data, multiplier as int),
    ensures
        final(buffer)@.name == old(buffer)@.name,
        is_scaled(old(buffer)@.data, final(buffer)@.data, multiplier as int),
{
    let len: usize = buffer.data.len();
    let mut i: usize = 0;
    while i < len
        invariant
            i <= len,
            buffer.data.len() == len,
            old(buffer).data.len() == len,
            buffer.name == old(buffer).name,
            scaling_fits(old(buffer).data@, multiplier as int),
            forall|j: int|
                0 <= j < i ==> (#[trigger] buffer.data[j]) == old(buffer).data[j] * multiplier,
            forall|j: int| i <= j < len ==> (#[trigger] buffer.data[j]) == old(buffer).data[j],
        decreases len - i,
    {
        let scaled: i32 = buffer.data[i] * multiplier;
        buffer.data[i] = scaled;
        i += 1;
    }
}

} // verus!
