//! Laying out loaded scene data for the device.

use vstd::prelude::*;
use vstd::layout::size_of;
use std::ops::Range;
use crate::mesh::{Id, Primitive};

verus! {

/// Number of elements to add to `len` elements to reach the next multiple of
/// `unit`; none if `len` is one already.
pub open spec fn padding(len: int, unit: int) -> int {
    if len % unit == 0 {
        0
    } else {
        unit - len % unit
    }
}

/// Number of elements of `T` that fill `alignment` bytes.
pub open spec fn elements_per<T>(alignment: int) -> int {
    alignment / (size_of::<T>() as int)
}

/// A multiple of the unit, in elements, is a multiple of the alignment, in
/// bytes.
proof fn lemma_aligned_bytes(len: int, unit: int, size: int, alignment: int)
    by (nonlinear_arith)
    requires
        size > 0,
        unit > 0,
        alignment == unit * size,
        len >= 0,
        len % unit == 0,
    ensures
        (len * size) % alignment == 0,
{
    let m = len / unit;
    assert(len == m * unit);
    assert(len * size == m * alignment);
}

/// Pads `vec` with copies of `fill_value` until its length in bytes is a
/// multiple of `alignment`. What `vec` held stays in front, and no more is
/// added than the next multiple asks for.
pub fn align_vector<T: Copy>(vec: &mut Vec<T>, alignment: usize, fill_value: T)
    requires
        size_of::<T>() > 0,
        alignment > 0,
        alignment % (size_of::<T>() as usize) == 0,
        old(vec).len() + padding(old(vec).len() as int, elements_per::<T>(alignment as int))
            <= usize::MAX,
    ensures
        final(vec)@ == old(vec)@ + Seq::new(
            padding(old(vec).len() as int, elements_per::<T>(alignment as int)) as nat,
            |i: int| fill_value,
        ),
        (final(vec).len() * size_of::<T>()) % (alignment as int) == 0,
        (final(vec).len() as int) % elements_per::<T>(alignment as int) == 0,
{
    let size: usize = core::mem::size_of::<T>();
    let unit: usize = alignment / size;
    let ghost before = vec@;
    proof {
        assert(unit >= 1 && unit * size == alignment) by (nonlinear_arith)
            requires
                size > 0,
                alignment > 0,
                alignment % size == 0,
                unit == alignment / size,
        ;
    }
    let rest: usize = vec.len() % unit;
    if rest != 0 {
        let pad: usize = unit - rest;
        let mut i: usize = 0;
        while i < pad
            invariant
                i <= pad,
                before.len() + pad <= usize::MAX,
                vec@ == before + Seq::new(i as nat, |k: int| fill_value),
            decreases pad - i,
        {
            vec.push(fill_value);
            i = i + 1;
            assert(vec@ =~= before + Seq::new(i as nat, |k: int| fill_value));
        }
        assert((before.len() + pad) % (unit as int) == 0) by (nonlinear_arith)
            requires
                unit > 0,
                rest == (before.len() as int) % (unit as int),
                pad == unit - rest,
                rest != 0,
        ;
    } else {
        assert(vec@ =~= before + Seq::new(0, |k: int| fill_value));
    }
    proof {
        lemma_aligned_bytes(vec.len() as int, unit as int, size as int, alignment as int);
    }
}


/// Number of indices to add to `len` indices so that the next primitive
/// starts at a multiple of `alignment` bytes.
pub open spec fn index_padding(len: int, alignment: int) -> int {
    padding(len, alignment / 4)
}

/// `indices`, each moved on by `offset`: what the indices of a primitive
/// become when its vertices follow `offset` vertices of earlier primitives.
pub open spec fn rebased(indices: Seq<u32>, offset: u32) -> Seq<u32> {
    Seq::new(indices.len(), |i: int| (indices[i] + offset) as u32)
}

/// Adds the indices of one primitive to the index data of a mesh.
///
/// The data is first padded with zeros to a multiple of `alignment` bytes,
/// so that a slice can be bound from where the primitive starts. Then the
/// indices follow, each moved on by `index_offset`, the number of vertices
/// that the primitives before have brought. The primitive that is returned
/// spans exactly the indices added.
pub fn append_primitive(
    indices: &mut Vec<u32>,
    primitive: &Vec<u32>,
    index_offset: u32,
    material: Id,
    alignment: usize,
) -> (added: Primitive)
    requires
        alignment > 0,
        alignment % 4 == 0,
        old(indices).len() + index_padding(old(indices).len() as int, alignment as int)
            + primitive.len() <= u32::MAX,
        forall|i: int| 0 <= i < primitive.len() ==> primitive[i] + index_offset <= u32::MAX,
    ensures
        final(indices)@ == old(indices)@ + Seq::new(
            index_padding(old(indices).len() as int, alignment as int) as nat,
            |i: int| 0u32,
        ) + rebased(primitive@, index_offset),
        added.index.start == old(indices).len() + index_padding(
            old(indices).len() as int,
            alignment as int,
        ),
        added.index.end == final(indices).len(),
        added.index.end - added.index.start == primitive.len(),
        (added.index.start * 4) % (alignment as int) == 0,
        added.material == material,
        added.wf(),
{
    broadcast use vstd::layout::layout_of_primitives;

    align_vector(indices, alignment, 0u32);
    let start = indices.len();
    let ghost aligned = indices@;
    let mut i: usize = 0;
    while i < primitive.len()
        invariant
            i <= primitive.len(),
            start == aligned.len(),
            start + primitive.len() <= u32::MAX,
            forall|k: int| 0 <= k < primitive.len() ==> primitive[k] + index_offset <= u32::MAX,
            indices@ == aligned + rebased(primitive@.take(i as int), index_offset),
        decreases primitive.len() - i,
    {
        indices.push(primitive[i] + index_offset);
        i = i + 1;
        assert(indices@ =~= aligned + rebased(primitive@.take(i as int), index_offset));
    }
    assert(primitive@.take(primitive.len() as int) =~= primitive@);
    Primitive { index: (start as u32)..(indices.len() as u32), material }
}

} // verus!
