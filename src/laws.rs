//! Laws that relate the operations of the thin box.
use vstd::prelude::*;

use crate::backend::{DynSized, FnMove};
use crate::boxed::{destroys, frees, hands_over, places, places_copy, Heap, NativeBox};
use crate::kinds::{interleave, Interleave};
use crate::layout::{spec_record_layout, ADDRESS_SIZE};

verus! {

/// Boxing `v` and handing the record over in its wide form gives a record of
/// exactly the layout of `{ metadata, padding, value }` built by hand for
/// `v`, holding `v`, and leaves the heap's records as they were.
pub proof fn lemma_size_equivalence<D: DynSized>(
    h0: Heap<D>,
    h1: Heap<D>,
    h2: Heap<D>,
    key: usize,
    v: D,
    native: NativeBox<D>,
)
    requires
        places(h0, h1, key, v),
        hands_over(h1, h2, key, native),
    ensures
        native.layout == spec_record_layout(D::spec_meta_layout(), D::spec_value_layout(v.spec_meta())),
        native.backend.value == v,
        native.backend.meta == v.spec_meta(),
        h2.records() =~= h0.records(),
{
}

/// Boxing a value and dropping the box destroys the value exactly once and
/// leaves the heap's records as they were.
pub proof fn lemma_single_destruction<D: DynSized>(
    h0: Heap<D>,
    h1: Heap<D>,
    h2: Heap<D>,
    key: usize,
    v: D,
)
    requires
        places(h0, h1, key, v),
        destroys(h1, h2, key),
    ensures
        h2.destroyed() == h0.destroyed() + 1,
        h2.records() =~= h0.records(),
{
}

/// Boxing a value, duplicating it byte for byte into a second box, freeing
/// the first box without destruction and dropping the second destroys the
/// value exactly once, and leaves the heap's records as they were.
pub proof fn lemma_single_destruction_after_copy<D: crate::backend::AssembleSafe>(
    h0: Heap<D>,
    h1: Heap<D>,
    h2: Heap<D>,
    h3: Heap<D>,
    h4: Heap<D>,
    key: usize,
    copy_key: usize,
    v: D,
)
    requires
        places(h0, h1, key, v),
        places_copy(h1, h2, copy_key, v),
        frees(h2, h3, key),
        destroys(h3, h4, copy_key),
    ensures
        h4.destroyed() == h0.destroyed() + 1,
        h4.records() =~= h0.records(),
{
    assert(key != copy_key);
}

/// Boxing a value whose metadata and value both have size zero makes no
/// allocation request, places the record at the sentinel address, and the
/// value in it has size zero.
pub proof fn lemma_zero_size_path<D: DynSized>(h0: Heap<D>, h1: Heap<D>, key: usize, v: D)
    requires
        places(h0, h1, key, v),
        D::spec_meta_layout().wf(),
        D::spec_value_layout(v.spec_meta()).wf(),
        D::spec_meta_layout().size == 0,
        D::spec_value_layout(v.spec_meta()).size == 0,
    ensures
        h1.allocations() == h0.allocations(),
        h1.records()[key].layout.size == 0,
        h1.records()[key].addr == h1.records()[key].layout.align,
        D::spec_value_layout(h1.records()[key].record.meta).size == 0,
{
}

/// Boxing a callable that owns two sequences and calling it once yields the
/// two sequences taken in turn, and releases its record without destroying
/// anything.
pub proof fn lemma_consume_once(
    h0: Heap<Interleave>,
    h1: Heap<Interleave>,
    h2: Heap<Interleave>,
    key: usize,
    f: Interleave,
    r: Vec<i32>,
)
    requires
        places(h0, h1, key, f),
        frees(h1, h2, key),
        h1.records()[key].record.value.call_move_ensures((), r),
    ensures
        r@ == interleave(f.first@, f.second@),
        h2.records() =~= h0.records(),
        h2.destroyed() == h0.destroyed(),
{
}

} // verus!
