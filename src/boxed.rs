//! The owning thin box, over a heap of metadata-prefixed records.
use vstd::prelude::*;
use vstd::hash_map::HashMapWithView;

use std::marker::PhantomData;

use crate::backend::{
    backend_fits, backend_layout_of, spec_assemble, AssembleSafe, DynSized, FnMove, ThinBackend, WideHandle,
};
use crate::layout::{pad_to_align, round_up, Layout};

verus! {

broadcast use vstd::std_specs::hash::group_hash_axioms;

/// The lowest address that the heap hands out.
pub const HEAP_BASE: usize = 4096;

/// One record in the heap, with the address and layout it was placed at.
pub struct Block<D: DynSized> {
    pub addr: usize,
    pub layout: Layout,
    pub record: ThinBackend<D, D>,
}

impl<D: DynSized> Block<D> {
    /// The record carries its value's metadata, its layout is the record
    /// layout for that metadata, and a record of size zero sits at the
    /// non-null sentinel address (its alignment) with no memory behind it.
    pub open spec fn wf(&self) -> bool {
        &&& self.record.wf()
        &&& self.layout == backend_layout_of::<D>(self.record.meta)
        &&& self.layout.wf()
        &&& self.addr > 0
        &&& self.layout.size == 0 ==> self.addr == self.layout.align
    }
}

/// A heap of records, each owned by exactly one thin box, with counts of the
/// allocation requests made and of the values destroyed.
#[verifier::reject_recursive_types(D)]
pub struct Heap<D: DynSized> {
    records: HashMapWithView<usize, Block<D>>,
    next_key: usize,
    cursor: usize,
    allocations: usize,
    destroyed: usize,
}

impl<D: DynSized> Heap<D> {
    /// The live records, by the key that their thin box holds.
    pub closed spec fn records(&self) -> Map<usize, Block<D>> {
        self.records@
    }

    /// The key that the next record placed will get.
    pub closed spec fn next_key(&self) -> usize {
        self.next_key
    }

    /// The first address not yet handed out.
    pub closed spec fn cursor(&self) -> usize {
        self.cursor
    }

    /// How many allocation requests were made.
    pub closed spec fn allocations(&self) -> usize {
        self.allocations
    }

    /// How many values were destroyed.
    pub closed spec fn destroyed(&self) -> usize {
        self.destroyed
    }

    pub closed spec fn wf(&self) -> bool {
        &&& self.records@.dom().finite()
        &&& self.destroyed + self.records@.len() <= self.next_key
        &&& self.cursor >= HEAP_BASE
        &&& forall|k: usize| #[trigger]
            self.records@.contains_key(k) ==> k < self.next_key && self.records@[k].wf()
    }

    /// Whether memory for a record of layout `l` can be handed out: a
    /// zero-size record needs none, any other one needs room below the top
    /// of the address space.
    pub open spec fn can_place(&self, l: Layout) -> bool {
        l.size == 0 || (round_up(self.cursor() as nat, l.align as nat) + l.size <= usize::MAX
            && self.allocations() < usize::MAX)
    }

    /// An empty heap: no records, nothing allocated, nothing destroyed.
    pub fn new() -> (r: Self)
        ensures
            r.wf(),
            r.records() == Map::<usize, Block<D>>::empty(),
            r.allocations() == 0,
            r.destroyed() == 0,
            r.cursor() == HEAP_BASE,
            r.next_key() == 0,
    {
        Heap {
            records: HashMapWithView::new(),
            next_key: 0,
            cursor: HEAP_BASE,
            allocations: 0,
            destroyed: 0,
        }
    }

    /// How many allocation requests were made.
    pub fn allocation_count(&self) -> (r: usize)
        ensures
            r == self.allocations(),
    {
        self.allocations
    }

    /// How many values were destroyed.
    pub fn destroy_count(&self) -> (r: usize)
        ensures
            r == self.destroyed(),
    {
        self.destroyed
    }

    /// Whether `b`'s record lives in this heap.
    pub fn owns(&self, b: &ThinBox<D>) -> (r: bool)
        ensures
            r == self.records().contains_key(b.key()),
    {
        self.records.contains_key(&b.key)
    }

    /// How many records are live.
    pub fn live_count(&self) -> (r: usize)
        ensures
            r == self.records().len(),
    {
        self.records.len()
    }

    /// Hands out an address for a record of layout `l`: the sentinel for a
    /// zero-size record, without an allocation request; else the cursor
    /// rounded up to the alignment.
    fn allocate(&mut self, l: Layout) -> (r: Option<usize>)
        requires
            old(self).wf(),
            l.wf(),
        ensures
            final(self).wf(),
            r is Some <==> old(self).can_place(l),
            r is None ==> *final(self) == *old(self),
            r matches Some(a) ==> {
                &&& a > 0
                &&& final(self).records() == old(self).records()
                &&& final(self).next_key() == old(self).next_key()
                &&& final(self).destroyed() == old(self).destroyed()
                &&& l.size == 0 ==> a == l.align && *final(self) == *old(self)
                &&& l.size > 0 ==> a == round_up(old(self).cursor() as nat, l.align as nat)
                    && final(self).cursor() == a + l.size && final(self).allocations()
                    == old(self).allocations() + 1
            },
    {
        if l.size == 0 {
            return Some(l.align);
        }
        if self.allocations == usize::MAX {
            return None;
        }
        match pad_to_align(self.cursor, l.align) {
            None => None,
            Some(a) => {
                if a > usize::MAX - l.size {
                    None
                } else {
                    self.cursor = a + l.size;
                    self.allocations = self.allocations + 1;
                    Some(a)
                }
            },
        }
    }

    /// Takes a record out of the heap.
    fn take(&mut self, key: usize) -> (r: Block<D>)
        requires
            old(self).wf(),
            old(self).records().contains_key(key),
        ensures
            final(self).wf(),
            r == old(self).records()[key],
            final(self).records() == old(self).records().remove(key),
            final(self).next_key() == old(self).next_key(),
            final(self).cursor() == old(self).cursor(),
            final(self).allocations() == old(self).allocations(),
            final(self).destroyed() == old(self).destroyed(),
    {
        self.records.remove(&key).unwrap()
    }
}


/// The heap `h1` is `h0` with the record for `value` placed under the fresh
/// key `key`, at an address that the allocator handed out.
pub open spec fn places<D: DynSized>(h0: Heap<D>, h1: Heap<D>, key: usize, value: D) -> bool {
    let l = backend_layout_of::<D>(value.spec_meta());
    &&& !h0.records().contains_key(key)
    &&& h1.records().contains_key(key)
    &&& h1.records().remove(key) == h0.records()
    &&& h1.records()[key].record.value == value
    &&& h1.records()[key].record.meta == value.spec_meta()
    &&& h1.records()[key].layout == l
    &&& h1.destroyed() == h0.destroyed()
    &&& h1.allocations() == h0.allocations() + (if l.size > 0 {
        1int
    } else {
        0int
    })
    &&& (l.size > 0 ==> h1.records()[key].addr == round_up(h0.cursor() as nat, l.align as nat))
    &&& (l.size == 0 ==> h1.records()[key].addr == l.align)
}

/// The heap `h1` is `h0` with a record placed under the fresh key `key`,
/// holding a byte-for-byte duplicate of `src`.
pub open spec fn places_copy<D: AssembleSafe>(h0: Heap<D>, h1: Heap<D>, key: usize, src: D) -> bool {
    let l = backend_layout_of::<D>(src.spec_meta());
    &&& !h0.records().contains_key(key)
    &&& h1.records().contains_key(key)
    &&& h1.records().remove(key) == h0.records()
    &&& h1.records()[key].record.value@ == src@
    &&& h1.records()[key].record.meta == src.spec_meta()
    &&& h1.records()[key].layout == l
    &&& h1.destroyed() == h0.destroyed()
    &&& h1.allocations() == h0.allocations() + (if l.size > 0 {
        1int
    } else {
        0int
    })
    &&& (l.size > 0 ==> h1.records()[key].addr == round_up(h0.cursor() as nat, l.align as nat))
    &&& (l.size == 0 ==> h1.records()[key].addr == l.align)
}

/// Whether the heap can place the record for `value`: the record's size fits
/// in a `usize`, the allocator has room, and a fresh key is left.
pub open spec fn can_box<D: DynSized>(h: Heap<D>, value: D) -> bool {
    &&& backend_fits::<D>(value.spec_meta())
    &&& h.can_place(backend_layout_of::<D>(value.spec_meta()))
    &&& h.next_key() < usize::MAX
}

/// The heap `h1` is `h0` without the record under `key`, whose value was not
/// destroyed.
pub open spec fn frees<D: DynSized>(h0: Heap<D>, h1: Heap<D>, key: usize) -> bool {
    &&& h0.records().contains_key(key)
    &&& h1.records() == h0.records().remove(key)
    &&& h1.destroyed() == h0.destroyed()
    &&& h1.allocations() == h0.allocations()
    &&& h1.next_key() == h0.next_key()
    &&& h1.cursor() == h0.cursor()
}

/// The heap `h1` is `h0` without the record under `key`, whose value was
/// destroyed once.
pub open spec fn destroys<D: DynSized>(h0: Heap<D>, h1: Heap<D>, key: usize) -> bool {
    &&& h0.records().contains_key(key)
    &&& h1.records() == h0.records().remove(key)
    &&& h1.destroyed() == h0.destroyed() + 1
    &&& h1.allocations() == h0.allocations()
    &&& h1.next_key() == h0.next_key()
    &&& h1.cursor() == h0.cursor()
}

/// The heap `h1` is `h0` without the record under `key`, which `native` now
/// owns in its wide form; nothing was destroyed.
pub open spec fn hands_over<D: DynSized>(
    h0: Heap<D>,
    h1: Heap<D>,
    key: usize,
    native: NativeBox<D>,
) -> bool {
    &&& frees(h0, h1, key)
    &&& native.backend == h0.records()[key].record
    &&& native.layout == h0.records()[key].layout
    &&& native.handle == spec_assemble(h0.records()[key].record.meta, h0.records()[key].addr)
}

/// An owning handle that holds one word: the key of its record in the heap.
pub struct ThinBox<D: DynSized> {
    key: usize,
    marker: PhantomData<D>,
}

/// A record handed out of the heap in its wide form: the wide handle over the
/// record, and the record it owns.
pub struct NativeBox<D: DynSized> {
    pub handle: WideHandle<D::Meta>,
    pub layout: Layout,
    pub backend: ThinBackend<D, D>,
}

impl<D: DynSized> NativeBox<D> {
    /// The handle's metadata is the record's, and the layout is the record
    /// layout for that metadata.
    pub open spec fn wf(&self) -> bool {
        &&& self.backend.wf()
        &&& self.handle.meta == self.backend.meta
        &&& self.layout == backend_layout_of::<D>(self.backend.meta)
        &&& self.layout.wf()
        &&& self.handle.addr > 0
        &&& self.layout.size == 0 ==> self.handle.addr == self.layout.align
    }

    /// The size of the whole record behind the handle.
    pub fn size_of_backend(&self) -> (r: usize)
        ensures
            r == self.layout.size,
    {
        self.layout.size
    }

    /// The size of the value inside the record.
    pub fn size_of_value(&self) -> (r: usize)
        ensures
            r == D::spec_value_layout(self.backend.meta).size,
    {
        D::value_layout(self.backend.meta).size
    }
}

/// A bare value moved out into storage of its own.
pub struct ValueBox<D> {
    pub addr: usize,
    pub layout: Layout,
    pub value: D,
}

impl<D: DynSized> ThinBox<D> {
    /// The key of this box's record.
    pub closed spec fn key(&self) -> usize {
        self.key
    }

    /// The record that this box owns in `heap`.
    pub open spec fn block(&self, heap: Heap<D>) -> Block<D> {
        heap.records()[self.key()]
    }

    /// The value that this box owns in `heap`.
    pub open spec fn value(&self, heap: Heap<D>) -> D {
        heap.records()[self.key()].record.value
    }

    /// Places a record for `value` in the heap. `None`, with the heap left as
    /// it was, when the heap cannot place it.
    fn place(heap: &mut Heap<D>, record: ThinBackend<D, D>) -> (r: Option<ThinBox<D>>)
        requires
            old(heap).wf(),
            record.wf(),
        ensures
            final(heap).wf(),
            r is Some <==> can_box(*old(heap), record.value),
            r is None ==> *final(heap) == *old(heap),
            r matches Some(b) ==> places(*old(heap), *final(heap), b.key(), record.value),
    {
        if heap.next_key == usize::MAX {
            return None;
        }
        let l = match ThinBackend::<D, D>::layout_of_backend(&record.value) {
            Some(l) => l,
            None => {
                return None;
            },
        };
        match heap.allocate(l) {
            None => None,
            Some(addr) => {
                let key = heap.next_key;
                proof {
                    assert(!heap.records@.contains_key(key));
                }
                heap.records.insert(key, Block { addr, layout: l, record });
                heap.next_key = key + 1;
                proof {
                    assert(heap.records@.remove(key) =~= old(heap).records@);
                }
                Some(ThinBox { key, marker: PhantomData })
            },
        }
    }

    /// Boxes `value`: computes its metadata, lays out the record
    /// `{ metadata, value }` in newly handed-out memory, and returns the one
    /// word that finds it. `None`, with the heap left as it was, when the heap
    /// cannot place the record.
    pub fn new(heap: &mut Heap<D>, value: D) -> (r: Option<ThinBox<D>>)
        requires
            old(heap).wf(),
        ensures
            final(heap).wf(),
            r is Some <==> can_box(*old(heap), value),
            r is None ==> *final(heap) == *old(heap),
            r matches Some(b) ==> places(*old(heap), *final(heap), b.key(), value),
    {
        let record = ThinBackend::new(value);
        Self::place(heap, record)
    }

    /// Releases the record's memory without destroying the value, which was
    /// already used up elsewhere.
    pub fn free(self, heap: &mut Heap<D>)
        requires
            old(heap).wf(),
            old(heap).records().contains_key(self.key()),
        ensures
            final(heap).wf(),
            frees(*old(heap), *final(heap), self.key()),
    {
        let _ = heap.take(self.key);
    }

    /// Destroys the value and releases the record: what dropping a box does.
    pub fn destroy(self, heap: &mut Heap<D>)
        requires
            old(heap).wf(),
            old(heap).records().contains_key(self.key()),
        ensures
            final(heap).wf(),
            destroys(*old(heap), *final(heap), self.key()),
    {
        let _ = heap.take(self.key);
        heap.destroyed = heap.destroyed + 1;
    }

    /// Hands the record over in its wide form. The box is gone and nothing is
    /// destroyed: the native box is the record's one owner.
    pub fn into_box(self, heap: &mut Heap<D>) -> (r: NativeBox<D>)
        requires
            old(heap).wf(),
            old(heap).records().contains_key(self.key()),
        ensures
            final(heap).wf(),
            hands_over(*old(heap), *final(heap), self.key(), r),
            r.wf(),
    {
        let b = heap.take(self.key);
        let handle = ThinBackend::<D, D>::assemble(b.record.meta, b.addr);
        NativeBox { handle, layout: b.layout, backend: b.record }
    }

    /// Takes over a record in its wide form, under a fresh key. No memory is
    /// requested: the record already has its own. `None`, with the heap left
    /// as it was, when no fresh key is left.
    pub fn from_box(heap: &mut Heap<D>, native: NativeBox<D>) -> (r: Option<ThinBox<D>>)
        requires
            old(heap).wf(),
            native.wf(),
        ensures
            final(heap).wf(),
            r is Some <==> old(heap).next_key() < usize::MAX,
            r is None ==> *final(heap) == *old(heap),
            r matches Some(b) ==> {
                &&& !old(heap).records().contains_key(b.key())
                &&& final(heap).records() == old(heap).records().insert(
                    b.key(),
                    Block { addr: native.handle.addr, layout: native.layout, record: native.backend },
                )
                &&& final(heap).allocations() == old(heap).allocations()
                &&& final(heap).destroyed() == old(heap).destroyed()
                &&& final(heap).cursor() == old(heap).cursor()
            },
    {
        if heap.next_key == usize::MAX {
            return None;
        }
        let (_, addr) = ThinBackend::<D, D>::disassemble(native.handle);
        let key = heap.next_key;
        heap.records.insert(key, Block { addr, layout: native.layout, record: native.backend });
        heap.next_key = key + 1;
        Some(ThinBox { key, marker: PhantomData })
    }

    /// Read access to the value.
    pub fn get<'a>(&self, heap: &'a Heap<D>) -> (r: &'a D)
        requires
            heap.wf(),
            heap.records().contains_key(self.key()),
        ensures
            *r == self.value(*heap),
    {
        let b = heap.records.get(&self.key).unwrap();
        &b.record.value
    }

    /// Write access to the value: puts `value` in place of the one in the
    /// record and hands the old one back. A write cannot change how large the
    /// value is, so `value` has the metadata stored in the record.
    pub fn replace(&self, heap: &mut Heap<D>, value: D) -> (r: D)
        requires
            old(heap).wf(),
            old(heap).records().contains_key(self.key()),
            value.spec_meta() == self.block(*old(heap)).record.meta,
        ensures
            final(heap).wf(),
            r == self.value(*old(heap)),
            final(heap).records() == old(heap).records().insert(
                self.key(),
                Block {
                    addr: self.block(*old(heap)).addr,
                    layout: self.block(*old(heap)).layout,
                    record: ThinBackend { meta: value.spec_meta(), value },
                },
            ),
            final(heap).allocations() == old(heap).allocations(),
            final(heap).destroyed() == old(heap).destroyed(),
            final(heap).next_key() == old(heap).next_key(),
            final(heap).cursor() == old(heap).cursor(),
    {
        let b = heap.take(self.key);
        let meta = b.record.meta;
        heap.records.insert(
            self.key,
            Block { addr: b.addr, layout: b.layout, record: ThinBackend { meta, value } },
        );
        proof {
            assert(heap.records@ =~= old(heap).records@.insert(self.key, heap.records@[self.key]));
        }
        b.record.value
    }

    /// The size of the value, found from the metadata stored in the record.
    pub fn size_of_val(&self, heap: &Heap<D>) -> (r: usize)
        requires
            heap.wf(),
            heap.records().contains_key(self.key()),
        ensures
            r == D::spec_value_layout(self.block(*heap).record.meta).size,
    {
        let w = ThinBackend::fat_from_thin(heap, self);
        D::value_layout(w.meta).size
    }

    /// Moves the value out into storage of its own and releases the record
    /// without destroying the value. A zero-size value gets the sentinel
    /// address and no allocation request. `None`, with the heap left as it
    /// was, when the heap has no room for the value.
    pub fn into_boxed_value(self, heap: &mut Heap<D>) -> (r: Option<ValueBox<D>>)
        requires
            old(heap).wf(),
            old(heap).records().contains_key(self.key()),
        ensures
            final(heap).wf(),
            r is Some <==> old(heap).can_place(
                D::spec_value_layout(self.block(*old(heap)).record.meta),
            ),
            r is None ==> *final(heap) == *old(heap),
            r matches Some(v) ==> {
                let l = D::spec_value_layout(self.block(*old(heap)).record.meta);
                &&& v.value == self.value(*old(heap))
                &&& v.layout == l
                &&& final(heap).records() == old(heap).records().remove(self.key())
                &&& final(heap).destroyed() == old(heap).destroyed()
                &&& final(heap).allocations() == old(heap).allocations() + (if l.size > 0 {
                    1int
                } else {
                    0int
                })
                &&& l.size == 0 ==> v.addr == l.align
            },
    {
        let meta = heap.records.get(&self.key).unwrap().record.meta;
        let l = D::value_layout(meta);
        match heap.allocate(l) {
            None => None,
            Some(addr) => {
                let b = heap.take(self.key);
                Some(ValueBox { addr, layout: l, value: b.record.value })
            },
        }
    }

    /// Calls the boxed callable once, using it up, then releases the record
    /// without destroying the callable a second time.
    pub fn call_once<Args>(self, heap: &mut Heap<D>, args: Args) -> (r: D::Output)
        where
            D: FnMove<Args>,
        requires
            old(heap).wf(),
            old(heap).records().contains_key(self.key()),
        ensures
            final(heap).wf(),
            frees(*old(heap), *final(heap), self.key()),
            self.value(*old(heap)).call_move_ensures(args, r),
    {
        let b = heap.take(self.key);
        b.record.value.call_move(args)
    }
}

impl<D: DynSized> ThinBackend<D, D> {
    /// Rebuilds the wide handle over the record that `thin` finds: reads the
    /// metadata from the record's first field and pairs it with the record's
    /// address.
    pub fn fat_from_thin(heap: &Heap<D>, thin: &ThinBox<D>) -> (r: WideHandle<D::Meta>)
        requires
            heap.wf(),
            heap.records().contains_key(thin.key()),
        ensures
            r == spec_assemble(thin.block(*heap).record.meta, thin.block(*heap).addr),
    {
        let b = heap.records.get(&thin.key).unwrap();
        ThinBackend::<D, D>::assemble(b.record.meta, b.addr)
    }
}

impl<D: AssembleSafe> ThinBox<D> {
    /// Makes a new box holding a byte-for-byte duplicate of `src`: lays out
    /// the record for `src`'s metadata (no allocation request when its size
    /// is zero), writes the metadata, then copies the value. `None`, with the
    /// heap left as it was, when the heap cannot place the record.
    pub fn copy_into_new(heap: &mut Heap<D>, src: &D) -> (r: Option<ThinBox<D>>)
        requires
            old(heap).wf(),
        ensures
            final(heap).wf(),
            r is Some <==> can_box(*old(heap), *src),
            r is None ==> *final(heap) == *old(heap),
            r matches Some(b) ==> places_copy(*old(heap), *final(heap), b.key(), *src),
    {
        let meta = src.meta();
        let value = src.bitwise_copy();
        let r = Self::place(heap, ThinBackend { meta, value });
        proof {
            assert(can_box(*old(heap), value) == can_box(*old(heap), *src));
        }
        r
    }
}

/// Duplicates `src` byte for byte into storage of its own, sized and aligned
/// for the bare value. A zero-size value gets the sentinel address and no
/// allocation request. `None`, with the heap left as it was, when the heap
/// has no room for the value.
pub fn copy_into_new_box<D: AssembleSafe>(heap: &mut Heap<D>, src: &D) -> (r: Option<ValueBox<D>>)
    requires
        old(heap).wf(),
    ensures
        final(heap).wf(),
        r is Some <==> old(heap).can_place(D::spec_value_layout(src.spec_meta())),
        r is None ==> *final(heap) == *old(heap),
        r matches Some(v) ==> {
            let l = D::spec_value_layout(src.spec_meta());
            &&& v.value@ == src@
            &&& v.value.spec_meta() == src.spec_meta()
            &&& v.layout == l
            &&& final(heap).records() == old(heap).records()
            &&& final(heap).destroyed() == old(heap).destroyed()
            &&& final(heap).allocations() == old(heap).allocations() + (if l.size > 0 {
                1int
            } else {
                0int
            })
            &&& l.size == 0 ==> v.addr == l.align
        },
{
    let l = D::value_layout(src.meta());
    match heap.allocate(l) {
        None => None,
        Some(addr) => Some(ValueBox { addr, layout: l, value: src.bitwise_copy() }),
    }
}

} // verus!
