//! The metadata capability, wide handles, and the metadata-prefixed record.
use vstd::prelude::*;

use crate::layout::{record_fits, record_layout, spec_record_layout, Layout};

verus! {

/// A kind of dynamically sized value: what its metadata is, and how the
/// metadata fixes the value's size and alignment.
pub trait DynSized: Sized {
    /// The descriptor that, beside an address, recovers the value.
    type Meta: Copy;

    spec fn spec_meta(&self) -> Self::Meta;

    /// The layout of the metadata field itself.
    spec fn spec_meta_layout() -> Layout;

    /// The layout of a value with the given metadata.
    spec fn spec_value_layout(meta: Self::Meta) -> Layout;

    fn meta(&self) -> (m: Self::Meta)
        ensures
            m == self.spec_meta(),
    ;

    fn meta_layout() -> (l: Layout)
        ensures
            l == Self::spec_meta_layout(),
            l.wf(),
    ;

    fn value_layout(meta: Self::Meta) -> (l: Layout)
        ensures
            l == Self::spec_value_layout(meta),
            l.wf(),
    ;
}

/// A kind whose value can be duplicated byte for byte, with no hidden state
/// outside the value's own bytes; its view is what those bytes hold.
pub trait AssembleSafe: DynSized + View {
    fn bitwise_copy(&self) -> (r: Self)
        ensures
            r@ == self@,
            r.spec_meta() == self.spec_meta(),
    ;
}

/// A callable that is used up by its one call.
pub trait FnMove<Args>: Sized {
    type Output;

    /// What holds of the result `r` of calling `self` on `args`.
    spec fn call_move_ensures(&self, args: Args, r: Self::Output) -> bool;

    fn call_move(self, args: Args) -> (r: Self::Output)
        ensures
            self.call_move_ensures(args, r),
    ;
}

/// A two-part reference: the metadata and the address.
pub struct WideHandle<M> {
    pub meta: M,
    pub addr: usize,
}

/// The wide handle that pairs `meta` with `addr`.
pub open spec fn spec_assemble<M>(meta: M, addr: usize) -> WideHandle<M> {
    WideHandle { meta, addr }
}

/// The metadata and the address of a wide handle.
pub open spec fn spec_disassemble<M>(handle: WideHandle<M>) -> (M, usize) {
    (handle.meta, handle.addr)
}

/// The layout of the record that stores a value of kind `D` with metadata
/// `meta`.
pub open spec fn backend_layout_of<D: DynSized>(meta: D::Meta) -> Layout {
    spec_record_layout(D::spec_meta_layout(), D::spec_value_layout(meta))
}

/// Whether the record for metadata `meta` has a size that fits in a `usize`.
pub open spec fn backend_fits<D: DynSized>(meta: D::Meta) -> bool {
    record_fits(D::spec_meta_layout(), D::spec_value_layout(meta))
}

/// The storage format behind a thin handle: the metadata, then the value.
pub struct ThinBackend<D: DynSized, T> {
    pub meta: D::Meta,
    pub value: T,
}

impl<D: DynSized> ThinBackend<D, D> {
    /// Builds the record for `value`, with the value's own metadata in front.
    pub fn new(value: D) -> (r: Self)
        ensures
            r.meta == value.spec_meta(),
            r.value == value,
    {
        let meta = value.meta();
        ThinBackend { meta, value }
    }

    /// The record is well formed when its metadata is its value's.
    pub open spec fn wf(&self) -> bool {
        self.meta == self.value.spec_meta()
    }

    /// Takes the value back out of the record.
    pub fn into_value(self) -> (r: D)
        ensures
            r == self.value,
    {
        self.value
    }

    /// Builds the wide handle over a record from its metadata and address.
    pub fn assemble(meta: D::Meta, addr: usize) -> (r: WideHandle<D::Meta>)
        ensures
            r == spec_assemble(meta, addr),
    {
        WideHandle { meta, addr }
    }

    /// Splits a wide handle over a record into its metadata and address.
    pub fn disassemble(handle: WideHandle<D::Meta>) -> (r: (D::Meta, usize))
        ensures
            r == spec_disassemble(handle),
    {
        (handle.meta, handle.addr)
    }

    /// The layout of the record that would hold `src`, or `None` where its
    /// size does not fit in a `usize`.
    pub fn layout_of_backend(src: &D) -> (r: Option<Layout>)
        ensures
            r is Some <==> backend_fits::<D>(src.spec_meta()),
            r matches Some(l) ==> l == backend_layout_of::<D>(src.spec_meta()) && l.wf(),
    {
        let meta = src.meta();
        match record_layout(D::meta_layout(), D::value_layout(meta)) {
            Some((_, l)) => Some(l),
            None => None,
        }
    }

    /// The size of the record that would hold `src`: metadata, padding and
    /// value, padded to the record's alignment.
    pub fn size_of_backend(src: &D) -> (r: usize)
        requires
            backend_fits::<D>(src.spec_meta()),
        ensures
            r == backend_layout_of::<D>(src.spec_meta()).size,
    {
        match Self::layout_of_backend(src) {
            Some(l) => l.size,
            None => 0,
        }
    }

    /// The alignment of the record that would hold `src`: the larger of the
    /// metadata's and the value's.
    pub fn align_of_backend(src: &D) -> (r: usize)
        requires
            backend_fits::<D>(src.spec_meta()),
        ensures
            r == backend_layout_of::<D>(src.spec_meta()).align,
    {
        match Self::layout_of_backend(src) {
            Some(l) => l.align,
            None => 1,
        }
    }
}

/// Disassembling the wide handle assembled from a value's metadata and an
/// address gives back that metadata and that address; assembling what a
/// wide handle disassembles into gives back that handle.
pub proof fn lemma_round_trip<D: DynSized>(v: D, addr: usize, handle: WideHandle<D::Meta>)
    ensures
        spec_disassemble(spec_assemble(v.spec_meta(), addr)) == (v.spec_meta(), addr),
        spec_assemble(spec_disassemble(handle).0, spec_disassemble(handle).1) == handle,
{
}

} // verus!
