//! Kinds of dynamically sized values: a slice of `i32`, a sized value with a
//! unit metadata, a zero-size value, and a callable that is used up by its
//! call.
use vstd::prelude::*;

use crate::backend::{AssembleSafe, DynSized, FnMove};
use crate::layout::{lemma_small_aligns, spec_address_layout, Layout, ADDRESS_SIZE};

verus! {

/// The longest slice of `i32` whose size in bytes fits in a `usize`.
pub const MAX_I32_LEN: usize = usize::MAX / 4;

/// A slice of `i32`; its metadata is its length.
pub struct I32Slice {
    items: Vec<i32>,
}

impl View for I32Slice {
    type V = Seq<i32>;

    closed spec fn view(&self) -> Seq<i32> {
        self.items@
    }
}

impl I32Slice {
    #[verifier::type_invariant]
    spec fn inv(&self) -> bool {
        self.items.len() <= MAX_I32_LEN
    }

    /// The slice holding `items`, or `None` where their size in bytes would
    /// not fit in a `usize`.
    pub fn from_vec(items: Vec<i32>) -> (r: Option<I32Slice>)
        ensures
            r is Some <==> items@.len() <= MAX_I32_LEN,
            r matches Some(s) ==> s@ == items@,
    {
        if items.len() <= MAX_I32_LEN {
            Some(I32Slice { items })
        } else {
            None
        }
    }

    /// The number of elements.
    pub fn len(&self) -> (r: usize)
        ensures
            r == self@.len(),
    {
        self.items.len()
    }

    /// The elements, as a vector of their own.
    pub fn to_vec(&self) -> (r: Vec<i32>)
        ensures
            r@ == self@,
    {
        let mut out: Vec<i32> = Vec::new();
        let mut i: usize = 0;
        while i < self.items.len()
            invariant
                i <= self.items@.len(),
                out@ == self.items@.subrange(0, i as int),
            decreases self.items@.len() - i,
        {
            out.push(self.items[i]);
            i = i + 1;
            proof {
                assert(out@ =~= self.items@.subrange(0, i as int));
            }
        }
        proof {
            assert(out@ =~= self.items@);
        }
        out
    }
}

/// The layout of `len` elements of `i32`. No slice is longer than
/// `MAX_I32_LEN`; a longer length is given the size of the longest.
pub open spec fn i32_slice_layout(len: usize) -> Layout {
    Layout {
        size: if len <= MAX_I32_LEN {
            (4 * len) as usize
        } else {
            (4 * MAX_I32_LEN) as usize
        },
        align: 4,
    }
}

impl DynSized for I32Slice {
    type Meta = usize;

    open spec fn spec_meta(&self) -> usize {
        self@.len() as usize
    }

    open spec fn spec_meta_layout() -> Layout {
        spec_address_layout()
    }

    open spec fn spec_value_layout(meta: usize) -> Layout {
        i32_slice_layout(meta)
    }

    fn meta(&self) -> (m: usize) {
        self.items.len()
    }

    fn meta_layout() -> (l: Layout) {
        Layout::address()
    }

    fn value_layout(meta: usize) -> (l: Layout) {
        proof {
            lemma_small_aligns();
        }
        let n = if meta <= MAX_I32_LEN {
            meta
        } else {
            MAX_I32_LEN
        };
        Layout { size: 4 * n, align: 4 }
    }
}

impl AssembleSafe for I32Slice {
    fn bitwise_copy(&self) -> (r: I32Slice) {
        proof {
            use_type_invariant(self);
        }
        I32Slice { items: self.to_vec() }
    }
}

/// The metadata of a kind whose values all have one layout: it holds
/// nothing.
#[derive(Clone, Copy, Debug, PartialEq, Eq, Structural)]
pub struct NoMeta;

/// A sized value behind a unit metadata: what a statically sized type looks
/// like as a dynamically sized kind.
#[derive(Clone, Copy, Debug, PartialEq, Eq, Structural)]
pub struct Token {
    pub id: u64,
}

impl DynSized for Token {
    type Meta = NoMeta;

    open spec fn spec_meta(&self) -> NoMeta {
        NoMeta
    }

    open spec fn spec_meta_layout() -> Layout {
        Layout { size: 0, align: 1 }
    }

    open spec fn spec_value_layout(meta: NoMeta) -> Layout {
        Layout { size: 8, align: 8 }
    }

    fn meta(&self) -> (m: NoMeta) {
        NoMeta
    }

    fn meta_layout() -> (l: Layout) {
        proof {
            lemma_small_aligns();
        }
        Layout { size: 0, align: 1 }
    }

    fn value_layout(meta: NoMeta) -> (l: Layout) {
        proof {
            lemma_small_aligns();
        }
        Layout { size: 8, align: 8 }
    }
}

impl View for Token {
    type V = Token;

    open spec fn view(&self) -> Token {
        *self
    }
}

impl AssembleSafe for Token {
    fn bitwise_copy(&self) -> (r: Token) {
        Token { id: self.id }
    }
}

/// A value of size zero behind a unit metadata.
#[derive(Clone, Copy, Debug, PartialEq, Eq, Structural)]
pub struct Marker;

impl DynSized for Marker {
    type Meta = NoMeta;

    open spec fn spec_meta(&self) -> NoMeta {
        NoMeta
    }

    open spec fn spec_meta_layout() -> Layout {
        Layout { size: 0, align: 1 }
    }

    open spec fn spec_value_layout(meta: NoMeta) -> Layout {
        Layout { size: 0, align: 1 }
    }

    fn meta(&self) -> (m: NoMeta) {
        NoMeta
    }

    fn meta_layout() -> (l: Layout) {
        proof {
            lemma_small_aligns();
        }
        Layout { size: 0, align: 1 }
    }

    fn value_layout(meta: NoMeta) -> (l: Layout) {
        proof {
            lemma_small_aligns();
        }
        Layout { size: 0, align: 1 }
    }
}

impl View for Marker {
    type V = Marker;

    open spec fn view(&self) -> Marker {
        *self
    }
}

impl AssembleSafe for Marker {
    fn bitwise_copy(&self) -> (r: Marker) {
        Marker
    }
}

/// The dispatch table that an `Interleave` is reached through.
pub const INTERLEAVE_TABLE: usize = 1;

/// The size of an `Interleave`: two vectors of three words each.
pub const CLOSURE_SIZE: usize = 48;

/// A callable that owns two sequences and, when called, pairs them up
/// element by element: `a[0], b[0], a[1], b[1], ...`, as far as the shorter
/// one goes.
pub struct Interleave {
    pub first: Vec<i32>,
    pub second: Vec<i32>,
}

/// The elements of `a` and `b` taken in turn, as far as the shorter goes.
pub open spec fn interleave(a: Seq<i32>, b: Seq<i32>) -> Seq<i32> {
    let n = if a.len() <= b.len() {
        a.len()
    } else {
        b.len()
    };
    Seq::new(2 * n, |j: int| if j % 2 == 0 { a[j / 2] } else { b[j / 2] })
}

impl DynSized for Interleave {
    type Meta = usize;

    open spec fn spec_meta(&self) -> usize {
        INTERLEAVE_TABLE
    }

    open spec fn spec_meta_layout() -> Layout {
        spec_address_layout()
    }

    open spec fn spec_value_layout(meta: usize) -> Layout {
        Layout { size: CLOSURE_SIZE, align: ADDRESS_SIZE }
    }

    fn meta(&self) -> (m: usize) {
        INTERLEAVE_TABLE
    }

    fn meta_layout() -> (l: Layout) {
        Layout::address()
    }

    fn value_layout(meta: usize) -> (l: Layout) {
        proof {
            lemma_small_aligns();
        }
        assert(CLOSURE_SIZE % ADDRESS_SIZE == 0);
        Layout { size: CLOSURE_SIZE, align: ADDRESS_SIZE }
    }
}

impl FnMove<()> for Interleave {
    type Output = Vec<i32>;

    open spec fn call_move_ensures(&self, args: (), r: Vec<i32>) -> bool {
        r@ == interleave(self.first@, self.second@)
    }

    fn call_move(self, args: ()) -> (r: Vec<i32>) {
        let n = if self.first.len() <= self.second.len() {
            self.first.len()
        } else {
            self.second.len()
        };
        let mut out: Vec<i32> = Vec::new();
        let mut i: usize = 0;
        while i < n
            invariant
                i <= n,
                n <= self.first@.len(),
                n <= self.second@.len(),
                n == self.first@.len() || n == self.second@.len(),
                out@.len() == 2 * i,
                forall|j: int|
                    0 <= j < 2 * i ==> #[trigger] out@[j] == (if j % 2 == 0 {
                        self.first@[j / 2]
                    } else {
                        self.second@[j / 2]
                    }),
            decreases n - i,
        {
            out.push(self.first[i]);
            out.push(self.second[i]);
            i = i + 1;
        }
        proof {
            assert(out@ =~= interleave(self.first@, self.second@));
        }
        out
    }
}

} // verus!
