//! Size and alignment arithmetic for the metadata-prefixed record.
use vstd::prelude::*;
use vstd::arithmetic::power2::is_pow2;

verus! {

/// The width in bytes of one machine address.
pub const ADDRESS_SIZE: usize = 8;

/// The size and alignment of a value in memory.
#[derive(Clone, Copy, Debug, PartialEq, Eq, Structural)]
pub struct Layout {
    pub size: usize,
    pub align: usize,
}

impl Layout {
    /// A layout is usable when its alignment is a power of two and its size
    /// is a whole number of alignment units.
    pub open spec fn wf(self) -> bool {
        &&& is_pow2(self.align as int)
        &&& self.align > 0
        &&& self.size % self.align == 0
    }

    /// The layout of one machine address.
    pub fn address() -> (r: Layout)
        ensures
            r == spec_address_layout(),
            r.wf(),
    {
        proof {
            lemma_small_aligns();
        }
        Layout { size: ADDRESS_SIZE, align: ADDRESS_SIZE }
    }
}

/// The alignments of the primitive types are powers of two.
pub proof fn lemma_small_aligns()
    ensures
        is_pow2(1),
        is_pow2(2),
        is_pow2(4),
        is_pow2(8),
{
    reveal_with_fuel(is_pow2, 4);
}

pub open spec fn spec_address_layout() -> Layout {
    Layout { size: ADDRESS_SIZE, align: ADDRESS_SIZE }
}

/// The least multiple of `a` that is not below `n`.
pub open spec fn round_up(n: nat, a: nat) -> nat
    recommends
        a > 0,
{
    if n % a == 0 {
        n
    } else {
        (n + (a - n % a)) as nat
    }
}

pub open spec fn spec_max(a: nat, b: nat) -> nat {
    if a >= b {
        a
    } else {
        b
    }
}

/// Where the value starts inside the record: the metadata's size, padded up
/// to the value's alignment.
pub open spec fn record_offset(meta: Layout, value: Layout) -> nat {
    round_up(meta.size as nat, value.align as nat)
}

/// The record's alignment: the larger of the two alignments.
pub open spec fn record_align(meta: Layout, value: Layout) -> nat {
    spec_max(meta.align as nat, value.align as nat)
}

/// The record's size: metadata, padding and value, padded up to the record's
/// alignment.
pub open spec fn record_size(meta: Layout, value: Layout) -> nat {
    round_up((record_offset(meta, value) + value.size) as nat, record_align(meta, value))
}

/// The record's size and alignment as a layout.
pub open spec fn spec_record_layout(meta: Layout, value: Layout) -> Layout {
    Layout {
        size: record_size(meta, value) as usize,
        align: record_align(meta, value) as usize,
    }
}

/// Whether the record's size can be held in a `usize`.
pub open spec fn record_fits(meta: Layout, value: Layout) -> bool {
    record_size(meta, value) <= usize::MAX
}

/// The layout of a wide handle: an address followed by the metadata.
pub open spec fn spec_wide_handle_layout(meta: Layout) -> Layout {
    spec_record_layout(spec_address_layout(), meta)
}

/// The layout of a thin handle: one address, whatever the metadata.
pub open spec fn spec_thin_handle_layout(meta: Layout) -> Layout {
    spec_address_layout()
}

proof fn lemma_round_up(n: nat, a: nat)
    requires
        a > 0,
    ensures
        round_up(n, a) >= n,
        round_up(n, a) < n + a,
        round_up(n, a) % a == 0,
{
    if n % a != 0 {
        let q = n / a;
        let r = n % a;
        vstd::arithmetic::div_mod::lemma_fundamental_div_mod(n as int, a as int);
        assert(n + (a - r) == (q + 1) * a) by (nonlinear_arith)
            requires
                n == a * q + r,
        ;
        vstd::arithmetic::div_mod::lemma_mod_multiples_basic((q + 1) as int, a as int);
    }
}

/// Rounds `n` up to a multiple of `a`, or `None` where the result does not fit.
pub fn pad_to_align(n: usize, a: usize) -> (r: Option<usize>)
    requires
        a > 0,
    ensures
        r == (if round_up(n as nat, a as nat) <= usize::MAX {
            Some(round_up(n as nat, a as nat) as usize)
        } else {
            None::<usize>
        }),
{
    let rem = n % a;
    if rem == 0 {
        Some(n)
    } else if n <= usize::MAX - (a - rem) {
        Some(n + (a - rem))
    } else {
        None
    }
}

/// The offset of the value inside the record and the record's layout, or
/// `None` where the record's size does not fit in a `usize`.
pub fn record_layout(meta: Layout, value: Layout) -> (r: Option<(usize, Layout)>)
    requires
        meta.wf(),
        value.wf(),
    ensures
        r is Some <==> record_fits(meta, value),
        r matches Some((off, l)) ==> off == record_offset(meta, value) && l == spec_record_layout(
            meta,
            value,
        ) && l.wf(),
{
    let align = if meta.align >= value.align {
        meta.align
    } else {
        value.align
    };
    proof {
        lemma_round_up(meta.size as nat, value.align as nat);
        lemma_round_up(
            (record_offset(meta, value) + value.size) as nat,
            record_align(meta, value),
        );
        lemma_round_up(
            record_offset(meta, value),
            record_align(meta, value),
        );
    }
    match pad_to_align(meta.size, value.align) {
        None => None,
        Some(off) => {
            if off > usize::MAX - value.size {
                None
            } else {
                match pad_to_align(off + value.size, align) {
                    None => None,
                    Some(size) => Some((off, Layout { size, align })),
                }
            }
        },
    }
}

/// Where the metadata takes room, a thin handle is one address wide and a
/// wide handle, an address beside the metadata, is wider.
pub proof fn lemma_handle_shrink(meta: Layout)
    requires
        meta.wf(),
        meta.size > 0,
    ensures
        spec_thin_handle_layout(meta).size == ADDRESS_SIZE,
        ADDRESS_SIZE < record_size(spec_address_layout(), meta),
{
    let a = spec_address_layout();
    lemma_round_up(a.size as nat, meta.align as nat);
    lemma_round_up((record_offset(a, meta) + meta.size) as nat, record_align(a, meta));
}

} // verus!
