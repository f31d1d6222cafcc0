use thin::boxed::HEAP_BASE;
use thin::kinds::{Interleave, Marker, Token, CLOSURE_SIZE, INTERLEAVE_TABLE};
use thin::layout::{pad_to_align, record_layout, Layout, ADDRESS_SIZE};
use thin::{copy_into_new_box, DynSized, Heap, I32Slice, ThinBackend, ThinBox};

fn slice(items: Vec<i32>) -> I32Slice {
    I32Slice::from_vec(items).unwrap()
}

#[test]
fn test_copy_into_new_box() {
    let mut heap: Heap<I32Slice> = Heap::new();
    let bx = slice(vec![1, 2, 3]);
    let new_box = copy_into_new_box(&mut heap, &bx).unwrap();
    assert_eq!(bx.to_vec(), new_box.value.to_vec());
    assert_eq!(new_box.layout, Layout { size: 12, align: 4 });
    assert_eq!(heap.allocation_count(), 1);
}

#[test]
fn test_box_free() {
    let mut heap: Heap<Token> = Heap::new();
    let bx = ThinBox::new(&mut heap, Token { id: 7 }).unwrap();

    // duplicate the value into a second box
    let src: Token = *bx.get(&heap);
    let bx2 = ThinBox::copy_into_new(&mut heap, &src).unwrap();
    bx.free(&mut heap);

    assert_eq!(0, heap.destroy_count());
    assert_eq!(bx2.get(&heap).id, 7);
    bx2.destroy(&mut heap);
    assert_eq!(1, heap.destroy_count());
    assert_eq!(0, heap.live_count());
}

#[test]
fn test_thin_box() {
    let mut heap: Heap<I32Slice> = Heap::new();
    let tb: ThinBox<I32Slice> = ThinBox::new(&mut heap, slice(vec![1, 2, 3])).unwrap();

    assert!(std::mem::size_of::<ThinBox<I32Slice>>() < std::mem::size_of::<Box<[i32]>>());

    let tb_size = tb.size_of_val(&heap);

    let bx = tb.into_box(&mut heap);
    let bx_size = bx.size_of_value();

    assert_eq!(tb_size, bx_size);

    assert_eq!(bx.backend.value.to_vec(), vec![1, 2, 3]);
}

#[test]
fn thin_box_closure() {
    let v1 = vec![1i32, 2, 3];
    let v2 = vec![-1i32, -2, -3];

    let mut heap: Heap<Interleave> = Heap::new();
    let closure = ThinBox::new(&mut heap, Interleave { first: v1, second: v2 }).unwrap();

    let out = closure.call_once(&mut heap, ());

    assert_eq!(out, vec![1, -1, 2, -2, 3, -3]);
    assert_eq!(heap.live_count(), 0);
    assert_eq!(heap.destroy_count(), 0);
}

#[test]
fn closure_shorter_second_sequence_stops_early() {
    let mut heap: Heap<Interleave> = Heap::new();
    let closure =
        ThinBox::new(&mut heap, Interleave { first: vec![4, 5, 6], second: vec![9] }).unwrap();
    let w = ThinBackend::fat_from_thin(&heap, &closure);
    assert_eq!(w.meta, INTERLEAVE_TABLE);
    assert_eq!(closure.call_once(&mut heap, ()), vec![4, 9]);
}

#[test]
fn slice_read_back_and_handle_widths() {
    let mut heap: Heap<I32Slice> = Heap::new();
    let tb = ThinBox::new(&mut heap, slice(vec![1, 2, 3])).unwrap();
    assert_eq!(tb.get(&heap).to_vec(), vec![1, 2, 3]);
    assert_eq!(std::mem::size_of::<ThinBox<I32Slice>>(), std::mem::size_of::<usize>());
    assert_eq!(std::mem::size_of::<&[i32]>(), 2 * std::mem::size_of::<usize>());
    tb.destroy(&mut heap);
    assert_eq!(heap.destroy_count(), 1);
}

#[test]
fn round_trip_of_assemble_and_disassemble() {
    let v = slice(vec![5, 6]);
    let w = ThinBackend::<I32Slice, I32Slice>::assemble(v.meta(), 4096);
    assert_eq!(w.meta, 2);
    assert_eq!(w.addr, 4096);
    assert_eq!(ThinBackend::<I32Slice, I32Slice>::disassemble(w), (2, 4096));
}

#[test]
fn record_layout_of_slice_has_padded_metadata() {
    let v = slice(vec![1, 2, 3]);
    assert_eq!(ThinBackend::<I32Slice, I32Slice>::size_of_backend(&v), 24);
    assert_eq!(ThinBackend::<I32Slice, I32Slice>::align_of_backend(&v), 8);
    let r = record_layout(Layout { size: 8, align: 8 }, Layout { size: 12, align: 4 });
    assert_eq!(r, Some((8, Layout { size: 24, align: 8 })));
    let r = record_layout(Layout { size: 1, align: 1 }, Layout { size: 8, align: 8 });
    assert_eq!(r, Some((8, Layout { size: 16, align: 8 })));
    let r = record_layout(Layout { size: 8, align: 8 }, Layout { size: usize::MAX - 7, align: 1 });
    assert_eq!(r, None);
}

#[test]
fn pad_to_align_rounds_up_or_reports_overflow() {
    assert_eq!(pad_to_align(13, 8), Some(16));
    assert_eq!(pad_to_align(16, 8), Some(16));
    assert_eq!(pad_to_align(0, 4), Some(0));
    assert_eq!(pad_to_align(usize::MAX - 1, 4), None);
}

#[test]
fn wide_handle_is_wider_than_thin_handle() {
    let meta = Layout { size: ADDRESS_SIZE, align: ADDRESS_SIZE };
    let (_, wide) = record_layout(Layout::address(), meta).unwrap();
    assert_eq!(wide.size, 2 * ADDRESS_SIZE);
    assert!(ADDRESS_SIZE < wide.size);
}

#[test]
fn boxed_then_unboxed_record_has_hand_built_size() {
    let mut heap: Heap<I32Slice> = Heap::new();
    let v = slice(vec![1, 2, 3, 4, 5]);
    let by_hand = ThinBackend::<I32Slice, I32Slice>::size_of_backend(&v);
    let tb = ThinBox::new(&mut heap, v).unwrap();
    let native = tb.into_box(&mut heap);
    assert_eq!(native.size_of_backend(), by_hand);
    assert_eq!(by_hand, 32);
    assert_eq!(native.handle.addr, HEAP_BASE);
    assert_eq!(native.handle.meta, 5);
}

#[test]
fn drop_destroys_exactly_once() {
    let mut heap: Heap<Token> = Heap::new();
    let tb = ThinBox::new(&mut heap, Token { id: 1 }).unwrap();
    assert_eq!(heap.destroy_count(), 0);
    tb.destroy(&mut heap);
    assert_eq!(heap.destroy_count(), 1);
    assert_eq!(heap.allocation_count(), 1);
}

#[test]
fn zero_size_value_is_not_allocated() {
    let mut heap: Heap<Marker> = Heap::new();
    let tb = ThinBox::new(&mut heap, Marker).unwrap();
    assert_eq!(heap.allocation_count(), 0);
    let w = ThinBackend::fat_from_thin(&heap, &tb);
    assert_eq!(w.addr, 1);
    assert_eq!(tb.size_of_val(&heap), 0);
    let native = tb.into_box(&mut heap);
    assert_eq!(native.size_of_value(), 0);
    assert_eq!(native.size_of_backend(), 0);
    let copy = copy_into_new_box(&mut heap, &Marker).unwrap();
    assert_eq!(copy.addr, 1);
    assert_eq!(heap.allocation_count(), 0);
}

#[test]
fn empty_slice_value_has_size_zero_but_record_holds_length() {
    let mut heap: Heap<I32Slice> = Heap::new();
    let tb = ThinBox::new(&mut heap, slice(vec![])).unwrap();
    assert_eq!(tb.size_of_val(&heap), 0);
    assert_eq!(heap.allocation_count(), 1);
    let value = tb.into_boxed_value(&mut heap).unwrap();
    assert_eq!(value.layout.size, 0);
    assert_eq!(value.addr, 4);
    assert_eq!(heap.allocation_count(), 1);
    assert_eq!(heap.destroy_count(), 0);
    assert_eq!(heap.live_count(), 0);
}

#[test]
fn into_boxed_value_moves_value_out() {
    let mut heap: Heap<I32Slice> = Heap::new();
    let tb = ThinBox::new(&mut heap, slice(vec![8, 9])).unwrap();
    let value = tb.into_boxed_value(&mut heap).unwrap();
    assert_eq!(value.value.to_vec(), vec![8, 9]);
    assert_eq!(value.layout, Layout { size: 8, align: 4 });
    assert_eq!(heap.allocation_count(), 2);
    assert_eq!(heap.destroy_count(), 0);
}

#[test]
fn from_box_takes_record_back() {
    let mut heap: Heap<I32Slice> = Heap::new();
    let tb = ThinBox::new(&mut heap, slice(vec![3, 1])).unwrap();
    let native = tb.into_box(&mut heap);
    let addr = native.handle.addr;
    assert_eq!(heap.live_count(), 0);
    let tb = ThinBox::from_box(&mut heap, native).unwrap();
    assert_eq!(heap.live_count(), 1);
    assert_eq!(ThinBackend::fat_from_thin(&heap, &tb).addr, addr);
    assert_eq!(tb.get(&heap).to_vec(), vec![3, 1]);
    assert_eq!(heap.allocation_count(), 1);
}

#[test]
fn second_record_is_placed_after_first() {
    let mut heap: Heap<Interleave> = Heap::new();
    let a = ThinBox::new(&mut heap, Interleave { first: vec![], second: vec![] }).unwrap();
    let b = ThinBox::new(&mut heap, Interleave { first: vec![], second: vec![] }).unwrap();
    assert_eq!(ThinBackend::fat_from_thin(&heap, &a).addr, HEAP_BASE);
    assert_eq!(ThinBackend::fat_from_thin(&heap, &b).addr, HEAP_BASE + ADDRESS_SIZE + CLOSURE_SIZE);
}

#[test]
fn backend_new_and_into_value() {
    let b = ThinBackend::<I32Slice, I32Slice>::new(slice(vec![2, 4, 6]));
    assert_eq!(b.meta, 3);
    assert_eq!(b.into_value().to_vec(), vec![2, 4, 6]);
}

#[test]
fn replace_writes_value_of_same_length() {
    let mut heap: Heap<I32Slice> = Heap::new();
    let tb = ThinBox::new(&mut heap, slice(vec![1, 2])).unwrap();
    let old = tb.replace(&mut heap, slice(vec![7, 8]));
    assert_eq!(old.to_vec(), vec![1, 2]);
    assert_eq!(tb.get(&heap).to_vec(), vec![7, 8]);
    assert!(heap.owns(&tb));
    tb.destroy(&mut heap);
    assert_eq!(heap.destroy_count(), 1);
}
