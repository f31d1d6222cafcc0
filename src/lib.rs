//! Thin owning handles to dynamically sized values.
//!
//! A dynamically sized value needs metadata (a length, a dispatch table)
//! besides its address. A wide handle carries both; a thin handle carries one
//! word and finds the metadata stored in front of the value, inside a record
//! laid out as `{ metadata, padding, value }`.
//!
//! Records live in a [`Heap`], which hands out their addresses, counts the
//! allocation requests it served and the values it destroyed. A [`ThinBox`]
//! owns one record and ends in exactly one way: destroyed, freed without
//! destruction, handed over in wide form, moved out as a bare value, or
//! called once.
pub mod backend;
pub mod boxed;
pub mod kinds;
pub mod laws;
pub mod layout;

pub use backend::{AssembleSafe, DynSized, FnMove, ThinBackend, WideHandle};
pub use boxed::{copy_into_new_box, Block, Heap, NativeBox, ThinBox, ValueBox};
pub use kinds::{I32Slice, Interleave, Marker, Token};
pub use layout::Layout;
