//! Capability generation for tagged-union types.
//!
//! A tagged union whose variants each wrap one payload (or one fixed tuple
//! of payloads) can mechanically be given three capabilities per variant:
//! a conversion constructor from the payload into the union, borrowing
//! accessors that view the payload when the active variant matches, and a
//! consuming extractor that returns the payload or hands the union back
//! unchanged.  The `engine` module decides, for a described union, which
//! capabilities may be generated and detects variants whose payload shapes
//! collide; the `example` and `whole_tuple` modules carry hand-written,
//! fully verified images of the code such a generation emits.

use vstd::prelude::*;

mod descriptor;
mod engine;
mod example;
mod whole_tuple;

pub use descriptor::AttributeDescriptor;
pub use descriptor::DataShape;
pub use descriptor::FieldsShape;
pub use descriptor::PayloadShapeKey;
pub use descriptor::TypeDescriptor;
pub use descriptor::VariantDescriptor;
pub use descriptor::attr_marks_skip;
pub use descriptor::has_skip_attribute;
pub use descriptor::key_view;
pub use descriptor::shape_key;
pub use descriptor::type_key;
pub use descriptor::types_view;
pub use descriptor::variant_excluded;
pub use descriptor::variant_supported;
pub use engine::AccessorCapability;
pub use engine::AccessorStrategy;
pub use engine::CapabilitySet;
pub use engine::GenerationError;
pub use engine::GenerationOutput;
pub use engine::accessor_form;
pub use engine::cap_matches;
pub use engine::collision;
pub use engine::derive_capabilities;
pub use engine::first_collision;
pub use engine::first_unsupported;
pub use engine::has_collision;
pub use engine::has_unsupported;
pub use engine::included_indices;
pub use engine::lemma_excluded_never_collides;
pub use engine::lemma_included_indices_exact;
pub use engine::lemma_unkeyed_never_collides;
pub use engine::lemma_whole_tuple_accessors_absent;
pub use engine::unsupported_at;
pub use example::ExampleDerive;
pub use example::FooInputTypes;
pub use example::lemma_convert_then_extract_pair;
pub use example::lemma_convert_then_read_number;
pub use example::lemma_convert_then_read_string;
pub use example::lemma_round_trip;
pub use example::spec_foo_into_num;
pub use example::spec_foo_into_string;
pub use example::spec_foo_num;
pub use example::spec_foo_string;
pub use example::spec_into_number;
pub use example::spec_into_pair;
pub use example::spec_into_string;
pub use example::spec_number;
pub use example::spec_pair;
pub use example::spec_string;
pub use whole_tuple::WholeTupleDemo;
pub use whole_tuple::lemma_whole_tuple_extract;
pub use whole_tuple::spec_demo_into_pair;
pub use whole_tuple::spec_demo_into_triple;
pub use whole_tuple::spec_demo_pair;
pub use whole_tuple::spec_demo_triple;

verus! {

/// Extracting an immutable view of an enum variant's payload.
///
/// For a single-field variant such as `Variant(String)`, implement
/// `Value<'a, &'a String>`; for a multi-field variant such as
/// `Variant(u8, u8)`, implement `Value<'a, (&'a u8, &'a u8)>`.
pub trait Value<'a, T> {
    /// If the enum currently holds a payload of the matching shape,
    /// return a borrowed view of it; otherwise return `None`.
    fn value(&'a self) -> Option<T>;
}

/// Extracting a mutable view of an enum variant's payload.
///
/// For a single-field variant such as `Variant(String)`, implement
/// `ValueMut<'a, &'a mut String>`; for a multi-field variant such as
/// `Variant(u8, u8)`, implement `ValueMut<'a, (&'a mut u8, &'a mut u8)>`.
pub trait ValueMut<'a, T> {
    /// If the enum currently holds a payload of the matching shape,
    /// return a mutable view of it; otherwise return `None`.
    fn value_mut(&'a mut self) -> Option<T>;
}

/// Extracting an owned payload by consuming the enum.
///
/// For a single-field variant such as `Variant(String)`, implement
/// `IntoValue<String>`; for a multi-field variant such as
/// `Variant(u8, u8)`, implement `IntoValue<(u8, u8)>`.
pub trait IntoValue<T>: Sized {
    /// If the enum currently holds a payload of the matching shape,
    /// unwrap the enum and return the payload; otherwise return the
    /// enum unchanged.
    fn into_value(self) -> Result<T, Self>;
}

} // verus!
