//! The structural description of a tagged-union type that capability
//! generation works on: the union's name and, for each variant, its name,
//! its field list and its attributes.  The exclusion marker
//! `type_enum(skip)` opts a variant out of generation.

use vstd::prelude::*;

verus! {

/// One attribute carried by a variant, reduced to what the exclusion
/// marker reads: the attribute's path and, for a list-form attribute, the
/// text of its argument tokens.
pub struct AttributeDescriptor {
    pub path: String,
    pub list_tokens: Option<String>,
}

/// The field list of one variant.
pub enum FieldsShape {
    /// Positional fields; each entry is the canonical text of one field's
    /// type expression.
    Tuple(Vec<String>),
    /// Struct-style named fields.
    Named,
    /// No field list at all.
    Unit,
}

/// One arm of the union: its name, its field list, and its attributes in
/// declaration order.
pub struct VariantDescriptor {
    pub name: String,
    pub fields: FieldsShape,
    pub attrs: Vec<AttributeDescriptor>,
}

/// What kind of type definition was handed in.
pub enum DataShape {
    /// A tagged union with the given variants, in declaration order.
    Union(Vec<VariantDescriptor>),
    /// Any other kind of type definition; no capabilities exist for it.
    Other,
}

/// The type definition one generation invocation works on.
pub struct TypeDescriptor {
    pub name: String,
    pub data: DataShape,
}

/// Whether one attribute is the exclusion marker `type_enum(skip)`.
pub open spec fn attr_marks_skip(a: AttributeDescriptor) -> bool {
    &&& a.path@ == "type_enum"@
    &&& a.list_tokens matches Some(t) && t@ == "skip"@
}

/// Whether a variant carries the exclusion marker and is opted out of
/// generation.
pub open spec fn variant_excluded(v: VariantDescriptor) -> bool {
    exists|i: int| 0 <= i < v.attrs@.len() && attr_marks_skip(#[trigger] v.attrs@[i])
}

/// The view a field type list is compared by: the sequence of the field
/// type texts.
pub open spec fn types_view(ts: Seq<String>) -> Seq<Seq<char>> {
    ts.map_values(|s: String| s@)
}

/// The payload shape key of a field list: the ordered field type texts for
/// positional fields of arity one or more, and no key at all for the
/// shapes that never take part in duplicate detection — named fields,
/// unit shapes, and the invalid zero-field tuple, which generation
/// rejects outright instead of comparing.
pub open spec fn shape_key(f: FieldsShape) -> Option<Seq<Seq<char>>> {
    match f {
        FieldsShape::Tuple(ts) => if ts@.len() >= 1 {
            Some(types_view(ts@))
        } else {
            None
        },
        _ => None,
    }
}

/// Whether capabilities can be generated for a variant's shape: positional
/// fields, at least one of them.
pub open spec fn variant_supported(v: VariantDescriptor) -> bool {
    v.fields matches FieldsShape::Tuple(ts) && ts@.len() >= 1
}

/// Reports whether a variant carries the exclusion marker.
pub fn has_skip_attribute(variant: &VariantDescriptor) -> (r: bool)
    ensures
        r == variant_excluded(*variant),
{
    let marker: String = "type_enum".to_owned();
    let skip: String = "skip".to_owned();
    let mut i: usize = 0;
    while i < variant.attrs.len()
        invariant
            0 <= i <= variant.attrs@.len(),
            forall|k: int| 0 <= k < i ==> !attr_marks_skip(#[trigger] variant.attrs@[k]),
            marker@ == "type_enum"@,
            skip@ == "skip"@,
        decreases variant.attrs@.len() - i,
    {
        let a = &variant.attrs[i];
        if a.path == marker {
            match &a.list_tokens {
                Some(t) => {
                    if *t == skip {
                        assert(attr_marks_skip(variant.attrs@[i as int]));
                        return true;
                    }
                }
                None => {},
            }
        }
        i = i + 1;
    }
    false
}

/// A variant's payload shape fingerprint, used only for duplicate
/// detection.  Two variants collide exactly when both have a `Types` key
/// and the type texts agree pairwise; an `Unkeyed` shape — named fields,
/// a unit shape, or the invalid zero-field tuple — collides with
/// nothing.
#[derive(Debug, PartialEq, Eq)]
pub enum PayloadShapeKey {
    /// A shape exempt from collision checking.
    Unkeyed,
    /// The ordered field type texts of a positional field list.
    Types(Vec<String>),
}

/// The view a `PayloadShapeKey` is compared by.
pub open spec fn key_view(k: PayloadShapeKey) -> Option<Seq<Seq<char>>> {
    match k {
        PayloadShapeKey::Unkeyed => None,
        PayloadShapeKey::Types(ts) => Some(types_view(ts@)),
    }
}

/// Copies a field type list.
pub(crate) fn clone_types(ts: &Vec<String>) -> (r: Vec<String>)
    ensures
        r@ == ts@,
{
    let mut r: Vec<String> = Vec::new();
    let mut i: usize = 0;
    while i < ts.len()
        invariant
            0 <= i <= ts@.len(),
            r@ == ts@.take(i as int),
        decreases ts@.len() - i,
    {
        r.push(ts[i].clone());
        assert(r@ =~= ts@.take(i as int + 1));
        i = i + 1;
    }
    assert(ts@.take(ts@.len() as int) =~= ts@);
    r
}

/// Builds the canonical fingerprint of a field list.
pub fn type_key(fields: &FieldsShape) -> (k: PayloadShapeKey)
    ensures
        key_view(k) == shape_key(*fields),
{
    match fields {
        FieldsShape::Tuple(ts) => {
            if ts.len() == 0 {
                PayloadShapeKey::Unkeyed
            } else {
                PayloadShapeKey::Types(clone_types(ts))
            }
        },
        _ => PayloadShapeKey::Unkeyed,
    }
}

/// Compares two field type lists by their texts.
pub(crate) fn types_equal(a: &Vec<String>, b: &Vec<String>) -> (r: bool)
    ensures
        r == (types_view(a@) == types_view(b@)),
{
    if a.len() != b.len() {
        assert(types_view(a@).len() != types_view(b@).len());
        return false;
    }
    let mut i: usize = 0;
    while i < a.len()
        invariant
            0 <= i <= a@.len(),
            a@.len() == b@.len(),
            forall|k: int| 0 <= k < i ==> types_view(a@)[k] == types_view(b@)[k],
        decreases a@.len() - i,
    {
        if !(a[i] == b[i]) {
            assert(types_view(a@)[i as int] != types_view(b@)[i as int]);
            return false;
        }
        assert(types_view(a@)[i as int] == types_view(b@)[i as int]);
        i = i + 1;
    }
    assert(types_view(a@) =~= types_view(b@));
    true
}

} // verus!
