//! The derivation engine: given the description of one type definition it
//! either produces the set of capability groups to generate — one group
//! per non-excluded variant — or fails with the single error that aborts
//! the whole invocation.
//!
//! Generation runs in passes: the input must describe a tagged union at
//! all; no two non-excluded variants may share a payload shape key; and
//! every non-excluded variant must have a supported shape (positional
//! fields, at least one).  The first failing check wins and no partial
//! output is ever produced.

use vstd::prelude::*;

use crate::descriptor::DataShape;
use crate::descriptor::FieldsShape;
use crate::descriptor::PayloadShapeKey;
use crate::descriptor::TypeDescriptor;
use crate::descriptor::VariantDescriptor;
use crate::descriptor::clone_types;
use crate::descriptor::has_skip_attribute;
use crate::descriptor::shape_key;
use crate::descriptor::type_key;
use crate::descriptor::types_equal;
use crate::descriptor::types_view;
use crate::descriptor::variant_excluded;
use crate::descriptor::variant_supported;

verus! {

/// How accessors for multi-field variants are generated.
#[derive(Clone, Copy, Debug, PartialEq, Eq)]
pub enum AccessorStrategy {
    /// Borrow each field in place and hand out one reference per field.
    PerFieldRefs,
    /// Hand out a single reference to the whole payload tuple.  No such
    /// reference can be produced from fields stored side by side, so the
    /// borrowing accessors of every multi-field variant are absent.
    WholeTupleRef,
}

/// Which borrowing accessors a capability group carries.
#[derive(Clone, Copy, Debug, PartialEq, Eq)]
pub enum AccessorCapability {
    /// A single-field variant: accessors borrow the one payload field.
    SingleRef,
    /// A multi-field variant under `PerFieldRefs`: accessors hand out one
    /// reference per field.
    PerFieldRefs,
    /// A multi-field variant under `WholeTupleRef`: the borrowing
    /// accessors always report absent.
    NeverPresent,
}

/// The capabilities generated for one variant: the conversion
/// constructor and consuming extractor for its payload shape, and the
/// borrowing accessors in the recorded form.
#[derive(Debug, PartialEq, Eq)]
pub struct CapabilitySet {
    pub variant_name: String,
    pub payload_types: Vec<String>,
    pub accessors: AccessorCapability,
}

/// Everything generation emits for one union: one capability group per
/// non-excluded variant, in declaration order.
#[derive(Debug, PartialEq, Eq)]
pub struct GenerationOutput {
    pub union_name: String,
    pub capabilities: Vec<CapabilitySet>,
}

/// The single error that aborts a generation invocation.
#[derive(Debug, PartialEq, Eq)]
pub enum GenerationError {
    /// Two non-excluded variants share a payload shape key; both names are
    /// reported, the first-seen variant first.
    DuplicatePayloadType { first: String, second: String },
    /// A non-excluded variant has no payload fields or uses named fields.
    UnsupportedVariantShape { variant: String },
    /// The described type is not a tagged union.
    InvalidTargetShape,
}

/// Variants `i` and `j` collide: both take part in generation, both have a
/// payload shape key, and the keys agree.
pub open spec fn collision(vs: Seq<VariantDescriptor>, i: int, j: int) -> bool {
    &&& 0 <= i < j < vs.len()
    &&& !variant_excluded(vs[i])
    &&& !variant_excluded(vs[j])
    &&& shape_key(vs[i].fields) is Some
    &&& shape_key(vs[i].fields) == shape_key(vs[j].fields)
}

pub open spec fn has_collision(vs: Seq<VariantDescriptor>) -> bool {
    exists|i: int, j: int| collision(vs, i, j)
}

/// The collision that duplicate detection reports: the one whose second
/// variant comes earliest, and among its partners the earliest first
/// variant — first seen wins naming priority.
pub open spec fn first_collision(vs: Seq<VariantDescriptor>, i: int, j: int) -> bool {
    &&& collision(vs, i, j)
    &&& forall|a: int, b: int| collision(vs, a, b) ==> j <= b
    &&& forall|a: int| collision(vs, a, j) ==> i <= a
}

/// Variant `i` takes part in generation but its shape is unsupported.
pub open spec fn unsupported_at(vs: Seq<VariantDescriptor>, i: int) -> bool {
    &&& 0 <= i < vs.len()
    &&& !variant_excluded(vs[i])
    &&& !variant_supported(vs[i])
}

pub open spec fn has_unsupported(vs: Seq<VariantDescriptor>) -> bool {
    exists|i: int| unsupported_at(vs, i)
}

/// The unsupported variant that generation reports: the first one in
/// declaration order.
pub open spec fn first_unsupported(vs: Seq<VariantDescriptor>, i: int) -> bool {
    &&& unsupported_at(vs, i)
    &&& forall|a: int| 0 <= a < i ==> !unsupported_at(vs, a)
}

/// The accessor form generated for a payload of the given arity under the
/// given strategy.
pub open spec fn accessor_form(arity: nat, strategy: AccessorStrategy) -> AccessorCapability {
    if arity == 1 {
        AccessorCapability::SingleRef
    } else if strategy is PerFieldRefs {
        AccessorCapability::PerFieldRefs
    } else {
        AccessorCapability::NeverPresent
    }
}

/// The capability group `c` is the one generated for variant `v`.
pub open spec fn cap_matches(c: CapabilitySet, v: VariantDescriptor, strategy: AccessorStrategy) -> bool {
    &&& c.variant_name == v.name
    &&& v.fields matches FieldsShape::Tuple(ts)
        && types_view(c.payload_types@) == types_view(ts@)
        && c.accessors == accessor_form(ts@.len(), strategy)
}

/// The indices of the variants that take part in generation, in
/// declaration order.
pub open spec fn included_indices(vs: Seq<VariantDescriptor>) -> Seq<int>
    decreases vs.len(),
{
    if vs.len() == 0 {
        Seq::<int>::empty()
    } else if variant_excluded(vs.last()) {
        included_indices(vs.drop_last())
    } else {
        included_indices(vs.drop_last()).push(vs.len() - 1)
    }
}

/// Runs one generation invocation on a described type.
///
/// The result is pinned down completely: a non-union input is refused; a
/// union with colliding payload shapes is refused naming the first
/// collision; otherwise a union with an unsupported non-excluded variant
/// is refused naming the first such variant; and otherwise the output
/// holds exactly one capability group per non-excluded variant, in
/// declaration order.
pub fn derive_capabilities(target: &TypeDescriptor, strategy: AccessorStrategy) -> (r: Result<
    GenerationOutput,
    GenerationError,
>)
    ensures
        match target.data {
            DataShape::Other => r == Err::<GenerationOutput, GenerationError>(
                GenerationError::InvalidTargetShape,
            ),
            DataShape::Union(vs) => {
                &&& has_collision(vs@) ==> (exists|i: int, j: int|
                    first_collision(vs@, i, j) && r == Err::<GenerationOutput, GenerationError>(
                        (GenerationError::DuplicatePayloadType {
                            first: vs@[i].name,
                            second: vs@[j].name,
                        }),
                    ))
                &&& !has_collision(vs@) && has_unsupported(vs@) ==> (exists|i: int|
                    first_unsupported(vs@, i) && r == Err::<GenerationOutput, GenerationError>(
                        (GenerationError::UnsupportedVariantShape { variant: vs@[i].name }),
                    ))
                &&& !has_collision(vs@) && !has_unsupported(vs@) ==> (r matches Ok(out)
                    && out.union_name == target.name
                    && out.capabilities@.len() == included_indices(vs@).len()
                    && (forall|k: int|
                        0 <= k < included_indices(vs@).len()
                            ==> cap_matches(
                            #[trigger] out.capabilities@[k],
                            vs@[included_indices(vs@)[k]],
                            strategy,
                        )))
            },
        },
{
    let vs: &Vec<VariantDescriptor> = match &target.data {
        DataShape::Union(vs) => vs,
        DataShape::Other => {
            return Err(GenerationError::InvalidTargetShape);
        },
    };

    // Duplicate-detection pass over the non-excluded, keyed variants.
    let mut j: usize = 0;
    while j < vs.len()
        invariant
            0 <= j <= vs@.len(),
            describes_union(target.data, vs@),
            forall|a: int, b: int| b < j ==> !collision(vs@, a, b),
        decreases vs@.len() - j,
    {
        if !has_skip_attribute(&vs[j]) {
            let key_j = type_key(&vs[j].fields);
            match &key_j {
                PayloadShapeKey::Types(tj) => {
                    let mut i: usize = 0;
                    while i < j
                        invariant
                            0 <= i <= j < vs@.len(),
                            describes_union(target.data, vs@),
                            forall|a: int, b: int| b < j ==> !collision(vs@, a, b),
                            forall|a: int| a < i ==> !collision(vs@, a, j as int),
                            !variant_excluded(vs@[j as int]),
                            shape_key(vs@[j as int].fields) == Some(types_view(tj@)),
                        decreases j - i,
                    {
                        if !has_skip_attribute(&vs[i]) {
                            let key_i = type_key(&vs[i].fields);
                            match &key_i {
                                PayloadShapeKey::Types(ti) => {
                                    if types_equal(ti, tj) {
                                        proof {
                                            assert(collision(vs@, i as int, j as int));
                                            assert(first_collision(vs@, i as int, j as int));
                                        }
                                        return Err(
                                            (GenerationError::DuplicatePayloadType {
                                                first: vs[i].name.clone(),
                                                second: vs[j].name.clone(),
                                            }),
                                        );
                                    }
                                },
                                PayloadShapeKey::Unkeyed => {},
                            }
                        }
                        i = i + 1;
                    }
                },
                PayloadShapeKey::Unkeyed => {},
            }
        }
        j = j + 1;
    }

    // Per-variant generation pass.
    let mut caps: Vec<CapabilitySet> = Vec::new();
    let mut j: usize = 0;
    while j < vs.len()
        invariant
            0 <= j <= vs@.len(),
            describes_union(target.data, vs@),
            forall|a: int, b: int| b < vs@.len() ==> !collision(vs@, a, b),
            forall|a: int| a < j ==> !unsupported_at(vs@, a),
            caps@.len() == included_indices(vs@.take(j as int)).len(),
            forall|k: int|
                0 <= k < caps@.len() ==> cap_matches(
                    #[trigger] caps@[k],
                    vs@[included_indices(vs@.take(j as int))[k]],
                    strategy,
                ),
        decreases vs@.len() - j,
    {
        let v = &vs[j];
        let ghost prefix = vs@.take(j as int);
        if !has_skip_attribute(v) {
            match &v.fields {
                FieldsShape::Tuple(ts) => {
                    if ts.len() == 0 {
                        proof {
                            assert(unsupported_at(vs@, j as int));
                            assert(first_unsupported(vs@, j as int));
                        }
                        return Err(
                            (GenerationError::UnsupportedVariantShape { variant: v.name.clone() }),
                        );
                    }
                    let form = if ts.len() == 1 {
                        AccessorCapability::SingleRef
                    } else {
                        match strategy {
                            AccessorStrategy::PerFieldRefs => AccessorCapability::PerFieldRefs,
                            AccessorStrategy::WholeTupleRef => AccessorCapability::NeverPresent,
                        }
                    };
                    caps.push(
                        CapabilitySet {
                            variant_name: v.name.clone(),
                            payload_types: clone_types(ts),
                            accessors: form,
                        },
                    );
                },
                _ => {
                    proof {
                        assert(unsupported_at(vs@, j as int));
                        assert(first_unsupported(vs@, j as int));
                    }
                    return Err(
                        (GenerationError::UnsupportedVariantShape { variant: v.name.clone() }),
                    );
                },
            }
        }
        proof {
            assert(vs@.take(j as int + 1).drop_last() =~= prefix);
            assert(vs@.take(j as int + 1).last() == vs@[j as int]);
        }
        j = j + 1;
    }

    proof {
        assert(vs@.take(vs@.len() as int) =~= vs@);
    }
    Ok(GenerationOutput { union_name: target.name.clone(), capabilities: caps })
}

/// Law: a variant carrying the exclusion marker takes part in no
/// payload-shape collision, on either side — marking one of two colliding
/// variants excluded removes the collision.
pub proof fn lemma_excluded_never_collides(vs: Seq<VariantDescriptor>, i: int, j: int)
    requires
        variant_excluded(vs[i]) || variant_excluded(vs[j]),
    ensures
        !collision(vs, i, j),
{
}

/// Law: a variant without a payload shape key takes part in no collision,
/// whatever the other variant's shape.
pub proof fn lemma_unkeyed_never_collides(vs: Seq<VariantDescriptor>, i: int, j: int)
    requires
        shape_key(vs[i].fields) is None || shape_key(vs[j].fields) is None,
    ensures
        !collision(vs, i, j),
{
}

/// Law: under the whole-tuple-reference strategy the borrowing accessors
/// of every payload with more than one field are recorded absent.
pub proof fn lemma_whole_tuple_accessors_absent(arity: nat)
    requires
        arity > 1,
    ensures
        accessor_form(arity, AccessorStrategy::WholeTupleRef) == AccessorCapability::NeverPresent,
{
}

/// Law: generation gives an excluded variant nothing and every other
/// variant exactly one capability group — `included_indices` lists
/// exactly the indices of the non-excluded variants, strictly in
/// declaration order, so an excluded variant's index never reaches the
/// output.
pub proof fn lemma_included_indices_exact(vs: Seq<VariantDescriptor>)
    ensures
        forall|k: int|
            0 <= k < included_indices(vs).len() ==> (0 <= #[trigger] included_indices(vs)[k]
                < vs.len() && !variant_excluded(vs[included_indices(vs)[k]])),
        forall|i: int|
            0 <= i < vs.len() && !variant_excluded(vs[i]) ==> included_indices(vs).contains(i),
        forall|i: int|
            0 <= i < vs.len() && variant_excluded(vs[i]) ==> !included_indices(vs).contains(i),
        forall|k1: int, k2: int|
            0 <= k1 < k2 < included_indices(vs).len() ==> #[trigger] included_indices(vs)[k1]
                < #[trigger] included_indices(vs)[k2],
    decreases vs.len(),
{
    if vs.len() == 0 {
    } else {
        let prefix = vs.drop_last();
        lemma_included_indices_exact(prefix);
        assert forall|i: int|
            0 <= i < vs.len() && !variant_excluded(vs[i]) implies included_indices(vs).contains(
            i,
        ) by {
            if i < prefix.len() {
                assert(prefix[i] == vs[i]);
                assert(included_indices(prefix).contains(i));
                let k = choose|k: int|
                    0 <= k < included_indices(prefix).len() && included_indices(prefix)[k] == i;
                assert(included_indices(vs)[k] == i);
            } else {
                assert(!variant_excluded(vs.last()));
                assert(included_indices(vs).last() == i);
            }
        }
        assert forall|i: int|
            0 <= i < vs.len() && variant_excluded(vs[i]) implies !included_indices(vs).contains(
            i,
        ) by {
            if included_indices(vs).contains(i) {
                let k = choose|k: int|
                    0 <= k < included_indices(vs).len() && included_indices(vs)[k] == i;
                if variant_excluded(vs.last()) {
                    assert(included_indices(vs) == included_indices(prefix));
                    assert(included_indices(prefix)[k] == i);
                    assert(included_indices(prefix).contains(i));
                    assert(i < prefix.len());
                    assert(prefix[i] == vs[i]);
                } else {
                    assert(vs.last() == vs[vs.len() - 1]);
                    if k < included_indices(prefix).len() {
                        assert(included_indices(prefix)[k] == i);
                        assert(included_indices(prefix).contains(i));
                        assert(i < prefix.len());
                        assert(prefix[i] == vs[i]);
                    } else {
                        assert(included_indices(vs)[k] == vs.len() - 1);
                        assert(i == vs.len() - 1);
                    }
                }
            }
        }
    }
}

/// The definition `d` describes a union with variant list `vs`.
spec fn describes_union(d: DataShape, vs: Seq<VariantDescriptor>) -> bool {
    d matches DataShape::Union(l) && l@ == vs
}

} // verus!
