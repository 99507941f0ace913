//! A hand-written, verified image of the capabilities generated under the
//! whole-tuple-reference strategy.
//!
//! Under this strategy a multi-field variant's borrowing accessors try to
//! hand out a single reference to the whole payload tuple `(T1, ..., TN)`.
//! The fields are stored side by side in the variant, not as one tuple
//! value, so no such reference exists without allocating a fresh
//! temporary: the accessors are absent whatever the active variant, and
//! only the conversion constructor and the consuming extractor remain
//! meaningful.
//!
//! As in the `example` module, each capability is proved on a named
//! method, and every trait implementation carries the same contract and
//! forwards to it.

use vstd::prelude::*;

use crate::IntoValue;
use crate::Value;
use crate::ValueMut;

verus! {

#[derive(Debug, PartialEq)]
pub enum WholeTupleDemo {
    Pair(u8, u8),
    Triple(u8, u8, u8),
}

/// The `(u8, u8)` payload, if the `Pair` variant is active.
pub open spec fn spec_demo_pair(u: WholeTupleDemo) -> Option<(u8, u8)> {
    match u {
        WholeTupleDemo::Pair(a, b) => Some((a, b)),
        _ => None,
    }
}

/// The `(u8, u8, u8)` payload, if the `Triple` variant is active.
pub open spec fn spec_demo_triple(u: WholeTupleDemo) -> Option<(u8, u8, u8)> {
    match u {
        WholeTupleDemo::Triple(a, b, c) => Some((a, b, c)),
        _ => None,
    }
}

/// What consuming extraction of the `(u8, u8)` payload returns.
pub open spec fn spec_demo_into_pair(u: WholeTupleDemo) -> Result<(u8, u8), WholeTupleDemo> {
    match u {
        WholeTupleDemo::Pair(a, b) => Ok((a, b)),
        _ => Err(u),
    }
}

/// What consuming extraction of the `(u8, u8, u8)` payload returns.
pub open spec fn spec_demo_into_triple(u: WholeTupleDemo) -> Result<(u8, u8, u8), WholeTupleDemo> {
    match u {
        WholeTupleDemo::Triple(a, b, c) => Ok((a, b, c)),
        _ => Err(u),
    }
}

impl WholeTupleDemo {
    /// Whole-tuple read-accessor for `Pair`: absent whatever the active
    /// variant, since no `&(u8, u8)` can be borrowed from fields stored
    /// side by side.
    pub fn pair_whole_ref(&self) -> (r: Option<&(u8, u8)>)
        ensures
            r is None,
    {
        None
    }

    /// Whole-tuple write-accessor for `Pair`: absent whatever the active
    /// variant, and the union is left untouched.
    pub fn pair_whole_mut(&mut self) -> (r: Option<&mut (u8, u8)>)
        ensures
            r is None,
            *final(self) == *old(self),
    {
        None
    }

    /// Consuming extractor for the `Pair` variant's payload.
    pub fn into_pair(self) -> (r: Result<(u8, u8), Self>)
        ensures
            r == spec_demo_into_pair(self),
    {
        match self {
            WholeTupleDemo::Pair(a, b) => Ok((a, b)),
            other => Err(other),
        }
    }

    /// Whole-tuple read-accessor for `Triple`: absent whatever the active
    /// variant.
    pub fn triple_whole_ref(&self) -> (r: Option<&(u8, u8, u8)>)
        ensures
            r is None,
    {
        None
    }

    /// Whole-tuple write-accessor for `Triple`: absent whatever the
    /// active variant, and the union is left untouched.
    pub fn triple_whole_mut(&mut self) -> (r: Option<&mut (u8, u8, u8)>)
        ensures
            r is None,
            *final(self) == *old(self),
    {
        None
    }

    /// Consuming extractor for the `Triple` variant's payload.
    pub fn into_triple(self) -> (r: Result<(u8, u8, u8), Self>)
        ensures
            r == spec_demo_into_triple(self),
    {
        match self {
            WholeTupleDemo::Triple(a, b, c) => Ok((a, b, c)),
            other => Err(other),
        }
    }
}

/// Law: under the whole-tuple-reference strategy the consuming extractor
/// is still exact — converting a tuple payload in and extracting that
/// shape yields the tuple, extracting the mismatched shape hands the
/// union back unchanged — even though the borrowing accessors are always
/// absent.
pub proof fn lemma_whole_tuple_extract(p: (u8, u8), t: (u8, u8, u8))
    ensures
        ({
            let u = <WholeTupleDemo as vstd::std_specs::convert::FromSpec<(u8, u8)>>::from_spec(p);
            &&& spec_demo_into_pair(u) == Ok::<(u8, u8), WholeTupleDemo>(p)
            &&& spec_demo_into_triple(u) == Err::<(u8, u8, u8), WholeTupleDemo>(u)
        }),
        ({
            let u = <WholeTupleDemo as vstd::std_specs::convert::FromSpec<(u8, u8, u8)>>::from_spec(
                t,
            );
            &&& spec_demo_into_triple(u) == Ok::<(u8, u8, u8), WholeTupleDemo>(t)
            &&& spec_demo_into_pair(u) == Err::<(u8, u8), WholeTupleDemo>(u)
        }),
{
}

impl From<(u8, u8)> for WholeTupleDemo {
    fn from(value: (u8, u8)) -> Self {
        WholeTupleDemo::Pair(value.0, value.1)
    }
}

impl vstd::std_specs::convert::FromSpecImpl<(u8, u8)> for WholeTupleDemo {
    open spec fn obeys_from_spec() -> bool {
        true
    }

    open spec fn from_spec(value: (u8, u8)) -> Self {
        WholeTupleDemo::Pair(value.0, value.1)
    }
}

impl From<(u8, u8, u8)> for WholeTupleDemo {
    fn from(value: (u8, u8, u8)) -> Self {
        WholeTupleDemo::Triple(value.0, value.1, value.2)
    }
}

impl vstd::std_specs::convert::FromSpecImpl<(u8, u8, u8)> for WholeTupleDemo {
    open spec fn obeys_from_spec() -> bool {
        true
    }

    open spec fn from_spec(value: (u8, u8, u8)) -> Self {
        WholeTupleDemo::Triple(value.0, value.1, value.2)
    }
}

impl<'a> Value<'a, &'a (u8, u8)> for WholeTupleDemo {
    fn value(&'a self) -> (r: Option<&'a (u8, u8)>)
        ensures
            ({
                let rr: Option<&'a (u8, u8)> = r;
                rr is None
            }),
    {
        self.pair_whole_ref()
    }
}

impl<'a> Value<'a, &'a (u8, u8, u8)> for WholeTupleDemo {
    fn value(&'a self) -> (r: Option<&'a (u8, u8, u8)>)
        ensures
            ({
                let rr: Option<&'a (u8, u8, u8)> = r;
                rr is None
            }),
    {
        self.triple_whole_ref()
    }
}

impl<'a> ValueMut<'a, &'a mut (u8, u8)> for WholeTupleDemo {
    fn value_mut(&'a mut self) -> (r: Option<&'a mut (u8, u8)>)
        ensures
            ({
                let rr: Option<&'a mut (u8, u8)> = r;
                rr is None && *final(self) == *old(self)
            }),
    {
        self.pair_whole_mut()
    }
}

impl<'a> ValueMut<'a, &'a mut (u8, u8, u8)> for WholeTupleDemo {
    fn value_mut(&'a mut self) -> (r: Option<&'a mut (u8, u8, u8)>)
        ensures
            ({
                let rr: Option<&'a mut (u8, u8, u8)> = r;
                rr is None && *final(self) == *old(self)
            }),
    {
        self.triple_whole_mut()
    }
}

impl IntoValue<(u8, u8)> for WholeTupleDemo {
    fn into_value(self) -> (r: Result<(u8, u8), Self>)
        ensures
            ({
                let rr: Result<(u8, u8), Self> = r;
                rr == spec_demo_into_pair(self)
            }),
    {
        self.into_pair()
    }
}

impl IntoValue<(u8, u8, u8)> for WholeTupleDemo {
    fn into_value(self) -> (r: Result<(u8, u8, u8), Self>)
        ensures
            ({
                let rr: Result<(u8, u8, u8), Self> = r;
                rr == spec_demo_into_triple(self)
            }),
    {
        self.into_triple()
    }
}

} // verus!
