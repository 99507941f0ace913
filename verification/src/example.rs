//! A hand-written, verified image of the capabilities generated for one
//! example union.
//!
//! `ExampleDerive` is a tagged union with two single-field variants and one
//! multi-field variant.  For each variant the union carries the three
//! generated capabilities: a conversion constructor (`From`), borrowing
//! accessors (`Value` / `ValueMut`), and a consuming extractor
//! (`IntoValue`).  The multi-field accessors follow the per-field-reference
//! strategy: each field of the active variant is borrowed in place, so a
//! present result is a tuple of independent references.
//!
//! Each capability is proved on a named accessor method (`number_ref`,
//! `tuple_mut`, `into_string`, ...), and every trait implementation
//! carries the same contract and forwards to the named method.  In the
//! trait implementations each `ensures` clause opens by binding the
//! result at its concrete type: the traits are generic in the payload
//! shape, and with several implementations for one type the clause does
//! not type-check without that annotation.

use vstd::prelude::*;

use crate::IntoValue;
use crate::Value;
use crate::ValueMut;

verus! {

#[derive(Debug, PartialEq)]
pub enum ExampleDerive {
    Number(i64),
    String(String),
    Tuple(u8, u8),
}

/// The `i64` payload, if the `Number` variant is active.
pub open spec fn spec_number(u: ExampleDerive) -> Option<i64> {
    match u {
        ExampleDerive::Number(n) => Some(n),
        _ => None,
    }
}

/// The `String` payload, if the `String` variant is active.
pub open spec fn spec_string(u: ExampleDerive) -> Option<String> {
    match u {
        ExampleDerive::String(s) => Some(s),
        _ => None,
    }
}

/// The `(u8, u8)` payload, if the `Tuple` variant is active.
pub open spec fn spec_pair(u: ExampleDerive) -> Option<(u8, u8)> {
    match u {
        ExampleDerive::Tuple(a, b) => Some((a, b)),
        _ => None,
    }
}

/// What consuming extraction of the `i64` payload returns: the payload on a
/// match, the union itself otherwise.
pub open spec fn spec_into_number(u: ExampleDerive) -> Result<i64, ExampleDerive> {
    match u {
        ExampleDerive::Number(n) => Ok(n),
        _ => Err(u),
    }
}

/// What consuming extraction of the `String` payload returns.
pub open spec fn spec_into_string(u: ExampleDerive) -> Result<String, ExampleDerive> {
    match u {
        ExampleDerive::String(s) => Ok(s),
        _ => Err(u),
    }
}

/// What consuming extraction of the `(u8, u8)` payload returns.
pub open spec fn spec_into_pair(u: ExampleDerive) -> Result<(u8, u8), ExampleDerive> {
    match u {
        ExampleDerive::Tuple(a, b) => Ok((a, b)),
        _ => Err(u),
    }
}

impl ExampleDerive {
    /// Read-accessor for the `Number` variant's payload.
    pub fn number_ref(&self) -> (r: Option<&i64>)
        ensures
            match r {
                Some(p) => spec_number(*self) == Some(*p),
                None => spec_number(*self) is None,
            },
    {
        match self {
            ExampleDerive::Number(n) => Some(n),
            _ => None,
        }
    }

    /// Write-accessor for the `Number` variant's payload.  On a match the
    /// union afterwards holds whatever was written through the result.
    pub fn number_mut(&mut self) -> (r: Option<&mut i64>)
        ensures
            spec_number(*old(self)) is None ==> r is None && *final(self) == *old(self),
            spec_number(*old(self)) matches Some(n) ==> (r matches Some(m) && *m == n
                && *final(self) == ExampleDerive::Number(*final(m))),
    {
        match self {
            ExampleDerive::Number(n) => Some(n),
            _ => None,
        }
    }

    /// Consuming extractor for the `Number` variant's payload.
    pub fn into_number(self) -> (r: Result<i64, Self>)
        ensures
            r == spec_into_number(self),
    {
        match self {
            ExampleDerive::Number(n) => Ok(n),
            other => Err(other),
        }
    }

    /// Read-accessor for the `String` variant's payload.
    pub fn string_ref(&self) -> (r: Option<&String>)
        ensures
            match r {
                Some(p) => spec_string(*self) == Some(*p),
                None => spec_string(*self) is None,
            },
    {
        match self {
            ExampleDerive::String(s) => Some(s),
            _ => None,
        }
    }

    /// Write-accessor for the `String` variant's payload.
    pub fn string_mut(&mut self) -> (r: Option<&mut String>)
        ensures
            spec_string(*old(self)) is None ==> r is None && *final(self) == *old(self),
            spec_string(*old(self)) matches Some(s) ==> (r matches Some(m) && *m == s
                && *final(self) == ExampleDerive::String(*final(m))),
    {
        match self {
            ExampleDerive::String(s) => Some(s),
            _ => None,
        }
    }

    /// Consuming extractor for the `String` variant's payload.
    pub fn into_string(self) -> (r: Result<String, Self>)
        ensures
            r == spec_into_string(self),
    {
        match self {
            ExampleDerive::String(s) => Ok(s),
            other => Err(other),
        }
    }

    /// Read-accessor for the `Tuple` variant's payload: one reference per
    /// field, each borrowed in place.
    pub fn tuple_ref(&self) -> (r: Option<(&u8, &u8)>)
        ensures
            match r {
                Some(p) => spec_pair(*self) == Some((*p.0, *p.1)),
                None => spec_pair(*self) is None,
            },
    {
        match self {
            ExampleDerive::Tuple(a, b) => Some((a, b)),
            _ => None,
        }
    }

    /// Write-accessor for the `Tuple` variant's payload: one mutable
    /// reference per field.  On a match the union afterwards holds whatever
    /// was written through the two references.
    pub fn tuple_mut(&mut self) -> (r: Option<(&mut u8, &mut u8)>)
        ensures
            spec_pair(*old(self)) is None ==> r is None && *final(self) == *old(self),
            spec_pair(*old(self)) matches Some(t) ==> (r matches Some(m)
                && *m.0 == t.0 && *m.1 == t.1
                && *final(self) == ExampleDerive::Tuple(*final(m.0), *final(m.1))),
    {
        match self {
            ExampleDerive::Tuple(a, b) => Some((a, b)),
            _ => None,
        }
    }

    /// Consuming extractor for the `Tuple` variant's payload.
    pub fn into_tuple(self) -> (r: Result<(u8, u8), Self>)
        ensures
            r == spec_into_pair(self),
    {
        match self {
            ExampleDerive::Tuple(a, b) => Ok((a, b)),
            other => Err(other),
        }
    }
}

impl From<i64> for ExampleDerive {
    fn from(value: i64) -> Self {
        ExampleDerive::Number(value)
    }
}

impl vstd::std_specs::convert::FromSpecImpl<i64> for ExampleDerive {
    open spec fn obeys_from_spec() -> bool {
        true
    }

    open spec fn from_spec(value: i64) -> Self {
        ExampleDerive::Number(value)
    }
}

impl From<String> for ExampleDerive {
    fn from(value: String) -> Self {
        ExampleDerive::String(value)
    }
}

impl vstd::std_specs::convert::FromSpecImpl<String> for ExampleDerive {
    open spec fn obeys_from_spec() -> bool {
        true
    }

    open spec fn from_spec(value: String) -> Self {
        ExampleDerive::String(value)
    }
}

impl From<(u8, u8)> for ExampleDerive {
    fn from(value: (u8, u8)) -> Self {
        ExampleDerive::Tuple(value.0, value.1)
    }
}

impl vstd::std_specs::convert::FromSpecImpl<(u8, u8)> for ExampleDerive {
    open spec fn obeys_from_spec() -> bool {
        true
    }

    open spec fn from_spec(value: (u8, u8)) -> Self {
        ExampleDerive::Tuple(value.0, value.1)
    }
}

impl<'a> Value<'a, &'a i64> for ExampleDerive {
    fn value(&'a self) -> (r: Option<&'a i64>)
        ensures
            ({
                let rr: Option<&'a i64> = r;
                match rr {
                    Some(p) => spec_number(*self) == Some(*p),
                    None => spec_number(*self) is None,
                }
            }),
    {
        self.number_ref()
    }
}

impl<'a> Value<'a, &'a String> for ExampleDerive {
    fn value(&'a self) -> (r: Option<&'a String>)
        ensures
            ({
                let rr: Option<&'a String> = r;
                match rr {
                    Some(p) => spec_string(*self) == Some(*p),
                    None => spec_string(*self) is None,
                }
            }),
    {
        self.string_ref()
    }
}

impl<'a> Value<'a, (&'a u8, &'a u8)> for ExampleDerive {
    fn value(&'a self) -> (r: Option<(&'a u8, &'a u8)>)
        ensures
            ({
                let rr: Option<(&'a u8, &'a u8)> = r;
                match rr {
                    Some(p) => spec_pair(*self) == Some((*p.0, *p.1)),
                    None => spec_pair(*self) is None,
                }
            }),
    {
        self.tuple_ref()
    }
}

impl<'a> ValueMut<'a, &'a mut i64> for ExampleDerive {
    fn value_mut(&'a mut self) -> (r: Option<&'a mut i64>)
        ensures
            ({
                let rr: Option<&'a mut i64> = r;
                &&& spec_number(*old(self)) is None ==> rr is None && *final(self) == *old(self)
                &&& spec_number(*old(self)) matches Some(n) ==> (rr matches Some(m) && *m == n
                    && *final(self) == ExampleDerive::Number(*final(m)))
            }),
    {
        self.number_mut()
    }
}

impl<'a> ValueMut<'a, &'a mut String> for ExampleDerive {
    fn value_mut(&'a mut self) -> (r: Option<&'a mut String>)
        ensures
            ({
                let rr: Option<&'a mut String> = r;
                &&& spec_string(*old(self)) is None ==> rr is None && *final(self) == *old(self)
                &&& spec_string(*old(self)) matches Some(v) ==> (rr matches Some(m) && *m == v
                    && *final(self) == ExampleDerive::String(*final(m)))
            }),
    {
        self.string_mut()
    }
}

impl<'a> ValueMut<'a, (&'a mut u8, &'a mut u8)> for ExampleDerive {
    fn value_mut(&'a mut self) -> (r: Option<(&'a mut u8, &'a mut u8)>)
        ensures
            ({
                let rr: Option<(&'a mut u8, &'a mut u8)> = r;
                &&& spec_pair(*old(self)) is None ==> rr is None && *final(self) == *old(self)
                &&& spec_pair(*old(self)) matches Some(t) ==> (rr matches Some(m)
                    && *m.0 == t.0 && *m.1 == t.1
                    && *final(self) == ExampleDerive::Tuple(*final(m.0), *final(m.1)))
            }),
    {
        self.tuple_mut()
    }
}

impl IntoValue<i64> for ExampleDerive {
    fn into_value(self) -> (r: Result<i64, Self>)
        ensures
            ({
                let rr: Result<i64, Self> = r;
                rr == spec_into_number(self)
            }),
    {
        self.into_number()
    }
}

impl IntoValue<String> for ExampleDerive {
    fn into_value(self) -> (r: Result<String, Self>)
        ensures
            ({
                let rr: Result<String, Self> = r;
                rr == spec_into_string(self)
            }),
    {
        self.into_string()
    }
}

impl IntoValue<(u8, u8)> for ExampleDerive {
    fn into_value(self) -> (r: Result<(u8, u8), Self>)
        ensures
            ({
                let rr: Result<(u8, u8), Self> = r;
                rr == spec_into_pair(self)
            }),
    {
        self.into_tuple()
    }
}

/// A second generated image, used to give a function one name for several
/// input payload types: callers pass any payload convertible into the
/// union and the callee matches on the active variant.
#[derive(Debug, PartialEq)]
pub enum FooInputTypes {
    String(String),
    Num(u16),
}

/// The `String` payload, if the `String` variant is active.
pub open spec fn spec_foo_string(u: FooInputTypes) -> Option<String> {
    match u {
        FooInputTypes::String(s) => Some(s),
        _ => None,
    }
}

/// The `u16` payload, if the `Num` variant is active.
pub open spec fn spec_foo_num(u: FooInputTypes) -> Option<u16> {
    match u {
        FooInputTypes::Num(n) => Some(n),
        _ => None,
    }
}

/// What consuming extraction of the `String` payload returns.
pub open spec fn spec_foo_into_string(u: FooInputTypes) -> Result<String, FooInputTypes> {
    match u {
        FooInputTypes::String(s) => Ok(s),
        _ => Err(u),
    }
}

/// What consuming extraction of the `u16` payload returns.
pub open spec fn spec_foo_into_num(u: FooInputTypes) -> Result<u16, FooInputTypes> {
    match u {
        FooInputTypes::Num(n) => Ok(n),
        _ => Err(u),
    }
}

impl FooInputTypes {
    /// Read-accessor for the `String` variant's payload.
    pub fn string_ref(&self) -> (r: Option<&String>)
        ensures
            match r {
                Some(p) => spec_foo_string(*self) == Some(*p),
                None => spec_foo_string(*self) is None,
            },
    {
        match self {
            FooInputTypes::String(s) => Some(s),
            _ => None,
        }
    }

    /// Write-accessor for the `String` variant's payload.
    pub fn string_mut(&mut self) -> (r: Option<&mut String>)
        ensures
            spec_foo_string(*old(self)) is None ==> r is None && *final(self) == *old(self),
            spec_foo_string(*old(self)) matches Some(s) ==> (r matches Some(m) && *m == s
                && *final(self) == FooInputTypes::String(*final(m))),
    {
        match self {
            FooInputTypes::String(s) => Some(s),
            _ => None,
        }
    }

    /// Consuming extractor for the `String` variant's payload.
    pub fn into_string(self) -> (r: Result<String, Self>)
        ensures
            r == spec_foo_into_string(self),
    {
        match self {
            FooInputTypes::String(s) => Ok(s),
            other => Err(other),
        }
    }

    /// Read-accessor for the `Num` variant's payload.
    pub fn num_ref(&self) -> (r: Option<&u16>)
        ensures
            match r {
                Some(p) => spec_foo_num(*self) == Some(*p),
                None => spec_foo_num(*self) is None,
            },
    {
        match self {
            FooInputTypes::Num(n) => Some(n),
            _ => None,
        }
    }

    /// Write-accessor for the `Num` variant's payload.
    pub fn num_mut(&mut self) -> (r: Option<&mut u16>)
        ensures
            spec_foo_num(*old(self)) is None ==> r is None && *final(self) == *old(self),
            spec_foo_num(*old(self)) matches Some(n) ==> (r matches Some(m) && *m == n
                && *final(self) == FooInputTypes::Num(*final(m))),
    {
        match self {
            FooInputTypes::Num(n) => Some(n),
            _ => None,
        }
    }

    /// Consuming extractor for the `Num` variant's payload.
    pub fn into_num(self) -> (r: Result<u16, Self>)
        ensures
            r == spec_foo_into_num(self),
    {
        match self {
            FooInputTypes::Num(n) => Ok(n),
            other => Err(other),
        }
    }
}

impl From<String> for FooInputTypes {
    fn from(value: String) -> Self {
        FooInputTypes::String(value)
    }
}

impl vstd::std_specs::convert::FromSpecImpl<String> for FooInputTypes {
    open spec fn obeys_from_spec() -> bool {
        true
    }

    open spec fn from_spec(value: String) -> Self {
        FooInputTypes::String(value)
    }
}

impl From<u16> for FooInputTypes {
    fn from(value: u16) -> Self {
        FooInputTypes::Num(value)
    }
}

impl vstd::std_specs::convert::FromSpecImpl<u16> for FooInputTypes {
    open spec fn obeys_from_spec() -> bool {
        true
    }

    open spec fn from_spec(value: u16) -> Self {
        FooInputTypes::Num(value)
    }
}

impl<'a> Value<'a, &'a String> for FooInputTypes {
    fn value(&'a self) -> (r: Option<&'a String>)
        ensures
            ({
                let rr: Option<&'a String> = r;
                match rr {
                    Some(p) => spec_foo_string(*self) == Some(*p),
                    None => spec_foo_string(*self) is None,
                }
            }),
    {
        self.string_ref()
    }
}

impl<'a> Value<'a, &'a u16> for FooInputTypes {
    fn value(&'a self) -> (r: Option<&'a u16>)
        ensures
            ({
                let rr: Option<&'a u16> = r;
                match rr {
                    Some(p) => spec_foo_num(*self) == Some(*p),
                    None => spec_foo_num(*self) is None,
                }
            }),
    {
        self.num_ref()
    }
}

impl<'a> ValueMut<'a, &'a mut String> for FooInputTypes {
    fn value_mut(&'a mut self) -> (r: Option<&'a mut String>)
        ensures
            ({
                let rr: Option<&'a mut String> = r;
                &&& spec_foo_string(*old(self)) is None ==> rr is None && *final(self) == *old(self)
                &&& spec_foo_string(*old(self)) matches Some(v) ==> (rr matches Some(m) && *m == v
                    && *final(self) == FooInputTypes::String(*final(m)))
            }),
    {
        self.string_mut()
    }
}

impl<'a> ValueMut<'a, &'a mut u16> for FooInputTypes {
    fn value_mut(&'a mut self) -> (r: Option<&'a mut u16>)
        ensures
            ({
                let rr: Option<&'a mut u16> = r;
                &&& spec_foo_num(*old(self)) is None ==> rr is None && *final(self) == *old(self)
                &&& spec_foo_num(*old(self)) matches Some(n) ==> (rr matches Some(m) && *m == n
                    && *final(self) == FooInputTypes::Num(*final(m)))
            }),
    {
        self.num_mut()
    }
}

impl IntoValue<String> for FooInputTypes {
    fn into_value(self) -> (r: Result<String, Self>)
        ensures
            ({
                let rr: Result<String, Self> = r;
                rr == spec_foo_into_string(self)
            }),
    {
        self.into_string()
    }
}

impl IntoValue<u16> for FooInputTypes {
    fn into_value(self) -> (r: Result<u16, Self>)
        ensures
            ({
                let rr: Result<u16, Self> = r;
                rr == spec_foo_into_num(self)
            }),
    {
        self.into_num()
    }
}

/// Law: converting an `i64` payload into the union and then reading it
/// back yields exactly that payload; reading any other payload shape
/// yields nothing.
pub proof fn lemma_convert_then_read_number(v: i64)
    ensures
        spec_number(<ExampleDerive as vstd::std_specs::convert::FromSpec<i64>>::from_spec(v))
            == Some(v),
        spec_string(<ExampleDerive as vstd::std_specs::convert::FromSpec<i64>>::from_spec(v))
            is None,
        spec_pair(<ExampleDerive as vstd::std_specs::convert::FromSpec<i64>>::from_spec(v))
            is None,
{
}

/// Law: converting a `String` payload into the union and then reading it
/// back yields exactly that payload; reading any other payload shape
/// yields nothing.
pub proof fn lemma_convert_then_read_string(s: String)
    ensures
        spec_string(<ExampleDerive as vstd::std_specs::convert::FromSpec<String>>::from_spec(s))
            == Some(s),
        spec_number(<ExampleDerive as vstd::std_specs::convert::FromSpec<String>>::from_spec(s))
            is None,
        spec_pair(<ExampleDerive as vstd::std_specs::convert::FromSpec<String>>::from_spec(s))
            is None,
{
}

/// Law: converting a `(u8, u8)` tuple payload into the union and then
/// consuming-extracting that shape yields exactly the tuple; extracting
/// any mismatched shape hands the union back unchanged.
pub proof fn lemma_convert_then_extract_pair(t: (u8, u8))
    ensures
        ({
            let u = <ExampleDerive as vstd::std_specs::convert::FromSpec<(u8, u8)>>::from_spec(t);
            &&& spec_into_pair(u) == Ok::<(u8, u8), ExampleDerive>(t)
            &&& spec_into_number(u) == Err::<i64, ExampleDerive>(u)
            &&& spec_into_string(u) == Err::<String, ExampleDerive>(u)
        }),
{
}

/// Law: converting, extracting, and converting the extracted payload
/// again reproduces a union value equal to the original, for each payload
/// shape.
pub proof fn lemma_round_trip(v: i64, s: String, t: (u8, u8))
    ensures
        ({
            let u = <ExampleDerive as vstd::std_specs::convert::FromSpec<i64>>::from_spec(v);
            spec_into_number(u) matches Ok(w)
                && <ExampleDerive as vstd::std_specs::convert::FromSpec<i64>>::from_spec(w) == u
        }),
        ({
            let u = <ExampleDerive as vstd::std_specs::convert::FromSpec<String>>::from_spec(s);
            spec_into_string(u) matches Ok(w)
                && <ExampleDerive as vstd::std_specs::convert::FromSpec<String>>::from_spec(w) == u
        }),
        ({
            let u = <ExampleDerive as vstd::std_specs::convert::FromSpec<(u8, u8)>>::from_spec(t);
            spec_into_pair(u) matches Ok(w)
                && <ExampleDerive as vstd::std_specs::convert::FromSpec<(u8, u8)>>::from_spec(w)
                == u
        }),
{
}

} // verus!
