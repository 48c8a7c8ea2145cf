//! The type-erased value wrapper: a fixed-size box that carries an
//! arbitrary value across compiled-module and foreign-function boundaries.
//!
//! An [`Any`] pairs a 64-bit payload with a reference to the per-type
//! [`TypeInformation`] record that was registered for the payload's true
//! type. The record's identity — never its contents — is the runtime type
//! tag: recovering the payload compares the wrapper's record against the
//! expected one and hands the payload back only on a match. A mismatch is a
//! normal "no match" outcome, not an error; the caller keeps the wrapper
//! and may try another type.
//!
//! Registration is the code generator's side of the bargain: it emits one
//! record per concrete type and must never reuse a tag for two distinct
//! source types. This module checks tags only by equality; making them
//! distinct is a static wiring obligation, exactly as address identity is
//! for statically allocated records.

use vstd::prelude::*;

verus! {

/// The tag value reserved for [`Dummy`], the placeholder behind the
/// default `Any`. Registered types use other tags.
pub const DUMMY_TYPE_TAG: u64 = 0;

/// The process-wide, per-type record installed in every [`Any`] that wraps
/// a value of that type. Its identity is the runtime type tag; the clone
/// and drop behavior registered alongside it lives with the compiled
/// type's memory-contract functions (see [`crate::reference_count`]).
#[derive(Clone, Copy, Debug, PartialEq, Eq, Structural)]
pub struct TypeInformation {
    /// The tag that identifies the record. The registration generator
    /// assigns one distinct tag per concrete type.
    pub tag: u64,
}

/// The abstract state of an [`Any`].
pub struct AnyView {
    pub type_information: TypeInformation,
    pub payload: u64,
}

/// The payload that unwrapping `a` under the record `expected` yields:
/// the stored payload on a tag match, and nothing otherwise.
pub open spec fn payload_for(a: AnyView, expected: TypeInformation) -> Option<u64> {
    if a.type_information == expected {
        Some(a.payload)
    } else {
        None
    }
}

/// A type-erased value: one [`TypeInformation`] record plus a 64-bit
/// payload. The wrapper exclusively owns the payload's underlying
/// resource, and its type tag never changes after construction.
#[derive(Debug)]
pub struct Any {
    type_information: TypeInformation,
    payload: u64,
}

impl View for Any {
    type V = AnyView;

    closed spec fn view(&self) -> AnyView {
        AnyView { type_information: self.type_information, payload: self.payload }
    }
}

impl Any {
    /// Wraps `payload` under the given per-type record.
    pub fn new(type_information: TypeInformation, payload: u64) -> (any: Any)
        ensures
            any@ == (AnyView { type_information, payload }),
    {
        Any { type_information, payload }
    }

    /// The record the wrapper was constructed with.
    pub fn type_information(&self) -> (type_information: TypeInformation)
        ensures
            type_information == self@.type_information,
    {
        self.type_information
    }

    /// A borrowed view of the raw payload.
    pub fn payload(&self) -> (payload: &u64)
        ensures
            *payload == self@.payload,
    {
        &self.payload
    }

    /// Whether the wrapper's tag is identical to `expected`: the one
    /// comparison this wrapper ever performs on types.
    pub fn matches(&self, expected: TypeInformation) -> (matched: bool)
        ensures
            matched == (self@.type_information == expected),
    {
        self.type_information == expected
    }

    /// Moves the payload out if the tag matches `expected`, consuming the
    /// wrapper; on a mismatch the wrapper itself comes back unchanged, so
    /// the caller retains ownership and may try another type.
    pub fn into_payload(self, expected: TypeInformation) -> (result: Result<u64, Any>)
        ensures
            payload_for(self@, expected) is Some ==> result == Ok::<u64, Any>(
                payload_for(self@, expected).unwrap(),
            ),
            payload_for(self@, expected) is None ==> result is Err && result.unwrap_err()@
                == self@,
    {
        if self.type_information == expected {
            Ok(self.payload)
        } else {
            Err(self)
        }
    }

    /// Borrows the payload if the tag matches `expected`, without
    /// transferring ownership. Two reads of the same wrapper under the
    /// same record return equal views.
    pub fn as_payload(&self, expected: TypeInformation) -> (result: Option<&u64>)
        ensures
            match result {
                Some(payload) => payload_for(self@, expected) == Some(*payload),
                None => payload_for(self@, expected) is None,
            },
    {
        if self.type_information == expected {
            Some(&self.payload)
        } else {
            None
        }
    }
}

impl Clone for Any {
    /// Duplicates the wrapper under the same type record. The payload of a
    /// boxed value stands for a reference-counted resource whose count the
    /// registered clone function raises; the wrapper itself carries the
    /// same bits either way, so the copy is exact.
    fn clone(&self) -> (cloned: Self)
        ensures
            cloned@ == self@,
    {
        Any { type_information: self.type_information, payload: self.payload }
    }
}

impl Default for Any {
    /// The empty wrapper: the reserved placeholder type with a zero
    /// payload, so that "no value yet" is representable without a null.
    fn default() -> (any: Any)
        ensures
            any@ == (AnyView {
                type_information: TypeInformation { tag: DUMMY_TYPE_TAG },
                payload: 0u64,
            }),
    {
        Any::new(TypeInformation { tag: DUMMY_TYPE_TAG }, 0)
    }
}

/// What a registered type knows how to do: move itself into an [`Any`]
/// under its own record, and recover itself — by move or by borrow — from
/// a wrapper whose tag matches. The registration generator implements this
/// once per concrete type over [`Any::new`], [`Any::into_payload`] and
/// [`Any::as_payload`].
pub trait AnyLike: Sized {
    /// Moves the value into a wrapper carrying this type's record.
    fn into_any(self) -> Any;

    /// Recovers the value if the wrapper's tag matches this type's record,
    /// consuming the wrapper; `None` otherwise.
    fn from_any(any: Any) -> Option<Self>;

    /// Borrows the value if the wrapper's tag matches this type's record;
    /// `None` otherwise.
    fn as_inner(any: &Any) -> Option<&Self>;
}

/// The reserved zero-sized placeholder type behind the default `Any`.
#[derive(Clone, Copy, Debug, PartialEq, Eq, Structural)]
pub struct Dummy {}

impl AnyLike for Dummy {
    fn into_any(self) -> Any {
        Any::new(TypeInformation { tag: DUMMY_TYPE_TAG }, 0)
    }

    fn from_any(any: Any) -> Option<Dummy> {
        match any.into_payload(TypeInformation { tag: DUMMY_TYPE_TAG }) {
            Ok(_) => Some(Dummy {  }),
            Err(_) => None,
        }
    }

    fn as_inner(any: &Any) -> Option<&Dummy> {
        if any.matches(TypeInformation { tag: DUMMY_TYPE_TAG }) {
            Some(&Dummy {  })
        } else {
            None
        }
    }
}

/// Wrapping a payload under a type's record and unwrapping it under the
/// same record hands back exactly the stored payload: the round trip loses
/// nothing, whatever the tag and whatever the payload.
pub proof fn lemma_wrap_then_unwrap(type_information: TypeInformation, payload: u64)
    ensures
        payload_for(AnyView { type_information, payload }, type_information) == Some(payload),
{
}

/// Two distinct registered records never both match one wrapper: under any
/// record other than the one a value was wrapped with — even one whose
/// registered behavior is identical — unwrapping yields nothing. Tag
/// identity, not contents, is the only comparison performed.
pub proof fn lemma_distinct_tags_never_match(
    type_information: TypeInformation,
    payload: u64,
    other: TypeInformation,
)
    requires
        type_information != other,
    ensures
        payload_for(AnyView { type_information, payload }, other) is None,
{
}

/// Reading the payload borrows the wrapper and decides by its view alone:
/// any two reads of one wrapper under one expected record agree.
pub proof fn lemma_as_inner_stable(
    a: AnyView,
    expected: TypeInformation,
    first: Option<u64>,
    second: Option<u64>,
)
    requires
        first == payload_for(a, expected),
        second == payload_for(a, expected),
    ensures
        first == second,
{
}

} // verus!
