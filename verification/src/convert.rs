//! The conversion contract between domain types and entities.
//!
//! A domain type turns itself into an entity with the
//! [`EntityBuilder`](crate::builder::EntityBuilder) and reads itself out of
//! one with the typed getters of [`Entity`]. The second direction can fail,
//! and is the trait [`TryFromEntity`].

use crate::entity::{Entity, EntityValueError};
use crate::key::KeyError;
use vstd::prelude::*;
use vstd::std_specs::convert::FromSpecImpl;

verus! {

/// Why an entity could not be read as a domain value.
#[derive(Debug)]
pub enum TryFromEntityError {
    /// The key has not the shape that the domain type asks for.
    KeyError(KeyError),
    /// A property is absent or of another variant than the domain type asks
    /// for.
    EntityValueError(EntityValueError),
    /// Anything else that the domain type objects to.
    Other(String),
}

/// The mathematical value of a [`TryFromEntityError`]: the variant and the
/// message it carries.
pub enum TryFromEntityErrorView {
    KeyError(Seq<char>),
    EntityValueError(Seq<char>),
    Other(Seq<char>),
}

impl View for TryFromEntityError {
    type V = TryFromEntityErrorView;

    open spec fn view(&self) -> TryFromEntityErrorView {
        match self {
            TryFromEntityError::KeyError(e) => TryFromEntityErrorView::KeyError(e@),
            TryFromEntityError::EntityValueError(e) => TryFromEntityErrorView::EntityValueError(
                e@,
            ),
            TryFromEntityError::Other(text) => TryFromEntityErrorView::Other(text@),
        }
    }
}

impl TryFromEntityErrorView {
    /// The message that the error carries.
    pub open spec fn detail(self) -> Seq<char> {
        match self {
            TryFromEntityErrorView::KeyError(text) => text,
            TryFromEntityErrorView::EntityValueError(text) => text,
            TryFromEntityErrorView::Other(text) => text,
        }
    }
}

impl TryFromEntityError {
    /// The one sentence that stands for every conversion failure.
    pub open spec fn summary() -> Seq<char> {
        "Failed to convert entity to struct"@
    }

    /// The error's text: the same sentence for every failure.
    pub fn to_string(&self) -> (text: String)
        ensures
            text@ == Self::summary(),
    {
        "Failed to convert entity to struct".to_owned()
    }

    /// The message of the failure that this error wraps: which field or key
    /// was at fault, and what was expected of it.
    pub fn detail(&self) -> (text: String)
        ensures
            text@ == self@.detail(),
    {
        match self {
            TryFromEntityError::KeyError(e) => e.to_string(),
            TryFromEntityError::EntityValueError(e) => e.to_string(),
            TryFromEntityError::Other(text) => text.clone(),
        }
    }
}

impl From<KeyError> for TryFromEntityError {
    fn from(e: KeyError) -> (error: TryFromEntityError) {
        TryFromEntityError::KeyError(e)
    }
}

impl FromSpecImpl<KeyError> for TryFromEntityError {
    open spec fn obeys_from_spec() -> bool {
        true
    }

    open spec fn from_spec(e: KeyError) -> TryFromEntityError {
        TryFromEntityError::KeyError(e)
    }
}

impl From<EntityValueError> for TryFromEntityError {
    fn from(e: EntityValueError) -> (error: TryFromEntityError) {
        TryFromEntityError::EntityValueError(e)
    }
}

impl FromSpecImpl<EntityValueError> for TryFromEntityError {
    open spec fn obeys_from_spec() -> bool {
        true
    }

    open spec fn from_spec(e: EntityValueError) -> TryFromEntityError {
        TryFromEntityError::EntityValueError(e)
    }
}

/// A domain type that can be read out of an entity.
///
/// An implementation states in `converts` what its conversion yields, and
/// the functions of this crate that convert on a caller's behalf state their
/// results through it. An implementation should check the key's kind first,
/// so that an entity of another kind fails at once.
pub trait TryFromEntity: Sized {
    /// Whether `result` is what converting `entity` may yield. Unless an
    /// implementation says more, anything may come back.
    open spec fn converts(entity: Entity, result: Result<Self, TryFromEntityError>) -> bool {
        true
    }

    /// Reads a domain value out of `entity`.
    fn try_from_entity(entity: Entity) -> (result: Result<Self, TryFromEntityError>)
        ensures
            Self::converts(entity, result),
    ;
}

/// A domain type that names the kind under which the store keeps it.
pub trait Kind {
    /// Whether `kind` is the name that the type gives. Unless an
    /// implementation says more, any name may come back.
    open spec fn names(kind: Seq<char>) -> bool {
        true
    }

    /// The kind's name.
    fn kind() -> (kind: &'static str)
        ensures
            Self::names(kind@),
    ;
}

} // verus!
