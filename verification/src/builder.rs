//! Fluent assembly of an entity: the write side of the codec.

use crate::datetime::UnixDateTime;
use crate::entity::{Entity, EntityView};
use crate::key::{IdType, IdTypeView, Key, KeyView, PathElement, PathElementView};
use crate::value::{Value, ValueType, ValueTypeView, ValueView};
use vstd::prelude::*;

verus! {

impl KeyView {
    /// The key of one segment, of kind `kind` and called `name`, in no
    /// partition.
    pub open spec fn named(kind: Seq<char>, name: Seq<char>) -> KeyView {
        KeyView {
            partition_id: None,
            path: seq![PathElementView { kind, id_type: Some(IdTypeView::Name(name)) }],
        }
    }
}

impl Key {
    /// The key of one segment, of kind `kind` and called `name`, in no
    /// partition.
    pub fn named(kind: &str, name: &str) -> (key: Key)
        ensures
            key@ == KeyView::named(kind@, name@),
    {
        let mut path: Vec<PathElement> = Vec::new();
        path.push(
            PathElement { kind: kind.to_owned(), id_type: Some(IdType::Name(name.to_owned())) },
        );
        let key = Key { partition_id: None, path };
        assert(key@.path =~= KeyView::named(kind@, name@).path);
        key
    }
}

impl EntityView {
    /// The entity with `value` written under `name` where there is a value,
    /// and the entity itself where there is none.
    pub open spec fn insert_opt(self, name: Seq<char>, value: Option<ValueView>) -> EntityView {
        match value {
            Some(value) => self.insert(name, value),
            None => self,
        }
    }
}

/// Builds an entity step by step. Steps may come in any order; of two steps
/// that set the key, or that write under one name, the later one counts.
pub struct EntityBuilder {
    entity: Entity,
}

impl View for EntityBuilder {
    type V = EntityView;

    closed spec fn view(&self) -> EntityView {
        self.entity@
    }
}

impl EntityBuilder {
    /// A builder that holds no key and no properties.
    pub fn new() -> (builder: EntityBuilder)
        ensures
            builder@ == EntityView::empty(),
    {
        EntityBuilder { entity: Entity::new() }
    }

    /// Sets the key to one segment of kind `kind`, called `name`.
    pub fn with_key_name(self, kind: &str, name: &str) -> (builder: EntityBuilder)
        ensures
            builder@ == self@.with_key(KeyView::named(kind@, name@)),
    {
        self.with_key(Key::named(kind, name))
    }

    /// Sets the key.
    pub fn with_key(self, key: Key) -> (builder: EntityBuilder)
        ensures
            builder@ == self@.with_key(key@),
    {
        EntityBuilder { entity: self.entity.with_key(key) }
    }

    /// Writes a value under `name`. A value that is not indexed is kept out
    /// of the store's indexes.
    pub fn add_value(self, name: &str, value: ValueType, indexed: bool) -> (builder: EntityBuilder)
        ensures
            builder@ == self@.insert(name@, ValueView::of(value@, indexed)),
    {
        EntityBuilder {
            entity: self.entity.with_property(name.to_owned(), Value::new(value, indexed)),
        }
    }

    /// Writes a value under `name` if there is one, and does nothing
    /// otherwise.
    pub fn opt_value(self, name: &str, value: Option<ValueType>, indexed: bool) -> (builder:
        EntityBuilder)
        ensures
            builder@ == self@.insert_opt(
                name@,
                match value {
                    Some(value) => Some(ValueView::of(value@, indexed)),
                    None => None,
                },
            ),
    {
        match value {
            Some(value) => self.add_value(name, value, indexed),
            None => self,
        }
    }

    /// Writes a string under `name`.
    pub fn add_string(self, name: &str, value: &str, indexed: bool) -> (builder: EntityBuilder)
        ensures
            builder@ == self@.insert(
                name@,
                ValueView::of(ValueTypeView::StringValue(value@), indexed),
            ),
    {
        self.add_value(name, ValueType::StringValue(value.to_owned()), indexed)
    }

    /// Writes a string under `name` if there is one.
    pub fn opt_string(self, name: &str, value: Option<&str>, indexed: bool) -> (builder:
        EntityBuilder)
        ensures
            builder@ == self@.insert_opt(
                name@,
                match value {
                    Some(value) => Some(
                        ValueView::of(ValueTypeView::StringValue(value@), indexed),
                    ),
                    None => None,
                },
            ),
    {
        match value {
            Some(value) => self.add_string(name, value, indexed),
            None => self,
        }
    }

    /// Writes a boolean under `name`.
    pub fn add_bool(self, name: &str, value: bool, indexed: bool) -> (builder: EntityBuilder)
        ensures
            builder@ == self@.insert(
                name@,
                ValueView::of(ValueTypeView::BooleanValue(value), indexed),
            ),
    {
        self.add_value(name, ValueType::BooleanValue(value), indexed)
    }

    /// Writes a boolean under `name` if there is one.
    pub fn opt_bool(self, name: &str, value: Option<bool>, indexed: bool) -> (builder:
        EntityBuilder)
        ensures
            builder@ == self@.insert_opt(
                name@,
                match value {
                    Some(value) => Some(
                        ValueView::of(ValueTypeView::BooleanValue(value), indexed),
                    ),
                    None => None,
                },
            ),
    {
        match value {
            Some(value) => self.add_bool(name, value, indexed),
            None => self,
        }
    }

    /// Writes a date-time under `name`, as a timestamp at its second.
    pub fn add_offset_date_time(self, name: &str, value: UnixDateTime, indexed: bool) -> (builder:
        EntityBuilder)
        ensures
            builder@ == self@.insert(
                name@,
                ValueView::of(ValueTypeView::whole_second(value@), indexed),
            ),
    {
        self.add_value(name, ValueType::date_time(value), indexed)
    }

    /// Writes a date-time under `name` if there is one.
    pub fn opt_offset_date_time(
        self,
        name: &str,
        value: Option<UnixDateTime>,
        indexed: bool,
    ) -> (builder: EntityBuilder)
        ensures
            builder@ == self@.insert_opt(
                name@,
                match value {
                    Some(value) => Some(
                        ValueView::of(ValueTypeView::whole_second(value@), indexed),
                    ),
                    None => None,
                },
            ),
    {
        match value {
            Some(value) => self.add_offset_date_time(name, value, indexed),
            None => self,
        }
    }

    /// Writes an array of strings under `name`. The array and its elements
    /// are indexed.
    pub fn add_string_array(self, name: &str, values: Vec<String>) -> (builder: EntityBuilder)
        ensures
            builder@ == self@.insert(
                name@,
                ValueView::of(ValueTypeView::string_array(values.deep_view()), true),
            ),
    {
        self.add_value(name, ValueType::string_array(values), true)
    }

    /// The entity as built.
    pub fn build(self) -> (entity: Entity)
        ensures
            entity@ == self@,
    {
        self.entity
    }
}

impl Entity {
    /// A builder that holds no key and no properties.
    pub fn builder() -> (builder: EntityBuilder)
        ensures
            builder@ == EntityView::empty(),
    {
        EntityBuilder::new()
    }
}

} // verus!
