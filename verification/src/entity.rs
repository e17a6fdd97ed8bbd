//! Entities: a property bag with an optional key, and its typed getters.

use crate::datetime::{is_representable, UnixDateTime};
use crate::key::{Key, KeyError, KeyView};
use crate::text::{join3, same_text};
use crate::value::{copy_value, value_view, Value, ValueType, ValueTypeView, ValueView};
use vstd::prelude::*;

verus! {

/// A named value of an entity.
#[derive(Debug)]
pub struct Property {
    pub name: String,
    pub value: Value,
}

/// A property bag: an optional key and named values. A name occurs once;
/// the order of the properties carries no meaning.
#[derive(Debug)]
pub struct Entity {
    pub(crate) key: Option<Key>,
    pub(crate) properties: Vec<Property>,
}

/// The mathematical value of an [`Entity`]: its properties form a map from
/// name to value.
pub struct EntityView {
    pub key: Option<KeyView>,
    pub properties: Map<Seq<char>, ValueView>,
}

/// No two properties of `ps` share a name.
pub open spec fn names_unique(ps: Seq<Property>) -> bool {
    forall|i: int, j: int| 0 <= i < j < ps.len() ==> ps[i].name@ != ps[j].name@
}

/// The map that a list of properties stands for. Where a name occurs more
/// than once, the last occurrence counts.
pub open spec fn properties_view(ps: Seq<Property>) -> Map<Seq<char>, ValueView>
    decreases ps,
{
    if ps.len() == 0 {
        Map::empty()
    } else {
        properties_view(ps.drop_last()).insert(ps.last().name@, value_view(ps.last().value))
    }
}

/// The value of `e`: its key's value and the map of its properties.
pub closed spec fn entity_view(e: Entity) -> EntityView
    decreases e,
{
    EntityView {
        key: match e.key {
            Some(k) => Some(k@),
            None => None,
        },
        properties: properties_view(e.properties@),
    }
}

impl View for Entity {
    type V = EntityView;

    open spec fn view(&self) -> EntityView {
        entity_view(*self)
    }
}

/// A name is in the map of `ps` exactly if a property of `ps` bears it.
pub proof fn lemma_properties_view_names(ps: Seq<Property>, name: Seq<char>)
    ensures
        properties_view(ps).contains_key(name) <==> exists|i: int|
            0 <= i < ps.len() && #[trigger] ps[i].name@ == name,
    decreases ps.len(),
{
    if ps.len() > 0 {
        let init = ps.drop_last();
        lemma_properties_view_names(init, name);
        if properties_view(ps).contains_key(name) {
            if ps.last().name@ == name {
                assert(ps[ps.len() - 1].name@ == name);
            } else {
                let i = choose|i: int| 0 <= i < init.len() && #[trigger] init[i].name@ == name;
                assert(ps[i].name@ == name);
            }
        }
        if exists|i: int| 0 <= i < ps.len() && #[trigger] ps[i].name@ == name {
            let i = choose|i: int| 0 <= i < ps.len() && #[trigger] ps[i].name@ == name;
            if i < ps.len() - 1 {
                assert(init[i].name@ == name);
            }
        }
    }
}

/// Where names are unique, the map of `ps` sends each property's name to
/// that property's value.
pub proof fn lemma_properties_view_at(ps: Seq<Property>, i: int)
    requires
        names_unique(ps),
        0 <= i < ps.len(),
    ensures
        properties_view(ps).contains_key(ps[i].name@),
        properties_view(ps)[ps[i].name@] == value_view(ps[i].value),
    decreases ps.len(),
{
    if i < ps.len() - 1 {
        let init = ps.drop_last();
        assert(names_unique(init)) by {
            assert forall|a: int, b: int| 0 <= a < b < init.len() implies init[a].name@
                != init[b].name@ by {
                assert(ps[a].name@ != ps[b].name@);
            }
        }
        lemma_properties_view_at(init, i);
        assert(ps[i].name@ != ps[ps.len() - 1].name@);
    }
}

/// Appending a property writes its value under its name.
pub proof fn lemma_properties_view_push(ps: Seq<Property>, p: Property)
    ensures
        properties_view(ps.push(p)) == properties_view(ps).insert(p.name@, value_view(p.value)),
{
    assert(ps.push(p).drop_last() =~= ps);
}

/// Where names are unique, replacing a property by one of the same name
/// writes the new value under that name and keeps the names unique.
pub proof fn lemma_properties_view_update(ps: Seq<Property>, i: int, p: Property)
    requires
        names_unique(ps),
        0 <= i < ps.len(),
        ps[i].name@ == p.name@,
    ensures
        names_unique(ps.update(i, p)),
        properties_view(ps.update(i, p)) == properties_view(ps).insert(
            p.name@,
            value_view(p.value),
        ),
    decreases ps.len(),
{
    let qs = ps.update(i, p);
    assert(names_unique(qs)) by {
        assert forall|a: int, b: int| 0 <= a < b < qs.len() implies qs[a].name@
            != qs[b].name@ by {
            assert(ps[a].name@ != ps[b].name@);
        }
    }
    let init = ps.drop_last();
    if i == ps.len() - 1 {
        assert(qs.drop_last() =~= init);
        assert(properties_view(qs) =~= properties_view(ps).insert(p.name@, value_view(p.value)));
    } else {
        assert(names_unique(init)) by {
            assert forall|a: int, b: int| 0 <= a < b < init.len() implies init[a].name@
                != init[b].name@ by {
                assert(ps[a].name@ != ps[b].name@);
            }
        }
        lemma_properties_view_update(init, i, p);
        assert(qs.drop_last() =~= init.update(i, p));
        assert(qs.last() == ps.last());
        assert(ps[i].name@ != ps[ps.len() - 1].name@);
        assert(properties_view(qs) =~= properties_view(ps).insert(p.name@, value_view(p.value)));
    }
}

/// Two lists that agree name by name and value by value stand for the same
/// map, and hold their names once or not alike.
pub proof fn lemma_properties_view_pointwise(ps: Seq<Property>, qs: Seq<Property>)
    requires
        ps.len() == qs.len(),
        forall|i: int| 0 <= i < ps.len() ==> (#[trigger] ps[i]).name@ == qs[i].name@,
        forall|i: int|
            0 <= i < ps.len() ==> value_view((#[trigger] ps[i]).value) == value_view(qs[i].value),
    ensures
        properties_view(ps) == properties_view(qs),
        names_unique(ps) == names_unique(qs),
    decreases ps.len(),
{
    if ps.len() > 0 {
        let p = ps.drop_last();
        let q = qs.drop_last();
        assert forall|i: int| 0 <= i < p.len() implies (#[trigger] p[i]).name@ == q[i].name@ by {
            assert(ps[i].name@ == qs[i].name@);
        }
        assert forall|i: int| 0 <= i < p.len() implies value_view((#[trigger] p[i]).value)
            == value_view(q[i].value) by {
            assert(value_view(ps[i].value) == value_view(qs[i].value));
        }
        lemma_properties_view_pointwise(p, q);
        assert(ps[ps.len() - 1].name@ == qs[ps.len() - 1].name@);
        assert(value_view(ps[ps.len() - 1].value) == value_view(qs[ps.len() - 1].value));
    }
    if names_unique(ps) {
        assert forall|i: int, j: int| 0 <= i < j < qs.len() implies qs[i].name@
            != qs[j].name@ by {
            assert(ps[i].name@ == qs[i].name@);
            assert(ps[j].name@ == qs[j].name@);
        }
    }
    if names_unique(qs) {
        assert forall|i: int, j: int| 0 <= i < j < ps.len() implies ps[i].name@
            != ps[j].name@ by {
            assert(ps[i].name@ == qs[i].name@);
            assert(ps[j].name@ == qs[j].name@);
        }
    }
}

/// A copy of `e` with the same value.
pub(crate) fn copy_entity(e: &Entity) -> (copy: Entity)
    ensures
        copy@ == e@,
    decreases e,
{
    proof {
        use_type_invariant(e);
    }
    let key = match &e.key {
        Some(k) => Some(k.clone()),
        None => None,
    };
    let mut properties: Vec<Property> = Vec::new();
    let mut i: usize = 0;
    while i < e.properties.len()
        invariant
            i <= e.properties@.len(),
            properties@.len() == i,
            forall|j: int| 0 <= j < i ==> (#[trigger] properties@[j]).name@ == e.properties@[j].name@,
            forall|j: int|
                0 <= j < i ==> value_view((#[trigger] properties@[j]).value) == value_view(
                    e.properties@[j].value,
                ),
        decreases e.properties@.len() - i,
    {
        let property = &e.properties[i];
        properties.push(Property { name: property.name.clone(), value: copy_value(&property.value) });
        i += 1;
    }
    proof {
        lemma_properties_view_pointwise(properties@, e.properties@);
    }
    Entity { key, properties }
}

impl Clone for Property {
    /// A copy of the same name and value.
    fn clone(&self) -> (copy: Property)
        ensures
            copy.name@ == self.name@,
            copy.value@ == self.value@,
    {
        Property { name: self.name.clone(), value: copy_value(&self.value) }
    }
}

impl Clone for Entity {
    /// A copy of the same value: the same key and the same properties,
    /// nested values included.
    fn clone(&self) -> (copy: Entity)
        ensures
            copy@ == self@,
    {
        copy_entity(self)
    }
}

impl EntityView {
    /// The entity without a key and without properties.
    pub open spec fn empty() -> EntityView {
        EntityView { key: None, properties: Map::empty() }
    }

    /// The entity with its key set to `key`.
    pub open spec fn with_key(self, key: KeyView) -> EntityView {
        EntityView { key: Some(key), properties: self.properties }
    }

    /// The entity with `value` written under `name`, over what was there.
    pub open spec fn insert(self, name: Seq<char>, value: ValueView) -> EntityView {
        EntityView { key: self.key, properties: self.properties.insert(name, value) }
    }
}

impl Entity {
    #[verifier::type_invariant]
    spec fn names_held_once(&self) -> bool {
        names_unique(self.properties@)
    }

    /// An entity without a key and without properties.
    pub fn new() -> (entity: Entity)
        ensures
            entity@ == EntityView::empty(),
    {
        Entity { key: None, properties: Vec::new() }
    }

    /// The entity's key, if it has one.
    pub fn key(&self) -> (key: Option<&Key>)
        ensures
            match key {
                Some(k) => self@.key == Some(k@),
                None => self@.key is None,
            },
    {
        self.key.as_ref()
    }

    /// The entity with its key set to `key`, over the one it had.
    pub fn with_key(self, key: Key) -> (entity: Entity)
        ensures
            entity@ == self@.with_key(key@),
    {
        proof {
            use_type_invariant(&self);
        }
        let Entity { key: _, properties } = self;
        Entity { key: Some(key), properties }
    }

    /// The position of the property called `name`, if there is one.
    fn position(&self, name: &str) -> (found: Option<usize>)
        ensures
            match found {
                Some(i) => i < self.properties@.len() && self.properties@[i as int].name@ == name@,
                None => forall|i: int|
                    0 <= i < self.properties@.len() ==> self.properties@[i].name@ != name@,
            },
    {
        let mut i: usize = 0;
        while i < self.properties.len()
            invariant
                i <= self.properties@.len(),
                forall|j: int| 0 <= j < i ==> self.properties@[j].name@ != name@,
            decreases self.properties@.len() - i,
        {
            if same_text(self.properties[i].name.as_str(), name) {
                return Some(i);
            }
            i += 1;
        }
        None
    }

    /// The value stored under `name`, if there is one.
    pub fn property(&self, name: &str) -> (value: Option<&Value>)
        ensures
            match value {
                Some(v) => self@.properties.contains_key(name@) && self@.properties[name@] == v@,
                None => !self@.properties.contains_key(name@),
            },
    {
        proof {
            use_type_invariant(self);
            lemma_properties_view_names(self.properties@, name@);
        }
        match self.position(name) {
            Some(i) => {
                proof {
                    lemma_properties_view_at(self.properties@, i as int);
                }
                Some(&self.properties[i].value)
            },
            None => None,
        }
    }

    /// All properties, each name once, in no particular order.
    pub fn properties(&self) -> (properties: &Vec<Property>)
        ensures
            names_unique(properties@),
            properties_view(properties@) == self@.properties,
    {
        proof {
            use_type_invariant(self);
        }
        &self.properties
    }

    /// The entity taken apart: its key and its properties, each name once,
    /// in no particular order.
    pub fn into_parts(self) -> (parts: (Option<Key>, Vec<Property>))
        ensures
            match parts.0 {
                Some(k) => self@.key == Some(k@),
                None => self@.key is None,
            },
            names_unique(parts.1@),
            properties_view(parts.1@) == self@.properties,
    {
        proof {
            use_type_invariant(&self);
        }
        let Entity { key, properties } = self;
        (key, properties)
    }

    /// The entity with `value` written under `name`, over what was stored
    /// there.
    pub fn with_property(self, name: String, value: Value) -> (entity: Entity)
        ensures
            entity@ == self@.insert(name@, value@),
    {
        proof {
            use_type_invariant(&self);
        }
        let found = self.position(name.as_str());
        let Entity { key, mut properties } = self;
        let property = Property { name, value };
        proof {
            match found {
                Some(i) => lemma_properties_view_update(properties@, i as int, property),
                None => {
                    lemma_properties_view_push(properties@, property);
                    assert(names_unique(properties@.push(property)));
                },
            }
        }
        match found {
            Some(i) => {
                properties.set(i, property);
            },
            None => {
                properties.push(property);
            },
        }
        Entity { key, properties }
    }
}

impl Default for Entity {
    /// An entity without a key and without properties.
    fn default() -> (entity: Entity)
        ensures
            entity@ == EntityView::empty(),
    {
        Entity::new()
    }
}

/// Why a property or the key of an entity could not be read.
#[derive(Debug)]
pub struct EntityValueError(String);

impl View for EntityValueError {
    type V = Seq<char>;

    closed spec fn view(&self) -> Seq<char> {
        self.0@
    }
}

impl EntityValueError {
    /// The message for an entity without a key.
    pub open spec fn missing_key() -> Seq<char> {
        "Missing Key"@
    }

    /// The message for a key of another kind than `kind`.
    pub open spec fn invalid_key_kind(kind: Seq<char>) -> Seq<char> {
        "Invalid Key Kind. Expected '"@ + kind + "'."@
    }

    /// The message for a required scalar that is absent.
    pub open spec fn missing_required_field() -> Seq<char> {
        "missing required field"@
    }

    /// The message for a required array that is absent.
    pub open spec fn missing_required_array(name: Seq<char>) -> Seq<char> {
        "Entity missing required field '"@ + name + "'"@
    }

    /// The message for a property, or an array element, that is no string.
    pub open spec fn not_a_string(name: Seq<char>) -> Seq<char> {
        "Field "@ + name + " is not a string"@
    }

    /// The message for a property that is no boolean.
    pub open spec fn not_a_boolean(name: Seq<char>) -> Seq<char> {
        "Field "@ + name + " is not a boolean"@
    }

    /// The message for a property that is no timestamp.
    pub open spec fn not_a_timestamp(name: Seq<char>) -> Seq<char> {
        "Field "@ + name + " is not a Timestamp"@
    }

    /// The message for a property that is no array.
    pub open spec fn not_an_array(name: Seq<char>) -> Seq<char> {
        "Field "@ + name + " is not an array"@
    }

    /// The error's text.
    pub fn to_string(&self) -> (text: String)
        ensures
            text@ == self@,
    {
        self.0.clone()
    }
}

/// Every value of `values` is of the string variant.
pub open spec fn all_strings(values: Seq<ValueView>) -> bool {
    forall|i: int| 0 <= i < values.len() ==> (#[trigger] values[i]).is_string()
}

/// The texts of `values`, in order.
pub open spec fn strings_of(values: Seq<ValueView>) -> Seq<Seq<char>> {
    Seq::new(values.len(), |i: int| values[i].string())
}

/// What each typed getter answers, over the entity's value. An `Err` holds
/// the error's message.
impl EntityView {
    /// The key, provided that its first segment is of kind `kind`.
    pub open spec fn req_key(self, kind: Seq<char>) -> Result<KeyView, Seq<char>> {
        match self.key {
            None => Err(EntityValueError::missing_key()),
            Some(key) => match key.kind() {
                None => Err(KeyError::no_path()),
                Some(found) => if found == kind {
                    Ok(key)
                } else {
                    Err(EntityValueError::invalid_key_kind(kind))
                },
            },
        }
    }

    /// The text under `name`: absent where no property bears the name, an
    /// error where the property is of another variant.
    pub open spec fn opt_string(self, name: Seq<char>) -> Result<Option<Seq<char>>, Seq<char>> {
        if !self.properties.contains_key(name) {
            Ok(None)
        } else {
            match self.properties[name].value_type {
                Some(ValueTypeView::StringValue(text)) => Ok(Some(text)),
                _ => Err(EntityValueError::not_a_string(name)),
            }
        }
    }

    /// As `opt_string`, with absence an error.
    pub open spec fn req_string(self, name: Seq<char>) -> Result<Seq<char>, Seq<char>> {
        match self.opt_string(name) {
            Ok(Some(text)) => Ok(text),
            Ok(None) => Err(EntityValueError::missing_required_field()),
            Err(e) => Err(e),
        }
    }

    /// The boolean under `name`: absent where no property bears the name,
    /// an error where the property is of another variant.
    pub open spec fn opt_bool(self, name: Seq<char>) -> Result<Option<bool>, Seq<char>> {
        if !self.properties.contains_key(name) {
            Ok(None)
        } else {
            match self.properties[name].value_type {
                Some(ValueTypeView::BooleanValue(b)) => Ok(Some(b)),
                _ => Err(EntityValueError::not_a_boolean(name)),
            }
        }
    }

    /// As `opt_bool`, with absence an error.
    pub open spec fn req_bool(self, name: Seq<char>) -> Result<bool, Seq<char>> {
        match self.opt_bool(name) {
            Ok(Some(b)) => Ok(b),
            Ok(None) => Err(EntityValueError::missing_required_field()),
            Err(e) => Err(e),
        }
    }

    /// The seconds of the timestamp under `name`: absent where no property
    /// bears the name or where the calendar does not reach the timestamp, an
    /// error where the property is of another variant.
    pub open spec fn opt_offset_date_time(self, name: Seq<char>) -> Result<
        Option<i64>,
        Seq<char>,
    > {
        if !self.properties.contains_key(name) {
            Ok(None)
        } else {
            match self.properties[name].value_type {
                Some(ValueTypeView::TimestampValue(ts)) => if is_representable(ts.seconds as int) {
                    Ok(Some(ts.seconds))
                } else {
                    Ok(None)
                },
                _ => Err(EntityValueError::not_a_timestamp(name)),
            }
        }
    }

    /// As `opt_offset_date_time`, with absence an error.
    pub open spec fn req_offset_date_time(self, name: Seq<char>) -> Result<i64, Seq<char>> {
        match self.opt_offset_date_time(name) {
            Ok(Some(seconds)) => Ok(seconds),
            Ok(None) => Err(EntityValueError::missing_required_field()),
            Err(e) => Err(e),
        }
    }

    /// The texts of the array under `name`: absent where no property bears
    /// the name, an error where the property holds no array, be it another
    /// variant or none at all, and an error for the whole array where one
    /// element is no string.
    pub open spec fn opt_string_array(self, name: Seq<char>) -> Result<
        Option<Seq<Seq<char>>>,
        Seq<char>,
    > {
        if !self.properties.contains_key(name) {
            Ok(None)
        } else {
            match self.properties[name].value_type {
                Some(ValueTypeView::ArrayValue(values)) => if all_strings(values) {
                    Ok(Some(strings_of(values)))
                } else {
                    Err(EntityValueError::not_a_string(name))
                },
                _ => Err(EntityValueError::not_an_array(name)),
            }
        }
    }

    /// As `opt_string_array`, with absence an error.
    pub open spec fn req_string_array(self, name: Seq<char>) -> Result<
        Seq<Seq<char>>,
        Seq<char>,
    > {
        match self.opt_string_array(name) {
            Ok(Some(texts)) => Ok(texts),
            Ok(None) => Err(EntityValueError::missing_required_array(name)),
            Err(e) => Err(e),
        }
    }
}

impl Entity {
    /// The entity's key, provided that its first segment is of kind `kind`.
    pub fn req_key(&self, kind: &str) -> (result: Result<&Key, EntityValueError>)
        ensures
            match result {
                Ok(key) => self@.req_key(kind@) == Ok::<KeyView, Seq<char>>(key@),
                Err(e) => self@.req_key(kind@) == Err::<KeyView, Seq<char>>(e@),
            },
    {
        let key = match &self.key {
            Some(key) => key,
            None => {
                return Err(EntityValueError("Missing Key".to_owned()));
            },
        };
        let key_kind = match key.kind() {
            Ok(key_kind) => key_kind,
            Err(e) => {
                return Err(EntityValueError(e.to_string()));
            },
        };
        if same_text(key_kind, kind) {
            Ok(key)
        } else {
            Err(EntityValueError(join3("Invalid Key Kind. Expected '", kind, "'.")))
        }
    }

    /// The string stored under `name`, which must be there.
    pub fn req_string(&self, name: &str) -> (result: Result<String, EntityValueError>)
        ensures
            match result {
                Ok(text) => self@.req_string(name@) == Ok::<Seq<char>, Seq<char>>(text@),
                Err(e) => self@.req_string(name@) == Err::<Seq<char>, Seq<char>>(e@),
            },
    {
        match self.opt_string(name) {
            Ok(Some(text)) => Ok(text),
            Ok(None) => Err(EntityValueError("missing required field".to_owned())),
            Err(e) => Err(e),
        }
    }

    /// The string stored under `name`, if a property bears that name.
    pub fn opt_string(&self, name: &str) -> (result: Result<Option<String>, EntityValueError>)
        ensures
            match result {
                Ok(Some(text)) => self@.opt_string(name@) == Ok::<Option<Seq<char>>, Seq<char>>(
                    Some(text@),
                ),
                Ok(None) => self@.opt_string(name@) == Ok::<Option<Seq<char>>, Seq<char>>(None),
                Err(e) => self@.opt_string(name@) == Err::<Option<Seq<char>>, Seq<char>>(e@),
            },
    {
        match self.property(name) {
            None => Ok(None),
            Some(value) => match &value.value_type {
                Some(ValueType::StringValue(text)) => Ok(Some(text.clone())),
                _ => Err(EntityValueError(join3("Field ", name, " is not a string"))),
            },
        }
    }

    /// The boolean stored under `name`, if a property bears that name.
    pub fn opt_bool(&self, name: &str) -> (result: Result<Option<bool>, EntityValueError>)
        ensures
            match result {
                Ok(found) => self@.opt_bool(name@) == Ok::<Option<bool>, Seq<char>>(found),
                Err(e) => self@.opt_bool(name@) == Err::<Option<bool>, Seq<char>>(e@),
            },
    {
        match self.property(name) {
            None => Ok(None),
            Some(value) => match &value.value_type {
                Some(ValueType::BooleanValue(b)) => Ok(Some(*b)),
                _ => Err(EntityValueError(join3("Field ", name, " is not a boolean"))),
            },
        }
    }

    /// The boolean stored under `name`, which must be there.
    pub fn req_bool(&self, name: &str) -> (result: Result<bool, EntityValueError>)
        ensures
            match result {
                Ok(b) => self@.req_bool(name@) == Ok::<bool, Seq<char>>(b),
                Err(e) => self@.req_bool(name@) == Err::<bool, Seq<char>>(e@),
            },
    {
        match self.opt_bool(name) {
            Ok(Some(b)) => Ok(b),
            Ok(None) => Err(EntityValueError("missing required field".to_owned())),
            Err(e) => Err(e),
        }
    }

    /// The date-time of the timestamp stored under `name`, if a property
    /// bears that name and the calendar reaches the timestamp.
    pub fn opt_offset_date_time(&self, name: &str) -> (result: Result<
        Option<UnixDateTime>,
        EntityValueError,
    >)
        ensures
            match result {
                Ok(Some(t)) => self@.opt_offset_date_time(name@) == Ok::<Option<i64>, Seq<char>>(
                    Some(t@),
                ),
                Ok(None) => self@.opt_offset_date_time(name@) == Ok::<Option<i64>, Seq<char>>(
                    None,
                ),
                Err(e) => self@.opt_offset_date_time(name@) == Err::<Option<i64>, Seq<char>>(e@),
            },
    {
        match self.property(name) {
            None => Ok(None),
            Some(value) => match &value.value_type {
                Some(ValueType::TimestampValue(ts)) => Ok(
                    UnixDateTime::from_unix_timestamp(ts.seconds),
                ),
                _ => Err(EntityValueError(join3("Field ", name, " is not a Timestamp"))),
            },
        }
    }

    /// The date-time of the timestamp stored under `name`, which must be
    /// there.
    pub fn req_offset_date_time(&self, name: &str) -> (result: Result<
        UnixDateTime,
        EntityValueError,
    >)
        ensures
            match result {
                Ok(t) => self@.req_offset_date_time(name@) == Ok::<i64, Seq<char>>(t@),
                Err(e) => self@.req_offset_date_time(name@) == Err::<i64, Seq<char>>(e@),
            },
    {
        match self.opt_offset_date_time(name) {
            Ok(Some(t)) => Ok(t),
            Ok(None) => Err(EntityValueError("missing required field".to_owned())),
            Err(e) => Err(e),
        }
    }

    /// The strings of the array stored under `name`, if a property bears
    /// that name.
    pub fn opt_string_array(&self, name: &str) -> (result: Result<
        Option<Vec<String>>,
        EntityValueError,
    >)
        ensures
            match result {
                Ok(Some(texts)) => self@.opt_string_array(name@) == Ok::<
                    Option<Seq<Seq<char>>>,
                    Seq<char>,
                >(Some(texts.deep_view())),
                Ok(None) => self@.opt_string_array(name@) == Ok::<
                    Option<Seq<Seq<char>>>,
                    Seq<char>,
                >(None),
                Err(e) => self@.opt_string_array(name@) == Err::<
                    Option<Seq<Seq<char>>>,
                    Seq<char>,
                >(e@),
            },
    {
        let value = match self.property(name) {
            None => {
                return Ok(None);
            },
            Some(value) => value,
        };
        let array = match &value.value_type {
            Some(ValueType::ArrayValue(array)) => array,
            _ => {
                return Err(EntityValueError(join3("Field ", name, " is not an array")));
            },
        };
        let ghost values = array@;
        let mut texts: Vec<String> = Vec::new();
        let mut i: usize = 0;
        while i < array.values.len()
            invariant
                values == array@,
                self@.properties.contains_key(name@),
                self@.properties[name@].value_type == Some(ValueTypeView::ArrayValue(values)),
                i <= array.values@.len(),
                texts@.len() == i,
                forall|j: int| 0 <= j < i ==> (#[trigger] values[j]).is_string(),
                forall|j: int| 0 <= j < i ==> (#[trigger] texts@[j])@ == values[j].string(),
            decreases array.values@.len() - i,
        {
            match &array.values[i].value_type {
                Some(ValueType::StringValue(text)) => {
                    texts.push(text.clone());
                },
                _ => {
                    assert(!values[i as int].is_string());
                    return Err(EntityValueError(join3("Field ", name, " is not a string")));
                },
            }
            i += 1;
        }
        assert(texts.deep_view() =~= strings_of(values));
        Ok(Some(texts))
    }

    /// The strings of the array stored under `name`, which must be there.
    pub fn req_string_array(&self, name: &str) -> (result: Result<Vec<String>, EntityValueError>)
        ensures
            match result {
                Ok(texts) => self@.req_string_array(name@) == Ok::<Seq<Seq<char>>, Seq<char>>(
                    texts.deep_view(),
                ),
                Err(e) => self@.req_string_array(name@) == Err::<Seq<Seq<char>>, Seq<char>>(e@),
            },
    {
        match self.opt_string_array(name) {
            Ok(Some(texts)) => Ok(texts),
            Ok(None) => Err(EntityValueError(join3("Entity missing required field '", name, "'"))),
            Err(e) => Err(e),
        }
    }
}

} // verus!
