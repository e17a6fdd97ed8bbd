//! Property values: a closed union of the variants that the store knows.

use crate::datetime::UnixDateTime;
use crate::entity::{copy_entity, entity_view, Entity, EntityView};
use crate::key::{Key, KeyView};
use vstd::prelude::*;
use vstd::std_specs::convert::FromSpecImpl;

verus! {

/// A point in time as the store keeps it: seconds since the Unix epoch and
/// a nanosecond part.
#[derive(Clone, Copy, Debug, PartialEq, Eq, Default)]
pub struct Timestamp {
    pub seconds: i64,
    pub nanos: i32,
}

/// What a property holds, one variant per type that the store knows.
#[derive(Debug)]
pub enum ValueType {
    NullValue,
    BooleanValue(bool),
    IntegerValue(i64),
    /// A double, held as its IEEE 754 bit pattern.
    DoubleValue(u64),
    TimestampValue(Timestamp),
    KeyValue(Key),
    StringValue(String),
    EntityValue(Entity),
    ArrayValue(ArrayValue),
}

/// An ordered list of values. The store does not ask that they share a
/// variant.
#[derive(Debug, Default)]
pub struct ArrayValue {
    pub values: Vec<Value>,
}

/// A stored value with its flags.
#[derive(Debug, Default)]
pub struct Value {
    pub value_type: Option<ValueType>,
    pub meaning: i32,
    pub exclude_from_indexes: bool,
}

/// The mathematical value of a [`ValueType`].
pub enum ValueTypeView {
    NullValue,
    BooleanValue(bool),
    IntegerValue(i64),
    DoubleValue(u64),
    TimestampValue(Timestamp),
    KeyValue(KeyView),
    StringValue(Seq<char>),
    EntityValue(EntityView),
    ArrayValue(Seq<ValueView>),
}

/// The mathematical value of a [`Value`].
pub struct ValueView {
    pub value_type: Option<ValueTypeView>,
    pub meaning: i32,
    pub exclude_from_indexes: bool,
}

/// The value of `v`: its variant's value and its flags.
pub open spec fn value_view(v: Value) -> ValueView
    decreases v,
{
    ValueView {
        value_type: match v.value_type {
            Some(t) => Some(value_type_view(t)),
            None => None,
        },
        meaning: v.meaning,
        exclude_from_indexes: v.exclude_from_indexes,
    }
}

/// The value of `t`: strings are their text, an array is the sequence of
/// its elements' values, a nested entity is its own value.
pub open spec fn value_type_view(t: ValueType) -> ValueTypeView
    decreases t,
{
    match t {
        ValueType::NullValue => ValueTypeView::NullValue,
        ValueType::BooleanValue(b) => ValueTypeView::BooleanValue(b),
        ValueType::IntegerValue(i) => ValueTypeView::IntegerValue(i),
        ValueType::DoubleValue(bits) => ValueTypeView::DoubleValue(bits),
        ValueType::TimestampValue(ts) => ValueTypeView::TimestampValue(ts),
        ValueType::KeyValue(k) => ValueTypeView::KeyValue(k@),
        ValueType::StringValue(s) => ValueTypeView::StringValue(s@),
        ValueType::EntityValue(e) => ValueTypeView::EntityValue(entity_view(e)),
        ValueType::ArrayValue(a) => ValueTypeView::ArrayValue(values_view(a.values@)),
    }
}

/// The values of the elements of `vs`, in order.
pub open spec fn values_view(vs: Seq<Value>) -> Seq<ValueView>
    decreases vs,
{
    Seq::new(
        vs.len(),
        |i: int|
            if 0 <= i < vs.len() {
                value_view(vs[i])
            } else {
                arbitrary()
            },
    )
}

impl View for Value {
    type V = ValueView;

    open spec fn view(&self) -> ValueView {
        value_view(*self)
    }
}

impl View for ValueType {
    type V = ValueTypeView;

    open spec fn view(&self) -> ValueTypeView {
        value_type_view(*self)
    }
}

impl View for ArrayValue {
    type V = Seq<ValueView>;

    open spec fn view(&self) -> Seq<ValueView> {
        values_view(self.values@)
    }
}

impl ValueView {
    /// A value of the given variant with no meaning set, indexed or not.
    pub open spec fn of(value_type: ValueTypeView, indexed: bool) -> ValueView {
        ValueView { value_type: Some(value_type), meaning: 0, exclude_from_indexes: !indexed }
    }

    /// Whether the value is of the string variant.
    pub open spec fn is_string(self) -> bool {
        self.value_type matches Some(ValueTypeView::StringValue(_))
    }

    /// The text of a value of the string variant.
    pub open spec fn string(self) -> Seq<char>
        recommends
            self.is_string(),
    {
        match self.value_type {
            Some(ValueTypeView::StringValue(s)) => s,
            _ => Seq::empty(),
        }
    }
}

impl ValueTypeView {
    /// The array variant whose elements are indexed strings without a
    /// meaning, one for each text of `texts`.
    pub open spec fn string_array(texts: Seq<Seq<char>>) -> ValueTypeView {
        ValueTypeView::ArrayValue(
            Seq::new(
                texts.len(),
                |i: int| ValueView::of(ValueTypeView::StringValue(texts[i]), true),
            ),
        )
    }

    /// The timestamp variant at a whole second.
    pub open spec fn whole_second(seconds: i64) -> ValueTypeView {
        ValueTypeView::TimestampValue(Timestamp { seconds, nanos: 0 })
    }
}

impl Value {
    /// A value of the given variant with no meaning set. A value that is not
    /// indexed carries the flag that keeps it out of the store's indexes.
    pub fn new(value_type: ValueType, indexed: bool) -> (value: Value)
        ensures
            value@ == ValueView::of(value_type@, indexed),
    {
        Value { value_type: Some(value_type), meaning: 0, exclude_from_indexes: !indexed }
    }
}

impl ValueType {
    /// The array variant that holds `texts` as indexed string values.
    pub fn string_array(texts: Vec<String>) -> (array: ValueType)
        ensures
            array@ == ValueTypeView::string_array(texts.deep_view()),
    {
        let mut values: Vec<Value> = Vec::new();
        let mut i: usize = 0;
        while i < texts.len()
            invariant
                i <= texts.len(),
                values.len() == i,
                forall|j: int|
                    0 <= j < i ==> value_view(#[trigger] values@[j]) == ValueView::of(
                        ValueTypeView::StringValue(texts@[j]@),
                        true,
                    ),
            decreases texts.len() - i,
        {
            values.push(Value::new(ValueType::StringValue(texts[i].clone()), true));
            i += 1;
        }
        assert(values_view(values@) =~= Seq::new(
            texts.len() as nat,
            |i: int| ValueView::of(ValueTypeView::StringValue(texts.deep_view()[i]), true),
        ));
        ValueType::ArrayValue(ArrayValue { values })
    }

    /// The timestamp variant for a date-time: its seconds, and no
    /// nanoseconds.
    pub fn date_time(value: UnixDateTime) -> (timestamp: ValueType)
        ensures
            timestamp == ValueType::TimestampValue(Timestamp { seconds: value@, nanos: 0 }),
            timestamp@ == ValueTypeView::whole_second(value@),
    {
        ValueType::TimestampValue(Timestamp { seconds: value.unix_timestamp(), nanos: 0 })
    }
}

/// A copy of `v` with the same value.
pub(crate) fn copy_value(v: &Value) -> (copy: Value)
    ensures
        copy@ == v@,
    decreases v,
{
    let value_type = match &v.value_type {
        Some(t) => Some(copy_value_type(t)),
        None => None,
    };
    Value { value_type, meaning: v.meaning, exclude_from_indexes: v.exclude_from_indexes }
}

/// A copy of `t` with the same value.
pub(crate) fn copy_value_type(t: &ValueType) -> (copy: ValueType)
    ensures
        copy@ == t@,
    decreases t,
{
    match t {
        ValueType::NullValue => ValueType::NullValue,
        ValueType::BooleanValue(b) => ValueType::BooleanValue(*b),
        ValueType::IntegerValue(i) => ValueType::IntegerValue(*i),
        ValueType::DoubleValue(bits) => ValueType::DoubleValue(*bits),
        ValueType::TimestampValue(ts) => ValueType::TimestampValue(*ts),
        ValueType::KeyValue(k) => ValueType::KeyValue(k.clone()),
        ValueType::StringValue(s) => ValueType::StringValue(s.clone()),
        ValueType::EntityValue(e) => ValueType::EntityValue(copy_entity(e)),
        ValueType::ArrayValue(a) => ValueType::ArrayValue(
            ArrayValue { values: copy_values(&a.values) },
        ),
    }
}

/// Copies of the elements of `vs`, in order.
pub(crate) fn copy_values(vs: &Vec<Value>) -> (copy: Vec<Value>)
    ensures
        values_view(copy@) == values_view(vs@),
    decreases vs,
{
    let mut copy: Vec<Value> = Vec::new();
    let mut i: usize = 0;
    while i < vs.len()
        invariant
            i <= vs@.len(),
            copy@.len() == i,
            forall|j: int| 0 <= j < i ==> value_view(#[trigger] copy@[j]) == value_view(vs@[j]),
        decreases vs@.len() - i,
    {
        copy.push(copy_value(&vs[i]));
        i += 1;
    }
    assert(values_view(copy@) =~= values_view(vs@));
    copy
}

impl Clone for Value {
    /// A copy of the same value, nested values included.
    fn clone(&self) -> (copy: Value)
        ensures
            copy@ == self@,
    {
        copy_value(self)
    }
}

impl Clone for ValueType {
    /// A copy of the same value, nested values included.
    fn clone(&self) -> (copy: ValueType)
        ensures
            copy@ == self@,
    {
        copy_value_type(self)
    }
}

impl Clone for ArrayValue {
    /// A copy of the same values in the same order.
    fn clone(&self) -> (copy: ArrayValue)
        ensures
            copy@ == self@,
    {
        ArrayValue { values: copy_values(&self.values) }
    }
}

impl From<String> for ValueType {
    /// The string variant that holds `text`.
    fn from(text: String) -> (value: ValueType) {
        ValueType::StringValue(text)
    }
}

impl FromSpecImpl<String> for ValueType {
    open spec fn obeys_from_spec() -> bool {
        true
    }

    open spec fn from_spec(text: String) -> ValueType {
        ValueType::StringValue(text)
    }
}

impl From<UnixDateTime> for ValueType {
    /// The timestamp variant at the date-time's second.
    fn from(value: UnixDateTime) -> (timestamp: ValueType) {
        ValueType::date_time(value)
    }
}

impl FromSpecImpl<UnixDateTime> for ValueType {
    open spec fn obeys_from_spec() -> bool {
        true
    }

    open spec fn from_spec(value: UnixDateTime) -> ValueType {
        ValueType::TimestampValue(Timestamp { seconds: value@, nanos: 0 })
    }
}

} // verus!
