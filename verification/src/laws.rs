//! Laws of the codec, stated over the values of entities.
//!
//! The builder's contracts say what each step writes, and the getters'
//! contracts say what each getter answers, both through the functions of
//! [`EntityView`]. The laws below relate the two sides.

use crate::convert::{TryFromEntity, TryFromEntityError};
use crate::datetime::is_representable;
use crate::entity::{all_strings, strings_of, Entity, EntityValueError, EntityView};
use crate::key::{KeyError, KeyView};
use crate::value::{ValueTypeView, ValueView};
use vstd::prelude::*;

verus! {

/// A conversion that loses no information gives back the domain value that
/// an entity was made from.
///
/// Here `to` says which entity stands for a domain value. The conversion
/// of `T` loses no information where `to` tells any two domain values
/// apart, where reading succeeds only with a domain value that `to` sends to
/// the entity read, and where reading what `to` wrote does not fail.
pub proof fn lemma_conversion_round_trip<T: TryFromEntity>(
    to: spec_fn(T) -> EntityView,
    v: T,
    entity: Entity,
    result: Result<T, TryFromEntityError>,
)
    requires
        forall|a: T, b: T| #[trigger] to(a) == #[trigger] to(b) ==> a == b,
        forall|e: Entity, w: T| #[trigger] T::converts(e, Ok(w)) ==> to(w) == e@,
        forall|e: Entity, a: T, error: TryFromEntityError|
            e@ == #[trigger] to(a) ==> !#[trigger] T::converts(e, Err(error)),
        entity@ == to(v),
        T::converts(entity, result),
    ensures
        result == Ok::<T, TryFromEntityError>(v),
{
    match result {
        Ok(w) => {
            assert(to(w) == to(v));
        },
        Err(error) => {
            assert(entity@ == to(v));
            assert(!T::converts(entity, Err(error)));
        },
    }
}

/// A string that was written under a name is read back from that name, as
/// a required and as an optional field, whatever stood there before and
/// whether or not it is indexed.
pub proof fn lemma_string_round_trip(
    entity: EntityView,
    name: Seq<char>,
    text: Seq<char>,
    indexed: bool,
)
    ensures
        entity.insert(name, ValueView::of(ValueTypeView::StringValue(text), indexed)).req_string(
            name,
        ) == Ok::<Seq<char>, Seq<char>>(text),
        entity.insert(name, ValueView::of(ValueTypeView::StringValue(text), indexed)).opt_string(
            name,
        ) == Ok::<Option<Seq<char>>, Seq<char>>(Some(text)),
{
}

/// A boolean that was written under a name is read back from that name.
pub proof fn lemma_bool_round_trip(entity: EntityView, name: Seq<char>, value: bool, indexed: bool)
    ensures
        entity.insert(name, ValueView::of(ValueTypeView::BooleanValue(value), indexed)).req_bool(
            name,
        ) == Ok::<bool, Seq<char>>(value),
        entity.insert(name, ValueView::of(ValueTypeView::BooleanValue(value), indexed)).opt_bool(
            name,
        ) == Ok::<Option<bool>, Seq<char>>(Some(value)),
{
}

/// A date-time that was written under a name is read back from that name,
/// provided that the calendar reaches it, as it does for every
/// [`UnixDateTime`](crate::datetime::UnixDateTime).
pub proof fn lemma_date_time_round_trip(
    entity: EntityView,
    name: Seq<char>,
    seconds: i64,
    indexed: bool,
)
    requires
        is_representable(seconds as int),
    ensures
        entity.insert(
            name,
            ValueView::of(ValueTypeView::whole_second(seconds), indexed),
        ).req_offset_date_time(name) == Ok::<i64, Seq<char>>(seconds),
        entity.insert(
            name,
            ValueView::of(ValueTypeView::whole_second(seconds), indexed),
        ).opt_offset_date_time(name) == Ok::<Option<i64>, Seq<char>>(Some(seconds)),
{
}

/// An array of strings that was written under a name is read back from that
/// name, element by element.
pub proof fn lemma_string_array_round_trip(
    entity: EntityView,
    name: Seq<char>,
    texts: Seq<Seq<char>>,
)
    ensures
        entity.insert(
            name,
            ValueView::of(ValueTypeView::string_array(texts), true),
        ).req_string_array(name) == Ok::<Seq<Seq<char>>, Seq<char>>(texts),
        entity.insert(
            name,
            ValueView::of(ValueTypeView::string_array(texts), true),
        ).opt_string_array(name) == Ok::<Option<Seq<Seq<char>>>, Seq<char>>(Some(texts)),
{
    let values = Seq::new(
        texts.len(),
        |i: int| ValueView::of(ValueTypeView::StringValue(texts[i]), true),
    );
    assert(all_strings(values));
    assert(strings_of(values) =~= texts);
}

/// A key of one named segment that was set on an entity is read back under
/// its kind, and gives back its name.
pub proof fn lemma_key_round_trip(entity: EntityView, kind: Seq<char>, name: Seq<char>)
    ensures
        entity.with_key(KeyView::named(kind, name)).req_key(kind) == Ok::<KeyView, Seq<char>>(
            KeyView::named(kind, name),
        ),
        KeyView::named(kind, name).kind() == Some(kind),
        KeyView::named(kind, name).name() == Some(name),
{
}

/// Writing under one name changes what no getter answers for another name,
/// and leaves the key alone.
pub proof fn lemma_insert_keeps_other_fields(
    entity: EntityView,
    written: Seq<char>,
    value: ValueView,
    name: Seq<char>,
    kind: Seq<char>,
)
    requires
        written != name,
    ensures
        entity.insert(written, value).opt_string(name) == entity.opt_string(name),
        entity.insert(written, value).req_string(name) == entity.req_string(name),
        entity.insert(written, value).opt_bool(name) == entity.opt_bool(name),
        entity.insert(written, value).req_bool(name) == entity.req_bool(name),
        entity.insert(written, value).opt_offset_date_time(name) == entity.opt_offset_date_time(
            name,
        ),
        entity.insert(written, value).req_offset_date_time(name) == entity.req_offset_date_time(
            name,
        ),
        entity.insert(written, value).opt_string_array(name) == entity.opt_string_array(name),
        entity.insert(written, value).req_string_array(name) == entity.req_string_array(name),
        entity.insert(written, value).req_key(kind) == entity.req_key(kind),
{
}

/// Setting the key changes what no getter answers for a property.
pub proof fn lemma_with_key_keeps_fields(entity: EntityView, key: KeyView, name: Seq<char>)
    ensures
        entity.with_key(key).opt_string(name) == entity.opt_string(name),
        entity.with_key(key).opt_bool(name) == entity.opt_bool(name),
        entity.with_key(key).opt_offset_date_time(name) == entity.opt_offset_date_time(name),
        entity.with_key(key).opt_string_array(name) == entity.opt_string_array(name),
{
}

/// Of two writes under one name, the later one counts.
pub proof fn lemma_last_write_wins(
    entity: EntityView,
    name: Seq<char>,
    first: ValueView,
    second: ValueView,
)
    ensures
        entity.insert(name, first).insert(name, second) == entity.insert(name, second),
{
    assert(entity.insert(name, first).insert(name, second).properties =~= entity.insert(
        name,
        second,
    ).properties);
}

/// Writes under different names may come in either order.
pub proof fn lemma_writes_commute(
    entity: EntityView,
    a: Seq<char>,
    x: ValueView,
    b: Seq<char>,
    y: ValueView,
)
    requires
        a != b,
    ensures
        entity.insert(a, x).insert(b, y) == entity.insert(b, y).insert(a, x),
{
    assert(entity.insert(a, x).insert(b, y).properties =~= entity.insert(b, y).insert(
        a,
        x,
    ).properties);
}

/// Where no property bears a name, the required string fails with the
/// message of a missing field, and the optional string is absent without an
/// error.
pub proof fn lemma_missing_string(entity: EntityView, name: Seq<char>)
    requires
        !entity.properties.contains_key(name),
    ensures
        entity.req_string(name) == Err::<Seq<char>, Seq<char>>(
            EntityValueError::missing_required_field(),
        ),
        entity.opt_string(name) == Ok::<Option<Seq<char>>, Seq<char>>(None),
{
}

/// An entity whose key is of the kind that is asked for gives its key, and
/// one whose key is of another kind fails with the message that names the
/// expected kind.
pub proof fn lemma_req_key_checks_kind(entity: EntityView, key: KeyView, expected: Seq<char>)
    requires
        entity.key == Some(key),
        key.path.len() > 0,
    ensures
        key.path[0].kind == expected ==> entity.req_key(expected) == Ok::<KeyView, Seq<char>>(key),
        key.path[0].kind != expected ==> entity.req_key(expected) == Err::<KeyView, Seq<char>>(
            EntityValueError::invalid_key_kind(expected),
        ),
{
}

/// An entity without a key, or with a key without a path, gives no key
/// whatever kind is asked for.
pub proof fn lemma_req_key_needs_key(entity: EntityView, expected: Seq<char>)
    ensures
        entity.key is None ==> entity.req_key(expected) == Err::<KeyView, Seq<char>>(
            EntityValueError::missing_key(),
        ),
        entity.key matches Some(key) && key.path.len() == 0 ==> entity.req_key(expected) == Err::<
            KeyView,
            Seq<char>,
        >(KeyError::no_path()),
{
}

/// A value that was written as not indexed is stored with the flag that
/// keeps it out of the indexes, and one written as indexed is stored
/// without it.
pub proof fn lemma_indexed_sets_flag(
    entity: EntityView,
    name: Seq<char>,
    value: ValueTypeView,
    indexed: bool,
)
    ensures
        entity.insert(name, ValueView::of(value, indexed)).properties.contains_key(name),
        entity.insert(name, ValueView::of(value, indexed)).properties[name].exclude_from_indexes
            == !indexed,
        entity.insert(name, ValueView::of(value, indexed)).properties[name].value_type == Some(
            value,
        ),
{
}

/// An array with an element that is no string fails as a whole: the getters
/// give the error of a field that is no string, and no part of the array.
pub proof fn lemma_mixed_array_fails(
    entity: EntityView,
    name: Seq<char>,
    values: Seq<ValueView>,
    at: int,
)
    requires
        entity.properties.contains_key(name),
        entity.properties[name].value_type == Some(ValueTypeView::ArrayValue(values)),
        0 <= at < values.len(),
        !values[at].is_string(),
    ensures
        entity.opt_string_array(name) == Err::<Option<Seq<Seq<char>>>, Seq<char>>(
            EntityValueError::not_a_string(name),
        ),
        entity.req_string_array(name) == Err::<Seq<Seq<char>>, Seq<char>>(
            EntityValueError::not_a_string(name),
        ),
{
}

} // verus!
