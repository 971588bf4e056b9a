//! Laws of classification, stated over the models of notifications and events.

use vstd::prelude::*;
use crate::event::{candidate, classified, event_of, known_count, known_name, EventModel};
use crate::value::TypedValue;

verus! {

/// No two known properties share a name.
pub proof fn lemma_known_names_distinct()
    ensures
        forall|i: int, j: int|
            0 <= i < j < known_count() ==> #[trigger] known_name(i) != #[trigger] known_name(j),
{
    reveal_strlit("Powered");
    reveal_strlit("Discovering");
    reveal_strlit("Connected");
    reveal_strlit("ServicesResolved");
    reveal_strlit("Value");
    reveal_strlit("RSSI");
    assert forall|i: int, j: int| 0 <= i < j < known_count() implies #[trigger] known_name(i)
        != #[trigger] known_name(j) by {
        assert(known_name(i).len() != known_name(j).len());
    }
}

/// The first known property, by rank, that is present with a value of its type
/// decides the event, whichever properties of higher rank are present beside
/// it and in whatever order the notification lists them.
pub proof fn lemma_first_match_wins(
    object_path: Seq<char>,
    properties: Map<Seq<char>, TypedValue>,
    rank: int,
)
    requires
        0 <= rank < known_count(),
        candidate(rank, object_path, properties) is Some,
        forall|lower: int| 0 <= lower < rank ==> candidate(lower, object_path, properties) is None,
    ensures
        Some(classified(object_path, properties)) == candidate(rank, object_path, properties),
{
}

/// Where several known properties are present, the one of lowest rank decides
/// the event, provided that its value is of its type.
pub proof fn lemma_first_present_wins(
    object_path: Seq<char>,
    properties: Map<Seq<char>, TypedValue>,
    rank: int,
)
    requires
        0 <= rank < known_count(),
        properties.contains_key(known_name(rank)),
        forall|lower: int|
            0 <= lower < rank ==> !properties.contains_key(#[trigger] known_name(lower)),
        event_of(rank, object_path, properties[known_name(rank)]) is Some,
    ensures
        Some(classified(object_path, properties)) == event_of(
            rank,
            object_path,
            properties[known_name(rank)],
        ),
{
    assert forall|lower: int| 0 <= lower < rank implies candidate(
        lower,
        object_path,
        properties,
    ) is None by {
        assert(!properties.contains_key(known_name(lower)));
    }
    lemma_first_match_wins(object_path, properties, rank);
}

/// A notification is unrecognized exactly when no known property is present
/// with a value of its type.
pub proof fn lemma_unrecognized_iff_no_match(
    object_path: Seq<char>,
    properties: Map<Seq<char>, TypedValue>,
)
    ensures
        classified(object_path, properties) is Unrecognized <==> forall|rank: int|
            0 <= rank < known_count() ==> candidate(rank, object_path, properties) is None,
{
    if classified(object_path, properties) is Unrecognized {
        assert forall|rank: int| 0 <= rank < known_count() implies candidate(
            rank,
            object_path,
            properties,
        ) is None by {
            if rank == 0 {
            } else if rank == 1 {
            } else if rank == 2 {
            } else if rank == 3 {
            } else if rank == 4 {
            } else {
            }
        }
    } else {
        assert(candidate(0, object_path, properties) is Some || candidate(
            1,
            object_path,
            properties,
        ) is Some || candidate(2, object_path, properties) is Some || candidate(
            3,
            object_path,
            properties,
        ) is Some || candidate(4, object_path, properties) is Some || candidate(
            5,
            object_path,
            properties,
        ) is Some);
    }
}

/// A notification that carries one known property alone, with a value of the
/// property's type, gives the event of that property's kind, with the
/// notification's object path and the value carried.
pub proof fn lemma_lone_property(object_path: Seq<char>, flag: bool, bytes: Seq<u8>, level: i16)
    ensures
        classified(object_path, map!["Powered"@ => TypedValue::Bool(flag)])
            == (EventModel::Powered { adapter: object_path, powered: flag }),
        classified(object_path, map!["Discovering"@ => TypedValue::Bool(flag)])
            == (EventModel::Discovering { adapter: object_path, discovering: flag }),
        classified(object_path, map!["Connected"@ => TypedValue::Bool(flag)])
            == (EventModel::Connected { device: object_path, connected: flag }),
        classified(object_path, map!["ServicesResolved"@ => TypedValue::Bool(flag)])
            == (EventModel::ServicesResolved { device: object_path, services_resolved: flag }),
        classified(object_path, map!["Value"@ => TypedValue::Bytes(bytes)])
            == (EventModel::Value { characteristic: object_path, value: bytes }),
        classified(object_path, map!["RSSI"@ => TypedValue::Int16(level)])
            == (EventModel::RSSI { device: object_path, rssi: level }),
{
    lemma_known_names_distinct();
    lemma_lone_candidate(object_path, 0, TypedValue::Bool(flag));
    lemma_lone_candidate(object_path, 1, TypedValue::Bool(flag));
    lemma_lone_candidate(object_path, 2, TypedValue::Bool(flag));
    lemma_lone_candidate(object_path, 3, TypedValue::Bool(flag));
    lemma_lone_candidate(object_path, 4, TypedValue::Bytes(bytes));
    lemma_lone_candidate(object_path, 5, TypedValue::Int16(level));
}

/// A notification that carries one known property alone is classified by that
/// property: its event where the value is of the property's type, and
/// unrecognized where it is not.
pub proof fn lemma_lone_candidate(object_path: Seq<char>, rank: int, value: TypedValue)
    requires
        0 <= rank < known_count(),
    ensures
        classified(object_path, map![known_name(rank) => value]) == match event_of(
            rank,
            object_path,
            value,
        ) {
            Some(event) => event,
            None => EventModel::Unrecognized,
        },
{
    lemma_known_names_distinct();
    let properties = map![known_name(rank) => value];
    assert forall|other: int| 0 <= other < known_count() && other != rank implies candidate(
        other,
        object_path,
        properties,
    ) is None by {
        if other < rank {
            assert(known_name(other) != known_name(rank));
        } else {
            assert(known_name(rank) != known_name(other));
        }
    }
    assert(candidate(rank, object_path, properties) == event_of(rank, object_path, value));
    if event_of(rank, object_path, value) is Some {
        lemma_first_match_wins(object_path, properties, rank);
    } else {
        lemma_unrecognized_iff_no_match(object_path, properties);
    }
}

/// A known property whose value is not of the property's type is passed over:
/// a notification that carries it alone is unrecognized.
pub proof fn lemma_lone_mistyped_property(object_path: Seq<char>, rank: int, value: TypedValue)
    requires
        0 <= rank < known_count(),
        event_of(rank, object_path, value) is None,
    ensures
        classified(object_path, map![known_name(rank) => value]) is Unrecognized,
{
    lemma_lone_candidate(object_path, rank, value);
}

/// A notification that carries no known property name is unrecognized.
pub proof fn lemma_no_known_property(object_path: Seq<char>, properties: Map<Seq<char>, TypedValue>)
    requires
        forall|rank: int|
            0 <= rank < known_count() ==> !properties.contains_key(#[trigger] known_name(rank)),
    ensures
        classified(object_path, properties) is Unrecognized,
{
    assert forall|rank: int| 0 <= rank < known_count() implies candidate(
        rank,
        object_path,
        properties,
    ) is None by {
        assert(!properties.contains_key(known_name(rank)));
    }
    lemma_unrecognized_iff_no_match(object_path, properties);
}

/// Classification is a function of the object path and of the mapping alone:
/// two notifications with the same path, the same names and the same value
/// under each name give the same event, however each was put together.
pub proof fn lemma_same_notification_same_event(
    object_path: Seq<char>,
    properties: Map<Seq<char>, TypedValue>,
    other_path: Seq<char>,
    other_properties: Map<Seq<char>, TypedValue>,
)
    requires
        object_path =~= other_path,
        properties =~= other_properties,
    ensures
        classified(object_path, properties) == classified(other_path, other_properties),
{
}

} // verus!
