//! The order of a platform's properties.
//!
//! A scheduler matches an action to a pool of workers by the whole list of
//! properties, so a list that is out of order matches no pool.
use vstd::prelude::*;
use vstd::seq_lib::{to_multiset_contains, to_multiset_insert, to_multiset_len, to_multiset_remove};

use crate::messages::{property_values, Platform, Property, PropertyValue};
use crate::text::{is_before, text_before, text_order_is_total, text_order_is_transitive};

verus! {

/// `left` comes before `right`: by name, and by value where the names are the same.
pub open spec fn property_before(left: PropertyValue, right: PropertyValue) -> bool {
    text_before(left.0, right.0) || (left.0 == right.0 && text_before(left.1, right.1))
}

/// No property comes before one that stands in front of it.
pub open spec fn is_ordered(properties: Seq<PropertyValue>) -> bool {
    forall|i: int, j: int|
        #![trigger properties[i], properties[j]]
        0 <= i < j < properties.len() ==> !property_before(properties[j], properties[i])
}

/// `ordered` holds the properties of `given`, each as often, in order.
pub open spec fn is_ordering_of(
    ordered: Seq<PropertyValue>,
    given: Seq<PropertyValue>,
) -> bool {
    &&& is_ordered(ordered)
    &&& ordered.to_multiset() == given.to_multiset()
}

/// Of two properties that differ exactly one comes first, and what comes before a
/// property comes before all that follow it.
pub proof fn property_order_is_total(a: PropertyValue, b: PropertyValue, c: PropertyValue)
    ensures
        !property_before(a, a),
        a != b ==> property_before(a, b) != property_before(b, a),
        property_before(a, b) && property_before(b, c) ==> property_before(a, c),
{
    text_order_is_total(a.0, b.0);
    text_order_is_total(a.1, b.1);
    text_order_is_total(b.0, a.0);
    if property_before(a, b) && property_before(b, c) {
        if text_before(a.0, b.0) && text_before(b.0, c.0) {
            text_order_is_transitive(a.0, b.0, c.0);
        }
        if text_before(a.1, b.1) && text_before(b.1, c.1) {
            text_order_is_transitive(a.1, b.1, c.1);
        }
    }
}

/// There is one order only: two lists that hold the same properties, both in order,
/// are the same list.
pub proof fn orderings_are_unique(a: Seq<PropertyValue>, b: Seq<PropertyValue>)
    requires
        is_ordered(a),
        is_ordered(b),
        a.to_multiset() == b.to_multiset(),
    ensures
        a == b,
    decreases a.len(),
{
    to_multiset_len(a);
    to_multiset_len(b);
    if a.len() == 0 {
        assert(a =~= b);
    } else {
        let last_a = a.last();
        let last_b = b.last();
        to_multiset_contains(b, last_a);
        to_multiset_contains(a, last_a);
        to_multiset_contains(a, last_b);
        to_multiset_contains(b, last_b);
        assert(a.contains(last_a)) by {
            assert(a[a.len() - 1] == last_a);
        }
        assert(b.contains(last_b)) by {
            assert(b[b.len() - 1] == last_b);
        }
        let in_b = choose|i: int| 0 <= i < b.len() && b[i] == last_a;
        let in_a = choose|i: int| 0 <= i < a.len() && a[i] == last_b;
        if in_b < b.len() - 1 {
            assert(!property_before(b[b.len() - 1], b[in_b]));
        }
        if in_a < a.len() - 1 {
            assert(!property_before(a[a.len() - 1], a[in_a]));
        }
        property_order_is_total(last_a, last_b, last_a);
        assert(last_a == last_b);
        to_multiset_remove(a, a.len() - 1);
        to_multiset_remove(b, b.len() - 1);
        assert(a.remove(a.len() - 1) =~= a.drop_last());
        assert(b.remove(b.len() - 1) =~= b.drop_last());
        orderings_are_unique(a.drop_last(), b.drop_last());
        assert(a =~= a.drop_last().push(last_a));
        assert(b =~= b.drop_last().push(last_b));
    }
}

/// Ordering a list that is in order already changes nothing.
pub proof fn ordering_leaves_an_ordered_list_alone(
    ordered: Seq<PropertyValue>,
    given: Seq<PropertyValue>,
)
    requires
        is_ordering_of(ordered, given),
        is_ordered(given),
    ensures
        ordered == given,
{
    orderings_are_unique(ordered, given);
}

/// Reports whether `left` comes before `right`.
fn comes_before(left: &Property, right: &Property) -> (before: bool)
    ensures
        before == property_before(left@, right@),
{
    is_before(left.name.as_str(), right.name.as_str()) || (left.name == right.name && is_before(
        left.value.as_str(),
        right.value.as_str(),
    ))
}

/// Puts `property` in its place among properties that are in order, behind those
/// that say the same.
fn insert_in_order(ordered: &mut Vec<Property>, property: Property)
    requires
        is_ordered(property_values(old(ordered)@)),
    ensures
        is_ordered(property_values(final(ordered)@)),
        property_values(final(ordered)@).to_multiset() == property_values(
            old(ordered)@,
        ).to_multiset().insert(property@),
{
    let ghost values = property_values(ordered@);
    let mut at: usize = ordered.len();
    while at > 0 && comes_before(&property, &ordered[at - 1])
        invariant
            values == property_values(ordered@),
            values.len() == ordered@.len(),
            is_ordered(values),
            at <= ordered@.len(),
            forall|i: int| at <= i < values.len() ==> property_before(property@, #[trigger] values[i]),
        decreases at,
    {
        assert(values[at - 1] == ordered@[at - 1]@);
        at = at - 1;
    }
    proof {
        let place = at as int;
        let longer = values.insert(place, property@);
        to_multiset_insert(values, place, property@);
        if place > 0 {
            assert(values[place - 1] == ordered@[place - 1]@);
        }
        assert forall|i: int, j: int|
            #![trigger longer[i], longer[j]]
            0 <= i < j < longer.len() implies !property_before(longer[j], longer[i]) by {
            let left = if i < place {
                i
            } else {
                i - 1
            };
            let right = if j < place {
                j
            } else {
                j - 1
            };
            if i == place {
                property_order_is_total(property@, values[right], property@);
            } else if j == place {
                let nearest = values[place - 1];
                if left < place - 1 {
                    assert(!property_before(nearest, values[left]));
                }
                property_order_is_total(property@, values[left], nearest);
                property_order_is_total(nearest, property@, values[left]);
                property_order_is_total(values[left], nearest, property@);
            } else {
                assert(longer[i] == values[left]);
                assert(longer[j] == values[right]);
            }
        }
        assert(property_values(ordered@.insert(place, property)) =~= longer);
    }
    ordered.insert(at, property);
}

/// Puts a platform's properties in order.
pub fn sorted_platform(platform: Platform) -> (sorted: Platform)
    ensures
        is_ordering_of(sorted@, platform@),
{
    let mut ordered: Vec<Property> = Vec::new();
    let ghost given = platform.properties@;
    assert(property_values(ordered@) =~= property_values(given.take(0)));
    for property in it: platform.properties.into_iter()
        invariant
            it.seq() == given,
            is_ordered(property_values(ordered@)),
            property_values(ordered@).to_multiset() == property_values(
                given.take(it.index() as int),
            ).to_multiset(),
    {
        proof {
            let n = it.index() as int;
            let before = property_values(given.take(n));
            let after = property_values(given.take(n + 1));
            to_multiset_insert(before, before.len() as int, property@);
            assert(after =~= before.insert(before.len() as int, property@));
        }
        insert_in_order(&mut ordered, property);
    }
    assert(given.take(given.len() as int) =~= given);
    Platform { properties: ordered }
}

/// Names decide the order of properties, and values only where the names are the same.
pub proof fn names_decide_before_values(left: PropertyValue, right: PropertyValue)
    ensures
        text_before(left.0, right.0) ==> property_before(left, right),
        text_before(right.0, left.0) ==> !property_before(left, right),
        left.0 == right.0 ==> (property_before(left, right) <==> text_before(left.1, right.1)),
{
    text_order_is_total(left.0, right.0);
    text_order_is_total(right.0, left.0);
}

/// A platform that is put in order has the properties it was given, each as often, and
/// whichever stands behind another does not come before it.
pub proof fn ordered_platforms_keep_their_properties(
    platform: Platform,
    sorted: Platform,
    i: int,
    j: int,
)
    requires
        call_ensures(sorted_platform, (platform,), sorted),
    ensures
        sorted@.to_multiset() == platform@.to_multiset(),
        sorted.properties@.len() == platform.properties@.len(),
        0 <= i < j < sorted@.len() ==> !property_before(sorted@[j], sorted@[i]),
{
    to_multiset_len(sorted@);
    to_multiset_len(platform@);
}

} // verus!
