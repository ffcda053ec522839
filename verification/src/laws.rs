//! What holds of every collection, whichever records it holds.
//!
//! The operations of both stores are specified over the same sequence
//! model, so each statement here holds of the profiles and of the rules
//! alike.

use vstd::prelude::*;
use crate::model::after_adds;
use crate::model::at_most_once;
use crate::model::contains_id;
use crate::model::first_with_id;
use crate::model::has_id_at;
use crate::model::is_first_with_id;
use crate::model::lemma_first_with_id;
use crate::model::removed;
use crate::model::replaced;
use crate::model::Keyed;

verus! {

/// Records that are added one after the other stand behind what was there
/// before, in the order in which they were added, and none is lost. This
/// holds whether or not their ids are distinct.
pub proof fn adds_keep_insertion_order<T>(start: Seq<T>, added: Seq<T>)
    ensures
        after_adds(start, added) == start + added,
        after_adds(start, added).len() == start.len() + added.len(),
    decreases added.len(),
{
    if added.len() == 0 {
        assert(start + added =~= start);
    } else {
        adds_keep_insertion_order(start.push(added[0]), added.drop_first());
        assert(start.push(added[0]) + added.drop_first() =~= start + added);
    }
}

/// A collection that started empty holds exactly the records that were
/// added to it, in insertion order.
pub proof fn adds_to_empty_list_in_order<T>(added: Seq<T>)
    ensures
        after_adds(Seq::<T>::empty(), added) == added,
{
    adds_keep_insertion_order(Seq::<T>::empty(), added);
    assert(Seq::<T>::empty() + added =~= added);
}

/// An add never turns a record away for its id: when the id is stored
/// already, the collection afterwards holds that id twice, at the position
/// where it was and at the new last position.
pub proof fn add_admits_duplicate_id<T: Keyed>(s: Seq<T>, record: T)
    requires
        contains_id(s, record.key()),
    ensures
        first_with_id(s, record.key()) < s.len(),
        has_id_at(s.push(record), record.key(), first_with_id(s, record.key())),
        has_id_at(s.push(record), record.key(), s.len() as int),
{
    lemma_first_with_id(s, record.key());
}

/// An update whose id is stored replaces the first record with that id and
/// nothing else: the length stays, that position now holds the new record,
/// every other position holds what it held, and every position keeps its
/// id.
pub proof fn update_replaces_first_match<T: Keyed>(s: Seq<T>, record: T)
    requires
        contains_id(s, record.key()),
    ensures
        is_first_with_id(s, record.key(), first_with_id(s, record.key())),
        replaced(s, record).len() == s.len(),
        replaced(s, record)[first_with_id(s, record.key())] == record,
        forall|j: int|
            0 <= j < s.len() && j != first_with_id(s, record.key()) ==> #[trigger] replaced(
                s,
                record,
            )[j] == s[j],
        forall|j: int| 0 <= j < s.len() ==> #[trigger] replaced(s, record)[j].key() == s[j].key(),
{
    lemma_first_with_id(s, record.key());
}

/// An update whose id is not stored leaves the whole collection as it was.
pub proof fn update_miss_changes_nothing<T: Keyed>(s: Seq<T>, record: T)
    requires
        !contains_id(s, record.key()),
    ensures
        replaced(s, record) == s,
{
}

/// A removal whose id is stored takes out exactly one record, the first
/// with that id: the collection is one shorter, the records before that
/// position stay where they were, and each record behind it moves one place
/// to the left.
pub proof fn delete_removes_first_match<T: Keyed>(s: Seq<T>, id: Seq<char>)
    requires
        contains_id(s, id),
    ensures
        is_first_with_id(s, id, first_with_id(s, id)),
        removed(s, id).len() == s.len() - 1,
        forall|j: int| 0 <= j < first_with_id(s, id) ==> #[trigger] removed(s, id)[j] == s[j],
        forall|j: int|
            first_with_id(s, id) <= j < s.len() - 1 ==> #[trigger] removed(s, id)[j] == s[j + 1],
{
    lemma_first_with_id(s, id);
}

/// A removal whose id is not stored leaves the whole collection as it was.
pub proof fn delete_miss_changes_nothing<T: Keyed>(s: Seq<T>, id: Seq<char>)
    requires
        !contains_id(s, id),
    ensures
        removed(s, id) == s,
{
}

/// Where an id is stored no more than once, no record carries it after one
/// removal, so that the same removal asked for again finds nothing and
/// changes nothing.
pub proof fn second_delete_misses<T: Keyed>(s: Seq<T>, id: Seq<char>)
    requires
        at_most_once(s, id),
    ensures
        !contains_id(removed(s, id), id),
        removed(removed(s, id), id) == removed(s, id),
{
    if contains_id(s, id) {
        lemma_first_with_id(s, id);
        let k = first_with_id(s, id);
        let rest = removed(s, id);
        assert forall|j: int| !has_id_at(rest, id, j) by {
            if has_id_at(rest, id, j) {
                if j < k {
                    assert(has_id_at(s, id, j));
                } else {
                    assert(has_id_at(s, id, j + 1));
                }
                assert(has_id_at(s, id, k));
            }
        }
    }
}

/// Where an id is stored more than once, one removal takes out the first
/// record with that id only: the id is still found afterwards.
pub proof fn delete_leaves_later_duplicates<T: Keyed>(s: Seq<T>, id: Seq<char>, i: int, j: int)
    requires
        has_id_at(s, id, i),
        has_id_at(s, id, j),
        i < j,
    ensures
        contains_id(removed(s, id), id),
{
    lemma_first_with_id(s, id);
    let k = first_with_id(s, id);
    assert(k <= i) by {
        if i < k {
            assert(!has_id_at(s, id, i));
        }
    }
    assert(has_id_at(removed(s, id), id, j - 1));
}

} // verus!
