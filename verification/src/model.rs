//! The mathematical model of a collection: a sequence of records in
//! insertion order, each found by its id.
//!
//! Ids are not required to be distinct. Wherever an id occurs more than
//! once, the first occurrence in sequence order is the one that an update or
//! a removal acts on.

use vstd::prelude::*;

verus! {

/// A record that is looked up by its id.
pub trait Keyed {
    /// The id under which the record is found.
    spec fn key(&self) -> Seq<char>;
}

/// Position `i` of `s` holds a record whose id is `id`.
pub open spec fn has_id_at<T: Keyed>(s: Seq<T>, id: Seq<char>, i: int) -> bool {
    0 <= i < s.len() && s[i].key() == id
}

/// Some record of `s` has the id `id`.
pub open spec fn contains_id<T: Keyed>(s: Seq<T>, id: Seq<char>) -> bool {
    exists|i: int| has_id_at(s, id, i)
}

/// Position `i` holds the first record of `s`, in sequence order, whose id
/// is `id`.
pub open spec fn is_first_with_id<T: Keyed>(s: Seq<T>, id: Seq<char>, i: int) -> bool {
    &&& has_id_at(s, id, i)
    &&& forall|j: int| 0 <= j < i ==> !has_id_at(s, id, j)
}

/// The position of the first record of `s` whose id is `id`. Meaningful
/// only where `contains_id(s, id)` holds.
pub open spec fn first_with_id<T: Keyed>(s: Seq<T>, id: Seq<char>) -> int {
    choose|i: int| is_first_with_id(s, id, i)
}

/// The collection after a full replace-by-id with `record`: the first record
/// that carries the same id gives way to `record`, in place; a collection
/// without that id stays as it is.
pub open spec fn replaced<T: Keyed>(s: Seq<T>, record: T) -> Seq<T> {
    if contains_id(s, record.key()) {
        s.update(first_with_id(s, record.key()), record)
    } else {
        s
    }
}

/// The collection after removal by id: the first record that carries `id`
/// leaves and the later ones move one place to the left; a collection
/// without that id stays as it is.
pub open spec fn removed<T: Keyed>(s: Seq<T>, id: Seq<char>) -> Seq<T> {
    if contains_id(s, id) {
        s.remove(first_with_id(s, id))
    } else {
        s
    }
}

/// The collection after each record of `added` has been appended to `s`,
/// one at a time and in the order of `added`.
pub open spec fn after_adds<T>(s: Seq<T>, added: Seq<T>) -> Seq<T>
    decreases added.len(),
{
    if added.len() == 0 {
        s
    } else {
        after_adds(s.push(added[0]), added.drop_first())
    }
}

/// The id `id` occurs at no more than one position of `s`.
pub open spec fn at_most_once<T: Keyed>(s: Seq<T>, id: Seq<char>) -> bool {
    forall|i: int, j: int| has_id_at(s, id, i) && has_id_at(s, id, j) ==> i == j
}

/// Whenever some position holds `id`, a first such position exists.
proof fn lemma_first_exists<T: Keyed>(s: Seq<T>, id: Seq<char>, i: int)
    requires
        has_id_at(s, id, i),
    ensures
        exists|k: int| is_first_with_id(s, id, k),
    decreases i,
{
    if forall|j: int| 0 <= j < i ==> !has_id_at(s, id, j) {
        assert(is_first_with_id(s, id, i));
    } else {
        let j = choose|j: int| 0 <= j < i && has_id_at(s, id, j);
        lemma_first_exists(s, id, j);
    }
}

/// In a collection that contains `id`, `first_with_id` is the position of
/// its first occurrence.
pub proof fn lemma_first_with_id<T: Keyed>(s: Seq<T>, id: Seq<char>)
    requires
        contains_id(s, id),
    ensures
        is_first_with_id(s, id, first_with_id(s, id)),
{
    let i = choose|i: int| has_id_at(s, id, i);
    lemma_first_exists(s, id, i);
}

/// The first occurrence of an id is unique: a position known to be the
/// first is the one that `first_with_id` names.
pub proof fn lemma_first_with_id_is<T: Keyed>(s: Seq<T>, id: Seq<char>, i: int)
    requires
        is_first_with_id(s, id, i),
    ensures
        contains_id(s, id),
        first_with_id(s, id) == i,
{
    let k = first_with_id(s, id);
    assert(is_first_with_id(s, id, k));
    if k < i {
        assert(!has_id_at(s, id, k));
    } else if i < k {
        assert(!has_id_at(s, id, i));
    }
}

} // verus!
