//! The store as the operations take it to be, and what then holds of them.
//!
//! The store is a shelf: a list of documents, each by its fields. It keeps
//! every document under an identifier of its own, which it assigns on
//! insertion. An update or a delete acts on the first document that has the
//! identifier of the filter, and on none where no document has it.

use crate::codec::{
    decoded, decoded_all, entry_fields, id_filter_fields, lemma_keys_differ,
    lemma_stored_entry_reads_back, set_fields,
};
use crate::document::{id_at, Absence, Field, Fields};
use crate::entry::EntryView;
use crate::instant::canonical_text;
use crate::store::{conclusion, request, ActionView, EventView, OperationView, OutcomeView};
use vstd::prelude::*;

verus! {

/// Whether a document is stored under the identifier `id`.
pub open spec fn has_id(document: Fields, id: Seq<u8>) -> bool {
    id_at(document, "_id"@) == Ok::<Seq<u8>, Absence>(id)
}

/// The place of the first document with the identifier `id`.
pub open spec fn first_with_id(shelf: Seq<Fields>, id: Seq<u8>) -> Option<int>
    decreases shelf.len(),
{
    if shelf.len() == 0 {
        None
    } else if has_id(shelf[0], id) {
        Some(0)
    } else {
        match first_with_id(shelf.drop_first(), id) {
            Some(place) => Some(place + 1),
            None => None,
        }
    }
}

/// Whether no two documents of the shelf have the same identifier.
pub open spec fn distinct_ids(shelf: Seq<Fields>) -> bool {
    forall|i: int, j: int, id: Seq<u8>|
        0 <= i < j < shelf.len() && #[trigger] has_id(shelf[i], id) ==> !#[trigger] has_id(
            shelf[j],
            id,
        )
}

/// The identifier that a filter asks for.
pub open spec fn filter_id(filter: Fields) -> Option<Seq<u8>> {
    match id_at(filter, "_id"@) {
        Ok(id) => Some(id),
        Err(_) => None,
    }
}

/// The fields that an update sets.
pub open spec fn fields_to_set(update: Fields) -> Fields {
    if update.contains_key("$set"@) {
        match update["$set"@] {
            Field::Nested(fields) => fields,
            _ => Map::empty(),
        }
    } else {
        Map::empty()
    }
}

/// The shelf after the insertion of a document that the store keeps under
/// the identifier `id`.
pub open spec fn after_insert(shelf: Seq<Fields>, document: Fields, id: Seq<u8>) -> Seq<Fields> {
    shelf.push(document.insert("_id"@, Field::Id(id)))
}

/// The shelf after an update: in the first document with the identifier of
/// the filter, the fields of the update replace what the document had under
/// their keys. Without such a document the shelf stays as it is.
pub open spec fn after_update(shelf: Seq<Fields>, filter: Fields, update: Fields) -> Seq<Fields> {
    match filter_id(filter) {
        Some(id) => match first_with_id(shelf, id) {
            Some(place) => shelf.update(
                place,
                shelf[place].union_prefer_right(fields_to_set(update)),
            ),
            None => shelf,
        },
        None => shelf,
    }
}

/// The shelf after a delete: without the first document with the identifier
/// of the filter. Without such a document the shelf stays as it is.
pub open spec fn after_delete(shelf: Seq<Fields>, filter: Fields) -> Seq<Fields> {
    match filter_id(filter) {
        Some(id) => match first_with_id(shelf, id) {
            Some(place) => shelf.remove(place),
            None => shelf,
        },
        None => shelf,
    }
}

/// How many documents a write to the shelf matches: one or none.
pub open spec fn matched(shelf: Seq<Fields>, filter: Fields) -> nat {
    match filter_id(filter) {
        Some(id) => if first_with_id(shelf, id) is Some {
            1
        } else {
            0
        },
        None => 0,
    }
}

/// The place that `first_with_id` gives holds the identifier and no earlier
/// place does; where it gives none, no document has the identifier.
pub proof fn lemma_first_with_id(shelf: Seq<Fields>, id: Seq<u8>)
    ensures
        match first_with_id(shelf, id) {
            Some(place) => 0 <= place < shelf.len() && has_id(shelf[place], id) && forall|i: int|
                0 <= i < place ==> !has_id(#[trigger] shelf[i], id),
            None => forall|i: int| 0 <= i < shelf.len() ==> !has_id(#[trigger] shelf[i], id),
        },
    decreases shelf.len(),
{
    if shelf.len() > 0 && !has_id(shelf[0], id) {
        let rest = shelf.drop_first();
        lemma_first_with_id(rest, id);
        match first_with_id(rest, id) {
            Some(place) => {
                assert forall|i: int| 0 <= i < place + 1 implies !has_id(#[trigger] shelf[i], id) by {
                    if i > 0 {
                        assert(shelf[i] == rest[i - 1]);
                    }
                }
            },
            None => {
                assert forall|i: int| 0 <= i < shelf.len() implies !has_id(
                    #[trigger] shelf[i],
                    id,
                ) by {
                    if i > 0 {
                        assert(shelf[i] == rest[i - 1]);
                    }
                }
            },
        }
    }
}

/// A place that holds the identifier while no earlier place does is the one
/// that `first_with_id` gives.
pub proof fn lemma_first_with_id_is(shelf: Seq<Fields>, id: Seq<u8>, place: int)
    requires
        0 <= place < shelf.len(),
        has_id(shelf[place], id),
        forall|i: int| 0 <= i < place ==> !has_id(#[trigger] shelf[i], id),
    ensures
        first_with_id(shelf, id) == Some(place),
{
    lemma_first_with_id(shelf, id);
}

/// What is created is listed. Let the store hold documents that all stand
/// for entries, and let it keep the document of a new entry under an
/// identifier that none of them has. Then the listing of all entries is the
/// former listing followed by the new entry under that identifier, with its
/// title, details, due instant, completion flag and tags as they were given,
/// and no other listed entry has that identifier.
pub proof fn lemma_created_entry_is_listed(shelf: Seq<Fields>, entry: EntryView, id: Seq<u8>)
    requires
        canonical_text(entry.date_time) is Some,
        decoded_all(shelf) is Some,
        forall|i: int| 0 <= i < shelf.len() ==> !has_id(#[trigger] shelf[i], id),
    ensures
        request(OperationView::Create(entry)) matches Some(ActionView::Insert(document))
            && conclusion(
            OperationView::ListAll,
            EventView::Documents(after_insert(shelf, document, id)),
        ) == OutcomeView::Listed(decoded_all(shelf)->0.push(entry.with_id(id))),
        forall|i: int|
            0 <= i < shelf.len() ==> (#[trigger] decoded_all(shelf)->0[i]).unique_id != id,
        distinct_ids(shelf) ==> distinct_ids(
            after_insert(shelf, entry_fields(entry, canonical_text(entry.date_time)->0), id),
        ),
{
    let stamp = canonical_text(entry.date_time)->0;
    let document = entry_fields(entry, stamp);
    let grown = after_insert(shelf, document, id);
    lemma_stored_entry_reads_back(entry, stamp, id);
    assert forall|i: int| 0 <= i < grown.len() implies decoded(#[trigger] grown[i]) is Some by {
        if i < shelf.len() {
            assert(grown[i] == shelf[i]);
        }
    }
    assert(decoded_all(grown)->0 =~= decoded_all(shelf)->0.push(entry.with_id(id)));
    assert forall|i: int| 0 <= i < shelf.len() implies (#[trigger] decoded_all(shelf)->0[i]).unique_id
        != id by {
        assert(!has_id(shelf[i], id));
        assert(decoded(shelf[i]) is Some);
    }
    if distinct_ids(shelf) {
        assert forall|i: int, j: int, other: Seq<u8>|
            0 <= i < j < grown.len() && #[trigger] has_id(grown[i], other) implies !#[trigger] has_id(
            grown[j],
            other,
        ) by {
            assert(grown[i] == shelf[i]);
            if j < shelf.len() {
                assert(grown[j] == shelf[j]);
                assert(has_id(shelf[i], other));
            }
        }
    }
}

/// An update applied twice leaves the store as the same update applied once
/// does.
pub proof fn lemma_update_is_idempotent(shelf: Seq<Fields>, entry: EntryView)
    requires
        canonical_text(entry.date_time) is Some,
    ensures
        request(OperationView::Update(entry)) matches Some(ActionView::Update(filter, update))
            && after_update(after_update(shelf, filter, update), filter, update) == after_update(
            shelf,
            filter,
            update,
        ),
{
    let stamp = canonical_text(entry.date_time)->0;
    let filter = id_filter_fields(entry.unique_id);
    let update = set_fields(entry_fields(entry, stamp));
    let id = entry.unique_id;
    let once = after_update(shelf, filter, update);
    lemma_keys_differ();
    lemma_first_with_id(shelf, id);
    assert(filter_id(filter) == Some(id));
    assert(fields_to_set(update) == entry_fields(entry, stamp));
    match first_with_id(shelf, id) {
        Some(place) => {
            let merged = shelf[place].union_prefer_right(entry_fields(entry, stamp));
            assert(once == shelf.update(place, merged));
            assert(!entry_fields(entry, stamp).contains_key("_id"@));
            assert(has_id(merged, id));
            assert forall|i: int| 0 <= i < place implies !has_id(#[trigger] once[i], id) by {
                assert(once[i] == shelf[i]);
            }
            lemma_first_with_id_is(once, id, place);
            assert(merged.union_prefer_right(entry_fields(entry, stamp)) =~= merged);
            assert(once.update(place, merged) =~= once);
        },
        None => {},
    }
}

/// What is updated is listed as it was given. Let the store hold documents
/// that all stand for entries, one of them under the identifier of the
/// entry. Then after the update the listing of all entries holds the entry,
/// with every field as it was given, in the place of the first entry that
/// had its identifier, and every other listed entry is as before.
pub proof fn lemma_updated_entry_is_listed(shelf: Seq<Fields>, entry: EntryView, place: int)
    requires
        canonical_text(entry.date_time) is Some,
        decoded_all(shelf) is Some,
        first_with_id(shelf, entry.unique_id) == Some(place),
    ensures
        request(OperationView::Update(entry)) matches Some(ActionView::Update(filter, update))
            && matched(shelf, filter) == 1 && conclusion(
            OperationView::ListAll,
            EventView::Documents(after_update(shelf, filter, update)),
        ) == OutcomeView::Listed(decoded_all(shelf)->0.update(place, entry)),
{
    let stamp = canonical_text(entry.date_time)->0;
    let filter = id_filter_fields(entry.unique_id);
    let update = set_fields(entry_fields(entry, stamp));
    let once = after_update(shelf, filter, update);
    lemma_keys_differ();
    lemma_first_with_id(shelf, entry.unique_id);
    assert(filter_id(filter) == Some(entry.unique_id));
    assert(fields_to_set(update) == entry_fields(entry, stamp));
    let merged = shelf[place].union_prefer_right(entry_fields(entry, stamp));
    assert(once == shelf.update(place, merged));
    assert(decoded(merged) == Some(entry));
    assert forall|i: int| 0 <= i < once.len() implies decoded(#[trigger] once[i]) is Some by {
        if i != place {
            assert(once[i] == shelf[i]);
        }
    }
    assert(decoded_all(once)->0 =~= decoded_all(shelf)->0.update(place, entry));
}

/// An update or a delete of an entry that the store does not hold matches
/// nothing, leaves the store as it is and is done all the same.
pub proof fn lemma_missing_entry_is_no_failure(shelf: Seq<Fields>, entry: EntryView)
    requires
        canonical_text(entry.date_time) is Some,
        forall|i: int| 0 <= i < shelf.len() ==> !has_id(#[trigger] shelf[i], entry.unique_id),
    ensures
        request(OperationView::Update(entry)) matches Some(ActionView::Update(filter, update))
            && after_update(shelf, filter, update) == shelf && conclusion(
            OperationView::Update(entry),
            EventView::Acknowledged { affected: matched(shelf, filter) },
        ) == OutcomeView::Done,
        request(OperationView::Delete(entry)) matches Some(ActionView::Delete(filter))
            && after_delete(shelf, filter) == shelf && conclusion(
            OperationView::Delete(entry),
            EventView::Acknowledged { affected: matched(shelf, filter) },
        ) == OutcomeView::Done,
{
    lemma_first_with_id(shelf, entry.unique_id);
    assert(filter_id(id_filter_fields(entry.unique_id)) == Some(entry.unique_id));
}

/// A delete is final. In a store whose documents have identifiers of their
/// own, the delete of an entry leaves no document under its identifier, so
/// no listing holds an entry with that identifier afterwards. A second
/// delete of the same entry matches nothing, changes nothing and is done
/// like the first.
pub proof fn lemma_delete_is_final(shelf: Seq<Fields>, entry: EntryView)
    requires
        distinct_ids(shelf),
    ensures
        request(OperationView::Delete(entry)) matches Some(ActionView::Delete(filter)) && {
            let left = after_delete(shelf, filter);
            &&& forall|i: int| 0 <= i < left.len() ==> !has_id(#[trigger] left[i], entry.unique_id)
            &&& conclusion(OperationView::ListAll, EventView::Documents(left)) matches OutcomeView::Listed(
                entries,
            ) ==> forall|i: int|
                0 <= i < entries.len() ==> (#[trigger] entries[i]).unique_id != entry.unique_id
            &&& after_delete(left, filter) == left
            &&& matched(left, filter) == 0
            &&& conclusion(
                OperationView::Delete(entry),
                EventView::Acknowledged { affected: matched(left, filter) },
            ) == OutcomeView::Done
        },
{
    let filter = id_filter_fields(entry.unique_id);
    let id = entry.unique_id;
    let left = after_delete(shelf, filter);
    assert(filter_id(filter) == Some(id));
    lemma_first_with_id(shelf, id);
    assert forall|i: int| 0 <= i < left.len() implies !has_id(#[trigger] left[i], id) by {
        match first_with_id(shelf, id) {
            Some(place) => {
                if i < place {
                    assert(left[i] == shelf[i]);
                } else {
                    assert(left[i] == shelf[i + 1]);
                    assert(has_id(shelf[place], id));
                }
            },
            None => {},
        }
    }
    lemma_first_with_id(left, id);
    match conclusion(OperationView::ListAll, EventView::Documents(left)) {
        OutcomeView::Listed(entries) => {
            assert forall|i: int| 0 <= i < entries.len() implies (#[trigger] entries[i]).unique_id
                != id by {
                assert(!has_id(left[i], id));
                assert(decoded(left[i]) is Some);
            }
        },
        _ => {},
    }
}

} // verus!
