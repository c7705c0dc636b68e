//! The mapping between entries and stored documents.
//!
//! A stored document keeps the title, the details, the tags and the
//! completion flag as they are, the due instant as its canonical text, and
//! the identifier that the store assigned under `_id`.

use crate::document::{
    doc_fields, empty_document, flag_at, get_flag, get_id, get_text, id_at, no_fields,
    put_document, put_flag, put_id, put_text, text_at, Absence, Field, Fields,
};
use crate::entry::{entry_views, EntryView, EventEntry};
use crate::error::StoreError;
use crate::instant::{
    canonical_text, due_on_day_of, first_instant_of_day, first_instant_of_next_day,
    instant_of_text, Timestamp,
};
use bson::Document;
use vstd::prelude::*;

verus! {

/// The fields that a document keeps of an entry whose due instant has the
/// canonical text `stamp`. The identifier is not among them: the store adds
/// it.
pub open spec fn entry_fields(entry: EntryView, stamp: Seq<char>) -> Fields {
    no_fields().insert("title"@, Field::Text(entry.title)).insert(
        "details"@,
        Field::Text(entry.details),
    ).insert("date_time"@, Field::Text(stamp)).insert("is_done"@, Field::Flag(entry.is_done)).insert(
        "tags"@,
        Field::Text(entry.tags),
    )
}

/// The tags of a stored document: the string under `tags`, and no tags
/// where the document has no such key or holds a value of another kind
/// there. The tags are optional, so nothing about them makes a document
/// unreadable.
pub open spec fn stored_tags(fields: Fields) -> Seq<char> {
    match text_at(fields, "tags"@) {
        Ok(tags) => tags,
        Err(_) => Seq::empty(),
    }
}

/// The entry that a stored document stands for when its due instant is
/// `date_time`, or `None` where the document lacks the identifier, the title,
/// the details or the completion flag, or holds one of these four as a value
/// of the wrong kind.
pub open spec fn decoded_due(fields: Fields, date_time: Timestamp) -> Option<EntryView> {
    match (
        id_at(fields, "_id"@),
        text_at(fields, "title"@),
        text_at(fields, "details"@),
        flag_at(fields, "is_done"@),
    ) {
        (Ok(unique_id), Ok(title), Ok(details), Ok(is_done)) => Some(
            EntryView { unique_id, title, details, date_time, is_done, tags: stored_tags(fields) },
        ),
        _ => None,
    }
}

/// The entry that a stored document stands for, or `None` where the document
/// lacks a required field, holds a required field as a value of the wrong
/// kind, or holds a due instant whose text cannot be read. The identifier,
/// the title, the details, the due instant and the completion flag are
/// required; the tags are not.
pub open spec fn decoded(fields: Fields) -> Option<EntryView> {
    match text_at(fields, "date_time"@) {
        Ok(stamp) => match instant_of_text(stamp) {
            Some(date_time) => decoded_due(fields, date_time),
            None => None,
        },
        Err(_) => None,
    }
}

/// The entries that a list of stored documents stands for, in the order of
/// the documents, or `None` where one of the documents stands for no entry.
pub open spec fn decoded_all(documents: Seq<Fields>) -> Option<Seq<EntryView>> {
    if forall|i: int| 0 <= i < documents.len() ==> decoded(#[trigger] documents[i]) is Some {
        Some(Seq::new(documents.len(), |i: int| decoded(documents[i])->0))
    } else {
        None
    }
}

/// The fields of each document of a list.
pub open spec fn fields_of(documents: Seq<Document>) -> Seq<Fields> {
    Seq::new(documents.len(), |i: int| doc_fields(documents[i]))
}

/// The filter that selects the document stored under the identifier `id`.
pub open spec fn id_filter_fields(id: Seq<u8>) -> Fields {
    no_fields().insert("_id"@, Field::Id(id))
}

/// The update that sets each of `fields` in the document it is applied to
/// and leaves the other keys of that document as they are.
pub open spec fn set_fields(fields: Fields) -> Fields {
    no_fields().insert("$set"@, Field::Nested(fields))
}

/// The filter that selects the documents whose due instant has a text at or
/// after `from` and before `until`.
pub open spec fn range_fields(from: Seq<char>, until: Seq<char>) -> Fields {
    no_fields().insert(
        "date_time"@,
        Field::Nested(no_fields().insert("$gte"@, Field::Text(from)).insert("$lt"@, Field::Text(until))),
    )
}

/// The filter for the entries due on the UTC day that holds `now`: from the
/// canonical text of the first instant of that day up to, and without, that
/// of the first instant of the next day. `None` where one of the two
/// instants cannot be counted or has no canonical text.
pub open spec fn due_filter_fields(now: Timestamp) -> Option<Fields> {
    match (first_instant_of_day(now), first_instant_of_next_day(now)) {
        (Some(start), Some(end)) => match (canonical_text(start), canonical_text(end)) {
            (Some(from), Some(until)) => Some(range_fields(from, until)),
            _ => None,
        },
        _ => None,
    }
}

/// The fields of an optional document.
pub open spec fn optional_fields(document: Option<Document>) -> Option<Fields> {
    match document {
        Some(doc) => Some(doc_fields(doc)),
        None => None,
    }
}

/// The entries of a list that are due on the UTC day that holds `now`, in
/// the order of the list. Whether an entry is done plays no part.
pub open spec fn due_entries(entries: Seq<EntryView>, now: Timestamp) -> Seq<EntryView> {
    entries.filter(|entry: EntryView| due_on_day_of(entry.date_time.secs as int, now.secs as int))
}

/// The filter that selects the document stored under the identifier `id`.
pub fn id_filter(id: [u8; 12]) -> (filter: Document)
    ensures
        doc_fields(filter) == id_filter_fields(id@),
{
    let mut filter = empty_document();
    put_id(&mut filter, "_id", id);
    filter
}

/// The filter for the entries due on the UTC day that holds `now`, or `None`
/// where the bounds of that day have no canonical text.
pub fn due_filter(now: &Timestamp) -> (filter: Option<Document>)
    ensures
        optional_fields(filter) == due_filter_fields(*now),
{
    let start = match now.start_of_day() {
        Some(at) => at,
        None => return None,
    };
    let end = match now.start_of_next_day() {
        Some(at) => at,
        None => return None,
    };
    let from = match start.encode() {
        Some(text) => text,
        None => return None,
    };
    let until = match end.encode() {
        Some(text) => text,
        None => return None,
    };
    Some(range_filter(from.as_str(), until.as_str()))
}

/// The filter that selects the documents whose due instant has a text at or
/// after `from` and before `until`.
pub fn range_filter(from: &str, until: &str) -> (filter: Document)
    ensures
        doc_fields(filter) == range_fields(from@, until@),
{
    let mut range = empty_document();
    put_text(&mut range, "$gte", from);
    put_text(&mut range, "$lt", until);
    let mut filter = empty_document();
    put_document(&mut filter, "date_time", range);
    filter
}

/// The update that sets each field of `fields` in the document it is applied
/// to.
pub fn set_update(fields: Document) -> (update: Document)
    ensures
        doc_fields(update) == set_fields(doc_fields(fields)),
{
    let mut update = empty_document();
    put_document(&mut update, "$set", fields);
    update
}

/// The entries of a list that are due on the UTC day that holds `now`, in
/// the order of the list.
pub fn entries_due(entries: &Vec<EventEntry>, now: &Timestamp) -> (due: Vec<EventEntry>)
    ensures
        entry_views(due@) == due_entries(entry_views(entries@), *now),
{
    let ghost is_due = |entry: EntryView| due_on_day_of(entry.date_time.secs as int, now.secs as int);
    let mut due: Vec<EventEntry> = Vec::new();
    let mut at: usize = 0;
    proof {
        reveal(Seq::filter);
        assert(entry_views(entries@).take(0) =~= Seq::<EntryView>::empty());
        assert(entry_views(due@) =~= Seq::<EntryView>::empty());
    }
    while at < entries.len()
        invariant
            at <= entries.len(),
            is_due == |entry: EntryView| due_on_day_of(entry.date_time.secs as int, now.secs as int),
            entry_views(due@) == entry_views(entries@).take(at as int).filter(is_due),
        decreases entries.len() - at,
    {
        let ghost before = entry_views(due@);
        let ghost seen = entry_views(entries@).take(at as int);
        proof {
            assert(entry_views(entries@).take(at as int + 1) =~= seen.push(entries@[at as int]@));
            seen.lemma_filter_push(entries@[at as int]@, is_due);
        }
        if entries[at].date_time.is_due_on_day_of(now) {
            due.push(entries[at].clone());
            assert(entry_views(due@) =~= before.push(entries@[at as int]@));
        }
        at += 1;
    }
    assert(entry_views(entries@).take(entries@.len() as int) =~= entry_views(entries@));
    due
}

impl EventEntry {
    /// The update that replaces every field of the stored document with the
    /// values of this entry, or `None` where the due instant has no canonical
    /// text. The identifier is no part of the update.
    pub fn to_update(&self) -> (update: Option<Document>)
        ensures
            match update {
                Some(doc) => canonical_text(self.date_time) matches Some(stamp) && doc_fields(doc)
                    == set_fields(entry_fields(self@, stamp)),
                None => canonical_text(self.date_time) is None,
            },
    {
        match self.to_document() {
            Some(fields) => Some(set_update(fields)),
            None => None,
        }
    }

    /// The document to store for this entry, without an identifier, or `None`
    /// where the due instant has no canonical text.
    pub fn to_document(&self) -> (document: Option<Document>)
        ensures
            match document {
                Some(doc) => canonical_text(self.date_time) matches Some(stamp) && doc_fields(doc)
                    == entry_fields(self@, stamp),
                None => canonical_text(self.date_time) is None,
            },
    {
        match self.date_time.encode() {
            Some(stamp) => Some(self.to_document_stamped(stamp.as_str())),
            None => None,
        }
    }

    /// The document to store for this entry, without an identifier, with
    /// `stamp` as the text of its due instant.
    pub fn to_document_stamped(&self, stamp: &str) -> (document: Document)
        ensures
            doc_fields(document) == entry_fields(self@, stamp@),
    {
        let mut document = empty_document();
        put_text(&mut document, "title", self.title.as_str());
        put_text(&mut document, "details", self.details.as_str());
        put_text(&mut document, "date_time", stamp);
        put_flag(&mut document, "is_done", self.is_done);
        put_text(&mut document, "tags", self.tags.as_str());
        document
    }

    /// The entry that a stored document stands for. A document that stands
    /// for none is a `DeserializationError`.
    pub fn from_document(document: &Document) -> (entry: Result<EventEntry, StoreError>)
        ensures
            match entry {
                Ok(found) => decoded(doc_fields(*document)) == Some(found@),
                Err(error) => decoded(doc_fields(*document)) is None && error
                    == StoreError::DeserializationError,
            },
    {
        let stamp = match get_text(document, "date_time") {
            Ok(text) => text,
            Err(_) => return Err(StoreError::DeserializationError),
        };
        match Timestamp::decode(stamp.as_str()) {
            Some(date_time) => EventEntry::from_document_due(document, date_time),
            None => Err(StoreError::DeserializationError),
        }
    }

    /// The entry that a stored document stands for, given the instant
    /// `date_time` that the text of its due instant was read as. A document
    /// that lacks the identifier, the title, the details or the completion
    /// flag, or holds one of these four as a value of the wrong kind, is a
    /// `DeserializationError`. The tags are read where they are a string and
    /// are empty otherwise.
    pub fn from_document_due(document: &Document, date_time: Timestamp) -> (entry: Result<
        EventEntry,
        StoreError,
    >)
        ensures
            match entry {
                Ok(found) => decoded_due(doc_fields(*document), date_time) == Some(found@),
                Err(error) => decoded_due(doc_fields(*document), date_time) is None && error
                    == StoreError::DeserializationError,
            },
    {
        let unique_id = match get_id(document, "_id") {
            Ok(id) => id,
            Err(_) => return Err(StoreError::DeserializationError),
        };
        let title = match get_text(document, "title") {
            Ok(text) => text,
            Err(_) => return Err(StoreError::DeserializationError),
        };
        let details = match get_text(document, "details") {
            Ok(text) => text,
            Err(_) => return Err(StoreError::DeserializationError),
        };
        let is_done = match get_flag(document, "is_done") {
            Ok(flag) => flag,
            Err(_) => return Err(StoreError::DeserializationError),
        };
        let tags = match get_text(document, "tags") {
            Ok(text) => text,
            Err(_) => String::new(),
        };
        Ok(EventEntry { unique_id, title, details, date_time, is_done, tags })
    }

    /// The entries that a list of stored documents stands for, in the order
    /// of the documents. One document that stands for no entry fails the
    /// whole list with a `DeserializationError`: no part of it is returned.
    pub fn from_documents(documents: &Vec<Document>) -> (entries: Result<Vec<EventEntry>, StoreError>)
        ensures
            match entries {
                Ok(found) => decoded_all(fields_of(documents@)) == Some(entry_views(found@)),
                Err(error) => decoded_all(fields_of(documents@)) is None && error
                    == StoreError::DeserializationError,
            },
    {
        let mut found: Vec<EventEntry> = Vec::new();
        let mut at: usize = 0;
        while at < documents.len()
            invariant
                at <= documents.len(),
                found.len() == at,
                forall|i: int|
                    0 <= i < at ==> decoded(doc_fields(#[trigger] documents@[i])) == Some(found@[i]@),
            decreases documents.len() - at,
        {
            match EventEntry::from_document(&documents[at]) {
                Ok(entry) => found.push(entry),
                Err(error) => {
                    assert(decoded(fields_of(documents@)[at as int]) is None);
                    return Err(error);
                },
            }
            at += 1;
        }
        assert(forall|i: int|
            0 <= i < documents@.len() ==> decoded(#[trigger] fields_of(documents@)[i]) is Some);
        assert(decoded_all(fields_of(documents@))->0 =~= entry_views(found@));
        Ok(found)
    }
}

/// What is stored for an entry reads back as that entry: under whatever
/// identifier the store keeps the document, the entry read from it has that
/// identifier and the title, details, due instant, completion flag and tags
/// of the entry that was stored.
pub proof fn lemma_stored_entry_reads_back(entry: EntryView, stamp: Seq<char>, id: Seq<u8>)
    requires
        canonical_text(entry.date_time) == Some(stamp),
    ensures
        decoded(entry_fields(entry, stamp).insert("_id"@, Field::Id(id))) == Some(entry.with_id(id)),
{
    lemma_keys_differ();
}

/// Whether the five required fields of a document can be read: the
/// identifier, the title, the details and the completion flag are there and
/// of their kinds, and the due instant is a string that reads as an instant.
pub open spec fn required_fields_readable(fields: Fields) -> bool {
    &&& id_at(fields, "_id"@) is Ok
    &&& text_at(fields, "title"@) is Ok
    &&& text_at(fields, "details"@) is Ok
    &&& flag_at(fields, "is_done"@) is Ok
    &&& text_at(fields, "date_time"@) matches Ok(stamp) && instant_of_text(stamp) is Some
}

/// A document stands for an entry exactly when its five required fields can
/// be read, and the entry then holds what the document holds: its
/// identifier, its title, its details, the instant of its due text, its
/// completion flag and its tags.
pub proof fn lemma_readable_document(fields: Fields)
    ensures
        decoded(fields) is Some <==> required_fields_readable(fields),
        decoded(fields) matches Some(entry) ==> {
            &&& id_at(fields, "_id"@) == Ok::<Seq<u8>, Absence>(entry.unique_id)
            &&& text_at(fields, "title"@) == Ok::<Seq<char>, Absence>(entry.title)
            &&& text_at(fields, "details"@) == Ok::<Seq<char>, Absence>(entry.details)
            &&& text_at(fields, "date_time"@) matches Ok(stamp) && instant_of_text(stamp) == Some(
                entry.date_time,
            )
            &&& flag_at(fields, "is_done"@) == Ok::<bool, Absence>(entry.is_done)
            &&& entry.tags == stored_tags(fields)
        },
{
}

/// The tags never make a document unreadable: whatever stands under `tags`,
/// and whether anything stands there, the document stands for an entry or
/// for none as it does without that key, and for the same entry but for its
/// tags. A value under `tags` that is no string reads as no tags.
pub proof fn lemma_tags_never_fail(fields: Fields, value: Field)
    ensures
        decoded(fields.insert("tags"@, value)) is Some <==> decoded(fields.remove("tags"@)) is Some,
        decoded(fields.insert("tags"@, value)) matches Some(entry) ==> Some(
            EntryView { tags: Seq::empty(), ..entry },
        ) == decoded(fields.remove("tags"@)),
        !(value is Text) ==> decoded(fields.insert("tags"@, value)) == decoded(
            fields.remove("tags"@),
        ),
{
    lemma_keys_differ();
}

/// The listing of a day holds exactly the entries of the reply that are due
/// on that day: an entry that is due is listed, whether it is done or not,
/// and an entry that is not due is not.
pub proof fn lemma_listed_when_due(entries: Seq<EntryView>, now: Timestamp, entry: EntryView)
    ensures
        due_entries(entries, now).contains(entry) <==> entries.contains(entry) && due_on_day_of(
            entry.date_time.secs as int,
            now.secs as int,
        ),
{
    let is_due = |entry: EntryView| due_on_day_of(entry.date_time.secs as int, now.secs as int);
    if due_entries(entries, now).contains(entry) {
        entries.lemma_filter_contains_rev(is_due, entry);
        let place = choose|i: int|
            0 <= i < entries.filter(is_due).len() && entries.filter(is_due)[i] == entry;
        entries.lemma_filter_pred(is_due, place);
    }
    if entries.contains(entry) && is_due(entry) {
        let place = choose|i: int| 0 <= i < entries.len() && entries[i] == entry;
        entries.lemma_filter_contains(is_due, place);
    }
}

/// The listing of a day grows with the reply entry by entry: an entry that
/// is due joins the end of the listing, any other entry leaves it as it is.
pub proof fn lemma_due_entries_step(entries: Seq<EntryView>, now: Timestamp, entry: EntryView)
    ensures
        due_entries(Seq::empty(), now) == Seq::<EntryView>::empty(),
        due_entries(entries.push(entry), now) == if due_on_day_of(
            entry.date_time.secs as int,
            now.secs as int,
        ) {
            due_entries(entries, now).push(entry)
        } else {
            due_entries(entries, now)
        },
{
    let is_due = |entry: EntryView| due_on_day_of(entry.date_time.secs as int, now.secs as int);
    reveal(Seq::filter);
    entries.lemma_filter_push(entry, is_due);
}

/// The six keys of a stored document are six different strings.
pub proof fn lemma_keys_differ()
    ensures
        "_id"@ != "title"@,
        "_id"@ != "details"@,
        "_id"@ != "date_time"@,
        "_id"@ != "is_done"@,
        "_id"@ != "tags"@,
        "title"@ != "details"@,
        "title"@ != "date_time"@,
        "title"@ != "is_done"@,
        "title"@ != "tags"@,
        "details"@ != "date_time"@,
        "details"@ != "is_done"@,
        "details"@ != "tags"@,
        "date_time"@ != "is_done"@,
        "date_time"@ != "tags"@,
        "is_done"@ != "tags"@,
{
    reveal_strlit("_id");
    reveal_strlit("title");
    reveal_strlit("details");
    reveal_strlit("date_time");
    reveal_strlit("is_done");
    reveal_strlit("tags");
    assert("_id"@.len() == 3);
    assert("title"@.len() == 5);
    assert("details"@.len() == 7);
    assert("date_time"@.len() == 9);
    assert("is_done"@.len() == 7);
    assert("tags"@.len() == 4);
    assert("details"@[0] != "is_done"@[0]);
}

} // verus!
