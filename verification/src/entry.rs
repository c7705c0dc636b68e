//! The event entry: one to-do or reminder record.

use crate::instant::Timestamp;
use vstd::prelude::*;
use vstd::std_specs::cmp::PartialEqSpecImpl;

verus! {

/// One event record.
///
/// `unique_id` is the identifier under which the store keeps the entry. The
/// store assigns it when the entry is created; until then the field holds
/// whatever the caller put there and no operation reads it.
#[derive(Debug)]
pub struct EventEntry {
    pub unique_id: [u8; 12],
    pub title: String,
    pub details: String,
    pub date_time: Timestamp,
    pub is_done: bool,
    pub tags: String,
}

/// An entry as contracts see it.
pub struct EntryView {
    pub unique_id: Seq<u8>,
    pub title: Seq<char>,
    pub details: Seq<char>,
    pub date_time: Timestamp,
    pub is_done: bool,
    pub tags: Seq<char>,
}

impl View for EventEntry {
    type V = EntryView;

    open spec fn view(&self) -> EntryView {
        EntryView {
            unique_id: self.unique_id@,
            title: self.title@,
            details: self.details@,
            date_time: self.date_time,
            is_done: self.is_done,
            tags: self.tags@,
        }
    }
}

impl EntryView {
    /// This entry under another identifier.
    pub open spec fn with_id(self, unique_id: Seq<u8>) -> EntryView {
        EntryView { unique_id, ..self }
    }

    /// Whether two entries agree in everything but the identifier.
    pub open spec fn same_content(self, other: EntryView) -> bool {
        self.with_id(other.unique_id) == other
    }
}

/// The views of a list of entries.
pub open spec fn entry_views(entries: Seq<EventEntry>) -> Seq<EntryView> {
    entries.map_values(|entry: EventEntry| entry@)
}

/// Whether two identifiers hold the same twelve bytes.
pub fn same_id(left: &[u8; 12], right: &[u8; 12]) -> (same: bool)
    ensures
        same == (left@ == right@),
{
    let mut at: usize = 0;
    while at < 12
        invariant
            at <= 12,
            forall|i: int| 0 <= i < at ==> left@[i] == right@[i],
        decreases 12 - at,
    {
        if left[at] != right[at] {
            return false;
        }
        at += 1;
    }
    assert(left@ =~= right@);
    true
}

impl EventEntry {
    /// An entry without tags.
    pub fn new(
        unique_id: [u8; 12],
        title: String,
        details: String,
        date_time: Timestamp,
        is_done: bool,
    ) -> (entry: EventEntry)
        ensures
            entry@ == (EntryView {
                unique_id: unique_id@,
                title: title@,
                details: details@,
                date_time,
                is_done,
                tags: Seq::empty(),
            }),
    {
        EventEntry { unique_id, title, details, date_time, is_done, tags: String::new() }
    }

    /// This entry with `tags` as its free-text label.
    pub fn with_tags(self, tags: String) -> (entry: EventEntry)
        ensures
            entry@ == (EntryView { tags: tags@, ..self@ }),
    {
        EventEntry {
            unique_id: self.unique_id,
            title: self.title,
            details: self.details,
            date_time: self.date_time,
            is_done: self.is_done,
            tags,
        }
    }
}

impl Clone for EventEntry {
    fn clone(&self) -> (copy: EventEntry)
        ensures
            copy == *self,
    {
        EventEntry {
            unique_id: self.unique_id,
            title: self.title.clone(),
            details: self.details.clone(),
            date_time: self.date_time,
            is_done: self.is_done,
            tags: self.tags.clone(),
        }
    }
}

impl PartialEq for EventEntry {
    fn eq(&self, other: &EventEntry) -> (same: bool) {
        same_id(&self.unique_id, &other.unique_id) && self.title == other.title && self.details
            == other.details && self.date_time.secs == other.date_time.secs && self.date_time.nanos
            == other.date_time.nanos && self.is_done == other.is_done && self.tags == other.tags
    }
}

impl PartialEqSpecImpl for EventEntry {
    open spec fn obeys_eq_spec() -> bool {
        true
    }

    open spec fn eq_spec(&self, other: &EventEntry) -> bool {
        self@ == other@
    }
}

} // verus!
