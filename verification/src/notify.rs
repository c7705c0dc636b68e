//! The reminders to raise for the entries due today.

use crate::entry::{entry_views, EntryView, EventEntry};
use vstd::prelude::*;

verus! {

/// One desktop notification: its summary line and its body.
#[derive(Debug)]
pub struct Notice {
    pub summary: String,
    pub body: String,
}

/// A notice as contracts see it.
pub struct NoticeView {
    pub summary: Seq<char>,
    pub body: Seq<char>,
}

impl View for Notice {
    type V = NoticeView;

    open spec fn view(&self) -> NoticeView {
        NoticeView { summary: self.summary@, body: self.body@ }
    }
}

/// The views of a list of notices.
pub open spec fn notice_views(notices: Seq<Notice>) -> Seq<NoticeView> {
    notices.map_values(|notice: Notice| notice@)
}

/// The notice for an entry: its title as the summary, its details as the
/// body.
pub open spec fn notice_of(entry: EntryView) -> NoticeView {
    NoticeView { summary: entry.title, body: entry.details }
}

/// The notices for a list of entries: one for each entry that is not done,
/// in the order of the list. An entry that is done is skipped.
pub open spec fn pending_notices(entries: Seq<EntryView>) -> Seq<NoticeView> {
    entries.filter(|entry: EntryView| !entry.is_done).map_values(|entry: EntryView| notice_of(entry))
}

/// The notices to raise for the entries due today: one for each of them
/// that is not done.
pub fn send_notifications(due_today: &Vec<EventEntry>) -> (notices: Vec<Notice>)
    ensures
        notice_views(notices@) == pending_notices(entry_views(due_today@)),
{
    let ghost open = |entry: EntryView| !entry.is_done;
    let mut notices: Vec<Notice> = Vec::new();
    let mut at: usize = 0;
    proof {
        reveal(Seq::filter);
        assert(entry_views(due_today@).take(0) =~= Seq::<EntryView>::empty());
        assert(notice_views(notices@) =~= pending_notices(entry_views(due_today@).take(0)));
    }
    while at < due_today.len()
        invariant
            at <= due_today.len(),
            open == |entry: EntryView| !entry.is_done,
            notice_views(notices@) == pending_notices(entry_views(due_today@).take(at as int)),
        decreases due_today.len() - at,
    {
        let ghost before = notice_views(notices@);
        let ghost seen = entry_views(due_today@).take(at as int);
        proof {
            assert(entry_views(due_today@).take(at as int + 1) =~= seen.push(due_today@[at as int]@));
            seen.lemma_filter_push(due_today@[at as int]@, open);
        }
        if !due_today[at].is_done {
            notices.push(
                Notice { summary: due_today[at].title.clone(), body: due_today[at].details.clone() },
            );
            assert(notice_views(notices@) =~= before.push(notice_of(due_today@[at as int]@)));
            assert(seen.filter(open).push(due_today@[at as int]@).map_values(
                |entry: EntryView| notice_of(entry),
            ) =~= before.push(notice_of(due_today@[at as int]@)));
        }
        at += 1;
    }
    assert(entry_views(due_today@).take(due_today@.len() as int) =~= entry_views(due_today@));
    notices
}

/// The notices grow with the entries one by one: an entry that is not done
/// adds its notice at the end, an entry that is done adds nothing.
pub proof fn lemma_pending_notices_step(entries: Seq<EntryView>, entry: EntryView)
    ensures
        pending_notices(Seq::empty()) == Seq::<NoticeView>::empty(),
        pending_notices(entries.push(entry)) == if entry.is_done {
            pending_notices(entries)
        } else {
            pending_notices(entries).push(notice_of(entry))
        },
{
    let open = |entry: EntryView| !entry.is_done;
    reveal(Seq::filter);
    entries.lemma_filter_push(entry, open);
    assert(pending_notices(Seq::empty()) =~= Seq::<NoticeView>::empty());
    if !entry.is_done {
        assert(entries.filter(open).push(entry).map_values(|entry: EntryView| notice_of(entry))
            =~= pending_notices(entries).push(notice_of(entry)));
    }
}

} // verus!
