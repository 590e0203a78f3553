//! Transcription history: a bounded list of past transcriptions, most recent first.
use vstd::prelude::*;
use crate::clock::unix_time_now;

verus! {

/// The history keeps at most this many entries.
pub const MAX_ENTRIES: usize = 100;

/// A single past transcription.
#[derive(Debug)]
pub struct TranscriptionEntry {
    /// Unique id: the creation time in milliseconds since the epoch.
    pub id: u64,
    /// The transcribed text.
    pub text: String,
    /// Language code ("en" or "he").
    pub language: String,
    /// Creation time in seconds since the epoch.
    pub timestamp: i64,
}

/// The mathematical content of a `TranscriptionEntry`.
pub struct EntryView {
    pub id: u64,
    pub text: Seq<char>,
    pub language: Seq<char>,
    pub timestamp: i64,
}

impl View for TranscriptionEntry {
    type V = EntryView;

    open spec fn view(&self) -> EntryView {
        EntryView { id: self.id, text: self.text@, language: self.language@, timestamp: self.timestamp }
    }
}

impl Clone for TranscriptionEntry {
    fn clone(&self) -> (e: Self)
        ensures
            e@ == self@,
    {
        TranscriptionEntry {
            id: self.id,
            text: self.text.clone(),
            language: self.language.clone(),
            timestamp: self.timestamp,
        }
    }
}

/// The views of a sequence of entries.
pub open spec fn entry_views(s: Seq<TranscriptionEntry>) -> Seq<EntryView> {
    s.map_values(|e: TranscriptionEntry| e@)
}

/// The entries of `s` whose id is not `id`, in order.
pub open spec fn without_id(s: Seq<EntryView>, id: u64) -> Seq<EntryView>
    decreases s.len(),
{
    if s.len() == 0 {
        s
    } else if s.last().id == id {
        without_id(s.drop_last(), id)
    } else {
        without_id(s.drop_last(), id).push(s.last())
    }
}

/// The entries after adding `e` to `s`: `e` first, then as many of `s` as fit.
pub open spec fn spec_prepend_bounded(s: Seq<EntryView>, e: EntryView) -> Seq<EntryView> {
    let all = seq![e] + s;
    if all.len() > MAX_ENTRIES {
        all.take(MAX_ENTRIES as int)
    } else {
        all
    }
}

/// Whether `e` was stamped at one instant of `millis` whole milliseconds and `secs` whole
/// seconds since the epoch: its id is the milliseconds and its timestamp the seconds.
pub open spec fn stamped_at(e: EntryView, millis: u128, secs: u64) -> bool {
    secs as int == millis as int / 1000 && e.id == millis as u64 && e.timestamp == secs as i64
}

/// The transcription history, most recent first.
pub struct History {
    entries: Vec<TranscriptionEntry>,
}

impl View for History {
    type V = Seq<EntryView>;

    closed spec fn view(&self) -> Seq<EntryView> {
        entry_views(self.entries@)
    }
}

fn clone_entries(v: &Vec<TranscriptionEntry>) -> (r: Vec<TranscriptionEntry>)
    ensures
        entry_views(r@) == entry_views(v@),
{
    let mut r: Vec<TranscriptionEntry> = Vec::new();
    let mut i: usize = 0;
    while i < v.len()
        invariant
            i <= v@.len(),
            r@.len() == i,
            forall|j: int| 0 <= j < i ==> #[trigger] r@[j]@ == v@[j]@,
        decreases v@.len() - i,
    {
        r.push(v[i].clone());
        i = i + 1;
    }
    assert(entry_views(r@) =~= entry_views(v@));
    r
}

impl History {
    /// An empty history.
    pub fn new() -> (h: Self)
        ensures
            h@ == Seq::<EntryView>::empty(),
    {
        let h = History { entries: Vec::new() };
        assert(h@ =~= Seq::<EntryView>::empty());
        h
    }

    /// A history holding `entries`, as they were loaded.
    pub fn from_entries(entries: Vec<TranscriptionEntry>) -> (h: Self)
        ensures
            h@ == entry_views(entries@),
    {
        History { entries }
    }

    /// Prepends an entry for `text` in `language` created at `millis` milliseconds (its id)
    /// and `secs` seconds (its timestamp) since the epoch, drops the oldest entries beyond
    /// the limit, and returns the new entry.
    pub fn add_at(&mut self, text: &str, language: &str, millis: u128, secs: u64) -> (e:
        TranscriptionEntry)
        ensures
            e@ == (EntryView {
                id: millis as u64,
                text: text@,
                language: language@,
                timestamp: secs as i64,
            }),
            final(self)@ == spec_prepend_bounded(old(self)@, e@),
    {
        let entry = TranscriptionEntry {
            id: millis as u64,
            text: text.to_owned(),
            language: language.to_owned(),
            timestamp: secs as i64,
        };
        let ghost old_views = self@;
        self.entries.insert(0, entry.clone());
        assert(entry_views(self.entries@) =~= seq![entry@] + old_views);
        self.entries.truncate(MAX_ENTRIES);
        assert(self@ =~= spec_prepend_bounded(old_views, entry@));
        entry
    }

    /// Prepends an entry for `text` in `language` stamped with the current time, drops the
    /// oldest entries beyond the limit, and returns the new entry.
    pub fn add(&mut self, text: &str, language: &str) -> (e: TranscriptionEntry)
        ensures
            e@.text == text@,
            e@.language == language@,
            exists|millis: u128, secs: u64| #[trigger] stamped_at(e@, millis, secs),
            final(self)@ == spec_prepend_bounded(old(self)@, e@),
    {
        let (millis, secs) = unix_time_now();
        let e = self.add_at(text, language, millis, secs);
        assert(stamped_at(e@, millis, secs));
        e
    }

    /// All entries, most recent first.
    pub fn all(&self) -> (r: Vec<TranscriptionEntry>)
        ensures
            entry_views(r@) == self@,
    {
        clone_entries(&self.entries)
    }

    /// Removes the entries with id `id`.
    pub fn delete(&mut self, id: u64)
        ensures
            final(self)@ == without_id(old(self)@, id),
    {
        let mut kept: Vec<TranscriptionEntry> = Vec::new();
        let mut old_entries: Vec<TranscriptionEntry> = Vec::new();
        std::mem::swap(&mut old_entries, &mut self.entries);
        let ghost views = entry_views(old_entries@);
        let mut i: usize = 0;
        assert(views.take(0) =~= Seq::<EntryView>::empty());
        while i < old_entries.len()
            invariant
                i <= old_entries@.len(),
                views == entry_views(old_entries@),
                entry_views(kept@) == without_id(views.take(i as int), id),
            decreases old_entries@.len() - i,
        {
            assert(views.take(i + 1).drop_last() =~= views.take(i as int));
            let ghost before = entry_views(kept@);
            if old_entries[i].id != id {
                kept.push(old_entries[i].clone());
                assert(entry_views(kept@) =~= before.push(views[i as int]));
            }
            i = i + 1;
        }
        assert(views.take(views.len() as int) =~= views);
        self.entries = kept;
    }

    /// Removes all entries.
    pub fn clear(&mut self)
        ensures
            final(self)@ == Seq::<EntryView>::empty(),
    {
        self.entries.clear();
        assert(self@ =~= Seq::<EntryView>::empty());
    }
}

/// The history never holds more than its limit once it has been added to: whatever it held,
/// after an addition it holds at most `MAX_ENTRIES` entries, the new one first.
pub proof fn law_history_is_bounded(s: Seq<EntryView>, e: EntryView)
    ensures
        spec_prepend_bounded(s, e).len() <= MAX_ENTRIES,
        spec_prepend_bounded(s, e)[0] == e,
{
}

/// Deleting an id leaves no entry with that id and keeps every other entry.
pub proof fn law_delete_removes_exactly(s: Seq<EntryView>, id: u64)
    ensures
        forall|i: int| 0 <= i < without_id(s, id).len() ==> without_id(s, id)[i].id != id,
        forall|i: int| 0 <= i < s.len() && s[i].id != id ==> without_id(s, id).contains(s[i]),
    decreases s.len(),
{
    if s.len() > 0 {
        law_delete_removes_exactly(s.drop_last(), id);
        let r = without_id(s.drop_last(), id);
        assert forall|i: int| 0 <= i < s.len() && s[i].id != id implies without_id(s, id).contains(s[i]) by {
            if i < s.len() - 1 {
                assert(s.drop_last()[i] == s[i]);
                let k = choose|k: int| 0 <= k < r.len() && r[k] == s[i];
                if s.last().id != id {
                    assert(without_id(s, id)[k] == s[i]);
                } else {
                    assert(without_id(s, id)[k] == s[i]);
                }
            } else {
                assert(without_id(s, id) == r.push(s.last()));
                assert(without_id(s, id)[r.len() as int] == s[i]);
            }
        }
    }
}

} // verus!
