//! The transcript store: rows projected from session events, de-duplicated
//! by event id and projection key, with streaming text deltas of one turn
//! coalesced and older history pages prepended in order.
use vstd::prelude::*;
use crate::carrier_protocol::{SessionEvent, SessionEventView};
use crate::text::{concat, list_contains, strs};
use crate::transcript_projection::{
    copy_item, opt_item_view, project_session_event, project_view, ItemView, TranscriptItem,
    TranscriptItemKind,
};

verus! {

/// What ingesting one event did.
#[derive(Debug, Clone, Copy, PartialEq, Eq, Structural)]
pub enum TranscriptIngestResult {
    Projected,
    Ignored,
    Duplicate,
}

/// Counts of what ingesting a history page did.
#[derive(Debug, Clone, Copy, PartialEq, Eq, Structural)]
pub struct TranscriptIngestSummary {
    pub projected: usize,
    pub ignored: usize,
    pub duplicate: usize,
    pub total_items: usize,
}

impl Default for TranscriptIngestSummary {
    fn default() -> (r: Self)
        ensures
            r.projected == 0 && r.ignored == 0 && r.duplicate == 0 && r.total_items == 0,
    {
        TranscriptIngestSummary { projected: 0, ignored: 0, duplicate: 0, total_items: 0 }
    }
}

impl TranscriptIngestSummary {
    /// Counts one result.
    pub fn add_result(&mut self, result: TranscriptIngestResult)
        requires
            result == TranscriptIngestResult::Projected ==> old(self).projected < usize::MAX,
            result == TranscriptIngestResult::Ignored ==> old(self).ignored < usize::MAX,
            result == TranscriptIngestResult::Duplicate ==> old(self).duplicate < usize::MAX,
        ensures
            final(self).projected == old(self).projected + (if result == TranscriptIngestResult::Projected { 1usize } else { 0usize }),
            final(self).ignored == old(self).ignored + (if result == TranscriptIngestResult::Ignored { 1usize } else { 0usize }),
            final(self).duplicate == old(self).duplicate + (if result == TranscriptIngestResult::Duplicate { 1usize } else { 0usize }),
            final(self).total_items == old(self).total_items,
    {
        match result {
            TranscriptIngestResult::Projected => self.projected = self.projected + 1,
            TranscriptIngestResult::Ignored => self.ignored = self.ignored + 1,
            TranscriptIngestResult::Duplicate => self.duplicate = self.duplicate + 1,
        }
    }
}

/// The transcript rows and what has been ingested.
#[derive(Debug)]
pub struct TranscriptStore {
    items: Vec<TranscriptItem>,
    ingested_event_ids: Vec<String>,
    ingested_projection_keys: Vec<String>,
}

/// The mathematical form of a store.
pub struct StoreView {
    pub items: Seq<ItemView>,
    pub event_ids: Seq<Seq<char>>,
    pub projection_keys: Seq<Seq<char>>,
}

pub open spec fn item_views(v: Seq<TranscriptItem>) -> Seq<ItemView> {
    v.map_values(|i: TranscriptItem| i@)
}

impl View for TranscriptStore {
    type V = StoreView;

    closed spec fn view(&self) -> StoreView {
        StoreView {
            items: item_views(self.items@),
            event_ids: strs(self.ingested_event_ids@),
            projection_keys: strs(self.ingested_projection_keys@),
        }
    }
}

/// Whether a row continues the streaming text of the last row: both are
/// text deltas of the same actor and turn.
pub open spec fn continues_last(items: Seq<ItemView>, it: ItemView) -> bool {
    &&& it.kind == TranscriptItemKind::ProviderTextDelta
    &&& items.len() > 0
    &&& items.last().kind == TranscriptItemKind::ProviderTextDelta
    &&& items.last().actor == it.actor
    &&& items.last().turn_id == it.turn_id
}

/// The rows with a delta appended to the last row's text.
pub open spec fn merge_into_last(items: Seq<ItemView>, it: ItemView) -> Seq<ItemView> {
    items.update(
        items.len() - 1,
        ItemView { text: items.last().text + it.text, sequence: it.sequence, ..items.last() },
    )
}

/// Ingesting one event, given the row it projects to: a repeated event id is
/// a duplicate and changes nothing; an event without a row is recorded and
/// ignored; a row whose projection key was seen is a duplicate; otherwise the
/// row is coalesced into the last one (live only), prepended (history) or
/// appended (live).
pub open spec fn ingest_view(s: StoreView, id: Seq<char>, item: Option<ItemView>, prepend: bool) -> (
    StoreView,
    TranscriptIngestResult,
) {
    if s.event_ids.contains(id) {
        (s, TranscriptIngestResult::Duplicate)
    } else {
        let s1 = StoreView { event_ids: s.event_ids.push(id), ..s };
        match item {
            None => (s1, TranscriptIngestResult::Ignored),
            Some(it) => {
                let keyed = match it.projection_key {
                    Some(k) => if s1.projection_keys.contains(k) {
                        None
                    } else {
                        Some(StoreView { projection_keys: s1.projection_keys.push(k), ..s1 })
                    },
                    None => Some(s1),
                };
                match keyed {
                    None => (s1, TranscriptIngestResult::Duplicate),
                    Some(s2) => if !prepend && continues_last(s2.items, it) {
                        (StoreView { items: merge_into_last(s2.items, it), ..s2 }, TranscriptIngestResult::Projected)
                    } else if prepend {
                        (StoreView { items: seq![it] + s2.items, ..s2 }, TranscriptIngestResult::Projected)
                    } else {
                        (StoreView { items: s2.items.push(it), ..s2 }, TranscriptIngestResult::Projected)
                    },
                }
            },
        }
    }
}

/// Ingesting a history page, newest event first, each prepended; with the
/// numbers of projected, ignored and duplicate events.
pub open spec fn history_view(s: StoreView, events: Seq<SessionEventView>) -> (StoreView, nat, nat, nat)
    decreases events.len(),
{
    if events.len() == 0 {
        (s, 0, 0, 0)
    } else {
        let e = events.last();
        let (s1, r) = ingest_view(s, e.event_id, project_view(e), true);
        let (s2, p, i, d) = history_view(s1, events.drop_last());
        (
            s2,
            p + if r == TranscriptIngestResult::Projected { 1nat } else { 0nat },
            i + if r == TranscriptIngestResult::Ignored { 1nat } else { 0nat },
            d + if r == TranscriptIngestResult::Duplicate { 1nat } else { 0nat },
        )
    }
}


impl TranscriptStore {
    /// An empty store.
    pub fn new() -> (r: Self)
        ensures
            r@.items == Seq::<ItemView>::empty(),
            r@.event_ids == Seq::<Seq<char>>::empty(),
            r@.projection_keys == Seq::<Seq<char>>::empty(),
            store_ids_distinct(r@),
    {
        let r = TranscriptStore { items: Vec::new(), ingested_event_ids: Vec::new(), ingested_projection_keys: Vec::new() };
        assert(r@.items =~= Seq::<ItemView>::empty());
        assert(r@.event_ids =~= Seq::<Seq<char>>::empty());
        assert(r@.projection_keys =~= Seq::<Seq<char>>::empty());
        r
    }

    /// The rows, oldest first.
    pub fn items(&self) -> (r: &[TranscriptItem])
        ensures
            item_views(r@) == self@.items,
    {
        self.items.as_slice()
    }

    /// The number of rows.
    pub fn len(&self) -> (r: usize)
        ensures
            r == self@.items.len(),
    {
        self.items.len()
    }

    /// Whether there are no rows.
    pub fn is_empty(&self) -> (r: bool)
        ensures
            r == (self@.items.len() == 0),
    {
        self.items.len() == 0
    }

    /// Drops the rows but remembers what was ingested, so replays stay
    /// de-duplicated.
    pub fn clear_projection(&mut self)
        ensures
            final(self)@.items == Seq::<ItemView>::empty(),
            final(self)@.event_ids == old(self)@.event_ids,
            final(self)@.projection_keys == old(self)@.projection_keys,
            store_ids_distinct(old(self)@) ==> store_ids_distinct(final(self)@),
    {
        self.items.clear();
        assert(item_views(self.items@) =~= Seq::<ItemView>::empty());
    }

    /// Ingests a live event.
    pub fn ingest_event(&mut self, event: &SessionEvent) -> (r: TranscriptIngestResult)
        requires
            old(self)@.items.len() < usize::MAX,
        ensures
            (final(self)@, r) == ingest_view(old(self)@, event@.event_id, project_view(event@), false),
            store_ids_distinct(old(self)@) ==> store_ids_distinct(final(self)@),
    {
        proof {
            if store_ids_distinct(self@) {
                lemma_ingest_keeps_ids_distinct(self@, event@.event_id, project_view(event@), false);
            }
        }
        let item = project_session_event(event);
        self.ingest_event_at(event.event_id.as_str(), item, false)
    }

    /// Ingests an older history page, given oldest first: events are taken
    /// newest first and each row is prepended, so the page lands in order
    /// before the rows already held.
    pub fn ingest_history_events(&mut self, events: &[SessionEvent]) -> (r: TranscriptIngestSummary)
        requires
            old(self)@.items.len() + events@.len() < usize::MAX,
        ensures
            ({
                let (s, p, i, d) = history_view(old(self)@, events@.map_values(|e: SessionEvent| e@));
                &&& final(self)@ == s
                &&& r.projected == p
                &&& r.ignored == i
                &&& r.duplicate == d
                &&& r.total_items == s.items.len()
            }),
            store_ids_distinct(old(self)@) ==> store_ids_distinct(final(self)@),
    {
        proof {
            if store_ids_distinct(self@) {
                lemma_history_keeps_ids_distinct(self@, events@.map_values(|e: SessionEvent| e@));
            }
        }
        let ghost all = events@.map_values(|e: SessionEvent| e@);
        let ghost start = self@;
        let mut summary = TranscriptIngestSummary::default();
        let mut i: usize = events.len();
        assert(all.take(i as int) =~= all);
        while i > 0
            invariant
                i <= events.len(),
                all == events@.map_values(|e: SessionEvent| e@),
                self@.items.len() + i < usize::MAX,
                summary.projected + summary.ignored + summary.duplicate + i == events.len(),
                ({
                    let (s, p, ig, d) = history_view(start, all);
                    let (s2, p2, ig2, d2) = history_view(self@, all.take(i as int));
                    &&& s == s2
                    &&& p == summary.projected + p2
                    &&& ig == summary.ignored + ig2
                    &&& d == summary.duplicate + d2
                }),
            decreases i,
        {
            assert(all.take(i as int).drop_last() =~= all.take(i - 1));
            assert(all.take(i as int).last() == events@[i - 1]@);
            let event = &events[i - 1];
            let item = project_session_event(event);
            let r = self.ingest_event_at(event.event_id.as_str(), item, true);
            summary.add_result(r);
            i = i - 1;
        }
        summary.total_items = self.items.len();
        summary
    }

    /// Ingests one event given the row it projects to.
    fn ingest_event_at(&mut self, event_id: &str, item: Option<TranscriptItem>, prepend: bool) -> (r:
        TranscriptIngestResult)
        requires
            old(self)@.items.len() < usize::MAX,
        ensures
            (final(self)@, r) == ingest_view(old(self)@, event_id@, opt_item_view(item), prepend),
            final(self)@.items.len() <= old(self)@.items.len() + 1,
    {
        if list_contains(&self.ingested_event_ids, event_id) {
            return TranscriptIngestResult::Duplicate;
        }
        let ghost ids0 = self.ingested_event_ids@;
        self.ingested_event_ids.push(crate::text::owned(event_id));
        assert(strs(self.ingested_event_ids@) =~= strs(ids0).push(event_id@));
        let item = match item {
            Some(it) => it,
            None => {
                return TranscriptIngestResult::Ignored;
            },
        };
        if let Some(key) = &item.projection_key {
            if list_contains(&self.ingested_projection_keys, key.as_str()) {
                return TranscriptIngestResult::Duplicate;
            }
            let ghost keys0 = self.ingested_projection_keys@;
            self.ingested_projection_keys.push(key.clone());
            assert(strs(self.ingested_projection_keys@) =~= strs(keys0).push(key@));
        }
        if !prepend && self.merge_streaming_provider_delta(&item) {
            return TranscriptIngestResult::Projected;
        }
        let ghost items0 = self.items@;
        if prepend {
            self.items.insert(0, item);
            assert(item_views(self.items@) =~= seq![item@] + item_views(items0));
        } else {
            self.items.push(item);
            assert(item_views(self.items@) =~= item_views(items0).push(item@));
        }
        TranscriptIngestResult::Projected
    }

    /// Appends a streaming delta to the last row when it continues it.
    fn merge_streaming_provider_delta(&mut self, item: &TranscriptItem) -> (r: bool)
        ensures
            r == continues_last(old(self)@.items, item@),
            r ==> final(self)@ == (StoreView { items: merge_into_last(old(self)@.items, item@), ..old(self)@ }),
            !r ==> final(self)@ == old(self)@,
    {
        if item.kind != TranscriptItemKind::ProviderTextDelta {
            return false;
        }
        let n = self.items.len();
        if n == 0 {
            return false;
        }
        let previous = &self.items[n - 1];
        if previous.kind != TranscriptItemKind::ProviderTextDelta || previous.actor != item.actor
            || !crate::text::str_eq(previous.turn_id.as_str(), item.turn_id.as_str()) {
            return false;
        }
        let mut merged = copy_item(previous);
        merged.text = concat(previous.text.as_str(), item.text.as_str());
        merged.sequence = item.sequence;
        let ghost items0 = self.items@;
        self.items.set(n - 1, merged);
        assert(item_views(self.items@) =~= merge_into_last(item_views(items0), item@));
        true
    }
}

/// An event whose id was already ingested is a duplicate and leaves the
/// store as it was.
pub proof fn lemma_duplicate_event_changes_nothing(s: StoreView, id: Seq<char>, item: Option<ItemView>, prepend: bool)
    requires
        s.event_ids.contains(id),
    ensures
        ingest_view(s, id, item, prepend) == (s, TranscriptIngestResult::Duplicate),
{
}

/// A delta that continues the last row of the same turn is coalesced into
/// it: the number of rows stays, and the last row's text grows by the delta.
pub proof fn lemma_streaming_delta_coalesces(s: StoreView, id: Seq<char>, it: ItemView)
    requires
        !s.event_ids.contains(id),
        it.projection_key is None,
        continues_last(s.items, it),
    ensures
        ({
            let (s1, r) = ingest_view(s, id, Some(it), false);
            &&& r == TranscriptIngestResult::Projected
            &&& s1.items.len() == s.items.len()
            &&& s1.items.last().text == s.items.last().text + it.text
            &&& s1.items.take(s.items.len() - 1) == s.items.take(s.items.len() - 1)
        }),
{
    let (s1, r) = ingest_view(s, id, Some(it), false);
    assert(s1.items.take(s.items.len() - 1) =~= s.items.take(s.items.len() - 1));
}

/// Ingesting a history page keeps the rows already held, in order, after
/// whatever the page adds.
pub proof fn lemma_history_keeps_live_rows(s: StoreView, events: Seq<SessionEventView>)
    ensures
        ({
            let r = history_view(s, events).0;
            &&& s.items.len() <= r.items.len()
            &&& r.items.skip(r.items.len() - s.items.len()) == s.items
        }),
    decreases events.len(),
{
    if events.len() > 0 {
        let e = events.last();
        let (s1, _) = ingest_view(s, e.event_id, project_view(e), true);
        assert(s.items.len() <= s1.items.len() && s1.items.skip(s1.items.len() - s.items.len()) =~= s.items);
        lemma_history_keeps_live_rows(s1, events.drop_last());
        let r = history_view(s1, events.drop_last()).0;
        assert(r.items.skip(r.items.len() - s.items.len()) =~= s1.items.skip(s1.items.len() - s.items.len()));
    } else {
        assert(s.items.skip(0) =~= s.items);
    }
}

/// Replaying a page of events the store already ingested, as on a
/// reconnect, leaves the store as it was and counts every event a duplicate.
pub proof fn lemma_replayed_history_changes_nothing(s: StoreView, events: Seq<SessionEventView>)
    requires
        forall|i: int| 0 <= i < events.len() ==> s.event_ids.contains(#[trigger] events[i].event_id),
    ensures
        history_view(s, events) == (s, 0nat, 0nat, events.len()),
    decreases events.len(),
{
    if events.len() > 0 {
        let e = events.last();
        assert(s.event_ids.contains(events[events.len() - 1].event_id));
        lemma_duplicate_event_changes_nothing(s, e.event_id, project_view(e), true);
        let rest = events.drop_last();
        assert forall|i: int| 0 <= i < rest.len() implies s.event_ids.contains(#[trigger] rest[i].event_id) by {
            assert(rest[i] == events[i]);
        }
        lemma_replayed_history_changes_nothing(s, rest);
    }
}

/// No text occurs twice.
pub open spec fn no_repeats(s: Seq<Seq<char>>) -> bool {
    forall|i: int, j: int| 0 <= i < j < s.len() ==> s[i] != s[j]
}

/// The store holds each ingested event id and each projection key once.
pub open spec fn store_ids_distinct(s: StoreView) -> bool {
    no_repeats(s.event_ids) && no_repeats(s.projection_keys)
}

proof fn lemma_push_new_keeps_distinct(s: Seq<Seq<char>>, x: Seq<char>)
    requires
        no_repeats(s),
        !s.contains(x),
    ensures
        no_repeats(s.push(x)),
{
    assert forall|i: int, j: int| 0 <= i < j < s.push(x).len() implies s.push(x)[i] != s.push(x)[j] by {
        if j == s.len() {
            assert(s.push(x)[i] == s[i]);
        } else {
            assert(s.push(x)[i] == s[i] && s.push(x)[j] == s[j]);
        }
    }
}

/// Ingesting an event never records an event id or a projection key twice.
pub proof fn lemma_ingest_keeps_ids_distinct(s: StoreView, id: Seq<char>, item: Option<ItemView>, prepend: bool)
    requires
        store_ids_distinct(s),
    ensures
        store_ids_distinct(ingest_view(s, id, item, prepend).0),
{
    if !s.event_ids.contains(id) {
        lemma_push_new_keeps_distinct(s.event_ids, id);
        match item {
            Some(it) => match it.projection_key {
                Some(k) => if !s.projection_keys.contains(k) {
                    lemma_push_new_keeps_distinct(s.projection_keys, k);
                },
                None => {},
            },
            None => {},
        }
    }
}

/// Ingesting a history page never records an event id or a projection key
/// twice.
pub proof fn lemma_history_keeps_ids_distinct(s: StoreView, events: Seq<SessionEventView>)
    requires
        store_ids_distinct(s),
    ensures
        store_ids_distinct(history_view(s, events).0),
    decreases events.len(),
{
    if events.len() > 0 {
        let e = events.last();
        lemma_ingest_keeps_ids_distinct(s, e.event_id, project_view(e), true);
        let (s1, _) = ingest_view(s, e.event_id, project_view(e), true);
        lemma_history_keeps_ids_distinct(s1, events.drop_last());
    }
}

/// The rows a history page adds, oldest first: the row of each event whose
/// ingestion projected it, as it was projected.
pub open spec fn projected_rows(s: StoreView, events: Seq<SessionEventView>) -> Seq<ItemView>
    decreases events.len(),
{
    if events.len() == 0 {
        seq![]
    } else {
        let e = events.last();
        let (s1, r) = ingest_view(s, e.event_id, project_view(e), true);
        projected_rows(s1, events.drop_last()) + if r == TranscriptIngestResult::Projected {
            seq![project_view(e)->Some_0]
        } else {
            seq![]
        }
    }
}

/// Ingesting a history page counts every event once, as projected, ignored
/// or duplicate, and places the projected rows, unmerged and oldest first,
/// before the rows already held, which stay as they were.
pub proof fn lemma_history_page_prepends_and_counts(s: StoreView, events: Seq<SessionEventView>)
    ensures
        ({
            let (s2, p, i, d) = history_view(s, events);
            &&& p + i + d == events.len()
            &&& projected_rows(s, events).len() == p
            &&& s2.items == projected_rows(s, events) + s.items
            &&& s2.items.len() == s.items.len() + p
            &&& s2.items.skip(p as int) == s.items
        }),
    decreases events.len(),
{
    if events.len() == 0 {
        assert(Seq::<ItemView>::empty() + s.items =~= s.items);
        assert(s.items.skip(0) =~= s.items);
    } else {
        let e = events.last();
        let rest = events.drop_last();
        let (s1, r) = ingest_view(s, e.event_id, project_view(e), true);
        lemma_history_page_prepends_and_counts(s1, rest);
        let (s2, p, i, d) = history_view(s, events);
        if r == TranscriptIngestResult::Projected {
            assert(s1.items == seq![project_view(e)->Some_0] + s.items);
        } else {
            assert(s1.items == s.items);
        }
        assert(s2.items =~= projected_rows(s, events) + s.items);
        assert(s2.items.skip(p as int) =~= s.items);
    }
}

/// The rows a page of fresh, unkeyed events projects to, in event order.
pub open spec fn page_rows(events: Seq<SessionEventView>) -> Seq<ItemView>
    decreases events.len(),
{
    if events.len() == 0 {
        seq![]
    } else {
        page_rows(events.drop_last()) + match project_view(events.last()) {
            Some(it) => seq![it],
            None => seq![],
        }
    }
}

/// Events whose ids are new to the store and to each other, and whose rows
/// carry no projection key.
pub open spec fn fresh_page(s: StoreView, events: Seq<SessionEventView>) -> bool {
    &&& forall|i: int| 0 <= i < events.len() ==> !s.event_ids.contains(#[trigger] events[i].event_id)
    &&& forall|i: int, j: int| 0 <= i < j < events.len() ==> events[i].event_id != events[j].event_id
    &&& forall|i: int| 0 <= i < events.len() ==> match #[trigger] project_view(events[i]) {
        Some(it) => it.projection_key is None,
        None => true,
    }
}

/// A page of fresh events lands in chronological order before the rows
/// already held.
pub proof fn lemma_history_page_in_order(s: StoreView, events: Seq<SessionEventView>)
    requires
        fresh_page(s, events),
    ensures
        history_view(s, events).0.items == page_rows(events) + s.items,
    decreases events.len(),
{
    if events.len() > 0 {
        let e = events.last();
        let (s1, _) = ingest_view(s, e.event_id, project_view(e), true);
        let rest = events.drop_last();
        assert(!s.event_ids.contains(events[events.len() - 1].event_id));
        assert forall|i: int| 0 <= i < rest.len() implies !s1.event_ids.contains(#[trigger] rest[i].event_id) by {
            assert(rest[i] == events[i]);
            assert(events[i].event_id != events[events.len() - 1].event_id);
            if s1.event_ids.contains(rest[i].event_id) {
                let k = choose|k: int| 0 <= k < s1.event_ids.len() && s1.event_ids[k] == rest[i].event_id;
                if k < s.event_ids.len() {
                    assert(s.event_ids[k] == s1.event_ids[k]);
                    assert(s.event_ids.contains(events[i].event_id));
                }
            }
        }
        assert forall|i: int| 0 <= i < rest.len() implies match #[trigger] project_view(rest[i]) {
            Some(it) => it.projection_key is None,
            None => true,
        } by {
            assert(rest[i] == events[i]);
        }
        assert(project_view(events[events.len() - 1]) == project_view(e));
        lemma_history_page_in_order(s1, rest);
        match project_view(e) {
            Some(it) => {
                assert(s1.items == seq![it] + s.items);
                assert(page_rows(rest) + s1.items =~= page_rows(events) + s.items);
            },
            None => {
                assert(page_rows(rest) + s1.items =~= page_rows(events) + s.items);
            },
        }
    } else {
        assert(page_rows(events) + s.items =~= s.items);
    }
}

} // verus!
