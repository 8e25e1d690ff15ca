use vstd::prelude::*;

use crate::keyed::{has_key, index_of, KeyedList};
use crate::media::session::{
    opt_session, EventView, MediaEvent, MediaSession, SessionView, SourceUpdate, UpdateView,
};
use crate::media::track::{copy_string, PlaybackState};
use crate::status::classifier::{classify, contains_any, has_any, views, MediaKind};
use crate::text::{begins, chars_of, lower, lowercase, starts_with};

verus! {

/// Sessions whose id starts with this come from the browser extension.
pub open spec fn is_extension_id(id: Seq<char>) -> bool {
    starts_with(id, "extension:"@)
}

/// Names of browsers whose own MPRIS players duplicate what the extension
/// reports.
pub open spec fn browser_names() -> Seq<Seq<char>> {
    seq!["chromium"@, "chrome"@, "firefox"@, "brave"@, "edge"@]
}

/// An MPRIS player of a web browser.
pub open spec fn is_browser_player(id: Seq<char>) -> bool {
    starts_with(id, "org.mpris.MediaPlayer2."@) && contains_any(lower(id), browser_names())
}

/// Some extension session is playing or paused.
pub open spec fn extension_active(all: Seq<SessionView>) -> bool {
    exists|i: int|
        0 <= i < all.len() && is_extension_id(#[trigger] all[i].id) && all[i].state.active()
}

/// A session that may be shown, among the sessions `all`, for the kind
/// asked for (any kind where `kind` is `None`): active, not empty, not a
/// browser's own player while the extension reports, and of that kind.
pub open spec fn eligible(all: Seq<SessionView>, s: SessionView, kind: Option<MediaKind>) -> bool {
    &&& s.state.active()
    &&& !s.is_empty()
    &&& !(extension_active(all) && is_browser_player(s.id))
    &&& match kind {
        Some(k) => classify(s) == k,
        None => true,
    }
}

/// `a` ranks no higher than `b`: playing beats paused, then the later
/// interaction wins.
pub open spec fn rank_le(a: SessionView, b: SessionView) -> bool {
    let pa = a.state == PlaybackState::Playing;
    let pb = b.state == PlaybackState::Playing;
    (!pa && pb) || (pa == pb && a.last_interaction <= b.last_interaction)
}

/// The index of the best eligible session among the first `n` of `all`;
/// of equally ranked ones, the last.
pub open spec fn pick(all: Seq<SessionView>, n: nat, kind: Option<MediaKind>) -> Option<int>
    decreases n,
{
    if n == 0 {
        None
    } else {
        let prev = pick(all, (n - 1) as nat, kind);
        let e = all[n - 1];
        if eligible(all, e, kind) && (match prev {
            Some(p) => rank_le(all[p], e),
            None => true,
        }) {
            Some(n - 1)
        } else {
            prev
        }
    }
}

/// The index of the session to show among `all`.
pub open spec fn selected(all: Seq<SessionView>, kind: Option<MediaKind>) -> Option<int> {
    pick(all, all.len(), kind)
}

/// `pick` finds an eligible session exactly where there is one, and the one
/// it finds ranks highest; any later eligible one ranks strictly lower.
pub proof fn lemma_pick(all: Seq<SessionView>, n: nat, kind: Option<MediaKind>)
    requires
        n <= all.len(),
    ensures
        pick(all, n, kind) is None <==> (forall|j: int|
            0 <= j < n ==> !eligible(all, #[trigger] all[j], kind)),
        pick(all, n, kind) matches Some(i) ==> {
            &&& 0 <= i < n
            &&& eligible(all, all[i], kind)
            &&& forall|j: int|
                0 <= j < n && eligible(all, #[trigger] all[j], kind) ==> rank_le(all[j], all[i])
            &&& forall|j: int|
                i < j < n && eligible(all, #[trigger] all[j], kind) ==> !rank_le(all[i], all[j])
        },
    decreases n,
{
    if n > 0 {
        lemma_pick(all, (n - 1) as nat, kind);
    }
}

/// The sessions that the sources reported and that are still there, and the
/// id of the session last announced as the active one.
pub struct MediaHub {
    sessions: KeyedList<MediaSession>,
    last_emitted_id: Option<String>,
}

/// Every entry is filed under its session's id.
pub open spec fn filed_by_id(entries: Seq<(String, MediaSession)>) -> bool {
    forall|i: int| 0 <= i < entries.len() ==> #[trigger] entries[i].0@ == entries[i].1.id@
}

/// The sessions of a list of entries, in order.
pub open spec fn session_views(entries: Seq<(String, MediaSession)>) -> Seq<SessionView> {
    entries.map_values(|e: (String, MediaSession)| e.1@)
}

impl MediaHub {
    /// The sessions in the order in which they first came in.
    pub closed spec fn order(&self) -> Seq<SessionView> {
        session_views(self.sessions.entries())
    }

    /// Each session under its id.
    pub closed spec fn table(&self) -> Map<Seq<char>, SessionView> {
        self.sessions@.map_values(|s: MediaSession| s@)
    }

    /// The id last announced as the active session's.
    pub closed spec fn last_emitted(&self) -> Option<Seq<char>> {
        self.last_emitted_id.deep_view()
    }

    pub closed spec fn wf(&self) -> bool {
        &&& self.sessions.wf()
        &&& filed_by_id(self.sessions.entries())
    }

    /// The table holds exactly the sessions of the order, each under its
    /// id, and no id occurs twice in the order.
    pub proof fn lemma_order_is_table(&self)
        requires
            self.wf(),
        ensures
            forall|i: int, j: int|
                0 <= i < self.order().len() && 0 <= j < self.order().len() && i != j
                    ==> #[trigger] self.order()[i].id != #[trigger] self.order()[j].id,
            forall|i: int|
                0 <= i < self.order().len() ==> #[trigger] self.table().contains_key(
                    self.order()[i].id,
                ) && self.table()[self.order()[i].id] == self.order()[i],
            forall|k: Seq<char>|
                #[trigger] self.table().contains_key(k) ==> exists|i: int|
                    0 <= i < self.order().len() && self.order()[i].id == k,
    {
        let e = self.sessions.entries();
        assert forall|i: int, j: int|
            0 <= i < self.order().len() && 0 <= j < self.order().len() && i != j implies #[trigger] self.order()[i].id
            != #[trigger] self.order()[j].id by {
            assert(e[i].0@ != e[j].0@);
            assert(e[i].0@ == e[i].1.id@);
            assert(e[j].0@ == e[j].1.id@);
        }
        assert forall|i: int| 0 <= i < self.order().len() implies #[trigger] self.table().contains_key(
            self.order()[i].id,
        ) && self.table()[self.order()[i].id] == self.order()[i] by {
            assert(e[i].0@ == e[i].1.id@);
            assert(has_key(e, e[i].0@));
            crate::keyed::lemma_index_of(e, e[i].0@);
        }
        assert forall|k: Seq<char>| #[trigger] self.table().contains_key(k) implies exists|i: int|
            0 <= i < self.order().len() && self.order()[i].id == k by {
            let i = index_of(e, k);
            crate::keyed::lemma_index_of(e, k);
            assert(e[i].0@ == e[i].1.id@);
            assert(self.order()[i].id == k);
        }
    }

    /// A hub with no session that has announced nothing.
    pub fn new() -> (r: Self)
        ensures
            r.wf(),
            r.order().len() == 0,
            r.table() == Map::<Seq<char>, SessionView>::empty(),
            r.last_emitted() is None,
    {
        let r = MediaHub { sessions: KeyedList::new(), last_emitted_id: None };
        assert(r.table() =~= Map::<Seq<char>, SessionView>::empty());
        assert(r.order() =~= Seq::<SessionView>::empty());
        r
    }

    /// The index of the session to show, for the kind asked for.
    fn select_index(&self, kind: Option<MediaKind>) -> (r: Option<usize>)
        requires
            self.wf(),
        ensures
            r matches Some(i) ==> i < self.order().len(),
            match r {
                Some(i) => selected(self.order(), kind) == Some(i as int),
                None => selected(self.order(), kind) is None,
            },
    {
        let ghost all = self.order();
        let n = self.sessions.len();
        let prefix = chars_of("extension:");
        let mut ext_active = false;
        let mut i: usize = 0;
        while i < n
            invariant
                n == all.len(),
                all == self.order(),
                self.wf(),
                prefix@ == "extension:"@,
                i <= n,
                ext_active == exists|m: int|
                    0 <= m < i && is_extension_id(#[trigger] all[m].id) && all[m].state.active(),
            decreases n - i,
        {
            let (_, s) = self.sessions.entry(i);
            assert(all[i as int] == s@);
            let id = chars_of(s.id.as_str());
            let here = begins(id.as_slice(), prefix.as_slice()) && s.state.is_active();
            assert(here == (is_extension_id(all[i as int].id) && all[i as int].state.active()));
            if here {
                ext_active = true;
            }
            i = i + 1;
        }
        assert(ext_active == extension_active(all));
        let mpris_prefix = chars_of("org.mpris.MediaPlayer2.");
        let browsers = vec![
            chars_of("chromium"),
            chars_of("chrome"),
            chars_of("firefox"),
            chars_of("brave"),
            chars_of("edge"),
        ];
        assert(views(browsers@) =~= browser_names());
        let mut best: Option<usize> = None;
        let mut k: usize = 0;
        while k < n
            invariant
                n == all.len(),
                all == self.order(),
                self.wf(),
                ext_active == extension_active(all),
                mpris_prefix@ == "org.mpris.MediaPlayer2."@,
                views(browsers@) == browser_names(),
                k <= n,
                match best {
                    Some(b) => b < k && pick(all, k as nat, kind) == Some(b as int),
                    None => pick(all, k as nat, kind) is None,
                },
            decreases n - k,
        {
            let (_, s) = self.sessions.entry(k);
            assert(all[k as int] == s@);
            let mut ok = s.state.is_active() && !s.is_empty();
            if ok && ext_active {
                let id = chars_of(s.id.as_str());
                if begins(id.as_slice(), mpris_prefix.as_slice()) {
                    let lowered = lowercase(id.as_slice());
                    if has_any(lowered.as_slice(), &browsers) {
                        ok = false;
                    }
                }
            }
            if ok {
                match kind {
                    Some(want) => {
                        ok = MediaKind::classify_session(s) == want;
                    },
                    None => {},
                }
            }
            assert(ok == eligible(all, all[k as int], kind));
            if ok {
                match best {
                    Some(b) => {
                        let (_, cur) = self.sessions.entry(b);
                        assert(all[b as int] == cur@);
                        let cur_playing = cur.state == PlaybackState::Playing;
                        let new_playing = s.state == PlaybackState::Playing;
                        if (!cur_playing && new_playing) || (cur_playing == new_playing
                            && cur.last_interaction <= s.last_interaction) {
                            best = Some(k);
                        }
                    },
                    None => {
                        best = Some(k);
                    },
                }
            }
            k = k + 1;
        }
        best
    }

    /// The session to show for the kind asked for (any kind where `kind`
    /// is `None`), as a copy.
    pub fn select_active_session(&self, kind: Option<MediaKind>) -> (r: Option<MediaSession>)
        requires
            self.wf(),
        ensures
            opt_session(r) == (match selected(self.order(), kind) {
                Some(i) => Some(self.order()[i]),
                None => None,
            }),
    {
        match self.select_index(kind) {
            Some(i) => {
                let (_, s) = self.sessions.entry(i);
                Some(s.clone())
            },
            None => None,
        }
    }

    /// The session to show, whatever its kind.
    pub fn active_session(&self) -> (r: Option<MediaSession>)
        requires
            self.wf(),
        ensures
            opt_session(r) == (match selected(self.order(), None) {
                Some(i) => Some(self.order()[i]),
                None => None,
            }),
    {
        self.select_active_session(None)
    }

    /// The session to show among those of one kind.
    pub fn active_by_kind(&self, kind: MediaKind) -> (r: Option<MediaSession>)
        requires
            self.wf(),
        ensures
            opt_session(r) == (match selected(self.order(), Some(kind)) {
                Some(i) => Some(self.order()[i]),
                None => None,
            }),
    {
        self.select_active_session(Some(kind))
    }
}


/// Some session of `all` has the id `id`.
pub open spec fn has_id(all: Seq<SessionView>, id: Seq<char>) -> bool {
    exists|i: int| 0 <= i < all.len() && #[trigger] all[i].id == id
}

/// The index of the session with id `id`, where there is one.
pub open spec fn id_index(all: Seq<SessionView>, id: Seq<char>) -> int {
    choose|i: int| 0 <= i < all.len() && #[trigger] all[i].id == id
}

/// The session shown among `all`, for the kind asked for.
pub open spec fn shown(all: Seq<SessionView>, kind: Option<MediaKind>) -> Option<SessionView> {
    match selected(all, kind) {
        Some(i) => Some(all[i]),
        None => None,
    }
}

/// The id of a shown session.
pub open spec fn shown_id(s: Option<SessionView>) -> Option<Seq<char>> {
    match s {
        Some(v) => Some(v.id),
        None => None,
    }
}

/// The order of sessions after an update: an upsert replaces the session
/// with the same id in place or appends it; a removal drops it.
pub open spec fn order_after(all: Seq<SessionView>, update: UpdateView) -> Seq<SessionView> {
    match update {
        UpdateView::Upsert(s) => if has_id(all, s.id) {
            all.update(id_index(all, s.id), s)
        } else {
            all.push(s)
        },
        UpdateView::Remove(id) => if has_id(all, id) {
            all.remove(id_index(all, id))
        } else {
            all
        },
    }
}

/// The table after an update: an upsert files the session under its id,
/// replacing whatever was there; a removal drops the id, if present.
pub open spec fn table_after(table: Map<Seq<char>, SessionView>, update: UpdateView) -> Map<
    Seq<char>,
    SessionView,
> {
    match update {
        UpdateView::Upsert(s) => table.insert(s.id, s),
        UpdateView::Remove(id) => table.remove(id),
    }
}

/// The table that a run of updates builds, in order, from none.
pub open spec fn run_table(updates: Seq<UpdateView>) -> Map<Seq<char>, SessionView>
    decreases updates.len(),
{
    if updates.len() == 0 {
        Map::empty()
    } else {
        table_after(run_table(updates.drop_last()), updates.last())
    }
}

/// The order of sessions that a run of updates builds, in order, from none.
pub open spec fn run_order(updates: Seq<UpdateView>) -> Seq<SessionView>
    decreases updates.len(),
{
    if updates.len() == 0 {
        Seq::empty()
    } else {
        order_after(run_order(updates.drop_last()), updates.last())
    }
}

/// The event announced after an update, with `before` the id last
/// announced and `all` the sessions after it: a change of the shown
/// session's id is announced with the session (or its absence); else the
/// shown session is announced again as changed metadata; else nothing.
pub open spec fn event_after(before: Option<Seq<char>>, all: Seq<SessionView>) -> Option<EventView> {
    let active = shown(all, None);
    if shown_id(active) != before {
        Some(EventView::SessionChanged(active))
    } else {
        match active {
            Some(a) => Some(EventView::MetadataChanged(a)),
            None => None,
        }
    }
}

/// The view of an optional event.
pub open spec fn opt_event(e: Option<MediaEvent>) -> Option<EventView> {
    match e {
        Some(x) => Some(x@),
        None => None,
    }
}

/// Two optional strings are equal.
fn same_opt(a: &Option<String>, b: &Option<String>) -> (r: bool)
    ensures
        r == (a.deep_view() == b.deep_view()),
{
    match (a, b) {
        (Some(x), Some(y)) => *x == *y,
        (None, None) => true,
        _ => false,
    }
}

impl MediaHub {
    /// The key lookups of the session list match the id lookups of the
    /// order.
    proof fn lemma_lookup(&self, k: Seq<char>)
        requires
            self.wf(),
        ensures
            has_key(self.sessions.entries(), k) == has_id(self.order(), k),
            has_key(self.sessions.entries(), k) ==> index_of(self.sessions.entries(), k)
                == id_index(self.order(), k),
    {
        let e = self.sessions.entries();
        let o = self.order();
        if has_key(e, k) {
            crate::keyed::lemma_index_of(e, k);
            let i = index_of(e, k);
            assert(e[i].0@ == e[i].1.id@);
            assert(o[i].id == k);
            let j = id_index(o, k);
            assert(o[j].id == k);
            assert(e[j].0@ == e[j].1.id@);
        }
        if has_id(o, k) {
            let j = id_index(o, k);
            assert(e[j].0@ == e[j].1.id@);
            assert(e[j].0@ == k);
        }
    }

    /// Applies one source update, then decides what to announce; this is
    /// the hub's loop body.
    pub fn apply_update(&mut self, update: SourceUpdate) -> (event: Option<MediaEvent>)
        requires
            old(self).wf(),
        ensures
            final(self).wf(),
            final(self).order() == order_after(old(self).order(), update@),
            final(self).table() == table_after(old(self).table(), update@),
            opt_event(event) == event_after(old(self).last_emitted(), final(self).order()),
            final(self).last_emitted() == shown_id(shown(final(self).order(), None)),
    {
        let ghost before = self.order();
        let ghost table_before = self.table();
        let ghost entries_before = self.sessions.entries();
        match update {
            SourceUpdate::Upsert(session) => {
                let ghost sv = session@;
                let key = copy_string(&session.id);
                let ghost kv = key@;
                proof {
                    self.lemma_lookup(sv.id);
                }
                self.sessions.insert(key, session);
                proof {
                    let e = self.sessions.entries();
                    assert(filed_by_id(e)) by {
                        assert forall|i: int| 0 <= i < e.len() implies #[trigger] e[i].0@
                            == e[i].1.id@ by {
                            if has_key(entries_before, sv.id) {
                                let r = index_of(entries_before, sv.id);
                                if i != r {
                                    assert(e[i] == entries_before[i]);
                                    assert(entries_before[i].0@ == entries_before[i].1.id@);
                                } else {
                                    assert(e[i].0@ == kv);
                                    assert(e[i].1@ == sv);
                                }
                            } else {
                                if i < entries_before.len() {
                                    assert(e[i] == entries_before[i]);
                                    assert(entries_before[i].0@ == entries_before[i].1.id@);
                                } else {
                                    assert(e[i].0@ == kv);
                                    assert(e[i].1@ == sv);
                                }
                            }
                        }
                    }
                    assert(self.order() =~= order_after(before, UpdateView::Upsert(sv)));
                    assert(self.table() =~= table_before.insert(sv.id, sv));
                }
            },
            SourceUpdate::Remove(id) => {
                let key = chars_of(id.as_str());
                proof {
                    self.lemma_lookup(id@);
                }
                self.sessions.remove(key.as_slice());
                proof {
                    let e = self.sessions.entries();
                    assert(filed_by_id(e)) by {
                        assert forall|i: int| 0 <= i < e.len() implies #[trigger] e[i].0@
                            == e[i].1.id@ by {
                            if has_key(entries_before, id@) {
                                let r = index_of(entries_before, id@);
                                if i < r {
                                    assert(e[i] == entries_before[i]);
                                    assert(entries_before[i].0@ == entries_before[i].1.id@);
                                } else {
                                    assert(e[i] == entries_before[i + 1]);
                                    assert(entries_before[i + 1].0@ == entries_before[i
                                        + 1].1.id@);
                                }
                            } else {
                                assert(e[i] == entries_before[i]);
                                assert(entries_before[i].0@ == entries_before[i].1.id@);
                            }
                        }
                    }
                    assert(self.order() =~= order_after(before, UpdateView::Remove(id@)));
                    assert(self.table() =~= table_before.remove(id@));
                }
            },
        }
        let active = self.select_active_session(None);
        let current_id = match &active {
            Some(s) => Some(copy_string(&s.id)),
            None => None,
        };
        if !same_opt(&current_id, &self.last_emitted_id) {
            self.last_emitted_id = current_id;
            Some(MediaEvent::SessionChanged(active))
        } else {
            match active {
                Some(current) => Some(MediaEvent::MetadataChanged(current)),
                None => None,
            }
        }
    }
}


/// The session shown, where there is one, may be shown and ranks highest
/// among those that may; any later one that may ranks strictly lower; and
/// nothing is shown only where nothing may be.
pub proof fn law_shown_is_best(all: Seq<SessionView>, kind: Option<MediaKind>)
    ensures
        selected(all, kind) is None <==> (forall|j: int|
            0 <= j < all.len() ==> !eligible(all, #[trigger] all[j], kind)),
        selected(all, kind) matches Some(i) ==> {
            &&& 0 <= i < all.len()
            &&& eligible(all, all[i], kind)
            &&& forall|j: int|
                0 <= j < all.len() && eligible(all, #[trigger] all[j], kind) ==> rank_le(
                    all[j],
                    all[i],
                )
            &&& forall|j: int|
                i < j < all.len() && eligible(all, #[trigger] all[j], kind) ==> !rank_le(
                    all[i],
                    all[j],
                )
        },
{
    lemma_pick(all, all.len(), kind);
}

/// A playing session is shown over every paused one.
pub proof fn law_playing_first(all: Seq<SessionView>, kind: Option<MediaKind>, j: int)
    requires
        0 <= j < all.len(),
        eligible(all, all[j], kind),
        all[j].state == PlaybackState::Playing,
    ensures
        selected(all, kind) matches Some(i) && all[i].state == PlaybackState::Playing,
{
    lemma_pick(all, all.len(), kind);
}

/// While a browser extension tab plays or is paused, no browser's own
/// MPRIS player is shown.
pub proof fn law_extension_hides_browser_players(all: Seq<SessionView>, kind: Option<MediaKind>)
    requires
        extension_active(all),
    ensures
        selected(all, kind) matches Some(i) ==> !is_browser_player(all[i].id),
{
    lemma_pick(all, all.len(), kind);
}

/// A stopped or empty session is never shown.
pub proof fn law_never_shows_inactive(all: Seq<SessionView>, kind: Option<MediaKind>)
    ensures
        selected(all, kind) matches Some(i) ==> all[i].state.active() && !all[i].is_empty(),
{
    lemma_pick(all, all.len(), kind);
}

/// The session shown is the one the hub keeps under its id.
pub proof fn law_shown_is_kept(hub: &MediaHub, kind: Option<MediaKind>)
    requires
        hub.wf(),
    ensures
        shown(hub.order(), kind) matches Some(s) ==> hub.table().contains_key(s.id) && hub.table()[s.id]
            == s,
{
    lemma_pick(hub.order(), hub.order().len(), kind);
    hub.lemma_order_is_table();
    if let Some(i) = selected(hub.order(), kind) {
        assert(hub.table().contains_key(hub.order()[i].id));
    }
}

/// A change of the shown session is announced exactly when its id differs
/// from the one announced last; otherwise the shown session, if any, is
/// announced as changed metadata.
pub proof fn law_announcements(before: Option<Seq<char>>, all: Seq<SessionView>)
    ensures
        (event_after(before, all) matches Some(EventView::SessionChanged(s))) <==> shown_id(
            shown(all, None),
        ) != before,
        shown_id(shown(all, None)) == before ==> event_after(before, all) == (match shown(all, None) {
            Some(a) => Some(EventView::MetadataChanged(a)),
            None => None,
        }),
{
}

/// Over a whole run of the hub, from a new hub through one state per
/// update in the order the sources sent them, the hub ends up holding
/// exactly the fold of those updates: each upsert files its session under
/// its id, replacing any earlier one, and each removal drops its id.
pub proof fn law_run(hubs: Seq<MediaHub>, updates: Seq<UpdateView>)
    requires
        hubs.len() == updates.len() + 1,
        hubs[0].order().len() == 0,
        hubs[0].table() == Map::<Seq<char>, SessionView>::empty(),
        forall|i: int|
            0 <= i < updates.len() ==> #[trigger] hubs[i + 1].order() == order_after(
                hubs[i].order(),
                updates[i],
            ) && hubs[i + 1].table() == table_after(hubs[i].table(), updates[i]),
    ensures
        hubs.last().table() == run_table(updates),
        hubs.last().order() == run_order(updates),
    decreases updates.len(),
{
    if updates.len() > 0 {
        let n = updates.len() - 1;
        let hs = hubs.drop_last();
        let us = updates.drop_last();
        assert forall|i: int| 0 <= i < us.len() implies #[trigger] hs[i + 1].order() == order_after(
            hs[i].order(),
            us[i],
        ) && hs[i + 1].table() == table_after(hs[i].table(), us[i]) by {
            assert(hubs[i + 1].order() == order_after(hubs[i].order(), updates[i]));
        }
        law_run(hs, us);
        assert(hubs[n + 1].order() == order_after(hubs[n].order(), updates[n]));
    } else {
        assert(run_order(updates) =~= hubs[0].order());
    }
}

/// Whatever run of updates built it, every session of the table is filed
/// under its own id.
pub proof fn law_run_keys_are_ids(updates: Seq<UpdateView>)
    ensures
        forall|k: Seq<char>| #[trigger] run_table(updates).contains_key(k) ==> run_table(updates)[k].id == k,
    decreases updates.len(),
{
    if updates.len() > 0 {
        law_run_keys_are_ids(updates.drop_last());
    }
}

/// In every hub that keeps its invariant, each session is filed under its
/// own id.
pub proof fn law_table_keys_are_ids(hub: &MediaHub)
    requires
        hub.wf(),
    ensures
        forall|k: Seq<char>| #[trigger] hub.table().contains_key(k) ==> hub.table()[k].id == k,
{
    hub.lemma_order_is_table();
    assert forall|k: Seq<char>| #[trigger] hub.table().contains_key(k) implies hub.table()[k].id == k by {
        let i = choose|i: int| 0 <= i < hub.order().len() && hub.order()[i].id == k;
        assert(hub.table().contains_key(hub.order()[i].id));
    }
}

} // verus!
