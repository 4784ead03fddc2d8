use vstd::prelude::*;
use crate::actions::{
    event_view, AppAction, AppEvent, ActionView, BrowserAction, BrowserEvent, EventView, PlaybackAction,
    PlaybackEvent, PlaylistSource, SelectionAction, SelectionContext, SelectionEvent,
};
use crate::models::{songs_view, PaginationCursor, SongDescription, SongView};

verus! {

/// The home screen's slice: the saved tracks fetched so far and the cursor of
/// the page fetched last.
#[derive(Debug)]
pub struct HomeState {
    pub saved_tracks: Vec<SongDescription>,
    pub last_saved_tracks_batch: PaginationCursor,
}

#[derive(Debug)]
pub struct BrowserState {
    pub home: Option<HomeState>,
}

#[derive(Debug)]
pub struct PlaybackState {
    pub current_song_id: Option<String>,
    pub source: Option<PlaylistSource>,
    pub queue: Vec<SongDescription>,
    pub queue_batch: Option<PaginationCursor>,
}

/// The single selection slot shared by all views; `context` says whose it is.
#[derive(Debug)]
pub struct SelectionState {
    pub context: SelectionContext,
    pub selection_mode: bool,
    pub selected: Vec<SongDescription>,
}

/// The whole application state.
#[derive(Debug)]
pub struct AppState {
    pub browser: BrowserState,
    pub playback: PlaybackState,
    pub selection: SelectionState,
}

/// The home slice as mathematical values: saved tracks and last cursor.
pub struct HomeView {
    pub saved_tracks: Seq<SongView>,
    pub last_batch: PaginationCursor,
}

/// The application state as mathematical values.
pub struct StateView {
    pub home: Option<HomeView>,
    pub current_song_id: Option<Seq<char>>,
    pub source: Option<PlaylistSource>,
    pub queue: Seq<SongView>,
    pub queue_batch: Option<PaginationCursor>,
    pub context: SelectionContext,
    pub selection_mode: bool,
    pub selected: Seq<SongView>,
}

impl View for AppState {
    type V = StateView;

    open spec fn view(&self) -> StateView {
        StateView {
            home: match self.browser.home {
                Some(h) => Some(
                    HomeView {
                        saved_tracks: songs_view(h.saved_tracks@),
                        last_batch: h.last_saved_tracks_batch,
                    },
                ),
                None => None,
            },
            current_song_id: match self.playback.current_song_id {
                Some(s) => Some(s@),
                None => None,
            },
            source: self.playback.source,
            queue: songs_view(self.playback.queue@),
            queue_batch: self.playback.queue_batch,
            context: self.selection.context,
            selection_mode: self.selection.selection_mode,
            selected: songs_view(self.selection.selected@),
        }
    }
}

/// Some song of `s` has this id.
pub open spec fn has_id(s: Seq<SongView>, id: Seq<char>) -> bool {
    exists|i: int| 0 <= i < s.len() && (#[trigger] s[i]).id == id
}

/// `sel` with each song of `songs` added in order, unless its id is there already.
pub open spec fn select_into(sel: Seq<SongView>, songs: Seq<SongView>) -> Seq<SongView>
    decreases songs.len(),
{
    if songs.len() == 0 {
        sel
    } else {
        let prev = select_into(sel, songs.drop_last());
        if has_id(prev, songs.last().id) {
            prev
        } else {
            prev.push(songs.last())
        }
    }
}

/// `sel` without the songs whose id is in `ids`, order kept.
pub open spec fn deselect_from(sel: Seq<SongView>, ids: Seq<Seq<char>>) -> Seq<SongView>
    decreases sel.len(),
{
    if sel.len() == 0 {
        sel
    } else {
        let prev = deselect_from(sel.drop_last(), ids);
        if ids.contains(sel.last().id) {
            prev
        } else {
            prev.push(sel.last())
        }
    }
}

/// The cursor that the state keeps for a page once it has been fetched.
pub open spec fn fetched_cursor(b: PaginationCursor, n: nat) -> PaginationCursor {
    PaginationCursor { fetched: Some(n as usize), ..b }
}

/// The state after applying `a` to `s`, and the event it emits.
pub open spec fn apply_spec(s: StateView, a: ActionView) -> (StateView, Option<EventView>) {
    match a {
        ActionView::AppendSavedTracks(b) => match s.home {
            Some(h) => (
                StateView {
                    home: Some(
                        HomeView {
                            saved_tracks: h.saved_tracks + b.songs,
                            last_batch: fetched_cursor(b.batch, b.songs.len()),
                        },
                    ),
                    ..s
                },
                Some(EventView::SavedTracksAppended(h.saved_tracks.len() as usize)),
            ),
            None => (s, None),
        },
        ActionView::SavedTracksFetchFailed => (s, Some(EventView::SavedTracksFetchFailed)),
        ActionView::Load(id) => (
            StateView { current_song_id: Some(id), ..s },
            Some(EventView::TrackChanged(id)),
        ),
        ActionView::LoadPagedSongs(src, b) => (
            StateView { source: src, queue: b.songs, queue_batch: Some(b.batch), ..s },
            Some(EventView::PlaylistChanged),
        ),
        ActionView::Select(songs) => (
            StateView { selected: select_into(s.selected, songs), ..s },
            Some(EventView::SelectionChanged),
        ),
        ActionView::Deselect(ids) => (
            StateView { selected: deselect_from(s.selected, ids), ..s },
            Some(EventView::SelectionChanged),
        ),
        ActionView::ChangeContext(c) => if c == s.context {
            (s, None)
        } else {
            (
                StateView { context: c, selected: Seq::empty(), ..s },
                Some(EventView::SelectionChanged),
            )
        },
        ActionView::ChangeSelectionMode(on) => (
            StateView {
                selection_mode: on,
                selected: if on { s.selected } else { Seq::empty() },
                ..s
            },
            Some(EventView::SelectionModeChanged(on)),
        ),
    }
}

/// Appending a page is not deduplicated: applying the same append twice makes
/// the saved tracks grow by the page's length each time.
pub proof fn lemma_append_twice(s: StateView, b: crate::models::BatchView)
    requires
        s.home is Some,
    ensures
        ({
            let s1 = apply_spec(s, ActionView::AppendSavedTracks(b)).0;
            let s2 = apply_spec(s1, ActionView::AppendSavedTracks(b)).0;
            &&& s1.home is Some
            &&& s2.home is Some
            &&& s1.home->0.saved_tracks.len() == s.home->0.saved_tracks.len() + b.songs.len()
            &&& s2.home->0.saved_tracks.len() == s1.home->0.saved_tracks.len() + b.songs.len()
            &&& s2.home->0.saved_tracks == s.home->0.saved_tracks + b.songs + b.songs
        }),
{
}

/// Moving the live selection to another context clears it, so moving it away
/// from the queue and back leaves nothing selected.
pub proof fn lemma_context_switch_clears(s: StateView, c: SelectionContext)
    requires
        s.context == SelectionContext::Queue,
        c != SelectionContext::Queue,
    ensures
        ({
            let s1 = apply_spec(s, ActionView::ChangeContext(c)).0;
            let s2 = apply_spec(s1, ActionView::ChangeContext(SelectionContext::Queue)).0;
            &&& s1.context == c
            &&& s1.selected.len() == 0
            &&& s2.context == SelectionContext::Queue
            &&& s2.selected.len() == 0
        }),
{
}

/// Whether some song of `v` has the id `id`.
fn contains_id(v: &Vec<SongDescription>, id: &String) -> (r: bool)
    ensures
        r == has_id(songs_view(v@), id@),
{
    let mut i: usize = 0;
    while i < v.len()
        invariant
            i <= v@.len(),
            forall|j: int| 0 <= j < i ==> (#[trigger] v@[j]).id@ != id@,
        decreases v@.len() - i,
    {
        if v[i].id == *id {
            assert(songs_view(v@)[i as int].id == id@);
            return true;
        }
        i = i + 1;
    }
    assert(forall|j: int| 0 <= j < songs_view(v@).len() ==> (#[trigger] songs_view(v@)[j]).id == v@[j].id@);
    false
}

/// Whether `ids` holds `id`.
fn contains_string(ids: &Vec<String>, id: &String) -> (r: bool)
    ensures
        r == crate::actions::strings_view(ids@).contains(id@),
{
    let ghost sv = crate::actions::strings_view(ids@);
    let mut i: usize = 0;
    while i < ids.len()
        invariant
            i <= ids@.len(),
            sv == crate::actions::strings_view(ids@),
            forall|j: int| 0 <= j < i ==> (#[trigger] ids@[j])@ != id@,
        decreases ids@.len() - i,
    {
        if ids[i] == *id {
            assert(sv[i as int] == id@);
            return true;
        }
        i = i + 1;
    }
    assert(!sv.contains(id@)) by {
        assert(forall|j: int| 0 <= j < sv.len() ==> (#[trigger] sv[j]) == ids@[j]@);
    }
    false
}

impl AppState {
    /// The home slice, where it is loaded.
    pub fn home_state(&self) -> (r: Option<&HomeState>)
        ensures
            r is Some <==> self.browser.home is Some,
            r is Some ==> *r->0 == self.browser.home->0,
    {
        self.browser.home.as_ref()
    }

    fn select(&mut self, songs: Vec<SongDescription>)
        ensures
            songs_view(final(self).selection.selected@) == select_into(
                songs_view(old(self).selection.selected@),
                songs_view(songs@),
            ),
            final(self).browser == old(self).browser,
            final(self).playback == old(self).playback,
            final(self).selection.context == old(self).selection.context,
            final(self).selection.selection_mode == old(self).selection.selection_mode,
    {
        let ghost start = songs_view(self.selection.selected@);
        let ghost sv = songs_view(songs@);
        let mut i: usize = 0;
        while i < songs.len()
            invariant
                i <= songs@.len(),
                sv == songs_view(songs@),
                songs_view(self.selection.selected@) == select_into(start, sv.take(i as int)),
                self.browser == old(self).browser,
                self.playback == old(self).playback,
                self.selection.context == old(self).selection.context,
                self.selection.selection_mode == old(self).selection.selection_mode,
            decreases songs@.len() - i,
        {
            assert(sv.take(i + 1).drop_last() =~= sv.take(i as int));
            assert(sv.take(i + 1).last() == songs@[i as int]@);
            if !contains_id(&self.selection.selected, &songs[i].id) {
                let s = songs[i].clone();
                self.selection.selected.push(s);
                assert(songs_view(self.selection.selected@) =~= select_into(start, sv.take(i as int)).push(
                    sv[i as int],
                ));
            }
            i = i + 1;
        }
        assert(sv.take(i as int) =~= sv);
    }

    fn deselect(&mut self, ids: Vec<String>)
        ensures
            songs_view(final(self).selection.selected@) == deselect_from(
                songs_view(old(self).selection.selected@),
                crate::actions::strings_view(ids@),
            ),
            final(self).browser == old(self).browser,
            final(self).playback == old(self).playback,
            final(self).selection.context == old(self).selection.context,
            final(self).selection.selection_mode == old(self).selection.selection_mode,
    {
        let ghost iv = crate::actions::strings_view(ids@);
        let ghost start = songs_view(self.selection.selected@);
        let mut kept: Vec<SongDescription> = Vec::new();
        let mut i: usize = 0;
        while i < self.selection.selected.len()
            invariant
                i <= self.selection.selected@.len(),
                start == songs_view(self.selection.selected@),
                iv == crate::actions::strings_view(ids@),
                songs_view(kept@) == deselect_from(start.take(i as int), iv),
            decreases self.selection.selected@.len() - i,
        {
            assert(start.take(i + 1).drop_last() =~= start.take(i as int));
            assert(start.take(i + 1).last() == start[i as int]);
            assert(start[i as int].id == self.selection.selected@[i as int].id@);
            let found = contains_string(&ids, &self.selection.selected[i].id);
            assert(deselect_from(start.take(i + 1), iv) == if iv.contains(start[i as int].id) {
                deselect_from(start.take(i as int), iv)
            } else {
                deselect_from(start.take(i as int), iv).push(start[i as int])
            });
            if !found {
                kept.push(self.selection.selected[i].clone());
                assert(songs_view(kept@) =~= deselect_from(start.take(i as int), iv).push(start[i as int]));
            }
            i = i + 1;
        }
        assert(start.take(i as int) =~= start);
        self.selection.selected = kept;
    }

    /// Applies `action` and returns the event that describes the change.
    pub fn apply(&mut self, action: AppAction) -> (ev: Option<AppEvent>)
        ensures
            (final(self)@, event_view(ev)) == apply_spec(old(self)@, action@),
    {
        match action {
            AppAction::Browser(BrowserAction::AppendSavedTracks(batch)) => {
                match &mut self.browser.home {
                    Some(home) => {
                        let start = home.saved_tracks.len();
                        let n = batch.songs.len();
                        let ghost before = songs_view(home.saved_tracks@);
                        let mut songs = batch.songs;
                        home.saved_tracks.append(&mut songs);
                        assert(songs_view(home.saved_tracks@) =~= before + songs_view(batch.songs@));
                        home.last_saved_tracks_batch = PaginationCursor { fetched: Some(n), ..batch.batch };
                        Some(AppEvent::BrowserEvent(BrowserEvent::SavedTracksAppended(start)))
                    },
                    None => None,
                }
            },
            AppAction::Browser(BrowserAction::SavedTracksFetchFailed) => {
                Some(AppEvent::BrowserEvent(BrowserEvent::SavedTracksFetchFailed))
            },
            AppAction::Playback(PlaybackAction::Load(id)) => {
                let copy = id.clone();
                self.playback.current_song_id = Some(id);
                Some(AppEvent::PlaybackEvent(PlaybackEvent::TrackChanged(copy)))
            },
            AppAction::Playback(PlaybackAction::LoadPagedSongs(source, batch)) => {
                self.playback.source = source;
                self.playback.queue_batch = Some(batch.batch);
                self.playback.queue = batch.songs;
                Some(AppEvent::PlaybackEvent(PlaybackEvent::PlaylistChanged))
            },
            AppAction::Selection(SelectionAction::Select(songs)) => {
                self.select(songs);
                Some(AppEvent::SelectionEvent(SelectionEvent::SelectionChanged))
            },
            AppAction::Selection(SelectionAction::Deselect(ids)) => {
                self.deselect(ids);
                Some(AppEvent::SelectionEvent(SelectionEvent::SelectionChanged))
            },
            AppAction::Selection(SelectionAction::ChangeContext(context)) => {
                if context == self.selection.context {
                    None
                } else {
                    self.selection.context = context;
                    self.selection.selected = Vec::new();
                    assert(songs_view(self.selection.selected@) =~= Seq::empty());
                    Some(AppEvent::SelectionEvent(SelectionEvent::SelectionChanged))
                }
            },
            AppAction::ChangeSelectionMode(on) => {
                self.selection.selection_mode = on;
                if !on {
                    self.selection.selected = Vec::new();
                    assert(songs_view(self.selection.selected@) =~= Seq::empty());
                }
                Some(AppEvent::SelectionEvent(SelectionEvent::SelectionModeChanged(on)))
            },
        }
    }
}

/// The store: owns the application state, lends it for reading, and changes
/// it only by applying actions.
#[derive(Debug)]
pub struct AppModel {
    pub state: AppState,
}

impl AppModel {
    pub fn new(state: AppState) -> (r: Self)
        ensures
            r.state == state,
    {
        AppModel { state }
    }

    /// A read-only borrow of the state.
    pub fn get_state(&self) -> (r: &AppState)
        ensures
            *r == self.state,
    {
        &self.state
    }

    /// Applies `action` to the state and returns the event it emits.
    pub fn apply(&mut self, action: AppAction) -> (ev: Option<AppEvent>)
        ensures
            (final(self).state@, event_view(ev)) == apply_spec(old(self).state@, action@),
    {
        self.state.apply(action)
    }
}

} // verus!
