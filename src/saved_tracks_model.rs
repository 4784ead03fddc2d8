use vstd::prelude::*;
use crate::actions::{
    actions_view, ActionView, AppAction, AppEvent, EventView, PlaybackAction, PlaylistSource,
    SelectionAction, SelectionContext,
};
use crate::dispatcher::{ActionDispatcher, FetchRequest};
use crate::list::{diff_view, render_from, rendered_from, DiffView, ListDiff, SongModel};
use crate::models::{clone_songs, next_page, songs_view, BatchView, SongBatch, SongDescription, SongView};
use crate::menu::{
    menu_view, song_actions, song_actions_spec, song_actions_view, song_menu, song_menu_spec, MenuItem,
    SongAction,
};
use crate::state::{has_id, AppModel, AppState, HomeView, SelectionState};

verus! {

/// The saved-tracks list: reads the shared state, issues actions and page
/// fetches through its dispatcher, and patches its rendering on events.
#[derive(Debug)]
pub struct SavedTracksModel {
    pub app_model: AppModel,
    pub dispatcher: ActionDispatcher,
    /// How many songs the list shows now.
    pub rendered_len: usize,
}

/// The patch for event `ev`, given how many songs are shown and the home
/// slice, with the number of songs shown afterwards.
pub open spec fn diff_spec(rendered_len: usize, home: Option<HomeView>, ev: EventView) -> (
    Option<DiffView>,
    usize,
) {
    match home {
        None => (None, rendered_len),
        Some(h) => match ev {
            EventView::SavedTracksAppended(i) => if i == rendered_len && i <= h.saved_tracks.len() {
                (
                    Some(DiffView::Append(rendered_from(h.saved_tracks, i as int))),
                    h.saved_tracks.len() as usize,
                )
            } else {
                (
                    Some(DiffView::Reset(rendered_from(h.saved_tracks, 0))),
                    h.saved_tracks.len() as usize,
                )
            },
            _ => (None, rendered_len),
        },
    }
}

/// When a page of songs is appended to the saved tracks, the store reports
/// the append at the former length; a list that showed exactly the former songs
/// then gets the new songs alone, each at its index, and a list that showed any
/// other number gets the whole list anew.
pub proof fn lemma_append_diff(s: crate::state::StateView, b: BatchView, shown: usize)
    requires
        s.home is Some,
        s.home->0.saved_tracks.len() + b.songs.len() <= usize::MAX,
    ensures
        ({
            let (s1, ev) = crate::state::apply_spec(s, ActionView::AppendSavedTracks(b));
            let n = s.home->0.saved_tracks.len();
            &&& ev == Some(EventView::SavedTracksAppended(n as usize))
            &&& shown == n ==> diff_spec(shown, s1.home, ev->0) == (
                Some(
                    DiffView::Append(
                        Seq::new(b.songs.len(), |j: int| ((n + j) as usize, b.songs[j])),
                    ),
                ),
                (n + b.songs.len()) as usize,
            )
            &&& shown != n ==> diff_spec(shown, s1.home, ev->0) == (
                Some(DiffView::Reset(rendered_from(s.home->0.saved_tracks + b.songs, 0))),
                (n + b.songs.len()) as usize,
            )
        }),
{
    let (s1, ev) = crate::state::apply_spec(s, ActionView::AppendSavedTracks(b));
    let n = s.home->0.saved_tracks.len();
    assert(rendered_from(s.home->0.saved_tracks + b.songs, n as int) =~= Seq::new(
        b.songs.len(),
        |j: int| ((n + j) as usize, b.songs[j]),
    ));
}

/// A bulk operation on the selection.
#[derive(Debug, Clone, Copy, PartialEq, Eq, Structural)]
pub enum SelectionTool {
    SelectAll,
    MoveUp,
    MoveDown,
    Remove,
    AddToQueue,
}

/// `i` is the first position in `s` of a song with this id.
pub open spec fn is_first_match(s: Seq<SongView>, id: Seq<char>, i: int) -> bool {
    &&& 0 <= i < s.len()
    &&& s[i].id == id
    &&& forall|j: int| 0 <= j < i ==> (#[trigger] s[j]).id != id
}

impl SavedTracksModel {
    pub fn new(app_model: AppModel, dispatcher: ActionDispatcher) -> (r: Self)
        ensures
            r.app_model == app_model,
            r.dispatcher == dispatcher,
            r.rendered_len == 0,
    {
        SavedTracksModel { app_model, dispatcher, rendered_len: 0 }
    }

    fn state(&self) -> (r: &AppState)
        ensures
            *r == self.app_model.state,
    {
        self.app_model.get_state()
    }

    fn songs(&self) -> (r: Option<&Vec<SongDescription>>)
        ensures
            r is Some <==> self.app_model.state.browser.home is Some,
            r is Some ==> *r->0 == self.app_model.state.browser.home->0.saved_tracks,
    {
        match self.state().home_state() {
            Some(h) => Some(&h.saved_tracks),
            None => None,
        }
    }

    /// Asks for the page after the last one fetched; `None` when the home
    /// slice is absent or no page follows.
    pub fn load_more(&mut self) -> (r: Option<()>)
        ensures
            final(self).app_model == old(self).app_model,
            final(self).rendered_len == old(self).rendered_len,
            final(self).dispatcher.dispatched@ == old(self).dispatcher.dispatched@,
            match old(self).app_model.state@.home {
                Some(h) => match next_page(h.last_batch) {
                    Some(c) => r is Some && final(self).dispatcher.fetches@ == old(
                        self,
                    ).dispatcher.fetches@.push(FetchRequest { offset: c.offset, limit: c.batch_size }),
                    None => r is None && final(self).dispatcher.fetches@ == old(self).dispatcher.fetches@,
                },
                None => r is None && final(self).dispatcher.fetches@ == old(self).dispatcher.fetches@,
            },
    {
        let next = match self.state().home_state() {
            Some(h) => h.last_saved_tracks_batch.next(),
            None => {
                return None;
            },
        };
        match next {
            Some(batch) => {
                self.dispatcher.call_spotify_and_dispatch(
                    FetchRequest { offset: batch.offset, limit: batch.batch_size },
                );
                Some(())
            },
            None => None,
        }
    }

    /// Plays `id` from this list: first makes the whole known list the queue,
    /// tagged as coming from the saved tracks, then loads the song.
    pub fn play_song(&mut self, id: &str)
        ensures
            final(self).app_model == old(self).app_model,
            final(self).rendered_len == old(self).rendered_len,
            final(self).dispatcher.fetches@ == old(self).dispatcher.fetches@,
            actions_view(final(self).dispatcher.dispatched@) == actions_view(
                old(self).dispatcher.dispatched@,
            ) + match old(self).app_model.state@.home {
                Some(h) => seq![
                    ActionView::LoadPagedSongs(
                        Some(PlaylistSource::SavedTracks),
                        BatchView { batch: h.last_batch, songs: h.saved_tracks },
                    ),
                    ActionView::Load(id@),
                ],
                None => seq![ActionView::Load(id@)],
            },
    {
        let ghost start = actions_view(self.dispatcher.dispatched@);
        let source = Some(PlaylistSource::SavedTracks);
        let paged = match self.app_model.get_state().home_state() {
            Some(home) => Some(
                SongBatch { batch: home.last_saved_tracks_batch, songs: clone_songs(&home.saved_tracks) },
            ),
            None => None,
        };
        if let Some(batch) = paged {
            self.dispatcher.dispatch(AppAction::Playback(PlaybackAction::LoadPagedSongs(source, batch)));
        }
        self.dispatcher.dispatch(AppAction::Playback(PlaybackAction::Load(id.to_owned())));
        proof {
            match old(self).app_model.state@.home {
                Some(h) => assert(actions_view(self.dispatcher.dispatched@) =~= start + seq![
                    ActionView::LoadPagedSongs(
                        Some(PlaylistSource::SavedTracks),
                        BatchView { batch: h.last_batch, songs: h.saved_tracks },
                    ),
                    ActionView::Load(id@),
                ]),
                None => assert(actions_view(self.dispatcher.dispatched@) =~= start + seq![
                    ActionView::Load(id@),
                ]),
            }
        }
    }

    /// The patch for `event`: on songs appended at the index up to which the
    /// list is shown, the new songs; on an append at any other index, the
    /// whole list anew; `None` for other events or when the home slice is
    /// absent.
    pub fn diff_for_event(&mut self, event: &AppEvent) -> (r: Option<ListDiff<SongModel>>)
        ensures
            (diff_view(r), final(self).rendered_len) == diff_spec(
                old(self).rendered_len,
                old(self).app_model.state@.home,
                event@,
            ),
            final(self).app_model == old(self).app_model,
            final(self).dispatcher == old(self).dispatcher,
    {
        let (diff, shown) = match self.songs() {
            None => {
                return None;
            },
            Some(songs) => match event {
                AppEvent::BrowserEvent(crate::actions::BrowserEvent::SavedTracksAppended(i)) => {
                    if *i == self.rendered_len && *i <= songs.len() {
                        (ListDiff::Append(render_from(songs, *i)), songs.len())
                    } else {
                        (ListDiff::Reset(render_from(songs, 0)), songs.len())
                    }
                },
                _ => {
                    return None;
                },
            },
        };
        self.rendered_len = shown;
        Some(diff)
    }

    /// Lists that may hold the playing song scroll to it.
    pub fn autoscroll_to_playing(&self) -> (r: bool)
        ensures
            r,
    {
        true
    }

    /// The id of the song playing now.
    pub fn current_song_id(&self) -> (r: Option<String>)
        ensures
            match r {
                Some(s) => self.app_model.state@.current_song_id == Some(s@),
                None => self.app_model.state@.current_song_id is None,
            },
    {
        match &self.state().playback.current_song_id {
            Some(s) => Some(s.clone()),
            None => None,
        }
    }

    /// The position of the first saved song with this id.
    fn find_song(&self, id: &str) -> (r: Option<usize>)
        ensures
            match self.app_model.state@.home {
                Some(h) => match r {
                    Some(i) => is_first_match(h.saved_tracks, id@, i as int),
                    None => !has_id(h.saved_tracks, id@),
                },
                None => r is None,
            },
    {
        let songs = match self.songs() {
            Some(s) => s,
            None => {
                return None;
            },
        };
        let ghost sv = songs_view(songs@);
        let key = id.to_owned();
        let mut i: usize = 0;
        while i < songs.len()
            invariant
                i <= songs@.len(),
                sv == songs_view(songs@),
                key@ == id@,
                self.app_model.state.browser.home is Some,
                *songs == self.app_model.state.browser.home->0.saved_tracks,
                forall|j: int| 0 <= j < i ==> (#[trigger] sv[j]).id != id@,
            decreases songs@.len() - i,
        {
            assert(sv[i as int].id == songs@[i as int].id@);
            if songs[i].id == key {
                return Some(i);
            }
            i = i + 1;
        }
        None
    }

    /// The actions offered for the saved song with this id; `None` when it is
    /// not in the list.
    pub fn actions_for(&self, id: &str) -> (r: Option<Vec<SongAction>>)
        ensures
            r is Some <==> (self.app_model.state@.home is Some && has_id(
                self.app_model.state@.home->0.saved_tracks,
                id@,
            )),
            r is Some ==> exists|i: int|
                is_first_match(self.app_model.state@.home->0.saved_tracks, id@, i)
                    && song_actions_view(r->0@) == song_actions_spec(
                    #[trigger] self.app_model.state@.home->0.saved_tracks[i],
                ),
    {
        let i = match self.find_song(id) {
            Some(i) => i,
            None => {
                return None;
            },
        };
        let songs = self.songs().unwrap();
        assert(songs_view(songs@)[i as int] == songs@[i as int]@);
        Some(song_actions(&songs[i]))
    }

    /// The context menu of the saved song with this id; `None` when it is not
    /// in the list.
    pub fn menu_for(&self, id: &str) -> (r: Option<Vec<MenuItem>>)
        ensures
            r is Some <==> (self.app_model.state@.home is Some && has_id(
                self.app_model.state@.home->0.saved_tracks,
                id@,
            )),
            r is Some ==> exists|i: int|
                is_first_match(self.app_model.state@.home->0.saved_tracks, id@, i)
                    && menu_view(r->0@) == song_menu_spec(
                    #[trigger] self.app_model.state@.home->0.saved_tracks[i],
                ),
    {
        let i = match self.find_song(id) {
            Some(i) => i,
            None => {
                return None;
            },
        };
        let songs = self.songs().unwrap();
        assert(songs_view(songs@)[i as int] == songs@[i as int]@);
        Some(song_menu(&songs[i]))
    }

    /// Adds the saved song with this id to the selection; does nothing when
    /// it is not in the list.
    pub fn select_song(&mut self, id: &str)
        ensures
            final(self).app_model == old(self).app_model,
            final(self).rendered_len == old(self).rendered_len,
            final(self).dispatcher.fetches@ == old(self).dispatcher.fetches@,
            (old(self).app_model.state@.home is Some && has_id(
                old(self).app_model.state@.home->0.saved_tracks,
                id@,
            )) ==> exists|i: int|
                is_first_match(old(self).app_model.state@.home->0.saved_tracks, id@, i) && actions_view(
                    final(self).dispatcher.dispatched@,
                ) == actions_view(old(self).dispatcher.dispatched@).push(
                    ActionView::Select(seq![#[trigger] old(self).app_model.state@.home->0.saved_tracks[i]]),
                ),
            !(old(self).app_model.state@.home is Some && has_id(
                old(self).app_model.state@.home->0.saved_tracks,
                id@,
            )) ==> final(self).dispatcher.dispatched@ == old(self).dispatcher.dispatched@,
    {
        let song = match self.find_song(id) {
            Some(i) => {
                let songs = self.songs().unwrap();
                assert(songs_view(songs@)[i as int] == songs@[i as int]@);
                songs[i].clone()
            },
            None => {
                return;
            },
        };
        let selected = vec![song];
        assert(songs_view(selected@) =~= seq![song@]);
        self.dispatcher.dispatch(AppAction::Selection(SelectionAction::Select(selected)));
    }

    /// Removes the song with this id from the selection.
    pub fn deselect_song(&mut self, id: &str)
        ensures
            final(self).app_model == old(self).app_model,
            final(self).rendered_len == old(self).rendered_len,
            final(self).dispatcher.fetches@ == old(self).dispatcher.fetches@,
            actions_view(final(self).dispatcher.dispatched@) == actions_view(
                old(self).dispatcher.dispatched@,
            ).push(ActionView::Deselect(seq![id@])),
    {
        let ids = vec![id.to_owned()];
        assert(crate::actions::strings_view(ids@) =~= seq![id@]);
        self.dispatcher.dispatch(AppAction::Selection(SelectionAction::Deselect(ids)));
    }

    /// Turns selection mode on; it is always available for this list.
    pub fn enable_selection(&mut self) -> (r: bool)
        ensures
            r,
            final(self).app_model == old(self).app_model,
            final(self).rendered_len == old(self).rendered_len,
            final(self).dispatcher.fetches@ == old(self).dispatcher.fetches@,
            actions_view(final(self).dispatcher.dispatched@) == actions_view(
                old(self).dispatcher.dispatched@,
            ).push(ActionView::ChangeSelectionMode(true)),
    {
        self.dispatcher.dispatch(AppAction::ChangeSelectionMode(true));
        true
    }

    /// The shared selection, present only while the queue's selection is the
    /// live one.
    pub fn selection(&self) -> (r: Option<&SelectionState>)
        ensures
            r is Some <==> self.app_model.state.selection.context == SelectionContext::Queue,
            r is Some ==> *r->0 == self.app_model.state.selection,
    {
        let selection = &self.state().selection;
        if selection.context == SelectionContext::Queue {
            Some(selection)
        } else {
            None
        }
    }

    /// The tools shown while selecting: select all.
    pub fn tools_visible(&self, selection: &SelectionState) -> (r: Vec<SelectionTool>)
        ensures
            r@ == seq![SelectionTool::SelectAll],
    {
        let r = vec![SelectionTool::SelectAll];
        assert(r@ =~= seq![SelectionTool::SelectAll]);
        r
    }

    /// Runs `tool`: select all selects every saved song shown. Returns
    /// `false`, changing nothing, for a tool this list leaves to the default
    /// handling.
    pub fn handle_tool_activated(&mut self, selection: &SelectionState, tool: &SelectionTool) -> (r:
        bool)
        ensures
            r <==> *tool == SelectionTool::SelectAll,
            final(self).app_model == old(self).app_model,
            final(self).rendered_len == old(self).rendered_len,
            final(self).dispatcher.fetches@ == old(self).dispatcher.fetches@,
            actions_view(final(self).dispatcher.dispatched@) == actions_view(
                old(self).dispatcher.dispatched@,
            ) + if *tool == SelectionTool::SelectAll && old(self).app_model.state@.home is Some {
                seq![ActionView::Select(old(self).app_model.state@.home->0.saved_tracks)]
            } else {
                Seq::empty()
            },
    {
        let ghost start = actions_view(self.dispatcher.dispatched@);
        match tool {
            SelectionTool::SelectAll => {
                let all = match self.songs() {
                    Some(songs) => clone_songs(songs),
                    None => {
                        assert(actions_view(self.dispatcher.dispatched@) =~= start + Seq::empty());
                        return true;
                    },
                };
                self.dispatcher.dispatch(AppAction::Selection(SelectionAction::Select(all)));
                assert(actions_view(self.dispatcher.dispatched@) =~= start + seq![
                    ActionView::Select(old(self).app_model.state@.home->0.saved_tracks),
                ]);
                true
            },
            _ => {
                assert(actions_view(self.dispatcher.dispatched@) =~= start + Seq::empty());
                false
            },
        }
    }
}

} // verus!
