use vstd::prelude::*;
use crate::models::{songs_view, BatchView, SongBatch, SongDescription, SongView};

verus! {

/// Where a playback queue came from.
#[derive(Debug, Clone, Copy, PartialEq, Eq, Structural)]
pub enum PlaylistSource {
    SavedTracks,
    Playlist,
    Album,
}

/// The view whose selection is currently live.
#[derive(Debug, Clone, Copy, PartialEq, Eq, Structural)]
pub enum SelectionContext {
    Queue,
    Playlist,
    Album,
}

#[derive(Debug, PartialEq, Eq)]
pub enum BrowserAction {
    /// Appends a fetched page to the saved tracks.
    AppendSavedTracks(SongBatch),
    /// A page of saved tracks could not be fetched.
    SavedTracksFetchFailed,
}

#[derive(Debug, PartialEq, Eq)]
pub enum PlaybackAction {
    /// Starts playing the song with this id.
    Load(String),
    /// Makes this page the playback queue, tagged with where it came from.
    LoadPagedSongs(Option<PlaylistSource>, SongBatch),
}

#[derive(Debug, PartialEq, Eq)]
pub enum SelectionAction {
    /// Adds these songs to the selection (songs already selected stay once).
    Select(Vec<SongDescription>),
    /// Removes the songs with these ids from the selection.
    Deselect(Vec<String>),
    /// Makes another view's selection the live one.
    ChangeContext(SelectionContext),
}

/// An intent; the only way the application state changes.
#[derive(Debug, PartialEq, Eq)]
pub enum AppAction {
    Browser(BrowserAction),
    Playback(PlaybackAction),
    Selection(SelectionAction),
    ChangeSelectionMode(bool),
}

/// An action as mathematical values.
pub enum ActionView {
    AppendSavedTracks(BatchView),
    SavedTracksFetchFailed,
    Load(Seq<char>),
    LoadPagedSongs(Option<PlaylistSource>, BatchView),
    Select(Seq<SongView>),
    Deselect(Seq<Seq<char>>),
    ChangeContext(SelectionContext),
    ChangeSelectionMode(bool),
}

/// The views of a sequence of strings.
pub open spec fn strings_view(s: Seq<String>) -> Seq<Seq<char>> {
    s.map_values(|x: String| x@)
}

impl View for AppAction {
    type V = ActionView;

    open spec fn view(&self) -> ActionView {
        match self {
            AppAction::Browser(BrowserAction::AppendSavedTracks(b)) => ActionView::AppendSavedTracks(b@),
            AppAction::Browser(BrowserAction::SavedTracksFetchFailed) => ActionView::SavedTracksFetchFailed,
            AppAction::Playback(PlaybackAction::Load(id)) => ActionView::Load(id@),
            AppAction::Playback(PlaybackAction::LoadPagedSongs(src, b)) => ActionView::LoadPagedSongs(*src, b@),
            AppAction::Selection(SelectionAction::Select(v)) => ActionView::Select(songs_view(v@)),
            AppAction::Selection(SelectionAction::Deselect(v)) => ActionView::Deselect(strings_view(v@)),
            AppAction::Selection(SelectionAction::ChangeContext(c)) => ActionView::ChangeContext(*c),
            AppAction::ChangeSelectionMode(b) => ActionView::ChangeSelectionMode(*b),
        }
    }
}

/// The views of a sequence of actions.
pub open spec fn actions_view(s: Seq<AppAction>) -> Seq<ActionView> {
    s.map_values(|x: AppAction| x@)
}

#[derive(Debug, PartialEq, Eq)]
pub enum BrowserEvent {
    /// Songs were appended to the saved tracks, the first at this index.
    SavedTracksAppended(usize),
    SavedTracksFetchFailed,
}

#[derive(Debug, PartialEq, Eq)]
pub enum PlaybackEvent {
    TrackChanged(String),
    PlaylistChanged,
}

#[derive(Debug, PartialEq, Eq)]
pub enum SelectionEvent {
    SelectionChanged,
    SelectionModeChanged(bool),
}

/// What a state change changed.
#[derive(Debug, PartialEq, Eq)]
pub enum AppEvent {
    BrowserEvent(BrowserEvent),
    PlaybackEvent(PlaybackEvent),
    SelectionEvent(SelectionEvent),
}

/// An event as mathematical values.
pub enum EventView {
    SavedTracksAppended(usize),
    SavedTracksFetchFailed,
    TrackChanged(Seq<char>),
    PlaylistChanged,
    SelectionChanged,
    SelectionModeChanged(bool),
}

impl View for AppEvent {
    type V = EventView;

    open spec fn view(&self) -> EventView {
        match self {
            AppEvent::BrowserEvent(BrowserEvent::SavedTracksAppended(i)) => EventView::SavedTracksAppended(*i),
            AppEvent::BrowserEvent(BrowserEvent::SavedTracksFetchFailed) => EventView::SavedTracksFetchFailed,
            AppEvent::PlaybackEvent(PlaybackEvent::TrackChanged(id)) => EventView::TrackChanged(id@),
            AppEvent::PlaybackEvent(PlaybackEvent::PlaylistChanged) => EventView::PlaylistChanged,
            AppEvent::SelectionEvent(SelectionEvent::SelectionChanged) => EventView::SelectionChanged,
            AppEvent::SelectionEvent(SelectionEvent::SelectionModeChanged(b)) => EventView::SelectionModeChanged(*b),
        }
    }
}

/// The view of an optional event.
pub open spec fn event_view(e: Option<AppEvent>) -> Option<EventView> {
    match e {
        Some(x) => Some(x@),
        None => None,
    }
}

} // verus!
