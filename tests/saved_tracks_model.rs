use saved_tracks::actions::{
    AppAction, AppEvent, BrowserAction, BrowserEvent, PlaybackAction, PlaybackEvent, PlaylistSource,
    SelectionAction, SelectionContext, SelectionEvent,
};
use saved_tracks::dispatcher::{saved_tracks_fetched, ActionDispatcher, FetchError, FetchRequest};
use saved_tracks::list::{ListDiff, SongModel};
use saved_tracks::menu::{MenuItem, MenuLabel, SongAction};
use saved_tracks::models::{clone_songs, AlbumRef, ArtistRef, PaginationCursor, SongBatch, SongDescription};
use saved_tracks::saved_tracks_model::{SavedTracksModel, SelectionTool};
use saved_tracks::state::{AppModel, AppState, BrowserState, HomeState, PlaybackState, SelectionState};

fn song(id: &str) -> SongDescription {
    SongDescription {
        id: id.to_string(),
        title: format!("Title {}", id),
        artists: vec![ArtistRef { id: format!("artist-{}", id), name: format!("Artist {}", id) }],
        album: AlbumRef { id: format!("album-{}", id), name: format!("Album {}", id) },
        duration: 180,
    }
}

fn songs(ids: &[&str]) -> Vec<SongDescription> {
    ids.iter().map(|id| song(id)).collect()
}

fn state_with(saved: Option<(Vec<SongDescription>, PaginationCursor)>) -> AppState {
    AppState {
        browser: BrowserState {
            home: saved.map(|(saved_tracks, last_saved_tracks_batch)| HomeState {
                saved_tracks,
                last_saved_tracks_batch,
            }),
        },
        playback: PlaybackState { current_song_id: None, source: None, queue: vec![], queue_batch: None },
        selection: SelectionState { context: SelectionContext::Queue, selection_mode: false, selected: vec![] },
    }
}

fn first_page() -> PaginationCursor {
    PaginationCursor { offset: 0, batch_size: 3, total: Some(5), fetched: Some(3) }
}

fn abc_model() -> SavedTracksModel {
    let state = state_with(Some((songs(&["A", "B", "C"]), first_page())));
    SavedTracksModel::new(AppModel::new(state), ActionDispatcher::new())
}

fn saved_ids(model: &SavedTracksModel) -> Vec<String> {
    let home = model.app_model.get_state().home_state().unwrap();
    home.saved_tracks.iter().map(|s| s.id.clone()).collect()
}

fn apply_dispatched(model: &mut SavedTracksModel) -> Vec<AppEvent> {
    let actions = model.dispatcher.take_dispatched();
    actions.into_iter().filter_map(|a| model.app_model.apply(a)).collect()
}

#[test]
fn cursor_next_after_full_page() {
    let c = PaginationCursor { offset: 0, batch_size: 3, total: Some(10), fetched: Some(3) };
    assert_eq!(c.next(), Some(PaginationCursor { offset: 3, batch_size: 3, total: Some(10), fetched: None }));
}

#[test]
fn cursor_next_none_when_total_reached() {
    let c = PaginationCursor { offset: 3, batch_size: 3, total: Some(5), fetched: Some(2) };
    assert_eq!(c.next(), None);
    let exact = PaginationCursor { offset: 3, batch_size: 3, total: Some(6), fetched: Some(3) };
    assert_eq!(exact.next(), None);
}

#[test]
fn cursor_next_none_when_fetch_came_back_short() {
    let c = PaginationCursor { offset: 0, batch_size: 50, total: None, fetched: Some(20) };
    assert_eq!(c.next(), None);
}

#[test]
fn cursor_next_with_unknown_total() {
    let c = PaginationCursor { offset: 50, batch_size: 50, total: None, fetched: Some(50) };
    assert_eq!(c.next(), Some(PaginationCursor::new(100, 50, None)));
    let unfetched = PaginationCursor::new(0, 50, None);
    assert_eq!(unfetched.next(), Some(PaginationCursor::new(50, 50, None)));
}

#[test]
fn cursor_next_none_on_offset_overflow() {
    let c = PaginationCursor { offset: usize::MAX - 1, batch_size: 3, total: None, fetched: Some(3) };
    assert_eq!(c.next(), None);
}

#[test]
fn load_more_scenario() {
    let mut model = abc_model();
    assert_eq!(model.load_more(), Some(()));
    let fetches = model.dispatcher.take_fetches();
    assert_eq!(fetches, vec![FetchRequest { offset: 3, limit: 3 }]);
    assert!(model.dispatcher.dispatched.is_empty());

    let page = SongBatch { batch: PaginationCursor::new(3, 3, Some(5)), songs: songs(&["D", "E"]) };
    let action = saved_tracks_fetched(Ok(page));
    let event = model.app_model.apply(action);
    assert_eq!(event, Some(AppEvent::BrowserEvent(BrowserEvent::SavedTracksAppended(3))));
    assert_eq!(saved_ids(&model), vec!["A", "B", "C", "D", "E"]);
    let last = model.app_model.get_state().home_state().unwrap().last_saved_tracks_batch;
    assert_eq!(last, PaginationCursor { offset: 3, batch_size: 3, total: Some(5), fetched: Some(2) });
    assert_eq!(last.next(), None);
    assert_eq!(model.load_more(), None);
    assert!(model.dispatcher.fetches.is_empty());
}

#[test]
fn load_more_without_home_state() {
    let mut model = SavedTracksModel::new(AppModel::new(state_with(None)), ActionDispatcher::new());
    assert_eq!(model.load_more(), None);
    assert!(model.dispatcher.fetches.is_empty());
}

#[test]
fn fetch_failure_leaves_saved_tracks_unchanged() {
    let mut model = abc_model();
    let action = saved_tracks_fetched(Err(FetchError::Network));
    assert_eq!(action, AppAction::Browser(BrowserAction::SavedTracksFetchFailed));
    let event = model.app_model.apply(action);
    assert_eq!(event, Some(AppEvent::BrowserEvent(BrowserEvent::SavedTracksFetchFailed)));
    assert_eq!(saved_ids(&model), vec!["A", "B", "C"]);
    assert_eq!(model.app_model.get_state().home_state().unwrap().last_saved_tracks_batch, first_page());
}

#[test]
fn oversized_page_is_not_merged() {
    let page = SongBatch { batch: PaginationCursor::new(3, 1, None), songs: songs(&["D", "E"]) };
    assert_eq!(saved_tracks_fetched(Ok(page)), AppAction::Browser(BrowserAction::SavedTracksFetchFailed));
    let err = saved_tracks_fetched(Err(FetchError::Unauthorized));
    assert_eq!(err, AppAction::Browser(BrowserAction::SavedTracksFetchFailed));
}

#[test]
fn append_twice_is_not_deduplicated() {
    let mut model = abc_model();
    let page = || SongBatch { batch: PaginationCursor::new(3, 3, Some(5)), songs: songs(&["D", "E"]) };
    let first = model.app_model.apply(AppAction::Browser(BrowserAction::AppendSavedTracks(page())));
    let second = model.app_model.apply(AppAction::Browser(BrowserAction::AppendSavedTracks(page())));
    assert_eq!(first, Some(AppEvent::BrowserEvent(BrowserEvent::SavedTracksAppended(3))));
    assert_eq!(second, Some(AppEvent::BrowserEvent(BrowserEvent::SavedTracksAppended(5))));
    assert_eq!(saved_ids(&model), vec!["A", "B", "C", "D", "E", "D", "E"]);
}

#[test]
fn append_without_home_state_is_a_no_op() {
    let mut app = AppModel::new(state_with(None));
    let page = SongBatch { batch: PaginationCursor::new(0, 3, None), songs: songs(&["A"]) };
    assert_eq!(app.apply(AppAction::Browser(BrowserAction::AppendSavedTracks(page))), None);
    assert!(app.get_state().home_state().is_none());
}

#[test]
fn diff_appends_only_new_songs() {
    let mut model = abc_model();
    let first = model.diff_for_event(&AppEvent::BrowserEvent(BrowserEvent::SavedTracksAppended(0)));
    assert_eq!(
        first,
        Some(ListDiff::Append(vec![
            SongModel { index: 0, song: song("A") },
            SongModel { index: 1, song: song("B") },
            SongModel { index: 2, song: song("C") },
        ]))
    );
    assert_eq!(model.rendered_len, 3);

    let page = SongBatch { batch: PaginationCursor::new(3, 3, Some(5)), songs: songs(&["D", "E"]) };
    let event = model.app_model.apply(AppAction::Browser(BrowserAction::AppendSavedTracks(page))).unwrap();
    let diff = model.diff_for_event(&event);
    assert_eq!(
        diff,
        Some(ListDiff::Append(vec![SongModel { index: 3, song: song("D") }, SongModel { index: 4, song: song("E") }]))
    );
    assert_eq!(model.rendered_len, 5);
}

#[test]
fn diff_resets_on_misaligned_index() {
    let mut model = abc_model();
    model.rendered_len = 3;
    let diff = model.diff_for_event(&AppEvent::BrowserEvent(BrowserEvent::SavedTracksAppended(1)));
    assert_eq!(
        diff,
        Some(ListDiff::Reset(vec![
            SongModel { index: 0, song: song("A") },
            SongModel { index: 1, song: song("B") },
            SongModel { index: 2, song: song("C") },
        ]))
    );
    assert_eq!(model.rendered_len, 3);

    let mut fresh = abc_model();
    let diff = fresh.diff_for_event(&AppEvent::BrowserEvent(BrowserEvent::SavedTracksAppended(7)));
    assert!(matches!(diff, Some(ListDiff::Reset(ref v)) if v.len() == 3));
    assert_eq!(fresh.rendered_len, 3);
}

#[test]
fn diff_ignores_other_events_and_absent_state() {
    let mut model = abc_model();
    let ev = AppEvent::SelectionEvent(SelectionEvent::SelectionChanged);
    assert_eq!(model.diff_for_event(&ev), None);
    assert_eq!(model.rendered_len, 0);

    let mut empty = SavedTracksModel::new(AppModel::new(state_with(None)), ActionDispatcher::new());
    let appended = AppEvent::BrowserEvent(BrowserEvent::SavedTracksAppended(0));
    assert_eq!(empty.diff_for_event(&appended), None);
}

#[test]
fn play_dispatches_queue_then_load() {
    let state = state_with(Some((songs(&["A", "B", "C", "D", "E"]), PaginationCursor::new(3, 3, Some(5)))));
    let mut model = SavedTracksModel::new(AppModel::new(state), ActionDispatcher::new());
    model.play_song("B");
    let expected = vec![
        AppAction::Playback(PlaybackAction::LoadPagedSongs(
            Some(PlaylistSource::SavedTracks),
            SongBatch { batch: PaginationCursor::new(3, 3, Some(5)), songs: songs(&["A", "B", "C", "D", "E"]) },
        )),
        AppAction::Playback(PlaybackAction::Load("B".to_string())),
    ];
    assert_eq!(model.dispatcher.dispatched, expected);

    let events = apply_dispatched(&mut model);
    assert_eq!(
        events,
        vec![
            AppEvent::PlaybackEvent(PlaybackEvent::PlaylistChanged),
            AppEvent::PlaybackEvent(PlaybackEvent::TrackChanged("B".to_string())),
        ]
    );
    assert_eq!(model.current_song_id(), Some("B".to_string()));
    let playback = &model.app_model.get_state().playback;
    assert_eq!(playback.source, Some(PlaylistSource::SavedTracks));
    assert_eq!(playback.queue.len(), 5);
}

#[test]
fn play_without_home_state_only_loads() {
    let mut model = SavedTracksModel::new(AppModel::new(state_with(None)), ActionDispatcher::new());
    assert_eq!(model.current_song_id(), None);
    model.play_song("Z");
    assert_eq!(model.dispatcher.dispatched, vec![AppAction::Playback(PlaybackAction::Load("Z".to_string()))]);
}

#[test]
fn select_missing_song_dispatches_nothing() {
    let mut model = abc_model();
    model.select_song("X");
    assert!(model.dispatcher.dispatched.is_empty());
}

#[test]
fn select_and_deselect_song() {
    let mut model = abc_model();
    model.select_song("B");
    assert_eq!(model.dispatcher.dispatched, vec![AppAction::Selection(SelectionAction::Select(vec![song("B")]))]);
    model.deselect_song("B");
    assert_eq!(model.dispatcher.dispatched[1], AppAction::Selection(SelectionAction::Deselect(vec!["B".to_string()])));
    model.select_song("C");
    model.select_song("C");
    apply_dispatched(&mut model);
    let selected: Vec<String> = model.selection().unwrap().selected.iter().map(|s| s.id.clone()).collect();
    assert_eq!(selected, vec!["C"]);
}

#[test]
fn enable_selection_dispatches_mode_change() {
    let mut model = abc_model();
    assert!(model.enable_selection());
    assert_eq!(model.dispatcher.dispatched, vec![AppAction::ChangeSelectionMode(true)]);
    let events = apply_dispatched(&mut model);
    assert_eq!(events, vec![AppEvent::SelectionEvent(SelectionEvent::SelectionModeChanged(true))]);
    assert!(model.app_model.get_state().selection.selection_mode);
}

#[test]
fn leaving_selection_mode_clears_selection() {
    let mut app = AppModel::new(state_with(None));
    app.apply(AppAction::Selection(SelectionAction::Select(songs(&["A", "B"]))));
    assert_eq!(app.get_state().selection.selected.len(), 2);
    app.apply(AppAction::ChangeSelectionMode(false));
    assert!(app.get_state().selection.selected.is_empty());
}

#[test]
fn selection_scoped_to_queue_context() {
    let mut model = abc_model();
    model.select_song("A");
    apply_dispatched(&mut model);
    assert_eq!(model.selection().unwrap().selected.len(), 1);

    let away = model.app_model.apply(AppAction::Selection(SelectionAction::ChangeContext(SelectionContext::Playlist)));
    assert_eq!(away, Some(AppEvent::SelectionEvent(SelectionEvent::SelectionChanged)));
    assert!(model.selection().is_none());

    model.app_model.apply(AppAction::Selection(SelectionAction::ChangeContext(SelectionContext::Queue)));
    let back = model.selection().unwrap();
    assert_eq!(back.context, SelectionContext::Queue);
    assert!(back.selected.is_empty());

    let same = model.app_model.apply(AppAction::Selection(SelectionAction::ChangeContext(SelectionContext::Queue)));
    assert_eq!(same, None);
}

#[test]
fn select_keeps_each_id_once_and_deselect_keeps_order() {
    let mut app = AppModel::new(state_with(None));
    app.apply(AppAction::Selection(SelectionAction::Select(songs(&["A", "B", "A"]))));
    app.apply(AppAction::Selection(SelectionAction::Select(songs(&["C", "B"]))));
    let ids = |app: &AppModel| -> Vec<String> {
        app.get_state().selection.selected.iter().map(|s| s.id.clone()).collect()
    };
    assert_eq!(ids(&app), vec!["A", "B", "C"]);
    app.apply(AppAction::Selection(SelectionAction::Deselect(vec!["B".to_string(), "Q".to_string()])));
    assert_eq!(ids(&app), vec!["A", "C"]);
}

#[test]
fn actions_for_song() {
    let model = abc_model();
    assert_eq!(
        model.actions_for("B"),
        Some(vec![
            SongAction::ViewArtist("artist-B".to_string()),
            SongAction::ViewAlbum("album-B".to_string()),
            SongAction::CopyLink("B".to_string()),
        ])
    );
    assert_eq!(model.actions_for("X"), None);
}

#[test]
fn menu_for_song_with_two_artists() {
    let mut two = song("T");
    two.artists.push(ArtistRef { id: "second".to_string(), name: "Second & Co".to_string() });
    let state = state_with(Some((vec![song("A"), two], first_page())));
    let model = SavedTracksModel::new(AppModel::new(state), ActionDispatcher::new());
    assert_eq!(
        model.menu_for("T"),
        Some(vec![
            MenuItem { label: MenuLabel::ViewAlbum, action: SongAction::ViewAlbum("album-T".to_string()) },
            MenuItem {
                label: MenuLabel::MoreFrom("Artist T".to_string()),
                action: SongAction::ViewArtist("artist-T".to_string()),
            },
            MenuItem {
                label: MenuLabel::MoreFrom("Second & Co".to_string()),
                action: SongAction::ViewArtist("second".to_string()),
            },
            MenuItem { label: MenuLabel::CopyLink, action: SongAction::CopyLink("T".to_string()) },
        ])
    );
    assert_eq!(model.menu_for("missing"), None);
    let empty = SavedTracksModel::new(AppModel::new(state_with(None)), ActionDispatcher::new());
    assert_eq!(empty.menu_for("T"), None);
    assert_eq!(empty.actions_for("T"), None);
}

#[test]
fn select_all_tool() {
    let mut model = abc_model();
    assert!(model.autoscroll_to_playing());
    let selection = SelectionState { context: SelectionContext::Queue, selection_mode: true, selected: vec![] };
    assert_eq!(model.tools_visible(&selection), vec![SelectionTool::SelectAll]);
    assert!(model.handle_tool_activated(&selection, &SelectionTool::SelectAll));
    assert_eq!(
        model.dispatcher.dispatched,
        vec![AppAction::Selection(SelectionAction::Select(songs(&["A", "B", "C"])))]
    );
    assert!(!model.handle_tool_activated(&selection, &SelectionTool::Remove));
    assert_eq!(model.dispatcher.dispatched.len(), 1);
}

#[test]
fn clone_keeps_songs() {
    let listed = songs(&["A", "B"]);
    let copy = clone_songs(&listed);
    assert_eq!(copy, listed);
    assert_eq!(song("A").clone(), song("A"));
}
