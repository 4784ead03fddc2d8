use vstd::prelude::*;
use crate::actions::{actions_view, AppAction, BrowserAction};
use crate::models::SongBatch;

verus! {

/// A request for one page of saved tracks.
#[derive(Debug, Clone, Copy, PartialEq, Eq, Structural)]
pub struct FetchRequest {
    pub offset: usize,
    pub limit: usize,
}

/// Why a page could not be fetched.
#[derive(Debug, Clone, Copy, PartialEq, Eq, Structural)]
pub enum FetchError {
    Network,
    Unauthorized,
    InvalidResponse,
}

/// Collects the actions to apply and the fetches to run, in the order they
/// were issued; whoever drives the event loop takes and performs them.
#[derive(Debug)]
pub struct ActionDispatcher {
    pub dispatched: Vec<AppAction>,
    pub fetches: Vec<FetchRequest>,
}

impl ActionDispatcher {
    /// A dispatcher with nothing pending.
    pub fn new() -> (r: Self)
        ensures
            r.dispatched@.len() == 0,
            r.fetches@.len() == 0,
    {
        ActionDispatcher { dispatched: Vec::new(), fetches: Vec::new() }
    }

    /// Queues `action` to be applied.
    pub fn dispatch(&mut self, action: AppAction)
        ensures
            actions_view(final(self).dispatched@) == actions_view(old(self).dispatched@).push(action@),
            final(self).fetches@ == old(self).fetches@,
    {
        self.dispatched.push(action);
        assert(actions_view(self.dispatched@) =~= actions_view(old(self).dispatched@).push(action@));
    }

    /// Queues a page fetch; its result comes back as the action that
    /// `saved_tracks_fetched` gives.
    pub fn call_spotify_and_dispatch(&mut self, request: FetchRequest)
        ensures
            final(self).fetches@ == old(self).fetches@.push(request),
            final(self).dispatched@ == old(self).dispatched@,
    {
        self.fetches.push(request);
    }

    /// Hands out the queued actions, oldest first, and forgets them.
    pub fn take_dispatched(&mut self) -> (r: Vec<AppAction>)
        ensures
            r@ == old(self).dispatched@,
            final(self).dispatched@.len() == 0,
            final(self).fetches@ == old(self).fetches@,
    {
        let r = self.dispatched.split_off(0);
        assert(r@ =~= old(self).dispatched@);
        r
    }

    /// Hands out the queued fetches, oldest first, and forgets them.
    pub fn take_fetches(&mut self) -> (r: Vec<FetchRequest>)
        ensures
            r@ == old(self).fetches@,
            final(self).fetches@.len() == 0,
            final(self).dispatched@ == old(self).dispatched@,
    {
        let r = self.fetches.split_off(0);
        assert(r@ =~= old(self).fetches@);
        r
    }
}

/// The action that a finished fetch of saved tracks becomes: a well-formed
/// page is appended; a failure, or a page with more songs than were asked
/// for, is reported and nothing is merged.
pub fn saved_tracks_fetched(result: Result<SongBatch, FetchError>) -> (r: AppAction)
    ensures
        match result {
            Ok(b) => if b.wf() {
                r@ == (AppAction::Browser(BrowserAction::AppendSavedTracks(b)))@
            } else {
                r == AppAction::Browser(BrowserAction::SavedTracksFetchFailed)
            },
            Err(_) => r == AppAction::Browser(BrowserAction::SavedTracksFetchFailed),
        },
{
    match result {
        Ok(batch) => {
            if batch.songs.len() <= batch.batch.batch_size {
                AppAction::Browser(BrowserAction::AppendSavedTracks(batch))
            } else {
                AppAction::Browser(BrowserAction::SavedTracksFetchFailed)
            }
        },
        Err(_) => AppAction::Browser(BrowserAction::SavedTracksFetchFailed),
    }
}

} // verus!
