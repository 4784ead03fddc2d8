use vstd::prelude::*;
use crate::models::{SongDescription, SongView};

verus! {

/// A song as the list shows it: its position and its record.
#[derive(Debug, PartialEq, Eq)]
pub struct SongModel {
    pub index: usize,
    pub song: SongDescription,
}

impl View for SongModel {
    type V = (usize, SongView);

    open spec fn view(&self) -> (usize, SongView) {
        (self.index, self.song@)
    }
}

/// A patch that brings a rendered list in line with the state.
#[derive(Debug, PartialEq, Eq)]
pub enum ListDiff<T> {
    /// Add these items after the ones already shown.
    Append(Vec<T>),
    /// Replace everything shown with these items.
    Reset(Vec<T>),
}

/// A patch of rendered songs as mathematical values.
pub enum DiffView {
    Append(Seq<(usize, SongView)>),
    Reset(Seq<(usize, SongView)>),
}

/// The views of a sequence of rendered songs.
pub open spec fn models_view(s: Seq<SongModel>) -> Seq<(usize, SongView)> {
    s.map_values(|m: SongModel| m@)
}

/// The view of an optional patch.
pub open spec fn diff_view(d: Option<ListDiff<SongModel>>) -> Option<DiffView> {
    match d {
        Some(ListDiff::Append(v)) => Some(DiffView::Append(models_view(v@))),
        Some(ListDiff::Reset(v)) => Some(DiffView::Reset(models_view(v@))),
        None => None,
    }
}

/// The songs of `songs` from index `start` on, each with its index.
pub open spec fn rendered_from(songs: Seq<SongView>, start: int) -> Seq<(usize, SongView)> {
    Seq::new((songs.len() - start) as nat, |j: int| ((start + j) as usize, songs[start + j]))
}

/// Renders `songs` from index `start` on.
pub fn render_from(songs: &Vec<SongDescription>, start: usize) -> (r: Vec<SongModel>)
    requires
        start <= songs@.len(),
    ensures
        models_view(r@) == rendered_from(crate::models::songs_view(songs@), start as int),
{
    let ghost sv = crate::models::songs_view(songs@);
    let mut r: Vec<SongModel> = Vec::new();
    let mut i: usize = start;
    while i < songs.len()
        invariant
            start <= i <= songs@.len(),
            sv == crate::models::songs_view(songs@),
            r@.len() == i - start,
            forall|j: int|
                0 <= j < r@.len() ==> (#[trigger] r@[j]).index == start + j && r@[j].song@ == songs@[start
                    + j]@,
        decreases songs@.len() - i,
    {
        r.push(SongModel { index: i, song: songs[i].clone() });
        i = i + 1;
    }
    assert(models_view(r@) =~= rendered_from(sv, start as int));
    r
}

} // verus!
