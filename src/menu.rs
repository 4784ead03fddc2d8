use vstd::prelude::*;
use crate::models::{SongDescription, SongView};

verus! {

/// Something the user can do with one song.
#[derive(Debug, PartialEq, Eq)]
pub enum SongAction {
    /// Open the artist with this id.
    ViewArtist(String),
    /// Open the album with this id.
    ViewAlbum(String),
    /// Copy the link of the song with this id.
    CopyLink(String),
}

/// What a menu entry says.
#[derive(Debug, PartialEq, Eq)]
pub enum MenuLabel {
    ViewAlbum,
    /// "More from" this artist name.
    MoreFrom(String),
    CopyLink,
}

/// One entry of a song's context menu.
#[derive(Debug, PartialEq, Eq)]
pub struct MenuItem {
    pub label: MenuLabel,
    pub action: SongAction,
}

pub enum SongActionView {
    ViewArtist(Seq<char>),
    ViewAlbum(Seq<char>),
    CopyLink(Seq<char>),
}

pub enum MenuLabelView {
    ViewAlbum,
    MoreFrom(Seq<char>),
    CopyLink,
}

impl View for SongAction {
    type V = SongActionView;

    open spec fn view(&self) -> SongActionView {
        match self {
            SongAction::ViewArtist(s) => SongActionView::ViewArtist(s@),
            SongAction::ViewAlbum(s) => SongActionView::ViewAlbum(s@),
            SongAction::CopyLink(s) => SongActionView::CopyLink(s@),
        }
    }
}

impl View for MenuItem {
    type V = (MenuLabelView, SongActionView);

    open spec fn view(&self) -> (MenuLabelView, SongActionView) {
        (
            match self.label {
                MenuLabel::ViewAlbum => MenuLabelView::ViewAlbum,
                MenuLabel::MoreFrom(s) => MenuLabelView::MoreFrom(s@),
                MenuLabel::CopyLink => MenuLabelView::CopyLink,
            },
            self.action@,
        )
    }
}

/// The actions offered for a song: view each artist, view the album, copy
/// the link.
pub open spec fn song_actions_spec(s: SongView) -> Seq<SongActionView> {
    s.artists.map_values(|a: (Seq<char>, Seq<char>)| SongActionView::ViewArtist(a.0)) + seq![
        SongActionView::ViewAlbum(s.album.0),
        SongActionView::CopyLink(s.id),
    ]
}

/// The menu of a song: view the album, "more from" each artist, copy the link.
pub open spec fn song_menu_spec(s: SongView) -> Seq<(MenuLabelView, SongActionView)> {
    seq![(MenuLabelView::ViewAlbum, SongActionView::ViewAlbum(s.album.0))] + s.artists.map_values(
        |a: (Seq<char>, Seq<char>)| (MenuLabelView::MoreFrom(a.1), SongActionView::ViewArtist(a.0)),
    ) + seq![(MenuLabelView::CopyLink, SongActionView::CopyLink(s.id))]
}

/// The views of a sequence of song actions.
pub open spec fn song_actions_view(v: Seq<SongAction>) -> Seq<SongActionView> {
    v.map_values(|a: SongAction| a@)
}

/// The views of a sequence of menu entries.
pub open spec fn menu_view(v: Seq<MenuItem>) -> Seq<(MenuLabelView, SongActionView)> {
    v.map_values(|m: MenuItem| m@)
}

/// The actions offered for `song`.
pub fn song_actions(song: &SongDescription) -> (r: Vec<SongAction>)
    ensures
        song_actions_view(r@) == song_actions_spec(song@),
{
    let mut r: Vec<SongAction> = Vec::new();
    let mut i: usize = 0;
    while i < song.artists.len()
        invariant
            i <= song.artists@.len(),
            r@.len() == i,
            forall|j: int|
                0 <= j < i ==> (#[trigger] r@[j])@ == SongActionView::ViewArtist(song.artists@[j].id@),
        decreases song.artists@.len() - i,
    {
        r.push(SongAction::ViewArtist(song.artists[i].id.clone()));
        i = i + 1;
    }
    r.push(SongAction::ViewAlbum(song.album.id.clone()));
    r.push(SongAction::CopyLink(song.id.clone()));
    assert(song_actions_view(r@) =~= song_actions_spec(song@));
    r
}

/// The context menu of `song`.
pub fn song_menu(song: &SongDescription) -> (r: Vec<MenuItem>)
    ensures
        menu_view(r@) == song_menu_spec(song@),
{
    let mut r: Vec<MenuItem> = Vec::new();
    r.push(MenuItem { label: MenuLabel::ViewAlbum, action: SongAction::ViewAlbum(song.album.id.clone()) });
    let mut i: usize = 0;
    while i < song.artists.len()
        invariant
            i <= song.artists@.len(),
            r@.len() == i + 1,
            r@[0]@ == (MenuLabelView::ViewAlbum, SongActionView::ViewAlbum(song.album.id@)),
            forall|j: int|
                1 <= j <= i ==> (#[trigger] r@[j])@ == (
                    MenuLabelView::MoreFrom(song.artists@[j - 1].name@),
                    SongActionView::ViewArtist(song.artists@[j - 1].id@),
                ),
        decreases song.artists@.len() - i,
    {
        r.push(
            MenuItem {
                label: MenuLabel::MoreFrom(song.artists[i].name.clone()),
                action: SongAction::ViewArtist(song.artists[i].id.clone()),
            },
        );
        i = i + 1;
    }
    r.push(MenuItem { label: MenuLabel::CopyLink, action: SongAction::CopyLink(song.id.clone()) });
    assert(menu_view(r@) =~= song_menu_spec(song@));
    r
}

} // verus!
