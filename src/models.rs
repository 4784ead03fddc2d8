use vstd::prelude::*;

verus! {

/// An artist credited on a song.
#[derive(Debug, PartialEq, Eq)]
pub struct ArtistRef {
    pub id: String,
    pub name: String,
}

/// The album a song belongs to.
#[derive(Debug, PartialEq, Eq)]
pub struct AlbumRef {
    pub id: String,
    pub name: String,
}

/// An immutable song record; its identity is its id.
#[derive(Debug, PartialEq, Eq)]
pub struct SongDescription {
    pub id: String,
    pub title: String,
    pub artists: Vec<ArtistRef>,
    pub album: AlbumRef,
    pub duration: u32,
}

/// What a song record holds, as mathematical values.
pub struct SongView {
    pub id: Seq<char>,
    pub title: Seq<char>,
    /// (id, name) of each artist, in order.
    pub artists: Seq<(Seq<char>, Seq<char>)>,
    /// (id, name) of the album.
    pub album: (Seq<char>, Seq<char>),
    pub duration: u32,
}

impl View for ArtistRef {
    type V = (Seq<char>, Seq<char>);

    open spec fn view(&self) -> (Seq<char>, Seq<char>) {
        (self.id@, self.name@)
    }
}

impl View for SongDescription {
    type V = SongView;

    open spec fn view(&self) -> SongView {
        SongView {
            id: self.id@,
            title: self.title@,
            artists: self.artists@.map_values(|a: ArtistRef| a@),
            album: (self.album.id@, self.album.name@),
            duration: self.duration,
        }
    }
}

/// The views of a sequence of songs.
pub open spec fn songs_view(s: Seq<SongDescription>) -> Seq<SongView> {
    s.map_values(|x: SongDescription| x@)
}

impl Clone for ArtistRef {
    fn clone(&self) -> (r: Self)
        ensures
            r@ == self@,
    {
        ArtistRef { id: self.id.clone(), name: self.name.clone() }
    }
}

impl Clone for AlbumRef {
    fn clone(&self) -> (r: Self)
        ensures
            r.id@ == self.id@,
            r.name@ == self.name@,
    {
        AlbumRef { id: self.id.clone(), name: self.name.clone() }
    }
}

impl Clone for SongDescription {
    fn clone(&self) -> (r: Self)
        ensures
            r@ == self@,
    {
        let mut artists: Vec<ArtistRef> = Vec::new();
        let mut i: usize = 0;
        while i < self.artists.len()
            invariant
                i <= self.artists@.len(),
                artists@.len() == i,
                forall|j: int| 0 <= j < i ==> #[trigger] artists@[j]@ == self.artists@[j]@,
            decreases self.artists@.len() - i,
        {
            artists.push(self.artists[i].clone());
            i = i + 1;
        }
        let r = SongDescription {
            id: self.id.clone(),
            title: self.title.clone(),
            artists,
            album: self.album.clone(),
            duration: self.duration,
        };
        assert(r@.artists =~= self@.artists);
        r
    }
}

/// Copies a list of songs, keeping what every record holds.
pub fn clone_songs(songs: &Vec<SongDescription>) -> (r: Vec<SongDescription>)
    ensures
        songs_view(r@) == songs_view(songs@),
{
    let mut r: Vec<SongDescription> = Vec::new();
    let mut i: usize = 0;
    while i < songs.len()
        invariant
            i <= songs@.len(),
            r@.len() == i,
            forall|j: int| 0 <= j < i ==> #[trigger] r@[j]@ == songs@[j]@,
        decreases songs@.len() - i,
    {
        r.push(songs[i].clone());
        i = i + 1;
    }
    assert(songs_view(r@) =~= songs_view(songs@));
    r
}

/// Describes one page of a paginated list: where it starts, how many items
/// were asked for, the list's total length where known, and how many items the
/// page brought back once it has been fetched.
#[derive(Debug, Clone, Copy, PartialEq, Eq)]
pub struct PaginationCursor {
    pub offset: usize,
    pub batch_size: usize,
    pub total: Option<usize>,
    pub fetched: Option<usize>,
}

/// No page follows `c`: its fetch came back short, the known total is
/// reached, or the next offset would not fit in a `usize`.
pub open spec fn is_last_page(c: PaginationCursor) -> bool {
    ||| (c.fetched is Some && c.fetched->0 < c.batch_size)
    ||| (c.total is Some && c.offset + c.batch_size >= c.total->0)
    ||| c.offset + c.batch_size > usize::MAX
}

/// The page that follows `c`, not yet fetched.
pub open spec fn next_page(c: PaginationCursor) -> Option<PaginationCursor> {
    if is_last_page(c) {
        None
    } else {
        Some(
            PaginationCursor {
                offset: (c.offset + c.batch_size) as usize,
                batch_size: c.batch_size,
                total: c.total,
                fetched: None,
            },
        )
    }
}

/// For a cursor whose next offset fits in a `usize`, no page follows exactly
/// when its fetch came back with fewer songs than asked for, or when the total
/// is known and the next offset reaches it.
pub proof fn lemma_next_none_iff(c: PaginationCursor)
    requires
        c.offset + c.batch_size <= usize::MAX,
    ensures
        next_page(c) is None <==> ((c.fetched is Some && c.fetched->0 < c.batch_size) || (c.total is Some
            && c.offset + c.batch_size >= c.total->0)),
        next_page(c) is Some ==> next_page(c)->0.offset == c.offset + c.batch_size && next_page(c)->0.batch_size
            == c.batch_size,
{
}

impl PaginationCursor {
    /// A cursor for the page at `offset` of `batch_size` items, not yet fetched.
    pub fn new(offset: usize, batch_size: usize, total: Option<usize>) -> (r: Self)
        ensures
            r == (PaginationCursor { offset, batch_size, total, fetched: None }),
    {
        PaginationCursor { offset, batch_size, total, fetched: None }
    }

    /// The next page to fetch, or `None` when this page is the last.
    pub fn next(&self) -> (r: Option<PaginationCursor>)
        ensures
            r == next_page(*self),
    {
        if let Some(f) = self.fetched {
            if f < self.batch_size {
                return None;
            }
        }
        let next_offset = match self.offset.checked_add(self.batch_size) {
            Some(n) => n,
            None => {
                return None;
            },
        };
        if let Some(t) = self.total {
            if next_offset >= t {
                return None;
            }
        }
        Some(PaginationCursor { offset: next_offset, batch_size: self.batch_size, total: self.total, fetched: None })
    }
}

/// A fetched page: its cursor and the songs it brought.
#[derive(Debug, PartialEq, Eq)]
pub struct SongBatch {
    pub batch: PaginationCursor,
    pub songs: Vec<SongDescription>,
}

/// What a page holds, as mathematical values.
pub struct BatchView {
    pub batch: PaginationCursor,
    pub songs: Seq<SongView>,
}

impl View for SongBatch {
    type V = BatchView;

    open spec fn view(&self) -> BatchView {
        BatchView { batch: self.batch, songs: songs_view(self.songs@) }
    }
}

impl SongBatch {
    /// A page never holds more songs than were asked for.
    pub open spec fn wf(&self) -> bool {
        self.songs@.len() <= self.batch.batch_size
    }
}

} // verus!
