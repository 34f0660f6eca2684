//! A row of the play queue: the song's title and artist, whether it shows a
//! cover, and whether it is the song currently playing.
use vstd::prelude::*;

verus! {

/// The page of the row shown for the song that is playing.
pub open spec fn playing_page() -> Seq<char> {
    seq!['c', 'u', 'r', 'r', 'e', 'n', 't', 'l', 'y', '-', 'p', 'l', 'a', 'y', 'i', 'n', 'g']
}

/// The page of the row shown for every other song.
pub open spec fn details_page() -> Seq<char> {
    seq!['s', 'o', 'n', 'g', '-', 'd', 'e', 't', 'a', 'i', 'l', 's']
}

/// The page of the cover area when the song has a cover.
pub open spec fn cover_page() -> Seq<char> {
    seq!['c', 'o', 'v', 'e', 'r']
}

/// The page of the cover area when the song has none.
pub open spec fn no_cover_page() -> Seq<char> {
    seq!['n', 'o', '-', 'c', 'o', 'v', 'e', 'r']
}

/// The page the row shows, depending on whether its song is playing.
pub open spec fn row_page(playing: bool) -> Seq<char> {
    if playing {
        playing_page()
    } else {
        details_page()
    }
}

/// The page the cover area shows, depending on whether the song has a cover.
pub open spec fn cover_area_page(has_cover: bool) -> Seq<char> {
    if has_cover {
        cover_page()
    } else {
        no_cover_page()
    }
}

fn playing_page_name() -> (name: String)
    ensures
        name@ == playing_page(),
{
    let name = "currently-playing".to_owned();
    proof { reveal_strlit("currently-playing"); }
    assert(name@ =~= playing_page());
    name
}

fn details_page_name() -> (name: String)
    ensures
        name@ == details_page(),
{
    let name = "song-details".to_owned();
    proof { reveal_strlit("song-details"); }
    assert(name@ =~= details_page());
    name
}

/// A row of the play queue.
#[derive(Debug)]
pub struct QueueRow {
    song_title: String,
    song_artist: String,
    row_page: String,
    cover_page: String,
}

impl QueueRow {
    /// The title shown.
    pub closed spec fn spec_song_title(&self) -> Seq<char> {
        self.song_title@
    }

    /// The artist shown.
    pub closed spec fn spec_song_artist(&self) -> Seq<char> {
        self.song_artist@
    }

    /// The page the row shows.
    pub closed spec fn spec_row_page(&self) -> Seq<char> {
        self.row_page@
    }

    /// The page the cover area shows.
    pub closed spec fn spec_cover_page(&self) -> Seq<char> {
        self.cover_page@
    }

    /// An empty row showing song details without a cover.
    pub fn new() -> (row: Self)
        ensures
            row.spec_song_title() == Seq::<char>::empty(),
            row.spec_song_artist() == Seq::<char>::empty(),
            row.spec_row_page() == details_page(),
            row.spec_cover_page() == no_cover_page(),
    {
        let cover_page = "no-cover".to_owned();
        proof { reveal_strlit("no-cover"); }
        assert(cover_page@ =~= no_cover_page());
        QueueRow {
            song_title: String::new(),
            song_artist: String::new(),
            row_page: details_page_name(),
            cover_page,
        }
    }

    /// Sets the title shown.
    pub fn set_song_title(&mut self, title: String)
        ensures
            final(self).spec_song_title() == title@,
            final(self).spec_song_artist() == old(self).spec_song_artist(),
            final(self).spec_row_page() == old(self).spec_row_page(),
            final(self).spec_cover_page() == old(self).spec_cover_page(),
    {
        self.song_title = title;
    }

    /// Sets the artist shown.
    pub fn set_song_artist(&mut self, artist: String)
        ensures
            final(self).spec_song_artist() == artist@,
            final(self).spec_song_title() == old(self).spec_song_title(),
            final(self).spec_row_page() == old(self).spec_row_page(),
            final(self).spec_cover_page() == old(self).spec_cover_page(),
    {
        self.song_artist = artist;
    }

    /// The title shown.
    pub fn song_title(&self) -> (title: String)
        ensures
            title@ == self.spec_song_title(),
    {
        self.song_title.clone()
    }

    /// The artist shown.
    pub fn song_artist(&self) -> (artist: String)
        ensures
            artist@ == self.spec_song_artist(),
    {
        self.song_artist.clone()
    }

    /// Marks the row as the song that is playing, or not.
    pub fn set_playing(&mut self, playing: bool)
        ensures
            final(self).spec_row_page() == row_page(playing),
            final(self).spec_song_title() == old(self).spec_song_title(),
            final(self).spec_song_artist() == old(self).spec_song_artist(),
            final(self).spec_cover_page() == old(self).spec_cover_page(),
    {
        if playing {
            self.row_page = playing_page_name();
        } else {
            self.row_page = details_page_name();
        }
    }

    /// Whether the row shows the song as playing.
    pub fn playing(&self) -> (playing: bool)
        ensures
            playing == (self.spec_row_page() == playing_page()),
    {
        self.row_page == playing_page_name()
    }

    /// The page the row shows.
    pub fn row_page(&self) -> (page: String)
        ensures
            page@ == self.spec_row_page(),
    {
        self.row_page.clone()
    }

    /// Shows the cover area for a song with or without a cover.
    pub fn set_song_cover(&mut self, has_cover: bool)
        ensures
            final(self).spec_cover_page() == cover_area_page(has_cover),
            final(self).spec_song_title() == old(self).spec_song_title(),
            final(self).spec_song_artist() == old(self).spec_song_artist(),
            final(self).spec_row_page() == old(self).spec_row_page(),
    {
        if has_cover {
            let page = "cover".to_owned();
            proof { reveal_strlit("cover"); }
            assert(page@ =~= cover_page());
            self.cover_page = page;
        } else {
            let page = "no-cover".to_owned();
            proof { reveal_strlit("no-cover"); }
            assert(page@ =~= no_cover_page());
            self.cover_page = page;
        }
    }

    /// The page the cover area shows.
    pub fn cover_page(&self) -> (page: String)
        ensures
            page@ == self.spec_cover_page(),
    {
        self.cover_page.clone()
    }
}

/// Reading whether a row plays gives back what was last set.
pub proof fn lemma_playing_roundtrip(playing: bool)
    ensures
        (row_page(playing) == playing_page()) == playing,
{
    if !playing {
        assert(details_page().len() != playing_page().len());
    }
}

/// Clearing the playing mark brings back the page a new row starts with, the
/// song details; and the row's pages are never those of the cover area.
pub proof fn lemma_not_playing_shows_details(playing: bool)
    ensures
        row_page(false) == details_page(),
        row_page(playing) != cover_page(),
        row_page(playing) != no_cover_page(),
        row_page(true) != row_page(false),
{
    assert(playing_page().len() != cover_page().len());
    assert(playing_page().len() != no_cover_page().len());
    assert(details_page().len() != cover_page().len());
    assert(details_page()[0] != no_cover_page()[0]);
    assert(details_page().len() != playing_page().len());
}

} // verus!
