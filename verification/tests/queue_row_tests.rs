use amberol::queue_row::QueueRow;

#[test]
fn new_row_shows_details() {
    let row = QueueRow::new();
    assert_eq!(row.song_title(), "");
    assert_eq!(row.song_artist(), "");
    assert!(!row.playing());
    assert_eq!(row.cover_page(), "no-cover");
}

#[test]
fn playing_roundtrip() {
    let mut row = QueueRow::new();
    row.set_playing(true);
    assert!(row.playing());
    row.set_playing(false);
    assert!(!row.playing());
}

#[test]
fn title_artist_and_cover() {
    let mut row = QueueRow::new();
    row.set_song_title("Title".to_string());
    row.set_song_artist("Artist".to_string());
    row.set_song_cover(true);
    assert_eq!(row.song_title(), "Title");
    assert_eq!(row.song_artist(), "Artist");
    assert_eq!(row.cover_page(), "cover");
    row.set_song_cover(false);
    assert_eq!(row.cover_page(), "no-cover");
}

#[test]
fn row_pages() {
    let mut row = QueueRow::new();
    assert_eq!(row.row_page(), "song-details");
    row.set_playing(true);
    assert_eq!(row.row_page(), "currently-playing");
}
