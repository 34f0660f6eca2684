use amberol::folder::{folder_entry_action, queue_order, sort_key, string_lt, EntryAction, FileKind};

#[test]
fn entry_actions() {
    assert_eq!(folder_entry_action(FileKind::Directory, true, false), EntryAction::Descend);
    assert_eq!(folder_entry_action(FileKind::Directory, false, false), EntryAction::Skip);
    assert_eq!(folder_entry_action(FileKind::Regular, false, true), EntryAction::Enqueue);
    assert_eq!(folder_entry_action(FileKind::Regular, true, true), EntryAction::Enqueue);
    assert_eq!(folder_entry_action(FileKind::Regular, true, false), EntryAction::Skip);
    assert_eq!(folder_entry_action(FileKind::Other, true, true), EntryAction::Skip);
}

#[test]
fn sort_keys() {
    assert_eq!(sort_key("Album", "01 - Intro.ogg"), "Album-01 - Intro.ogg");
    assert_eq!(sort_key("", ""), "-");
}

#[test]
fn string_order_matches_std() {
    let words = ["", "a", "b", "ab", "abc", "abd", "B", "é", "z", "Ω", "a-b"];
    for x in words {
        for y in words {
            assert_eq!(string_lt(&x.to_string(), &y.to_string()), x < y, "{} {}", x, y);
        }
    }
}

#[test]
fn queue_order_sorts_by_key() {
    let keys: Vec<String> = ["b-2", "a-9", "b-10", "a-1"].iter().map(|s| s.to_string()).collect();
    assert_eq!(queue_order(&keys), vec![3, 1, 2, 0]);
}

#[test]
fn queue_order_is_stable() {
    let keys: Vec<String> = ["x", "a", "x", "a", "x"].iter().map(|s| s.to_string()).collect();
    assert_eq!(queue_order(&keys), vec![1, 3, 0, 2, 4]);
}

#[test]
fn queue_order_matches_std_stable_sort() {
    let keys: Vec<String> = ["Disc 2-03.flac", "Disc 1-10.flac", "Disc 1-02.flac", "Disc 2-01.flac", "Disc 1-02.flac"]
        .iter()
        .map(|s| s.to_string())
        .collect();
    let mut expected: Vec<usize> = (0..keys.len()).collect();
    expected.sort_by(|a, b| keys[*a].partial_cmp(&keys[*b]).unwrap());
    assert_eq!(queue_order(&keys), expected);
}

#[test]
fn queue_order_empty() {
    assert_eq!(queue_order(&Vec::new()), Vec::<usize>::new());
}
