use music_player::ui::{file_name, list_row, StatefulList, Tabstatus};

#[test]
fn moves_wrap_around_list() {
    let mut list = StatefulList::with_items(vec![10, 20, 30]);
    assert_eq!(list.selected(), None);
    list.next();
    assert_eq!(list.selected(), Some(0));
    list.previous();
    assert_eq!(list.selected(), Some(2));
    list.next();
    assert_eq!(list.selected(), Some(0));
    list.next();
    list.next();
    assert_eq!(list.selected(), Some(2));
    list.next();
    assert_eq!(list.selected(), Some(0));
}

#[test]
fn first_step_up_lands_on_first_entry() {
    let mut list = StatefulList::with_items(vec!['a', 'b']);
    list.previous();
    assert_eq!(list.selected(), Some(0));
}

#[test]
fn many_moves_stay_in_range() {
    let mut list = StatefulList::with_items(vec![1u8; 5]);
    for step in 0..200u32 {
        if step % 3 == 0 {
            list.previous();
        } else {
            list.next();
        }
        let i = list.selected().unwrap();
        assert!(i < 5);
    }
}

#[test]
fn moves_on_empty_list_do_nothing() {
    let mut list: StatefulList<u8> = StatefulList::with_items(Vec::new());
    for _ in 0..3 {
        list.next();
        list.previous();
    }
    assert_eq!(list.selected(), None);
}

#[test]
fn tab_status_wraps() {
    let mut tabs = Tabstatus::new(vec!["one", "two", "three"]);
    assert_eq!(tabs.index, 0);
    tabs.previous();
    assert_eq!(tabs.index, 2);
    tabs.next();
    assert_eq!(tabs.index, 0);
    tabs.next();
    assert_eq!(tabs.index, 1);
    tabs.previous();
    assert_eq!(tabs.index, 0);
}

#[test]
fn file_name_is_text_after_last_slash() {
    assert_eq!(file_name("/home/u/music/song.mp3"), "song.mp3");
    assert_eq!(file_name("song.mp3"), "song.mp3");
    assert_eq!(file_name("/music/"), "");
    assert_eq!(file_name(""), "");
}

#[test]
fn list_row_pads_to_width() {
    assert_eq!(list_row("/music/song.mp3", 185_000, 20), "song.mp3       03:05");
    assert_eq!(list_row("/music/song.mp3", 185_000, 20).len(), 20);
}

#[test]
fn list_row_without_room_has_no_padding() {
    assert_eq!(list_row("/music/song.mp3", 185_000, 5), "song.mp303:05");
}

#[test]
fn list_row_counts_wide_characters_twice() {
    // Each of the two ideographs takes two columns.
    assert_eq!(list_row("/m/\u{6B4C}\u{66F2}.mp3", 1_000, 15), "\u{6B4C}\u{66F2}.mp3  00:01");
}
