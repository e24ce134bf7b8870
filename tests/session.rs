use kanso::writing::{Error, Version, Writing};
use std::io::ErrorKind;

fn open(path: &str, text: Option<&str>) -> Writing {
    match Writing::load(path.to_string(), Ok(text.map(|t| t.to_string()))) {
        Ok(w) => w,
        Err(_) => panic!("load failed"),
    }
}

#[test]
fn version_counts_every_edit() {
    let mut w = open("notes.txt", None);
    assert_eq!(w.version(), Version(0));
    w.write('a');
    w.write('b');
    w.amend();
    w.amend();
    w.amend();
    assert_eq!(w.version(), Version(5));
    assert_eq!(w.content(), "");
}

#[test]
fn delete_on_empty_still_advances_version() {
    let mut w = open("empty.txt", None);
    w.amend();
    assert_eq!(w.content(), "");
    assert_eq!(w.version(), Version(1));
    assert!(w.is_dirty());
}

#[test]
fn write_appends_and_amend_removes_last() {
    let mut w = open("draft.txt", Some("ab"));
    w.write('c');
    assert_eq!(w.content(), "abc");
    w.amend();
    assert_eq!(w.content(), "ab");
    w.write('é');
    assert_eq!(w.content(), "abé");
    w.amend();
    assert_eq!(w.content(), "ab");
}

#[test]
fn dirty_only_between_edit_and_save() {
    let mut w = open("story.txt", Some("hello"));
    assert!(!w.is_dirty());
    w.write('!');
    assert!(w.is_dirty());
    let req = w.save();
    assert!(!w.is_dirty());
    assert_eq!(req.version, Version(1));
    assert_eq!(req.content, "hello!");
    assert_eq!(req.filepath, "story.txt");
    w.amend();
    assert!(w.is_dirty());
    let req = w.save();
    assert_eq!(req.version, Version(2));
    assert_eq!(req.content, "hello");
    assert!(!w.is_dirty());
}

#[test]
fn save_then_load_round_trip() {
    let mut w = open("round.txt", Some("first line"));
    for c in "\nsecond".chars() {
        w.write(c);
    }
    let req = w.save();
    let again = open(&req.filepath, Some(&req.content));
    assert_eq!(again.content(), "first line\nsecond");
    assert_eq!(again.filepath(), "round.txt");
    assert!(!again.is_dirty());
    assert_eq!(again.version(), Version(0));
}

#[test]
fn missing_file_loads_as_empty_document() {
    let w = open("does/not/exist.txt", None);
    assert_eq!(w.content(), "");
    assert_eq!(w.filepath(), "does/not/exist.txt");
    assert_eq!(w.word_count(), 0);
    assert_eq!(w.word_count_difference(), 0);
    assert!(!w.is_dirty());
}

#[test]
fn read_failure_is_an_io_error() {
    let r = Writing::load("locked.txt".to_string(), Err(ErrorKind::PermissionDenied));
    assert!(matches!(r, Err(Error::IOFailed(ErrorKind::PermissionDenied))));
}

#[test]
fn word_count_delta_up_and_down() {
    let mut w = open("words.txt", Some("a b c d e f g h i j"));
    assert_eq!(w.word_count(), 10);
    assert_eq!(w.word_count_difference(), 0);
    for c in " k l m".chars() {
        w.write(c);
    }
    assert_eq!(w.word_count(), 13);
    assert_eq!(w.word_count_difference(), 3);
    for _ in 0..10 {
        w.amend();
    }
    assert_eq!(w.content(), "a b c d e f g h");
    assert_eq!(w.word_count(), 8);
    assert_eq!(w.word_count_difference(), -2);
    assert_eq!(w.checked_word_count_difference(), Some(-2));
}

#[test]
fn word_count_follows_unicode_segmentation() {
    let w = open("quote.txt", Some("The quick (\"brown\") fox can't jump 32.3 feet, right?"));
    assert_eq!(w.word_count(), 9);
    let punct = open("punct.txt", Some("... !!! ---"));
    assert_eq!(punct.word_count(), 0);
}

#[test]
fn room_for_edit_on_fresh_session() {
    let w = open("room.txt", None);
    assert!(w.has_room_for_edit());
}

#[test]
fn created_session_is_empty_and_dirty() {
    let w = Writing::create("fresh.txt".to_string());
    assert_eq!(w.content(), "");
    assert_eq!(w.filepath(), "fresh.txt");
    assert_eq!(w.version(), Version(1));
    assert!(w.is_dirty());
    assert_eq!(w.word_count_difference(), 0);
}
