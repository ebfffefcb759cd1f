use kuna_decomp::comments::{CommentDatabase, WARNING, WARNINGHEADER};
use kuna_decomp::space::Address;

fn at(offset: u64) -> Address {
    Address { space: Some(1), offset }
}

#[test]
fn a_warning_is_stored_once() {
    let mut db = CommentDatabase::new();
    assert!(db.add_comment_no_duplicate(WARNING, &at(16), &at(20), "WARNING: odd"));
    assert!(!db.add_comment_no_duplicate(WARNINGHEADER, &at(16), &at(20), "WARNING: odd"));
    assert!(db.add_comment_no_duplicate(WARNING, &at(16), &at(24), "WARNING: odd"));
    assert!(db.add_comment_no_duplicate(WARNING, &at(32), &at(20), "WARNING: odd"));
    assert!(db.add_comment_no_duplicate(WARNING, &at(16), &at(20), "WARNING: other"));
    let texts: Vec<(u32, u64, &str)> =
        db.comments().iter().map(|c| (c.tp, c.addr.offset, c.text.as_str())).collect();
    assert_eq!(
        texts,
        vec![
            (WARNING, 20, "WARNING: odd"),
            (WARNING, 24, "WARNING: odd"),
            (WARNING, 20, "WARNING: odd"),
            (WARNING, 20, "WARNING: other"),
        ]
    );
}

#[test]
fn a_comment_can_be_stored_twice() {
    let mut db = CommentDatabase::default();
    db.add_comment(8, &at(16), &at(20), "note");
    db.add_comment(8, &at(16), &at(20), "note");
    assert_eq!(db.comments().len(), 2);
    assert!(!db.add_comment_no_duplicate(8, &at(16), &at(20), "note"));
}

#[test]
fn comments_are_kept_or_dropped() {
    let mut db = CommentDatabase::new();
    for i in 0..4 {
        db.add_comment(1, &at(0), &at(i), "c");
    }
    db.retain_comments(&vec![true, false, false, true]);
    let left: Vec<u64> = db.comments().iter().map(|c| c.addr.offset).collect();
    assert_eq!(left, vec![0, 3]);
    db.clear();
    assert!(db.comments().is_empty());
}

#[test]
fn kept_warnings_stay_different() {
    let mut db = CommentDatabase::new();
    for (i, text) in [(0, "a"), (0, "b"), (1, "a"), (1, "b")] {
        assert!(db.add_comment_no_duplicate(WARNING, &at(0), &at(i), text));
    }
    db.retain_comments(&vec![true, false, true, true]);
    let left: Vec<(u64, &str)> =
        db.comments().iter().map(|c| (c.addr.offset, c.text.as_str())).collect();
    assert_eq!(left, vec![(0, "a"), (1, "a"), (1, "b")]);
    assert!(!db.add_comment_no_duplicate(WARNING, &at(0), &at(1), "b"));
    assert!(db.add_comment_no_duplicate(WARNING, &at(0), &at(0), "b"));
}
