use files_please::cache::{DirectoryViewState, DirectoryViews};
use files_please::directory::{Entries, Entry, EntryKind};
use files_please::pane::DirectoryView;

fn text(s: &str) -> String {
    String::from(s)
}

fn pane(path: &str, names: &[&str]) -> DirectoryView {
    DirectoryView::from(&Entries {
        absolute_path: text(path),
        entries: names.iter().map(|name| Entry::new(EntryKind::File, text(name))).collect(),
    })
}

#[test]
fn new_cache_holds_nothing() {
    let views = DirectoryViews::new();
    assert_eq!(views.len(), 0);
    assert_eq!(views.is_active(&text("/")), None);
}

#[test]
fn insert_replaces_and_insert_if_absent_does_not() {
    let mut views = DirectoryViews::new();
    views.insert(text("/a"), DirectoryViewState::Active);
    views.insert_if_absent(text("/a"), DirectoryViewState::Inactive(pane("/a", &["x"])));
    assert_eq!(views.is_active(&text("/a")), Some(true));
    assert_eq!(views.len(), 1);

    views.insert_if_absent(text("/b"), DirectoryViewState::Inactive(pane("/b", &["y"])));
    assert_eq!(views.is_active(&text("/b")), Some(false));
    assert_eq!(views.len(), 2);

    views.insert(text("/b"), DirectoryViewState::Active);
    assert_eq!(views.is_active(&text("/b")), Some(true));
    assert_eq!(views.is_active(&text("/a")), Some(true));
    assert_eq!(views.len(), 2);
}

#[test]
fn remove_hands_out_what_was_held() {
    let mut views = DirectoryViews::new();
    views.insert(text("/a"), DirectoryViewState::Inactive(pane("/a", &["x", "y"])));
    views.insert(text("/b"), DirectoryViewState::Active);
    match views.remove(&text("/a")) {
        Some(DirectoryViewState::Inactive(held)) => {
            assert_eq!(held.dir(), "/a");
            assert_eq!(held.len(), 2);
        }
        other => panic!("not the pane that was held: {:?}", other),
    }
    assert_eq!(views.is_active(&text("/a")), None);
    assert_eq!(views.is_active(&text("/b")), Some(true));
    assert_eq!(views.len(), 1);
    assert!(views.remove(&text("/a")).is_none());
    assert!(matches!(views.remove(&text("/b")), Some(DirectoryViewState::Active)));
    assert_eq!(views.len(), 0);
}

#[test]
fn from_gives_the_pane_that_from_entries_gives() {
    let listing = Entries {
        absolute_path: text("/a"),
        entries: vec![Entry::new(EntryKind::Dir, text("x"))],
    };
    let one = DirectoryView::from(&listing);
    let other = DirectoryView::from_entries(&listing);
    assert_eq!(format!("{:?}", one), format!("{:?}", other));
    assert_eq!(one.len(), 1);
    assert_eq!(one.row(0).entry.kind, EntryKind::Dir);
    assert_eq!(one.selected_index(), None);
}
