use files_please::directory::{DirItem, Entries, Entry, EntryKind, FileKind};
use files_please::exit::{exit_code, Failure, EXIT_CODE_OK};
use files_please::theme::{Color, Theme};
use files_please::ui::TasksView;
use files_please::draw::{DrawCommand, Region};

fn item(name: Option<&str>, kind: Option<FileKind>) -> DirItem {
    DirItem { name: name.map(String::from), kind }
}

#[test]
fn entry_new_keeps_kind_and_name() {
    let entry = Entry::new(EntryKind::Dir, String::from("src"));
    assert_eq!(entry.kind, EntryKind::Dir);
    assert_eq!(entry.name, "src");
    let copy = entry.clone();
    assert_eq!(copy.kind, EntryKind::Dir);
    assert_eq!(copy.name, "src");
}

#[test]
fn listing_keeps_directories_and_files_in_order() {
    let listing = Entries::new(
        String::from("/srv"),
        vec![
            item(Some("b"), Some(FileKind::File)),
            item(Some("a"), Some(FileKind::Dir)),
            item(Some("c"), Some(FileKind::File)),
        ],
    );
    assert_eq!(listing.absolute_path, "/srv");
    let listed: Vec<(EntryKind, &str)> =
        listing.entries.iter().map(|entry| (entry.kind, entry.name.as_str())).collect();
    assert_eq!(
        listed,
        vec![(EntryKind::File, "b"), (EntryKind::Dir, "a"), (EntryKind::File, "c")]
    );
}

#[test]
fn listing_leaves_out_what_is_neither_directory_nor_file() {
    let listing = Entries::new(
        String::from("/dev"),
        vec![
            item(Some("link"), Some(FileKind::Other)),
            item(Some("disk"), Some(FileKind::File)),
            item(Some("unknown"), None),
            item(None, Some(FileKind::Dir)),
            item(None, Some(FileKind::File)),
            item(None, None),
            item(Some("pts"), Some(FileKind::Dir)),
        ],
    );
    let listed: Vec<(EntryKind, &str)> =
        listing.entries.iter().map(|entry| (entry.kind, entry.name.as_str())).collect();
    assert_eq!(listed, vec![(EntryKind::File, "disk"), (EntryKind::Dir, "pts")]);
}

#[test]
fn listing_of_nothing_is_empty() {
    let listing = Entries::new(String::from("/empty"), vec![]);
    assert_eq!(listing.absolute_path, "/empty");
    assert!(listing.entries.is_empty());
}

#[test]
fn exit_codes_differ_and_none_is_ok() {
    let failures = [
        Failure::Init,
        Failure::WorkingDirectory,
        Failure::Display,
        Failure::Font,
        Failure::EventSource,
    ];
    for (i, one) in failures.iter().enumerate() {
        assert_ne!(exit_code(*one), EXIT_CODE_OK);
        for other in failures.iter().skip(i + 1) {
            assert_ne!(exit_code(*one), exit_code(*other));
        }
    }
    assert_eq!(EXIT_CODE_OK, 0);
    assert_eq!(exit_code(Failure::Init), 1);
    assert_eq!(exit_code(Failure::WorkingDirectory), 2);
    assert_eq!(exit_code(Failure::Display), 3);
    assert_eq!(exit_code(Failure::Font), 4);
    assert_eq!(exit_code(Failure::EventSource), 5);
}

#[test]
fn rgb_is_opaque() {
    assert_eq!(Color::rgb(1, 2, 3), Color { r: 1, g: 2, b: 3, a: 255 });
}

#[test]
fn default_theme_has_the_standard_colours() {
    let theme = Theme::default();
    assert_eq!(theme.active, Color::rgb(90, 90, 90));
    assert_eq!(theme.inactive, Color::rgb(70, 70, 70));
    assert_eq!(theme.tasks, Color::rgb(45, 200, 155));
    assert_eq!(theme.text, Color::rgb(22, 255, 44));
    assert_eq!(theme.cursor, Color::rgb(70, 50, 122));
    assert_eq!(theme.header, Color::rgb(250, 250, 250));
    assert_eq!(theme.selected, Color::rgb(250, 120, 0));
    assert_eq!(theme.scrollbar, Color::rgb(180, 180, 180));
    assert_eq!(theme.byte, Color::rgb(100, 160, 20));
    assert_eq!(theme.kilo, Color::rgb(140, 160, 20));
    assert_eq!(theme.mega, Color::rgb(180, 160, 20));
    assert_eq!(theme.giga, Color::rgb(240, 160, 20));
}

#[test]
fn tasks_view_starts_empty_and_fills_its_region() {
    let tasks = TasksView::new();
    assert!(tasks.tasks.is_empty());
    let plan = tasks.render(Region { x: 0, y: 400, w: 800, h: 200 }, Color::rgb(45, 200, 155));
    assert_eq!(plan.len(), 1);
    match &plan[0] {
        DrawCommand::Fill { colour, x, y, w, h } => {
            assert_eq!(*colour, Color::rgb(45, 200, 155));
            assert_eq!((*x, *y, *w, *h), (0, 400, 800, 200));
        }
        other => panic!("not a fill: {:?}", other),
    }
}

#[test]
fn a_copy_of_a_listing_holds_the_same() {
    let listing = Entries::new(
        String::from("/srv"),
        vec![item(Some("b"), Some(FileKind::File)), item(Some("a"), Some(FileKind::Dir))],
    );
    let copy = listing.clone();
    assert_eq!(copy.absolute_path, "/srv");
    assert_eq!(format!("{:?}", copy), format!("{:?}", listing));
    assert_eq!(copy.entries.len(), 2);
}
