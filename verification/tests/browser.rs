use files_please::directory::{Entries, Entry, EntryKind};
use files_please::draw::{DrawCommand, Region};
use files_please::theme::Theme;
use files_please::ui::{Action, Effect, Key, NavRequest, Side, Visit, UI};

fn listing_of(path: &str, names: &[(&str, EntryKind)]) -> Entries {
    Entries {
        absolute_path: String::from(path),
        entries: names.iter().map(|(name, kind)| Entry::new(*kind, String::from(*name))).collect(),
    }
}

fn home() -> Entries {
    listing_of(
        "/home/user",
        &[
            ("docs", EntryKind::Dir),
            ("music", EntryKind::Dir),
            ("notes.txt", EntryKind::File),
            ("todo.txt", EntryKind::File),
            ("zoo", EntryKind::Dir),
        ],
    )
}

fn docs() -> Entries {
    listing_of(
        "/home/user/docs",
        &[("a.pdf", EntryKind::File), ("b.pdf", EntryKind::File), ("c.pdf", EntryKind::File)],
    )
}

fn parent() -> Entries {
    listing_of(
        "/home",
        &[("guest", EntryKind::Dir), ("lost+found", EntryKind::Dir), ("user", EntryKind::Dir)],
    )
}

fn browser() -> UI<u32> {
    UI::new(home(), home())
}

fn text(s: &str) -> String {
    String::from(s)
}

#[test]
fn new_shows_both_listings_with_the_cursor_on_the_first_entry() {
    let ui = browser();
    assert_eq!(ui.active_side(), Side::Left);
    for side in [Side::Left, Side::Right] {
        let pane = ui.directory_view(side);
        assert_eq!(pane.dir(), "/home/user");
        assert_eq!(pane.len(), 5);
        assert_eq!(pane.selected_index(), Some(0));
        assert_eq!(pane.scroll_index(), 0);
        assert_eq!(ui.is_active(side, &text("/home/user")), Some(true));
        assert_eq!(ui.is_active(side, &text("/home")), None);
    }
    assert_eq!(ui.active_dir_path(), "/home/user");
}

#[test]
fn new_on_an_empty_listing_has_no_cursor() {
    let ui: UI<u32> = UI::new(listing_of("/empty", &[]), home());
    assert_eq!(ui.directory_view(Side::Left).selected_index(), None);
    assert_eq!(ui.directory_view(Side::Right).selected_index(), Some(0));
    assert!(ui.hovered_entry().is_none());
}

#[test]
fn commands_go_to_the_active_side_only() {
    let mut ui = browser();
    ui.down(2);
    assert_eq!(ui.directory_view(Side::Left).selected_index(), Some(2));
    assert_eq!(ui.directory_view(Side::Right).selected_index(), Some(0));
    ui.toggle_side();
    assert_eq!(ui.active_side(), Side::Right);
    ui.bottom();
    assert_eq!(ui.directory_view(Side::Left).selected_index(), Some(2));
    assert_eq!(ui.directory_view(Side::Right).selected_index(), Some(4));
    ui.up(1);
    assert_eq!(ui.directory_view(Side::Right).selected_index(), Some(3));
    ui.top();
    assert_eq!(ui.directory_view(Side::Right).selected_index(), Some(0));
    ui.toggle_select();
    assert!(ui.directory_view(Side::Right).row(0).selected);
    assert!(!ui.directory_view(Side::Left).row(0).selected);
    ui.toggle_side();
    assert_eq!(ui.active_side(), Side::Left);
    assert_eq!(ui.active_directory_view().selected_index(), Some(2));
    assert_eq!(ui.hovered_entry().expect("the cursor is on an entry").name, "notes.txt");
}

#[test]
fn toggle_side_touches_no_pane() {
    let mut ui = browser();
    ui.down(3);
    ui.toggle_select();
    ui.toggle_side();
    ui.toggle_side();
    let pane = ui.directory_view(Side::Left);
    assert_eq!(pane.selected_index(), Some(3));
    assert!(pane.row(3).selected);
}

#[test]
fn show_dir_of_a_directory_never_listed_changes_nothing() {
    let mut ui = browser();
    ui.down(1);
    assert_eq!(ui.show_dir(text("/nowhere"), text("")), Visit::NotListed);
    assert_eq!(ui.active_dir_path(), "/home/user");
    assert_eq!(ui.active_directory_view().selected_index(), Some(1));
    assert_eq!(ui.is_active(Side::Left, &text("/nowhere")), None);
    assert_eq!(ui.is_active(Side::Left, &text("/home/user")), Some(true));
}

#[test]
fn show_dir_of_the_directory_on_show_changes_nothing() {
    let mut ui = browser();
    ui.down(1);
    ui.update_dir_entries(listing_of("/home/user", &[("new", EntryKind::File)]));
    assert_eq!(ui.show_dir(text("/home/user"), text("new")), Visit::AlreadyShown);
    assert_eq!(ui.active_directory_view().len(), 5);
    assert_eq!(ui.active_directory_view().selected_index(), Some(1));
    assert_eq!(ui.is_active(Side::Left, &text("/home/user")), Some(true));
}

#[test]
fn show_dir_swaps_the_panes() {
    let mut ui = browser();
    ui.update_dir_entries(docs());
    assert_eq!(ui.is_active(Side::Left, &text("/home/user/docs")), Some(false));
    assert_eq!(ui.is_active(Side::Right, &text("/home/user/docs")), Some(false));
    assert_eq!(ui.show_dir(text("/home/user/docs"), text("")), Visit::Resumed);
    assert_eq!(ui.active_dir_path(), "/home/user/docs");
    assert_eq!(ui.active_directory_view().len(), 3);
    assert_eq!(ui.active_directory_view().selected_index(), Some(0));
    assert_eq!(ui.is_active(Side::Left, &text("/home/user/docs")), Some(true));
    assert_eq!(ui.is_active(Side::Left, &text("/home/user")), Some(false));
    // the other side is as it was
    assert_eq!(ui.directory_view(Side::Right).dir(), "/home/user");
    assert_eq!(ui.is_active(Side::Right, &text("/home/user")), Some(true));
    assert_eq!(ui.is_active(Side::Right, &text("/home/user/docs")), Some(false));
}

#[test]
fn show_dir_puts_the_cursor_on_the_hinted_entry() {
    let mut ui = browser();
    ui.update_dir_entries(parent());
    assert_eq!(ui.show_dir(text("/home"), text("user")), Visit::Resumed);
    assert_eq!(ui.active_directory_view().selected_index(), Some(2));
    assert_eq!(ui.hovered_entry().expect("the cursor is on an entry").name, "user");
}

#[test]
fn show_dir_without_a_matching_hint_starts_at_the_first_entry() {
    let mut ui = browser();
    ui.update_dir_entries(parent());
    ui.update_dir_entries(listing_of("/void", &[]));
    assert_eq!(ui.show_dir(text("/home"), text("nobody")), Visit::Resumed);
    assert_eq!(ui.active_directory_view().selected_index(), Some(0));
    assert_eq!(ui.show_dir(text("/void"), text("nobody")), Visit::Resumed);
    assert_eq!(ui.active_directory_view().selected_index(), None);
}

#[test]
fn going_into_a_directory_and_back_restores_cursor_and_window() {
    let mut ui = browser();
    let _ = ui.render(800, 320);
    // (120 - 48) / 24 = 3 lines
    assert_eq!(ui.active_directory_view().draw_region(), Region { x: 0, y: 0, w: 400, h: 120 });
    ui.down(4);
    ui.toggle_select();
    ui.up(1);
    assert_eq!(ui.active_directory_view().selected_index(), Some(3));
    assert_eq!(ui.active_directory_view().scroll_index(), 2);

    ui.update_dir_entries(docs());
    assert_eq!(ui.show_dir(text("/home/user/docs"), text("")), Visit::Resumed);
    ui.down(2);
    // a listing of the directory left arrives: what is kept wins
    ui.update_dir_entries(listing_of("/home/user", &[("other", EntryKind::File)]));
    assert_eq!(ui.show_dir(text("/home/user"), text("docs")), Visit::Resumed);

    let pane = ui.active_directory_view();
    assert_eq!(pane.dir(), "/home/user");
    assert_eq!(pane.len(), 5);
    assert_eq!(pane.selected_index(), Some(3));
    assert_eq!(pane.scroll_index(), 2);
    assert!(pane.row(4).selected);
    assert!(!pane.row(3).selected);

    // and the directory visited kept its own state
    assert_eq!(ui.show_dir(text("/home/user/docs"), text("a.pdf")), Visit::Resumed);
    assert_eq!(ui.active_directory_view().selected_index(), Some(2));
}

#[test]
fn update_dir_entries_never_replaces_what_is_kept() {
    let mut ui = browser();
    ui.update_dir_entries(docs());
    ui.update_dir_entries(listing_of("/home/user/docs", &[("only", EntryKind::File)]));
    assert_eq!(ui.show_dir(text("/home/user/docs"), text("")), Visit::Resumed);
    assert_eq!(ui.active_directory_view().len(), 3);
    assert_eq!(ui.active_directory_view().row(0).entry.name, "a.pdf");
}

#[test]
fn a_path_is_kept_once_and_the_one_on_show_is_active() {
    let mut ui = browser();
    ui.update_dir_entries(docs());
    ui.update_dir_entries(parent());
    let paths = [text("/home/user"), text("/home/user/docs"), text("/home")];
    let visits = ["/home/user/docs", "/home", "/home/user", "/home", "/home", "/home/user/docs"];
    for target in visits {
        let _ = ui.show_dir(text(target), text(""));
        let on_show = ui.active_dir_path();
        assert_eq!(on_show, target);
        for path in paths.iter() {
            assert_eq!(ui.is_active(Side::Left, path), Some(*path == on_show));
        }
    }
}

#[test]
fn next_asks_for_the_directory_under_the_cursor() {
    let mut ui = browser();
    ui.down(1);
    let request = ui.next().expect("the cursor is on an entry");
    assert_eq!(request.path, "/home/user/music");
    assert_eq!(request.hint, "");
}

#[test]
fn next_without_a_cursor_asks_for_nothing() {
    let ui: UI<u32> = UI::new(listing_of("/empty", &[]), home());
    assert!(ui.next().is_none());
}

#[test]
fn prev_asks_for_the_parent_and_hints_at_the_directory_left() {
    let ui = browser();
    let request = ui.prev();
    assert_eq!(request.path, "/home");
    assert_eq!(request.hint, "user");
}

#[test]
fn prev_at_the_root_stays_at_the_root() {
    let ui: UI<u32> = UI::new(listing_of("/", &[]), home());
    let request = ui.prev();
    assert_eq!(request.path, "/");
    assert_eq!(request.hint, "");
}

#[test]
fn dispatch_moves_by_one_and_jumps_by_ten() {
    let names: Vec<String> = (0..30).map(|i| format!("f{:02}", i)).collect();
    let listing = Entries {
        absolute_path: text("/many"),
        entries: names.iter().map(|name| Entry::new(EntryKind::File, name.clone())).collect(),
    };
    let mut ui: UI<u32> = UI::new(listing, home());
    assert!(matches!(ui.dispatch(Action::Down), Effect::Done));
    assert_eq!(ui.active_directory_view().selected_index(), Some(1));
    assert!(matches!(ui.dispatch(Action::JumpDown), Effect::Done));
    assert_eq!(ui.active_directory_view().selected_index(), Some(11));
    assert!(matches!(ui.dispatch(Action::Up), Effect::Done));
    assert_eq!(ui.active_directory_view().selected_index(), Some(10));
    assert!(matches!(ui.dispatch(Action::JumpUp), Effect::Done));
    assert_eq!(ui.active_directory_view().selected_index(), Some(0));
    assert!(matches!(ui.dispatch(Action::Bottom), Effect::Done));
    assert_eq!(ui.active_directory_view().selected_index(), Some(29));
    assert!(matches!(ui.dispatch(Action::Top), Effect::Done));
    assert_eq!(ui.active_directory_view().selected_index(), Some(0));
    assert!(matches!(ui.dispatch(Action::ToggleSelect), Effect::Done));
    assert!(ui.active_directory_view().row(0).selected);
    assert!(matches!(ui.dispatch(Action::ToggleSide), Effect::Done));
    assert_eq!(ui.active_side(), Side::Right);
}

#[test]
fn dispatch_hands_back_what_is_left_to_do() {
    let mut ui = browser();
    assert!(matches!(ui.dispatch(Action::Quit), Effect::Quit));
    match ui.dispatch(Action::Next) {
        Effect::Visit(request) => {
            assert_eq!(request.path, "/home/user/docs");
            assert_eq!(request.hint, "");
        }
        other => panic!("not a visit: {:?}", other),
    }
    match ui.dispatch(Action::Prev) {
        Effect::Visit(request) => {
            assert_eq!(request.path, "/home");
            assert_eq!(request.hint, "user");
        }
        other => panic!("not a visit: {:?}", other),
    }
    // nothing moved
    assert_eq!(ui.active_dir_path(), "/home/user");
    assert_eq!(ui.active_directory_view().selected_index(), Some(0));

    let mut empty: UI<u32> = UI::new(listing_of("/empty", &[]), home());
    assert!(matches!(empty.dispatch(Action::Next), Effect::Done));
}

#[test]
fn render_lays_out_two_panes_above_the_task_area() {
    let theme = Theme::default();
    let mut ui = browser();
    let plan = ui.render(801, 600);
    assert_eq!(ui.directory_view(Side::Left).draw_region(), Region { x: 0, y: 0, w: 400, h: 400 });
    assert_eq!(
        ui.directory_view(Side::Right).draw_region(),
        Region { x: 400, y: 0, w: 400, h: 400 }
    );

    let left = ui.directory_view(Side::Left).render(&theme, true);
    let right = ui.directory_view(Side::Right).render(&theme, false);
    assert_eq!(plan.len(), left.len() + right.len() + 1);
    for (drawn, expected) in plan.iter().zip(left.iter().chain(right.iter())) {
        assert_eq!(format!("{:?}", drawn), format!("{:?}", expected));
    }
    match plan.last() {
        Some(DrawCommand::Fill { colour, x, y, w, h }) => {
            assert_eq!(*colour, theme.tasks);
            assert_eq!((*x, *y, *w, *h), (0, 400, 801, 200));
        }
        other => panic!("not a fill: {:?}", other),
    }
    match &plan[0] {
        DrawCommand::Fill { colour, .. } => assert_eq!(*colour, theme.active),
        other => panic!("not a fill: {:?}", other),
    }
    match &plan[left.len()] {
        DrawCommand::Fill { colour, .. } => assert_eq!(*colour, theme.inactive),
        other => panic!("not a fill: {:?}", other),
    }
}

#[test]
fn render_on_a_surface_lower_than_the_task_area_leaves_the_panes_no_height() {
    let mut ui = browser();
    let plan = ui.render(640, 150);
    assert_eq!(ui.directory_view(Side::Left).draw_region(), Region { x: 0, y: 0, w: 320, h: 0 });
    match plan.last() {
        Some(DrawCommand::Fill { x, y, w, h, .. }) => {
            assert_eq!((*x, *y, *w, *h), (0, 0, 640, 200));
        }
        other => panic!("not a fill: {:?}", other),
    }
}

#[test]
fn visit_takes_note_of_the_listing_and_shows_the_directory() {
    let mut ui = browser();
    let request = NavRequest { path: text("/home"), hint: text("user") };
    assert_eq!(ui.visit(request, Some(parent())), Visit::Resumed);
    assert_eq!(ui.active_dir_path(), "/home");
    assert_eq!(ui.active_directory_view().selected_index(), Some(2));
    // the other side took note, too
    assert_eq!(ui.is_active(Side::Right, &text("/home")), Some(false));
}

#[test]
fn visit_without_a_listing_is_given_up_and_changes_nothing() {
    let mut ui = browser();
    ui.down(2);
    let request = NavRequest { path: text("/home"), hint: text("user") };
    assert_eq!(ui.visit(request, None), Visit::Abandoned);
    assert_eq!(ui.active_dir_path(), "/home/user");
    assert_eq!(ui.active_directory_view().selected_index(), Some(2));
    assert_eq!(ui.is_active(Side::Left, &text("/home")), None);

    // a pane that rests for the directory stays at rest, too
    ui.update_dir_entries(parent());
    let request = NavRequest { path: text("/home"), hint: text("guest") };
    assert_eq!(ui.visit(request, None), Visit::Abandoned);
    assert_eq!(ui.active_dir_path(), "/home/user");
    assert_eq!(ui.active_directory_view().selected_index(), Some(2));
    assert_eq!(ui.is_active(Side::Left, &text("/home")), Some(false));
    assert_eq!(ui.is_active(Side::Left, &text("/home/user")), Some(true));

    // with a listing the pane that rests comes on show, its cursor on the hint
    let request = NavRequest { path: text("/home"), hint: text("user") };
    assert_eq!(ui.visit(request, Some(parent())), Visit::Resumed);
    assert_eq!(ui.active_dir_path(), "/home");
    assert_eq!(ui.active_directory_view().selected_index(), Some(2));

    let request = NavRequest { path: text("/home"), hint: text("guest") };
    assert_eq!(ui.visit(request, Some(parent())), Visit::AlreadyShown);
    let request = NavRequest { path: text("/home"), hint: text("guest") };
    assert_eq!(ui.visit(request, None), Visit::Abandoned);
    assert_eq!(ui.active_dir_path(), "/home");
}

#[test]
fn visit_after_a_failed_read_does_not_go_back_to_a_directory_left() {
    let mut ui: UI<u32> = UI::new(
        listing_of("/a", &[("bb", EntryKind::Dir)]),
        listing_of("/a", &[("bb", EntryKind::Dir)]),
    );
    let into = ui.next().expect("the cursor is on an entry");
    assert_eq!(into.path, "/a/bb");
    let listing = listing_of("/a/bb", &[("c", EntryKind::File)]);
    assert_eq!(ui.visit(into, Some(listing)), Visit::Resumed);
    assert_eq!(ui.active_dir_path(), "/a/bb");

    let back = ui.prev();
    assert_eq!(back.path, "/a");
    assert_eq!(ui.visit(back, None), Visit::Abandoned);
    assert_eq!(ui.active_dir_path(), "/a/bb");
    assert_eq!(ui.is_active(Side::Left, &text("/a")), Some(false));
    assert_eq!(ui.is_active(Side::Left, &text("/a/bb")), Some(true));
}

#[test]
fn next_then_prev_comes_back_to_the_same_pane() {
    let mut ui = browser();
    let _ = ui.render(800, 320);
    ui.down(3);
    ui.toggle_select();
    ui.up(3);
    assert_eq!(ui.active_directory_view().selected_index(), Some(0));
    assert_eq!(ui.active_directory_view().scroll_index(), 0);
    ui.down(4);
    ui.up(4);
    ui.down(4);
    ui.up(3);
    let cursor = ui.active_directory_view().selected_index();
    let scroll = ui.active_directory_view().scroll_index();
    assert_eq!(cursor, Some(1));
    assert_eq!(scroll, 1);

    let into = match ui.dispatch(Action::Next) {
        Effect::Visit(request) => request,
        other => panic!("not a visit: {:?}", other),
    };
    assert_eq!(into.path, "/home/user/music");
    let listing = listing_of("/home/user/music", &[("x.ogg", EntryKind::File)]);
    assert_eq!(ui.visit(into, Some(listing)), Visit::Resumed);
    assert_eq!(ui.active_dir_path(), "/home/user/music");
    let _ = ui.dispatch(Action::Down);
    let _ = ui.dispatch(Action::ToggleSelect);

    let back = match ui.dispatch(Action::Prev) {
        Effect::Visit(request) => request,
        other => panic!("not a visit: {:?}", other),
    };
    assert_eq!(back.path, "/home/user");
    assert_eq!(back.hint, "music");
    assert_eq!(ui.visit(back, Some(home())), Visit::Resumed);
    let pane = ui.active_directory_view();
    assert_eq!(pane.dir(), "/home/user");
    assert_eq!(pane.selected_index(), cursor);
    assert_eq!(pane.scroll_index(), scroll);
    assert!(pane.row(3).selected);
}

#[test]
fn every_key_has_its_action() {
    let table = [
        (Key::Up, Action::Up),
        (Key::Down, Action::Down),
        (Key::Home, Action::Top),
        (Key::End, Action::Bottom),
        (Key::PageUp, Action::JumpUp),
        (Key::PageDown, Action::JumpDown),
        (Key::Left, Action::Prev),
        (Key::Right, Action::Next),
        (Key::Tab, Action::ToggleSide),
        (Key::Space, Action::ToggleSelect),
        (Key::Escape, Action::Quit),
    ];
    for (key, action) in table {
        assert_eq!(Action::for_key(key), action);
    }
    for (i, (_, one)) in table.iter().enumerate() {
        for (_, other) in table.iter().skip(i + 1) {
            assert_ne!(one, other);
        }
    }
}
