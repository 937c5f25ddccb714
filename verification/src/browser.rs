//! The browser as a mathematical value: what its commands do to it, and the
//! laws that hold of them.

use vstd::prelude::*;
use crate::cache::SlotModel;
use crate::directory::EntriesView;
use crate::draw::{DrawOp, Region};
use crate::pane::{lemma_moved_all_settled, lemma_moved_settled, DirectoryView, Motion, PaneModel};
use crate::path::{last_component, popped, pushed};
use crate::text::{MemoModel, TextKey};
use crate::theme::{Color, Theme};

verus! {

/// The height, in pixels, of the task area at the bottom of the surface.
pub const TASKS_HEIGHT: u32 = 200;

/// What is drawn for the task area.
pub open spec fn tasks_ops(region: Region, colour: Color) -> Seq<DrawOp> {
    seq![
        DrawOp::Fill {
            colour,
            x: region.x as int,
            y: region.y as int,
            w: region.w as int,
            h: region.h as int,
        },
    ]
}

/// The height left for the panes above the task area.
pub open spec fn panes_height(height: u32) -> u32 {
    if height >= TASKS_HEIGHT {
        (height - TASKS_HEIGHT) as u32
    } else {
        0
    }
}

/// The region of the left pane on a surface of the given size.
pub open spec fn left_region(width: u32, height: u32) -> Region {
    Region { x: 0, y: 0, w: width / 2, h: panes_height(height) }
}

/// The region of the right pane on a surface of the given size.
pub open spec fn right_region(width: u32, height: u32) -> Region {
    Region { x: width / 2, y: 0, w: width / 2, h: panes_height(height) }
}

/// The region of the task area on a surface of the given size.
pub open spec fn tasks_region(width: u32, height: u32) -> Region {
    Region { x: 0, y: panes_height(height), w: width, h: TASKS_HEIGHT }
}

/// One of the two sides of the screen.
#[derive(Clone, Copy, PartialEq, Eq, Structural, Debug)]
pub enum Side {
    Left,
    Right,
}

/// What became of a request to show a directory.
#[derive(Clone, Copy, PartialEq, Eq, Structural, Debug)]
pub enum Visit {
    /// The pane kept for the directory came on show.
    Resumed,
    /// The directory was on show already.
    AlreadyShown,
    /// The directory was never listed on this side, so nothing changed.
    NotListed,
    /// The directory could not be listed, so the visit was given up and
    /// nothing changed.
    Abandoned,
}

/// The mathematical content of one side of the screen: the pane on show and
/// what is kept for every directory listed so far.
pub struct SideModel {
    pub views: Map<Seq<char>, SlotModel>,
    pub live: PaneModel,
}

impl SideModel {
    /// The pane on show has a cursor if it has entries; its directory, and
    /// no other, is kept as the one on show; a pane that rests is kept under
    /// its own path and its cursor, if it has one, points at an entry.
    pub open spec fn wf(self) -> bool {
        &&& self.live.settled()
        &&& self.views.contains_key(self.live.dir)
        &&& forall|path: Seq<char>| #[trigger]
            self.views.contains_key(path) ==> match self.views[path] {
                SlotModel::Active => path == self.live.dir,
                SlotModel::Inactive(pane) => pane.dir == path && pane.wf() && path
                    != self.live.dir,
            }
    }

    /// The side as it starts, with one listing on show.
    pub open spec fn start(de: EntriesView) -> SideModel {
        let listed = DirectoryView::listed(de.absolute_path, de.entries);
        SideModel {
            views: Map::empty().insert(de.absolute_path, SlotModel::Active),
            live: PaneModel {
                selected_index: if de.entries.len() > 0 {
                    Some(0nat)
                } else {
                    None
                },
                ..listed
            },
        }
    }

    /// The side after a listing arrived: a pane for it is kept unless
    /// something is kept for its directory already.
    pub open spec fn update_dir_entries(self, de: EntriesView) -> SideModel {
        if self.views.contains_key(de.absolute_path) {
            self
        } else {
            SideModel {
                views: self.views.insert(
                    de.absolute_path,
                    SlotModel::Inactive(DirectoryView::listed(de.absolute_path, de.entries)),
                ),
                ..self
            }
        }
    }

    /// What a request to show the directory at `path` comes to.
    pub open spec fn visit(self, path: Seq<char>) -> Visit {
        if !self.views.contains_key(path) {
            Visit::NotListed
        } else if self.views[path] is Active {
            Visit::AlreadyShown
        } else {
            Visit::Resumed
        }
    }

    /// The side after a request to show the directory at `path`: where a pane
    /// rests for it, that pane comes on show, its cursor settled with the help
    /// of `hint`, and the pane that was on show rests under its own path.
    pub open spec fn show_dir(self, path: Seq<char>, hint: Seq<char>) -> SideModel {
        if self.views.contains_key(path) && self.views[path] is Inactive {
            SideModel {
                views: self.views.insert(path, SlotModel::Active).insert(
                    self.live.dir,
                    SlotModel::Inactive(self.live),
                ),
                live: self.views[path]->Inactive_0.resumed(hint),
            }
        } else {
            self
        }
    }

    /// The side after a series of movements of the cursor of the pane on
    /// show.
    pub open spec fn moved_all(self, motions: Seq<Motion>) -> SideModel {
        SideModel { live: self.live.moved_all(motions), ..self }
    }
}

/// The mathematical content of the browser: its two sides, which of them
/// takes the commands, and the caches that drawing text goes through.
pub struct BrowserModel<T> {
    pub left: SideModel,
    pub right: SideModel,
    pub active: Side,
    pub caches: MemoModel<T>,
}

impl<T> BrowserModel<T> {
    /// One side of the screen.
    pub open spec fn side(self, side: Side) -> SideModel {
        match side {
            Side::Left => self.left,
            Side::Right => self.right,
        }
    }

    /// Both sides are in order: see [`SideModel::wf`].
    pub open spec fn wf(self) -> bool {
        self.left.wf() && self.right.wf()
    }

    /// The side that takes the commands.
    pub open spec fn active_side(self) -> SideModel {
        match self.active {
            Side::Left => self.left,
            Side::Right => self.right,
        }
    }

    /// The browser with `side` in place of the side that takes the commands.
    pub open spec fn with_active_side(self, side: SideModel) -> BrowserModel<T> {
        match self.active {
            Side::Left => BrowserModel { left: side, ..self },
            Side::Right => BrowserModel { right: side, ..self },
        }
    }

    /// The pane on show on the side that takes the commands.
    pub open spec fn live(self) -> PaneModel {
        self.active_side().live
    }

    /// The browser with `pane` on show on the side that takes the commands.
    pub open spec fn with_live(self, pane: PaneModel) -> BrowserModel<T> {
        self.with_active_side(SideModel { live: pane, ..self.active_side() })
    }

    /// The browser as it starts: a listing on show on either side, the
    /// cursor on its first entry, commands going to the left, nothing drawn
    /// yet.
    pub open spec fn start(left: EntriesView, right: EntriesView) -> BrowserModel<T> {
        BrowserModel {
            left: SideModel::start(left),
            right: SideModel::start(right),
            active: Side::Left,
            caches: MemoModel { repo: Map::empty(), textures: Map::empty(), upcoming: 1 },
        }
    }

    /// The browser after a listing arrived: both sides take note of it.
    pub open spec fn update_dir_entries(self, de: EntriesView) -> BrowserModel<T> {
        BrowserModel {
            left: self.left.update_dir_entries(de),
            right: self.right.update_dir_entries(de),
            ..self
        }
    }

    /// The browser after a request to show a directory on the side that takes
    /// the commands.
    pub open spec fn show_dir(self, path: Seq<char>, hint: Seq<char>) -> BrowserModel<T> {
        self.with_active_side(self.active_side().show_dir(path, hint))
    }

    /// The browser after a movement of the cursor of the pane that takes the
    /// commands.
    pub open spec fn moved(self, motion: Motion) -> BrowserModel<T> {
        self.with_live(self.live().moved(motion))
    }

    /// The browser after a series of movements of the cursor of the pane that
    /// takes the commands.
    pub open spec fn moved_all(self, motions: Seq<Motion>) -> BrowserModel<T> {
        self.with_live(self.live().moved_all(motions))
    }

    /// The browser after the mark of the entry under the cursor was flipped.
    pub open spec fn toggle_select(self) -> BrowserModel<T> {
        self.with_live(self.live().toggle_select())
    }

    /// The browser after the commands went over to the other side.
    pub open spec fn toggle_side(self) -> BrowserModel<T> {
        BrowserModel {
            active: match self.active {
                Side::Left => Side::Right,
                Side::Right => Side::Left,
            },
            ..self
        }
    }

    /// The directory that going into the entry under the cursor leads to, if
    /// there is an entry under the cursor.
    pub open spec fn next(self) -> Option<(Seq<char>, Seq<char>)> {
        match self.live().hovered_entry() {
            Some(entry) => Some((pushed(self.live().dir, entry.name), Seq::empty())),
            None => None,
        }
    }

    /// The directory that going out of the directory on show leads to, and
    /// the name to put the cursor on there: the one of the directory left.
    pub open spec fn prev(self) -> (Seq<char>, Seq<char>) {
        (
            popped(self.live().dir),
            match last_component(self.live().dir) {
                Some(name) => name,
                None => Seq::empty(),
            },
        )
    }

    /// The browser after a visit to a directory that was asked for. Where the
    /// directory could be listed, both sides take note of the listing and
    /// the side that takes the commands shows the directory. Where it could
    /// not, the visit is given up and nothing changes: the pane that was on
    /// show stays on show, even if a pane rests for the directory.
    pub open spec fn visited(
        self,
        request: (Seq<char>, Seq<char>),
        listing: Option<EntriesView>,
    ) -> BrowserModel<T> {
        match listing {
            Some(de) => self.update_dir_entries(de).show_dir(request.0, request.1),
            None => self,
        }
    }

    /// What becomes of a visit to a directory that was asked for: see
    /// [`BrowserModel::visited`].
    pub open spec fn visit(
        self,
        request: (Seq<char>, Seq<char>),
        listing: Option<EntriesView>,
    ) -> Visit {
        match listing {
            Some(de) => self.update_dir_entries(de).active_side().visit(request.0),
            None => Visit::Abandoned,
        }
    }

    /// The browser after its panes were fitted to a surface of the given size.
    pub open spec fn laid_out(self, width: u32, height: u32) -> BrowserModel<T> {
        BrowserModel {
            left: SideModel {
                live: PaneModel { draw_region: left_region(width, height), ..self.left.live },
                ..self.left
            },
            right: SideModel {
                live: PaneModel { draw_region: right_region(width, height), ..self.right.live },
                ..self.right
            },
            ..self
        }
    }

    /// Everything drawn for a frame on a surface of the given size, the panes
    /// in the regions they have: the left pane, the right pane, the task area.
    pub open spec fn render(self, theme: Theme, width: u32, height: u32) -> Seq<DrawOp> {
        self.left.live.render(theme, self.active == Side::Left) + self.right.live.render(
            theme,
            self.active == Side::Right,
        ) + tasks_ops(tasks_region(width, height), theme.tasks)
    }

    /// The browser after a text was drawn: see [`MemoModel::drawn`].
    pub open spec fn drawn<E>(self, key: TextKey, made: Result<T, E>) -> BrowserModel<T> {
        BrowserModel { caches: self.caches.drawn(key, made), ..self }
    }
}

/// A listing that arrives changes neither what is on show on a side nor
/// anything that is kept there, and keeps the side in order.
pub proof fn lemma_side_update_keeps_order(side: SideModel, de: EntriesView)
    requires
        side.wf(),
    ensures
        side.update_dir_entries(de).wf(),
        side.update_dir_entries(de).live == side.live,
        forall|path: Seq<char>| #[trigger]
            side.views.contains_key(path) ==> side.update_dir_entries(de).views.contains_key(path)
                && side.update_dir_entries(de).views[path] == side.views[path],
{
}

/// Showing a directory keeps a side in order, and afterwards the directory
/// of the pane on show is kept as the one on show, never as one that rests.
pub proof fn lemma_side_show_dir_keeps_order(side: SideModel, path: Seq<char>, hint: Seq<char>)
    requires
        side.wf(),
    ensures
        side.show_dir(path, hint).wf(),
        side.show_dir(path, hint).views.contains_key(side.show_dir(path, hint).live.dir),
        side.show_dir(path, hint).views[side.show_dir(path, hint).live.dir] is Active,
        side.visit(path) == Visit::Resumed ==> side.show_dir(path, hint).live.dir == path,
        side.visit(path) != Visit::Resumed ==> side.show_dir(path, hint) == side,
{
    if side.visit(path) == Visit::Resumed {
        // the pane that comes on show is settled: a hint that is found is
        // found at an entry
        side.views[path]->Inactive_0.names().index_of_first_ensures(hint);
    }
}

/// On one side, going into another directory and coming back restores the
/// pane exactly: cursor, window, marks and all. Neither moving the cursor
/// about in the other directory nor a listing that arrives in between
/// changes anything of it.
pub proof fn lemma_side_round_trip(
    side: SideModel,
    child: Seq<char>,
    hint_in: Seq<char>,
    motions: Seq<Motion>,
    listing: EntriesView,
    hint_back: Seq<char>,
)
    requires
        side.wf(),
        side.visit(child) == Visit::Resumed,
    ensures
        side.show_dir(child, hint_in).moved_all(motions).update_dir_entries(listing).show_dir(
            side.live.dir,
            hint_back,
        ).live == side.live,
{
    lemma_side_show_dir_keeps_order(side, child, hint_in);
    lemma_moved_all_settled(side.show_dir(child, hint_in).live, motions);
    // the pane that comes back has its cursor, or has no entry to put one on
    side.live.names().index_of_first_ensures(hint_back);
}

/// What the user can ask for.
#[derive(Clone, Copy, PartialEq, Eq, Structural, Debug)]
pub enum Action {
    Up,
    Down,
    JumpUp,
    JumpDown,
    Top,
    Bottom,
    Next,
    Prev,
    ToggleSide,
    ToggleSelect,
    Quit,
}

/// The keys that the browser listens to.
#[derive(Clone, Copy, PartialEq, Eq, Structural, Debug)]
pub enum Key {
    Up,
    Down,
    Home,
    End,
    PageUp,
    PageDown,
    Left,
    Right,
    Tab,
    Space,
    Escape,
}

/// What a key asks for.
pub open spec fn bound(key: Key) -> Action {
    match key {
        Key::Up => Action::Up,
        Key::Down => Action::Down,
        Key::Home => Action::Top,
        Key::End => Action::Bottom,
        Key::PageUp => Action::JumpUp,
        Key::PageDown => Action::JumpDown,
        Key::Left => Action::Prev,
        Key::Right => Action::Next,
        Key::Tab => Action::ToggleSide,
        Key::Space => Action::ToggleSelect,
        Key::Escape => Action::Quit,
    }
}

impl Action {
    /// See [`bound`].
    pub fn for_key(key: Key) -> (action: Action)
        ensures
            action == bound(key),
    {
        match key {
            Key::Up => Action::Up,
            Key::Down => Action::Down,
            Key::Home => Action::Top,
            Key::End => Action::Bottom,
            Key::PageUp => Action::JumpUp,
            Key::PageDown => Action::JumpDown,
            Key::Left => Action::Prev,
            Key::Right => Action::Next,
            Key::Tab => Action::ToggleSide,
            Key::Space => Action::ToggleSelect,
            Key::Escape => Action::Quit,
        }
    }
}

/// Every action has a key, and no two keys ask for the same.
pub proof fn lemma_keys_and_actions_pair_up(one: Key, other: Key, action: Action)
    ensures
        bound(one) == bound(other) ==> one == other,
        exists|key: Key| bound(key) == action,
{
    let key = match action {
        Action::Up => Key::Up,
        Action::Down => Key::Down,
        Action::Top => Key::Home,
        Action::Bottom => Key::End,
        Action::JumpUp => Key::PageUp,
        Action::JumpDown => Key::PageDown,
        Action::Prev => Key::Left,
        Action::Next => Key::Right,
        Action::ToggleSide => Key::Tab,
        Action::ToggleSelect => Key::Space,
        Action::Quit => Key::Escape,
    };
    assert(bound(key) == action);
}

/// How far the cursor moves on `Up` and `Down`.
pub const STEP: usize = 1;

/// How far the cursor moves on `JumpUp` and `JumpDown`.
pub const JUMP: usize = 10;

impl<T> BrowserModel<T> {
    /// The browser after an action was applied. Going into or out of a
    /// directory changes nothing by itself: the directory has to be listed
    /// first.
    pub open spec fn acted(self, action: Action) -> BrowserModel<T> {
        match action {
            Action::Up => self.moved(Motion::Up(STEP as nat)),
            Action::Down => self.moved(Motion::Down(STEP as nat)),
            Action::JumpUp => self.moved(Motion::Up(JUMP as nat)),
            Action::JumpDown => self.moved(Motion::Down(JUMP as nat)),
            Action::Top => self.moved(Motion::Top),
            Action::Bottom => self.moved(Motion::Bottom),
            Action::ToggleSide => self.toggle_side(),
            Action::ToggleSelect => self.toggle_select(),
            Action::Next | Action::Prev | Action::Quit => self,
        }
    }

    /// The directory that an action asks to list and show, if it asks for
    /// one, with the name to put the cursor on.
    pub open spec fn asked(self, action: Action) -> Option<(Seq<char>, Seq<char>)> {
        match action {
            Action::Next => self.next(),
            Action::Prev => Some(self.prev()),
            _ => None,
        }
    }
}

/// A listing that arrives keeps the browser in order and changes neither the
/// panes on show nor anything that was kept.
pub proof fn lemma_update_keeps_order<T>(ui: BrowserModel<T>, de: EntriesView)
    requires
        ui.wf(),
    ensures
        ui.update_dir_entries(de).wf(),
        ui.update_dir_entries(de).left.live == ui.left.live,
        ui.update_dir_entries(de).right.live == ui.right.live,
        forall|side: Side, path: Seq<char>| #[trigger]
            ui.side(side).views.contains_key(path) ==> ui.update_dir_entries(de).side(
                side,
            ).views.contains_key(path) && ui.update_dir_entries(de).side(side).views[path]
                == ui.side(side).views[path],
{
    lemma_side_update_keeps_order(ui.left, de);
    lemma_side_update_keeps_order(ui.right, de);
}

/// Showing a directory keeps the browser in order. Afterwards, on the side
/// that takes the commands, the directory of the pane on show is kept as the
/// one on show, never as one that rests; the other side is as it was.
pub proof fn lemma_show_dir_keeps_order<T>(ui: BrowserModel<T>, path: Seq<char>, hint: Seq<char>)
    requires
        ui.wf(),
    ensures
        ui.show_dir(path, hint).wf(),
        ui.show_dir(path, hint).active == ui.active,
        ui.show_dir(path, hint).active_side().views.contains_key(ui.show_dir(path, hint).live().dir),
        ui.show_dir(path, hint).active_side().views[ui.show_dir(path, hint).live().dir] is Active,
        ui.active == Side::Left ==> ui.show_dir(path, hint).right == ui.right,
        ui.active == Side::Right ==> ui.show_dir(path, hint).left == ui.left,
{
    lemma_side_show_dir_keeps_order(ui.active_side(), path, hint);
}

/// Going into another directory and coming back restores the pane exactly:
/// cursor, window, marks and all. Neither moving the cursor about in the
/// other directory nor a listing that arrives in between, be it of the
/// directory left, changes anything of it.
pub proof fn lemma_round_trip<T>(
    ui: BrowserModel<T>,
    child: Seq<char>,
    hint_in: Seq<char>,
    motions: Seq<Motion>,
    listing: EntriesView,
    hint_back: Seq<char>,
)
    requires
        ui.wf(),
        ui.active_side().visit(child) == Visit::Resumed,
    ensures
        ui.show_dir(child, hint_in).live().dir == child,
        ui.show_dir(child, hint_in).moved_all(motions).update_dir_entries(listing).show_dir(
            ui.live().dir,
            hint_back,
        ).live() == ui.live(),
{
    lemma_side_show_dir_keeps_order(ui.active_side(), child, hint_in);
    lemma_side_round_trip(ui.active_side(), child, hint_in, motions, listing, hint_back);
}

/// Going into the directory under the cursor and out again restores the pane
/// exactly, wherever the cursor went in between, provided that both
/// directories could be listed when they were asked for and that the way
/// out of the directory entered leads back to the directory left.
pub proof fn lemma_into_and_back<T>(
    ui: BrowserModel<T>,
    child_listing: EntriesView,
    motions: Seq<Motion>,
    parent_listing: EntriesView,
)
    requires
        ui.wf(),
        ui.next() is Some,
        child_listing.absolute_path == ui.next()->Some_0.0,
        ui.next()->Some_0.0 != ui.live().dir,
        popped(ui.next()->Some_0.0) == ui.live().dir,
    ensures
        ({
            let into = ui.next()->Some_0;
            let there = ui.visited(into, Some(child_listing)).moved_all(motions);
            let back = there.visited(there.prev(), Some(parent_listing));
            &&& ui.visit(into, Some(child_listing)) == Visit::Resumed
            &&& there.live().dir == into.0
            &&& there.visit(there.prev(), Some(parent_listing)) == Visit::Resumed
            &&& back.live() == ui.live()
            &&& back.wf()
        }),
{
    let (child, hint_in) = ui.next()->Some_0;
    let noted = ui.update_dir_entries(child_listing);
    lemma_update_keeps_order(ui, child_listing);
    assert(noted.active_side().visit(child) == Visit::Resumed);
    let shown = noted.show_dir(child, hint_in);
    lemma_show_dir_keeps_order(noted, child, hint_in);
    let there = shown.moved_all(motions);
    lemma_moved_all_settled(shown.live(), motions);
    let (parent, hint_back) = there.prev();
    lemma_round_trip(noted, child, hint_in, motions, parent_listing, hint_back);
    lemma_update_keeps_order(there, parent_listing);
    lemma_show_dir_keeps_order(there.update_dir_entries(parent_listing), parent, hint_back);
}

/// A visit to a directory that could not be listed changes nothing, whatever
/// rests for the directory: the pane that was on show stays on show.
pub proof fn lemma_failed_visit_changes_nothing<T>(
    ui: BrowserModel<T>,
    request: (Seq<char>, Seq<char>),
)
    ensures
        ui.visited(request, None) == ui,
        ui.visit(request, None) == Visit::Abandoned,
{
}

/// A visit keeps the browser in order, and unless it shows the directory
/// asked for it changes no pane on show.
pub proof fn lemma_visit_keeps_order<T>(
    ui: BrowserModel<T>,
    request: (Seq<char>, Seq<char>),
    listing: Option<EntriesView>,
)
    requires
        ui.wf(),
    ensures
        ui.visited(request, listing).wf(),
        ui.visit(request, listing) == Visit::Resumed ==> ui.visited(request, listing).live().dir
            == request.0,
        ui.visit(request, listing) != Visit::Resumed ==> ui.visited(request, listing).left.live
            == ui.left.live && ui.visited(request, listing).right.live == ui.right.live,
{
    if let Some(de) = listing {
        lemma_update_keeps_order(ui, de);
        lemma_side_show_dir_keeps_order(
            ui.update_dir_entries(de).active_side(),
            request.0,
            request.1,
        );
    }
}

/// A series of movements is its movements one after the other.
pub proof fn lemma_moved_all_unfolds<T>(ui: BrowserModel<T>, motions: Seq<Motion>, motion: Motion)
    ensures
        ui.moved_all(Seq::empty()) == ui,
        ui.moved_all(motions.push(motion)) == ui.moved_all(motions).moved(motion),
{
    assert(motions.push(motion).drop_last() =~= motions);
}

/// Whatever the user asks for, the browser stays in order.
pub proof fn lemma_acted_keeps_order<T>(ui: BrowserModel<T>, action: Action)
    requires
        ui.wf(),
    ensures
        ui.acted(action).wf(),
{
    match action {
        Action::Up => lemma_moved_settled(ui.live(), Motion::Up(STEP as nat)),
        Action::Down => lemma_moved_settled(ui.live(), Motion::Down(STEP as nat)),
        Action::JumpUp => lemma_moved_settled(ui.live(), Motion::Up(JUMP as nat)),
        Action::JumpDown => lemma_moved_settled(ui.live(), Motion::Down(JUMP as nat)),
        Action::Top => lemma_moved_settled(ui.live(), Motion::Top),
        Action::Bottom => lemma_moved_settled(ui.live(), Motion::Bottom),
        _ => {},
    }
}

} // verus!
