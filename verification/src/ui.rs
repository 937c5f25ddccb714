//! The browser itself: two panes, the directories kept behind them, and the
//! caches that drawing goes through.

use vstd::prelude::*;
use crate::browser::{
    lemma_side_show_dir_keeps_order, lemma_side_update_keeps_order, tasks_ops, BrowserModel,
    SideModel, JUMP, STEP, TASKS_HEIGHT,
};
use crate::cache::{DirectoryViewState, DirectoryViews, SlotModel};
use crate::directory::{Entries, Entry};
use crate::draw::{lemma_ops_of_concat, ops_of, DrawCommand, Region};
use crate::entity::{Entity, EntityManager};
use crate::pane::{lemma_moved_settled, Motion};
use crate::path::{file_name, pop, push};
use crate::text::{TextKey, TextManager};
use crate::texture::TextureManager;
use crate::theme::Color;

pub use crate::browser::{Action, Key, Side, Visit};
pub use crate::pane::{DirectoryView, DirectoryViewEntry};
pub use crate::theme::Theme;

verus! {

/// One background task as shown in the task area.
#[derive(Debug)]
pub struct TaskView {}

/// The task area below the two panes.
#[derive(Debug)]
pub struct TasksView {
    pub tasks: Vec<TaskView>,
}

impl TasksView {
    /// A task area without tasks.
    pub fn new() -> (tv: TasksView)
        ensures
            tv.tasks@.len() == 0,
    {
        TasksView { tasks: Vec::new() }
    }

    /// The commands that draw the task area: its region in its colour.
    pub fn render(&self, region: Region, colour: Color) -> (plan: Vec<DrawCommand>)
        ensures
            ops_of(plan@) == tasks_ops(region, colour),
    {
        let mut plan: Vec<DrawCommand> = Vec::new();
        plan.push(
            DrawCommand::Fill {
                colour,
                x: region.x as i64,
                y: region.y as i64,
                w: region.w as i64,
                h: region.h as i64,
            },
        );
        plan
    }
}

/// A directory to list and then show.
#[derive(Debug)]
pub struct NavRequest {
    /// The absolute path of the directory.
    pub path: String,
    /// The name of the entry to put the cursor on, if the pane has none yet.
    pub hint: String,
}

impl View for NavRequest {
    type V = (Seq<char>, Seq<char>);

    open spec fn view(&self) -> (Seq<char>, Seq<char>) {
        (self.path@, self.hint@)
    }
}

/// What is left to do once an action was applied.
#[derive(Debug)]
pub enum Effect {
    /// Nothing.
    Done,
    /// List the directory and hand the listing to [`UI::visit`], or the lack
    /// of one where the directory cannot be listed.
    Visit(NavRequest),
    /// Leave the program.
    Quit,
}

/// The browser: two panes side by side, one of which takes the commands,
/// with what either side keeps for the directories it has listed, and the
/// caches that drawing text goes through.
pub struct UI<T> {
    left_directory_views: DirectoryViews,
    right_directory_views: DirectoryViews,
    theme: Theme,
    entity_manager: EntityManager,
    text_manager: TextManager,
    texture_manager: TextureManager<T>,
    active: Side,
    lhs: DirectoryView,
    rhs: DirectoryView,
    tv: TasksView,
}

impl<T> View for UI<T> {
    type V = BrowserModel<T>;

    closed spec fn view(&self) -> BrowserModel<T> {
        BrowserModel {
            left: SideModel { views: self.left_directory_views@, live: self.lhs@ },
            right: SideModel { views: self.right_directory_views@, live: self.rhs@ },
            active: self.active,
            caches: self.text_manager.caches(&self.entity_manager, &self.texture_manager),
        }
    }
}

/// Shows a directory on one side: see [`SideModel::show_dir`].
fn show_on(
    views: &mut DirectoryViews,
    live: &mut DirectoryView,
    abs_path: String,
    selected_entry: String,
) -> (visit: Visit)
    requires
        old(views).wf(),
        (SideModel { views: old(views)@, live: old(live)@ }).wf(),
    ensures
        final(views).wf(),
        (SideModel { views: final(views)@, live: final(live)@ }) == (SideModel {
            views: old(views)@,
            live: old(live)@,
        }).show_dir(abs_path@, selected_entry@),
        visit == (SideModel { views: old(views)@, live: old(live)@ }).visit(abs_path@),
{
    match views.is_active(&abs_path) {
        None => Visit::NotListed,
        Some(true) => Visit::AlreadyShown,
        Some(false) => {
            match views.remove(&abs_path) {
                Some(DirectoryViewState::Inactive(mut active_dv)) => {
                    views.insert(abs_path, DirectoryViewState::Active);
                    active_dv.resume(&selected_entry);
                    std::mem::swap(live, &mut active_dv);
                    let old_path = active_dv.dir().clone();
                    views.insert(old_path, DirectoryViewState::Inactive(active_dv));
                    assert(views@ =~= old(views)@.insert(abs_path@, SlotModel::Active).insert(
                        old(live)@.dir,
                        SlotModel::Inactive(old(live)@),
                    ));
                    Visit::Resumed
                },
                _ => unreached(),
            }
        },
    }
}

impl<T> UI<T> {
    /// Everything the browser holds is in order: no path is kept twice on a
    /// side, no text is noted twice, the colours are the standard ones, and
    /// the model is in order as [`BrowserModel::wf`] says.
    pub closed spec fn wf(&self) -> bool {
        &&& self.left_directory_views.wf()
        &&& self.right_directory_views.wf()
        &&& self.text_manager.wf()
        &&& self.theme == Theme::standard()
        &&& self@.wf()
    }

    /// A browser that is in order has a model that is in order, so that the
    /// laws of the model hold of it.
    pub proof fn lemma_wf_model(&self)
        requires
            self.wf(),
        ensures
            self@.wf(),
    {
    }

    /// A browser that shows one listing on either side, each with the cursor
    /// on its first entry, and takes commands on the left.
    pub fn new(left_entries: Entries, right_entries: Entries) -> (ui: UI<T>)
        ensures
            ui.wf(),
            ui@.wf(),
            ui@ == BrowserModel::<T>::start(left_entries@, right_entries@),
    {
        let mut left_directory_views = DirectoryViews::new();
        left_directory_views.insert(left_entries.absolute_path.clone(), DirectoryViewState::Active);
        let mut right_directory_views = DirectoryViews::new();
        right_directory_views.insert(
            right_entries.absolute_path.clone(),
            DirectoryViewState::Active,
        );

        let mut ui = UI {
            left_directory_views,
            right_directory_views,
            theme: Theme::default(),
            entity_manager: EntityManager::new(),
            text_manager: TextManager::new(),
            texture_manager: TextureManager::new(),
            active: Side::Left,
            lhs: DirectoryView::from_entries(&left_entries),
            rhs: DirectoryView::from_entries(&right_entries),
            tv: TasksView::new(),
        };
        ui.lhs.top();
        ui.rhs.top();
        ui
    }

    /// Takes note of a listing on both sides: see
    /// [`SideModel::update_dir_entries`].
    pub fn update_dir_entries(&mut self, de: Entries)
        requires
            old(self).wf(),
        ensures
            final(self).wf(),
            final(self)@.wf(),
            final(self)@ == old(self)@.update_dir_entries(de@),
    {
        proof {
            lemma_side_update_keeps_order(self@.left, de@);
            lemma_side_update_keeps_order(self@.right, de@);
        }
        self.left_directory_views.insert_if_absent(
            de.absolute_path.clone(),
            DirectoryViewState::Inactive(DirectoryView::from_entries(&de)),
        );
        self.right_directory_views.insert_if_absent(
            de.absolute_path.clone(),
            DirectoryViewState::Inactive(DirectoryView::from_entries(&de)),
        );
    }

    /// Moves the cursor of the pane that takes the commands towards its first
    /// entry.
    pub fn up(&mut self, distance: usize)
        requires
            old(self).wf(),
        ensures
            final(self).wf(),
            final(self)@.wf(),
            final(self)@ == old(self)@.moved(Motion::Up(distance as nat)),
    {
        proof {
            lemma_moved_settled(self@.live(), Motion::Up(distance as nat));
        }
        match self.active {
            Side::Left => self.lhs.up(distance),
            Side::Right => self.rhs.up(distance),
        }
    }

    /// Moves the cursor of the pane that takes the commands towards its last
    /// entry.
    pub fn down(&mut self, distance: usize)
        requires
            old(self).wf(),
        ensures
            final(self).wf(),
            final(self)@.wf(),
            final(self)@ == old(self)@.moved(Motion::Down(distance as nat)),
    {
        proof {
            lemma_moved_settled(self@.live(), Motion::Down(distance as nat));
        }
        match self.active {
            Side::Left => self.lhs.down(distance),
            Side::Right => self.rhs.down(distance),
        }
    }

    /// Jumps to the first entry of the pane that takes the commands.
    pub fn top(&mut self)
        requires
            old(self).wf(),
        ensures
            final(self).wf(),
            final(self)@.wf(),
            final(self)@ == old(self)@.moved(Motion::Top),
    {
        proof {
            lemma_moved_settled(self@.live(), Motion::Top);
        }
        match self.active {
            Side::Left => self.lhs.top(),
            Side::Right => self.rhs.top(),
        }
    }

    /// Jumps to the last entry of the pane that takes the commands.
    pub fn bottom(&mut self)
        requires
            old(self).wf(),
        ensures
            final(self).wf(),
            final(self)@.wf(),
            final(self)@ == old(self)@.moved(Motion::Bottom),
    {
        proof {
            lemma_moved_settled(self@.live(), Motion::Bottom);
        }
        match self.active {
            Side::Left => self.lhs.bottom(),
            Side::Right => self.rhs.bottom(),
        }
    }

    /// Hands the commands over to the other side. No pane changes.
    pub fn toggle_side(&mut self)
        ensures
            final(self)@ == old(self)@.toggle_side(),
            old(self).wf() ==> final(self).wf() && final(self)@.wf(),
    {
        match self.active {
            Side::Left => self.active = Side::Right,
            Side::Right => self.active = Side::Left,
        }
    }

    /// Flips the mark of the entry under the cursor of the pane that takes the
    /// commands.
    pub fn toggle_select(&mut self)
        requires
            old(self).wf(),
        ensures
            final(self).wf(),
            final(self)@.wf(),
            final(self)@ == old(self)@.toggle_select(),
    {
        match self.active {
            Side::Left => self.lhs.toggle_select(),
            Side::Right => self.rhs.toggle_select(),
        }
    }

    /// The pane that takes the commands.
    pub fn active_directory_view(&self) -> (pane: &DirectoryView)
        ensures
            pane@ == self@.live(),
    {
        match self.active {
            Side::Left => &self.lhs,
            Side::Right => &self.rhs,
        }
    }

    /// The absolute path of the directory that the pane that takes the
    /// commands shows.
    pub fn active_dir_path(&self) -> (path: String)
        ensures
            path@ == self@.live().dir,
    {
        self.active_directory_view().dir().clone()
    }

    /// A copy of the entry under the cursor of the pane that takes the
    /// commands, if there is one.
    pub fn hovered_entry(&self) -> (hovered: Option<Entry>)
        requires
            self.wf(),
        ensures
            match hovered {
                Some(entry) => self@.live().hovered_entry() == Some(entry@),
                None => self@.live().hovered_entry() is None,
            },
    {
        let dv = self.active_directory_view();
        dv.hovered_entry()
    }

    /// Shows a directory on the side that takes the commands, if a pane rests
    /// for it there: see [`SideModel::show_dir`]. Afterwards the directory of
    /// the pane on show is kept as the one on show.
    pub fn show_dir(&mut self, abs_path: String, selected_entry: String) -> (visit: Visit)
        requires
            old(self).wf(),
        ensures
            final(self).wf(),
            final(self)@.wf(),
            final(self)@ == old(self)@.show_dir(abs_path@, selected_entry@),
            visit == old(self)@.active_side().visit(abs_path@),
            final(self)@.active_side().views.contains_key(final(self)@.live().dir),
            final(self)@.active_side().views[final(self)@.live().dir] is Active,
    {
        proof {
            lemma_side_show_dir_keeps_order(self@.active_side(), abs_path@, selected_entry@);
        }
        match self.active {
            Side::Left => show_on(
                &mut self.left_directory_views,
                &mut self.lhs,
                abs_path,
                selected_entry,
            ),
            Side::Right => show_on(
                &mut self.right_directory_views,
                &mut self.rhs,
                abs_path,
                selected_entry,
            ),
        }
    }

    /// The directory that the entry under the cursor leads into, if there is
    /// an entry under the cursor.
    pub fn next(&self) -> (request: Option<NavRequest>)
        requires
            self.wf(),
        ensures
            match request {
                Some(found) => self@.next() == Some(found@),
                None => self@.next() is None,
            },
    {
        match self.hovered_entry() {
            Some(entry) => {
                let base = self.active_dir_path();
                Some(NavRequest { path: push(&base, &entry.name), hint: String::new() })
            },
            None => None,
        }
    }

    /// The directory that holds the one on show, and the name of the one on
    /// show to find it there by.
    pub fn prev(&self) -> (request: NavRequest)
        ensures
            request@ == self@.prev(),
    {
        let base = self.active_dir_path();
        let hint = match file_name(&base) {
            Some(name) => name,
            None => String::new(),
        };
        NavRequest { path: pop(&base), hint }
    }

    /// Applies an action: see [`BrowserModel::acted`]. What it leaves to do
    /// is handed back.
    pub fn dispatch(&mut self, action: Action) -> (effect: Effect)
        requires
            old(self).wf(),
        ensures
            final(self).wf(),
            final(self)@.wf(),
            final(self)@ == old(self)@.acted(action),
            match effect {
                Effect::Done => action != Action::Quit && old(self)@.asked(action) is None,
                Effect::Visit(request) => old(self)@.asked(action) == Some(request@),
                Effect::Quit => action == Action::Quit,
            },
    {
        match action {
            Action::Quit => Effect::Quit,
            Action::Up => {
                self.up(STEP);
                Effect::Done
            },
            Action::Down => {
                self.down(STEP);
                Effect::Done
            },
            Action::Top => {
                self.top();
                Effect::Done
            },
            Action::Bottom => {
                self.bottom();
                Effect::Done
            },
            Action::JumpUp => {
                self.up(JUMP);
                Effect::Done
            },
            Action::JumpDown => {
                self.down(JUMP);
                Effect::Done
            },
            Action::Next => match self.next() {
                Some(request) => Effect::Visit(request),
                None => Effect::Done,
            },
            Action::Prev => Effect::Visit(self.prev()),
            Action::ToggleSide => {
                self.toggle_side();
                Effect::Done
            },
            Action::ToggleSelect => {
                self.toggle_select();
                Effect::Done
            },
        }
    }

    /// Fits the panes to a surface of the given size and gives the commands
    /// that draw a frame on it: see [`BrowserModel::render`].
    pub fn render(&mut self, width: u32, height: u32) -> (plan: Vec<DrawCommand>)
        requires
            old(self).wf(),
        ensures
            final(self).wf(),
            final(self)@.wf(),
            final(self)@ == old(self)@.laid_out(width, height),
            ops_of(plan@) == final(self)@.render(Theme::standard(), width, height),
    {
        let panes_height: u32 = if height >= TASKS_HEIGHT {
            height - TASKS_HEIGHT
        } else {
            0
        };
        let left_region = Region { x: 0, y: 0, w: width / 2, h: panes_height };
        self.lhs.set_draw_region(left_region);
        let left_active = match self.active {
            Side::Left => true,
            Side::Right => false,
        };
        let right_active = match self.active {
            Side::Left => false,
            Side::Right => true,
        };
        let mut plan = self.lhs.render(&self.theme, left_active);
        let right_region = Region { x: width / 2, y: 0, w: width / 2, h: panes_height };
        self.rhs.set_draw_region(right_region);
        let ghost left = plan@;
        let mut right = self.rhs.render(&self.theme, right_active);
        proof {
            lemma_ops_of_concat(left, right@);
        }
        plan.append(&mut right);

        let tasks_region = Region { x: 0, y: panes_height, w: width, h: TASKS_HEIGHT };
        let ghost panes = plan@;
        let mut tasks = self.tv.render(tasks_region, self.theme.tasks);
        proof {
            lemma_ops_of_concat(panes, tasks@);
        }
        plan.append(&mut tasks);
        plan
    }

    /// Whether a resource can still be made for a text.
    pub fn can_draw(&self) -> (room: bool)
        ensures
            room == (self@.caches.upcoming < u64::MAX),
    {
        !self.entity_manager.exhausted()
    }

    /// Finds the resource to draw a text with, making it only if none is
    /// ready: see [`TextManager::render`]. A handle that is handed back has
    /// its resource held under it, for [`UI::texture`] to give.
    pub fn draw_text<E, F: FnOnce() -> Result<T, E>>(
        &mut self,
        text: &String,
        colour: Color,
        size: usize,
        make: F,
    ) -> (drawn: Result<Entity, E>)
        requires
            old(self).wf(),
            make.requires(()),
            forall|made: Result<T, E>| #[trigger]
                make.ensures((), made) ==> old(self)@.caches.has_room(
                    TextKey { text: text@, colour, size },
                    made,
                ),
        ensures
            final(self).wf(),
            final(self)@.wf(),
            drawn matches Ok(entity) ==> final(self)@.caches.textures.contains_key(entity.0),
            ({
                let key = TextKey { text: text@, colour, size };
                match old(self)@.caches.cached(key) {
                    Some(entity) => drawn == Ok::<Entity, E>(entity) && final(self)@ == old(self)@,
                    None => exists|made: Result<T, E>|
                        {
                            &&& make.ensures((), made)
                            &&& final(self)@ == old(self)@.drawn(key, made)
                            &&& drawn == old(self)@.caches.handle(key, made)
                        },
                }
            }),
    {
        let drawn = self.text_manager.render(
            &mut self.entity_manager,
            &mut self.texture_manager,
            text,
            colour,
            size,
            make,
        );
        proof {
            let key = TextKey { text: text@, colour, size };
            let before = old(self)@.caches;
            let after = self@.caches;
            if before.cached(key) is None {
                let made = choose|made: Result<T, E>|
                    {
                        &&& make.ensures((), made)
                        &&& after == before.recorded(key, made)
                        &&& drawn == before.handle(key, made)
                    };
                assert(self@ == old(self)@.drawn(key, made));
            }
        }
        drawn
    }

    /// The resource held under a handle.
    pub fn texture(&self, entity: Entity) -> (texture: Option<&T>)
        ensures
            match texture {
                Some(held) => self@.caches.textures.contains_key(entity.0) && *held
                    == self@.caches.textures[entity.0],
                None => !self@.caches.textures.contains_key(entity.0),
            },
    {
        self.texture_manager.get(entity)
    }

    /// The side that takes the commands.
    pub fn active_side(&self) -> (side: Side)
        ensures
            side == self@.active,
    {
        self.active
    }

    /// The pane on show on one side.
    pub fn directory_view(&self, side: Side) -> (pane: &DirectoryView)
        ensures
            pane@ == self@.side(side).live,
    {
        match side {
            Side::Left => &self.lhs,
            Side::Right => &self.rhs,
        }
    }

    /// Whether one side keeps anything for a directory and, if so, whether
    /// as the one on show.
    pub fn is_active(&self, side: Side, path: &String) -> (active: Option<bool>)
        requires
            self.wf(),
        ensures
            match active {
                Some(on_show) => self@.side(side).views.contains_key(path@) && on_show == (
                self@.side(side).views[path@] is Active),
                None => !self@.side(side).views.contains_key(path@),
            },
    {
        match side {
            Side::Left => self.left_directory_views.is_active(path),
            Side::Right => self.right_directory_views.is_active(path),
        }
    }

    /// Does what a request to visit a directory asks for, given the listing
    /// of the directory if it could be listed. With a listing, both sides
    /// take note of it and the directory is shown. Without one the visit is
    /// given up and nothing changes. See [`BrowserModel::visited`].
    pub fn visit(&mut self, request: NavRequest, listing: Option<Entries>) -> (visit: Visit)
        requires
            old(self).wf(),
        ensures
            final(self).wf(),
            final(self)@.wf(),
            final(self)@ == old(self)@.visited(
                request@,
                match listing {
                    Some(de) => Some(de@),
                    None => None,
                },
            ),
            visit == old(self)@.visit(
                request@,
                match listing {
                    Some(de) => Some(de@),
                    None => None,
                },
            ),
            listing is None ==> final(self)@ == old(self)@ && visit == Visit::Abandoned,
    {
        match listing {
            Some(de) => {
                self.update_dir_entries(de);
                self.show_dir(request.path, request.hint)
            },
            None => Visit::Abandoned,
        }
    }
}

} // verus!
