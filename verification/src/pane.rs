//! One pane: a listing with its cursor, its scroll window and its marks, and
//! what is drawn for it.

use vstd::prelude::*;
use crate::directory::{Entries, Entry, EntryKind, EntryView};
use crate::draw::{lemma_ops_of_concat, ops_of, DrawCommand, DrawOp, Region};
use crate::theme::Theme;
use vstd::string::StringExecFns;

verus! {

/// One row of a pane: a listed entry and its selection mark.
#[derive(Debug)]
pub struct DirectoryViewEntry {
    pub entry: Entry,
    pub selected: bool,
}

/// The mathematical content of a [`DirectoryViewEntry`].
pub struct RowModel {
    pub entry: EntryView,
    pub selected: bool,
}

impl View for DirectoryViewEntry {
    type V = RowModel;

    open spec fn view(&self) -> RowModel {
        RowModel { entry: self.entry@, selected: self.selected }
    }
}

/// The number of whole lines that fit a pane `height` pixels high, once two
/// lines are set aside for the path header and the padding above it: the
/// quotient `(height - 2 * line_height) / line_height` rounded to the nearest
/// integer, halves upward, and zero where the pane is too low for any line.
pub open spec fn visible_lines(height: nat, line_height: nat) -> nat {
    if height <= 2 * line_height || line_height == 0 {
        0
    } else {
        let rest = (height - 2 * line_height) as nat;
        (2 * rest + line_height) / (2 * line_height)
    }
}

/// The space, in pixels, left free around the contents of a pane.
pub const PADDING: u32 = 5;

/// The height, in pixels, of the line that shows the path of a pane.
pub const HEADER_HEIGHT: u32 = 28;

/// The height, in pixels, of the row of one entry.
pub const ROW_HEIGHT: u32 = 24;

/// The width, in pixels, set aside for the glyph before a name.
pub const ICON_WIDTH: u32 = 20;

/// The width, in pixels, of the bar that shows a mark.
pub const SELECT_WIDTH: u32 = 4;

/// The width, in pixels, of the scrollbar.
pub const SCROLLBAR_WIDTH: u32 = 5;

/// The size that every text is drawn in.
pub const TEXT_SIZE: usize = 18;

/// The glyph drawn before the name of an entry of the given kind.
pub open spec fn icon(kind: EntryKind) -> Seq<char> {
    match kind {
        EntryKind::Dir => seq!['\u{f4d3}'],
        EntryKind::File => seq![' '],
    }
}

/// See [`icon`].
pub fn icon_text(kind: EntryKind) -> (text: String)
    ensures
        text@ == icon(kind),
{
    match kind {
        EntryKind::Dir => {
            proof {
                reveal_strlit("\u{f4d3}");
            }
            String::from_str("\u{f4d3}")
        },
        EntryKind::File => {
            proof {
                reveal_strlit(" ");
            }
            String::from_str(" ")
        },
    }
}

/// No more lines fit a pane than it has pixels in height.
pub proof fn lemma_visible_lines_bound(height: nat, line_height: nat)
    ensures
        visible_lines(height, line_height) <= height,
{
    if height > 2 * line_height && line_height > 0 {
        let n = 2 * ((height - 2 * line_height) as nat) + line_height;
        let d = 2 * line_height;
        assert(n / d <= height) by (nonlinear_arith)
            requires
                0 <= n <= 2 * height,
                d >= 2,
        ;
    }
}

/// The mathematical content of a [`DirectoryView`].
pub struct PaneModel {
    pub dir: Seq<char>,
    pub entries: Seq<RowModel>,
    pub draw_region: Region,
    pub line_height: nat,
    pub scroll_index: nat,
    pub selected_index: Option<nat>,
}

impl PaneModel {
    /// A cursor, where there is one, points at an entry.
    pub open spec fn wf(self) -> bool {
        &&& self.line_height > 0
        &&& self.selected_index matches Some(c) ==> c < self.entries.len()
    }

    /// The pane has a cursor exactly if it has entries.
    pub open spec fn settled(self) -> bool {
        &&& self.wf()
        &&& self.selected_index is None <==> self.entries.len() == 0
    }

    /// How many rows the scroll window spans.
    pub open spec fn window(self) -> nat {
        visible_lines(self.draw_region.h as nat, self.line_height)
    }

    /// The cursor, where there is one, lies inside the scroll window.
    pub open spec fn cursor_in_window(self) -> bool {
        self.selected_index matches Some(c) ==> self.scroll_index <= c < self.scroll_index
            + self.window()
    }

    /// The pane after the cursor jumped to the first entry.
    pub open spec fn top(self) -> PaneModel {
        if self.entries.len() > 0 {
            PaneModel { selected_index: Some(0), scroll_index: 0, ..self }
        } else {
            self
        }
    }

    /// The pane after the cursor moved `distance` entries towards the first
    /// one, stopping there; the window follows a cursor that left it upward.
    pub open spec fn up(self, distance: nat) -> PaneModel {
        match self.selected_index {
            Some(c) => {
                let cursor = if c < distance {
                    0
                } else {
                    (c - distance) as nat
                };
                PaneModel {
                    selected_index: Some(cursor),
                    scroll_index: if cursor < self.scroll_index {
                        cursor
                    } else {
                        self.scroll_index
                    },
                    ..self
                }
            },
            None => self,
        }
    }

    /// The pane after the cursor moved `distance` entries towards the last
    /// one, stopping there; the window follows a cursor that left it downward,
    /// so that the cursor is its last row.
    pub open spec fn down(self, distance: nat) -> PaneModel {
        match self.selected_index {
            Some(c) => {
                let cursor = if c + distance < self.entries.len() {
                    c + distance
                } else {
                    (self.entries.len() - 1) as nat
                };
                PaneModel {
                    selected_index: Some(cursor),
                    scroll_index: if cursor >= self.scroll_index + self.window() {
                        (cursor - self.window() + 1) as nat
                    } else {
                        self.scroll_index
                    },
                    ..self
                }
            },
            None => self,
        }
    }

    /// The pane after the cursor jumped to the last entry.
    pub open spec fn bottom(self) -> PaneModel {
        if self.entries.len() > 0 {
            PaneModel { selected_index: Some((self.entries.len() - 1) as nat), ..self }.down(0)
        } else {
            self
        }
    }

    /// The pane after the mark of the entry under the cursor was flipped.
    pub open spec fn toggle_select(self) -> PaneModel {
        match self.selected_index {
            Some(c) => PaneModel {
                entries: self.entries.update(
                    c as int,
                    RowModel { selected: !self.entries[c as int].selected, ..self.entries[c as int] },
                ),
                ..self
            },
            None => self,
        }
    }

    /// How many rows are drawn: those of the scroll window and one more,
    /// which may show in part, as far as there are entries for them.
    pub open spec fn shown_rows(self) -> nat {
        if self.scroll_index >= self.entries.len() {
            0
        } else if self.window() + 1 < self.entries.len() - self.scroll_index {
            self.window() + 1
        } else {
            (self.entries.len() - self.scroll_index) as nat
        }
    }

    /// The top edge of the row drawn `slot` rows below the header.
    pub open spec fn row_top(self, slot: nat) -> int {
        self.draw_region.y + PADDING + HEADER_HEIGHT + ROW_HEIGHT * slot
    }

    /// What is drawn for the row `slot` rows below the header: in the active
    /// pane a band under the cursor and a bar before a marked entry, and in
    /// either pane the glyph of the entry's kind and its name.
    pub open spec fn row_ops(self, theme: Theme, active: bool, slot: nat) -> Seq<DrawOp> {
        let index = self.scroll_index + slot;
        let row = self.entries[index as int];
        let x = self.draw_region.x as int;
        let y = self.row_top(slot);
        let band = if active && self.selected_index == Some(index) {
            seq![
                DrawOp::Fill {
                    colour: theme.cursor,
                    x,
                    y,
                    w: self.draw_region.w as int,
                    h: ROW_HEIGHT as int,
                },
            ]
        } else {
            Seq::empty()
        };
        let bar = if active && row.selected {
            seq![
                DrawOp::Fill {
                    colour: theme.selected,
                    x,
                    y,
                    w: SELECT_WIDTH as int,
                    h: ROW_HEIGHT as int,
                },
            ]
        } else {
            Seq::empty()
        };
        band + bar + seq![
            DrawOp::Text {
                text: icon(row.entry.kind),
                colour: theme.text,
                size: TEXT_SIZE as nat,
                x: x + 2 * SELECT_WIDTH + PADDING,
                y,
            },
            DrawOp::Text {
                text: row.entry.name,
                colour: theme.text,
                size: TEXT_SIZE as nat,
                x: x + 2 * SELECT_WIDTH + ICON_WIDTH + PADDING,
                y,
            },
        ]
    }

    /// What is drawn for the first `count` rows, from the top.
    pub open spec fn rows_ops(self, theme: Theme, active: bool, count: nat) -> Seq<DrawOp>
        decreases count,
    {
        if count == 0 {
            Seq::empty()
        } else {
            self.rows_ops(theme, active, (count - 1) as nat) + self.row_ops(
                theme,
                active,
                (count - 1) as nat,
            )
        }
    }

    /// The scrollbar of the active pane, drawn where the pane lists more
    /// entries than its window spans: the thumb shows which part of the
    /// listing the window covers.
    pub open spec fn scrollbar_ops(self, theme: Theme, active: bool) -> Seq<DrawOp> {
        if active && self.entries.len() > self.window() {
            seq![
                DrawOp::Thumb {
                    colour: theme.scrollbar,
                    x: self.draw_region.x + self.draw_region.w - SCROLLBAR_WIDTH,
                    y: PADDING + HEADER_HEIGHT,
                    w: SCROLLBAR_WIDTH as int,
                    h: self.draw_region.h - HEADER_HEIGHT - PADDING,
                    offset: self.scroll_index,
                    extent: self.window(),
                    total: self.entries.len(),
                },
            ]
        } else {
            Seq::empty()
        }
    }

    /// The background of the pane and the line that shows its path.
    pub open spec fn frame_ops(self, theme: Theme, active: bool) -> Seq<DrawOp> {
        seq![
            DrawOp::Fill {
                colour: if active {
                    theme.active
                } else {
                    theme.inactive
                },
                x: self.draw_region.x as int,
                y: self.draw_region.y as int,
                w: self.draw_region.w as int,
                h: self.draw_region.h as int,
            },
            DrawOp::Text {
                text: self.dir,
                colour: theme.header,
                size: TEXT_SIZE as nat,
                x: self.draw_region.x + PADDING,
                y: self.draw_region.y + PADDING,
            },
        ]
    }

    /// Everything drawn for the pane, in order: the frame, the rows from the
    /// top and the scrollbar.
    pub open spec fn render(self, theme: Theme, active: bool) -> Seq<DrawOp> {
        self.frame_ops(theme, active) + self.rows_ops(theme, active, self.shown_rows())
            + self.scrollbar_ops(theme, active)
    }

    /// The names of the entries, in order.
    pub open spec fn names(self) -> Seq<Seq<char>> {
        Seq::new(self.entries.len(), |i: int| self.entries[i].entry.name)
    }

    /// Where the cursor lands when the pane comes on show: where it was, if
    /// the pane had one; else on the first entry called `hint`; else on the
    /// first entry, if there is any.
    pub open spec fn landing(self, hint: Seq<char>) -> Option<nat> {
        if self.selected_index is Some {
            self.selected_index
        } else {
            match self.names().index_of_first(hint) {
                Some(i) => Some(i as nat),
                None => if self.entries.len() > 0 {
                    Some(0)
                } else {
                    None
                },
            }
        }
    }

    /// The pane as it comes on show: see [`PaneModel::landing`].
    pub open spec fn resumed(self, hint: Seq<char>) -> PaneModel {
        PaneModel { selected_index: self.landing(hint), ..self }
    }

    /// The entry under the cursor.
    pub open spec fn hovered_entry(self) -> Option<EntryView> {
        match self.selected_index {
            Some(c) => Some(self.entries[c as int].entry),
            None => None,
        }
    }
}

/// One movement of the cursor.
pub enum Motion {
    Up(nat),
    Down(nat),
    Top,
    Bottom,
}

impl PaneModel {
    /// The pane after one movement of the cursor.
    pub open spec fn moved(self, motion: Motion) -> PaneModel {
        match motion {
            Motion::Up(distance) => self.up(distance),
            Motion::Down(distance) => self.down(distance),
            Motion::Top => self.top(),
            Motion::Bottom => self.bottom(),
        }
    }

    /// The pane after a series of movements of the cursor.
    pub open spec fn moved_all(self, motions: Seq<Motion>) -> PaneModel
        decreases motions.len(),
    {
        if motions.len() == 0 {
            self
        } else {
            self.moved_all(motions.drop_last()).moved(motions.last())
        }
    }
}

/// Moving the cursor up or down by any distance changes nothing but cursor
/// and window, and leaves the cursor on an entry of the listing. A pane that
/// has a cursor exactly if it has entries stays so: with entries it keeps a
/// cursor below their number, and without entries it has none.
pub proof fn lemma_cursor_stays_on_listing(pane: PaneModel, distance: nat)
    requires
        pane.wf(),
    ensures
        pane.up(distance).wf(),
        pane.down(distance).wf(),
        pane.up(distance).entries == pane.entries,
        pane.down(distance).entries == pane.entries,
        pane.up(distance).selected_index matches Some(c) ==> 0 <= c < pane.entries.len(),
        pane.down(distance).selected_index matches Some(c) ==> 0 <= c < pane.entries.len(),
        pane.settled() ==> pane.up(distance).settled() && pane.down(distance).settled(),
        pane.settled() ==> (pane.up(distance).selected_index is None <==> pane.entries.len() == 0),
        pane.settled() ==> (pane.down(distance).selected_index is None <==> pane.entries.len()
            == 0),
{
}

/// No movement of the cursor takes it off the listing or changes the listing.
pub proof fn lemma_moved_settled(pane: PaneModel, motion: Motion)
    requires
        pane.settled(),
    ensures
        pane.moved(motion).settled(),
        pane.moved(motion).entries == pane.entries,
        pane.moved(motion).dir == pane.dir,
        pane.moved(motion).draw_region == pane.draw_region,
        pane.moved(motion).line_height == pane.line_height,
{
}

/// A pane without entries has no cursor, and no command changes it: jumps,
/// movements and the flipping of a mark leave it as it is, and no entry is
/// under its cursor.
pub proof fn lemma_empty_pane_ignores_commands(pane: PaneModel, motion: Motion)
    requires
        pane.wf(),
        pane.entries.len() == 0,
    ensures
        pane.selected_index is None,
        pane.moved(motion) == pane,
        pane.toggle_select() == pane,
        pane.hovered_entry() is None,
{
}

/// No series of movements of the cursor takes it off the listing or changes
/// anything but cursor and window.
pub proof fn lemma_moved_all_settled(pane: PaneModel, motions: Seq<Motion>)
    requires
        pane.settled(),
    ensures
        pane.moved_all(motions).settled(),
        pane.moved_all(motions).entries == pane.entries,
        pane.moved_all(motions).dir == pane.dir,
        pane.moved_all(motions).draw_region == pane.draw_region,
        pane.moved_all(motions).line_height == pane.line_height,
    decreases motions.len(),
{
    if motions.len() > 0 {
        lemma_moved_all_settled(pane, motions.drop_last());
        lemma_moved_settled(pane.moved_all(motions.drop_last()), motions.last());
    }
}

/// The scroll window follows the cursor: in a pane that has a cursor if it
/// has entries, and whose window spans at least one row and holds the cursor,
/// the window still holds the cursor after any series of movements.
pub proof fn lemma_cursor_stays_in_window(pane: PaneModel, motions: Seq<Motion>)
    requires
        pane.settled(),
        pane.window() >= 1,
        pane.cursor_in_window(),
    ensures
        pane.moved_all(motions).settled(),
        pane.moved_all(motions).window() == pane.window(),
        pane.moved_all(motions).cursor_in_window(),
    decreases motions.len(),
{
    if motions.len() > 0 {
        lemma_cursor_stays_in_window(pane, motions.drop_last());
    }
}

/// A jump to the first entry brings the cursor into the window wherever it
/// was, if the window spans at least one row.
pub proof fn lemma_top_enters_window(pane: PaneModel)
    requires
        pane.window() >= 1,
    ensures
        pane.entries.len() > 0 ==> pane.top().cursor_in_window(),
{
}

/// One pane: the listing of a directory with a cursor, a scroll window and
/// the marks the user set.
#[derive(Debug)]
pub struct DirectoryView {
    dir: String,
    entries: Vec<DirectoryViewEntry>,
    draw_region: Region,
    line_height: u32,
    scroll_index: usize,
    selected_index: Option<usize>,
}

impl View for DirectoryView {
    type V = PaneModel;

    closed spec fn view(&self) -> PaneModel {
        PaneModel {
            dir: self.dir@,
            entries: Seq::new(self.entries@.len(), |i: int| self.entries@[i]@),
            draw_region: self.draw_region,
            line_height: self.line_height as nat,
            scroll_index: self.scroll_index as nat,
            selected_index: match self.selected_index {
                Some(c) => Some(c as nat),
                None => None,
            },
        }
    }
}

impl DirectoryView {
    /// An empty pane for the directory at `abs_path`.
    pub fn new(abs_path: String) -> (pane: DirectoryView)
        ensures
            pane@.wf(),
            pane@ == (PaneModel {
                dir: abs_path@,
                entries: Seq::empty(),
                draw_region: Region { x: 0, y: 0, w: 0, h: 0 },
                line_height: 24,
                scroll_index: 0,
                selected_index: None,
            }),
    {
        let pane = DirectoryView {
            dir: abs_path,
            entries: Vec::new(),
            draw_region: Region { x: 0, y: 0, w: 0, h: 0 },
            line_height: 24,
            scroll_index: 0,
            selected_index: None,
        };
        assert(pane@.entries =~= Seq::empty());
        pane
    }

    /// See [`visible_lines`].
    pub fn num_lines(view_height: u32, line_height: u32) -> (lines: usize)
        requires
            line_height > 0,
        ensures
            lines == visible_lines(view_height as nat, line_height as nat),
            lines <= view_height,
    {
        proof {
            lemma_visible_lines_bound(view_height as nat, line_height as nat);
        }
        let height: u64 = view_height as u64;
        let line: u64 = line_height as u64;
        if height <= 2 * line {
            0
        } else {
            let lines: u64 = (2 * (height - 2 * line) + line) / (2 * line);
            lines as usize
        }
    }

    /// The pane that first shows a listing: every entry unmarked, no cursor
    /// yet, the window at the first entry.
    pub open spec fn listed(path: Seq<char>, entries: Seq<EntryView>) -> PaneModel {
        PaneModel {
            dir: path,
            entries: Seq::new(entries.len(), |i: int| RowModel { entry: entries[i], selected: false }),
            draw_region: Region { x: 0, y: 0, w: 0, h: 0 },
            line_height: 24,
            scroll_index: 0,
            selected_index: None,
        }
    }

    /// A pane for a listing: see [`DirectoryView::listed`].
    pub fn from_entries(de: &Entries) -> (pane: DirectoryView)
        ensures
            pane@.wf(),
            pane@ == DirectoryView::listed(de.absolute_path@, de@.entries),
    {
        let mut pane = DirectoryView::new(de.absolute_path.clone());
        assert(pane.entries@.len() == pane@.entries.len());
        let mut i: usize = 0;
        while i < de.entries.len()
            invariant
                i <= de.entries.len(),
                pane.entries.len() == i,
                forall|k: int| 0 <= k < i ==> #[trigger] pane.entries@[k]@ == (RowModel {
                    entry: de.entries@[k]@,
                    selected: false,
                }),
                pane.dir@ == de.absolute_path@,
                pane.draw_region == (Region { x: 0, y: 0, w: 0, h: 0 }),
                pane.line_height == 24,
                pane.scroll_index == 0,
                pane.selected_index is None,
            decreases de.entries.len() - i,
        {
            pane.entries.push(DirectoryViewEntry { entry: de.entries[i].clone(), selected: false });
            i += 1;
        }
        assert(pane@.entries =~= DirectoryView::listed(de.absolute_path@, de@.entries).entries);
        pane
    }

    /// Sets the region of the surface that the pane is drawn in, and with it
    /// the number of rows that its window spans.
    pub fn set_draw_region(&mut self, region: Region)
        ensures
            final(self)@ == (PaneModel { draw_region: region, ..old(self)@ }),
            old(self)@.wf() ==> final(self)@.wf(),
    {
        self.draw_region = region;
    }

    /// Jumps to the first entry: see [`PaneModel::top`].
    pub fn top(&mut self)
        ensures
            final(self)@ == old(self)@.top(),
            old(self)@.wf() ==> final(self)@.wf(),
    {
        if self.entries.len() > 0 {
            self.selected_index = Some(0);
            self.scroll_index = 0;
        }
    }

    /// Jumps to the last entry: see [`PaneModel::bottom`].
    pub fn bottom(&mut self)
        requires
            old(self)@.wf(),
        ensures
            final(self)@ == old(self)@.bottom(),
            final(self)@.wf(),
    {
        if self.entries.len() > 0 {
            self.selected_index = Some(self.entries.len() - 1);
            self.down(0);
        }
    }

    /// Moves the cursor towards the first entry: see [`PaneModel::up`].
    pub fn up(&mut self, distance: usize)
        ensures
            final(self)@ == old(self)@.up(distance as nat),
            old(self)@.wf() ==> final(self)@.wf(),
    {
        if let Some(current) = self.selected_index {
            let delta = if current < distance {
                current
            } else {
                distance
            };
            let hover_index = current - delta;
            self.selected_index = Some(hover_index);

            if hover_index < self.scroll_index {
                self.scroll_index = hover_index;
            }
        }
    }

    /// Moves the cursor towards the last entry: see [`PaneModel::down`].
    pub fn down(&mut self, distance: usize)
        requires
            old(self)@.wf(),
        ensures
            final(self)@ == old(self)@.down(distance as nat),
            final(self)@.wf(),
    {
        if let Some(current) = self.selected_index {
            let delta = if distance < self.entries.len() - current {
                distance
            } else {
                self.entries.len() - current - 1
            };
            let hover_index = current + delta;
            self.selected_index = Some(hover_index);

            let num_lines = DirectoryView::num_lines(self.draw_region.h, self.line_height);
            if hover_index >= self.scroll_index && hover_index - self.scroll_index >= num_lines {
                self.scroll_index = hover_index - num_lines + 1;
            }
        }
    }

    /// Flips the mark of the entry under the cursor, if there is one.
    pub fn toggle_select(&mut self)
        requires
            old(self)@.wf(),
        ensures
            final(self)@ == old(self)@.toggle_select(),
            final(self)@.wf(),
    {
        if let Some(current) = self.selected_index {
            let marked = self.entries[current].selected;
            self.entries[current].selected = !marked;
            assert(self@.entries =~= old(self)@.toggle_select().entries);
        }
    }

    /// A copy of the entry under the cursor, if there is one.
    pub fn hovered_entry(&self) -> (hovered: Option<Entry>)
        requires
            self@.wf(),
        ensures
            match hovered {
                Some(entry) => self@.hovered_entry() == Some(entry@),
                None => self@.hovered_entry() is None,
            },
    {
        if let Some(current) = self.selected_index {
            return Some(self.entries[current].entry.clone());
        }
        None
    }

    /// The absolute path of the directory shown.
    pub fn dir(&self) -> (path: &String)
        ensures
            path@ == self@.dir,
    {
        &self.dir
    }

    /// How many entries the pane lists.
    pub fn len(&self) -> (n: usize)
        ensures
            n == self@.entries.len(),
    {
        self.entries.len()
    }

    /// The row at `index`.
    pub fn row(&self, index: usize) -> (row: &DirectoryViewEntry)
        requires
            index < self@.entries.len(),
        ensures
            row@ == self@.entries[index as int],
    {
        &self.entries[index]
    }

    /// The index of the first entry of the scroll window.
    pub fn scroll_index(&self) -> (first: usize)
        ensures
            first == self@.scroll_index,
    {
        self.scroll_index
    }

    /// The index of the entry under the cursor.
    pub fn selected_index(&self) -> (cursor: Option<usize>)
        ensures
            match cursor {
                Some(c) => self@.selected_index == Some(c as nat),
                None => self@.selected_index is None,
            },
    {
        self.selected_index
    }

    /// The region of the surface that the pane is drawn in.
    pub fn draw_region(&self) -> (region: Region)
        ensures
            region == self@.draw_region,
    {
        self.draw_region
    }

    /// The commands that draw one row: see [`PaneModel::row_ops`].
    fn render_row(&self, theme: &Theme, active: bool, slot: usize) -> (row: Vec<DrawCommand>)
        requires
            self@.scroll_index + slot < self@.entries.len(),
            slot <= u32::MAX,
        ensures
            ops_of(row@) == self@.row_ops(*theme, active, slot as nat),
    {
        let region = self.draw_region;
        let total = self.entries.len();
        let index = self.scroll_index + slot;
        let entry = &self.entries[index];
        let left: i64 = region.x as i64;
        let rows: i64 = slot as i64;
        let height: i64 = ROW_HEIGHT as i64;
        assert(height * rows <= 24 * u32::MAX) by (nonlinear_arith)
            requires
                height == 24,
                0 <= rows <= u32::MAX,
        ;
        let below: i64 = height * rows;
        let top: i64 = region.y as i64 + PADDING as i64 + HEADER_HEIGHT as i64 + below;

        let mut row: Vec<DrawCommand> = Vec::new();
        if active && self.selected_index == Some(index) {
            row.push(
                DrawCommand::Fill {
                    colour: theme.cursor,
                    x: left,
                    y: top,
                    w: region.w as i64,
                    h: ROW_HEIGHT as i64,
                },
            );
        }
        if active && entry.selected {
            row.push(
                DrawCommand::Fill {
                    colour: theme.selected,
                    x: left,
                    y: top,
                    w: SELECT_WIDTH as i64,
                    h: ROW_HEIGHT as i64,
                },
            );
        }
        row.push(
            DrawCommand::Text {
                text: icon_text(entry.entry.kind),
                colour: theme.text,
                size: TEXT_SIZE,
                x: left + 2 * SELECT_WIDTH as i64 + PADDING as i64,
                y: top,
            },
        );
        row.push(
            DrawCommand::Text {
                text: entry.entry.name.clone(),
                colour: theme.text,
                size: TEXT_SIZE,
                x: left + 2 * SELECT_WIDTH as i64 + ICON_WIDTH as i64 + PADDING as i64,
                y: top,
            },
        );
        row
    }

    /// The commands that draw the frame: see [`PaneModel::frame_ops`].
    fn render_frame(&self, theme: &Theme, active: bool) -> (frame: Vec<DrawCommand>)
        ensures
            ops_of(frame@) == self@.frame_ops(*theme, active),
    {
        let region = self.draw_region;
        let mut frame: Vec<DrawCommand> = Vec::new();
        frame.push(
            DrawCommand::Fill {
                colour: if active {
                    theme.active
                } else {
                    theme.inactive
                },
                x: region.x as i64,
                y: region.y as i64,
                w: region.w as i64,
                h: region.h as i64,
            },
        );
        frame.push(
            DrawCommand::Text {
                text: self.dir.clone(),
                colour: theme.header,
                size: TEXT_SIZE,
                x: region.x as i64 + PADDING as i64,
                y: region.y as i64 + PADDING as i64,
            },
        );
        frame
    }

    /// The commands that draw the scrollbar: see [`PaneModel::scrollbar_ops`].
    fn render_scrollbar(&self, theme: &Theme, active: bool) -> (bar: Vec<DrawCommand>)
        requires
            self@.wf(),
        ensures
            ops_of(bar@) == self@.scrollbar_ops(*theme, active),
    {
        let region = self.draw_region;
        let num_lines = DirectoryView::num_lines(region.h, self.line_height);
        let mut bar: Vec<DrawCommand> = Vec::new();
        if active && self.entries.len() > num_lines {
            bar.push(
                DrawCommand::Thumb {
                    colour: theme.scrollbar,
                    x: region.x as i64 + region.w as i64 - SCROLLBAR_WIDTH as i64,
                    y: PADDING as i64 + HEADER_HEIGHT as i64,
                    w: SCROLLBAR_WIDTH as i64,
                    h: region.h as i64 - HEADER_HEIGHT as i64 - PADDING as i64,
                    offset: self.scroll_index,
                    extent: num_lines,
                    total: self.entries.len(),
                },
            );
        }
        bar
    }

    /// The commands that draw the pane: see [`PaneModel::render`].
    pub fn render(&self, theme: &Theme, active: bool) -> (plan: Vec<DrawCommand>)
        requires
            self@.wf(),
        ensures
            ops_of(plan@) == self@.render(*theme, active),
    {
        let num_lines = DirectoryView::num_lines(self.draw_region.h, self.line_height);
        let first = self.scroll_index;
        let total = self.entries.len();
        let shown: usize = if first >= total {
            0
        } else if num_lines < total - first - 1 {
            num_lines + 1
        } else {
            total - first
        };

        let mut plan = self.render_frame(theme, active);
        let mut slot: usize = 0;
        while slot < shown
            invariant
                slot <= shown,
                shown == self@.shown_rows(),
                shown <= num_lines + 1,
                num_lines <= u32::MAX,
                shown == 0 || self@.scroll_index + shown <= self@.entries.len(),
                ops_of(plan@) == self@.frame_ops(*theme, active) + self@.rows_ops(
                    *theme,
                    active,
                    slot as nat,
                ),
            decreases shown - slot,
        {
            let ghost before = plan@;
            let mut row = self.render_row(theme, active, slot);
            proof {
                lemma_ops_of_concat(before, row@);
            }
            plan.append(&mut row);
            slot += 1;
        }

        let ghost before = plan@;
        let mut bar = self.render_scrollbar(theme, active);
        proof {
            lemma_ops_of_concat(before, bar@);
        }
        plan.append(&mut bar);
        plan
    }

    /// Puts the cursor where it belongs when the pane comes on show: see
    /// [`PaneModel::landing`].
    pub fn resume(&mut self, selected_entry: &String)
        requires
            old(self)@.wf(),
        ensures
            final(self)@ == old(self)@.resumed(selected_entry@),
            final(self)@.settled(),
    {
        if self.selected_index.is_none() {
            let ghost names = self@.names();
            let mut idx: usize = 0;
            while idx < self.entries.len()
                invariant
                    idx <= self.entries.len(),
                    forall|j: int| 0 <= j < idx ==> names[j] != selected_entry@,
                    names == self@.names(),
                    *self == *old(self),
                    self.selected_index is None,
                    self@.wf(),
                decreases self.entries.len() - idx,
            {
                if self.entries[idx].entry.name == *selected_entry {
                    proof {
                        assert(names[idx as int] == selected_entry@);
                        names.index_of_first_ensures(selected_entry@);
                    }
                    self.selected_index = Some(idx);
                    return ;
                }
                idx += 1;
            }
            proof {
                names.index_of_first_ensures(selected_entry@);
            }
            if self.entries.len() > 0 {
                self.selected_index = Some(0);
            }
        }
    }
}

impl<'a> From<&'a Entries> for DirectoryView {
    /// A pane for a listing: see [`DirectoryView::listed`].
    fn from(de: &'a Entries) -> (pane: DirectoryView)
        ensures
            pane@.wf(),
            pane@ == DirectoryView::listed(de.absolute_path@, de@.entries),
    {
        DirectoryView::from_entries(de)
    }
}

impl<'a> vstd::std_specs::convert::FromSpecImpl<&'a Entries> for DirectoryView {
    open spec fn obeys_from_spec() -> bool {
        false
    }

    open spec fn from_spec(de: &'a Entries) -> DirectoryView {
        arbitrary()
    }
}

} // verus!
