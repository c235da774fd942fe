//! What the interface knows, and what it does with each event.

use std::collections::hash_map::Entry;
use std::collections::{HashMap, VecDeque};

use neovim_lib::neovim_api::Window as NvimWindow;
use vstd::prelude::*;

use crate::action::{
    Action, Answer, CmdlineOp, Command, Container, Font, FrameOp, Gravity, GridMetrics, GridOp,
    MenuOp, Note, NvimCall, Query, Rect, TablineOp, TooltipOp, Turn,
};
use crate::event::{
    items_of_all, push_batch, DefaultColorsSet, GnvimEvent, GridCursorGoto, GridResize, ModeInfo,
    Notify, OptionSet, PopupmenuShow, RedrawEvent, RedrawItem, WindowFloatPos, WindowPos,
};
use crate::grids::Grids;
use crate::hl_defs::HlDefs;
use crate::laws::{law_gnvim_keeps_wf, law_redraw_keeps_wf, law_resume_keeps_wf};
use crate::model::{
    float_fits, is_step, on_frame, on_grid, on_messages, place_fits, shift_fits, FloatPlace, Model,
    Place, ResizeOptions, Stage, MAIN_GRID,
};
use crate::window::{product, MsgWindow, Window};

verus! {

/// What the interface knows.
pub struct UIState {
    /// The windows, by the grids that they show.
    pub windows: HashMap<i64, Window>,
    /// Window for our messages grid.
    pub msg_window: MsgWindow,
    /// All grids currently in the UI.
    pub grids: Grids,
    /// Highlight definitions.
    pub hl_defs: HlDefs,
    /// Mode infos. When a mode is activated, the activated mode is passed to
    /// the grids.
    pub mode_infos: Vec<ModeInfo>,
    /// Current mode.
    pub current_mode: Option<ModeInfo>,
    /// Id of the current active grid.
    pub current_grid: i64,
    /// Resize options that is some if a resize should be sent to nvim on flush.
    pub resize_on_flush: Option<ResizeOptions>,
    pub font: Font,
    pub line_space: i64,
    /// Whether there is a cursor tooltip.
    pub tooltip: bool,
    /// What is still to be done of the batch in hand.
    pub queue: VecDeque<RedrawItem>,
    /// What the interface waits for, in the midst of an event.
    pub stage: Stage,
}

impl View for UIState {
    type V = Model;

    open spec fn view(&self) -> Model {
        Model {
            windows: self.windows@,
            messages: self.msg_window.container,
            grids: self.grids.ids@,
            hl: self.hl_defs@,
            mode_infos: self.mode_infos@,
            current_mode: self.current_mode,
            current_grid: self.current_grid,
            resize_on_flush: self.resize_on_flush,
            font: self.font,
            line_space: self.line_space,
            tooltip: self.tooltip,
            queue: self.queue@,
            stage: self.stage,
        }
    }
}

/// A turn without a question.
fn acts(actions: Vec<Action>) -> (turn: Turn)
    ensures
        turn.actions == actions,
        turn.ask is None,
{
    Turn { actions, ask: None }
}

/// A turn of one action.
fn act(action: Action) -> (turn: Turn)
    ensures
        turn.actions@ == seq![action],
        turn.ask is None,
{
    let mut actions: Vec<Action> = Vec::new();
    actions.push(action);
    assert(actions@ =~= seq![action]);
    Turn { actions, ask: None }
}

/// A turn of a question alone.
fn asks(query: Query) -> (turn: Turn)
    ensures
        turn.actions@ == Seq::<Action>::empty(),
        turn.ask == Some(query),
{
    Turn { actions: Vec::new(), ask: Some(query) }
}

/// Adds `ops` for the frame of the window that shows `grid`.
fn push_frame_ops(actions: &mut Vec<Action>, grid: i64, ops: Vec<FrameOp>)
    ensures
        final(actions)@ == old(actions)@ + on_frame(grid, ops@),
{
    let ghost f = |op: FrameOp| Action::Window { grid, op };
    let mut i: usize = 0;
    while i < ops.len()
        invariant
            i <= ops@.len(),
            f == (|op: FrameOp| Action::Window { grid, op }),
            actions@ == old(actions)@ + ops@.take(i as int).map_values(f),
        decreases ops@.len() - i,
    {
        actions.push(Action::Window { grid, op: ops[i] });
        i = i + 1;
        assert(ops@.take(i as int) =~= ops@.take(i - 1).push(ops@[i - 1]));
        assert(actions@ =~= old(actions)@ + ops@.take(i as int).map_values(f));
    }
    assert(ops@.take(ops@.len() as int) =~= ops@);
}

/// Adds `ops` for the frame of the message window.
pub(crate) fn push_message_ops(actions: &mut Vec<Action>, ops: Vec<FrameOp>)
    ensures
        final(actions)@ == old(actions)@ + on_messages(ops@),
{
    let ghost f = |op: FrameOp| Action::MsgWindow(op);
    let mut i: usize = 0;
    while i < ops.len()
        invariant
            i <= ops@.len(),
            f == (|op: FrameOp| Action::MsgWindow(op)),
            actions@ == old(actions)@ + ops@.take(i as int).map_values(f),
        decreases ops@.len() - i,
    {
        actions.push(Action::MsgWindow(ops[i]));
        i = i + 1;
        assert(ops@.take(i as int) =~= ops@.take(i - 1).push(ops@[i - 1]));
        assert(actions@ =~= old(actions)@ + ops@.take(i as int).map_values(f));
    }
    assert(ops@.take(ops@.len() as int) =~= ops@);
}

/// Tells whether `start` and `count` times `size` add up to a number that fits.
fn offset_fits(start: u64, size: u64, count: u64) -> (fits: bool)
    ensures
        fits == (start + size * count <= u64::MAX),
{
    match size.checked_mul(count) {
        Some(distance) => start.checked_add(distance).is_some(),
        None => false,
    }
}

impl UIState {
    /// Adds the operation that `make` makes, for every grid.
    fn broadcast<F: Fn() -> GridOp>(
        &self,
        actions: &mut Vec<Action>,
        make: F,
        Ghost(op): Ghost<GridOp>,
    )
        requires
            call_requires(make, ()),
            forall|made: GridOp| call_ensures(make, (), made) ==> made == op,
        ensures
            final(actions)@ == old(actions)@ + self@.broadcast(op),
    {
        let ghost f = |id: i64| on_grid(id, op);
        let mut i: usize = 0;
        while i < self.grids.ids.len()
            invariant
                i <= self.grids.ids@.len(),
                f == (|id: i64| on_grid(id, op)),
                call_requires(make, ()),
                forall|made: GridOp| call_ensures(make, (), made) ==> made == op,
                actions@ == old(actions)@ + self.grids.ids@.take(i as int).map_values(f),
            decreases self.grids.ids@.len() - i,
        {
            let ghost ids = self.grids.ids@;
            actions.push(Action::Grid { grid: self.grids.ids[i], op: make() });
            i = i + 1;
            assert(ids.take(i as int) =~= ids.take(i - 1).push(ids[i - 1]));
            assert(actions@ =~= old(actions)@ + ids.take(i as int).map_values(f));
        }
        assert(self.grids.ids@.take(self.grids.ids@.len() as int) =~= self.grids.ids@);
    }

    fn cursor_goto(&mut self, event: GridCursorGoto) -> (turn: Turn)
        requires
            old(self)@.wf(),
            old(self)@.accepts(RedrawItem::GridCursorGoto(event)),
        ensures
            is_step(old(self)@.cursor_goto(event), final(self)@, turn),
    {
        let mut actions: Vec<Action> = Vec::new();
        if event.grid != self.current_grid {
            // The grid that was active till now has to let the cursor go.
            let previous: i64 = self.current_grid;
            actions.push(Action::Grid { grid: previous, op: GridOp::SetActive(false) });
            actions.push(Action::Grid { grid: previous, op: GridOp::Tick });
            self.current_grid = event.grid;
            actions.push(Action::Grid { grid: event.grid, op: GridOp::SetActive(true) });
        }
        actions.push(
            Action::Grid {
                grid: event.grid,
                op: GridOp::CursorGoto { row: event.row, col: event.col },
            },
        );
        acts(actions)
    }

    fn grid_resize(&mut self, event: GridResize) -> (turn: Turn)
        requires
            old(self)@.wf(),
        ensures
            is_step(old(self)@.grid_resize(event), final(self)@, turn),
    {
        let resize = GridOp::Resize { width: event.width, height: event.height };
        if self.grids.contains(event.grid) {
            return act(Action::Grid { grid: event.grid, op: resize });
        }
        let mut actions: Vec<Action> = Vec::new();
        actions.push(
            Action::CreateGrid {
                grid: event.grid,
                font: self.font.clone(),
                line_space: self.line_space,
                cols: event.width as usize,
                rows: event.height as usize,
            },
        );
        if let Some(mode) = self.current_mode {
            actions.push(Action::Grid { grid: event.grid, op: GridOp::SetMode(mode) });
        }
        actions.push(Action::Grid { grid: event.grid, op: resize });
        actions.push(Action::AttachGridEvents(event.grid));
        self.grids.insert(event.grid);
        acts(actions)
    }

    fn default_colors_set(&mut self, event: DefaultColorsSet) -> (turn: Turn)
        requires
            old(self)@.wf(),
        ensures
            is_step(old(self)@.default_colors_set(event), final(self)@, turn),
    {
        self.hl_defs.default_fg = event.fg;
        self.hl_defs.default_bg = event.bg;
        self.hl_defs.default_sp = event.sp;
        if let Some(hl) = self.hl_defs.get_mut(&0) {
            hl.foreground = Some(event.fg);
            hl.background = Some(event.bg);
            hl.special = Some(event.sp);
        }
        let mut actions: Vec<Action> = Vec::new();
        self.broadcast(
            &mut actions,
            || -> (op: GridOp)
                ensures
                    op == GridOp::Redraw
                { GridOp::Redraw },
            Ghost(GridOp::Redraw),
        );
        if self.tooltip {
            actions.push(
                Action::CursorTooltip(TooltipOp::SetColors { fg: event.fg, bg: event.bg }),
            );
        }
        actions.push(Action::SetBackground(event.bg));
        acts(actions)
    }

    fn font_parsed(&mut self, name: String, usable: bool) -> (turn: Turn)
        requires
            old(self)@.wf(),
            old(self).stage is Idle,
        ensures
            is_step(old(self)@.font_parsed(name, usable), final(self)@, turn),
    {
        let font: Font = if usable {
            Font::Guifont(name)
        } else {
            Font::Fallback
        };
        self.font = font.clone();
        match self.resize_on_flush.take() {
            Some(options) => {
                self.resize_on_flush = Some(
                    ResizeOptions { font, line_space: options.line_space },
                );
                acts(Vec::new())
            },
            None => {
                self.stage = Stage::FontStyle;
                asks(Query::GridStyle(MAIN_GRID))
            },
        }
    }

    fn option_set(&mut self, option: OptionSet) -> (turn: Turn)
        requires
            old(self)@.wf(),
            old(self).stage is Idle,
        ensures
            is_step(old(self)@.option_set(option), final(self)@, turn),
    {
        match option {
            OptionSet::GuiFont(name) => {
                self.stage = Stage::ParseFont(name.clone());
                asks(Query::ParseFont(name))
            },
            OptionSet::LineSpace(line_space) => {
                self.line_space = line_space;
                match self.resize_on_flush.take() {
                    Some(options) => {
                        self.resize_on_flush = Some(
                            ResizeOptions { font: options.font, line_space },
                        );
                        acts(Vec::new())
                    },
                    None => {
                        self.stage = Stage::LineStyle;
                        asks(Query::GridStyle(MAIN_GRID))
                    },
                }
            },
            OptionSet::NotSupported(name) => act(Action::Note(Note::UnsupportedOption(name))),
        }
    }

    fn mode_change(&mut self, index: u64) -> (turn: Turn)
        requires
            old(self)@.wf(),
            (index as usize) < old(self)@.mode_infos.len(),
        ensures
            is_step(old(self)@.mode_change(index), final(self)@, turn),
    {
        let mode: ModeInfo = self.mode_infos[index as usize];
        self.current_mode = Some(mode);
        let mut actions: Vec<Action> = Vec::new();
        self.broadcast(
            &mut actions,
            || -> (op: GridOp)
                ensures
                    op == GridOp::SetMode(mode)
                { GridOp::SetMode(mode) },
            Ghost(GridOp::SetMode(mode)),
        );
        acts(actions)
    }

    fn set_busy(&self, busy: bool) -> (turn: Turn)
        ensures
            turn.actions@ == self@.broadcast(GridOp::SetBusy(busy)),
            turn.ask is None,
    {
        let mut actions: Vec<Action> = Vec::new();
        self.broadcast(
            &mut actions,
            || -> (op: GridOp)
                ensures
                    op == GridOp::SetBusy(busy)
                { GridOp::SetBusy(busy) },
            Ghost(GridOp::SetBusy(busy)),
        );
        acts(actions)
    }

    fn flush(&mut self) -> (turn: Turn)
        requires
            old(self)@.wf(),
        ensures
            is_step(old(self)@.flush(), final(self)@, turn),
    {
        let mut actions: Vec<Action> = Vec::new();
        self.broadcast(
            &mut actions,
            || -> (op: GridOp)
                ensures
                    op == GridOp::Flush
                { GridOp::Flush },
            Ghost(GridOp::Flush),
        );
        match self.resize_on_flush.take() {
            None => acts(actions),
            Some(options) => {
                let font: &Font = &options.font;
                let line_space: i64 = options.line_space;
                self.broadcast(
                    &mut actions,
                    || -> (op: GridOp)
                        ensures
                            op == (GridOp::UpdateCellMetrics { font: *font, line_space })
                        { GridOp::UpdateCellMetrics { font: font.clone(), line_space } },
                    Ghost(GridOp::UpdateCellMetrics { font: *font, line_space }),
                );
                self.stage = Stage::FlushSize(options);
                Turn { actions, ask: Some(Query::CalcSize(MAIN_GRID)) }
            },
        }
    }

    fn flush_size(&self, options: ResizeOptions, cols: usize, rows: usize) -> (turn: Turn)
        ensures
            turn.actions@ == self@.flush_size(options, cols, rows).actions,
            turn.ask is None,
    {
        let font: Font = options.font;
        let line_space: i64 = options.line_space;
        let mut actions: Vec<Action> = Vec::new();
        actions.push(Action::CancelResize);
        actions.push(Action::Nvim(NvimCall::TryResize { cols: cols as i64, rows: rows as i64 }));
        actions.push(Action::Popupmenu(MenuOp::SetFont(font.clone())));
        actions.push(Action::Cmdline(CmdlineOp::SetFont(font.clone())));
        actions.push(Action::Tabline(TablineOp::SetFont(font.clone())));
        if self.tooltip {
            actions.push(Action::CursorTooltip(TooltipOp::SetFont(font)));
        }
        actions.push(Action::Cmdline(CmdlineOp::SetLineSpace(line_space)));
        actions.push(Action::Popupmenu(MenuOp::SetLineSpace(line_space)));
        actions.push(Action::Tabline(TablineOp::SetLineSpace(line_space)));
        assert(actions@ =~= self@.flush_size(options, cols, rows).actions);
        acts(actions)
    }

    fn popupmenu_show(&mut self, event: PopupmenuShow) -> (turn: Turn)
        requires
            old(self)@.wf(),
            old(self)@.accepts(RedrawItem::PopupmenuShow(event)),
        ensures
            is_step(old(self)@.popupmenu_show(event), final(self)@, turn),
    {
        let (dx, dy): (i32, i32) = match self.windows.get(&event.grid) {
            Some(window) => (window.x as i32, window.y as i32),
            None => (0, 0),
        };
        self.stage = Stage::MenuAnchor { dx, dy, selected: event.selected as i32 };
        let mut turn: Turn = act(Action::Popupmenu(MenuOp::SetItems(event.items)));
        turn.ask = Some(
            Query::RectForCell { grid: self.current_grid, row: event.row, col: event.col },
        );
        turn
    }

    fn menu_anchor(&mut self, dx: i32, dy: i32, selected: i32, rect: Rect) -> (turn: Turn)
        requires
            old(self)@.wf(),
            old(self).stage is Idle,
            shift_fits(rect, dx, dy),
        ensures
            is_step(old(self)@.menu_anchor(dx, dy, selected, rect), final(self)@, turn),
    {
        let anchor = Rect {
            x: rect.x + dx,
            y: rect.y + dy,
            width: rect.width,
            height: rect.height,
        };
        let mut actions: Vec<Action> = Vec::new();
        actions.push(Action::Popupmenu(MenuOp::SetAnchor(anchor)));
        actions.push(Action::Popupmenu(MenuOp::Select(selected)));
        actions.push(Action::Popupmenu(MenuOp::Show));
        if self.tooltip {
            self.stage = Stage::MenuTooltip;
            Turn { actions, ask: Some(Query::TooltipVisible) }
        } else {
            acts(actions)
        }
    }

    fn menu_tooltip(&mut self, visible: bool) -> (turn: Turn)
        requires
            old(self)@.wf(),
            old(self).stage is Idle,
        ensures
            is_step(old(self)@.menu_tooltip(visible), final(self)@, turn),
    {
        if visible {
            self.stage = Stage::MenuGravity;
            asks(Query::MenuAboveAnchor)
        } else {
            acts(Vec::new())
        }
    }

    fn popupmenu_hide(&self) -> (turn: Turn)
        ensures
            is_step(self@.popupmenu_hide(), self@, turn),
    {
        let mut actions: Vec<Action> = Vec::new();
        actions.push(Action::Popupmenu(MenuOp::Hide));
        if self.tooltip {
            // Undo what showing the popup menu may have done to the tooltip.
            actions.push(Action::CursorTooltip(TooltipOp::ForceGravity(None)));
            actions.push(Action::CursorTooltip(TooltipOp::RefreshPosition));
        }
        acts(actions)
    }

    /// Makes the window of `grid`, unless it is there.
    fn make_window(
        &mut self,
        actions: &mut Vec<Action>,
        win: NvimWindow,
        container: Container,
        grid: i64,
    )
        ensures
            final(self)@ == old(self)@.with_window(win, container, grid),
            final(actions)@ == old(actions)@ + old(self)@.make_window(container, grid),
    {
        if !self.windows.contains_key(&grid) {
            let (window, ops) = Window::new(win, container, grid);
            push_frame_ops(actions, grid, ops);
            self.windows.insert(grid, window);
        }
        assert(self@ =~= old(self)@.with_window(win, container, grid));
    }

    /// Moves the window of `grid`, gives it a size and shows it.
    fn move_window(&mut self, grid: i64, x: u64, y: u64, w: u64, h: u64) -> (actions: Vec<Action>)
        requires
            old(self)@.has_window(grid),
        ensures
            final(self)@ == old(self)@.with_window_at(grid, x, y),
            actions@ == old(self)@.move_window(grid, x, y, w, h),
    {
        let mut actions: Vec<Action> = Vec::new();
        if let Entry::Occupied(entry) = self.windows.entry(grid) {
            let window: &mut Window = entry.into_mut();
            let ops: Vec<FrameOp> = window.set_position(x, y, w, h);
            push_frame_ops(&mut actions, grid, ops);
            let shown: FrameOp = window.show();
            actions.push(Action::Window { grid, op: shown });
        }
        assert(self@ =~= old(self)@.with_window_at(grid, x, y));
        assert(actions@ =~= old(self)@.move_window(grid, x, y, w, h));
        actions
    }

    fn window_pos(&mut self, event: WindowPos) -> (turn: Turn)
        requires
            old(self)@.wf(),
        ensures
            is_step(old(self)@.window_pos(event), final(self)@, turn),
    {
        let mut actions: Vec<Action> = Vec::new();
        let place = Place {
            grid: event.grid,
            start_row: event.start_row,
            start_col: event.start_col,
            width: event.width,
            height: event.height,
        };
        self.make_window(&mut actions, event.win, Container::Windows, event.grid);
        self.stage = Stage::Place(place);
        Turn { actions, ask: Some(Query::Metrics(MAIN_GRID)) }
    }

    fn place(&mut self, place: Place, main: GridMetrics) -> (turn: Turn)
        requires
            old(self)@.wf(),
            old(self)@.has_window(place.grid),
            old(self).stage is Idle,
            place_fits(place, main),
        ensures
            is_step(old(self)@.place(place, main), final(self)@, turn),
    {
        let x: u64 = product(place.start_col, main.cell_width);
        let y: u64 = product(place.start_row, main.cell_height);
        let w: u64 = product(place.width, main.cell_width);
        let h: u64 = product(place.height, main.cell_height);
        let mut actions: Vec<Action> = self.move_window(place.grid, x, y, w, h);
        actions.push(
            Action::Grid {
                grid: place.grid,
                op: GridOp::Resize { width: place.width, height: place.height },
            },
        );
        acts(actions)
    }

    fn window_float_pos(&mut self, event: WindowFloatPos) -> (turn: Turn)
        requires
            old(self)@.wf(),
            old(self)@.accepts(RedrawItem::WindowFloatPos(event)),
        ensures
            is_step(old(self)@.window_float_pos(event), final(self)@, turn),
    {
        let (x, y): (u64, u64) = if event.anchor_grid == MAIN_GRID {
            (0, 0)
        } else {
            match self.windows.get(&event.anchor_grid) {
                Some(window) => (window.x, window.y),
                None => (0, 0),
            }
        };
        let place = FloatPlace {
            grid: event.grid,
            x,
            y,
            anchor_row: event.anchor_row,
            anchor_col: event.anchor_col,
        };
        let ask = Query::MetricsPair { anchor: event.anchor_grid, grid: event.grid };
        let mut actions: Vec<Action> = Vec::new();
        if !self.windows.contains_key(&event.grid) {
            actions.push(Action::Note(Note::FloatMade));
        }
        self.make_window(&mut actions, event.win, Container::Floats, event.grid);
        self.stage = Stage::PlaceFloat(place);
        Turn { actions, ask: Some(ask) }
    }

    fn place_float(&mut self, place: FloatPlace, anchor: GridMetrics, grid: GridMetrics) -> (turn:
        Turn)
        requires
            old(self)@.wf(),
            old(self)@.has_window(place.grid),
            old(self).stage is Idle,
            float_fits(place, anchor, grid),
        ensures
            is_step(old(self)@.place_float(place, anchor, grid), final(self)@, turn),
    {
        let x: u64 = place.x + product(anchor.cell_width, place.anchor_col);
        let y: u64 = place.y + product(anchor.cell_height, place.anchor_row);
        let w: u64 = product(grid.cols, grid.cell_width);
        let h: u64 = product(grid.rows, grid.cell_height);
        acts(self.move_window(place.grid, x, y, w, h))
    }

    /// Does what one call of a redraw event asks for.
    fn redraw(&mut self, item: RedrawItem) -> (turn: Turn)
        requires
            old(self)@.wf(),
            old(self).stage is Idle,
            old(self)@.accepts(item),
        ensures
            is_step(old(self)@.redraw(item), final(self)@, turn),
    {
        match item {
            RedrawItem::SetTitle(title) => act(Action::SetTitle(title)),
            RedrawItem::GridLine(line) => act(
                Action::Grid { grid: line.grid, op: GridOp::PutLine(line) },
            ),
            RedrawItem::GridCursorGoto(event) => self.cursor_goto(event),
            RedrawItem::GridResize(event) => self.grid_resize(event),
            RedrawItem::GridClear(grid) => act(Action::Grid { grid, op: GridOp::Clear }),
            RedrawItem::GridDestroy(grid) => {
                self.grids.remove(grid);
                // The main grid takes over, whichever was the current one.
                self.current_grid = MAIN_GRID;
                let mut turn: Turn = act(Action::Note(Note::GridDropped(grid)));
                turn.actions.push(Action::DestroyGrid(grid));
                turn
            },
            RedrawItem::GridScroll(event) => {
                let mut turn: Turn = act(
                    Action::Grid {
                        grid: event.grid,
                        op: GridOp::Scroll { reg: event.reg, rows: event.rows, cols: event.cols },
                    },
                );
                // Neovim has no event of its own for this.
                turn.actions.push(Action::Nvim(NvimCall::Command(Command::Scrolled)));
                turn
            },
            RedrawItem::DefaultColorsSet(event) => self.default_colors_set(event),
            RedrawItem::HlAttrDefine(event) => {
                self.hl_defs.insert(event.id, event.hl);
                acts(Vec::new())
            },
            RedrawItem::OptionSet(option) => self.option_set(option),
            RedrawItem::ModeInfoSet(event) => {
                self.mode_infos = event.mode_info;
                acts(Vec::new())
            },
            RedrawItem::ModeChange(event) => self.mode_change(event.index),
            RedrawItem::SetBusy(busy) => self.set_busy(busy),
            RedrawItem::Flush => self.flush(),
            RedrawItem::PopupmenuShow(event) => self.popupmenu_show(event),
            RedrawItem::PopupmenuHide => self.popupmenu_hide(),
            RedrawItem::PopupmenuSelect(selected) => act(
                Action::Popupmenu(MenuOp::Select(selected as i32)),
            ),
            RedrawItem::TablineUpdate(event) => act(Action::Tabline(TablineOp::Update(event))),
            RedrawItem::CmdlineShow(event) => act(Action::Cmdline(CmdlineOp::Show(event))),
            RedrawItem::CmdlineHide => act(Action::Cmdline(CmdlineOp::Hide)),
            RedrawItem::CmdlinePos(event) => act(
                Action::Cmdline(CmdlineOp::SetPos { pos: event.pos, level: event.level }),
            ),
            RedrawItem::CmdlineSpecialChar(event) => act(
                Action::Cmdline(
                    CmdlineOp::ShowSpecialChar {
                        character: event.character,
                        shift: event.shift,
                        level: event.level,
                    },
                ),
            ),
            RedrawItem::CmdlineBlockShow(event) => act(
                Action::Cmdline(CmdlineOp::ShowBlock(event)),
            ),
            RedrawItem::CmdlineBlockAppend(line) => act(
                Action::Cmdline(CmdlineOp::BlockAppend(line)),
            ),
            RedrawItem::CmdlineBlockHide => act(Action::Cmdline(CmdlineOp::HideBlock)),
            RedrawItem::WildmenuShow(event) => act(
                Action::Cmdline(CmdlineOp::WildmenuShow(event.items)),
            ),
            RedrawItem::WildmenuHide => act(Action::Cmdline(CmdlineOp::WildmenuHide)),
            RedrawItem::WildmenuSelect(item) => act(
                Action::Cmdline(CmdlineOp::WildmenuSelect(item)),
            ),
            RedrawItem::WindowPos(event) => self.window_pos(event),
            RedrawItem::WindowFloatPos(event) => self.window_float_pos(event),
            RedrawItem::WindowHide(grid) => {
                let mut actions: Vec<Action> = Vec::new();
                if let Some(window) = self.windows.get(&grid) {
                    actions.push(Action::Window { grid, op: window.hide_window() });
                }
                assert(actions@ =~= on_frame(grid, seq![FrameOp::Hide]));
                acts(actions)
            },
            RedrawItem::WindowClose(grid) => {
                self.windows.remove(&grid);
                self.stage = Stage::Closing(grid);
                asks(Query::HasChild(grid))
            },
            RedrawItem::MsgSetPos(event) => {
                let mut turn: Turn = act(Action::MsgWindow(self.msg_window.add_grid(event.grid)));
                assert(turn.actions@ =~= on_messages(seq![FrameOp::AddGrid(event.grid)]));
                self.stage = Stage::PlaceMessages(event);
                turn.ask = Some(Query::Metrics(event.grid));
                turn
            },
            RedrawItem::Unknown(name) => act(Action::Note(Note::UnknownRedrawEvent(name))),
        }
    }

    /// Tells whether nothing is in hand.
    pub fn idle(&self) -> (idle: bool)
        ensures
            idle == self@.idle(),
    {
        match self.stage {
            Stage::Idle => self.queue.len() == 0,
            _ => false,
        }
    }

    /// Tells whether the interface has what the call speaks of.
    pub fn accepts(&self, item: &RedrawItem) -> (accepted: bool)
        ensures
            accepted == self@.accepts(*item),
    {
        match item {
            RedrawItem::GridLine(line) => self.grids.contains(line.grid),
            RedrawItem::GridCursorGoto(event) => {
                self.grids.contains(event.grid) && self.grids.contains(self.current_grid)
            },
            RedrawItem::GridClear(grid) => self.grids.contains(*grid),
            RedrawItem::GridDestroy(grid) => self.grids.contains(*grid),
            RedrawItem::GridScroll(event) => self.grids.contains(event.grid),
            RedrawItem::OptionSet(option) => match option {
                OptionSet::NotSupported(_) => true,
                _ => self.resize_on_flush.is_some() || self.grids.contains(MAIN_GRID),
            },
            RedrawItem::ModeChange(event) => (event.index as usize) < self.mode_infos.len(),
            RedrawItem::Flush => {
                self.resize_on_flush.is_none() || self.grids.contains(MAIN_GRID)
            },
            RedrawItem::PopupmenuShow(event) => {
                self.grids.contains(self.current_grid) && self.windows.contains_key(&event.grid)
            },
            RedrawItem::WindowPos(event) => {
                self.grids.contains(event.grid) && self.grids.contains(MAIN_GRID)
            },
            RedrawItem::WindowFloatPos(event) => {
                self.grids.contains(event.anchor_grid) && self.grids.contains(event.grid) && (
                event.anchor_grid == MAIN_GRID || self.windows.contains_key(&event.anchor_grid))
            },
            RedrawItem::WindowHide(grid) => self.windows.contains_key(grid),
            RedrawItem::WindowClose(grid) => self.windows.contains_key(grid),
            RedrawItem::MsgSetPos(event) => self.grids.contains(event.grid),
            _ => true,
        }
    }

    /// Tells whether the next call of the batch in hand can be taken.
    pub fn ready(&self) -> (ready: bool)
        ensures
            ready == self@.ready(),
    {
        match self.stage {
            Stage::Idle => self.queue.len() > 0 && self.accepts(&self.queue[0]),
            _ => false,
        }
    }

    /// Takes the next call of the batch in hand.
    pub fn step(&mut self) -> (turn: Turn)
        requires
            old(self)@.wf(),
            old(self)@.ready(),
        ensures
            is_step(old(self)@.step(), final(self)@, turn),
            final(self)@.wf(),
    {
        let ghost rest = Model { queue: self@.queue.drop_first(), ..self@ };
        match self.queue.pop_front() {
            Some(item) => {
                assert(self@ =~= rest);
                proof {
                    law_redraw_keeps_wf(rest, item);
                }
                self.redraw(item)
            },
            None => acts(Vec::new()),
        }
    }

    /// Puts the calls of `events` at the end of the batch in hand.
    pub fn handle_redraw_event(&mut self, events: Vec<RedrawEvent>)
        ensures
            final(self)@ == (Model {
                queue: old(self)@.queue + items_of_all(events@),
                ..old(self)@
            }),
    {
        push_batch(&mut self.queue, events);
    }

    /// Tells whether the interface has what the event of the plugin speaks of.
    pub fn accepts_gnvim(&self, event: &GnvimEvent) -> (accepted: bool)
        ensures
            accepted == self@.accepts_gnvim(*event),
    {
        match event {
            GnvimEvent::CursorTooltipShow(_, _, _) => {
                !self.tooltip || self.grids.contains(self.current_grid)
            },
            _ => true,
        }
    }

    /// Does what an event of the plugin asks for.
    pub fn handle_gnvim_event(&mut self, event: GnvimEvent) -> (turn: Turn)
        requires
            old(self)@.wf(),
            old(self).stage is Idle,
            old(self)@.accepts_gnvim(event),
        ensures
            is_step(old(self)@.gnvim(event), final(self)@, turn),
            final(self)@.wf(),
    {
        proof {
            law_gnvim_keeps_wf(self@, event);
        }
        match event {
            GnvimEvent::SetGuiColors(colors) => {
                let mut actions: Vec<Action> = Vec::new();
                actions.push(Action::Popupmenu(MenuOp::SetColors(colors.pmenu)));
                actions.push(Action::Tabline(TablineOp::SetColors(colors.tabline)));
                actions.push(Action::Cmdline(CmdlineOp::SetColors(colors.cmdline)));
                actions.push(Action::Cmdline(CmdlineOp::WildmenuSetColors(colors.wildmenu)));
                acts(actions)
            },
            GnvimEvent::CompletionMenuToggleInfo => act(Action::Popupmenu(MenuOp::ToggleShowInfo)),
            GnvimEvent::PopupmenuWidth(width) => act(
                Action::Popupmenu(MenuOp::SetWidth(width as i32)),
            ),
            GnvimEvent::PopupmenuWidthDetails(width) => act(
                Action::Popupmenu(MenuOp::SetWidthDetails(width as i32)),
            ),
            GnvimEvent::PopupmenuShowMenuOnAllItems(should_show) => act(
                Action::Popupmenu(MenuOp::SetShowMenuOnAllItems(should_show)),
            ),
            GnvimEvent::Unknown(msg) => act(Action::Note(Note::UnknownGnvimEvent(msg))),
            GnvimEvent::CursorTooltipLoadStyle(path) => {
                if !self.tooltip {
                    return act(Action::Nvim(NvimCall::Command(Command::TooltipUnsupported)));
                }
                self.stage = Stage::TooltipStyle;
                asks(Query::LoadStyle(path))
            },
            GnvimEvent::CursorTooltipShow(content, row, col) => {
                if !self.tooltip {
                    return act(Action::Nvim(NvimCall::Command(Command::TooltipUnsupported)));
                }
                self.stage = Stage::TooltipAnchor;
                let mut turn: Turn = act(Action::CursorTooltip(TooltipOp::Show(content)));
                turn.ask = Some(Query::RectForCell { grid: self.current_grid, row, col });
                turn
            },
            GnvimEvent::CursorTooltipHide => {
                if !self.tooltip {
                    return act(Action::Nvim(NvimCall::Command(Command::TooltipUnsupported)));
                }
                act(Action::CursorTooltip(TooltipOp::Hide))
            },
            GnvimEvent::CursorTooltipSetStyle(style) => {
                if !self.tooltip {
                    return act(Action::Nvim(NvimCall::Command(Command::TooltipUnsupported)));
                }
                act(Action::CursorTooltip(TooltipOp::SetStyle(style)))
            },
        }
    }

    /// Tells whether the interface has what the notification speaks of.
    pub fn accepts_notify(&self, notify: &Notify) -> (accepted: bool)
        ensures
            accepted == self@.accepts_notify(*notify),
    {
        match notify {
            Notify::GnvimEvent(Ok(event)) => self.accepts_gnvim(event),
            _ => true,
        }
    }

    /// Does what a notification asks for. Of redraw events this is no more than
    /// to take them in hand.
    pub fn handle_notify(&mut self, notify: Notify) -> (turn: Turn)
        requires
            old(self)@.wf(),
            old(self)@.idle(),
            old(self)@.accepts_notify(notify),
        ensures
            is_step(old(self)@.notify(notify), final(self)@, turn),
            final(self)@.wf(),
    {
        match notify {
            Notify::RedrawEvent(events) => {
                self.handle_redraw_event(events);
                acts(Vec::new())
            },
            Notify::GnvimEvent(Ok(event)) => self.handle_gnvim_event(event),
            Notify::GnvimEvent(Err(err)) => act(
                Action::Nvim(NvimCall::Command(Command::NotifyUnreadable(err))),
            ),
        }
    }

    /// Tells whether `answer` is one to what is waited for, and whether what
    /// follows from it can be computed.
    pub fn fits(&self, answer: &Answer) -> (fits: bool)
        ensures
            fits == self@.fits(*answer),
    {
        match (&self.stage, answer) {
            (Stage::ParseFont(_), Answer::FontUsable(_)) => true,
            (Stage::FontStyle, Answer::Style { .. }) => true,
            (Stage::LineStyle, Answer::Style { .. }) => true,
            (Stage::FlushSize(_), Answer::Size { .. }) => true,
            (Stage::MenuAnchor { dx, dy, .. }, Answer::Rect(rect)) => {
                rect.x.checked_add(*dx).is_some() && rect.y.checked_add(*dy).is_some()
            },
            (Stage::MenuTooltip, Answer::Flag(_)) => true,
            (Stage::MenuGravity, Answer::Flag(_)) => true,
            (Stage::TooltipAnchor, Answer::Rect(_)) => true,
            (Stage::TooltipStyle, Answer::Loaded(_)) => true,
            (Stage::Place(place), Answer::Metrics(main)) => {
                place.start_col.checked_mul(main.cell_width).is_some()
                    && place.start_row.checked_mul(main.cell_height).is_some()
                    && place.width.checked_mul(main.cell_width).is_some()
                    && place.height.checked_mul(main.cell_height).is_some()
            },
            (Stage::PlaceFloat(place), Answer::MetricsPair { anchor, grid }) => {
                offset_fits(place.x, anchor.cell_width, place.anchor_col)
                    && offset_fits(place.y, anchor.cell_height, place.anchor_row)
                    && grid.cols.checked_mul(grid.cell_width).is_some()
                    && grid.rows.checked_mul(grid.cell_height).is_some()
            },
            (Stage::PlaceMessages(event), Answer::Metrics(metrics)) => {
                metrics.cols.checked_mul(metrics.cell_width).is_some()
                    && metrics.rows.checked_mul(metrics.cell_height).is_some()
                    && metrics.cell_height.checked_mul(event.row).is_some()
            },
            (Stage::Closing(_), Answer::Flag(_)) => true,
            _ => false,
        }
    }

    /// Goes on with the answer that was waited for.
    pub fn resume(&mut self, answer: Answer) -> (turn: Turn)
        requires
            old(self)@.wf(),
            old(self)@.fits(answer),
        ensures
            is_step(old(self)@.resume(answer), final(self)@, turn),
            final(self)@.wf(),
    {
        proof {
            law_resume_keeps_wf(self@, answer);
        }
        let mut stage: Stage = Stage::Idle;
        std::mem::swap(&mut self.stage, &mut stage);
        match (stage, answer) {
            (Stage::ParseFont(name), Answer::FontUsable(usable)) => self.font_parsed(name, usable),
            (Stage::FontStyle, Answer::Style { font: _, line_space }) => {
                self.resize_on_flush = Some(
                    ResizeOptions { font: self.font.clone(), line_space },
                );
                acts(Vec::new())
            },
            (Stage::LineStyle, Answer::Style { font, line_space: _ }) => {
                self.resize_on_flush = Some(
                    ResizeOptions { font, line_space: self.line_space },
                );
                acts(Vec::new())
            },
            (Stage::FlushSize(options), Answer::Size { cols, rows }) => {
                self.flush_size(options, cols, rows)
            },
            (Stage::MenuAnchor { dx, dy, selected }, Answer::Rect(rect)) => {
                self.menu_anchor(dx, dy, selected, rect)
            },
            (Stage::MenuTooltip, Answer::Flag(visible)) => self.menu_tooltip(visible),
            (Stage::MenuGravity, Answer::Flag(above)) => {
                let gravity: Gravity = if above {
                    Gravity::Down
                } else {
                    Gravity::Up
                };
                let mut turn: Turn = act(
                    Action::CursorTooltip(TooltipOp::ForceGravity(Some(gravity))),
                );
                turn.actions.push(Action::CursorTooltip(TooltipOp::RefreshPosition));
                turn
            },
            (Stage::TooltipAnchor, Answer::Rect(rect)) => act(
                Action::CursorTooltip(TooltipOp::MoveTo(rect)),
            ),
            (Stage::TooltipStyle, Answer::Loaded(loaded)) => match loaded {
                Ok(_) => acts(Vec::new()),
                Err(err) => act(Action::Nvim(NvimCall::Command(Command::StyleUnloadable(err)))),
            },
            (Stage::Place(place), Answer::Metrics(main)) => self.place(place, main),
            (Stage::PlaceFloat(place), Answer::MetricsPair { anchor, grid }) => {
                self.place_float(place, anchor, grid)
            },
            (Stage::PlaceMessages(event), Answer::Metrics(metrics)) => {
                let mut actions: Vec<Action> = Vec::new();
                let ops: Vec<FrameOp> = self.msg_window.set_pos(metrics, event.row);
                push_message_ops(&mut actions, ops);
                acts(actions)
            },
            (Stage::Closing(grid), Answer::Flag(has_child)) => {
                let mut actions: Vec<Action> = Vec::new();
                push_frame_ops(&mut actions, grid, Window::released(has_child));
                acts(actions)
            },
            _ => acts(Vec::new()),
        }
    }
}

} // verus!
