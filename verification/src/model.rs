//! The interface as a mathematical value, and how each event changes it.

use neovim_lib::neovim_api::Window as NvimWindow;
use vstd::prelude::*;

use crate::action::{
    Action, Answer, CmdlineOp, Command, Container, Font, FrameOp, Gravity, GridMetrics, GridOp,
    MenuOp, Note, NvimCall, Query, Rect, TablineOp, TooltipOp, Turn,
};
use crate::event::{
    items_of_all, DefaultColorsSet, GnvimEvent, GridCursorGoto, GridResize, ModeInfo, MsgSetPos,
    Notify, OptionSet, PopupmenuShow, RedrawItem, WindowFloatPos, WindowPos,
};
use crate::color::Highlight;
use crate::grids::without;
use crate::hl_defs::HlView;
use crate::window::{
    drop_frame, msg_fits, new_grid_frame, new_window, place_frame, place_messages, Window,
};

verus! {

/// The id of the grid that is there from the start and that all windows lie
/// over.
pub const MAIN_GRID: i64 = 1;

/// The font and the line space that all grids get with the next flush.
#[derive(Debug, PartialEq)]
pub struct ResizeOptions {
    pub font: Font,
    pub line_space: i64,
}

/// Where a window that does not float goes, in cells of the main grid.
#[derive(Clone, Copy, Debug, PartialEq)]
pub struct Place {
    /// The grid that the window shows.
    pub grid: i64,
    pub start_row: u64,
    pub start_col: u64,
    pub width: u64,
    pub height: u64,
}

/// Where a window that floats goes: at a point, and from there in cells of the
/// grid that it is anchored to.
#[derive(Clone, Copy, Debug, PartialEq)]
pub struct FloatPlace {
    /// The grid that the window shows.
    pub grid: i64,
    pub x: u64,
    pub y: u64,
    pub anchor_row: u64,
    pub anchor_col: u64,
}

/// Where `event` wants the window.
pub open spec fn place_of(event: WindowPos) -> Place {
    Place {
        grid: event.grid,
        start_row: event.start_row,
        start_col: event.start_col,
        width: event.width,
        height: event.height,
    }
}

/// What the interface waits for, in the midst of an event.
#[derive(Debug, PartialEq)]
pub enum Stage {
    /// Nothing: the next event can be taken.
    Idle,
    /// Whether there is a font by this name.
    ParseFont(String),
    /// The line space of the main grid, to go with the font just set.
    FontStyle,
    /// The font of the main grid, to go with the line space just set.
    LineStyle,
    /// How many cells of the new size fit on screen.
    FlushSize(ResizeOptions),
    /// Where the cell is that the popup menu belongs to.
    MenuAnchor { dx: i32, dy: i32, selected: i32 },
    /// Whether the popup menu may be in the way of the cursor tooltip.
    MenuTooltip,
    /// On which side of its anchor the popup menu is.
    MenuGravity,
    /// Where the cell is that the cursor tooltip belongs to.
    TooltipAnchor,
    /// Whether the style of the cursor tooltip was loaded.
    TooltipStyle,
    /// The size of the main grid's cells, to place a window.
    Place(Place),
    /// The sizes of two grids' cells, to place a window that floats.
    PlaceFloat(FloatPlace),
    /// The size of the grid for messages.
    PlaceMessages(MsgSetPos),
    /// Whether the frame of a window that was closed has a child.
    Closing(i64),
}

/// The interface.
#[verifier::ext_equal]
pub struct Model {
    /// The windows, by the grids that they show.
    pub windows: Map<i64, Window>,
    /// Where the message window is.
    pub messages: Container,
    /// The grids, oldest first.
    pub grids: Seq<i64>,
    pub hl: HlView,
    pub mode_infos: Seq<ModeInfo>,
    pub current_mode: Option<ModeInfo>,
    pub current_grid: i64,
    pub resize_on_flush: Option<ResizeOptions>,
    pub font: Font,
    pub line_space: i64,
    /// Whether there is a cursor tooltip.
    pub tooltip: bool,
    /// What is still to be done of the batch in hand.
    pub queue: Seq<RedrawItem>,
    pub stage: Stage,
}

/// What comes of an event, or of an answer: the interface after it, what is to
/// be done, and what is to be asked after that.
#[verifier::ext_equal]
pub struct Step {
    pub next: Model,
    pub actions: Seq<Action>,
    pub ask: Option<Query>,
}

/// `turn` and the interface `after` it are what `step` says.
pub open spec fn is_step(step: Step, after: Model, turn: Turn) -> bool {
    &&& after =~= step.next
    &&& turn.actions@ =~= step.actions
    &&& turn.ask == step.ask
}

/// `action` alone where `wanted`, and nothing otherwise.
pub open spec fn optional(wanted: bool, action: Action) -> Seq<Action> {
    if wanted {
        seq![action]
    } else {
        seq![]
    }
}

/// `op` for the grid `grid`.
pub open spec fn on_grid(grid: i64, op: GridOp) -> Action {
    Action::Grid { grid, op }
}

/// `ops` for the frame of the window that shows `grid`.
pub open spec fn on_frame(grid: i64, ops: Seq<FrameOp>) -> Seq<Action> {
    ops.map_values(|op: FrameOp| Action::Window { grid, op })
}

/// `ops` for the frame of the message window.
pub open spec fn on_messages(ops: Seq<FrameOp>) -> Seq<Action> {
    ops.map_values(|op: FrameOp| Action::MsgWindow(op))
}

/// Whether the place and the size of a window can be computed.
pub open spec fn place_fits(place: Place, main: GridMetrics) -> bool {
    &&& place.start_col * main.cell_width <= u64::MAX
    &&& place.start_row * main.cell_height <= u64::MAX
    &&& place.width * main.cell_width <= u64::MAX
    &&& place.height * main.cell_height <= u64::MAX
}

/// Whether the place and the size of a window that floats can be computed.
pub open spec fn float_fits(place: FloatPlace, anchor: GridMetrics, grid: GridMetrics) -> bool {
    &&& place.x + anchor.cell_width * place.anchor_col <= u64::MAX
    &&& place.y + anchor.cell_height * place.anchor_row <= u64::MAX
    &&& grid.cols * grid.cell_width <= u64::MAX
    &&& grid.rows * grid.cell_height <= u64::MAX
}

/// Whether `rect` can be moved by `dx` and `dy`.
pub open spec fn shift_fits(rect: Rect, dx: i32, dy: i32) -> bool {
    &&& i32::MIN <= rect.x + dx <= i32::MAX
    &&& i32::MIN <= rect.y + dy <= i32::MAX
}

/// `rect`, moved by `dx` and `dy`.
pub open spec fn shifted(rect: Rect, dx: i32, dy: i32) -> Rect {
    Rect { x: (rect.x + dx) as i32, y: (rect.y + dy) as i32, ..rect }
}

impl Model {
    pub open spec fn has_grid(self, id: i64) -> bool {
        self.grids.contains(id)
    }

    pub open spec fn has_window(self, id: i64) -> bool {
        self.windows.contains_key(id)
    }

    /// What is so of the interface at all times: no grid is there twice, the
    /// highlight 0 is defined, every window is found under the grid that it
    /// shows, and the current grid is there (or it is the main grid, which may
    /// have been destroyed). In the midst of an event, what is still to be done
    /// for it can be done.
    pub open spec fn wf(self) -> bool {
        &&& self.grids.no_duplicates()
        &&& self.hl.defs.contains_key(0)
        &&& forall|id: i64| #[trigger]
            self.windows.contains_key(id) ==> self.windows[id].grid_id == id
        &&& self.has_grid(self.current_grid) || self.current_grid == MAIN_GRID
        &&& match self.stage {
            Stage::ParseFont(_) => self.resize_on_flush is Some || self.has_grid(MAIN_GRID),
            Stage::MenuTooltip => self.tooltip,
            Stage::MenuGravity => self.tooltip,
            Stage::TooltipAnchor => self.tooltip,
            Stage::TooltipStyle => self.tooltip,
            Stage::Place(place) => self.has_grid(place.grid) && self.has_window(place.grid),
            Stage::PlaceFloat(place) => self.has_grid(place.grid) && self.has_window(place.grid),
            Stage::PlaceMessages(event) => self.has_grid(event.grid),
            Stage::Closing(grid) => !self.has_window(grid),
            _ => true,
        }
    }

    /// Nothing is in hand.
    pub open spec fn idle(self) -> bool {
        self.stage is Idle && self.queue.len() == 0
    }

    /// Only `actions` are to be done.
    pub open spec fn acts(self, actions: Seq<Action>) -> Step {
        Step { next: self, actions, ask: None }
    }

    /// `actions` are to be done, and `ask` is to be answered for `stage`.
    pub open spec fn asks(self, actions: Seq<Action>, stage: Stage, ask: Query) -> Step {
        Step { next: Model { stage, ..self }, actions, ask: Some(ask) }
    }

    /// `op` for every grid.
    pub open spec fn broadcast(self, op: GridOp) -> Seq<Action> {
        self.grids.map_values(|id: i64| on_grid(id, op))
    }

    /// The cursor moves, maybe to another grid. That one is the current grid
    /// from there on, and the one that was is no longer active.
    pub open spec fn cursor_goto(self, event: GridCursorGoto) -> Step {
        let goto = on_grid(event.grid, GridOp::CursorGoto { row: event.row, col: event.col });
        if event.grid == self.current_grid {
            self.acts(seq![goto])
        } else {
            Model { current_grid: event.grid, ..self }.acts(
                seq![
                    on_grid(self.current_grid, GridOp::SetActive(false)),
                    on_grid(self.current_grid, GridOp::Tick),
                    on_grid(event.grid, GridOp::SetActive(true)),
                    goto,
                ],
            )
        }
    }

    /// A grid gets a size. One that is not there is made first, and starts in
    /// the mode that is on.
    pub open spec fn grid_resize(self, event: GridResize) -> Step {
        let resize = on_grid(
            event.grid,
            GridOp::Resize { width: event.width, height: event.height },
        );
        if self.has_grid(event.grid) {
            self.acts(seq![resize])
        } else {
            let create = Action::CreateGrid {
                grid: event.grid,
                font: self.font,
                line_space: self.line_space,
                cols: event.width as usize,
                rows: event.height as usize,
            };
            let mode = match self.current_mode {
                Some(mode) => seq![on_grid(event.grid, GridOp::SetMode(mode))],
                None => seq![],
            };
            Model { grids: self.grids.push(event.grid), ..self }.acts(
                seq![create] + mode + seq![resize, Action::AttachGridEvents(event.grid)],
            )
        }
    }

    /// A grid goes, and the main grid is the current one.
    pub open spec fn grid_destroy(self, grid: i64) -> Step {
        Model { grids: without(self.grids, grid), current_grid: MAIN_GRID, ..self }.acts(
            seq![Action::Note(Note::GridDropped(grid)), Action::DestroyGrid(grid)],
        )
    }

    /// Text without a colour of its own gets new colours. The highlight 0 takes
    /// them over, and everything is drawn anew.
    pub open spec fn default_colors_set(self, event: DefaultColorsSet) -> Step {
        let hl = Highlight {
            foreground: Some(event.fg),
            background: Some(event.bg),
            special: Some(event.sp),
            ..self.hl.defs[0]
        };
        Model {
            hl: HlView {
                defs: self.hl.defs.insert(0, hl),
                default_fg: event.fg,
                default_bg: event.bg,
                default_sp: event.sp,
            },
            ..self
        }.acts(
            self.broadcast(GridOp::Redraw) + optional(
                self.tooltip,
                Action::CursorTooltip(TooltipOp::SetColors { fg: event.fg, bg: event.bg }),
            ) + seq![Action::SetBackground(event.bg)],
        )
    }

    /// The font is known. The grids get it with the next flush, with the line
    /// space that they are to get, or, if none is, that the main grid has.
    pub open spec fn font_parsed(self, name: String, usable: bool) -> Step {
        let font = if usable {
            Font::Guifont(name)
        } else {
            Font::Fallback
        };
        let set = Model { font, stage: Stage::Idle, ..self };
        match self.resize_on_flush {
            Some(options) => Model {
                resize_on_flush: Some(
                    ResizeOptions { font, line_space: options.line_space },
                ),
                ..set
            }.acts(seq![]),
            None => set.asks(seq![], Stage::FontStyle, Query::GridStyle(MAIN_GRID)),
        }
    }

    /// The line space changes. The grids get it with the next flush, with the
    /// font that they are to get, or, if none is, that the main grid has.
    pub open spec fn line_space_set(self, line_space: i64) -> Step {
        let set = Model { line_space, ..self };
        match self.resize_on_flush {
            Some(options) => Model {
                resize_on_flush: Some(ResizeOptions { font: options.font, line_space }),
                ..set
            }.acts(seq![]),
            None => set.asks(seq![], Stage::LineStyle, Query::GridStyle(MAIN_GRID)),
        }
    }

    /// An option changes.
    pub open spec fn option_set(self, option: OptionSet) -> Step {
        match option {
            OptionSet::GuiFont(name) => self.asks(
                seq![],
                Stage::ParseFont(name),
                Query::ParseFont(name),
            ),
            OptionSet::LineSpace(line_space) => self.line_space_set(line_space),
            OptionSet::NotSupported(name) => self.acts(
                seq![Action::Note(Note::UnsupportedOption(name))],
            ),
        }
    }

    /// A mode is on, in all grids.
    pub open spec fn mode_change(self, index: u64) -> Step {
        let mode = self.mode_infos[index as usize as int];
        Model { current_mode: Some(mode), ..self }.acts(self.broadcast(GridOp::SetMode(mode)))
    }

    /// The batch is complete. What was put off till then is done: the grids get
    /// their font and line space.
    pub open spec fn flush(self) -> Step {
        match self.resize_on_flush {
            None => self.acts(self.broadcast(GridOp::Flush)),
            Some(options) => Model { resize_on_flush: None, ..self }.asks(
                self.broadcast(GridOp::Flush) + self.broadcast(
                    GridOp::UpdateCellMetrics {
                        font: options.font,
                        line_space: options.line_space,
                    },
                ),
                Stage::FlushSize(options),
                Query::CalcSize(MAIN_GRID),
            ),
        }
    }

    /// The grids have their font and line space. Neovim gets the new size at
    /// once, and everything else that shows text gets the font.
    pub open spec fn flush_size(self, options: ResizeOptions, cols: usize, rows: usize) -> Step {
        Model { stage: Stage::Idle, ..self }.acts(
            seq![
                Action::CancelResize,
                Action::Nvim(NvimCall::TryResize { cols: cols as i64, rows: rows as i64 }),
                Action::Popupmenu(MenuOp::SetFont(options.font)),
                Action::Cmdline(CmdlineOp::SetFont(options.font)),
                Action::Tabline(TablineOp::SetFont(options.font)),
            ] + optional(
                self.tooltip,
                Action::CursorTooltip(TooltipOp::SetFont(options.font)),
            ) + seq![
                Action::Cmdline(CmdlineOp::SetLineSpace(options.line_space)),
                Action::Popupmenu(MenuOp::SetLineSpace(options.line_space)),
                Action::Tabline(TablineOp::SetLineSpace(options.line_space)),
            ],
        )
    }

    /// The popup menu has items, and is to be shown at a cell of the current
    /// grid, which lies in a window.
    pub open spec fn popupmenu_show(self, event: PopupmenuShow) -> Step {
        let window = self.windows[event.grid];
        self.asks(
            seq![Action::Popupmenu(MenuOp::SetItems(event.items))],
            Stage::MenuAnchor {
                dx: window.x as i32,
                dy: window.y as i32,
                selected: event.selected as i32,
            },
            Query::RectForCell { grid: self.current_grid, row: event.row, col: event.col },
        )
    }

    /// The popup menu is shown at a cell, counted from its window's corner.
    pub open spec fn menu_anchor(self, dx: i32, dy: i32, selected: i32, rect: Rect) -> Step {
        let actions = seq![
            Action::Popupmenu(MenuOp::SetAnchor(shifted(rect, dx, dy))),
            Action::Popupmenu(MenuOp::Select(selected)),
            Action::Popupmenu(MenuOp::Show),
        ];
        if self.tooltip {
            self.asks(actions, Stage::MenuTooltip, Query::TooltipVisible)
        } else {
            Model { stage: Stage::Idle, ..self }.acts(actions)
        }
    }

    /// A cursor tooltip that is on screen makes way for the popup menu.
    pub open spec fn menu_tooltip(self, visible: bool) -> Step {
        if visible {
            self.asks(seq![], Stage::MenuGravity, Query::MenuAboveAnchor)
        } else {
            Model { stage: Stage::Idle, ..self }.acts(seq![])
        }
    }

    /// The cursor tooltip goes to the side where the popup menu is not.
    pub open spec fn menu_gravity(self, above: bool) -> Step {
        let gravity = if above {
            Gravity::Down
        } else {
            Gravity::Up
        };
        Model { stage: Stage::Idle, ..self }.acts(
            seq![
                Action::CursorTooltip(TooltipOp::ForceGravity(Some(gravity))),
                Action::CursorTooltip(TooltipOp::RefreshPosition),
            ],
        )
    }

    /// The popup menu goes, and the cursor tooltip may go where it likes.
    pub open spec fn popupmenu_hide(self) -> Step {
        self.acts(
            seq![Action::Popupmenu(MenuOp::Hide)] + optional(
                self.tooltip,
                Action::CursorTooltip(TooltipOp::ForceGravity(None)),
            ) + optional(self.tooltip, Action::CursorTooltip(TooltipOp::RefreshPosition)),
        )
    }

    /// The interface with a window for `grid`: the one that is there, or a new
    /// one.
    pub open spec fn with_window(self, win: NvimWindow, container: Container, grid: i64) -> Model {
        if self.has_window(grid) {
            self
        } else {
            Model {
                windows: self.windows.insert(grid, new_window(win, container, grid)),
                ..self
            }
        }
    }

    /// Makes the window of `grid`, unless it is there.
    pub open spec fn make_window(self, container: Container, grid: i64) -> Seq<Action> {
        if self.has_window(grid) {
            seq![]
        } else {
            on_frame(grid, new_grid_frame(container, grid))
        }
    }

    /// The interface with the window of `grid` moved.
    pub open spec fn with_window_at(self, grid: i64, x: u64, y: u64) -> Model {
        Model {
            windows: self.windows.insert(grid, Window { x, y, ..self.windows[grid] }),
            ..self
        }
    }

    /// Moves the window of `grid` within its container, gives it a size and
    /// shows it.
    pub open spec fn move_window(self, grid: i64, x: u64, y: u64, w: u64, h: u64) -> Seq<Action> {
        on_frame(grid, place_frame(self.windows[grid].container, x, y, w, h)) + on_frame(
            grid,
            seq![FrameOp::ShowAll],
        )
    }

    /// A window that does not float is made, unless it is there, and is to be
    /// put in its place.
    pub open spec fn window_pos(self, event: WindowPos) -> Step {
        self.with_window(event.win, Container::Windows, event.grid).asks(
            self.make_window(Container::Windows, event.grid),
            Stage::Place(place_of(event)),
            Query::Metrics(MAIN_GRID),
        )
    }

    /// A window that does not float is put in its place, which is counted in
    /// cells of the main grid, and its grid gets the size.
    pub open spec fn place(self, place: Place, main: GridMetrics) -> Step {
        let x = (place.start_col * main.cell_width) as u64;
        let y = (place.start_row * main.cell_height) as u64;
        let w = (place.width * main.cell_width) as u64;
        let h = (place.height * main.cell_height) as u64;
        Model { stage: Stage::Idle, ..self.with_window_at(place.grid, x, y) }.acts(
            self.move_window(place.grid, x, y, w, h).push(
                on_grid(
                    place.grid,
                    GridOp::Resize { width: place.width, height: place.height },
                ),
            ),
        )
    }

    /// A window that floats is made, unless it is there, and that one is made is
    /// noted. It is to be put in its place, counted from where the window of the
    /// grid was that it is anchored to. The main grid has no window.
    pub open spec fn window_float_pos(self, event: WindowFloatPos) -> Step {
        let (x, y) = if event.anchor_grid == MAIN_GRID {
            (0u64, 0u64)
        } else {
            (self.windows[event.anchor_grid].x, self.windows[event.anchor_grid].y)
        };
        self.with_window(event.win, Container::Floats, event.grid).asks(
            optional(!self.has_window(event.grid), Action::Note(Note::FloatMade))
                + self.make_window(Container::Floats, event.grid),
            Stage::PlaceFloat(
                FloatPlace {
                    grid: event.grid,
                    x,
                    y,
                    anchor_row: event.anchor_row,
                    anchor_col: event.anchor_col,
                },
            ),
            Query::MetricsPair { anchor: event.anchor_grid, grid: event.grid },
        )
    }

    /// A window that floats is put in its place, with the size of its grid.
    pub open spec fn place_float(
        self,
        place: FloatPlace,
        anchor: GridMetrics,
        grid: GridMetrics,
    ) -> Step {
        let x = (place.x + anchor.cell_width * place.anchor_col) as u64;
        let y = (place.y + anchor.cell_height * place.anchor_row) as u64;
        let w = (grid.cols * grid.cell_width) as u64;
        let h = (grid.rows * grid.cell_height) as u64;
        Model { stage: Stage::Idle, ..self.with_window_at(place.grid, x, y) }.acts(
            self.move_window(place.grid, x, y, w, h),
        )
    }

    /// What comes of one call of a redraw event.
    pub open spec fn redraw(self, item: RedrawItem) -> Step {
        match item {
            RedrawItem::SetTitle(title) => self.acts(seq![Action::SetTitle(title)]),
            RedrawItem::GridLine(line) => self.acts(
                seq![on_grid(line.grid, GridOp::PutLine(line))],
            ),
            RedrawItem::GridCursorGoto(event) => self.cursor_goto(event),
            RedrawItem::GridResize(event) => self.grid_resize(event),
            RedrawItem::GridClear(grid) => self.acts(seq![on_grid(grid, GridOp::Clear)]),
            RedrawItem::GridDestroy(grid) => self.grid_destroy(grid),
            RedrawItem::GridScroll(event) => self.acts(
                seq![
                    on_grid(
                        event.grid,
                        GridOp::Scroll { reg: event.reg, rows: event.rows, cols: event.cols },
                    ),
                    Action::Nvim(NvimCall::Command(Command::Scrolled)),
                ],
            ),
            RedrawItem::DefaultColorsSet(event) => self.default_colors_set(event),
            RedrawItem::HlAttrDefine(event) => Model {
                hl: HlView { defs: self.hl.defs.insert(event.id, event.hl), ..self.hl },
                ..self
            }.acts(seq![]),
            RedrawItem::OptionSet(option) => self.option_set(option),
            RedrawItem::ModeInfoSet(event) => Model {
                mode_infos: event.mode_info@,
                ..self
            }.acts(seq![]),
            RedrawItem::ModeChange(event) => self.mode_change(event.index),
            RedrawItem::SetBusy(busy) => self.acts(self.broadcast(GridOp::SetBusy(busy))),
            RedrawItem::Flush => self.flush(),
            RedrawItem::PopupmenuShow(event) => self.popupmenu_show(event),
            RedrawItem::PopupmenuHide => self.popupmenu_hide(),
            RedrawItem::PopupmenuSelect(selected) => self.acts(
                seq![Action::Popupmenu(MenuOp::Select(selected as i32))],
            ),
            RedrawItem::TablineUpdate(event) => self.acts(
                seq![Action::Tabline(TablineOp::Update(event))],
            ),
            RedrawItem::CmdlineShow(event) => self.acts(
                seq![Action::Cmdline(CmdlineOp::Show(event))],
            ),
            RedrawItem::CmdlineHide => self.acts(seq![Action::Cmdline(CmdlineOp::Hide)]),
            RedrawItem::CmdlinePos(event) => self.acts(
                seq![Action::Cmdline(CmdlineOp::SetPos { pos: event.pos, level: event.level })],
            ),
            RedrawItem::CmdlineSpecialChar(event) => self.acts(
                seq![
                    Action::Cmdline(
                        CmdlineOp::ShowSpecialChar {
                            character: event.character,
                            shift: event.shift,
                            level: event.level,
                        },
                    ),
                ],
            ),
            RedrawItem::CmdlineBlockShow(event) => self.acts(
                seq![Action::Cmdline(CmdlineOp::ShowBlock(event))],
            ),
            RedrawItem::CmdlineBlockAppend(line) => self.acts(
                seq![Action::Cmdline(CmdlineOp::BlockAppend(line))],
            ),
            RedrawItem::CmdlineBlockHide => self.acts(
                seq![Action::Cmdline(CmdlineOp::HideBlock)],
            ),
            RedrawItem::WildmenuShow(event) => self.acts(
                seq![Action::Cmdline(CmdlineOp::WildmenuShow(event.items))],
            ),
            RedrawItem::WildmenuHide => self.acts(seq![Action::Cmdline(CmdlineOp::WildmenuHide)]),
            RedrawItem::WildmenuSelect(item) => self.acts(
                seq![Action::Cmdline(CmdlineOp::WildmenuSelect(item))],
            ),
            RedrawItem::WindowPos(event) => self.window_pos(event),
            RedrawItem::WindowFloatPos(event) => self.window_float_pos(event),
            RedrawItem::WindowHide(grid) => self.acts(on_frame(grid, seq![FrameOp::Hide])),
            RedrawItem::WindowClose(grid) => Model {
                windows: self.windows.remove(grid),
                ..self
            }.asks(seq![], Stage::Closing(grid), Query::HasChild(grid)),
            RedrawItem::MsgSetPos(event) => self.asks(
                on_messages(seq![FrameOp::AddGrid(event.grid)]),
                Stage::PlaceMessages(event),
                Query::Metrics(event.grid),
            ),
            RedrawItem::Unknown(name) => self.acts(
                seq![Action::Note(Note::UnknownRedrawEvent(name))],
            ),
        }
    }

    /// Whether the interface has what the call speaks of.
    pub open spec fn accepts(self, item: RedrawItem) -> bool {
        match item {
            RedrawItem::GridLine(line) => self.has_grid(line.grid),
            RedrawItem::GridCursorGoto(event) => self.has_grid(event.grid) && self.has_grid(
                self.current_grid,
            ),
            RedrawItem::GridClear(grid) => self.has_grid(grid),
            RedrawItem::GridDestroy(grid) => self.has_grid(grid),
            RedrawItem::GridScroll(event) => self.has_grid(event.grid),
            RedrawItem::OptionSet(OptionSet::GuiFont(_)) => self.resize_on_flush is Some
                || self.has_grid(MAIN_GRID),
            RedrawItem::OptionSet(OptionSet::LineSpace(_)) => self.resize_on_flush is Some
                || self.has_grid(MAIN_GRID),
            RedrawItem::ModeChange(event) => (event.index as usize) < self.mode_infos.len(),
            RedrawItem::Flush => self.resize_on_flush is None || self.has_grid(MAIN_GRID),
            RedrawItem::PopupmenuShow(event) => self.has_grid(self.current_grid)
                && self.has_window(event.grid),
            RedrawItem::WindowPos(event) => self.has_grid(event.grid) && self.has_grid(MAIN_GRID),
            RedrawItem::WindowFloatPos(event) => {
                &&& self.has_grid(event.anchor_grid)
                &&& self.has_grid(event.grid)
                &&& event.anchor_grid == MAIN_GRID || self.has_window(event.anchor_grid)
            },
            RedrawItem::WindowHide(grid) => self.has_window(grid),
            RedrawItem::WindowClose(grid) => self.has_window(grid),
            RedrawItem::MsgSetPos(event) => self.has_grid(event.grid),
            _ => true,
        }
    }

    /// The next call of the batch in hand can be taken.
    pub open spec fn ready(self) -> bool {
        self.stage is Idle && self.queue.len() > 0 && self.accepts(self.queue[0])
    }

    /// What comes of the next call of the batch in hand.
    pub open spec fn step(self) -> Step {
        Model { queue: self.queue.drop_first(), ..self }.redraw(self.queue[0])
    }

    /// What comes of an event of the plugin.
    pub open spec fn gnvim(self, event: GnvimEvent) -> Step {
        match event {
            GnvimEvent::SetGuiColors(colors) => self.acts(
                seq![
                    Action::Popupmenu(MenuOp::SetColors(colors.pmenu)),
                    Action::Tabline(TablineOp::SetColors(colors.tabline)),
                    Action::Cmdline(CmdlineOp::SetColors(colors.cmdline)),
                    Action::Cmdline(CmdlineOp::WildmenuSetColors(colors.wildmenu)),
                ],
            ),
            GnvimEvent::CompletionMenuToggleInfo => self.acts(
                seq![Action::Popupmenu(MenuOp::ToggleShowInfo)],
            ),
            GnvimEvent::PopupmenuWidth(width) => self.acts(
                seq![Action::Popupmenu(MenuOp::SetWidth(width as i32))],
            ),
            GnvimEvent::PopupmenuWidthDetails(width) => self.acts(
                seq![Action::Popupmenu(MenuOp::SetWidthDetails(width as i32))],
            ),
            GnvimEvent::PopupmenuShowMenuOnAllItems(should_show) => self.acts(
                seq![Action::Popupmenu(MenuOp::SetShowMenuOnAllItems(should_show))],
            ),
            GnvimEvent::Unknown(msg) => self.acts(
                seq![Action::Note(Note::UnknownGnvimEvent(msg))],
            ),
            GnvimEvent::CursorTooltipLoadStyle(path) => if self.tooltip {
                self.asks(seq![], Stage::TooltipStyle, Query::LoadStyle(path))
            } else {
                self.no_tooltip()
            },
            GnvimEvent::CursorTooltipShow(content, row, col) => if self.tooltip {
                self.asks(
                    seq![Action::CursorTooltip(TooltipOp::Show(content))],
                    Stage::TooltipAnchor,
                    Query::RectForCell { grid: self.current_grid, row, col },
                )
            } else {
                self.no_tooltip()
            },
            GnvimEvent::CursorTooltipHide => if self.tooltip {
                self.acts(seq![Action::CursorTooltip(TooltipOp::Hide)])
            } else {
                self.no_tooltip()
            },
            GnvimEvent::CursorTooltipSetStyle(style) => if self.tooltip {
                self.acts(seq![Action::CursorTooltip(TooltipOp::SetStyle(style))])
            } else {
                self.no_tooltip()
            },
        }
    }

    /// The user is told that there is no cursor tooltip.
    pub open spec fn no_tooltip(self) -> Step {
        self.acts(seq![Action::Nvim(NvimCall::Command(Command::TooltipUnsupported))])
    }

    /// Whether the interface has what the event of the plugin speaks of.
    pub open spec fn accepts_gnvim(self, event: GnvimEvent) -> bool {
        event is CursorTooltipShow && self.tooltip ==> self.has_grid(self.current_grid)
    }

    /// What comes of a notification.
    pub open spec fn notify(self, notify: Notify) -> Step {
        match notify {
            Notify::RedrawEvent(events) => Model {
                queue: self.queue + items_of_all(events@),
                ..self
            }.acts(seq![]),
            Notify::GnvimEvent(Ok(event)) => self.gnvim(event),
            Notify::GnvimEvent(Err(err)) => self.acts(
                seq![Action::Nvim(NvimCall::Command(Command::NotifyUnreadable(err)))],
            ),
        }
    }

    /// Whether the interface has what the notification speaks of. Of redraw
    /// events this is asked call by call, when their turn comes.
    pub open spec fn accepts_notify(self, notify: Notify) -> bool {
        match notify {
            Notify::GnvimEvent(Ok(event)) => self.accepts_gnvim(event),
            _ => true,
        }
    }

    /// Whether `answer` is one to what is waited for, and whether what follows
    /// from it can be computed.
    pub open spec fn fits(self, answer: Answer) -> bool {
        match (self.stage, answer) {
            (Stage::ParseFont(_), Answer::FontUsable(_)) => true,
            (Stage::FontStyle, Answer::Style { .. }) => true,
            (Stage::LineStyle, Answer::Style { .. }) => true,
            (Stage::FlushSize(_), Answer::Size { .. }) => true,
            (Stage::MenuAnchor { dx, dy, .. }, Answer::Rect(rect)) => shift_fits(rect, dx, dy),
            (Stage::MenuTooltip, Answer::Flag(_)) => true,
            (Stage::MenuGravity, Answer::Flag(_)) => true,
            (Stage::TooltipAnchor, Answer::Rect(_)) => true,
            (Stage::TooltipStyle, Answer::Loaded(_)) => true,
            (Stage::Place(place), Answer::Metrics(main)) => place_fits(place, main),
            (Stage::PlaceFloat(place), Answer::MetricsPair { anchor, grid }) => {
                float_fits(place, anchor, grid)
            },
            (Stage::PlaceMessages(event), Answer::Metrics(metrics)) => {
                msg_fits(metrics, event.row)
            },
            (Stage::Closing(_), Answer::Flag(_)) => true,
            _ => false,
        }
    }

    /// What comes of an answer.
    pub open spec fn resume(self, answer: Answer) -> Step {
        let rest = Model { stage: Stage::Idle, ..self };
        match (self.stage, answer) {
            (Stage::ParseFont(name), Answer::FontUsable(usable)) => self.font_parsed(name, usable),
            (Stage::FontStyle, Answer::Style { font: _, line_space }) => Model {
                resize_on_flush: Some(ResizeOptions { font: self.font, line_space }),
                ..rest
            }.acts(seq![]),
            (Stage::LineStyle, Answer::Style { font, line_space: _ }) => Model {
                resize_on_flush: Some(ResizeOptions { font, line_space: self.line_space }),
                ..rest
            }.acts(seq![]),
            (Stage::FlushSize(options), Answer::Size { cols, rows }) => {
                self.flush_size(options, cols, rows)
            },
            (Stage::MenuAnchor { dx, dy, selected }, Answer::Rect(rect)) => {
                self.menu_anchor(dx, dy, selected, rect)
            },
            (Stage::MenuTooltip, Answer::Flag(visible)) => self.menu_tooltip(visible),
            (Stage::MenuGravity, Answer::Flag(above)) => self.menu_gravity(above),
            (Stage::TooltipAnchor, Answer::Rect(rect)) => rest.acts(
                seq![Action::CursorTooltip(TooltipOp::MoveTo(rect))],
            ),
            (Stage::TooltipStyle, Answer::Loaded(loaded)) => match loaded {
                Ok(_) => rest.acts(seq![]),
                Err(err) => rest.acts(
                    seq![Action::Nvim(NvimCall::Command(Command::StyleUnloadable(err)))],
                ),
            },
            (Stage::Place(place), Answer::Metrics(main)) => self.place(place, main),
            (Stage::PlaceFloat(place), Answer::MetricsPair { anchor, grid }) => {
                self.place_float(place, anchor, grid)
            },
            (Stage::PlaceMessages(event), Answer::Metrics(metrics)) => rest.acts(
                on_messages(place_messages(self.messages, metrics, event.row)),
            ),
            (Stage::Closing(grid), Answer::Flag(has_child)) => rest.acts(
                on_frame(grid, drop_frame(has_child)),
            ),
            _ => self.acts(seq![]),
        }
    }
}

} // verus!
