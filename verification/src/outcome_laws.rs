//! What is seen of each event: what is done, to whom, with which values, and what
//! else stays as it was.

use vstd::prelude::*;

use crate::action::{
    Action, Answer, CmdlineOp, Command, Container, Font, FrameOp, Gravity, GridMetrics, GridOp,
    MenuOp, Note, NvimCall, Query, Rect, TablineOp, TooltipOp, Turn,
};
use crate::color::Highlight;
use crate::event::{
    items_of, items_of_all, BlockLine, CmdlineBlockShow, CmdlinePos, CmdlineShow,
    CmdlineSpecialChar, DefaultColorsSet, GnvimEvent, GridCursorGoto, GridLine, GridResize,
    GridScroll, GuiColors, HlAttrDefine, ModeChange, ModeInfoSet, MsgSetPos, Notify, OptionSet,
    PopupmenuShow, RedrawEvent, RedrawItem, TablineUpdate, WildmenuShow, WindowFloatPos, WindowPos,
};
use crate::grids::lemma_without;
use crate::laws::law_items_concatenate;
use crate::model::{is_step, Model, ResizeOptions, Stage, Step};
use crate::state::UIState;
use crate::window::Window;

verus! {

/// The title of the main window is the one that Neovim sent, and nothing else is
/// done.
pub proof fn law_title_is_the_one_sent(m: Model, title: String)
    ensures
        m.redraw(RedrawItem::SetTitle(title)).actions == seq![Action::SetTitle(title)],
        m.redraw(RedrawItem::SetTitle(title)).next == m,
        m.redraw(RedrawItem::SetTitle(title)).ask is None,
{
}

/// A line is put on the grid that it names, as it came, whichever grid has the
/// cursor, and no other grid is touched.
pub proof fn law_line_goes_to_its_grid(m: Model, line: GridLine, cursor: i64)
    ensures
        ({
            let step = m.redraw(RedrawItem::GridLine(line));
            let elsewhere = Model { current_grid: cursor, ..m }.redraw(RedrawItem::GridLine(line));
            &&& step.actions.len() == 1
            &&& step.actions[0] matches Action::Grid { grid, op } && grid == line.grid && op
                == GridOp::PutLine(line)
            &&& elsewhere.actions == step.actions
            &&& step.next == m
            &&& step.ask is None
        }),
{
}

/// The grid that is named is cleared, whichever grid has the cursor, and no other
/// grid is touched.
pub proof fn law_clear_goes_to_its_grid(m: Model, id: i64, cursor: i64)
    ensures
        ({
            let step = m.redraw(RedrawItem::GridClear(id));
            let elsewhere = Model { current_grid: cursor, ..m }.redraw(RedrawItem::GridClear(id));
            &&& step.actions.len() == 1
            &&& step.actions[0] matches Action::Grid { grid, op } && grid == id && op
                == GridOp::Clear
            &&& elsewhere.actions == step.actions
            &&& step.next == m
            &&& step.ask is None
        }),
{
}

/// The grid that is named scrolls, by as much and in the part that is named,
/// whichever grid has the cursor, and scripts are told once.
pub proof fn law_scroll_goes_to_its_grid(m: Model, event: GridScroll, cursor: i64)
    ensures
        ({
            let step = m.redraw(RedrawItem::GridScroll(event));
            let elsewhere = Model { current_grid: cursor, ..m }.redraw(
                RedrawItem::GridScroll(event),
            );
            &&& step.actions.len() == 2
            &&& step.actions[0] matches Action::Grid { grid, op } && grid == event.grid && op
                == (GridOp::Scroll { reg: event.reg, rows: event.rows, cols: event.cols })
            &&& step.actions[1] == Action::Nvim(NvimCall::Command(Command::Scrolled))
            &&& elsewhere.actions == step.actions
            &&& step.next == m
            &&& step.ask is None
        }),
{
}

/// The cursor ends up at the row and the column that were sent, on the grid that
/// was sent, and that is all within one grid. From one grid to another the old
/// grid is put to rest before the new one is woken. Only the current grid
/// changes.
pub proof fn law_cursor_goes_where_it_is_sent(m: Model, event: GridCursorGoto)
    ensures
        ({
            let step = m.redraw(RedrawItem::GridCursorGoto(event));
            let old = m.current_grid;
            &&& step.actions.last() == (Action::Grid {
                grid: event.grid,
                op: GridOp::CursorGoto { row: event.row, col: event.col },
            })
            &&& old == event.grid ==> step.actions.len() == 1
            &&& old != event.grid ==> {
                &&& step.actions.len() == 4
                &&& step.actions[0] == (Action::Grid { grid: old, op: GridOp::SetActive(false) })
                &&& step.actions[1] == (Action::Grid { grid: old, op: GridOp::Tick })
                &&& step.actions[2] == (Action::Grid {
                    grid: event.grid,
                    op: GridOp::SetActive(true),
                })
            }
            &&& step.next == (Model { current_grid: event.grid, ..m })
            &&& step.ask is None
        }),
{
}

/// A grid that is there gets the size that was sent, and nothing else happens.
pub proof fn law_known_grid_gets_its_size(m: Model, event: GridResize)
    requires
        m.grids.contains(event.grid),
    ensures
        ({
            let step = m.redraw(RedrawItem::GridResize(event));
            &&& step.actions.len() == 1
            &&& step.actions[0] == (Action::Grid {
                grid: event.grid,
                op: GridOp::Resize { width: event.width, height: event.height },
            })
            &&& step.next == m
            &&& step.ask is None
        }),
{
}

/// A grid that is not there is made with as many columns as it is wide and as
/// many rows as it is high, in the font and with the line space of the time. It
/// takes on the mode, if there is one, gets the same size, and listens to the
/// mouse. It is the newest of the grids, and the others stay.
pub proof fn law_new_grid_is_made_as_it_was_sent(m: Model, event: GridResize)
    requires
        !m.grids.contains(event.grid),
    ensures
        ({
            let step = m.redraw(RedrawItem::GridResize(event));
            let n = step.actions.len() as int;
            &&& step.actions[0] == (Action::CreateGrid {
                grid: event.grid,
                font: m.font,
                line_space: m.line_space,
                cols: event.width as usize,
                rows: event.height as usize,
            })
            &&& match m.current_mode {
                Some(mode) => n == 4 && step.actions[1] == (Action::Grid {
                    grid: event.grid,
                    op: GridOp::SetMode(mode),
                }),
                None => n == 3,
            }
            &&& step.actions[n - 2] == (Action::Grid {
                grid: event.grid,
                op: GridOp::Resize { width: event.width, height: event.height },
            })
            &&& step.actions[n - 1] == Action::AttachGridEvents(event.grid)
            &&& step.next.grids.len() == m.grids.len() + 1
            &&& step.next.grids.last() == event.grid
            &&& step.next.grids.drop_last() == m.grids
            &&& step.next == (Model { grids: step.next.grids, ..m })
            &&& step.ask is None
        }),
{
    let step = m.redraw(RedrawItem::GridResize(event));
    assert(step.next.grids.drop_last() =~= m.grids);
}

/// The grid that is named is dropped, and that is noted. The others keep their
/// order, the cursor goes back to the first grid, and nothing else changes.
pub proof fn law_destroyed_grid_is_taken_out(m: Model, grid: i64, at: int)
    requires
        m.wf(),
        0 <= at < m.grids.len(),
        m.grids[at] == grid,
    ensures
        ({
            let step = m.redraw(RedrawItem::GridDestroy(grid));
            let rest = step.next.grids;
            &&& step.actions == seq![
                Action::Note(Note::GridDropped(grid)),
                Action::DestroyGrid(grid),
            ]
            &&& !rest.contains(grid)
            &&& rest.len() == m.grids.len() - 1
            &&& forall|i: int| 0 <= i < at ==> #[trigger] rest[i] == m.grids[i]
            &&& forall|i: int| at <= i < rest.len() ==> #[trigger] rest[i] == m.grids[i + 1]
            &&& step.next == (Model { grids: rest, current_grid: 1, ..m })
            &&& step.ask is None
        }),
{
    lemma_without(m.grids, grid);
    assert(m.grids.index_of(grid) == at);
}

/// New default colours are drawn by every grid, reach the cursor tooltip, if
/// there is one, and fill the background of the main window. They are kept, text
/// without a colour of its own has them, and nothing but colours changes.
pub proof fn law_default_colors_are_seen_everywhere(m: Model, event: DefaultColorsSet)
    ensures
        ({
            let step = m.redraw(RedrawItem::DefaultColorsSet(event));
            let n = m.grids.len() as int;
            &&& step.actions.len() == if m.tooltip {
                n + 2
            } else {
                n + 1
            }
            &&& forall|i: int|
                0 <= i < n ==> #[trigger] step.actions[i] == (Action::Grid {
                    grid: m.grids[i],
                    op: GridOp::Redraw,
                })
            &&& m.tooltip ==> step.actions[n] == Action::CursorTooltip(
                TooltipOp::SetColors { fg: event.fg, bg: event.bg },
            )
            &&& step.actions.last() == Action::SetBackground(event.bg)
            &&& step.next.hl.default_fg == event.fg
            &&& step.next.hl.default_bg == event.bg
            &&& step.next.hl.default_sp == event.sp
            &&& step.next.hl.defs == m.hl.defs.insert(
                0,
                Highlight {
                    foreground: Some(event.fg),
                    background: Some(event.bg),
                    special: Some(event.sp),
                    ..m.hl.defs[0]
                },
            )
            &&& step.next == (Model { hl: step.next.hl, ..m })
            &&& step.ask is None
        }),
{
}

/// Defining a highlight changes no default colour and nothing outside the
/// highlights, and nothing is drawn for it.
pub proof fn law_highlight_is_only_kept(m: Model, event: HlAttrDefine)
    ensures
        ({
            let step = m.redraw(RedrawItem::HlAttrDefine(event));
            &&& step.actions.len() == 0
            &&& step.next.hl.default_fg == m.hl.default_fg
            &&& step.next.hl.default_bg == m.hl.default_bg
            &&& step.next.hl.default_sp == m.hl.default_sp
            &&& step.next.hl.defs.contains_key(event.id)
            &&& step.next.hl.defs[event.id] == event.hl
            &&& step.next == (Model { hl: step.next.hl, ..m })
            &&& step.ask is None
        }),
{
}

/// The font that was named is the font from there on, or the fallback where it
/// cannot be used. The grids are to get it with the line space that they are to
/// get, or else with that of the first grid. Nothing is done yet.
#[verifier::rlimit(50)]
pub proof fn law_font_is_the_one_named(
    m: Model,
    name: String,
    usable: bool,
    style_font: Font,
    style_space: i64,
)
    requires
        m.stage is Idle,
    ensures
        ({
            let asked = m.redraw(RedrawItem::OptionSet(OptionSet::GuiFont(name)));
            let parsed = asked.next.resume(Answer::FontUsable(usable));
            let styled = parsed.next.resume(
                Answer::Style { font: style_font, line_space: style_space },
            );
            let font = if usable {
                Font::Guifont(name)
            } else {
                Font::Fallback
            };
            &&& asked.ask == Some(Query::ParseFont(name))
            &&& asked.actions.len() == 0
            &&& parsed.actions.len() == 0
            &&& match m.resize_on_flush {
                Some(options) => {
                    &&& parsed.ask is None
                    &&& parsed.next == (Model {
                        font,
                        resize_on_flush: Some(
                            ResizeOptions { font, line_space: options.line_space },
                        ),
                        ..m
                    })
                },
                None => {
                    &&& parsed.ask == Some(Query::GridStyle(1))
                    &&& styled.actions.len() == 0
                    &&& styled.ask is None
                    &&& styled.next == (Model {
                        font,
                        resize_on_flush: Some(ResizeOptions { font, line_space: style_space }),
                        ..m
                    })
                },
            }
        }),
{
}

/// The line space that was sent is the line space from there on. The grids are to
/// get it with the font that they are to get, or else with that of the first
/// grid. Nothing is done yet.
pub proof fn law_line_space_is_the_one_sent(
    m: Model,
    line_space: i64,
    style_font: Font,
    style_space: i64,
)
    requires
        m.stage is Idle,
    ensures
        ({
            let set = m.redraw(RedrawItem::OptionSet(OptionSet::LineSpace(line_space)));
            let styled = set.next.resume(
                Answer::Style { font: style_font, line_space: style_space },
            );
            &&& set.actions.len() == 0
            &&& match m.resize_on_flush {
                Some(options) => {
                    &&& set.ask is None
                    &&& set.next == (Model {
                        line_space,
                        resize_on_flush: Some(ResizeOptions { font: options.font, line_space }),
                        ..m
                    })
                },
                None => {
                    &&& set.ask == Some(Query::GridStyle(1))
                    &&& styled.actions.len() == 0
                    &&& styled.ask is None
                    &&& styled.next == (Model {
                        line_space,
                        resize_on_flush: Some(ResizeOptions { font: style_font, line_space }),
                        ..m
                    })
                },
            }
        }),
{
}

/// An option that is not supported changes nothing, and is noted by its name.
pub proof fn law_other_options_change_nothing(m: Model, name: String)
    ensures
        ({
            let step = m.redraw(RedrawItem::OptionSet(OptionSet::NotSupported(name)));
            &&& step.actions == seq![Action::Note(Note::UnsupportedOption(name))]
            &&& step.next == m
            &&& step.ask is None
        }),
{
}

/// A mode is on by its place in the list that was sent last: every grid takes on
/// that mode, and it is the current one.
pub proof fn law_mode_is_the_one_of_the_list(m: Model, list: ModeInfoSet, change: ModeChange)
    ensures
        ({
            let set = m.redraw(RedrawItem::ModeInfoSet(list));
            let on = set.next.redraw(RedrawItem::ModeChange(change));
            let mode = list.mode_info@[change.index as usize as int];
            &&& set.actions.len() == 0
            &&& set.ask is None
            &&& set.next == (Model { mode_infos: list.mode_info@, ..m })
            &&& on.actions.len() == m.grids.len()
            &&& forall|i: int|
                0 <= i < m.grids.len() ==> #[trigger] on.actions[i] == (Action::Grid {
                    grid: m.grids[i],
                    op: GridOp::SetMode(mode),
                })
            &&& on.next == (Model { current_mode: Some(mode), ..set.next })
            &&& on.ask is None
        }),
{
}

/// Every grid is told whether Neovim is busy, as it was sent.
pub proof fn law_busy_is_told_to_all(m: Model, busy: bool)
    ensures
        ({
            let step = m.redraw(RedrawItem::SetBusy(busy));
            &&& step.actions.len() == m.grids.len()
            &&& forall|i: int|
                0 <= i < m.grids.len() ==> #[trigger] step.actions[i] == (Action::Grid {
                    grid: m.grids[i],
                    op: GridOp::SetBusy(busy),
                })
            &&& step.next == m
            &&& step.ask is None
        }),
{
}

/// With nothing put off, a flush flushes every grid and does no more.
pub proof fn law_plain_flush_reaches_all(m: Model)
    requires
        m.resize_on_flush is None,
    ensures
        ({
            let step = m.redraw(RedrawItem::Flush);
            &&& step.actions.len() == m.grids.len()
            &&& forall|i: int|
                0 <= i < m.grids.len() ==> #[trigger] step.actions[i] == (Action::Grid {
                    grid: m.grids[i],
                    op: GridOp::Flush,
                })
            &&& step.next == m
            &&& step.ask is None
        }),
{
}

/// A font and a line space that were put off come with the flush: every grid is
/// flushed, and then gets both. The first grid is asked for its size, which
/// Neovim gets, columns as columns and rows as rows, in place of any delayed
/// one. All else that shows text gets the same font and the same line space.
#[verifier::rlimit(50)]
pub proof fn law_flush_brings_what_was_put_off(
    m: Model,
    options: ResizeOptions,
    cols: usize,
    rows: usize,
)
    requires
        m.stage is Idle,
        m.resize_on_flush == Some(options),
    ensures
        ({
            let first = m.redraw(RedrawItem::Flush);
            let done = first.next.resume(Answer::Size { cols, rows });
            let n = m.grids.len() as int;
            let k: int = if m.tooltip {
                1
            } else {
                0
            };
            &&& first.actions.len() == 2 * n
            &&& forall|i: int|
                0 <= i < n ==> #[trigger] first.actions[i] == (Action::Grid {
                    grid: m.grids[i],
                    op: GridOp::Flush,
                })
            &&& forall|i: int|
                n <= i < 2 * n ==> #[trigger] first.actions[i] == (Action::Grid {
                    grid: m.grids[i - n],
                    op: GridOp::UpdateCellMetrics {
                        font: options.font,
                        line_space: options.line_space,
                    },
                })
            &&& first.ask == Some(Query::CalcSize(1))
            &&& done.actions.len() == 8 + k
            &&& done.actions[0] == Action::CancelResize
            &&& done.actions[1] == Action::Nvim(
                NvimCall::TryResize { cols: cols as i64, rows: rows as i64 },
            )
            &&& done.actions[2] == Action::Popupmenu(MenuOp::SetFont(options.font))
            &&& done.actions[3] == Action::Cmdline(CmdlineOp::SetFont(options.font))
            &&& done.actions[4] == Action::Tabline(TablineOp::SetFont(options.font))
            &&& m.tooltip ==> done.actions[5] == Action::CursorTooltip(
                TooltipOp::SetFont(options.font),
            )
            &&& done.actions[5 + k] == Action::Cmdline(CmdlineOp::SetLineSpace(options.line_space))
            &&& done.actions[6 + k] == Action::Popupmenu(MenuOp::SetLineSpace(options.line_space))
            &&& done.actions[7 + k] == Action::Tabline(TablineOp::SetLineSpace(options.line_space))
            &&& done.next == (Model { resize_on_flush: None, ..m })
            &&& done.ask is None
        }),
{
}

/// The popup menu comes up with the items that were sent, at the cell that was
/// sent, counted from the corner of its window, and with the item selected that
/// was sent. The cell is one of the current grid. The interface stays as it was.
#[verifier::rlimit(50)]
pub proof fn law_menu_comes_up_as_it_was_sent(m: Model, event: PopupmenuShow, rect: Rect)
    requires
        m.stage is Idle,
        m.redraw(RedrawItem::PopupmenuShow(event)).next.fits(Answer::Rect(rect)),
    ensures
        ({
            let asked = m.redraw(RedrawItem::PopupmenuShow(event));
            let shown = asked.next.resume(Answer::Rect(rect));
            let window = m.windows[event.grid];
            &&& asked.actions == seq![Action::Popupmenu(MenuOp::SetItems(event.items))]
            &&& asked.ask == Some(
                Query::RectForCell { grid: m.current_grid, row: event.row, col: event.col },
            )
            &&& shown.actions.len() == 3
            &&& shown.actions[0] matches Action::Popupmenu(MenuOp::SetAnchor(anchor)) && {
                &&& anchor.x - rect.x == window.x as i32
                &&& anchor.y - rect.y == window.y as i32
                &&& anchor.width == rect.width
                &&& anchor.height == rect.height
            }
            &&& shown.actions[1] == Action::Popupmenu(MenuOp::Select(event.selected as i32))
            &&& shown.actions[2] == Action::Popupmenu(MenuOp::Show)
            &&& Model { stage: Stage::Idle, ..asked.next } == m
            &&& Model { stage: Stage::Idle, ..shown.next } == m
            &&& m.tooltip <==> shown.ask == Some(Query::TooltipVisible)
            &&& !m.tooltip ==> shown.ask is None && shown.next == m
        }),
{
    let asked = m.redraw(RedrawItem::PopupmenuShow(event));
    assert(Model { stage: Stage::Idle, ..asked.next } =~= m);
    assert(Model { stage: Stage::Idle, ..asked.next.resume(Answer::Rect(rect)).next } =~= m);
}

/// A cursor tooltip that is on screen when the popup menu comes up goes below the
/// cursor where the menu is above, and above it where the menu is not. One that
/// is not on screen is left alone.
#[verifier::rlimit(50)]
pub proof fn law_tooltip_goes_to_the_other_side(
    m: Model,
    event: PopupmenuShow,
    rect: Rect,
    above: bool,
)
    requires
        m.stage is Idle,
        m.tooltip,
    ensures
        ({
            let shown = m.redraw(RedrawItem::PopupmenuShow(event)).next.resume(Answer::Rect(rect));
            let unseen = shown.next.resume(Answer::Flag(false));
            let seen = shown.next.resume(Answer::Flag(true));
            let moved = seen.next.resume(Answer::Flag(above));
            &&& unseen.actions.len() == 0
            &&& unseen.ask is None
            &&& unseen.next == m
            &&& seen.actions.len() == 0
            &&& seen.ask == Some(Query::MenuAboveAnchor)
            &&& moved.actions.len() == 2
            &&& moved.actions[0] == Action::CursorTooltip(
                TooltipOp::ForceGravity(Some(Gravity::Down)),
            ) <==> above
            &&& moved.actions[0] == Action::CursorTooltip(
                TooltipOp::ForceGravity(Some(Gravity::Up)),
            ) <==> !above
            &&& moved.actions[1] == Action::CursorTooltip(TooltipOp::RefreshPosition)
            &&& moved.ask is None
            &&& moved.next == m
        }),
{
    let shown = m.redraw(RedrawItem::PopupmenuShow(event)).next.resume(Answer::Rect(rect));
    assert(shown.next.resume(Answer::Flag(false)).next =~= m);
    assert(shown.next.resume(Answer::Flag(true)).next.resume(Answer::Flag(above)).next =~= m);
}

/// The popup menu goes when it is told to, and leaves the cursor tooltip free.
pub proof fn law_menu_goes(m: Model)
    ensures
        ({
            let step = m.redraw(RedrawItem::PopupmenuHide);
            &&& step.actions[0] == Action::Popupmenu(MenuOp::Hide)
            &&& !m.tooltip ==> step.actions.len() == 1
            &&& m.tooltip ==> {
                &&& step.actions.len() == 3
                &&& step.actions[1] == Action::CursorTooltip(TooltipOp::ForceGravity(None))
                &&& step.actions[2] == Action::CursorTooltip(TooltipOp::RefreshPosition)
            }
            &&& step.next == m
            &&& step.ask is None
        }),
{
}

/// The item that is selected is the one that was sent.
pub proof fn law_menu_selects_what_was_sent(m: Model, selected: i64)
    ensures
        ({
            let step = m.redraw(RedrawItem::PopupmenuSelect(selected));
            &&& step.actions == seq![Action::Popupmenu(MenuOp::Select(selected as i32))]
            &&& i32::MIN <= selected <= i32::MAX ==> (step.actions[0] matches Action::Popupmenu(
                MenuOp::Select(item),
            ) && item == selected)
            &&& step.next == m
            &&& step.ask is None
        }),
{
}

/// The tab line shows the tabs that were sent.
pub proof fn law_tabs_are_those_sent(m: Model, event: TablineUpdate)
    ensures
        ({
            let step = m.redraw(RedrawItem::TablineUpdate(event));
            &&& step.actions == seq![Action::Tabline(TablineOp::Update(event))]
            &&& step.next == m
            &&& step.ask is None
        }),
{
}

/// The command line shows what was sent, and goes when it is told to.
pub proof fn law_cmdline_shows_what_was_sent(
    m: Model,
    show: CmdlineShow,
    pos: CmdlinePos,
    special: CmdlineSpecialChar,
)
    ensures
        ({
            let shown = m.redraw(RedrawItem::CmdlineShow(show));
            let gone = m.redraw(RedrawItem::CmdlineHide);
            let moved = m.redraw(RedrawItem::CmdlinePos(pos));
            let marked = m.redraw(RedrawItem::CmdlineSpecialChar(special));
            &&& shown == (Step {
                next: m,
                actions: seq![Action::Cmdline(CmdlineOp::Show(show))],
                ask: None,
            })
            &&& gone == (Step {
                next: m,
                actions: seq![Action::Cmdline(CmdlineOp::Hide)],
                ask: None,
            })
            &&& moved == (Step {
                next: m,
                actions: seq![
                    Action::Cmdline(CmdlineOp::SetPos { pos: pos.pos, level: pos.level }),
                ],
                ask: None,
            })
            &&& marked == (Step {
                next: m,
                actions: seq![
                    Action::Cmdline(
                        CmdlineOp::ShowSpecialChar {
                            character: special.character,
                            shift: special.shift,
                            level: special.level,
                        },
                    ),
                ],
                ask: None,
            })
        }),
{
}

/// The block of the command line shows the lines that were sent, and goes when it
/// is told to.
pub proof fn law_block_shows_what_was_sent(m: Model, show: CmdlineBlockShow, line: BlockLine)
    ensures
        ({
            let shown = m.redraw(RedrawItem::CmdlineBlockShow(show));
            let more = m.redraw(RedrawItem::CmdlineBlockAppend(line));
            let gone = m.redraw(RedrawItem::CmdlineBlockHide);
            &&& shown == (Step {
                next: m,
                actions: seq![Action::Cmdline(CmdlineOp::ShowBlock(show))],
                ask: None,
            })
            &&& more == (Step {
                next: m,
                actions: seq![Action::Cmdline(CmdlineOp::BlockAppend(line))],
                ask: None,
            })
            &&& gone == (Step {
                next: m,
                actions: seq![Action::Cmdline(CmdlineOp::HideBlock)],
                ask: None,
            })
        }),
{
}

/// The menu of the command line shows the items that were sent, selects the item
/// that was sent, and goes when it is told to.
pub proof fn law_wildmenu_shows_what_was_sent(m: Model, show: WildmenuShow, item: i64)
    ensures
        ({
            let shown = m.redraw(RedrawItem::WildmenuShow(show));
            let selected = m.redraw(RedrawItem::WildmenuSelect(item));
            let gone = m.redraw(RedrawItem::WildmenuHide);
            &&& shown == (Step {
                next: m,
                actions: seq![Action::Cmdline(CmdlineOp::WildmenuShow(show.items))],
                ask: None,
            })
            &&& selected == (Step {
                next: m,
                actions: seq![Action::Cmdline(CmdlineOp::WildmenuSelect(item))],
                ask: None,
            })
            &&& gone == (Step {
                next: m,
                actions: seq![Action::Cmdline(CmdlineOp::WildmenuHide)],
                ask: None,
            })
        }),
{
}

/// `actions`, from `at` on, move the window of `id` within `container` to `x` and
/// `y`, ask for the width `w` and the height `h`, and show it. Numbers are in
/// pixels, and of those that the toolkit cannot hold it gets the low bits.
pub open spec fn moves_and_shows(
    actions: Seq<Action>,
    at: int,
    id: i64,
    container: Container,
    x: int,
    y: int,
    w: int,
    h: int,
) -> bool {
    &&& at + 3 <= actions.len()
    &&& actions[at] == (Action::Window {
        grid: id,
        op: FrameOp::Move { container, x: x as u64 as i32, y: y as u64 as i32 },
    })
    &&& actions[at + 1] == (Action::Window {
        grid: id,
        op: FrameOp::SizeRequest { width: w as u64 as i32, height: h as u64 as i32 },
    })
    &&& actions[at + 2] == (Action::Window { grid: id, op: FrameOp::ShowAll })
}

/// `actions`, from `at` on, make a frame at the corner of `container` around the
/// widget of the grid `id`, and no more.
pub open spec fn makes_frame(actions: Seq<Action>, at: int, id: i64, container: Container) -> bool {
    &&& actions.len() == at + 3
    &&& actions[at] == (Action::Window { grid: id, op: FrameOp::Create })
    &&& actions[at + 1] == (Action::Window {
        grid: id,
        op: FrameOp::Put { container, x: 0, y: 0 },
    })
    &&& actions[at + 2] == (Action::Window { grid: id, op: FrameOp::AddGrid(id) })
}

/// A window that does not float is as many cells of the first grid wide and high
/// as it was sent to be, and as many cells from the left and from the top: its
/// width and its columns are counted in cell widths, its height and its rows in
/// cell heights. Its grid gets its size in cells. A window that is not there is
/// made among those that do not float; one that is there stays what it is but for
/// its place.
#[verifier::rlimit(50)]
pub proof fn law_window_is_placed_in_cells(m: Model, event: WindowPos, main: GridMetrics)
    requires
        m.wf(),
        m.stage is Idle,
        m.accepts(RedrawItem::WindowPos(event)),
        m.redraw(RedrawItem::WindowPos(event)).next.fits(Answer::Metrics(main)),
    ensures
        ({
            let asked = m.redraw(RedrawItem::WindowPos(event));
            let done = asked.next.resume(Answer::Metrics(main));
            let known = m.windows.contains_key(event.grid);
            let before = m.windows[event.grid];
            let after = done.next.windows[event.grid];
            &&& known ==> asked.actions.len() == 0
            &&& !known ==> makes_frame(asked.actions, 0, event.grid, Container::Windows)
            &&& asked.ask == Some(Query::Metrics(1))
            &&& done.actions.len() == 4
            &&& moves_and_shows(
                done.actions,
                0,
                event.grid,
                if known {
                    before.container
                } else {
                    Container::Windows
                },
                event.start_col * main.cell_width,
                event.start_row * main.cell_height,
                event.width * main.cell_width,
                event.height * main.cell_height,
            )
            &&& done.actions[3] == (Action::Grid {
                grid: event.grid,
                op: GridOp::Resize { width: event.width, height: event.height },
            })
            &&& done.ask is None
            &&& after.x == event.start_col * main.cell_width
            &&& after.y == event.start_row * main.cell_height
            &&& known ==> after == (Window { x: after.x, y: after.y, ..before })
            &&& !known ==> {
                &&& after.container == Container::Windows
                &&& after.grid_id == event.grid
                &&& after.nvim_win == event.win
            }
            &&& done.next.windows == m.windows.insert(event.grid, after)
            &&& done.next == (Model { windows: done.next.windows, ..m })
        }),
{
    assert(0 <= event.start_col * main.cell_width) by (nonlinear_arith);
    assert(0 <= event.start_row * main.cell_height) by (nonlinear_arith);
    assert(0 <= event.width * main.cell_width) by (nonlinear_arith);
    assert(0 <= event.height * main.cell_height) by (nonlinear_arith);
    let asked = m.redraw(RedrawItem::WindowPos(event));
    let done = asked.next.resume(Answer::Metrics(main));
    assert(done.next.windows =~= m.windows.insert(event.grid, done.next.windows[event.grid]));
    assert(done.next =~= (Model { windows: done.next.windows, ..m }));
}

/// The pixels that a window that does not float is asked to have are its columns
/// times the width of a cell and its rows times the height of a cell, wherever
/// the toolkit can hold them.
pub proof fn law_window_has_its_size_in_pixels(
    m: Model,
    event: WindowPos,
    main: GridMetrics,
    i: int,
)
    requires
        m.wf(),
        m.stage is Idle,
        m.accepts(RedrawItem::WindowPos(event)),
        event.start_col * main.cell_width <= i32::MAX,
        event.start_row * main.cell_height <= i32::MAX,
        event.width * main.cell_width <= i32::MAX,
        event.height * main.cell_height <= i32::MAX,
        0 <= i < m.redraw(RedrawItem::WindowPos(event)).next.resume(
            Answer::Metrics(main),
        ).actions.len(),
    ensures
        match m.redraw(RedrawItem::WindowPos(event)).next.resume(
            Answer::Metrics(main),
        ).actions[i] {
            Action::Window { grid, op: FrameOp::SizeRequest { width, height } } => {
                &&& grid == event.grid
                &&& width == event.width * main.cell_width
                &&& height == event.height * main.cell_height
            },
            Action::Window { grid, op: FrameOp::Move { x, y, .. } } => {
                &&& grid == event.grid
                &&& x == event.start_col * main.cell_width
                &&& y == event.start_row * main.cell_height
            },
            Action::Window { grid, op } => grid == event.grid && op == FrameOp::ShowAll,
            Action::Grid { grid, op } => grid == event.grid && op == (GridOp::Resize {
                width: event.width,
                height: event.height,
            }),
            _ => false,
        },
{
    assert(0 <= event.start_col * main.cell_width) by (nonlinear_arith);
    assert(0 <= event.start_row * main.cell_height) by (nonlinear_arith);
    assert(0 <= event.width * main.cell_width) by (nonlinear_arith);
    assert(0 <= event.height * main.cell_height) by (nonlinear_arith);
    law_window_is_placed_in_cells(m, event, main);
}

/// A window that floats is as wide and as high as its own grid, in that grid's
/// cells, and is as many cells of the grid that it is anchored to away from that
/// one's window as it was sent to be. A window that is not there is made among
/// those that float, and that is noted; one that is there stays what it is but
/// for its place.
#[verifier::rlimit(50)]
pub proof fn law_float_is_placed_in_cells(
    m: Model,
    event: WindowFloatPos,
    anchor: GridMetrics,
    grid: GridMetrics,
)
    requires
        m.wf(),
        m.stage is Idle,
        m.accepts(RedrawItem::WindowFloatPos(event)),
        m.redraw(RedrawItem::WindowFloatPos(event)).next.fits(
            Answer::MetricsPair { anchor, grid },
        ),
    ensures
        ({
            let asked = m.redraw(RedrawItem::WindowFloatPos(event));
            let done = asked.next.resume(Answer::MetricsPair { anchor, grid });
            let known = m.windows.contains_key(event.grid);
            let before = m.windows[event.grid];
            let after = done.next.windows[event.grid];
            let left: int = if event.anchor_grid == 1 {
                0
            } else {
                m.windows[event.anchor_grid].x as int
            };
            let top: int = if event.anchor_grid == 1 {
                0
            } else {
                m.windows[event.anchor_grid].y as int
            };
            &&& known ==> asked.actions.len() == 0
            &&& !known ==> {
                &&& asked.actions[0] == Action::Note(Note::FloatMade)
                &&& makes_frame(asked.actions, 1, event.grid, Container::Floats)
            }
            &&& asked.ask == Some(
                Query::MetricsPair { anchor: event.anchor_grid, grid: event.grid },
            )
            &&& done.actions.len() == 3
            &&& moves_and_shows(
                done.actions,
                0,
                event.grid,
                if known {
                    before.container
                } else {
                    Container::Floats
                },
                left + anchor.cell_width * event.anchor_col,
                top + anchor.cell_height * event.anchor_row,
                grid.cols * grid.cell_width,
                grid.rows * grid.cell_height,
            )
            &&& done.ask is None
            &&& after.x == left + anchor.cell_width * event.anchor_col
            &&& after.y == top + anchor.cell_height * event.anchor_row
            &&& known ==> after == (Window { x: after.x, y: after.y, ..before })
            &&& !known ==> {
                &&& after.container == Container::Floats
                &&& after.grid_id == event.grid
                &&& after.nvim_win == event.win
            }
            &&& done.next.windows == m.windows.insert(event.grid, after)
            &&& done.next == (Model { windows: done.next.windows, ..m })
        }),
{
    assert(0 <= anchor.cell_width * event.anchor_col) by (nonlinear_arith);
    assert(0 <= anchor.cell_height * event.anchor_row) by (nonlinear_arith);
    assert(0 <= grid.cols * grid.cell_width) by (nonlinear_arith);
    assert(0 <= grid.rows * grid.cell_height) by (nonlinear_arith);
    let asked = m.redraw(RedrawItem::WindowFloatPos(event));
    let done = asked.next.resume(Answer::MetricsPair { anchor, grid });
    assert(done.next.windows =~= m.windows.insert(event.grid, done.next.windows[event.grid]));
    assert(done.next =~= (Model { windows: done.next.windows, ..m }));
}

/// The window of the grid that is named is hidden, and no other, and it stays a
/// window.
pub proof fn law_named_window_is_hidden(m: Model, id: i64)
    ensures
        ({
            let step = m.redraw(RedrawItem::WindowHide(id));
            &&& step.actions.len() == 1
            &&& step.actions[0] == (Action::Window { grid: id, op: FrameOp::Hide })
            &&& step.next == m
            &&& step.ask is None
        }),
{
}

/// The window of the grid that is named is gone, and no other. Its frame goes
/// last, and what is in the frame is taken out of it first.
pub proof fn law_named_window_is_closed(m: Model, id: i64, has_child: bool)
    requires
        m.stage is Idle,
    ensures
        ({
            let asked = m.redraw(RedrawItem::WindowClose(id));
            let done = asked.next.resume(Answer::Flag(has_child));
            &&& asked.actions.len() == 0
            &&& asked.ask == Some(Query::HasChild(id))
            &&& done.actions.last() == (Action::Window { grid: id, op: FrameOp::Destroy })
            &&& has_child ==> done.actions.len() == 2 && done.actions[0] == (Action::Window {
                grid: id,
                op: FrameOp::RemoveChild,
            })
            &&& !has_child ==> done.actions.len() == 1
            &&& !done.next.windows.contains_key(id)
            &&& forall|other: i64|
                other != id ==> (#[trigger] done.next.windows.contains_key(other)
                    <==> m.windows.contains_key(other))
            &&& forall|other: i64|
                other != id && m.windows.contains_key(other) ==> #[trigger]
                done.next.windows[other] == m.windows[other]
            &&& done.next == (Model { windows: done.next.windows, ..m })
            &&& done.ask is None
        }),
{
    let done = m.redraw(RedrawItem::WindowClose(id)).next.resume(Answer::Flag(has_child));
    assert(done.next =~= (Model { windows: done.next.windows, ..m }));
}

/// The message window takes in the grid that was sent, has as many pixels as that
/// grid's cells, and is at the left, as many of the grid's rows down as was sent.
/// The interface stays as it was.
pub proof fn law_messages_are_placed_by_their_row(
    m: Model,
    event: MsgSetPos,
    metrics: GridMetrics,
)
    requires
        m.stage is Idle,
        m.redraw(RedrawItem::MsgSetPos(event)).next.fits(Answer::Metrics(metrics)),
    ensures
        ({
            let asked = m.redraw(RedrawItem::MsgSetPos(event));
            let done = asked.next.resume(Answer::Metrics(metrics));
            &&& asked.actions.len() == 1
            &&& asked.actions[0] == Action::MsgWindow(FrameOp::AddGrid(event.grid))
            &&& asked.ask == Some(Query::Metrics(event.grid))
            &&& done.actions.len() == 3
            &&& done.actions[0] == Action::MsgWindow(
                FrameOp::SizeRequest {
                    width: (metrics.cols * metrics.cell_width) as u64 as i32,
                    height: (metrics.rows * metrics.cell_height) as u64 as i32,
                },
            )
            &&& done.actions[1] == Action::MsgWindow(
                FrameOp::Move {
                    container: m.messages,
                    x: 0,
                    y: (metrics.cell_height * event.row) as u64 as i32,
                },
            )
            &&& done.actions[2] == Action::MsgWindow(FrameOp::ShowContainer(m.messages))
            &&& done.next == m
            &&& done.ask is None
        }),
{
    let asked = m.redraw(RedrawItem::MsgSetPos(event));
    assert(asked.next.resume(Answer::Metrics(metrics)).next =~= m);
}

/// An event that is not known changes nothing, and is noted by its name.
pub proof fn law_unknown_event_changes_nothing(m: Model, name: String)
    ensures
        ({
            let step = m.redraw(RedrawItem::Unknown(name));
            &&& step.actions == seq![Action::Note(Note::UnknownRedrawEvent(name))]
            &&& step.next == m
            &&& step.ask is None
        }),
{
}

/// Each component gets the colours that were sent for it, and no other's.
pub proof fn law_colors_go_to_their_component(m: Model, colors: GuiColors)
    ensures
        ({
            let step = m.gnvim(GnvimEvent::SetGuiColors(colors));
            &&& step.actions.len() == 4
            &&& step.actions[0] == Action::Popupmenu(MenuOp::SetColors(colors.pmenu))
            &&& step.actions[1] == Action::Tabline(TablineOp::SetColors(colors.tabline))
            &&& step.actions[2] == Action::Cmdline(CmdlineOp::SetColors(colors.cmdline))
            &&& step.actions[3] == Action::Cmdline(CmdlineOp::WildmenuSetColors(colors.wildmenu))
            &&& step.next == m
            &&& step.ask is None
        }),
{
}

/// The popup menu is set as the user set it, one thing at a time.
pub proof fn law_menu_is_set_as_the_user_set_it(m: Model, width: u64, all: bool)
    ensures
        ({
            let toggled = m.gnvim(GnvimEvent::CompletionMenuToggleInfo);
            let sized = m.gnvim(GnvimEvent::PopupmenuWidth(width));
            let detailed = m.gnvim(GnvimEvent::PopupmenuWidthDetails(width));
            let listed = m.gnvim(GnvimEvent::PopupmenuShowMenuOnAllItems(all));
            &&& toggled == (Step {
                next: m,
                actions: seq![Action::Popupmenu(MenuOp::ToggleShowInfo)],
                ask: None,
            })
            &&& sized == (Step {
                next: m,
                actions: seq![Action::Popupmenu(MenuOp::SetWidth(width as i32))],
                ask: None,
            })
            &&& detailed == (Step {
                next: m,
                actions: seq![Action::Popupmenu(MenuOp::SetWidthDetails(width as i32))],
                ask: None,
            })
            &&& listed == (Step {
                next: m,
                actions: seq![Action::Popupmenu(MenuOp::SetShowMenuOnAllItems(all))],
                ask: None,
            })
        }),
{
}

/// An event of the plugin that is not known changes nothing, and is noted in its
/// words.
pub proof fn law_unknown_plugin_event_changes_nothing(m: Model, msg: String)
    ensures
        ({
            let step = m.gnvim(GnvimEvent::Unknown(msg));
            &&& step.actions == seq![Action::Note(Note::UnknownGnvimEvent(msg))]
            &&& step.next == m
            &&& step.ask is None
        }),
{
}

/// The cursor tooltip shows the content that was sent, at the cell of the current
/// grid that was sent. The interface stays as it was.
pub proof fn law_tooltip_shows_what_was_sent(
    m: Model,
    content: String,
    row: u64,
    col: u64,
    rect: Rect,
)
    requires
        m.stage is Idle,
        m.tooltip,
    ensures
        ({
            let asked = m.gnvim(GnvimEvent::CursorTooltipShow(content, row, col));
            let done = asked.next.resume(Answer::Rect(rect));
            &&& asked.actions == seq![Action::CursorTooltip(TooltipOp::Show(content))]
            &&& asked.ask == Some(Query::RectForCell { grid: m.current_grid, row, col })
            &&& done.actions == seq![Action::CursorTooltip(TooltipOp::MoveTo(rect))]
            &&& done.ask is None
            &&& done.next == m
        }),
{
    let asked = m.gnvim(GnvimEvent::CursorTooltipShow(content, row, col));
    assert(asked.next.resume(Answer::Rect(rect)).next =~= m);
}

/// The cursor tooltip goes when it is told to, and has the style that was sent. A
/// style that is loaded changes nothing, and the user is told why one could not
/// be.
pub proof fn law_tooltip_has_the_style_that_was_sent(
    m: Model,
    path: String,
    style: String,
    err: String,
)
    requires
        m.stage is Idle,
        m.tooltip,
    ensures
        ({
            let gone = m.gnvim(GnvimEvent::CursorTooltipHide);
            let set = m.gnvim(GnvimEvent::CursorTooltipSetStyle(style));
            let asked = m.gnvim(GnvimEvent::CursorTooltipLoadStyle(path));
            let loaded = asked.next.resume(Answer::Loaded(Ok(())));
            let failed = asked.next.resume(Answer::Loaded(Err(err)));
            &&& gone == (Step {
                next: m,
                actions: seq![Action::CursorTooltip(TooltipOp::Hide)],
                ask: None,
            })
            &&& set == (Step {
                next: m,
                actions: seq![Action::CursorTooltip(TooltipOp::SetStyle(style))],
                ask: None,
            })
            &&& asked.actions.len() == 0
            &&& asked.ask == Some(Query::LoadStyle(path))
            &&& loaded.actions.len() == 0
            &&& loaded.ask is None
            &&& loaded.next == m
            &&& failed.actions == seq![
                Action::Nvim(NvimCall::Command(Command::StyleUnloadable(err))),
            ]
            &&& failed.ask is None
            &&& failed.next == m
        }),
{
    let asked = m.gnvim(GnvimEvent::CursorTooltipLoadStyle(path));
    assert(asked.next.resume(Answer::Loaded(Ok(()))).next =~= m);
    assert(asked.next.resume(Answer::Loaded(Err(err))).next =~= m);
}

/// Without a cursor tooltip, whatever is asked of it is answered with the same
/// words, and nothing changes.
pub proof fn law_no_tooltip_is_told(m: Model, event: GnvimEvent)
    requires
        !m.tooltip,
        event is CursorTooltipShow || event is CursorTooltipHide || event is CursorTooltipLoadStyle
            || event is CursorTooltipSetStyle,
    ensures
        m.gnvim(event).actions == seq![
            Action::Nvim(NvimCall::Command(Command::TooltipUnsupported)),
        ],
        m.gnvim(event).next == m,
        m.gnvim(event).ask is None,
{
}

/// A notification is either redraw events, which are only taken in hand, behind
/// those that wait, or an event of the plugin, which is handled at once, or
/// unreadable, and then the user is told why.
pub proof fn law_notifications_are_told_apart(
    m: Model,
    events: Vec<RedrawEvent>,
    event: GnvimEvent,
    err: String,
)
    ensures
        ({
            let taken = m.notify(Notify::RedrawEvent(events));
            let failed = m.notify(Notify::GnvimEvent(Err(err)));
            &&& taken.actions.len() == 0
            &&& taken.ask is None
            &&& taken.next.queue == m.queue + items_of_all(events@)
            &&& taken.next == (Model { queue: taken.next.queue, ..m })
            &&& m.notify(Notify::GnvimEvent(Ok(event))) == m.gnvim(event)
            &&& failed.actions == seq![
                Action::Nvim(NvimCall::Command(Command::NotifyUnreadable(err))),
            ]
            &&& failed.next == m
            &&& failed.ask is None
        }),
{
}

/// The call that has waited longest is taken, and the others keep their order:
/// what comes of it is what comes of that call alone.
pub proof fn law_longest_waiting_call_is_taken(m: Model, item: RedrawItem, rest: Seq<RedrawItem>)
    requires
        m.queue == seq![item] + rest,
    ensures
        m.step() == (Model { queue: rest, ..m }).redraw(item),
        m.ready() <==> m.accepts(item) && (m.stage is Idle),
        !m.idle(),
{
    assert(m.queue.drop_first() =~= rest);
    assert(m.queue[0] == item);
}

/// Nothing is in hand exactly when no call waits and no answer is waited for, and
/// then there is nothing to take.
pub proof fn law_idle_means_nothing_waits(m: Model)
    ensures
        m.idle() <==> (m.stage is Idle) && m.queue.len() == 0,
        m.queue.len() == 0 ==> !m.ready(),
        !(m.stage is Idle) ==> !m.ready(),
{
}

/// Every call of an event is queued, in order, as it came: there are as many as
/// the event carries, each of them is one of that event, and each holds what
/// stands at its place in the event. An event without a list is one call, and one
/// that is to be ignored is none.
pub proof fn law_every_call_is_queued(event: RedrawEvent, i: int)
    requires
        0 <= i < items_of(event).len(),
    ensures
        match event {
            RedrawEvent::SetTitle(v) => items_of(event)[i] == RedrawItem::SetTitle(v@[i]),
            RedrawEvent::GridLine(v) => items_of(event)[i] == RedrawItem::GridLine(v@[i]),
            RedrawEvent::GridCursorGoto(v) => items_of(event)[i] == RedrawItem::GridCursorGoto(
                v@[i],
            ),
            RedrawEvent::GridResize(v) => items_of(event)[i] == RedrawItem::GridResize(v@[i]),
            RedrawEvent::GridClear(v) => items_of(event)[i] == RedrawItem::GridClear(v@[i]),
            RedrawEvent::GridDestroy(v) => items_of(event)[i] == RedrawItem::GridDestroy(v@[i]),
            RedrawEvent::GridScroll(v) => items_of(event)[i] == RedrawItem::GridScroll(v@[i]),
            RedrawEvent::DefaultColorsSet(v) => items_of(event)[i]
                == RedrawItem::DefaultColorsSet(v@[i]),
            RedrawEvent::HlAttrDefine(v) => items_of(event)[i] == RedrawItem::HlAttrDefine(v@[i]),
            RedrawEvent::OptionSet(v) => items_of(event)[i] == RedrawItem::OptionSet(v@[i]),
            RedrawEvent::ModeInfoSet(v) => items_of(event)[i] == RedrawItem::ModeInfoSet(v@[i]),
            RedrawEvent::ModeChange(v) => items_of(event)[i] == RedrawItem::ModeChange(v@[i]),
            RedrawEvent::SetBusy(busy) => items_of(event)[i] == RedrawItem::SetBusy(busy),
            RedrawEvent::Flush() => items_of(event)[i] == RedrawItem::Flush,
            RedrawEvent::PopupmenuShow(v) => items_of(event)[i] == RedrawItem::PopupmenuShow(
                v@[i],
            ),
            RedrawEvent::PopupmenuHide() => items_of(event)[i] == RedrawItem::PopupmenuHide,
            RedrawEvent::PopupmenuSelect(v) => items_of(event)[i] == RedrawItem::PopupmenuSelect(
                v@[i],
            ),
            RedrawEvent::TablineUpdate(v) => items_of(event)[i] == RedrawItem::TablineUpdate(
                v@[i],
            ),
            RedrawEvent::CmdlineShow(v) => items_of(event)[i] == RedrawItem::CmdlineShow(v@[i]),
            RedrawEvent::CmdlineHide() => items_of(event)[i] == RedrawItem::CmdlineHide,
            RedrawEvent::CmdlinePos(v) => items_of(event)[i] == RedrawItem::CmdlinePos(v@[i]),
            RedrawEvent::CmdlineSpecialChar(v) => items_of(event)[i]
                == RedrawItem::CmdlineSpecialChar(v@[i]),
            RedrawEvent::CmdlineBlockShow(v) => items_of(event)[i]
                == RedrawItem::CmdlineBlockShow(v@[i]),
            RedrawEvent::CmdlineBlockAppend(v) => items_of(event)[i]
                == RedrawItem::CmdlineBlockAppend(v@[i]),
            RedrawEvent::CmdlineBlockHide() => items_of(event)[i] == RedrawItem::CmdlineBlockHide,
            RedrawEvent::WildmenuShow(v) => items_of(event)[i] == RedrawItem::WildmenuShow(v@[i]),
            RedrawEvent::WildmenuHide() => items_of(event)[i] == RedrawItem::WildmenuHide,
            RedrawEvent::WildmenuSelect(v) => items_of(event)[i] == RedrawItem::WildmenuSelect(
                v@[i],
            ),
            RedrawEvent::WindowPos(v) => items_of(event)[i] == RedrawItem::WindowPos(v@[i]),
            RedrawEvent::WindowFloatPos(v) => items_of(event)[i] == RedrawItem::WindowFloatPos(
                v@[i],
            ),
            RedrawEvent::WindowHide(v) => items_of(event)[i] == RedrawItem::WindowHide(v@[i]),
            RedrawEvent::WindowClose(v) => items_of(event)[i] == RedrawItem::WindowClose(v@[i]),
            RedrawEvent::MsgSetPos(v) => items_of(event)[i] == RedrawItem::MsgSetPos(v@[i]),
            RedrawEvent::Unknown(name) => items_of(event)[i] == RedrawItem::Unknown(name),
            RedrawEvent::Ignored(_) => false,
        },
{
}

/// No call of an event is lost and none is made up: as many are queued as the
/// event carries.
pub proof fn law_no_call_is_lost(event: RedrawEvent)
    ensures
        items_of(event).len() == match event {
            RedrawEvent::SetTitle(v) => v@.len(),
            RedrawEvent::GridLine(v) => v@.len(),
            RedrawEvent::GridCursorGoto(v) => v@.len(),
            RedrawEvent::GridResize(v) => v@.len(),
            RedrawEvent::GridClear(v) => v@.len(),
            RedrawEvent::GridDestroy(v) => v@.len(),
            RedrawEvent::GridScroll(v) => v@.len(),
            RedrawEvent::DefaultColorsSet(v) => v@.len(),
            RedrawEvent::HlAttrDefine(v) => v@.len(),
            RedrawEvent::OptionSet(v) => v@.len(),
            RedrawEvent::ModeInfoSet(v) => v@.len(),
            RedrawEvent::ModeChange(v) => v@.len(),
            RedrawEvent::PopupmenuShow(v) => v@.len(),
            RedrawEvent::PopupmenuSelect(v) => v@.len(),
            RedrawEvent::TablineUpdate(v) => v@.len(),
            RedrawEvent::CmdlineShow(v) => v@.len(),
            RedrawEvent::CmdlinePos(v) => v@.len(),
            RedrawEvent::CmdlineSpecialChar(v) => v@.len(),
            RedrawEvent::CmdlineBlockShow(v) => v@.len(),
            RedrawEvent::CmdlineBlockAppend(v) => v@.len(),
            RedrawEvent::WildmenuShow(v) => v@.len(),
            RedrawEvent::WildmenuSelect(v) => v@.len(),
            RedrawEvent::WindowPos(v) => v@.len(),
            RedrawEvent::WindowFloatPos(v) => v@.len(),
            RedrawEvent::WindowHide(v) => v@.len(),
            RedrawEvent::WindowClose(v) => v@.len(),
            RedrawEvent::MsgSetPos(v) => v@.len(),
            RedrawEvent::Ignored(_) => 0,
            _ => 1,
        },
{
}

/// The calls of every event of a batch are there, in order, between those of the
/// events before it and those of the events after it.
pub proof fn law_calls_stand_in_the_order_of_their_events(
    before: Seq<RedrawEvent>,
    event: RedrawEvent,
    after: Seq<RedrawEvent>,
)
    ensures
        items_of_all(before + seq![event] + after) == items_of_all(before) + items_of(event)
            + items_of_all(after),
        items_of_all(Seq::<RedrawEvent>::empty()).len() == 0,
{
    law_items_concatenate(before + seq![event], after);
    law_items_concatenate(before, seq![event]);
    let one = seq![event];
    assert(one.drop_last() =~= Seq::<RedrawEvent>::empty());
    assert(one.last() == event);
    reveal_with_fuel(items_of_all, 2);
    assert(items_of_all(one) =~= items_of(event));
}

/// A call can be taken exactly when the grids and windows are there that it
/// speaks of, and those that it needs besides: the current grid, where the cursor
/// leaves it or the popup menu belongs to it, and the first grid, where sizes are
/// counted from it. A mode must be in the list. All other calls can always be
/// taken.
pub proof fn law_calls_need_what_they_speak_of(m: Model, item: RedrawItem)
    ensures
        m.accepts(item) <==> match item {
            RedrawItem::GridLine(line) => m.grids.contains(line.grid),
            RedrawItem::GridCursorGoto(event) => m.grids.contains(event.grid) && m.grids.contains(
                m.current_grid,
            ),
            RedrawItem::GridClear(grid) => m.grids.contains(grid),
            RedrawItem::GridDestroy(grid) => m.grids.contains(grid),
            RedrawItem::GridScroll(event) => m.grids.contains(event.grid),
            RedrawItem::OptionSet(OptionSet::NotSupported(_)) => true,
            RedrawItem::OptionSet(_) => m.resize_on_flush is None ==> m.grids.contains(1),
            RedrawItem::ModeChange(event) => (event.index as usize) < m.mode_infos.len(),
            RedrawItem::Flush => m.resize_on_flush is Some ==> m.grids.contains(1),
            RedrawItem::PopupmenuShow(event) => m.grids.contains(m.current_grid)
                && m.windows.contains_key(event.grid),
            RedrawItem::WindowPos(event) => m.grids.contains(event.grid) && m.grids.contains(1),
            RedrawItem::WindowFloatPos(event) => {
                &&& m.grids.contains(event.grid)
                &&& m.grids.contains(event.anchor_grid)
                &&& event.anchor_grid != 1 ==> m.windows.contains_key(event.anchor_grid)
            },
            RedrawItem::WindowHide(grid) => m.windows.contains_key(grid),
            RedrawItem::WindowClose(grid) => m.windows.contains_key(grid),
            RedrawItem::MsgSetPos(event) => m.grids.contains(event.grid),
            _ => true,
        },
{
}

/// A notification can be handled unless it wants a cursor tooltip, where there is
/// one, on a grid that is not there.
pub proof fn law_notifications_need_little(m: Model, notify: Notify)
    ensures
        m.accepts_notify(notify) <==> match notify {
            Notify::GnvimEvent(Ok(event)) => m.accepts_gnvim(event),
            _ => true,
        },
        forall|event: GnvimEvent| #[trigger]
            m.accepts_gnvim(event) <==> !(event is CursorTooltipShow) || !m.tooltip
                || m.grids.contains(m.current_grid),
{
}

/// What a place on screen is computed from fits as long as the results can be
/// held, and what is not computed with always fits.
pub proof fn law_answers_fit_what_was_asked(
    m: Model,
    pos: WindowPos,
    float: WindowFloatPos,
    msg: MsgSetPos,
    menu: PopupmenuShow,
    a: GridMetrics,
    b: GridMetrics,
    rect: Rect,
)
    requires
        m.stage is Idle,
    ensures
        m.redraw(RedrawItem::WindowPos(pos)).next.fits(Answer::Metrics(a)) <==> {
            &&& pos.start_col * a.cell_width <= u64::MAX
            &&& pos.start_row * a.cell_height <= u64::MAX
            &&& pos.width * a.cell_width <= u64::MAX
            &&& pos.height * a.cell_height <= u64::MAX
        },
        m.redraw(RedrawItem::WindowFloatPos(float)).next.fits(
            Answer::MetricsPair { anchor: a, grid: b },
        ) <==> {
            let left: int = if float.anchor_grid == 1 {
                0
            } else {
                m.windows[float.anchor_grid].x as int
            };
            let top: int = if float.anchor_grid == 1 {
                0
            } else {
                m.windows[float.anchor_grid].y as int
            };
            &&& left + a.cell_width * float.anchor_col <= u64::MAX
            &&& top + a.cell_height * float.anchor_row <= u64::MAX
            &&& b.cols * b.cell_width <= u64::MAX
            &&& b.rows * b.cell_height <= u64::MAX
        },
        m.redraw(RedrawItem::MsgSetPos(msg)).next.fits(Answer::Metrics(a)) <==> {
            &&& a.cols * a.cell_width <= u64::MAX
            &&& a.rows * a.cell_height <= u64::MAX
            &&& a.cell_height * msg.row <= u64::MAX
        },
        m.redraw(RedrawItem::PopupmenuShow(menu)).next.fits(Answer::Rect(rect)) <==> {
            &&& i32::MIN <= rect.x + m.windows[menu.grid].x as i32 <= i32::MAX
            &&& i32::MIN <= rect.y + m.windows[menu.grid].y as i32 <= i32::MAX
        },
{
}

/// Every answer of the right kind fits a question whose answer is not computed
/// with.
pub proof fn law_plain_answers_always_fit(
    m: Model,
    flag: bool,
    font: Font,
    line_space: i64,
    cols: usize,
    rows: usize,
    rect: Rect,
    loaded: Result<(), String>,
)
    ensures
        m.stage is ParseFont ==> m.fits(Answer::FontUsable(flag)),
        m.stage is FontStyle || m.stage is LineStyle ==> m.fits(
            Answer::Style { font, line_space },
        ),
        m.stage is FlushSize ==> m.fits(Answer::Size { cols, rows }),
        m.stage is MenuTooltip || m.stage is MenuGravity || m.stage is Closing ==> m.fits(
            Answer::Flag(flag),
        ),
        m.stage is TooltipAnchor ==> m.fits(Answer::Rect(rect)),
        m.stage is TooltipStyle ==> m.fits(Answer::Loaded(loaded)),
        m.stage is Idle ==> forall|answer: Answer| !(#[trigger] m.fits(answer)),
{
}

/// What is proved of the interface is proved of what is kept: each part of the
/// one is the part of the other that has its name.
pub proof fn law_nothing_kept_is_left_out(s: UIState)
    ensures
        s@.windows == s.windows@,
        s@.messages == s.msg_window.container,
        s@.grids == s.grids.ids@,
        s@.hl.defs == s.hl_defs.hl_defs@,
        s@.hl.default_fg == s.hl_defs.default_fg,
        s@.hl.default_bg == s.hl_defs.default_bg,
        s@.hl.default_sp == s.hl_defs.default_sp,
        s@.mode_infos == s.mode_infos@,
        s@.current_mode == s.current_mode,
        s@.current_grid == s.current_grid,
        s@.resize_on_flush == s.resize_on_flush,
        s@.font == s.font,
        s@.line_space == s.line_space,
        s@.tooltip == s.tooltip,
        s@.queue == s.queue@,
        s@.stage == s.stage,
{
}

/// A turn that follows a step does what the step does, asks what it asks, and
/// leaves the interface as it says.
pub proof fn law_turn_is_its_step(step: Step, after: Model, turn: Turn)
    ensures
        is_step(step, after, turn) <==> {
            &&& after == step.next
            &&& turn.actions@ == step.actions
            &&& turn.ask == step.ask
        },
{
}

} // verus!
