//! What is so of single events, and of a few that follow one another.

use neovim_lib::neovim_api::Window as NvimWindow;
use vstd::prelude::*;

use crate::action::{
    Action, Answer, Container, Font, FrameOp, Gravity, GridMetrics, GridOp, MenuOp, NvimCall,
    Query, Rect, TooltipOp,
};
use crate::event::{
    DefaultColorsSet, GridCursorGoto, GridResize, HlAttrDefine, OptionSet, PopupmenuShow,
    RedrawItem, WindowFloatPos, WindowPos,
};
use crate::grids::{lemma_push, lemma_without};
use crate::model::{on_frame, on_grid, Model, ResizeOptions, MAIN_GRID};
use crate::timer::{
    can_happen, law_dropped_message_is_never_sent, live_timers, messages, no_changes,
    pending_after_all, timer_events, TimerEvent,
};
use crate::window::{new_grid_frame, new_window, place_frame, Window};

verus! {

/// The font that `guifont` stands for.
pub open spec fn font_named(name: String, usable: bool) -> Font {
    if usable {
        Font::Guifont(name)
    } else {
        Font::Fallback
    }
}

impl Model {
    /// The options that the grids are to have, or, if nothing is put off, those
    /// that the main grid has.
    pub open spec fn options_or(self, style: ResizeOptions) -> ResizeOptions {
        match self.resize_on_flush {
            Some(options) => options,
            None => style,
        }
    }

    /// The interface after the option `guifont` was set. `style` is what the
    /// main grid has, should that be asked for.
    #[verifier::opaque]
    pub open spec fn with_font(self, name: String, usable: bool, style: ResizeOptions) -> Model {
        let parsed = self.redraw(RedrawItem::OptionSet(OptionSet::GuiFont(name))).next.resume(
            Answer::FontUsable(usable),
        ).next;
        if parsed.stage is Idle {
            parsed
        } else {
            parsed.resume(Answer::Style { font: style.font, line_space: style.line_space }).next
        }
    }

    /// The interface after the option `linespace` was set. `style` is what the
    /// main grid has, should that be asked for.
    #[verifier::opaque]
    pub open spec fn with_line_space(self, line_space: i64, style: ResizeOptions) -> Model {
        let set = self.redraw(RedrawItem::OptionSet(OptionSet::LineSpace(line_space))).next;
        if set.stage is Idle {
            set
        } else {
            set.resume(Answer::Style { font: style.font, line_space: style.line_space }).next
        }
    }
}

/// Setting the font changes the font, and leaves the line space as the grids are
/// to have it, or, if nothing is put off, as the main grid has it.
pub proof fn law_font_keeps_line_space(
    m: Model,
    name: String,
    usable: bool,
    style: ResizeOptions,
)
    requires
        m.stage is Idle,
    ensures
        m.with_font(name, usable, style) == (Model {
            font: font_named(name, usable),
            resize_on_flush: Some(
                ResizeOptions {
                    font: font_named(name, usable),
                    line_space: m.options_or(style).line_space,
                },
            ),
            ..m
        }),
{
    reveal(Model::with_font);
}

/// Setting the line space changes the line space, and leaves the font as the
/// grids are to have it, or, if nothing is put off, as the main grid has it.
pub proof fn law_line_space_keeps_font(m: Model, line_space: i64, style: ResizeOptions)
    requires
        m.stage is Idle,
    ensures
        m.with_line_space(line_space, style) == (Model {
            line_space,
            resize_on_flush: Some(ResizeOptions { font: m.options_or(style).font, line_space }),
            ..m
        }),
{
    reveal(Model::with_line_space);
}

/// Setting the font and setting the line space do not get in each other's way:
/// in either order, the next flush brings both.
pub proof fn law_font_and_line_space_commute(
    m: Model,
    name: String,
    usable: bool,
    line_space: i64,
    style: ResizeOptions,
)
    requires
        m.stage is Idle,
    ensures
        m.with_font(name, usable, style).with_line_space(line_space, style)
            == m.with_line_space(line_space, style).with_font(name, usable, style),
        m.with_font(name, usable, style).with_line_space(line_space, style).resize_on_flush
            == Some(ResizeOptions { font: font_named(name, usable), line_space }),
{
    law_font_keeps_line_space(m, name, usable, style);
    law_line_space_keeps_font(m.with_font(name, usable, style), line_space, style);
    law_line_space_keeps_font(m, line_space, style);
    law_font_keeps_line_space(m.with_line_space(line_space, style), name, usable, style);
}

/// What was put off is done with the next flush, for every grid, and not again
/// with the one after it.
pub proof fn law_flush_resizes_once(m: Model, options: ResizeOptions, cols: usize, rows: usize)
    requires
        m.stage is Idle,
        m.resize_on_flush == Some(options),
    ensures
        ({
            let update = GridOp::UpdateCellMetrics {
                font: options.font,
                line_space: options.line_space,
            };
            let first = m.redraw(RedrawItem::Flush);
            let resized = first.next.resume(Answer::Size { cols, rows });
            let second = resized.next.redraw(RedrawItem::Flush);
            &&& first.actions == m.broadcast(GridOp::Flush) + m.broadcast(update)
            &&& first.ask == Some(Query::CalcSize(MAIN_GRID))
            &&& resized.actions[0] == Action::CancelResize
            &&& resized.actions[1] == Action::Nvim(
                NvimCall::TryResize { cols: cols as i64, rows: rows as i64 },
            )
            &&& resized.ask is None
            &&& second.actions == m.broadcast(GridOp::Flush)
            &&& second.ask is None
            &&& second.next == resized.next
        }),
{
}

/// A flush that sends the size drops the delayed message about an earlier one:
/// the new size is sent once, by the flush, and what was under way before is
/// never sent.
pub proof fn law_flush_drops_the_delayed_resize(
    m: Model,
    options: ResizeOptions,
    cols: usize,
    rows: usize,
    before: Seq<TimerEvent>,
    later: Seq<TimerEvent>,
)
    requires
        m.stage is Idle,
        m.resize_on_flush == Some(options),
        no_changes(later),
    ensures
        ({
            let first = m.redraw(RedrawItem::Flush);
            let resized = first.next.resume(Answer::Size { cols, rows });
            let all = before + timer_events(resized.actions) + later;
            let sent = Action::Nvim(
                NvimCall::TryResize { cols: cols as i64, rows: rows as i64 },
            );
            &&& timer_events(first.actions) == Seq::<TimerEvent>::empty()
            &&& resized.actions[1] == sent
            &&& forall|i: int|
                0 <= i < resized.actions.len() && i != 1 ==> !(#[trigger] resized.actions[i]
                    is Nvim)
            &&& messages(all) == messages(before)
            &&& pending_after_all(all) is None
            &&& can_happen(all) ==> live_timers(all) == Map::<u32, (u64, u64)>::empty()
        }),
{
    let first = m.redraw(RedrawItem::Flush);
    let resized = first.next.resume(Answer::Size { cols, rows });
    assert(resized.actions[0] == Action::CancelResize);
    assert(resized.actions.contains(Action::CancelResize));
    law_dropped_message_is_never_sent(before, resized.actions, later);
    lemma_no_timer_events(first.actions);
}

/// Actions that do not drop the delayed message do nothing to it.
proof fn lemma_no_timer_events(actions: Seq<Action>)
    requires
        forall|i: int| 0 <= i < actions.len() ==> !(#[trigger] actions[i] is CancelResize),
    ensures
        timer_events(actions) == Seq::<TimerEvent>::empty(),
    decreases actions.len(),
{
    if actions.len() > 0 {
        let front = actions.drop_last();
        assert forall|i: int| 0 <= i < front.len() implies !(#[trigger] front[i]
            is CancelResize) by {
            assert(front[i] == actions[i]);
        }
        lemma_no_timer_events(front);
        assert(!(actions[actions.len() - 1] is CancelResize));
    }
}

/// A grid is made with the first size that it gets, and not again.
pub proof fn law_grid_is_made_once(m: Model, event: GridResize, again: GridResize)
    requires
        !m.has_grid(event.grid),
        again.grid == event.grid,
    ensures
        m.grid_resize(event).actions[0] is CreateGrid,
        m.grid_resize(event).next.has_grid(event.grid),
        m.grid_resize(event).next.grid_resize(again).actions == seq![
            on_grid(
                event.grid,
                GridOp::Resize { width: again.width, height: again.height },
            ),
        ],
{
    assert(m.grids.push(event.grid)[m.grids.len() as int] == event.grid);
}

/// A grid that is made while a mode is on starts in that mode, as the grids that
/// were there when the mode came on.
pub proof fn law_new_grid_starts_in_mode(m: Model, index: u64, event: GridResize)
    requires
        !m.has_grid(event.grid),
    ensures
        ({
            let mode = GridOp::SetMode(m.mode_infos[index as usize as int]);
            &&& m.mode_change(index).actions == m.broadcast(mode)
            &&& m.mode_change(index).next.grid_resize(event).actions[1] == on_grid(
                event.grid,
                mode,
            )
        }),
{
}

/// The grid that the cursor goes to is the current one from there on, and the
/// cursor going there again only moves it.
pub proof fn law_cursor_takes_the_focus_once(m: Model, event: GridCursorGoto, again: GridCursorGoto)
    requires
        again.grid == event.grid,
    ensures
        m.cursor_goto(event).next.current_grid == event.grid,
        m.cursor_goto(event).actions.contains(on_grid(event.grid, GridOp::SetActive(true)))
            <==> event.grid != m.current_grid,
        m.cursor_goto(event).actions.contains(
            on_grid(m.current_grid, GridOp::SetActive(false)),
        ) <==> event.grid != m.current_grid,
        m.cursor_goto(event).next.cursor_goto(again).actions == seq![
            on_grid(event.grid, GridOp::CursorGoto { row: again.row, col: again.col }),
        ],
{
    let actions = m.cursor_goto(event).actions;
    if event.grid != m.current_grid {
        assert(actions[0] == on_grid(m.current_grid, GridOp::SetActive(false)));
        assert(actions[2] == on_grid(event.grid, GridOp::SetActive(true)));
    } else {
        assert(actions.len() == 1);
        assert(actions[0] == on_grid(
            event.grid,
            GridOp::CursorGoto { row: event.row, col: event.col },
        ));
    }
}

/// When a grid goes, it is gone, the others stay, and the main grid is the
/// current one.
pub proof fn law_destroy_leaves_the_others(m: Model, grid: i64)
    requires
        m.wf(),
        m.has_grid(grid),
    ensures
        m.grid_destroy(grid).next.current_grid == MAIN_GRID,
        forall|other: i64| #[trigger]
            m.grid_destroy(grid).next.has_grid(other) <==> m.has_grid(other) && other != grid,
{
    lemma_without(m.grids, grid);
    assert forall|other: i64| #[trigger]
        m.grid_destroy(grid).next.has_grid(other) <==> m.has_grid(other) && other != grid by {
        assert(m.grid_destroy(grid).next.grids == crate::grids::without(m.grids, grid));
    }
}

/// A grid that is made and destroyed leaves the grids as they were.
pub proof fn law_destroy_undoes_make(m: Model, event: GridResize)
    requires
        m.wf(),
        !m.has_grid(event.grid),
    ensures
        m.grid_resize(event).next.grid_destroy(event.grid).next.grids == m.grids,
{
    let more = m.grids.push(event.grid);
    lemma_push(m.grids, event.grid);
    assert(more[m.grids.len() as int] == event.grid);
    assert(more.index_of(event.grid) == m.grids.len());
    assert(crate::grids::without(more, event.grid) =~= m.grids);
}

/// A window is made when it first gets a place, and not again: later it is moved
/// within the container that it was made in, and stays the same window to
/// Neovim.
pub proof fn law_window_is_made_once(
    m: Model,
    win: NvimWindow,
    container: Container,
    grid: i64,
    other_win: NvimWindow,
    other: Container,
    x: u64,
    y: u64,
    w: u64,
    h: u64,
)
    requires
        !m.has_window(grid),
    ensures
        ({
            let made = m.with_window(win, container, grid);
            let moved = made.with_window_at(grid, x, y);
            &&& m.make_window(container, grid) == on_frame(grid, new_grid_frame(container, grid))
            &&& made.windows[grid] == new_window(win, container, grid)
            &&& moved.with_window(other_win, other, grid) == moved
            &&& moved.make_window(other, grid) == Seq::<Action>::empty()
            &&& moved.windows[grid] == (Window { x, y, ..made.windows[grid] })
            &&& moved.move_window(grid, x, y, w, h) == on_frame(
                grid,
                place_frame(container, x, y, w, h),
            ) + on_frame(grid, seq![FrameOp::ShowAll])
        }),
{
}

/// A window that is placed and closed leaves the windows as they were without
/// it.
pub proof fn law_close_undoes_place(m: Model, event: WindowPos, main: GridMetrics)
    ensures
        m.redraw(RedrawItem::WindowPos(event)).next.resume(Answer::Metrics(main)).next.redraw(
            RedrawItem::WindowClose(event.grid),
        ).next.windows == m.windows.remove(event.grid),
{
    assert(m.redraw(RedrawItem::WindowPos(event)).next.resume(Answer::Metrics(main)).next.redraw(
        RedrawItem::WindowClose(event.grid),
    ).next.windows =~= m.windows.remove(event.grid));
}

/// A window that floats over another one keeps its distance from that one's
/// corner, wherever that one is; over the main grid it keeps its distance from
/// the corner of the screen.
pub proof fn law_float_is_counted_from_its_anchor(
    m: Model,
    event: WindowFloatPos,
    anchor: GridMetrics,
    grid: GridMetrics,
)
    requires
        m.wf(),
        m.stage is Idle,
        m.accepts(RedrawItem::WindowFloatPos(event)),
        m.redraw(RedrawItem::WindowFloatPos(event)).next.fits(
            Answer::MetricsPair { anchor, grid },
        ),
    ensures
        ({
            let placed = m.redraw(RedrawItem::WindowFloatPos(event)).next.resume(
                Answer::MetricsPair { anchor, grid },
            ).next.windows[event.grid];
            if event.anchor_grid == MAIN_GRID {
                &&& placed.x == anchor.cell_width * event.anchor_col
                &&& placed.y == anchor.cell_height * event.anchor_row
            } else {
                &&& placed.x - m.windows[event.anchor_grid].x == anchor.cell_width
                    * event.anchor_col
                &&& placed.y - m.windows[event.anchor_grid].y == anchor.cell_height
                    * event.anchor_row
            }
        }),
{
    assert(0 <= anchor.cell_width * event.anchor_col) by (nonlinear_arith);
    assert(0 <= anchor.cell_height * event.anchor_row) by (nonlinear_arith);
}

/// New default colours are those of the highlight 0 too, which otherwise stays
/// as it was, and no other highlight changes.
pub proof fn law_default_colors_change_one_highlight(m: Model, event: DefaultColorsSet)
    requires
        m.wf(),
    ensures
        ({
            let before = m.hl.defs;
            let after = m.default_colors_set(event).next.hl.defs;
            &&& after.dom() == before.dom()
            &&& after[0].foreground == Some(event.fg)
            &&& after[0].background == Some(event.bg)
            &&& after[0].special == Some(event.sp)
            &&& after[0].reverse == before[0].reverse
            &&& after[0].italic == before[0].italic
            &&& after[0].bold == before[0].bold
            &&& after[0].underline == before[0].underline
            &&& after[0].undercurl == before[0].undercurl
            &&& forall|id: u64|
                id != 0 && before.contains_key(id) ==> #[trigger] after[id] == before[id]
        }),
{
    assert(m.default_colors_set(event).next.hl.defs.dom() =~= m.hl.defs.dom());
}

/// A highlight is what it was last defined as, and the others stay as they were.
pub proof fn law_highlights_are_kept(m: Model, event: HlAttrDefine)
    ensures
        ({
            let before = m.hl.defs;
            let after = m.redraw(RedrawItem::HlAttrDefine(event)).next.hl.defs;
            &&& after.contains_key(event.id)
            &&& after[event.id] == event.hl
            &&& forall|id: u64|
                id != event.id ==> (#[trigger] after.contains_key(id) <==> before.contains_key(id))
            &&& forall|id: u64|
                id != event.id && before.contains_key(id) ==> #[trigger] after[id] == before[id]
        }),
{
}

/// A cursor tooltip that is on screen when the popup menu comes up is sent to
/// the other side, and when the popup menu goes it is free again.
#[verifier::rlimit(50)]
#[verifier::spinoff_prover]
pub proof fn law_tooltip_makes_way_for_the_menu(
    m: Model,
    event: PopupmenuShow,
    rect: Rect,
    above: bool,
)
    requires
        m.stage is Idle,
        m.tooltip,
    ensures
        ({
            let asked = m.redraw(RedrawItem::PopupmenuShow(event));
            let shown = asked.next.resume(Answer::Rect(rect));
            let seen = shown.next.resume(Answer::Flag(true));
            let moved = seen.next.resume(Answer::Flag(above));
            let gone = moved.next.redraw(RedrawItem::PopupmenuHide);
            &&& shown.actions[2] == Action::Popupmenu(MenuOp::Show)
            &&& shown.ask == Some(Query::TooltipVisible)
            &&& seen.ask == Some(Query::MenuAboveAnchor)
            &&& moved.actions[0] == Action::CursorTooltip(
                TooltipOp::ForceGravity(
                    Some(
                        if above {
                            Gravity::Down
                        } else {
                            Gravity::Up
                        },
                    ),
                ),
            )
            &&& gone.actions[0] == Action::Popupmenu(MenuOp::Hide)
            &&& gone.actions[1] == Action::CursorTooltip(TooltipOp::ForceGravity(None))
            &&& moved.next == m
            &&& gone.next == m
        }),
{
    let asked = m.redraw(RedrawItem::PopupmenuShow(event));
    let moved = asked.next.resume(Answer::Rect(rect)).next.resume(Answer::Flag(true)).next.resume(
        Answer::Flag(above),
    );
    assert(moved.next =~= m);
}

} // verus!
