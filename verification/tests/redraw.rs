use gnvim_ui::action::{
    Action, Answer, CmdlineOp, Command, Container, Font, FrameOp, Gravity, GridMetrics, GridOp,
    MenuOp, Note, NvimCall, Query, Rect, TablineOp, TooltipOp, Turn,
};
use gnvim_ui::color::{Color, Highlight};
use gnvim_ui::event::{
    BlockLine, Cell, Chunk, CmdlineBlockShow, CmdlinePos, CmdlineShow, CmdlineSpecialChar,
    CompletionItem, CursorShape, DefaultColorsSet, GridCursorGoto, GridLine, GridResize,
    GridScroll, HlAttrDefine, ModeChange, ModeInfo, ModeInfoSet, MsgSetPos, OptionSet,
    PopupmenuShow, RedrawEvent, Region, Tab, TablineUpdate, WildmenuShow, WindowFloatPos,
    WindowPos,
};
use gnvim_ui::model::ResizeOptions;
use gnvim_ui::state::UIState;
use gnvim_ui::timer::ResizeTimer;
use gnvim_ui::ui::{Session, UI};
use gnvim_ui::window::{MsgWindow, Window};
use neovim_lib::neovim_api::Window as NvimWindow;
use neovim_lib::Value;

fn state(tooltip: bool) -> UIState {
    UI::init((800, 600), tooltip).0.state
}

/// Hands in one event of one call, and takes the call.
fn take(state: &mut UIState, event: RedrawEvent) -> Turn {
    assert!(state.idle());
    state.handle_redraw_event(vec![event]);
    assert!(state.ready());
    state.step()
}

/// Whether the first call of `event` can be taken.
fn is_accepted(state: &mut UIState, event: RedrawEvent) -> bool {
    state.handle_redraw_event(vec![event]);
    let ready = state.ready();
    state.queue.clear();
    ready
}

fn answer(state: &mut UIState, answer: Answer) -> Turn {
    assert!(state.fits(&answer));
    state.resume(answer)
}

fn quiet(turn: Turn) {
    assert_eq!(turn.actions, vec![]);
    assert_eq!(turn.ask, None);
}

fn win(n: i64) -> NvimWindow {
    NvimWindow::new(Value::from(n))
}

fn add_grid(state: &mut UIState, grid: i64) {
    take(state, RedrawEvent::GridResize(vec![GridResize { grid, width: 10, height: 5 }]));
}

fn window_pos(grid: i64, n: i64) -> WindowPos {
    WindowPos { grid, win: win(n), start_row: 2, start_col: 3, width: 20, height: 10 }
}

fn metrics(cell_width: u64, cell_height: u64) -> GridMetrics {
    GridMetrics { rows: 24, cols: 80, cell_width, cell_height }
}

fn add_window(state: &mut UIState, grid: i64) {
    add_grid(state, grid);
    take(state, RedrawEvent::WindowPos(vec![window_pos(grid, grid)]));
    answer(state, Answer::Metrics(metrics(8, 16)));
}

fn on(grid: i64, op: GridOp) -> Action {
    Action::Grid { grid, op }
}

#[test]
fn calls_are_taken_in_order() {
    let mut state = state(false);
    state.handle_redraw_event(vec![
        RedrawEvent::SetTitle(vec!["a".to_string(), "b".to_string()]),
        RedrawEvent::Ignored("mouse_on".to_string()),
        RedrawEvent::Unknown("new".to_string()),
        RedrawEvent::GridClear(vec![]),
        RedrawEvent::CmdlineHide(),
    ]);
    state.handle_redraw_event(vec![RedrawEvent::WildmenuHide()]);
    let mut done = Vec::new();
    while state.ready() {
        done.extend(state.step().actions);
    }
    assert!(state.idle());
    assert_eq!(
        done,
        vec![
            Action::SetTitle("a".to_string()),
            Action::SetTitle("b".to_string()),
            Action::Note(Note::UnknownRedrawEvent("new".to_string())),
            Action::Cmdline(CmdlineOp::Hide),
            Action::Cmdline(CmdlineOp::WildmenuHide),
        ]
    );
}

#[test]
fn one_batch_or_two_make_no_difference() {
    let events = || {
        vec![
            RedrawEvent::GridResize(vec![GridResize { grid: 2, width: 1, height: 1 }]),
            RedrawEvent::GridCursorGoto(vec![GridCursorGoto { grid: 2, row: 0, col: 0 }]),
            RedrawEvent::SetBusy(true),
        ]
    };
    let mut one = state(false);
    one.handle_redraw_event(events());
    let mut one_done = Vec::new();
    while one.ready() {
        one_done.extend(one.step().actions);
    }
    let mut two = state(false);
    let mut two_done = Vec::new();
    for event in events() {
        two_done.extend(take(&mut two, event).actions);
    }
    assert_eq!(one_done, two_done);
    assert_eq!(one.grids.ids, two.grids.ids);
    assert_eq!(one.current_grid, two.current_grid);
}

#[test]
fn grid_is_made_with_its_first_size() {
    let mut state = state(false);
    let event = GridResize { grid: 3, width: 40, height: 12 };
    let turn = take(&mut state, RedrawEvent::GridResize(vec![event]));
    assert_eq!(
        turn.actions,
        vec![
            Action::CreateGrid {
                grid: 3,
                font: Font::Guifont("Monospace:h12".to_string()),
                line_space: 0,
                cols: 40,
                rows: 12
            },
            on(3, GridOp::Resize { width: 40, height: 12 }),
            Action::AttachGridEvents(3),
        ]
    );
    assert_eq!(state.grids.ids, vec![1, 3]);
    let turn = take(
        &mut state,
        RedrawEvent::GridResize(vec![GridResize { grid: 3, width: 41, height: 13 }]),
    );
    assert_eq!(turn.actions, vec![on(3, GridOp::Resize { width: 41, height: 13 })]);
}

#[test]
fn lines_go_to_their_grid() {
    let mut state = state(false);
    let line = || GridLine {
        grid: 1,
        row: 4,
        col_start: 2,
        cells: vec![Cell { text: "x".to_string(), hl_id: 1, repeat: 2 }],
    };
    let turn = take(&mut state, RedrawEvent::GridLine(vec![line()]));
    assert_eq!(turn.actions, vec![on(1, GridOp::PutLine(line()))]);
    let turn = take(&mut state, RedrawEvent::GridClear(vec![1]));
    assert_eq!(turn.actions, vec![on(1, GridOp::Clear)]);
}

#[test]
fn what_is_not_there_is_not_accepted() {
    let mut state = state(true);
    let line = GridLine { grid: 9, row: 0, col_start: 0, cells: vec![] };
    assert!(!is_accepted(&mut state, RedrawEvent::GridLine(vec![line])));
    let goto = GridCursorGoto { grid: 9, row: 0, col: 0 };
    assert!(!is_accepted(&mut state, RedrawEvent::GridCursorGoto(vec![goto])));
    assert!(!is_accepted(&mut state, RedrawEvent::GridClear(vec![9])));
    assert!(!is_accepted(&mut state, RedrawEvent::GridDestroy(vec![9])));
    assert!(!is_accepted(&mut state, RedrawEvent::WindowHide(vec![1])));
    assert!(!is_accepted(&mut state, RedrawEvent::WindowClose(vec![1])));
    let msg = MsgSetPos { grid: 9, row: 0 };
    assert!(!is_accepted(&mut state, RedrawEvent::MsgSetPos(vec![msg])));
    let change = ModeChange { name: "normal".to_string(), index: 0 };
    assert!(!is_accepted(&mut state, RedrawEvent::ModeChange(vec![change])));
    assert!(!is_accepted(&mut state, RedrawEvent::WindowPos(vec![window_pos(9, 1)])));
    assert!(is_accepted(&mut state, RedrawEvent::WindowPos(vec![window_pos(1, 1)])));
}

#[test]
fn cursor_takes_the_focus_along() {
    let mut state = state(false);
    add_grid(&mut state, 2);
    let goto = |grid, row, col| RedrawEvent::GridCursorGoto(vec![GridCursorGoto { grid, row, col }]);
    let turn = take(&mut state, goto(1, 1, 2));
    assert_eq!(turn.actions, vec![on(1, GridOp::CursorGoto { row: 1, col: 2 })]);
    let turn = take(&mut state, goto(2, 3, 4));
    assert_eq!(
        turn.actions,
        vec![
            on(1, GridOp::SetActive(false)),
            on(1, GridOp::Tick),
            on(2, GridOp::SetActive(true)),
            on(2, GridOp::CursorGoto { row: 3, col: 4 }),
        ]
    );
    assert_eq!(state.current_grid, 2);
    let turn = take(&mut state, goto(2, 5, 6));
    assert_eq!(turn.actions, vec![on(2, GridOp::CursorGoto { row: 5, col: 6 })]);
}

#[test]
fn main_grid_takes_over_from_a_destroyed_one() {
    let mut state = state(false);
    add_grid(&mut state, 2);
    add_grid(&mut state, 3);
    let goto = GridCursorGoto { grid: 3, row: 0, col: 0 };
    take(&mut state, RedrawEvent::GridCursorGoto(vec![goto]));
    let turn = take(&mut state, RedrawEvent::GridDestroy(vec![2]));
    assert_eq!(
        turn.actions,
        vec![Action::Note(Note::GridDropped(2)), Action::DestroyGrid(2)]
    );
    assert_eq!(state.current_grid, 1);
    assert_eq!(state.grids.ids, vec![1, 3]);
}

#[test]
fn without_the_main_grid_there_may_be_none_to_tick() {
    let mut state = state(false);
    take(&mut state, RedrawEvent::GridDestroy(vec![1]));
    assert_eq!(state.current_grid, 1);
    assert!(!state.grids.contains(1));
    assert!(!is_accepted(
        &mut state,
        RedrawEvent::OptionSet(vec![OptionSet::LineSpace(1)])
    ));
    assert!(is_accepted(&mut state, RedrawEvent::Flush()));
    assert!(!Session { state }.can_tick());
}

#[test]
fn grid_that_is_made_and_destroyed_leaves_the_others() {
    let mut state = state(false);
    add_grid(&mut state, 4);
    add_grid(&mut state, 2);
    take(&mut state, RedrawEvent::GridDestroy(vec![2]));
    assert_eq!(state.grids.ids, vec![1, 4]);
}

#[test]
fn scrolling_is_told_to_scripts() {
    let mut state = state(false);
    let reg = Region { top: 0, bot: 10, left: 0, right: 80 };
    let turn = take(
        &mut state,
        RedrawEvent::GridScroll(vec![GridScroll { grid: 1, reg, rows: -2, cols: 0 }]),
    );
    assert_eq!(
        turn.actions,
        vec![
            on(1, GridOp::Scroll { reg, rows: -2, cols: 0 }),
            Action::Nvim(NvimCall::Command(Command::Scrolled)),
        ]
    );
}

fn colors() -> DefaultColorsSet {
    DefaultColorsSet {
        fg: Color { r: 1, g: 1, b: 1 },
        bg: Color { r: 2, g: 2, b: 2 },
        sp: Color { r: 3, g: 3, b: 3 },
    }
}

#[test]
fn default_colors_are_those_of_highlight_zero() {
    let mut state = state(true);
    add_grid(&mut state, 2);
    let bold = Highlight { bold: true, ..Highlight::default() };
    quiet(take(
        &mut state,
        RedrawEvent::HlAttrDefine(vec![HlAttrDefine { id: 0, hl: bold }]),
    ));
    quiet(take(
        &mut state,
        RedrawEvent::HlAttrDefine(vec![HlAttrDefine { id: 5, hl: bold }]),
    ));
    let set = colors();
    let turn = take(&mut state, RedrawEvent::DefaultColorsSet(vec![set]));
    assert_eq!(
        turn.actions,
        vec![
            on(1, GridOp::Redraw),
            on(2, GridOp::Redraw),
            Action::CursorTooltip(TooltipOp::SetColors { fg: set.fg, bg: set.bg }),
            Action::SetBackground(set.bg),
        ]
    );
    assert_eq!(state.hl_defs.default_fg, set.fg);
    assert_eq!(state.hl_defs.default_bg, set.bg);
    assert_eq!(state.hl_defs.default_sp, set.sp);
    let colored = Highlight {
        foreground: Some(set.fg),
        background: Some(set.bg),
        special: Some(set.sp),
        ..bold
    };
    assert_eq!(state.hl_defs.get(&0), Some(&colored));
    assert_eq!(state.hl_defs.get(&5), Some(&bold));
}

#[test]
fn default_colors_without_tooltip() {
    let mut state = state(false);
    let turn = take(&mut state, RedrawEvent::DefaultColorsSet(vec![colors()]));
    assert_eq!(
        turn.actions,
        vec![on(1, GridOp::Redraw), Action::SetBackground(colors().bg)]
    );
}

fn mode(percentage: u64) -> ModeInfo {
    ModeInfo {
        cursor_shape: CursorShape::Block,
        cell_percentage: percentage,
        blink_on: 0,
    }
}

#[test]
fn mode_reaches_all_grids_and_new_ones() {
    let mut state = state(false);
    add_grid(&mut state, 2);
    quiet(take(
        &mut state,
        RedrawEvent::ModeInfoSet(vec![ModeInfoSet {
            cursor_style_enabled: true,
            mode_info: vec![mode(100), mode(25)],
        }]),
    ));
    let change = |index| RedrawEvent::ModeChange(vec![ModeChange { name: "m".to_string(), index }]);
    assert!(!is_accepted(&mut state, change(2)));
    let turn = take(&mut state, change(1));
    assert_eq!(
        turn.actions,
        vec![on(1, GridOp::SetMode(mode(25))), on(2, GridOp::SetMode(mode(25)))]
    );
    assert_eq!(state.current_mode, Some(mode(25)));
    let turn = take(
        &mut state,
        RedrawEvent::GridResize(vec![GridResize { grid: 3, width: 1, height: 2 }]),
    );
    assert_eq!(turn.actions.len(), 4);
    assert_eq!(turn.actions[1], on(3, GridOp::SetMode(mode(25))));
}

#[test]
fn busy_reaches_all_grids() {
    let mut state = state(false);
    add_grid(&mut state, 2);
    let turn = take(&mut state, RedrawEvent::SetBusy(true));
    assert_eq!(
        turn.actions,
        vec![on(1, GridOp::SetBusy(true)), on(2, GridOp::SetBusy(true))]
    );
}

fn guifont(name: &str) -> RedrawEvent {
    RedrawEvent::OptionSet(vec![OptionSet::GuiFont(name.to_string())])
}

fn line_space(space: i64) -> RedrawEvent {
    RedrawEvent::OptionSet(vec![OptionSet::LineSpace(space)])
}

fn hack() -> Font {
    Font::Guifont("Hack:h10".to_string())
}

#[test]
fn font_and_line_space_come_with_the_flush() {
    let mut state = state(true);
    let turn = take(&mut state, guifont("Hack:h10"));
    assert_eq!(turn.ask, Some(Query::ParseFont("Hack:h10".to_string())));
    let turn = answer(&mut state, Answer::FontUsable(true));
    assert_eq!(turn.ask, Some(Query::GridStyle(1)));
    assert_eq!(state.font, hack());
    quiet(answer(&mut state, Answer::Style { font: Font::Fallback, line_space: 4 }));
    assert_eq!(
        state.resize_on_flush,
        Some(ResizeOptions { font: hack(), line_space: 4 })
    );
    quiet(take(&mut state, line_space(7)));
    assert_eq!(state.line_space, 7);

    let turn = take(&mut state, RedrawEvent::Flush());
    assert_eq!(
        turn.actions,
        vec![
            on(1, GridOp::Flush),
            on(1, GridOp::UpdateCellMetrics { font: hack(), line_space: 7 }),
        ]
    );
    assert_eq!(turn.ask, Some(Query::CalcSize(1)));
    let turn = answer(&mut state, Answer::Size { cols: 100, rows: 40 });
    assert_eq!(
        turn.actions,
        vec![
            Action::CancelResize,
            Action::Nvim(NvimCall::TryResize { cols: 100, rows: 40 }),
            Action::Popupmenu(MenuOp::SetFont(hack())),
            Action::Cmdline(CmdlineOp::SetFont(hack())),
            Action::Tabline(TablineOp::SetFont(hack())),
            Action::CursorTooltip(TooltipOp::SetFont(hack())),
            Action::Cmdline(CmdlineOp::SetLineSpace(7)),
            Action::Popupmenu(MenuOp::SetLineSpace(7)),
            Action::Tabline(TablineOp::SetLineSpace(7)),
        ]
    );
    assert!(state.idle());

    let turn = take(&mut state, RedrawEvent::Flush());
    assert_eq!(turn.actions, vec![on(1, GridOp::Flush)]);
    assert_eq!(turn.ask, None);
}

#[test]
fn flush_drops_the_delayed_resize() {
    let mut state = state(false);
    let mut timer = ResizeTimer::new();
    timer.schedule(4, 90, 30);
    take(&mut state, line_space(7));
    answer(&mut state, Answer::Style { font: hack(), line_space: 0 });
    take(&mut state, RedrawEvent::Flush());
    let turn = answer(&mut state, Answer::Size { cols: 100, rows: 40 });
    let mut removed = Vec::new();
    let mut sent = Vec::new();
    for action in turn.actions {
        match action {
            Action::CancelResize => removed.extend(timer.cancel()),
            Action::Nvim(call) => sent.push(call),
            _ => {}
        }
    }
    assert_eq!(removed, vec![4]);
    assert_eq!(sent, vec![NvimCall::TryResize { cols: 100, rows: 40 }]);
    assert_eq!(timer.fire().call, None);
}

#[test]
fn line_space_alone_keeps_the_font() {
    let mut state = state(false);
    let turn = take(&mut state, line_space(3));
    assert_eq!(turn.ask, Some(Query::GridStyle(1)));
    quiet(answer(&mut state, Answer::Style { font: hack(), line_space: 9 }));
    assert_eq!(
        state.resize_on_flush,
        Some(ResizeOptions { font: hack(), line_space: 3 })
    );
    take(&mut state, guifont("no such font"));
    quiet(answer(&mut state, Answer::FontUsable(false)));
    assert_eq!(state.font, Font::Fallback);
    assert_eq!(
        state.resize_on_flush,
        Some(ResizeOptions { font: Font::Fallback, line_space: 3 })
    );
    take(&mut state, RedrawEvent::Flush());
    let turn = answer(&mut state, Answer::Size { cols: 1, rows: 2 });
    assert_eq!(turn.actions.len(), 8);
}

#[test]
fn font_and_line_space_come_in_either_order() {
    let style = || Answer::Style { font: Font::Fallback, line_space: 9 };
    let mut font_first = state(false);
    take(&mut font_first, guifont("Hack:h10"));
    answer(&mut font_first, Answer::FontUsable(true));
    answer(&mut font_first, style());
    take(&mut font_first, line_space(2));
    let mut font_last = state(false);
    take(&mut font_last, line_space(2));
    answer(&mut font_last, style());
    take(&mut font_last, guifont("Hack:h10"));
    answer(&mut font_last, Answer::FontUsable(true));
    for state in [font_first, font_last].iter() {
        assert!(state.idle());
        assert_eq!(
            state.resize_on_flush,
            Some(ResizeOptions { font: hack(), line_space: 2 })
        );
        assert_eq!(state.font, hack());
        assert_eq!(state.line_space, 2);
    }
}

#[test]
fn other_options_are_only_noted() {
    let mut state = state(false);
    let turn = take(
        &mut state,
        RedrawEvent::OptionSet(vec![OptionSet::NotSupported("ambiwidth".to_string())]),
    );
    assert_eq!(
        turn.actions,
        vec![Action::Note(Note::UnsupportedOption("ambiwidth".to_string()))]
    );
    assert_eq!(turn.ask, None);
    assert!(state.idle());
}

#[test]
fn unknown_events_are_only_noted() {
    let mut state = state(false);
    let turn = take(&mut state, RedrawEvent::Unknown("win_spin".to_string()));
    assert_eq!(
        turn.actions,
        vec![Action::Note(Note::UnknownRedrawEvent("win_spin".to_string()))]
    );
    assert_eq!(turn.ask, None);
    state.handle_redraw_event(vec![RedrawEvent::Ignored("mouse_on".to_string())]);
    assert!(state.idle());
}

fn completion() -> Vec<CompletionItem> {
    vec![CompletionItem {
        word: "word".to_string(),
        kind: "f".to_string(),
        menu: "m".to_string(),
        info: "i".to_string(),
    }]
}

fn popup(grid: i64) -> RedrawEvent {
    RedrawEvent::PopupmenuShow(vec![PopupmenuShow {
        items: completion(),
        selected: -1,
        row: 6,
        col: 7,
        grid,
    }])
}

#[test]
fn popupmenu_is_anchored_in_its_window() {
    let mut state = state(false);
    add_window(&mut state, 2);
    assert!(!is_accepted(&mut state, popup(3)));
    let turn = take(&mut state, popup(2));
    assert_eq!(turn.actions, vec![Action::Popupmenu(MenuOp::SetItems(completion()))]);
    assert_eq!(turn.ask, Some(Query::RectForCell { grid: 1, row: 6, col: 7 }));
    let rect = Rect { x: 10, y: 20, width: 8, height: 16 };
    let turn = answer(&mut state, Answer::Rect(rect));
    assert_eq!(
        turn.actions,
        vec![
            Action::Popupmenu(MenuOp::SetAnchor(Rect { x: 34, y: 52, width: 8, height: 16 })),
            Action::Popupmenu(MenuOp::Select(-1)),
            Action::Popupmenu(MenuOp::Show),
        ]
    );
    assert_eq!(turn.ask, None);
    let turn = take(&mut state, RedrawEvent::PopupmenuHide());
    assert_eq!(turn.actions, vec![Action::Popupmenu(MenuOp::Hide)]);
    let turn = take(&mut state, RedrawEvent::PopupmenuSelect(vec![4]));
    assert_eq!(turn.actions, vec![Action::Popupmenu(MenuOp::Select(4))]);
}

#[test]
fn anchor_out_of_range_does_not_fit() {
    let mut state = state(false);
    add_window(&mut state, 2);
    take(&mut state, popup(2));
    let rect = Rect { x: i32::MAX, y: 0, width: 1, height: 1 };
    assert!(!state.fits(&Answer::Rect(rect)));
    let rect = Rect { x: i32::MAX - 24, y: i32::MIN, width: 1, height: 1 };
    assert!(state.fits(&Answer::Rect(rect)));
}

#[test]
fn tooltip_makes_way_for_the_popupmenu() {
    for &(above, gravity) in [(true, Gravity::Down), (false, Gravity::Up)].iter() {
        let mut state = state(true);
        add_window(&mut state, 2);
        take(&mut state, popup(2));
        let rect = Rect { x: 0, y: 0, width: 1, height: 1 };
        let turn = answer(&mut state, Answer::Rect(rect));
        assert_eq!(turn.ask, Some(Query::TooltipVisible));
        let turn = answer(&mut state, Answer::Flag(true));
        assert_eq!(turn.actions, vec![]);
        assert_eq!(turn.ask, Some(Query::MenuAboveAnchor));
        let turn = answer(&mut state, Answer::Flag(above));
        assert_eq!(
            turn.actions,
            vec![
                Action::CursorTooltip(TooltipOp::ForceGravity(Some(gravity))),
                Action::CursorTooltip(TooltipOp::RefreshPosition),
            ]
        );
        assert!(state.idle());
        let turn = take(&mut state, RedrawEvent::PopupmenuHide());
        assert_eq!(
            turn.actions,
            vec![
                Action::Popupmenu(MenuOp::Hide),
                Action::CursorTooltip(TooltipOp::ForceGravity(None)),
                Action::CursorTooltip(TooltipOp::RefreshPosition),
            ]
        );
    }
}

#[test]
fn hidden_tooltip_stays_where_it_is() {
    let mut state = state(true);
    add_window(&mut state, 2);
    take(&mut state, popup(2));
    answer(&mut state, Answer::Rect(Rect { x: 0, y: 0, width: 1, height: 1 }));
    quiet(answer(&mut state, Answer::Flag(false)));
    assert!(state.idle());
}

#[test]
fn tabline_and_cmdline_get_their_events() {
    let mut state = state(false);
    let update = || TablineUpdate {
        current: 2,
        tabs: vec![Tab { handle: 2, name: "two".to_string() }],
    };
    let turn = take(&mut state, RedrawEvent::TablineUpdate(vec![update()]));
    assert_eq!(turn.actions, vec![Action::Tabline(TablineOp::Update(update()))]);

    let chunks = || vec![Chunk { hl_id: 1, text: "set".to_string() }];
    let show = || CmdlineShow {
        content: chunks(),
        pos: 3,
        firstc: ":".to_string(),
        prompt: "".to_string(),
        indent: 0,
        level: 1,
    };
    let block = || CmdlineBlockShow { lines: vec![BlockLine { content: chunks() }] };
    let cases = vec![
        (RedrawEvent::CmdlineShow(vec![show()]), CmdlineOp::Show(show())),
        (RedrawEvent::CmdlineHide(), CmdlineOp::Hide),
        (
            RedrawEvent::CmdlinePos(vec![CmdlinePos { pos: 4, level: 1 }]),
            CmdlineOp::SetPos { pos: 4, level: 1 },
        ),
        (
            RedrawEvent::CmdlineSpecialChar(vec![CmdlineSpecialChar {
                character: "^".to_string(),
                shift: true,
                level: 2,
            }]),
            CmdlineOp::ShowSpecialChar { character: "^".to_string(), shift: true, level: 2 },
        ),
        (RedrawEvent::CmdlineBlockShow(vec![block()]), CmdlineOp::ShowBlock(block())),
        (
            RedrawEvent::CmdlineBlockAppend(vec![BlockLine { content: chunks() }]),
            CmdlineOp::BlockAppend(BlockLine { content: chunks() }),
        ),
        (RedrawEvent::CmdlineBlockHide(), CmdlineOp::HideBlock),
        (
            RedrawEvent::WildmenuShow(vec![WildmenuShow { items: vec!["x".to_string()] }]),
            CmdlineOp::WildmenuShow(vec!["x".to_string()]),
        ),
        (RedrawEvent::WildmenuHide(), CmdlineOp::WildmenuHide),
        (RedrawEvent::WildmenuSelect(vec![-1]), CmdlineOp::WildmenuSelect(-1)),
    ];
    for (event, op) in cases {
        let turn = take(&mut state, event);
        assert_eq!(turn.actions, vec![Action::Cmdline(op)]);
        assert_eq!(turn.ask, None);
    }
}

#[test]
fn window_is_made_and_placed() {
    let mut state = state(false);
    add_grid(&mut state, 2);
    let turn = take(&mut state, RedrawEvent::WindowPos(vec![window_pos(2, 77)]));
    let frame = |op| Action::Window { grid: 2, op };
    // The window is there before the size of the cells is asked for.
    assert_eq!(
        turn.actions,
        vec![
            frame(FrameOp::Create),
            frame(FrameOp::Put { container: Container::Windows, x: 0, y: 0 }),
            frame(FrameOp::AddGrid(2)),
        ]
    );
    assert_eq!(turn.ask, Some(Query::Metrics(1)));
    assert!(state.windows.contains_key(&2));
    let turn = answer(&mut state, Answer::Metrics(metrics(8, 16)));
    assert_eq!(
        turn.actions,
        vec![
            frame(FrameOp::Move { container: Container::Windows, x: 24, y: 32 }),
            frame(FrameOp::SizeRequest { width: 160, height: 160 }),
            frame(FrameOp::ShowAll),
            on(2, GridOp::Resize { width: 20, height: 10 }),
        ]
    );
    let window = state.windows.get(&2).unwrap();
    assert_eq!((window.x, window.y, window.grid_id), (24, 32, 2));
    assert_eq!(window.nvim_win, win(77));

    // The second time it is only moved, and stays the window it was.
    let turn = take(&mut state, RedrawEvent::WindowPos(vec![window_pos(2, 78)]));
    assert_eq!(turn.actions, vec![]);
    let turn = answer(&mut state, Answer::Metrics(metrics(1, 1)));
    assert_eq!(turn.actions.len(), 4);
    assert_eq!(
        turn.actions[0],
        frame(FrameOp::Move { container: Container::Windows, x: 3, y: 2 })
    );
    assert_eq!(state.windows.get(&2).unwrap().nvim_win, win(77));
}

#[test]
fn place_too_far_out_does_not_fit() {
    let mut state = state(false);
    add_grid(&mut state, 2);
    take(&mut state, RedrawEvent::WindowPos(vec![window_pos(2, 1)]));
    assert!(!state.fits(&Answer::Metrics(metrics(u64::MAX / 2, 1))));
    assert!(!state.fits(&Answer::Metrics(metrics(1, u64::MAX / 2))));
    assert!(!state.fits(&Answer::Flag(true)));
    assert!(state.fits(&Answer::Metrics(metrics(1 << 40, 1))));
    // The toolkit gets the low bits of what is too large for it.
    let turn = answer(&mut state, Answer::Metrics(metrics((1 << 32) + 1, 1)));
    assert_eq!(
        turn.actions[0],
        Action::Window {
            grid: 2,
            op: FrameOp::Move { container: Container::Windows, x: 3, y: 2 }
        }
    );
    assert_eq!(state.windows.get(&2).unwrap().x, 3 * ((1 << 32) + 1));
}

fn float(grid: i64, anchor_grid: i64) -> RedrawEvent {
    RedrawEvent::WindowFloatPos(vec![WindowFloatPos {
        grid,
        win: win(5),
        anchor_grid,
        anchor_row: 2,
        anchor_col: 4,
    }])
}

#[test]
fn float_is_placed_from_its_anchor() {
    let mut state = state(false);
    add_window(&mut state, 2);
    add_grid(&mut state, 3);
    add_grid(&mut state, 4);
    assert!(!is_accepted(&mut state, float(3, 4)));
    assert!(!is_accepted(&mut state, float(9, 1)));
    let turn = take(&mut state, float(3, 2));
    let frame = |op| Action::Window { grid: 3, op };
    assert_eq!(
        turn.actions,
        vec![
            Action::Note(Note::FloatMade),
            frame(FrameOp::Create),
            frame(FrameOp::Put { container: Container::Floats, x: 0, y: 0 }),
            frame(FrameOp::AddGrid(3)),
        ]
    );
    assert_eq!(turn.ask, Some(Query::MetricsPair { anchor: 2, grid: 3 }));
    let anchor = metrics(10, 20);
    let grid = GridMetrics { rows: 3, cols: 6, cell_width: 5, cell_height: 7 };
    let turn = answer(&mut state, Answer::MetricsPair { anchor, grid });
    assert_eq!(
        turn.actions,
        vec![
            // The window of grid 2 is at 24, 32.
            frame(FrameOp::Move { container: Container::Floats, x: 64, y: 72 }),
            frame(FrameOp::SizeRequest { width: 30, height: 21 }),
            frame(FrameOp::ShowAll),
        ]
    );
    let turn = take(&mut state, float(3, 1));
    assert_eq!(turn.actions, vec![]);
    assert_eq!(turn.ask, Some(Query::MetricsPair { anchor: 1, grid: 3 }));
    assert!(!state.fits(&Answer::MetricsPair { anchor: metrics(u64::MAX, 1), grid }));
    let turn = answer(&mut state, Answer::MetricsPair { anchor, grid });
    assert_eq!(turn.actions.len(), 3);
    let window = state.windows.get(&3).unwrap();
    assert_eq!((window.x, window.y), (40, 40));
}

#[test]
fn window_that_comes_to_float_stays_in_its_container() {
    let mut state = state(false);
    add_window(&mut state, 2);
    take(&mut state, float(2, 1));
    let turn = answer(
        &mut state,
        Answer::MetricsPair { anchor: metrics(1, 1), grid: metrics(1, 1) },
    );
    assert_eq!(
        turn.actions[0],
        Action::Window {
            grid: 2,
            op: FrameOp::Move { container: Container::Windows, x: 4, y: 2 }
        }
    );
}

#[test]
fn windows_are_hidden_and_closed() {
    let mut state = state(false);
    add_window(&mut state, 2);
    let turn = take(&mut state, RedrawEvent::WindowHide(vec![2]));
    assert_eq!(turn.actions, vec![Action::Window { grid: 2, op: FrameOp::Hide }]);
    let turn = take(&mut state, RedrawEvent::WindowClose(vec![2]));
    assert_eq!(turn.actions, vec![]);
    assert_eq!(turn.ask, Some(Query::HasChild(2)));
    assert!(state.windows.is_empty());
    let turn = answer(&mut state, Answer::Flag(true));
    assert_eq!(
        turn.actions,
        vec![
            Action::Window { grid: 2, op: FrameOp::RemoveChild },
            Action::Window { grid: 2, op: FrameOp::Destroy },
        ]
    );
    assert!(!is_accepted(&mut state, RedrawEvent::WindowHide(vec![2])));
    assert!(state.grids.contains(2));
}

#[test]
fn empty_frame_is_only_destroyed() {
    assert_eq!(Window::released(false), vec![FrameOp::Destroy]);
}

#[test]
fn windows_are_shown_and_hidden_by_their_frames() {
    let (mut window, ops) = Window::new(win(1), Container::Floats, 6);
    assert_eq!(ops.len(), 3);
    assert_eq!(ops[2], FrameOp::AddGrid(6));
    assert_eq!((window.x, window.y, window.grid_id), (0, 0, 6));
    let ops = window.set_position(1, 2, 3, 4);
    assert_eq!(
        ops,
        vec![
            FrameOp::Move { container: Container::Floats, x: 1, y: 2 },
            FrameOp::SizeRequest { width: 3, height: 4 },
        ]
    );
    assert_eq!((window.x, window.y), (1, 2));
    assert_eq!(window.show(), FrameOp::ShowAll);
    assert_eq!(window.hide_window(), FrameOp::Hide);
}

#[test]
fn messages_are_placed_by_their_row() {
    let mut state = state(false);
    add_grid(&mut state, 9);
    let turn = take(&mut state, RedrawEvent::MsgSetPos(vec![MsgSetPos { grid: 9, row: 22 }]));
    assert_eq!(turn.actions, vec![Action::MsgWindow(FrameOp::AddGrid(9))]);
    assert_eq!(turn.ask, Some(Query::Metrics(9)));
    assert!(!state.fits(&Answer::Metrics(metrics(1, u64::MAX / 23))));
    let turn = answer(&mut state, Answer::Metrics(metrics(8, 16)));
    assert_eq!(
        turn.actions,
        vec![
            Action::MsgWindow(FrameOp::SizeRequest { width: 640, height: 384 }),
            Action::MsgWindow(FrameOp::Move { container: Container::Messages, x: 0, y: 352 }),
            Action::MsgWindow(FrameOp::ShowContainer(Container::Messages)),
        ]
    );
}

#[test]
fn message_window_is_made_at_the_corner() {
    let (window, ops) = MsgWindow::new(Container::Messages);
    assert_eq!(window.container, Container::Messages);
    assert_eq!(
        ops,
        vec![
            FrameOp::Create,
            FrameOp::Put { container: Container::Messages, x: 0, y: 0 },
        ]
    );
}
