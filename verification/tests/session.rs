use gnvim_ui::action::{
    Action, Answer, CmdlineOp, Command, Container, Font, FrameOp, GridOp, MenuOp, Note, NvimCall,
    Query, Rect, TablineOp, TooltipOp, Turn,
};
use gnvim_ui::color::{background_css, Color, Highlight};
use gnvim_ui::event::{
    ColorSlot, GnvimEvent, GridResize, GuiColors, Notify, RedrawEvent, Request,
};
use gnvim_ui::hl_defs::HlDefs;
use gnvim_ui::request::texts_value;
use gnvim_ui::state::UIState;
use gnvim_ui::timer::{Pending, ResizeTimer, Scheduled, RESIZE_DELAY};
use gnvim_ui::ui::{Message, Session, TICK_INTERVAL, UI};

fn session(tooltip: bool) -> Session {
    UI::init((800, 600), tooltip).0.start()
}

fn state(tooltip: bool) -> UIState {
    UI::init((800, 600), tooltip).0.state
}

fn plugin(state: &mut UIState, event: GnvimEvent) -> Turn {
    assert!(state.accepts_gnvim(&event));
    state.handle_gnvim_event(event)
}

#[test]
fn startup_puts_the_main_grid_on_screen() {
    let (ui, actions) = UI::init((800, 600), true);
    let font = Font::Guifont("Monospace:h12".to_string());
    assert_eq!(
        actions,
        vec![
            Action::SetTitle("Neovim".to_string()),
            Action::SetDefaultSize { width: 800, height: 600 },
            Action::RealizeMainWindow,
            Action::CreateGrid {
                grid: 1,
                font: font.clone(),
                line_space: 0,
                cols: 80,
                rows: 30
            },
            Action::AddToOverlay(1),
            Action::MsgWindow(FrameOp::Create),
            Action::MsgWindow(FrameOp::Put { container: Container::Messages, x: 0, y: 0 }),
            Action::TrackSize(1),
            Action::AttachGridEvents(1),
            Action::ShowMainWindow,
            Action::SetImContext(1),
            Action::Cmdline(CmdlineOp::Hide),
            Action::CursorTooltip(TooltipOp::Hide),
        ]
    );
    assert_eq!(ui.state.font, font);
    assert_eq!(ui.state.grids.ids, vec![1]);
    assert_eq!(ui.state.current_grid, 1);
    assert_eq!(ui.state.line_space, 0);
    assert_eq!(ui.state.current_mode, None);
    assert!(ui.state.idle());
    assert_eq!(ui.state.hl_defs.get(&0), Some(&Highlight::default()));
    assert_eq!(ui.state.hl_defs.get(&1), None);
}

#[test]
fn startup_without_tooltip_leaves_it_alone() {
    let (_, actions) = UI::init((1, 2), false);
    assert_eq!(actions.len(), 12);
    assert_eq!(actions[11], Action::Cmdline(CmdlineOp::Hide));
}

#[test]
fn current_grid_is_ticked() {
    let session = session(false);
    assert!(session.can_tick());
    let ticked = session.tick();
    assert_eq!(ticked.action, Action::Grid { grid: 1, op: GridOp::Tick });
    assert!(ticked.again);
    assert_eq!(TICK_INTERVAL, 33);
}

#[test]
fn close_ends_the_session() {
    let mut session = session(false);
    let handled = session.handle_message(Message::Close);
    assert_eq!(handled.turn.actions, vec![Action::CloseMainWindow]);
    assert_eq!(handled.turn.ask, None);
    assert!(handled.reply.is_none());
    assert!(!handled.listening);
}

#[test]
fn messages_are_handled_up_to_the_close() {
    let mut session = session(false);
    let unknown = |name: &str| {
        Message::Notify(Notify::GnvimEvent(Ok(GnvimEvent::Unknown(name.to_string()))))
    };
    let messages = vec![
        unknown("a"),
        Message::Request(Request::CursorTooltipStyles, Vec::new()),
        unknown("b"),
        Message::Close,
        unknown("c"),
    ];
    let mut listening = Vec::new();
    let mut done = Vec::new();
    for message in messages {
        assert!(session.accepts(&message));
        let handled = session.handle_message(message);
        done.extend(handled.turn.actions);
        listening.push(handled.listening);
        if !handled.listening {
            break;
        }
    }
    assert_eq!(listening, vec![true, true, true, false]);
    assert_eq!(
        done,
        vec![
            Action::Note(Note::UnknownGnvimEvent("a".to_string())),
            Action::Note(Note::UnknownGnvimEvent("b".to_string())),
            Action::CloseMainWindow,
        ]
    );
}

#[test]
fn redraw_notification_is_taken_in_hand() {
    let mut session = session(false);
    let events = vec![
        RedrawEvent::GridResize(vec![GridResize { grid: 2, width: 5, height: 6 }]),
        RedrawEvent::Flush(),
    ];
    let message = Message::Notify(Notify::RedrawEvent(events));
    assert!(session.accepts(&message));
    let handled = session.handle_message(message);
    assert_eq!(handled.turn.actions, vec![]);
    assert!(handled.listening);
    assert!(!session.state.idle());
    assert_eq!(session.state.queue.len(), 2);
}

#[test]
fn unreadable_notification_is_reported() {
    let mut session = session(false);
    let handled = session.handle_message(Message::Notify(Notify::GnvimEvent(Err(
        "no args".to_string()
    ))));
    assert_eq!(handled.turn.actions.len(), 1);
    match &handled.turn.actions[0] {
        Action::Nvim(NvimCall::Command(command)) => assert_eq!(
            command.text(),
            "echom \"Failed to parse gnvim notify: 'no args'\""
        ),
        other => panic!("{:?}", other),
    }
    assert!(handled.listening);
}

#[test]
fn styles_are_answered() {
    let mut session = session(true);
    let handled = session.handle_message(Message::Request(
        Request::CursorTooltipStyles,
        vec!["dark".to_string(), "light".to_string()],
    ));
    assert!(handled.listening);
    assert_eq!(handled.turn.actions, vec![]);
    let value = handled.reply.unwrap().unwrap();
    let items = value.as_array().unwrap();
    assert_eq!(items.len(), 2);
    assert_eq!(items[0].as_str(), Some("dark"));
    assert_eq!(items[1].as_str(), Some("light"));
    assert_eq!(value.as_str(), None);
}

#[test]
fn styles_without_tooltip_are_an_error() {
    let state = state(false);
    let reply = state.handle_request(&Request::CursorTooltipStyles, vec!["dark".to_string()]);
    let value = reply.unwrap_err();
    assert_eq!(value.as_str(), Some("Cursor tooltip is not supported in this build"));
    assert!(value.as_array().is_none());
}

#[test]
fn no_styles_are_an_empty_array() {
    let value = texts_value(Vec::new());
    assert_eq!(value.as_array().map(|items| items.len()), Some(0));
}

#[test]
fn texts_in_an_array_are_strings() {
    let value = texts_value(vec!["ä".to_string()]);
    let items = value.as_array().unwrap();
    assert_eq!(items[0].as_str(), Some("ä"));
    assert!(items[0].as_array().is_none());
}

fn slots(name: &str) -> Vec<ColorSlot> {
    vec![ColorSlot { name: name.to_string(), hl_id: 7 }]
}

#[test]
fn gui_colors_go_to_the_components() {
    let mut state = state(false);
    let turn = plugin(
        &mut state,
        GnvimEvent::SetGuiColors(GuiColors {
            pmenu: slots("p"),
            tabline: slots("t"),
            cmdline: slots("c"),
            wildmenu: slots("w"),
        }),
    );
    assert_eq!(
        turn.actions,
        vec![
            Action::Popupmenu(MenuOp::SetColors(slots("p"))),
            Action::Tabline(TablineOp::SetColors(slots("t"))),
            Action::Cmdline(CmdlineOp::SetColors(slots("c"))),
            Action::Cmdline(CmdlineOp::WildmenuSetColors(slots("w"))),
        ]
    );
}

#[test]
fn popupmenu_options_go_to_the_popupmenu() {
    let mut state = state(false);
    let cases = vec![
        (GnvimEvent::CompletionMenuToggleInfo, MenuOp::ToggleShowInfo),
        (GnvimEvent::PopupmenuWidth(300), MenuOp::SetWidth(300)),
        (GnvimEvent::PopupmenuWidth((1 << 32) + 5), MenuOp::SetWidth(5)),
        (GnvimEvent::PopupmenuWidthDetails(1 << 31), MenuOp::SetWidthDetails(i32::MIN)),
        (
            GnvimEvent::PopupmenuShowMenuOnAllItems(true),
            MenuOp::SetShowMenuOnAllItems(true),
        ),
    ];
    for (event, op) in cases {
        let turn = plugin(&mut state, event);
        assert_eq!(turn.actions, vec![Action::Popupmenu(op)]);
        assert_eq!(turn.ask, None);
    }
}

#[test]
fn unknown_plugin_event_is_only_noted() {
    let mut state = state(true);
    let turn = plugin(&mut state, GnvimEvent::Unknown("x".to_string()));
    assert_eq!(
        turn.actions,
        vec![Action::Note(Note::UnknownGnvimEvent("x".to_string()))]
    );
    assert_eq!(turn.ask, None);
}

#[test]
fn tooltip_events_without_tooltip_are_refused() {
    let mut state = state(false);
    let events = vec![
        GnvimEvent::CursorTooltipLoadStyle("p".to_string()),
        GnvimEvent::CursorTooltipShow("c".to_string(), 1, 2),
        GnvimEvent::CursorTooltipHide,
        GnvimEvent::CursorTooltipSetStyle("s".to_string()),
    ];
    for event in events {
        let turn = plugin(&mut state, event);
        assert_eq!(
            turn.actions,
            vec![Action::Nvim(NvimCall::Command(Command::TooltipUnsupported))]
        );
        assert!(state.idle());
    }
    assert_eq!(
        Command::TooltipUnsupported.text(),
        "echom \"Cursor tooltip not supported in this build\""
    );
}

#[test]
fn tooltip_is_shown_at_a_cell() {
    let mut state = state(true);
    let turn = plugin(&mut state, GnvimEvent::CursorTooltipShow("doc".to_string(), 3, 4));
    assert_eq!(
        turn.actions,
        vec![Action::CursorTooltip(TooltipOp::Show("doc".to_string()))]
    );
    assert_eq!(turn.ask, Some(Query::RectForCell { grid: 1, row: 3, col: 4 }));
    assert!(!state.idle());
    let rect = Rect { x: 1, y: 2, width: 3, height: 4 };
    assert!(!state.fits(&Answer::Flag(true)));
    assert!(state.fits(&Answer::Rect(rect)));
    let turn = state.resume(Answer::Rect(rect));
    assert_eq!(turn.actions, vec![Action::CursorTooltip(TooltipOp::MoveTo(rect))]);
    assert!(state.idle());
}

#[test]
fn tooltip_styles_are_loaded_and_set() {
    let mut state = state(true);
    let turn = plugin(&mut state, GnvimEvent::CursorTooltipLoadStyle("p.css".to_string()));
    assert_eq!(turn.actions, vec![]);
    assert_eq!(turn.ask, Some(Query::LoadStyle("p.css".to_string())));
    let turn = state.resume(Answer::Loaded(Ok(())));
    assert_eq!(turn.actions, vec![]);
    assert!(state.idle());

    plugin(&mut state, GnvimEvent::CursorTooltipLoadStyle("q.css".to_string()));
    let turn = state.resume(Answer::Loaded(Err("gone".to_string())));
    let command = Command::StyleUnloadable("gone".to_string());
    assert_eq!(command.text(), "echom \"Cursor tooltip load style failed: 'gone'\"");
    assert_eq!(turn.actions, vec![Action::Nvim(NvimCall::Command(command))]);

    let turn = plugin(&mut state, GnvimEvent::CursorTooltipSetStyle("dark".to_string()));
    assert_eq!(
        turn.actions,
        vec![Action::CursorTooltip(TooltipOp::SetStyle("dark".to_string()))]
    );
    let turn = plugin(&mut state, GnvimEvent::CursorTooltipHide);
    assert_eq!(turn.actions, vec![Action::CursorTooltip(TooltipOp::Hide)]);
}

#[test]
fn scroll_command_has_its_words() {
    assert_eq!(
        Command::Scrolled.text(),
        "if exists('#User#GnvimScroll') | doautocmd User GnvimScroll | endif"
    );
}

#[test]
fn last_size_is_sent_once() {
    let mut timer = ResizeTimer::new();
    let first = timer.schedule(5, 70, 20);
    assert_eq!(first, Scheduled { removed: None, inhibit: false });
    assert_eq!(timer.schedule(6, 75, 22).removed, Some(5));
    assert_eq!(timer.schedule(7, 80, 24).removed, Some(6));
    assert_eq!(timer.pending, Some(Pending { source: 7, cols: 80, rows: 24 }));
    let fired = timer.fire();
    assert_eq!(fired.call, Some(NvimCall::TryResize { cols: 80, rows: 24 }));
    assert!(!fired.again);
    assert_eq!(timer.pending, None);
    assert_eq!(timer.fire().call, None);
}

#[test]
fn dropped_size_is_not_sent() {
    let mut timer = ResizeTimer::new();
    assert_eq!(timer.cancel(), None);
    timer.schedule(8, 1, 2);
    assert_eq!(timer.cancel(), Some(8));
    assert_eq!(timer.pending, None);
    assert_eq!(timer.fire().call, None);
    assert_eq!(timer.schedule(9, 3, 4).removed, None);
    assert_eq!(RESIZE_DELAY, 30);
}

#[test]
fn colors_are_written_in_hex() {
    assert_eq!(Color { r: 0, g: 171, b: 255 }.to_hex(), "00abff");
    assert_eq!(Color::default().to_hex(), "000000");
    assert_eq!(Color { r: 16, g: 9, b: 10 }.to_hex(), "10090a");
}

#[test]
fn background_is_a_style_sheet() {
    assert_eq!(
        background_css(Color { r: 1, g: 2, b: 3 }),
        "* {
                            background: #010203;
                        }"
    );
}

#[test]
fn highlights_are_defined_and_changed() {
    let mut defs = HlDefs::default();
    assert_eq!(defs.get(&3), None);
    assert!(defs.get_mut(&3).is_none());
    let bold = Highlight { bold: true, ..Highlight::default() };
    let italic = Highlight { italic: true, ..Highlight::default() };
    assert_eq!(defs.insert(3, bold), None);
    assert_eq!(defs.insert(4, bold), None);
    assert_eq!(defs.insert(3, italic), Some(bold));
    assert_eq!(defs.get(&3), Some(&italic));
    defs.get_mut(&3).unwrap().underline = true;
    assert_eq!(defs.get(&3), Some(&Highlight { underline: true, ..italic }));
    assert_eq!(defs.get(&4), Some(&bold));
    assert_eq!(defs.default_fg, Color::default());
}
