//! The interface as a whole: how it starts, and what it does with what comes in
//! while it runs.

use std::collections::{HashMap, VecDeque};

use neovim_lib::Value;
use vstd::prelude::*;

use crate::action::{
    Action, CmdlineOp, Container, Font, FrameOp, GridOp, TooltipOp, Turn,
};
use crate::color::{plain_highlight, Color, Highlight};
use crate::event::{Notify, Request};
use crate::grids::Grids;
use crate::hl_defs::{no_highlights, HlDefs, HlView};
use crate::laws::{
    law_always_wf, law_current_grid_always_there, law_react_keeps_wf, within_batch, Input,
};
use crate::model::{is_step, on_grid, on_messages, optional, Model, Stage, MAIN_GRID};
use crate::request::is_reply;
use crate::state::{push_message_ops, UIState};
use crate::window::{new_frame, MsgWindow};

verus! {

/// Milliseconds between two ticks of the current grid.
pub const TICK_INTERVAL: u32 = 33;

/// The interface before it runs.
pub struct UI {
    /// What the interface knows.
    pub state: UIState,
}

/// What a new interface knows: the main grid, in a font that is named, and
/// the highlight 0.
pub open spec fn is_new(m: Model, tooltip: bool) -> bool {
    &&& m.windows =~= Map::empty()
    &&& m.messages == Container::Messages
    &&& m.grids =~= seq![MAIN_GRID]
    &&& m.hl =~= (HlView {
        defs: Map::empty().insert(0, plain_highlight()),
        ..no_highlights()
    })
    &&& m.mode_infos =~= Seq::empty()
    &&& m.current_mode is None
    &&& m.current_grid == MAIN_GRID
    &&& m.resize_on_flush is None
    &&& m.font matches Font::Guifont(name)
    &&& name@ == "Monospace:h12"@
    &&& m.line_space == 0
    &&& m.tooltip == tooltip
    &&& m.idle()
}

/// What puts a new interface on screen.
pub open spec fn startup(
    title: String,
    window_size: (i32, i32),
    font: Font,
    tooltip: bool,
) -> Seq<Action> {
    seq![
        Action::SetTitle(title),
        Action::SetDefaultSize { width: window_size.0, height: window_size.1 },
        Action::RealizeMainWindow,
        Action::CreateGrid { grid: MAIN_GRID, font, line_space: 0, cols: 80, rows: 30 },
        Action::AddToOverlay(MAIN_GRID),
    ] + on_messages(new_frame(Container::Messages)) + seq![
        Action::TrackSize(MAIN_GRID),
        Action::AttachGridEvents(MAIN_GRID),
        Action::ShowMainWindow,
        Action::SetImContext(MAIN_GRID),
        Action::Cmdline(CmdlineOp::Hide),
    ] + optional(tooltip, Action::CursorTooltip(TooltipOp::Hide))
}

impl UI {
    /// Creates a new interface, and what puts it on screen.
    ///
    /// * `window_size` - Width and height of the main window.
    /// * `tooltip` - Whether there is a cursor tooltip.
    pub fn init(window_size: (i32, i32), tooltip: bool) -> (made: (UI, Vec<Action>))
        ensures
            is_new(made.0.state@, tooltip),
            made.0.state@.wf(),
            made.0.state@.has_grid(made.0.state.current_grid),
            made.1@[0] matches Action::SetTitle(title) && title@ == "Neovim"@ && made.1@
                == startup(title, window_size, made.0.state.font, tooltip),
    {
        // The highlight 0 has to be there for the first grid.
        let mut hl_defs: HlDefs = HlDefs::default();
        hl_defs.insert(0, Highlight::default());

        let font: Font = Font::Guifont("Monospace:h12".to_owned());
        let line_space: i64 = 0;
        let title: String = "Neovim".to_owned();

        let mut actions: Vec<Action> = Vec::new();
        let ghost the_title = title;
        actions.push(Action::SetTitle(title));
        actions.push(Action::SetDefaultSize { width: window_size.0, height: window_size.1 });
        actions.push(Action::RealizeMainWindow);
        actions.push(
            Action::CreateGrid {
                grid: MAIN_GRID,
                font: font.clone(),
                line_space,
                cols: 80,
                rows: 30,
            },
        );
        actions.push(Action::AddToOverlay(MAIN_GRID));
        let (msg_window, ops) = MsgWindow::new(Container::Messages);
        push_message_ops(&mut actions, ops);
        actions.push(Action::TrackSize(MAIN_GRID));
        actions.push(Action::AttachGridEvents(MAIN_GRID));
        actions.push(Action::ShowMainWindow);
        actions.push(Action::SetImContext(MAIN_GRID));
        actions.push(Action::Cmdline(CmdlineOp::Hide));
        if tooltip {
            actions.push(Action::CursorTooltip(TooltipOp::Hide));
        }
        assert(actions@ =~= startup(the_title, window_size, font, tooltip));

        let mut grids = Grids { ids: Vec::new() };
        grids.insert(MAIN_GRID);
        assert(grids.ids@ =~= seq![MAIN_GRID]);
        assert(grids.ids@[0] == MAIN_GRID);
        let state = UIState {
            windows: HashMap::new(),
            msg_window,
            grids,
            hl_defs,
            mode_infos: Vec::new(),
            current_mode: None,
            current_grid: MAIN_GRID,
            resize_on_flush: None,
            font,
            line_space,
            tooltip,
            queue: VecDeque::new(),
            stage: Stage::Idle,
        };
        (UI { state }, actions)
    }

    /// Starts to take what comes in. Think of this as the "main" function of
    /// the interface.
    pub fn start(self) -> (session: Session)
        ensures
            session.state == self.state,
    {
        Session { state: self.state }
    }
}

/// While the interface runs there is always a grid to tick, whatever happens to
/// it, as long as the main grid is not destroyed.
pub proof fn law_there_is_always_a_grid_to_tick(m: Model, tooltip: bool, inputs: Seq<Input>)
    requires
        is_new(m, tooltip),
        m.allows_all(inputs),
        m.all_spare_main(inputs),
    ensures
        m.after(inputs).has_grid(m.after(inputs).current_grid),
{
    assert(m.grids[0] == MAIN_GRID);
    law_current_grid_always_there(m, inputs);
}

/// What comes in from Neovim.
#[derive(Debug, PartialEq)]
pub enum Message {
    Notify(Notify),
    /// A request, and the styles that the cursor tooltip has.
    Request(Request, Vec<String>),
    Close,
}

/// What comes of a message.
pub struct Handled {
    /// What is to be done.
    pub turn: Turn,
    /// The answer to a request.
    pub reply: Option<Result<Value, Value>>,
    /// Whether more messages are listened for.
    pub listening: bool,
}

/// What comes of a tick.
pub struct Ticked {
    /// What is to be done.
    pub action: Action,
    /// Whether there is another tick after this one.
    pub again: bool,
}

/// The interface while it runs.
pub struct Session {
    /// What the interface knows.
    pub state: UIState,
}

/// What comes of `message` is `handled`, and the interface is `after` then.
pub open spec fn is_handled(before: Model, message: Message, after: Model, handled: Handled) -> bool {
    match message {
        Message::Notify(notify) => {
            &&& is_step(before.notify(notify), after, handled.turn)
            &&& handled.reply is None
            &&& handled.listening
        },
        Message::Request(request, styles) => {
            &&& is_step(before.acts(seq![]), after, handled.turn)
            &&& handled.reply matches Some(reply)
            &&& is_reply(before.tooltip, request, styles@, reply)
            &&& handled.listening
        },
        Message::Close => {
            &&& is_step(before.acts(seq![Action::CloseMainWindow]), after, handled.turn)
            &&& handled.reply is None
            &&& !handled.listening
        },
    }
}

/// Whether the interface has what the message speaks of.
pub open spec fn accepts_message(m: Model, message: Message) -> bool {
    match message {
        Message::Notify(notify) => m.accepts_notify(notify),
        _ => true,
    }
}

impl Session {
    /// Tells whether there is a grid to tick.
    pub fn can_tick(&self) -> (can: bool)
        ensures
            can == self.state@.has_grid(self.state.current_grid),
    {
        self.state.grids.contains(self.state.current_grid)
    }

    /// Ticks the current grid. It is ticked again and again.
    pub fn tick(&self) -> (ticked: Ticked)
        requires
            self.state@.has_grid(self.state.current_grid),
        ensures
            ticked.action == on_grid(self.state.current_grid, GridOp::Tick),
            ticked.again,
    {
        Ticked {
            action: Action::Grid { grid: self.state.current_grid, op: GridOp::Tick },
            again: true,
        }
    }

    /// Tells whether the interface has what the message speaks of.
    pub fn accepts(&self, message: &Message) -> (accepted: bool)
        ensures
            accepted == accepts_message(self.state@, *message),
    {
        match message {
            Message::Notify(notify) => self.state.accepts_notify(notify),
            _ => true,
        }
    }

    /// Does what a message asks for.
    pub fn handle_message(&mut self, message: Message) -> (handled: Handled)
        requires
            old(self).state@.wf(),
            old(self).state@.idle(),
            accepts_message(old(self).state@, message),
        ensures
            is_handled(old(self).state@, message, final(self).state@, handled),
            final(self).state@.wf(),
    {
        match message {
            Message::Notify(notify) => {
                let turn: Turn = self.state.handle_notify(notify);
                Handled { turn, reply: None, listening: true }
            },
            Message::Request(request, styles) => {
                let reply: Result<Value, Value> = self.state.handle_request(&request, styles);
                Handled {
                    turn: Turn { actions: Vec::new(), ask: None },
                    reply: Some(reply),
                    listening: true,
                }
            },
            Message::Close => {
                let mut actions: Vec<Action> = Vec::new();
                actions.push(Action::CloseMainWindow);
                Handled { turn: Turn { actions, ask: None }, reply: None, listening: false }
            },
        }
    }
}

/// A message that was handled, and all that followed from it.
pub struct Served {
    pub message: Message,
    /// The interface when the message came in.
    pub before: Model,
    /// What came of the message, and the interface then.
    pub handled: Handled,
    pub taken: Model,
    /// What happened until nothing was in hand any more, and the interface then.
    pub work: Seq<Input>,
    pub after: Model,
}

impl Served {
    /// The message was handled as it should be, and nothing was left in hand.
    pub open spec fn is_complete(self) -> bool {
        &&& self.before.idle()
        &&& accepts_message(self.before, self.message)
        &&& is_handled(self.before, self.message, self.taken, self.handled)
        &&& within_batch(self.work)
        &&& self.taken.allows_all(self.work)
        &&& self.after == self.taken.after(self.work)
        &&& self.after.idle()
    }
}

/// Of the messages that `arrived`, one after the other was handled, in the order
/// in which they came, as long as the interface listened.
pub open spec fn is_served(start: Model, arrived: Seq<Message>, served: Seq<Served>) -> bool {
    &&& served.len() <= arrived.len()
    &&& forall|i: int|
        0 <= i < served.len() ==> #[trigger] served[i].is_complete() && served[i].message
            == arrived[i]
    &&& forall|i: int|
        0 <= i < served.len() ==> #[trigger] served[i].before == if i == 0 {
            start
        } else {
            served[i - 1].after
        }
    &&& forall|i: int| 0 <= i < served.len() - 1 ==> #[trigger] served[i].handled.listening
}

/// No message is left to handle, or none is listened for any more.
pub open spec fn is_over(arrived: Seq<Message>, served: Seq<Served>) -> bool {
    served.len() == arrived.len() || (served.len() > 0 && !served.last().handled.listening)
}

/// How many messages there are up to the first that closes the interface, with
/// that one, or in all, if none does.
pub open spec fn until_close(arrived: Seq<Message>) -> nat
    decreases arrived.len(),
{
    if arrived.len() == 0 {
        0
    } else if arrived[0] is Close {
        1
    } else {
        1 + until_close(arrived.drop_first())
    }
}

/// Where none of the first `n` messages but the last closes the interface, and
/// the last does or is the last of all, `n` is how many there are up to there.
proof fn lemma_until_close(arrived: Seq<Message>, n: nat)
    requires
        n <= arrived.len(),
        forall|i: int| 0 <= i < n - 1 ==> !(#[trigger] arrived[i] is Close),
        n == arrived.len() || (n > 0 && arrived[n - 1] is Close),
    ensures
        n == until_close(arrived),
    decreases arrived.len(),
{
    if arrived.len() > 0 && !(arrived[0] is Close) {
        let rest = arrived.drop_first();
        assert forall|i: int| 0 <= i < n - 2 implies !(#[trigger] rest[i] is Close) by {
            assert(rest[i] == arrived[i + 1]);
        }
        lemma_until_close(rest, (n - 1) as nat);
    }
}

/// Messages are handled in the order in which they come, each once, up to the
/// first that closes the interface, and none after that. All messages before it
/// keep the interface listening.
pub proof fn law_nothing_is_handled_after_close(
    start: Model,
    arrived: Seq<Message>,
    served: Seq<Served>,
)
    requires
        is_served(start, arrived, served),
    ensures
        served.len() <= until_close(arrived),
        is_over(arrived, served) ==> served.len() == until_close(arrived),
        forall|i: int|
            0 <= i < served.len() ==> (#[trigger] served[i].handled.listening <==> !(arrived[i]
                is Close)),
        forall|i: int| 0 <= i < served.len() - 1 ==> !(#[trigger] arrived[i] is Close),
{
    assert forall|i: int| 0 <= i < served.len() implies (#[trigger] served[i].handled.listening
        <==> !(arrived[i] is Close)) by {
        assert(served[i].is_complete());
    }
    assert forall|i: int| 0 <= i < served.len() - 1 implies !(#[trigger] arrived[i] is Close) by {
        assert(served[i].handled.listening);
    }
    let first = arrived.take(served.len() as int);
    assert forall|i: int| 0 <= i < first.len() - 1 implies !(#[trigger] first[i] is Close) by {
        assert(first[i] == arrived[i]);
    }
    lemma_until_close(first, served.len());
    lemma_until_close_grows(arrived, served.len() as int);
    if is_over(arrived, served) {
        if served.len() < arrived.len() {
            assert(served[served.len() - 1].is_complete());
        }
        lemma_until_close(arrived, served.len());
    }
}

/// Messages that come later do not make the first that closes come earlier.
proof fn lemma_until_close_grows(arrived: Seq<Message>, n: int)
    requires
        0 <= n <= arrived.len(),
    ensures
        until_close(arrived.take(n)) <= until_close(arrived),
    decreases arrived.len(),
{
    if n > 0 && !(arrived[0] is Close) {
        assert(arrived.take(n).drop_first() =~= arrived.drop_first().take(n - 1));
        lemma_until_close_grows(arrived.drop_first(), n - 1);
    }
}

/// However many messages are handled, the interface is well-formed before each of
/// them and after it.
pub proof fn law_served_messages_keep_wf(
    start: Model,
    arrived: Seq<Message>,
    served: Seq<Served>,
    i: int,
)
    requires
        start.wf(),
        is_served(start, arrived, served),
        0 <= i < served.len(),
    ensures
        served[i].before.wf(),
        served[i].after.wf(),
    decreases i,
{
    if i > 0 {
        law_served_messages_keep_wf(start, arrived, served, i - 1);
    }
    let one = served[i];
    assert(one.before == if i == 0 {
        start
    } else {
        served[i - 1].after
    });
    assert(one.is_complete());
    if let Message::Notify(notify) = one.message {
        reveal(Model::allows);
        reveal(Model::react);
        law_react_keeps_wf(one.before, Input::Notify(notify));
    }
    law_always_wf(one.taken, one.work);
}

/// A new interface has the first grid, which is the current one, in the font that
/// it starts with and with no line space. Only the highlight 0 is defined, and it
/// asks for nothing; nothing is put off, shown or in hand.
pub proof fn law_new_interface_has_one_grid(m: Model, tooltip: bool)
    requires
        is_new(m, tooltip),
    ensures
        m.grids == seq![1i64],
        m.current_grid == 1,
        m.font matches Font::Guifont(name) && name@ == "Monospace:h12"@,
        m.line_space == 0,
        m.tooltip == tooltip,
        m.messages == Container::Messages,
        m.current_mode is None,
        m.mode_infos.len() == 0,
        m.resize_on_flush is None,
        m.queue.len() == 0,
        m.stage is Idle,
        forall|id: i64| !(#[trigger] m.windows.contains_key(id)),
        forall|id: u64| #[trigger] m.hl.defs.contains_key(id) <==> id == 0,
        m.hl.defs[0] == (Highlight {
            foreground: None,
            background: None,
            special: None,
            reverse: false,
            italic: false,
            bold: false,
            underline: false,
            undercurl: false,
        }),
        m.hl.default_fg == (Color { r: 0, g: 0, b: 0 }),
        m.hl.default_bg == (Color { r: 0, g: 0, b: 0 }),
        m.hl.default_sp == (Color { r: 0, g: 0, b: 0 }),
{
}

/// A new interface comes on screen in this order: the window has its title and
/// its size before it is made, the first grid is made in it, as large as it
/// starts out, and takes part in everything before the window is shown. What is
/// not to be seen at first is hidden after that.
pub proof fn law_startup_comes_in_order(
    title: String,
    window_size: (i32, i32),
    font: Font,
    tooltip: bool,
)
    ensures
        ({
            let actions = startup(title, window_size, font, tooltip);
            &&& actions.len() == if tooltip {
                13int
            } else {
                12int
            }
            &&& actions[0] == Action::SetTitle(title)
            &&& actions[1] == (Action::SetDefaultSize {
                width: window_size.0,
                height: window_size.1,
            })
            &&& actions[2] == Action::RealizeMainWindow
            &&& actions[3] == (Action::CreateGrid {
                grid: 1,
                font,
                line_space: 0,
                cols: 80,
                rows: 30,
            })
            &&& actions[4] == Action::AddToOverlay(1)
            &&& actions[5] == Action::MsgWindow(FrameOp::Create)
            &&& actions[6] == Action::MsgWindow(
                FrameOp::Put { container: Container::Messages, x: 0, y: 0 },
            )
            &&& actions[7] == Action::TrackSize(1)
            &&& actions[8] == Action::AttachGridEvents(1)
            &&& actions[9] == Action::ShowMainWindow
            &&& actions[10] == Action::SetImContext(1)
            &&& actions[11] == Action::Cmdline(CmdlineOp::Hide)
            &&& tooltip ==> actions[12] == Action::CursorTooltip(TooltipOp::Hide)
        }),
{
}

/// A notification is done with as it says, and answered with nothing. A request
/// is answered, and changes nothing. Closing closes the main window, changes
/// nothing else, and is the one message after which no other is listened for.
pub proof fn law_messages_are_told_apart(
    before: Model,
    message: Message,
    after: Model,
    handled: Handled,
)
    requires
        is_handled(before, message, after, handled),
    ensures
        handled.listening <==> !(message is Close),
        handled.reply is Some <==> message is Request,
        match message {
            Message::Notify(notify) => {
                &&& after == before.notify(notify).next
                &&& handled.turn.actions@ == before.notify(notify).actions
                &&& handled.turn.ask == before.notify(notify).ask
            },
            Message::Request(request, styles) => {
                &&& after == before
                &&& handled.turn.actions@.len() == 0
                &&& handled.turn.ask is None
                &&& is_reply(before.tooltip, request, styles@, handled.reply->0)
            },
            Message::Close => {
                &&& after == before
                &&& handled.turn.actions@ == seq![Action::CloseMainWindow]
                &&& handled.turn.ask is None
            },
        },
{
}

/// Only a notification can speak of something that is not there.
pub proof fn law_requests_and_closing_always_go(m: Model, message: Message)
    ensures
        match message {
            Message::Notify(notify) => accepts_message(m, message) <==> m.accepts_notify(notify),
            _ => accepts_message(m, message),
        },
{
}

/// The current grid is ticked thirty times a second, roughly: once in so many
/// milliseconds.
pub proof fn law_ticks_are_milliseconds_apart()
    ensures
        TICK_INTERVAL == 33,
{
}

} // verus!
