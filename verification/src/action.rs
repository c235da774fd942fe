//! What the core asks of the widgets and of Neovim, and what it is told back.

use vstd::prelude::*;

use crate::color::Color;
use crate::event::{
    BlockLine, CmdlineBlockShow, CmdlineShow, ColorSlot, CompletionItem, GridLine, ModeInfo,
    Region, TablineUpdate,
};

verus! {

/// A font.
#[derive(Debug, PartialEq)]
pub enum Font {
    /// The font that is taken where none was named, or none that can be used.
    Fallback,
    /// The font that the option `guifont` describes in these words.
    Guifont(String),
}

impl Clone for Font {
    fn clone(&self) -> (font: Self)
        ensures
            font == *self,
    {
        match self {
            Font::Fallback => Font::Fallback,
            Font::Guifont(name) => Font::Guifont(name.clone()),
        }
    }
}

/// A rectangle on screen, in pixels.
#[derive(Clone, Copy, Debug, PartialEq)]
pub struct Rect {
    pub x: i32,
    pub y: i32,
    pub width: i32,
    pub height: i32,
}

/// Size of a grid in cells, and of a cell in pixels.
#[derive(Clone, Copy, Debug, PartialEq)]
pub struct GridMetrics {
    pub rows: u64,
    pub cols: u64,
    pub cell_width: u64,
    pub cell_height: u64,
}

/// What a grid widget is to do.
#[derive(Debug, PartialEq)]
pub enum GridOp {
    PutLine(GridLine),
    SetActive(bool),
    Tick,
    CursorGoto { row: u64, col: u64 },
    Resize { width: u64, height: u64 },
    SetMode(ModeInfo),
    Clear,
    Scroll { reg: Region, rows: i64, cols: i64 },
    Redraw,
    SetBusy(bool),
    Flush,
    UpdateCellMetrics { font: Font, line_space: i64 },
}

/// The containers that the frames of windows are placed in.
#[derive(Clone, Copy, Debug, PartialEq, Eq, Structural)]
pub enum Container {
    /// For windows that do not float.
    Windows,
    /// For windows that float.
    Floats,
    /// For the messages.
    Messages,
}

/// What is to be done with the frame around a window.
#[derive(Clone, Copy, Debug, PartialEq)]
pub enum FrameOp {
    /// Make the frame.
    Create,
    /// Put the frame in a container, at a place.
    Put { container: Container, x: i32, y: i32 },
    /// Put the widget of a grid in the frame.
    AddGrid(i64),
    /// Move the frame to a place in its container.
    Move { container: Container, x: i32, y: i32 },
    SizeRequest { width: i32, height: i32 },
    ShowAll,
    Hide,
    /// Show the container and all in it.
    ShowContainer(Container),
    /// Take the frame's child out of the frame, and leave the child alive.
    RemoveChild,
    Destroy,
}

#[derive(Debug, PartialEq)]
pub enum MenuOp {
    SetItems(Vec<CompletionItem>),
    SetAnchor(Rect),
    Select(i32),
    Show,
    Hide,
    SetColors(Vec<ColorSlot>),
    ToggleShowInfo,
    SetWidth(i32),
    SetWidthDetails(i32),
    SetShowMenuOnAllItems(bool),
    SetFont(Font),
    SetLineSpace(i64),
}

#[derive(Debug, PartialEq)]
pub enum CmdlineOp {
    Show(CmdlineShow),
    Hide,
    SetPos { pos: u64, level: u64 },
    ShowSpecialChar { character: String, shift: bool, level: u64 },
    ShowBlock(CmdlineBlockShow),
    BlockAppend(BlockLine),
    HideBlock,
    WildmenuShow(Vec<String>),
    WildmenuHide,
    WildmenuSelect(i64),
    SetColors(Vec<ColorSlot>),
    WildmenuSetColors(Vec<ColorSlot>),
    SetFont(Font),
    SetLineSpace(i64),
}

#[derive(Debug, PartialEq)]
pub enum TablineOp {
    Update(TablineUpdate),
    SetColors(Vec<ColorSlot>),
    SetFont(Font),
    SetLineSpace(i64),
}

/// The side of the cursor that the cursor tooltip is held to.
#[derive(Clone, Copy, Debug, PartialEq)]
pub enum Gravity {
    Up,
    Down,
}

#[derive(Debug, PartialEq)]
pub enum TooltipOp {
    Show(String),
    MoveTo(Rect),
    Hide,
    SetStyle(String),
    SetColors { fg: Color, bg: Color },
    SetFont(Font),
    ForceGravity(Option<Gravity>),
    RefreshPosition,
}

/// A command for Neovim.
#[derive(Debug, PartialEq)]
pub enum Command {
    /// Tell the user that an event of the plugin could not be read.
    NotifyUnreadable(String),
    /// Tell the user that there is no cursor tooltip.
    TooltipUnsupported,
    /// Tell the user that a style of the cursor tooltip could not be loaded.
    StyleUnloadable(String),
    /// Let the user's scripts know that a grid has scrolled.
    Scrolled,
}

/// The words of a command.
pub open spec fn command_text(command: Command) -> Seq<char> {
    match command {
        Command::NotifyUnreadable(err) => "echom \"Failed to parse gnvim notify: '"@ + err@
            + "'\""@,
        Command::TooltipUnsupported => "echom \"Cursor tooltip not supported in this build\""@,
        Command::StyleUnloadable(err) => "echom \"Cursor tooltip load style failed: '"@ + err@
            + "'\""@,
        Command::Scrolled =>
            "if exists('#User#GnvimScroll') | doautocmd User GnvimScroll | endif"@,
    }
}

impl Command {
    /// The words of the command.
    pub fn text(&self) -> (text: String)
        ensures
            text@ == command_text(*self),
    {
        match self {
            Command::NotifyUnreadable(err) => {
                let mut text: String = "echom \"Failed to parse gnvim notify: '".to_owned();
                text.append(err.as_str());
                text.append("'\"");
                text
            },
            Command::TooltipUnsupported => {
                "echom \"Cursor tooltip not supported in this build\"".to_owned()
            },
            Command::StyleUnloadable(err) => {
                let mut text: String = "echom \"Cursor tooltip load style failed: '".to_owned();
                text.append(err.as_str());
                text.append("'\"");
                text
            },
            Command::Scrolled => {
                "if exists('#User#GnvimScroll') | doautocmd User GnvimScroll | endif".to_owned()
            },
        }
    }
}

/// What Neovim is to do.
#[derive(Debug, PartialEq)]
pub enum NvimCall {
    Command(Command),
    TryResize { cols: i64, rows: i64 },
}

/// Something that whoever looks after the program may want to know.
#[derive(Debug, PartialEq)]
pub enum Note {
    /// A redraw event came in that is not known, by this name.
    UnknownRedrawEvent(String),
    /// An option was set that is not supported, by this name.
    UnsupportedOption(String),
    /// An event of the plugin came in that is not known, in these words.
    UnknownGnvimEvent(String),
    /// A grid is dropped.
    GridDropped(i64),
    /// A window that floats is made.
    FloatMade,
}

/// One thing to do. A list of actions is carried out in order.
#[allow(inconsistent_fields)]
#[derive(Debug, PartialEq)]
pub enum Action {
    SetTitle(String),
    SetDefaultSize { width: i32, height: i32 },
    /// Make what the main window needs on screen.
    RealizeMainWindow,
    ShowMainWindow,
    CloseMainWindow,
    /// Give the main window this background.
    SetBackground(Color),
    /// Make the widget of a grid.
    CreateGrid { grid: i64, font: Font, line_space: i64, cols: usize, rows: usize },
    /// Make the grid the one that all windows lie over.
    AddToOverlay(i64),
    /// Let the size of the grid's widget decide the size of Neovim's screen.
    TrackSize(i64),
    /// Pass what the mouse does over the grid on to Neovim.
    AttachGridEvents(i64),
    /// Tell the input method where the grid's cursor is.
    SetImContext(i64),
    /// Drop the widget of a grid.
    DestroyGrid(i64),
    Grid { grid: i64, op: GridOp },
    /// Act on the frame of the window that shows a grid.
    Window { grid: i64, op: FrameOp },
    /// Act on the frame of the message window.
    MsgWindow(FrameOp),
    Popupmenu(MenuOp),
    Cmdline(CmdlineOp),
    Tabline(TablineOp),
    CursorTooltip(TooltipOp),
    /// Drop a delayed resize, if there is one.
    CancelResize,
    Nvim(NvimCall),
    /// Write down a note.
    Note(Note),
}

/// A question to the widgets. It is put to them once the actions that came with
/// it are done.
#[derive(Debug, PartialEq)]
pub enum Query {
    /// Is there a font by these words? Answered by [`Answer::FontUsable`].
    ParseFont(String),
    /// Which font and line space has the grid? Answered by [`Answer::Style`].
    GridStyle(i64),
    /// How many cells fit in the grid's widget? Answered by [`Answer::Size`].
    CalcSize(i64),
    /// Where is a cell of a grid? Answered by [`Answer::Rect`].
    RectForCell { grid: i64, row: u64, col: u64 },
    /// Is the cursor tooltip on screen? Answered by [`Answer::Flag`].
    TooltipVisible,
    /// Is the popup menu above its anchor? Answered by [`Answer::Flag`].
    MenuAboveAnchor,
    /// Load a style of the cursor tooltip. Answered by [`Answer::Loaded`].
    LoadStyle(String),
    /// How big is the grid? Answered by [`Answer::Metrics`].
    Metrics(i64),
    /// How big are both grids? Answered by [`Answer::MetricsPair`].
    MetricsPair { anchor: i64, grid: i64 },
    /// Has the frame of the window a child? Answered by [`Answer::Flag`].
    HasChild(i64),
}

/// What the widgets answer.
#[derive(Debug, PartialEq)]
pub enum Answer {
    FontUsable(bool),
    Style { font: Font, line_space: i64 },
    Size { cols: usize, rows: usize },
    Rect(Rect),
    Flag(bool),
    Loaded(Result<(), String>),
    Metrics(GridMetrics),
    MetricsPair { anchor: GridMetrics, grid: GridMetrics },
}

/// What is to be done now: the actions first, and the question after them.
#[derive(Debug, PartialEq)]
pub struct Turn {
    pub actions: Vec<Action>,
    pub ask: Option<Query>,
}

/// The user is told in these words, with the reason between quotes where there is
/// one, and scripts are told only where they listen.
pub proof fn law_commands_have_their_words(err: String)
    ensures
        command_text(Command::NotifyUnreadable(err))
            == "echom \"Failed to parse gnvim notify: '"@ + err@ + "'\""@,
        command_text(Command::StyleUnloadable(err))
            == "echom \"Cursor tooltip load style failed: '"@ + err@ + "'\""@,
        command_text(Command::TooltipUnsupported)
            == "echom \"Cursor tooltip not supported in this build\""@,
        command_text(Command::Scrolled)
            == "if exists('#User#GnvimScroll') | doautocmd User GnvimScroll | endif"@,
{
}

} // verus!
