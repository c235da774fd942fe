//! What Neovim tells the user interface.
//!
//! Neovim sends its redraw events in batches, each event with the arguments of
//! all its calls. [`RedrawEvent`] is such an event and [`RedrawItem`] is one
//! call of it; [`push_items`] takes the events apart.

use std::collections::VecDeque;

use neovim_lib::neovim_api::Window as NvimWindow;
use vstd::prelude::*;

use crate::color::{Color, Highlight};

verus! {

/// Neovim's handle of a window, which is carried along and never looked into.
#[verifier::external_type_specification]
#[verifier::external_body]
pub struct ExNvimWindow(NvimWindow);

/// Some text in one highlight, `repeat` times.
#[derive(Debug, PartialEq)]
pub struct Cell {
    pub text: String,
    pub hl_id: u64,
    pub repeat: u64,
}

/// A piece of a line of a grid.
#[derive(Debug, PartialEq)]
pub struct GridLine {
    pub grid: i64,
    pub row: u64,
    pub col_start: u64,
    pub cells: Vec<Cell>,
}

#[derive(Clone, Copy, Debug, PartialEq)]
pub struct GridCursorGoto {
    pub grid: i64,
    pub row: u64,
    pub col: u64,
}

#[derive(Clone, Copy, Debug, PartialEq)]
pub struct GridResize {
    pub grid: i64,
    pub width: u64,
    pub height: u64,
}

/// The part of a grid that scrolls.
#[derive(Clone, Copy, Debug, PartialEq)]
pub struct Region {
    pub top: u64,
    pub bot: u64,
    pub left: u64,
    pub right: u64,
}

#[derive(Clone, Copy, Debug, PartialEq)]
pub struct GridScroll {
    pub grid: i64,
    pub reg: Region,
    pub rows: i64,
    pub cols: i64,
}

#[derive(Clone, Copy, Debug, PartialEq)]
pub struct DefaultColorsSet {
    pub fg: Color,
    pub bg: Color,
    pub sp: Color,
}

#[derive(Clone, Copy, Debug, PartialEq)]
pub struct HlAttrDefine {
    pub id: u64,
    pub hl: Highlight,
}

#[derive(Debug, PartialEq)]
pub enum OptionSet {
    GuiFont(String),
    LineSpace(i64),
    NotSupported(String),
}

#[derive(Clone, Copy, Debug, PartialEq)]
pub enum CursorShape {
    Block,
    Horizontal,
    Vertical,
}

/// How the cursor looks in a mode.
#[derive(Clone, Copy, Debug, PartialEq)]
pub struct ModeInfo {
    pub cursor_shape: CursorShape,
    pub cell_percentage: u64,
    pub blink_on: u64,
}

#[derive(Debug, PartialEq)]
pub struct ModeInfoSet {
    pub cursor_style_enabled: bool,
    pub mode_info: Vec<ModeInfo>,
}

#[derive(Debug, PartialEq)]
pub struct ModeChange {
    pub name: String,
    pub index: u64,
}

/// A choice in the popup menu.
#[derive(Debug, PartialEq)]
pub struct CompletionItem {
    pub word: String,
    pub kind: String,
    pub menu: String,
    pub info: String,
}

#[derive(Debug, PartialEq)]
pub struct PopupmenuShow {
    pub items: Vec<CompletionItem>,
    pub selected: i64,
    pub row: u64,
    pub col: u64,
    pub grid: i64,
}

#[derive(Debug, PartialEq)]
pub struct Tab {
    pub handle: i64,
    pub name: String,
}

#[derive(Debug, PartialEq)]
pub struct TablineUpdate {
    pub current: i64,
    pub tabs: Vec<Tab>,
}

/// Some text in one highlight.
#[derive(Debug, PartialEq)]
pub struct Chunk {
    pub hl_id: u64,
    pub text: String,
}

#[derive(Debug, PartialEq)]
pub struct CmdlineShow {
    pub content: Vec<Chunk>,
    pub pos: u64,
    pub firstc: String,
    pub prompt: String,
    pub indent: u64,
    pub level: u64,
}

#[derive(Clone, Copy, Debug, PartialEq)]
pub struct CmdlinePos {
    pub pos: u64,
    pub level: u64,
}

#[derive(Debug, PartialEq)]
pub struct CmdlineSpecialChar {
    pub character: String,
    pub shift: bool,
    pub level: u64,
}

/// A line of a command line block.
#[derive(Debug, PartialEq)]
pub struct BlockLine {
    pub content: Vec<Chunk>,
}

#[derive(Debug, PartialEq)]
pub struct CmdlineBlockShow {
    pub lines: Vec<BlockLine>,
}

#[derive(Debug, PartialEq)]
pub struct WildmenuShow {
    pub items: Vec<String>,
}

/// Place of a window that does not float, in cells of the main grid.
#[derive(Debug, PartialEq)]
pub struct WindowPos {
    pub grid: i64,
    pub win: NvimWindow,
    pub start_row: u64,
    pub start_col: u64,
    pub width: u64,
    pub height: u64,
}

/// Place of a window that floats, in cells of the grid it is anchored to.
#[derive(Debug, PartialEq)]
pub struct WindowFloatPos {
    pub grid: i64,
    pub win: NvimWindow,
    pub anchor_grid: i64,
    pub anchor_row: u64,
    pub anchor_col: u64,
}

#[derive(Clone, Copy, Debug, PartialEq)]
pub struct MsgSetPos {
    pub grid: i64,
    pub row: u64,
}

/// An event of a redraw batch, with the arguments of all its calls.
#[derive(Debug, PartialEq)]
pub enum RedrawEvent {
    SetTitle(Vec<String>),
    GridLine(Vec<GridLine>),
    GridCursorGoto(Vec<GridCursorGoto>),
    GridResize(Vec<GridResize>),
    GridClear(Vec<i64>),
    GridDestroy(Vec<i64>),
    GridScroll(Vec<GridScroll>),
    DefaultColorsSet(Vec<DefaultColorsSet>),
    HlAttrDefine(Vec<HlAttrDefine>),
    OptionSet(Vec<OptionSet>),
    ModeInfoSet(Vec<ModeInfoSet>),
    ModeChange(Vec<ModeChange>),
    SetBusy(bool),
    Flush(),
    PopupmenuShow(Vec<PopupmenuShow>),
    PopupmenuHide(),
    PopupmenuSelect(Vec<i64>),
    TablineUpdate(Vec<TablineUpdate>),
    CmdlineShow(Vec<CmdlineShow>),
    CmdlineHide(),
    CmdlinePos(Vec<CmdlinePos>),
    CmdlineSpecialChar(Vec<CmdlineSpecialChar>),
    CmdlineBlockShow(Vec<CmdlineBlockShow>),
    CmdlineBlockAppend(Vec<BlockLine>),
    CmdlineBlockHide(),
    WildmenuShow(Vec<WildmenuShow>),
    WildmenuHide(),
    WildmenuSelect(Vec<i64>),
    WindowPos(Vec<WindowPos>),
    WindowFloatPos(Vec<WindowFloatPos>),
    WindowHide(Vec<i64>),
    WindowClose(Vec<i64>),
    MsgSetPos(Vec<MsgSetPos>),
    /// An event that is known, and known to need nothing.
    Ignored(String),
    /// An event that is not known.
    Unknown(String),
}

/// One call of a redraw event.
#[derive(Debug, PartialEq)]
pub enum RedrawItem {
    SetTitle(String),
    GridLine(GridLine),
    GridCursorGoto(GridCursorGoto),
    GridResize(GridResize),
    GridClear(i64),
    GridDestroy(i64),
    GridScroll(GridScroll),
    DefaultColorsSet(DefaultColorsSet),
    HlAttrDefine(HlAttrDefine),
    OptionSet(OptionSet),
    ModeInfoSet(ModeInfoSet),
    ModeChange(ModeChange),
    SetBusy(bool),
    Flush,
    PopupmenuShow(PopupmenuShow),
    PopupmenuHide,
    PopupmenuSelect(i64),
    TablineUpdate(TablineUpdate),
    CmdlineShow(CmdlineShow),
    CmdlineHide,
    CmdlinePos(CmdlinePos),
    CmdlineSpecialChar(CmdlineSpecialChar),
    CmdlineBlockShow(CmdlineBlockShow),
    CmdlineBlockAppend(BlockLine),
    CmdlineBlockHide,
    WildmenuShow(WildmenuShow),
    WildmenuHide,
    WildmenuSelect(i64),
    WindowPos(WindowPos),
    WindowFloatPos(WindowFloatPos),
    WindowHide(i64),
    WindowClose(i64),
    MsgSetPos(MsgSetPos),
    /// An event that is not known.
    Unknown(String),
}

/// A slot of a component's colours and the highlight that fills it.
#[derive(Debug, PartialEq)]
pub struct ColorSlot {
    pub name: String,
    pub hl_id: u64,
}

/// Colours for the components that Neovim does not draw itself.
#[derive(Debug, PartialEq)]
pub struct GuiColors {
    pub pmenu: Vec<ColorSlot>,
    pub tabline: Vec<ColorSlot>,
    pub cmdline: Vec<ColorSlot>,
    pub wildmenu: Vec<ColorSlot>,
}

/// An event of the interface's own plugin.
#[derive(Debug, PartialEq)]
pub enum GnvimEvent {
    SetGuiColors(GuiColors),
    CompletionMenuToggleInfo,
    PopupmenuWidth(u64),
    PopupmenuWidthDetails(u64),
    PopupmenuShowMenuOnAllItems(bool),
    CursorTooltipLoadStyle(String),
    CursorTooltipShow(String, u64, u64),
    CursorTooltipHide,
    CursorTooltipSetStyle(String),
    Unknown(String),
}

/// A notification from Neovim.
#[derive(Debug, PartialEq)]
pub enum Notify {
    RedrawEvent(Vec<RedrawEvent>),
    /// An event of the plugin, or why it could not be read.
    GnvimEvent(Result<GnvimEvent, String>),
}

/// A request from Neovim, which waits for an answer.
#[derive(Clone, Copy, Debug, PartialEq)]
pub enum Request {
    CursorTooltipStyles,
}

/// The calls of one event, in order.
pub open spec fn items_of(event: RedrawEvent) -> Seq<RedrawItem> {
    match event {
        RedrawEvent::SetTitle(v) => v@.map_values(|x: String| RedrawItem::SetTitle(x)),
        RedrawEvent::GridLine(v) => v@.map_values(|x: GridLine| RedrawItem::GridLine(x)),
        RedrawEvent::GridCursorGoto(v) => v@.map_values(
            |x: GridCursorGoto| RedrawItem::GridCursorGoto(x),
        ),
        RedrawEvent::GridResize(v) => v@.map_values(|x: GridResize| RedrawItem::GridResize(x)),
        RedrawEvent::GridClear(v) => v@.map_values(|x: i64| RedrawItem::GridClear(x)),
        RedrawEvent::GridDestroy(v) => v@.map_values(|x: i64| RedrawItem::GridDestroy(x)),
        RedrawEvent::GridScroll(v) => v@.map_values(|x: GridScroll| RedrawItem::GridScroll(x)),
        RedrawEvent::DefaultColorsSet(v) => v@.map_values(
            |x: DefaultColorsSet| RedrawItem::DefaultColorsSet(x),
        ),
        RedrawEvent::HlAttrDefine(v) => v@.map_values(
            |x: HlAttrDefine| RedrawItem::HlAttrDefine(x),
        ),
        RedrawEvent::OptionSet(v) => v@.map_values(|x: OptionSet| RedrawItem::OptionSet(x)),
        RedrawEvent::ModeInfoSet(v) => v@.map_values(|x: ModeInfoSet| RedrawItem::ModeInfoSet(x)),
        RedrawEvent::ModeChange(v) => v@.map_values(|x: ModeChange| RedrawItem::ModeChange(x)),
        RedrawEvent::SetBusy(busy) => seq![RedrawItem::SetBusy(busy)],
        RedrawEvent::Flush() => seq![RedrawItem::Flush],
        RedrawEvent::PopupmenuShow(v) => v@.map_values(
            |x: PopupmenuShow| RedrawItem::PopupmenuShow(x),
        ),
        RedrawEvent::PopupmenuHide() => seq![RedrawItem::PopupmenuHide],
        RedrawEvent::PopupmenuSelect(v) => v@.map_values(|x: i64| RedrawItem::PopupmenuSelect(x)),
        RedrawEvent::TablineUpdate(v) => v@.map_values(
            |x: TablineUpdate| RedrawItem::TablineUpdate(x),
        ),
        RedrawEvent::CmdlineShow(v) => v@.map_values(|x: CmdlineShow| RedrawItem::CmdlineShow(x)),
        RedrawEvent::CmdlineHide() => seq![RedrawItem::CmdlineHide],
        RedrawEvent::CmdlinePos(v) => v@.map_values(|x: CmdlinePos| RedrawItem::CmdlinePos(x)),
        RedrawEvent::CmdlineSpecialChar(v) => v@.map_values(
            |x: CmdlineSpecialChar| RedrawItem::CmdlineSpecialChar(x),
        ),
        RedrawEvent::CmdlineBlockShow(v) => v@.map_values(
            |x: CmdlineBlockShow| RedrawItem::CmdlineBlockShow(x),
        ),
        RedrawEvent::CmdlineBlockAppend(v) => v@.map_values(
            |x: BlockLine| RedrawItem::CmdlineBlockAppend(x),
        ),
        RedrawEvent::CmdlineBlockHide() => seq![RedrawItem::CmdlineBlockHide],
        RedrawEvent::WildmenuShow(v) => v@.map_values(
            |x: WildmenuShow| RedrawItem::WildmenuShow(x),
        ),
        RedrawEvent::WildmenuHide() => seq![RedrawItem::WildmenuHide],
        RedrawEvent::WildmenuSelect(v) => v@.map_values(|x: i64| RedrawItem::WildmenuSelect(x)),
        RedrawEvent::WindowPos(v) => v@.map_values(|x: WindowPos| RedrawItem::WindowPos(x)),
        RedrawEvent::WindowFloatPos(v) => v@.map_values(
            |x: WindowFloatPos| RedrawItem::WindowFloatPos(x),
        ),
        RedrawEvent::WindowHide(v) => v@.map_values(|x: i64| RedrawItem::WindowHide(x)),
        RedrawEvent::WindowClose(v) => v@.map_values(|x: i64| RedrawItem::WindowClose(x)),
        RedrawEvent::MsgSetPos(v) => v@.map_values(|x: MsgSetPos| RedrawItem::MsgSetPos(x)),
        RedrawEvent::Ignored(_) => seq![],
        RedrawEvent::Unknown(name) => seq![RedrawItem::Unknown(name)],
    }
}

/// The calls of a batch of events, in order.
pub open spec fn items_of_all(events: Seq<RedrawEvent>) -> Seq<RedrawItem>
    decreases events.len(),
{
    if events.len() == 0 {
        seq![]
    } else {
        items_of_all(events.drop_last()) + items_of(events.last())
    }
}

/// Puts `wrap` of each element of `v` at the end of `queue`.
fn push_all<T, F: Fn(T) -> RedrawItem>(
    queue: &mut VecDeque<RedrawItem>,
    v: Vec<T>,
    wrap: F,
    Ghost(item): Ghost<spec_fn(T) -> RedrawItem>,
)
    requires
        forall|x: T| call_requires(wrap, (x,)),
        forall|x: T, y: RedrawItem| call_ensures(wrap, (x,), y) ==> y == item(x),
    ensures
        final(queue)@ == old(queue)@ + v@.map_values(item),
{
    let ghost whole = v@;
    for x in it: v.into_iter()
        invariant
            it.seq() == whole,
            forall|x: T| call_requires(wrap, (x,)),
            forall|x: T, y: RedrawItem| call_ensures(wrap, (x,), y) ==> y == item(x),
            queue@ == old(queue)@ + whole.take(it.index()).map_values(item),
    {
        let ghost before = queue@;
        queue.push_back(wrap(x));
        proof {
            let i = it.index();
            assert(whole.take(i + 1) =~= whole.take(i).push(whole[i]));
            assert(queue@ =~= old(queue)@ + whole.take(i + 1).map_values(item));
        }
    }
    assert(whole.take(whole.len() as int) =~= whole);
}

/// Puts the calls of `event` at the end of `queue`, in order.
pub fn push_items(queue: &mut VecDeque<RedrawItem>, event: RedrawEvent)
    ensures
        final(queue)@ == old(queue)@ + items_of(event),
{
    match event {
        RedrawEvent::SetTitle(v) => push_all(
            queue,
            v,
            |x: String| -> (y: RedrawItem)
                ensures
                    y == RedrawItem::SetTitle(x)
                { RedrawItem::SetTitle(x) },
            Ghost(|x: String| RedrawItem::SetTitle(x)),
        ),
        RedrawEvent::GridLine(v) => push_all(
            queue,
            v,
            |x: GridLine| -> (y: RedrawItem)
                ensures
                    y == RedrawItem::GridLine(x)
                { RedrawItem::GridLine(x) },
            Ghost(|x: GridLine| RedrawItem::GridLine(x)),
        ),
        RedrawEvent::GridCursorGoto(v) => push_all(
            queue,
            v,
            |x: GridCursorGoto| -> (y: RedrawItem)
                ensures
                    y == RedrawItem::GridCursorGoto(x)
                { RedrawItem::GridCursorGoto(x) },
            Ghost(|x: GridCursorGoto| RedrawItem::GridCursorGoto(x)),
        ),
        RedrawEvent::GridResize(v) => push_all(
            queue,
            v,
            |x: GridResize| -> (y: RedrawItem)
                ensures
                    y == RedrawItem::GridResize(x)
                { RedrawItem::GridResize(x) },
            Ghost(|x: GridResize| RedrawItem::GridResize(x)),
        ),
        RedrawEvent::GridClear(v) => push_all(
            queue,
            v,
            |x: i64| -> (y: RedrawItem)
                ensures
                    y == RedrawItem::GridClear(x)
                { RedrawItem::GridClear(x) },
            Ghost(|x: i64| RedrawItem::GridClear(x)),
        ),
        RedrawEvent::GridDestroy(v) => push_all(
            queue,
            v,
            |x: i64| -> (y: RedrawItem)
                ensures
                    y == RedrawItem::GridDestroy(x)
                { RedrawItem::GridDestroy(x) },
            Ghost(|x: i64| RedrawItem::GridDestroy(x)),
        ),
        RedrawEvent::GridScroll(v) => push_all(
            queue,
            v,
            |x: GridScroll| -> (y: RedrawItem)
                ensures
                    y == RedrawItem::GridScroll(x)
                { RedrawItem::GridScroll(x) },
            Ghost(|x: GridScroll| RedrawItem::GridScroll(x)),
        ),
        RedrawEvent::DefaultColorsSet(v) => push_all(
            queue,
            v,
            |x: DefaultColorsSet| -> (y: RedrawItem)
                ensures
                    y == RedrawItem::DefaultColorsSet(x)
                { RedrawItem::DefaultColorsSet(x) },
            Ghost(|x: DefaultColorsSet| RedrawItem::DefaultColorsSet(x)),
        ),
        RedrawEvent::HlAttrDefine(v) => push_all(
            queue,
            v,
            |x: HlAttrDefine| -> (y: RedrawItem)
                ensures
                    y == RedrawItem::HlAttrDefine(x)
                { RedrawItem::HlAttrDefine(x) },
            Ghost(|x: HlAttrDefine| RedrawItem::HlAttrDefine(x)),
        ),
        RedrawEvent::OptionSet(v) => push_all(
            queue,
            v,
            |x: OptionSet| -> (y: RedrawItem)
                ensures
                    y == RedrawItem::OptionSet(x)
                { RedrawItem::OptionSet(x) },
            Ghost(|x: OptionSet| RedrawItem::OptionSet(x)),
        ),
        RedrawEvent::ModeInfoSet(v) => push_all(
            queue,
            v,
            |x: ModeInfoSet| -> (y: RedrawItem)
                ensures
                    y == RedrawItem::ModeInfoSet(x)
                { RedrawItem::ModeInfoSet(x) },
            Ghost(|x: ModeInfoSet| RedrawItem::ModeInfoSet(x)),
        ),
        RedrawEvent::ModeChange(v) => push_all(
            queue,
            v,
            |x: ModeChange| -> (y: RedrawItem)
                ensures
                    y == RedrawItem::ModeChange(x)
                { RedrawItem::ModeChange(x) },
            Ghost(|x: ModeChange| RedrawItem::ModeChange(x)),
        ),
        RedrawEvent::SetBusy(busy) => queue.push_back(RedrawItem::SetBusy(busy)),
        RedrawEvent::Flush() => queue.push_back(RedrawItem::Flush),
        RedrawEvent::PopupmenuShow(v) => push_all(
            queue,
            v,
            |x: PopupmenuShow| -> (y: RedrawItem)
                ensures
                    y == RedrawItem::PopupmenuShow(x)
                { RedrawItem::PopupmenuShow(x) },
            Ghost(|x: PopupmenuShow| RedrawItem::PopupmenuShow(x)),
        ),
        RedrawEvent::PopupmenuHide() => queue.push_back(RedrawItem::PopupmenuHide),
        RedrawEvent::PopupmenuSelect(v) => push_all(
            queue,
            v,
            |x: i64| -> (y: RedrawItem)
                ensures
                    y == RedrawItem::PopupmenuSelect(x)
                { RedrawItem::PopupmenuSelect(x) },
            Ghost(|x: i64| RedrawItem::PopupmenuSelect(x)),
        ),
        RedrawEvent::TablineUpdate(v) => push_all(
            queue,
            v,
            |x: TablineUpdate| -> (y: RedrawItem)
                ensures
                    y == RedrawItem::TablineUpdate(x)
                { RedrawItem::TablineUpdate(x) },
            Ghost(|x: TablineUpdate| RedrawItem::TablineUpdate(x)),
        ),
        RedrawEvent::CmdlineShow(v) => push_all(
            queue,
            v,
            |x: CmdlineShow| -> (y: RedrawItem)
                ensures
                    y == RedrawItem::CmdlineShow(x)
                { RedrawItem::CmdlineShow(x) },
            Ghost(|x: CmdlineShow| RedrawItem::CmdlineShow(x)),
        ),
        RedrawEvent::CmdlineHide() => queue.push_back(RedrawItem::CmdlineHide),
        RedrawEvent::CmdlinePos(v) => push_all(
            queue,
            v,
            |x: CmdlinePos| -> (y: RedrawItem)
                ensures
                    y == RedrawItem::CmdlinePos(x)
                { RedrawItem::CmdlinePos(x) },
            Ghost(|x: CmdlinePos| RedrawItem::CmdlinePos(x)),
        ),
        RedrawEvent::CmdlineSpecialChar(v) => push_all(
            queue,
            v,
            |x: CmdlineSpecialChar| -> (y: RedrawItem)
                ensures
                    y == RedrawItem::CmdlineSpecialChar(x)
                { RedrawItem::CmdlineSpecialChar(x) },
            Ghost(|x: CmdlineSpecialChar| RedrawItem::CmdlineSpecialChar(x)),
        ),
        RedrawEvent::CmdlineBlockShow(v) => push_all(
            queue,
            v,
            |x: CmdlineBlockShow| -> (y: RedrawItem)
                ensures
                    y == RedrawItem::CmdlineBlockShow(x)
                { RedrawItem::CmdlineBlockShow(x) },
            Ghost(|x: CmdlineBlockShow| RedrawItem::CmdlineBlockShow(x)),
        ),
        RedrawEvent::CmdlineBlockAppend(v) => push_all(
            queue,
            v,
            |x: BlockLine| -> (y: RedrawItem)
                ensures
                    y == RedrawItem::CmdlineBlockAppend(x)
                { RedrawItem::CmdlineBlockAppend(x) },
            Ghost(|x: BlockLine| RedrawItem::CmdlineBlockAppend(x)),
        ),
        RedrawEvent::CmdlineBlockHide() => queue.push_back(RedrawItem::CmdlineBlockHide),
        RedrawEvent::WildmenuShow(v) => push_all(
            queue,
            v,
            |x: WildmenuShow| -> (y: RedrawItem)
                ensures
                    y == RedrawItem::WildmenuShow(x)
                { RedrawItem::WildmenuShow(x) },
            Ghost(|x: WildmenuShow| RedrawItem::WildmenuShow(x)),
        ),
        RedrawEvent::WildmenuHide() => queue.push_back(RedrawItem::WildmenuHide),
        RedrawEvent::WildmenuSelect(v) => push_all(
            queue,
            v,
            |x: i64| -> (y: RedrawItem)
                ensures
                    y == RedrawItem::WildmenuSelect(x)
                { RedrawItem::WildmenuSelect(x) },
            Ghost(|x: i64| RedrawItem::WildmenuSelect(x)),
        ),
        RedrawEvent::WindowPos(v) => push_all(
            queue,
            v,
            |x: WindowPos| -> (y: RedrawItem)
                ensures
                    y == RedrawItem::WindowPos(x)
                { RedrawItem::WindowPos(x) },
            Ghost(|x: WindowPos| RedrawItem::WindowPos(x)),
        ),
        RedrawEvent::WindowFloatPos(v) => push_all(
            queue,
            v,
            |x: WindowFloatPos| -> (y: RedrawItem)
                ensures
                    y == RedrawItem::WindowFloatPos(x)
                { RedrawItem::WindowFloatPos(x) },
            Ghost(|x: WindowFloatPos| RedrawItem::WindowFloatPos(x)),
        ),
        RedrawEvent::WindowHide(v) => push_all(
            queue,
            v,
            |x: i64| -> (y: RedrawItem)
                ensures
                    y == RedrawItem::WindowHide(x)
                { RedrawItem::WindowHide(x) },
            Ghost(|x: i64| RedrawItem::WindowHide(x)),
        ),
        RedrawEvent::WindowClose(v) => push_all(
            queue,
            v,
            |x: i64| -> (y: RedrawItem)
                ensures
                    y == RedrawItem::WindowClose(x)
                { RedrawItem::WindowClose(x) },
            Ghost(|x: i64| RedrawItem::WindowClose(x)),
        ),
        RedrawEvent::MsgSetPos(v) => push_all(
            queue,
            v,
            |x: MsgSetPos| -> (y: RedrawItem)
                ensures
                    y == RedrawItem::MsgSetPos(x)
                { RedrawItem::MsgSetPos(x) },
            Ghost(|x: MsgSetPos| RedrawItem::MsgSetPos(x)),
        ),
        RedrawEvent::Ignored(_) => {},
        RedrawEvent::Unknown(name) => queue.push_back(RedrawItem::Unknown(name)),
    }
}

/// Puts the calls of all `events` at the end of `queue`, in order.
pub fn push_batch(queue: &mut VecDeque<RedrawItem>, events: Vec<RedrawEvent>)
    ensures
        final(queue)@ == old(queue)@ + items_of_all(events@),
{
    let ghost whole = events@;
    for event in it: events.into_iter()
        invariant
            it.seq() == whole,
            queue@ == old(queue)@ + items_of_all(whole.take(it.index())),
    {
        push_items(queue, event);
        proof {
            let i = it.index();
            assert(whole.take(i + 1).drop_last() =~= whole.take(i));
            assert(whole.take(i + 1).last() == whole[i]);
            assert(queue@ =~= old(queue)@ + items_of_all(whole.take(i + 1)));
        }
    }
    assert(whole.take(whole.len() as int) =~= whole);
}

} // verus!
