//! The windows that show grids, and the frames around them.

use neovim_lib::neovim_api::Window as NvimWindow;
use vstd::prelude::*;

use crate::action::{Container, FrameOp, GridMetrics};

verus! {

/// Makes a frame at the corner of `container`.
pub open spec fn new_frame(container: Container) -> Seq<FrameOp> {
    seq![FrameOp::Create, FrameOp::Put { container, x: 0, y: 0 }]
}

/// Makes a frame at the corner of `container`, around the widget of `grid`.
pub open spec fn new_grid_frame(container: Container, grid: i64) -> Seq<FrameOp> {
    new_frame(container).push(FrameOp::AddGrid(grid))
}

/// Moves a frame in `container` and gives it a size. Where a number is too
/// large for the toolkit, its low 32 bits are taken.
pub open spec fn place_frame(container: Container, x: u64, y: u64, w: u64, h: u64) -> Seq<FrameOp> {
    seq![
        FrameOp::Move { container, x: x as i32, y: y as i32 },
        FrameOp::SizeRequest { width: w as i32, height: h as i32 },
    ]
}

/// Takes the frame away, and leaves the child alive that it may have.
pub open spec fn drop_frame(has_child: bool) -> Seq<FrameOp> {
    if has_child {
        seq![FrameOp::RemoveChild, FrameOp::Destroy]
    } else {
        seq![FrameOp::Destroy]
    }
}

/// Whether the size and the place of the message window can be computed.
pub open spec fn msg_fits(metrics: GridMetrics, row: u64) -> bool {
    &&& metrics.cols * metrics.cell_width <= u64::MAX
    &&& metrics.rows * metrics.cell_height <= u64::MAX
    &&& metrics.cell_height * row <= u64::MAX
}

/// Gives the message window the size of a grid with these metrics, and puts it at
/// `row` of that grid's cells.
pub open spec fn place_messages(
    container: Container,
    metrics: GridMetrics,
    row: u64,
) -> Seq<FrameOp> {
    seq![
        FrameOp::SizeRequest {
            width: (metrics.cols * metrics.cell_width) as u64 as i32,
            height: (metrics.rows * metrics.cell_height) as u64 as i32,
        },
        FrameOp::Move { container, x: 0, y: (metrics.cell_height * row) as u64 as i32 },
        FrameOp::ShowContainer(container),
    ]
}

/// The product of two numbers, where it fits.
pub(crate) fn product(a: u64, b: u64) -> (p: u64)
    requires
        a * b <= u64::MAX,
    ensures
        p == a * b,
{
    assert(0 <= a * b) by (nonlinear_arith);
    a * b
}

/// The window for messages.
pub struct MsgWindow {
    pub container: Container,
}

impl MsgWindow {
    /// A message window in `container`, and what makes its frame.
    pub fn new(container: Container) -> (made: (MsgWindow, Vec<FrameOp>))
        ensures
            made.0.container == container,
            made.1@ == new_frame(container),
    {
        let mut ops: Vec<FrameOp> = Vec::new();
        ops.push(FrameOp::Create);
        ops.push(FrameOp::Put { container, x: 0, y: 0 });
        assert(ops@ =~= new_frame(container));
        (MsgWindow { container }, ops)
    }

    /// Takes in `grid`. Its metrics, which [`MsgWindow::set_pos`] needs, are
    /// asked for after that.
    pub fn add_grid(&self, grid: i64) -> (op: FrameOp)
        ensures
            op == FrameOp::AddGrid(grid),
    {
        FrameOp::AddGrid(grid)
    }

    /// Shows the grid that was taken in, which has these metrics, from `row` on.
    pub fn set_pos(&self, metrics: GridMetrics, row: u64) -> (ops: Vec<FrameOp>)
        requires
            msg_fits(metrics, row),
        ensures
            ops@ == place_messages(self.container, metrics, row),
    {
        let w: u64 = product(metrics.cols, metrics.cell_width);
        let h: u64 = product(metrics.rows, metrics.cell_height);
        let y: u64 = product(metrics.cell_height, row);
        let mut ops: Vec<FrameOp> = Vec::new();
        ops.push(FrameOp::SizeRequest { width: w as i32, height: h as i32 });
        ops.push(FrameOp::Move { container: self.container, x: 0, y: y as i32 });
        ops.push(FrameOp::ShowContainer(self.container));
        assert(ops@ =~= place_messages(self.container, metrics, row));
        ops
    }
}

/// A window.
#[derive(Debug, PartialEq)]
pub struct Window {
    pub container: Container,
    pub x: u64,
    pub y: u64,
    /// Currently shown grid's id.
    pub grid_id: i64,
    pub nvim_win: NvimWindow,
}

/// The window as it is made.
pub open spec fn new_window(win: NvimWindow, container: Container, grid: i64) -> Window {
    Window { container, x: 0, y: 0, grid_id: grid, nvim_win: win }
}

impl Window {
    /// A window in `container` that shows `grid`, and what makes its frame.
    pub fn new(win: NvimWindow, container: Container, grid: i64) -> (made: (
        Window,
        Vec<FrameOp>,
    ))
        ensures
            made.0 == new_window(win, container, grid),
            made.1@ == new_grid_frame(container, grid),
    {
        let mut ops: Vec<FrameOp> = Vec::new();
        ops.push(FrameOp::Create);
        ops.push(FrameOp::Put { container, x: 0, y: 0 });
        ops.push(FrameOp::AddGrid(grid));
        assert(ops@ =~= new_grid_frame(container, grid));
        (Window { container, x: 0, y: 0, grid_id: grid, nvim_win: win }, ops)
    }

    /// Moves the window in its container and gives it a size.
    pub fn set_position(&mut self, x: u64, y: u64, w: u64, h: u64) -> (ops: Vec<FrameOp>)
        ensures
            *final(self) == (Window { x, y, ..*old(self) }),
            ops@ == place_frame(old(self).container, x, y, w, h),
    {
        self.x = x;
        self.y = y;
        let mut ops: Vec<FrameOp> = Vec::new();
        ops.push(FrameOp::Move { container: self.container, x: x as i32, y: y as i32 });
        ops.push(FrameOp::SizeRequest { width: w as i32, height: h as i32 });
        assert(ops@ =~= place_frame(old(self).container, x, y, w, h));
        ops
    }

    /// Shows the window and all in it.
    pub fn show(&self) -> (op: FrameOp)
        ensures
            op == FrameOp::ShowAll,
    {
        FrameOp::ShowAll
    }

    /// Hides the window.
    pub fn hide_window(&self) -> (op: FrameOp)
        ensures
            op == FrameOp::Hide,
    {
        FrameOp::Hide
    }

    /// What is left to do when the window is gone: its frame goes too, and the
    /// child that the frame may have is taken out first.
    pub fn released(has_child: bool) -> (ops: Vec<FrameOp>)
        ensures
            ops@ == drop_frame(has_child),
    {
        let mut ops: Vec<FrameOp> = Vec::new();
        if has_child {
            ops.push(FrameOp::RemoveChild);
        }
        ops.push(FrameOp::Destroy);
        assert(ops@ =~= drop_frame(has_child));
        ops
    }
}

/// A window is made at the corner of the container that it is for, around the
/// grid that it is for, and is that window to Neovim. The message window is made
/// in the same way, with no grid in it.
pub proof fn law_window_is_made_at_the_corner(win: NvimWindow, container: Container, grid: i64)
    ensures
        ({
            let window = new_window(win, container, grid);
            let put = FrameOp::Put { container, x: 0, y: 0 };
            &&& window.x == 0
            &&& window.y == 0
            &&& window.container == container
            &&& window.grid_id == grid
            &&& window.nvim_win == win
            &&& new_frame(container) == seq![FrameOp::Create, put]
            &&& new_grid_frame(container, grid) == seq![
                FrameOp::Create,
                put,
                FrameOp::AddGrid(grid),
            ]
        }),
{
    let put = FrameOp::Put { container, x: 0, y: 0 };
    assert(new_grid_frame(container, grid) =~= seq![
        FrameOp::Create,
        put,
        FrameOp::AddGrid(grid),
    ]);
}

/// A frame goes to the place that it is given, across and down, and asks for the
/// width and the height that it is given, to the pixel wherever the toolkit can
/// hold the number.
pub proof fn law_frame_is_where_it_is_put(container: Container, x: u64, y: u64, w: u64, h: u64)
    ensures
        place_frame(container, x, y, w, h) == seq![
            FrameOp::Move { container, x: x as i32, y: y as i32 },
            FrameOp::SizeRequest { width: w as i32, height: h as i32 },
        ],
        x <= i32::MAX && y <= i32::MAX && w <= i32::MAX && h <= i32::MAX ==> {
            &&& (place_frame(container, x, y, w, h)[0] matches FrameOp::Move { x: left, y: top, .. }
                && left == x && top == y)
            &&& (place_frame(container, x, y, w, h)[1] matches FrameOp::SizeRequest {
                width,
                height,
            } && width == w && height == h)
        },
{
}

/// What a frame holds is taken out before the frame goes, and nothing is taken
/// out of an empty one.
pub proof fn law_child_outlives_its_frame()
    ensures
        drop_frame(true) == seq![FrameOp::RemoveChild, FrameOp::Destroy],
        drop_frame(false) == seq![FrameOp::Destroy],
{
}

/// The message window is as wide as the columns of its grid and as high as its
/// rows, lies at the left, `row` cell heights down, and is shown with its
/// container. It can be placed wherever these numbers can be held.
pub proof fn law_message_window_is_sized_by_its_grid(
    container: Container,
    metrics: GridMetrics,
    row: u64,
)
    ensures
        place_messages(container, metrics, row) == seq![
            FrameOp::SizeRequest {
                width: (metrics.cols * metrics.cell_width) as u64 as i32,
                height: (metrics.rows * metrics.cell_height) as u64 as i32,
            },
            FrameOp::Move { container, x: 0, y: (metrics.cell_height * row) as u64 as i32 },
            FrameOp::ShowContainer(container),
        ],
        msg_fits(metrics, row) <==> {
            &&& metrics.cols * metrics.cell_width <= u64::MAX
            &&& metrics.rows * metrics.cell_height <= u64::MAX
            &&& metrics.cell_height * row <= u64::MAX
        },
{
}

} // verus!
