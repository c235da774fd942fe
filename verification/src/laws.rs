//! What is so of the interface, whatever happens.

use vstd::prelude::*;

use crate::action::{Action, Answer, FrameOp, GridOp, Query};
use crate::event::{items_of_all, GnvimEvent, Notify, RedrawEvent, RedrawItem};
use crate::grids::{lemma_push, lemma_without};
use crate::model::{on_grid, Model, Stage, Step, MAIN_GRID};

verus! {

/// The interface is well-formed after a call of a redraw event, if it was
/// before.
pub proof fn law_redraw_keeps_wf(m: Model, item: RedrawItem)
    requires
        m.wf(),
        m.stage is Idle,
        m.accepts(item),
    ensures
        m.redraw(item).next.wf(),
{
    match item {
        RedrawItem::GridResize(event) => {
            if !m.has_grid(event.grid) {
                lemma_push(m.grids, event.grid);
            }
        },
        RedrawItem::GridDestroy(grid) => {
            lemma_without(m.grids, grid);
        },
        _ => {},
    }
}

/// The interface is well-formed after an event of the plugin, if it was before.
pub proof fn law_gnvim_keeps_wf(m: Model, event: GnvimEvent)
    requires
        m.wf(),
        m.stage is Idle,
        m.accepts_gnvim(event),
    ensures
        m.gnvim(event).next.wf(),
{
}

/// The interface is well-formed after an answer, if it was before.
pub proof fn law_resume_keeps_wf(m: Model, answer: Answer)
    requires
        m.wf(),
        m.fits(answer),
    ensures
        m.resume(answer).next.wf(),
{
}

/// One thing that happens to the interface.
pub enum Input {
    /// A notification comes in.
    Notify(Notify),
    /// The next call of the batch in hand is taken.
    Take,
    /// The question that was put is answered.
    Answer(Answer),
}

impl Model {
    /// `input` can happen now.
    #[verifier::opaque]
    pub open spec fn allows(self, input: Input) -> bool {
        match input {
            Input::Notify(notify) => self.idle() && self.accepts_notify(notify),
            Input::Take => self.ready(),
            Input::Answer(answer) => self.fits(answer),
        }
    }

    /// What comes of `input`.
    #[verifier::opaque]
    pub open spec fn react(self, input: Input) -> Step {
        match input {
            Input::Notify(notify) => self.notify(notify),
            Input::Take => self.step(),
            Input::Answer(answer) => self.resume(answer),
        }
    }

    /// All of `inputs` can happen, one after the other.
    pub open spec fn allows_all(self, inputs: Seq<Input>) -> bool
        decreases inputs.len(),
    {
        inputs.len() == 0 || (self.allows_all(inputs.drop_last()) && self.after(
            inputs.drop_last(),
        ).allows(inputs.last()))
    }

    /// The interface after all of `inputs`.
    pub open spec fn after(self, inputs: Seq<Input>) -> Model
        decreases inputs.len(),
    {
        if inputs.len() == 0 {
            self
        } else {
            self.after(inputs.drop_last()).react(inputs.last()).next
        }
    }

    /// Everything that is done in the course of `inputs`.
    pub open spec fn trace(self, inputs: Seq<Input>) -> Seq<Action>
        decreases inputs.len(),
    {
        if inputs.len() == 0 {
            seq![]
        } else {
            self.trace(inputs.drop_last()) + self.after(inputs.drop_last()).react(
                inputs.last(),
            ).actions
        }
    }

    /// `input` does not destroy the main grid.
    pub open spec fn spares_main(self, input: Input) -> bool {
        input is Take ==> self.queue[0] != RedrawItem::GridDestroy(MAIN_GRID)
    }

    /// None of `inputs` destroys the main grid.
    pub open spec fn all_spare_main(self, inputs: Seq<Input>) -> bool
        decreases inputs.len(),
    {
        inputs.len() == 0 || (self.all_spare_main(inputs.drop_last()) && self.after(
            inputs.drop_last(),
        ).spares_main(inputs.last()))
    }
}

/// Whatever can happen to a well-formed interface leaves it well-formed.
pub proof fn law_react_keeps_wf(m: Model, input: Input)
    requires
        m.wf(),
        m.allows(input),
    ensures
        m.react(input).next.wf(),
{
    reveal(Model::allows);
    reveal(Model::react);
    match input {
        Input::Notify(Notify::GnvimEvent(Ok(event))) => law_gnvim_keeps_wf(m, event),
        Input::Notify(_) => {},
        Input::Take => law_redraw_keeps_wf(
            Model { queue: m.queue.drop_first(), ..m },
            m.queue[0],
        ),
        Input::Answer(answer) => law_resume_keeps_wf(m, answer),
    }
}

/// However much happens to a well-formed interface, it stays well-formed.
pub proof fn law_always_wf(m: Model, inputs: Seq<Input>)
    requires
        m.wf(),
        m.allows_all(inputs),
    ensures
        m.after(inputs).wf(),
    decreases inputs.len(),
{
    if inputs.len() > 0 {
        law_always_wf(m, inputs.drop_last());
        law_react_keeps_wf(m.after(inputs.drop_last()), inputs.last());
    }
}

/// While the main grid is there, so is the current grid: there is always a grid
/// to tick.
pub proof fn law_current_grid_is_there(m: Model)
    requires
        m.wf(),
        m.has_grid(MAIN_GRID),
    ensures
        m.has_grid(m.current_grid),
{
}

/// The main grid goes only by being destroyed.
pub proof fn law_main_grid_stays(m: Model, input: Input)
    requires
        m.wf(),
        m.allows(input),
        m.has_grid(MAIN_GRID),
        m.spares_main(input),
    ensures
        m.react(input).next.has_grid(MAIN_GRID),
{
    reveal(Model::allows);
    reveal(Model::react);
    if input is Take {
        match m.queue[0] {
            RedrawItem::GridResize(event) => {
                if !m.has_grid(event.grid) {
                    lemma_push(m.grids, event.grid);
                }
            },
            RedrawItem::GridDestroy(grid) => {
                lemma_without(m.grids, grid);
            },
            _ => {},
        }
    }
}

/// However much happens, the current grid is there, as long as the main grid was
/// there at the start and is never destroyed.
pub proof fn law_current_grid_always_there(m: Model, inputs: Seq<Input>)
    requires
        m.wf(),
        m.has_grid(MAIN_GRID),
        m.allows_all(inputs),
        m.all_spare_main(inputs),
    ensures
        m.after(inputs).has_grid(MAIN_GRID),
        m.after(inputs).has_grid(m.after(inputs).current_grid),
    decreases inputs.len(),
{
    if inputs.len() > 0 {
        let before = m.after(inputs.drop_last());
        law_current_grid_always_there(m, inputs.drop_last());
        law_always_wf(m, inputs.drop_last());
        law_main_grid_stays(before, inputs.last());
        law_react_keeps_wf(before, inputs.last());
    }
}

/// What `action` acts on is there when it is done: it was there, or it has just
/// been made. What is made was not there, and what is taken away was.
pub open spec fn has_target(before: Model, after: Model, action: Action) -> bool {
    match action {
        Action::CreateGrid { grid, .. } => !before.has_grid(grid) && after.has_grid(grid),
        Action::DestroyGrid(grid) => before.has_grid(grid) && !after.has_grid(grid),
        Action::AttachGridEvents(grid) => after.has_grid(grid),
        Action::Grid { grid, .. } => after.has_grid(grid),
        Action::Window { grid, op } => match op {
            FrameOp::Create => !before.has_window(grid) && after.has_window(grid),
            FrameOp::AddGrid(shown) => after.has_window(grid) && after.has_grid(shown),
            FrameOp::RemoveChild => before.stage == Stage::Closing(grid),
            FrameOp::Destroy => before.stage == Stage::Closing(grid),
            _ => after.has_window(grid),
        },
        Action::MsgWindow(FrameOp::AddGrid(shown)) => after.has_grid(shown),
        _ => true,
    }
}

/// What `ask` asks about is there.
pub open spec fn has_subject(before: Model, after: Model, ask: Query) -> bool {
    match ask {
        Query::GridStyle(grid) => after.has_grid(grid),
        Query::CalcSize(grid) => after.has_grid(grid),
        Query::RectForCell { grid, .. } => after.has_grid(grid),
        Query::Metrics(grid) => after.has_grid(grid),
        Query::MetricsPair { anchor, grid } => after.has_grid(anchor) && after.has_grid(grid),
        Query::HasChild(grid) => before.has_window(grid),
        _ => true,
    }
}

/// What `step` does and asks has its target.
pub open spec fn has_targets(before: Model, step: Step) -> bool {
    &&& forall|i: int|
        0 <= i < step.actions.len() ==> has_target(before, step.next, #[trigger] step.actions[i])
    &&& step.ask matches Some(ask) ==> has_subject(before, step.next, ask)
}

proof fn lemma_redraw_targets(m: Model, queue: Seq<RedrawItem>, item: RedrawItem)
    requires
        m.wf(),
        m.accepts(item),
    ensures
        has_targets(m, Model { queue, ..m }.redraw(item)),
{
    match item {
        RedrawItem::GridResize(event) => {
            if !m.has_grid(event.grid) {
                lemma_push(m.grids, event.grid);
            }
        },
        RedrawItem::GridDestroy(grid) => {
            lemma_without(m.grids, grid);
        },
        _ => {},
    }
}

proof fn lemma_gnvim_targets(m: Model, event: GnvimEvent)
    requires
        m.wf(),
        m.accepts_gnvim(event),
    ensures
        has_targets(m, m.gnvim(event)),
{
}

proof fn lemma_resume_targets(m: Model, answer: Answer)
    requires
        m.wf(),
        m.fits(answer),
    ensures
        has_targets(m, m.resume(answer)),
{
}

/// Nothing is ever done to a grid or a window that is not there, and nothing is
/// asked about one.
pub proof fn law_targets_are_there(m: Model, input: Input)
    requires
        m.wf(),
        m.allows(input),
    ensures
        has_targets(m, m.react(input)),
{
    reveal(Model::allows);
    reveal(Model::react);
    match input {
        Input::Notify(Notify::GnvimEvent(Ok(event))) => lemma_gnvim_targets(m, event),
        Input::Notify(_) => {},
        Input::Take => lemma_redraw_targets(m, m.queue.drop_first(), m.queue[0]),
        Input::Answer(answer) => lemma_resume_targets(m, answer),
    }
}

/// `answer` is one to `ask`.
pub open spec fn is_answer(ask: Query, answer: Answer) -> bool {
    match ask {
        Query::ParseFont(_) => answer is FontUsable,
        Query::GridStyle(_) => answer is Style,
        Query::CalcSize(_) => answer is Size,
        Query::RectForCell { .. } => answer is Rect,
        Query::TooltipVisible => answer is Flag,
        Query::MenuAboveAnchor => answer is Flag,
        Query::LoadStyle(_) => answer is Loaded,
        Query::Metrics(_) => answer is Metrics,
        Query::MetricsPair { .. } => answer is MetricsPair,
        Query::HasChild(_) => answer is Flag,
    }
}

/// A question is put exactly when an answer is waited for, and what is waited
/// for is an answer to that question.
pub proof fn law_questions_are_waited_for(m: Model, input: Input)
    requires
        m.allows(input),
    ensures
        m.react(input).ask is Some <==> m.react(input).next.stage !is Idle,
        forall|ask: Query, answer: Answer|
            m.react(input).ask == Some(ask) && #[trigger] m.react(input).next.fits(answer)
                ==> #[trigger] is_answer(ask, answer),
{
    reveal(Model::allows);
    reveal(Model::react);
}

/// How many answers an event may still need.
pub open spec fn answers_left(stage: Stage) -> nat {
    match stage {
        Stage::Idle => 0,
        Stage::ParseFont(_) => 2,
        Stage::MenuAnchor { .. } => 3,
        Stage::MenuTooltip => 2,
        _ => 1,
    }
}

/// Every batch comes to an end: a call that is taken leaves one less to take,
/// and an answer leaves fewer answers to wait for.
pub proof fn law_batches_end(m: Model, input: Input)
    requires
        m.allows(input),
    ensures
        input is Take ==> m.react(input).next.queue.len() == m.queue.len() - 1,
        input is Answer ==> {
            &&& m.react(input).next.queue == m.queue
            &&& answers_left(m.react(input).next.stage) < answers_left(m.stage)
        },
{
    reveal(Model::allows);
    reveal(Model::react);
}

/// `step` does nothing to the cursor tooltip, and there is none after it.
pub open spec fn leaves_tooltip(step: Step) -> bool {
    &&& !step.next.tooltip
    &&& forall|i: int|
        0 <= i < step.actions.len() ==> !(#[trigger] step.actions[i] is CursorTooltip)
}

proof fn lemma_redraw_leaves_tooltip(m: Model, item: RedrawItem)
    requires
        !m.tooltip,
    ensures
        leaves_tooltip(m.redraw(item)),
{
}

proof fn lemma_resume_leaves_tooltip(m: Model, answer: Answer)
    requires
        m.wf(),
        !m.tooltip,
    ensures
        leaves_tooltip(m.resume(answer)),
{
}

/// Without a cursor tooltip nothing is ever done to it, and none comes up.
pub proof fn law_no_tooltip_no_action(m: Model, input: Input)
    requires
        m.wf(),
        m.allows(input),
        !m.tooltip,
    ensures
        leaves_tooltip(m.react(input)),
{
    reveal(Model::allows);
    reveal(Model::react);
    match input {
        Input::Notify(_) => {},
        Input::Take => lemma_redraw_leaves_tooltip(
            Model { queue: m.queue.drop_first(), ..m },
            m.queue[0],
        ),
        Input::Answer(answer) => lemma_resume_leaves_tooltip(m, answer),
    }
}

/// `step` drops the delayed message about the size.
pub open spec fn drops_resize(step: Step) -> bool {
    exists|i: int| 0 <= i < step.actions.len() && #[trigger] step.actions[i] is CancelResize
}

proof fn lemma_redraw_keeps_resize(m: Model, item: RedrawItem)
    ensures
        !drops_resize(m.redraw(item)),
{
}

/// The delayed message about the size is dropped by a flush that sends the size
/// itself, and by nothing else.
pub proof fn law_only_a_flush_drops_the_resize(m: Model, input: Input)
    requires
        m.allows(input),
    ensures
        drops_resize(m.react(input)) <==> input is Answer && m.stage is FlushSize,
{
    reveal(Model::allows);
    reveal(Model::react);
    match input {
        Input::Notify(_) => {},
        Input::Take => lemma_redraw_keeps_resize(
            Model { queue: m.queue.drop_first(), ..m },
            m.queue[0],
        ),
        Input::Answer(_) => {
            if m.stage is FlushSize {
                assert(m.react(input).actions[0] is CancelResize);
            }
        },
    }
}

/// What is meant for all grids is done to each of them once.
pub proof fn law_broadcast_reaches_all_once(m: Model, op: GridOp)
    requires
        m.wf(),
    ensures
        m.broadcast(op).no_duplicates(),
        forall|grid: i64|
            m.has_grid(grid) <==> #[trigger] m.broadcast(op).contains(on_grid(grid, op)),
        forall|i: int|
            0 <= i < m.broadcast(op).len() ==> exists|grid: i64|
                #[trigger] m.broadcast(op)[i] == on_grid(grid, op) && m.has_grid(grid),
{
    let all = m.broadcast(op);
    assert forall|grid: i64|
        m.has_grid(grid) <==> #[trigger] all.contains(on_grid(grid, op)) by {
        if m.has_grid(grid) {
            assert(all[m.grids.index_of(grid)] == on_grid(grid, op));
        }
        if all.contains(on_grid(grid, op)) {
            let i = all.index_of(on_grid(grid, op));
            assert(m.grids[i] == grid);
        }
    }
    assert forall|i: int| 0 <= i < all.len() implies exists|grid: i64|
        #[trigger] all[i] == on_grid(grid, op) && m.has_grid(grid) by {
        assert(all[i] == on_grid(m.grids[i], op) && m.has_grid(m.grids[i]));
    }
}

/// The calls of two batches, one after the other, are those of the batch that
/// holds both.
pub proof fn law_items_concatenate(a: Seq<RedrawEvent>, b: Seq<RedrawEvent>)
    ensures
        items_of_all(a + b) == items_of_all(a) + items_of_all(b),
    decreases b.len(),
{
    if b.len() == 0 {
        assert(a + b =~= a);
        assert(items_of_all(a) + items_of_all(b) =~= items_of_all(a));
    } else {
        law_items_concatenate(a, b.drop_last());
        assert((a + b).drop_last() =~= a + b.drop_last());
        assert((a + b).last() == b.last());
        assert(items_of_all(a + b) =~= items_of_all(a) + items_of_all(b));
    }
}

impl Model {
    /// The interface with this batch in hand.
    pub open spec fn with_queue(self, queue: Seq<RedrawItem>) -> Model {
        Model { queue, ..self }
    }
}

/// No more than the batch in hand is worked on.
pub open spec fn within_batch(inputs: Seq<Input>) -> bool {
    forall|i: int| 0 <= i < inputs.len() ==> !(#[trigger] inputs[i] is Notify)
}

/// `step` with another batch in hand.
spec fn step_with_queue(step: Step, queue: Seq<RedrawItem>) -> Step {
    Step { next: step.next.with_queue(queue), ..step }
}

spec fn same_step(a: Step, b: Step) -> bool {
    a == b
}

/// What comes of a call does not depend on those that wait behind it.
proof fn lemma_redraw_with_queue(m: Model, queue: Seq<RedrawItem>, item: RedrawItem)
    ensures
        m.redraw(item).next.queue == m.queue,
        same_step(m.with_queue(queue).redraw(item), step_with_queue(m.redraw(item), queue)),
{
}

/// What comes of an answer does not depend on the calls that wait.
proof fn lemma_resume_with_queue(m: Model, queue: Seq<RedrawItem>, answer: Answer)
    ensures
        m.resume(answer).next.queue == m.queue,
        same_step(m.with_queue(queue).resume(answer), step_with_queue(m.resume(answer), queue)),
{
}

/// Calls that wait behind others change nothing for those.
proof fn lemma_react_with_more(m: Model, more: Seq<RedrawItem>, input: Input)
    requires
        m.allows(input),
        !(input is Notify),
    ensures
        m.with_queue(m.queue + more).allows(input),
        m.with_queue(m.queue + more).react(input).next == m.react(input).next.with_queue(
            m.react(input).next.queue + more,
        ),
        m.with_queue(m.queue + more).react(input).actions == m.react(input).actions,
{
    reveal(Model::allows);
    reveal(Model::react);
    let wide = m.with_queue(m.queue + more);
    match input {
        Input::Take => {
            let rest = m.with_queue(m.queue.drop_first());
            let item = m.queue[0];
            assert(wide.queue.drop_first() =~= rest.queue + more);
            assert(wide.queue[0] == item);
            lemma_redraw_with_queue(rest, rest.queue + more, item);
            assert(rest.with_queue(rest.queue + more) =~= wide.with_queue(
                wide.queue.drop_first(),
            ));
            assert(wide.step() == wide.with_queue(wide.queue.drop_first()).redraw(item));
            assert(m.step() == rest.redraw(item));
        },
        Input::Answer(answer) => {
            lemma_resume_with_queue(m, m.queue + more, answer);
        },
        Input::Notify(_) => {},
    }
}

proof fn lemma_run_with_more(m: Model, more: Seq<RedrawItem>, inputs: Seq<Input>)
    requires
        m.allows_all(inputs),
        within_batch(inputs),
    ensures
        m.with_queue(m.queue + more).allows_all(inputs),
        m.with_queue(m.queue + more).after(inputs) == m.after(inputs).with_queue(
            m.after(inputs).queue + more,
        ),
        m.with_queue(m.queue + more).trace(inputs) == m.trace(inputs),
    decreases inputs.len(),
{
    if inputs.len() > 0 {
        let front = inputs.drop_last();
        assert forall|i: int| 0 <= i < front.len() implies !(#[trigger] front[i] is Notify) by {
            assert(front[i] == inputs[i]);
        }
        lemma_run_with_more(m, more, front);
        assert(!(inputs[inputs.len() - 1] is Notify));
        lemma_react_with_more(m.after(front), more, inputs.last());
    }
}

/// What happens after `a` and then `b` is what happens after both.
pub proof fn law_runs_concatenate(m: Model, a: Seq<Input>, b: Seq<Input>)
    requires
        m.allows_all(a),
        m.after(a).allows_all(b),
    ensures
        m.allows_all(a + b),
        m.after(a + b) == m.after(a).after(b),
        m.trace(a + b) == m.trace(a) + m.after(a).trace(b),
    decreases b.len(),
{
    if b.len() == 0 {
        assert(a + b =~= a);
        assert(m.trace(a) + m.after(a).trace(b) =~= m.trace(a));
    } else {
        law_runs_concatenate(m, a, b.drop_last());
        assert((a + b).drop_last() =~= a + b.drop_last());
        assert((a + b).last() == b.last());
        assert(m.trace(a + b) =~= m.trace(a) + m.after(a).trace(b));
    }
}

/// It makes no difference whether calls come in one batch or in two: the same is
/// done, in the same order, and the interface is the same afterwards.
pub proof fn law_batches_concatenate(
    m: Model,
    first: Seq<RedrawItem>,
    second: Seq<RedrawItem>,
    a: Seq<Input>,
    b: Seq<Input>,
)
    requires
        within_batch(a),
        m.with_queue(first).allows_all(a),
        m.with_queue(first).after(a).idle(),
        m.with_queue(first).after(a).with_queue(second).allows_all(b),
    ensures
        m.with_queue(first + second).allows_all(a + b),
        m.with_queue(first + second).after(a + b) == m.with_queue(first).after(a).with_queue(
            second,
        ).after(b),
        m.with_queue(first + second).trace(a + b) == m.with_queue(first).trace(a) + m.with_queue(
            first,
        ).after(a).with_queue(second).trace(b),
{
    let start = m.with_queue(first);
    let middle = start.after(a);
    lemma_run_with_more(start, second, a);
    assert(start.with_queue(start.queue + second) =~= m.with_queue(first + second));
    assert(middle.queue + second =~= second);
    law_runs_concatenate(m.with_queue(first + second), a, b);
}

} // verus!
