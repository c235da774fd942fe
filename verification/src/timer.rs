//! The delayed message to Neovim about the size of the main grid on screen.
//!
//! The message is sent with a small delay, so that a size that changes all the
//! time is not sent all the time: every change puts off the message, and what
//! sends the size in another way drops it.

use vstd::prelude::*;

use crate::action::{Action, NvimCall};

verus! {

/// Milliseconds between a change of the size and the message about it.
pub const RESIZE_DELAY: u32 = 30;

/// A message that is under way.
#[derive(Clone, Copy, Debug, PartialEq)]
pub struct Pending {
    /// The timer that is set, by the number that the main loop knows it by.
    pub source: u32,
    /// The size that is sent when the timer has run out.
    pub cols: u64,
    pub rows: u64,
}

/// The message about a size, columns first.
pub open spec fn resize_call(cols: u64, rows: u64) -> NvimCall {
    NvimCall::TryResize { cols: cols as i64, rows: rows as i64 }
}

/// What comes of a change of the size.
#[derive(Clone, Copy, Debug, PartialEq)]
pub struct Scheduled {
    /// The timer that is to be removed.
    pub removed: Option<u32>,
    /// Whether the toolkit is kept from doing anything with the size itself.
    pub inhibit: bool,
}

/// What comes of a timer that has run out.
#[derive(Debug, PartialEq)]
pub struct Fired {
    /// What Neovim is sent.
    pub call: Option<NvimCall>,
    /// Whether the timer is set again.
    pub again: bool,
}

/// The message that is under way, if one is.
pub struct ResizeTimer {
    pub pending: Option<Pending>,
}

/// What happens to the message.
pub enum TimerEvent {
    /// The size has changed to that of the message, and its timer is set.
    Schedule(Pending),
    /// The timer with this number has run out, and is gone by that.
    Fire(u32),
    /// The size is sent in another way.
    Cancel,
}

/// What is under way after `event`, where `pending` was before.
pub open spec fn pending_after(pending: Option<Pending>, event: TimerEvent) -> Option<Pending> {
    match event {
        TimerEvent::Schedule(new) => Some(new),
        TimerEvent::Fire(_) => None,
        TimerEvent::Cancel => None,
    }
}

/// The timer of what is under way.
pub open spec fn source_of(pending: Option<Pending>) -> Option<u32> {
    match pending {
        Some(pending) => Some(pending.source),
        None => None,
    }
}

/// The timer that is to be removed at `event`, where `pending` was under way
/// before.
pub open spec fn source_removed(pending: Option<Pending>, event: TimerEvent) -> Option<u32> {
    match event {
        TimerEvent::Schedule(_) => source_of(pending),
        TimerEvent::Fire(_) => None,
        TimerEvent::Cancel => source_of(pending),
    }
}

/// What Neovim is sent when a timer has run out.
pub open spec fn call_fired(pending: Option<Pending>) -> Option<NvimCall> {
    match pending {
        Some(pending) => Some(resize_call(pending.cols, pending.rows)),
        None => None,
    }
}

impl ResizeTimer {
    /// No message is under way.
    pub fn new() -> (timer: ResizeTimer)
        ensures
            timer.pending is None,
    {
        ResizeTimer { pending: None }
    }

    /// The timer of what is under way.
    fn source(&self) -> (source: Option<u32>)
        ensures
            source == source_of(self.pending),
    {
        match self.pending {
            Some(pending) => Some(pending.source),
            None => None,
        }
    }

    /// The size has changed, and the timer `source` is set to send it. The
    /// timer that was set before is to be removed.
    pub fn schedule(&mut self, source: u32, cols: u64, rows: u64) -> (scheduled: Scheduled)
        ensures
            ({
                let event = TimerEvent::Schedule(Pending { source, cols, rows });
                &&& final(self).pending == pending_after(old(self).pending, event)
                &&& scheduled.removed == source_removed(old(self).pending, event)
                &&& !scheduled.inhibit
            }),
    {
        let removed: Option<u32> = self.source();
        self.pending = Some(Pending { source, cols, rows });
        Scheduled { removed, inhibit: false }
    }

    /// The timer has run out, and is gone by that. The size that it was set for
    /// is sent, and it is not set again.
    pub fn fire(&mut self) -> (fired: Fired)
        ensures
            final(self).pending is None,
            fired.call == call_fired(old(self).pending),
            !fired.again,
    {
        let call: Option<NvimCall> = match self.pending {
            Some(pending) => Some(
                NvimCall::TryResize { cols: pending.cols as i64, rows: pending.rows as i64 },
            ),
            None => None,
        };
        self.pending = None;
        Fired { call, again: false }
    }

    /// The size is sent in another way. Returns the timer that was set, which
    /// is to be removed.
    pub fn cancel(&mut self) -> (removed: Option<u32>)
        ensures
            final(self).pending == pending_after(old(self).pending, TimerEvent::Cancel),
            removed == source_removed(old(self).pending, TimerEvent::Cancel),
    {
        let removed: Option<u32> = self.source();
        self.pending = None;
        removed
    }
}

/// What is under way after `events`, where nothing was at the start.
pub open spec fn pending_after_all(events: Seq<TimerEvent>) -> Option<Pending>
    decreases events.len(),
{
    if events.len() == 0 {
        None
    } else {
        pending_after(pending_after_all(events.drop_last()), events.last())
    }
}

/// What Neovim is sent in the course of `events`.
pub open spec fn messages(events: Seq<TimerEvent>) -> Seq<NvimCall>
    decreases events.len(),
{
    if events.len() == 0 {
        seq![]
    } else {
        let before = messages(events.drop_last());
        match (events.last(), call_fired(pending_after_all(events.drop_last()))) {
            (TimerEvent::Fire(_), Some(call)) => before.push(call),
            _ => before,
        }
    }
}

/// `timers` without `source`, if that is one.
pub open spec fn timers_without(
    timers: Map<u32, (u64, u64)>,
    source: Option<u32>,
) -> Map<u32, (u64, u64)> {
    match source {
        Some(source) => timers.remove(source),
        None => timers,
    }
}

/// The timers that the main loop has after `events`, each with the columns and
/// rows that it was set for: those that were set and have neither been removed
/// nor run out.
pub open spec fn live_timers(events: Seq<TimerEvent>) -> Map<u32, (u64, u64)>
    decreases events.len(),
{
    if events.len() == 0 {
        Map::empty()
    } else {
        let before = live_timers(events.drop_last());
        let removed = source_removed(pending_after_all(events.drop_last()), events.last());
        match events.last() {
            TimerEvent::Schedule(new) => timers_without(
                before.insert(new.source, (new.cols, new.rows)),
                removed,
            ),
            TimerEvent::Fire(source) => before.remove(source),
            TimerEvent::Cancel => timers_without(before, removed),
        }
    }
}

/// The main loop gives no timer a number that another one still has, and no
/// timer runs out that is not there.
pub open spec fn can_happen(events: Seq<TimerEvent>) -> bool
    decreases events.len(),
{
    events.len() == 0 || {
        &&& can_happen(events.drop_last())
        &&& match events.last() {
            TimerEvent::Schedule(new) => !live_timers(events.drop_last()).contains_key(new.source),
            TimerEvent::Fire(source) => live_timers(events.drop_last()).contains_key(source),
            TimerEvent::Cancel => true,
        }
    }
}

/// The timer of `pending` alone, with the size that it was set for.
pub open spec fn only_timer(pending: Option<Pending>) -> Map<u32, (u64, u64)> {
    match pending {
        Some(pending) => Map::empty().insert(pending.source, (pending.cols, pending.rows)),
        None => Map::empty(),
    }
}

/// The main loop has the timer of what is under way, and no other.
proof fn lemma_live_timers(events: Seq<TimerEvent>)
    requires
        can_happen(events),
    ensures
        live_timers(events) == only_timer(pending_after_all(events)),
    decreases events.len(),
{
    if events.len() > 0 {
        lemma_live_timers(events.drop_last());
    }
    assert(live_timers(events) =~= only_timer(pending_after_all(events)));
}

/// However often the size changes, at most one message is under way: after a
/// change it is the one about that change, and after a message was sent or
/// dropped there is none.
pub proof fn law_one_message_under_way(events: Seq<TimerEvent>)
    requires
        can_happen(events),
        events.len() > 0,
    ensures
        match events.last() {
            TimerEvent::Schedule(new) => {
                &&& pending_after_all(events) == Some(new)
                &&& live_timers(events) == only_timer(Some(new))
            },
            _ => {
                &&& pending_after_all(events) is None
                &&& live_timers(events) == Map::<u32, (u64, u64)>::empty()
            },
        },
{
    lemma_live_timers(events);
}

/// No timer is removed that has run out or been removed before.
pub proof fn law_only_live_timers_are_removed(events: Seq<TimerEvent>, next: TimerEvent)
    requires
        can_happen(events),
    ensures
        source_removed(pending_after_all(events), next) matches Some(removed) ==> live_timers(
            events,
        ).contains_key(removed),
{
    lemma_live_timers(events);
}

/// A timer that runs out sends one message, about the size that it was set for.
/// Nothing else sends one.
pub proof fn law_timer_sends_its_size(events: Seq<TimerEvent>, next: TimerEvent)
    requires
        can_happen(events.push(next)),
    ensures
        messages(events.push(next)) == match next {
            TimerEvent::Fire(source) => {
                let (cols, rows) = live_timers(events)[source];
                messages(events).push(
                    NvimCall::TryResize { cols: cols as i64, rows: rows as i64 },
                )
            },
            _ => messages(events),
        },
{
    assert(events.push(next).drop_last() =~= events);
    lemma_live_timers(events);
}

/// Changes send nothing by themselves, and the last of them is under way.
proof fn lemma_changes(before: Seq<TimerEvent>, changes: Seq<Pending>)
    ensures
        ({
            let all = before + changes.map_values(|new: Pending| TimerEvent::Schedule(new));
            &&& messages(all) == messages(before)
            &&& changes.len() > 0 ==> pending_after_all(all) == Some(changes.last())
        }),
    decreases changes.len(),
{
    let f = |new: Pending| TimerEvent::Schedule(new);
    let all = before + changes.map_values(f);
    if changes.len() == 0 {
        assert(all =~= before);
    } else {
        lemma_changes(before, changes.drop_last());
        assert(all.drop_last() =~= before + changes.drop_last().map_values(f));
        assert(all.last() == TimerEvent::Schedule(changes.last()));
    }
}

/// However often the size changes before a timer runs out, Neovim is sent one
/// message, about the last of the sizes. It is the timer set last that runs out,
/// and after that none is set.
pub proof fn law_last_size_is_sent_once(
    before: Seq<TimerEvent>,
    changes: Seq<Pending>,
    source: u32,
)
    requires
        changes.len() > 0,
        can_happen(
            (before + changes.map_values(|new: Pending| TimerEvent::Schedule(new))).push(
                TimerEvent::Fire(source),
            ),
        ),
    ensures
        ({
            let all = (before + changes.map_values(
                |new: Pending| TimerEvent::Schedule(new),
            )).push(TimerEvent::Fire(source));
            &&& messages(all) == messages(before).push(
                NvimCall::TryResize {
                    cols: changes.last().cols as i64,
                    rows: changes.last().rows as i64,
                },
            )
            &&& source == changes.last().source
            &&& pending_after_all(all) is None
            &&& live_timers(all) == Map::<u32, (u64, u64)>::empty()
        }),
{
    let changed = before + changes.map_values(|new: Pending| TimerEvent::Schedule(new));
    let all = changed.push(TimerEvent::Fire(source));
    assert(all.drop_last() =~= changed);
    lemma_changes(before, changes);
    lemma_live_timers(changed);
    law_timer_sends_its_size(changed, TimerEvent::Fire(source));
    law_one_message_under_way(all);
}

/// What `actions` do to the message: some of them may drop it.
pub open spec fn timer_events(actions: Seq<Action>) -> Seq<TimerEvent>
    decreases actions.len(),
{
    if actions.len() == 0 {
        seq![]
    } else {
        let before = timer_events(actions.drop_last());
        if actions.last() is CancelResize {
            before.push(TimerEvent::Cancel)
        } else {
            before
        }
    }
}

/// None of `events` is a change of the size.
pub open spec fn no_changes(events: Seq<TimerEvent>) -> bool {
    forall|i: int| 0 <= i < events.len() ==> !(#[trigger] events[i] is Schedule)
}

/// Actions send nothing of what is under way, and where one of them drops it
/// nothing is under way after them.
proof fn lemma_actions_drop(before: Seq<TimerEvent>, actions: Seq<Action>)
    ensures
        messages(before + timer_events(actions)) == messages(before),
        pending_after_all(before) is None || actions.contains(Action::CancelResize)
            ==> pending_after_all(before + timer_events(actions)) is None,
    decreases actions.len(),
{
    let all = before + timer_events(actions);
    if actions.len() == 0 {
        assert(all =~= before);
    } else {
        let front = actions.drop_last();
        lemma_actions_drop(before, front);
        if actions.last() is CancelResize {
            assert(all.drop_last() =~= before + timer_events(front));
            assert(all.last() == TimerEvent::Cancel);
        } else if actions.contains(Action::CancelResize) {
            let at = actions.index_of(Action::CancelResize);
            assert(front[at] == Action::CancelResize);
        }
    }
}

/// Where nothing is under way, nothing is sent until the size changes.
proof fn lemma_quiet(before: Seq<TimerEvent>, later: Seq<TimerEvent>)
    requires
        pending_after_all(before) is None,
        no_changes(later),
    ensures
        messages(before + later) == messages(before),
        pending_after_all(before + later) is None,
    decreases later.len(),
{
    let all = before + later;
    if later.len() == 0 {
        assert(all =~= before);
    } else {
        let front = later.drop_last();
        assert forall|i: int| 0 <= i < front.len() implies !(#[trigger] front[i] is Schedule) by {
            assert(front[i] == later[i]);
        }
        lemma_quiet(before, front);
        assert(all.drop_last() =~= before + front);
        assert(all.last() == later[later.len() - 1]);
    }
}

/// A message that was under way when it was dropped is never sent: whatever
/// happened before, and whatever else is done along with dropping it, Neovim is
/// sent nothing until the size changes again.
pub proof fn law_dropped_message_is_never_sent(
    before: Seq<TimerEvent>,
    actions: Seq<Action>,
    later: Seq<TimerEvent>,
)
    requires
        actions.contains(Action::CancelResize),
        no_changes(later),
    ensures
        ({
            let all = before + timer_events(actions) + later;
            &&& messages(all) == messages(before)
            &&& pending_after_all(all) is None
            &&& can_happen(all) ==> live_timers(all) == Map::<u32, (u64, u64)>::empty()
        }),
{
    lemma_actions_drop(before, actions);
    lemma_quiet(before + timer_events(actions), later);
    let all = before + timer_events(actions) + later;
    if can_happen(all) {
        lemma_live_timers(all);
    }
}

/// A change puts its own message under way and removes the timer of the one
/// before; dropping a message removes its timer; a timer that runs out is not
/// removed, sends the columns as columns and the rows as rows, and leaves nothing
/// under way.
pub proof fn law_message_goes_with_its_timer(pending: Option<Pending>, new: Pending, source: u32)
    ensures
        pending_after(pending, TimerEvent::Schedule(new)) == Some(new),
        pending_after(pending, TimerEvent::Fire(source)) is None,
        pending_after(pending, TimerEvent::Cancel) is None,
        source_removed(pending, TimerEvent::Fire(source)) is None,
        match pending {
            Some(old) => {
                &&& source_of(pending) == Some(old.source)
                &&& source_removed(pending, TimerEvent::Schedule(new)) == Some(old.source)
                &&& source_removed(pending, TimerEvent::Cancel) == Some(old.source)
                &&& call_fired(pending) == Some(
                    NvimCall::TryResize { cols: old.cols as i64, rows: old.rows as i64 },
                )
            },
            None => {
                &&& source_of(pending) is None
                &&& source_removed(pending, TimerEvent::Schedule(new)) is None
                &&& source_removed(pending, TimerEvent::Cancel) is None
                &&& call_fired(pending) is None
            },
        },
{
}

/// The message waits for so many milliseconds after the change.
pub proof fn law_delay_is_in_milliseconds()
    ensures
        RESIZE_DELAY == 30,
{
}

} // verus!
