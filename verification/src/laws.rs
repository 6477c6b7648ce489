//! What holds of the scheduler whatever the tasks, the masks and the ticks
//! are. Each law is proved from the definitions that the contracts of the
//! executable functions are stated with.

use crate::model::{
    after_clear_event, after_set_event, cyclic_due, cyclic_firing, dispatched_task,
    dispatched_tasks, distinct, event_due, event_firing, first_offset, fresh_task, has_duplicate,
    in_order, init_firing, init_invocations, is_cyclic, is_due, is_first_named, is_registered,
    launched_task, launched_tasks, lemma_position_of, pass_firings, pass_invocations,
    pending_events, position_of, task_firings, tick_after, with_event_cleared, with_event_set,
    EventMask, InitRunnable, Invocation, ProcessRunnable, SchedulerModel, TaskModel,
};
use crate::port::{bound_timer, is_ticking, launched_timer, ticked_timer, SysTickModel, TICK_RATE};
use vstd::prelude::*;

verus! {

/// The registry after the tasks of `tasks` were added to it one by one.
pub open spec fn after_add_tasks(registry: Seq<TaskModel>, tasks: Seq<TaskModel>) -> Seq<
    TaskModel,
>
    decreases tasks.len(),
{
    if tasks.len() == 0 {
        registry
    } else {
        after_add_tasks(registry, tasks.drop_last()).push(tasks.last())
    }
}

/// The two tasks differ at most in their deadline and pending events.
pub open spec fn same_identity(a: TaskModel, b: TaskModel) -> bool {
    &&& a.name == b.name
    &&& a.init_runnable == b.init_runnable
    &&& a.process_runnable == b.process_runnable
    &&& a.execution_cycle == b.execution_cycle
    &&& a.execution_offset == b.execution_offset
}

/// Tasks of which no two collide, and which are no more than the scheduler
/// has room for, can be added to an empty scheduler one after the other:
/// each finds room and collides with none before it. The registry then
/// holds exactly these tasks, in the order in which they were added.
pub proof fn law_registration_keeps_order(tasks: Seq<TaskModel>, capacity: nat)
    requires
        distinct(tasks),
        tasks.len() <= capacity,
    ensures
        after_add_tasks(Seq::<TaskModel>::empty(), tasks) == tasks,
        forall|k: int|
            0 <= k < tasks.len() ==> #[trigger] tasks.take(k).len() < capacity && !has_duplicate(
                tasks.take(k),
                tasks[k],
            ),
    decreases tasks.len(),
{
    if tasks.len() > 0 {
        law_registration_keeps_order(tasks.drop_last(), capacity);
    }
    assert forall|k: int| 0 <= k < tasks.len() implies #[trigger] tasks.take(k).len() < capacity
        && !has_duplicate(tasks.take(k), tasks[k]) by {
        assert(tasks.take(k).len() == k);
    }
}

/// Among tasks of which no two collide, every task is found by its name,
/// where it stands.
pub proof fn law_distinct_names_are_found(tasks: Seq<TaskModel>, i: int)
    requires
        distinct(tasks),
        0 <= i < tasks.len(),
    ensures
        position_of(tasks, tasks[i].name) == Some(i),
{
    lemma_position_of(tasks, tasks[i].name);
}

/// No events are pending for a name that is not registered. For a task
/// that was just added, and to which nothing was signalled, the empty set
/// of events is pending.
pub proof fn law_pending_events_of_new_task(
    tasks: Seq<TaskModel>,
    name: Seq<char>,
    init_runnable: Option<InitRunnable>,
    process_runnable: Option<ProcessRunnable>,
    execution_cycle: Option<u32>,
    execution_offset: Option<u32>,
)
    requires
        !is_registered(tasks, name),
    ensures
        pending_events(tasks, name) is None,
        pending_events(
            tasks.push(
                fresh_task(
                    name,
                    init_runnable,
                    process_runnable,
                    execution_cycle,
                    execution_offset,
                ),
            ),
            name,
        ) == Some(0u32),
{
    let task = fresh_task(name, init_runnable, process_runnable, execution_cycle, execution_offset);
    let extended = tasks.push(task);
    let last = tasks.len() as int;
    assert(is_first_named(extended, name, last));
    lemma_position_of(tasks, name);
    lemma_position_of(extended, name);
}

/// Replacing the first task of a name by a task of the same name leaves
/// the name where it was.
proof fn lemma_update_keeps_position(
    tasks: Seq<TaskModel>,
    name: Seq<char>,
    i: int,
    task: TaskModel,
)
    requires
        position_of(tasks, name) == Some(i),
        task.name == name,
    ensures
        0 <= i < tasks.len(),
        position_of(tasks.update(i, task), name) == Some(i),
{
    lemma_position_of(tasks, name);
    let updated = tasks.update(i, task);
    assert(is_first_named(updated, name, i));
    lemma_position_of(updated, name);
}

/// Signalled events add up. After `first` and then `second` were signalled
/// to a registered task, what is pending for it is what was pending
/// before, together with both masks: on a task with nothing pending,
/// `first | second`. Nothing that was signalled is overwritten.
pub proof fn law_set_events_accumulate(
    tasks: Seq<TaskModel>,
    name: Seq<char>,
    first: EventMask,
    second: EventMask,
)
    requires
        is_registered(tasks, name),
    ensures
        pending_events(tasks, name) is Some,
        pending_events(after_set_event(after_set_event(tasks, name, first), name, second), name)
            == Some(pending_events(tasks, name)->0 | first | second),
        pending_events(tasks, name) == Some(0u32) ==> pending_events(
            after_set_event(after_set_event(tasks, name, first), name, second),
            name,
        ) == Some(first | second),
{
    lemma_position_of(tasks, name);
    let i = position_of(tasks, name)->0;
    let once = after_set_event(tasks, name, first);
    lemma_update_keeps_position(tasks, name, i, with_event_set(tasks[i], first));
    lemma_update_keeps_position(once, name, i, with_event_set(once[i], second));
    assert(0u32 | first | second == first | second) by (bit_vector);
}

/// Clearing takes back what was signalled. After `mask` was signalled to a
/// registered task and then cleared, the events of `mask` are not pending,
/// and every other event is pending exactly if it was before: on a task
/// with nothing pending, nothing is pending afterwards.
pub proof fn law_clear_after_set(tasks: Seq<TaskModel>, name: Seq<char>, mask: EventMask)
    requires
        is_registered(tasks, name),
    ensures
        pending_events(tasks, name) is Some,
        pending_events(after_clear_event(after_set_event(tasks, name, mask), name, mask), name)
            == Some(pending_events(tasks, name)->0 & !mask),
        pending_events(tasks, name) == Some(0u32) ==> pending_events(
            after_clear_event(after_set_event(tasks, name, mask), name, mask),
            name,
        ) == Some(0u32),
{
    lemma_position_of(tasks, name);
    let i = position_of(tasks, name)->0;
    let set = after_set_event(tasks, name, mask);
    lemma_update_keeps_position(tasks, name, i, with_event_set(tasks[i], mask));
    lemma_update_keeps_position(set, name, i, with_event_cleared(set[i], mask));
    let pending = tasks[i].event_monitor;
    assert((pending | mask) & !mask == pending & !mask) by (bit_vector);
    assert(0u32 & !mask == 0u32) by (bit_vector);
}

/// Clearing withdraws the events of the mask and leaves every other event
/// as it was. Where none of the events of the mask is pending, clearing
/// changes nothing.
pub proof fn law_clear_leaves_other_events(
    tasks: Seq<TaskModel>,
    name: Seq<char>,
    mask: EventMask,
)
    requires
        is_registered(tasks, name),
    ensures
        pending_events(tasks, name) is Some,
        pending_events(after_clear_event(tasks, name, mask), name) is Some,
        pending_events(after_clear_event(tasks, name, mask), name)->0 & mask == 0,
        pending_events(after_clear_event(tasks, name, mask), name)->0 & !mask == pending_events(
            tasks,
            name,
        )->0 & !mask,
        pending_events(tasks, name)->0 & mask == 0 ==> after_clear_event(tasks, name, mask)
            == tasks,
{
    lemma_position_of(tasks, name);
    let i = position_of(tasks, name)->0;
    lemma_update_keeps_position(tasks, name, i, with_event_cleared(tasks[i], mask));
    let pending = tasks[i].event_monitor;
    assert((pending & !mask) & mask == 0) by (bit_vector);
    assert((pending & !mask) & !mask == pending & !mask) by (bit_vector);
    assert(pending & mask == 0 ==> pending & !mask == pending) by (bit_vector);
}

/// The event functions touch the task they name and no other, and of that
/// task the pending events and nothing else. For a name that is not
/// registered they change nothing.
pub proof fn law_events_touch_one_task(tasks: Seq<TaskModel>, name: Seq<char>, mask: EventMask)
    ensures
        after_set_event(tasks, name, mask).len() == tasks.len(),
        after_clear_event(tasks, name, mask).len() == tasks.len(),
        forall|j: int|
            0 <= j < tasks.len() ==> same_identity(
                #[trigger] after_set_event(tasks, name, mask)[j],
                tasks[j],
            ) && after_set_event(tasks, name, mask)[j].cycle_monitor == tasks[j].cycle_monitor,
        forall|j: int|
            0 <= j < tasks.len() ==> same_identity(
                #[trigger] after_clear_event(tasks, name, mask)[j],
                tasks[j],
            ) && after_clear_event(tasks, name, mask)[j].cycle_monitor == tasks[j].cycle_monitor,
        forall|j: int|
            0 <= j < tasks.len() && position_of(tasks, name) != Some(j) ==> after_set_event(
                tasks,
                name,
                mask,
            )[j] == #[trigger] tasks[j] && after_clear_event(tasks, name, mask)[j] == tasks[j],
        !is_registered(tasks, name) ==> after_set_event(tasks, name, mask) == tasks
            && after_clear_event(tasks, name, mask) == tasks,
        distinct(tasks) ==> distinct(after_set_event(tasks, name, mask)) && distinct(
            after_clear_event(tasks, name, mask),
        ),
{
    lemma_position_of(tasks, name);
}

/// An event firing drains. The process runnable is run with exactly the
/// events that were pending right before, it comes before a cyclic firing
/// of the same pass, and nothing is pending right after. What is signalled
/// after the firing is not lost: it is pending in full, and is what the
/// next event firing is run with.
pub proof fn law_event_firing_drains(task: TaskModel, tick: u32, later: EventMask)
    requires
        event_due(task),
    ensures
        task_firings(task, tick).len() >= 1,
        task_firings(task, tick)[0] == Invocation::Process(
            task.process_runnable->0,
            task.event_monitor,
        ),
        dispatched_task(task, tick).event_monitor == 0,
        !event_due(dispatched_task(task, tick)),
        with_event_set(dispatched_task(task, tick), later).event_monitor == later,
        later != 0 ==> event_firing(with_event_set(dispatched_task(task, tick), later)) == Some(
            Invocation::Process(task.process_runnable->0, later),
        ),
{
    assert(0u32 | later == later) by (bit_vector);
}

/// A task fires only for a reason: an event firing carries a mask that is
/// not empty, a cyclic firing carries the empty mask, and a task fires at
/// most once for each reason on one pass. A task with nothing to run never
/// fires and is never changed.
pub proof fn law_firings_have_a_reason(task: TaskModel, tick: u32)
    ensures
        task_firings(task, tick).len() <= 2,
        task_firings(task, tick).len() == 0 <==> !is_due(task, tick),
        event_firing(task) matches Some(Invocation::Process(_, mask)) ==> mask != 0,
        cyclic_firing(task, tick) matches Some(Invocation::Process(_, mask)) ==> mask == 0,
        task.process_runnable is None ==> task_firings(task, tick).len() == 0 && dispatched_task(
            task,
            tick,
        ) == task,
{
}

/// The first cyclic firing. A cyclic task that was launched at `launch`
/// fires for its cycle at the ticks that lie at least one cycle and the
/// offset after `launch`, and at no earlier tick. A task that is not
/// cyclic is left alone by the launch and never fires for a cycle.
///
/// This holds while the deadline lies within the range of the tick
/// counter.
pub proof fn law_first_cyclic_firing(task: TaskModel, launch: u32, tick: u32)
    requires
        is_cyclic(task) ==> launch + task.execution_cycle->0 + first_offset(task) <= u32::MAX,
    ensures
        is_cyclic(task) ==> launched_task(task, launch).cycle_monitor == launch
            + task.execution_cycle->0 + first_offset(task),
        is_cyclic(task) ==> (cyclic_due(launched_task(task, launch), tick) <==> tick >= launch
            + task.execution_cycle->0 + first_offset(task)),
        !is_cyclic(task) ==> launched_task(task, launch) == task && !cyclic_due(task, tick),
{
}

/// The cyclic firings that follow. After a cyclic firing at `fired` the
/// task fires for its cycle at the ticks that lie at least one cycle after
/// `fired`, and at no earlier tick: the deadline goes by the tick of the
/// firing, not by the deadline that was missed. A pass on which the task
/// does not fire for its cycle leaves the deadline where it is.
///
/// This holds while the deadline lies within the range of the tick
/// counter.
pub proof fn law_next_cyclic_firing(task: TaskModel, fired: u32, tick: u32)
    requires
        is_cyclic(task) ==> fired + task.execution_cycle->0 <= u32::MAX,
    ensures
        cyclic_due(task, fired) ==> dispatched_task(task, fired).cycle_monitor == fired
            + task.execution_cycle->0,
        cyclic_due(task, fired) ==> (cyclic_due(dispatched_task(task, fired), tick) <==> tick
            >= fired + task.execution_cycle->0),
        !cyclic_due(task, fired) ==> dispatched_task(task, fired).cycle_monitor
            == task.cycle_monitor,
{
}

/// A pass is made of the firings of the single tasks, and of nothing
/// else: it fires nothing exactly if no task is due.
pub proof fn law_pass_fires_what_is_due(tasks: Seq<TaskModel>, tick: u32)
    ensures
        pass_firings(tasks, tick).len() == 0 <==> forall|i: int|
            0 <= i < tasks.len() ==> !is_due(#[trigger] tasks[i], tick),
        forall|k: int|
            0 <= k < pass_firings(tasks, tick).len() ==> #[trigger] pass_firings(tasks, tick)[k]
                is Process,
    decreases tasks.len(),
{
    if tasks.len() > 0 {
        let before = tasks.drop_last();
        law_pass_fires_what_is_due(before, tick);
        if pass_firings(tasks, tick).len() == 0 {
            assert forall|i: int| 0 <= i < tasks.len() implies !is_due(
                #[trigger] tasks[i],
                tick,
            ) by {
                if i < before.len() {
                    assert(before[i] == tasks[i]);
                }
            }
        }
    }
}

/// Some task of the registry is due at `tick`.
pub open spec fn some_task_is_due(tasks: Seq<TaskModel>, tick: u32) -> bool {
    exists|i: int| 0 <= i < tasks.len() && is_due(#[trigger] tasks[i], tick)
}

/// The pass hands out the idle invocation.
pub open spec fn runs_idle(invocations: Seq<Invocation>) -> bool {
    exists|k: int| 0 <= k < invocations.len() && #[trigger] invocations[k] is Idle
}

/// The idle runnable runs on the passes on which no task fired, and on no
/// other: a pass hands out the idle invocation exactly if an idle runnable
/// is registered and no task is due. It is then all that the pass hands
/// out. On every other pass the firings of the tasks are all that is
/// handed out.
pub proof fn law_idle_runs_on_empty_passes(scheduler: SchedulerModel, tick: u32)
    ensures
        runs_idle(pass_invocations(scheduler, tick)) <==> scheduler.idle_runnable is Some
            && !some_task_is_due(scheduler.tasks, tick),
        runs_idle(pass_invocations(scheduler, tick)) ==> pass_invocations(scheduler, tick)
            == seq![Invocation::Idle(scheduler.idle_runnable->0)],
        !runs_idle(pass_invocations(scheduler, tick)) ==> pass_invocations(scheduler, tick)
            == pass_firings(scheduler.tasks, tick),
{
    law_pass_fires_what_is_due(scheduler.tasks, tick);
    if scheduler.idle_runnable is Some && pass_firings(scheduler.tasks, tick).len() == 0 {
        assert(pass_invocations(scheduler, tick)[0] is Idle);
    }
}

/// Launch and dispatch change deadlines and pending events only: every
/// task keeps its place, its name, its runnables and its cadence, so tasks
/// of which no two collide stay so.
pub proof fn law_passes_keep_the_registry(tasks: Seq<TaskModel>, tick: u32)
    ensures
        launched_tasks(tasks, tick).len() == tasks.len(),
        dispatched_tasks(tasks, tick).len() == tasks.len(),
        forall|i: int|
            0 <= i < tasks.len() ==> same_identity(
                #[trigger] launched_tasks(tasks, tick)[i],
                tasks[i],
            ) && launched_tasks(tasks, tick)[i].event_monitor == tasks[i].event_monitor,
        forall|i: int|
            0 <= i < tasks.len() ==> same_identity(
                #[trigger] dispatched_tasks(tasks, tick)[i],
                tasks[i],
            ),
        distinct(tasks) ==> distinct(launched_tasks(tasks, tick)) && distinct(
            dispatched_tasks(tasks, tick),
        ),
{
}

/// Launch hands out the init runnables in registration order, each task's
/// once: a task that is registered behind the others adds its init
/// runnable, if it has one, behind theirs. A task without an init runnable
/// adds nothing.
pub proof fn law_init_runs_once_in_order(tasks: Seq<TaskModel>, task: TaskModel)
    ensures
        init_invocations(Seq::<TaskModel>::empty()) == Seq::<Invocation>::empty(),
        init_invocations(tasks.push(task)) == init_invocations(tasks) + in_order(
            init_firing(task),
        ),
        init_invocations(tasks).len() <= tasks.len(),
    decreases tasks.len(),
{
    assert(tasks.push(task).drop_last() =~= tasks);
    if tasks.len() > 0 {
        law_init_runs_once_in_order(tasks.drop_last(), tasks.last());
    }
}

/// A timer that was bound does not tick until it is launched. Once
/// launched it ticks: each tick interrupt adds one to its count, and after
/// the last tick the count starts again at zero. Its reload value is the
/// number of clock cycles in a millisecond, less one, and fits the 24 bits
/// of the reload register.
pub proof fn law_launched_timer_ticks(timer: SysTickModel)
    requires
        timer.core_freq >= TICK_RATE,
    ensures
        !is_ticking(bound_timer(timer.core_freq)),
        ticked_timer(bound_timer(timer.core_freq)) == bound_timer(timer.core_freq),
        is_ticking(launched_timer(timer)),
        launched_timer(timer).tick == timer.tick,
        launched_timer(timer).reload == timer.core_freq / TICK_RATE - 1,
        launched_timer(timer).reload <= 0x00FF_FFFF,
        ticked_timer(launched_timer(timer)).tick == tick_after(timer.tick, 1),
{
    let control = timer.control;
    assert(((control & !0x1u32) | 0x1u32 | 0x2u32 | 0x4u32) & 0x1u32 != 0) by (bit_vector);
    assert(((control & !0x1u32) | 0x1u32 | 0x2u32 | 0x4u32) & 0x2u32 != 0) by (bit_vector);
    assert(0u32 & 0x1u32 == 0) by (bit_vector);
}

} // verus!
