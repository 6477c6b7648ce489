//! The mathematical model of the scheduler: what a task is, when it is due,
//! and what one launch or one dispatch pass does to a registry of tasks.
//!
//! The executable types in the other modules state their contracts over
//! these definitions.

use vstd::prelude::*;

verus! {

/// A set of pending events, one bit per event.
pub type EventMask = u32;

/// Identity of a callback of the embedding application.
///
/// The scheduler never calls application code itself. It names the callback
/// that has to run, and the application maps the identifier to the code.
/// Two runnables are the same runnable exactly when their identifiers are
/// equal.
pub type RunnableId = u32;

/// Identifier of a callback that takes no argument and runs once at launch.
pub type InitRunnable = RunnableId;

/// Identifier of a callback that takes the event mask it is run for.
pub type ProcessRunnable = RunnableId;

/// Identifier of the callback that runs on a pass in which no task fired.
pub type IdleRunnable = RunnableId;

/// Name of a task, unique within one scheduler.
pub type TaskName = &'static str;

/// One callback that the embedding application has to run, in the order in
/// which the scheduler hands them out.
#[derive(Clone, Copy, Debug, PartialEq, Eq, Structural)]
pub enum Invocation {
    /// Run an init runnable.
    Init(InitRunnable),
    /// Run a process runnable with this mask: the drained events for an
    /// event firing, zero for a cyclic firing.
    Process(ProcessRunnable, EventMask),
    /// Run the idle runnable.
    Idle(IdleRunnable),
}

/// Why a task cannot be registered.
#[derive(Clone, Copy, Debug, PartialEq, Eq, Structural)]
pub enum ConfigError {
    /// A registered task has the same name, init runnable or process
    /// runnable.
    DuplicateTask,
    /// The scheduler already holds as many tasks as it has room for.
    TaskListFull,
}

/// What a task is, as plain values.
pub struct TaskModel {
    pub name: Seq<char>,
    pub init_runnable: Option<InitRunnable>,
    pub process_runnable: Option<ProcessRunnable>,
    pub execution_cycle: Option<u32>,
    pub execution_offset: Option<u32>,
    /// Absolute tick at which the task is next due cyclically.
    pub cycle_monitor: u32,
    /// Events that are pending for the task.
    pub event_monitor: EventMask,
}

/// What a scheduler is, as plain values.
pub struct SchedulerModel {
    /// The registered tasks, in registration order.
    pub tasks: Seq<TaskModel>,
    pub idle_runnable: Option<IdleRunnable>,
}

/// A task as it is right after construction: nothing pending, no deadline.
pub open spec fn fresh_task(
    name: Seq<char>,
    init_runnable: Option<InitRunnable>,
    process_runnable: Option<ProcessRunnable>,
    execution_cycle: Option<u32>,
    execution_offset: Option<u32>,
) -> TaskModel {
    TaskModel {
        name,
        init_runnable,
        process_runnable,
        execution_cycle,
        execution_offset,
        cycle_monitor: 0,
        event_monitor: 0,
    }
}

/// Two tasks collide when they share the name, the init runnable or the
/// process runnable. A runnable that is absent collides with nothing.
pub open spec fn duplicates(a: TaskModel, b: TaskModel) -> bool {
    ||| a.name == b.name
    ||| (a.init_runnable is Some && a.init_runnable == b.init_runnable)
    ||| (a.process_runnable is Some && a.process_runnable == b.process_runnable)
}

/// Some registered task collides with `task`.
pub open spec fn has_duplicate(tasks: Seq<TaskModel>, task: TaskModel) -> bool {
    exists|i: int| 0 <= i < tasks.len() && duplicates(task, #[trigger] tasks[i])
}

/// No two registered tasks collide.
pub open spec fn distinct(tasks: Seq<TaskModel>) -> bool {
    forall|i: int, j: int|
        0 <= i < j < tasks.len() ==> !duplicates(#[trigger] tasks[i], #[trigger] tasks[j])
}

/// Whether `task` can be added to a registry that has room for `capacity`
/// tasks, and why not. A collision is reported before a lack of room.
pub open spec fn admission(tasks: Seq<TaskModel>, task: TaskModel, capacity: nat) -> Result<
    (),
    ConfigError,
> {
    if has_duplicate(tasks, task) {
        Err(ConfigError::DuplicateTask)
    } else if tasks.len() >= capacity {
        Err(ConfigError::TaskListFull)
    } else {
        Ok(())
    }
}

/// `i` is the position of the first task that is called `name`.
pub open spec fn is_first_named(tasks: Seq<TaskModel>, name: Seq<char>, i: int) -> bool {
    &&& 0 <= i < tasks.len()
    &&& tasks[i].name == name
    &&& forall|j: int| 0 <= j < i ==> (#[trigger] tasks[j]).name != name
}

/// Some registered task is called `name`.
pub open spec fn is_registered(tasks: Seq<TaskModel>, name: Seq<char>) -> bool {
    exists|i: int| 0 <= i < tasks.len() && (#[trigger] tasks[i]).name == name
}

/// The position of the first task called `name`, if there is one.
pub open spec fn position_of(tasks: Seq<TaskModel>, name: Seq<char>) -> Option<int> {
    if exists|i: int| is_first_named(tasks, name, i) {
        Some(choose|i: int| is_first_named(tasks, name, i))
    } else {
        None
    }
}

/// If the task at `upto` has the name, some position is the first with it.
proof fn lemma_first_named_exists(tasks: Seq<TaskModel>, name: Seq<char>, upto: int)
    requires
        0 <= upto < tasks.len(),
        tasks[upto].name == name,
    ensures
        exists|i: int| is_first_named(tasks, name, i),
    decreases upto,
{
    if exists|j: int| 0 <= j < upto && (#[trigger] tasks[j]).name == name {
        let earlier = choose|j: int| 0 <= j < upto && (#[trigger] tasks[j]).name == name;
        lemma_first_named_exists(tasks, name, earlier);
    } else {
        assert(is_first_named(tasks, name, upto));
    }
}

/// A lookup by name yields the first position with that name, and nothing
/// exactly if no task has the name.
pub proof fn lemma_position_of(tasks: Seq<TaskModel>, name: Seq<char>)
    ensures
        forall|i: int|
            position_of(tasks, name) == Some(i) <==> #[trigger] is_first_named(tasks, name, i),
        position_of(tasks, name) is Some <==> is_registered(tasks, name),
{
    if is_registered(tasks, name) {
        let any = choose|i: int| 0 <= i < tasks.len() && (#[trigger] tasks[i]).name == name;
        lemma_first_named_exists(tasks, name, any);
    }
}

/// The task with `mask` added to its pending events.
pub open spec fn with_event_set(task: TaskModel, mask: EventMask) -> TaskModel {
    TaskModel { event_monitor: task.event_monitor | mask, ..task }
}

/// The task with the events of `mask` no longer pending.
pub open spec fn with_event_cleared(task: TaskModel, mask: EventMask) -> TaskModel {
    TaskModel { event_monitor: task.event_monitor & !mask, ..task }
}

/// The registry after `mask` was signalled to the task called `name`.
/// Nothing changes when no task has that name.
pub open spec fn after_set_event(tasks: Seq<TaskModel>, name: Seq<char>, mask: EventMask) -> Seq<
    TaskModel,
> {
    match position_of(tasks, name) {
        Some(i) => tasks.update(i, with_event_set(tasks[i], mask)),
        None => tasks,
    }
}

/// The registry after the events of `mask` were withdrawn from the task
/// called `name`. Nothing changes when no task has that name.
pub open spec fn after_clear_event(
    tasks: Seq<TaskModel>,
    name: Seq<char>,
    mask: EventMask,
) -> Seq<TaskModel> {
    match position_of(tasks, name) {
        Some(i) => tasks.update(i, with_event_cleared(tasks[i], mask)),
        None => tasks,
    }
}

/// The pending events of the task called `name`, if there is such a task.
pub open spec fn pending_events(tasks: Seq<TaskModel>, name: Seq<char>) -> Option<EventMask> {
    match position_of(tasks, name) {
        Some(i) => Some(tasks[i].event_monitor),
        None => None,
    }
}

/// The tick that lies `delay` ticks after `tick`. Ticks are 32 bits wide
/// and wrap: past the last tick the count starts again at zero.
pub open spec fn tick_after(tick: u32, delay: u32) -> u32 {
    if tick + delay > u32::MAX {
        (tick + delay - 0x1_0000_0000) as u32
    } else {
        (tick + delay) as u32
    }
}

/// The phase delay of the first deadline: the offset, or none.
pub open spec fn first_offset(task: TaskModel) -> u32 {
    match task.execution_offset {
        Some(offset) => offset,
        None => 0,
    }
}

/// A task is scheduled cyclically when it has something to run and a cycle.
pub open spec fn is_cyclic(task: TaskModel) -> bool {
    task.process_runnable is Some && task.execution_cycle is Some
}

/// The task after launch at `tick`: a cyclic task gets its first deadline,
/// one cycle and the offset after `tick`. Any other task is left as it is.
pub open spec fn launched_task(task: TaskModel, tick: u32) -> TaskModel {
    if is_cyclic(task) {
        TaskModel {
            cycle_monitor: tick_after(
                tick_after(tick, task.execution_cycle->0),
                first_offset(task),
            ),
            ..task
        }
    } else {
        task
    }
}

/// The task fires for its cycle at `tick`: it is cyclic and its deadline
/// has been reached.
pub open spec fn cyclic_due(task: TaskModel, tick: u32) -> bool {
    is_cyclic(task) && tick >= task.cycle_monitor
}

/// The task fires for its events: it has something to run and an event is
/// pending.
pub open spec fn event_due(task: TaskModel) -> bool {
    task.process_runnable is Some && task.event_monitor != 0
}

/// The task fires at `tick`, for its events, for its cycle or for both.
pub open spec fn is_due(task: TaskModel, tick: u32) -> bool {
    event_due(task) || cyclic_due(task, tick)
}

/// The task after it was examined at `tick`. A cyclic firing moves the
/// deadline one cycle past `tick`; an event firing drains the pending
/// events. A task with nothing to run is never touched.
pub open spec fn dispatched_task(task: TaskModel, tick: u32) -> TaskModel {
    TaskModel {
        cycle_monitor: if cyclic_due(task, tick) {
            tick_after(tick, task.execution_cycle->0)
        } else {
            task.cycle_monitor
        },
        event_monitor: if event_due(task) {
            0
        } else {
            task.event_monitor
        },
        ..task
    }
}

/// The event firing of a task, if it is due: its process runnable, run
/// with the events that are pending.
pub open spec fn event_firing(task: TaskModel) -> Option<Invocation> {
    if event_due(task) {
        Some(Invocation::Process(task.process_runnable->0, task.event_monitor))
    } else {
        None
    }
}

/// The cyclic firing of a task at `tick`, if it is due: its process
/// runnable, run with an empty mask.
pub open spec fn cyclic_firing(task: TaskModel, tick: u32) -> Option<Invocation> {
    if cyclic_due(task, tick) {
        Some(Invocation::Process(task.process_runnable->0, 0u32))
    } else {
        None
    }
}

/// The invocation, if there is one, as a sequence.
pub open spec fn in_order(invocation: Option<Invocation>) -> Seq<Invocation> {
    match invocation {
        Some(invocation) => seq![invocation],
        None => Seq::<Invocation>::empty(),
    }
}

/// What has to run for one task examined at `tick`: first the event
/// firing, then the cyclic firing. Both may be due on the same pass.
pub open spec fn task_firings(task: TaskModel, tick: u32) -> Seq<Invocation> {
    in_order(event_firing(task)) + in_order(cyclic_firing(task, tick))
}

/// What has to run for one task at launch: its init runnable, if it has
/// one.
pub open spec fn init_firing(task: TaskModel) -> Option<Invocation> {
    match task.init_runnable {
        Some(init) => Some(Invocation::Init(init)),
        None => None,
    }
}

/// What has to run at launch: the init runnables of the tasks, in
/// registration order.
pub open spec fn init_invocations(tasks: Seq<TaskModel>) -> Seq<Invocation>
    decreases tasks.len(),
{
    if tasks.len() == 0 {
        Seq::<Invocation>::empty()
    } else {
        init_invocations(tasks.drop_last()) + in_order(init_firing(tasks.last()))
    }
}

/// The registry after launch at `tick`.
pub open spec fn launched_tasks(tasks: Seq<TaskModel>, tick: u32) -> Seq<TaskModel> {
    Seq::new(tasks.len(), |i: int| launched_task(tasks[i], tick))
}

/// The firings of one pass over the tasks at `tick`, in registration order.
pub open spec fn pass_firings(tasks: Seq<TaskModel>, tick: u32) -> Seq<Invocation>
    decreases tasks.len(),
{
    if tasks.len() == 0 {
        Seq::<Invocation>::empty()
    } else {
        pass_firings(tasks.drop_last(), tick) + task_firings(tasks.last(), tick)
    }
}

/// The registry after one pass at `tick`.
pub open spec fn dispatched_tasks(tasks: Seq<TaskModel>, tick: u32) -> Seq<TaskModel> {
    Seq::new(tasks.len(), |i: int| dispatched_task(tasks[i], tick))
}

/// The idle invocation of a pass, if it is due: the idle runnable, when one
/// is registered and no task fired on the pass.
pub open spec fn idle_invocation(
    idle_runnable: Option<IdleRunnable>,
    task_execution: bool,
) -> Option<Invocation> {
    match idle_runnable {
        Some(idle) if !task_execution => Some(Invocation::Idle(idle)),
        _ => None,
    }
}

/// Everything that has to run for one pass at `tick`, in order: the
/// firings of the tasks, or the idle runnable when there are none.
pub open spec fn pass_invocations(scheduler: SchedulerModel, tick: u32) -> Seq<Invocation> {
    let firings = pass_firings(scheduler.tasks, tick);
    firings + in_order(idle_invocation(scheduler.idle_runnable, firings.len() > 0))
}

} // verus!
