//! The scheduler: the registry of tasks, the event flags, the launch and
//! the dispatch pass.
//!
//! The scheduler decides; it runs no application code. Launch and each
//! dispatch pass hand out the invocations that are due, in order, and the
//! embedding application runs them and comes back for the next pass.
//! A scheduler is owned by one context at a time, so nothing can change a
//! task between the moment its events are read and the moment they are
//! drained.

use crate::model::{
    admission, after_clear_event, after_set_event, cyclic_firing, dispatched_task,
    dispatched_tasks, distinct, duplicates, event_firing, has_duplicate, idle_invocation,
    init_firing, init_invocations, is_first_named, launched_task, launched_tasks,
    lemma_position_of, pass_firings, pass_invocations, pending_events, position_of, ConfigError,
    EventMask, IdleRunnable, Invocation, SchedulerModel, TaskModel,
};
use crate::port::{bound_timer, launched_timer, SysTick, TICK_RATE};
use crate::task::{task_models, Firing, Task};
use crate::task_list::{
    task_list_as_mut_slice, task_list_as_slice, task_list_contents, task_list_new, task_list_push,
};
use vstd::prelude::*;

verus! {

/// A scheduler with room for `TASK_COUNT` tasks, on a core that is clocked
/// at `CORE_FREQ` cycles per second.
pub struct Scheduler<const TASK_COUNT: usize, const CORE_FREQ: u32> {
    idle_runnable: Option<IdleRunnable>,
    task_list: heapless::Vec<Task, TASK_COUNT>,
}

impl<const TASK_COUNT: usize, const CORE_FREQ: u32> View for Scheduler<TASK_COUNT, CORE_FREQ> {
    type V = SchedulerModel;

    closed spec fn view(&self) -> SchedulerModel {
        SchedulerModel {
            tasks: task_models(task_list_contents(&self.task_list)),
            idle_runnable: self.idle_runnable,
        }
    }
}

impl<const TASK_COUNT: usize, const CORE_FREQ: u32> Scheduler<TASK_COUNT, CORE_FREQ> {
    /// What holds of every scheduler: it holds no more tasks than it has
    /// room for, and no two of them collide.
    pub open spec fn well_formed(&self) -> bool {
        &&& self@.tasks.len() <= TASK_COUNT
        &&& distinct(self@.tasks)
    }

    /// A scheduler without tasks and without an idle runnable.
    pub fn new() -> (scheduler: Scheduler<TASK_COUNT, CORE_FREQ>)
        ensures
            scheduler.well_formed(),
            scheduler@.tasks == Seq::<TaskModel>::empty(),
            scheduler@.idle_runnable is None,
    {
        let scheduler = Scheduler { idle_runnable: None, task_list: task_list_new() };
        scheduler
    }

    /// The number of tasks the scheduler has room for.
    pub fn capacity(&self) -> (capacity: usize)
        ensures
            capacity == TASK_COUNT,
    {
        TASK_COUNT
    }

    /// The number of registered tasks.
    pub fn len(&self) -> (len: usize)
        ensures
            len == self@.tasks.len(),
    {
        task_list_as_slice(&self.task_list).len()
    }

    /// Whether the scheduler has no room for another task.
    pub fn is_full(&self) -> (full: bool)
        ensures
            full == (self@.tasks.len() >= TASK_COUNT),
    {
        self.len() >= TASK_COUNT
    }

    /// The task at position `index` in registration order, as it is now.
    pub fn task(&self, index: usize) -> (task: Option<Task>)
        ensures
            index < self@.tasks.len() ==> task is Some && task->0@ == self@.tasks[index as int],
            index >= self@.tasks.len() ==> task is None,
    {
        let tasks = task_list_as_slice(&self.task_list);
        if index < tasks.len() {
            Some(tasks[index])
        } else {
            None
        }
    }

    /// Puts `task` in the place of the task at position `index`.
    fn replace_task(&mut self, index: usize, task: Task)
        requires
            index < old(self)@.tasks.len(),
        ensures
            final(self)@.tasks == old(self)@.tasks.update(index as int, task@),
            final(self)@.idle_runnable == old(self)@.idle_runnable,
    {
        let tasks = task_list_as_mut_slice(&mut self.task_list);
        tasks[index] = task;
    }

    /// The idle runnable, if one is registered.
    pub fn idle_runnable(&self) -> (idle_runnable: Option<IdleRunnable>)
        ensures
            idle_runnable == self@.idle_runnable,
    {
        self.idle_runnable
    }

    /// Whether a registered task has the name, the init runnable or the
    /// process runnable of `task`.
    pub fn check_if_task_has_duplicates(&self, task: &Task) -> (duplicate: bool)
        ensures
            duplicate == has_duplicate(self@.tasks, task@),
    {
        let tasks = task_list_as_slice(&self.task_list);
        let mut i: usize = 0;
        while i < tasks.len()
            invariant
                i <= tasks@.len(),
                self@.tasks == task_models(tasks@),
                forall|j: int| 0 <= j < i ==> !duplicates(task@, #[trigger] self@.tasks[j]),
            decreases tasks@.len() - i,
        {
            assert(self@.tasks[i as int] == tasks@[i as int]@);
            if task.has_duplicates_of(&tasks[i]) {
                return true;
            }
            i = i + 1;
        }
        false
    }

    /// Registers `task` behind the tasks that are registered already.
    /// There must be room for it, and it must not collide with a
    /// registered task.
    pub fn add_task(&mut self, task: Task)
        requires
            old(self).well_formed(),
            old(self)@.tasks.len() < TASK_COUNT,
            !has_duplicate(old(self)@.tasks, task@),
        ensures
            final(self).well_formed(),
            final(self)@.tasks == old(self)@.tasks.push(task@),
            final(self)@.idle_runnable == old(self)@.idle_runnable,
    {
        let pushed = task_list_push(&mut self.task_list, task);
        assert(pushed is Ok);
        assert(self@.tasks =~= old(self)@.tasks.push(task@));
    }

    /// Registers `task` if that is possible, and says why not if it is
    /// not. A task that is refused leaves the scheduler as it was.
    pub fn try_add_task(&mut self, task: Task) -> (added: Result<(), ConfigError>)
        requires
            old(self).well_formed(),
        ensures
            final(self).well_formed(),
            added == admission(old(self)@.tasks, task@, TASK_COUNT as nat),
            final(self)@.tasks == if added is Ok {
                old(self)@.tasks.push(task@)
            } else {
                old(self)@.tasks
            },
            final(self)@.idle_runnable == old(self)@.idle_runnable,
    {
        if self.check_if_task_has_duplicates(&task) {
            return Err(ConfigError::DuplicateTask);
        }
        match task_list_push(&mut self.task_list, task) {
            Ok(()) => {
                assert(self@.tasks =~= old(self)@.tasks.push(task@));
                Ok(())
            },
            Err(_) => Err(ConfigError::TaskListFull),
        }
    }

    /// Makes `idle` the idle runnable, in place of any earlier one. It
    /// counts from the next dispatch pass on.
    pub fn register_idle_runnable(&mut self, idle: IdleRunnable)
        ensures
            final(self)@.idle_runnable == Some(idle),
            final(self)@.tasks == old(self)@.tasks,
    {
        self.idle_runnable = Some(idle);
    }

    /// The position of the first task called `name`.
    fn find_task(&self, name: &str) -> (found: Option<usize>)
        ensures
            match found {
                Some(i) => position_of(self@.tasks, name@) == Some(i as int) && i
                    < self@.tasks.len(),
                None => position_of(self@.tasks, name@) is None,
            },
    {
        proof {
            lemma_position_of(self@.tasks, name@);
        }
        let tasks = task_list_as_slice(&self.task_list);
        let mut i: usize = 0;
        while i < tasks.len()
            invariant
                i <= tasks@.len(),
                self@.tasks == task_models(tasks@),
                forall|j: int| 0 <= j < i ==> (#[trigger] self@.tasks[j]).name != name@,
            decreases tasks@.len() - i,
        {
            if tasks[i].is_named(name) {
                assert(is_first_named(self@.tasks, name@, i as int));
                return Some(i);
            }
            i = i + 1;
        }
        None
    }

    /// Signals the events of `event` to the task called `name`: they are
    /// added to the events that are pending for it. Nothing happens when
    /// no task has that name.
    pub fn set_task_event(&mut self, name: &str, event: EventMask)
        requires
            old(self).well_formed(),
        ensures
            final(self).well_formed(),
            final(self)@.tasks == after_set_event(old(self)@.tasks, name@, event),
            final(self)@.idle_runnable == old(self)@.idle_runnable,
    {
        match self.find_task(name) {
            Some(i) => {
                let mut task = task_list_as_slice(&self.task_list)[i];
                task.set_event(event);
                self.replace_task(i, task);
            },
            None => {},
        }
    }

    /// Withdraws the events of `event` from the task called `name`: they
    /// are no longer pending for it. Nothing happens when no task has that
    /// name.
    pub fn clear_task_event(&mut self, name: &str, event: EventMask)
        requires
            old(self).well_formed(),
        ensures
            final(self).well_formed(),
            final(self)@.tasks == after_clear_event(old(self)@.tasks, name@, event),
            final(self)@.idle_runnable == old(self)@.idle_runnable,
    {
        match self.find_task(name) {
            Some(i) => {
                let mut task = task_list_as_slice(&self.task_list)[i];
                task.clear_event(event);
                self.replace_task(i, task);
            },
            None => {},
        }
    }

    /// The events that are pending for the task called `name`, or nothing
    /// when no task has that name. The scheduler is left as it is.
    pub fn get_task_event(&mut self, name: &str) -> (event: Option<EventMask>)
        ensures
            event == pending_events(old(self)@.tasks, name@),
            *final(self) == *old(self),
    {
        match self.find_task(name) {
            Some(i) => Some(task_list_as_slice(&self.task_list)[i].event_monitor()),
            None => None,
        }
    }

    /// What has to run at launch for the task at position `index`: its init
    /// runnable, if it has one. At a position behind the last task nothing
    /// has to run.
    pub fn init_invocation(&self, index: usize) -> (init: Option<Invocation>)
        ensures
            index < self@.tasks.len() ==> init == init_firing(self@.tasks[index as int]),
            index >= self@.tasks.len() ==> init is None,
    {
        let tasks = task_list_as_slice(&self.task_list);
        if index < tasks.len() {
            tasks[index].init_invocation()
        } else {
            None
        }
    }

    /// The share of the task at position `index` in the launch at `tick`: a
    /// cyclic task gets its first deadline, one cycle and the offset after
    /// `tick`. No other task is touched. At a position behind the last task
    /// nothing changes.
    pub fn launch_task(&mut self, index: usize, tick: u32)
        requires
            old(self).well_formed(),
        ensures
            final(self).well_formed(),
            final(self)@.idle_runnable == old(self)@.idle_runnable,
            final(self)@.tasks == if index < old(self)@.tasks.len() {
                old(self)@.tasks.update(
                    index as int,
                    launched_task(old(self)@.tasks[index as int], tick),
                )
            } else {
                old(self)@.tasks
            },
    {
        if index < self.len() {
            let mut task = task_list_as_slice(&self.task_list)[index];
            task.launch(tick);
            self.replace_task(index, task);
        }
    }

    /// Launches the scheduler, all at the tick at which the timer starts.
    /// Binds the tick timer, which can be done once, and programs it to
    /// tick once per millisecond. Then goes over the tasks in registration
    /// order: names each init runnable that has to run, and gives each
    /// cyclic task its first deadline, one cycle and the offset after the
    /// current tick.
    ///
    /// Returns the timer and the init invocations. The caller runs the
    /// invocations in order and then makes dispatch passes without end.
    pub fn launch(&mut self, taken: &mut bool) -> (started: (SysTick, Vec<Invocation>))
        requires
            old(self).well_formed(),
            !*old(taken),
            CORE_FREQ >= TICK_RATE,
        ensures
            final(self).well_formed(),
            *final(taken),
            started.0@ == launched_timer(bound_timer(CORE_FREQ)),
            final(self)@.tasks == launched_tasks(old(self)@.tasks, started.0@.tick),
            final(self)@.idle_runnable == old(self)@.idle_runnable,
            started.1@ == init_invocations(old(self)@.tasks),
    {
        let mut systick = SysTick::bind_with_core_and_take(taken, CORE_FREQ).unwrap();
        systick.launch();

        let mut invocations: Vec<Invocation> = Vec::new();
        let mut i: usize = 0;
        while i < self.len()
            invariant
                self.well_formed(),
                i <= self@.tasks.len(),
                self@.tasks.len() == old(self)@.tasks.len(),
                self@.idle_runnable == old(self)@.idle_runnable,
                forall|j: int|
                    0 <= j < i ==> #[trigger] self@.tasks[j] == launched_task(
                        old(self)@.tasks[j],
                        systick@.tick,
                    ),
                forall|j: int|
                    i <= j < self@.tasks.len() ==> #[trigger] self@.tasks[j] == old(
                        self,
                    )@.tasks[j],
                invocations@ == init_invocations(old(self)@.tasks.take(i as int)),
            decreases self@.tasks.len() - i,
        {
            match self.init_invocation(i) {
                Some(invocation) => {
                    invocations.push(invocation);
                },
                None => {},
            }
            self.launch_task(i, systick.get());
            assert(old(self)@.tasks.take(i as int + 1).drop_last() =~= old(self)@.tasks.take(
                i as int,
            ));
            i = i + 1;
        }
        assert(old(self)@.tasks.take(i as int) =~= old(self)@.tasks);
        (systick, invocations)
    }

    /// Examines the task at position `index` at `tick` and says what fired.
    /// An event firing takes the pending events with it; a cyclic firing
    /// moves the deadline one cycle past `tick`. No other task is touched.
    /// At a position behind the last task nothing fires and nothing
    /// changes.
    pub fn dispatch_task(&mut self, index: usize, tick: u32) -> (firing: Firing)
        requires
            old(self).well_formed(),
        ensures
            final(self).well_formed(),
            final(self)@.idle_runnable == old(self)@.idle_runnable,
            index < old(self)@.tasks.len() ==> {
                &&& final(self)@.tasks == old(self)@.tasks.update(
                    index as int,
                    dispatched_task(old(self)@.tasks[index as int], tick),
                )
                &&& firing.by_event == event_firing(old(self)@.tasks[index as int])
                &&& firing.by_cycle == cyclic_firing(old(self)@.tasks[index as int], tick)
            },
            index >= old(self)@.tasks.len() ==> {
                &&& final(self)@.tasks == old(self)@.tasks
                &&& firing.by_event is None
                &&& firing.by_cycle is None
            },
    {
        if index < self.len() {
            let mut task = task_list_as_slice(&self.task_list)[index];
            let firing = task.dispatch(tick);
            self.replace_task(index, task);
            firing
        } else {
            Firing { by_event: None, by_cycle: None }
        }
    }

    /// What has to run at the end of a pass besides the firings: the idle
    /// runnable, if one is registered and no task fired on the pass.
    pub fn idle_invocation(&self, task_execution: bool) -> (idle: Option<Invocation>)
        ensures
            idle == idle_invocation(self@.idle_runnable, task_execution),
    {
        match self.idle_runnable {
            Some(idle_runnable) => {
                if !task_execution {
                    Some(Invocation::Idle(idle_runnable))
                } else {
                    None
                }
            },
            None => None,
        }
    }

    /// Makes one dispatch pass at `tick`: examines the tasks in
    /// registration order, all at this tick, and then decides on the idle
    /// runnable.
    ///
    /// Returns what has to run, in order.
    pub fn dispatch_pass(&mut self, tick: u32) -> (invocations: Vec<Invocation>)
        requires
            old(self).well_formed(),
        ensures
            final(self).well_formed(),
            final(self)@.tasks == dispatched_tasks(old(self)@.tasks, tick),
            final(self)@.idle_runnable == old(self)@.idle_runnable,
            invocations@ == pass_invocations(old(self)@, tick),
    {
        let mut invocations: Vec<Invocation> = Vec::new();
        let mut task_execution = false;
        let mut i: usize = 0;
        while i < self.len()
            invariant
                self.well_formed(),
                i <= self@.tasks.len(),
                self@.tasks.len() == old(self)@.tasks.len(),
                self@.idle_runnable == old(self)@.idle_runnable,
                forall|j: int|
                    0 <= j < i ==> #[trigger] self@.tasks[j] == dispatched_task(
                        old(self)@.tasks[j],
                        tick,
                    ),
                forall|j: int|
                    i <= j < self@.tasks.len() ==> #[trigger] self@.tasks[j] == old(
                        self,
                    )@.tasks[j],
                invocations@ == pass_firings(old(self)@.tasks.take(i as int), tick),
                task_execution == (invocations@.len() > 0),
            decreases self@.tasks.len() - i,
        {
            let firing = self.dispatch_task(i, tick);
            match firing.by_event {
                Some(invocation) => {
                    invocations.push(invocation);
                },
                None => {},
            }
            match firing.by_cycle {
                Some(invocation) => {
                    invocations.push(invocation);
                },
                None => {},
            }
            task_execution = task_execution || firing.fired();
            assert(old(self)@.tasks.take(i as int + 1).drop_last() =~= old(self)@.tasks.take(
                i as int,
            ));
            i = i + 1;
        }
        assert(old(self)@.tasks.take(i as int) =~= old(self)@.tasks);
        match self.idle_invocation(task_execution) {
            Some(invocation) => {
                invocations.push(invocation);
            },
            None => {},
        }
        invocations
    }
}

} // verus!
