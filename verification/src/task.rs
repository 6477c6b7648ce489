//! The task: its identity, its callbacks, its cadence and its control block.
//!
//! A task is made and read here. Its control block changes only through the
//! scheduler that the task is registered with.

use crate::model::{
    cyclic_firing, dispatched_task, duplicates, event_firing, fresh_task, init_firing,
    launched_task, with_event_cleared, with_event_set, EventMask, InitRunnable, Invocation,
    ProcessRunnable, TaskModel, TaskName,
};
use vstd::prelude::*;
use vstd::string::StringSliceAdditionalSpecFns;

verus! {

/// The scheduling state of a task that changes while the scheduler runs.
#[derive(Clone, Copy, Debug)]
struct TaskCtrlBlock {
    cycle_monitor: u32,
    event_monitor: EventMask,
}

/// A task: a name, what to run at launch, what to run when the task fires,
/// and how often it fires by itself.
#[derive(Clone, Copy, Debug)]
pub struct Task {
    name: TaskName,
    init_runnable: Option<InitRunnable>,
    process_runnable: Option<ProcessRunnable>,
    execution_cycle: Option<u32>,
    execution_offset: Option<u32>,
    tcb: TaskCtrlBlock,
}

/// What fired when a task was examined.
#[derive(Clone, Copy, Debug)]
pub struct Firing {
    /// The firing for pending events. It comes first.
    pub by_event: Option<Invocation>,
    /// The firing for the elapsed cycle.
    pub by_cycle: Option<Invocation>,
}

impl Firing {
    /// Whether the task fired at all.
    pub fn fired(&self) -> (fired: bool)
        ensures
            fired == (self.by_event is Some || self.by_cycle is Some),
    {
        self.by_event.is_some() || self.by_cycle.is_some()
    }
}

impl View for Task {
    type V = TaskModel;

    closed spec fn view(&self) -> TaskModel {
        TaskModel {
            name: self.name@,
            init_runnable: self.init_runnable,
            process_runnable: self.process_runnable,
            execution_cycle: self.execution_cycle,
            execution_offset: self.execution_offset,
            cycle_monitor: self.tcb.cycle_monitor,
            event_monitor: self.tcb.event_monitor,
        }
    }
}

/// The tasks, each as plain values.
pub open spec fn task_models(tasks: Seq<Task>) -> Seq<TaskModel> {
    Seq::new(tasks.len(), |i: int| tasks[i]@)
}

/// Whether two strings hold the same characters.
pub fn same_name(a: &str, b: &str) -> (same: bool)
    ensures
        same == (a@ == b@),
{
    let left = a.as_bytes();
    let right = b.as_bytes();
    proof {
        // A string is determined by its bytes.
        vstd::utf8::encode_utf8_decode_utf8(a@);
        vstd::utf8::encode_utf8_decode_utf8(b@);
    }
    if left.len() != right.len() {
        return false;
    }
    let mut i: usize = 0;
    while i < left.len()
        invariant
            i <= left.len(),
            left.len() == right.len(),
            left@ == a.spec_bytes(),
            right@ == b.spec_bytes(),
            forall|j: int| 0 <= j < i ==> left@[j] == right@[j],
        decreases left.len() - i,
    {
        if left[i] != right[i] {
            return false;
        }
        i = i + 1;
    }
    assert(left@ =~= right@);
    true
}

impl Task {
    /// A task with nothing pending and no deadline yet. No callback runs
    /// before launch.
    pub fn new(
        name: TaskName,
        init_runnable: Option<InitRunnable>,
        process_runnable: Option<ProcessRunnable>,
        execution_cycle: Option<u32>,
        execution_offset: Option<u32>,
    ) -> (task: Task)
        ensures
            task@ == fresh_task(
                name@,
                init_runnable,
                process_runnable,
                execution_cycle,
                execution_offset,
            ),
    {
        Task {
            name,
            init_runnable,
            process_runnable,
            execution_cycle,
            execution_offset,
            tcb: TaskCtrlBlock { cycle_monitor: 0, event_monitor: 0 },
        }
    }

    /// Whether the two tasks share the name, the init runnable or the
    /// process runnable.
    pub fn has_duplicates_of(&self, other: &Self) -> (duplicate: bool)
        ensures
            duplicate == duplicates(self@, other@),
    {
        same_name(self.name, other.name) || self.has_same_init_runnable_as(other)
            || self.has_same_process_runnable_as(other)
    }

    fn has_same_init_runnable_as(&self, other: &Self) -> (same: bool)
        ensures
            same == (self@.init_runnable is Some && self@.init_runnable == other@.init_runnable),
    {
        match (self.init_runnable, other.init_runnable) {
            (Some(init_runnable), Some(other_init_runnable)) => init_runnable
                == other_init_runnable,
            _ => false,
        }
    }

    fn has_same_process_runnable_as(&self, other: &Self) -> (same: bool)
        ensures
            same == (self@.process_runnable is Some && self@.process_runnable
                == other@.process_runnable),
    {
        match (self.process_runnable, other.process_runnable) {
            (Some(process_runnable), Some(other_process_runnable)) => process_runnable
                == other_process_runnable,
            _ => false,
        }
    }

    /// Whether the task is called `name`.
    pub fn is_named(&self, name: &str) -> (named: bool)
        ensures
            named == (self@.name == name@),
    {
        same_name(self.name, name)
    }

    /// The name of the task.
    pub fn name(&self) -> (name: TaskName)
        ensures
            name@ == self@.name,
    {
        self.name
    }

    /// What runs once at launch, if anything.
    pub fn init_runnable(&self) -> (init_runnable: Option<InitRunnable>)
        ensures
            init_runnable == self@.init_runnable,
    {
        self.init_runnable
    }

    /// What runs when the task fires, if anything.
    pub fn process_runnable(&self) -> (process_runnable: Option<ProcessRunnable>)
        ensures
            process_runnable == self@.process_runnable,
    {
        self.process_runnable
    }

    /// The ticks between two cyclic firings, if the task fires cyclically.
    pub fn execution_cycle(&self) -> (execution_cycle: Option<u32>)
        ensures
            execution_cycle == self@.execution_cycle,
    {
        self.execution_cycle
    }

    /// The ticks by which the first cyclic firing is delayed, if it is.
    pub fn execution_offset(&self) -> (execution_offset: Option<u32>)
        ensures
            execution_offset == self@.execution_offset,
    {
        self.execution_offset
    }

    /// The absolute tick at which the task is next due cyclically.
    pub fn cycle_monitor(&self) -> (cycle_monitor: u32)
        ensures
            cycle_monitor == self@.cycle_monitor,
    {
        self.tcb.cycle_monitor
    }

    /// The events that are pending for the task.
    pub fn event_monitor(&self) -> (event_monitor: EventMask)
        ensures
            event_monitor == self@.event_monitor,
    {
        self.tcb.event_monitor
    }

    /// Adds the events of `mask` to the pending ones.
    pub(crate) fn set_event(&mut self, mask: EventMask)
        ensures
            final(self)@ == with_event_set(old(self)@, mask),
    {
        self.tcb.event_monitor = self.tcb.event_monitor | mask;
    }

    /// Withdraws the events of `mask` from the pending ones.
    pub(crate) fn clear_event(&mut self, mask: EventMask)
        ensures
            final(self)@ == with_event_cleared(old(self)@, mask),
    {
        self.tcb.event_monitor = self.tcb.event_monitor & !mask;
    }

    /// What has to run for the task at launch: its init runnable, if it has
    /// one.
    pub fn init_invocation(&self) -> (init: Option<Invocation>)
        ensures
            init == init_firing(self@),
    {
        match self.init_runnable {
            Some(init_runnable) => Some(Invocation::Init(init_runnable)),
            None => None,
        }
    }

    /// The task's share of the launch at `tick`: a cyclic task gets its
    /// first deadline, one cycle and the offset after `tick`.
    pub(crate) fn launch(&mut self, tick: u32)
        ensures
            final(self)@ == launched_task(old(self)@, tick),
    {
        match (self.process_runnable, self.execution_cycle) {
            (Some(_), Some(execution_cycle)) => {
                let offset = match self.execution_offset {
                    Some(execution_offset) => execution_offset,
                    None => 0,
                };
                self.tcb.cycle_monitor = tick.wrapping_add(execution_cycle).wrapping_add(offset);
            },
            _ => {},
        }
    }

    /// Examines the task at `tick` and says what fired. A cyclic firing
    /// moves the deadline one cycle past `tick`. An event firing takes the
    /// pending events with it and leaves none behind.
    pub(crate) fn dispatch(&mut self, tick: u32) -> (firing: Firing)
        ensures
            final(self)@ == dispatched_task(old(self)@, tick),
            firing.by_event == event_firing(old(self)@),
            firing.by_cycle == cyclic_firing(old(self)@, tick),
    {
        let mut firing = Firing { by_event: None, by_cycle: None };
        match self.process_runnable {
            Some(process_runnable) => {
                match self.execution_cycle {
                    Some(execution_cycle) => {
                        if tick >= self.tcb.cycle_monitor {
                            self.tcb.cycle_monitor = tick.wrapping_add(execution_cycle);
                            firing.by_cycle = Some(Invocation::Process(process_runnable, 0));
                        }
                    },
                    None => {},
                }
                if self.tcb.event_monitor != 0 {
                    let event_mask = self.tcb.event_monitor;
                    self.tcb.event_monitor = 0;
                    firing.by_event = Some(Invocation::Process(process_runnable, event_mask));
                }
            },
            None => {},
        }
        firing
    }
}

} // verus!
