use non_preemptive_scheduler::{EventMask, Scheduler, Task};

const DUMMY_CORE_FREQ: u32 = 100_000_000;

#[test]
fn task_event_handling() {
    const TASK_COUNT: usize = 1;
    const TASK_NAME: &str = "Dummy task";
    const TASK_EVENT1: EventMask = 0x00000001;
    const TASK_EVENT2: EventMask = 0x00000002;

    let mut scheduler: Scheduler<TASK_COUNT, DUMMY_CORE_FREQ> = Scheduler::new();
    let task = Task::new(TASK_NAME, None, None, None, None);

    let task_event_mask = scheduler.get_task_event(TASK_NAME);
    assert_eq!(task_event_mask, None);

    scheduler.add_task(task);

    let task_event_mask = scheduler.get_task_event(TASK_NAME);
    assert_eq!(task_event_mask, Some(0));

    scheduler.set_task_event(TASK_NAME, TASK_EVENT1 | TASK_EVENT2);
    let task_event_mask = scheduler.get_task_event(TASK_NAME);
    assert_eq!(task_event_mask, Some(TASK_EVENT1 | TASK_EVENT2));
}

#[test]
fn event_of_unknown_task_is_absent() {
    let mut scheduler: Scheduler<2, DUMMY_CORE_FREQ> = Scheduler::new();
    assert_eq!(scheduler.get_task_event("nobody"), None);
    scheduler.add_task(Task::new("somebody", None, Some(1), None, None));
    assert_eq!(scheduler.get_task_event("nobody"), None);
    assert_eq!(scheduler.get_task_event(""), None);
}

#[test]
fn event_of_new_task_is_zero() {
    let mut scheduler: Scheduler<2, DUMMY_CORE_FREQ> = Scheduler::new();
    scheduler.add_task(Task::new("first", Some(1), Some(1), Some(10), Some(5)));
    scheduler.add_task(Task::new("second", None, None, None, None));
    assert_eq!(scheduler.get_task_event("first"), Some(0));
    assert_eq!(scheduler.get_task_event("second"), Some(0));
}

#[test]
fn set_events_accumulate() {
    let mut scheduler: Scheduler<1, DUMMY_CORE_FREQ> = Scheduler::new();
    scheduler.add_task(Task::new("worker", None, Some(1), None, None));
    scheduler.set_task_event("worker", 0x0000_0005);
    scheduler.set_task_event("worker", 0x0000_0012);
    assert_eq!(scheduler.get_task_event("worker"), Some(0x0000_0017));
    scheduler.set_task_event("worker", 0x8000_0000);
    assert_eq!(scheduler.get_task_event("worker"), Some(0x8000_0017));
    scheduler.set_task_event("worker", 0);
    assert_eq!(scheduler.get_task_event("worker"), Some(0x8000_0017));
}

#[test]
fn set_event_twice_is_set_once() {
    let mut scheduler: Scheduler<1, DUMMY_CORE_FREQ> = Scheduler::new();
    scheduler.add_task(Task::new("worker", None, Some(1), None, None));
    scheduler.set_task_event("worker", 0x0000_0004);
    scheduler.set_task_event("worker", 0x0000_0004);
    assert_eq!(scheduler.get_task_event("worker"), Some(0x0000_0004));
}

#[test]
fn clear_after_set_leaves_nothing() {
    let mut scheduler: Scheduler<1, DUMMY_CORE_FREQ> = Scheduler::new();
    scheduler.add_task(Task::new("worker", None, Some(1), None, None));
    scheduler.set_task_event("worker", 0x0000_00F0);
    scheduler.clear_task_event("worker", 0x0000_00F0);
    assert_eq!(scheduler.get_task_event("worker"), Some(0));
    scheduler.set_task_event("worker", 0xFFFF_FFFF);
    scheduler.clear_task_event("worker", 0xFFFF_FFFF);
    assert_eq!(scheduler.get_task_event("worker"), Some(0));
}

#[test]
fn clear_withdraws_only_the_mask() {
    let mut scheduler: Scheduler<1, DUMMY_CORE_FREQ> = Scheduler::new();
    scheduler.add_task(Task::new("worker", None, Some(1), None, None));
    scheduler.set_task_event("worker", 0x0000_00FF);
    scheduler.clear_task_event("worker", 0x0000_0F0F);
    assert_eq!(scheduler.get_task_event("worker"), Some(0x0000_00F0));
}

#[test]
fn clear_of_events_not_pending_changes_nothing() {
    let mut scheduler: Scheduler<1, DUMMY_CORE_FREQ> = Scheduler::new();
    scheduler.add_task(Task::new("worker", None, Some(1), None, None));
    scheduler.set_task_event("worker", 0x0000_0003);
    scheduler.clear_task_event("worker", 0x0000_0F00);
    assert_eq!(scheduler.get_task_event("worker"), Some(0x0000_0003));
    scheduler.clear_task_event("worker", 0);
    assert_eq!(scheduler.get_task_event("worker"), Some(0x0000_0003));
}

#[test]
fn events_of_unknown_task_are_ignored() {
    let mut scheduler: Scheduler<2, DUMMY_CORE_FREQ> = Scheduler::new();
    scheduler.add_task(Task::new("left", None, Some(1), None, None));
    scheduler.add_task(Task::new("right", None, Some(2), None, None));
    scheduler.set_task_event("right", 0x0000_0002);
    scheduler.set_task_event("middle", 0x0000_0001);
    scheduler.clear_task_event("middle", 0x0000_0002);
    assert_eq!(scheduler.get_task_event("middle"), None);
    assert_eq!(scheduler.get_task_event("left"), Some(0));
    assert_eq!(scheduler.get_task_event("right"), Some(0x0000_0002));
    assert_eq!(scheduler.len(), 2);
}

#[test]
fn events_reach_the_named_task_only() {
    let mut scheduler: Scheduler<3, DUMMY_CORE_FREQ> = Scheduler::new();
    scheduler.add_task(Task::new("a", None, Some(1), None, None));
    scheduler.add_task(Task::new("ab", None, Some(2), None, None));
    scheduler.add_task(Task::new("abc", None, Some(3), None, None));
    scheduler.set_task_event("ab", 0x0000_0010);
    assert_eq!(scheduler.get_task_event("a"), Some(0));
    assert_eq!(scheduler.get_task_event("ab"), Some(0x0000_0010));
    assert_eq!(scheduler.get_task_event("abc"), Some(0));
    scheduler.clear_task_event("abc", 0x0000_0010);
    assert_eq!(scheduler.get_task_event("ab"), Some(0x0000_0010));
}

#[test]
fn names_are_compared_by_value() {
    let mut scheduler: Scheduler<2, DUMMY_CORE_FREQ> = Scheduler::new();
    scheduler.add_task(Task::new("Zähler", None, Some(1), None, None));
    scheduler.add_task(Task::new("", None, Some(2), None, None));
    let mut name = String::from("Zäh");
    name.push_str("ler");
    scheduler.set_task_event(&name, 0x0000_0001);
    assert_eq!(scheduler.get_task_event("Zähler"), Some(0x0000_0001));
    assert_eq!(scheduler.get_task_event("Zahler"), None);
    assert_eq!(scheduler.get_task_event("zähler"), None);
    scheduler.set_task_event("", 0x0000_0008);
    assert_eq!(scheduler.get_task_event(""), Some(0x0000_0008));
}

#[test]
fn events_leave_the_rest_of_the_task_alone() {
    let mut scheduler: Scheduler<1, DUMMY_CORE_FREQ> = Scheduler::new();
    scheduler.add_task(Task::new("worker", Some(7), Some(9), Some(250), Some(3)));
    scheduler.register_idle_runnable(4);
    scheduler.set_task_event("worker", 0x0000_0003);
    scheduler.clear_task_event("worker", 0x0000_0001);
    let task = scheduler.task(0).unwrap();
    assert_eq!(task.name(), "worker");
    assert_eq!(task.init_runnable(), Some(7));
    assert_eq!(task.process_runnable(), Some(9));
    assert_eq!(task.execution_cycle(), Some(250));
    assert_eq!(task.execution_offset(), Some(3));
    assert_eq!(task.cycle_monitor(), 0);
    assert_eq!(task.event_monitor(), 0x0000_0002);
    assert_eq!(scheduler.idle_runnable(), Some(4));
}
