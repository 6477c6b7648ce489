use non_preemptive_scheduler::{ConfigError, Scheduler, Task};

const DUMMY_CORE_FREQ: u32 = 100_000_000;

#[test]
#[should_panic]
fn task_name_duplication() {
    const TASK_COUNT: usize = 2;
    let mut scheduler: Scheduler<TASK_COUNT, DUMMY_CORE_FREQ> = Scheduler::new();
    let task1 = Task::new("Dummy task 1", None, None, None, None);
    let task2 = Task::new("Dummy task 1", None, None, None, None);

    scheduler.try_add_task(task1).unwrap();
    scheduler.try_add_task(task2).unwrap();
}

#[test]
#[should_panic]
fn task_init_runnable_duplication() {
    const TASK_COUNT: usize = 2;
    const DUMMY_INIT_RUNNABLE: u32 = 1;

    let mut scheduler: Scheduler<TASK_COUNT, DUMMY_CORE_FREQ> = Scheduler::new();
    let task1 = Task::new("Dummy task 1", Some(DUMMY_INIT_RUNNABLE), None, None, None);
    let task2 = Task::new("Dummy task 2", Some(DUMMY_INIT_RUNNABLE), None, None, None);

    scheduler.try_add_task(task1).unwrap();
    scheduler.try_add_task(task2).unwrap();
}

#[test]
#[should_panic]
fn task_process_runnable_duplication() {
    const TASK_COUNT: usize = 2;
    const DUMMY_PROCESS_RUNNABLE: u32 = 1;

    let mut scheduler: Scheduler<TASK_COUNT, DUMMY_CORE_FREQ> = Scheduler::new();
    let task1 = Task::new(
        "Dummy task 1",
        None,
        Some(DUMMY_PROCESS_RUNNABLE),
        None,
        None,
    );
    let task2 = Task::new(
        "Dummy task 2",
        None,
        Some(DUMMY_PROCESS_RUNNABLE),
        None,
        None,
    );

    scheduler.try_add_task(task1).unwrap();
    scheduler.try_add_task(task2).unwrap();
}

#[test]
fn new_task_has_a_zeroed_control_block() {
    let task = Task::new("blinky", Some(3), Some(4), Some(250), Some(10));
    assert_eq!(task.name(), "blinky");
    assert_eq!(task.init_runnable(), Some(3));
    assert_eq!(task.process_runnable(), Some(4));
    assert_eq!(task.execution_cycle(), Some(250));
    assert_eq!(task.execution_offset(), Some(10));
    assert_eq!(task.cycle_monitor(), 0);
    assert_eq!(task.event_monitor(), 0);
}

#[test]
fn new_scheduler_is_empty() {
    let scheduler: Scheduler<3, DUMMY_CORE_FREQ> = Scheduler::new();
    assert_eq!(scheduler.len(), 0);
    assert_eq!(scheduler.capacity(), 3);
    assert!(!scheduler.is_full());
    assert!(scheduler.task(0).is_none());
    assert_eq!(scheduler.idle_runnable(), None);
}

#[test]
fn registry_keeps_insertion_order() {
    let mut scheduler: Scheduler<4, DUMMY_CORE_FREQ> = Scheduler::new();
    let names = ["delta", "alpha", "charlie", "bravo"];
    let mut id: u32 = 0;
    for name in names {
        id += 1;
        let task = Task::new(name, Some(id), Some(id), Some(100 * id), None);
        assert_eq!(scheduler.try_add_task(task), Ok(()));
    }
    assert_eq!(scheduler.len(), 4);
    assert!(scheduler.is_full());
    for (index, name) in names.iter().enumerate() {
        let task = scheduler.task(index).unwrap();
        assert_eq!(task.name(), *name);
        assert_eq!(task.init_runnable(), Some(index as u32 + 1));
        assert_eq!(task.execution_cycle(), Some(100 * (index as u32 + 1)));
    }
    assert!(scheduler.task(4).is_none());
}

#[test]
fn duplicate_name_is_refused() {
    let mut scheduler: Scheduler<3, DUMMY_CORE_FREQ> = Scheduler::new();
    assert_eq!(scheduler.try_add_task(Task::new("one", Some(1), Some(1), None, None)), Ok(()));
    assert_eq!(scheduler.try_add_task(Task::new("two", Some(2), Some(2), None, None)), Ok(()));
    let again = Task::new("one", Some(3), Some(3), Some(10), None);
    assert!(scheduler.check_if_task_has_duplicates(&again));
    assert_eq!(scheduler.try_add_task(again), Err(ConfigError::DuplicateTask));
    assert_eq!(scheduler.len(), 2);
    assert_eq!(scheduler.task(0).unwrap().init_runnable(), Some(1));
    assert_eq!(scheduler.task(1).unwrap().name(), "two");
}

#[test]
fn duplicate_init_runnable_is_refused() {
    let mut scheduler: Scheduler<3, DUMMY_CORE_FREQ> = Scheduler::new();
    assert_eq!(scheduler.try_add_task(Task::new("one", Some(1), None, None, None)), Ok(()));
    assert_eq!(scheduler.try_add_task(Task::new("two", Some(2), None, None, None)), Ok(()));
    assert_eq!(
        scheduler.try_add_task(Task::new("three", Some(2), Some(9), None, None)),
        Err(ConfigError::DuplicateTask)
    );
    assert_eq!(scheduler.len(), 2);
}

#[test]
fn duplicate_process_runnable_is_refused() {
    let mut scheduler: Scheduler<3, DUMMY_CORE_FREQ> = Scheduler::new();
    assert_eq!(scheduler.try_add_task(Task::new("one", None, Some(5), None, None)), Ok(()));
    assert_eq!(
        scheduler.try_add_task(Task::new("two", Some(1), Some(5), Some(1), Some(1))),
        Err(ConfigError::DuplicateTask)
    );
    assert_eq!(scheduler.len(), 1);
}

#[test]
fn absent_runnables_collide_with_nothing() {
    let mut scheduler: Scheduler<3, DUMMY_CORE_FREQ> = Scheduler::new();
    assert_eq!(scheduler.try_add_task(Task::new("one", None, None, None, None)), Ok(()));
    assert_eq!(scheduler.try_add_task(Task::new("two", None, None, None, None)), Ok(()));
    assert_eq!(scheduler.try_add_task(Task::new("three", None, Some(1), None, None)), Ok(()));
    assert_eq!(scheduler.len(), 3);
}

#[test]
fn init_and_process_runnables_are_told_apart() {
    let mut scheduler: Scheduler<2, DUMMY_CORE_FREQ> = Scheduler::new();
    assert_eq!(scheduler.try_add_task(Task::new("one", Some(1), Some(2), None, None)), Ok(()));
    let crossed = Task::new("two", Some(2), Some(1), None, None);
    assert!(!scheduler.check_if_task_has_duplicates(&crossed));
    assert_eq!(scheduler.try_add_task(crossed), Ok(()));
}

#[test]
fn same_cadence_is_no_collision() {
    let one = Task::new("one", Some(1), Some(1), Some(250), Some(5));
    let two = Task::new("two", Some(2), Some(2), Some(250), Some(5));
    assert!(!one.has_duplicates_of(&two));
    assert!(!two.has_duplicates_of(&one));
}

#[test]
fn has_duplicates_of_each_reason() {
    let task = Task::new("task", Some(1), Some(2), None, None);
    assert!(task.has_duplicates_of(&task));
    assert!(task.has_duplicates_of(&Task::new("task", None, None, None, None)));
    assert!(task.has_duplicates_of(&Task::new("other", Some(1), None, None, None)));
    assert!(task.has_duplicates_of(&Task::new("other", None, Some(2), None, None)));
    assert!(!task.has_duplicates_of(&Task::new("other", Some(2), Some(1), None, None)));
    assert!(!task.has_duplicates_of(&Task::new("other", None, None, None, None)));
    assert!(!task.has_duplicates_of(&Task::new("tasks", Some(3), Some(4), None, None)));
    assert!(!task.has_duplicates_of(&Task::new("tas", Some(3), Some(4), None, None)));
    assert!(!task.has_duplicates_of(&Task::new("Task", Some(3), Some(4), None, None)));
}

#[test]
fn adding_beyond_capacity_is_refused() {
    let mut scheduler: Scheduler<2, DUMMY_CORE_FREQ> = Scheduler::new();
    assert_eq!(scheduler.try_add_task(Task::new("one", None, Some(1), None, None)), Ok(()));
    assert!(!scheduler.is_full());
    assert_eq!(scheduler.try_add_task(Task::new("two", None, Some(2), None, None)), Ok(()));
    assert!(scheduler.is_full());
    assert_eq!(
        scheduler.try_add_task(Task::new("three", None, Some(3), None, None)),
        Err(ConfigError::TaskListFull)
    );
    assert_eq!(scheduler.len(), 2);
    assert_eq!(scheduler.get_task_event("three"), None);
    assert_eq!(scheduler.task(1).unwrap().name(), "two");
}

#[test]
fn scheduler_without_room_takes_no_task() {
    let mut scheduler: Scheduler<0, DUMMY_CORE_FREQ> = Scheduler::new();
    assert!(scheduler.is_full());
    assert_eq!(
        scheduler.try_add_task(Task::new("one", None, None, None, None)),
        Err(ConfigError::TaskListFull)
    );
    assert_eq!(scheduler.len(), 0);
}

#[test]
fn duplicate_is_reported_before_full() {
    let mut scheduler: Scheduler<1, DUMMY_CORE_FREQ> = Scheduler::new();
    assert_eq!(scheduler.try_add_task(Task::new("one", None, None, None, None)), Ok(()));
    assert_eq!(
        scheduler.try_add_task(Task::new("one", None, None, None, None)),
        Err(ConfigError::DuplicateTask)
    );
    assert_eq!(
        scheduler.try_add_task(Task::new("two", None, None, None, None)),
        Err(ConfigError::TaskListFull)
    );
}

#[test]
fn idle_runnable_is_replaced() {
    let mut scheduler: Scheduler<1, DUMMY_CORE_FREQ> = Scheduler::new();
    assert_eq!(scheduler.idle_runnable(), None);
    scheduler.register_idle_runnable(11);
    assert_eq!(scheduler.idle_runnable(), Some(11));
    scheduler.register_idle_runnable(12);
    assert_eq!(scheduler.idle_runnable(), Some(12));
    assert_eq!(scheduler.len(), 0);
}
