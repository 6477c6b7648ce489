use non_preemptive_scheduler::port::{
    SYST_CSR_COUNTER_ENABLE, SYST_CSR_TICK_INT_ENABLE, SYST_CSR_TICK_PROCESSOR_AS_CLCK_SOURCE,
    TICK_RATE,
};
use non_preemptive_scheduler::{critical_section, Scheduler, SysTick, Task};

#[test]
fn timer_is_bound_once() {
    let mut taken = false;
    let first = SysTick::bind_with_core_and_take(&mut taken, 8_000_000);
    assert!(taken);
    assert!(first.is_some());
    let second = SysTick::bind_with_core_and_take(&mut taken, 8_000_000);
    assert!(taken);
    assert!(second.is_none());
    let third = SysTick::bind_with_core_and_take(&mut taken, 16_000_000);
    assert!(third.is_none());
}

#[test]
fn bound_timer_is_at_reset() {
    let mut taken = false;
    let systick = SysTick::bind_with_core_and_take(&mut taken, 8_000_000).unwrap();
    assert_eq!(systick.core_freq(), 8_000_000);
    assert_eq!(systick.control(), 0);
    assert_eq!(systick.reload(), 0);
    assert_eq!(systick.get(), 0);
}

#[test]
fn timer_does_not_tick_before_launch() {
    let mut taken = false;
    let mut systick = SysTick::bind_with_core_and_take(&mut taken, 8_000_000).unwrap();
    systick.tick();
    systick.tick();
    assert_eq!(systick.get(), 0);
}

#[test]
fn launched_timer_ticks_once_per_millisecond() {
    let mut taken = false;
    let mut systick = SysTick::bind_with_core_and_take(&mut taken, 8_000_000).unwrap();
    systick.launch();
    assert_eq!(systick.reload(), 7_999);
    assert_eq!(
        systick.control(),
        SYST_CSR_COUNTER_ENABLE | SYST_CSR_TICK_INT_ENABLE | SYST_CSR_TICK_PROCESSOR_AS_CLCK_SOURCE
    );
    assert_eq!(systick.get(), 0);
    for expected in 1..=2500u32 {
        systick.tick();
        assert_eq!(systick.get(), expected);
    }
}

#[test]
fn launch_twice_programs_the_same() {
    let mut taken = false;
    let mut systick = SysTick::bind_with_core_and_take(&mut taken, 100_000_000).unwrap();
    systick.launch();
    systick.tick();
    systick.launch();
    assert_eq!(systick.reload(), 99_999);
    assert_eq!(systick.control(), 0x7);
    assert_eq!(systick.get(), 1);
}

#[test]
fn reload_value_is_cycles_per_tick_less_one() {
    assert_eq!(TICK_RATE, 1000);
    assert_eq!(SysTick::reload_value(1000), 0);
    assert_eq!(SysTick::reload_value(1999), 0);
    assert_eq!(SysTick::reload_value(2000), 1);
    assert_eq!(SysTick::reload_value(180_000_000), 179_999);
    assert_eq!(SysTick::reload_value(u32::MAX), 4_294_966);
}

#[test]
fn control_values_keep_the_other_bits() {
    assert_eq!(SysTick::stop_counter(0x0000_0000), 0x0000_0000);
    assert_eq!(SysTick::stop_counter(0x0000_0007), 0x0000_0006);
    assert_eq!(SysTick::stop_counter(0x0001_0001), 0x0001_0000);
    assert_eq!(SysTick::start_counter(0x0000_0000), 0x0000_0007);
    assert_eq!(SysTick::start_counter(0x0001_0000), 0x0001_0007);
    assert_eq!(SysTick::start_counter(0x0000_0002), 0x0000_0007);
}

#[test]
fn critical_section_hands_the_result_back() {
    let value = 20;
    assert_eq!(critical_section(|_| value + 1), 21);
    let text = critical_section(|_| String::from("inside"));
    assert_eq!(text, "inside");
}

#[test]
fn events_can_be_signalled_inside_a_critical_section() {
    let mut scheduler: Scheduler<1, 100_000_000> = Scheduler::new();
    scheduler.add_task(Task::new("worker", None, Some(1), None, None));
    critical_section(|_| scheduler.set_task_event("worker", 0x0000_0006));
    critical_section(|_| scheduler.clear_task_event("worker", 0x0000_0002));
    assert_eq!(critical_section(|_| scheduler.get_task_event("worker")), Some(0x0000_0004));
}
