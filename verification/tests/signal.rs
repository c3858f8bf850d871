use workpool::pool::StartupError;
use workpool::signal::InterruptRegistry;
use workpool::signal::MainLoopStep;
use workpool::signal::ShutdownFlag;
use workpool::signal::main_loop_step;
use workpool::signal::on_interrupt;

#[test]
fn main_loop_polls_until_the_flag_trips() {
    let mut flag = ShutdownFlag::new();
    assert!(!flag.should_stop());
    assert_eq!(main_loop_step(&flag), MainLoopStep::KeepPolling);
    flag.trip();
    assert!(flag.should_stop());
    assert_eq!(main_loop_step(&flag), MainLoopStep::BeginTeardown);
    // Tripping again changes nothing: the write is idempotent.
    flag.trip();
    assert_eq!(main_loop_step(&flag), MainLoopStep::BeginTeardown);
}

#[test]
fn interrupt_trips_the_flag_and_says_so() {
    let mut flag = ShutdownFlag::new();
    let msg = on_interrupt(&mut flag);
    assert_eq!(msg, "Server shutting down...");
    assert!(flag.should_stop());
}

#[test]
fn handler_registration_is_once_per_process() {
    let mut registry = InterruptRegistry::new();
    assert_eq!(registry.register(), Ok(()));
    assert_eq!(registry.register(), Err(StartupError::HandlerAlreadyRegistered));
    assert_eq!(registry.register(), Err(StartupError::HandlerAlreadyRegistered));
}
