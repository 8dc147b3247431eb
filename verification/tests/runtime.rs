use lachesis::Error;
use lachesis::HandoffAction;
use lachesis::Registers;
use lachesis::Runtime;
use lachesis::ThreadState;

const STACK_SIZE: usize = 2 * 1024 * 1024;
const TRAMPOLINE: u64 = 0x4000_0000;

fn base_of(slot: usize) -> usize {
    0x1000_0000 + slot * STACK_SIZE
}

#[test]
fn spawn_without_active_run_fails() {
    let mut rt = Runtime::new();
    let err = rt.spawn(base_of(0), STACK_SIZE, TRAMPOLINE).unwrap_err();
    assert!(matches!(err, Error::NotInitialized));
    assert_eq!(rt.queue_len(), 0);
}

#[test]
fn start_first_rejects_small_stack() {
    let mut rt = Runtime::new();
    rt.save_main();
    let err = rt.start_first(base_of(0), 1024, TRAMPOLINE).unwrap_err();
    match err {
        Error::InvalidStackSize { size, min } => {
            assert_eq!(size, 1024);
            assert_eq!(min, 64 * 1024);
        }
        other => panic!("unexpected error: {:?}", other),
    }
    assert_eq!(rt.queue_len(), 0);
}

#[test]
fn spawn_rejects_small_stack() {
    let mut rt = Runtime::new();
    rt.save_main();
    rt.start_first(base_of(0), STACK_SIZE, TRAMPOLINE).unwrap();
    let err = rt.spawn(base_of(1), 4096, TRAMPOLINE).unwrap_err();
    assert!(matches!(err, Error::InvalidStackSize { size: 4096, min: 65536 }));
    assert_eq!(rt.queue_len(), 1);
}

#[test]
fn spawned_ids_are_distinct_and_fifo() {
    let mut rt = Runtime::new();
    rt.save_main();
    let first = rt.start_first(base_of(0), STACK_SIZE, TRAMPOLINE).unwrap();
    let id1 = rt.spawn(base_of(1), STACK_SIZE, TRAMPOLINE).unwrap();
    let id2 = rt.spawn(base_of(2), STACK_SIZE, TRAMPOLINE).unwrap();
    let id3 = rt.spawn(base_of(3), STACK_SIZE, TRAMPOLINE).unwrap();

    assert_ne!(first, id1);
    assert_ne!(first, id2);
    assert_ne!(first, id3);
    assert_ne!(id1, id2);
    assert_ne!(id1, id3);
    assert_ne!(id2, id3);

    // FIFO: spawned contexts stand behind the running front in spawn order
    assert_eq!(rt.queue_len(), 4);
    let ids: Vec<u64> = (0..4).map(|i| rt.thread_info(i).id).collect();
    assert_eq!(ids, vec![first, id1, id2, id3]);

    assert_eq!(rt.thread_info(0).state, ThreadState::Running);
    for i in 1..4 {
        assert_eq!(rt.thread_info(i).state, ThreadState::Ready);
    }
    assert_eq!(rt.current_thread_id(), first);
}

#[test]
fn rotations_visit_each_context_once_before_repeating() {
    let mut rt = Runtime::new();
    rt.save_main();
    let mut ids = vec![rt.start_first(base_of(0), STACK_SIZE, TRAMPOLINE).unwrap()];
    for slot in 1..4 {
        ids.push(rt.spawn(base_of(slot), STACK_SIZE, TRAMPOLINE).unwrap());
    }

    // four rotations bring each id to the front exactly once, in queue order,
    // and then restore the original order
    let mut visited = Vec::new();
    for _ in 0..4 {
        assert!(rt.schedule());
        visited.push(rt.current_thread_id());
    }
    assert_eq!(visited, vec![ids[1], ids[2], ids[3], ids[0]]);
    let order_after: Vec<u64> = (0..4).map(|i| rt.thread_info(i).id).collect();
    assert_eq!(order_after, ids);
    assert_eq!(rt.thread_info(0).state, ThreadState::Running);
}

#[test]
fn schedule_with_single_context_is_noop() {
    let mut rt = Runtime::new();
    rt.save_main();
    let id = rt.start_first(base_of(0), STACK_SIZE, TRAMPOLINE).unwrap();
    assert!(!rt.schedule());
    assert_eq!(rt.current_thread_id(), id);
    assert_eq!(rt.queue_len(), 1);
}

#[test]
fn termination_drains_queue_and_ids() {
    let mut rt = Runtime::new();
    rt.save_main();
    rt.start_first(base_of(0), STACK_SIZE, TRAMPOLINE).unwrap();
    rt.spawn(base_of(1), STACK_SIZE, TRAMPOLINE).unwrap();
    rt.spawn(base_of(2), STACK_SIZE, TRAMPOLINE).unwrap();

    assert_eq!(rt.terminate_current(), HandoffAction::SwitchToNext);
    assert_eq!(rt.thread_info(0).state, ThreadState::Running);
    assert_eq!(rt.take_unused_stack(), Some((base_of(0), STACK_SIZE)));
    assert_eq!(rt.terminate_current(), HandoffAction::SwitchToNext);
    assert_eq!(rt.take_unused_stack(), Some((base_of(1), STACK_SIZE)));

    // the last termination drains the queue and disables the timer
    assert!(rt.is_preemption_enabled());
    assert_eq!(rt.terminate_current(), HandoffAction::ResumeMain);
    assert!(!rt.is_preemption_enabled());
    assert_eq!(rt.queue_len(), 0);
    assert_eq!(rt.take_unused_stack(), Some((base_of(2), STACK_SIZE)));
    assert_eq!(rt.take_unused_stack(), None);

    rt.finish_run();
    assert!(!rt.is_main_saved());
    // after teardown no id is live: a new spawn must be refused again
    assert!(matches!(
        rt.spawn(base_of(3), STACK_SIZE, TRAMPOLINE),
        Err(Error::NotInitialized)
    ));
}

#[test]
fn a_new_run_can_start_after_teardown() {
    let mut rt = Runtime::new();
    rt.save_main();
    rt.start_first(base_of(0), STACK_SIZE, TRAMPOLINE).unwrap();
    assert_eq!(rt.terminate_current(), HandoffAction::ResumeMain);
    rt.finish_run();

    rt.save_main();
    let id = rt.start_first(base_of(1), STACK_SIZE, TRAMPOLINE).unwrap();
    assert_eq!(rt.current_thread_id(), id);
    assert_eq!(rt.queue_len(), 1);
}

#[test]
fn captured_continuations_are_stored_in_place() {
    let mut rt = Runtime::new();
    rt.save_main();
    rt.start_first(base_of(0), STACK_SIZE, TRAMPOLINE).unwrap();
    rt.spawn(base_of(1), STACK_SIZE, TRAMPOLINE).unwrap();

    let captured = Registers::new(0xdead_0000, 0xbeef_0000);
    rt.install_main(captured);
    assert_eq!(rt.main_regs(), captured);

    assert!(rt.schedule());
    let saved = Registers::new(0x1234_5678, 0x9abc_def0);
    rt.install_back_regs(saved);
    // the suspended context sits at the back; one full cycle brings it to
    // the front again with exactly the saved continuation
    assert!(rt.schedule());
    assert_eq!(rt.front_regs(), saved);
}

#[test]
fn new_context_registers_point_at_stack_top_and_trampoline() {
    let mut rt = Runtime::new();
    rt.save_main();
    rt.start_first(base_of(0), STACK_SIZE, TRAMPOLINE).unwrap();
    let regs = rt.front_regs();
    assert_eq!(regs.rsp, (base_of(0) + STACK_SIZE) as u64);
    assert_eq!(regs.rdx, TRAMPOLINE);
    assert_eq!(regs.rbx, 0);
    assert_eq!(regs.rbp, 0);
}
