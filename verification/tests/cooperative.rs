use lachesis::CooperativeScheduler;
use std::sync::Arc;
use std::sync::Mutex;

#[test]
fn test_cooperative_scheduler() {
    let mut scheduler = CooperativeScheduler::new();
    let counter = Arc::new(Mutex::new(0));

    for _ in 0..5 {
        let counter_clone = Arc::clone(&counter);
        scheduler
            .add_task(Box::new(move || {
                let mut num = counter_clone.lock().unwrap();
                *num += 1;
            }))
            .unwrap();
    }

    scheduler.run().unwrap();

    assert_eq!(*counter.lock().unwrap(), 5);
}

#[test]
fn tasks_run_in_fifo_order() {
    let mut scheduler = CooperativeScheduler::new();
    let order = Arc::new(Mutex::new(Vec::new()));

    for i in 0..4 {
        let order_clone = Arc::clone(&order);
        scheduler
            .add_task(move || {
                order_clone.lock().unwrap().push(i);
            })
            .unwrap();
    }

    scheduler.run().unwrap();

    assert_eq!(*order.lock().unwrap(), vec![0, 1, 2, 3]);
}

#[test]
fn run_on_empty_queue_succeeds() {
    let mut scheduler = CooperativeScheduler::new();
    assert!(scheduler.run().is_ok());
}

#[test]
fn queue_is_empty_after_run() {
    let mut scheduler = CooperativeScheduler::new();
    let counter = Arc::new(Mutex::new(0));

    let counter_clone = Arc::clone(&counter);
    scheduler
        .add_task(move || {
            *counter_clone.lock().unwrap() += 1;
        })
        .unwrap();

    scheduler.run().unwrap();
    // a second run finds nothing left to do
    scheduler.run().unwrap();

    assert_eq!(*counter.lock().unwrap(), 1);
}

#[test]
fn default_scheduler_is_empty() {
    let mut scheduler = CooperativeScheduler::default();
    assert!(scheduler.run().is_ok());
}
