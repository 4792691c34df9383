use liten::task_store::{TaskStore, TASK_CAPACITY};

#[test]
fn tasks_come_out_in_the_order_queued() {
    let mut store = TaskStore::new();
    store.task_enqueue(3);
    store.task_enqueue(1);
    store.task_enqueue(2);
    assert_eq!(store.len(), 3);
    assert_eq!(store.tasks(), vec![3, 1, 2]);
    assert_eq!(store.len(), 0);
    assert_eq!(store.tasks(), Vec::<u64>::new());
}

#[test]
fn store_holds_up_to_capacity() {
    let mut store = TaskStore::new();
    for i in 0..TASK_CAPACITY as u64 {
        store.task_enqueue(i);
    }
    assert_eq!(store.len(), TASK_CAPACITY);
    let all = store.tasks();
    assert_eq!(all.len(), 2048);
    assert_eq!(all[0], 0);
    assert_eq!(all[2047], 2047);
    store.task_enqueue(99);
    assert_eq!(store.tasks(), vec![99]);
}
