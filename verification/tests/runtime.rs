use liten::num::NonZeroUsize;
use liten::runtime::{Runtime, RuntimeBuilder, RuntimeThreads};

fn nz(n: usize) -> NonZeroUsize {
    NonZeroUsize::new(n).unwrap()
}

#[test]
fn default_builder_runs_one_worker_per_cpu_with_stealing() {
    let b = Runtime::builder();
    assert_eq!(b.get_num_workers(nz(8)).get(), 8);
    assert!(b.work_stealing_enabled());
}

#[test]
fn num_workers_overrides_cpu_count() {
    let b = Runtime::builder().num_workers(3);
    assert_eq!(b.get_num_workers(nz(8)).get(), 3);
    assert_eq!(b.get_num_workers(nz(1)).get(), 3);
    assert!(b.work_stealing_enabled());
}

#[test]
fn last_num_workers_wins() {
    let b = Runtime::builder().num_workers(3).num_workers(5);
    assert_eq!(b.get_num_workers(nz(8)).get(), 5);
}

#[test]
fn disable_work_stealing_keeps_worker_count() {
    let b = Runtime::builder().num_workers(4).disable_work_stealing();
    assert!(!b.work_stealing_enabled());
    assert_eq!(b.get_num_workers(nz(16)).get(), 4);
    let c = b.clone();
    assert!(!c.work_stealing_enabled());
    assert_eq!(c.get_num_workers(nz(16)).get(), 4);
}

#[test]
fn builder_default_matches_runtime_builder() {
    let b = RuntimeBuilder::default();
    assert_eq!(b.get_num_workers(nz(2)).get(), 2);
    assert!(b.work_stealing_enabled());
}

#[test]
fn runtime_threads_get_and_set() {
    let mut t = RuntimeThreads::default();
    assert_eq!(t.get_threads(nz(6)).get(), 6);
    t.set_threads(nz(2));
    assert_eq!(t.get_threads(nz(6)).get(), 2);
}
