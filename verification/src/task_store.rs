use vstd::prelude::*;
use crossbeam_queue::ArrayQueue;

verus! {

/// How many tasks the store can hold at once.
pub const TASK_CAPACITY: usize = 2048;

#[verifier::external_type_specification]
#[verifier::external_body]
#[verifier::reject_recursive_types(T)]
pub struct ExArrayQueue<T>(ArrayQueue<T>);

/// The tasks in a queue, from the front (next to pop) to the back.
pub uninterp spec fn queued_tasks(q: ArrayQueue<u64>) -> Seq<u64>;

/// The number of tasks a queue was made to hold.
pub uninterp spec fn queue_capacity(q: ArrayQueue<u64>) -> nat;

/// `ArrayQueue::new`: an empty queue that holds up to `cap` items. It
/// panics when `cap` is zero or when the next power of two above `cap`
/// overflows, which `requires` rules out.
#[verifier::external_body]
fn queue_new(cap: usize) -> (q: ArrayQueue<u64>)
    requires
        0 < cap < 0x8000_0000,
    ensures
        queued_tasks(q) == Seq::<u64>::empty(),
        queue_capacity(q) == cap,
{
    ArrayQueue::new(cap)
}

/// `ArrayQueue::push`: with the queue held exclusively, the item goes to the
/// back when the queue is not full, and is handed back as the error when it
/// is full. The capacity never changes.
#[verifier::external_body]
fn queue_push(q: &mut ArrayQueue<u64>, task: u64) -> (r: Result<(), u64>)
    ensures
        queue_capacity(*final(q)) == queue_capacity(*old(q)),
        queued_tasks(*old(q)).len() < queue_capacity(*old(q)) ==> {
            &&& r is Ok
            &&& queued_tasks(*final(q)) == queued_tasks(*old(q)).push(task)
        },
        queued_tasks(*old(q)).len() >= queue_capacity(*old(q)) ==> {
            &&& r == Err::<(), u64>(task)
            &&& queued_tasks(*final(q)) == queued_tasks(*old(q))
        },
{
    q.push(task)
}

/// `ArrayQueue::pop`: with the queue held exclusively, the front item leaves
/// the queue and is returned; an empty queue gives `None`.
#[verifier::external_body]
fn queue_pop(q: &mut ArrayQueue<u64>) -> (r: Option<u64>)
    ensures
        queue_capacity(*final(q)) == queue_capacity(*old(q)),
        queued_tasks(*old(q)).len() == 0 ==> {
            &&& r is None
            &&& queued_tasks(*final(q)) == queued_tasks(*old(q))
        },
        queued_tasks(*old(q)).len() > 0 ==> {
            &&& r == Some(queued_tasks(*old(q))[0])
            &&& queued_tasks(*final(q)) == queued_tasks(*old(q)).drop_first()
        },
{
    q.pop()
}

/// `ArrayQueue::len`: the number of items in the queue.
#[verifier::external_body]
fn queue_len(q: &ArrayQueue<u64>) -> (r: usize)
    ensures
        r == queued_tasks(*q).len(),
{
    q.len()
}

/// The queue of tasks that are ready to run, by task id, oldest first.
pub struct TaskStore {
    task_queue: ArrayQueue<u64>,
}

impl TaskStore {
    /// The ready tasks, oldest first.
    pub closed spec fn view(&self) -> Seq<u64> {
        queued_tasks(self.task_queue)
    }

    /// The store holds at most [`TASK_CAPACITY`] tasks and can take that many.
    pub closed spec fn wf(&self) -> bool {
        &&& queue_capacity(self.task_queue) == TASK_CAPACITY
        &&& self@.len() <= TASK_CAPACITY
    }

    /// An empty store.
    pub fn new() -> (r: TaskStore)
        ensures
            r.wf(),
            r@ == Seq::<u64>::empty(),
    {
        TaskStore { task_queue: queue_new(TASK_CAPACITY) }
    }

    /// The number of ready tasks.
    pub fn len(&self) -> (r: usize)
        ensures
            r == self@.len(),
    {
        queue_len(&self.task_queue)
    }

    /// Queues `task` behind the tasks already waiting. The store must not be
    /// full.
    pub fn task_enqueue(&mut self, task: u64)
        requires
            old(self).wf(),
            old(self)@.len() < TASK_CAPACITY,
        ensures
            final(self).wf(),
            final(self)@ == old(self)@.push(task),
    {
        let result = queue_push(&mut self.task_queue, task);
        assert(result is Ok);
    }

    /// Takes every ready task out of the store, oldest first.
    pub fn tasks(&mut self) -> (r: Vec<u64>)
        requires
            old(self).wf(),
        ensures
            final(self).wf(),
            r@ == old(self)@,
            final(self)@ == Seq::<u64>::empty(),
    {
        let mut tasks: Vec<u64> = Vec::new();
        loop
            invariant
                self.wf(),
                tasks@ + self@ == old(self)@,
            decreases self@.len(),
        {
            match queue_pop(&mut self.task_queue) {
                Some(task) => {
                    proof {
                        assert(tasks@.push(task) + self@ =~= old(self)@);
                    }
                    tasks.push(task);
                },
                None => {
                    assert(tasks@ =~= old(self)@);
                    return tasks;
                },
            }
        }
    }
}

} // verus!
