//! The tasks waiting their turn.
use vstd::prelude::*;

use super::task::Task;

verus! {

/// The waiting tasks, newest first: tasks join at the front and leave from
/// the back, so they run in the order they were submitted.
#[derive(Debug)]
pub struct TaskQueue {
    pub tasks: Vec<Task>,
}

/// The queue after `task` joins it.
pub open spec fn queue_after_push(q: Seq<Task>, task: Task) -> Seq<Task> {
    seq![task] + q
}

/// The task that leaves the queue next, and the queue after it left.
pub open spec fn queue_after_pull(q: Seq<Task>) -> (Option<Task>, Seq<Task>) {
    if q.len() == 0 {
        (None, q)
    } else {
        (Some(q.last()), q.drop_last())
    }
}

impl TaskQueue {
    /// Adds a task; it runs after every task already waiting.
    pub fn push(&mut self, task: Task)
        ensures
            final(self).tasks@ == queue_after_push(old(self).tasks@, task),
    {
        self.tasks.insert(0, task);
        assert(self.tasks@ =~= seq![task] + old(self).tasks@);
    }

    /// Takes the task that has waited longest, if any.
    pub fn pull(&mut self) -> (r: Option<Task>)
        ensures
            (r, final(self).tasks@) == queue_after_pull(old(self).tasks@),
    {
        self.tasks.pop()
    }

    /// Removes the task at `index` (counted from the newest), if there is one.
    pub fn remove(&mut self, index: usize)
        ensures
            index < old(self).tasks@.len() ==> final(self).tasks@ == old(self).tasks@.remove(
                index as int,
            ),
            index >= old(self).tasks@.len() ==> final(self).tasks@ == old(self).tasks@,
    {
        if index < self.tasks.len() {
            self.tasks.remove(index);
        }
    }
}

impl Default for TaskQueue {
    /// An empty queue.
    fn default() -> (q: Self)
        ensures
            q.tasks@.len() == 0,
    {
        Self { tasks: Vec::new() }
    }
}

/// First in, first out: pulling after a push gives what pulling before it would
/// have given, and the pushed task stays at the front; a task pushed onto an
/// empty queue is the next one pulled.
pub proof fn law_queue_fifo(q: Seq<Task>, task: Task)
    ensures
        q.len() > 0 ==> queue_after_pull(queue_after_push(q, task)) == (
            queue_after_pull(q).0,
            queue_after_push(queue_after_pull(q).1, task),
        ),
        q.len() == 0 ==> queue_after_pull(queue_after_push(q, task)) == (
            Some(task),
            Seq::<Task>::empty(),
        ),
{
    if q.len() > 0 {
        assert((seq![task] + q).drop_last() =~= seq![task] + q.drop_last());
    } else {
        assert((seq![task] + q).drop_last() =~= Seq::<Task>::empty());
    }
}

/// Tasks leave the queue in the order they joined: after pushing `a` then `b`
/// onto a queue, draining the old tasks first, `a` leaves before `b`.
pub proof fn law_queue_order(a: Task, b: Task)
    ensures
        queue_after_pull(queue_after_push(queue_after_push(Seq::empty(), a), b)).0 == Some(a),
        queue_after_pull(queue_after_pull(queue_after_push(queue_after_push(Seq::empty(), a), b)).1).0
            == Some(b),
{
    let q = queue_after_push(queue_after_push(Seq::<Task>::empty(), a), b);
    assert(q =~= seq![b, a]);
    assert(q.drop_last() =~= seq![b]);
}

} // verus!
