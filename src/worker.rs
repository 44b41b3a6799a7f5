use vstd::prelude::*;

use crate::io::IoEvent;

verus! {

/// The worker's intake as a mathematical value.
pub struct WorkerView {
    pub queue: Seq<IoEvent>,
    pub capacity: nat,
    pub accepting: bool,
}

/// Offering `cmd`: taken at the back while accepting and not full.
pub open spec fn submit_step(w: WorkerView, cmd: IoEvent) -> (WorkerView, bool) {
    if w.accepting && w.queue.len() < w.capacity {
        (WorkerView { queue: w.queue.push(cmd), capacity: w.capacity, accepting: true }, true)
    } else {
        (w, false)
    }
}

/// Taking the oldest command, if any.
pub open spec fn take_step(w: WorkerView) -> (WorkerView, Option<IoEvent>) {
    if w.queue.len() > 0 {
        (
            WorkerView { queue: w.queue.drop_first(), capacity: w.capacity, accepting: w.accepting },
            Some(w.queue[0]),
        )
    } else {
        (w, None)
    }
}

/// Stopping: nothing more is accepted, and what waits is dropped.
pub open spec fn shutdown_step(w: WorkerView) -> WorkerView {
    WorkerView { queue: Seq::empty(), capacity: w.capacity, accepting: false }
}

/// Commands come out of the intake in the order they went in.
pub proof fn lemma_commands_in_order(w: WorkerView, a: IoEvent, b: IoEvent, c: IoEvent)
    requires
        w.accepting,
        w.queue.len() == 0,
        w.capacity >= 3,
    ensures
        ({
            let (w1, ok1) = submit_step(w, a);
            let (w2, ok2) = submit_step(w1, b);
            let (w3, ok3) = submit_step(w2, c);
            let (w4, r1) = take_step(w3);
            let (w5, r2) = take_step(w4);
            let (w6, r3) = take_step(w5);
            &&& ok1 && ok2 && ok3
            &&& r1 == Some(a) && r2 == Some(b) && r3 == Some(c)
            &&& w6.queue.len() == 0
        }),
{
    let w3 = submit_step(submit_step(submit_step(w, a).0, b).0, c).0;
    assert(w3.queue =~= seq![a, b, c]);
    assert(w3.queue.drop_first() =~= seq![b, c]);
    assert(w3.queue.drop_first().drop_first() =~= seq![c]);
}

/// After shutdown no command is accepted and none waits.
pub proof fn lemma_shutdown_refuses(w: WorkerView, cmd: IoEvent)
    ensures
        submit_step(shutdown_step(w), cmd) == (shutdown_step(w), false),
        take_step(shutdown_step(w)).1 is None,
{
}

/// The bounded, ordered intake of commands for the background worker.
pub struct Worker {
    queue: Vec<IoEvent>,
    capacity: usize,
    accepting: bool,
}

impl View for Worker {
    type V = WorkerView;

    closed spec fn view(&self) -> WorkerView {
        WorkerView { queue: self.queue@, capacity: self.capacity as nat, accepting: self.accepting }
    }
}

impl Worker {
    /// An empty intake that holds at most `capacity` waiting commands.
    pub fn new(capacity: usize) -> (r: Worker)
        ensures
            r@ == (WorkerView { queue: Seq::empty(), capacity: capacity as nat, accepting: true }),
    {
        Worker { queue: Vec::new(), capacity, accepting: true }
    }

    /// Offers `cmd`; `false` means the worker is full or stopped.
    pub fn submit(&mut self, cmd: IoEvent) -> (r: bool)
        ensures
            (final(self)@, r) == submit_step(old(self)@, cmd),
    {
        if self.accepting && self.queue.len() < self.capacity {
            self.queue.push(cmd);
            true
        } else {
            false
        }
    }

    /// The oldest waiting command, removed from the intake.
    pub fn take(&mut self) -> (r: Option<IoEvent>)
        ensures
            (final(self)@, r) == take_step(old(self)@),
    {
        if self.queue.len() > 0 {
            let c = self.queue.remove(0);
            assert(self.queue@ =~= old(self).queue@.drop_first());
            Some(c)
        } else {
            None
        }
    }

    /// Stops accepting commands and drops those that wait.
    pub fn shutdown(&mut self)
        ensures
            final(self)@ == shutdown_step(old(self)@),
    {
        self.accepting = false;
        self.queue = Vec::new();
        assert(self.queue@ =~= Seq::<IoEvent>::empty());
    }

    pub fn is_accepting(&self) -> (r: bool)
        ensures
            r == self@.accepting,
    {
        self.accepting
    }

    /// The number of waiting commands.
    pub fn pending(&self) -> (r: usize)
        ensures
            r == self@.queue.len(),
    {
        self.queue.len()
    }
}

} // verus!
