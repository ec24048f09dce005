use vstd::prelude::*;
use crate::error::Error;

verus! {

/// The mathematical state of a dispatch queue.
pub struct QueueModel {
    /// Callbacks that were posted and have not run yet, oldest first.
    pub pending: Seq<u64>,
    /// Whether the owning thread has brought the control up.
    pub initialized: bool,
    /// Whether the control was disposed.
    pub disposed: bool,
}

impl QueueModel {
    /// A queue takes callbacks once it is initialized and until it is disposed.
    pub open spec fn accepting(self) -> bool {
        self.initialized && !self.disposed
    }

    /// What a dispatch answers in this state.
    pub open spec fn dispatch_result(self) -> Result<(), Error> {
        if self.disposed {
            Err(Error::Disposed)
        } else if !self.initialized {
            Err(Error::NotInitialized)
        } else {
            Ok(())
        }
    }

    /// The state after a dispatch of `callback`: it joins the back of the queue when the
    /// queue accepts it, and nothing changes otherwise.
    pub open spec fn after_dispatch(self, callback: u64) -> QueueModel {
        if self.accepting() {
            QueueModel { pending: self.pending.push(callback), ..self }
        } else {
            self
        }
    }

    /// The callback that the owning thread runs next.
    pub open spec fn next(self) -> Option<u64> {
        if self.pending.len() > 0 {
            Some(self.pending[0])
        } else {
            None
        }
    }

    /// The state after the owning thread took the next callback.
    pub open spec fn after_take(self) -> QueueModel {
        if self.pending.len() > 0 {
            QueueModel { pending: self.pending.subrange(1, self.pending.len() as int), ..self }
        } else {
            self
        }
    }

    /// The state after disposal: nothing is pending any more and nothing is accepted.
    pub open spec fn after_dispose(self) -> QueueModel {
        QueueModel { pending: Seq::empty(), initialized: self.initialized, disposed: true }
    }
}

/// One step in the life of a queue that is in use.
pub enum QueueOp {
    /// Some thread dispatches this callback.
    Dispatch(u64),
    /// The owning thread takes the next callback and runs it.
    Take,
}

impl QueueModel {
    /// The state after one step.
    pub open spec fn after_op(self, op: QueueOp) -> QueueModel {
        match op {
            QueueOp::Dispatch(callback) => self.after_dispatch(callback),
            QueueOp::Take => self.after_take(),
        }
    }

    /// The state after a run of steps.
    pub open spec fn after_ops(self, ops: Seq<QueueOp>) -> QueueModel
        decreases ops.len(),
    {
        if ops.len() == 0 {
            self
        } else {
            self.after_ops(ops.drop_last()).after_op(ops.last())
        }
    }

    /// The callbacks that a run of steps queued, in the order of their dispatch.
    pub open spec fn accepted(self, ops: Seq<QueueOp>) -> Seq<u64>
        decreases ops.len(),
    {
        if ops.len() == 0 {
            Seq::empty()
        } else {
            let earlier = self.accepted(ops.drop_last());
            match ops.last() {
                QueueOp::Dispatch(callback) if self.after_ops(ops.drop_last()).accepting() => earlier.push(callback),
                _ => earlier,
            }
        }
    }

    /// The callbacks that the owning thread ran during a run of steps, in the order
    /// in which it ran them.
    pub open spec fn executed(self, ops: Seq<QueueOp>) -> Seq<u64>
        decreases ops.len(),
    {
        if ops.len() == 0 {
            Seq::empty()
        } else {
            let earlier = self.executed(ops.drop_last());
            match (ops.last(), self.after_ops(ops.drop_last()).next()) {
                (QueueOp::Take, Some(callback)) => earlier.push(callback),
                _ => earlier,
            }
        }
    }
}

/// Callbacks posted from any thread, waiting to run on the thread that owns the control.
///
/// A callback is named by the key under which the host keeps the closure. The queue
/// hands every key out once, in the order of the posts.
pub struct DispatchQueue {
    pending: Vec<u64>,
    initialized: bool,
    disposed: bool,
}

impl View for DispatchQueue {
    type V = QueueModel;

    closed spec fn view(&self) -> QueueModel {
        QueueModel {
            pending: self.pending@,
            initialized: self.initialized,
            disposed: self.disposed,
        }
    }
}

impl DispatchQueue {
    /// An empty queue of a control that does not exist yet.
    pub fn new() -> (q: DispatchQueue)
        ensures
            q@.pending.len() == 0,
            !q@.initialized,
            !q@.disposed,
    {
        DispatchQueue { pending: Vec::new(), initialized: false, disposed: false }
    }

    /// Marks the control as brought up; from now on callbacks are accepted.
    pub fn initialize(&mut self)
        ensures
            final(self)@ == (QueueModel { initialized: true, ..old(self)@ }),
    {
        self.initialized = true;
    }

    /// Whether the control was brought up.
    pub fn is_initialized(&self) -> (r: bool)
        ensures
            r == self@.initialized,
    {
        self.initialized
    }

    /// Whether a dispatch would be accepted now.
    pub fn is_accepting(&self) -> (r: bool)
        ensures
            r == self@.accepting(),
    {
        self.initialized && !self.disposed
    }

    /// Whether the control was disposed.
    pub fn is_disposed(&self) -> (r: bool)
        ensures
            r == self@.disposed,
    {
        self.disposed
    }

    /// How many callbacks wait for the owning thread.
    pub fn len(&self) -> (n: usize)
        ensures
            n == self@.pending.len(),
    {
        self.pending.len()
    }

    /// Posts a callback for the owning thread.
    ///
    /// After disposal the answer is `Disposed`, before the control is up it is
    /// `NotInitialized`; in both cases the callback is not queued and so never runs.
    /// Otherwise it joins the back of the queue.
    pub fn dispatch(&mut self, callback: u64) -> (r: Result<(), Error>)
        ensures
            r == old(self)@.dispatch_result(),
            final(self)@ == old(self)@.after_dispatch(callback),
    {
        if self.disposed {
            Err(Error::Disposed)
        } else if !self.initialized {
            Err(Error::NotInitialized)
        } else {
            self.pending.push(callback);
            Ok(())
        }
    }

    /// Takes the oldest pending callback for the owning thread to run now.
    pub fn take(&mut self) -> (r: Option<u64>)
        ensures
            r == old(self)@.next(),
            final(self)@ == old(self)@.after_take(),
    {
        if self.pending.len() > 0 {
            let callback: u64 = self.pending.remove(0);
            assert(self.pending@ =~= old(self).pending@.subrange(1, old(self).pending@.len() as int));
            Some(callback)
        } else {
            None
        }
    }

    /// Disposes of the control. The callbacks that were still pending are handed back
    /// unrun, oldest first, so that the host can drop them.
    pub fn dispose(&mut self) -> (unrun: Vec<u64>)
        ensures
            unrun@ == old(self)@.pending,
            final(self)@ == old(self)@.after_dispose(),
    {
        let mut unrun: Vec<u64> = Vec::new();
        std::mem::swap(&mut unrun, &mut self.pending);
        self.disposed = true;
        assert(self.pending@ =~= Seq::<u64>::empty());
        unrun
    }
}

/// First in, first out. However dispatches and takes follow one another on a queue:
/// the callbacks that were run, followed by those that still wait, are the callbacks
/// that waited at the start followed by those queued since, in the order of their
/// dispatch. The callbacks that were run are thus the first of that order: none runs
/// twice, and none runs before one that was dispatched earlier.
pub proof fn lemma_execution_follows_dispatch(q: QueueModel, ops: Seq<QueueOp>)
    ensures
        q.executed(ops) + q.after_ops(ops).pending == q.pending + q.accepted(ops),
        q.executed(ops).len() <= (q.pending + q.accepted(ops)).len(),
        q.executed(ops) == (q.pending + q.accepted(ops)).subrange(0, q.executed(ops).len() as int),
        q.after_ops(ops).initialized == q.initialized,
        q.after_ops(ops).disposed == q.disposed,
    decreases ops.len(),
{
    lemma_execution_follows_dispatch_step(q, ops);
    let order = q.pending + q.accepted(ops);
    let run = q.executed(ops);
    assert(order == run + q.after_ops(ops).pending);
    assert(run =~= order.subrange(0, run.len() as int));
}

proof fn lemma_execution_follows_dispatch_step(q: QueueModel, ops: Seq<QueueOp>)
    ensures
        q.executed(ops) + q.after_ops(ops).pending == q.pending + q.accepted(ops),
        q.after_ops(ops).initialized == q.initialized,
        q.after_ops(ops).disposed == q.disposed,
    decreases ops.len(),
{
    if ops.len() == 0 {
        assert(q.executed(ops) + q.after_ops(ops).pending =~= q.pending + q.accepted(ops));
    } else {
        let earlier = ops.drop_last();
        let before = q.after_ops(earlier);
        lemma_execution_follows_dispatch_step(q, earlier);
        assert(q.executed(earlier) + before.pending == q.pending + q.accepted(earlier));
        match ops.last() {
            QueueOp::Dispatch(callback) => {
                if before.accepting() {
                    assert(q.executed(ops) + q.after_ops(ops).pending =~= (q.executed(earlier)
                        + before.pending).push(callback));
                    assert(q.pending + q.accepted(ops) =~= (q.pending + q.accepted(earlier)).push(
                        callback,
                    ));
                }
            },
            QueueOp::Take => {
                if before.pending.len() > 0 {
                    assert(q.executed(ops) + q.after_ops(ops).pending =~= q.executed(earlier)
                        + before.pending);
                }
            },
        }
    }
}

/// After disposal every dispatch fails with `Disposed`, and however dispatches and
/// takes follow one another, the queue stays as it is: no callback is queued and none
/// is run.
pub proof fn lemma_dispatch_after_disposal(q: QueueModel, ops: Seq<QueueOp>)
    ensures
        q.after_dispose().dispatch_result() == Err::<(), Error>(Error::Disposed),
        q.after_dispose().after_ops(ops) == q.after_dispose(),
        q.after_dispose().accepted(ops) == Seq::<u64>::empty(),
        q.after_dispose().executed(ops) == Seq::<u64>::empty(),
    decreases ops.len(),
{
    if ops.len() > 0 {
        lemma_dispatch_after_disposal(q, ops.drop_last());
    }
}

} // verus!
