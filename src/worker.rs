use vstd::prelude::*;

use crate::error::ContextError;
use crate::frame::Frame;

verus! {

/// What one wait on a worker's channel endpoint gave.
pub enum RecvEvent {
    /// A frame arrived.
    Frame(Frame),
    /// No frame arrived within the idle budget.
    Timeout,
    /// The producer closed the channel and every frame sent before was received.
    Closed,
}

/// What the worker does next.
pub enum WorkerStep {
    /// Hand the frame to the encode path, then wait for the next one.
    Handle(Frame),
    /// Stop receiving and report this result from the worker's thread.
    Finish(Result<(), ContextError>),
}

/// The abstract state of a worker: its position among the tasks, whether it
/// has stopped, and every frame it has accepted, in order of arrival.
pub struct WorkerView {
    pub index: usize,
    pub done: bool,
    pub received: Seq<Frame>,
}

/// The receive loop of one encode worker, driven one channel event at a time.
pub struct Worker {
    index: usize,
    done: bool,
    received: Ghost<Seq<Frame>>,
}

/// The state after a worker in state `w` takes event `ev`.
pub open spec fn step(w: WorkerView, ev: RecvEvent) -> WorkerView {
    match ev {
        RecvEvent::Frame(f) => WorkerView { received: w.received.push(f), ..w },
        _ => WorkerView { done: true, ..w },
    }
}

/// The state after a worker in state `w` takes every frame of `frames`, in order.
pub open spec fn take_frames(w: WorkerView, frames: Seq<Frame>) -> WorkerView
    decreases frames.len(),
{
    if frames.len() == 0 {
        w
    } else {
        step(take_frames(w, frames.drop_last()), RecvEvent::Frame(frames.last()))
    }
}

/// The state of a worker that has received nothing yet.
pub open spec fn fresh(index: usize) -> WorkerView {
    WorkerView { index, done: false, received: Seq::empty() }
}

impl View for Worker {
    type V = WorkerView;

    closed spec fn view(&self) -> WorkerView {
        WorkerView { index: self.index, done: self.done, received: self.received@ }
    }
}

impl Worker {
    /// A worker for the task at position `index` that has received nothing yet.
    pub fn new(index: usize) -> (r: Worker)
        ensures
            r@ == fresh(index),
    {
        Worker { index, done: false, received: Ghost(Seq::empty()) }
    }

    pub fn index(&self) -> (r: usize)
        ensures
            r == self@.index,
    {
        self.index
    }

    pub fn is_done(&self) -> (r: bool)
        ensures
            r == self@.done,
    {
        self.done
    }

    /// Decides what to do with one event: a frame is accepted whatever its kind,
    /// a closed channel ends the worker with success, and an idle timeout ends
    /// it with `WorkerTimeout` for its own position.
    pub fn on_event(&mut self, ev: RecvEvent) -> (r: WorkerStep)
        requires
            !old(self)@.done,
        ensures
            final(self)@ == step(old(self)@, ev),
            ev matches RecvEvent::Frame(f) ==> r == WorkerStep::Handle(f),
            ev is Closed ==> r matches WorkerStep::Finish(Ok(())),
            ev is Timeout ==> (r matches WorkerStep::Finish(Err(ContextError::WorkerTimeout(i)))
                && i == old(self)@.index),
    {
        match ev {
            RecvEvent::Frame(f) => {
                self.received = Ghost(self.received@.push(f));
                WorkerStep::Handle(f)
            },
            RecvEvent::Timeout => {
                self.done = true;
                WorkerStep::Finish(Err(ContextError::WorkerTimeout(self.index)))
            },
            RecvEvent::Closed => {
                self.done = true;
                WorkerStep::Finish(Ok(()))
            },
        }
    }
}

/// A worker that takes a sequence of frames has accepted exactly that
/// sequence, once each and in order, and is still running.
pub proof fn lemma_worker_takes_all(index: usize, frames: Seq<Frame>)
    ensures
        take_frames(fresh(index), frames).received == frames,
        !take_frames(fresh(index), frames).done,
        take_frames(fresh(index), frames).index == index,
    decreases frames.len(),
{
    if frames.len() > 0 {
        lemma_worker_takes_all(index, frames.drop_last());
        assert(frames.drop_last().push(frames.last()) =~= frames);
    }
}

/// Every two workers that take the same sequence of frames, one event per
/// frame, end with the same received frames, in the same order: exactly that
/// sequence, each frame once. That each endpoint yields what the bus sent is
/// the bus's own guarantee and is not stated here.
pub proof fn lemma_workers_agree(i: usize, j: usize, published: Seq<Frame>)
    ensures
        take_frames(fresh(i), published).received == take_frames(fresh(j), published).received,
        take_frames(fresh(i), published).received == published,
{
    lemma_worker_takes_all(i, published);
    lemma_worker_takes_all(j, published);
}

} // verus!
