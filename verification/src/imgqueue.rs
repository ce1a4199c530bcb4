//! The hand-off of frames from the thread that receives them to the thread
//! that processes them: a queue that gives frames out in the order in which
//! they came in.

use crate::cameraframe::RawFrame;
use std::collections::VecDeque;
use vstd::prelude::*;

verus! {

/// The frames that wait to be processed.
pub struct ImageQueue {
    framelist: VecDeque<RawFrame>,
}

/// What can happen to the queue: a producer hands in a frame, or the worker
/// asks for the next one.
pub enum QueueEvent {
    /// A frame is handed in.
    Submit(RawFrame),
    /// The worker asks for a frame.
    Take,
}

/// The frames that wait in the queue after a run of events, oldest first.
pub open spec fn pending_after(events: Seq<QueueEvent>) -> Seq<RawFrame>
    decreases events.len(),
{
    if events.len() == 0 {
        Seq::empty()
    } else {
        let before = pending_after(events.drop_last());
        match events.last() {
            QueueEvent::Submit(frame) => before.push(frame),
            QueueEvent::Take => if before.len() > 0 {
                before.drop_first()
            } else {
                before
            },
        }
    }
}

/// The frames that the worker was given during a run of events, in the order
/// in which it got them.
pub open spec fn taken_during(events: Seq<QueueEvent>) -> Seq<RawFrame>
    decreases events.len(),
{
    if events.len() == 0 {
        Seq::empty()
    } else {
        let taken = taken_during(events.drop_last());
        let before = pending_after(events.drop_last());
        match events.last() {
            QueueEvent::Submit(_) => taken,
            QueueEvent::Take => if before.len() > 0 {
                taken.push(before.first())
            } else {
                taken
            },
        }
    }
}

/// The frames that were handed in during a run of events, in the order in
/// which they came.
pub open spec fn submitted_during(events: Seq<QueueEvent>) -> Seq<RawFrame>
    decreases events.len(),
{
    if events.len() == 0 {
        Seq::empty()
    } else {
        let submitted = submitted_during(events.drop_last());
        match events.last() {
            QueueEvent::Submit(frame) => submitted.push(frame),
            QueueEvent::Take => submitted,
        }
    }
}

/// Whatever the order of the events, the frames given to the worker followed
/// by the frames that still wait are the frames handed in, in the order in
/// which they were handed in: none is lost, none comes twice, none overtakes
/// another.
pub proof fn lemma_queue_keeps_order(events: Seq<QueueEvent>)
    ensures
        taken_during(events) + pending_after(events) == submitted_during(events),
    decreases events.len(),
{
    if events.len() > 0 {
        lemma_queue_keeps_order(events.drop_last());
        let taken = taken_during(events.drop_last());
        let before = pending_after(events.drop_last());
        match events.last() {
            QueueEvent::Submit(frame) => {
                assert(taken + before.push(frame) =~= (taken + before).push(frame));
            },
            QueueEvent::Take => {
                if before.len() > 0 {
                    assert(taken.push(before.first()) + before.drop_first() =~= taken + before);
                }
            },
        }
    } else {
        assert(Seq::<RawFrame>::empty() + Seq::<RawFrame>::empty() =~= Seq::<RawFrame>::empty());
    }
}

/// Once the queue has run empty, the worker has been given exactly the frames
/// that were handed in, in their order.
pub proof fn lemma_drained_queue_gave_all(events: Seq<QueueEvent>)
    requires
        pending_after(events).len() == 0,
    ensures
        taken_during(events) == submitted_during(events),
{
    lemma_queue_keeps_order(events);
    assert(taken_during(events) + pending_after(events) =~= taken_during(events));
}

impl View for ImageQueue {
    type V = Seq<RawFrame>;

    /// The frames that wait, oldest first.
    closed spec fn view(&self) -> Seq<RawFrame> {
        self.framelist@
    }
}

impl ImageQueue {
    /// An empty queue.
    pub fn new() -> (queue: ImageQueue)
        ensures
            queue@ == Seq::<RawFrame>::empty(),
    {
        ImageQueue { framelist: VecDeque::new() }
    }

    /// Puts a frame at the end of the queue.
    pub fn add_frame_to_queue(&mut self, frame: RawFrame)
        ensures
            final(self)@ == old(self)@.push(frame),
    {
        self.framelist.push_back(frame);
    }

    /// The number of frames that wait.
    pub fn len(&self) -> (len: usize)
        ensures
            len == self@.len(),
    {
        self.framelist.len()
    }

    /// Whether no frame waits.
    pub fn is_empty(&self) -> (empty: bool)
        ensures
            empty == (self@.len() == 0),
    {
        self.framelist.len() == 0
    }

    /// Takes the frame that has waited longest out of the queue; `None` where
    /// the queue is empty, and the worker is to wait for the next signal.
    pub fn next_frame(&mut self) -> (frame: Option<RawFrame>)
        ensures
            old(self)@.len() == 0 ==> frame is None && final(self)@ == old(self)@,
            old(self)@.len() > 0 ==> frame == Some(old(self)@.first()) && final(self)@ == old(
                self,
            )@.drop_first(),
    {
        let frame = self.framelist.pop_front();
        proof {
            if old(self)@.len() > 0 {
                assert(old(self)@.subrange(1, old(self)@.len() as int) =~= old(self)@.drop_first());
            }
        }
        frame
    }

    /// Takes all frames out of the queue, in the order in which they came in.
    pub fn drain(&mut self) -> (frames: Vec<RawFrame>)
        ensures
            frames@ == old(self)@,
            final(self)@.len() == 0,
    {
        let mut frames: Vec<RawFrame> = Vec::new();
        loop
            invariant
                frames@ + self@ == old(self)@,
            ensures
                self@.len() == 0,
                frames@ + self@ == old(self)@,
            decreases self@.len(),
        {
            let ghost before = self@;
            match self.framelist.pop_front() {
                Some(frame) => {
                    proof {
                        assert(frames@.push(frame) + before.subrange(1, before.len() as int)
                            =~= frames@ + before);
                    }
                    frames.push(frame);
                },
                None => {
                    break ;
                },
            }
        }
        proof {
            assert(frames@ + self@ =~= frames@);
        }
        frames
    }
}

} // verus!
