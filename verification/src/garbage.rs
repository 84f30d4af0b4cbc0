//! The disposal channel: an unbounded queue of type-erased owned values and
//! the single worker thread that destructs them.
//!
//! The queue's element is a boxed value known only to be safe to move to
//! another thread; Verus refuses that type in any declaration (`dyn` with an
//! auto trait), so the two channel ends live in opaque structs and every call
//! into the channel goes through a trusted item beside them.

use vstd::prelude::*;
use vstd::*;

verus! {

/// A producer handle of one disposal queue: a
/// `crossbeam_channel::Sender` of boxed values, opaque here because Verus
/// refuses the element type. Duplicating it is cheap; every duplicate feeds
/// the same queue and so the same worker.
#[verifier::external_body]
pub(crate) struct Chute {
    sender: crossbeam_channel::Sender<Box<dyn Send + 'static>>,
}

/// The consumer end of one disposal queue, the matching
/// `crossbeam_channel::Receiver`, owned by its worker thread alone.
#[verifier::external_body]
struct Intake {
    receiver: crossbeam_channel::Receiver<Box<dyn Send + 'static>>,
}

impl Chute {
    /// Relies on `crossbeam_channel::Sender::clone`: the new handle sends
    /// into the same queue as the old one.
    #[verifier::external_body]
    pub(crate) fn duplicate(&self) -> Chute {
        Chute { sender: self.sender.clone() }
    }

    /// Relies on `crossbeam_channel::Sender::send`: on an unbounded queue it
    /// never blocks, and on success the value sits behind everything sent
    /// earlier through any handle of this queue, to be taken out in that
    /// order. Sending fails only when the consumer end is gone, that is when
    /// the worker thread died; this call then panics, since silently leaking
    /// the value's destruction would be worse than a crash.
    #[verifier::external_body]
    pub(crate) fn consign<T: Send + 'static>(&self, value: T) {
        self.sender.send(Box::new(value)).unwrap();
    }
}

/// Relies on `crossbeam_channel::Receiver::into_iter`: each step blocks until
/// a value is available and yields it, and the iteration ends only when the
/// queue is empty and every producer handle is gone. Each yielded value is
/// destructed as it leaves scope, one at a time, in queue order, before the
/// next is taken. This loop is meant to run for the rest of the process, so
/// it can carry no termination measure and stands with the call it wraps.
#[verifier::external_body]
fn drain(intake: Intake) {
    intake.receiver.into_iter().for_each(drop);
}

/// Relies on `crossbeam_channel::unbounded`: the two ends of one new
/// first-in-first-out queue with no capacity bound.
#[verifier::external_body]
fn open_queue() -> (Chute, Intake) {
    let (sender, receiver) = crossbeam_channel::unbounded();
    (Chute { sender }, Intake { receiver })
}

/// The shared disposal channel: an unbounded first-in-first-out queue of
/// type-erased owned values, paired with the one worker thread consuming it.
/// Values thrown into it are destructed by that worker, on its own schedule;
/// values still queued when the process exits are abandoned without their
/// destructors running, which the design accepts.
pub struct GarbageCan {
    chute: Chute,
    worker: thread::JoinHandle<()>,
}

impl GarbageCan {
    /// Create the queue and spawn its worker thread, whose sole job is to
    /// take the next queued value and destruct it, in an unending loop. If
    /// the thread cannot be spawned, the process aborts rather than continue
    /// with disposal silently disabled. If destructing a queued value panics,
    /// the worker dies and no further deferred disposal happens for the rest
    /// of the process; that degradation is accepted.
    pub fn new() -> GarbageCan {
        let (chute, intake) = open_queue();
        let worker = thread::spawn(move || drain(intake));
        GarbageCan { chute, worker }
    }

    /// Queue `value` for asynchronous destruction and return at once, without
    /// waiting for the destruction to happen. Values queued by one thread are
    /// destructed in the order that thread queued them; between racing
    /// threads no order is promised. A queued value can no longer be taken
    /// back. If destructing `value` on the worker destructs further wrappers
    /// nested inside it, each of those lands back on this same queue and is
    /// destructed in a later round of the worker's loop; the enqueue never
    /// blocks, so this recursion cannot deadlock.
    pub fn throw_away<T: Send + 'static>(&self, value: T) {
        self.chute.consign(value);
    }

    /// A new producer handle feeding this can's queue.
    pub(crate) fn chute(&self) -> Chute {
        self.chute.duplicate()
    }
}

} // verus!
