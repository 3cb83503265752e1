//! Send buffers: unbounded queues in front of a bounded channel.
//!
//! Pushing never blocks. `try_send` drains as much as the channel will take
//! and reports why it stopped. Whatever the channel answers, the items leave
//! in the order in which they were queued, and a high item never leaves after
//! a normal item that was queued behind it in the same buffer.

use crate::channel::{clone_sender, poll_ready, try_send, Offer, Priority, Readiness};
use futures::channel::mpsc::Sender;
use std::collections::VecDeque;
use std::task::Context;
use vstd::prelude::*;

verus! {

/// Why a drain stopped.
#[derive(Clone, Copy, PartialEq, Eq, Structural, Debug)]
pub enum SendResult {
    /// Nothing is left in the buffer.
    Done,
    /// The channel is full and at least one item is left.
    Pending,
    /// The receiving side of the channel is gone.
    Disconnect,
}

/// `whole` without its first items: what is left of a queue after some of it
/// has been handed over from the front.
pub open spec fn is_tail_of<T>(rest: Seq<T>, whole: Seq<T>) -> bool {
    &&& rest.len() <= whole.len()
    &&& rest == whole.skip(whole.len() - rest.len())
}

/// A queue is what is left of itself when nothing has left it.
pub proof fn lemma_tail_refl<T>(s: Seq<T>)
    ensures
        is_tail_of(s, s),
{
    assert(s.skip(0) == s);
}

/// What is left of a queue without its first item is left of the queue.
pub proof fn lemma_tail_step<T>(rest: Seq<T>, whole: Seq<T>)
    requires
        is_tail_of(rest, whole),
        rest.len() > 0,
    ensures
        is_tail_of(rest.skip(1), whole),
{
    let k = whole.len() - rest.len();
    assert(rest.skip(1) == whole.skip(k + 1));
}

/// What is left of what is left of a queue is left of the queue.
pub proof fn lemma_tail_trans<T>(a: Seq<T>, b: Seq<T>, c: Seq<T>)
    requires
        is_tail_of(a, b),
        is_tail_of(b, c),
    ensures
        is_tail_of(a, c),
{
    let k1 = b.len() - a.len();
    let k2 = c.len() - b.len();
    assert(c.skip(k2).skip(k1) == c.skip(k2 + k1));
}

/// What is left of a queue is left of it under any view of its items.
pub proof fn lemma_tail_map<T, U>(rest: Seq<T>, whole: Seq<T>, f: spec_fn(T) -> U)
    requires
        is_tail_of(rest, whole),
    ensures
        is_tail_of(rest.map_values(f), whole.map_values(f)),
{
    assert(rest.map_values(f) =~= whole.map_values(f).skip(whole.len() - rest.len()));
}

/// What is left of a queue stays so when both get the same item behind.
pub proof fn lemma_tail_push<T>(rest: Seq<T>, whole: Seq<T>, item: T)
    requires
        is_tail_of(rest, whole),
    ensures
        is_tail_of(rest.push(item), whole.push(item)),
{
    assert(rest.push(item) =~= whole.push(item).skip(whole.len() - rest.len()));
}

/// What a drain does once it knows whether the sender can take an item: it
/// goes on where the sender is ready, stops as pending where it is not, and
/// stops as disconnected where the receiving side is gone.
pub fn on_readiness(readiness: Readiness) -> (stop: Option<SendResult>)
    ensures
        stop == match readiness {
            Readiness::Ready => None::<SendResult>,
            Readiness::NotReady => Some(SendResult::Pending),
            Readiness::Closed => Some(SendResult::Disconnect),
        },
{
    match readiness {
        Readiness::Ready => None,
        Readiness::NotReady => Some(SendResult::Pending),
        Readiness::Closed => Some(SendResult::Disconnect),
    }
}

/// Whether nothing was lost between two states of a queue with its log of
/// what was handed over: what was handed over and what waits, taken
/// together, are the same before and after.
pub open spec fn conserved<T>(
    handed_after: Seq<T>,
    after: Seq<T>,
    handed_before: Seq<T>,
    before: Seq<T>,
) -> bool {
    handed_after + after == handed_before + before
}

/// What is conserved stays so under any view of the items.
pub proof fn lemma_conserved_map<T, U>(
    handed_after: Seq<T>,
    after: Seq<T>,
    handed_before: Seq<T>,
    before: Seq<T>,
    f: spec_fn(T) -> U,
)
    requires
        conserved(handed_after, after, handed_before, before),
    ensures
        conserved(
            handed_after.map_values(f),
            after.map_values(f),
            handed_before.map_values(f),
            before.map_values(f),
        ),
{
    assert(handed_after.map_values(f) + after.map_values(f) =~= (handed_after + after).map_values(
        f,
    ));
    assert(handed_before.map_values(f) + before.map_values(f) =~= (handed_before
        + before).map_values(f));
}

/// A single-lane send buffer.
#[verifier::reject_recursive_types(T)]
pub struct Buffer<T> {
    sender: Sender<T>,
    buffer: VecDeque<T>,
    handed: Ghost<Seq<T>>,
}

impl<T> View for Buffer<T> {
    type V = Seq<T>;

    /// The items that wait, oldest first.
    closed spec fn view(&self) -> Seq<T> {
        self.buffer@
    }
}

impl<T> Buffer<T> {
    /// The items that `try_send` has handed to the channel so far, in the
    /// order in which the channel took them.
    pub closed spec fn handed(&self) -> Seq<T> {
        self.handed@
    }

    pub fn new(sender: Sender<T>) -> (r: Self)
        ensures
            r@ == Seq::<T>::empty(),
            r.handed() == Seq::<T>::empty(),
    {
        Buffer { sender, buffer: VecDeque::new(), handed: Ghost(Seq::empty()) }
    }

    /// Queues `item` behind everything that waits.
    pub fn push(&mut self, item: T)
        ensures
            final(self)@ == old(self)@.push(item),
            final(self).handed() == old(self).handed(),
    {
        self.buffer.push_back(item);
    }

    /// Takes the oldest item out of the buffer: the next to be offered to
    /// the channel.
    pub fn next(&mut self) -> (item: Option<T>)
        ensures
            old(self)@.len() > 0 ==> item == Some(old(self)@[0]) && final(self)@ == old(
                self,
            )@.skip(1),
            old(self)@.len() == 0 ==> item is None && final(self)@ == old(self)@,
            final(self).handed() == old(self).handed(),
    {
        self.buffer.pop_front()
    }

    /// Acts on what the channel did with an item that `next` took out. An
    /// item that the channel took is gone. An item that came back is the
    /// oldest again, and the drain stops: as pending where the channel was
    /// full, as disconnected where the receiving side is gone.
    pub fn on_offer(&mut self, offer: Offer<T>) -> (stop: Option<SendResult>)
        ensures
            match offer {
                Offer::Sent => stop is None && final(self)@ == old(self)@,
                Offer::Full(item) => stop == Some(SendResult::Pending) && final(self)@
                    == seq![item] + old(self)@,
                Offer::Closed(item) => stop == Some(SendResult::Disconnect) && final(self)@
                    == seq![item] + old(self)@,
            },
            final(self).handed() == old(self).handed(),
    {
        match offer {
            Offer::Sent => None,
            Offer::Full(item) => {
                self.buffer.push_front(item);
                Some(SendResult::Pending)
            },
            Offer::Closed(item) => {
                self.buffer.push_front(item);
                Some(SendResult::Disconnect)
            },
        }
    }

    /// Hands items to the channel, oldest first, until the buffer is empty or
    /// the channel stops taking them.
    ///
    /// Before each item the sender is asked whether it is ready
    /// ([`on_readiness`]); then the oldest item is taken out ([`Buffer::next`])
    /// and offered, and the channel's answer decides ([`Buffer::on_offer`]).
    ///
    /// Nothing is lost: what no longer waits has been handed to the channel,
    /// in the order in which it waited.
    pub fn try_send(&mut self, cx: &mut Context<'_>) -> (r: SendResult)
        ensures
            is_tail_of(final(self)@, old(self)@),
            final(self).handed() + final(self)@ == old(self).handed() + old(self)@,
            r == SendResult::Done <==> final(self)@.len() == 0,
            old(self)@.len() == 0 ==> r == SendResult::Done,
    {
        proof {
            lemma_tail_refl(self@);
        }
        loop
            invariant
                is_tail_of(self@, old(self)@),
                self.handed() + self@ == old(self).handed() + old(self)@,
            decreases self@.len(),
        {
            if self.buffer.len() == 0 {
                return SendResult::Done;
            }
            if let Some(stop) = on_readiness(poll_ready(&mut self.sender, cx)) {
                return stop;
            }
            let ghost before = self@;
            match self.next() {
                Some(item) => {
                    let offer = try_send(&mut self.sender, item);
                    let stop = self.on_offer(offer);
                    proof {
                        lemma_tail_step(before, old(self)@);
                        assert(seq![before[0]] + before.skip(1) =~= before);
                    }
                    if let Some(stop) = stop {
                        return stop;
                    }
                    let ghost so_far = self.handed@;
                    self.handed = Ghost(so_far.push(before[0]));
                    assert(so_far.push(before[0]) + before.skip(1) =~= so_far + before);
                },
                None => {
                    return SendResult::Done;
                },
            }
        }
    }

    /// Gives up everything that waits, together with a handle on the channel,
    /// so that the rest can be delivered elsewhere. The buffer is empty
    /// afterwards.
    pub fn take(&mut self) -> (r: (Sender<T>, VecDeque<T>))
        ensures
            r.1@ == old(self)@,
            final(self)@ == Seq::<T>::empty(),
            final(self).handed() == old(self).handed(),
    {
        let mut rest: VecDeque<T> = VecDeque::new();
        rest.append(&mut self.buffer);
        (clone_sender(&self.sender), rest)
    }

    /// Drops everything that waits.
    pub fn clear(&mut self)
        ensures
            final(self)@ == Seq::<T>::empty(),
            final(self).handed() == old(self).handed(),
    {
        self.buffer.clear();
    }

    pub fn len(&self) -> (n: usize)
        ensures
            n == self@.len(),
    {
        self.buffer.len()
    }

    pub fn is_empty(&self) -> (r: bool)
        ensures
            r == (self@.len() == 0),
    {
        self.buffer.len() == 0
    }
}

/// A two-lane send buffer. Everything in the high lane leaves before anything
/// in the normal lane.
#[verifier::reject_recursive_types(T)]
pub struct PriorityBuffer<T> {
    sender: Sender<T>,
    high_buffer: VecDeque<T>,
    normal_buffer: VecDeque<T>,
    handed_high: Ghost<Seq<T>>,
    handed_normal: Ghost<Seq<T>>,
}

impl<T> PriorityBuffer<T> {
    /// The high lane, oldest first.
    pub closed spec fn high(&self) -> Seq<T> {
        self.high_buffer@
    }

    /// The normal lane, oldest first.
    pub closed spec fn normal(&self) -> Seq<T> {
        self.normal_buffer@
    }

    /// Everything that waits, in the order in which it will leave.
    pub open spec fn pending(&self) -> Seq<T> {
        self.high() + self.normal()
    }

    /// The items of the high lane that `try_send` has handed to the channel
    /// so far, in the order in which the channel took them.
    pub closed spec fn handed_high(&self) -> Seq<T> {
        self.handed_high@
    }

    /// The items of the normal lane that `try_send` has handed to the
    /// channel so far, in the order in which the channel took them.
    pub closed spec fn handed_normal(&self) -> Seq<T> {
        self.handed_normal@
    }

    /// Whether the logs of what was handed over are those of `before`.
    pub open spec fn same_handed(&self, before: &Self) -> bool {
        &&& self.handed_high() == before.handed_high()
        &&& self.handed_normal() == before.handed_normal()
    }

    pub fn new(sender: Sender<T>) -> (r: Self)
        ensures
            r.high() == Seq::<T>::empty(),
            r.normal() == Seq::<T>::empty(),
            r.handed_high() == Seq::<T>::empty(),
            r.handed_normal() == Seq::<T>::empty(),
    {
        PriorityBuffer {
            sender,
            high_buffer: VecDeque::new(),
            normal_buffer: VecDeque::new(),
            handed_high: Ghost(Seq::empty()),
            handed_normal: Ghost(Seq::empty()),
        }
    }

    /// Queues `item` at the end of the high lane.
    pub fn push_high(&mut self, item: T)
        ensures
            final(self).high() == old(self).high().push(item),
            final(self).normal() == old(self).normal(),
            final(self).same_handed(old(self)),
    {
        self.high_buffer.push_back(item);
    }

    /// Queues `item` at the end of the normal lane.
    pub fn push_normal(&mut self, item: T)
        ensures
            final(self).high() == old(self).high(),
            final(self).normal() == old(self).normal().push(item),
            final(self).same_handed(old(self)),
    {
        self.normal_buffer.push_back(item);
    }

    /// Takes the next item to leave out of its lane: the oldest of the high
    /// lane if there is one, else the oldest of the normal lane. The lane is
    /// told with the item.
    pub fn next(&mut self) -> (item: Option<(Priority, T)>)
        ensures
            old(self).high().len() > 0 ==> {
                &&& item == Some((Priority::High, old(self).high()[0]))
                &&& final(self).high() == old(self).high().skip(1)
                &&& final(self).normal() == old(self).normal()
            },
            old(self).high().len() == 0 && old(self).normal().len() > 0 ==> {
                &&& item == Some((Priority::Normal, old(self).normal()[0]))
                &&& final(self).high() == old(self).high()
                &&& final(self).normal() == old(self).normal().skip(1)
            },
            old(self).pending().len() == 0 ==> {
                &&& item is None
                &&& final(self).high() == old(self).high()
                &&& final(self).normal() == old(self).normal()
            },
            final(self).same_handed(old(self)),
    {
        match self.high_buffer.pop_front() {
            Some(item) => Some((Priority::High, item)),
            None => match self.normal_buffer.pop_front() {
                Some(item) => Some((Priority::Normal, item)),
                None => None,
            },
        }
    }

    /// Acts on what the channel did with an item that `next` took out of
    /// `lane`. An item that the channel took is gone. An item that came back
    /// is the oldest of its lane again, and the drain stops: as pending where
    /// the channel was full, as disconnected where the receiving side is gone.
    pub fn on_offer(&mut self, lane: Priority, offer: Offer<T>) -> (stop: Option<SendResult>)
        ensures
            match offer {
                Offer::Sent => {
                    &&& stop is None
                    &&& final(self).high() == old(self).high()
                    &&& final(self).normal() == old(self).normal()
                },
                Offer::Full(item) => {
                    &&& stop == Some(SendResult::Pending)
                    &&& final(self).high() == if lane == Priority::High {
                        seq![item] + old(self).high()
                    } else {
                        old(self).high()
                    }
                    &&& final(self).normal() == if lane == Priority::High {
                        old(self).normal()
                    } else {
                        seq![item] + old(self).normal()
                    }
                },
                Offer::Closed(item) => {
                    &&& stop == Some(SendResult::Disconnect)
                    &&& final(self).high() == if lane == Priority::High {
                        seq![item] + old(self).high()
                    } else {
                        old(self).high()
                    }
                    &&& final(self).normal() == if lane == Priority::High {
                        old(self).normal()
                    } else {
                        seq![item] + old(self).normal()
                    }
                },
            },
            final(self).same_handed(old(self)),
    {
        match offer {
            Offer::Sent => None,
            Offer::Full(item) => {
                self.put_back(lane, item);
                Some(SendResult::Pending)
            },
            Offer::Closed(item) => {
                self.put_back(lane, item);
                Some(SendResult::Disconnect)
            },
        }
    }

    /// Puts `item` at the front of `lane`.
    fn put_back(&mut self, lane: Priority, item: T)
        ensures
            final(self).high() == if lane == Priority::High {
                seq![item] + old(self).high()
            } else {
                old(self).high()
            },
            final(self).normal() == if lane == Priority::High {
                old(self).normal()
            } else {
                seq![item] + old(self).normal()
            },
            final(self).same_handed(old(self)),
    {
        if lane.is_high() {
            self.high_buffer.push_front(item);
        } else {
            self.normal_buffer.push_front(item);
        }
    }

    /// Hands items to the channel in leaving order until both lanes are empty
    /// or the channel stops taking them.
    ///
    /// Before each item the sender is asked whether it is ready
    /// ([`on_readiness`]); then the next item is taken out of its lane
    /// ([`PriorityBuffer::next`]) and offered, and the channel's answer
    /// decides ([`PriorityBuffer::on_offer`]).
    pub fn try_send(&mut self, cx: &mut Context<'_>) -> (r: SendResult)
        ensures
            is_tail_of(final(self).pending(), old(self).pending()),
            is_tail_of(final(self).high(), old(self).high()),
            is_tail_of(final(self).normal(), old(self).normal()),
            final(self).normal() != old(self).normal() ==> final(self).high().len() == 0,
            final(self).handed_high() + final(self).high() == old(self).handed_high() + old(
                self,
            ).high(),
            final(self).handed_normal() + final(self).normal() == old(self).handed_normal() + old(
                self,
            ).normal(),
            r == SendResult::Done <==> final(self).pending().len() == 0,
            old(self).pending().len() == 0 ==> r == SendResult::Done,
    {
        proof {
            lemma_tail_refl(self.pending());
            lemma_tail_refl(self.high());
            lemma_tail_refl(self.normal());
        }
        loop
            invariant
                is_tail_of(self.pending(), old(self).pending()),
                is_tail_of(self.high(), old(self).high()),
                is_tail_of(self.normal(), old(self).normal()),
                self.normal() != old(self).normal() ==> self.high().len() == 0,
                self.handed_high() + self.high() == old(self).handed_high() + old(self).high(),
                self.handed_normal() + self.normal() == old(self).handed_normal() + old(
                    self,
                ).normal(),
            decreases self.pending().len(),
        {
            if self.high_buffer.len() == 0 && self.normal_buffer.len() == 0 {
                return SendResult::Done;
            }
            if let Some(stop) = on_readiness(poll_ready(&mut self.sender, cx)) {
                return stop;
            }
            let ghost high = self.high();
            let ghost normal = self.normal();
            let ghost before = self.pending();
            match self.next() {
                Some((lane, item)) => {
                    let offer = try_send(&mut self.sender, item);
                    let stop = self.on_offer(lane, offer);
                    proof {
                        lemma_tail_step(before, old(self).pending());
                        if high.len() > 0 {
                            lemma_tail_step(high, old(self).high());
                            assert(seq![high[0]] + high.skip(1) =~= high);
                            assert(high.skip(1) + normal =~= before.skip(1));
                        } else {
                            lemma_tail_step(normal, old(self).normal());
                            assert(seq![normal[0]] + normal.skip(1) =~= normal);
                            assert(high + normal.skip(1) =~= before.skip(1));
                        }
                    }
                    if let Some(stop) = stop {
                        return stop;
                    }
                    if lane.is_high() {
                        let ghost so_far = self.handed_high@;
                        self.handed_high = Ghost(so_far.push(high[0]));
                        assert(so_far.push(high[0]) + high.skip(1) =~= so_far + high);
                    } else {
                        let ghost so_far = self.handed_normal@;
                        self.handed_normal = Ghost(so_far.push(normal[0]));
                        assert(so_far.push(normal[0]) + normal.skip(1) =~= so_far + normal);
                    }
                },
                None => {
                    return SendResult::Done;
                },
            }
        }
    }

    /// Gives up everything that waits, in leaving order, together with a
    /// handle on the channel. Both lanes are empty afterwards.
    pub fn take(&mut self) -> (r: (Sender<T>, VecDeque<T>))
        ensures
            r.1@ == old(self).pending(),
            final(self).high() == Seq::<T>::empty(),
            final(self).normal() == Seq::<T>::empty(),
            final(self).same_handed(old(self)),
    {
        let mut rest: VecDeque<T> = VecDeque::new();
        rest.append(&mut self.high_buffer);
        rest.append(&mut self.normal_buffer);
        (clone_sender(&self.sender), rest)
    }

    /// Drops everything that waits.
    pub fn clear(&mut self)
        ensures
            final(self).high() == Seq::<T>::empty(),
            final(self).normal() == Seq::<T>::empty(),
            final(self).same_handed(old(self)),
    {
        self.high_buffer.clear();
        self.normal_buffer.clear();
    }

    /// The number of items that wait, as far as a `usize` can tell.
    pub fn len(&self) -> (n: usize)
        ensures
            n == if self.pending().len() <= usize::MAX {
                self.pending().len()
            } else {
                usize::MAX as nat
            },
    {
        self.high_buffer.len().saturating_add(self.normal_buffer.len())
    }

    pub fn is_empty(&self) -> (r: bool)
        ensures
            r == (self.pending().len() == 0),
    {
        self.high_buffer.len() == 0 && self.normal_buffer.len() == 0
    }
}

} // verus!
