//! The push fan-out: the FIFO of live subscribers and what one tick of the
//! fan-out task does.
//!
//! A dedicated task runs this a few times a second: it reaps closed
//! subscribers, and when it could get hold of the latest system state it
//! serializes it once and sends the bytes to every live subscriber. The
//! task's loop, the lock around the state and the wire itself belong to the
//! runner.
use vstd::prelude::*;

use crate::app::json::system_state_to_json;
use crate::app::SystemState;

verus! {

/// A subscriber could not take the frame.
#[derive(Debug, Copy, Clone, PartialEq, Eq, Structural)]
pub struct SendError;

/// One push-channel subscriber: a WebSocket-like sink that can close itself.
pub trait Subscriber {
    fn is_closed(&self) -> bool;

    /// Send one binary frame.
    fn send_binary(&mut self, data: &[u8]) -> Result<(), SendError>;
}

/// The elements of `items` whose flag in `closed` is false, in their order.
pub open spec fn spec_retained<T>(items: Seq<T>, closed: Seq<bool>) -> Seq<T>
    decreases items.len(),
{
    if items.len() == 0 {
        Seq::empty()
    } else {
        let rest = spec_retained(items.drop_last(), closed.drop_last());
        if closed[items.len() - 1] {
            rest
        } else {
            rest.push(items.last())
        }
    }
}

/// `sub` keeps some of `full`'s elements in their original order: reading
/// both back to front, every element of `sub` is matched against a distinct
/// element of `full`, never crossing over.
pub open spec fn spec_is_subsequence<T>(sub: Seq<T>, full: Seq<T>) -> bool
    decreases full.len(),
{
    if sub.len() == 0 {
        true
    } else if full.len() == 0 {
        false
    } else if sub.last() == full.last() {
        spec_is_subsequence(sub.drop_last(), full.drop_last()) || spec_is_subsequence(
            sub,
            full.drop_last(),
        )
    } else {
        spec_is_subsequence(sub, full.drop_last())
    }
}

proof fn lemma_subsequence_of_shorter<T>(sub: Seq<T>, full: Seq<T>)
    requires
        full.len() > 0,
        spec_is_subsequence(sub, full.drop_last()),
    ensures
        spec_is_subsequence(sub, full),
{
}

proof fn lemma_retained_is_subsequence<T>(items: Seq<T>, closed: Seq<bool>)
    requires
        closed.len() == items.len(),
    ensures
        spec_is_subsequence(spec_retained(items, closed), items),
    decreases items.len(),
{
    if items.len() > 0 {
        lemma_retained_is_subsequence(items.drop_last(), closed.drop_last());
        let rest = spec_retained(items.drop_last(), closed.drop_last());
        if closed[items.len() - 1] {
            lemma_subsequence_of_shorter(rest, items);
        } else {
            assert(rest.push(items.last()).drop_last() =~= rest);
        }
    }
}

proof fn lemma_retained_len<T>(items: Seq<T>, closed: Seq<bool>)
    ensures
        spec_retained(items, closed).len() <= items.len(),
    decreases items.len(),
{
    if items.len() > 0 {
        lemma_retained_len(items.drop_last(), closed.drop_last());
    }
}

/// Keep exactly the elements whose flag is false, in order.
fn retain_by_mask<T>(items: &mut Vec<T>, closed: &Vec<bool>)
    requires
        closed@.len() == old(items)@.len(),
    ensures
        final(items)@ =~= spec_retained(old(items)@, closed@),
{
    let ghost orig = items@;
    let mut kept: Vec<T> = Vec::new();
    let mut i: usize = 0;
    while i < closed.len()
        invariant
            0 <= i <= closed@.len(),
            closed@.len() == orig.len(),
            items@ =~= orig.skip(i as int),
            kept@ =~= spec_retained(orig.take(i as int), closed@.take(i as int)),
        decreases closed@.len() - i,
    {
        let s = items.remove(0);
        proof {
            assert(s == orig[i as int]);
            assert(items@ =~= orig.skip(i as int + 1));
            assert(orig.take(i as int + 1).drop_last() =~= orig.take(i as int));
            assert(closed@.take(i as int + 1).drop_last() =~= closed@.take(i as int));
            assert(orig.take(i as int + 1).last() == orig[i as int]);
        }
        if !closed[i] {
            kept.push(s);
        }
        i += 1;
    }
    proof {
        assert(orig.take(orig.len() as int) =~= orig);
        assert(closed@.take(orig.len() as int) =~= closed@);
    }
    *items = kept;
}

/// The subscribers of one node, first connected first.
pub struct StateSenders<S> {
    senders: Vec<S>,
}

impl<S> View for StateSenders<S> {
    type V = Seq<S>;

    closed spec fn view(&self) -> Seq<S> {
        self.senders@
    }
}

impl<S: Subscriber> StateSenders<S> {
    pub fn new() -> (r: Self)
        ensures
            r@.len() == 0,
    {
        StateSenders { senders: Vec::new() }
    }

    pub fn len(&self) -> (r: usize)
        ensures
            r == self@.len(),
    {
        self.senders.len()
    }

    /// A new subscriber joins at the back of the line.
    pub fn add(&mut self, ws: S)
        ensures
            final(self)@ =~= old(self)@.push(ws),
    {
        self.senders.push(ws);
    }

    /// Drop every subscriber that reports itself closed. Which ones answer
    /// "closed" is the subscribers' own business, but the survivors are
    /// always some of the old subscribers in their old order: the list is
    /// exactly the old one with the closed entries taken out.
    pub fn cleanup_closed(&mut self)
        ensures
            final(self)@.len() <= old(self)@.len(),
            spec_is_subsequence(final(self)@, old(self)@),
    {
        let mut closed: Vec<bool> = Vec::new();
        let mut i: usize = 0;
        while i < self.senders.len()
            invariant
                0 <= i <= self.senders@.len(),
                closed@.len() == i,
                self.senders@ =~= old(self)@,
            decreases self.senders@.len() - i,
        {
            let answer = self.senders[i].is_closed();
            closed.push(answer);
            i += 1;
        }
        retain_by_mask(&mut self.senders, &closed);
        proof {
            lemma_retained_is_subsequence(old(self)@, closed@);
            lemma_retained_len(old(self)@, closed@);
        }
    }

    /// Serialize the state once and send the document to every subscriber
    /// that is not closed. Returns how many sends failed. The subscribers
    /// themselves change only as their own send does.
    pub fn send(&mut self, system_state: &SystemState) -> (err_count: usize)
        ensures
            final(self)@.len() == old(self)@.len(),
            err_count <= old(self)@.len(),
    {
        let data = system_state_to_json(system_state);
        let mut err_count: usize = 0;
        let mut i: usize = 0;
        while i < self.senders.len()
            invariant
                0 <= i <= self.senders@.len(),
                self.senders@.len() == old(self)@.len(),
                err_count <= i,
            decreases self.senders@.len() - i,
        {
            let sender = vstd::std_specs::vec::vec_index_mut(&mut self.senders, i);
            if !sender.is_closed() {
                if sender.send_binary(data.as_slice()).is_err() {
                    err_count += 1;
                }
            }
            i += 1;
        }
        err_count
    }

    /// One tick of the fan-out task: reap closed subscribers, then — when
    /// the runner could take the latest state without waiting — send it to
    /// every live one. A missed state is acceptable: the next tick sends a
    /// fresher one. Sending mutates the subscribers, so only a tick without
    /// a state leaves the survivors literally among the old entries.
    pub fn tick(&mut self, latest: Option<&SystemState>) -> (err_count: usize)
        ensures
            final(self)@.len() <= old(self)@.len(),
            err_count <= old(self)@.len(),
            latest is None ==> spec_is_subsequence(final(self)@, old(self)@),
    {
        self.cleanup_closed();
        match latest {
            Some(state) => self.send(state),
            None => 0,
        }
    }
}

} // verus!
