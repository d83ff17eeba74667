//! Actors, their handles, and the execution loop.
//!
//! A configured `Node` splits into a `NodeRef` — the cloneable handle, the
//! only way to reach the running actor — and a `Worker`, which the caller
//! moves onto a dedicated thread and steps there until the actor is done.
//! Each step drains control commands first, then takes at most one data
//! item, transforms it, and fans the result out, pruning every subscriber
//! whose peer is gone.

use vstd::prelude::*;

use std::sync::mpsc::{Receiver, Sender, SyncSender};

use crate::channel;
use crate::protocol::{apply_system, classify_data, mask_keep, DataStep, Poll, SystemMessage};

verus! {

/// The capacity of an actor's control channel. Control traffic is rare and
/// drained on every loop iteration, so a single buffered command suffices;
/// the bound exists only to keep the control plane from ever holding a
/// backlog.
pub const CONTROL_CAPACITY: usize = 1;

/// One actor's unit of computation: given an input and the current internal
/// state, produce exactly one output. A stateless pure function and an
/// arbitrary stateful object both fit this shape.
pub trait NodeState<I, O>: Sized {
    /// The state can be applied to every input: the transform is total.
    spec fn wf(self) -> bool;

    /// How one application may relate the prior state, the message, the new
    /// state and the output.
    spec fn transition(self, msg: I, next: Self, out: O) -> bool;

    /// Apply the transform to one message.
    fn act(&mut self, msg: I) -> (out: O)
        requires
            old(self).wf(),
        ensures
            final(self).wf(),
            old(self).transition(msg, *final(self), out),
    ;
}

/// The stateless transform: a plain function applied to every message, with
/// no internal state at all.
pub struct FnNodeState<F> {
    pub f: F,
}

impl<I, O, F: Fn(I) -> O> NodeState<I, O> for FnNodeState<F> {
    open spec fn wf(self) -> bool {
        forall|i: I| self.f.requires((i,))
    }

    open spec fn transition(self, msg: I, next: Self, out: O) -> bool {
        &&& next == self
        &&& self.f.ensures((msg,), out)
    }

    fn act(&mut self, msg: I) -> (out: O) {
        (self.f)(msg)
    }
}

/// A configured actor, not yet running: both channel pairs, the transform
/// state, and the (initially empty) subscriber list.
#[verifier::reject_recursive_types(I)]
#[verifier::reject_recursive_types(O)]
pub struct Node<I, O, S> {
    inbox_read: Receiver<I>,
    inbox_enter: Sender<I>,
    state: S,
    listeners: Vec<Sender<O>>,
    system_read: Receiver<SystemMessage<Sender<O>>>,
    system_enter: SyncSender<SystemMessage<Sender<O>>>,
}

/// A cloneable handle to an actor: the sending halves of its two channels.
/// It exposes only `send` and `terminate`-style operations.
#[verifier::reject_recursive_types(I)]
#[verifier::reject_recursive_types(O)]
pub struct NodeRef<I, O> {
    inbox_enter_ref: Sender<I>,
    system_enter_ref: SyncSender<SystemMessage<Sender<O>>>,
}

/// What the execution loop owns once the actor runs: the receiving halves
/// only, so that dropping every handle disconnects the data channel and ends
/// the loop. The caller gives the worker its own thread of execution (the
/// loop may run forever, so it must not share one) and calls `Worker::step`
/// there until it says the actor is done.
#[verifier::reject_recursive_types(I)]
#[verifier::reject_recursive_types(O)]
pub struct Worker<I, O, S> {
    inbox_read: Receiver<I>,
    state: S,
    listeners: Vec<Sender<O>>,
    system_read: Receiver<SystemMessage<Sender<O>>>,
}

/// Build an actor around any transform state, with no subscribers yet. The
/// transform must accept every input value: one that cannot produce an
/// output for some input is out of scope here and belongs in the output
/// type.
pub fn actor_from_state<I, O, S: NodeState<I, O>>(state: S) -> (node: Node<I, O, S>)
    requires
        state.wf(),
    ensures
        node.wf(),
        node.subscribers().len() == 0,
        node.transform() == state,
{
    let (inbox_enter, inbox_read) = channel::channel();
    let (listeners_enter, listeners_read) = channel::sync_channel(CONTROL_CAPACITY);
    Node {
        inbox_read,
        inbox_enter,
        state,
        listeners: Vec::new(),
        system_read: listeners_read,
        system_enter: listeners_enter,
    }
}

/// Build an actor from a plain function, the stateless transform.
pub fn actor_from_fn<A, B, F: Fn(A) -> B>(f: F) -> (node: Node<A, B, FnNodeState<F>>)
    requires
        forall|a: A| call_requires(f, (a,)),
    ensures
        node.wf(),
        node.subscribers().len() == 0,
        node.transform() == (FnNodeState { f }),
{
    actor_from_state(FnNodeState { f })
}

impl<I, O, S: NodeState<I, O>> Node<I, O, S> {
    /// The actor's transform state is total, so the loop can feed it
    /// whatever arrives.
    pub closed spec fn wf(self) -> bool {
        self.state.wf()
    }

    /// The actor's current subscriber list.
    pub closed spec fn subscribers(self) -> Seq<Sender<O>> {
        self.listeners@
    }

    /// The actor's transform state.
    pub closed spec fn transform(self) -> S {
        self.state
    }

    /// A fresh handle to this actor: clones of the sending halves of both
    /// channels.
    pub fn get_ref(&mut self) -> (r: NodeRef<I, O>)
        ensures
            *final(self) == *old(self),
    {
        NodeRef {
            inbox_enter_ref: channel::clone_sender(&self.inbox_enter),
            system_enter_ref: channel::clone_sync_sender(&self.system_enter),
        }
    }

    /// Turn the configured actor into a handle and a worker: the handle
    /// keeps clones of the sending halves, the worker takes the receiving
    /// halves, the transform state and the subscriber list. The node's own
    /// sending halves are dropped here, so once every handle is gone the
    /// data channel disconnects and the worker's loop ends of itself.
    pub fn into_worker(self) -> (r: (NodeRef<I, O>, Worker<I, O, S>))
        requires
            self.wf(),
        ensures
            r.1.wf(),
            r.1.subscribers() == self.subscribers(),
            r.1.transform() == self.transform(),
    {
        let mut node = self;
        let handle = node.get_ref();
        let Node { inbox_read, inbox_enter: _, state, listeners, system_read, system_enter: _ } =
            node;
        (handle, Worker { inbox_read, state, listeners, system_read })
    }
}

impl<I, O, S: NodeState<I, O>> Worker<I, O, S> {
    /// The worker's transform state is total, as `Node::wf` demands.
    pub closed spec fn wf(self) -> bool {
        self.state.wf()
    }

    /// The worker's current subscriber list.
    pub closed spec fn subscribers(self) -> Seq<Sender<O>> {
        self.listeners@
    }

    /// The worker's transform state.
    pub closed spec fn transform(self) -> S {
        self.state
    }
}

/// What one iteration of the execution loop decided: whether the actor goes
/// on, was told to stop, or ran out of producers.
#[derive(PartialEq, Eq, Structural)]
pub enum StepOutcome {
    /// Keep iterating: either one item was transformed and fanned out, or
    /// nothing was pending.
    Proceed,
    /// A terminate command was drained; the loop stops here and any
    /// still-buffered data is discarded.
    Terminated,
    /// Every producer handle is gone and the data channel is drained: the
    /// actor's normal end of life.
    Exhausted,
}

impl<I, O: Copy, S: NodeState<I, O>> Worker<I, O, S> {
    /// One iteration of the execution loop. First every control command
    /// pending at the start of the iteration is drained and applied — the
    /// control channel buffers at most `CONTROL_CAPACITY` commands, so that
    /// many polls reach them all — and a terminate command ends the
    /// iteration before the data channel is so much as looked at. Then the
    /// data channel is polled once: an item is transformed and fanned out to
    /// every subscriber, an empty channel means an idle round, and a
    /// disconnected one finishes the actor. The caller keeps calling until
    /// the outcome is no longer `Proceed`.
    ///
    /// The contract characterizes every outcome over the subscriptions
    /// `added` drained this iteration (at most the control capacity). A
    /// terminated or exhausted step ran no transform and fanned nothing
    /// out: the state is untouched and the list is exactly the old one plus
    /// `added` — so the loop stops only on a drained terminate command or a
    /// dead data channel, and a drained terminate discards all buffered
    /// data. A proceeding step either found no data — same shape — or took
    /// exactly one item through exactly one transition of the transform and
    /// pruned the list by one delivery verdict per subscriber, order kept.
    pub fn step(&mut self) -> (outcome: StepOutcome)
        requires
            old(self).wf(),
        ensures
            final(self).wf(),
            exists|added: Seq<Sender<O>>|
                (added.len() <= CONTROL_CAPACITY && (match outcome {
                    StepOutcome::Terminated => final(self).subscribers() == old(self).subscribers()
                        + added && final(self).transform() == old(self).transform(),
                    StepOutcome::Exhausted => final(self).subscribers() == old(self).subscribers()
                        + added && final(self).transform() == old(self).transform(),
                    StepOutcome::Proceed => (final(self).subscribers() == old(self).subscribers()
                        + added && final(self).transform() == old(self).transform()) || (exists|
                        msg: I,
                        out: O,
                        verdicts: Seq<bool>,
                    |
                        (old(self).transform().transition(msg, final(self).transform(), out)
                            && verdicts.len() == old(self).subscribers().len() + added.len()
                            && final(self).subscribers() == mask_keep(
                            old(self).subscribers() + added,
                            verdicts,
                        ))),
                })),
    {
        let ghost mut added: Seq<Sender<O>> = Seq::empty();
        proof {
            assert(old(self).listeners@ + added =~= old(self).listeners@);
        }
        let mut budget: usize = CONTROL_CAPACITY;
        while budget > 0
            invariant
                self.state.wf(),
                self.state == old(self).state,
                self.listeners@ == old(self).listeners@ + added,
                added.len() + budget <= CONTROL_CAPACITY,
            decreases budget,
        {
            match channel::try_recv(&self.system_read) {
                Poll::Item(cmd) => {
                    let ghost before = self.listeners@;
                    if apply_system(&mut self.listeners, cmd) {
                        proof {
                            assert(self.subscribers() == old(self).subscribers() + added);
                            assert(self.transform() == old(self).transform());
                        }
                        return StepOutcome::Terminated;
                    }
                    proof {
                        let s = cmd->AddSubscriber_0;
                        assert(self.listeners@ == before.push(s));
                        assert((old(self).listeners@ + added).push(s) =~= old(self).listeners@
                            + added.push(s));
                        added = added.push(s);
                    }
                },
                Poll::Empty => { budget = 0; },
                Poll::Disconnected => { budget = 0; },
            }
            if budget > 0 {
                budget = budget - 1;
            }
        }
        proof {
            assert(self.subscribers() == old(self).subscribers() + added);
            assert(self.transform() == old(self).transform());
        }
        match classify_data(channel::try_recv(&self.inbox_read)) {
            DataStep::Work(message) => {
                let out = self.state.act(message);
                let verdicts = fan_out(&mut self.listeners, out);
                proof {
                    assert(old(self).transform().transition(message, self.transform(), out)
                        && verdicts@.len() == old(self).subscribers().len() + added.len()
                        && self.subscribers() == mask_keep(
                        old(self).subscribers() + added,
                        verdicts@,
                    ));
                }
                StepOutcome::Proceed
            },
            DataStep::Idle => StepOutcome::Proceed,
            DataStep::Finished => StepOutcome::Exhausted,
        }
    }
}

/// Send one value to every subscriber in list order, and keep exactly the
/// subscribers whose send was delivered: a dead peer is removed permanently,
/// never retried, and its failure does not keep any other subscriber from
/// being attempted. The returned verdicts surface one delivery attempt per
/// old subscriber, in list order, and the new list is exactly the old one
/// selected by those verdicts — removal happens only with a failed verdict,
/// and survivors keep their relative order.
pub fn fan_out<O: Copy>(listeners: &mut Vec<Sender<O>>, value: O) -> (verdicts: Vec<bool>)
    ensures
        verdicts@.len() == old(listeners)@.len(),
        final(listeners)@ == mask_keep(old(listeners)@, verdicts@),
{
    let ghost original: Seq<Sender<O>> = listeners@;
    let mut survivors: Vec<Sender<O>> = Vec::new();
    let mut verdicts: Vec<bool> = Vec::new();
    while listeners.len() > 0
        invariant
            verdicts@.len() <= original.len(),
            listeners@ == original.skip(verdicts@.len() as int),
            survivors@ == mask_keep(original.take(verdicts@.len() as int), verdicts@),
        decreases listeners.len(),
    {
        let subscriber = listeners.remove(0);
        let delivered = channel::send(&subscriber, value);
        proof {
            assert(subscriber == original[verdicts@.len() as int]);
            assert(original.take(verdicts@.len() as int + 1) =~= original.take(
                verdicts@.len() as int,
            ).push(subscriber));
            crate::protocol::lemma_mask_keep_push(
                original.take(verdicts@.len() as int),
                verdicts@,
                subscriber,
                delivered,
            );
            assert(original.skip(verdicts@.len() as int).drop_first() =~= original.skip(
                verdicts@.len() as int + 1,
            ));
        }
        if delivered {
            survivors.push(subscriber);
        }
        verdicts.push(delivered);
    }
    proof {
        assert(original.take(verdicts@.len() as int) =~= original);
    }
    *listeners = survivors;
    verdicts
}

impl<I, O> NodeRef<I, O> {
    /// Enqueue one value on the actor's data channel. Never blocks; the
    /// result is `false` exactly when the actor has already terminated, so a
    /// delivery failure is surfaced to the caller, never dropped silently.
    pub fn send(&self, message: I) -> (delivered: bool) {
        channel::send(&self.inbox_enter_ref, message)
    }

    /// Ask the actor to stop. Best effort and never blocking: `false` means
    /// the actor had already terminated, or its bounded control buffer was
    /// momentarily full; neither is fatal to the caller.
    pub fn send_kill(&self) -> (delivered: bool) {
        channel::try_sync_send(&self.system_enter_ref, SystemMessage::KillYourself)
    }
}

impl<I, O> Clone for NodeRef<I, O> {
    /// An independent handle to the same actor.
    fn clone(&self) -> (r: Self) {
        NodeRef {
            inbox_enter_ref: channel::clone_sender(&self.inbox_enter_ref),
            system_enter_ref: channel::clone_sync_sender(&self.system_enter_ref),
        }
    }
}

/// Subscribe actor `b` to actor `a`'s output: enqueue a subscription command
/// carrying a clone of `b`'s data-channel sender on `a`'s control channel.
/// Asynchronous and never blocking: values `a` produces before the command
/// is drained do not reach `b`. The result is `false` when `a` has already
/// terminated or its bounded control buffer is momentarily full.
pub fn link_from_to<A, B, C: Send>(a: &NodeRef<A, C>, b: &NodeRef<C, B>) -> (delivered: bool) {
    channel::try_sync_send(
        &a.system_enter_ref,
        SystemMessage::AddSubscriber(channel::clone_sender(&b.inbox_enter_ref)),
    )
}

/// Subscribe a plain output channel to actor `a`'s output, by the same
/// mechanism as `link_from_to`. The result is `false` when `a` has already
/// terminated or its bounded control buffer is momentarily full.
pub fn link_to_channel<I, O: Send>(a: &NodeRef<I, O>, ch: Sender<O>) -> (delivered: bool) {
    channel::try_sync_send(&a.system_enter_ref, SystemMessage::AddSubscriber(ch))
}

} // verus!
