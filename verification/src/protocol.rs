//! The pure half of the actor loop: what one non-blocking poll can yield,
//! the control commands an actor understands, and the exact decisions the
//! loop takes on each of them.

use vstd::prelude::*;

verus! {

/// Outcome of one non-blocking poll of a channel endpoint.
#[derive(PartialEq, Eq, Structural)]
pub enum Poll<T> {
    /// A message was pending and is handed out.
    Item(T),
    /// No message is pending right now; more may arrive later.
    Empty,
    /// Every sender is gone: no message will ever arrive again.
    Disconnected,
}

/// A command on an actor's control channel. `S` is the type of a subscriber
/// endpoint (for a running actor, a data-channel sender of its output type).
pub enum SystemMessage<S> {
    /// Append this endpoint to the actor's subscriber list.
    AddSubscriber(S),
    /// Stop the actor's loop at once; buffered data is discarded.
    KillYourself,
}

/// What the loop does after polling its data channel once.
#[derive(PartialEq, Eq, Structural)]
pub enum DataStep<I> {
    /// Transform this item and fan the result out.
    Work(I),
    /// Nothing pending: go round and poll control again.
    Idle,
    /// All producers are gone: the actor's normal end of life.
    Finished,
}

/// The loop's decision on one data-channel poll: a pending item is worked on,
/// an empty channel means another round of polling, and a disconnected
/// channel finishes the actor.
pub fn classify_data<I>(poll: Poll<I>) -> (step: DataStep<I>)
    ensures
        step == (match poll {
            Poll::Item(m) => DataStep::Work(m),
            Poll::Empty => DataStep::Idle::<I>,
            Poll::Disconnected => DataStep::Finished::<I>,
        }),
{
    match poll {
        Poll::Item(m) => DataStep::Work(m),
        Poll::Empty => DataStep::Idle,
        Poll::Disconnected => DataStep::Finished,
    }
}

/// Apply one control command to the subscriber list. A subscription appends
/// the new endpoint, keeping every earlier subscriber and their order; a
/// termination command leaves the list alone and tells the loop to stop.
pub fn apply_system<S>(listeners: &mut Vec<S>, cmd: SystemMessage<S>) -> (stop: bool)
    ensures
        stop == (cmd is KillYourself),
        (match cmd {
            SystemMessage::AddSubscriber(s) => final(listeners)@ == old(listeners)@.push(s),
            SystemMessage::KillYourself => final(listeners)@ == old(listeners)@,
        }),
{
    match cmd {
        SystemMessage::AddSubscriber(s) => {
            listeners.push(s);
            false
        }
        SystemMessage::KillYourself => true,
    }
}

/// The subsequence of `items` selected by the `keep` mask, order preserved:
/// the shape of a subscriber list after one fan-out, where `keep[i]` says
/// whether the send to subscriber `i` was delivered.
pub open spec fn mask_keep<S>(items: Seq<S>, keep: Seq<bool>) -> Seq<S>
    decreases items.len(),
{
    if items.len() == 0 || keep.len() == 0 {
        Seq::empty()
    } else if keep[0] {
        seq![items[0]] + mask_keep(items.drop_first(), keep.drop_first())
    } else {
        mask_keep(items.drop_first(), keep.drop_first())
    }
}

/// Extending a mask by one decision extends the selected subsequence by the
/// new item exactly when the decision keeps it.
pub proof fn lemma_mask_keep_push<S>(items: Seq<S>, keep: Seq<bool>, item: S, kept: bool)
    requires
        items.len() == keep.len(),
    ensures
        mask_keep(items.push(item), keep.push(kept)) == (if kept {
            mask_keep(items, keep).push(item)
        } else {
            mask_keep(items, keep)
        }),
    decreases items.len(),
{
    let pushed = items.push(item);
    let kp = keep.push(kept);
    assert(kp[0] == (if items.len() == 0 { kept } else { keep[0] }));
    if items.len() == 0 {
        assert(pushed.drop_first() =~= Seq::<S>::empty());
        assert(kp.drop_first() =~= Seq::<bool>::empty());
        assert(mask_keep(Seq::<S>::empty(), Seq::<bool>::empty()) == Seq::<S>::empty());
        assert(mask_keep(items, keep) == Seq::<S>::empty());
        if kept {
            assert(pushed[0] == item);
            assert(mask_keep(pushed, kp) == seq![item] + Seq::<S>::empty());
            assert(seq![item] + Seq::<S>::empty() =~= mask_keep(items, keep).push(item));
        }
    } else {
        assert(pushed.drop_first() =~= items.drop_first().push(item));
        assert(kp.drop_first() =~= keep.drop_first().push(kept));
        lemma_mask_keep_push(items.drop_first(), keep.drop_first(), item, kept);
        assert(pushed[0] == items[0]);
        let tail = mask_keep(items.drop_first(), keep.drop_first());
        if keep[0] {
            assert(mask_keep(pushed, kp) == seq![items[0]] + mask_keep(
                pushed.drop_first(),
                kp.drop_first(),
            ));
            assert(mask_keep(items, keep) == seq![items[0]] + tail);
            if kept {
                assert(seq![items[0]] + tail.push(item) =~= (seq![items[0]] + tail).push(item));
            }
        } else {
            assert(mask_keep(pushed, kp) == mask_keep(pushed.drop_first(), kp.drop_first()));
            assert(mask_keep(items, keep) == tail);
        }
    }
}

/// The all-true mask selects the whole list: fan-out removes a subscriber
/// only on a failed send.
pub proof fn lemma_mask_keep_all_true<S>(items: Seq<S>, keep: Seq<bool>)
    requires
        keep.len() == items.len(),
        forall|i: int| 0 <= i < keep.len() ==> keep[i],
    ensures
        mask_keep(items, keep) == items,
    decreases items.len(),
{
    if items.len() > 0 {
        lemma_mask_keep_all_true(items.drop_first(), keep.drop_first());
        assert(mask_keep(items, keep) =~= items);
    }
}

/// A kept verdict keeps its subscriber: if `keep[i]` holds, the selected
/// subsequence still contains `items[i]`. So a failed send to one
/// subscriber never costs any other subscriber its place in the list, and a
/// value fanned out to several live subscribers reaches every one of them.
pub proof fn lemma_mask_keep_retains<S>(items: Seq<S>, keep: Seq<bool>, i: int)
    requires
        items.len() == keep.len(),
        0 <= i < items.len(),
        keep[i],
    ensures
        mask_keep(items, keep).contains(items[i]),
    decreases items.len(),
{
    if i == 0 {
        assert(mask_keep(items, keep)[0] == items[0]);
    } else {
        lemma_mask_keep_retains(items.drop_first(), keep.drop_first(), i - 1);
        let tail = mask_keep(items.drop_first(), keep.drop_first());
        let j = choose|j: int| 0 <= j < tail.len() && tail[j] == items.drop_first()[i - 1];
        if keep[0] {
            assert(mask_keep(items, keep)[j + 1] == tail[j]);
        } else {
            assert(mask_keep(items, keep)[j] == tail[j]);
        }
        assert(items.drop_first()[i - 1] == items[i]);
    }
}

/// Mask selection never invents a subscriber: whatever the verdicts, the
/// pruned list holds only entries of the old one. A subscriber removed for
/// a dead peer stays gone — later fan-outs cannot bring it back, and a
/// repeated removal is a no-op because the entry is already absent.
pub proof fn lemma_mask_keep_no_new<S>(items: Seq<S>, keep: Seq<bool>, x: S)
    requires
        mask_keep(items, keep).contains(x),
    ensures
        items.contains(x),
    decreases items.len(),
{
    let selected = mask_keep(items, keep);
    if items.len() != 0 && keep.len() != 0 {
        let tail = mask_keep(items.drop_first(), keep.drop_first());
        if keep[0] && x == items[0] {
            assert(items.contains(x)) by {
                assert(items[0] == x);
            }
        } else {
            assert(tail.contains(x)) by {
                let j = choose|j: int| 0 <= j < selected.len() && selected[j] == x;
                if keep[0] {
                    assert(selected[j] == tail[j - 1]);
                } else {
                    assert(selected[j] == tail[j]);
                }
            }
            lemma_mask_keep_no_new(items.drop_first(), keep.drop_first(), x);
            let k = choose|k: int| 0 <= k < items.drop_first().len() && items.drop_first()[k] == x;
            assert(items[k + 1] == x);
        }
    }
}

/// The transform as a mathematical function of internal state and one
/// message: the state an actor's transform holds after observing `inputs`
/// one at a time, in order.
pub open spec fn model_state<St, I, O>(f: spec_fn(St, I) -> (St, O), st: St, inputs: Seq<I>) -> St
    decreases inputs.len(),
{
    if inputs.len() == 0 {
        st
    } else {
        model_state(f, f(st, inputs[0]).0, inputs.drop_first())
    }
}

/// The outputs an actor's transform produces from `inputs` observed one at a
/// time, in order, threading the internal state through.
pub open spec fn model_outputs<St, I, O>(
    f: spec_fn(St, I) -> (St, O),
    st: St,
    inputs: Seq<I>,
) -> Seq<O>
    decreases inputs.len(),
{
    if inputs.len() == 0 {
        Seq::empty()
    } else {
        seq![f(st, inputs[0]).1] + model_outputs(f, f(st, inputs[0]).0, inputs.drop_first())
    }
}

/// The transform observes the values sent to one actor in send order.
/// Exactly one output answers each input, and the `i`-th output is the
/// transform applied to the `i`-th input together with the state built up
/// from the first `i` inputs alone — no reordering, no loss, no
/// duplication.
pub proof fn lemma_observed_in_send_order<St, I, O>(
    f: spec_fn(St, I) -> (St, O),
    st: St,
    inputs: Seq<I>,
)
    ensures
        model_outputs(f, st, inputs).len() == inputs.len(),
        forall|i: int|
            0 <= i < inputs.len() ==> model_outputs(f, st, inputs)[i] == f(
                model_state(f, st, inputs.take(i)),
                inputs[i],
            ).1,
    decreases inputs.len(),
{
    if inputs.len() > 0 {
        let st1 = f(st, inputs[0]).0;
        lemma_observed_in_send_order(f, st1, inputs.drop_first());
        assert forall|i: int|
            0 <= i < inputs.len() implies model_outputs(f, st, inputs)[i] == f(
            model_state(f, st, inputs.take(i)),
            inputs[i],
        ).1 by {
            if i == 0 {
                assert(inputs.take(0) =~= Seq::<I>::empty());
                assert(model_outputs(f, st, inputs)[0] == f(st, inputs[0]).1);
            } else {
                assert(model_outputs(f, st, inputs)[i] == model_outputs(
                    f,
                    st1,
                    inputs.drop_first(),
                )[i - 1]);
                assert(inputs.drop_first().take(i - 1) =~= inputs.take(i).drop_first());
                assert(inputs.take(i).len() == i);
                assert(inputs.take(i)[0] == inputs[0]);
                assert(model_state(f, st, inputs.take(i)) == model_state(
                    f,
                    st1,
                    inputs.drop_first().take(i - 1),
                ));
                assert(inputs.drop_first()[i - 1] == inputs[i]);
            }
        };
    }
}

} // verus!
