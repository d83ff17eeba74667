use std::sync::mpsc::{channel, Receiver, Sender};

use actornet::node::{
    actor_from_fn, actor_from_state, fan_out, link_from_to, link_to_channel, NodeState, StepOutcome,
    Worker,
};
use actornet::protocol::{apply_system, classify_data, DataStep, Poll, SystemMessage};
use actornet::samples::{double, square, Delay};

/// Run one worker's loop on this thread until it says the actor is done.
fn drive<I, O: Copy, S: NodeState<I, O>>(worker: Worker<I, O, S>) -> StepOutcome {
    let mut worker = worker;
    loop {
        let outcome = worker.step();
        if !matches!(outcome, StepOutcome::Proceed) {
            return outcome;
        }
    }
}

/// Everything a disconnected sink still buffers, in arrival order.
fn collect(sink: Receiver<u64>) -> Vec<u64> {
    let mut values = Vec::new();
    while let Ok(value) = sink.recv() {
        values.push(value);
    }
    values
}

#[test]
fn transform_observes_inputs_in_send_order() {
    let (sink_in, sink_out) = channel();
    let (handle, worker) = actor_from_state(Delay { last: 0 }).into_worker();
    assert!(link_to_channel(&handle, sink_in));
    assert!(handle.send(5));
    assert!(handle.send(7));
    assert!(handle.send(9));
    drop(handle);
    let outcome = drive(worker);
    assert!(matches!(outcome, StepOutcome::Exhausted));
    // The delay line emits the previous value: only in-order observation
    // of [5, 7, 9] from the initial 0 yields [0, 5, 7].
    assert_eq!(collect(sink_out), vec![0, 5, 7]);
}

#[test]
fn double_actor_delivers_doubles_in_order() {
    let (sink_in, sink_out) = channel();
    let (handle, worker) = actor_from_fn(double).into_worker();
    assert!(link_to_channel(&handle, sink_in));
    for value in 1..=6 {
        assert!(handle.send(value));
    }
    drop(handle);
    let outcome = drive(worker);
    assert!(matches!(outcome, StepOutcome::Exhausted));
    assert_eq!(collect(sink_out), vec![2, 4, 6, 8, 10, 12]);
}

#[test]
fn chained_double_then_square_yields_square_of_double() {
    let (sink_in, sink_out) = channel();
    let (double_handle, double_worker) = actor_from_fn(double).into_worker();
    let (square_handle, square_worker) = actor_from_fn(square).into_worker();
    assert!(link_from_to(&double_handle, &square_handle));
    assert!(link_to_channel(&square_handle, sink_in));
    assert!(double_handle.send(3));
    drop(double_handle);
    assert!(matches!(drive(double_worker), StepOutcome::Exhausted));
    drop(square_handle);
    assert!(matches!(drive(square_worker), StepOutcome::Exhausted));
    assert_eq!(collect(sink_out), vec![36]);
}

#[test]
fn broadcast_delivers_every_value_to_both_sinks() {
    let (sink_one_in, sink_one_out) = channel();
    let (sink_two_in, sink_two_out) = channel();
    let (handle, mut worker) = actor_from_fn(double).into_worker();
    // The control channel buffers one command, so let the loop drain the
    // first subscription before enqueueing the second.
    assert!(link_to_channel(&handle, sink_one_in));
    assert!(matches!(worker.step(), StepOutcome::Proceed));
    assert!(link_to_channel(&handle, sink_two_in));
    for value in 1..=3 {
        assert!(handle.send(value));
    }
    drop(handle);
    assert!(matches!(drive(worker), StepOutcome::Exhausted));
    assert_eq!(collect(sink_one_out), vec![2, 4, 6]);
    assert_eq!(collect(sink_two_out), vec![2, 4, 6]);
}

#[test]
fn fan_out_prunes_dead_subscriber_permanently() {
    let (dead_in, dead_out): (Sender<u64>, Receiver<u64>) = channel();
    let (live_in, live_out) = channel();
    drop(dead_out);
    let mut listeners = vec![dead_in, live_in];
    // One delivery verdict per subscriber, in list order: the dead peer is
    // removed at once, the live one still got the value.
    assert_eq!(fan_out(&mut listeners, 42), vec![false, true]);
    assert_eq!(listeners.len(), 1);
    assert_eq!(live_out.try_recv(), Ok(42));
    // A later fan-out finds the dead subscriber already absent: removing it
    // again is a no-op, and delivery to the survivor goes on undisturbed.
    assert_eq!(fan_out(&mut listeners, 43), vec![true]);
    assert_eq!(listeners.len(), 1);
    assert_eq!(live_out.try_recv(), Ok(43));
}

#[test]
fn dead_downstream_actor_does_not_stall_upstream() {
    let (sink_in, sink_out) = channel();
    let (up_handle, mut up_worker) = actor_from_fn(double).into_worker();
    let (down_handle, down_worker) = actor_from_fn(square).into_worker();
    assert!(link_from_to(&up_handle, &down_handle));
    assert!(matches!(up_worker.step(), StepOutcome::Proceed));
    assert!(link_to_channel(&up_handle, sink_in));
    // Terminate downstream before upstream produces anything.
    assert!(down_handle.send_kill());
    drop(down_handle);
    assert!(matches!(drive(down_worker), StepOutcome::Terminated));
    for value in 1..=3 {
        assert!(up_handle.send(value));
    }
    drop(up_handle);
    // Upstream neither blocks nor fails on the dead subscriber; the live
    // sink still sees every value.
    assert!(matches!(drive(up_worker), StepOutcome::Exhausted));
    assert_eq!(collect(sink_out), vec![2, 4, 6]);
}

#[test]
fn terminate_stops_before_buffered_data() {
    let (sink_in, sink_out) = channel();
    let (handle, mut worker) = actor_from_fn(double).into_worker();
    assert!(link_to_channel(&handle, sink_in));
    assert!(matches!(worker.step(), StepOutcome::Proceed));
    for value in 1..=3 {
        assert!(handle.send(value));
    }
    assert!(handle.send_kill());
    // The terminate command is drained before the next data item is looked
    // at: the already-buffered messages are discarded, none is processed
    // after the command.
    assert!(matches!(drive(worker), StepOutcome::Terminated));
    assert_eq!(collect(sink_out), Vec::<u64>::new());
}

#[test]
fn dropping_all_handles_stops_the_loop() {
    let (sink_in, sink_out) = channel();
    let (handle, worker) = actor_from_fn(double).into_worker();
    assert!(link_to_channel(&handle, sink_in));
    assert!(handle.send(21));
    drop(handle);
    // With every handle gone the data channel reports disconnection, the
    // actor's normal end of life.
    assert!(matches!(drive(worker), StepOutcome::Exhausted));
    assert_eq!(collect(sink_out), vec![42]);
}

#[test]
fn cloned_handle_reaches_the_same_actor() {
    let (sink_in, sink_out) = channel();
    let (handle, worker) = actor_from_fn(double).into_worker();
    assert!(link_to_channel(&handle, sink_in));
    let twin = handle.clone();
    assert!(handle.send(1));
    assert!(twin.send(2));
    assert!(handle.send(3));
    assert!(twin.send(4));
    drop(handle);
    drop(twin);
    // Both handles feed the one actor: no value lost, none duplicated,
    // send order kept.
    assert!(matches!(drive(worker), StepOutcome::Exhausted));
    assert_eq!(collect(sink_out), vec![2, 4, 6, 8]);
}

#[test]
fn sends_to_a_terminated_actor_fail() {
    let (handle, worker) = actor_from_fn(double).into_worker();
    assert!(handle.send_kill());
    assert!(matches!(drive(worker), StepOutcome::Terminated));
    // The worker is gone: a delivery failure is surfaced to the caller on
    // every operation, never swallowed.
    assert!(!handle.send(1));
    assert!(!handle.send_kill());
    let (sink_in, _sink_out) = channel();
    assert!(!link_to_channel(&handle, sink_in));
}

#[test]
fn extra_handle_from_get_ref_feeds_the_same_actor() {
    let (sink_in, sink_out) = channel();
    let mut node = actor_from_fn(double);
    let early = node.get_ref();
    let (handle, worker) = node.into_worker();
    assert!(link_to_channel(&handle, sink_in));
    assert!(early.send(10));
    assert!(handle.send(11));
    drop(early);
    drop(handle);
    assert!(matches!(drive(worker), StepOutcome::Exhausted));
    assert_eq!(collect(sink_out), vec![20, 22]);
}

#[test]
fn control_commands_update_subscriber_list() {
    let mut listeners: Vec<u64> = Vec::new();
    assert!(!apply_system(&mut listeners, SystemMessage::AddSubscriber(7)));
    assert_eq!(listeners, vec![7]);
    assert!(!apply_system(&mut listeners, SystemMessage::AddSubscriber(8)));
    assert_eq!(listeners, vec![7, 8]);
    assert!(apply_system(&mut listeners, SystemMessage::KillYourself));
    assert_eq!(listeners, vec![7, 8]);
}

#[test]
fn data_poll_classification() {
    assert!(matches!(classify_data(Poll::Item(3u64)), DataStep::Work(3)));
    assert!(matches!(classify_data(Poll::Empty::<u64>), DataStep::Idle));
    assert!(matches!(classify_data(Poll::Disconnected::<u64>), DataStep::Finished));
}

#[test]
fn sample_transform_formulas() {
    assert_eq!(double(21), 42);
    assert_eq!(double(0), 0);
    assert_eq!(square(9), 81);
    assert_eq!(square(1), 1);
    // Both transforms are total, saturating at the top of the range.
    assert_eq!(double(u64::MAX), u64::MAX);
    assert_eq!(square(u64::MAX), u64::MAX);
    assert_eq!(square(1 << 32), u64::MAX);
}

#[test]
fn delay_emits_previous_value() {
    let mut state = Delay { last: 0 };
    assert_eq!(state.act(4), 0);
    assert_eq!(state.act(6), 4);
    assert_eq!(state.last, 6);
}
