//! The way to shutdown: what the kernel does when its start-up is done
//! and when it panics.
//!
//! The kernel is in one of three states. Events move it from state to
//! state, and each move yields the effects that the machine must carry
//! out, in order, before the next event is looked at. `step` makes one
//! move; whoever runs the kernel performs the effects and comes back with
//! the next event.

use vstd::prelude::*;
use crate::board::{qemu_exit_handle, DeviceWrite, QEMUExit, EXIT_FAILURE, EXIT_SUCCESS, VIRT_TEST};
use crate::console::{calls_carry_the_characters, putchar_calls};
use crate::report::{panic_line, panic_message, PanicRecord};
use crate::sbi::{putchar_frame, shutdown, CallFrame};

verus! {

/// Something the machine is asked to do.
#[derive(Clone, Copy, Debug, PartialEq, Eq, Structural)]
pub enum Effect {
    /// Trap into the firmware with these registers.
    Ecall(CallFrame),
    /// Store a word to a device register.
    Store(DeviceWrite),
    /// Wait for an interrupt.
    Wfi,
}

/// Where the kernel stands.
#[derive(Clone, Copy, Debug, PartialEq, Eq, Structural)]
pub enum State {
    /// Start-up is under way.
    Running,
    /// A panic has been announced and the machine is still on.
    Panicking,
    /// The exit device has been told; nothing runs after this.
    Halted,
}

/// What can happen to the kernel.
#[derive(Debug)]
pub enum Event {
    /// Start-up reached its end.
    Completed,
    /// Something raised a panic.
    Panicked(PanicRecord),
    /// The effects of the last step are done and control is back.
    Resumed,
}

/// The store that reports success on the board's test device.
pub open spec fn success_store() -> DeviceWrite {
    DeviceWrite { addr: VIRT_TEST, value: EXIT_SUCCESS }
}

/// The store that reports failure on the board's test device.
pub open spec fn failure_store() -> DeviceWrite {
    DeviceWrite { addr: VIRT_TEST, value: EXIT_FAILURE }
}

/// The given firmware calls as effects, in the same order.
pub open spec fn ecalls(calls: Seq<CallFrame>) -> Seq<Effect> {
    Seq::new(calls.len(), |i: int| Effect::Ecall(calls[i]))
}

/// The effects that announce `info`: its line and a line break, character
/// by character, on the console.
pub open spec fn announcement(info: PanicRecord) -> Seq<Effect> {
    ecalls(putchar_calls(panic_line(info).push('\n')))
}

/// `n` waits for an interrupt, one after the other.
pub open spec fn idle(n: nat) -> Seq<Effect> {
    Seq::new(n, |i: int| Effect::Wfi)
}

/// The state after `event` arrives in `state`.
pub open spec fn next_state(state: State, event: Event) -> State {
    match state {
        State::Running => match event {
            Event::Completed => State::Halted,
            Event::Panicked(_) => State::Panicking,
            Event::Resumed => State::Running,
        },
        State::Panicking => State::Halted,
        State::Halted => State::Halted,
    }
}

/// The effects owed when `event` arrives in `state`.
pub open spec fn effects(state: State, event: Event) -> Seq<Effect> {
    match state {
        State::Running => match event {
            Event::Completed => seq![Effect::Store(success_store())],
            Event::Panicked(info) => announcement(info),
            Event::Resumed => Seq::empty(),
        },
        State::Panicking => seq![Effect::Store(failure_store())],
        State::Halted => seq![Effect::Wfi],
    }
}

/// The state reached and the effects owed, in order, when `events` arrive
/// one after the other starting in `state`.
pub open spec fn run(state: State, events: Seq<Event>) -> (State, Seq<Effect>)
    decreases events.len(),
{
    if events.len() == 0 {
        (state, Seq::empty())
    } else {
        let rest = run(next_state(state, events.first()), events.drop_first());
        (rest.0, effects(state, events.first()) + rest.1)
    }
}

fn as_effects(calls: Vec<CallFrame>) -> (trace: Vec<Effect>)
    ensures
        trace@ == ecalls(calls@),
{
    let mut trace: Vec<Effect> = Vec::new();
    let mut i: usize = 0;
    while i < calls.len()
        invariant
            i <= calls.len(),
            trace@ == ecalls(calls@.take(i as int)),
        decreases calls.len() - i,
    {
        trace.push(Effect::Ecall(calls[i]));
        i += 1;
    }
    assert(calls@.take(i as int) == calls@);
    trace
}

/// Announce `info` on the console.
pub fn announce(info: &PanicRecord) -> (trace: Vec<Effect>)
    ensures
        trace@ == announcement(*info),
{
    let line = panic_message(info);
    as_effects(crate::console::println(line.as_str()))
}

/// Make one move: the next state, and the effects to carry out before the
/// next event.
pub fn step(state: State, event: &Event) -> (next: (State, Vec<Effect>))
    ensures
        next.0 == next_state(state, *event),
        next.1@ == effects(state, *event),
{
    match state {
        State::Running => match event {
            Event::Completed => {
                let write = qemu_exit_handle().exit_success();
                (State::Halted, vec![Effect::Store(write)])
            },
            Event::Panicked(info) => (State::Panicking, announce(info)),
            Event::Resumed => (State::Running, Vec::new()),
        },
        State::Panicking => (State::Halted, vec![Effect::Store(shutdown())]),
        State::Halted => (State::Halted, vec![Effect::Wfi]),
    }
}

/// The panic handler from end to end: announce `info`, then shut down as
/// failed.
pub fn panic(info: &PanicRecord) -> (trace: Vec<Effect>)
    ensures
        trace@ == announcement(*info) + seq![Effect::Store(failure_store())],
{
    let mut trace = announce(info);
    trace.push(Effect::Store(shutdown()));
    trace
}

/// The device writes among the effects of `trace`, in order.
pub open spec fn stores(trace: Seq<Effect>) -> Seq<Effect> {
    trace.filter(|e: Effect| e is Store)
}

/// `Halted` is final: whatever events still arrive, the kernel stays
/// halted and does nothing but wait for interrupts, once per event.
pub proof fn halted_is_final(events: Seq<Event>)
    ensures
        run(State::Halted, events) == (State::Halted, idle(events.len())),
    decreases events.len(),
{
    if events.len() > 0 {
        halted_is_final(events.drop_first());
        assert(seq![Effect::Wfi] + idle(events.drop_first().len()) =~= idle(events.len()));
    } else {
        assert(idle(0) =~= Seq::<Effect>::empty());
    }
}

/// While the kernel runs, the return of control is no news: a `Resumed`
/// in front of any events changes neither the state reached nor the
/// effects.
pub proof fn running_ignores_resumed(rest: Seq<Event>)
    ensures
        run(State::Running, seq![Event::Resumed] + rest) == run(State::Running, rest),
{
    let events = seq![Event::Resumed] + rest;
    assert(events.drop_first() =~= rest);
    assert(Seq::<Effect>::empty() + run(State::Running, rest).1 =~= run(State::Running, rest).1);
}

/// Normal completion: the success word is stored to the test device, once,
/// with no console output before it, and the kernel is halted; every
/// later event only makes it wait.
pub proof fn completion_stores_success(rest: Seq<Event>)
    ensures
        run(State::Running, seq![Event::Completed] + rest) == (
            State::Halted,
            seq![Effect::Store(success_store())] + idle(rest.len()),
        ),
{
    let events = seq![Event::Completed] + rest;
    assert(events.drop_first() =~= rest);
    halted_is_final(rest);
}

/// A panic: the announcement goes to the console, and whatever happens
/// next the failure word is stored to the test device, once, and the
/// kernel is halted; every later event only makes it wait.
pub proof fn panic_announces_then_stores_failure(
    info: PanicRecord,
    then: Event,
    rest: Seq<Event>,
)
    ensures
        run(State::Running, seq![Event::Panicked(info), then] + rest) == (
            State::Halted,
            announcement(info) + seq![Effect::Store(failure_store())] + idle(rest.len()),
        ),
{
    let events = seq![Event::Panicked(info), then] + rest;
    let after = seq![then] + rest;
    assert(events.drop_first() =~= after);
    assert(after.drop_first() =~= rest);
    halted_is_final(rest);
    assert(run(State::Panicking, after) == (
        State::Halted,
        seq![Effect::Store(failure_store())] + idle(rest.len()),
    ));
    assert(announcement(info) + (seq![Effect::Store(failure_store())] + idle(rest.len()))
        =~= announcement(info) + seq![Effect::Store(failure_store())] + idle(rest.len()));
}

/// Whatever the events, the exit device is written at most once: exactly
/// once on the way into `Halted`, and not at all before or after.
pub proof fn device_written_once(state: State, events: Seq<Event>)
    ensures
        ({
            let (end, trace) = run(state, events);
            let writes = stores(trace).len();
            &&& writes <= 1
            &&& writes == 1 <==> state != State::Halted && end == State::Halted
        }),
    decreases events.len(),
{
    let is_store = |e: Effect| e is Store;
    if events.len() == 0 {
        assert(stores(Seq::empty()).len() == 0) by {
            reveal(Seq::filter);
        }
    } else {
        let first = events.first();
        let now = effects(state, first);
        let rest = run(next_state(state, first), events.drop_first());
        device_written_once(next_state(state, first), events.drop_first());
        if next_state(state, first) == State::Halted {
            halted_is_final(events.drop_first());
        }
        Seq::filter_distributes_over_add(now, rest.1, is_store);
        assert(stores(now + rest.1) == stores(now) + stores(rest.1));
        match state {
            State::Running => match first {
                Event::Completed => {
                    stores_of_one(Effect::Store(success_store()));
                },
                Event::Panicked(info) => {
                    stores_of_ecalls(putchar_calls(panic_line(info).push('\n')));
                },
                Event::Resumed => {
                    assert(stores(Seq::empty()).len() == 0) by {
                        reveal(Seq::filter);
                    }
                },
            },
            State::Panicking => {
                stores_of_one(Effect::Store(failure_store()));
            },
            State::Halted => {
                stores_of_one(Effect::Wfi);
            },
        }
    }
}

/// Whether the flow may ask for `effect`: of the firmware only that it
/// puts a character on the console, its code no larger than the largest
/// character's; of the devices only that the board's test device takes the
/// success or the failure word.
pub open spec fn permitted(effect: Effect) -> bool {
    match effect {
        Effect::Ecall(frame) => frame == putchar_frame(frame.x10) && frame.x10 <= 0x10_ffff,
        Effect::Store(write) => write == success_store() || write == failure_store(),
        Effect::Wfi => true,
    }
}

/// Nothing but permitted effects ever comes out of the flow, from whatever
/// state it starts and whatever events arrive: no firmware call besides
/// putchar, no store besides the two exits.
pub proof fn only_permitted_effects(state: State, events: Seq<Event>)
    ensures
        forall|i: int|
            0 <= i < run(state, events).1.len() ==> permitted(#[trigger] run(state, events).1[i]),
    decreases events.len(),
{
    if events.len() > 0 {
        let first = events.first();
        let now = effects(state, first);
        let rest = run(next_state(state, first), events.drop_first());
        only_permitted_effects(next_state(state, first), events.drop_first());
        assert forall|i: int| 0 <= i < now.len() implies permitted(#[trigger] now[i]) by {
            if state == State::Running && first is Panicked {
                let text = panic_line(first->Panicked_0).push('\n');
                calls_carry_the_characters(text, i);
                assert(now[i] == Effect::Ecall(putchar_calls(text)[i]));
            }
        }
        assert forall|i: int| 0 <= i < (now + rest.1).len() implies permitted(
            #[trigger] (now + rest.1)[i],
        ) by {
            if i >= now.len() {
                assert((now + rest.1)[i] == rest.1[i - now.len()]);
            }
        }
    }
}

proof fn stores_of_one(e: Effect)
    ensures
        stores(seq![e]) == if e is Store {
            seq![e]
        } else {
            Seq::empty()
        },
{
    let is_store = |e: Effect| e is Store;
    assert(seq![e].drop_last() =~= Seq::<Effect>::empty());
    assert(seq![e].last() == e);
    reveal_with_fuel(Seq::filter, 2);
}

proof fn stores_of_ecalls(calls: Seq<CallFrame>)
    ensures
        stores(ecalls(calls)) == Seq::<Effect>::empty(),
{
    let is_store = |e: Effect| e is Store;
    ecalls(calls).lemma_all_neg_filter_empty(is_store);
}

} // verus!
