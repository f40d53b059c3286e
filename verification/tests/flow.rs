use kernel_exit::board::DeviceWrite;
use kernel_exit::console::print;
use kernel_exit::flow::{announce, step, Effect, Event, State};
use kernel_exit::report::{Location, PanicRecord};
use kernel_exit::sbi::CallFrame;

const SUCCESS: Effect = Effect::Store(DeviceWrite { addr: 0x100000, value: 0x5555 });
const FAILURE: Effect = Effect::Store(DeviceWrite { addr: 0x100000, value: (1 << 16) | 0x3333 });

fn boom() -> PanicRecord {
    PanicRecord { location: None, message: "boom".to_string() }
}

fn located() -> PanicRecord {
    PanicRecord {
        location: Some(Location { file: "src/main.rs".to_string(), line: 12 }),
        message: "bad".to_string(),
    }
}

fn console(text: &str) -> Vec<Effect> {
    text.chars()
        .map(|c| Effect::Ecall(CallFrame { x10: c as usize, x11: 0, x12: 0, x16: 0, x17: 1 }))
        .collect()
}

fn run(start: State, events: &[Event]) -> (State, Vec<Effect>) {
    let mut state = start;
    let mut trace = Vec::new();
    for event in events {
        let (next, effects) = step(state, event);
        state = next;
        trace.extend(effects);
    }
    (state, trace)
}

fn stores(trace: &[Effect]) -> Vec<Effect> {
    trace.iter().copied().filter(|e| matches!(e, Effect::Store(_))).collect()
}

#[test]
fn completion_writes_success_once_and_prints_nothing() {
    let (state, effects) = step(State::Running, &Event::Completed);
    assert_eq!(state, State::Halted);
    assert_eq!(effects, vec![SUCCESS]);
    assert_eq!(effects.len(), 1);
    assert!(effects.iter().all(|e| !matches!(e, Effect::Ecall(_))));
}

#[test]
fn panic_prints_the_line_then_writes_failure_once() {
    let trace = kernel_exit::flow::panic(&boom());
    let mut expected = console("[kernel] Panicked: boom\n");
    expected.push(FAILURE);
    assert_eq!(trace, expected);
    assert_eq!(stores(&trace), vec![FAILURE]);
    assert_eq!(trace.last(), Some(&FAILURE));
}

#[test]
fn panic_with_location_prints_file_and_line() {
    let trace = kernel_exit::flow::panic(&located());
    let mut expected = console("[kernel] Panicked at src/main.rs:12 bad\n");
    expected.push(FAILURE);
    assert_eq!(trace, expected);
}

#[test]
fn announce_is_the_line_and_a_line_break() {
    assert_eq!(announce(&boom()), console("[kernel] Panicked: boom\n"));
    let calls = print("[kernel] Panicked: boom\n");
    let calls: Vec<Effect> = calls.into_iter().map(Effect::Ecall).collect();
    assert_eq!(announce(&boom()), calls);
}

#[test]
fn panic_signal_moves_to_panicking_with_the_line() {
    let (state, effects) = step(State::Running, &Event::Panicked(boom()));
    assert_eq!(state, State::Panicking);
    assert_eq!(effects, console("[kernel] Panicked: boom\n"));
    assert!(stores(&effects).is_empty());
}

#[test]
fn panicking_always_halts_as_failure() {
    for event in [Event::Resumed, Event::Completed, Event::Panicked(located())] {
        let (state, effects) = step(State::Panicking, &event);
        assert_eq!(state, State::Halted);
        assert_eq!(effects, vec![FAILURE]);
    }
}

#[test]
fn halted_only_waits() {
    for event in [Event::Resumed, Event::Completed, Event::Panicked(boom())] {
        let (state, effects) = step(State::Halted, &event);
        assert_eq!(state, State::Halted);
        assert_eq!(effects, vec![Effect::Wfi]);
    }
}

#[test]
fn running_goes_on_when_control_returns() {
    let (state, effects) = step(State::Running, &Event::Resumed);
    assert_eq!(state, State::Running);
    assert!(effects.is_empty());
}

#[test]
fn run_of_a_panic_matches_the_handler() {
    let (state, trace) = run(State::Running, &[Event::Panicked(boom()), Event::Resumed]);
    assert_eq!(state, State::Halted);
    assert_eq!(trace, kernel_exit::flow::panic(&boom()));
}

#[test]
fn run_of_a_panic_end_to_end() {
    let events = [Event::Panicked(boom()), Event::Resumed, Event::Resumed, Event::Resumed];
    let (state, trace) = run(State::Running, &events);
    let mut expected = console("[kernel] Panicked: boom\n");
    expected.extend([FAILURE, Effect::Wfi, Effect::Wfi]);
    assert_eq!(state, State::Halted);
    assert_eq!(trace, expected);
    assert_eq!(stores(&trace).len(), 1);
}

#[test]
fn run_of_completion_end_to_end() {
    let events = [Event::Resumed, Event::Completed, Event::Resumed, Event::Resumed];
    let (state, trace) = run(State::Running, &events);
    assert_eq!(state, State::Halted);
    assert_eq!(trace, vec![SUCCESS, Effect::Wfi, Effect::Wfi]);
}

#[test]
fn second_panic_prints_no_second_line() {
    let events = [Event::Panicked(boom()), Event::Panicked(located()), Event::Panicked(located())];
    let (state, trace) = run(State::Running, &events);
    let mut expected = console("[kernel] Panicked: boom\n");
    expected.extend([FAILURE, Effect::Wfi]);
    assert_eq!(state, State::Halted);
    assert_eq!(trace, expected);
}

#[test]
fn panic_after_completion_changes_nothing() {
    let events = [Event::Completed, Event::Panicked(boom()), Event::Completed];
    let (state, trace) = run(State::Running, &events);
    assert_eq!(state, State::Halted);
    assert_eq!(trace, vec![SUCCESS, Effect::Wfi, Effect::Wfi]);
    assert_eq!(stores(&trace), vec![SUCCESS]);
}

fn event(kind: usize) -> Event {
    match kind {
        0 => Event::Resumed,
        1 => Event::Completed,
        2 => Event::Panicked(boom()),
        _ => Event::Panicked(located()),
    }
}

fn four_events(code: usize) -> [Event; 4] {
    [event(code % 4), event(code / 4 % 4), event(code / 16 % 4), event(code / 64)]
}

#[test]
fn no_run_writes_the_device_twice() {
    for start in [State::Running, State::Panicking, State::Halted] {
        for code in 0..256usize {
            let events = four_events(code);
            let (state, trace) = run(start, &events);
            let writes = stores(&trace).len();
            assert!(writes <= 1);
            if start == State::Halted {
                assert_eq!(writes, 0);
            } else {
                assert_eq!(writes == 1, state == State::Halted);
            }
        }
    }
}

#[test]
fn announcement_is_made_at_most_once() {
    for code in 0..256usize {
        let events = four_events(code);
        let (_, trace) = run(State::Running, &events);
        let breaks = trace
            .iter()
            .filter(|e| matches!(e, Effect::Ecall(frame) if frame.x10 == '\n' as usize))
            .count();
        assert!(breaks <= 1);
    }
}

#[test]
fn flow_asks_only_for_putchar_and_the_two_exits() {
    for start in [State::Running, State::Panicking, State::Halted] {
        for code in 0..256usize {
            let events = four_events(code);
            let (_, trace) = run(start, &events);
            for effect in trace {
                match effect {
                    Effect::Ecall(frame) => {
                        assert_eq!((frame.x11, frame.x12, frame.x16, frame.x17), (0, 0, 0, 1));
                        assert!(frame.x10 <= 0x10ffff);
                    }
                    Effect::Store(_) => assert!(effect == SUCCESS || effect == FAILURE),
                    Effect::Wfi => {}
                }
            }
        }
    }
}
