use inky::bus::{Action, Event, Level, Line};
use inky::engine::PanelState;
use inky::error::InkyError;
use inky::inky::Inky;

/// A panel on the bench: performs the actions of the driver against a
/// scripted busy line and a clock that only moves while the driver sleeps.
struct Bench {
    /// Readings of the busy line, in order; `true` reads ready.
    busy: Vec<bool>,
    /// Reading of the busy line once the script is used up.
    ready_afterwards: bool,
    reads: usize,
    clock_ns: u64,
    /// Time that every sleep takes on top of what was asked for.
    overhead_ns: u64,
    /// Number of the write that fails, counted from zero.
    failing_write: Option<usize>,
    writes: usize,
    slept_ms: u64,
    log: Vec<Action>,
    states: Vec<PanelState>,
}

impl Bench {
    fn new() -> Bench {
        Bench {
            busy: Vec::new(),
            ready_afterwards: true,
            reads: 0,
            clock_ns: 1_000,
            overhead_ns: 0,
            failing_write: None,
            writes: 0,
            slept_ms: 0,
            log: Vec::new(),
            states: Vec::new(),
        }
    }

    fn answer(&mut self, action: &Action) -> Option<Event> {
        match action {
            Action::Drive(_, _) => Some(Event::Done),
            Action::Sleep(ms) => {
                self.slept_ms += ms;
                self.clock_ns += ms * 1_000_000 + self.overhead_ns;
                Some(Event::Done)
            }
            Action::ReadBusy => {
                let ready = self.busy.get(self.reads).copied().unwrap_or(self.ready_afterwards);
                self.reads += 1;
                Some(Event::Sensed(ready))
            }
            Action::ReadClock => Some(Event::Clock(self.clock_ns)),
            Action::Write(_) => {
                let failed = self.failing_write == Some(self.writes);
                self.writes += 1;
                Some(if failed { Event::WriteFailed } else { Event::Written })
            }
            Action::Complete | Action::Fail(_) => None,
        }
    }

    /// Performs actions until the driver has nothing more to ask for, and
    /// returns the action that ended the sequence.
    fn run(&mut self, driver: &mut Inky, first: Action) -> Action {
        let mut action = first;
        loop {
            let state = driver.state();
            if self.states.last() != Some(&state) {
                self.states.push(state);
            }
            match self.answer(&action) {
                Some(event) => {
                    self.log.push(action);
                    action = driver.step(event);
                }
                None => return action,
            }
        }
    }

    /// The commands that went over the bus: each opcode with the payload
    /// that followed it in data mode, if the select line ever went there.
    fn commands(&self) -> Vec<(u8, Option<Vec<u8>>)> {
        let mut commands: Vec<(u8, Option<Vec<u8>>)> = Vec::new();
        let mut data_mode = false;
        for action in &self.log {
            match action {
                Action::Drive(Line::DataCommand, Level::Low) => data_mode = false,
                Action::Drive(Line::DataCommand, Level::High) => {
                    data_mode = true;
                    commands.last_mut().unwrap().1 = Some(Vec::new());
                }
                Action::Write(bytes) if data_mode => {
                    commands.last_mut().unwrap().1.as_mut().unwrap().extend_from_slice(bytes);
                }
                Action::Write(bytes) => {
                    assert_eq!(bytes.len(), 1);
                    commands.push((bytes[0], None));
                }
                _ => {}
            }
        }
        commands
    }

    /// Every byte that went over the serial channel, in order.
    fn wire(&self) -> Vec<u8> {
        let mut wire = Vec::new();
        for action in &self.log {
            if let Action::Write(bytes) = action {
                wire.extend_from_slice(bytes);
            }
        }
        wire
    }

    fn written_chunks(&self) -> Vec<usize> {
        let mut sizes = Vec::new();
        for action in &self.log {
            if let Action::Write(bytes) = action {
                sizes.push(bytes.len());
            }
        }
        sizes
    }
}

fn init_table() -> Vec<(u8, Option<Vec<u8>>)> {
    vec![
        (0xAA, Some(vec![0x49, 0x55, 0x20, 0x08, 0x09, 0x18])),
        (0x01, Some(vec![0x3F])),
        (0x00, Some(vec![0x5F, 0x69])),
        (0x05, Some(vec![0x40, 0x1F, 0x1F, 0x2C])),
        (0x08, Some(vec![0x6F, 0x1F, 0x1F, 0x22])),
        (0x06, Some(vec![0x6F, 0x1F, 0x17, 0x17])),
        (0x03, Some(vec![0x00, 0x54, 0x00, 0x44])),
        (0x60, Some(vec![0x02, 0x00])),
        (0x30, Some(vec![0x08])),
        (0x50, Some(vec![0x3F])),
        (0x61, Some(vec![0x03, 0x20, 0x01, 0xE0])),
        (0xE3, Some(vec![0x2F])),
        (0x82, Some(vec![0x01])),
    ]
}

fn frame(opcode: u8, payload: Option<Vec<u8>>) -> Vec<Action> {
    let mut actions = vec![
        Action::Drive(Line::ChipSelect, Level::Low),
        Action::Drive(Line::DataCommand, Level::Low),
        Action::Sleep(300),
        Action::Write(vec![opcode]),
    ];
    if let Some(bytes) = payload {
        actions.push(Action::Drive(Line::DataCommand, Level::High));
        for chunk in bytes.chunks(4096) {
            actions.push(Action::Write(chunk.to_vec()));
        }
    }
    actions.push(Action::Drive(Line::ChipSelect, Level::High));
    actions.push(Action::Drive(Line::DataCommand, Level::Low));
    actions
}

fn reset_pulse() -> Vec<Action> {
    vec![
        Action::Drive(Line::Reset, Level::Low),
        Action::Sleep(30),
        Action::Drive(Line::Reset, Level::High),
        Action::Sleep(30),
    ]
}

const INIT_WIRE: [u8; 48] = [
    0xAA, 0x49, 0x55, 0x20, 0x08, 0x09, 0x18, 0x01, 0x3F, 0x00, 0x5F, 0x69, 0x05, 0x40, 0x1F, 0x1F,
    0x2C, 0x08, 0x6F, 0x1F, 0x1F, 0x22, 0x06, 0x6F, 0x1F, 0x17, 0x17, 0x03, 0x00, 0x54, 0x00, 0x44,
    0x60, 0x02, 0x00, 0x30, 0x08, 0x50, 0x3F, 0x61, 0x03, 0x20, 0x01, 0xE0, 0xE3, 0x2F, 0x82, 0x01,
];

#[test]
fn initialization_is_bit_exact_on_the_wire() {
    let mut driver = Inky::new();
    let mut bench = Bench::new();
    bench.busy = vec![false, false, true];
    let first = driver.setup();
    assert_eq!(bench.run(&mut driver, first), Action::Complete);
    assert_eq!(bench.wire(), INIT_WIRE.to_vec());
}

#[test]
fn refresh_is_bit_exact_on_the_wire() {
    let mut driver = Inky::new();
    for x in 0..800 {
        driver.set_pixel(x, 17, [0, 1, 2, 3, 5, 6][x % 6]).unwrap();
    }
    let mut bench = Bench::new();
    let first = driver.show();
    assert_eq!(bench.run(&mut driver, first), Action::Complete);
    let mut expected = INIT_WIRE.to_vec();
    expected.push(0x10);
    expected.extend(Inky::pack_nibbles(driver.buffer()));
    expected.extend([0x04, 0x06, 0x6F, 0x1F, 0x17, 0x49, 0x12, 0x00, 0x02, 0x00]);
    assert_eq!(bench.wire().len(), 48 + 1 + 192_000 + 10);
    assert!(bench.wire() == expected);
    assert_eq!(&bench.wire()[49 + 17 * 400..49 + 17 * 400 + 3], &[0x01, 0x23, 0x56]);
}

#[test]
fn failed_refresh_leaves_a_beginning_of_the_sequence_on_the_wire() {
    let mut driver = Inky::new();
    let mut bench = Bench::new();
    bench.failing_write = Some(30);
    let first = driver.show();
    assert_eq!(bench.run(&mut driver, first), Action::Fail(InkyError::TransportError));
    // The failed chunk counts as not written.
    let mut wire = Vec::new();
    let writes: Vec<&Action> =
        bench.log.iter().filter(|action| matches!(action, Action::Write(_))).collect();
    for action in &writes[..30] {
        if let Action::Write(bytes) = action {
            wire.extend_from_slice(bytes);
        }
    }
    assert_eq!(&wire[..48], &INIT_WIRE[..]);
    assert_eq!(wire[48], 0x10);
    assert_eq!(wire.len(), 48 + 1 + 3 * 4096);
    assert!(wire[49..].iter().all(|byte| *byte == 0));
}

#[test]
fn new_driver_is_uninitialized_and_asks_for_nothing() {
    let mut driver = Inky::new();
    assert_eq!(driver.state(), PanelState::Uninitialized);
    assert_eq!(driver.step(Event::Done), Action::Complete);
    assert_eq!(driver.state(), PanelState::Uninitialized);
}

#[test]
fn initialization_issues_thirteen_commands_in_order() {
    let mut driver = Inky::new();
    let mut bench = Bench::new();
    let first = driver.setup();
    assert_eq!(bench.run(&mut driver, first), Action::Complete);
    let commands = bench.commands();
    assert_eq!(commands.len(), 13);
    assert_eq!(commands, init_table());
    assert_eq!(driver.state(), PanelState::Initialized);
    assert_eq!(bench.states, vec![PanelState::Resetting, PanelState::Initialized]);
}

#[test]
fn setup_2_initializes_as_setup_does() {
    let mut driver = Inky::new();
    let mut bench = Bench::new();
    let first = driver.setup_2();
    assert_eq!(bench.run(&mut driver, first), Action::Complete);
    assert_eq!(bench.commands(), init_table());
    assert_eq!(driver.state(), PanelState::Initialized);
}

#[test]
fn initialization_begins_with_the_reset_pulse_and_a_wait() {
    let mut driver = Inky::new();
    let mut bench = Bench::new();
    bench.busy = vec![false, false, true];
    let first = driver.setup();
    assert_eq!(first, Action::Drive(Line::Reset, Level::Low));
    bench.run(&mut driver, first);
    let mut expected = reset_pulse();
    expected.extend([
        Action::ReadBusy,
        Action::ReadClock,
        Action::ReadBusy,
        Action::Sleep(100),
        Action::ReadClock,
        Action::ReadBusy,
    ]);
    expected.extend(frame(0xAA, Some(vec![0x49, 0x55, 0x20, 0x08, 0x09, 0x18])));
    assert_eq!(&bench.log[..expected.len()], &expected[..]);
}

#[test]
fn every_action_of_the_initialization() {
    let mut driver = Inky::new();
    let mut bench = Bench::new();
    let first = driver.setup();
    bench.run(&mut driver, first);
    let mut expected = reset_pulse();
    expected.extend([Action::ReadBusy, Action::Sleep(300)]);
    for (opcode, payload) in init_table() {
        expected.extend(frame(opcode, payload));
    }
    assert_eq!(bench.log, expected);
    // Four actions for the reset pulse, two for the wait, eight for each
    // command.
    assert_eq!(bench.log.len(), 4 + 2 + 13 * 8);
}

#[test]
fn refresh_issues_the_initialization_and_five_more_commands() {
    let mut driver = Inky::new();
    driver.set_pixel(0, 0, 1).unwrap();
    driver.set_pixel(1, 0, 2).unwrap();
    driver.set_pixel(799, 479, 6).unwrap();
    let mut bench = Bench::new();
    let first = driver.show();
    assert_eq!(bench.run(&mut driver, first), Action::Complete);

    let mut packed = vec![0u8; 192_000];
    packed[0] = 0x12;
    packed[191_999] = 0x06;
    let mut expected = init_table();
    expected.push((0x10, Some(packed)));
    expected.push((0x04, None));
    expected.push((0x06, Some(vec![0x6F, 0x1F, 0x17, 0x49])));
    expected.push((0x12, Some(vec![0x00])));
    expected.push((0x02, Some(vec![0x00])));
    let commands = bench.commands();
    assert_eq!(commands.len(), 18);
    assert_eq!(commands, expected);
    assert_eq!(driver.state(), PanelState::Idle);
}

#[test]
fn every_action_of_a_refresh() {
    let mut driver = Inky::new();
    driver.set_pixel(2, 0, 3).unwrap();
    let mut bench = Bench::new();
    let first = driver.update();
    bench.run(&mut driver, first);

    let mut packed = vec![0u8; 192_000];
    packed[1] = 0x30;
    let mut expected = reset_pulse();
    expected.extend([Action::ReadBusy, Action::Sleep(300)]);
    for (opcode, payload) in init_table() {
        expected.extend(frame(opcode, payload));
    }
    expected.extend(frame(0x10, Some(packed)));
    expected.extend(frame(0x04, None));
    expected.extend([Action::ReadBusy, Action::Sleep(300)]);
    expected.extend(frame(0x06, Some(vec![0x6F, 0x1F, 0x17, 0x49])));
    expected.extend(frame(0x12, Some(vec![0x00])));
    expected.extend([Action::ReadBusy, Action::Sleep(32_000)]);
    expected.extend(frame(0x02, Some(vec![0x00])));
    expected.extend([Action::ReadBusy, Action::Sleep(32_000)]);
    assert_eq!(bench.log.len(), expected.len());
    assert!(bench.log == expected);
    // The display data takes seven actions and 47 chunks, power on six.
    assert_eq!(bench.log.len(), 110 + (7 + 47) + 6 + 2 + 8 + 8 + 2 + 8 + 2);
}

#[test]
fn refresh_passes_through_the_states_in_order() {
    let mut driver = Inky::new();
    let mut bench = Bench::new();
    let first = driver.show();
    bench.run(&mut driver, first);
    assert_eq!(
        bench.states,
        vec![
            PanelState::Resetting,
            PanelState::Transferring,
            PanelState::Refreshing,
            PanelState::PoweringOff,
            PanelState::Idle,
        ]
    );
}

#[test]
fn refresh_always_runs_the_initialization_again() {
    let mut driver = Inky::new();
    let mut bench = Bench::new();
    let first = driver.setup();
    bench.run(&mut driver, first);
    assert_eq!(driver.state(), PanelState::Initialized);

    let mut second = Bench::new();
    let first = driver.show();
    assert_eq!(first, Action::Drive(Line::Reset, Level::Low));
    assert_eq!(driver.state(), PanelState::Resetting);
    second.run(&mut driver, first);
    assert_eq!(second.commands().len(), 18);
    assert_eq!(&second.commands()[..13], &init_table()[..]);

    let mut third = Bench::new();
    let first = driver.show();
    third.run(&mut driver, first);
    assert_eq!(third.commands().len(), 18);
    assert_eq!(third.log, second.log);
}

#[test]
fn display_data_goes_out_in_chunks_of_at_most_4096_bytes() {
    let mut driver = Inky::new();
    let mut bench = Bench::new();
    let first = driver.show();
    bench.run(&mut driver, first);
    let sizes = bench.written_chunks();
    let largest = sizes.iter().copied().max().unwrap();
    assert_eq!(largest, 4096);
    let display_data: Vec<usize> = sizes.iter().copied().filter(|size| *size > 6).collect();
    assert_eq!(display_data.len(), 47);
    assert!(display_data[..46].iter().all(|size| *size == 4096));
    assert_eq!(display_data[46], 192_000 - 46 * 4096);
}

#[test]
fn power_on_never_enters_data_mode() {
    let mut driver = Inky::new();
    let mut bench = Bench::new();
    let first = driver.show();
    bench.run(&mut driver, first);
    let at = bench.log.iter().position(|action| *action == Action::Write(vec![0x04])).unwrap();
    assert_eq!(bench.log[at + 1], Action::Drive(Line::ChipSelect, Level::High));
    assert_eq!(bench.log[at + 2], Action::Drive(Line::DataCommand, Level::Low));
    assert_eq!(bench.commands()[14], (0x04, None));
}

#[test]
fn wait_ready_sleeps_the_full_timeout_when_ready_at_entry() {
    let mut driver = Inky::new();
    let mut bench = Bench::new();
    bench.run_reset(&mut driver);
    assert_eq!(driver.step(Event::Done), Action::ReadBusy);
    let before = bench.slept_ms;
    let action = driver.step(Event::Sensed(true));
    assert_eq!(action, Action::Sleep(300));
    bench.answer(&action);
    assert_eq!(bench.slept_ms - before, 300);
    // The wait is over: the first command follows without another sample.
    assert_eq!(driver.step(Event::Done), Action::Drive(Line::ChipSelect, Level::Low));
}

#[test]
fn long_waits_sleep_their_full_timeout_when_ready_at_entry() {
    let mut driver = Inky::new();
    let mut bench = Bench::new();
    let first = driver.show();
    bench.run(&mut driver, first);
    let long_sleeps =
        bench.log.iter().filter(|action| **action == Action::Sleep(32_000)).count();
    assert_eq!(long_sleeps, 2);
    // Two reset holds, four waits and eighteen settle delays.
    assert_eq!(bench.slept_ms, 2 * 30 + 2 * 300 + 2 * 32_000 + 18 * 300);
}

#[test]
fn wait_ready_polls_every_100_ms_until_ready() {
    let mut driver = Inky::new();
    let mut bench = Bench::new();
    bench.busy = vec![false, false, false, true];
    bench.run_reset(&mut driver);
    let mut action = driver.step(Event::Done);
    let mut seen = Vec::new();
    while action != Action::Drive(Line::ChipSelect, Level::Low) {
        let event = bench.answer(&action).unwrap();
        seen.push(action);
        action = driver.step(event);
    }
    assert_eq!(
        seen,
        vec![
            Action::ReadBusy,
            Action::ReadClock,
            Action::ReadBusy,
            Action::Sleep(100),
            Action::ReadClock,
            Action::ReadBusy,
            Action::Sleep(100),
            Action::ReadClock,
            Action::ReadBusy,
        ]
    );
    assert_eq!(driver.state(), PanelState::Resetting);
}

#[test]
fn wait_ready_times_out_when_the_panel_stays_busy() {
    let mut driver = Inky::new();
    let mut bench = Bench::new();
    bench.ready_afterwards = false;
    bench.overhead_ns = 500;
    let first = driver.setup();
    let last = bench.run(&mut driver, first);
    assert_eq!(last, Action::Fail(InkyError::SynchronizationTimeout));
    assert_eq!(driver.state(), PanelState::Uninitialized);
    // Three naps of 100 ms and a little more exceed the 300 ms allowed.
    let naps = bench.log.iter().filter(|action| **action == Action::Sleep(100)).count();
    assert_eq!(naps, 3);
    assert!(bench.commands().is_empty());
    // The failure stays until a new sequence is begun.
    assert_eq!(driver.step(Event::Done), Action::Fail(InkyError::SynchronizationTimeout));
    assert_eq!(driver.step(Event::Sensed(true)), Action::Fail(InkyError::SynchronizationTimeout));
    let first = driver.setup();
    assert_eq!(first, Action::Drive(Line::Reset, Level::Low));
    assert_eq!(driver.state(), PanelState::Resetting);
}

#[test]
fn wait_ready_allows_exactly_the_timeout() {
    // With a clock that moves by the naps alone, 300 ms have gone by after
    // the third nap, which is not more than the timeout; the fourth decides.
    let mut driver = Inky::new();
    let mut bench = Bench::new();
    bench.ready_afterwards = false;
    let first = driver.setup();
    let last = bench.run(&mut driver, first);
    assert_eq!(last, Action::Fail(InkyError::SynchronizationTimeout));
    let naps = bench.log.iter().filter(|action| **action == Action::Sleep(100)).count();
    assert_eq!(naps, 4);
}

#[test]
fn failed_chunk_abandons_the_rest_of_the_payload() {
    let mut driver = Inky::new();
    let mut bench = Bench::new();
    // Writes 0 to 25 are the initialization; 26 is the opcode of the display
    // data and 27 its first chunk.
    bench.failing_write = Some(29);
    let first = driver.show();
    let last = bench.run(&mut driver, first);
    assert_eq!(last, Action::Fail(InkyError::TransportError));
    assert_eq!(bench.writes, 30);
    let tail = &bench.log[bench.log.len() - 3..];
    assert_eq!(tail[0], Action::Write(vec![0u8; 4096]));
    assert_eq!(tail[1], Action::Drive(Line::ChipSelect, Level::High));
    assert_eq!(tail[2], Action::Drive(Line::DataCommand, Level::Low));
    assert_eq!(bench.commands().len(), 14);
    assert_eq!(driver.state(), PanelState::Uninitialized);
    assert_eq!(driver.step(Event::Written), Action::Fail(InkyError::TransportError));
}

#[test]
fn failed_opcode_releases_the_bus_and_fails() {
    let mut driver = Inky::new();
    let mut bench = Bench::new();
    bench.failing_write = Some(0);
    let first = driver.setup();
    let last = bench.run(&mut driver, first);
    assert_eq!(last, Action::Fail(InkyError::TransportError));
    let mut expected = reset_pulse();
    expected.extend([Action::ReadBusy, Action::Sleep(300)]);
    expected.extend(frame(0xAA, None));
    assert_eq!(bench.log, expected);
    assert_eq!(driver.state(), PanelState::Uninitialized);
}

#[test]
fn stray_events_change_nothing() {
    let mut driver = Inky::new();
    let first = driver.setup();
    assert_eq!(first, Action::Drive(Line::Reset, Level::Low));
    assert_eq!(driver.step(Event::Written), Action::Drive(Line::Reset, Level::Low));
    assert_eq!(driver.step(Event::Sensed(true)), Action::Drive(Line::Reset, Level::Low));
    assert_eq!(driver.step(Event::Clock(7)), Action::Drive(Line::Reset, Level::Low));
    assert_eq!(driver.step(Event::Done), Action::Sleep(30));
    assert_eq!(driver.step(Event::WriteFailed), Action::Sleep(30));
    assert_eq!(driver.step(Event::Done), Action::Drive(Line::Reset, Level::High));
    assert_eq!(driver.step(Event::Done), Action::Sleep(30));
    assert_eq!(driver.step(Event::Done), Action::ReadBusy);
    assert_eq!(driver.step(Event::Done), Action::ReadBusy);
    assert_eq!(driver.step(Event::Clock(1)), Action::ReadBusy);
    assert_eq!(driver.step(Event::Sensed(false)), Action::ReadClock);
    assert_eq!(driver.step(Event::Sensed(true)), Action::ReadClock);
}

#[test]
fn pixels_set_during_the_initialization_reach_the_panel() {
    // The framebuffer is packed when the display data is about to be sent.
    let mut driver = Inky::new();
    let mut bench = Bench::new();
    let mut action = driver.show();
    for _ in 0..10 {
        let event = bench.answer(&action).unwrap();
        bench.log.push(action);
        action = driver.step(event);
    }
    driver.set_pixel(0, 0, 5).unwrap();
    bench.run(&mut driver, action);
    let commands = bench.commands();
    assert_eq!(commands[13].0, 0x10);
    assert_eq!(commands[13].1.as_ref().unwrap()[0], 0x50);
}

impl Bench {
    /// Begins an initialization and performs the reset pulse up to, and not
    /// including, the answer to its last sleep.
    fn run_reset(&mut self, driver: &mut Inky) {
        let mut action = driver.setup();
        for expected in reset_pulse() {
            assert_eq!(action, expected);
            if expected == Action::Sleep(30) && self.log.len() == 3 {
                self.answer(&action);
                self.log.push(action);
                return;
            }
            let event = self.answer(&action).unwrap();
            self.log.push(action);
            action = driver.step(event);
        }
    }
}
