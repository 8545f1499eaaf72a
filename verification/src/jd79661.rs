//! The panel command protocol: logical commands and their wire encoding, the
//! fixed power-up initialization burst, and the driver state machine that
//! sequences reset, initialization, buffer transfer, refresh and sleep as an
//! exact list of bus actions for an unverified runner to perform.

use vstd::prelude::*;

use crate::BUFFER_LENGTH;

verus! {

/// One logical panel command: one controller register write. Every variant
/// maps to exactly one (opcode, payload) wire pair; the payload length is
/// fixed per opcode except for the raw passthrough (`Misc`) and the pixel
/// data transfer (`DTM`), which carry caller-supplied bytes.
#[derive(Debug, PartialEq)]
pub enum Command {
    /// Raw passthrough to an unrestricted opcode: vendor-specific register
    /// writes used only during the fixed initialization burst.
    Misc(u8, Vec<u8>),
    /// Panel settings.
    PSR([u8; 2]),
    /// Power settings.
    PWR([u8; 6]),
    /// Power off.
    POF,
    /// Power on.
    PON,
    /// Booster soft start.
    BTST([u8; 7]),
    /// Deep sleep; woken only by a hardware reset.
    DSLP,
    /// Pixel data transfer: the full packed framebuffer.
    DTM(Vec<u8>),
    /// Display refresh: latches transferred data into controller RAM.
    DSP,
    /// Data refresh: triggers an optical refresh of the latched data.
    DRF([u8; 1]),
    /// Controller-managed auto sequence (power on, refresh, power off).
    AUTO([u8; 1]),
    /// PLL control.
    PLL([u8; 1]),
    /// VCOM and data interval.
    CDI([u8; 1]),
    /// Resolution setting.
    TRES([u8; 4]),
}

/// The opcode byte a command is sent under.
pub open spec fn opcode_of(c: Command) -> u8 {
    match c {
        Command::Misc(op, _) => op,
        Command::PSR(_) => 0x00,
        Command::PWR(_) => 0x01,
        Command::POF => 0x02,
        Command::PON => 0x04,
        Command::BTST(_) => 0x06,
        Command::DSLP => 0x07,
        Command::DTM(_) => 0x10,
        Command::DSP => 0x11,
        Command::DRF(_) => 0x12,
        Command::AUTO(_) => 0x17,
        Command::PLL(_) => 0x30,
        Command::CDI(_) => 0x50,
        Command::TRES(_) => 0x61,
    }
}

/// The payload bytes a command is sent with, in order.
pub open spec fn payload_of(c: Command) -> Seq<u8> {
    match c {
        Command::Misc(_, d) => d@,
        Command::PSR(d) => d@,
        Command::PWR(d) => d@,
        Command::POF => seq![0x00u8],
        Command::PON => Seq::<u8>::empty(),
        Command::BTST(d) => d@,
        Command::DSLP => seq![0xA5u8],
        Command::DTM(d) => d@,
        Command::DSP => Seq::<u8>::empty(),
        Command::DRF(d) => d@,
        Command::AUTO(d) => d@,
        Command::PLL(d) => d@,
        Command::CDI(d) => d@,
        Command::TRES(d) => d@,
    }
}

/// The full wire form of a command.
pub open spec fn wire_pair(c: Command) -> (u8, Seq<u8>) {
    (opcode_of(c), payload_of(c))
}

/// Copies a byte vector.
fn copy_bytes(src: &Vec<u8>) -> (r: Vec<u8>)
    ensures
        r@ == src@,
{
    let mut r: Vec<u8> = Vec::new();
    let mut i: usize = 0;
    while i < src.len()
        invariant
            i <= src@.len(),
            r@ == src@.take(i as int),
        decreases src@.len() - i,
    {
        r.push(src[i]);
        proof {
            assert(src@.take(i as int + 1) =~= src@.take(i as int).push(src@[i as int]));
        }
        i += 1;
    }
    proof {
        assert(src@.take(src@.len() as int) =~= src@);
    }
    r
}

/// Copies a fixed-size byte array into a vector.
fn bytes_of<const N: usize>(src: &[u8; N]) -> (r: Vec<u8>)
    ensures
        r@ == src@,
{
    let mut r: Vec<u8> = Vec::new();
    let mut i: usize = 0;
    while i < N
        invariant
            i <= N,
            r@ == src@.take(i as int),
        decreases N - i,
    {
        r.push(src[i]);
        proof {
            assert(src@.take(i as int + 1) =~= src@.take(i as int).push(src@[i as int]));
        }
        i += 1;
    }
    proof {
        assert(src@.take(N as int) =~= src@);
    }
    r
}

/// A vector holding one byte.
fn one_byte(b: u8) -> (r: Vec<u8>)
    ensures
        r@ == seq![b],
{
    let mut r: Vec<u8> = Vec::new();
    r.push(b);
    r
}

/// Encodes a logical command into its (opcode, payload) wire pair. Total:
/// every variant has exactly one encoding and encoding never fails.
pub fn encode(command: &Command) -> (r: (u8, Vec<u8>))
    ensures
        r.0 == opcode_of(*command),
        r.1@ == payload_of(*command),
{
    match command {
        Command::Misc(op, d) => (*op, copy_bytes(d)),
        Command::PSR(d) => (0x00, bytes_of(d)),
        Command::PWR(d) => (0x01, bytes_of(d)),
        Command::POF => (0x02, one_byte(0x00)),
        Command::PON => (0x04, Vec::new()),
        Command::BTST(d) => (0x06, bytes_of(d)),
        Command::DSLP => (0x07, one_byte(0xA5)),
        Command::DTM(d) => (0x10, copy_bytes(d)),
        Command::DSP => (0x11, Vec::new()),
        Command::DRF(d) => (0x12, bytes_of(d)),
        Command::AUTO(d) => (0x17, bytes_of(d)),
        Command::PLL(d) => (0x30, bytes_of(d)),
        Command::CDI(d) => (0x50, bytes_of(d)),
        Command::TRES(d) => (0x61, bytes_of(d)),
    }
}

/// The wire form of the fixed 15-step power-up initialization burst, in the
/// exact order it is sent. The values are wire-exact for this panel family
/// and are not inferable from general display-controller documentation.
pub open spec fn init_wire_pairs() -> Seq<(u8, Seq<u8>)> {
    seq![
        (0x4Du8, seq![0x78u8]),
        (0x00u8, seq![0x8Fu8, 0x29u8]),
        (0x01u8, seq![0x07u8, 0x00u8, 0x00u8, 0x00u8, 0x00u8, 0x00u8]),
        (0x03u8, seq![0x10u8, 0x54u8, 0x44u8]),
        (0x06u8, seq![0x05u8, 0x00u8, 0x3Fu8, 0x0Au8, 0x25u8, 0x12u8, 0x1Au8]),
        (0x50u8, seq![0x37u8]),
        (0x60u8, seq![0x02u8, 0x02u8]),
        (0x61u8, seq![0x00u8, 0x80u8, 0x00u8, 0xFAu8]),
        (0xE7u8, seq![0x1Cu8]),
        (0xE3u8, seq![0x22u8]),
        (0xB4u8, seq![0xD0u8]),
        (0xB5u8, seq![0x03u8]),
        (0xE9u8, seq![0x01u8]),
        (0x30u8, seq![0x08u8]),
        (0x04u8, Seq::<u8>::empty()),
    ]
}

/// Builds the initialization Command Sequence: panel settings, power
/// settings, power-off-sequence setting, booster soft start, VCOM and data
/// interval, gate and source timing, resolution 128 by 250, the vendor tuning
/// writes, PLL, and finally power-on. Encoded, it produces exactly the 15
/// wire pairs of [`init_wire_pairs`], in that order.
pub fn init_sequence() -> (r: Vec<Command>)
    ensures
        r@.len() == init_wire_pairs().len(),
        forall|i: int| 0 <= i < r@.len() ==> wire_pair(#[trigger] r@[i]) == init_wire_pairs()[i],
{
    let mut commands: Vec<Command> = Vec::new();
    commands.push(Command::Misc(0x4D, one_byte(0x78)));
    commands.push(Command::PSR([0x8F, 0x29]));
    commands.push(Command::PWR([0x07, 0x00, 0x00, 0x00, 0x00, 0x00]));
    commands.push(Command::Misc(0x03, bytes_of(&[0x10, 0x54, 0x44])));
    commands.push(Command::BTST([0x05, 0x00, 0x3F, 0x0A, 0x25, 0x12, 0x1A]));
    commands.push(Command::CDI([0x37]));
    commands.push(Command::Misc(0x60, bytes_of(&[0x02, 0x02])));
    commands.push(Command::TRES([0x00, 0x80, 0x00, 0xFA]));
    commands.push(Command::Misc(0xE7, one_byte(0x1C)));
    commands.push(Command::Misc(0xE3, one_byte(0x22)));
    commands.push(Command::Misc(0xB4, one_byte(0xD0)));
    commands.push(Command::Misc(0xB5, one_byte(0x03)));
    commands.push(Command::Misc(0xE9, one_byte(0x01)));
    commands.push(Command::PLL([0x08]));
    commands.push(Command::PON);
    proof {
        assert forall|i: int| 0 <= i < commands@.len() implies wire_pair(#[trigger] commands@[i])
            == init_wire_pairs()[i] by {
            assert(wire_pair(commands@[0]) == init_wire_pairs()[0] && wire_pair(commands@[1])
                == init_wire_pairs()[1] && wire_pair(commands@[2]) == init_wire_pairs()[2]
                && wire_pair(commands@[3]) == init_wire_pairs()[3] && wire_pair(commands@[4])
                == init_wire_pairs()[4] && wire_pair(commands@[5]) == init_wire_pairs()[5]
                && wire_pair(commands@[6]) == init_wire_pairs()[6] && wire_pair(commands@[7])
                == init_wire_pairs()[7] && wire_pair(commands@[8]) == init_wire_pairs()[8]
                && wire_pair(commands@[9]) == init_wire_pairs()[9] && wire_pair(commands@[10])
                == init_wire_pairs()[10] && wire_pair(commands@[11]) == init_wire_pairs()[11]
                && wire_pair(commands@[12]) == init_wire_pairs()[12] && wire_pair(commands@[13])
                == init_wire_pairs()[13] && wire_pair(commands@[14]) == init_wire_pairs()[14]);
        }
    }
    commands
}

/// Decodes a wire pair back into a logical command, for checking transcripts:
/// an opcode with the fixed payload its dedicated variant carries yields that
/// variant, any other pair the raw passthrough. Decoding always preserves the
/// opcode and the payload bytes exactly.
pub fn decode(opcode: u8, payload: &Vec<u8>) -> (r: Command)
    ensures
        opcode_of(r) == opcode,
        payload_of(r) == payload@,
{
    if opcode == 0x00 && payload.len() == 2 {
        let r = Command::PSR([payload[0], payload[1]]);
        proof {
            assert(payload_of(r) =~= payload@);
        }
        r
    } else if opcode == 0x01 && payload.len() == 6 {
        let r = Command::PWR(
            [payload[0], payload[1], payload[2], payload[3], payload[4], payload[5]],
        );
        proof {
            assert(payload_of(r) =~= payload@);
        }
        r
    } else if opcode == 0x02 && payload.len() == 1 && payload[0] == 0x00 {
        let r = Command::POF;
        proof {
            assert(payload_of(r) =~= payload@);
        }
        r
    } else if opcode == 0x04 && payload.len() == 0 {
        let r = Command::PON;
        proof {
            assert(payload_of(r) =~= payload@);
        }
        r
    } else if opcode == 0x06 && payload.len() == 7 {
        let r = Command::BTST(
            [
                payload[0],
                payload[1],
                payload[2],
                payload[3],
                payload[4],
                payload[5],
                payload[6],
            ],
        );
        proof {
            assert(payload_of(r) =~= payload@);
        }
        r
    } else if opcode == 0x07 && payload.len() == 1 && payload[0] == 0xA5 {
        let r = Command::DSLP;
        proof {
            assert(payload_of(r) =~= payload@);
        }
        r
    } else if opcode == 0x10 {
        Command::DTM(copy_bytes(payload))
    } else if opcode == 0x11 && payload.len() == 0 {
        let r = Command::DSP;
        proof {
            assert(payload_of(r) =~= payload@);
        }
        r
    } else if opcode == 0x12 && payload.len() == 1 {
        let r = Command::DRF([payload[0]]);
        proof {
            assert(payload_of(r) =~= payload@);
        }
        r
    } else if opcode == 0x17 && payload.len() == 1 {
        let r = Command::AUTO([payload[0]]);
        proof {
            assert(payload_of(r) =~= payload@);
        }
        r
    } else if opcode == 0x30 && payload.len() == 1 {
        let r = Command::PLL([payload[0]]);
        proof {
            assert(payload_of(r) =~= payload@);
        }
        r
    } else if opcode == 0x50 && payload.len() == 1 {
        let r = Command::CDI([payload[0]]);
        proof {
            assert(payload_of(r) =~= payload@);
        }
        r
    } else if opcode == 0x61 && payload.len() == 4 {
        let r = Command::TRES([payload[0], payload[1], payload[2], payload[3]]);
        proof {
            assert(payload_of(r) =~= payload@);
        }
        r
    } else {
        Command::Misc(opcode, copy_bytes(payload))
    }
}

/// One bus action a driver operation asks the runner to perform, in order.
/// A transaction is one atomic opcode-then-payload exchange; a busy poll
/// blocks until the panel's busy line reports ready (see [`busy_wait_step`]);
/// a delay is an unconditional settle wait; a reset action drives the
/// hardware-reset line to a level.
#[derive(Debug, PartialEq)]
pub enum Action {
    /// Send one command: the opcode byte, then the payload bytes.
    Transaction(u8, Vec<u8>),
    /// Poll the busy line until the panel reports ready.
    BusyPoll,
    /// Wait unconditionally for the given number of milliseconds.
    DelayMs(u32),
    /// Drive the hardware-reset line high (`true`) or low (`false`).
    SetReset(bool),
}

/// The mathematical form of an [`Action`], with the payload as a sequence.
#[verifier::ext_equal]
pub enum ActionView {
    Transaction(u8, Seq<u8>),
    BusyPoll,
    DelayMs(u32),
    SetReset(bool),
}

impl View for Action {
    type V = ActionView;

    open spec fn view(&self) -> ActionView {
        match self {
            Action::Transaction(op, d) => ActionView::Transaction(*op, d@),
            Action::BusyPoll => ActionView::BusyPoll,
            Action::DelayMs(ms) => ActionView::DelayMs(*ms),
            Action::SetReset(level) => ActionView::SetReset(*level),
        }
    }
}

/// The views of a whole action list.
pub open spec fn actions_view(s: Seq<Action>) -> Seq<ActionView> {
    s.map_values(|a: Action| a@)
}

/// The unconditional physical reset pulse: reset line high, hold 20 ms, low,
/// hold 40 ms, high, hold 50 ms. No status is read back.
pub open spec fn reset_pulse_views() -> Seq<ActionView> {
    seq![
        ActionView::SetReset(true),
        ActionView::DelayMs(20),
        ActionView::SetReset(false),
        ActionView::DelayMs(40),
        ActionView::SetReset(true),
        ActionView::DelayMs(50),
    ]
}

/// The initialization burst as transactions, one per wire pair of
/// [`init_wire_pairs`], in order.
pub open spec fn init_transaction_views() -> Seq<ActionView> {
    Seq::new(
        init_wire_pairs().len(),
        |i: int| ActionView::Transaction(init_wire_pairs()[i].0, init_wire_pairs()[i].1),
    )
}

/// Everything `power_up` performs: the reset pulse, a busy poll, a 10 ms
/// settle delay, the 15 initialization transactions, and a final busy poll.
pub open spec fn power_up_views() -> Seq<ActionView> {
    reset_pulse_views() + seq![ActionView::BusyPoll, ActionView::DelayMs(10)]
        + init_transaction_views() + seq![ActionView::BusyPoll]
}

/// Everything `power_down` performs: power-off, a busy poll, deep sleep with
/// its fixed 0xA5 payload, and a 100 ms settle delay. Nothing else.
pub open spec fn power_down_views() -> Seq<ActionView> {
    seq![
        ActionView::Transaction(0x02, seq![0x00u8]),
        ActionView::BusyPoll,
        ActionView::Transaction(0x07, seq![0xA5u8]),
        ActionView::DelayMs(100),
    ]
}

/// The power state the panel is left in after the driver's operations.
#[derive(Clone, Copy, PartialEq, Eq, Structural, Debug)]
pub enum PowerState {
    /// Constructed but never powered up, or freshly hardware-reset.
    Unpowered,
    /// Initialized and accepting buffer transfers and refreshes.
    Ready,
    /// Left idle at low current by the controller's auto sequence.
    LowPower,
    /// In deep sleep; only a hardware reset wakes the controller.
    DeepSleep,
}

/// One decision of the busy wait: while the panel reports busy, sleep 10 ms
/// and poll again; once it reports ready, stop polling. The returned value
/// is the sleep in milliseconds before the next poll, or nothing when the
/// wait is over. There is no timeout: an unresponsive panel keeps the runner
/// polling indefinitely.
pub fn busy_wait_step(busy: bool) -> (r: Option<u32>)
    ensures
        busy ==> r == Some(10u32),
        !busy ==> r is None,
{
    if busy {
        Some(10)
    } else {
        None
    }
}

/// The driver state machine. It owns no hardware: each operation returns the
/// exact ordered bus actions to perform and tracks the power state the panel
/// reaches once a runner has performed them all. A hardware-line failure
/// while running the actions aborts the operation; the caller must then
/// retry from `power_up`.
pub struct JD79661 {
    state: PowerState,
}

impl JD79661 {
    /// The power state the panel is in once all actions handed out so far
    /// have been performed.
    pub closed spec fn state(self) -> PowerState {
        self.state
    }

    /// A driver for an unpowered panel. Construction performs no bus action:
    /// there is no implicit power-up.
    pub fn new() -> (r: Self)
        ensures
            r.state() == PowerState::Unpowered,
    {
        JD79661 { state: PowerState::Unpowered }
    }

    /// Reads the tracked power state.
    pub fn power_state(&self) -> (r: PowerState)
        ensures
            r == self.state(),
    {
        self.state
    }

    /// The unconditional physical reset pulse. After it the chip must be
    /// reinitialized before use.
    pub fn hardware_reset(&mut self) -> (r: Vec<Action>)
        ensures
            final(self).state() == PowerState::Unpowered,
            actions_view(r@) == reset_pulse_views(),
    {
        let mut actions: Vec<Action> = Vec::new();
        actions.push(Action::SetReset(true));
        actions.push(Action::DelayMs(20));
        actions.push(Action::SetReset(false));
        actions.push(Action::DelayMs(40));
        actions.push(Action::SetReset(true));
        actions.push(Action::DelayMs(50));
        self.state = PowerState::Unpowered;
        proof {
            assert(actions_view(actions@) =~~= reset_pulse_views());
        }
        actions
    }

    /// Brings the panel from any state to `Ready`: the reset pulse, a busy
    /// wait, a 10 ms settle delay, the fixed 15-step initialization burst,
    /// and a final busy wait.
    pub fn power_up(&mut self) -> (r: Vec<Action>)
        ensures
            final(self).state() == PowerState::Ready,
            actions_view(r@) == power_up_views(),
    {
        let mut actions = self.hardware_reset();
        actions.push(Action::BusyPoll);
        actions.push(Action::DelayMs(10));
        proof {
            assert(actions_view(actions@) =~~= reset_pulse_views() + seq![
                ActionView::BusyPoll,
                ActionView::DelayMs(10),
            ] + init_transaction_views().take(0));
        }
        let commands = init_sequence();
        let mut i: usize = 0;
        while i < commands.len()
            invariant
                i <= commands@.len(),
                commands@.len() == init_wire_pairs().len(),
                forall|j: int|
                    0 <= j < commands@.len() ==> wire_pair(#[trigger] commands@[j])
                        == init_wire_pairs()[j],
                actions_view(actions@) == reset_pulse_views() + seq![
                    ActionView::BusyPoll,
                    ActionView::DelayMs(10),
                ] + init_transaction_views().take(i as int),
            decreases commands@.len() - i,
        {
            // Pin the lengths the elementwise proof below leans on.
            proof {
                assert(reset_pulse_views().len() == 6);
                assert(init_transaction_views().take(i as int).len() == i);
                assert(actions_view(actions@).len() == actions@.len());
                assert(actions@.len() == 8 + i);
            }
            let ghost prev = actions@;
            let (opcode, payload) = encode(&commands[i]);
            actions.push(Action::Transaction(opcode, payload));
            proof {
                assert(wire_pair(commands@[i as int]) == init_wire_pairs()[i as int]);
                assert(actions@.last()@ == init_transaction_views()[i as int]);
                let lhs = actions_view(actions@);
                let rhs = reset_pulse_views() + seq![
                    ActionView::BusyPoll,
                    ActionView::DelayMs(10),
                ] + init_transaction_views().take(i as int + 1);
                assert(lhs.len() == rhs.len());
                assert forall|j: int| 0 <= j < lhs.len() implies lhs[j] == rhs[j] by {
                    assert(lhs[j] == actions@[j]@);
                    if j < 8 + i {
                        assert(actions@[j] == prev[j]);
                        assert(prev[j]@ == actions_view(prev)[j]);
                        assert(rhs[j] == (reset_pulse_views() + seq![
                            ActionView::BusyPoll,
                            ActionView::DelayMs(10),
                        ] + init_transaction_views().take(i as int))[j]);
                    } else {
                        assert(actions@[j] == actions@.last());
                        assert(rhs[j] == init_transaction_views()[i as int]);
                    }
                }
                assert(lhs =~= rhs);
            }
            i += 1;
        }
        actions.push(Action::BusyPoll);
        self.state = PowerState::Ready;
        proof {
            assert(init_transaction_views().take(init_wire_pairs().len() as int)
                =~~= init_transaction_views());
            assert(actions_view(actions@) =~~= power_up_views());
        }
        actions
    }

    /// Takes the panel down: power-off, a busy wait, deep sleep with payload
    /// 0xA5, then a fixed 100 ms settle delay, and nothing else. The panel
    /// reaches `DeepSleep`; any further operation requires `power_up`.
    pub fn power_down(&mut self) -> (r: Vec<Action>)
        ensures
            final(self).state() == PowerState::DeepSleep,
            actions_view(r@) == power_down_views(),
    {
        let mut actions: Vec<Action> = Vec::new();
        let (opcode, payload) = encode(&Command::POF);
        actions.push(Action::Transaction(opcode, payload));
        actions.push(Action::BusyPoll);
        let (opcode, payload) = encode(&Command::DSLP);
        actions.push(Action::Transaction(opcode, payload));
        actions.push(Action::DelayMs(100));
        self.state = PowerState::DeepSleep;
        proof {
            assert(actions_view(actions@) =~~= power_down_views());
        }
        actions
    }

    /// Triggers an immediate optical refresh of whatever is latched in the
    /// controller's RAM: data refresh with payload 0x00, then a busy wait.
    pub fn update(&mut self) -> (r: Vec<Action>)
        ensures
            final(self).state() == old(self).state(),
            actions_view(r@) == seq![
                ActionView::Transaction(0x12, seq![0x00u8]),
                ActionView::BusyPoll,
            ],
    {
        let mut actions: Vec<Action> = Vec::new();
        let (opcode, payload) = encode(&Command::DRF([0x00]));
        actions.push(Action::Transaction(opcode, payload));
        actions.push(Action::BusyPoll);
        proof {
            assert(actions_view(actions@) =~~= seq![
                ActionView::Transaction(0x12, seq![0x00u8]),
                ActionView::BusyPoll,
            ]);
        }
        actions
    }

    /// Requests the controller's compound auto sequence (power on, refresh,
    /// power off) with payload 0xA5, then a busy wait. Leaves the controller
    /// idle at low current without a full deep-sleep teardown.
    pub fn update_sleep(&mut self) -> (r: Vec<Action>)
        ensures
            final(self).state() == PowerState::LowPower,
            actions_view(r@) == seq![
                ActionView::Transaction(0x17, seq![0xA5u8]),
                ActionView::BusyPoll,
            ],
    {
        let mut actions: Vec<Action> = Vec::new();
        let (opcode, payload) = encode(&Command::AUTO([0xA5]));
        actions.push(Action::Transaction(opcode, payload));
        actions.push(Action::BusyPoll);
        self.state = PowerState::LowPower;
        proof {
            assert(actions_view(actions@) =~~= seq![
                ActionView::Transaction(0x17, seq![0xA5u8]),
                ActionView::BusyPoll,
            ]);
        }
        actions
    }

    /// Like `update_sleep`, but with payload 0xA7: the auto sequence ends in
    /// deep sleep, and a later hardware reset is required to wake the chip.
    pub fn update_deepsleep(&mut self) -> (r: Vec<Action>)
        ensures
            final(self).state() == PowerState::DeepSleep,
            actions_view(r@) == seq![
                ActionView::Transaction(0x17, seq![0xA7u8]),
                ActionView::BusyPoll,
            ],
    {
        let mut actions: Vec<Action> = Vec::new();
        let (opcode, payload) = encode(&Command::AUTO([0xA7]));
        actions.push(Action::Transaction(opcode, payload));
        actions.push(Action::BusyPoll);
        self.state = PowerState::DeepSleep;
        proof {
            assert(actions_view(actions@) =~~= seq![
                ActionView::Transaction(0x17, seq![0xA7u8]),
                ActionView::BusyPoll,
            ]);
        }
        actions
    }

    /// Sends the full packed framebuffer (data transfer start, opcode 0x10)
    /// immediately followed by the display refresh (opcode 0x11, empty
    /// payload) that latches it into controller RAM: two transactions, no
    /// interleaving. Does not itself trigger an optical refresh.
    pub fn write_buffer(&mut self, buffer: &Vec<u8>) -> (r: Vec<Action>)
        requires
            buffer@.len() == BUFFER_LENGTH,
        ensures
            final(self).state() == old(self).state(),
            actions_view(r@) == seq![
                ActionView::Transaction(0x10, buffer@),
                ActionView::Transaction(0x11, Seq::<u8>::empty()),
            ],
    {
        let mut actions: Vec<Action> = Vec::new();
        let (opcode, payload) = encode(&Command::DTM(copy_bytes(buffer)));
        actions.push(Action::Transaction(opcode, payload));
        let (opcode, payload) = encode(&Command::DSP);
        actions.push(Action::Transaction(opcode, payload));
        proof {
            assert(actions_view(actions@) =~~= seq![
                ActionView::Transaction(0x10, buffer@),
                ActionView::Transaction(0x11, Seq::<u8>::empty()),
            ]);
        }
        actions
    }
}

/// One primitive operation on the bus lines. Selecting data mode drives the
/// mode-select line high; selecting command mode drives it low. Each write
/// is one bus write of the given bytes.
#[derive(Debug, PartialEq)]
pub enum BusOp {
    /// Drive the mode-select line: `true` for payload bytes, `false` for an
    /// opcode byte.
    SetDataMode(bool),
    /// Write the given bytes over the bus.
    Write(Vec<u8>),
}

/// The mathematical form of a [`BusOp`].
#[verifier::ext_equal]
pub enum BusOpView {
    SetDataMode(bool),
    Write(Seq<u8>),
}

impl View for BusOp {
    type V = BusOpView;

    open spec fn view(&self) -> BusOpView {
        match self {
            BusOp::SetDataMode(data) => BusOpView::SetDataMode(*data),
            BusOp::Write(bytes) => BusOpView::Write(bytes@),
        }
    }
}

/// The views of a whole bus-operation list.
pub open spec fn bus_ops_view(s: Seq<BusOp>) -> Seq<BusOpView> {
    s.map_values(|op: BusOp| op@)
}

/// The exact four bus operations that send one command: select command mode,
/// write the opcode byte, select data mode, write the payload bytes. The
/// last pair happens even when the payload is empty.
pub open spec fn transaction_op_views(opcode: u8, payload: Seq<u8>) -> Seq<BusOpView> {
    seq![
        BusOpView::SetDataMode(false),
        BusOpView::Write(seq![opcode]),
        BusOpView::SetDataMode(true),
        BusOpView::Write(payload),
    ]
}

/// The bus operations that send a list of commands strictly in order.
pub open spec fn command_list_views(cmds: Seq<Command>) -> Seq<BusOpView>
    decreases cmds.len(),
{
    if cmds.len() == 0 {
        Seq::empty()
    } else {
        command_list_views(cmds.drop_last()) + transaction_op_views(
            opcode_of(cmds.last()),
            payload_of(cmds.last()),
        )
    }
}

/// Expands one (opcode, payload) transaction into the four bus operations
/// that perform it, in order.
pub fn transaction_ops(opcode: u8, payload: &Vec<u8>) -> (r: Vec<BusOp>)
    ensures
        bus_ops_view(r@) == transaction_op_views(opcode, payload@),
{
    let mut ops: Vec<BusOp> = Vec::new();
    ops.push(BusOp::SetDataMode(false));
    ops.push(BusOp::Write(one_byte(opcode)));
    ops.push(BusOp::SetDataMode(true));
    ops.push(BusOp::Write(copy_bytes(payload)));
    proof {
        assert(bus_ops_view(ops@) =~~= transaction_op_views(opcode, payload@));
    }
    ops
}

/// Expands a list of logical commands into the exact ordered bus operations
/// that send them, one four-step group per command, no step skipped and no
/// reordering.
pub fn command_list(commands: &Vec<Command>) -> (r: Vec<BusOp>)
    ensures
        bus_ops_view(r@) == command_list_views(commands@),
{
    let mut ops: Vec<BusOp> = Vec::new();
    let mut i: usize = 0;
    while i < commands.len()
        invariant
            i <= commands@.len(),
            bus_ops_view(ops@) == command_list_views(commands@.take(i as int)),
        decreases commands@.len() - i,
    {
        let (opcode, payload) = encode(&commands[i]);
        let mut group = transaction_ops(opcode, &payload);
        let ghost prev = ops@;
        let ghost group_snapshot = group@;
        ops.append(&mut group);
        proof {
            assert(commands@.take(i as int + 1).drop_last() =~= commands@.take(i as int));
            assert(commands@.take(i as int + 1).last() == commands@[i as int]);
            assert(bus_ops_view(prev + group_snapshot) =~~= bus_ops_view(prev) + bus_ops_view(
                group_snapshot,
            ));
            assert(bus_ops_view(ops@) =~~= command_list_views(commands@.take(i as int + 1)));
        }
        i += 1;
    }
    proof {
        assert(commands@.take(commands@.len() as int) =~= commands@);
    }
    ops
}

/// Round-trip law: encoding a command, decoding the wire pair, and encoding
/// the decoded command again yields the same opcode and payload bytes
/// with no mutation.
pub fn encode_decode_roundtrip(command: &Command) -> (r: (u8, Vec<u8>))
    ensures
        r.0 == opcode_of(*command),
        r.1@ == payload_of(*command),
{
    let (opcode, payload) = encode(command);
    let decoded = decode(opcode, &payload);
    encode(&decoded)
}

} // verus!
