use jd79661::busy_wait_step;
use jd79661::command_list;
use jd79661::transaction_ops;
use jd79661::Action;
use jd79661::BusOp;
use jd79661::Command;
use jd79661::JD79661;
use jd79661::JD79661Display;
use jd79661::PowerState;

#[test]
fn new_driver_is_unpowered() {
    let driver = JD79661::new();
    assert_eq!(driver.power_state(), PowerState::Unpowered);
}

#[test]
fn hardware_reset_is_the_three_level_pulse() {
    let mut driver = JD79661::new();
    let actions = driver.hardware_reset();
    let expected = vec![
        Action::SetReset(true),
        Action::DelayMs(20),
        Action::SetReset(false),
        Action::DelayMs(40),
        Action::SetReset(true),
        Action::DelayMs(50),
    ];
    assert_eq!(actions, expected);
    assert_eq!(driver.power_state(), PowerState::Unpowered);
}

#[test]
fn power_up_runs_reset_polls_and_the_init_burst() {
    let mut driver = JD79661::new();
    let actions = driver.power_up();
    assert_eq!(driver.power_state(), PowerState::Ready);
    assert_eq!(actions.len(), 24);
    assert_eq!(actions[0], Action::SetReset(true));
    assert_eq!(actions[1], Action::DelayMs(20));
    assert_eq!(actions[2], Action::SetReset(false));
    assert_eq!(actions[3], Action::DelayMs(40));
    assert_eq!(actions[4], Action::SetReset(true));
    assert_eq!(actions[5], Action::DelayMs(50));
    assert_eq!(actions[6], Action::BusyPoll);
    assert_eq!(actions[7], Action::DelayMs(10));
    let expected_burst = vec![
        Action::Transaction(0x4D, vec![0x78]),
        Action::Transaction(0x00, vec![0x8F, 0x29]),
        Action::Transaction(0x01, vec![0x07, 0x00, 0x00, 0x00, 0x00, 0x00]),
        Action::Transaction(0x03, vec![0x10, 0x54, 0x44]),
        Action::Transaction(0x06, vec![0x05, 0x00, 0x3F, 0x0A, 0x25, 0x12, 0x1A]),
        Action::Transaction(0x50, vec![0x37]),
        Action::Transaction(0x60, vec![0x02, 0x02]),
        Action::Transaction(0x61, vec![0x00, 0x80, 0x00, 0xFA]),
        Action::Transaction(0xE7, vec![0x1C]),
        Action::Transaction(0xE3, vec![0x22]),
        Action::Transaction(0xB4, vec![0xD0]),
        Action::Transaction(0xB5, vec![0x03]),
        Action::Transaction(0xE9, vec![0x01]),
        Action::Transaction(0x30, vec![0x08]),
        Action::Transaction(0x04, vec![]),
    ];
    assert_eq!(&actions[8..23], expected_burst.as_slice());
    assert_eq!(actions[23], Action::BusyPoll);
}

#[test]
fn power_down_is_exactly_four_actions() {
    let mut driver = JD79661::new();
    driver.power_up();
    let actions = driver.power_down();
    let expected = vec![
        Action::Transaction(0x02, vec![0x00]),
        Action::BusyPoll,
        Action::Transaction(0x07, vec![0xA5]),
        Action::DelayMs(100),
    ];
    assert_eq!(actions, expected);
    assert_eq!(driver.power_state(), PowerState::DeepSleep);
}

#[test]
fn update_sends_data_refresh_then_polls() {
    let mut driver = JD79661::new();
    driver.power_up();
    let actions = driver.update();
    let expected = vec![Action::Transaction(0x12, vec![0x00]), Action::BusyPoll];
    assert_eq!(actions, expected);
    assert_eq!(driver.power_state(), PowerState::Ready);
}

#[test]
fn update_sleep_uses_the_low_power_auto_sequence() {
    let mut driver = JD79661::new();
    driver.power_up();
    let actions = driver.update_sleep();
    let expected = vec![Action::Transaction(0x17, vec![0xA5]), Action::BusyPoll];
    assert_eq!(actions, expected);
    assert_eq!(driver.power_state(), PowerState::LowPower);
}

#[test]
fn update_deepsleep_uses_the_deep_sleep_auto_sequence() {
    let mut driver = JD79661::new();
    driver.power_up();
    let actions = driver.update_deepsleep();
    let expected = vec![Action::Transaction(0x17, vec![0xA7]), Action::BusyPoll];
    assert_eq!(actions, expected);
    assert_eq!(driver.power_state(), PowerState::DeepSleep);
}

#[test]
fn write_buffer_sends_the_frame_then_latches() {
    let mut driver = JD79661::new();
    driver.power_up();
    let display = JD79661Display::default();
    let actions = driver.write_buffer(display.buffer());
    assert_eq!(actions.len(), 2);
    match &actions[0] {
        Action::Transaction(opcode, payload) => {
            assert_eq!(*opcode, 0x10);
            assert_eq!(payload.len(), 8000);
            assert_eq!(payload, display.buffer());
        }
        other => panic!("expected a transaction, got {:?}", other),
    }
    assert_eq!(actions[1], Action::Transaction(0x11, vec![]));
    assert_eq!(driver.power_state(), PowerState::Ready);
}

#[test]
fn busy_wait_polls_every_ten_milliseconds_while_busy() {
    assert_eq!(busy_wait_step(true), Some(10));
    assert_eq!(busy_wait_step(false), None);
}

#[test]
fn transaction_ops_select_mode_around_each_write() {
    let ops = transaction_ops(0x12, &vec![0x00]);
    let expected = vec![
        BusOp::SetDataMode(false),
        BusOp::Write(vec![0x12]),
        BusOp::SetDataMode(true),
        BusOp::Write(vec![0x00]),
    ];
    assert_eq!(ops, expected);
}

#[test]
fn empty_payload_still_selects_data_mode() {
    let ops = transaction_ops(0x11, &vec![]);
    let expected = vec![
        BusOp::SetDataMode(false),
        BusOp::Write(vec![0x11]),
        BusOp::SetDataMode(true),
        BusOp::Write(vec![]),
    ];
    assert_eq!(ops, expected);
}

#[test]
fn command_list_keeps_strict_order() {
    let commands = vec![Command::POF, Command::DSLP];
    let ops = command_list(&commands);
    let expected = vec![
        BusOp::SetDataMode(false),
        BusOp::Write(vec![0x02]),
        BusOp::SetDataMode(true),
        BusOp::Write(vec![0x00]),
        BusOp::SetDataMode(false),
        BusOp::Write(vec![0x07]),
        BusOp::SetDataMode(true),
        BusOp::Write(vec![0xA5]),
    ];
    assert_eq!(ops, expected);
}
