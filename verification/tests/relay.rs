use gps_relay::model::PinState;
use gps_relay::model::TxeFlag;
use gps_relay::model::CMD_PIN_OFF;
use gps_relay::model::CMD_PIN_ON;
use gps_relay::relay::Relay;
use gps_relay::QUEUE_CAPACITY;

/// Drain the queue through the uplink handler's transmit-empty branch,
/// collecting the bytes in the order they are written out.
fn drain(relay: &mut Relay) -> Vec<u16> {
    let mut out: Vec<u16> = Vec::new();
    loop {
        let act = relay.on_uplink_interrupt(true, false, 0, false);
        match act.transmit {
            Some(byte) => out.push(byte),
            None => return out,
        }
    }
}

#[test]
fn starts_empty_disabled_off() {
    let relay = Relay::new();
    assert_eq!(relay.txe_flag(), TxeFlag::Disabled);
    assert_eq!(relay.pin_state(), PinState::Off);
    assert!(!relay.has_pending());
}

#[test]
fn fifo_order_preserved() {
    let mut relay = Relay::new();
    let input: Vec<u16> = vec![0x47, 0x50, 0x53, 0x2C, 0x31, 0x32, 0x33];
    for &b in &input {
        assert!(relay.ingest_byte(b));
    }
    assert_eq!(drain(&mut relay), input);
}

#[test]
fn single_byte_round_trip() {
    let mut relay = Relay::new();
    assert!(relay.ingest_byte(0x42));
    assert!(relay.has_pending());
    assert_eq!(relay.dispatch_transmit(), Some(0x42));
    assert!(!relay.has_pending());
    assert_eq!(relay.dispatch_transmit(), None);
}

#[test]
fn null_byte_never_enqueued() {
    let mut relay = Relay::new();
    assert!(!relay.ingest_byte(0));
    assert!(!relay.has_pending());
    assert_eq!(relay.txe_flag(), TxeFlag::Disabled);

    assert!(relay.ingest_byte(0x41));
    assert!(!relay.ingest_byte(0));
    assert_eq!(drain(&mut relay), vec![0x41]);
}

#[test]
fn saturation_drops_overflow_byte() {
    let mut relay = Relay::new();
    let mut accepted = 0usize;
    for i in 0..(QUEUE_CAPACITY + 1) {
        let byte = (i + 1) as u16;
        if relay.ingest_byte(byte) {
            accepted += 1;
        }
    }
    assert_eq!(accepted, QUEUE_CAPACITY);
    let expected: Vec<u16> = (1..=QUEUE_CAPACITY as u16).collect();
    assert_eq!(drain(&mut relay), expected);
}

#[test]
fn enable_flag_follows_queue() {
    let mut relay = Relay::new();

    // Any successful push enables the transmit interrupt.
    assert!(relay.ingest_byte(0x10));
    assert_eq!(relay.txe_flag(), TxeFlag::Enabled);
    assert!(relay.ingest_byte(0x11));
    assert_eq!(relay.txe_flag(), TxeFlag::Enabled);

    // A pop that leaves bytes pending leaves the flag alone.
    assert_eq!(relay.dispatch_transmit(), Some(0x10));
    assert_eq!(relay.txe_flag(), TxeFlag::Enabled);

    // A pop that empties the queue disables the flag.
    assert_eq!(relay.dispatch_transmit(), Some(0x11));
    assert_eq!(relay.txe_flag(), TxeFlag::Disabled);

    // A pop on an already empty queue disables a spuriously enabled flag.
    assert!(relay.ingest_byte(0x12));
    assert_eq!(relay.dispatch_transmit(), Some(0x12));
    assert_eq!(relay.dispatch_transmit(), None);
    assert_eq!(relay.txe_flag(), TxeFlag::Disabled);
}

#[test]
fn command_bytes_drive_pin() {
    let mut relay = Relay::new();
    assert_eq!(CMD_PIN_ON, u16::from(b'1'));
    assert_eq!(CMD_PIN_OFF, u16::from(b'0'));

    assert_eq!(relay.apply_command(CMD_PIN_ON), Some(PinState::On));
    assert_eq!(relay.pin_state(), PinState::On);
    assert_eq!(relay.apply_command(CMD_PIN_OFF), Some(PinState::Off));
    assert_eq!(relay.pin_state(), PinState::Off);
}

#[test]
fn command_idempotent_no_flicker() {
    let mut relay = Relay::new();

    assert_eq!(relay.apply_command(CMD_PIN_ON), Some(PinState::On));
    assert_eq!(relay.apply_command(CMD_PIN_ON), Some(PinState::On));
    assert_eq!(relay.pin_state(), PinState::On);

    assert_eq!(relay.apply_command(CMD_PIN_OFF), Some(PinState::Off));
    assert_eq!(relay.apply_command(CMD_PIN_OFF), Some(PinState::Off));
    assert_eq!(relay.pin_state(), PinState::Off);
}

#[test]
fn unrecognized_commands_are_ignored() {
    let mut relay = Relay::new();
    assert!(relay.ingest_byte(0x55));
    assert_eq!(relay.apply_command(u16::from(b'2')), None);
    assert_eq!(relay.apply_command(0xFF), None);
    assert_eq!(relay.apply_command(0x1FF), None);
    assert_eq!(relay.pin_state(), PinState::Off);

    relay.apply_command(CMD_PIN_ON);
    assert_eq!(relay.apply_command(u16::from(b'2')), None);
    assert_eq!(relay.pin_state(), PinState::On);

    // The queue was never touched by any command.
    assert_eq!(drain(&mut relay), vec![0x55]);
}

#[test]
fn overrun_is_cleared_and_harmless() {
    let mut relay = Relay::new();
    assert!(relay.ingest_byte(0x33));
    relay.apply_command(CMD_PIN_ON);

    // GPS-link handler invoked only for an overrun condition.
    let act = relay.on_gps_interrupt(false, 0, true);
    assert!(act.clear_overrun);
    assert!(!act.enable_txe);

    // Uplink handler invoked only for an overrun condition.
    let act = relay.on_uplink_interrupt(false, false, 0, true);
    assert!(act.clear_overrun);
    assert_eq!(act.transmit, None);
    assert_eq!(act.pin_write, None);

    // Neither invocation corrupted queue, flag or pin state.
    assert_eq!(relay.pin_state(), PinState::On);
    assert_eq!(relay.txe_flag(), TxeFlag::Enabled);
    assert_eq!(drain(&mut relay), vec![0x33]);
}

#[test]
fn handler_without_conditions_clears_nothing() {
    let mut relay = Relay::new();
    let act = relay.on_gps_interrupt(false, 0, false);
    assert!(!act.clear_overrun);
    let act = relay.on_uplink_interrupt(false, false, 0, false);
    assert!(!act.clear_overrun);
}

#[test]
fn gps_interrupt_enables_txe_on_enqueue() {
    let mut relay = Relay::new();

    let act = relay.on_gps_interrupt(true, 0x47, false);
    assert!(act.enable_txe);
    assert!(!act.clear_overrun);
    assert_eq!(relay.txe_flag(), TxeFlag::Enabled);

    // Null padding is filtered: no enqueue, no enable request.
    let act = relay.on_gps_interrupt(true, 0, false);
    assert!(!act.enable_txe);
}

#[test]
fn spurious_transmit_interrupt_disables_txe() {
    let mut relay = Relay::new();
    let act = relay.on_uplink_interrupt(true, false, 0, false);
    assert_eq!(act.transmit, None);
    assert!(act.disable_txe);
    assert_eq!(relay.txe_flag(), TxeFlag::Disabled);
}

#[test]
fn simultaneous_conditions_all_served() {
    let mut relay = Relay::new();
    assert!(relay.ingest_byte(0x5A));
    assert!(relay.ingest_byte(0x5B));

    // Transmit-empty, receive-ready and overrun all asserted at once.
    let act = relay.on_uplink_interrupt(true, true, CMD_PIN_ON, true);
    assert_eq!(act.transmit, Some(0x5A));
    assert_eq!(act.pin_write, Some(PinState::On));
    assert!(!act.disable_txe);
    assert!(act.clear_overrun);
    assert_eq!(relay.pin_state(), PinState::On);
    assert_eq!(relay.txe_flag(), TxeFlag::Enabled);
    assert_eq!(drain(&mut relay), vec![0x5B]);
}

#[test]
fn end_to_end_gps_stream_relayed() {
    let mut relay = Relay::new();
    assert_eq!(relay.txe_flag(), TxeFlag::Disabled);

    // Inject "G", "P", "S", 0x00, "!" on the GPS link.
    for &b in &[0x47u16, 0x50, 0x53, 0x00, 0x21] {
        let act = relay.on_gps_interrupt(true, b, false);
        assert_eq!(act.enable_txe, b != 0);
    }
    assert_eq!(relay.txe_flag(), TxeFlag::Enabled);

    // The uplink delivers "G", "P", "S", "!" byte for byte, null dropped,
    // and the enable flag returns to Disabled once drained.
    assert_eq!(drain(&mut relay), vec![0x47, 0x50, 0x53, 0x21]);
    assert_eq!(relay.txe_flag(), TxeFlag::Disabled);
    assert!(!relay.has_pending());
}
