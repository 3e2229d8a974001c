//! Mathematical model of the relay and the transition it makes on each
//! hardware event.
//!
//! The state the two interrupt handlers share or own — the pending bytes,
//! the transmit-interrupt enable flag, the output pin — is modelled as
//! [`Model`]; each branch of each handler is a spec function from model to
//! model.  The executable handlers in [`crate::relay`] promise to take
//! their state along exactly these transitions.

use vstd::prelude::*;
use crate::QUEUE_CAPACITY;

verus! {

/// Command byte that resets the output pin (ASCII `'0'`).
pub const CMD_PIN_OFF: u16 = 48;

/// Command byte that sets the output pin (ASCII `'1'`).
pub const CMD_PIN_ON: u16 = 49;

/// State of the uplink's transmit-ready interrupt enable bit, the sole
/// flow-control device between producer and consumer.
#[derive(Clone, Copy, PartialEq, Eq, Structural, Debug)]
pub enum TxeFlag {
    Disabled,
    Enabled,
}

/// Logical state of the digital output pin that powers the GPS module.
#[derive(Clone, Copy, PartialEq, Eq, Structural, Debug)]
pub enum PinState {
    Off,
    On,
}

/// The relay's abstract state: the pending bytes oldest first, the
/// transmit-interrupt enable flag, and the output pin.
pub ghost struct Model {
    pub pending: Seq<u16>,
    pub txe: TxeFlag,
    pub pin: PinState,
}

impl Model {
    /// The state at startup: empty queue, interrupt disabled, pin at its
    /// reset default (low, module off).
    pub open spec fn initial() -> Model {
        Model { pending: Seq::empty(), txe: TxeFlag::Disabled, pin: PinState::Off }
    }

    /// Invariant: the queue never exceeds its capacity, and the
    /// transmit-ready interrupt is never disabled while bytes are pending
    /// (which would stall delivery).
    pub open spec fn inv(self) -> bool {
        &&& self.pending.len() <= QUEUE_CAPACITY
        &&& self.pending.len() > 0 ==> self.txe == TxeFlag::Enabled
    }
}

/// Ingest of one byte received on the GPS link: null padding is discarded;
/// any other byte is appended to the queue if a slot is free, and a
/// successful append enables the transmit-ready interrupt; on a full queue
/// the byte is dropped and nothing changes.
pub open spec fn ingest_step(m: Model, byte: u16) -> Model {
    if byte == 0 {
        m
    } else if m.pending.len() < QUEUE_CAPACITY {
        Model { pending: m.pending.push(byte), txe: TxeFlag::Enabled, pin: m.pin }
    } else {
        m
    }
}

/// Whether an ingested byte is actually enqueued.
pub open spec fn ingest_accepts(m: Model, byte: u16) -> bool {
    byte != 0 && m.pending.len() < QUEUE_CAPACITY
}

/// The transmit-empty branch of the dispatch handler: the head byte leaves
/// the queue, and the transmit-ready interrupt is disabled when that empties
/// the queue or when the queue was already empty (a spuriously enabled
/// interrupt); with more bytes pending the flag is left alone.
pub open spec fn transmit_step(m: Model) -> Model {
    if m.pending.len() > 0 {
        Model {
            pending: m.pending.drop_first(),
            txe: if m.pending.len() == 1 { TxeFlag::Disabled } else { m.txe },
            pin: m.pin,
        }
    } else {
        Model { pending: m.pending, txe: TxeFlag::Disabled, pin: m.pin }
    }
}

/// The byte the transmit-empty branch writes to the transmit register, if
/// any: the head of the queue.
pub open spec fn transmit_output(m: Model) -> Option<u16> {
    if m.pending.len() > 0 {
        Some(m.pending[0])
    } else {
        None
    }
}

/// Interpretation of one command byte received on the uplink: ASCII `'0'`
/// drives the pin off, ASCII `'1'` drives it on, and every other byte is
/// ignored.  The queue and the enable flag are never touched.
pub open spec fn command_step(m: Model, byte: u16) -> Model {
    if byte == CMD_PIN_OFF {
        Model { pending: m.pending, txe: m.txe, pin: PinState::Off }
    } else if byte == CMD_PIN_ON {
        Model { pending: m.pending, txe: m.txe, pin: PinState::On }
    } else {
        m
    }
}

/// The pin write the command branch performs, if any: exactly one atomic
/// set or reset per recognized command, none otherwise.
pub open spec fn command_output(byte: u16) -> Option<PinState> {
    if byte == CMD_PIN_OFF {
        Some(PinState::Off)
    } else if byte == CMD_PIN_ON {
        Some(PinState::On)
    } else {
        None
    }
}

/// One invocation of the GPS-link interrupt handler: the receive-ready
/// branch runs when `rxne` is set; the overrun branch only clears a
/// hardware flag and leaves the model alone.
pub open spec fn gps_irq_step(m: Model, rxne: bool, byte: u16) -> Model {
    if rxne {
        ingest_step(m, byte)
    } else {
        m
    }
}

/// One invocation of the uplink interrupt handler: the transmit-empty
/// branch runs first when `txe` is set, then the receive-ready branch when
/// `rxne` is set; the overrun branch only clears a hardware flag.
pub open spec fn uplink_irq_step(m: Model, txe: bool, rxne: bool, byte: u16) -> Model {
    let after_tx = if txe { transmit_step(m) } else { m };
    if rxne {
        command_step(after_tx, byte)
    } else {
        after_tx
    }
}

} // verus!
