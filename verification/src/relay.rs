//! The executable relay state and the two interrupt handlers.
//!
//! [`Relay`] owns the bounded byte queue, the transmit-interrupt enable
//! flag and the logical output-pin state.  [`Relay::on_gps_interrupt`]
//! is the GPS-link handler (producer); [`Relay::on_uplink_interrupt`] is
//! the uplink handler (consumer and command interpreter).  Each handler
//! takes the hardware conditions it was triggered by as booleans, together
//! with the byte read from the receive register when one was ready, and
//! returns the writes the caller must perform on the hardware.  Every
//! handler's effect on the state is pinned to the spec transitions of
//! [`crate::model`].

use vstd::prelude::*;
use crate::model::{
    command_output, command_step, gps_irq_step, ingest_accepts, ingest_step, transmit_output,
    transmit_step, uplink_irq_step, Model, PinState, TxeFlag, CMD_PIN_OFF, CMD_PIN_ON,
};
use crate::queue::{queue_contents, queue_dequeue, queue_enqueue, queue_is_empty, queue_new};

verus! {

/// Hardware writes the GPS-link handler asks its caller to perform.
#[derive(Clone, Copy, PartialEq, Eq, Debug)]
pub struct GpsIrqActions {
    /// A byte was enqueued: the uplink's transmit-ready interrupt enable
    /// bit must be set (idempotent if already set).
    pub enable_txe: bool,
    /// The GPS link's overrun condition flag must be cleared.
    pub clear_overrun: bool,
}

/// Hardware writes the uplink handler asks its caller to perform.
#[derive(Clone, Copy, PartialEq, Eq, Debug)]
pub struct UplinkIrqActions {
    /// Byte to write to the uplink's transmit register, if one was dequeued.
    pub transmit: Option<u16>,
    /// Atomic set or reset to apply to the output pin, if a command byte
    /// asked for one.
    pub pin_write: Option<PinState>,
    /// Whether the uplink's transmit-ready interrupt enable bit must be
    /// cleared, because the queue is (or was found) empty.
    pub disable_txe: bool,
    /// The uplink's overrun condition flag must be cleared.
    pub clear_overrun: bool,
}

/// State shared by or owned by the two interrupt handlers: the bounded
/// byte queue, the transmit-interrupt enable flag, and the output pin.
pub struct Relay {
    buffer: heapless::spsc::Queue<u16, 64>,
    txe: TxeFlag,
    pin: PinState,
}

impl Relay {
    /// The abstract state this relay is in.  The definition is hidden;
    /// every function's contract says how it moves this state.
    pub closed spec fn model(&self) -> Model {
        Model { pending: queue_contents(self.buffer), txe: self.txe, pin: self.pin }
    }

    /// Well-formedness: the abstract invariant holds of the state.
    pub open spec fn wf(&self) -> bool {
        self.model().inv()
    }

    /// A relay in its startup state: empty queue, transmit interrupt
    /// disabled, pin at its reset default.
    pub fn new() -> (r: Relay)
        ensures
            r.wf(),
            r.model() == Model::initial(),
    {
        Relay { buffer: queue_new(), txe: TxeFlag::Disabled, pin: PinState::Off }
    }

    /// Ingest one byte read from the GPS link's receive register: drop
    /// null padding, otherwise enqueue it if a slot is free and enable the
    /// transmit-ready interrupt on success; on a full queue the byte is
    /// dropped silently.
    pub fn ingest_byte(&mut self, byte: u16) -> (enqueued: bool)
        requires
            old(self).wf(),
        ensures
            final(self).wf(),
            final(self).model() == ingest_step(old(self).model(), byte),
            enqueued == ingest_accepts(old(self).model(), byte),
            enqueued ==> final(self).model().txe == TxeFlag::Enabled,
            byte == 0 ==> final(self).model() == old(self).model(),
    {
        if byte == 0 {
            return false;
        }
        let accepted = queue_enqueue(&mut self.buffer, byte);
        if accepted {
            self.txe = TxeFlag::Enabled;
        }
        accepted
    }

    /// The transmit-empty branch of the uplink handler: dequeue the head
    /// byte to hand to the transmit register; disable the transmit-ready
    /// interrupt when the queue is empty afterwards, or when it was already
    /// empty and the interrupt fired spuriously.
    pub fn dispatch_transmit(&mut self) -> (out: Option<u16>)
        requires
            old(self).wf(),
        ensures
            final(self).wf(),
            final(self).model() == transmit_step(old(self).model()),
            out == transmit_output(old(self).model()),
            out is None ==> final(self).model().txe == TxeFlag::Disabled,
            final(self).model().pending.len() == 0 ==> final(self).model().txe
                == TxeFlag::Disabled,
    {
        match queue_dequeue(&mut self.buffer) {
            Some(byte) => {
                if queue_is_empty(&self.buffer) {
                    self.txe = TxeFlag::Disabled;
                }
                Some(byte)
            },
            None => {
                self.txe = TxeFlag::Disabled;
                None
            },
        }
    }

    /// Interpret one command byte read from the uplink's receive register:
    /// ASCII `'0'` resets the pin, ASCII `'1'` sets it, anything else is
    /// ignored.  The returned write is a single atomic set or reset, never
    /// a read-modify-write of the port.
    pub fn apply_command(&mut self, byte: u16) -> (pin_write: Option<PinState>)
        requires
            old(self).wf(),
        ensures
            final(self).wf(),
            final(self).model() == command_step(old(self).model(), byte),
            pin_write == command_output(byte),
    {
        if byte == CMD_PIN_OFF {
            self.pin = PinState::Off;
            Some(PinState::Off)
        } else if byte == CMD_PIN_ON {
            self.pin = PinState::On;
            Some(PinState::On)
        } else {
            None
        }
    }

    /// GPS-link interrupt handler.  `rxne` says the receive register held
    /// a byte (`byte` is that byte, already read, which cleared the
    /// hardware flag); `ore` says the link reported a receive overrun,
    /// which the caller must clear lest it re-assert forever.
    pub fn on_gps_interrupt(&mut self, rxne: bool, byte: u16, ore: bool) -> (act: GpsIrqActions)
        requires
            old(self).wf(),
        ensures
            final(self).wf(),
            final(self).model() == gps_irq_step(old(self).model(), rxne, byte),
            act.enable_txe == (rxne && ingest_accepts(old(self).model(), byte)),
            act.clear_overrun == ore,
            !rxne ==> final(self).model() == old(self).model(),
    {
        let enqueued = if rxne {
            self.ingest_byte(byte)
        } else {
            false
        };
        GpsIrqActions { enable_txe: enqueued, clear_overrun: ore }
    }

    /// Uplink interrupt handler.  All three conditions are checked
    /// independently, since the hardware can assert several at once: the
    /// transmit-empty branch drains one byte from the queue, the
    /// receive-ready branch interprets `byte` as a command, and the
    /// overrun branch asks the caller to clear the condition flag.
    pub fn on_uplink_interrupt(&mut self, txe: bool, rxne: bool, byte: u16, ore: bool) -> (act:
        UplinkIrqActions)
        requires
            old(self).wf(),
        ensures
            final(self).wf(),
            final(self).model() == uplink_irq_step(old(self).model(), txe, rxne, byte),
            act.transmit == (if txe {
                transmit_output(old(self).model())
            } else {
                None::<u16>
            }),
            act.pin_write == (if rxne {
                command_output(byte)
            } else {
                None::<PinState>
            }),
            act.disable_txe == (txe && final(self).model().txe == TxeFlag::Disabled),
            act.clear_overrun == ore,
    {
        let mut disable_txe = false;
        let transmit = if txe {
            let out = self.dispatch_transmit();
            disable_txe = match self.txe_flag() {
                TxeFlag::Disabled => true,
                TxeFlag::Enabled => false,
            };
            out
        } else {
            None
        };
        let pin_write = if rxne {
            self.apply_command(byte)
        } else {
            None
        };
        UplinkIrqActions { transmit, pin_write, disable_txe, clear_overrun: ore }
    }

    /// Current state of the transmit-ready interrupt enable flag.
    pub fn txe_flag(&self) -> (r: TxeFlag)
        ensures
            r == self.model().txe,
    {
        self.txe
    }

    /// Current logical state of the output pin.
    pub fn pin_state(&self) -> (r: PinState)
        ensures
            r == self.model().pin,
    {
        self.pin
    }

    /// Whether any bytes are pending in the queue.
    pub fn has_pending(&self) -> (r: bool)
        ensures
            r == (self.model().pending.len() > 0),
    {
        !queue_is_empty(&self.buffer)
    }
}

} // verus!
