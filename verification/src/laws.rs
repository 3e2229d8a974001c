//! Laws of the relay, proved over the spec transitions of
//! [`crate::model`]: FIFO delivery, saturation behaviour, enable-flag
//! coherence, command idempotence and isolation, and the harmlessness of
//! overrun-only handler invocations.

use vstd::prelude::*;
use crate::model::{
    command_step, gps_irq_step, ingest_accepts, ingest_step, transmit_step, uplink_irq_step,
    Model, PinState, TxeFlag, CMD_PIN_OFF, CMD_PIN_ON,
};
use crate::QUEUE_CAPACITY;

verus! {

/// The model after ingesting each byte of `bytes` in turn on the GPS side,
/// with no intervening pops.
pub open spec fn ingest_all(m: Model, bytes: Seq<u16>) -> Model
    decreases bytes.len(),
{
    if bytes.len() == 0 {
        m
    } else {
        ingest_all(ingest_step(m, bytes[0]), bytes.drop_first())
    }
}

/// The bytes the dispatch handler writes out when its transmit-empty
/// branch runs repeatedly until the queue is drained.
pub open spec fn drain_all(m: Model) -> Seq<u16>
    decreases m.pending.len(),
{
    if m.pending.len() == 0 {
        Seq::empty()
    } else {
        seq![m.pending[0]] + drain_all(transmit_step(m))
    }
}

/// Ingesting a sequence of non-null bytes that fits in the free space
/// appends exactly those bytes, in order; the pin is untouched, and any
/// non-empty ingest leaves the transmit interrupt enabled.
pub proof fn lemma_fifo_push(m: Model, bytes: Seq<u16>)
    requires
        forall|i: int| 0 <= i < bytes.len() ==> bytes[i] != 0,
        m.pending.len() + bytes.len() <= QUEUE_CAPACITY,
    ensures
        ingest_all(m, bytes).pending == m.pending + bytes,
        ingest_all(m, bytes).pin == m.pin,
        bytes.len() > 0 ==> ingest_all(m, bytes).txe == TxeFlag::Enabled,
        bytes.len() == 0 ==> ingest_all(m, bytes) == m,
    decreases bytes.len(),
{
    if bytes.len() == 0 {
        assert(ingest_all(m, bytes).pending =~= m.pending + bytes);
    } else {
        let m1 = ingest_step(m, bytes[0]);
        lemma_fifo_push(m1, bytes.drop_first());
        assert(ingest_all(m, bytes).pending =~= m.pending + bytes);
    }
}

/// Draining hands back exactly the pending bytes, oldest first.
pub proof fn lemma_drain_in_order(m: Model)
    ensures
        drain_all(m) == m.pending,
    decreases m.pending.len(),
{
    if m.pending.len() == 0 {
        assert(drain_all(m) =~= m.pending);
    } else {
        lemma_drain_in_order(transmit_step(m));
        assert(drain_all(m) =~= m.pending);
    }
}

/// FIFO order: starting from an empty queue, any sequence of non-null
/// bytes ingested without saturation is delivered in exactly the order it
/// arrived.
pub proof fn lemma_fifo_order(m: Model, bytes: Seq<u16>)
    requires
        m.pending.len() == 0,
        forall|i: int| 0 <= i < bytes.len() ==> bytes[i] != 0,
        bytes.len() <= QUEUE_CAPACITY,
    ensures
        drain_all(ingest_all(m, bytes)) == bytes,
{
    lemma_fifo_push(m, bytes);
    lemma_drain_in_order(ingest_all(m, bytes));
    assert(m.pending + bytes =~= bytes);
}

/// Ingesting a concatenation is ingesting the parts one after the other.
pub proof fn lemma_ingest_all_append(m: Model, a: Seq<u16>, b: Seq<u16>)
    ensures
        ingest_all(m, a + b) == ingest_all(ingest_all(m, a), b),
    decreases a.len(),
{
    if a.len() == 0 {
        assert(a + b =~= b);
    } else {
        assert((a + b)[0] == a[0]);
        assert((a + b).drop_first() =~= a.drop_first() + b);
        lemma_ingest_all_append(ingest_step(m, a[0]), a.drop_first(), b);
    }
}

/// Saturation drop: starting from an empty queue, ingesting one non-null
/// byte more than the capacity enqueues exactly the first
/// `QUEUE_CAPACITY` bytes, in order; the overflow byte is discarded and
/// the enqueued bytes are undisturbed.
pub proof fn lemma_saturation_drop(m: Model, bytes: Seq<u16>)
    requires
        m.pending.len() == 0,
        forall|i: int| 0 <= i < bytes.len() ==> bytes[i] != 0,
        bytes.len() == QUEUE_CAPACITY + 1,
    ensures
        ingest_all(m, bytes).pending == bytes.take(QUEUE_CAPACITY as int),
{
    let front = bytes.take(QUEUE_CAPACITY as int);
    let rest = bytes.skip(QUEUE_CAPACITY as int);
    assert(front + rest =~= bytes);
    lemma_ingest_all_append(m, front, rest);
    assert(forall|i: int| 0 <= i < front.len() ==> front[i] != 0);
    lemma_fifo_push(m, front);
    let full = ingest_all(m, front);
    assert(full.pending =~= front);
    assert(rest.len() == 1);
    assert(rest[0] != 0);
    let stepped = ingest_step(full, rest[0]);
    assert(stepped == full);
    assert(rest.drop_first().len() == 0);
    assert(ingest_all(stepped, rest.drop_first()) == stepped);
    assert(ingest_all(full, rest) == ingest_all(stepped, rest.drop_first()));
}

/// Enable-flag coherence: a successful push always leaves the flag
/// enabled; a pop that empties the queue, or finds it already empty,
/// always leaves the flag disabled.
pub proof fn lemma_enable_flag_coherence(m: Model, byte: u16)
    ensures
        ingest_accepts(m, byte) ==> ingest_step(m, byte).txe == TxeFlag::Enabled,
        m.pending.len() <= 1 ==> transmit_step(m).txe == TxeFlag::Disabled,
{
}

/// The relay invariant — queue within capacity, transmit interrupt never
/// disabled while bytes are pending — is preserved by every invocation of
/// either handler.
pub proof fn lemma_inv_preserved(
    m: Model,
    gps_rxne: bool,
    gps_byte: u16,
    txe: bool,
    rxne: bool,
    byte: u16,
)
    requires
        m.inv(),
    ensures
        gps_irq_step(m, gps_rxne, gps_byte).inv(),
        uplink_irq_step(m, txe, rxne, byte).inv(),
{
}

/// Command idempotence: a command that asks for the state the pin is
/// already in leaves the whole model as it was — no flicker.
pub proof fn lemma_command_idempotent(m: Model)
    ensures
        m.pin == PinState::On ==> command_step(m, CMD_PIN_ON) == m,
        m.pin == PinState::Off ==> command_step(m, CMD_PIN_OFF) == m,
{
}

/// Command isolation: a byte that is neither `'0'` nor `'1'` changes
/// nothing — not the pin, not the queue, not the flag.
pub proof fn lemma_command_isolation(m: Model, byte: u16)
    requires
        byte != CMD_PIN_OFF,
        byte != CMD_PIN_ON,
    ensures
        command_step(m, byte) == m,
{
}

/// Overrun clearing is harmless: a handler invocation triggered only by
/// an overrun condition (no receive-ready, no transmit-empty) leaves
/// queue, flag and pin untouched; the handlers' `clear_overrun` results
/// say the condition itself is always cleared.
pub proof fn lemma_overrun_only_is_harmless(m: Model, byte: u16)
    ensures
        gps_irq_step(m, false, byte) == m,
        uplink_irq_step(m, false, false, byte) == m,
{
}

} // verus!
