//! Effects: what the engine asks the firmware shell to do, in order.
use vstd::prelude::*;

verus! {

/// One step for the firmware shell to carry out on the hardware.
#[derive(Clone, Copy, Debug, PartialEq, Eq, Structural)]
pub enum Effect {
    /// Send this byte to the host over the serial channel.
    Transmit(u8),
    /// Drive the pin of this port to logical low.
    AssertPort(u8),
    /// Drive the pin of this port to logical high.
    DeassertPort(u8),
    /// Block for this many milliseconds.
    Delay(u16),
}

/// The effects that send `bytes` to the host, one byte each.
pub open spec fn transmit(bytes: Seq<u8>) -> Seq<Effect> {
    Seq::new(bytes.len(), |i: int| Effect::Transmit(bytes[i]))
}

/// The bytes that `effects` send to the host, in order.
pub open spec fn transmitted(effects: Seq<Effect>) -> Seq<u8>
    decreases effects.len(),
{
    if effects.len() == 0 {
        Seq::empty()
    } else {
        match effects.last() {
            Effect::Transmit(b) => transmitted(effects.drop_last()).push(b),
            _ => transmitted(effects.drop_last()),
        }
    }
}

/// The time, in milliseconds, that carrying out `effects` spends blocked.
pub open spec fn total_delay(effects: Seq<Effect>) -> nat
    decreases effects.len(),
{
    if effects.len() == 0 {
        0
    } else {
        match effects.last() {
            Effect::Delay(ms) => total_delay(effects.drop_last()) + ms as nat,
            _ => total_delay(effects.drop_last()),
        }
    }
}

/// The time that one effect spends blocked.
pub open spec fn delay_of(effect: Effect) -> nat {
    match effect {
        Effect::Delay(ms) => ms as nat,
        _ => 0,
    }
}

/// No effects block for no time, and one more effect adds its own delay.
pub proof fn lemma_total_delay_push(effects: Seq<Effect>, effect: Effect)
    ensures
        total_delay(Seq::<Effect>::empty()) == 0,
        total_delay(effects.push(effect)) == total_delay(effects) + delay_of(effect),
{
    assert(effects.push(effect).drop_last() =~= effects);
}

/// Sending one more byte extends the effects by one transmission.
pub proof fn lemma_transmit_push(bytes: Seq<u8>, b: u8)
    ensures
        transmit(bytes.push(b)) == transmit(bytes).push(Effect::Transmit(b)),
{
    assert(transmit(bytes.push(b)) =~= transmit(bytes).push(Effect::Transmit(b)));
}

/// Sending a concatenation is sending its parts one after the other.
pub proof fn lemma_transmit_concat(a: Seq<u8>, b: Seq<u8>)
    ensures
        transmit(a + b) == transmit(a) + transmit(b),
{
    assert(transmit(a + b) =~= transmit(a) + transmit(b));
}

/// What a concatenation sends and how long it blocks is the sum of its parts.
pub proof fn lemma_effects_concat(a: Seq<Effect>, b: Seq<Effect>)
    ensures
        transmitted(a + b) == transmitted(a) + transmitted(b),
        total_delay(a + b) == total_delay(a) + total_delay(b),
    decreases b.len(),
{
    if b.len() == 0 {
        assert(a + b =~= a);
        assert(transmitted(a) + transmitted(b) =~= transmitted(a));
    } else {
        lemma_effects_concat(a, b.drop_last());
        assert((a + b).drop_last() =~= a + b.drop_last());
        assert((a + b).last() == b.last());
        match b.last() {
            Effect::Transmit(x) => {
                assert(transmitted(a + b) =~= transmitted(a) + transmitted(b));
            },
            _ => {},
        }
    }
}

/// Transmissions send exactly their bytes and never block.
pub proof fn lemma_transmit_roundtrip(bytes: Seq<u8>)
    ensures
        transmitted(transmit(bytes)) == bytes,
        total_delay(transmit(bytes)) == 0,
    decreases bytes.len(),
{
    if bytes.len() == 0 {
        assert(transmitted(transmit(bytes)) =~= bytes);
    } else {
        lemma_transmit_roundtrip(bytes.drop_last());
        assert(transmit(bytes).drop_last() =~= transmit(bytes.drop_last()));
        assert(transmit(bytes).last() == Effect::Transmit(bytes.last()));
        assert(bytes.drop_last().push(bytes.last()) =~= bytes);
    }
}

} // verus!
