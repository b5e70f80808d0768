//! Short MIDI messages and timestamped events, and their packing into the
//! engine's 32-bit word.
//!
//! The word holds the status byte in bits 0 to 7, the first data byte in
//! bits 8 to 15, the second in bits 16 to 23, and nothing in bits 24 to 31.
//! The bytes are carried as they are: whether they form a legal MIDI
//! message is the engine's concern.

use vstd::prelude::*;
use crate::ffi::{CPmEvent, CPmMessage, CPmTimestamp};

verus! {

/// A short MIDI message: a status byte and two data bytes. Where a data
/// byte is not present, it is zero.
#[derive(Clone, Copy, Debug, PartialEq, Eq, Structural)]
pub struct PmMessage {
    pub status: u8,
    pub data1: u8,
    pub data2: u8,
}

impl PmMessage {
    /// The word that carries this message.
    pub open spec fn spec_unwrap(self) -> CPmMessage {
        (self.status + 0x100 * self.data1 + 0x1_0000 * self.data2) as u32
    }

    /// The message that a word carries. Bits 24 to 31 are not looked at.
    pub open spec fn spec_wrap(cmessage: CPmMessage) -> PmMessage {
        PmMessage {
            status: (cmessage % 0x100) as u8,
            data1: ((cmessage / 0x100) % 0x100) as u8,
            data2: ((cmessage / 0x1_0000) % 0x100) as u8,
        }
    }

    /// Unpacks a word of the engine.
    pub fn wrap(cmessage: CPmMessage) -> (m: PmMessage)
        ensures
            m == Self::spec_wrap(cmessage),
    {
        assert(cmessage & 0xFF == cmessage % 0x100) by (bit_vector);
        assert((cmessage >> 8) & 0xFF == (cmessage / 0x100) % 0x100) by (bit_vector);
        assert((cmessage >> 16) & 0xFF == (cmessage / 0x1_0000) % 0x100) by (bit_vector);
        PmMessage {
            status: (cmessage & 0xFF) as u8,
            data1: ((cmessage >> 8) & 0xFF) as u8,
            data2: ((cmessage >> 16) & 0xFF) as u8,
        }
    }

    /// Packs the message into a word of the engine.
    pub fn unwrap(&self) -> (w: CPmMessage)
        ensures
            w == self.spec_unwrap(),
            w <= 0x00FF_FFFF,
    {
        let status: u8 = self.status;
        let data1: u8 = self.data1;
        let data2: u8 = self.data2;
        assert((((data2 as u32) << 16) & 0xFF0000) | (((data1 as u32) << 8) & 0xFF00) | ((
        status as u32) & 0xFF) == status as u32 + 0x100 * (data1 as u32) + 0x1_0000 * (
        data2 as u32)) by (bit_vector);
        (((data2 as u32) << 16) & 0xFF0000) | (((data1 as u32) << 8) & 0xFF00) | ((status as u32)
            & 0xFF)
    }

    /// Unpacking the word of a message gives the message back, whatever its
    /// three bytes are.
    pub proof fn lemma_wrap_unwrap(m: PmMessage)
        ensures
            Self::spec_wrap(m.spec_unwrap()) == m,
    {
        let w = m.spec_unwrap();
        assert(w == m.status + 0x100 * m.data1 + 0x1_0000 * m.data2);
        assert(w % 0x100 == m.status);
        assert((w / 0x100) % 0x100 == m.data1);
        assert((w / 0x1_0000) % 0x100 == m.data2);
    }

    /// Packing what a word carries gives the word back without its bits 24
    /// to 31; so a word of which those bits are zero comes back unchanged.
    pub proof fn lemma_unwrap_wrap(cmessage: CPmMessage)
        ensures
            Self::spec_wrap(cmessage).spec_unwrap() == cmessage % 0x100_0000,
            cmessage <= 0x00FF_FFFF ==> Self::spec_wrap(cmessage).spec_unwrap() == cmessage,
    {
    }

    /// The layout of the word, bit by bit: each byte of the message sits in
    /// its own eight bits, and the top eight bits are zero.
    pub proof fn lemma_unwrap_layout(m: PmMessage)
        ensures
            m.spec_unwrap() & 0xFF == m.status,
            (m.spec_unwrap() >> 8) & 0xFF == m.data1,
            (m.spec_unwrap() >> 16) & 0xFF == m.data2,
            m.spec_unwrap() >> 24 == 0,
    {
        let w = m.spec_unwrap();
        Self::lemma_wrap_unwrap(m);
        assert(w <= 0x00FF_FFFF);
        assert(w & 0xFF == w % 0x100) by (bit_vector);
        assert((w >> 8) & 0xFF == (w / 0x100) % 0x100) by (bit_vector);
        assert((w >> 16) & 0xFF == (w / 0x1_0000) % 0x100) by (bit_vector);
        assert(w <= 0x00FF_FFFF ==> w >> 24 == 0) by (bit_vector);
    }
}

/// A MIDI message with the time, in ticks, at which it arrived or is to be
/// sent.
#[derive(Clone, Copy, Debug, PartialEq, Eq, Structural)]
pub struct PmEvent {
    pub message: PmMessage,
    pub timestamp: CPmTimestamp,
}

impl PmEvent {
    /// The engine's event that carries this one.
    pub open spec fn spec_unwrap(self) -> CPmEvent {
        CPmEvent { message: self.message.spec_unwrap(), timestamp: self.timestamp }
    }

    /// The event that an event of the engine carries.
    pub open spec fn spec_wrap(cevent: CPmEvent) -> PmEvent {
        PmEvent { message: PmMessage::spec_wrap(cevent.message), timestamp: cevent.timestamp }
    }

    /// Unpacks an event of the engine. The timestamp is kept as it is.
    pub fn wrap(cevent: CPmEvent) -> (e: PmEvent)
        ensures
            e == Self::spec_wrap(cevent),
    {
        PmEvent { message: PmMessage::wrap(cevent.message), timestamp: cevent.timestamp }
    }

    /// Packs the event for the engine. The timestamp is kept as it is.
    pub fn unwrap(&self) -> (c: CPmEvent)
        ensures
            c == self.spec_unwrap(),
    {
        CPmEvent { message: self.message.unwrap(), timestamp: self.timestamp }
    }

    /// Unpacking the packed form of an event gives the event back.
    pub proof fn lemma_wrap_unwrap(e: PmEvent)
        ensures
            Self::spec_wrap(e.spec_unwrap()) == e,
    {
        PmMessage::lemma_wrap_unwrap(e.message);
    }
}

} // verus!
