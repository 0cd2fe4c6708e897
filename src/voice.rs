//! Voices used by generators to track events like their instantiation, release, freeing and
//! processing some events.
use vstd::prelude::*;

use crate::FlMessage;

verus! {

/// An identifier the host uses to identify a voice.
#[derive(Clone, Copy, Debug, PartialEq, Eq, Hash, Structural)]
pub struct Tag(pub isize);

/// You should implement this trait to your voice type.
pub trait Voice {
    /// Get ID of the voice.
    fn tag(&self) -> Tag;
}

/// Voice events.
#[derive(Clone, Copy, Debug, PartialEq, Eq, Structural)]
pub enum Event {
    /// Monophonic mode can retrigger releasing voices.
    Retrigger,
    /// Retrieve the note length in ticks. The result is not reliable.
    ///
    /// Function result holds the length of the note, or -1 if it's not defined.
    GetLength,
    /// Retrieve the color for a note. A note can currently have up to 16 colors in the pianoroll.
    /// This can be mapped to a MIDI channel.
    ///
    /// Functions result holds the note color (0..15).
    GetColor,
    /// (FL 7.0) Retrieve note on velocity. This is computed from the initial volume of the
    /// voice. This should be called from `trigger` method.
    ///
    /// Function result holds the `f32` velocity (0.0..1.0).
    GetVelocity,
    /// (FL 7.0) Retrieve release velocity (0.0..1.0) in result. Use this if some release velocity
    /// mapping is involved. This should be called from `release` method.
    ///
    /// Function result holds the `f32` velocity (0.0..1.0) (to be called from `release` method).
    GetRelVelocity,
    /// (FL 7.0) Retrieve release time multiplicator. Use this for direct release multiplicator.
    /// This should be called from `release` method.
    ///
    /// Function result holds the `f32` value (0.0..2.0).
    GetRelTime,
    /// (FL 7.0) Call this to set if velocity is linked to volume or not. The default is on.
    SetLinkVelocity(bool),
    /// Unknown event.
    Unknown,
}

impl Event {
    /// The event that a raw message stands for: its `id` names the event, and for
    /// `SetLinkVelocity` a non-zero `index` means on.
    pub open spec fn decode(message: FlMessage) -> Event {
        match message.id {
            0 => Event::Retrigger,
            1 => Event::GetLength,
            2 => Event::GetColor,
            3 => Event::GetVelocity,
            4 => Event::GetRelVelocity,
            5 => Event::GetRelTime,
            6 => Event::SetLinkVelocity(message.index != 0),
            _ => Event::Unknown,
        }
    }

    /// The raw message that stands for an event; `Unknown` has none.
    pub open spec fn encode(self) -> Option<FlMessage> {
        match self {
            Event::Retrigger => Some(FlMessage { id: 0, index: 0, value: 0 }),
            Event::GetLength => Some(FlMessage { id: 1, index: 0, value: 0 }),
            Event::GetColor => Some(FlMessage { id: 2, index: 0, value: 0 }),
            Event::GetVelocity => Some(FlMessage { id: 3, index: 0, value: 0 }),
            Event::GetRelVelocity => Some(FlMessage { id: 4, index: 0, value: 0 }),
            Event::GetRelTime => Some(FlMessage { id: 5, index: 0, value: 0 }),
            Event::SetLinkVelocity(on) => Some(
                FlMessage { id: 6, index: if on { 1 } else { 0 }, value: 0 },
            ),
            Event::Unknown => None,
        }
    }
}

impl From<FlMessage> for Event {
    fn from(message: FlMessage) -> (r: Self) {
        match message.id {
            0 => Event::Retrigger,
            1 => Event::GetLength,
            2 => Event::GetColor,
            3 => Event::GetVelocity,
            4 => Event::GetRelVelocity,
            5 => Event::GetRelTime,
            6 => Event::SetLinkVelocity(message.index != 0),
            _ => Event::Unknown,
        }
    }
}

impl vstd::std_specs::convert::FromSpecImpl<FlMessage> for Event {
    open spec fn obeys_from_spec() -> bool {
        true
    }

    open spec fn from_spec(message: FlMessage) -> Event {
        Event::decode(message)
    }
}

impl From<Event> for Option<FlMessage> {
    fn from(event: Event) -> (r: Self) {
        match event {
            Event::Retrigger => Some(FlMessage { id: 0, index: 0, value: 0 }),
            Event::GetLength => Some(FlMessage { id: 1, index: 0, value: 0 }),
            Event::GetColor => Some(FlMessage { id: 2, index: 0, value: 0 }),
            Event::GetVelocity => Some(FlMessage { id: 3, index: 0, value: 0 }),
            Event::GetRelVelocity => Some(FlMessage { id: 4, index: 0, value: 0 }),
            Event::GetRelTime => Some(FlMessage { id: 5, index: 0, value: 0 }),
            Event::SetLinkVelocity(value) => Some(
                FlMessage { id: 6, index: if value { 1 } else { 0 }, value: 0 },
            ),
            Event::Unknown => None,
        }
    }
}

impl vstd::std_specs::convert::FromSpecImpl<Event> for Option<FlMessage> {
    open spec fn obeys_from_spec() -> bool {
        true
    }

    open spec fn from_spec(event: Event) -> Option<FlMessage> {
        event.encode()
    }
}

/// Decoding the message that an event is encoded as gives the event back.
pub proof fn lemma_event_round_trip(event: Event)
    requires
        event != Event::Unknown,
    ensures
        event.encode() matches Some(m) && Event::decode(m) == event,
{
}

} // verus!
