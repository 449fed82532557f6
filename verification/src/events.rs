use vstd::prelude::*;

verus! {

/// One timestamped note or per-note control event, delivered to the
/// scheduler in non-decreasing `timing` order. `timing` is a sample
/// offset within the current processing call. The modulation payload
/// (`velocity`, `pressure`, `gain`, `pan`) is opaque to the core.
#[derive(Clone, Copy, Debug)]
pub enum NoteEvent<V> {
    /// Activates the (channel, note) voice and enqueues its initial velocity.
    NoteOn { timing: u32, channel: u8, note: u8, velocity: V },
    /// Deactivates the (channel, note) voice.
    NoteOff { timing: u32, channel: u8, note: u8, velocity: V },
    /// Enqueues a velocity value without activating the voice.
    PolyPressure { timing: u32, channel: u8, note: u8, pressure: V },
    /// Enqueues a gain value without activating the voice.
    PolyVolume { timing: u32, channel: u8, note: u8, gain: V },
    /// Enqueues a pan value without activating the voice.
    PolyPan { timing: u32, channel: u8, note: u8, pan: V },
    /// Deactivates the (channel, note) voice, like `NoteOff`.
    Choke { timing: u32, channel: u8, note: u8 },
}

/// Notification that a voice has been deactivated, for the host layer to
/// release any resources bound to it. `voice_id` is `channel * 128 + note`.
#[derive(Clone, Copy, Debug, PartialEq, Eq, Structural)]
pub struct VoiceTerminated {
    pub timing: u32,
    pub voice_id: u32,
    pub channel: u8,
    pub note: u8,
}

pub open spec fn event_timing<V>(e: NoteEvent<V>) -> u32 {
    match e {
        NoteEvent::NoteOn { timing, .. } => timing,
        NoteEvent::NoteOff { timing, .. } => timing,
        NoteEvent::PolyPressure { timing, .. } => timing,
        NoteEvent::PolyVolume { timing, .. } => timing,
        NoteEvent::PolyPan { timing, .. } => timing,
        NoteEvent::Choke { timing, .. } => timing,
    }
}

pub open spec fn event_channel<V>(e: NoteEvent<V>) -> u8 {
    match e {
        NoteEvent::NoteOn { channel, .. } => channel,
        NoteEvent::NoteOff { channel, .. } => channel,
        NoteEvent::PolyPressure { channel, .. } => channel,
        NoteEvent::PolyVolume { channel, .. } => channel,
        NoteEvent::PolyPan { channel, .. } => channel,
        NoteEvent::Choke { channel, .. } => channel,
    }
}

pub open spec fn event_note<V>(e: NoteEvent<V>) -> u8 {
    match e {
        NoteEvent::NoteOn { note, .. } => note,
        NoteEvent::NoteOff { note, .. } => note,
        NoteEvent::PolyPressure { note, .. } => note,
        NoteEvent::PolyVolume { note, .. } => note,
        NoteEvent::PolyPan { note, .. } => note,
        NoteEvent::Choke { note, .. } => note,
    }
}

/// The voice the event addresses lies inside the fixed pool.
pub open spec fn event_in_range<V>(e: NoteEvent<V>) -> bool {
    event_channel(e) < 17 && event_note(e) < 128
}

pub open spec fn all_events_in_range<V>(es: Seq<NoteEvent<V>>) -> bool {
    forall|i: int| 0 <= i < es.len() ==> event_in_range(#[trigger] es[i])
}

/// Events are delivered in non-decreasing timestamp order; the scheduler
/// never sorts them.
pub open spec fn events_sorted<V>(es: Seq<NoteEvent<V>>) -> bool {
    forall|i: int, j: int|
        0 <= i <= j < es.len() ==> event_timing(#[trigger] es[i]) <= event_timing(#[trigger] es[j])
}

/// The notification a single event gives rise to: deactivating events
/// (`NoteOff`, `Choke`) emit one, all others none.
pub open spec fn spec_termination_of<V>(e: NoteEvent<V>) -> Option<VoiceTerminated> {
    match e {
        NoteEvent::NoteOff { timing, channel, note, .. } => Some(
            VoiceTerminated {
                timing,
                voice_id: ((channel as int) * 128 + (note as int)) as u32,
                channel,
                note,
            },
        ),
        NoteEvent::Choke { timing, channel, note } => Some(
            VoiceTerminated {
                timing,
                voice_id: ((channel as int) * 128 + (note as int)) as u32,
                channel,
                note,
            },
        ),
        _ => None,
    }
}

impl<V: Copy> NoteEvent<V> {
    /// Sample offset of the event within the current processing call.
    pub fn timing(&self) -> (t: u32)
        ensures
            t == event_timing(*self),
    {
        match self {
            NoteEvent::NoteOn { timing, .. } => *timing,
            NoteEvent::NoteOff { timing, .. } => *timing,
            NoteEvent::PolyPressure { timing, .. } => *timing,
            NoteEvent::PolyVolume { timing, .. } => *timing,
            NoteEvent::PolyPan { timing, .. } => *timing,
            NoteEvent::Choke { timing, .. } => *timing,
        }
    }
}

} // verus!
