use vstd::prelude::*;
use std::collections::VecDeque;

verus! {

/// The oscillator phase is a binary fraction of one cycle: a stored value
/// `p` stands for the real phase `p / PHASE_MODULUS`, which always lies in
/// `[0, 1)`.
pub const PHASE_MODULUS: u64 = 0x1_0000_0000;

/// One playable (channel, note) pair: oscillator state plus three
/// independent timestamped modulation queues. Voices are allocated once
/// for every (channel, note) combination and only ever activated and
/// deactivated, never created or destroyed.
#[derive(Debug)]
pub struct Voice<V> {
    pub active: bool,
    pub note: u8,
    pub channel: u8,
    /// Oscillator phase, in units of `1 / PHASE_MODULUS` of a cycle.
    pub phase: u32,
    /// Timestamped gain values; the timestamp is a sample offset within
    /// the current processing call.
    pub gains: VecDeque<(u32, V)>,
    /// Timestamped velocity values.
    pub velocities: VecDeque<(u32, V)>,
    /// Timestamped pan values.
    pub pannings: VecDeque<(u32, V)>,
}

/// Mathematical model of a [`Voice`]: the same fields with each queue
/// abstracted to the sequence of its entries.
#[verifier::ext_equal]
pub struct VoiceModel<V> {
    pub active: bool,
    pub note: u8,
    pub channel: u8,
    pub phase: u32,
    pub gains: Seq<(u32, V)>,
    pub velocities: Seq<(u32, V)>,
    pub pannings: Seq<(u32, V)>,
}

impl<V> View for Voice<V> {
    type V = VoiceModel<V>;

    open spec fn view(&self) -> VoiceModel<V> {
        VoiceModel {
            active: self.active,
            note: self.note,
            channel: self.channel,
            phase: self.phase,
            gains: self.gains@,
            velocities: self.velocities@,
            pannings: self.pannings@,
        }
    }
}

/// A voice as the pool constructs it: inactive, phase zero, queues empty.
pub open spec fn spec_fresh_voice<V>(channel: u8, note: u8) -> VoiceModel<V> {
    VoiceModel {
        active: false,
        note: note,
        channel: channel,
        phase: 0,
        gains: Seq::empty(),
        velocities: Seq::empty(),
        pannings: Seq::empty(),
    }
}

/// Activation: the voice becomes active, all three queues restart, and the
/// initial velocity is enqueued. The phase is deliberately left alone;
/// deactivation is what resets it.
pub open spec fn spec_activate<V>(v: VoiceModel<V>, timing: u32, velocity: V) -> VoiceModel<V> {
    VoiceModel {
        active: true,
        gains: Seq::empty(),
        velocities: Seq::empty().push((timing, velocity)),
        pannings: Seq::empty(),
        ..v
    }
}

/// Deactivation: the voice becomes inactive and its phase returns to zero.
/// The queues are deliberately not cleared; the next activation clears them.
pub open spec fn spec_deactivate<V>(v: VoiceModel<V>) -> VoiceModel<V> {
    VoiceModel { active: false, phase: 0, ..v }
}

/// What `reset` does to one voice: only the `active` flag is cleared;
/// phase and queues keep their values.
pub open spec fn spec_clear_active<V>(v: VoiceModel<V>) -> VoiceModel<V> {
    VoiceModel { active: false, ..v }
}

/// Head trimming of a modulation queue at sample `sample_idx`: while the
/// queue has more than one entry and its second entry's timestamp is
/// strictly greater than `sample_idx`, the front entry is discarded.
pub open spec fn spec_trim<V>(q: Seq<(u32, V)>, sample_idx: u32) -> Seq<(u32, V)>
    decreases q.len(),
{
    if q.len() > 1 && q[1].0 > sample_idx {
        spec_trim(q.drop_first(), sample_idx)
    } else {
        q
    }
}

/// The value a queue currently resolves to: its front entry's value, or
/// the given default when it is empty.
pub open spec fn spec_current<V>(q: Seq<(u32, V)>, default: V) -> V {
    if q.len() == 0 {
        default
    } else {
        q[0].1
    }
}

/// Phase advance by one sample: add the per-sample increment and wrap by
/// one whole cycle on reaching or passing it. A single-step wrap is enough
/// because the increment is itself less than one cycle.
pub open spec fn spec_phase_next(phase: u32, phase_incr: u32) -> u32 {
    ((phase + phase_incr) % (PHASE_MODULUS as int)) as u32
}

/// The per-sample step of the render pipeline on one voice: all three
/// queues are trimmed at `sample_idx` and the phase advances by
/// `phase_incr`; activity and identity are untouched.
pub open spec fn spec_step_voice<V>(v: VoiceModel<V>, sample_idx: u32, phase_incr: u32) -> VoiceModel<V> {
    VoiceModel {
        gains: spec_trim(v.gains, sample_idx),
        velocities: spec_trim(v.velocities, sample_idx),
        pannings: spec_trim(v.pannings, sample_idx),
        phase: spec_phase_next(v.phase, phase_incr),
        ..v
    }
}

/// The modulation values and oscillator phase that govern one sample of
/// one voice: the resolved gain, velocity and pan, and the phase before
/// this sample's advance, as a binary fraction of a cycle.
#[derive(Clone, Copy, Debug)]
pub struct StepOut<V> {
    pub gain: V,
    pub velocity: V,
    pub pan: V,
    pub phase: u32,
}

impl<V: Copy> Voice<V> {
    /// A fresh voice for the given (channel, note) pair.
    pub fn new(channel: u8, note: u8) -> (v: Voice<V>)
        ensures
            v@ == spec_fresh_voice::<V>(channel, note),
    {
        let v = Voice {
            active: false,
            note: note,
            channel: channel,
            phase: 0,
            gains: VecDeque::new(),
            velocities: VecDeque::new(),
            pannings: VecDeque::new(),
        };
        proof {
            assert(v@ =~= spec_fresh_voice::<V>(channel, note));
        }
        v
    }
}

/// Discards stale entries from the front of a modulation queue as playback
/// reaches sample `sample_idx`, per [`spec_trim`]. At most one entry ever
/// lies in the past afterwards.
pub fn trim_queue<V: Copy>(q: &mut VecDeque<(u32, V)>, sample_idx: u32)
    ensures
        final(q)@ == spec_trim(old(q)@, sample_idx),
{
    while q.len() > 1 && q[1].0 > sample_idx
        invariant
            spec_trim(q@, sample_idx) == spec_trim(old(q)@, sample_idx),
        decreases q.len(),
    {
        proof {
            assert(q@.drop_first() =~= q@.subrange(1, q@.len() as int));
        }
        q.pop_front();
    }
}

/// The value a modulation queue currently resolves to, per [`spec_current`].
pub fn current_value<V: Copy>(q: &VecDeque<(u32, V)>, default: V) -> (v: V)
    ensures
        v == spec_current(q@, default),
{
    if q.len() == 0 {
        default
    } else {
        let (_, value) = q[0];
        value
    }
}

} // verus!
