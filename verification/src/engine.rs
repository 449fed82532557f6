use vstd::prelude::*;

use crate::NUM_VOICES;
use crate::events::NoteEvent;
use crate::events::VoiceTerminated;
use crate::events::event_channel;
use crate::events::event_in_range;
use crate::events::event_note;
use crate::events::spec_termination_of;
use crate::voice::StepOut;
use crate::voice::Voice;
use crate::voice::VoiceModel;
use crate::voice::current_value;
use crate::voice::spec_activate;
use crate::voice::spec_clear_active;
use crate::voice::spec_current;
use crate::voice::spec_deactivate;
use crate::voice::spec_fresh_voice;
use crate::voice::spec_step_voice;
use crate::voice::spec_trim;
use crate::voice::trim_queue;

verus! {

/// The polyphonic rendering engine: a fixed pool of one voice per
/// (channel, note) pair, indexed by `channel * 128 + note`, allocated once
/// at construction and reused indefinitely.
pub struct PolyModSynth<V> {
    pub voices: Vec<Voice<V>>,
}

impl<V> View for PolyModSynth<V> {
    type V = Seq<VoiceModel<V>>;

    open spec fn view(&self) -> Seq<VoiceModel<V>> {
        self.voices@.map_values(|v: Voice<V>| v@)
    }
}

/// Well-formedness of the pool: one voice per (channel, note) pair, each
/// stored at index `channel * 128 + note`.
pub open spec fn wf_pool<V>(s: Seq<VoiceModel<V>>) -> bool {
    &&& s.len() == NUM_VOICES
    &&& forall|i: int|
        0 <= i < s.len() ==> {
            &&& (#[trigger] s[i]).channel < 17
            &&& s[i].note < 128
            &&& (s[i].channel as int) * 128 + (s[i].note as int) == i
        }
}

/// Pool index of the voice owned by a (channel, note) pair.
pub fn voice_index(channel: u8, note: u8) -> (idx: usize)
    requires
        channel < 17,
        note < 128,
    ensures
        idx == channel as int * 128 + note as int,
        idx < NUM_VOICES,
{
    (channel as usize) * 128 + (note as usize)
}

/// The effect of one event on the pool: `NoteOn` activates its voice and
/// enqueues the initial velocity; `NoteOff` and `Choke` deactivate it; the
/// three polyphonic modulation events enqueue a value into the matching
/// queue without touching activity.
pub open spec fn spec_apply_event<V>(s: Seq<VoiceModel<V>>, e: NoteEvent<V>) -> Seq<VoiceModel<V>> {
    let i = event_channel(e) as int * 128 + event_note(e) as int;
    match e {
        NoteEvent::NoteOn { timing, velocity, .. } => s.update(
            i,
            spec_activate(s[i], timing, velocity),
        ),
        NoteEvent::NoteOff { .. } => s.update(i, spec_deactivate(s[i])),
        NoteEvent::Choke { .. } => s.update(i, spec_deactivate(s[i])),
        NoteEvent::PolyPressure { timing, pressure, .. } => s.update(
            i,
            VoiceModel { velocities: s[i].velocities.push((timing, pressure)), ..s[i] },
        ),
        NoteEvent::PolyVolume { timing, gain, .. } => s.update(
            i,
            VoiceModel { gains: s[i].gains.push((timing, gain)), ..s[i] },
        ),
        NoteEvent::PolyPan { timing, pan, .. } => s.update(
            i,
            VoiceModel { pannings: s[i].pannings.push((timing, pan)), ..s[i] },
        ),
    }
}

/// What `reset` does to the pool: every voice keeps its phase and queues
/// and only loses its `active` flag.
pub open spec fn spec_reset_all<V>(s: Seq<VoiceModel<V>>) -> Seq<VoiceModel<V>> {
    s.map_values(|v: VoiceModel<V>| spec_clear_active(v))
}

impl<V: Copy> PolyModSynth<V> {
    pub open spec fn wf(&self) -> bool {
        wf_pool(self@)
    }

    /// Builds the full pool: every voice inactive, phase zero, queues
    /// empty, stored at its (channel, note) index.
    pub fn new() -> (s: Self)
        ensures
            s.wf(),
            forall|i: int|
                0 <= i < s@.len() ==> {
                    &&& !(#[trigger] s@[i]).active
                    &&& s@[i].phase == 0
                    &&& s@[i].gains.len() == 0
                    &&& s@[i].velocities.len() == 0
                    &&& s@[i].pannings.len() == 0
                },
    {
        let mut voices: Vec<Voice<V>> = Vec::new();
        let mut channel: u8 = 0;
        while channel < 17
            invariant
                channel <= 17,
                voices@.len() == channel as int * 128,
                forall|j: int|
                    0 <= j < voices@.len() ==> (#[trigger] voices@[j])@ == spec_fresh_voice::<V>(
                        voices@[j]@.channel,
                        voices@[j]@.note,
                    ) && voices@[j]@.channel < 17 && voices@[j]@.note < 128 && (voices@[j]@.channel as int)
                        * 128 + voices@[j]@.note == j,
            decreases 17 - channel,
        {
            let mut note: u8 = 0;
            while note < 128
                invariant
                    channel < 17,
                    note <= 128,
                    voices@.len() == channel as int * 128 + note as int,
                    forall|j: int|
                        0 <= j < voices@.len() ==> (#[trigger] voices@[j])@ == spec_fresh_voice::<
                            V,
                        >(voices@[j]@.channel, voices@[j]@.note) && voices@[j]@.channel < 17
                            && voices@[j]@.note < 128 && (voices@[j]@.channel as int) * 128
                            + voices@[j]@.note == j,
                decreases 128 - note,
            {
                voices.push(Voice::new(channel, note));
                note = note + 1;
            }
            channel = channel + 1;
        }
        let s = PolyModSynth { voices };
        proof {
            assert(s@.len() == NUM_VOICES);
            assert forall|i: int| 0 <= i < s@.len() implies {
                &&& (#[trigger] s@[i]).channel < 17
                &&& s@[i].note < 128
                &&& (s@[i].channel as int) * 128 + (s@[i].note as int) == i
                &&& !s@[i].active
                &&& s@[i].phase == 0
                &&& s@[i].gains.len() == 0
                &&& s@[i].velocities.len() == 0
                &&& s@[i].pannings.len() == 0
            } by {
                assert(s@[i] == s.voices@[i]@);
            }
        }
        s
    }

    /// Clears every voice's `active` flag. Phase and queues keep their
    /// values: deactivation through `reset` is deliberately shallower than
    /// through `stop_voices`.
    pub fn reset(&mut self)
        ensures
            final(self)@ == spec_reset_all(old(self)@),
            old(self).wf() ==> final(self).wf(),
    {
        let n = self.voices.len();
        let mut i: usize = 0;
        while i < n
            invariant
                n == self.voices@.len(),
                self.voices@.len() == old(self).voices@.len(),
                i <= n,
                forall|j: int|
                    0 <= j < i ==> self@[j] == spec_clear_active(#[trigger] old(self)@[j]),
                forall|j: int|
                    i <= j < n ==> self.voices@[j] == old(self).voices@[j],
            decreases n - i,
        {
            let voice = &mut self.voices[i];
            voice.active = false;
            proof {
                assert(self@[i as int] =~= spec_clear_active(old(self)@[i as int]));
            }
            i = i + 1;
        }
        proof {
            assert(self@ =~~= spec_reset_all(old(self)@));
            if old(self).wf() {
                assert(self.wf());
            }
        }
    }

    /// Activates the (channel, note) voice at `timing`: restarts all three
    /// modulation queues, sets it active, and enqueues the initial
    /// velocity. The phase is left where the last deactivation put it.
    pub fn start_voice(&mut self, timing: u32, channel: u8, note: u8, velocity: V)
        requires
            old(self).wf(),
            channel < 17,
            note < 128,
        ensures
            final(self)@ == old(self)@.update(
                channel as int * 128 + note as int,
                spec_activate(
                    old(self)@[channel as int * 128 + note as int],
                    timing,
                    velocity,
                ),
            ),
            final(self).wf(),
    {
        let idx = voice_index(channel, note);
        proof {
            // The identity invariant: the voice stored at the computed
            // index is the one the (channel, note) pair owns.
            assert(old(self)@[idx as int].channel == channel && old(self)@[idx as int].note
                == note);
        }
        let voice = &mut self.voices[idx];
        voice.active = true;
        voice.velocities.clear();
        voice.pannings.clear();
        voice.gains.clear();
        voice.velocities.push_back((timing, velocity));
        proof {
            assert(self@ =~~= old(self)@.update(
                idx as int,
                spec_activate(old(self)@[idx as int], timing, velocity),
            ));
            assert(self.wf());
        }
    }

    /// Deactivates the (channel, note) voice at `timing` and returns the
    /// termination notification for the host layer. The phase returns to
    /// zero; the queues are left as they are (the next activation clears
    /// them).
    pub fn stop_voices(&mut self, timing: u32, channel: u8, note: u8) -> (t: VoiceTerminated)
        requires
            old(self).wf(),
            channel < 17,
            note < 128,
        ensures
            final(self)@ == old(self)@.update(
                channel as int * 128 + note as int,
                spec_deactivate(old(self)@[channel as int * 128 + note as int]),
            ),
            final(self).wf(),
            t == (VoiceTerminated {
                timing,
                voice_id: ((channel as int) * 128 + (note as int)) as u32,
                channel,
                note,
            }),
    {
        let idx = voice_index(channel, note);
        proof {
            assert(old(self)@[idx as int].channel == channel && old(self)@[idx as int].note
                == note);
        }
        let voice = &mut self.voices[idx];
        voice.active = false;
        voice.phase = 0;
        proof {
            assert(self@ =~~= old(self)@.update(
                idx as int,
                spec_deactivate(old(self)@[idx as int]),
            ));
            assert(self.wf());
        }
        VoiceTerminated {
            timing,
            voice_id: (channel as u32) * 128 + (note as u32),
            channel,
            note,
        }
    }

    /// Applies one event to the pool and returns the termination
    /// notification it gives rise to, if any.
    pub fn apply_event(&mut self, event: &NoteEvent<V>) -> (t: Option<VoiceTerminated>)
        requires
            old(self).wf(),
            event_in_range(*event),
        ensures
            final(self)@ == spec_apply_event(old(self)@, *event),
            final(self).wf(),
            t == spec_termination_of(*event),
    {
        match *event {
            NoteEvent::NoteOn { timing, channel, note, velocity } => {
                self.start_voice(timing, channel, note, velocity);
                None
            },
            NoteEvent::NoteOff { timing, channel, note, .. } => {
                Some(self.stop_voices(timing, channel, note))
            },
            NoteEvent::Choke { timing, channel, note } => {
                Some(self.stop_voices(timing, channel, note))
            },
            NoteEvent::PolyPressure { timing, channel, note, pressure } => {
                let idx = voice_index(channel, note);
                let voice = &mut self.voices[idx];
                voice.velocities.push_back((timing, pressure));
                proof {
                    assert(self@ =~~= spec_apply_event(old(self)@, *event));
                    assert(self.wf());
                }
                None
            },
            NoteEvent::PolyVolume { timing, channel, note, gain } => {
                let idx = voice_index(channel, note);
                let voice = &mut self.voices[idx];
                voice.gains.push_back((timing, gain));
                proof {
                    assert(self@ =~~= spec_apply_event(old(self)@, *event));
                    assert(self.wf());
                }
                None
            },
            NoteEvent::PolyPan { timing, channel, note, pan } => {
                let idx = voice_index(channel, note);
                let voice = &mut self.voices[idx];
                voice.pannings.push_back((timing, pan));
                proof {
                    assert(self@ =~~= spec_apply_event(old(self)@, *event));
                    assert(self.wf());
                }
                None
            },
        }
    }

    /// The per-sample step of the render pipeline on the voice at `index`:
    /// trims all three modulation queues at `sample_idx`, resolves the
    /// instantaneous gain, velocity (default `unit` when a queue is empty)
    /// and pan (default `zero`), and advances the phase by `phase_incr`
    /// units of `1 / PHASE_MODULUS` of a cycle, wrapping at one cycle.
    /// Returns the resolved values together with the phase the sample is
    /// synthesized from (the value before the advance).
    pub fn voice_step(
        &mut self,
        index: usize,
        sample_idx: u32,
        phase_incr: u32,
        unit: V,
        zero: V,
    ) -> (r: StepOut<V>)
        requires
            index < old(self)@.len(),
        ensures
            final(self)@ == old(self)@.update(
                index as int,
                spec_step_voice(old(self)@[index as int], sample_idx, phase_incr),
            ),
            r.gain == spec_current(spec_trim(old(self)@[index as int].gains, sample_idx), unit),
            r.velocity == spec_current(
                spec_trim(old(self)@[index as int].velocities, sample_idx),
                unit,
            ),
            r.pan == spec_current(spec_trim(old(self)@[index as int].pannings, sample_idx), zero),
            r.phase == old(self)@[index as int].phase,
            old(self).wf() ==> final(self).wf(),
    {
        let voice = &mut self.voices[index];
        trim_queue(&mut voice.gains, sample_idx);
        trim_queue(&mut voice.velocities, sample_idx);
        trim_queue(&mut voice.pannings, sample_idx);
        let gain = current_value(&voice.gains, unit);
        let velocity = current_value(&voice.velocities, unit);
        let pan = current_value(&voice.pannings, zero);
        let phase = voice.phase;
        let next: u64 = (voice.phase as u64) + (phase_incr as u64);
        if next >= 0x1_0000_0000u64 {
            proof {
                assert(next - 0x1_0000_0000 < 0x1_0000_0000);
                assert((voice.phase as int + phase_incr as int) % 0x1_0000_0000int == next
                    - 0x1_0000_0000) by (nonlinear_arith)
                    requires
                        next == voice.phase as int + phase_incr as int,
                        0x1_0000_0000 <= next < 0x2_0000_0000,
                ;
            }
            voice.phase = (next - 0x1_0000_0000u64) as u32;
        } else {
            proof {
                assert((voice.phase as int + phase_incr as int) % 0x1_0000_0000int == next)
                    by (nonlinear_arith)
                    requires
                        next == voice.phase as int + phase_incr as int,
                        0 <= next < 0x1_0000_0000,
                ;
            }
            voice.phase = next as u32;
        }
        proof {
            assert(self@ =~~= old(self)@.update(
                index as int,
                spec_step_voice(old(self)@[index as int], sample_idx, phase_incr),
            ));
            if old(self).wf() {
                assert(self.wf());
            }
        }
        StepOut { gain, velocity, pan, phase }
    }
}

} // verus!
