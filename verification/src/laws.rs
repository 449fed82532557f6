use vstd::prelude::*;

use crate::engine::spec_apply_event;
use crate::engine::spec_reset_all;
use crate::events::NoteEvent;
use crate::events::VoiceTerminated;
use crate::scheduler::spec_terminations;
use crate::voice::PHASE_MODULUS;
use crate::voice::VoiceModel;
use crate::voice::spec_current;
use crate::voice::spec_phase_next;
use crate::voice::spec_trim;

verus! {

/// Phase progression law: as long as the per-sample increment is positive
/// and below one cycle — which every `u32` increment is — the phase
/// strictly increases modulo one cycle at every sample boundary and never
/// reaches a whole cycle: it climbs by exactly the increment, and wraps by
/// exactly one cycle the moment it would reach it.
pub proof fn lemma_phase_strictly_advances(phase: u32, phase_incr: u32)
    requires
        1 <= phase_incr,
    ensures
        spec_phase_next(phase, phase_incr) < PHASE_MODULUS,
        spec_phase_next(phase, phase_incr) != phase,
        phase + phase_incr < PHASE_MODULUS ==> spec_phase_next(phase, phase_incr) == phase
            + phase_incr,
        phase + phase_incr >= PHASE_MODULUS ==> spec_phase_next(phase, phase_incr) == phase
            + phase_incr - PHASE_MODULUS,
{
    let m = PHASE_MODULUS as int;
    let x = phase as int + phase_incr as int;
    if x < m {
        assert(x % m == x) by (nonlinear_arith)
            requires
                0 <= x < m,
        ;
    } else {
        assert(x % m == x - m) by (nonlinear_arith)
            requires
                m <= x < 2 * m,
        ;
    }
}

/// Default-modulation law: a voice whose three modulation queues are all
/// empty resolves to the defaults at every sample — `unit` gain, `unit`
/// velocity, `zero` (center) pan — so rendering a voice with no explicit
/// modulation matches the no-modulation baseline.
pub proof fn lemma_empty_queues_yield_defaults<V>(
    v: VoiceModel<V>,
    sample_idx: u32,
    unit: V,
    zero: V,
)
    requires
        v.gains.len() == 0,
        v.velocities.len() == 0,
        v.pannings.len() == 0,
    ensures
        spec_current(spec_trim(v.gains, sample_idx), unit) == unit,
        spec_current(spec_trim(v.velocities, sample_idx), unit) == unit,
        spec_current(spec_trim(v.pannings, sample_idx), zero) == zero,
{
}

/// Reset idempotence law: resetting the pool twice in a row leaves it in
/// the same state as resetting it once.
pub proof fn lemma_reset_idempotent<V>(s: Seq<VoiceModel<V>>)
    ensures
        spec_reset_all(spec_reset_all(s)) == spec_reset_all(s),
{
    assert(spec_reset_all(spec_reset_all(s)) =~~= spec_reset_all(s));
}

/// Single-sample note law: a `NoteOn` at `t` followed by a `NoteOff` for
/// the same (channel, note) at `t + 1` activates the voice exactly over
/// the one-sample span `[t, t + 1)` — active after the first event,
/// inactive with phase zero after the second, every other voice untouched
/// — and the pair emits exactly one termination notification, stamped
/// `t + 1`. Since the scheduler never lets an event timestamp fall
/// strictly inside a sub-block, the voice is rendered for exactly the one
/// sample at offset `t`.
pub proof fn lemma_note_on_off_single_sample<V>(
    s: Seq<VoiceModel<V>>,
    t: u32,
    channel: u8,
    note: u8,
    on_velocity: V,
    off_velocity: V,
)
    requires
        channel < 17,
        note < 128,
        (channel as int) * 128 + (note as int) < s.len(),
        t < u32::MAX,
    ensures
        ({
            let on = NoteEvent::NoteOn { timing: t, channel, note, velocity: on_velocity };
            let off = NoteEvent::NoteOff {
                timing: (t + 1) as u32,
                channel,
                note,
                velocity: off_velocity,
            };
            let i = channel as int * 128 + note as int;
            let after_on = spec_apply_event(s, on);
            let after_off = spec_apply_event(after_on, off);
            &&& after_on[i].active
            &&& !after_off[i].active
            &&& after_off[i].phase == 0
            &&& (forall|j: int| 0 <= j < s.len() && j != i ==> after_off[j] == s[j])
            &&& spec_terminations(seq![on, off]) == seq![
                VoiceTerminated {
                    timing: (t + 1) as u32,
                    voice_id: ((channel as int) * 128 + (note as int)) as u32,
                    channel,
                    note,
                },
            ]
        }),
{
    let on = NoteEvent::NoteOn { timing: t, channel, note, velocity: on_velocity };
    let off = NoteEvent::NoteOff {
        timing: (t + 1) as u32,
        channel,
        note,
        velocity: off_velocity,
    };
    let term = VoiceTerminated {
        timing: (t + 1) as u32,
        voice_id: ((channel as int) * 128 + (note as int)) as u32,
        channel,
        note,
    };
    reveal_with_fuel(spec_terminations, 2);
    let es = seq![on, off];
    assert(es[0] == on);
    assert(es.drop_first() =~= seq![off]);
    assert(seq![off].drop_first() =~= Seq::<NoteEvent<V>>::empty());
    assert(spec_terminations(seq![off]) =~= seq![term]);
    assert(spec_terminations(es) =~= seq![term]);
}

} // verus!
