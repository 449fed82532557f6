use std::collections::VecDeque;

use poly_mod_synth::NoteEvent;
use poly_mod_synth::PolyModSynth;
use poly_mod_synth::SubBlock;
use poly_mod_synth::VoiceTerminated;
use poly_mod_synth::current_value;
use poly_mod_synth::engine::voice_index;
use poly_mod_synth::trim_queue;

#[test]
fn pool_construction() {
    let synth: PolyModSynth<f32> = PolyModSynth::new();
    assert_eq!(synth.voices.len(), 2176);
    for channel in 0u8..17 {
        for note in 0u8..128 {
            let idx = channel as usize * 128 + note as usize;
            let voice = &synth.voices[idx];
            assert_eq!(voice.channel, channel);
            assert_eq!(voice.note, note);
            assert!(!voice.active);
            assert_eq!(voice.phase, 0);
            assert!(voice.gains.is_empty());
            assert!(voice.velocities.is_empty());
            assert!(voice.pannings.is_empty());
        }
    }
}

#[test]
fn voice_index_is_direct() {
    assert_eq!(voice_index(0, 0), 0);
    assert_eq!(voice_index(3, 60), 3 * 128 + 60);
    assert_eq!(voice_index(16, 127), 2175);
}

#[test]
fn start_voice_activates_and_enqueues_velocity() {
    let mut synth: PolyModSynth<f32> = PolyModSynth::new();
    synth.start_voice(5, 3, 60, 0.8);
    let voice = &synth.voices[3 * 128 + 60];
    assert!(voice.active);
    assert_eq!(voice.velocities.len(), 1);
    assert_eq!(voice.velocities[0], (5, 0.8));
    assert!(voice.gains.is_empty());
    assert!(voice.pannings.is_empty());
}

#[test]
fn stop_voices_deactivates_resets_phase_and_notifies() {
    let mut synth: PolyModSynth<f32> = PolyModSynth::new();
    synth.start_voice(0, 3, 60, 1.0);
    let idx = 3 * 128 + 60;
    synth.voice_step(idx, 0, 1000, 1.0, 0.0);
    assert_ne!(synth.voices[idx].phase, 0);
    let term = synth.stop_voices(9, 3, 60);
    assert_eq!(
        term,
        VoiceTerminated { timing: 9, voice_id: 3 * 128 + 60, channel: 3, note: 60 }
    );
    let voice = &synth.voices[idx];
    assert!(!voice.active);
    assert_eq!(voice.phase, 0);
    // Deactivation leaves the queues alone; only the next activation
    // clears them.
    assert_eq!(voice.velocities.len(), 1);
}

#[test]
fn poly_events_enqueue_without_activating() {
    let mut synth: PolyModSynth<f32> = PolyModSynth::new();
    let idx = 2 * 128 + 40;
    let t1 = synth.apply_event(&NoteEvent::PolyVolume {
        timing: 3,
        channel: 2,
        note: 40,
        gain: 0.5,
    });
    let t2 = synth.apply_event(&NoteEvent::PolyPan { timing: 4, channel: 2, note: 40, pan: -0.3 });
    let t3 = synth.apply_event(&NoteEvent::PolyPressure {
        timing: 5,
        channel: 2,
        note: 40,
        pressure: 0.7,
    });
    assert_eq!(t1, None);
    assert_eq!(t2, None);
    assert_eq!(t3, None);
    let voice = &synth.voices[idx];
    assert!(!voice.active);
    assert_eq!(voice.gains[0], (3, 0.5));
    assert_eq!(voice.pannings[0], (4, -0.3));
    assert_eq!(voice.velocities[0], (5, 0.7));
}

#[test]
fn note_on_restarts_modulation_queues() {
    let mut synth: PolyModSynth<f32> = PolyModSynth::new();
    let idx = 2 * 128 + 40;
    synth.apply_event(&NoteEvent::PolyVolume { timing: 3, channel: 2, note: 40, gain: 0.5 });
    synth.apply_event(&NoteEvent::PolyPan { timing: 4, channel: 2, note: 40, pan: -0.3 });
    let t = synth.apply_event(&NoteEvent::NoteOn {
        timing: 8,
        channel: 2,
        note: 40,
        velocity: 0.9,
    });
    assert_eq!(t, None);
    let voice = &synth.voices[idx];
    assert!(voice.active);
    assert!(voice.gains.is_empty());
    assert!(voice.pannings.is_empty());
    assert_eq!(voice.velocities.len(), 1);
    assert_eq!(voice.velocities[0], (8, 0.9));
}

#[test]
fn note_off_and_choke_notify_even_when_inactive() {
    let mut synth: PolyModSynth<f32> = PolyModSynth::new();
    let t = synth.apply_event(&NoteEvent::NoteOff {
        timing: 7,
        channel: 1,
        note: 20,
        velocity: 0.0,
    });
    assert_eq!(
        t,
        Some(VoiceTerminated { timing: 7, voice_id: 128 + 20, channel: 1, note: 20 })
    );
    let t = synth.apply_event(&NoteEvent::Choke { timing: 8, channel: 1, note: 20 });
    assert_eq!(
        t,
        Some(VoiceTerminated { timing: 8, voice_id: 128 + 20, channel: 1, note: 20 })
    );
}

#[test]
fn reset_clears_active_flags_only_and_is_idempotent() {
    let mut synth: PolyModSynth<f32> = PolyModSynth::new();
    synth.start_voice(0, 0, 60, 1.0);
    synth.start_voice(0, 4, 100, 0.5);
    let idx = 60;
    synth.voice_step(idx, 0, 12345, 1.0, 0.0);
    let phase_before = synth.voices[idx].phase;
    assert_ne!(phase_before, 0);

    synth.reset();
    let snapshot: Vec<(bool, u32, usize, usize, usize)> = synth
        .voices
        .iter()
        .map(|v| (v.active, v.phase, v.gains.len(), v.velocities.len(), v.pannings.len()))
        .collect();
    for v in synth.voices.iter() {
        assert!(!v.active);
    }
    // The quirk to preserve: reset does not clear phase or queues.
    assert_eq!(synth.voices[idx].phase, phase_before);
    assert_eq!(synth.voices[idx].velocities.len(), 1);

    synth.reset();
    let snapshot_again: Vec<(bool, u32, usize, usize, usize)> = synth
        .voices
        .iter()
        .map(|v| (v.active, v.phase, v.gains.len(), v.velocities.len(), v.pannings.len()))
        .collect();
    assert_eq!(snapshot, snapshot_again);
}

#[test]
fn trim_pops_front_while_second_entry_is_in_the_future() {
    // The trimming rule is deliberately tolerant of slightly-future
    // timestamps: a queued entry whose timestamp has not been reached
    // still evicts the front entry.
    let mut q: VecDeque<(u32, f32)> = VecDeque::new();
    q.push_back((0, 1.0));
    q.push_back((5, 2.0));
    trim_queue(&mut q, 2);
    assert_eq!(q.len(), 1);
    assert_eq!(q[0], (5, 2.0));
    assert_eq!(current_value(&q, 1.0), 2.0);
}

#[test]
fn trim_keeps_front_when_second_entry_is_reached() {
    let mut q: VecDeque<(u32, f32)> = VecDeque::new();
    q.push_back((0, 1.0));
    q.push_back((2, 2.0));
    q.push_back((5, 3.0));
    trim_queue(&mut q, 2);
    // The second entry's timestamp is not strictly greater than the
    // current sample, so nothing is discarded.
    assert_eq!(q.len(), 3);
    assert_eq!(current_value(&q, 1.0), 1.0);
}

#[test]
fn current_value_defaults_on_empty_queue() {
    let q: VecDeque<(u32, f32)> = VecDeque::new();
    assert_eq!(current_value(&q, 1.0), 1.0);
    assert_eq!(current_value(&q, 0.0), 0.0);
}

#[test]
fn voice_step_advances_and_wraps_phase() {
    let mut synth: PolyModSynth<f32> = PolyModSynth::new();
    synth.start_voice(0, 0, 69, 1.0);
    let idx = 69;
    let incr: u32 = 0x8000_0000;
    let out = synth.voice_step(idx, 0, incr, 1.0, 0.0);
    assert_eq!(out.phase, 0);
    assert_eq!(synth.voices[idx].phase, 0x8000_0000);
    let out = synth.voice_step(idx, 1, incr, 1.0, 0.0);
    assert_eq!(out.phase, 0x8000_0000);
    // One whole cycle wraps back to zero.
    assert_eq!(synth.voices[idx].phase, 0);
}

#[test]
fn voice_step_resolves_queue_fronts() {
    let mut synth: PolyModSynth<f32> = PolyModSynth::new();
    synth.start_voice(0, 0, 60, 0.9);
    synth.apply_event(&NoteEvent::PolyVolume { timing: 0, channel: 0, note: 60, gain: 0.5 });
    synth.apply_event(&NoteEvent::PolyPan { timing: 0, channel: 0, note: 60, pan: -1.0 });
    let out = synth.voice_step(60, 0, 1, 1.0, 0.0);
    assert_eq!(out.gain, 0.5);
    assert_eq!(out.velocity, 0.9);
    assert_eq!(out.pan, -1.0);
}

fn collect_blocks(
    synth: &mut PolyModSynth<f32>,
    events: &Vec<NoteEvent<f32>>,
    total: u32,
) -> (Vec<SubBlock>, Vec<VoiceTerminated>) {
    let mut blocks = Vec::new();
    let mut terms = Vec::new();
    let mut block_start: u32 = 0;
    let mut next_idx: usize = 0;
    while block_start < total {
        let (sb, idx, ts) = synth.prepare_sub_block(events, next_idx, block_start, total);
        blocks.push(sb);
        terms.extend(ts);
        next_idx = idx;
        block_start = sb.end;
    }
    (blocks, terms)
}

#[test]
fn scheduler_splits_blocks_at_event_boundaries() {
    let mut synth: PolyModSynth<f32> = PolyModSynth::new();
    let events = vec![
        NoteEvent::NoteOn { timing: 10, channel: 0, note: 60, velocity: 1.0 },
        NoteEvent::NoteOn { timing: 70, channel: 0, note: 64, velocity: 1.0 },
        NoteEvent::NoteOff { timing: 100, channel: 0, note: 60, velocity: 0.0 },
    ];
    let (blocks, terms) = collect_blocks(&mut synth, &events, 256);
    assert_eq!(
        blocks,
        vec![
            SubBlock { start: 0, end: 10 },
            SubBlock { start: 10, end: 70 },
            SubBlock { start: 70, end: 100 },
            SubBlock { start: 100, end: 164 },
            SubBlock { start: 164, end: 228 },
            SubBlock { start: 228, end: 256 },
        ]
    );
    // No event timestamp lies strictly inside any sub-block; every event
    // boundary coincides with a sub-block edge.
    for sb in &blocks {
        for e in [10u32, 70, 100] {
            assert!(e <= sb.start || e >= sb.end);
        }
    }
    assert!(blocks.iter().any(|sb| sb.start == 10));
    assert!(blocks.iter().any(|sb| sb.start == 70));
    assert!(blocks.iter().any(|sb| sb.start == 100));
    assert_eq!(
        terms,
        vec![VoiceTerminated { timing: 100, voice_id: 60, channel: 0, note: 60 }]
    );
}

#[test]
fn scheduler_caps_block_length() {
    let mut synth: PolyModSynth<f32> = PolyModSynth::new();
    let events: Vec<NoteEvent<f32>> = Vec::new();
    let (blocks, terms) = collect_blocks(&mut synth, &events, 100);
    assert_eq!(
        blocks,
        vec![SubBlock { start: 0, end: 64 }, SubBlock { start: 64, end: 100 }]
    );
    assert!(terms.is_empty());
}

#[test]
fn event_on_block_edge_is_not_inside() {
    let mut synth: PolyModSynth<f32> = PolyModSynth::new();
    let events = vec![NoteEvent::NoteOn { timing: 64, channel: 0, note: 60, velocity: 1.0 }];
    let (blocks, _) = collect_blocks(&mut synth, &events, 128);
    assert_eq!(
        blocks,
        vec![SubBlock { start: 0, end: 64 }, SubBlock { start: 64, end: 128 }]
    );
    assert!(synth.voices[60].active);
}

#[test]
fn stale_events_apply_at_block_start() {
    // Events whose timestamp has already passed still apply, at the start
    // of the current sub-block.
    let mut synth: PolyModSynth<f32> = PolyModSynth::new();
    let events = vec![NoteEvent::NoteOn { timing: 0, channel: 0, note: 60, velocity: 1.0 }];
    let (_, idx, _) = synth.prepare_sub_block(&events, 0, 0, 32);
    assert_eq!(idx, 1);
    assert!(synth.voices[60].active);
}
