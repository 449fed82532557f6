use vstd::prelude::*;

use crate::MAX_BLOCK_SIZE;
use crate::engine::PolyModSynth;
use crate::engine::spec_apply_event;
use crate::events::NoteEvent;
use crate::events::VoiceTerminated;
use crate::events::all_events_in_range;
use crate::events::event_timing;
use crate::events::events_sorted;
use crate::events::spec_termination_of;
use crate::voice::VoiceModel;

verus! {

/// One contiguous span `[start, end)` of samples within a processing call,
/// chosen so that no event falls strictly inside it.
#[derive(Clone, Copy, Debug, PartialEq, Eq, Structural)]
pub struct SubBlock {
    pub start: u32,
    pub end: u32,
}

/// The pool after applying a run of events in delivery order.
pub open spec fn spec_apply_events<V>(
    s: Seq<VoiceModel<V>>,
    es: Seq<NoteEvent<V>>,
) -> Seq<VoiceModel<V>>
    decreases es.len(),
{
    if es.len() == 0 {
        s
    } else {
        spec_apply_events(spec_apply_event(s, es[0]), es.drop_first())
    }
}

/// The termination notifications a run of events gives rise to, in
/// delivery order.
pub open spec fn spec_terminations<V>(es: Seq<NoteEvent<V>>) -> Seq<VoiceTerminated>
    decreases es.len(),
{
    if es.len() == 0 {
        Seq::empty()
    } else {
        match spec_termination_of(es[0]) {
            Some(t) => seq![t] + spec_terminations(es.drop_first()),
            None => spec_terminations(es.drop_first()),
        }
    }
}

/// Appending one event to a run applies it last.
pub proof fn lemma_apply_events_snoc<V>(
    s: Seq<VoiceModel<V>>,
    es: Seq<NoteEvent<V>>,
    e: NoteEvent<V>,
)
    ensures
        spec_apply_events(s, es.push(e)) == spec_apply_event(spec_apply_events(s, es), e),
    decreases es.len(),
{
    reveal_with_fuel(spec_apply_events, 2);
    if es.len() == 0 {
        assert(es.push(e)[0] == e);
        assert(es.push(e).drop_first() =~= Seq::<NoteEvent<V>>::empty());
    } else {
        assert(es.push(e)[0] == es[0]);
        assert(es.push(e).drop_first() =~= es.drop_first().push(e));
        lemma_apply_events_snoc(spec_apply_event(s, es[0]), es.drop_first(), e);
    }
}

/// Appending one event to a run appends its notification, if any.
pub proof fn lemma_terminations_snoc<V>(es: Seq<NoteEvent<V>>, e: NoteEvent<V>)
    ensures
        spec_terminations(es.push(e)) == (match spec_termination_of(e) {
            Some(t) => spec_terminations(es).push(t),
            None => spec_terminations(es),
        }),
    decreases es.len(),
{
    reveal_with_fuel(spec_terminations, 2);
    if es.len() == 0 {
        assert(es.push(e)[0] == e);
        assert(es.push(e).drop_first() =~= Seq::<NoteEvent<V>>::empty());
        match spec_termination_of(e) {
            Some(t) => {
                assert(spec_terminations(es.push(e)) =~= spec_terminations(es).push(t));
            },
            None => {},
        }
    } else {
        assert(es.push(e)[0] == es[0]);
        assert(es.push(e).drop_first() =~= es.drop_first().push(e));
        lemma_terminations_snoc(es.drop_first(), e);
        match spec_termination_of(es[0]) {
            Some(t0) => {
                match spec_termination_of(e) {
                    Some(t) => {
                        assert(seq![t0] + spec_terminations(es.drop_first()).push(t) =~= (seq![t0]
                            + spec_terminations(es.drop_first())).push(t));
                    },
                    None => {},
                }
            },
            None => {},
        }
    }
}

/// Where the sub-block that begins at `start` ends: at most
/// `MAX_BLOCK_SIZE` samples, cut short by the end of the buffer and by the
/// first still-pending event.
pub open spec fn spec_sub_block_end<V>(
    es: Seq<NoteEvent<V>>,
    next_idx: int,
    start: u32,
    total: u32,
) -> int {
    let cap = if start + MAX_BLOCK_SIZE <= total {
        start + MAX_BLOCK_SIZE as int
    } else {
        total as int
    };
    if next_idx < es.len() && event_timing(es[next_idx]) < cap {
        event_timing(es[next_idx]) as int
    } else {
        cap
    }
}

impl<V: Copy> PolyModSynth<V> {
    /// One transition of the block scheduler. Starting at `block_start`,
    /// it first applies every pending event whose timestamp has been
    /// reached (timing at or before `block_start`), collecting their
    /// termination notifications in order, and then chooses the sub-block
    /// to render next: at most `MAX_BLOCK_SIZE` samples, cut short at the
    /// end of the buffer and at the next pending event, so that no event
    /// timestamp falls strictly inside the returned span. The caller
    /// renders `[r.0.start, r.0.end)`, then continues from `r.0.end` with
    /// event index `r.1`.
    pub fn prepare_sub_block(
        &mut self,
        events: &Vec<NoteEvent<V>>,
        next_idx: usize,
        block_start: u32,
        total_samples: u32,
    ) -> (r: (SubBlock, usize, Vec<VoiceTerminated>))
        requires
            old(self).wf(),
            all_events_in_range(events@),
            events_sorted(events@),
            next_idx <= events@.len(),
            forall|k: int|
                0 <= k < next_idx ==> event_timing(#[trigger] events@[k]) <= block_start,
            block_start < total_samples,
        ensures
            final(self).wf(),
            // Every event drained here had been reached, and none that
            // remains has been.
            next_idx <= r.1 <= events@.len(),
            forall|k: int|
                next_idx <= k < r.1 ==> event_timing(#[trigger] events@[k]) <= block_start,
            r.1 < events@.len() ==> event_timing(events@[r.1 as int]) > block_start,
            // The drained events act on the pool in delivery order, and
            // their notifications come back in the same order.
            final(self)@ == spec_apply_events(
                old(self)@,
                events@.subrange(next_idx as int, r.1 as int),
            ),
            r.2@ == spec_terminations(events@.subrange(next_idx as int, r.1 as int)),
            // The sub-block the caller is to render.
            r.0.start == block_start,
            r.0.end == spec_sub_block_end(events@, r.1 as int, block_start, total_samples),
            block_start < r.0.end <= total_samples,
            r.0.end - r.0.start <= MAX_BLOCK_SIZE,
            // No event timestamp lies strictly inside the sub-block.
            forall|k: int|
                0 <= k < events@.len() ==> event_timing(#[trigger] events@[k]) <= r.0.start
                    || event_timing(events@[k]) >= r.0.end,
    {
        let mut idx = next_idx;
        let mut terminations: Vec<VoiceTerminated> = Vec::new();
        proof {
            assert(events@.subrange(next_idx as int, next_idx as int)
                =~= Seq::<NoteEvent<V>>::empty());
        }
        while idx < events.len() && events[idx].timing() <= block_start
            invariant
                old(self).wf(),
                self.wf(),
                all_events_in_range(events@),
                next_idx <= idx <= events@.len(),
                forall|k: int|
                    next_idx <= k < idx ==> event_timing(#[trigger] events@[k]) <= block_start,
                self@ == spec_apply_events(
                    old(self)@,
                    events@.subrange(next_idx as int, idx as int),
                ),
                terminations@ == spec_terminations(
                    events@.subrange(next_idx as int, idx as int),
                ),
            decreases events@.len() - idx,
        {
            let event = events[idx];
            let t = self.apply_event(&event);
            if let Some(term) = t {
                terminations.push(term);
            }
            proof {
                assert(events@.subrange(next_idx as int, idx as int + 1) =~= events@.subrange(
                    next_idx as int,
                    idx as int,
                ).push(event));
                lemma_apply_events_snoc(
                    old(self)@,
                    events@.subrange(next_idx as int, idx as int),
                    event,
                );
                lemma_terminations_snoc(
                    events@.subrange(next_idx as int, idx as int),
                    event,
                );
            }
            idx = idx + 1;
        }
        let cap: u32 = if (block_start as u64) + (MAX_BLOCK_SIZE as u64) <= (total_samples as u64) {
            block_start + MAX_BLOCK_SIZE
        } else {
            total_samples
        };
        let end: u32 = if idx < events.len() {
            let t = events[idx].timing();
            if t < cap {
                t
            } else {
                cap
            }
        } else {
            cap
        };
        proof {
            assert forall|k: int|
                0 <= k < events@.len() implies event_timing(#[trigger] events@[k]) <= block_start
                || event_timing(events@[k]) >= end by {
                if k >= idx {
                    assert(event_timing(events@[idx as int]) <= event_timing(events@[k]));
                }
            }
        }
        (SubBlock { start: block_start, end }, idx, terminations)
    }
}

} // verus!
