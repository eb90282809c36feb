//! The frame timeline of the Death Stab skill effect: which cues fire as
//! its life counter runs down, and the pairing of lightning anchors.
use vstd::prelude::*;

verus! {

/// Life frame at which the sword sound plays.
pub const DEATH_STAB_SOUND_LIFE_INT: i32 = 12;

/// Life frame at which the target is struck by lightning.
pub const DEATH_STAB_IMPACT_LIFE_INT: i32 = 10;

/// First and last life frame of the energy charge phase.
pub const DEATH_STAB_ENERGY_WINDOW_MIN: i32 = 12;

pub const DEATH_STAB_ENERGY_WINDOW_MAX: i32 = 18;

/// First and last life frame of the spike phase.
pub const DEATH_STAB_SPIKE_WINDOW_MIN: i32 = 8;

pub const DEATH_STAB_SPIKE_WINDOW_MAX: i32 = 14;

/// Most lightning arcs alive at once for one struck target.
pub const DEATH_STAB_MAX_ACTIVE_LIGHTNING_ARCS: usize = 12;

/// What the timeline remembers between updates: the last whole life frame
/// handled, and whether the one-time cues have fired.
#[derive(Debug, Clone, Copy, PartialEq, Eq, Structural)]
pub struct DeathStabFrameState {
    pub last_processed_life_int: i32,
    pub sound_played: bool,
    pub impact_applied: bool,
}

/// The cues of one whole life frame.
#[derive(Debug, Clone, Copy, PartialEq, Eq, Structural)]
pub struct DeathStabFrameEvents {
    /// The life frame.
    pub life: i32,
    /// The sword sound plays now.
    pub play_sound: bool,
    /// The frame is in the energy charge phase, so energy particles may
    /// spawn.
    pub energy_window: bool,
    /// In the spike phase, how many frames into it: spikes spawn that many
    /// steps further ahead.
    pub spike_step: Option<i32>,
    /// The target is struck now.
    pub impact: bool,
}

/// Whether the charge light shines at a life frame: from the start of the
/// spike phase to the end of the charge phase.
pub open spec fn spec_charge_light_active(life_int: i32) -> bool {
    DEATH_STAB_SPIKE_WINDOW_MIN <= life_int <= DEATH_STAB_ENERGY_WINDOW_MAX
}

/// Whether the charge light is on; see [`spec_charge_light_active`].
pub fn charge_light_active(life_int: i32) -> (r: bool)
    ensures
        r == spec_charge_light_active(life_int),
{
    DEATH_STAB_SPIKE_WINDOW_MIN <= life_int && life_int <= DEATH_STAB_ENERGY_WINDOW_MAX
}

/// The cues of life frame `life` given the state before it, and the state
/// after it.
pub open spec fn spec_frame(state: DeathStabFrameState, life: i32) -> (
    DeathStabFrameEvents,
    DeathStabFrameState,
) {
    let play_sound = life == DEATH_STAB_SOUND_LIFE_INT && !state.sound_played;
    let impact = life == DEATH_STAB_IMPACT_LIFE_INT && !state.impact_applied;
    let events = DeathStabFrameEvents {
        life,
        play_sound,
        energy_window: DEATH_STAB_ENERGY_WINDOW_MIN <= life <= DEATH_STAB_ENERGY_WINDOW_MAX,
        spike_step: if DEATH_STAB_SPIKE_WINDOW_MIN <= life <= DEATH_STAB_SPIKE_WINDOW_MAX {
            Some((DEATH_STAB_SPIKE_WINDOW_MAX - life) as i32)
        } else {
            None
        },
        impact,
    };
    let next = DeathStabFrameState {
        last_processed_life_int: life,
        sound_played: state.sound_played || play_sound,
        impact_applied: state.impact_applied || impact,
    };
    (events, next)
}

/// Every whole life frame from the one below the last handled down to
/// `life_int`, with its cues, and the state afterwards.
pub open spec fn spec_frames_until(state: DeathStabFrameState, life_int: i32) -> (
    Seq<DeathStabFrameEvents>,
    DeathStabFrameState,
)
    decreases state.last_processed_life_int - life_int,
{
    if state.last_processed_life_int <= life_int {
        (Seq::empty(), state)
    } else {
        let (events, next) = spec_frame(state, (state.last_processed_life_int - 1) as i32);
        let (rest, last) = spec_frames_until(next, life_int);
        (seq![events] + rest, last)
    }
}

fn frame(state: &mut DeathStabFrameState, life: i32) -> (r: DeathStabFrameEvents)
    ensures
        (r, *final(state)) == spec_frame(*old(state), life),
{
    let play_sound = life == DEATH_STAB_SOUND_LIFE_INT && !state.sound_played;
    let impact = life == DEATH_STAB_IMPACT_LIFE_INT && !state.impact_applied;
    let spike_step = if DEATH_STAB_SPIKE_WINDOW_MIN <= life && life <= DEATH_STAB_SPIKE_WINDOW_MAX {
        Some(DEATH_STAB_SPIKE_WINDOW_MAX - life)
    } else {
        None
    };
    let events = DeathStabFrameEvents {
        life,
        play_sound,
        energy_window: DEATH_STAB_ENERGY_WINDOW_MIN <= life && life <= DEATH_STAB_ENERGY_WINDOW_MAX,
        spike_step,
        impact,
    };
    state.last_processed_life_int = life;
    state.sound_played = state.sound_played || play_sound;
    state.impact_applied = state.impact_applied || impact;
    events
}

/// Runs the timeline down to the whole life frame `life_int`, returning the
/// cues of every frame passed; see [`spec_frames_until`].
pub fn advance_death_stab_frames(state: &mut DeathStabFrameState, life_int: i32) -> (r: Vec<
    DeathStabFrameEvents,
>)
    ensures
        (r@, *final(state)) == spec_frames_until(*old(state), life_int),
{
    let ghost start = *state;
    let mut events: Vec<DeathStabFrameEvents> = Vec::new();
    while state.last_processed_life_int > life_int
        invariant
            spec_frames_until(start, life_int) == (
                events@ + spec_frames_until(*state, life_int).0,
                spec_frames_until(*state, life_int).1,
            ),
        decreases state.last_processed_life_int - life_int,
    {
        let life = state.last_processed_life_int - 1;
        let ghost before = *state;
        let e = frame(state, life);
        let ghost prefix = events@;
        events.push(e);
        proof {
            let rest = spec_frames_until(*state, life_int).0;
            assert(prefix + (seq![e] + rest) =~= events@ + rest);
        }
    }
    proof {
        assert(events@ + Seq::<DeathStabFrameEvents>::empty() =~= events@);
    }
    events
}

/// Number of frames in `events` that strike the target.
pub open spec fn impact_count(events: Seq<DeathStabFrameEvents>) -> nat
    decreases events.len(),
{
    if events.len() == 0 {
        0
    } else {
        impact_count(events.drop_last()) + if events.last().impact {
            1nat
        } else {
            0nat
        }
    }
}

/// Number of frames in `events` that play the sound.
pub open spec fn sound_count(events: Seq<DeathStabFrameEvents>) -> nat
    decreases events.len(),
{
    if events.len() == 0 {
        0
    } else {
        sound_count(events.drop_last()) + if events.last().play_sound {
            1nat
        } else {
            0nat
        }
    }
}

proof fn lemma_counts_prepend(e: DeathStabFrameEvents, rest: Seq<DeathStabFrameEvents>)
    ensures
        impact_count(seq![e] + rest) == impact_count(rest) + if e.impact {
            1nat
        } else {
            0nat
        },
        sound_count(seq![e] + rest) == sound_count(rest) + if e.play_sound {
            1nat
        } else {
            0nat
        },
    decreases rest.len(),
{
    let all = seq![e] + rest;
    if rest.len() == 0 {
        assert(all.drop_last() =~= Seq::<DeathStabFrameEvents>::empty());
        assert(all.last() == e);
        assert(impact_count(all.drop_last()) == 0);
        assert(sound_count(all.drop_last()) == 0);
        assert(impact_count(rest) == 0);
        assert(sound_count(rest) == 0);
    } else {
        lemma_counts_prepend(e, rest.drop_last());
        assert(all.drop_last() =~= seq![e] + rest.drop_last());
        assert(all.last() == rest.last());
    }
}

/// The strike and the sound are one-time cues: running the timeline down
/// to any frame strikes the target once exactly when frame 10 is passed
/// and it was not struck before, and never more than once; the same holds
/// of the sound at frame 12. Afterwards the state remembers whether each
/// has fired.
pub proof fn lemma_one_time_cues(state: DeathStabFrameState, life_int: i32)
    ensures
        ({
            let (events, last) = spec_frames_until(state, life_int);
            let passes_impact = life_int <= DEATH_STAB_IMPACT_LIFE_INT
                < state.last_processed_life_int;
            let passes_sound = life_int <= DEATH_STAB_SOUND_LIFE_INT
                < state.last_processed_life_int;
            &&& impact_count(events) == if passes_impact && !state.impact_applied {
                1nat
            } else {
                0nat
            }
            &&& sound_count(events) == if passes_sound && !state.sound_played {
                1nat
            } else {
                0nat
            }
            &&& last.impact_applied == (state.impact_applied || passes_impact)
            &&& last.sound_played == (state.sound_played || passes_sound)
        }),
    decreases state.last_processed_life_int - life_int,
{
    if state.last_processed_life_int > life_int {
        let (e, next) = spec_frame(state, (state.last_processed_life_int - 1) as i32);
        lemma_one_time_cues(next, life_int);
        let rest = spec_frames_until(next, life_int).0;
        lemma_counts_prepend(e, rest);
    }
}

/// Two anchor indices for one lightning arc: the drawn ones, with the
/// second moved on by one (wrapping) where both are the same.
pub open spec fn spec_distinct_anchor_pair(first: usize, second: usize, count: usize) -> (
    usize,
    usize,
) {
    if first == second {
        (first, ((second + 1) % (count as int)) as usize)
    } else {
        (first, second)
    }
}

/// Draws apart the two anchors of an arc; see [`spec_distinct_anchor_pair`].
pub fn distinct_anchor_pair(first: usize, second: usize, count: usize) -> (r: (usize, usize))
    requires
        first < count,
        second < count,
    ensures
        r == spec_distinct_anchor_pair(first, second, count),
{
    if first == second {
        (first, (second + 1) % count)
    } else {
        (first, second)
    }
}

/// An arc never joins an anchor to itself where there are at least two
/// anchors, and both of its ends are anchors.
pub proof fn lemma_anchor_pair_distinct(first: usize, second: usize, count: usize)
    requires
        count >= 2,
        first < count,
        second < count,
    ensures
        spec_distinct_anchor_pair(first, second, count).0 != spec_distinct_anchor_pair(
            first,
            second,
            count,
        ).1,
        spec_distinct_anchor_pair(first, second, count).0 < count,
        spec_distinct_anchor_pair(first, second, count).1 < count,
{
    if first == second {
        if second + 1 < count {
            vstd::arithmetic::div_mod::lemma_small_mod((second + 1) as nat, count as nat);
        } else {
            vstd::arithmetic::div_mod::lemma_mod_self_0(count as int);
        }
    }
}

/// How many of a target's oldest arcs give way so that `new_arcs` more fit
/// under the cap of twelve.
pub open spec fn spec_arc_overflow(active: usize, new_arcs: usize) -> usize {
    let total: int = if active + new_arcs > usize::MAX {
        usize::MAX as int
    } else {
        active + new_arcs
    };
    if total > DEATH_STAB_MAX_ACTIVE_LIGHTNING_ARCS {
        (total - DEATH_STAB_MAX_ACTIVE_LIGHTNING_ARCS) as usize
    } else {
        0
    }
}

/// How many of the oldest arcs must go; see [`spec_arc_overflow`].
pub fn arc_overflow(active: usize, new_arcs: usize) -> (r: usize)
    ensures
        r == spec_arc_overflow(active, new_arcs),
{
    active.saturating_add(new_arcs).saturating_sub(DEATH_STAB_MAX_ACTIVE_LIGHTNING_ARCS)
}

} // verus!
