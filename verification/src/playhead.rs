//! The arithmetic of the playhead: how far one output frame moves it, where a
//! beat ends, and what a run of frames does to it.
use crate::units::{HALF_SAMPLE, SECONDS_PER_MINUTE, UNITS_PER_BPM, UNITS_PER_SAMPLE};
use vstd::arithmetic::div_mod::lemma_div_is_ordered_by_denominator;
use vstd::arithmetic::div_mod::lemma_fundamental_div_mod;
use vstd::arithmetic::div_mod::lemma_fundamental_div_mod_converse;
use vstd::prelude::*;

verus! {

/// One reading of the shared parameters, as a frame sees them.
#[derive(Clone, Copy, Debug, PartialEq, Eq)]
pub struct Controls {
    pub playing: bool,
    /// Thousandths of full volume.
    pub volume: u64,
    /// Thousandths of a beat per minute.
    pub bpm: u64,
}

/// Where the engine stands between two frames.
#[derive(Clone, Copy, Debug, PartialEq, Eq)]
pub struct Cursor {
    /// The playhead, in playhead units of the source waveform.
    pub position: u128,
    /// Whether the frame before this one was played.
    pub was_playing: bool,
}

/// What one frame does.
#[derive(Clone, Copy, Debug, PartialEq, Eq)]
pub struct Frame {
    /// The cursor after the frame.
    pub cursor: Cursor,
    /// The index of the sample to emit, if the frame emits one.
    pub sample: Option<usize>,
    /// Whether the playhead passed the end of a beat.
    pub tick: bool,
}

/// The playhead units that one output frame covers: the source rate over the
/// output rate, rounded down to a playhead unit.
pub open spec fn increment_spec(source_rate: u32, output_rate: u32) -> u64 {
    (source_rate as int * UNITS_PER_SAMPLE as int / output_rate as int) as u64
}

/// The length of one beat in playhead units: sixty times the source rate over
/// the tempo, rounded down to a playhead unit. A tempo of zero has no beat.
pub open spec fn cycle_length_spec(source_rate: u32, bpm: u64) -> Option<u128> {
    if bpm == 0 {
        None
    } else {
        Some(
            (source_rate as int * SECONDS_PER_MINUTE as int * UNITS_PER_BPM as int
                * UNITS_PER_SAMPLE as int / bpm as int) as u128,
        )
    }
}

/// The whole sample nearest to a position, halves rounded up.
pub open spec fn nearest_sample_spec(position: u128) -> u128 {
    ((position as int + HALF_SAMPLE as int) / UNITS_PER_SAMPLE as int) as u128
}

/// A position moved on by one increment. Past the end of the beat it starts
/// over with what is left and reports a tick. A position that leaves the
/// range of the type stays at its maximum.
pub open spec fn advance_spec(position: u128, inc: u64, cycle: Option<u128>) -> (u128, bool) {
    let sum = if position + inc > u128::MAX {
        u128::MAX
    } else {
        (position + inc) as u128
    };
    if cycle is Some && sum >= cycle->0 {
        ((sum - cycle->0) as u128, true)
    } else {
        (sum, false)
    }
}

/// The increment and the length of a beat are the exact quotients, rounded
/// down: neither leaves the range of its type.
pub proof fn quotients_are_exact(source_rate: u32, output_rate: u32, bpm: u64)
    requires
        output_rate > 0,
        bpm > 0,
    ensures
        increment_spec(source_rate, output_rate) as int == source_rate as int
            * UNITS_PER_SAMPLE as int / output_rate as int,
        cycle_length_spec(source_rate, bpm)->0 as int == source_rate as int
            * SECONDS_PER_MINUTE as int * UNITS_PER_BPM as int * UNITS_PER_SAMPLE as int
            / bpm as int,
{
    let scaled = source_rate as int * UNITS_PER_SAMPLE as int;
    let minute = source_rate as int * SECONDS_PER_MINUTE as int * UNITS_PER_BPM as int
        * UNITS_PER_SAMPLE as int;
    assert(0 <= scaled / (output_rate as int) <= scaled) by (nonlinear_arith)
        requires
            scaled >= 0,
            output_rate >= 1,
    ;
    assert(0 <= minute / (bpm as int) <= minute) by (nonlinear_arith)
        requires
            minute >= 0,
            bpm >= 1,
    ;
}

/// Computes the playhead units that one output frame covers.
#[verifier::when_used_as_spec(increment_spec)]
pub fn increment(source_rate: u32, output_rate: u32) -> (inc: u64)
    requires
        output_rate > 0,
    ensures
        inc == increment_spec(source_rate, output_rate),
        inc as int == source_rate as int * UNITS_PER_SAMPLE as int / output_rate as int,
{
    let scaled: u128 = source_rate as u128 * UNITS_PER_SAMPLE;
    proof {
        quotients_are_exact(source_rate, output_rate, 1);
    }
    (scaled / (output_rate as u128)) as u64
}

/// Computes the length of one beat in playhead units.
#[verifier::when_used_as_spec(cycle_length_spec)]
pub fn cycle_length(source_rate: u32, bpm: u64) -> (cycle: Option<u128>)
    ensures
        cycle == cycle_length_spec(source_rate, bpm),
        cycle is Some <==> bpm > 0,
        bpm > 0 ==> cycle->0 as int == source_rate as int * SECONDS_PER_MINUTE as int
            * UNITS_PER_BPM as int * UNITS_PER_SAMPLE as int / bpm as int,
{
    if bpm == 0 {
        None
    } else {
        let per_minute: u128 = SECONDS_PER_MINUTE as u128;
        let per_bpm: u128 = UNITS_PER_BPM as u128;
        let minute: u128 = source_rate as u128 * per_minute * per_bpm * UNITS_PER_SAMPLE;
        proof {
            quotients_are_exact(source_rate, 1, bpm);
        }
        Some(minute / (bpm as u128))
    }
}

/// Rounds a position to the nearest whole sample.
#[verifier::when_used_as_spec(nearest_sample_spec)]
pub fn nearest_sample(position: u128) -> (index: u128)
    ensures
        index == nearest_sample_spec(position),
{
    let whole: u128 = position / UNITS_PER_SAMPLE;
    if position % UNITS_PER_SAMPLE >= HALF_SAMPLE {
        whole + 1
    } else {
        whole
    }
}

/// Moves a position on by one increment and wraps it at the end of the beat.
#[verifier::when_used_as_spec(advance_spec)]
pub fn advance(position: u128, inc: u64, cycle: Option<u128>) -> (moved: (u128, bool))
    ensures
        moved == advance_spec(position, inc, cycle),
{
    let sum: u128 = position.saturating_add(inc as u128);
    match cycle {
        Some(len) => {
            if sum >= len {
                (sum - len, true)
            } else {
                (sum, false)
            }
        },
        None => (sum, false),
    }
}

impl Cursor {
    /// The index of the sample that a frame emits: the one nearest to the
    /// playhead, if playback is on and the buffer reaches that far.
    pub open spec fn sample_spec(self, controls: Controls, buffer_len: nat) -> Option<usize> {
        if controls.playing && nearest_sample_spec(self.position) < buffer_len {
            Some(nearest_sample_spec(self.position) as usize)
        } else {
            None
        }
    }

    /// Whether a frame passes the end of a beat.
    pub open spec fn tick_spec(self, controls: Controls, source_rate: u32, output_rate: u32) -> bool {
        controls.playing && advance_spec(
            self.position,
            increment_spec(source_rate, output_rate),
            cycle_length_spec(source_rate, controls.bpm),
        ).1
    }

    /// The cursor after a frame. While playback is on the playhead moves by
    /// one increment, under the tempo read for this very frame. The frame on
    /// which playback is found switched off puts the playhead back to zero;
    /// later frames leave it there.
    pub open spec fn next_spec(self, controls: Controls, source_rate: u32, output_rate: u32) -> Cursor {
        if controls.playing {
            Cursor {
                position: advance_spec(
                    self.position,
                    increment_spec(source_rate, output_rate),
                    cycle_length_spec(source_rate, controls.bpm),
                ).0,
                was_playing: true,
            }
        } else if self.was_playing {
            Cursor { position: 0, was_playing: false }
        } else {
            self
        }
    }

    /// Everything that one frame does.
    pub open spec fn step_spec(
        self,
        controls: Controls,
        buffer_len: usize,
        source_rate: u32,
        output_rate: u32,
    ) -> Frame {
        Frame {
            cursor: self.next_spec(controls, source_rate, output_rate),
            sample: self.sample_spec(controls, buffer_len as nat),
            tick: self.tick_spec(controls, source_rate, output_rate),
        }
    }

    /// Runs one frame: picks the sample to emit, moves the playhead and
    /// reports whether a beat ended.
    #[verifier::when_used_as_spec(step_spec)]
    pub fn step(
        self,
        controls: Controls,
        buffer_len: usize,
        source_rate: u32,
        output_rate: u32,
    ) -> (frame: Frame)
        requires
            output_rate > 0,
        ensures
            frame == self.step_spec(controls, buffer_len, source_rate, output_rate),
    {
        if !controls.playing {
            let position: u128 = if self.was_playing {
                0
            } else {
                self.position
            };
            return Frame {
                cursor: Cursor { position, was_playing: false },
                sample: None,
                tick: false,
            };
        }
        let index: u128 = nearest_sample(self.position);
        let sample: Option<usize> = if index < buffer_len as u128 {
            Some(index as usize)
        } else {
            None
        };
        let inc: u64 = increment(source_rate, output_rate);
        let cycle: Option<u128> = cycle_length(source_rate, controls.bpm);
        let moved: (u128, bool) = advance(self.position, inc, cycle);
        Frame { cursor: Cursor { position: moved.0, was_playing: true }, sample, tick: moved.1 }
    }
}

/// The cursor after the first `frames` readings of `controls`.
pub open spec fn cursor_after(
    start: Cursor,
    controls: Seq<Controls>,
    frames: nat,
    source_rate: u32,
    output_rate: u32,
) -> Cursor
    decreases frames,
{
    if frames == 0 {
        start
    } else {
        cursor_after(start, controls, (frames - 1) as nat, source_rate, output_rate).next_spec(
            controls[frames - 1],
            source_rate,
            output_rate,
        )
    }
}

/// The beats that end within the first `frames` readings of `controls`.
pub open spec fn ticks_after(
    start: Cursor,
    controls: Seq<Controls>,
    frames: nat,
    source_rate: u32,
    output_rate: u32,
) -> nat
    decreases frames,
{
    if frames == 0 {
        0
    } else {
        let earlier = ticks_after(start, controls, (frames - 1) as nat, source_rate, output_rate);
        let before = cursor_after(start, controls, (frames - 1) as nat, source_rate, output_rate);
        if before.tick_spec(controls[frames - 1], source_rate, output_rate) {
            earlier + 1
        } else {
            earlier
        }
    }
}

/// A run of frames depends on the readings it has used and on no later one.
pub proof fn run_ignores_later_readings(
    start: Cursor,
    first: Seq<Controls>,
    second: Seq<Controls>,
    frames: nat,
    source_rate: u32,
    output_rate: u32,
)
    requires
        frames <= first.len(),
        frames <= second.len(),
        forall|i: int| 0 <= i < frames ==> first[i] == second[i],
    ensures
        cursor_after(start, first, frames, source_rate, output_rate) == cursor_after(
            start,
            second,
            frames,
            source_rate,
            output_rate,
        ),
        ticks_after(start, first, frames, source_rate, output_rate) == ticks_after(
            start,
            second,
            frames,
            source_rate,
            output_rate,
        ),
    decreases frames,
{
    if frames > 0 {
        run_ignores_later_readings(
            start,
            first,
            second,
            (frames - 1) as nat,
            source_rate,
            output_rate,
        );
    }
}

/// Frames without playback end no beat. The first of them puts the playhead
/// of an engine that was playing back to zero, and that is all they do.
pub proof fn run_without_playback(
    start: Cursor,
    controls: Seq<Controls>,
    frames: nat,
    source_rate: u32,
    output_rate: u32,
)
    requires
        frames <= controls.len(),
        forall|i: int| 0 <= i < frames ==> !controls[i].playing,
    ensures
        ticks_after(start, controls, frames, source_rate, output_rate) == 0,
        cursor_after(start, controls, frames, source_rate, output_rate) == if start.was_playing
            && frames > 0 {
            Cursor { position: 0, was_playing: false }
        } else {
            start
        },
    decreases frames,
{
    if frames > 0 {
        run_without_playback(start, controls, (frames - 1) as nat, source_rate, output_rate);
    }
}

/// While the tempo stands still and no frame covers more than a beat, a
/// playhead that is inside the beat stays inside it.
pub proof fn playhead_stays_in_cycle(
    cursor: Cursor,
    controls: Controls,
    source_rate: u32,
    output_rate: u32,
)
    requires
        output_rate > 0,
        controls.playing,
        controls.bpm > 0,
        cursor.position < cycle_length_spec(source_rate, controls.bpm)->0,
        increment_spec(source_rate, output_rate) <= cycle_length_spec(source_rate, controls.bpm)->0,
    ensures
        cursor.next_spec(controls, source_rate, output_rate).position < cycle_length_spec(
            source_rate,
            controls.bpm,
        )->0,
{
}

/// The tempo law. Take a positive tempo, a playhead inside the beat and
/// frames that cover no more than a beat each. After `frames` frames of
/// playback at that tempo the playhead has moved by that many increments
/// modulo the length of the beat, and as many beats have ended as that
/// distance holds whole beats.
pub proof fn steady_tempo(
    start: Cursor,
    controls: Seq<Controls>,
    frames: nat,
    bpm: u64,
    source_rate: u32,
    output_rate: u32,
)
    requires
        output_rate > 0,
        bpm > 0,
        frames <= controls.len(),
        forall|i: int| 0 <= i < frames ==> controls[i].playing && controls[i].bpm == bpm,
        start.position < cycle_length_spec(source_rate, bpm)->0,
        increment_spec(source_rate, output_rate) <= cycle_length_spec(source_rate, bpm)->0,
    ensures
        cursor_after(start, controls, frames, source_rate, output_rate).position == (start.position
            + frames * increment_spec(source_rate, output_rate)) % (cycle_length_spec(
            source_rate,
            bpm,
        )->0 as int),
        ticks_after(start, controls, frames, source_rate, output_rate) == (start.position + frames
            * increment_spec(source_rate, output_rate)) / (cycle_length_spec(
            source_rate,
            bpm,
        )->0 as int),
        frames > 0 ==> cursor_after(start, controls, frames, source_rate, output_rate).was_playing,
    decreases frames,
{
    let inc = increment_spec(source_rate, output_rate) as int;
    let cycle = cycle_length_spec(source_rate, bpm)->0 as int;
    if frames == 0 {
        lemma_fundamental_div_mod_converse(start.position as int, cycle, 0, start.position as int);
    } else {
        let earlier = (frames - 1) as nat;
        steady_tempo(start, controls, earlier, bpm, source_rate, output_rate);
        let before = cursor_after(start, controls, earlier, source_rate, output_rate);
        let count = ticks_after(start, controls, earlier, source_rate, output_rate) as int;
        let travelled = start.position + earlier * inc;
        lemma_fundamental_div_mod(travelled, cycle);
        assert(travelled == cycle * count + before.position);
        assert(start.position + frames * inc == travelled + inc) by (nonlinear_arith)
            requires
                travelled == start.position + earlier * inc,
                frames == earlier + 1,
        ;
        let sum = before.position + inc;
        if sum >= cycle {
            assert(travelled + inc == (count + 1) * cycle + (sum - cycle)) by (nonlinear_arith)
                requires
                    travelled == cycle * count + before.position,
                    sum == before.position + inc,
            ;
            lemma_fundamental_div_mod_converse(travelled + inc, cycle, count + 1, sum - cycle);
        } else {
            assert(travelled + inc == count * cycle + sum) by (nonlinear_arith)
                requires
                    travelled == cycle * count + before.position,
                    sum == before.position + inc,
            ;
            lemma_fundamental_div_mod_converse(travelled + inc, cycle, count, sum);
        }
    }
}

/// A change of tempo takes effect with the frame that reads it and looks
/// neither back nor ahead: the frame ends a beat exactly when the playhead,
/// moved by one increment, reaches the length of a beat at the tempo just
/// read. So a playhead that a slower tempo finds inside the old beat goes on
/// without a tick.
pub proof fn slower_tempo_ticks_no_earlier(
    cursor: Cursor,
    old_bpm: u64,
    controls: Controls,
    source_rate: u32,
    output_rate: u32,
)
    requires
        output_rate > 0,
        controls.playing,
        0 < controls.bpm <= old_bpm,
        cursor.position + increment_spec(source_rate, output_rate) < cycle_length_spec(
            source_rate,
            old_bpm,
        )->0,
    ensures
        cycle_length_spec(source_rate, old_bpm)->0 <= cycle_length_spec(
            source_rate,
            controls.bpm,
        )->0,
        !cursor.tick_spec(controls, source_rate, output_rate),
        cursor.next_spec(controls, source_rate, output_rate).position == cursor.position
            + increment_spec(source_rate, output_rate),
{
    let minute = source_rate as int * SECONDS_PER_MINUTE as int * UNITS_PER_BPM as int
        * UNITS_PER_SAMPLE as int;
    lemma_div_is_ordered_by_denominator(minute, controls.bpm as int, old_bpm as int);
    quotients_are_exact(source_rate, output_rate, controls.bpm);
    quotients_are_exact(source_rate, output_rate, old_bpm);
}

/// Playback that stays switched on never puts the playhead back: a played
/// frame moves on from where the frame before it left off, whether or not
/// that frame was played too.
pub proof fn playing_twice_keeps_playhead(
    cursor: Cursor,
    first: Controls,
    second: Controls,
    source_rate: u32,
    output_rate: u32,
)
    requires
        output_rate > 0,
        first.playing,
        second.playing,
    ensures
        ({
            let middle = cursor.next_spec(first, source_rate, output_rate);
            let last = middle.next_spec(second, source_rate, output_rate);
            &&& middle.position == advance_spec(
                cursor.position,
                increment_spec(source_rate, output_rate),
                cycle_length_spec(source_rate, first.bpm),
            ).0
            &&& last.position == advance_spec(
                middle.position,
                increment_spec(source_rate, output_rate),
                cycle_length_spec(source_rate, second.bpm),
            ).0
            &&& middle.was_playing && last.was_playing
        }),
{
}

/// Switching playback off and on again puts the playhead back to exactly
/// zero, and does so on the frame that finds it off: further frames without
/// playback change nothing, and the frame that finds it on again starts from
/// zero.
pub proof fn stop_resets_playhead_once(
    cursor: Cursor,
    off: Controls,
    still_off: Controls,
    on: Controls,
    source_rate: u32,
    output_rate: u32,
)
    requires
        output_rate > 0,
        cursor.was_playing,
        !off.playing,
        !still_off.playing,
        on.playing,
    ensures
        ({
            let stopped = cursor.next_spec(off, source_rate, output_rate);
            let resumed = stopped.next_spec(on, source_rate, output_rate);
            &&& stopped == (Cursor { position: 0, was_playing: false })
            &&& stopped.next_spec(still_off, source_rate, output_rate) == stopped
            &&& resumed.was_playing
            &&& resumed.position == advance_spec(
                0,
                increment_spec(source_rate, output_rate),
                cycle_length_spec(source_rate, on.bpm),
            ).0
        }),
{
}

} // verus!
