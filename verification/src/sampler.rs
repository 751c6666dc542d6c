//! The playback engine: it owns the sample buffer and the playhead, reads
//! the shared parameters once per frame and reports every beat.
use crate::click::DEFAULT_CLICK;
use crate::units::FULL_VOLUME;
use crate::playhead::{
    cursor_after, nearest_sample_spec, run_ignores_later_readings, run_without_playback,
    ticks_after, Controls, Cursor,
};
use crate::waveform::{
    bits_view, decode, decoded, unsupported_depth, Sample, SamplerError, WaveSpec,
};
use std::sync::atomic::{AtomicBool, AtomicU64, Ordering};
use std::sync::mpsc::Sender;
use std::sync::Arc;
use vstd::arithmetic::div_mod::lemma_fundamental_div_mod;
use vstd::arithmetic::div_mod::lemma_fundamental_div_mod_converse;
use vstd::prelude::*;

verus! {

/// The parameters that the engine shares with the threads that control it.
/// Each field is a cell of its own: a reader sees, for each one, the value
/// of the last store that was completed, and no two fields are read or
/// written as one.
#[derive(Debug)]
pub struct SamplerParam {
    /// The tempo in thousandths of a beat per minute.
    pub bpm: AtomicU64,
    pub playing: AtomicBool,
    /// The volume in thousandths of full volume.
    pub volume: AtomicU64,
}

/// What the engine reports to its listener.
#[derive(Clone, Copy, Debug, PartialEq, Eq)]
pub enum SamplerEvent {
    Tick,
}

/// A tick that no listener took.
#[derive(Clone, Copy, Debug, PartialEq, Eq)]
pub struct Undelivered;

/// What a slot of the output carries once a frame was written to it: the
/// sample to play and the volume to play it at, in thousandths.
#[derive(Clone, Copy, Debug, PartialEq, Eq)]
pub struct Level {
    pub sample: Sample,
    pub volume: u64,
}

#[verifier::external_type_specification]
#[verifier::external_body]
#[verifier::reject_recursive_types(T)]
pub struct ExSender<T>(Sender<T>);

/// `std::sync::mpsc::Sender::send`, which never blocks. Whether the event
/// is taken depends on the receiving end: nothing is claimed of the answer.
#[verifier::external_body]
fn send_event(sender: &Sender<SamplerEvent>, event: SamplerEvent) -> (delivered: bool) {
    sender.send(event).is_ok()
}

impl Level {
    /// The level of an integer sample as one fraction: the sample times the
    /// volume, numerator over denominator.
    pub open spec fn fraction_spec(self) -> Option<(i128, i128)> {
        match self.sample {
            Sample::Pcm { value, full_scale } => Some(
                ((value * self.volume) as i128, (full_scale * FULL_VOLUME) as i128),
            ),
            Sample::Float { .. } => None,
        }
    }

    /// Multiplies an integer sample by the volume, exactly. Of a bit pattern
    /// no product is formed.
    #[verifier::when_used_as_spec(fraction_spec)]
    pub fn fraction(self) -> (r: Option<(i128, i128)>)
        ensures
            r == self.fraction_spec(),
    {
        match self.sample {
            Sample::Pcm { value, full_scale } => {
                let volume: i128 = self.volume as i128;
                let unit: i128 = FULL_VOLUME as i128;
                assert(-0x8000_0000 * volume <= value * volume <= 0x8000_0000 * volume)
                    by (nonlinear_arith)
                    requires
                        -0x8000_0000 <= value <= 0x8000_0000,
                        volume >= 0,
                ;
                Some((value as i128 * volume, full_scale as i128 * unit))
            },
            Sample::Float { .. } => None,
        }
    }
}

impl SamplerParam {
    /// A set of parameters that starts with the given values.
    pub fn new(bpm: u64, playing: bool, volume: u64) -> (param: SamplerParam) {
        SamplerParam {
            bpm: AtomicU64::new(bpm),
            playing: AtomicBool::new(playing),
            volume: AtomicU64::new(volume),
        }
    }

    /// Reads the parameters as one frame needs them: the playing flag
    /// first, then, only while playback is on, the volume and the tempo.
    /// Other threads may store at any time, so nothing is known of what is
    /// read.
    pub fn observe(&self) -> (controls: Controls)
        ensures
            !controls.playing ==> controls.volume == 0 && controls.bpm == 0,
    {
        if self.playing.load(Ordering::Relaxed) {
            let volume: u64 = self.volume.load(Ordering::Relaxed);
            let bpm: u64 = self.bpm.load(Ordering::Relaxed);
            Controls { playing: true, volume, bpm }
        } else {
            Controls { playing: false, volume: 0, bpm: 0 }
        }
    }
}

/// The engine.
#[derive(Debug)]
pub struct Sampler {
    samples: Vec<Sample>,
    n_channels: u16,
    sample_rate: u32,
    param: Arc<SamplerParam>,
    sender: Option<Sender<SamplerEvent>>,
    playhead: u128,
    was_playing: bool,
}

/// The engine as contracts see it.
pub struct SamplerView {
    pub samples: Seq<Sample>,
    pub n_channels: u16,
    pub sample_rate: u32,
    pub cursor: Cursor,
}

impl View for Sampler {
    type V = SamplerView;

    closed spec fn view(&self) -> SamplerView {
        SamplerView {
            samples: self.samples@,
            n_channels: self.n_channels,
            sample_rate: self.sample_rate,
            cursor: Cursor { position: self.playhead, was_playing: self.was_playing },
        }
    }
}

/// The frames in an interleaved buffer: one for every `n_channels` slots,
/// and one more for what is left over.
pub open spec fn frame_count(slots: nat, n_channels: u16) -> nat {
    ((slots + n_channels - 1) / n_channels as int) as nat
}

/// The frame that a slot of an interleaved buffer belongs to.
pub open spec fn frame_of(slot: int, n_channels: u16) -> int {
    slot / n_channels as int
}

/// What a frame puts into its slots under a reading of the parameters: the
/// sample of the buffer that the playhead is nearest to, with the volume that
/// was read. A frame without playback emits nothing, and neither does one
/// whose playhead is past the end of the buffer.
pub open spec fn frame_level(view: SamplerView, controls: Controls) -> Option<Level> {
    match view.cursor.sample_spec(controls, view.samples.len()) {
        Some(index) => Some(
            Level { sample: view.samples[index as int], volume: controls.volume },
        ),
        None => None,
    }
}

/// A buffer after a frame has been written to the slots from `start` up to
/// `end`: each of them holds what the frame emits, if it emits anything, and
/// every other slot is as it was.
pub open spec fn with_frame(
    data: Seq<Option<Level>>,
    start: int,
    end: int,
    level: Option<Level>,
) -> Seq<Option<Level>> {
    Seq::new(
        data.len(),
        |slot: int|
            if start <= slot < end && level is Some {
                level
            } else {
                data[slot]
            },
    )
}

/// What a slot holds after the engine has written a buffer under the given
/// readings of the parameters, one for each frame: what the frame of the
/// slot emits, or what the slot held before if that frame emits nothing.
pub open spec fn slot_after(
    before: SamplerView,
    data: Seq<Option<Level>>,
    controls: Seq<Controls>,
    output_rate: u32,
    n_channels: u16,
    slot: int,
) -> Option<Level> {
    let frame = frame_of(slot, n_channels);
    let cursor = cursor_after(
        before.cursor,
        controls,
        frame as nat,
        before.sample_rate,
        output_rate,
    );
    match frame_level(SamplerView { cursor, ..before }, controls[frame]) {
        Some(level) => Some(level),
        None => data[slot],
    }
}

/// What `write` does under the given readings of the parameters.
pub open spec fn written(
    before: SamplerView,
    data: Seq<Option<Level>>,
    controls: Seq<Controls>,
    output_rate: u32,
    n_channels: u16,
    after: SamplerView,
    out: Seq<Option<Level>>,
    ticks: usize,
) -> bool {
    &&& controls.len() == frame_count(data.len(), n_channels)
    &&& after == (SamplerView {
        cursor: cursor_after(
            before.cursor,
            controls,
            controls.len(),
            before.sample_rate,
            output_rate,
        ),
        ..before
    })
    &&& ticks == ticks_after(
        before.cursor,
        controls,
        controls.len(),
        before.sample_rate,
        output_rate,
    )
    &&& out.len() == data.len()
    &&& forall|slot: int|
        0 <= slot < data.len() ==> #[trigger] out[slot] == slot_after(
            before,
            data,
            controls,
            output_rate,
            n_channels,
            slot,
        )
}

/// Every slot of a buffer belongs to one of its frames.
pub proof fn slot_has_a_frame(slots: nat, n_channels: u16, slot: int)
    requires
        n_channels > 0,
        0 <= slot < slots,
    ensures
        0 <= frame_of(slot, n_channels) < frame_count(slots, n_channels),
{
    let width = n_channels as int;
    let frame = slot / width;
    let frames = (slots + width - 1) / width;
    lemma_fundamental_div_mod(slot, width);
    lemma_fundamental_div_mod(slots + width - 1, width);
    assert(0 <= frame < frames) by (nonlinear_arith)
        requires
            width > 0,
            0 <= slot < slots,
            slot == width * frame + slot % width,
            0 <= slot % width < width,
            slots + width - 1 == width * frames + (slots + width - 1) % width,
            0 <= (slots + width - 1) % width < width,
    ;
}

/// A buffer written while playback is off throughout is left as it was, and
/// no beat ends. An engine that was playing has its playhead at exactly zero
/// afterwards and counts as stopped; one that was not is unchanged.
pub proof fn write_without_playback(
    before: SamplerView,
    data: Seq<Option<Level>>,
    controls: Seq<Controls>,
    output_rate: u32,
    n_channels: u16,
    after: SamplerView,
    out: Seq<Option<Level>>,
    ticks: usize,
)
    requires
        output_rate > 0,
        n_channels > 0,
        written(before, data, controls, output_rate, n_channels, after, out, ticks),
        forall|i: int| 0 <= i < controls.len() ==> !controls[i].playing,
    ensures
        ticks == 0,
        out == data,
        after.samples == before.samples,
        after.sample_rate == before.sample_rate,
        after.n_channels == before.n_channels,
        after.cursor == if before.cursor.was_playing && data.len() > 0 {
            Cursor { position: 0, was_playing: false }
        } else {
            before.cursor
        },
{
    run_without_playback(
        before.cursor,
        controls,
        controls.len(),
        before.sample_rate,
        output_rate,
    );
    assert forall|slot: int| 0 <= slot < data.len() implies out[slot] == data[slot] by {
        slot_has_a_frame(data.len(), n_channels, slot);
    }
    assert(out =~= data);
    if data.len() > 0 {
        slot_has_a_frame(data.len(), n_channels, 0);
    } else {
        assert(frame_count(0, n_channels) == 0) by {
            lemma_fundamental_div_mod_converse(
                n_channels as int - 1,
                n_channels as int,
                0,
                n_channels as int - 1,
            );
        }
    }
}

/// Volume scaling. In a buffer written while playback is on at one volume,
/// a slot whose frame finds the playhead inside the sample buffer holds the
/// sample nearest to the playhead together with that volume, whichever
/// channel the slot stands for; a slot whose frame finds the playhead past
/// the end of the buffer is as it was.
pub proof fn write_at_one_volume(
    before: SamplerView,
    data: Seq<Option<Level>>,
    controls: Seq<Controls>,
    output_rate: u32,
    n_channels: u16,
    after: SamplerView,
    out: Seq<Option<Level>>,
    ticks: usize,
    volume: u64,
    slot: int,
)
    requires
        output_rate > 0,
        n_channels > 0,
        written(before, data, controls, output_rate, n_channels, after, out, ticks),
        forall|i: int| 0 <= i < controls.len() ==> controls[i].playing && controls[i].volume == volume,
        before.samples.len() <= usize::MAX,
        0 <= slot < data.len(),
    ensures
        ({
            let cursor = cursor_after(
                before.cursor,
                controls,
                frame_of(slot, n_channels) as nat,
                before.sample_rate,
                output_rate,
            );
            let index = nearest_sample_spec(cursor.position);
            &&& index < before.samples.len() ==> out[slot] == Some(
                Level { sample: before.samples[index as int], volume },
            )
            &&& index >= before.samples.len() ==> out[slot] == data[slot]
        }),
{
    slot_has_a_frame(data.len(), n_channels, slot);
    assert(out[slot] == slot_after(before, data, controls, output_rate, n_channels, slot));
}

impl Sampler {
    /// The parameter set that the engine reads.
    pub closed spec fn parameters(&self) -> Arc<SamplerParam> {
        self.param
    }

    /// The listener that the engine reports to, if it has one.
    pub closed spec fn listener(&self) -> Option<Sender<SamplerEvent>> {
        self.sender
    }

    /// Whether the engine has a listener.
    pub open spec fn has_listener(&self) -> bool {
        self.listener() is Some
    }

    /// Builds an engine from samples that are decoded already. The playhead
    /// starts at zero and playback counts as off.
    pub fn from_samples(
        spec: WaveSpec,
        samples: Vec<Sample>,
        param: Arc<SamplerParam>,
        sender: Option<Sender<SamplerEvent>>,
    ) -> (sampler: Sampler)
        ensures
            sampler@ == (SamplerView {
                samples: samples@,
                n_channels: spec.channels,
                sample_rate: spec.sample_rate,
                cursor: Cursor { position: 0, was_playing: false },
            }),
            sampler.parameters() == param,
            sampler.listener() == sender,
    {
        Sampler {
            samples,
            n_channels: spec.channels,
            sample_rate: spec.sample_rate,
            param,
            sender,
            playhead: 0,
            was_playing: false,
        }
    }

    /// Builds an engine that plays the default click.
    pub fn new(param: Arc<SamplerParam>, sender: Option<Sender<SamplerEvent>>) -> (r: Result<
        Sampler,
        SamplerError,
    >)
        ensures
            match decoded(DEFAULT_CLICK@, None) {
                Ok((spec, samples)) => r is Ok && r->Ok_0@ == (SamplerView {
                    samples,
                    n_channels: spec.channels,
                    sample_rate: spec.sample_rate,
                    cursor: Cursor { position: 0, was_playing: false },
                }) && r->Ok_0.parameters() == param && r->Ok_0.listener() == sender,
                Err(e) => r is Err && r->Err_0 == e,
            },
    {
        let click: [u8; 172] = DEFAULT_CLICK;
        Sampler::from_reader(click.as_slice(), None, param, sender)
    }

    /// Decodes a waveform and builds an engine from it. The samples of a
    /// floating-point waveform are handed in as bit patterns, in the order
    /// in which the waveform stores them. A waveform that cannot be decoded
    /// gives no engine.
    pub fn from_reader(
        reader: &[u8],
        float_bits: Option<&[u32]>,
        param: Arc<SamplerParam>,
        sender: Option<Sender<SamplerEvent>>,
    ) -> (r: Result<Sampler, SamplerError>)
        ensures
            match decoded(reader@, bits_view(float_bits)) {
                Ok((spec, samples)) => r is Ok && r->Ok_0@ == (SamplerView {
                    samples,
                    n_channels: spec.channels,
                    sample_rate: spec.sample_rate,
                    cursor: Cursor { position: 0, was_playing: false },
                }) && r->Ok_0.parameters() == param && r->Ok_0.listener() == sender,
                Err(e) => r is Err && r->Err_0 == e,
            },
            unsupported_depth(reader@) ==> r is Err && r->Err_0
                == SamplerError::UnsupportedBitDepth,
    {
        let waveform = decode(reader, float_bits)?;
        Ok(Sampler::from_samples(waveform.spec, waveform.samples, param, sender))
    }

    /// Renders one frame into the slots from `start` up to `end`, under a
    /// reading of the parameters. A frame that plays puts its sample and the
    /// volume into each of these slots; a frame that plays nothing leaves
    /// them alone. Then the playhead moves on. The end of a beat is reported
    /// to the listener and to the caller; a tick that the listener does not
    /// take is dropped.
    pub fn write_frame(
        &mut self,
        data: &mut [Option<Level>],
        start: usize,
        end: usize,
        controls: Controls,
        sample_rate: u32,
    ) -> (tick: bool)
        requires
            sample_rate > 0,
            start <= end <= old(data).len(),
        ensures
            final(self)@ == (SamplerView {
                cursor: old(self)@.cursor.next_spec(controls, old(self)@.sample_rate, sample_rate),
                ..old(self)@
            }),
            final(data)@ == with_frame(
                old(data)@,
                start as int,
                end as int,
                frame_level(old(self)@, controls),
            ),
            tick == old(self)@.cursor.tick_spec(controls, old(self)@.sample_rate, sample_rate),
            final(self).parameters() == old(self).parameters(),
            final(self).listener() == old(self).listener(),
    {
        let cursor = Cursor { position: self.playhead, was_playing: self.was_playing };
        let frame = cursor.step(controls, self.samples.len(), self.sample_rate, sample_rate);
        if let Some(index) = frame.sample {
            let level = Level { sample: self.samples[index], volume: controls.volume };
            let mut slot: usize = start;
            while slot < end
                invariant
                    start <= slot <= end <= data.len(),
                    data.len() == old(data).len(),
                    forall|i: int| start <= i < slot ==> data[i] == Some(level),
                    forall|i: int|
                        0 <= i < data.len() && !(start <= i < slot) ==> data[i] == old(data)[i],
                decreases end - slot,
            {
                data[slot] = Some(level);
                slot += 1;
            }
        }
        self.playhead = frame.cursor.position;
        self.was_playing = frame.cursor.was_playing;
        if frame.tick {
            let _ = self.send_tick();
        }
        assert(data@ =~= with_frame(
            old(data)@,
            start as int,
            end as int,
            frame_level(old(self)@, controls),
        ));
        frame.tick
    }

    /// Renders one buffer of interleaved output, `n_channels` slots to a
    /// frame, for a stream of `sample_rate` frames per second. The
    /// parameters are read anew for every frame, and each frame is written
    /// as `write_frame` writes it, so that every channel carries the same
    /// signal. The result counts the beats that ended.
    ///
    /// What the frames read is known to nobody in advance: the contract
    /// holds of the readings that were made, whatever they were.
    pub fn write(&mut self, data: &mut [Option<Level>], sample_rate: u32, n_channels: u16) -> (ticks:
        usize)
        requires
            sample_rate > 0,
            n_channels > 0,
        ensures
            exists|controls: Seq<Controls>| #[trigger]
                written(
                    old(self)@,
                    old(data)@,
                    controls,
                    sample_rate,
                    n_channels,
                    final(self)@,
                    final(data)@,
                    ticks,
                ),
            final(self)@.samples == old(self)@.samples,
            final(self)@.n_channels == old(self)@.n_channels,
            final(self)@.sample_rate == old(self)@.sample_rate,
            final(self).parameters() == old(self).parameters(),
            final(self).listener() == old(self).listener(),
            final(data)@.len() == old(data)@.len(),
            ticks <= frame_count(old(data)@.len(), n_channels),
    {
        let ghost before = self@;
        let ghost untouched = data@;
        let ghost mut seen: Seq<Controls> = Seq::empty();
        let width: usize = n_channels as usize;
        let slots: usize = data.len();
        let mut start: usize = 0;
        let mut ticks: usize = 0;
        while start < slots
            invariant
                width == n_channels,
                width > 0,
                sample_rate > 0,
                slots == data.len(),
                slots == untouched.len(),
                start <= slots,
                start == seen.len() * width || start == slots,
                seen.len() * width < slots + width,
                start == slots ==> seen.len() * width >= slots,
                ticks <= start,
                ticks <= seen.len(),
                self.parameters() == old(self).parameters(),
                self.listener() == old(self).listener(),
                self@ == (SamplerView {
                    cursor: cursor_after(
                        before.cursor,
                        seen,
                        seen.len(),
                        before.sample_rate,
                        sample_rate,
                    ),
                    ..before
                }),
                ticks == ticks_after(
                    before.cursor,
                    seen,
                    seen.len(),
                    before.sample_rate,
                    sample_rate,
                ),
                forall|slot: int|
                    0 <= slot < start ==> #[trigger] data[slot] == slot_after(
                        before,
                        untouched,
                        seen,
                        sample_rate,
                        n_channels,
                        slot,
                    ),
                forall|slot: int| start <= slot < slots ==> data[slot] == untouched[slot],
            decreases slots - start,
        {
            let controls = self.param.observe();
            let end: usize = if slots - start > width {
                start + width
            } else {
                slots
            };
            let ghost earlier = seen;
            let ghost index = seen.len() as int;
            proof {
                seen = seen.push(controls);
                run_ignores_later_readings(
                    before.cursor,
                    earlier,
                    seen,
                    earlier.len(),
                    before.sample_rate,
                    sample_rate,
                );
                assert(index * width + width == (index + 1) * width) by (nonlinear_arith);
            }
            if self.write_frame(data, start, end, controls, sample_rate) {
                ticks += 1;
            }
            proof {
                assert forall|slot: int| 0 <= slot < end implies #[trigger] data[slot]
                    == slot_after(before, untouched, seen, sample_rate, n_channels, slot) by {
                    let at = frame_of(slot, n_channels);
                    if slot < start {
                        assert(0 <= at < index) by (nonlinear_arith)
                            requires
                                0 <= slot < index * width,
                                width > 0,
                                at == slot / (width as int),
                        ;
                        run_ignores_later_readings(
                            before.cursor,
                            earlier,
                            seen,
                            at as nat,
                            before.sample_rate,
                            sample_rate,
                        );
                    } else {
                        lemma_fundamental_div_mod_converse(
                            slot,
                            n_channels as int,
                            index,
                            slot - index * width,
                        );
                    }
                }
            }
            start = end;
        }
        proof {
            let frames = seen.len() as int;
            lemma_fundamental_div_mod_converse(
                slots + n_channels - 1,
                n_channels as int,
                frames,
                slots + width - 1 - frames * width,
            );
            assert(written(
                before,
                untouched,
                seen,
                sample_rate,
                n_channels,
                self@,
                data@,
                ticks,
            ));
        }
        ticks
    }

    /// The parameter set that the engine reads.
    pub fn param(&self) -> (param: &Arc<SamplerParam>)
        ensures
            *param == self.parameters(),
    {
        &self.param
    }

    /// The sample rate of the source waveform.
    pub fn sample_rate(&self) -> (rate: u32)
        ensures
            rate == self@.sample_rate,
    {
        self.sample_rate
    }

    /// The channels that the source waveform declares.
    pub fn n_channels(&self) -> (channels: u16)
        ensures
            channels == self@.n_channels,
    {
        self.n_channels
    }

    /// The samples of the buffer.
    pub fn samples(&self) -> (samples: &Vec<Sample>)
        ensures
            samples@ == self@.samples,
    {
        &self.samples
    }

    /// The playhead, in playhead units.
    pub fn playhead(&self) -> (position: u128)
        ensures
            position == self@.cursor.position,
    {
        self.playhead
    }

    /// Whether the last frame was played.
    pub fn was_playing(&self) -> (playing: bool)
        ensures
            playing == self@.cursor.was_playing,
    {
        self.was_playing
    }

    /// Reports one beat to the listener, without blocking. With no listener
    /// there is nothing to do. A listener that is gone is an error to the
    /// caller and nothing worse.
    pub fn send_tick(&self) -> (r: Result<(), Undelivered>)
        ensures
            !self.has_listener() ==> r is Ok,
    {
        match &self.sender {
            Some(sender) => Undelivered::unless(send_event(sender, SamplerEvent::Tick)),
            None => Ok(()),
        }
    }
}

impl Undelivered {
    /// What the answer of the channel comes to for the sender of a tick: a
    /// tick that was taken is a success, and one that was not is an error
    /// that says so.
    pub fn unless(delivered: bool) -> (r: Result<(), Undelivered>)
        ensures
            r == if delivered {
                Ok::<(), Undelivered>(())
            } else {
                Err(Undelivered)
            },
    {
        if delivered {
            Ok(())
        } else {
            Err(Undelivered)
        }
    }
}

} // verus!
