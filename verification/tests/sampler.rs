use cory::playhead::Controls;
use cory::sampler::{Level, Sampler, SamplerEvent, SamplerParam, Undelivered};
use cory::units::UNITS_PER_SAMPLE;
use cory::waveform::{Sample, SampleFormat, SamplerError, WaveSpec};
use std::io::Cursor;
use std::sync::atomic::Ordering;
use std::sync::mpsc::{channel, Receiver};
use std::sync::Arc;

fn wav_16(rate: u32, samples: &[i16]) -> Vec<u8> {
    let spec = hound::WavSpec {
        channels: 1,
        sample_rate: rate,
        bits_per_sample: 16,
        sample_format: hound::SampleFormat::Int,
    };
    let mut bytes = Vec::new();
    {
        let mut writer = hound::WavWriter::new(Cursor::new(&mut bytes), spec).unwrap();
        for s in samples {
            writer.write_sample(*s).unwrap();
        }
        writer.finalize().unwrap();
    }
    bytes
}

fn engine(
    rate: u32,
    samples: &[i16],
    bpm: u64,
    volume: u64,
) -> (Sampler, Arc<SamplerParam>, Receiver<SamplerEvent>) {
    let param = Arc::new(SamplerParam::new(bpm, true, volume));
    let (sender, receiver) = channel();
    let sampler = Sampler::from_reader(&wav_16(rate, samples), None, param.clone(), Some(sender)).unwrap();
    (sampler, param, receiver)
}

fn level(value: i32, volume: u64) -> Option<Level> {
    Some(Level { sample: Sample::Pcm { value, full_scale: 32_767 }, volume })
}

fn drain(receiver: &Receiver<SamplerEvent>) -> usize {
    let mut n = 0;
    while let Ok(event) = receiver.try_recv() {
        assert_eq!(event, SamplerEvent::Tick);
        n += 1;
    }
    n
}

#[test]
fn new_plays_the_default_click() {
    let param = Arc::new(SamplerParam::new(120_000, true, 1000));
    let sampler = Sampler::new(param, None).unwrap();
    assert_eq!(sampler.sample_rate(), 44_100);
    assert_eq!(sampler.n_channels(), 1);
    assert_eq!(sampler.samples().len(), 64);
    assert_eq!(sampler.samples()[0], Sample::Pcm { value: 32_767, full_scale: 32_767 });
    assert_eq!(sampler.samples()[1], Sample::Pcm { value: 20_733, full_scale: 32_767 });
    assert_eq!(sampler.samples()[3], Sample::Pcm { value: -16_602, full_scale: 32_767 });
    assert_eq!(sampler.playhead(), 0);
    assert!(!sampler.was_playing());
}

#[test]
fn from_reader_takes_rate_and_channels_from_the_header() {
    let (sampler, _param, _receiver) = engine(48_000, &[1, 2, 3], 120_000, 1000);
    assert_eq!(sampler.sample_rate(), 48_000);
    assert_eq!(sampler.n_channels(), 1);
    assert_eq!(sampler.playhead(), 0);
    assert!(!sampler.was_playing());
    assert_eq!(
        sampler.samples(),
        &vec![
            Sample::Pcm { value: 1, full_scale: 32_767 },
            Sample::Pcm { value: 2, full_scale: 32_767 },
            Sample::Pcm { value: 3, full_scale: 32_767 },
        ]
    );
}

#[test]
fn from_reader_gives_no_engine_for_an_unsupported_depth() {
    let spec = hound::WavSpec {
        channels: 1,
        sample_rate: 44_100,
        bits_per_sample: 8,
        sample_format: hound::SampleFormat::Int,
    };
    let mut bytes = Vec::new();
    {
        let mut writer = hound::WavWriter::new(Cursor::new(&mut bytes), spec).unwrap();
        writer.write_sample(5i8).unwrap();
        writer.finalize().unwrap();
    }
    let param = Arc::new(SamplerParam::new(120_000, true, 1000));
    let r = Sampler::from_reader(&bytes, None, param, None);
    assert_eq!(r.unwrap_err(), SamplerError::UnsupportedBitDepth);
}

#[test]
fn from_reader_gives_no_engine_for_what_is_no_waveform() {
    let param = Arc::new(SamplerParam::new(120_000, true, 1000));
    let r = Sampler::from_reader(b"not a waveform", None, param, None);
    assert_eq!(r.unwrap_err(), SamplerError::Malformed);
}

#[test]
fn from_samples_plays_bit_patterns() {
    let spec = WaveSpec {
        channels: 1,
        sample_rate: 44_100,
        bits_per_sample: 32,
        sample_format: SampleFormat::Float,
    };
    let bits = [0.5f32.to_bits(), (-0.25f32).to_bits()];
    let samples = cory::waveform::widen_float(&bits);
    let param = Arc::new(SamplerParam::new(120_000, true, 700));
    let mut sampler = Sampler::from_samples(spec, samples, param, None);
    let mut data = vec![None; 3];
    assert_eq!(sampler.write(&mut data, 44_100, 1), 0);
    assert_eq!(
        data,
        vec![
            Some(Level { sample: Sample::Float { bits: bits[0] }, volume: 700 }),
            Some(Level { sample: Sample::Float { bits: bits[1] }, volume: 700 }),
            None,
        ]
    );
}

#[test]
fn observe_reads_the_parameters() {
    let param = SamplerParam::new(90_000, true, 400);
    assert_eq!(param.observe(), Controls { playing: true, volume: 400, bpm: 90_000 });
    param.playing.store(false, Ordering::Relaxed);
    assert_eq!(param.observe(), Controls { playing: false, volume: 0, bpm: 0 });
    param.playing.store(true, Ordering::Relaxed);
    param.bpm.store(91_000, Ordering::Relaxed);
    param.volume.store(500, Ordering::Relaxed);
    assert_eq!(param.observe(), Controls { playing: true, volume: 500, bpm: 91_000 });
}

#[test]
fn tick_fires_every_22050_frames() {
    let (mut sampler, _param, receiver) = engine(44_100, &[1, 2, 3], 120_000, 1000);
    let mut data = vec![None; 22_049];
    assert_eq!(sampler.write(&mut data, 44_100, 1), 0);
    assert_eq!(sampler.playhead(), 22_049 * UNITS_PER_SAMPLE);
    assert_eq!(drain(&receiver), 0);
    let mut one = vec![None; 1];
    assert_eq!(sampler.write(&mut one, 44_100, 1), 1);
    assert_eq!(sampler.playhead(), 0);
    assert_eq!(drain(&receiver), 1);
    let mut second = vec![None; 44_100];
    assert_eq!(sampler.write(&mut second, 44_100, 1), 2);
    assert_eq!(sampler.playhead(), 0);
    assert_eq!(drain(&receiver), 2);
    let mut frames = 0u64;
    for _ in 0..10 {
        loop {
            frames += 1;
            let mut one = vec![None; 1];
            if sampler.write(&mut one, 44_100, 1) == 1 {
                break;
            }
        }
        assert_eq!(frames % 22_050, 0);
    }
    assert_eq!(frames, 220_500);
    assert_eq!(drain(&receiver), 10);
}

#[test]
fn tempo_change_applies_from_the_next_frame() {
    let (mut sampler, param, receiver) = engine(44_100, &[1, 2, 3], 120_000, 1000);
    let mut data = vec![None; 10_000];
    assert_eq!(sampler.write(&mut data, 44_100, 1), 0);
    assert_eq!(sampler.playhead(), 10_000 * UNITS_PER_SAMPLE);
    param.bpm.store(60_000, Ordering::Relaxed);
    let mut data = vec![None; 34_099];
    assert_eq!(sampler.write(&mut data, 44_100, 1), 0);
    assert_eq!(sampler.playhead(), 44_099 * UNITS_PER_SAMPLE);
    assert_eq!(drain(&receiver), 0);
    let mut one = vec![None; 1];
    assert_eq!(sampler.write(&mut one, 44_100, 1), 1);
    assert_eq!(sampler.playhead(), 0);
    assert_eq!(drain(&receiver), 1);
}

#[test]
fn write_plays_the_buffer_once_per_beat() {
    let (mut sampler, _param, _receiver) = engine(44_100, &[10, 20, 30], 120_000, 1000);
    let mut data = vec![None; 22_055];
    assert_eq!(sampler.write(&mut data, 44_100, 1), 1);
    assert_eq!(&data[0..4], &[level(10, 1000), level(20, 1000), level(30, 1000), None]);
    assert!(data[3..22_050].iter().all(|slot| slot.is_none()));
    assert_eq!(
        &data[22_050..22_055],
        &[level(10, 1000), level(20, 1000), level(30, 1000), None, None]
    );
}

#[test]
fn write_fills_every_channel_of_a_frame() {
    let (mut sampler, _param, _receiver) = engine(44_100, &[10, 20, 30], 120_000, 500);
    let marker = level(-7, 1);
    let mut data = vec![marker; 9];
    assert_eq!(sampler.write(&mut data, 44_100, 2), 0);
    assert_eq!(
        data,
        vec![
            level(10, 500),
            level(10, 500),
            level(20, 500),
            level(20, 500),
            level(30, 500),
            level(30, 500),
            marker,
            marker,
            marker,
        ]
    );
    assert_eq!(sampler.playhead(), 5 * UNITS_PER_SAMPLE);
}

#[test]
fn write_gives_the_last_frame_what_is_left() {
    let (mut sampler, _param, _receiver) = engine(44_100, &[10, 20, 30], 120_000, 1000);
    let mut data = vec![None; 5];
    assert_eq!(sampler.write(&mut data, 44_100, 3), 0);
    assert_eq!(
        data,
        vec![level(10, 1000), level(10, 1000), level(10, 1000), level(20, 1000), level(20, 1000)]
    );
    assert_eq!(sampler.playhead(), 2 * UNITS_PER_SAMPLE);
    let mut empty: Vec<Option<Level>> = Vec::new();
    assert_eq!(sampler.write(&mut empty, 44_100, 3), 0);
    assert_eq!(sampler.playhead(), 2 * UNITS_PER_SAMPLE);
}

#[test]
fn write_reads_the_volume_for_every_frame() {
    let (mut sampler, param, _receiver) = engine(44_100, &[10, 20, 30], 120_000, 1000);
    let mut data = vec![None; 1];
    sampler.write(&mut data, 44_100, 1);
    assert_eq!(data, vec![level(10, 1000)]);
    param.volume.store(300, Ordering::Relaxed);
    sampler.write(&mut data, 44_100, 1);
    assert_eq!(data, vec![level(20, 300)]);
    param.volume.store(0, Ordering::Relaxed);
    sampler.write(&mut data, 44_100, 1);
    assert_eq!(data, vec![level(30, 0)]);
}

#[test]
fn write_steps_by_the_ratio_of_the_rates() {
    let (mut sampler, _param, _receiver) = engine(44_100, &[10, 20, 30, 40], 120_000, 1000);
    let mut data = vec![None; 8];
    assert_eq!(sampler.write(&mut data, 88_200, 1), 0);
    assert_eq!(
        data,
        vec![
            level(10, 1000),
            level(20, 1000),
            level(20, 1000),
            level(30, 1000),
            level(30, 1000),
            level(40, 1000),
            level(40, 1000),
            None,
        ]
    );
    assert_eq!(sampler.playhead(), 4 * UNITS_PER_SAMPLE);
}

#[test]
fn write_without_playback_leaves_the_buffer_alone() {
    let (mut sampler, param, receiver) = engine(44_100, &[10, 20, 30], 120_000, 1000);
    param.playing.store(false, Ordering::Relaxed);
    let marker = level(-7, 1);
    let mut data = vec![marker; 50_000];
    assert_eq!(sampler.write(&mut data, 44_100, 1), 0);
    assert!(data.iter().all(|slot| *slot == marker));
    assert_eq!(sampler.playhead(), 0);
    assert!(!sampler.was_playing());
    assert_eq!(drain(&receiver), 0);
}

#[test]
fn stop_resets_the_playhead_and_play_does_not() {
    let (mut sampler, param, _receiver) = engine(44_100, &[10, 20, 30], 120_000, 1000);
    let mut data = vec![None; 100];
    sampler.write(&mut data, 44_100, 1);
    assert_eq!(sampler.playhead(), 100 * UNITS_PER_SAMPLE);
    assert!(sampler.was_playing());
    param.playing.store(true, Ordering::Relaxed);
    let mut data = vec![None; 50];
    sampler.write(&mut data, 44_100, 1);
    assert_eq!(sampler.playhead(), 150 * UNITS_PER_SAMPLE);
    param.playing.store(false, Ordering::Relaxed);
    let mut data = vec![None; 10];
    sampler.write(&mut data, 44_100, 1);
    assert_eq!(sampler.playhead(), 0);
    assert!(!sampler.was_playing());
    assert!(data.iter().all(|slot| slot.is_none()));
    sampler.write(&mut data, 44_100, 1);
    assert_eq!(sampler.playhead(), 0);
    param.playing.store(true, Ordering::Relaxed);
    let mut data = vec![None; 5];
    sampler.write(&mut data, 44_100, 1);
    assert_eq!(sampler.playhead(), 5 * UNITS_PER_SAMPLE);
    assert!(sampler.was_playing());
    assert_eq!(data[0], level(10, 1000));
}

#[test]
fn dropped_listener_is_tolerated() {
    let (mut sampler, _param, receiver) = engine(44_100, &[10, 20, 30], 120_000, 1000);
    drop(receiver);
    assert_eq!(sampler.send_tick(), Err(Undelivered));
    let mut data = vec![None; 44_100];
    assert_eq!(sampler.write(&mut data, 44_100, 1), 2);
    assert_eq!(sampler.write(&mut data, 44_100, 1), 2);
    assert_eq!(sampler.playhead(), 0);
    assert_eq!(data[0], level(10, 1000));
}

#[test]
fn send_tick_reaches_the_listener() {
    let (sampler, _param, receiver) = engine(44_100, &[10], 120_000, 1000);
    assert_eq!(sampler.send_tick(), Ok(()));
    assert_eq!(sampler.send_tick(), Ok(()));
    assert_eq!(drain(&receiver), 2);
}

#[test]
fn send_tick_without_listener_does_nothing() {
    let param = Arc::new(SamplerParam::new(120_000, true, 1000));
    let mut sampler = Sampler::from_reader(&wav_16(44_100, &[1]), None, param, None).unwrap();
    assert_eq!(sampler.send_tick(), Ok(()));
    let mut data = vec![None; 22_050];
    assert_eq!(sampler.write(&mut data, 44_100, 1), 1);
}

#[test]
fn fraction_is_sample_times_volume() {
    let half = Level { sample: Sample::Pcm { value: 16_384, full_scale: 32_767 }, volume: 500 };
    assert_eq!(half.fraction(), Some((8_192_000, 32_767_000)));
    let full = Level { sample: Sample::Pcm { value: -32_767, full_scale: 32_767 }, volume: 1000 };
    assert_eq!(full.fraction(), Some((-32_767_000, 32_767_000)));
    let (n, d) = full.fraction().unwrap();
    assert_eq!(n as f64 / d as f64, -1.0);
    let mute = Level { sample: Sample::Pcm { value: 123, full_scale: 8_388_607 }, volume: 0 };
    assert_eq!(mute.fraction(), Some((0, 8_388_607_000)));
    let wide = Level { sample: Sample::Pcm { value: i32::MIN, full_scale: i32::MAX }, volume: u64::MAX };
    assert_eq!(
        wide.fraction(),
        Some((i32::MIN as i128 * u64::MAX as i128, i32::MAX as i128 * 1000))
    );
    let bits = Level { sample: Sample::Float { bits: 0.5f32.to_bits() }, volume: 500 };
    assert_eq!(bits.fraction(), None);
}

#[test]
fn a_tick_that_was_not_taken_is_an_error() {
    assert_eq!(Undelivered::unless(true), Ok(()));
    assert_eq!(Undelivered::unless(false), Err(Undelivered));
}

#[test]
fn from_reader_passes_float_samples_through() {
    let spec = hound::WavSpec {
        channels: 1,
        sample_rate: 44_100,
        bits_per_sample: 32,
        sample_format: hound::SampleFormat::Float,
    };
    let source = [0.5f32, -1.0, 0.25];
    let mut bytes = Vec::new();
    {
        let mut writer = hound::WavWriter::new(Cursor::new(&mut bytes), spec).unwrap();
        for s in source {
            writer.write_sample(s).unwrap();
        }
        writer.finalize().unwrap();
    }
    let bits: Vec<u32> = source.iter().map(|s| s.to_bits()).collect();
    let param = Arc::new(SamplerParam::new(120_000, true, 1000));
    let mut sampler = Sampler::from_reader(&bytes, Some(&bits), param.clone(), None).unwrap();
    assert_eq!(sampler.sample_rate(), 44_100);
    assert_eq!(sampler.n_channels(), 1);
    assert_eq!(sampler.playhead(), 0);
    assert!(!sampler.was_playing());
    assert_eq!(
        sampler.samples(),
        &vec![
            Sample::Float { bits: 0.5f32.to_bits() },
            Sample::Float { bits: (-1.0f32).to_bits() },
            Sample::Float { bits: 0.25f32.to_bits() },
        ]
    );
    let mut data = vec![None; 2];
    assert_eq!(sampler.write(&mut data, 44_100, 1), 0);
    assert_eq!(data[1], Some(Level { sample: Sample::Float { bits: (-1.0f32).to_bits() }, volume: 1000 }));
    let none = Sampler::from_reader(&bytes, None, param, None);
    assert_eq!(none.unwrap_err(), SamplerError::Malformed);
}

#[test]
fn the_engine_holds_the_parameters_it_was_given() {
    let (mut sampler, param, _receiver) = engine(44_100, &[10, 20, 30], 120_000, 1000);
    assert!(Arc::ptr_eq(sampler.param(), &param));
    let mut data = vec![None; 4];
    sampler.write(&mut data, 44_100, 1);
    assert!(Arc::ptr_eq(sampler.param(), &param));
    assert_eq!(param.bpm.load(Ordering::Relaxed), 120_000);
    assert_eq!(param.volume.load(Ordering::Relaxed), 1000);
    assert!(param.playing.load(Ordering::Relaxed));
}
