//! The state of the control surface and the rules by which input changes it.
use crate::config::{
    clamp, clamp_spec, MAX_BPM, MAX_TOTAL_BEATS, MAX_VOLUME, MIN_BPM, MIN_TOTAL_BEATS, MIN_VOLUME,
};
use crate::sampler::{SamplerEvent, SamplerParam};
use std::sync::atomic::Ordering;
use std::sync::Arc;
use vstd::prelude::*;

verus! {

/// One step of the tempo: a beat per minute, in thousandths.
pub const BPM_STEP: u64 = 1_000;

/// One step of the volume: a tenth of full volume, in thousandths.
pub const VOLUME_STEP: u64 = 100;

/// What the user asks for.
#[derive(Clone, Copy, Debug, PartialEq, Eq)]
pub enum Action {
    Tick,
    IncBPM,
    DecBPM,
    IncTotalBeats,
    DecTotalBeats,
    IncVolume,
    DecVolume,
    Quit,
}

/// What the input thread hands over: an event of the terminal, or the tick
/// of its own clock.
#[derive(Debug)]
pub enum InputEvent<T> {
    Input(T),
    Tick,
}

/// The key of a key event, as far as the control surface tells keys apart.
#[derive(Clone, Copy, Debug, PartialEq, Eq)]
pub enum KeyCode {
    Left,
    Right,
    Up,
    Down,
    Esc,
    Char(char),
    Other,
}

/// Whether a key went down, is held or went up.
#[derive(Clone, Copy, Debug, PartialEq, Eq)]
pub enum KeyEventKind {
    Press,
    Repeat,
    Release,
}

/// The modifier keys that are held during a key event.
#[derive(Clone, Copy, Debug, PartialEq, Eq)]
pub struct KeyModifiers {
    pub shift: bool,
    pub control: bool,
    pub alt: bool,
    pub super_key: bool,
    pub hyper: bool,
    pub meta: bool,
}

/// A key event of the terminal.
#[derive(Clone, Copy, Debug, PartialEq, Eq)]
pub struct KeyEvent {
    pub code: KeyCode,
    pub modifiers: KeyModifiers,
    pub kind: KeyEventKind,
}

/// An event of the terminal: a key event, or anything else.
#[derive(Clone, Copy, Debug, PartialEq, Eq)]
pub enum TermEvent {
    Key(KeyEvent),
    Other,
}

/// The state of the control surface.
#[derive(Debug)]
pub struct App {
    pub param: Arc<SamplerParam>,
    pub beat_count: u32,
    pub total_beats: u32,
    pub should_quit: bool,
}

impl KeyModifiers {
    /// Whether control is held and no other modifier is.
    pub open spec fn only_control_spec(self) -> bool {
        self.control && !self.shift && !self.alt && !self.super_key && !self.hyper && !self.meta
    }

    /// Tells whether control is held and no other modifier is.
    #[verifier::when_used_as_spec(only_control_spec)]
    pub fn only_control(self) -> (only: bool)
        ensures
            only == self.only_control_spec(),
    {
        self.control && !self.shift && !self.alt && !self.super_key && !self.hyper && !self.meta
    }
}

/// What a key asks for when it goes down.
pub open spec fn key_action(code: KeyCode, modifiers: KeyModifiers) -> Option<Action> {
    match code {
        KeyCode::Right => Some(Action::IncBPM),
        KeyCode::Left => Some(Action::DecBPM),
        KeyCode::Up => Some(Action::IncVolume),
        KeyCode::Down => Some(Action::DecVolume),
        KeyCode::Esc => Some(Action::Quit),
        KeyCode::Char(c) => if c == 'k' {
            Some(Action::IncTotalBeats)
        } else if c == 'j' {
            Some(Action::DecTotalBeats)
        } else if c == 'q' {
            Some(Action::Quit)
        } else if c == 'c' && modifiers.only_control_spec() {
            Some(Action::Quit)
        } else {
            None
        },
        KeyCode::Other => None,
    }
}

/// What an event of the terminal asks for: a key that goes down asks for
/// what `key_action` says, and nothing else asks for anything.
pub open spec fn term_event_action(event: TermEvent) -> Option<Action> {
    match event {
        TermEvent::Key(key) => if key.kind == KeyEventKind::Press {
            key_action(key.code, key.modifiers)
        } else {
            None
        },
        TermEvent::Other => None,
    }
}

/// Maps an event of the terminal to what it asks for.
pub fn map_term_event(event: &TermEvent) -> (action: Option<Action>)
    ensures
        action == term_event_action(*event),
{
    match event {
        TermEvent::Key(e) => {
            match e.kind {
                KeyEventKind::Press => match e.code {
                    KeyCode::Right => Some(Action::IncBPM),
                    KeyCode::Left => Some(Action::DecBPM),
                    KeyCode::Up => Some(Action::IncVolume),
                    KeyCode::Down => Some(Action::DecVolume),
                    KeyCode::Esc => Some(Action::Quit),
                    KeyCode::Char(c) => {
                        if c == 'k' {
                            Some(Action::IncTotalBeats)
                        } else if c == 'j' {
                            Some(Action::DecTotalBeats)
                        } else if c == 'q' {
                            Some(Action::Quit)
                        } else if c == 'c' && e.modifiers.only_control() {
                            Some(Action::Quit)
                        } else {
                            None
                        }
                    },
                    KeyCode::Other => None,
                },
                _ => None,
            }
        },
        TermEvent::Other => None,
    }
}

/// The tempo one step up or down, within its bounds.
pub open spec fn stepped_bpm_spec(bpm: u64, up: bool) -> u64 {
    if up {
        clamp_spec(bpm + BPM_STEP, MIN_BPM as int, MAX_BPM as int) as u64
    } else {
        clamp_spec(bpm - BPM_STEP, MIN_BPM as int, MAX_BPM as int) as u64
    }
}

/// The volume one step up or down, within its bounds.
pub open spec fn stepped_volume_spec(volume: u64, up: bool) -> u64 {
    if up {
        clamp_spec(volume + VOLUME_STEP, MIN_VOLUME as int, MAX_VOLUME as int) as u64
    } else {
        clamp_spec(volume - VOLUME_STEP, MIN_VOLUME as int, MAX_VOLUME as int) as u64
    }
}

/// Moves a tempo one step up or down and holds it within its bounds.
#[verifier::when_used_as_spec(stepped_bpm_spec)]
pub fn stepped_bpm(bpm: u64, up: bool) -> (next: u64)
    ensures
        next == stepped_bpm_spec(bpm, up),
        MIN_BPM <= next <= MAX_BPM,
{
    if up {
        clamp(bpm.saturating_add(BPM_STEP), MIN_BPM, MAX_BPM)
    } else {
        clamp(bpm.saturating_sub(BPM_STEP), MIN_BPM, MAX_BPM)
    }
}

/// Moves a volume one step up or down and holds it within its bounds.
#[verifier::when_used_as_spec(stepped_volume_spec)]
pub fn stepped_volume(volume: u64, up: bool) -> (next: u64)
    ensures
        next == stepped_volume_spec(volume, up),
        MIN_VOLUME <= next <= MAX_VOLUME,
{
    if up {
        clamp(volume.saturating_add(VOLUME_STEP), MIN_VOLUME, MAX_VOLUME)
    } else {
        clamp(volume.saturating_sub(VOLUME_STEP), MIN_VOLUME, MAX_VOLUME)
    }
}

/// The tempo to store after an action, given the tempo that was read: one
/// step up or down, within its bounds, for the two actions that change the
/// tempo, and nothing for any other.
pub open spec fn bpm_after_spec(action: &Action, bpm: u64) -> Option<u64> {
    match *action {
        Action::IncBPM => Some(stepped_bpm_spec(bpm, true)),
        Action::DecBPM => Some(stepped_bpm_spec(bpm, false)),
        _ => None,
    }
}

/// The volume to store after an action, given the volume that was read: one
/// step up or down, within its bounds, for the two actions that change the
/// volume, and nothing for any other.
pub open spec fn volume_after_spec(action: &Action, volume: u64) -> Option<u64> {
    match *action {
        Action::IncVolume => Some(stepped_volume_spec(volume, true)),
        Action::DecVolume => Some(stepped_volume_spec(volume, false)),
        _ => None,
    }
}

/// Decides what an action does to the tempo.
#[verifier::when_used_as_spec(bpm_after_spec)]
pub fn bpm_after(action: &Action, bpm: u64) -> (next: Option<u64>)
    ensures
        next == bpm_after_spec(action, bpm),
        next matches Some(tempo) ==> MIN_BPM <= tempo <= MAX_BPM,
{
    match action {
        Action::IncBPM => Some(stepped_bpm(bpm, true)),
        Action::DecBPM => Some(stepped_bpm(bpm, false)),
        _ => None,
    }
}

/// Decides what an action does to the volume.
#[verifier::when_used_as_spec(volume_after_spec)]
pub fn volume_after(action: &Action, volume: u64) -> (next: Option<u64>)
    ensures
        next == volume_after_spec(action, volume),
        next matches Some(level) ==> MIN_VOLUME <= level <= MAX_VOLUME,
{
    match action {
        Action::IncVolume => Some(stepped_volume(volume, true)),
        Action::DecVolume => Some(stepped_volume(volume, false)),
        _ => None,
    }
}

/// How long the input thread may wait for the terminal: what is left of the
/// tick, or a whole tick once the tick is overdue.
pub fn poll_timeout(tick_rate: u128, elapsed: u128) -> (timeout: u128)
    ensures
        timeout == if elapsed <= tick_rate {
            (tick_rate - elapsed) as u128
        } else {
            tick_rate
        },
{
    match tick_rate.checked_sub(elapsed) {
        Some(left) => left,
        None => tick_rate,
    }
}

/// Whether the input thread owes a tick.
pub fn tick_due(tick_rate: u128, elapsed: u128) -> (due: bool)
    ensures
        due == (elapsed >= tick_rate),
{
    elapsed >= tick_rate
}

/// The filled part of a gauge as a fraction: how far a value has come from
/// the low end, over the span of the gauge. A value outside the span counts
/// as the nearer end.
pub fn gauge(value: u64, low: u64, high: u64) -> (filled: (u64, u64))
    requires
        low < high,
    ensures
        filled.0 == clamp_spec(value as int, low as int, high as int) - low,
        filled.1 == high - low,
        filled.0 <= filled.1,
{
    (clamp(value, low, high) - low, high - low)
}

impl App {
    /// Whether the beat counter and the length of the bar are within their
    /// bounds.
    pub open spec fn wf(&self) -> bool {
        &&& MIN_TOTAL_BEATS <= self.total_beats <= MAX_TOTAL_BEATS
        &&& 1 <= self.beat_count <= MAX_TOTAL_BEATS
    }

    /// A control surface on the first beat of a bar of four.
    pub fn new(param: Arc<SamplerParam>) -> (app: Self)
        ensures
            app.param == param,
            app.beat_count == 1,
            app.total_beats == 4,
            !app.should_quit,
            app.wf(),
    {
        App { param, beat_count: 1, total_beats: 4, should_quit: false }
    }

    /// Maps what the input thread hands over to what it asks for: its own
    /// tick to a tick, an event of the terminal as `map_term_event` does.
    pub fn map_input_event(&self, input_event: &InputEvent<TermEvent>) -> (action: Option<Action>)
        ensures
            action == match *input_event {
                InputEvent::Tick => Some(Action::Tick),
                InputEvent::Input(event) => term_event_action(event),
            },
    {
        match input_event {
            InputEvent::Tick => Some(Action::Tick),
            InputEvent::Input(e) => map_term_event(e),
        }
    }

    /// Reads the tempo and stores what `bpm_after` gives for it, if the
    /// action changes the tempo. The two are not one step: a store of
    /// another thread in between is overwritten.
    fn apply_to_bpm(&self, ui_event: &Action) {
        let bpm: u64 = self.param.bpm.load(Ordering::Relaxed);
        if let Some(next) = bpm_after(ui_event, bpm) {
            self.param.bpm.store(next, Ordering::Relaxed);
        }
    }

    /// Reads the volume and stores what `volume_after` gives for it, if the
    /// action changes the volume.
    fn apply_to_volume(&self, ui_event: &Action) {
        let volume: u64 = self.param.volume.load(Ordering::Relaxed);
        if let Some(next) = volume_after(ui_event, volume) {
            self.param.volume.store(next, Ordering::Relaxed);
        }
    }

    /// Carries out what the user asks for. Quitting is noted, and the bar
    /// grows or shrinks by a beat while it stays within its bounds. The
    /// shared tempo is replaced by what `bpm_after` gives for the action and
    /// the tempo read, and the shared volume by what `volume_after` gives
    /// for the action and the volume read; where they give nothing, nothing
    /// is stored.
    pub fn update_by_ui_event(&mut self, ui_event: &Action)
        ensures
            final(self).param == old(self).param,
            final(self).beat_count == old(self).beat_count,
            final(self).should_quit == (old(self).should_quit || *ui_event == Action::Quit),
            final(self).total_beats == match *ui_event {
                Action::IncTotalBeats => if old(self).total_beats < MAX_TOTAL_BEATS {
                    (old(self).total_beats + 1) as u32
                } else {
                    old(self).total_beats
                },
                Action::DecTotalBeats => if old(self).total_beats > MIN_TOTAL_BEATS {
                    (old(self).total_beats - 1) as u32
                } else {
                    old(self).total_beats
                },
                _ => old(self).total_beats,
            },
            old(self).wf() ==> final(self).wf(),
    {
        self.apply_to_bpm(ui_event);
        self.apply_to_volume(ui_event);
        match ui_event {
            Action::Quit => {
                self.should_quit = true;
            },
            Action::IncTotalBeats => {
                if self.total_beats < MAX_TOTAL_BEATS {
                    self.total_beats += 1;
                }
            },
            Action::DecTotalBeats => {
                if self.total_beats > MIN_TOTAL_BEATS {
                    self.total_beats -= 1;
                }
            },
            _ => {},
        }
    }

    /// Counts a beat: the counter goes from one to the length of the bar and
    /// starts over.
    pub fn update_by_sampler_event(&mut self, _sampler_event: &SamplerEvent)
        requires
            old(self).total_beats > 0,
        ensures
            final(self).beat_count == old(self).beat_count % old(self).total_beats + 1,
            1 <= final(self).beat_count <= old(self).total_beats,
            final(self).param == old(self).param,
            final(self).total_beats == old(self).total_beats,
            final(self).should_quit == old(self).should_quit,
            old(self).wf() ==> final(self).wf(),
    {
        self.beat_count = self.beat_count % self.total_beats + 1;
    }
}

} // verus!
