//! The synthesizer handle: what it records of its engine, and the engine
//! call each operation decides on.
use vstd::prelude::*;

use crate::error::TsfError;
use crate::params::{key_in_range, key_valid, velocity_in_range, velocity_valid, OutputMode};

verus! {

/// A single call into the synthesis engine, with the engine's own integer
/// encodings of its arguments. Real-valued arguments travel as binary32
/// bit patterns.
#[derive(Clone, Copy, Debug, PartialEq, Eq, Structural)]
pub enum EngineCall {
    SetOutput { mode: i32, sample_rate: i32, global_gain_db_bits: u32 },
    /// Render `frames` frames into a buffer of `len` samples.
    Render { frames: i32, len: usize },
    NoteOn { channel: i32, key: i32, velocity_bits: u32 },
    NoteOff { channel: i32, key: i32 },
    ChannelNoteOffAll { channel: i32 },
    NoteOffAll,
    SetPresetNumber { channel: i32, preset_number: i32, drums: i32 },
}

/// What a handle knows of its engine instance.
pub struct TsfView {
    /// The channel layout last configured, if any.
    pub output_mode: Option<OutputMode>,
    /// Number of presets in the loaded soundfont.
    pub preset_count: nat,
}

impl TsfView {
    /// The state after configuring the output with `mode`.
    pub open spec fn with_output(self, mode: OutputMode) -> TsfView {
        TsfView { output_mode: Some(mode), preset_count: self.preset_count }
    }
}

/// The engine call that configures the output.
pub open spec fn set_output_call(mode: OutputMode, sample_rate: u16, gain_bits: u32) -> EngineCall {
    EngineCall::SetOutput {
        mode: mode.code(),
        sample_rate: sample_rate as i32,
        global_gain_db_bits: gain_bits,
    }
}

/// Configuring the output: a sample rate of zero is rejected and changes
/// nothing; any other records the layout and issues the configuring call.
pub open spec fn set_output_step(s: TsfView, mode: OutputMode, sample_rate: u16, gain_bits: u32) -> (
    TsfView,
    Result<EngineCall, TsfError>,
) {
    if sample_rate == 0 {
        (s, Err(TsfError::InvalidParameter))
    } else {
        (s.with_output(mode), Ok(set_output_call(mode, sample_rate, gain_bits)))
    }
}

/// The engine call that renders `frames` frames in layout `mode`.
pub open spec fn render_call(mode: OutputMode, frames: usize) -> EngineCall {
    EngineCall::Render { frames: frames as i32, len: (frames * mode.channels()) as usize }
}

/// Rendering: refused until the output has been configured.
pub open spec fn render_step(s: TsfView, frames: usize) -> Result<EngineCall, TsfError> {
    match s.output_mode {
        None => Err(TsfError::PreconditionViolation),
        Some(mode) => Ok(render_call(mode, frames)),
    }
}

/// Configuring the output twice with the same parameters leaves the handle
/// in the state that configuring it once does, and the second call gives
/// the same result as the first; every later render is thus decided as it
/// would have been after one configuration.
pub proof fn lemma_set_output_idempotent(
    s: TsfView,
    mode: OutputMode,
    sample_rate: u16,
    gain_bits: u32,
    frames: usize,
)
    ensures
        ({
            let (once, first) = set_output_step(s, mode, sample_rate, gain_bits);
            let (twice, second) = set_output_step(once, mode, sample_rate, gain_bits);
            &&& twice == once
            &&& second == first
            &&& render_step(twice, frames) == render_step(once, frames)
        }),
{
}

/// The preset count does not depend on whether, or how, the output has
/// been configured.
pub proof fn lemma_preset_count_unaffected_by_output(
    s: TsfView,
    mode: OutputMode,
    sample_rate: u16,
    gain_bits: u32,
)
    ensures
        set_output_step(s, mode, sample_rate, gain_bits).0.preset_count == s.preset_count,
{
}

/// A freshly configured handle renders `frames` frames into a buffer of
/// exactly `frames` times the layout's channel count values.
pub proof fn lemma_configured_render_length(
    s: TsfView,
    mode: OutputMode,
    sample_rate: u16,
    gain_bits: u32,
    frames: usize,
)
    requires
        s.output_mode is None,
        sample_rate > 0,
        frames <= i32::MAX,
    ensures
        render_step(set_output_step(s, mode, sample_rate, gain_bits).0, frames) matches Ok(
            EngineCall::Render { frames: f, len },
        ) && f == frames && len == frames * mode.channels(),
{
    assert(frames * mode.channels() <= 2 * i32::MAX);
}

/// Handle of one synthesizer instance. It has no `Clone`: one owner at a
/// time, and every operation asks for exclusive access.
pub struct Tsf {
    output_mode: Option<OutputMode>,
    preset_count: u16,
}

impl View for Tsf {
    type V = TsfView;

    closed spec fn view(&self) -> TsfView {
        TsfView { output_mode: self.output_mode, preset_count: self.preset_count as nat }
    }
}

impl Tsf {
    /// A handle on a freshly loaded instance holding `preset_count` presets;
    /// its output is not configured yet.
    pub fn new(preset_count: u16) -> (t: Tsf)
        ensures
            t@.output_mode is None,
            t@.preset_count == preset_count,
    {
        Tsf { output_mode: None, preset_count }
    }

    /// Checks a soundfont path before the engine opens it, and gives the
    /// zero-terminated form the engine reads. A path holding a zero byte is
    /// rejected before any I/O.
    pub fn load_filename(filename: &[u8]) -> (r: Result<Vec<u8>, TsfError>)
        ensures
            filename@.contains(0u8) ==> r == Err::<Vec<u8>, TsfError>(TsfError::InvalidPath),
            !filename@.contains(0u8) ==> (r matches Ok(path) && path@ == filename@.push(0u8)),
    {
        let mut path: Vec<u8> = Vec::new();
        let mut i: usize = 0;
        while i < filename.len()
            invariant
                i <= filename@.len(),
                path@ == filename@.subrange(0, i as int),
                forall|j: int| 0 <= j < i ==> filename@[j] != 0u8,
            decreases filename@.len() - i,
        {
            if filename[i] == 0 {
                return Err(TsfError::InvalidPath);
            }
            path.push(filename[i]);
            i = i + 1;
        }
        assert(path@ == filename@);
        path.push(0);
        Ok(path)
    }

    /// Checks soundfont data before the engine parses it, and gives the
    /// length the engine is handed. Data longer than the engine can address
    /// cannot be loaded.
    pub fn load_memory(buffer: &[u8]) -> (r: Result<i32, TsfError>)
        ensures
            buffer@.len() <= i32::MAX ==> r == Ok::<i32, TsfError>(buffer@.len() as i32),
            buffer@.len() > i32::MAX ==> r == Err::<i32, TsfError>(TsfError::LoadError),
    {
        let len = buffer.len();
        if len > i32::MAX as usize {
            return Err(TsfError::LoadError);
        }
        Ok(len as i32)
    }

    /// Decides the render call for `samples` frames. Fails, with the handle
    /// unchanged, when the output has not been configured; otherwise the
    /// buffer holds `samples` times the layout's channel count values.
    pub fn render_float(&mut self, samples: usize) -> (r: Result<EngineCall, TsfError>)
        requires
            samples <= i32::MAX,
        ensures
            *final(self) == *old(self),
            r == render_step(old(self)@, samples),
    {
        match self.output_mode {
            None => Err(TsfError::PreconditionViolation),
            Some(mode) => {
                let channels = mode.output_channels();
                assert(samples * channels <= 2 * i32::MAX) by (nonlinear_arith)
                    requires
                        samples <= i32::MAX,
                        channels <= 2,
                ;
                let len = samples * channels;
                Ok(EngineCall::Render { frames: samples as i32, len })
            },
        }
    }
    /// Configures the output layout, sample rate and global gain (in
    /// decibels, any value, as binary32 bits). A sample rate of zero is
    /// rejected with the handle unchanged; otherwise the layout is recorded
    /// and replaces any earlier one.
    pub fn set_output(&mut self, mode: OutputMode, sample_rate: u16, global_gain_db_bits: u32) -> (r:
        Result<EngineCall, TsfError>)
        ensures
            final(self)@ == set_output_step(old(self)@, mode, sample_rate, global_gain_db_bits).0,
            r == set_output_step(old(self)@, mode, sample_rate, global_gain_db_bits).1,
    {
        if sample_rate == 0 {
            return Err(TsfError::InvalidParameter);
        }
        let call = EngineCall::SetOutput {
            mode: mode.engine_code(),
            sample_rate: sample_rate as i32,
            global_gain_db_bits,
        };
        self.output_mode = Some(mode);
        Ok(call)
    }

    /// Decides the call that starts a note. A key above 127 or a velocity
    /// outside [0.0, 1.0] is rejected and no call is made.
    pub fn channel_note_on(&mut self, channel: u16, key: u8, velocity_bits: u32) -> (r: Result<
        EngineCall,
        TsfError,
    >)
        ensures
            *final(self) == *old(self),
            key_in_range(key) && velocity_in_range(velocity_bits) ==> r == Ok::<
                EngineCall,
                TsfError,
            >(EngineCall::NoteOn { channel: channel as i32, key: key as i32, velocity_bits }),
            !(key_in_range(key) && velocity_in_range(velocity_bits)) ==> r == Err::<
                EngineCall,
                TsfError,
            >(TsfError::InvalidParameter),
    {
        if !key_valid(key) || !velocity_valid(velocity_bits) {
            return Err(TsfError::InvalidParameter);
        }
        Ok(EngineCall::NoteOn { channel: channel as i32, key: key as i32, velocity_bits })
    }

    /// Decides the call that releases a note. A key above 127 is rejected
    /// and no call is made.
    pub fn channel_note_off(&mut self, channel: u16, key: u8) -> (r: Result<EngineCall, TsfError>)
        ensures
            *final(self) == *old(self),
            key_in_range(key) ==> r == Ok::<EngineCall, TsfError>(
                EngineCall::NoteOff { channel: channel as i32, key: key as i32 },
            ),
            !key_in_range(key) ==> r == Err::<EngineCall, TsfError>(TsfError::InvalidParameter),
    {
        if !key_valid(key) {
            return Err(TsfError::InvalidParameter);
        }
        Ok(EngineCall::NoteOff { channel: channel as i32, key: key as i32 })
    }

    /// The call that releases every note of one channel.
    pub fn channel_note_off_all(&mut self, channel: u16) -> (r: EngineCall)
        ensures
            *final(self) == *old(self),
            r == (EngineCall::ChannelNoteOffAll { channel: channel as i32 }),
    {
        EngineCall::ChannelNoteOffAll { channel: channel as i32 }
    }

    /// The call that releases every note of every channel.
    pub fn note_off_all(&mut self) -> (r: EngineCall)
        ensures
            *final(self) == *old(self),
            r == EngineCall::NoteOffAll,
    {
        EngineCall::NoteOffAll
    }

    /// The call that assigns a preset to a channel, as a percussion channel
    /// when `mididrums` holds.
    pub fn channel_set_preset_number(&mut self, channel: u16, preset_number: u16, mididrums: bool) -> (r:
        EngineCall)
        ensures
            *final(self) == *old(self),
            r == (EngineCall::SetPresetNumber {
                channel: channel as i32,
                preset_number: preset_number as i32,
                drums: if mididrums { 1i32 } else { 0i32 },
            }),
    {
        let drums: i32 = if mididrums { 1 } else { 0 };
        EngineCall::SetPresetNumber {
            channel: channel as i32,
            preset_number: preset_number as i32,
            drums,
        }
    }

    /// Number of presets in the loaded soundfont.
    pub fn get_preset_count(&self) -> (r: u16)
        ensures
            r == self@.preset_count,
    {
        self.preset_count
    }

    /// Gives up the handle; the engine instance is released with it.
    pub fn close(self) {
    }
}

} // verus!
