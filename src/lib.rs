//! Typed messages, flags and builders for writing FL Studio plugins.
//!
//! The host talks to a plugin through raw messages made of three integers (`id`, `index`,
//! `value`). This crate turns those raw messages into typed values and back, and states
//! exactly how each field is encoded.
use vstd::prelude::*;

pub mod flags;
pub mod host;
pub mod plugin;
pub mod raw;
pub mod transport;
pub mod voice;

pub use flags::{
    MessageBoxFlags, NotesFlags, ParamMenuItemFlags, ParameterFlags, ProcessModeFlags,
    ProcessParamFlags, SampleLoadFlags,
};
pub use raw::{AsRawPtr, FromRawPtr, ValuePtr};
pub use transport::{Button, Hold, Jog, Transport};

verus! {

/// Current FL SDK version.
pub const CURRENT_SDK_VERSION: u32 = 1;

/// Size of wavetable used by FL.
pub const WAVETABLE_SIZE: usize = 16384;

/// `intptr_t` alias.
#[allow(non_camel_case_types)]
pub type intptr_t = isize;

/// A raw message as the host exchanges it with the plugin.
#[derive(Clone, Copy, Debug, PartialEq, Eq, Structural)]
pub struct FlMessage {
    /// Message kind.
    pub id: isize,
    /// First argument.
    pub index: isize,
    /// Second argument.
    pub value: isize,
}

/// Time signature.
#[derive(Clone, Copy, Debug, PartialEq, Eq, Structural)]
pub struct TimeSignature {
    /// Steps per bar.
    pub steps_per_bar: u32,
    /// Steps per beat.
    pub steps_per_beat: u32,
    /// Pulses per quarter note.
    pub ppq: u32,
}

/// MIDI message.
#[derive(Clone, Copy, Debug, PartialEq, Eq, Structural)]
pub struct MidiMessage {
    /// Status byte.
    pub status: u8,
    /// First data byte.
    pub data1: u8,
    /// Second data byte.
    pub data2: u8,
    /// Port.
    pub port: u8,
}

impl MidiMessage {
    /// The message packed in `value`: the status in the lowest byte, then the two data bytes;
    /// the port is `0`.
    pub open spec fn unpack(value: u64) -> MidiMessage {
        MidiMessage {
            status: (value % 256) as u8,
            data1: ((value / 256) % 256) as u8,
            data2: ((value / 65536) % 256) as u8,
            port: 0,
        }
    }
}

impl From<u64> for MidiMessage {
    fn from(value: u64) -> (r: Self) {
        proof {
            assert((value & 0xff) as u8 == (value % 256) as u8) by (bit_vector);
            assert(((value >> 8u64) & 0xff) as u8 == ((value / 256) % 256) as u8) by (bit_vector);
            assert(((value >> 16u64) & 0xff) as u8 == ((value / 65536) % 256) as u8)
                by (bit_vector);
        }
        MidiMessage {
            status: (value & 0xff) as u8,
            data1: ((value >> 8) & 0xff) as u8,
            data2: ((value >> 16) & 0xff) as u8,
            port: 0,
        }
    }
}

impl vstd::std_specs::convert::FromSpecImpl<u64> for MidiMessage {
    open spec fn obeys_from_spec() -> bool {
        true
    }

    open spec fn from_spec(value: u64) -> MidiMessage {
        MidiMessage::unpack(value)
    }
}

/// Song time in **bar:step:tick** format.
#[allow(missing_docs)]
#[derive(Clone, Copy, Debug, Default, PartialEq, Eq, Structural)]
pub struct SongTime {
    pub bar: i32,
    pub step: i32,
    pub tick: i32,
}

/// The header of a request to add notes to the piano roll, as the host reads it; the notes
/// themselves follow it.
#[derive(Clone, Copy, Debug, PartialEq, Eq, Structural)]
pub struct TNotesParams {
    /// Where the notes go: `1` for the piano roll (the step sequencer is not supported).
    pub target: i32,
    /// The [`NotesFlags`] bits.
    pub flags: i32,
    /// Pattern number, `-1` for the current one.
    pub pat_num: i32,
    /// Channel number, `-1` for the plugin's channel (or the selected one for an effect).
    pub chan_num: i32,
    /// Number of notes.
    pub count: i32,
}

/// A pattern or channel number as the host reads it: `-1` for none, else the number as a C
/// `int`.
pub open spec fn number_or_none(n: Option<u32>) -> i32 {
    match n {
        Some(v) => v as i32,
        None => -1i32,
    }
}

impl TNotesParams {
    /// The header for `count` notes with these flags, for this pattern and channel.
    pub fn new(flags: NotesFlags, pattern: Option<u32>, channel: Option<u32>, count: usize) -> (r:
        Self)
        ensures
            r.target == 1,
            r.flags == flags@ as i32,
            r.pat_num == number_or_none(pattern),
            r.chan_num == number_or_none(channel),
            r.count == count as i32,
    {
        let pat_num = match pattern {
            Some(v) => v as i32,
            None => -1,
        };
        let chan_num = match channel {
            Some(v) => v as i32,
            None => -1,
        };
        TNotesParams {
            target: 1,
            flags: flags.bits() as i32,
            pat_num,
            chan_num,
            count: count as i32,
        }
    }
}

/// Describes an item that should be added to a control's right-click popup menu.
#[derive(Debug)]
pub struct ParamMenuEntry {
    /// Name.
    pub name: String,
    /// Flags.
    pub flags: ParamMenuItemFlags,
}

impl ParamMenuEntry {
    /// An entry as the host describes it: its name and its raw flags. Flags with a bit that no
    /// menu item flag has are read as no flag at all.
    pub fn new(name: String, flags: i32) -> (r: Self)
        ensures
            r.name@ == name@,
            flags & !ParamMenuItemFlags::known_bits() == 0 ==> r.flags@ == flags,
            flags & !ParamMenuItemFlags::known_bits() != 0 ==> r.flags@ == 0,
    {
        let flags = match ParamMenuItemFlags::from_bits(flags) {
            Some(f) => f,
            None => ParamMenuItemFlags::empty(),
        };
        ParamMenuEntry { name, flags }
    }
}

/// The result returned by a message box.
#[derive(Clone, Copy, Debug, PartialEq, Eq, Structural)]
pub enum MessageBoxResult {
    /// The OK button was selected.
    Okay,
    /// The Cancel button was selected.
    Cancel,
    /// The Abort button was selected.
    Abort,
    /// The Retry button was selected.
    Retry,
    /// The Ignore button was selected.
    Ignore,
    /// The Yes button was selected.
    Yes,
    /// The No button was selected.
    No,
    /// The Try Again button was selected.
    TryAgain,
    /// The Continue button was selected.
    Continue,
    /// Unknown.
    Unknown,
}

impl FromRawPtr for MessageBoxResult {
    open spec fn from_raw_ptr_spec(value: intptr_t) -> Self {
        match value {
            1 => MessageBoxResult::Okay,
            2 => MessageBoxResult::Cancel,
            3 => MessageBoxResult::Abort,
            4 => MessageBoxResult::Retry,
            5 => MessageBoxResult::Ignore,
            6 => MessageBoxResult::Yes,
            7 => MessageBoxResult::No,
            10 => MessageBoxResult::TryAgain,
            11 => MessageBoxResult::Continue,
            _ => MessageBoxResult::Unknown,
        }
    }

    fn from_raw_ptr(value: intptr_t) -> (r: Self) {
        match value {
            1 => MessageBoxResult::Okay,
            2 => MessageBoxResult::Cancel,
            3 => MessageBoxResult::Abort,
            4 => MessageBoxResult::Retry,
            5 => MessageBoxResult::Ignore,
            6 => MessageBoxResult::Yes,
            7 => MessageBoxResult::No,
            10 => MessageBoxResult::TryAgain,
            11 => MessageBoxResult::Continue,
            _ => MessageBoxResult::Unknown,
        }
    }
}

/// Time format.
#[derive(Clone, Copy, Debug, PartialEq, Eq, Structural)]
pub enum TimeFormat {
    /// Beats.
    Beats,
    /// Absolute ms.
    AbsoluteMs,
    /// Running ms.
    RunningMs,
    /// Time since sound card restart (in ms).
    RestartMs,
}

impl TimeFormat {
    /// The code the host gives this format.
    pub open spec fn code(self) -> u8 {
        match self {
            TimeFormat::Beats => 0,
            TimeFormat::AbsoluteMs => 1,
            TimeFormat::RunningMs => 2,
            TimeFormat::RestartMs => 3,
        }
    }
}

impl From<TimeFormat> for u8 {
    fn from(format: TimeFormat) -> (r: Self) {
        match format {
            TimeFormat::Beats => 0,
            TimeFormat::AbsoluteMs => 1,
            TimeFormat::RunningMs => 2,
            TimeFormat::RestartMs => 3,
        }
    }
}

impl vstd::std_specs::convert::FromSpecImpl<TimeFormat> for u8 {
    open spec fn obeys_from_spec() -> bool {
        true
    }

    open spec fn from_spec(format: TimeFormat) -> u8 {
        format.code()
    }
}

/// Name of the color (or MIDI channel) in Piano Roll.
#[derive(Debug)]
pub struct NameColor {
    /// User-defined name (can be empty).
    pub name: String,
    /// Visible name (can be guessed).
    pub vis_name: String,
    /// Color/MIDI channel index.
    pub color: u8,
    /// Real index of the item (can be used to translate plugin's own in/out into real mixer track
    /// number).
    pub index: usize,
}

impl NameColor {
    /// A name and color as the host fills them in: the color and the index come as C `int`s
    /// and are narrowed as a C cast does.
    pub fn new(name: String, vis_name: String, color: i32, index: i32) -> (r: Self)
        ensures
            r.name@ == name@,
            r.vis_name@ == vis_name@,
            r.color == color as u8,
            r.index == index as usize,
    {
        NameColor { name, vis_name, color: color as u8, index: index as usize }
    }
}

} // verus!
