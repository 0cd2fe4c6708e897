//! Plugin's host (FL Studio).
use vstd::prelude::*;

use std::collections::HashMap;

use crate::voice::{self, Voice};
use crate::{AsRawPtr, FlMessage, MidiMessage, ProcessModeFlags, Transport, ValuePtr};

pub mod prompt;

verus! {

broadcast use vstd::std_specs::hash::group_hash_axioms;

/// `Host::in_buf` flag, which is added before adding to the buffer.
pub const IO_LOCK: i32 = 0;

/// `Host::in_buf` flag, which is added after adding to the buffer.
pub const IO_UNLOCK: i32 = 1;

/// `Host::out_buf` flag, which tells if the buffer is filled.
pub const IO_FILLED: i32 = 1;

/// Output voice.
#[derive(Clone, Copy, Debug, PartialEq, Eq, Structural)]
pub struct OutVoice {
    tag: voice::Tag,
    params_ptr: ValuePtr,
    inner_tag: voice::Tag,
}

impl OutVoice {
    /// The voice's tag.
    pub closed spec fn tag_spec(&self) -> voice::Tag {
        self.tag
    }

    /// The address of the voice parameters handed to the host.
    pub closed spec fn params_ptr_spec(&self) -> ValuePtr {
        self.params_ptr
    }

    /// The tag the host gave the voice.
    pub closed spec fn inner_tag_spec(&self) -> voice::Tag {
        self.inner_tag
    }

    /// A voice with the plugin's tag, the address of its parameters and the host's tag.
    pub fn new(tag: voice::Tag, params_ptr: ValuePtr, inner_tag: voice::Tag) -> (r: Self)
        ensures
            r.tag_spec() == tag,
            r.params_ptr_spec() == params_ptr,
            r.inner_tag_spec() == inner_tag,
    {
        OutVoice { tag, params_ptr, inner_tag }
    }

    /// Get the address of the voice parameters.
    pub fn params_ptr(&self) -> (r: ValuePtr)
        ensures
            r == self.params_ptr_spec(),
    {
        self.params_ptr
    }

    /// Get inner tag.
    pub fn inner_tag(&self) -> (r: voice::Tag)
        ensures
            r == self.inner_tag_spec(),
    {
        self.inner_tag
    }
}

impl OutVoice {
    /// Get the voice's tag.
    pub fn tag(&self) -> (r: voice::Tag)
        ensures
            r == self.tag_spec(),
    {
        self.tag
    }
}

impl Voice for OutVoice {
    fn tag(&self) -> voice::Tag {
        self.tag
    }
}

/// The inner tag with which the host answers a trigger when the output has no destination.
pub const NO_DESTINATION: isize = -1;

/// The output voices that are alive, by the plugin's tag of each.
#[derive(Debug)]
pub struct OutVoices {
    voices: HashMap<isize, OutVoice>,
}

impl View for OutVoices {
    type V = Map<isize, OutVoice>;

    closed spec fn view(&self) -> Map<isize, OutVoice> {
        self.voices@
    }
}

impl OutVoices {
    /// Each voice is filed under its own tag.
    pub closed spec fn wf(&self) -> bool {
        forall|t: isize| #[trigger] self.voices@.contains_key(t) ==> self.voices@[t].tag.0 == t
    }

    /// No output voice.
    pub fn new() -> (r: Self)
        ensures
            r.wf(),
            r@ == Map::<isize, OutVoice>::empty(),
    {
        OutVoices { voices: HashMap::new() }
    }

    /// Record the host's answer to a trigger of the voice `tag`, whose parameters stand at
    /// `params_ptr`. An answer of `NO_DESTINATION` means that no voice was made; any other answer
    /// is the host's tag for the new voice, which is recorded (in place of any voice of the same
    /// tag) and returned.
    pub fn triggered(&mut self, tag: voice::Tag, params_ptr: ValuePtr, inner_tag: isize) -> (r:
        Option<OutVoice>)
        requires
            old(self).wf(),
        ensures
            final(self).wf(),
            inner_tag == NO_DESTINATION ==> r is None && final(self)@ == old(self)@,
            inner_tag != NO_DESTINATION ==> {
                &&& r matches Some(v)
                &&& v.tag_spec() == tag
                &&& v.params_ptr_spec() == params_ptr
                &&& v.inner_tag_spec() == voice::Tag(inner_tag)
                &&& final(self)@ == old(self)@.insert(tag.0, v)
            },
    {
        if inner_tag == NO_DESTINATION {
            return None;
        }
        let voice = OutVoice::new(tag, params_ptr, voice::Tag(inner_tag));
        self.voices.insert(tag.0, voice);
        Some(voice)
    }

    /// The voice `tag`, if it is alive.
    pub fn get(&self, tag: voice::Tag) -> (r: Option<OutVoice>)
        requires
            self.wf(),
        ensures
            self@.contains_key(tag.0) ==> r == Some(self@[tag.0]),
            !self@.contains_key(tag.0) ==> r is None,
            r matches Some(v) ==> v.tag_spec() == tag,
    {
        match self.voices.get(&tag.0) {
            Some(v) => Some(*v),
            None => None,
        }
    }

    /// Forget the voice `tag` and return it, if it was alive.
    pub fn remove(&mut self, tag: voice::Tag) -> (r: Option<OutVoice>)
        requires
            old(self).wf(),
        ensures
            final(self).wf(),
            final(self)@ == old(self)@.remove(tag.0),
            old(self)@.contains_key(tag.0) ==> r == Some(old(self)@[tag.0]),
            !old(self)@.contains_key(tag.0) ==> r is None,
    {
        self.voices.remove(&tag.0)
    }
}

/// Message from the host to the plugin
#[derive(Clone, Copy, Debug, PartialEq, Eq, Structural)]
pub enum Message {
    /// Contains the handle of the parent window if the editor has to be shown.
    ShowEditor(Option<ValuePtr>),
    /// Change the processing mode flags. This can be ignored.
    ///
    /// The value is `ProcessModeFlags`.
    ProcessMode(ProcessModeFlags),
    /// The continuity of processing is broken. This means that the user has jumped ahead or back
    /// in the playlist, for example. When this happens, the plugin needs to clear all buffers and
    /// start like new
    ///
    /// **Warning: this can be called from the mixer thread!**
    Flush,
    /// This changes the maximum processing length, expressed in samples.
    ///
    /// The value is the new length.
    SetBlockSize(u32),
    /// This changes the sample rate.
    ///
    /// Value holds the new sample rate
    SetSampleRate(u32),
    /// This allows the plugin to define how the editor window should be resized.
    ///
    /// The first value will hold a pointer to a rectangle (PRect) for the minimum (Left and Top)
    /// and maximum (Right and Bottom) width and height of the window
    ///
    /// The second value holds a pointer (PPoint) to a point structure that defines by how much the
    /// window size should change horizontally and vertically when the user drags the border.
    WindowMinMax(ValuePtr, ValuePtr),
    /// (not used yet) The host has noticed that too much processing power is used and asks the
    /// plugin to kill its weakest voice.
    ///
    /// The plugin has to return `true` if it did anything, `false` otherwise
    KillVoice,
    /// Only full generators have to respond to this message. It's meant to allow the cutoff and
    /// resonance parameters of a voice to be used for other purposes, if the generator doesn't use
    /// them as cutoff and resonance.
    ///
    /// - return `0u8` if the plugin doesn't support the default per-voice level value
    /// - return `1u8` if the plugin supports the default per-voice level value (filter cutoff (0)
    ///   or filter resonance (1))
    /// - return `2u8` if the plugin supports the per-voice level value, but for another function
    ///   (then check `GetName::VoiceLevel` to
    ///   provide your own names)
    UseVoiceLevels(u8),
    /// Called when the user selects a preset.
    ///
    /// The value tells you which one to set.
    SetPreset(u64),
    /// A sample has been loaded into the parent channel. This is given to the plugin as a
    /// wavetable, in the same format as the WaveTables member of TFruityPlugin. Also see
    /// FPF_GetChanCustomShape.
    ///
    /// The value holds the new shape: the address of `WAVETABLE_SIZE` `f32` samples.
    ChanSampleChanged(ValuePtr),
    /// The host has enabled/disabled the plugin.
    ///
    /// The value will contain the new state (`false` for disabled, `true` for enabled)
    ///
    /// **Warning: this can be called from the mixer thread!**
    SetEnabled(bool),
    /// The host is playing or stopped.
    ///
    /// The value is playing status.
    ///
    /// **Warning: can be called from the mixing thread**
    SetPlaying(bool),
    /// The song position has jumped from one position to another non-consecutive position
    ///
    /// **Warning: can be called from the mixing thread**
    SongPosChanged,
    /// The time signature has changed.
    ///
    /// The value is the address of the host's time signature record, which reads as a
    /// `TimeSignature`.
    SetTimeSig(ValuePtr),
    /// This is called to let the plugin tell the host which files need to be collected or put in
    /// zip files.
    ///
    /// The value holds the file #, which starts at 0
    ///
    /// The name of the file is passed to the host as a `String` in the result of the
    /// dispatcher function. The host keeps calling this until the plugin returns zero.
    CollectFile(usize),
    /// (private message to known plugins, ignore) tells the plugin to update a specific,
    /// non-automated param
    SetInternalParam,
    /// This tells the plugin how many send tracks there are (fixed to 4, but could be set by the
    /// user at any time in a future update)
    ///
    /// The value holds the number of send tracks
    SetNumSends(u64),
    /// Called when a file has been dropped onto the parent channel's button.
    ///
    /// The value holds the address of the filename, a C string.
    LoadFile(ValuePtr),
    /// Set fit to time in beats
    ///
    /// The value holds the time, as the bit pattern of an `f32`.
    SetFitTime(u32),
    /// Sets the number of samples in each tick. This value changes when the tempo, ppq or sample
    /// rate have changed.
    ///
    /// The value is the bit pattern of an `f32`.
    ///
    /// **Warning: can be called from the mixing thread**
    SetSamplesPerTick(u32),
    /// Sets the frequency at which Idle is called.
    ///
    /// The value holds the new time (milliseconds)
    SetIdleTime(u64),
    /// (FL 7.0) The host has focused/unfocused the editor (focused in the value) (plugin can use
    /// this to steal keyboard focus)
    SetFocus(bool),
    /// (FL 8.0) This is sent by the host for special transport messages, from a controller.
    ///
    /// The value is the type of message (see `Transport`)
    ///
    /// Result should be `true` if handled, `false` otherwise
    Transport(Transport),
    /// (FL 8.0) Live MIDI input preview. This allows the plugin to steal messages (mostly for
    /// transport purposes).
    ///
    /// The value has the packed MIDI message. Only note on/off for now.
    ///
    /// Result should be `true` if handled, `false` otherwise
    MidiIn(MidiMessage),
    /// Mixer routing changed, must use
    /// `plugin::message::GetNumInOut` if
    /// necessary
    RoutingChanged,
    /// Retrieves info about a parameter.
    ///
    /// The value is the parameter number.
    ///
    /// see `ParameterFlags` for the result
    GetParamInfo(usize),
    /// Called after a project has been loaded, to leave a chance to kill automation (that could be
    /// loaded after the plugin is created) if necessary.
    ProjLoaded,
    /// (private message to the plugin wrapper) Load a (VST, DX) plugin state,
    ///
    WrapperLoadState,
    /// Called when the settings button on the titlebar is switched.
    ///
    /// On/off in value.
    ShowSettings(bool),
    /// Input (the first value)/output (the second value) latency of the output, in samples (only
    /// for information)
    SetIoLatency(u32, u32),
    /// (message from Patcher) retrieves the preferred number of audio inputs (the value is `0`),
    /// audio outputs (the value is `1`) or voice outputs (the value is `2`)
    ///
    /// Result has to be:
    ///
    /// * `0i32` - default number
    /// * `-1i32` - none
    PreferredNumIo(u8),
    /// Unknown message.
    Unknown,
}

impl Message {
    /// The message that a raw message from the host stands for.
    pub open spec fn decode(message: FlMessage) -> Message {
        match message.id {
            0 => if message.value == 1 {
                Message::ShowEditor(None)
            } else {
                Message::ShowEditor(Some(ValuePtr(message.value)))
            },
            1 => Message::ProcessMode(
                ProcessModeFlags { bits: message.value & ProcessModeFlags::known_bits() },
            ),
            2 => Message::Flush,
            3 => Message::SetBlockSize(message.value as u32),
            4 => Message::SetSampleRate(message.value as u32),
            5 => Message::WindowMinMax(ValuePtr(message.index), ValuePtr(message.value)),
            6 => Message::KillVoice,
            7 => Message::UseVoiceLevels(message.index as u8),
            9 => Message::SetPreset(message.index as u64),
            10 => Message::ChanSampleChanged(ValuePtr(message.value)),
            11 => Message::SetEnabled(message.value != 0),
            12 => Message::SetPlaying(message.value != 0),
            13 => Message::SongPosChanged,
            14 => Message::SetTimeSig(ValuePtr(message.value)),
            15 => Message::CollectFile(message.index as usize),
            16 => Message::SetInternalParam,
            17 => Message::SetNumSends(message.value as u64),
            18 => Message::LoadFile(ValuePtr(message.value)),
            19 => Message::SetFitTime(message.value as u32),
            20 => Message::SetSamplesPerTick(message.value as u32),
            21 => Message::SetIdleTime(message.value as u64),
            22 => Message::SetFocus(message.value != 0),
            23 => Message::Transport(Transport::decode(message.index, message.value)),
            24 => Message::MidiIn(MidiMessage::unpack(message.value as u64)),
            25 => Message::RoutingChanged,
            26 => Message::GetParamInfo(message.index as usize),
            27 => Message::ProjLoaded,
            28 => Message::WrapperLoadState,
            29 => Message::ShowSettings(message.value != 0),
            30 => Message::SetIoLatency(message.index as u32, message.value as u32),
            32 => Message::PreferredNumIo(message.index as u8),
            _ => Message::Unknown,
        }
    }

    /// The editor is shown in the window whose handle is `value`, or hidden where `value` is `1`.
    fn from_show_editor(message: FlMessage) -> (r: Self)
        ensures
            r == (if message.value == 1 {
                Message::ShowEditor(None)
            } else {
                Message::ShowEditor(Some(ValuePtr(message.value)))
            }),
    {
        if message.value == 1 {
            Message::ShowEditor(None)
        } else {
            Message::ShowEditor(Some(ValuePtr(message.value)))
        }
    }

    /// The processing mode flags that `value` holds, with unknown bits dropped.
    fn from_process_mode(message: FlMessage) -> (r: Self)
        ensures
            r == Message::ProcessMode(
                ProcessModeFlags { bits: message.value & ProcessModeFlags::known_bits() },
            ),
    {
        let flags = ProcessModeFlags::from_bits_truncate(message.value);
        Message::ProcessMode(flags)
    }
}

impl From<FlMessage> for Message {
    fn from(message: FlMessage) -> (r: Self) {
        match message.id {
            0 => Message::from_show_editor(message),
            1 => Message::from_process_mode(message),
            2 => Message::Flush,
            3 => Message::SetBlockSize(message.value as u32),
            4 => Message::SetSampleRate(message.value as u32),
            5 => Message::WindowMinMax(ValuePtr(message.index), ValuePtr(message.value)),
            6 => Message::KillVoice,
            7 => Message::UseVoiceLevels(message.index as u8),
            9 => Message::SetPreset(message.index as u64),
            10 => Message::ChanSampleChanged(ValuePtr(message.value)),
            11 => Message::SetEnabled(message.value != 0),
            12 => Message::SetPlaying(message.value != 0),
            13 => Message::SongPosChanged,
            14 => Message::SetTimeSig(ValuePtr(message.value)),
            15 => Message::CollectFile(message.index as usize),
            16 => Message::SetInternalParam,
            17 => Message::SetNumSends(message.value as u64),
            18 => Message::LoadFile(ValuePtr(message.value)),
            19 => Message::SetFitTime(message.value as u32),
            20 => Message::SetSamplesPerTick(message.value as u32),
            21 => Message::SetIdleTime(message.value as u64),
            22 => Message::SetFocus(message.value != 0),
            23 => Message::Transport(Transport::from(message)),
            24 => Message::MidiIn(MidiMessage::from(message.value as u64)),
            25 => Message::RoutingChanged,
            26 => Message::GetParamInfo(message.index as usize),
            27 => Message::ProjLoaded,
            28 => Message::WrapperLoadState,
            29 => Message::ShowSettings(message.value != 0),
            30 => Message::SetIoLatency(message.index as u32, message.value as u32),
            32 => Message::PreferredNumIo(message.index as u8),
            _ => Message::Unknown,
        }
    }
}

impl vstd::std_specs::convert::FromSpecImpl<FlMessage> for Message {
    open spec fn obeys_from_spec() -> bool {
        true
    }

    open spec fn from_spec(message: FlMessage) -> Message {
        Message::decode(message)
    }
}

/// The host sends this message when it wants to know a text representation of some value.
///
/// See `Plugin::name_of`
#[derive(Clone, Copy, Debug, PartialEq, Eq, Structural)]
pub enum GetName {
    /// Retrieve the name of a parameter.
    ///
    /// Value specifies parameter index.
    Param(usize),
    /// Retrieve the text representation of the value of a parameter for use in the event editor.
    ///
    /// The first value specifies parameter index.
    ///
    /// The second value specifies value.
    ParamValue(usize, isize),
    /// Retrieve the name of a note in piano roll.
    ///
    /// The first value specifies note index.
    ///
    /// The second one specifies the color (or MIDI channel).
    Semitone(u8, u8),
    /// (not used yet) Retrieve the name of a patch.
    ///
    /// The value specifies patch index.
    Patch(usize),
    /// (optional) Retrieve the name of a per-voice parameter, specified by the value.
    ///
    /// Default is filter cutoff (value=0) and resonance (value=1).
    VoiceLevel(usize),
    /// Longer description for per-voice parameter (works like
    /// `VoiceLevel`)
    VoiceLevelHint(usize),
    /// This is called when the host wants to know the name of a preset, for plugins that support
    /// presets (see
    /// `plugin::message::SetNumPresets`).
    ///
    /// The value specifies preset index.
    Preset(usize),
    /// For plugins that output controllers, retrieve the name of output controller.
    ///
    /// The value specifies controller index.
    OutCtrl(usize),
    /// Retrieve name of per-voice color (MIDI channel).
    ///
    /// The value specifies the color.
    VoiceColor(u8),
    /// For plugins that output voices, retrieve the name of output voice.
    ///
    /// The value specifies voice index.
    OutVoice(usize),
    /// Message ID is unknown
    Unknown,
}

impl GetName {
    /// The request that a raw message stands for.
    pub open spec fn decode(message: FlMessage) -> GetName {
        match message.id {
            0 => GetName::Param(message.index as usize),
            1 => GetName::ParamValue(message.index as usize, message.value),
            2 => GetName::Semitone(message.index as u8, message.value as u8),
            3 => GetName::Patch(message.index as usize),
            4 => GetName::VoiceLevel(message.index as usize),
            5 => GetName::VoiceLevelHint(message.index as usize),
            6 => GetName::Preset(message.index as usize),
            7 => GetName::OutCtrl(message.index as usize),
            8 => GetName::VoiceColor(message.index as u8),
            9 => GetName::OutVoice(message.index as usize),
            _ => GetName::Unknown,
        }
    }

    /// The raw message that stands for a request; `Unknown` has none.
    pub open spec fn encode(self) -> Option<FlMessage> {
        match self {
            GetName::Param(index) => Some(FlMessage { id: 0, index: index.raw_ptr_spec(), value: 0 }),
            GetName::ParamValue(index, value) => Some(FlMessage { id: 1, index: index.raw_ptr_spec(), value: value }),
            GetName::Semitone(index, value) => Some(FlMessage { id: 2, index: index.raw_ptr_spec(), value: value.raw_ptr_spec() }),
            GetName::Patch(index) => Some(FlMessage { id: 3, index: index.raw_ptr_spec(), value: 0 }),
            GetName::VoiceLevel(index) => Some(FlMessage { id: 4, index: index.raw_ptr_spec(), value: 0 }),
            GetName::VoiceLevelHint(index) => Some(FlMessage { id: 5, index: index.raw_ptr_spec(), value: 0 }),
            GetName::Preset(index) => Some(FlMessage { id: 6, index: index.raw_ptr_spec(), value: 0 }),
            GetName::OutCtrl(index) => Some(FlMessage { id: 7, index: index.raw_ptr_spec(), value: 0 }),
            GetName::VoiceColor(index) => Some(FlMessage { id: 8, index: index.raw_ptr_spec(), value: 0 }),
            GetName::OutVoice(index) => Some(FlMessage { id: 9, index: index.raw_ptr_spec(), value: 0 }),
            GetName::Unknown => None,
        }
    }
}

impl From<FlMessage> for GetName {
    fn from(message: FlMessage) -> (r: Self) {
        match message.id {
            0 => GetName::Param(message.index as usize),
            1 => GetName::ParamValue(message.index as usize, message.value),
            2 => GetName::Semitone(message.index as u8, message.value as u8),
            3 => GetName::Patch(message.index as usize),
            4 => GetName::VoiceLevel(message.index as usize),
            5 => GetName::VoiceLevelHint(message.index as usize),
            6 => GetName::Preset(message.index as usize),
            7 => GetName::OutCtrl(message.index as usize),
            8 => GetName::VoiceColor(message.index as u8),
            9 => GetName::OutVoice(message.index as usize),
            _ => GetName::Unknown,
        }
    }
}

impl vstd::std_specs::convert::FromSpecImpl<FlMessage> for GetName {
    open spec fn obeys_from_spec() -> bool {
        true
    }

    open spec fn from_spec(message: FlMessage) -> GetName {
        GetName::decode(message)
    }
}

impl From<GetName> for Option<FlMessage> {
    fn from(value: GetName) -> (r: Self) {
        match value {
            GetName::Param(index) => Some(FlMessage { id: 0, index: index.as_raw_ptr(), value: 0 }),
            GetName::ParamValue(index, value) => Some(FlMessage { id: 1, index: index.as_raw_ptr(), value: value }),
            GetName::Semitone(index, value) => Some(FlMessage { id: 2, index: index.as_raw_ptr(), value: value.as_raw_ptr() }),
            GetName::Patch(index) => Some(FlMessage { id: 3, index: index.as_raw_ptr(), value: 0 }),
            GetName::VoiceLevel(index) => Some(FlMessage { id: 4, index: index.as_raw_ptr(), value: 0 }),
            GetName::VoiceLevelHint(index) => Some(FlMessage { id: 5, index: index.as_raw_ptr(), value: 0 }),
            GetName::Preset(index) => Some(FlMessage { id: 6, index: index.as_raw_ptr(), value: 0 }),
            GetName::OutCtrl(index) => Some(FlMessage { id: 7, index: index.as_raw_ptr(), value: 0 }),
            GetName::VoiceColor(index) => Some(FlMessage { id: 8, index: index.as_raw_ptr(), value: 0 }),
            GetName::OutVoice(index) => Some(FlMessage { id: 9, index: index.as_raw_ptr(), value: 0 }),
            GetName::Unknown => None,
        }
    }
}

impl vstd::std_specs::convert::FromSpecImpl<GetName> for Option<FlMessage> {
    open spec fn obeys_from_spec() -> bool {
        true
    }

    open spec fn from_spec(value: GetName) -> Option<FlMessage> {
        value.encode()
    }
}

/// Decoding the message that a request is encoded as gives the request back.
pub proof fn lemma_get_name_round_trip(name: GetName)
    requires
        name != GetName::Unknown,
    ensures
        name.encode() matches Some(m) && GetName::decode(m) == name,
{
    assert(forall|x: usize| #[trigger] ((x as isize) as usize) == x) by (bit_vector);
    assert(forall|x: u8| #[trigger] ((x as isize) as u8) == x) by (bit_vector);
}

/// Event IDs.
#[derive(Clone, Copy, Debug, PartialEq, Eq, Structural)]
pub enum Event {
    /// The tempo has changed.
    ///
    /// First value holds the tempo, as the bit pattern of an `f32`.
    ///
    /// Second value holds the average samples per tick.
    Tempo(u32, u32),
    /// The maximum polyphony has changed. This is only of intrest to standalone generators.
    ///
    /// Value will hold the new maximum polyphony. A value <= 0 will mean infinite polyphony.
    MaxPoly(i32),
    /// The MIDI channel panning has changed.
    ///
    /// First value holds the new pan (0..127).
    ///
    /// Second value holds pan in -64..64 range.
    MidiPan(u8, i8),
    /// The MIDI channel volume has changed.
    ///
    /// First value holds the new volume (0..127).
    ///
    /// Second value also holds the new volume, as the bit pattern of an `f32` in the range 0..1.
    MidiVol(u8, u32),
    /// The MIDI channel pitch has changed.
    ///
    /// Value will hold the new value in *cents*.
    ///
    /// This has to be translated according to the current pitch bend range.
    MidiPitch(i32),
    /// Unknown event.
    Unknown,
}

impl Event {
    /// The event that a raw message from the host stands for.
    pub open spec fn decode(message: FlMessage) -> Event {
        match message.id {
            0 => Event::Tempo(message.index as u32, message.value as u32),
            1 => Event::MaxPoly(message.index as i32),
            2 => Event::MidiPan(message.index as u8, message.value as i8),
            3 => Event::MidiVol(message.index as u8, message.value as u32),
            4 => Event::MidiPitch(message.index as i32),
            _ => Event::Unknown,
        }
    }
}

impl From<FlMessage> for Event {
    fn from(message: FlMessage) -> (r: Self) {
        match message.id {
            0 => Event::Tempo(message.index as u32, message.value as u32),
            1 => Event::MaxPoly(message.index as i32),
            2 => Event::MidiPan(message.index as u8, message.value as i8),
            3 => Event::MidiVol(message.index as u8, message.value as u32),
            4 => Event::MidiPitch(message.index as i32),
            _ => Event::Unknown,
        }
    }
}

impl vstd::std_specs::convert::FromSpecImpl<FlMessage> for Event {
    open spec fn obeys_from_spec() -> bool {
        true
    }

    open spec fn from_spec(message: FlMessage) -> Event {
        Event::decode(message)
    }
}

} // verus!
