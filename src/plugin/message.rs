//! Plugin messages: what the plugin can ask of the host, and how each request is encoded as a
//! raw message.
//!
//! A request that carries no data beyond integers becomes a raw message through `From`. A request
//! that carries text, or that the host answers by filling a record, needs memory that lives
//! outside this crate: its `to_message` method takes the address of that memory and builds the
//! raw message around it.
use vstd::prelude::*;

use crate::host::GetName;
use crate::{intptr_t, AsRawPtr, FlMessage, MessageBoxFlags, TimeFormat, ValuePtr};

verus! {

/// Tells the host that the user has clicked an item of the control popup menu.
///
/// The first value holds the parameter index.
///
/// The second value holds the popup item index.
#[derive(Clone, Copy, Debug, PartialEq, Eq, Structural)]
pub struct ParamMenu(pub usize, pub usize);

impl From<ParamMenu> for FlMessage {
    fn from(message: ParamMenu) -> (r: Self) {
        FlMessage {
            id: 0,
            index: message.0.as_raw_ptr(),
            value: message.1.as_raw_ptr(),
        }
    }
}

impl vstd::std_specs::convert::FromSpecImpl<ParamMenu> for FlMessage {
    open spec fn obeys_from_spec() -> bool {
        true
    }

    open spec fn from_spec(message: ParamMenu) -> FlMessage {
        FlMessage {
            id: 0,
            index: message.0 as isize,
            value: message.1 as isize,
        }
    }
}

/// Notify the host that the editor has been resized.
#[derive(Clone, Copy, Debug, PartialEq, Eq, Structural)]
pub struct EditorResized;

impl From<EditorResized> for FlMessage {
    fn from(_message: EditorResized) -> (r: Self) {
        FlMessage { id: 2, index: 0, value: 0 }
    }
}

impl vstd::std_specs::convert::FromSpecImpl<EditorResized> for FlMessage {
    open spec fn obeys_from_spec() -> bool {
        true
    }

    open spec fn from_spec(_message: EditorResized) -> FlMessage {
        FlMessage { id: 2, index: 0, value: 0 }
    }
}

/// Notify the host that names (`Plugin::name_of`) have
/// changed, with the type of names in value (see `GetName`).
#[derive(Clone, Copy, Debug, PartialEq, Eq, Structural)]
pub struct NamesChanged(pub GetName);

impl From<NamesChanged> for FlMessage {
    fn from(message: NamesChanged) -> (r: Self) {
        let value = match Option::<FlMessage>::from(message.0) {
            Some(msg) => msg.id,
            None => 0,
        };
        FlMessage { id: 3, index: 0, value }
    }
}

impl vstd::std_specs::convert::FromSpecImpl<NamesChanged> for FlMessage {
    open spec fn obeys_from_spec() -> bool {
        true
    }

    open spec fn from_spec(message: NamesChanged) -> FlMessage {
        FlMessage {
            id: 3,
            index: 0,
            value: match message.0.encode() {
                Some(m) => m.id,
                None => 0,
            },
        }
    }
}

/// This makes the host enable its MIDI output. This is useful when a MIDI out plugin is
/// created (a plugin which will send midi messages to external midi hardware, most likely).
#[derive(Clone, Copy, Debug, PartialEq, Eq, Structural)]
pub struct ActivateMidi;

impl From<ActivateMidi> for FlMessage {
    fn from(_message: ActivateMidi) -> (r: Self) {
        FlMessage { id: 4, index: 0, value: 0 }
    }
}

impl vstd::std_specs::convert::FromSpecImpl<ActivateMidi> for FlMessage {
    open spec fn obeys_from_spec() -> bool {
        true
    }

    open spec fn from_spec(_message: ActivateMidi) -> FlMessage {
        FlMessage { id: 4, index: 0, value: 0 }
    }
}

/// The plugin either wants to be notified about MIDI messages (for processing or filtering), or
/// wants to stop being notified about them.
///
/// Value tells the host whether the plugin want to be notified or not (`true` to be added to the
/// list of plugins that are notified, `false` to be removed from the list).
#[derive(Clone, Copy, Debug, PartialEq, Eq, Structural)]
pub struct WantMidiInput(pub bool);

impl From<WantMidiInput> for FlMessage {
    fn from(message: WantMidiInput) -> (r: Self) {
        FlMessage { id: 5, index: 0, value: message.0.as_raw_ptr() }
    }
}

impl vstd::std_specs::convert::FromSpecImpl<WantMidiInput> for FlMessage {
    open spec fn obeys_from_spec() -> bool {
        true
    }

    open spec fn from_spec(message: WantMidiInput) -> FlMessage {
        FlMessage { id: 5, index: 0, value: if message.0 { 1 } else { 0 } }
    }
}

/// Ask the host to kill the automation linked to the plugin. This can for example be used for a
/// demo version of the plugin. The host will kill all automation information in the range <first
/// value>..<second value>. So to kill the automation for all parameters, you'd call the method
/// with <first value> = 0 and <second value> = <num of params> - 1.
///
/// The first value is the first parameter index for which to kill the automation.
///
/// The second value is the last parameter index for which to kill the automation (inclusive).
#[derive(Clone, Copy, Debug, PartialEq, Eq, Structural)]
pub struct KillAutomation(pub usize, pub usize);

impl From<KillAutomation> for FlMessage {
    fn from(message: KillAutomation) -> (r: Self) {
        FlMessage {
            id: 8,
            index: message.0.as_raw_ptr(),
            value: message.1.as_raw_ptr(),
        }
    }
}

impl vstd::std_specs::convert::FromSpecImpl<KillAutomation> for FlMessage {
    open spec fn obeys_from_spec() -> bool {
        true
    }

    open spec fn from_spec(message: KillAutomation) -> FlMessage {
        FlMessage {
            id: 8,
            index: message.0 as isize,
            value: message.1 as isize,
        }
    }
}

/// This tells the host how many presets are supported by the plugin (this is mainly used by the
/// wrapper plugin).
///
/// The value holds the number of presets.
#[derive(Clone, Copy, Debug, PartialEq, Eq, Structural)]
pub struct SetNumPresets(pub usize);

impl From<SetNumPresets> for FlMessage {
    fn from(message: SetNumPresets) -> (r: Self) {
        FlMessage { id: 9, index: 0, value: message.0.as_raw_ptr() }
    }
}

impl vstd::std_specs::convert::FromSpecImpl<SetNumPresets> for FlMessage {
    open spec fn obeys_from_spec() -> bool {
        true
    }

    open spec fn from_spec(message: SetNumPresets) -> FlMessage {
        FlMessage { id: 9, index: 0, value: message.0 as isize }
    }
}

/// Sets a new short name for the parent.
///
/// The value is the new name.
#[derive(Debug)]
pub struct SetNewName(pub String);

impl SetNewName {
    /// The raw message, given the address of the C string that holds the text.
    pub fn to_message(&self, text: ValuePtr) -> (r: FlMessage)
        ensures
            r == (FlMessage { id: 10, index: 0, value: text.0 }),
    {
        FlMessage { id: 10, index: 0, value: text.0 }
    }
}

/// Used by the VSTi wrapper, because the dumb VSTGUI needs idling for his knobs.
#[derive(Clone, Copy, Debug, PartialEq, Eq, Structural)]
pub struct VstiIdle;

impl From<VstiIdle> for FlMessage {
    fn from(_message: VstiIdle) -> (r: Self) {
        FlMessage { id: 11, index: 0, value: 0 }
    }
}

impl vstd::std_specs::convert::FromSpecImpl<VstiIdle> for FlMessage {
    open spec fn obeys_from_spec() -> bool {
        true
    }

    open spec fn from_spec(_message: VstiIdle) -> FlMessage {
        FlMessage { id: 11, index: 0, value: 0 }
    }
}

/// Tell the host that the plugin wants to receive the idle message (or not). Idle messages are
/// received by default.
#[derive(Clone, Copy, Debug, PartialEq, Eq, Structural)]
pub enum WantIdle {
    /// Disabled.
    Disabled,
    /// Enabled when UI is visible (default).
    EnabledVisible,
    /// Always enabled.
    EnabledAlways,
}

impl WantIdle {
    /// The code the host gives this choice.
    pub open spec fn code(self) -> intptr_t {
        match self {
            WantIdle::Disabled => 0,
            WantIdle::EnabledVisible => 1,
            WantIdle::EnabledAlways => 2,
        }
    }
}

impl From<WantIdle> for intptr_t {
    fn from(message: WantIdle) -> (r: Self) {
        match message {
            WantIdle::Disabled => 0,
            WantIdle::EnabledVisible => 1,
            WantIdle::EnabledAlways => 2,
        }
    }
}

impl vstd::std_specs::convert::FromSpecImpl<WantIdle> for intptr_t {
    open spec fn obeys_from_spec() -> bool {
        true
    }

    open spec fn from_spec(message: WantIdle) -> intptr_t {
        message.code()
    }
}

impl From<WantIdle> for FlMessage {
    fn from(message: WantIdle) -> (r: Self) {
        FlMessage { id: 13, index: 0, value: intptr_t::from(message) }
    }
}

impl vstd::std_specs::convert::FromSpecImpl<WantIdle> for FlMessage {
    open spec fn obeys_from_spec() -> bool {
        true
    }

    open spec fn from_spec(message: WantIdle) -> FlMessage {
        FlMessage { id: 13, index: 0, value: message.code() }
    }
}

/// Ask the host to search for a file in its search paths.
///
/// Value should hold the simple filename.
///
/// The full path is returned as result of the function (`String`).
#[derive(Debug)]
pub struct LocateDataFile(pub String);

impl LocateDataFile {
    /// The raw message, given the address of the C string that holds the text.
    pub fn to_message(&self, text: ValuePtr) -> (r: FlMessage)
        ensures
            r == (FlMessage { id: 14, index: 0, value: text.0 }),
    {
        FlMessage { id: 14, index: 0, value: text.0 }
    }
}

/// Translate tick time into Bar:Step:Tick (warning: it's *not* Bar:Beat:Tick).
///
/// The value should hold the tick time to translate.
///
/// The result is `SongTime`.
#[derive(Clone, Copy, Debug, PartialEq, Eq, Structural)]
pub struct TicksToTime(pub u32);

impl TicksToTime {
    /// The raw message, given the address of the record the host fills in with the result.
    pub fn to_message(&self, result: ValuePtr) -> (r: FlMessage)
        ensures
            r == (FlMessage { id: 16, index: result.0, value: self.0 as isize }),
    {
        FlMessage { id: 16, index: result.0, value: self.0.as_raw_ptr() }
    }
}

/// Before the popup menu is shown, you must fill it with the entries set by the host. You use this
/// message to find out which those are.
///
/// First value is the parameter index.
///
/// Second value holds the popup item index.
///
/// The result is `Option<ParamMenuEntry>`.
#[derive(Clone, Copy, Debug, PartialEq, Eq, Structural)]
pub struct GetParamMenuEntry(pub usize, pub usize);

impl From<GetParamMenuEntry> for FlMessage {
    fn from(message: GetParamMenuEntry) -> (r: Self) {
        FlMessage {
            id: 18,
            index: message.0.as_raw_ptr(),
            value: message.1.as_raw_ptr(),
        }
    }
}

impl vstd::std_specs::convert::FromSpecImpl<GetParamMenuEntry> for FlMessage {
    open spec fn obeys_from_spec() -> bool {
        true
    }

    open spec fn from_spec(message: GetParamMenuEntry) -> FlMessage {
        FlMessage {
            id: 18,
            index: message.0 as isize,
            value: message.1 as isize,
        }
    }
}

/// This will make FL to show a message box.
///
/// The first value is the message box title.
///
/// The second value is the message.
///
/// The third value is flags (see `MessageBoxFlags`).
///
/// The result is `MessageBoxResult`.
#[derive(Debug)]
pub struct MessageBox(pub String, pub String, pub MessageBoxFlags);

impl MessageBox {
    /// The text the host shows: the title, a `|`, then the message.
    pub fn text(&self) -> (r: String)
        ensures
            r@ == self.0@ + seq!['|'] + self.1@,
    {
        join_title(&self.0, &self.1)
    }

    /// The raw message, given the address of the C string that holds [`MessageBox::text`].
    pub fn to_message(&self, text: ValuePtr) -> (r: FlMessage)
        ensures
            r == (FlMessage { id: 19, index: text.0, value: self.2@ }),
    {
        FlMessage { id: 19, index: text.0, value: self.2.as_raw_ptr() }
    }
}

/// Turn on a preview note.
///
/// The first value is the note number.
///
/// The second value is the color (or MIDI channel).
///
/// The third value is the velocity.
#[derive(Clone, Copy, Debug, PartialEq, Eq, Structural)]
pub struct NoteOn(pub u8, pub u8, pub u8);

impl From<NoteOn> for FlMessage {
    fn from(message: NoteOn) -> (r: Self) {
        FlMessage {
            id: 20,
            index: dword_from_note_and_ch(message.0, message.1).as_raw_ptr(),
            value: message.2.as_raw_ptr(),
        }
    }
}

impl vstd::std_specs::convert::FromSpecImpl<NoteOn> for FlMessage {
    open spec fn obeys_from_spec() -> bool {
        true
    }

    open spec fn from_spec(message: NoteOn) -> FlMessage {
        FlMessage {
            id: 20,
            index: (message.0 + message.1 * 65536) as isize,
            value: message.2 as isize,
        }
    }
}

/// Turn a preview note off.
///
/// The value is note number.
#[derive(Clone, Copy, Debug, PartialEq, Eq, Structural)]
pub struct NoteOff(pub u8);

impl From<NoteOff> for FlMessage {
    fn from(message: NoteOff) -> (r: Self) {
        FlMessage { id: 21, index: message.0.as_raw_ptr(), value: 0 }
    }
}

impl vstd::std_specs::convert::FromSpecImpl<NoteOff> for FlMessage {
    open spec fn obeys_from_spec() -> bool {
        true
    }

    open spec fn from_spec(message: NoteOff) -> FlMessage {
        FlMessage { id: 21, index: message.0 as isize, value: 0 }
    }
}

/// This shows a hint message in the FL hint area. It's the same as OnHint, but shows it
/// immediately (to show a progress while you're doing something).
///
/// The value is the message.
#[derive(Debug)]
pub struct OnHintDirect(pub String);

impl OnHintDirect {
    /// The raw message, given the address of the C string that holds the text.
    pub fn to_message(&self, text: ValuePtr) -> (r: FlMessage)
        ensures
            r == (FlMessage { id: 22, index: 0, value: text.0 }),
    {
        FlMessage { id: 22, index: 0, value: text.0 }
    }
}

/// Use this code to set a new color for the parent.
///
/// The value is the color.
///
/// (also see `SetNewName`).
#[derive(Clone, Copy, Debug, PartialEq, Eq, Structural)]
pub struct SetNewColor(pub u8);

impl From<SetNewColor> for FlMessage {
    fn from(message: SetNewColor) -> (r: Self) {
        FlMessage { id: 23, index: 0, value: message.0.as_raw_ptr() }
    }
}

impl vstd::std_specs::convert::FromSpecImpl<SetNewColor> for FlMessage {
    open spec fn obeys_from_spec() -> bool {
        true
    }

    open spec fn from_spec(message: SetNewColor) -> FlMessage {
        FlMessage { id: 23, index: 0, value: message.0 as isize }
    }
}

/// Ask the host to kill anything linked to an internal controller. This is used when undeclaring
/// internal controllers.
///
/// The first value is the index of the first internal controller to kill.
///
/// The second value is the index of the last internal controller to kill.
#[derive(Clone, Copy, Debug, PartialEq, Eq, Structural)]
pub struct KillIntCtrl(pub usize, pub usize);

impl From<KillIntCtrl> for FlMessage {
    fn from(message: KillIntCtrl) -> (r: Self) {
        FlMessage {
            id: 25,
            index: message.0.as_raw_ptr(),
            value: message.1.as_raw_ptr(),
        }
    }
}

impl vstd::std_specs::convert::FromSpecImpl<KillIntCtrl> for FlMessage {
    open spec fn obeys_from_spec() -> bool {
        true
    }

    open spec fn from_spec(message: KillIntCtrl) -> FlMessage {
        FlMessage {
            id: 25,
            index: message.0 as isize,
            value: message.1 as isize,
        }
    }
}

/// Call this to override the number of parameters that this plugin instance has. This is meant for
/// plugins that have a different set of parameters per instance.
///
/// The value holds the new number of parameters.
#[derive(Clone, Copy, Debug, PartialEq, Eq, Structural)]
pub struct SetNumParams(pub usize);

impl From<SetNumParams> for FlMessage {
    fn from(message: SetNumParams) -> (r: Self) {
        FlMessage { id: 27, index: 0, value: message.0.as_raw_ptr() }
    }
}

impl vstd::std_specs::convert::FromSpecImpl<SetNumParams> for FlMessage {
    open spec fn obeys_from_spec() -> bool {
        true
    }

    open spec fn from_spec(message: SetNumParams) -> FlMessage {
        FlMessage { id: 27, index: 0, value: message.0 as isize }
    }
}

/// Ask the host to create a filename relative to the FL Studio data folder. This makes it much
/// faster to look for this file (samples, for example) when the song is loaded again.
///
/// The value is the full name.
///
/// The result is the packed filename `String`.
#[derive(Debug)]
pub struct PackDataFile(pub String);

impl PackDataFile {
    /// The raw message, given the address of the C string that holds the text.
    pub fn to_message(&self, text: ValuePtr) -> (r: FlMessage)
        ensures
            r == (FlMessage { id: 28, index: 0, value: text.0 }),
    {
        FlMessage { id: 28, index: 0, value: text.0 }
    }
}

/// Ask the host where the FL Studio engine DLL is. This may be different from the location of the
/// executable. It can be used to discover the location of the FL Studio data path.
///
/// The result is the path `String`.
#[derive(Clone, Copy, Debug, PartialEq, Eq, Structural)]
pub struct GetProgPath;

impl From<GetProgPath> for FlMessage {
    fn from(_message: GetProgPath) -> (r: Self) {
        FlMessage { id: 29, index: 0, value: 0 }
    }
}

impl vstd::std_specs::convert::FromSpecImpl<GetProgPath> for FlMessage {
    open spec fn obeys_from_spec() -> bool {
        true
    }

    open spec fn from_spec(_message: GetProgPath) -> FlMessage {
        FlMessage { id: 29, index: 0, value: 0 }
    }
}

/// Set the plugin latency, if any.
///
/// The value is the latency in samples.
#[derive(Clone, Copy, Debug, PartialEq, Eq, Structural)]
pub struct SetLatency(pub u32);

impl From<SetLatency> for FlMessage {
    fn from(message: SetLatency) -> (r: Self) {
        FlMessage { id: 30, index: 0, value: message.0.as_raw_ptr() }
    }
}

impl vstd::std_specs::convert::FromSpecImpl<SetLatency> for FlMessage {
    open spec fn obeys_from_spec() -> bool {
        true
    }

    open spec fn from_spec(message: SetLatency) -> FlMessage {
        FlMessage { id: 30, index: 0, value: message.0 as isize }
    }
}

/// (FL 6.0) Ask the host to show the preset downloader/selector for this plugin.
#[derive(Clone, Copy, Debug, PartialEq, Eq, Structural)]
pub struct CallDownloader;

impl From<CallDownloader> for FlMessage {
    fn from(_message: CallDownloader) -> (r: Self) {
        FlMessage { id: 31, index: 0, value: 0 }
    }
}

impl vstd::std_specs::convert::FromSpecImpl<CallDownloader> for FlMessage {
    open spec fn obeys_from_spec() -> bool {
        true
    }

    open spec fn from_spec(_message: CallDownloader) -> FlMessage {
        FlMessage { id: 31, index: 0, value: 0 }
    }
}

/// (FL 7.0) Edits sample in Edison.
///
/// The first value holds the sample filename.
///
/// The second value is `true` if an existing instance of Edison can be re-used or `false`
/// otherwise.
#[derive(Debug)]
pub struct EditSample(pub String, pub bool);

impl EditSample {
    /// The raw message, given the address of the C string that holds the file name.
    pub fn to_message(&self, text: ValuePtr) -> (r: FlMessage)
        ensures
            r == (FlMessage { id: 32, index: if self.1 { 1 } else { 0 }, value: text.0 }),
    {
        FlMessage { id: 32, index: self.1.as_raw_ptr(), value: text.0 }
    }
}

/// (FL 7.0) Call this to let FL know that this plugin is thread-safe (or not). The default is not.
/// You should do your own thread-sync using
/// `Host::lock_mix`.
///
/// The value is `false` for `not safe` and `true` for `safe`.
///
/// **Important: this should only be used from a generator plugin!**
#[derive(Clone, Copy, Debug, PartialEq, Eq, Structural)]
pub struct SetThreadSafe(pub bool);

impl From<SetThreadSafe> for FlMessage {
    fn from(message: SetThreadSafe) -> (r: Self) {
        FlMessage { id: 33, index: 0, value: message.0.as_raw_ptr() }
    }
}

impl vstd::std_specs::convert::FromSpecImpl<SetThreadSafe> for FlMessage {
    open spec fn obeys_from_spec() -> bool {
        true
    }

    open spec fn from_spec(message: SetThreadSafe) -> FlMessage {
        FlMessage { id: 33, index: 0, value: if message.0 { 1 } else { 0 } }
    }
}

/// (FL 7.0) The plugin asks FL to enable or disable smart disabling. This is mainly for
/// generators, so they can get MIDI input (if applicable).
///
/// The value holds the switch.
#[derive(Clone, Copy, Debug, PartialEq, Eq, Structural)]
pub struct SmartDisable(pub bool);

impl From<SmartDisable> for FlMessage {
    fn from(message: SmartDisable) -> (r: Self) {
        FlMessage { id: 34, index: 0, value: message.0.as_raw_ptr() }
    }
}

impl vstd::std_specs::convert::FromSpecImpl<SmartDisable> for FlMessage {
    open spec fn obeys_from_spec() -> bool {
        true
    }

    open spec fn from_spec(message: SmartDisable) -> FlMessage {
        FlMessage { id: 34, index: 0, value: if message.0 { 1 } else { 0 } }
    }
}

/// (FL 8.0) Sets the unique identifying string for this plugin. This will be used to save/restore
/// custom data related to this plugin. Handy for wrapper plugins.
///
/// The value is the identifying string.
#[derive(Debug)]
pub struct SetUid(pub String);

impl SetUid {
    /// The raw message, given the address of the C string that holds the text.
    pub fn to_message(&self, text: ValuePtr) -> (r: FlMessage)
        ensures
            r == (FlMessage { id: 35, index: 0, value: text.0 }),
    {
        FlMessage { id: 35, index: 0, value: text.0 }
    }
}

/// (FL 8.0) Get the mixer time, relative to the current time.
///
/// The first value is the time format required.
///
/// The second value is offset in samples.
///
/// The result is `Time`.
#[derive(Clone, Copy, Debug, PartialEq, Eq, Structural)]
pub struct GetMixingTime(pub TimeFormat, pub u64);

impl GetMixingTime {
    /// The raw message, given the address of the record the host fills in with the result.
    pub fn to_message(&self, result: ValuePtr) -> (r: FlMessage)
        ensures
            r == (FlMessage { id: 36, index: self.0.code() as isize, value: result.0 }),
    {
        FlMessage { id: 36, index: u8::from(self.0).as_raw_ptr(), value: result.0 }
    }
}

/// (FL 8.0) Get playback time. See `GetMixingTime` for details.
#[derive(Clone, Copy, Debug, PartialEq, Eq, Structural)]
pub struct GetPlaybackTime(pub TimeFormat, pub u64);

impl GetPlaybackTime {
    /// The raw message, given the address of the record the host fills in with the result.
    pub fn to_message(&self, result: ValuePtr) -> (r: FlMessage)
        ensures
            r == (FlMessage { id: 37, index: self.0.code() as isize, value: result.0 }),
    {
        FlMessage { id: 37, index: u8::from(self.0).as_raw_ptr(), value: result.0 }
    }
}

/// (FL 8.0) Get selection time.
///
/// The value is the time formad required.
///
/// The result is `Time`. If there's no selection, the `Time` will content
/// the full song range.
#[derive(Clone, Copy, Debug, PartialEq, Eq, Structural)]
pub struct GetSelTime(pub TimeFormat);

impl GetSelTime {
    /// The raw message, given the address of the record the host fills in with the result.
    pub fn to_message(&self, result: ValuePtr) -> (r: FlMessage)
        ensures
            r == (FlMessage { id: 38, index: self.0.code() as isize, value: result.0 }),
    {
        FlMessage { id: 38, index: u8::from(self.0).as_raw_ptr(), value: result.0 }
    }
}

/// (FL 8.0) Get the current tempo multiplicator. This is not part of the song but used for
/// fast-forward.
///
/// The result is `f32`.
#[derive(Clone, Copy, Debug, PartialEq, Eq, Structural)]
pub struct GetTimeMul;

impl From<GetTimeMul> for FlMessage {
    fn from(_message: GetTimeMul) -> (r: Self) {
        FlMessage { id: 39, index: 0, value: 0 }
    }
}

impl vstd::std_specs::convert::FromSpecImpl<GetTimeMul> for FlMessage {
    open spec fn obeys_from_spec() -> bool {
        true
    }

    open spec fn from_spec(_message: GetTimeMul) -> FlMessage {
        FlMessage { id: 39, index: 0, value: 0 }
    }
}

/// (FL 8.0) Captionize the plugin. This can be useful when dragging.
///
/// The value is `true` for captionized or `false` otherwise.
#[derive(Clone, Copy, Debug, PartialEq, Eq, Structural)]
pub struct Captionize(pub bool);

impl From<Captionize> for FlMessage {
    fn from(message: Captionize) -> (r: Self) {
        FlMessage { id: 40, index: 0, value: message.0.as_raw_ptr() }
    }
}

impl vstd::std_specs::convert::FromSpecImpl<Captionize> for FlMessage {
    open spec fn obeys_from_spec() -> bool {
        true
    }

    open spec fn from_spec(message: Captionize) -> FlMessage {
        FlMessage { id: 40, index: 0, value: if message.0 { 1 } else { 0 } }
    }
}

/// (FL 8.0) Send a SysEx bytes, without delay. Do not abuse this!
///
/// The first value is the port to send to.
///
/// The second value is the data to send.
#[derive(Debug)]
pub struct SendSysEx<'a>(pub usize, pub &'a [u8]);

impl<'a> SendSysEx<'a> {
    /// The bytes the host reads: the length of the data as a 32-bit integer (wrapping around as
    /// a C cast does) in the host's little-endian byte order, then the data.
    pub open spec fn frame(data: Seq<u8>) -> Seq<u8> {
        let n = data.len() as u32;
        seq![
            (n & 0xff) as u8,
            ((n >> 8u32) & 0xff) as u8,
            ((n >> 16u32) & 0xff) as u8,
            ((n >> 24u32) & 0xff) as u8,
        ] + data
    }

    /// The data framed for the host: see [`SendSysEx::frame`].
    pub fn framed(&self) -> (r: Vec<u8>)
        ensures
            r@ == SendSysEx::frame(self.1@),
    {
        let data = self.1;
        let n = #[verifier::truncate] (data.len() as u32);
        let mut bytes: Vec<u8> = Vec::new();
        bytes.push((n & 0xff) as u8);
        bytes.push(((n >> 8) & 0xff) as u8);
        bytes.push(((n >> 16) & 0xff) as u8);
        bytes.push(((n >> 24) & 0xff) as u8);
        let ghost header = bytes@;
        let mut i: usize = 0;
        while i < data.len()
            invariant
                0 <= i <= data.len(),
                header.len() == 4,
                bytes@ == header + data@.subrange(0, i as int),
            decreases data.len() - i,
        {
            bytes.push(data[i]);
            i = i + 1;
            proof {
                assert(data@.subrange(0, i as int) == data@.subrange(0, i - 1) + seq![data@[i - 1]]);
            }
        }
        proof {
            assert(data@.subrange(0, data@.len() as int) == data@);
        }
        bytes
    }

    /// The raw message, given the address of the bytes of [`SendSysEx::framed`].
    pub fn to_message(&self, result: ValuePtr) -> (r: FlMessage)
        ensures
            r == (FlMessage { id: 41, index: self.0 as isize, value: result.0 }),
    {
        FlMessage { id: 41, index: self.0.as_raw_ptr(), value: result.0 }
    }
}

/// (FL 8.0) Send an audio file to the playlist as an audio clip, starting at the playlist
/// selection (mainly for Edison).
///
/// The value is the file name.
#[derive(Debug)]
pub struct LoadAudioClip(pub String);

impl LoadAudioClip {
    /// The raw message, given the address of the C string that holds the text.
    pub fn to_message(&self, text: ValuePtr) -> (r: FlMessage)
        ensures
            r == (FlMessage { id: 42, index: 0, value: text.0 }),
    {
        FlMessage { id: 42, index: 0, value: text.0 }
    }
}

/// (FL 8.0) Send a file to the selected channel(s) (mainly for Edison).
///
/// The value is the file name.
#[derive(Debug)]
pub struct LoadInChannel(pub String);

impl LoadInChannel {
    /// The raw message, given the address of the C string that holds the text.
    pub fn to_message(&self, text: ValuePtr) -> (r: FlMessage)
        ensures
            r == (FlMessage { id: 43, index: 0, value: text.0 }),
    {
        FlMessage { id: 43, index: 0, value: text.0 }
    }
}

/// (FL 8.0) Locates the specified file in the browser and jumps to it. This also adds the file's
/// folder to the browser search paths if necessary.
///
/// The value is the file name.
#[derive(Debug)]
pub struct ShowInBrowser(pub String);

impl ShowInBrowser {
    /// The raw message, given the address of the C string that holds the text.
    pub fn to_message(&self, text: ValuePtr) -> (r: FlMessage)
        ensures
            r == (FlMessage { id: 44, index: 0, value: text.0 }),
    {
        FlMessage { id: 44, index: 0, value: text.0 }
    }
}

/// Adds message to the debug log.
///
/// The value is the message.
#[derive(Debug)]
pub struct DebugLogMsg(pub String);

impl DebugLogMsg {
    /// The raw message, given the address of the C string that holds the text.
    pub fn to_message(&self, text: ValuePtr) -> (r: FlMessage)
        ensures
            r == (FlMessage { id: 45, index: 0, value: text.0 }),
    {
        FlMessage { id: 45, index: 0, value: text.0 }
    }
}

/// Gets the handle of the main form.
///
/// The result is `Option<*mut c_void>` (`Option<HWND>`).
#[derive(Clone, Copy, Debug, PartialEq, Eq, Structural)]
pub struct GetMainFormHandle;

impl From<GetMainFormHandle> for FlMessage {
    fn from(_message: GetMainFormHandle) -> (r: Self) {
        FlMessage { id: 46, index: 0, value: 0 }
    }
}

impl vstd::std_specs::convert::FromSpecImpl<GetMainFormHandle> for FlMessage {
    open spec fn obeys_from_spec() -> bool {
        true
    }

    open spec fn from_spec(_message: GetMainFormHandle) -> FlMessage {
        FlMessage { id: 46, index: 0, value: 0 }
    }
}

/// Ask the host where the project data is, to store project data.
///
/// The result is `String`.
#[derive(Clone, Copy, Debug, PartialEq, Eq, Structural)]
pub struct GetProjDataPath;

impl From<GetProjDataPath> for FlMessage {
    fn from(_message: GetProjDataPath) -> (r: Self) {
        FlMessage { id: 47, index: 0, value: 0 }
    }
}

impl vstd::std_specs::convert::FromSpecImpl<GetProjDataPath> for FlMessage {
    open spec fn obeys_from_spec() -> bool {
        true
    }

    open spec fn from_spec(_message: GetProjDataPath) -> FlMessage {
        FlMessage { id: 47, index: 0, value: 0 }
    }
}

/// Mark project as dirty (not required for automatable parameters, only for tweaks the host can't
/// be aware of).
#[derive(Clone, Copy, Debug, PartialEq, Eq, Structural)]
pub struct SetDirty;

impl From<SetDirty> for FlMessage {
    fn from(_message: SetDirty) -> (r: Self) {
        FlMessage { id: 48, index: 0, value: 0 }
    }
}

impl vstd::std_specs::convert::FromSpecImpl<SetDirty> for FlMessage {
    open spec fn obeys_from_spec() -> bool {
        true
    }

    open spec fn from_spec(_message: SetDirty) -> FlMessage {
        FlMessage { id: 48, index: 0, value: 0 }
    }
}

/// Add file to recent files.
///
/// The value is file name.
#[derive(Debug)]
pub struct AddToRecent(pub String);

impl AddToRecent {
    /// The raw message, given the address of the C string that holds the text.
    pub fn to_message(&self, text: ValuePtr) -> (r: FlMessage)
        ensures
            r == (FlMessage { id: 49, index: 0, value: text.0 }),
    {
        FlMessage { id: 49, index: 0, value: text.0 }
    }
}

/// Ask the host how many inputs are routed to this effect, or how many outputs this effect is
/// routed to.
///
/// The result is `usize`.
#[derive(Clone, Copy, Debug, PartialEq, Eq, Structural)]
pub enum GetNumInOut {
    /// To get inputs number.
    Inputs,
    /// To get outputs number.
    Outputs,
}

impl GetNumInOut {
    /// The code the host gives this choice.
    pub open spec fn code(self) -> intptr_t {
        match self {
            GetNumInOut::Inputs => 0,
            GetNumInOut::Outputs => 1,
        }
    }
}

impl From<GetNumInOut> for intptr_t {
    fn from(message: GetNumInOut) -> (r: Self) {
        match message {
            GetNumInOut::Inputs => 0,
            GetNumInOut::Outputs => 1,
        }
    }
}

impl vstd::std_specs::convert::FromSpecImpl<GetNumInOut> for intptr_t {
    open spec fn obeys_from_spec() -> bool {
        true
    }

    open spec fn from_spec(message: GetNumInOut) -> intptr_t {
        message.code()
    }
}

impl From<GetNumInOut> for FlMessage {
    fn from(message: GetNumInOut) -> (r: Self) {
        FlMessage { id: 50, index: intptr_t::from(message), value: 0 }
    }
}

impl vstd::std_specs::convert::FromSpecImpl<GetNumInOut> for FlMessage {
    open spec fn obeys_from_spec() -> bool {
        true
    }

    open spec fn from_spec(message: GetNumInOut) -> FlMessage {
        FlMessage { id: 50, index: message.code(), value: 0 }
    }
}

/// Ask the host the name of the input.
///
/// The value is the input index starting from 1.
///
/// The result is `Option<NameColor>`.
///
/// **Important: the first input index is `1`.**
#[derive(Clone, Copy, Debug, PartialEq, Eq, Structural)]
pub struct GetInName(pub usize);

impl GetInName {
    /// The raw message, given the address of the record the host fills in with the result.
    pub fn to_message(&self, result: ValuePtr) -> (r: FlMessage)
        ensures
            r == (FlMessage { id: 51, index: self.0 as isize, value: result.0 }),
    {
        FlMessage { id: 51, index: self.0.as_raw_ptr(), value: result.0 }
    }
}

/// Ask the host the name of the output.
///
/// The value is the output index starting from 1.
///
/// The result is `Option<NameColor>`.
///
/// **Important: the first output index is `1`.**
#[derive(Clone, Copy, Debug, PartialEq, Eq, Structural)]
pub struct GetOutName(pub usize);

impl GetOutName {
    /// The raw message, given the address of the record the host fills in with the result.
    pub fn to_message(&self, result: ValuePtr) -> (r: FlMessage)
        ensures
            r == (FlMessage { id: 52, index: self.0 as isize, value: result.0 }),
    {
        FlMessage { id: 52, index: self.0.as_raw_ptr(), value: result.0 }
    }
}

/// Make the host bring plugin's editor.
#[derive(Clone, Copy, Debug, PartialEq, Eq, Structural)]
pub enum ShowEditor {
    /// Show.
    Show,
    /// Hide.
    Hide,
    /// Toggle.
    Toggle,
}

impl ShowEditor {
    /// The code the host gives this choice.
    pub open spec fn code(self) -> intptr_t {
        match self {
            ShowEditor::Show => 1,
            ShowEditor::Hide => 0,
            ShowEditor::Toggle => -1isize,
        }
    }
}

impl From<ShowEditor> for intptr_t {
    fn from(message: ShowEditor) -> (r: Self) {
        match message {
            ShowEditor::Show => 1,
            ShowEditor::Hide => 0,
            ShowEditor::Toggle => -1isize,
        }
    }
}

impl vstd::std_specs::convert::FromSpecImpl<ShowEditor> for intptr_t {
    open spec fn obeys_from_spec() -> bool {
        true
    }

    open spec fn from_spec(message: ShowEditor) -> intptr_t {
        message.code()
    }
}

impl From<ShowEditor> for FlMessage {
    fn from(message: ShowEditor) -> (r: Self) {
        FlMessage { id: 53, index: 0, value: intptr_t::from(message) }
    }
}

impl vstd::std_specs::convert::FromSpecImpl<ShowEditor> for FlMessage {
    open spec fn obeys_from_spec() -> bool {
        true
    }

    open spec fn from_spec(message: ShowEditor) -> FlMessage {
        FlMessage { id: 53, index: 0, value: message.code() }
    }
}

/// (for the plugin wrapper only) Ask the host to turn 0..65536 automation into 0..1 float, for
/// params number between the first and last value (included).
#[derive(Clone, Copy, Debug, PartialEq, Eq, Structural)]
pub struct FloatAutomation(pub usize, pub usize);

impl From<FloatAutomation> for FlMessage {
    fn from(message: FloatAutomation) -> (r: Self) {
        FlMessage {
            id: 54,
            index: message.0.as_raw_ptr(),
            value: message.1.as_raw_ptr(),
        }
    }
}

impl vstd::std_specs::convert::FromSpecImpl<FloatAutomation> for FlMessage {
    open spec fn obeys_from_spec() -> bool {
        true
    }

    open spec fn from_spec(message: FloatAutomation) -> FlMessage {
        FlMessage {
            id: 54,
            index: message.0 as isize,
            value: message.1 as isize,
        }
    }
}

/// Called when the settings button on the titlebar should be switched.
///
/// The value is `true` to show and `false` to hide.
///
/// See `InfoBuilder::want_settings_button`.
#[derive(Clone, Copy, Debug, PartialEq, Eq, Structural)]
pub struct ShowSettings(pub bool);

impl From<ShowSettings> for FlMessage {
    fn from(message: ShowSettings) -> (r: Self) {
        FlMessage { id: 55, index: 0, value: message.0.as_raw_ptr() }
    }
}

impl vstd::std_specs::convert::FromSpecImpl<ShowSettings> for FlMessage {
    open spec fn obeys_from_spec() -> bool {
        true
    }

    open spec fn from_spec(message: ShowSettings) -> FlMessage {
        FlMessage { id: 55, index: 0, value: if message.0 { 1 } else { 0 } }
    }
}

/// Note on/off.
///
/// The first value is note nummber.
///
/// The second value is the color/MIDI channel.
///
/// The third value is velocity. Note off send for velocity `0`, note on otherwise.
#[derive(Clone, Copy, Debug, PartialEq, Eq, Structural)]
pub struct NoteOnOff(pub u8, pub u8, pub u8);

impl From<NoteOnOff> for FlMessage {
    fn from(message: NoteOnOff) -> (r: Self) {
        FlMessage {
            id: 56,
            index: dword_from_note_and_ch(message.0, message.1).as_raw_ptr(),
            value: message.2.as_raw_ptr(),
        }
    }
}

impl vstd::std_specs::convert::FromSpecImpl<NoteOnOff> for FlMessage {
    open spec fn obeys_from_spec() -> bool {
        true
    }

    open spec fn from_spec(message: NoteOnOff) -> FlMessage {
        FlMessage {
            id: 56,
            index: (message.0 + message.1 * 65536) as isize,
            value: message.2 as isize,
        }
    }
}

/// Show picker.
#[derive(Clone, Copy, Debug, PartialEq, Eq, Structural)]
pub enum ShowPicker {
    /// Plugins.
    Plugins(PickerFilter),
    /// Project.
    Project(PickerFilter),
}

/// What kind of items the picker should show.
#[derive(Clone, Copy, Debug, PartialEq, Eq, Structural)]
pub enum PickerFilter {
    /// Generators.
    Generators,
    /// Effects.
    Effects,
    /// Generators and effects.
    GeneratorsEffects,
    /// Patcher (includes VFX).
    Patcher,
}

impl PickerFilter {
    /// The code the host gives this choice.
    pub open spec fn code(self) -> intptr_t {
        match self {
            PickerFilter::Generators => 0,
            PickerFilter::Effects => 1,
            PickerFilter::GeneratorsEffects => -1isize,
            PickerFilter::Patcher => -2isize,
        }
    }
}

impl From<PickerFilter> for intptr_t {
    fn from(message: PickerFilter) -> (r: Self) {
        match message {
            PickerFilter::Generators => 0,
            PickerFilter::Effects => 1,
            PickerFilter::GeneratorsEffects => -1isize,
            PickerFilter::Patcher => -2isize,
        }
    }
}

impl vstd::std_specs::convert::FromSpecImpl<PickerFilter> for intptr_t {
    open spec fn obeys_from_spec() -> bool {
        true
    }

    open spec fn from_spec(message: PickerFilter) -> intptr_t {
        message.code()
    }
}

impl ShowPicker {
    /// The codes of the picker and of its filter.
    pub open spec fn codes(self) -> (intptr_t, intptr_t) {
        match self {
            ShowPicker::Plugins(filter) => (0, filter.code()),
            ShowPicker::Project(filter) => (1, filter.code()),
        }
    }
}

impl From<ShowPicker> for (intptr_t, intptr_t) {
    fn from(message: ShowPicker) -> (r: Self) {
        match message {
            ShowPicker::Plugins(filter) => (0, intptr_t::from(filter)),
            ShowPicker::Project(filter) => (1, intptr_t::from(filter)),
        }
    }
}

impl vstd::std_specs::convert::FromSpecImpl<ShowPicker> for (intptr_t, intptr_t) {
    open spec fn obeys_from_spec() -> bool {
        true
    }

    open spec fn from_spec(message: ShowPicker) -> (intptr_t, intptr_t) {
        message.codes()
    }
}

impl From<ShowPicker> for FlMessage {
    fn from(message: ShowPicker) -> (r: Self) {
        let codes: (intptr_t, intptr_t) = message.into();
        FlMessage { id: 57, index: codes.0, value: codes.1 }
    }
}

impl vstd::std_specs::convert::FromSpecImpl<ShowPicker> for FlMessage {
    open spec fn obeys_from_spec() -> bool {
        true
    }

    open spec fn from_spec(message: ShowPicker) -> FlMessage {
        FlMessage {
            id: 57,
            index: message.codes().0,
            value: message.codes().1,
        }
    }
}

/// Ask the host for the number of extra frames `Plugin::idle` should process, generally 0 if no
/// overflow/frameskip occured.
#[derive(Clone, Copy, Debug, PartialEq, Eq, Structural)]
pub struct GetIdleOverflow;

impl From<GetIdleOverflow> for FlMessage {
    fn from(_message: GetIdleOverflow) -> (r: Self) {
        FlMessage { id: 58, index: 0, value: 0 }
    }
}

impl vstd::std_specs::convert::FromSpecImpl<GetIdleOverflow> for FlMessage {
    open spec fn obeys_from_spec() -> bool {
        true
    }

    open spec fn from_spec(_message: GetIdleOverflow) -> FlMessage {
        FlMessage { id: 58, index: 0, value: 0 }
    }
}

/// Used by FL plugins, when idling from a modal window, mainly for the smoothness hack.
#[derive(Clone, Copy, Debug, PartialEq, Eq, Structural)]
pub struct ModalIdle;

impl From<ModalIdle> for FlMessage {
    fn from(_message: ModalIdle) -> (r: Self) {
        FlMessage { id: 59, index: 0, value: 0 }
    }
}

impl vstd::std_specs::convert::FromSpecImpl<ModalIdle> for FlMessage {
    open spec fn obeys_from_spec() -> bool {
        true
    }

    open spec fn from_spec(_message: ModalIdle) -> FlMessage {
        FlMessage { id: 59, index: 0, value: 0 }
    }
}

/// Prompt the rendering dialog in song mode.
#[derive(Clone, Copy, Debug, PartialEq, Eq, Structural)]
pub struct RenderProject;

impl From<RenderProject> for FlMessage {
    fn from(_message: RenderProject) -> (r: Self) {
        FlMessage { id: 60, index: 0, value: 0 }
    }
}

impl vstd::std_specs::convert::FromSpecImpl<RenderProject> for FlMessage {
    open spec fn obeys_from_spec() -> bool {
        true
    }

    open spec fn from_spec(_message: RenderProject) -> FlMessage {
        FlMessage { id: 60, index: 0, value: 0 }
    }
}

/// Get project title, author, comments or URL.
///
/// The result is `String`.
#[derive(Clone, Copy, Debug, PartialEq, Eq, Structural)]
pub enum GetProjectInfo {
    /// Title.
    Title,
    /// Author.
    Author,
    /// Comments.
    Comments,
    /// URL.
    Url,
}

impl GetProjectInfo {
    /// The code the host gives this choice.
    pub open spec fn code(self) -> intptr_t {
        match self {
            GetProjectInfo::Title => 0,
            GetProjectInfo::Author => 1,
            GetProjectInfo::Comments => 2,
            GetProjectInfo::Url => 3,
        }
    }
}

impl From<GetProjectInfo> for intptr_t {
    fn from(message: GetProjectInfo) -> (r: Self) {
        match message {
            GetProjectInfo::Title => 0,
            GetProjectInfo::Author => 1,
            GetProjectInfo::Comments => 2,
            GetProjectInfo::Url => 3,
        }
    }
}

impl vstd::std_specs::convert::FromSpecImpl<GetProjectInfo> for intptr_t {
    open spec fn obeys_from_spec() -> bool {
        true
    }

    open spec fn from_spec(message: GetProjectInfo) -> intptr_t {
        message.code()
    }
}

impl From<GetProjectInfo> for FlMessage {
    fn from(message: GetProjectInfo) -> (r: Self) {
        FlMessage { id: 61, index: intptr_t::from(message), value: 0 }
    }
}

impl vstd::std_specs::convert::FromSpecImpl<GetProjectInfo> for FlMessage {
    open spec fn obeys_from_spec() -> bool {
        true
    }

    open spec fn from_spec(message: GetProjectInfo) -> FlMessage {
        FlMessage { id: 61, index: message.code(), value: 0 }
    }
}

/// The title, a `|`, then the message.
fn join_title(title: &String, message: &String) -> (r: String)
    ensures
        r@ == title@ + seq!['|'] + message@,
{
    let mut r = title.clone();
    r.append("|");
    r.append(message.as_str());
    proof {
        reveal_strlit("|");
    }
    r
}

/// The note number in the low 16 bits and the channel in the high 16 bits.
pub open spec fn note_and_ch_dword(note: u8, channel: u8) -> u32 {
    (note as u32) | ((channel as u32) << 16u32)
}

/// Pack a note number and a channel (color) into one integer: the note in bits 0..8, the
/// channel in bits 16..24.
pub fn dword_from_note_and_ch(note: u8, channel: u8) -> (r: u32)
    ensures
        r == note_and_ch_dword(note, channel),
        r == note + channel * 65536,
        r & 0xff == note,
        (r >> 16u32) & 0xff == channel,
{
    proof {
        assert(((note as u32) | ((channel as u32) << 16u32)) == note + channel * 65536)
            by (bit_vector);
        assert((((note as u32) | ((channel as u32) << 16u32)) & 0xff) == note) by (bit_vector);
        assert(((((note as u32) | ((channel as u32) << 16u32)) >> 16u32) & 0xff) == channel)
            by (bit_vector);
    }
    (note as u32) | ((channel as u32) << 16)
}

} // verus!
