//! Plugin related stuff.
use vstd::prelude::*;

pub mod message;

use crate::CURRENT_SDK_VERSION;

verus! {

/// An identifier the host uses to identify a plugin instance.
#[derive(Clone, Copy, Debug, PartialEq, Eq, Hash, Structural)]
pub struct Tag(pub isize);

/// The `Info` flag that [`InfoBuilder::generator`] sets.
pub const FLAG_GENERATOR: u32 = 1;

/// The `Info` flag that [`InfoBuilder::get_chan_custom_shape`] sets.
pub const FLAG_GET_CHAN_CUSTOM_SHAPE: u32 = 1 << 3;

/// The `Info` flag that [`InfoBuilder::get_note_input`] sets.
pub const FLAG_GET_NOTE_INPUT: u32 = 1 << 4;

/// The `Info` flag that [`InfoBuilder::want_new_tick`] sets.
pub const FLAG_WANT_NEW_TICK: u32 = 1 << 5;

/// The `Info` flag that [`InfoBuilder::no_process`] sets.
pub const FLAG_NO_PROCESS: u32 = 1 << 6;

/// The `Info` flag that [`InfoBuilder::no_window`] sets.
pub const FLAG_NO_WINDOW: u32 = 1 << 10;

/// The `Info` flag that [`InfoBuilder::interfaceless`] sets.
pub const FLAG_INTERFACELESS: u32 = 1 << 11;

/// The `Info` flag that [`InfoBuilder::time_warp`] sets.
pub const FLAG_TIME_WARP: u32 = 1 << 13;

/// The `Info` flag that [`InfoBuilder::midi_out`] sets.
pub const FLAG_MIDI_OUT: u32 = 1 << 14;

/// The `Info` flag that [`InfoBuilder::demo_version`] sets.
pub const FLAG_DEMO_VERSION: u32 = 1 << 15;

/// The `Info` flag that [`InfoBuilder::can_send`] sets.
pub const FLAG_CAN_SEND: u32 = 1 << 16;

/// The `Info` flag that [`InfoBuilder::loop_out`] sets.
pub const FLAG_LOOP_OUT: u32 = 1 << 17;

/// The `Info` flag that [`InfoBuilder::get_chan_sample`] sets.
pub const FLAG_GET_CHAN_SAMPLE: u32 = 1 << 19;

/// The `Info` flag that [`InfoBuilder::want_fit_time`] sets.
pub const FLAG_WANT_FIT_TIME: u32 = 1 << 20;

/// The `Info` flag that [`InfoBuilder::new_voice_params`] sets.
pub const FLAG_NEW_VOICE_PARAMS: u32 = 1 << 21;

/// The `Info` flag that [`InfoBuilder::cant_smart_disable`] sets.
pub const FLAG_CANT_SMART_DISABLE: u32 = 1 << 23;

/// The `Info` flag that [`InfoBuilder::want_settings_button`] sets.
pub const FLAG_WANT_SETTINGS_BUTTON: u32 = 1 << 24;

/// What an [`InfoBuilder`] holds.
pub struct InfoView {
    /// The version of the SDK used to create the plugin.
    pub sdk_version: u32,
    /// The name of the plugin dll, without the extension.
    pub long_name: Seq<char>,
    /// Short plugin name.
    pub short_name: Seq<char>,
    /// The `FLAG_*` bits.
    pub flags: u32,
    /// The number of parameters.
    pub num_params: u32,
    /// Preferred (default) maximum polyphony (0=infinite).
    pub def_poly: u32,
    /// Number of internal output controllers.
    pub num_out_ctrls: u32,
    /// Number of internal output voices.
    pub num_out_voices: u32,
}

/// Use this to describe the plugin to the host: its names, its kind and what it needs.
#[derive(Clone, Debug)]
pub struct InfoBuilder {
    sdk_version: u32,
    long_name: String,
    short_name: String,
    flags: u32,
    num_params: u32,
    def_poly: u32,
    num_out_ctrls: u32,
    num_out_voices: u32,
}

impl View for InfoBuilder {
    type V = InfoView;

    closed spec fn view(&self) -> InfoView {
        InfoView {
            sdk_version: self.sdk_version,
            long_name: self.long_name@,
            short_name: self.short_name@,
            flags: self.flags,
            num_params: self.num_params,
            def_poly: self.def_poly,
            num_out_ctrls: self.num_out_ctrls,
            num_out_voices: self.num_out_voices,
        }
    }
}

impl InfoBuilder {
    /// Initializer for an effect.
    ///
    /// This is the most basic type.
    pub fn new_effect(long_name: &str, short_name: &str, num_params: u32) -> (r: Self)
        ensures
            r@ == (InfoView {
                sdk_version: CURRENT_SDK_VERSION,
                long_name: long_name@,
                short_name: short_name@,
                flags: FLAG_NEW_VOICE_PARAMS,
                num_params,
                def_poly: 0,
                num_out_ctrls: 0,
                num_out_voices: 0,
            }),
    {
        proof {
            assert(0u32 | FLAG_NEW_VOICE_PARAMS == FLAG_NEW_VOICE_PARAMS) by (bit_vector);
        }
        InfoBuilder {
            sdk_version: CURRENT_SDK_VERSION,
            long_name: long_name.to_owned(),
            short_name: short_name.to_owned(),
            flags: 0,
            num_params,
            def_poly: 0,
            num_out_ctrls: 0,
            num_out_voices: 0,
        }.new_voice_params()
    }

    /// Initializer for a full standalone generator.
    ///
    /// This is a combination of `generator` and
    /// `get_note_input`.
    pub fn new_full_gen(long_name: &str, short_name: &str, num_params: u32) -> (r: Self)
        ensures
            r@ == (InfoView {
                sdk_version: CURRENT_SDK_VERSION,
                long_name: long_name@,
                short_name: short_name@,
                flags: FLAG_NEW_VOICE_PARAMS | FLAG_GENERATOR | FLAG_GET_NOTE_INPUT,
                num_params,
                def_poly: 0,
                num_out_ctrls: 0,
                num_out_voices: 0,
            }),
    {
        InfoBuilder::new_effect(long_name, short_name, num_params).generator().get_note_input()
    }

    /// Initializer for a purely visual plugin, that doesn't process any audio data.
    ///
    /// It's a basic plugin with `no_process` enabled.
    pub fn new_visual(long_name: &str, short_name: &str, num_params: u32) -> (r: Self)
        ensures
            r@ == (InfoView {
                sdk_version: CURRENT_SDK_VERSION,
                long_name: long_name@,
                short_name: short_name@,
                flags: FLAG_NEW_VOICE_PARAMS | FLAG_NO_PROCESS,
                num_params,
                def_poly: 0,
                num_out_ctrls: 0,
                num_out_voices: 0,
            }),
    {
        InfoBuilder::new_effect(long_name, short_name, num_params).no_process()
    }

    /// Set prefered (default) maximum polyphony.
    pub fn with_poly(self, poly: u32) -> (r: Self)
        ensures
            r@ == (InfoView { def_poly: poly, ..self@ }),
    {
        let mut info = self;
        info.def_poly = poly;
        info
    }

    /// Set number of internal output controllers.
    pub fn with_out_ctrls(self, out_ctrls: u32) -> (r: Self)
        ensures
            r@ == (InfoView { num_out_ctrls: out_ctrls, ..self@ }),
    {
        let mut info = self;
        info.num_out_ctrls = out_ctrls;
        info
    }

    /// Set number of internal output voices.
    pub fn with_out_voices(self, out_voices: u32) -> (r: Self)
        ensures
            r@ == (InfoView { num_out_voices: out_voices, ..self@ }),
    {
        let mut info = self;
        info.num_out_voices = out_voices;
        info
    }

    /// The plugin is a generator (as opposed to an effect).
    pub fn generator(self) -> (r: Self)
        ensures
            r@ == (InfoView { flags: self@.flags | FLAG_GENERATOR, ..self@ }),
    {
        let mut info = self;
        info.flags = info.flags | FLAG_GENERATOR;
        info
    }

    /// The plugin will use a sample that the user loads into the plugin's channel.
    pub fn get_chan_custom_shape(self) -> (r: Self)
        ensures
            r@ == (InfoView { flags: self@.flags | FLAG_GET_CHAN_CUSTOM_SHAPE, ..self@ }),
    {
        let mut info = self;
        info.flags = info.flags | FLAG_GET_CHAN_CUSTOM_SHAPE;
        info
    }

    /// The plugin reacts to note events.
    pub fn get_note_input(self) -> (r: Self)
        ensures
            r@ == (InfoView { flags: self@.flags | FLAG_GET_NOTE_INPUT, ..self@ }),
    {
        let mut info = self;
        info.flags = info.flags | FLAG_GET_NOTE_INPUT;
        info
    }

    /// The plugin will be notified on each tick and be able to control params (like a built-in
    /// MIDI controller).
    pub fn want_new_tick(self) -> (r: Self)
        ensures
            r@ == (InfoView { flags: self@.flags | FLAG_WANT_NEW_TICK, ..self@ }),
    {
        let mut info = self;
        info.flags = info.flags | FLAG_WANT_NEW_TICK;
        info
    }

    /// The plugin won't process buffers at all (`want_new_tick`, or special visual plugins
    /// (Fruity NoteBook)).
    pub fn no_process(self) -> (r: Self)
        ensures
            r@ == (InfoView { flags: self@.flags | FLAG_NO_PROCESS, ..self@ }),
    {
        let mut info = self;
        info.flags = info.flags | FLAG_NO_PROCESS;
        info
    }

    /// The plugin's editor window should be shown inside the channel properties window.
    pub fn no_window(self) -> (r: Self)
        ensures
            r@ == (InfoView { flags: self@.flags | FLAG_NO_WINDOW, ..self@ }),
    {
        let mut info = self;
        info.flags = info.flags | FLAG_NO_WINDOW;
        info
    }

    /// (not used yet) The plugin doesn't provide its own interface, but relies on the host to
    /// create one.
    pub fn interfaceless(self) -> (r: Self)
        ensures
            r@ == (InfoView { flags: self@.flags | FLAG_INTERFACELESS, ..self@ }),
    {
        let mut info = self;
        info.flags = info.flags | FLAG_INTERFACELESS;
        info
    }

    /// (not used yet) The plugin supports timewarps, that is can be told to change the playing
    /// position in a voice (direct from disk music tracks, ...).
    pub fn time_warp(self) -> (r: Self)
        ensures
            r@ == (InfoView { flags: self@.flags | FLAG_TIME_WARP, ..self@ }),
    {
        let mut info = self;
        info.flags = info.flags | FLAG_TIME_WARP;
        info
    }

    /// The plugin will send MIDI out messages. Only plugins specifying this option will be enabled
    /// when rendering to a midi file.
    pub fn midi_out(self) -> (r: Self)
        ensures
            r@ == (InfoView { flags: self@.flags | FLAG_MIDI_OUT, ..self@ }),
    {
        let mut info = self;
        info.flags = info.flags | FLAG_MIDI_OUT;
        info
    }

    /// The plugin is a demo version. Practically this means the host won't save its automation.
    pub fn demo_version(self) -> (r: Self)
        ensures
            r@ == (InfoView { flags: self@.flags | FLAG_DEMO_VERSION, ..self@ }),
    {
        let mut info = self;
        info.flags = info.flags | FLAG_DEMO_VERSION;
        info
    }

    /// The plugin has access to the send tracks, so it can't be dropped into a send track or into
    /// the master.
    pub fn can_send(self) -> (r: Self)
        ensures
            r@ == (InfoView { flags: self@.flags | FLAG_CAN_SEND, ..self@ }),
    {
        let mut info = self;
        info.flags = info.flags | FLAG_CAN_SEND;
        info
    }

    /// The plugin will send delayed messages to itself (will require the internal sync clock to be
    /// enabled).
    pub fn loop_out(self) -> (r: Self)
        ensures
            r@ == (InfoView { flags: self@.flags | FLAG_LOOP_OUT, ..self@ }),
    {
        let mut info = self;
        info.flags = info.flags | FLAG_LOOP_OUT;
        info
    }

    /// This plugin as a generator will use the sample loaded in its parent channel (see
    /// `host::Message::ChanSampleChanged`).
    pub fn get_chan_sample(self) -> (r: Self)
        ensures
            r@ == (InfoView { flags: self@.flags | FLAG_GET_CHAN_SAMPLE, ..self@ }),
    {
        let mut info = self;
        info.flags = info.flags | FLAG_GET_CHAN_SAMPLE;
        info
    }

    /// Fit to time selector will appear in channel settings window (see
    /// `host::Message::SetFitTime`).
    pub fn want_fit_time(self) -> (r: Self)
        ensures
            r@ == (InfoView { flags: self@.flags | FLAG_WANT_FIT_TIME, ..self@ }),
    {
        let mut info = self;
        info.flags = info.flags | FLAG_WANT_FIT_TIME;
        info
    }

    /// This must be used (for new plugins). It tells the host to use floating point values for
    /// Pitch and Pan in the voice parameters.
    fn new_voice_params(self) -> (r: Self)
        ensures
            r@ == (InfoView { flags: self@.flags | FLAG_NEW_VOICE_PARAMS, ..self@ }),
    {
        let mut info = self;
        info.flags = info.flags | FLAG_NEW_VOICE_PARAMS;
        info
    }

    /// Plugin can't be smart disabled.
    pub fn cant_smart_disable(self) -> (r: Self)
        ensures
            r@ == (InfoView { flags: self@.flags | FLAG_CANT_SMART_DISABLE, ..self@ }),
    {
        let mut info = self;
        info.flags = info.flags | FLAG_CANT_SMART_DISABLE;
        info
    }

    /// Plugin wants a settings button on the titlebar (mainly for the wrapper).
    pub fn want_settings_button(self) -> (r: Self)
        ensures
            r@ == (InfoView { flags: self@.flags | FLAG_WANT_SETTINGS_BUTTON, ..self@ }),
    {
        let mut info = self;
        info.flags = info.flags | FLAG_WANT_SETTINGS_BUTTON;
        info
    }

    /// The version of the SDK used to create the plugin.
    pub fn sdk_version(&self) -> (r: u32)
        ensures
            r == self@.sdk_version,
    {
        self.sdk_version
    }

    /// The name of the plugin dll, without the extension.
    pub fn long_name(&self) -> (r: &str)
        ensures
            r@ == self@.long_name,
    {
        self.long_name.as_str()
    }

    /// Short plugin name.
    pub fn short_name(&self) -> (r: &str)
        ensures
            r@ == self@.short_name,
    {
        self.short_name.as_str()
    }

    /// The `FLAG_*` bits set so far.
    pub fn flags(&self) -> (r: u32)
        ensures
            r == self@.flags,
    {
        self.flags
    }

    /// The number of parameters.
    pub fn num_params(&self) -> (r: u32)
        ensures
            r == self@.num_params,
    {
        self.num_params
    }

    /// Preferred (default) maximum polyphony (0=infinite).
    pub fn def_poly(&self) -> (r: u32)
        ensures
            r == self@.def_poly,
    {
        self.def_poly
    }

    /// Number of internal output controllers.
    pub fn num_out_ctrls(&self) -> (r: u32)
        ensures
            r == self@.num_out_ctrls,
    {
        self.num_out_ctrls
    }

    /// Number of internal output voices.
    pub fn num_out_voices(&self) -> (r: u32)
        ensures
            r == self@.num_out_voices,
    {
        self.num_out_voices
    }
}

/// Which way a state stream was used when it failed.
#[derive(Clone, Copy, Debug, PartialEq, Eq, Structural)]
pub enum StreamError {
    /// Error reading from the host's stream.
    Read,
    /// Error writing to the host's stream.
    Write,
}

/// Relies on `hresult::HRESULT::is_success`: a status code is a success exactly when it is not
/// negative (its severity bit is clear).
#[verifier::external_body]
fn hresult_is_success(code: i32) -> (r: bool)
    ensures
        r == (code >= 0),
{
    hresult::HRESULT::from(code).is_success()
}

/// The outcome of a stream operation that moved `count` bytes and ended with the status code
/// `result`: the count on success, `error` otherwise.
pub fn check_hresult(result: i32, count: usize, error: StreamError) -> (r: Result<
    usize,
    StreamError,
>)
    ensures
        result >= 0 ==> r == Ok::<usize, StreamError>(count),
        result < 0 ==> r == Err::<usize, StreamError>(error),
{
    if !hresult_is_success(result) {
        return Err(error);
    }
    Ok(count)
}

} // verus!
