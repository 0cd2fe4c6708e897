use fpsdk::host::prompt::Prompt;
use fpsdk::plugin::{
    check_hresult, InfoBuilder, StreamError, FLAG_GENERATOR, FLAG_GET_NOTE_INPUT,
    FLAG_MIDI_OUT, FLAG_NEW_VOICE_PARAMS, FLAG_NO_PROCESS,
};
use fpsdk::{
    FromRawPtr, MessageBoxResult, NameColor, NotesFlags, ParamMenuEntry, ParamMenuItemFlags,
    ProcessParamFlags, TNotesParams, TimeFormat, ValuePtr, CURRENT_SDK_VERSION,
};

#[test]
fn info_builder_effect() {
    let info = InfoBuilder::new_effect("Long", "Short", 4).with_poly(8).midi_out();
    assert_eq!(info.sdk_version(), CURRENT_SDK_VERSION);
    assert_eq!(info.long_name(), "Long");
    assert_eq!(info.short_name(), "Short");
    assert_eq!(info.num_params(), 4);
    assert_eq!(info.def_poly(), 8);
    assert_eq!(info.flags(), FLAG_NEW_VOICE_PARAMS | FLAG_MIDI_OUT);
    assert_eq!(info.flags(), (1 << 21) | (1 << 14));
}

#[test]
fn info_builder_generator_and_visual() {
    let gen = InfoBuilder::new_full_gen("G", "g", 0).with_out_ctrls(2).with_out_voices(3);
    assert_eq!(gen.flags(), FLAG_NEW_VOICE_PARAMS | FLAG_GENERATOR | FLAG_GET_NOTE_INPUT);
    assert_eq!(gen.flags(), 0x0020_0011);
    assert_eq!((gen.num_out_ctrls(), gen.num_out_voices()), (2, 3));
    let vis = InfoBuilder::new_visual("V", "v", 1);
    assert_eq!(vis.flags(), FLAG_NEW_VOICE_PARAMS | FLAG_NO_PROCESS);
    assert_eq!(vis.generator().generator().flags(), (1 << 21) | (1 << 6) | 1);
}

#[test]
fn info_builder_every_flag() {
    let info = InfoBuilder::new_effect("a", "b", 0)
        .generator()
        .get_chan_custom_shape()
        .get_note_input()
        .want_new_tick()
        .no_process()
        .no_window()
        .interfaceless()
        .time_warp()
        .midi_out()
        .demo_version()
        .can_send()
        .loop_out()
        .get_chan_sample()
        .want_fit_time()
        .cant_smart_disable()
        .want_settings_button();
    assert_eq!(info.flags(), 0x01BB_EC79);
}

#[test]
fn hresult_success_and_failure() {
    assert_eq!(check_hresult(0, 12, StreamError::Read), Ok(12));
    assert_eq!(check_hresult(1, 3, StreamError::Write), Ok(3));
    assert_eq!(check_hresult(-2147467259, 12, StreamError::Read), Err(StreamError::Read));
    assert_eq!(check_hresult(-1, 0, StreamError::Write), Err(StreamError::Write));
}

#[test]
fn prompt_builder_position_and_color() {
    let p = Prompt::builder();
    assert_eq!(p.raw_position(), (-1, -1));
    assert_eq!(p.initial_color(), -1);
    assert_eq!(p.color_to_result(5), None);
    let p = p.with_x(10).with_y(20).with_color();
    assert_eq!(p.raw_position(), (10, 20));
    assert_eq!(p.initial_color(), 0);
    assert_eq!(p.color_to_result(0x1122_3344), Some(i32::from_be(0x1122_3344)));
}

#[test]
fn raw_values() {
    assert_eq!(ValuePtr(0x1ff).get::<u8>(), 0xff);
    assert!(ValuePtr(2).get::<bool>());
    assert!(!ValuePtr(0).get::<bool>());
    assert_eq!(ValuePtr(-1).get::<u32>(), u32::MAX);
    assert_eq!(MessageBoxResult::from_raw_ptr(10), MessageBoxResult::TryAgain);
    assert_eq!(MessageBoxResult::from_raw_ptr(1), MessageBoxResult::Okay);
    assert_eq!(MessageBoxResult::from_raw_ptr(8), MessageBoxResult::Unknown);
    assert_eq!(u8::from(TimeFormat::RestartMs), 3);
}

#[test]
fn flags_from_bits() {
    assert_eq!(ParamMenuItemFlags::from_bits(3).map(|f| f.bits()), Some(3));
    assert!(ParamMenuItemFlags::from_bits(8).is_none());
    let p = ProcessParamFlags::from_bits_truncate(2 | 16 | 8);
    assert_eq!(p.bits(), 18);
    assert!(p.contains(ProcessParamFlags::GET_VALUE));
    assert!(!p.contains(ProcessParamFlags::UPDATE_VALUE));
    assert_eq!(ProcessParamFlags::empty().bits(), 0);
}

#[test]
fn param_menu_entry_and_name_color() {
    let e = ParamMenuEntry::new("Item".to_string(), 2);
    assert_eq!(e.name, "Item");
    assert_eq!(e.flags.bits(), ParamMenuItemFlags::CHECKED);
    assert_eq!(ParamMenuEntry::new("x".to_string(), 12).flags.bits(), 0);
    let n = NameColor::new("a".to_string(), "b".to_string(), 258, 7);
    assert_eq!((n.color, n.index), (2, 7));
}

#[test]
fn notes_header_marks_missing_numbers() {
    let flags = NotesFlags::from_bits_truncate(NotesFlags::EMPTY_FIRST);
    let h = TNotesParams::new(flags, None, Some(4), 3);
    assert_eq!(
        h,
        TNotesParams { target: 1, flags: 1, pat_num: -1, chan_num: 4, count: 3 }
    );
    let h = TNotesParams::new(NotesFlags::empty(), Some(2), None, 0);
    assert_eq!((h.pat_num, h.chan_num, h.flags, h.count), (2, -1, 0, 0));
}
