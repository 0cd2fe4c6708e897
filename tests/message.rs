use fpsdk::host::GetName;
use fpsdk::plugin::message::{
    dword_from_note_and_ch, EditSample, GetInName, GetMixingTime, GetNumInOut, GetProjectInfo,
    GetSelTime, KillAutomation, MessageBox, NamesChanged, NoteOn, NoteOnOff, PickerFilter,
    SendSysEx, SetNewName, ShowEditor, ShowPicker, TicksToTime, WantIdle, WantMidiInput,
};
use fpsdk::{FlMessage, MessageBoxFlags, TimeFormat, ValuePtr};

fn msg(id: isize, index: isize, value: isize) -> FlMessage {
    FlMessage { id, index, value }
}

#[test]
fn test_dword() {
    let value = dword_from_note_and_ch(60, 15);
    assert_eq!(60, value & 0xff);
    assert_eq!(15, (value >> 16) & 0xff);
}

#[test]
fn dword_exact_value() {
    assert_eq!(dword_from_note_and_ch(60, 15), 60 + 15 * 65536);
    assert_eq!(dword_from_note_and_ch(255, 255), 0x00ff_00ff);
    assert_eq!(dword_from_note_and_ch(0, 0), 0);
}

#[test]
fn note_on_encodes_note_channel_and_velocity() {
    assert_eq!(FlMessage::from(NoteOn(60, 15, 100)), msg(20, 60 + 15 * 65536, 100));
    assert_eq!(FlMessage::from(NoteOnOff(61, 1, 0)), msg(56, 61 + 65536, 0));
}

#[test]
fn plain_messages_encode_their_fields() {
    assert_eq!(FlMessage::from(KillAutomation(0, 7)), msg(8, 0, 7));
    assert_eq!(FlMessage::from(WantMidiInput(true)), msg(5, 0, 1));
    assert_eq!(FlMessage::from(WantMidiInput(false)), msg(5, 0, 0));
    assert_eq!(FlMessage::from(WantIdle::EnabledAlways), msg(13, 0, 2));
    assert_eq!(FlMessage::from(GetNumInOut::Outputs), msg(50, 1, 0));
    assert_eq!(FlMessage::from(ShowEditor::Toggle), msg(53, 0, -1));
    assert_eq!(FlMessage::from(GetProjectInfo::Url), msg(61, 3, 0));
}

#[test]
fn show_picker_encodes_picker_and_filter() {
    assert_eq!(FlMessage::from(ShowPicker::Project(PickerFilter::Patcher)), msg(57, 1, -2));
    assert_eq!(
        FlMessage::from(ShowPicker::Plugins(PickerFilter::GeneratorsEffects)),
        msg(57, 0, -1)
    );
}

#[test]
fn names_changed_carries_the_kind_of_name() {
    assert_eq!(FlMessage::from(NamesChanged(GetName::Preset(3))), msg(3, 0, 6));
    assert_eq!(FlMessage::from(NamesChanged(GetName::Unknown)), msg(3, 0, 0));
}

#[test]
fn messages_with_memory_take_its_address() {
    assert_eq!(SetNewName("x".to_string()).to_message(ValuePtr(4096)), msg(10, 0, 4096));
    assert_eq!(EditSample("a.wav".to_string(), true).to_message(ValuePtr(77)), msg(32, 1, 77));
    assert_eq!(TicksToTime(960).to_message(ValuePtr(500)), msg(16, 500, 960));
    assert_eq!(GetMixingTime(TimeFormat::RunningMs, 12).to_message(ValuePtr(9)), msg(36, 2, 9));
    assert_eq!(GetSelTime(TimeFormat::RestartMs).to_message(ValuePtr(9)), msg(38, 3, 9));
    assert_eq!(GetInName(2).to_message(ValuePtr(64)), msg(51, 2, 64));
}

#[test]
fn message_box_text_and_flags() {
    let flags = MessageBoxFlags::from_bits_truncate(MessageBoxFlags::YESNO)
        .union(MessageBoxFlags::ICONWARNING);
    let mb = MessageBox("Title".to_string(), "Body".to_string(), flags);
    assert_eq!(mb.text(), "Title|Body");
    assert_eq!(mb.to_message(ValuePtr(8)), msg(19, 8, 0x34));
}

#[test]
fn sysex_is_framed_with_its_length() {
    let data = [0xF0u8, 0x7E, 0xF7];
    let sysex = SendSysEx(2, &data);
    assert_eq!(sysex.framed(), vec![3, 0, 0, 0, 0xF0, 0x7E, 0xF7]);
    assert_eq!(sysex.to_message(ValuePtr(100)), msg(41, 2, 100));
    let long = vec![1u8; 300];
    let framed = SendSysEx(0, &long).framed();
    assert_eq!(&framed[..4], &[44, 1, 0, 0]);
    assert_eq!(framed.len(), 304);
    assert_eq!(SendSysEx(0, &[]).framed(), vec![0, 0, 0, 0]);
}
