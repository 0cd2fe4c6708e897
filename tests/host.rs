use fpsdk::host::{Event, GetName, Message, OutVoices};
use fpsdk::voice;
use fpsdk::{
    Button, FlMessage, Hold, Jog, MidiMessage, ProcessModeFlags, Transport, ValuePtr,
};

fn msg(id: isize, index: isize, value: isize) -> FlMessage {
    FlMessage { id, index, value }
}

#[test]
fn transport_decodes_index_and_value() {
    assert_eq!(Transport::from(msg(23, 10, 1)), Transport::Play(Button(1)));
    assert_eq!(Transport::from(msg(23, 0, -3)), Transport::Jog(Jog(-3)));
    assert_eq!(Transport::from(msg(23, 13, 5)), Transport::Rewind(Hold(true)));
    assert_eq!(Transport::from(msg(23, 30, 0)), Transport::Punch(Hold(false)));
    assert_eq!(Transport::from(msg(23, 93, 2)), Transport::SaveNew(Button(2)));
    assert_eq!(Transport::from(msg(23, 5, 0x102)), Transport::Previous(Button(2)));
    assert_eq!(Transport::from(msg(23, 9, 1)), Transport::Unknown);
}

#[test]
fn host_message_show_editor() {
    assert_eq!(Message::from(msg(0, 0, 1)), Message::ShowEditor(None));
    assert_eq!(Message::from(msg(0, 0, 1234)), Message::ShowEditor(Some(ValuePtr(1234))));
}

#[test]
fn host_message_process_mode_drops_unknown_bits() {
    match Message::from(msg(1, 0, 0x13 | 0x4 | 0x0100_0000)) {
        Message::ProcessMode(flags) => {
            assert_eq!(flags.bits(), 0x13);
            assert!(flags.contains(ProcessModeFlags::IS_RENDERING));
            assert!(!flags.contains(0x4));
        }
        other => panic!("unexpected {:?}", other),
    }
}

#[test]
fn host_message_values() {
    assert_eq!(Message::from(msg(3, 0, 512)), Message::SetBlockSize(512));
    assert_eq!(Message::from(msg(4, 0, 44100)), Message::SetSampleRate(44100));
    assert_eq!(Message::from(msg(12, 0, 1)), Message::SetPlaying(true));
    assert_eq!(Message::from(msg(30, 64, 128)), Message::SetIoLatency(64, 128));
    assert_eq!(Message::from(msg(19, 0, 0x3f80_0000)), Message::SetFitTime(0x3f80_0000));
    assert_eq!(Message::from(msg(23, 11, 1)), Message::Transport(Transport::Stop(Button(1))));
    assert_eq!(Message::from(msg(8, 0, 0)), Message::Unknown);
    assert_eq!(Message::from(msg(31, 0, 0)), Message::Unknown);
}

#[test]
fn host_message_midi_in_unpacks_bytes() {
    let expected = MidiMessage { status: 0x90, data1: 0x3c, data2: 0x7f, port: 0 };
    assert_eq!(Message::from(msg(24, 0, 0x7f3c90)), Message::MidiIn(expected));
}

#[test]
fn midi_message_from_u64() {
    let m = MidiMessage::from(0xAB_7f3c90u64);
    assert_eq!((m.status, m.data1, m.data2, m.port), (0x90, 0x3c, 0x7f, 0));
}

#[test]
fn get_name_round_trip() {
    for name in [
        GetName::Param(3),
        GetName::ParamValue(2, -40),
        GetName::Semitone(60, 3),
        GetName::VoiceColor(15),
        GetName::OutVoice(9),
    ] {
        let raw = Option::<FlMessage>::from(name).unwrap();
        assert_eq!(GetName::from(raw), name);
    }
    assert_eq!(Option::<FlMessage>::from(GetName::Semitone(60, 3)), Some(msg(2, 60, 3)));
    assert_eq!(Option::<FlMessage>::from(GetName::Unknown), None);
    assert_eq!(GetName::from(msg(10, 1, 1)), GetName::Unknown);
}

#[test]
fn host_event_decoding() {
    assert_eq!(Event::from(msg(0, 0x42f0_0000, 441)), Event::Tempo(0x42f0_0000, 441));
    assert_eq!(Event::from(msg(2, 64, -1)), Event::MidiPan(64, -1));
    assert_eq!(Event::from(msg(4, -200, 0)), Event::MidiPitch(-200));
    assert_eq!(Event::from(msg(5, 0, 0)), Event::Unknown);
}

#[test]
fn voice_event_round_trip() {
    let raw = Option::<FlMessage>::from(voice::Event::SetLinkVelocity(true)).unwrap();
    assert_eq!(raw, msg(6, 1, 0));
    assert_eq!(voice::Event::from(raw), voice::Event::SetLinkVelocity(true));
    assert_eq!(voice::Event::from(msg(3, 0, 0)), voice::Event::GetVelocity);
    assert_eq!(Option::<FlMessage>::from(voice::Event::Unknown), None);
}

#[test]
fn out_voices_follow_triggers_and_kills() {
    let mut voices = OutVoices::new();
    assert!(voices.triggered(voice::Tag(1), ValuePtr(100), -1).is_none());
    assert!(voices.get(voice::Tag(1)).is_none());

    let v = voices.triggered(voice::Tag(1), ValuePtr(100), 55).unwrap();
    assert_eq!(v.tag(), voice::Tag(1));
    assert_eq!(v.inner_tag(), voice::Tag(55));
    assert_eq!(v.params_ptr(), ValuePtr(100));
    assert_eq!(voices.get(voice::Tag(1)).unwrap().inner_tag(), voice::Tag(55));

    let removed = voices.remove(voice::Tag(1)).unwrap();
    assert_eq!(removed.inner_tag(), voice::Tag(55));
    assert!(voices.get(voice::Tag(1)).is_none());
    assert!(voices.remove(voice::Tag(1)).is_none());
}
