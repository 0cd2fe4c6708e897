//! Transport messages, sent by the host on behalf of a controller.
use vstd::prelude::*;

use crate::FlMessage;

verus! {

/// A transport message.
///
/// If `Jog`, `StripJog`, `MarkerJumpJog`, `MarkerSelJog`, `Previous` or `Next` don't answer,
/// `PreviousNext` will be tried. So it's best to implement at least `PreviousNext`.
///
/// If `PunchIn` or `PunchOut` don't answer, `Punch` will be tried.
///
/// If `UndoUp` doesn't answer, `UndoJog` will be tried.
///
/// If `AddAltMarker` doesn't answer, `AddMarker` will be tried.
///
/// If `Cut`, `Copy`, `Paste`, `Insert`, `Delete`, `NextWindow`, `Enter`, `Escape`, `Yes`, `No`,
/// `Fx` don't answer, standard keystrokes will be simulated.
#[allow(missing_docs)]
#[derive(Clone, Copy, Debug, PartialEq, Eq, Structural)]
pub enum Transport {
    /// Generic jog (can be used to select stuff).
    Jog(Jog),
    /// Alternate generic jog (can be used to relocate stuff).
    Jog2(Jog),
    /// Touch-sensitive jog strip, value will be in -65536..65536 for leftmost..rightmost.
    Strip(Jog),
    /// Touch-sensitive jog in jog mode.
    StripJog(Jog),
    /// Value will be `0` for release, 1,2 for 1,2 fingers centered mode, -1,-2 for 1,2 fingers jog
    /// mode (will then send `StripJog`).
    StripHold(Jog),
    Previous(Button),
    Next(Button),
    /// Generic track selection.
    PreviousNext(Jog),
    /// Used to relocate items.
    MoveJog(Jog),
    /// Play/pause.
    Play(Button),
    Stop(Button),
    Record(Button),
    Rewind(Hold),
    FastForward(Hold),
    Loop(Button),
    Mute(Button),
    /// Generic or record mode.
    Mode(Button),
    /// Undo/redo last, or undo down in history.
    Undo(Button),
    /// Undo up in history (no need to implement if no undo history).
    UndoUp(Button),
    /// Undo in history (no need to implement if no undo history).
    UndoJog(Jog),
    /// Live selection.
    Punch(Hold),
    PunchIn(Button),
    PunchOut(Button),
    AddMarker(Button),
    /// Add alternate marker.
    AddAltMarker(Button),
    /// Marker jump.
    MarkerJumpJog(Jog),
    /// Marker selection.
    MarkerSelJog(Jog),
    Up(Button),
    Down(Button),
    Left(Button),
    Right(Button),
    HZoomJog(Jog),
    VZoomJog(Jog),
    /// Snap on/off.
    Snap(Button),
    SnapMode(Jog),
    Cut(Button),
    Copy(Button),
    Paste(Button),
    Insert(Button),
    Delete(Button),
    /// TAB.
    NextWindow(Button),
    /// Window selection.
    WindowJog(Jog),
    F1(Button),
    F2(Button),
    F3(Button),
    F4(Button),
    F5(Button),
    F6(Button),
    F7(Button),
    F8(Button),
    F9(Button),
    F10(Button),
    /// Enter/accept.
    Enter(Button),
    /// Escape/cancel.
    Escape(Button),
    Yes(Button),
    No(Button),
    /// Generic menu.
    Menu(Button),
    /// Item edit/tool/contextual menu.
    ItemMenu(Button),
    Save(Button),
    SaveNew(Button),
    Unknown,
}

impl Transport {
    /// The transport message that a raw message with this `index` and `value` stands for.
    pub open spec fn decode(index: isize, value: isize) -> Transport {
        match index {
            0 => Transport::Jog(Jog(value as i64)),
            1 => Transport::Jog2(Jog(value as i64)),
            2 => Transport::Strip(Jog(value as i64)),
            3 => Transport::StripJog(Jog(value as i64)),
            4 => Transport::StripHold(Jog(value as i64)),
            5 => Transport::Previous(Button(value as u8)),
            6 => Transport::Next(Button(value as u8)),
            7 => Transport::PreviousNext(Jog(value as i64)),
            8 => Transport::MoveJog(Jog(value as i64)),
            10 => Transport::Play(Button(value as u8)),
            11 => Transport::Stop(Button(value as u8)),
            12 => Transport::Record(Button(value as u8)),
            13 => Transport::Rewind(Hold(value != 0)),
            14 => Transport::FastForward(Hold(value != 0)),
            15 => Transport::Loop(Button(value as u8)),
            16 => Transport::Mute(Button(value as u8)),
            17 => Transport::Mode(Button(value as u8)),
            20 => Transport::Undo(Button(value as u8)),
            21 => Transport::UndoUp(Button(value as u8)),
            22 => Transport::UndoJog(Jog(value as i64)),
            30 => Transport::Punch(Hold(value != 0)),
            31 => Transport::PunchIn(Button(value as u8)),
            32 => Transport::PunchOut(Button(value as u8)),
            33 => Transport::AddMarker(Button(value as u8)),
            34 => Transport::AddAltMarker(Button(value as u8)),
            35 => Transport::MarkerJumpJog(Jog(value as i64)),
            36 => Transport::MarkerSelJog(Jog(value as i64)),
            40 => Transport::Up(Button(value as u8)),
            41 => Transport::Down(Button(value as u8)),
            42 => Transport::Left(Button(value as u8)),
            43 => Transport::Right(Button(value as u8)),
            44 => Transport::HZoomJog(Jog(value as i64)),
            45 => Transport::VZoomJog(Jog(value as i64)),
            48 => Transport::Snap(Button(value as u8)),
            49 => Transport::SnapMode(Jog(value as i64)),
            50 => Transport::Cut(Button(value as u8)),
            51 => Transport::Copy(Button(value as u8)),
            52 => Transport::Paste(Button(value as u8)),
            53 => Transport::Insert(Button(value as u8)),
            54 => Transport::Delete(Button(value as u8)),
            58 => Transport::NextWindow(Button(value as u8)),
            59 => Transport::WindowJog(Jog(value as i64)),
            60 => Transport::F1(Button(value as u8)),
            61 => Transport::F2(Button(value as u8)),
            62 => Transport::F3(Button(value as u8)),
            63 => Transport::F4(Button(value as u8)),
            64 => Transport::F5(Button(value as u8)),
            65 => Transport::F6(Button(value as u8)),
            66 => Transport::F7(Button(value as u8)),
            67 => Transport::F8(Button(value as u8)),
            68 => Transport::F9(Button(value as u8)),
            69 => Transport::F10(Button(value as u8)),
            80 => Transport::Enter(Button(value as u8)),
            81 => Transport::Escape(Button(value as u8)),
            82 => Transport::Yes(Button(value as u8)),
            83 => Transport::No(Button(value as u8)),
            90 => Transport::Menu(Button(value as u8)),
            91 => Transport::ItemMenu(Button(value as u8)),
            92 => Transport::Save(Button(value as u8)),
            93 => Transport::SaveNew(Button(value as u8)),
            _ => Transport::Unknown,
        }
    }
}

impl From<FlMessage> for Transport {
    fn from(message: FlMessage) -> (r: Transport) {
        match message.index {
            0 => Transport::Jog(Jog(message.value as i64)),
            1 => Transport::Jog2(Jog(message.value as i64)),
            2 => Transport::Strip(Jog(message.value as i64)),
            3 => Transport::StripJog(Jog(message.value as i64)),
            4 => Transport::StripHold(Jog(message.value as i64)),
            5 => Transport::Previous(Button(message.value as u8)),
            6 => Transport::Next(Button(message.value as u8)),
            7 => Transport::PreviousNext(Jog(message.value as i64)),
            8 => Transport::MoveJog(Jog(message.value as i64)),
            10 => Transport::Play(Button(message.value as u8)),
            11 => Transport::Stop(Button(message.value as u8)),
            12 => Transport::Record(Button(message.value as u8)),
            13 => Transport::Rewind(Hold(message.value != 0)),
            14 => Transport::FastForward(Hold(message.value != 0)),
            15 => Transport::Loop(Button(message.value as u8)),
            16 => Transport::Mute(Button(message.value as u8)),
            17 => Transport::Mode(Button(message.value as u8)),
            20 => Transport::Undo(Button(message.value as u8)),
            21 => Transport::UndoUp(Button(message.value as u8)),
            22 => Transport::UndoJog(Jog(message.value as i64)),
            30 => Transport::Punch(Hold(message.value != 0)),
            31 => Transport::PunchIn(Button(message.value as u8)),
            32 => Transport::PunchOut(Button(message.value as u8)),
            33 => Transport::AddMarker(Button(message.value as u8)),
            34 => Transport::AddAltMarker(Button(message.value as u8)),
            35 => Transport::MarkerJumpJog(Jog(message.value as i64)),
            36 => Transport::MarkerSelJog(Jog(message.value as i64)),
            40 => Transport::Up(Button(message.value as u8)),
            41 => Transport::Down(Button(message.value as u8)),
            42 => Transport::Left(Button(message.value as u8)),
            43 => Transport::Right(Button(message.value as u8)),
            44 => Transport::HZoomJog(Jog(message.value as i64)),
            45 => Transport::VZoomJog(Jog(message.value as i64)),
            48 => Transport::Snap(Button(message.value as u8)),
            49 => Transport::SnapMode(Jog(message.value as i64)),
            50 => Transport::Cut(Button(message.value as u8)),
            51 => Transport::Copy(Button(message.value as u8)),
            52 => Transport::Paste(Button(message.value as u8)),
            53 => Transport::Insert(Button(message.value as u8)),
            54 => Transport::Delete(Button(message.value as u8)),
            58 => Transport::NextWindow(Button(message.value as u8)),
            59 => Transport::WindowJog(Jog(message.value as i64)),
            60 => Transport::F1(Button(message.value as u8)),
            61 => Transport::F2(Button(message.value as u8)),
            62 => Transport::F3(Button(message.value as u8)),
            63 => Transport::F4(Button(message.value as u8)),
            64 => Transport::F5(Button(message.value as u8)),
            65 => Transport::F6(Button(message.value as u8)),
            66 => Transport::F7(Button(message.value as u8)),
            67 => Transport::F8(Button(message.value as u8)),
            68 => Transport::F9(Button(message.value as u8)),
            69 => Transport::F10(Button(message.value as u8)),
            80 => Transport::Enter(Button(message.value as u8)),
            81 => Transport::Escape(Button(message.value as u8)),
            82 => Transport::Yes(Button(message.value as u8)),
            83 => Transport::No(Button(message.value as u8)),
            90 => Transport::Menu(Button(message.value as u8)),
            91 => Transport::ItemMenu(Button(message.value as u8)),
            92 => Transport::Save(Button(message.value as u8)),
            93 => Transport::SaveNew(Button(message.value as u8)),
            _ => Transport::Unknown,
        }
    }
}

impl vstd::std_specs::convert::FromSpecImpl<FlMessage> for Transport {
    open spec fn obeys_from_spec() -> bool {
        true
    }

    open spec fn from_spec(message: FlMessage) -> Transport {
        Transport::decode(message.index, message.value)
    }
}

/// `0` for release, `1` for switch (if release is not supported), `2` for hold (if release should
/// be expected).
#[derive(Clone, Copy, Debug, PartialEq, Eq, Structural)]
pub struct Button(pub u8);

/// `false` for release, `true` for hold.
#[derive(Clone, Copy, Debug, PartialEq, Eq, Structural)]
pub struct Hold(pub bool);

/// Value is an integer increment.
#[derive(Clone, Copy, Debug, PartialEq, Eq, Structural)]
pub struct Jog(pub i64);

} // verus!
