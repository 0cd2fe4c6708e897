//! Sets of flags that the host and the plugin exchange as plain integers.
use vstd::prelude::*;

use crate::{intptr_t, AsRawPtr};

verus! {

/// Parameter flags.
#[derive(Clone, Copy, Debug, PartialEq, Eq, Structural)]
pub struct ParameterFlags {
    /// The flags as an integer.
    pub bits: isize,
}

impl View for ParameterFlags {
    type V = isize;

    open spec fn view(&self) -> isize {
        self.bits
    }
}

impl ParameterFlags {
    /// Makes no sense to interpolate parameter values (when values are not levels).
    pub const CANT_INTERPOLATE: isize = 1;

    /// Parameter is a normalized (0..1) single float. (Integer otherwise)
    pub const FLOAT: isize = 2;

    /// Parameter appears centered in event editors.
    pub const CENTERED: isize = 4;

    /// The union of all the flags above.
    pub open spec fn known_bits() -> isize {
        0x7
    }

    /// No flag set.
    pub fn empty() -> (r: Self)
        ensures
            r@ == 0,
    {
        ParameterFlags { bits: 0 }
    }

    /// Every flag above set.
    pub fn all() -> (r: Self)
        ensures
            r@ == Self::known_bits(),
    {
        ParameterFlags { bits: 0x7 }
    }

    /// The flags as an integer.
    pub fn bits(&self) -> (r: isize)
        ensures
            r == self@,
    {
        self.bits
    }

    /// The flags that `bits` holds, or `None` where it holds a bit that no flag above has.
    pub fn from_bits(bits: isize) -> (r: Option<Self>)
        ensures
            r is Some <==> bits & !Self::known_bits() == 0,
            r matches Some(f) ==> f@ == bits,
    {
        if bits & !0x7 == 0 {
            Some(ParameterFlags { bits })
        } else {
            None
        }
    }

    /// The flags that `bits` holds, with every bit that no flag above has dropped.
    pub fn from_bits_truncate(bits: isize) -> (r: Self)
        ensures
            r@ == bits & Self::known_bits(),
    {
        ParameterFlags { bits: bits & 0x7 }
    }

    /// Whether every flag of `other` is set in `self`.
    pub fn contains(&self, other: isize) -> (r: bool)
        ensures
            r == (self@ & other == other),
    {
        self.bits & other == other
    }

    /// `self` with the flags of `other` set too.
    pub fn union(self, other: isize) -> (r: Self)
        ensures
            r@ == self@ | other,
    {
        ParameterFlags { bits: self.bits | other }
    }
}

impl AsRawPtr for ParameterFlags {
    open spec fn raw_ptr_spec(&self) -> intptr_t {
        self@
    }

    fn as_raw_ptr(&self) -> (r: intptr_t) {
        self.bits
    }
}

/// Processing mode flags.
#[derive(Clone, Copy, Debug, PartialEq, Eq, Structural)]
pub struct ProcessModeFlags {
    /// The flags as an integer.
    pub bits: isize,
}

impl View for ProcessModeFlags {
    type V = isize;

    open spec fn view(&self) -> isize {
        self.bits
    }
}

impl ProcessModeFlags {
    /// Realtime rendering.
    pub const NORMAL: isize = 0;

    /// Realtime rendering with a higher quality.
    pub const HQ_REALTIME: isize = 1;

    /// Non realtime processing (CPU does not matter, quality does) (normally set when
    /// rendering only).
    pub const HQ_NON_REALTIME: isize = 2;

    /// FL is rendering to file if this flag is set.
    pub const IS_RENDERING: isize = 16;

    /// (changed in FL 7.0) 3 bits value for interpolation quality.
    ///
    /// - 0=none (obsolete)
    /// - 1=linear
    /// - 2=6 point hermite (default)
    /// - 3=32 points sinc
    /// - 4=64 points sinc
    /// - 5=128 points sinc
    /// - 6=256 points sinc
    pub const IP_MASK: isize = 0xFFFF << 8;

    /// The union of all the flags above.
    pub open spec fn known_bits() -> isize {
        0xffff13
    }

    /// No flag set.
    pub fn empty() -> (r: Self)
        ensures
            r@ == 0,
    {
        ProcessModeFlags { bits: 0 }
    }

    /// Every flag above set.
    pub fn all() -> (r: Self)
        ensures
            r@ == Self::known_bits(),
    {
        ProcessModeFlags { bits: 0xffff13 }
    }

    /// The flags as an integer.
    pub fn bits(&self) -> (r: isize)
        ensures
            r == self@,
    {
        self.bits
    }

    /// The flags that `bits` holds, or `None` where it holds a bit that no flag above has.
    pub fn from_bits(bits: isize) -> (r: Option<Self>)
        ensures
            r is Some <==> bits & !Self::known_bits() == 0,
            r matches Some(f) ==> f@ == bits,
    {
        if bits & !0xffff13 == 0 {
            Some(ProcessModeFlags { bits })
        } else {
            None
        }
    }

    /// The flags that `bits` holds, with every bit that no flag above has dropped.
    pub fn from_bits_truncate(bits: isize) -> (r: Self)
        ensures
            r@ == bits & Self::known_bits(),
    {
        ProcessModeFlags { bits: bits & 0xffff13 }
    }

    /// Whether every flag of `other` is set in `self`.
    pub fn contains(&self, other: isize) -> (r: bool)
        ensures
            r == (self@ & other == other),
    {
        self.bits & other == other
    }

    /// `self` with the flags of `other` set too.
    pub fn union(self, other: isize) -> (r: Self)
        ensures
            r@ == self@ | other,
    {
        ProcessModeFlags { bits: self.bits | other }
    }
}

/// Processing parameters flags.
#[derive(Clone, Copy, Debug, PartialEq, Eq, Structural)]
pub struct ProcessParamFlags {
    /// The flags as an integer.
    pub bits: isize,
}

impl View for ProcessParamFlags {
    type V = isize;

    open spec fn view(&self) -> isize {
        self.bits
    }
}

impl ProcessParamFlags {
    /// Update the value of the parameter.
    pub const UPDATE_VALUE: isize = 1;

    /// Return the value of the parameter as the result of the function.
    pub const GET_VALUE: isize = 2;

    /// Update the hint if there is one.
    pub const SHOW_HINT: isize = 4;

    /// Update the parameter control (wheel, slider, ...).
    pub const UPDATE_CONTROL: isize = 16;

    /// A value between 0 and 65536 has to be translated to the range of the parameter control.
    ///
    /// Note that you should also return the translated value, even if `GET_VALUE` isn't
    /// included.
    pub const FROM_MIDI: isize = 32;

    /// (internal) Don't check if wheels are linked.
    pub const NO_LINK: isize = 1024;

    /// Sent by an internal controller. Internal controllers should pay attention to these,
    /// to avoid Feedback of controller changes.
    pub const INTERNAL_CTRL: isize = 2048;

    /// This flag is free to be used by the plugin as it wishes.
    pub const PLUG_RESERVED: isize = 4096;

    /// The union of all the flags above.
    pub open spec fn known_bits() -> isize {
        0x1c37
    }

    /// No flag set.
    pub fn empty() -> (r: Self)
        ensures
            r@ == 0,
    {
        ProcessParamFlags { bits: 0 }
    }

    /// Every flag above set.
    pub fn all() -> (r: Self)
        ensures
            r@ == Self::known_bits(),
    {
        ProcessParamFlags { bits: 0x1c37 }
    }

    /// The flags as an integer.
    pub fn bits(&self) -> (r: isize)
        ensures
            r == self@,
    {
        self.bits
    }

    /// The flags that `bits` holds, or `None` where it holds a bit that no flag above has.
    pub fn from_bits(bits: isize) -> (r: Option<Self>)
        ensures
            r is Some <==> bits & !Self::known_bits() == 0,
            r matches Some(f) ==> f@ == bits,
    {
        if bits & !0x1c37 == 0 {
            Some(ProcessParamFlags { bits })
        } else {
            None
        }
    }

    /// The flags that `bits` holds, with every bit that no flag above has dropped.
    pub fn from_bits_truncate(bits: isize) -> (r: Self)
        ensures
            r@ == bits & Self::known_bits(),
    {
        ProcessParamFlags { bits: bits & 0x1c37 }
    }

    /// Whether every flag of `other` is set in `self`.
    pub fn contains(&self, other: isize) -> (r: bool)
        ensures
            r == (self@ & other == other),
    {
        self.bits & other == other
    }

    /// `self` with the flags of `other` set too.
    pub fn union(self, other: isize) -> (r: Self)
        ensures
            r@ == self@ | other,
    {
        ProcessParamFlags { bits: self.bits | other }
    }
}

/// Sample loading flags.
#[derive(Clone, Copy, Debug, PartialEq, Eq, Structural)]
pub struct SampleLoadFlags {
    /// The flags as an integer.
    pub bits: isize,
}

impl View for SampleLoadFlags {
    type V = isize;

    open spec fn view(&self) -> isize {
        self.bits
    }
}

impl SampleLoadFlags {
    /// This tells the sample loader to show an open box, for the user to select a sample.
    pub const SHOW_DIALOG: isize = 1;

    /// Force the sample to be reloaded, even if the filename is the same.
    ///
    /// This is handy in case you modified the sample, for example.
    pub const FORCE_RELOAD: isize = 2;

    /// Don't load the sample, instead get its filename & make sure that the format is correct
    /// (useful after `host::Message::ChanSampleChanged`).
    pub const GET_NAME: isize = 4;

    /// Don't resample to the host sample rate.
    pub const NO_RESAMPLING: isize = 5;

    /// The union of all the flags above.
    pub open spec fn known_bits() -> isize {
        0x7
    }

    /// No flag set.
    pub fn empty() -> (r: Self)
        ensures
            r@ == 0,
    {
        SampleLoadFlags { bits: 0 }
    }

    /// Every flag above set.
    pub fn all() -> (r: Self)
        ensures
            r@ == Self::known_bits(),
    {
        SampleLoadFlags { bits: 0x7 }
    }

    /// The flags as an integer.
    pub fn bits(&self) -> (r: isize)
        ensures
            r == self@,
    {
        self.bits
    }

    /// The flags that `bits` holds, or `None` where it holds a bit that no flag above has.
    pub fn from_bits(bits: isize) -> (r: Option<Self>)
        ensures
            r is Some <==> bits & !Self::known_bits() == 0,
            r matches Some(f) ==> f@ == bits,
    {
        if bits & !0x7 == 0 {
            Some(SampleLoadFlags { bits })
        } else {
            None
        }
    }

    /// The flags that `bits` holds, with every bit that no flag above has dropped.
    pub fn from_bits_truncate(bits: isize) -> (r: Self)
        ensures
            r@ == bits & Self::known_bits(),
    {
        SampleLoadFlags { bits: bits & 0x7 }
    }

    /// Whether every flag of `other` is set in `self`.
    pub fn contains(&self, other: isize) -> (r: bool)
        ensures
            r == (self@ & other == other),
    {
        self.bits & other == other
    }

    /// `self` with the flags of `other` set too.
    pub fn union(self, other: isize) -> (r: Self)
        ensures
            r@ == self@ | other,
    {
        SampleLoadFlags { bits: self.bits | other }
    }
}

/// Notes parameters flags.
#[derive(Clone, Copy, Debug, PartialEq, Eq, Structural)]
pub struct NotesFlags {
    /// The flags as an integer.
    pub bits: isize,
}

impl View for NotesFlags {
    type V = isize;

    open spec fn view(&self) -> isize {
        self.bits
    }
}

impl NotesFlags {
    /// Delete everything currently on the piano roll before adding the notes.
    pub const EMPTY_FIRST: isize = 1;

    /// Put the new notes in the piano roll selection, if there is one.
    pub const USE_SELECTION: isize = 2;

    /// The union of all the flags above.
    pub open spec fn known_bits() -> isize {
        0x3
    }

    /// No flag set.
    pub fn empty() -> (r: Self)
        ensures
            r@ == 0,
    {
        NotesFlags { bits: 0 }
    }

    /// Every flag above set.
    pub fn all() -> (r: Self)
        ensures
            r@ == Self::known_bits(),
    {
        NotesFlags { bits: 0x3 }
    }

    /// The flags as an integer.
    pub fn bits(&self) -> (r: isize)
        ensures
            r == self@,
    {
        self.bits
    }

    /// The flags that `bits` holds, or `None` where it holds a bit that no flag above has.
    pub fn from_bits(bits: isize) -> (r: Option<Self>)
        ensures
            r is Some <==> bits & !Self::known_bits() == 0,
            r matches Some(f) ==> f@ == bits,
    {
        if bits & !0x3 == 0 {
            Some(NotesFlags { bits })
        } else {
            None
        }
    }

    /// The flags that `bits` holds, with every bit that no flag above has dropped.
    pub fn from_bits_truncate(bits: isize) -> (r: Self)
        ensures
            r@ == bits & Self::known_bits(),
    {
        NotesFlags { bits: bits & 0x3 }
    }

    /// Whether every flag of `other` is set in `self`.
    pub fn contains(&self, other: isize) -> (r: bool)
        ensures
            r == (self@ & other == other),
    {
        self.bits & other == other
    }

    /// `self` with the flags of `other` set too.
    pub fn union(self, other: isize) -> (r: Self)
        ensures
            r@ == self@ | other,
    {
        NotesFlags { bits: self.bits | other }
    }
}

/// Parameter popup menu item flags.
#[derive(Clone, Copy, Debug, PartialEq, Eq, Structural)]
pub struct ParamMenuItemFlags {
    /// The flags as an integer.
    pub bits: i32,
}

impl View for ParamMenuItemFlags {
    type V = i32;

    open spec fn view(&self) -> i32 {
        self.bits
    }
}

impl ParamMenuItemFlags {
    /// The item is disabled.
    pub const DISABLED: i32 = 1;

    /// The item is checked.
    pub const CHECKED: i32 = 2;

    /// The union of all the flags above.
    pub open spec fn known_bits() -> i32 {
        0x3
    }

    /// No flag set.
    pub fn empty() -> (r: Self)
        ensures
            r@ == 0,
    {
        ParamMenuItemFlags { bits: 0 }
    }

    /// Every flag above set.
    pub fn all() -> (r: Self)
        ensures
            r@ == Self::known_bits(),
    {
        ParamMenuItemFlags { bits: 0x3 }
    }

    /// The flags as an integer.
    pub fn bits(&self) -> (r: i32)
        ensures
            r == self@,
    {
        self.bits
    }

    /// The flags that `bits` holds, or `None` where it holds a bit that no flag above has.
    pub fn from_bits(bits: i32) -> (r: Option<Self>)
        ensures
            r is Some <==> bits & !Self::known_bits() == 0,
            r matches Some(f) ==> f@ == bits,
    {
        if bits & !0x3 == 0 {
            Some(ParamMenuItemFlags { bits })
        } else {
            None
        }
    }

    /// The flags that `bits` holds, with every bit that no flag above has dropped.
    pub fn from_bits_truncate(bits: i32) -> (r: Self)
        ensures
            r@ == bits & Self::known_bits(),
    {
        ParamMenuItemFlags { bits: bits & 0x3 }
    }

    /// Whether every flag of `other` is set in `self`.
    pub fn contains(&self, other: i32) -> (r: bool)
        ensures
            r == (self@ & other == other),
    {
        self.bits & other == other
    }

    /// `self` with the flags of `other` set too.
    pub fn union(self, other: i32) -> (r: Self)
        ensures
            r@ == self@ | other,
    {
        ParamMenuItemFlags { bits: self.bits | other }
    }
}

/// Message box flags (the `uType` of the Win32 `MessageBox` function).
#[derive(Clone, Copy, Debug, PartialEq, Eq, Structural)]
pub struct MessageBoxFlags {
    /// The flags as an integer.
    pub bits: isize,
}

impl View for MessageBoxFlags {
    type V = isize;

    open spec fn view(&self) -> isize {
        self.bits
    }
}

impl MessageBoxFlags {
    /// The message box contains three push buttons: Abort, Retry, and Ignore.
    pub const ABORTRETRYIGNORE: isize = 0x0000_0002;

    /// The message box contains three push buttons: Cancel, Try Again, Continue.
    pub const CANCELTRYCONTINUE: isize = 0x0000_0006;

    /// Adds a Help button to the message box.
    pub const HELP: isize = 0x0000_4000;

    /// The message box contains one push button: OK. This is the default.
    pub const OK: isize = 0x0000_0000;

    /// The message box contains two push buttons: OK and Cancel.
    pub const OKCANCEL: isize = 0x0000_0001;

    /// The message box contains two push buttons: Retry and Cancel.
    pub const RETRYCANCEL: isize = 0x0000_0005;

    /// The message box contains two push buttons: Yes and No.
    pub const YESNO: isize = 0x0000_0004;

    /// The message box contains three push buttons: Yes, No, and Cancel.
    pub const YESNOCANCEL: isize = 0x0000_0003;

    /// An exclamation-point icon appears in the message box.
    pub const ICONEXCLAMATION: isize = 0x0000_0030;

    /// An exclamation-point icon appears in the message box.
    pub const ICONWARNING: isize = 0x0000_0030;

    /// An icon consisting of a lowercase letter i in a circle appears in the message box.
    pub const ICONINFORMATION: isize = 0x0000_0040;

    /// An icon consisting of a lowercase letter i in a circle appears in the message box.
    pub const ICONASTERISK: isize = 0x0000_0040;

    /// A question-mark icon appears in the message box.
    pub const ICONQUESTION: isize = 0x0000_0020;

    /// A stop-sign icon appears in the message box.
    pub const ICONSTOP: isize = 0x0000_0010;

    /// A stop-sign icon appears in the message box.
    pub const ICONERROR: isize = 0x0000_0010;

    /// A stop-sign icon appears in the message box.
    pub const ICONHAND: isize = 0x0000_0010;

    /// The first button is the default button.
    pub const DEFBUTTON1: isize = 0x0000_0000;

    /// The second button is the default button.
    pub const DEFBUTTON2: isize = 0x0000_0100;

    /// The third button is the default button.
    pub const DEFBUTTON3: isize = 0x0000_0200;

    /// The fourth button is the default button.
    pub const DEFBUTTON4: isize = 0x0000_0300;

    /// The user must respond to the message box before continuing work in the owner window.
    pub const APPLMODAL: isize = 0x0000_0000;

    /// Same as `APPLMODAL` except that the message box has the topmost style.
    pub const SYSTEMMODAL: isize = 0x0000_1000;

    /// Same as `APPLMODAL` except that all the top-level windows of the current thread
    /// are disabled.
    pub const TASKMODAL: isize = 0x0000_2000;

    /// Same as desktop of the interactive window station.
    pub const DEFAULT_DESKTOP_ONLY: isize = 0x0002_0000;

    /// The text is right-justified.
    pub const RIGHT: isize = 0x0008_0000;

    /// Displays message and caption text using right-to-left reading order.
    pub const RTLREADING: isize = 0x0010_0000;

    /// The message box becomes the foreground window.
    pub const SETFOREGROUND: isize = 0x0001_0000;

    /// The message box is created with the topmost window style.
    pub const TOPMOST: isize = 0x0004_0000;

    /// The caller is a service notifying the user of an event.
    pub const SERVICE_NOTIFICATION: isize = 0x0020_0000;

    /// The union of all the flags above.
    pub open spec fn known_bits() -> isize {
        0x3f7377
    }

    /// No flag set.
    pub fn empty() -> (r: Self)
        ensures
            r@ == 0,
    {
        MessageBoxFlags { bits: 0 }
    }

    /// Every flag above set.
    pub fn all() -> (r: Self)
        ensures
            r@ == Self::known_bits(),
    {
        MessageBoxFlags { bits: 0x3f7377 }
    }

    /// The flags as an integer.
    pub fn bits(&self) -> (r: isize)
        ensures
            r == self@,
    {
        self.bits
    }

    /// The flags that `bits` holds, or `None` where it holds a bit that no flag above has.
    pub fn from_bits(bits: isize) -> (r: Option<Self>)
        ensures
            r is Some <==> bits & !Self::known_bits() == 0,
            r matches Some(f) ==> f@ == bits,
    {
        if bits & !0x3f7377 == 0 {
            Some(MessageBoxFlags { bits })
        } else {
            None
        }
    }

    /// The flags that `bits` holds, with every bit that no flag above has dropped.
    pub fn from_bits_truncate(bits: isize) -> (r: Self)
        ensures
            r@ == bits & Self::known_bits(),
    {
        MessageBoxFlags { bits: bits & 0x3f7377 }
    }

    /// Whether every flag of `other` is set in `self`.
    pub fn contains(&self, other: isize) -> (r: bool)
        ensures
            r == (self@ & other == other),
    {
        self.bits & other == other
    }

    /// `self` with the flags of `other` set too.
    pub fn union(self, other: isize) -> (r: Self)
        ensures
            r@ == self@ | other,
    {
        MessageBoxFlags { bits: self.bits | other }
    }
}

impl AsRawPtr for MessageBoxFlags {
    open spec fn raw_ptr_spec(&self) -> intptr_t {
        self@
    }

    fn as_raw_ptr(&self) -> (r: intptr_t) {
        self.bits
    }
}

} // verus!
