//! The message-box descriptor a platform dialogue collaborator consumes.
//!
//! A [`MessageBox`] is a plain value: a title, a body, and three closed
//! choices (which buttons, which icon, which button starts selected).  The
//! collaborator that renders it needs two conversions, both verified here:
//! the one native style word that the bitmask platform's dialogue call
//! takes, and the reading of the button code that comes back.

use vstd::prelude::*;

verus! {

/// Which buttons the message box offers.
#[derive(Clone, Copy, Debug, PartialEq, Eq, Structural)]
pub enum WindowType {
    Okay,
    OkayCancel,
    AbortRetryIgnore,
    CancelTryContinue,
    Help,
    RetryCancel,
    YesNo,
    YesNoCancel,
}

impl WindowType {
    /// The native style bits of this button choice.
    pub open spec fn spec_style_bits(self) -> u32 {
        match self {
            WindowType::Okay => 0x0000,
            WindowType::OkayCancel => 0x0001,
            WindowType::AbortRetryIgnore => 0x0002,
            WindowType::CancelTryContinue => 0x0006,
            WindowType::Help => 0x4000,
            WindowType::RetryCancel => 0x0005,
            WindowType::YesNo => 0x0004,
            WindowType::YesNoCancel => 0x0003,
        }
    }

    /// The native style bits of this button choice.
    pub fn style_bits(self) -> (r: u32)
        ensures
            r == self.spec_style_bits(),
    {
        match self {
            WindowType::Okay => 0x0000,
            WindowType::OkayCancel => 0x0001,
            WindowType::AbortRetryIgnore => 0x0002,
            WindowType::CancelTryContinue => 0x0006,
            WindowType::Help => 0x4000,
            WindowType::RetryCancel => 0x0005,
            WindowType::YesNo => 0x0004,
            WindowType::YesNoCancel => 0x0003,
        }
    }
}

/// Which icon the message box shows.
#[derive(Clone, Copy, Debug, PartialEq, Eq, Structural)]
pub enum IconType {
    Warning,
    Information,
    Question,
    Error,
}

impl IconType {
    /// The native style bits of this icon choice.
    pub open spec fn spec_style_bits(self) -> u32 {
        match self {
            IconType::Warning => 0x0030,
            IconType::Information => 0x0040,
            IconType::Question => 0x0020,
            IconType::Error => 0x0010,
        }
    }

    /// The native style bits of this icon choice.
    pub fn style_bits(self) -> (r: u32)
        ensures
            r == self.spec_style_bits(),
    {
        match self {
            IconType::Warning => 0x0030,
            IconType::Information => 0x0040,
            IconType::Question => 0x0020,
            IconType::Error => 0x0010,
        }
    }
}

/// Which button starts selected when the message box opens.
#[derive(Clone, Copy, Debug, PartialEq, Eq, Structural)]
pub enum DefaultButton {
    One,
    Two,
    Three,
    Four,
}

impl DefaultButton {
    /// The native style bits of this selection choice.
    pub open spec fn spec_style_bits(self) -> u32 {
        match self {
            DefaultButton::One => 0x0000,
            DefaultButton::Two => 0x0100,
            DefaultButton::Three => 0x0200,
            DefaultButton::Four => 0x0300,
        }
    }

    /// The native style bits of this selection choice.
    pub fn style_bits(self) -> (r: u32)
        ensures
            r == self.spec_style_bits(),
    {
        match self {
            DefaultButton::One => 0x0000,
            DefaultButton::Two => 0x0100,
            DefaultButton::Three => 0x0200,
            DefaultButton::Four => 0x0300,
        }
    }
}

/// Which button the user pressed.
#[derive(Clone, Copy, Debug, PartialEq, Eq, Structural)]
pub enum BoxReturn {
    Abort,
    Cancel,
    Continue,
    Ignore,
    No,
    Okay,
    Retry,
    TryAgain,
    Yes,
}

impl BoxReturn {
    /// The native code of this button.
    pub open spec fn spec_code(self) -> i32 {
        match self {
            BoxReturn::Abort => 3,
            BoxReturn::Cancel => 2,
            BoxReturn::Continue => 11,
            BoxReturn::Ignore => 5,
            BoxReturn::No => 7,
            BoxReturn::Okay => 1,
            BoxReturn::Retry => 4,
            BoxReturn::TryAgain => 10,
            BoxReturn::Yes => 6,
        }
    }

    /// The native code of this button.
    pub fn code(self) -> (r: i32)
        ensures
            r == self.spec_code(),
    {
        match self {
            BoxReturn::Abort => 3,
            BoxReturn::Cancel => 2,
            BoxReturn::Continue => 11,
            BoxReturn::Ignore => 5,
            BoxReturn::No => 7,
            BoxReturn::Okay => 1,
            BoxReturn::Retry => 4,
            BoxReturn::TryAgain => 10,
            BoxReturn::Yes => 6,
        }
    }

    /// Read the button code a native dialogue call returned: the button it
    /// names, or nothing when the code names no button (the native call's
    /// own failure code, zero, among them).
    pub fn from_code(code: i32) -> (r: Option<BoxReturn>)
        ensures
            r matches Some(b) ==> b.spec_code() == code,
            r is None ==> forall|b: BoxReturn| b.spec_code() != code,
    {
        let r = match code {
            3 => Some(BoxReturn::Abort),
            2 => Some(BoxReturn::Cancel),
            11 => Some(BoxReturn::Continue),
            5 => Some(BoxReturn::Ignore),
            7 => Some(BoxReturn::No),
            1 => Some(BoxReturn::Okay),
            4 => Some(BoxReturn::Retry),
            10 => Some(BoxReturn::TryAgain),
            6 => Some(BoxReturn::Yes),
            _ => None,
        };
        proof {
            if r is None {
                assert forall|b: BoxReturn| b.spec_code() != code by {
                    match b {
                        BoxReturn::Abort => {},
                        BoxReturn::Cancel => {},
                        BoxReturn::Continue => {},
                        BoxReturn::Ignore => {},
                        BoxReturn::No => {},
                        BoxReturn::Okay => {},
                        BoxReturn::Retry => {},
                        BoxReturn::TryAgain => {},
                        BoxReturn::Yes => {},
                    }
                }
            }
        }
        r
    }
}

/// A message box: the descriptor a platform dialogue collaborator renders
/// and answers with a [`BoxReturn`].
#[derive(Clone, Copy, Debug)]
pub struct MessageBox {
    pub title: &'static str,
    pub content: &'static str,
    pub window_type: WindowType,
    pub icon_type: IconType,
    pub default_button: DefaultButton,
}

/// The one native style word a message box amounts to: its three choices
/// combined into one flag word.
pub open spec fn spec_style_word(m: MessageBox) -> u32 {
    m.default_button.spec_style_bits() | m.icon_type.spec_style_bits()
        | m.window_type.spec_style_bits()
}

impl MessageBox {
    /// A message box with the given title and body, offering Okay and
    /// Cancel, showing the information icon, with the first button
    /// selected.
    pub fn new(title: &'static str, content: &'static str) -> (r: MessageBox)
        ensures
            r.title@ == title@,
            r.content@ == content@,
            r.window_type == WindowType::OkayCancel,
            r.icon_type == IconType::Information,
            r.default_button == DefaultButton::One,
    {
        MessageBox {
            title,
            content,
            window_type: WindowType::OkayCancel,
            icon_type: IconType::Information,
            default_button: DefaultButton::One,
        }
    }

    /// Replace the title.
    pub fn set_title(self, title: &'static str) -> (r: MessageBox)
        ensures
            r.title@ == title@,
            r.content == self.content,
            r.window_type == self.window_type,
            r.icon_type == self.icon_type,
            r.default_button == self.default_button,
    {
        MessageBox { title, ..self }
    }

    /// Replace the body.
    pub fn set_content(self, content: &'static str) -> (r: MessageBox)
        ensures
            r.title == self.title,
            r.content@ == content@,
            r.window_type == self.window_type,
            r.icon_type == self.icon_type,
            r.default_button == self.default_button,
    {
        MessageBox { content, ..self }
    }

    /// Choose which buttons are offered.
    pub fn set_window_type(self, window_type: WindowType) -> (r: MessageBox)
        ensures
            r.title == self.title,
            r.content == self.content,
            r.window_type == window_type,
            r.icon_type == self.icon_type,
            r.default_button == self.default_button,
    {
        MessageBox { window_type, ..self }
    }

    /// Choose the icon.
    pub fn set_icon_type(self, icon_type: IconType) -> (r: MessageBox)
        ensures
            r.title == self.title,
            r.content == self.content,
            r.window_type == self.window_type,
            r.icon_type == icon_type,
            r.default_button == self.default_button,
    {
        MessageBox { icon_type, ..self }
    }

    /// Choose which button starts selected.
    pub fn set_default_button(self, default_button: DefaultButton) -> (r: MessageBox)
        ensures
            r.title == self.title,
            r.content == self.content,
            r.window_type == self.window_type,
            r.icon_type == self.icon_type,
            r.default_button == default_button,
    {
        MessageBox { default_button, ..self }
    }

    /// The one native style word the bitmask platform's dialogue call
    /// takes for this box.
    pub fn style_word(&self) -> (r: u32)
        ensures
            r == spec_style_word(*self),
    {
        self.default_button.style_bits() | self.icon_type.style_bits()
            | self.window_type.style_bits()
    }
}

} // verus!
