//! The option types of the dialogs and the words and codes the native library
//! knows them by.

use crate::text::has_nul;
use libc::c_int;
use vstd::prelude::*;

verus! {

/// Type of message box to display.
#[derive(Debug, Hash, Eq, PartialEq, Clone, Copy)]
pub enum MessageBox {
    /// Simple message box with only an `Ok` button.
    OkOnly,
    /// Message box with the choice of `Ok` and `Cancel`.
    OkCancel,
    /// Message box with the choice of `Yes` or `No`.
    YesNo,
}

/// Generic icon to be displayed beside message box messages.
#[derive(Debug, Hash, Eq, PartialEq, Clone, Copy)]
pub enum Icon {
    /// Info-style icon.
    Info,
    /// Warning-style icon.
    Warning,
    /// Error-style icon.
    Error,
    /// Question-style icon.
    Question,
}

/// Which button to use or which was clicked.
#[derive(Debug, Hash, Eq, PartialEq, Clone, Copy)]
pub enum BoxButton {
    /// Either the `Cancel` or `No` button.
    CancelNo,
    /// Either the `Ok` or `Yes` button.
    OkYes,
}

/// Default value for the color chooser dialog.
pub enum DefaultColorValue<'a> {
    /// Hex value as a string.
    Hex(&'a str),
    /// RGB value as a triplet of `u8`s.
    RGB(&'a [u8; 3]),
}

impl MessageBox {
    /// The word the native library knows this kind of box by.
    pub open spec fn name(self) -> Seq<char> {
        match self {
            MessageBox::OkOnly => "ok"@,
            MessageBox::OkCancel => "okcancel"@,
            MessageBox::YesNo => "yesno"@,
        }
    }

    /// The word the native library knows this kind of box by.
    pub fn to_str(&self) -> (name: &'static str)
        ensures
            name@ == self.name(),
            !has_nul(name@),
    {
        proof {
            reveal_strlit("ok");
            reveal_strlit("okcancel");
            reveal_strlit("yesno");
        }
        match *self {
            MessageBox::OkOnly => "ok",
            MessageBox::OkCancel => "okcancel",
            MessageBox::YesNo => "yesno",
        }
    }
}

impl Icon {
    /// The word the native library knows this icon by.
    pub open spec fn name(self) -> Seq<char> {
        match self {
            Icon::Info => "info"@,
            Icon::Warning => "warning"@,
            Icon::Error => "error"@,
            Icon::Question => "question"@,
        }
    }

    /// The word the native library knows this icon by.
    pub fn to_str(&self) -> (name: &'static str)
        ensures
            name@ == self.name(),
            !has_nul(name@),
    {
        proof {
            reveal_strlit("info");
            reveal_strlit("warning");
            reveal_strlit("error");
            reveal_strlit("question");
        }
        match *self {
            Icon::Info => "info",
            Icon::Warning => "warning",
            Icon::Error => "error",
            Icon::Question => "question",
        }
    }
}

impl BoxButton {
    /// The integer the native library uses for this button, both when asked
    /// for a default and when reporting a click.
    pub open spec fn spec_code(self) -> c_int {
        match self {
            BoxButton::CancelNo => 0,
            BoxButton::OkYes => 1,
        }
    }

    /// The integer the native library uses for this button.
    #[verifier::when_used_as_spec(spec_code)]
    pub fn code(self) -> (code: c_int)
        ensures
            code == self.spec_code(),
    {
        match self {
            BoxButton::CancelNo => 0,
            BoxButton::OkYes => 1,
        }
    }

    /// The button that a code reported by the native library stands for:
    /// 0 is `CancelNo`, 1 is `OkYes`, and no other code is a button.
    pub open spec fn of_code(code: c_int) -> Option<BoxButton> {
        if code == 0 {
            Some(BoxButton::CancelNo)
        } else if code == 1 {
            Some(BoxButton::OkYes)
        } else {
            None
        }
    }

    /// Reads the button that the native message box reported. A code other
    /// than 0 and 1 is outside what the native library promises and gives
    /// `None`.
    pub fn from_code(code: c_int) -> (button: Option<BoxButton>)
        ensures
            button == BoxButton::of_code(code),
    {
        if code == 0 {
            Some(BoxButton::CancelNo)
        } else if code == 1 {
            Some(BoxButton::OkYes)
        } else {
            None
        }
    }
}

/// The two codes serve both directions: the code that asks for a button is
/// the code that reports it, and no other code reports a button.
pub proof fn lemma_button_codes(button: BoxButton, code: c_int)
    ensures
        BoxButton::of_code(button.spec_code()) == Some(button),
        BoxButton::of_code(code) == Some(button) <==> code == button.spec_code(),
        BoxButton::of_code(code) is None <==> code != 0 && code != 1,
{
}

} // verus!
