//! The single-slot status message shown at the bottom of the screen.
//! Every operation outcome overwrites it; nothing is queued.
use vstd::prelude::*;

verus! {

/// Severity of the last operation's outcome.
#[derive(Clone, Copy, PartialEq, Eq, Structural, Debug)]
pub enum StatusLevel {
    Info,
    Error,
}

/// The last operation's outcome, overwritten on every new event.
#[derive(Debug)]
pub struct StatusMessage {
    pub text: String,
    pub level: StatusLevel,
}

/// Abstract value of a status message.
#[verifier::ext_equal]
pub ghost struct StatusV {
    pub text: Seq<char>,
    pub level: StatusLevel,
}

impl View for StatusMessage {
    type V = StatusV;

    open spec fn view(&self) -> StatusV {
        StatusV { text: self.text@, level: self.level }
    }
}

impl StatusMessage {
    pub fn info(text: &str) -> (r: Self)
        ensures
            r@ == (StatusV { text: text@, level: StatusLevel::Info }),
    {
        Self { text: text.to_owned(), level: StatusLevel::Info }
    }

    pub fn error(text: &str) -> (r: Self)
        ensures
            r@ == (StatusV { text: text@, level: StatusLevel::Error }),
    {
        Self { text: text.to_owned(), level: StatusLevel::Error }
    }
}

impl Default for StatusMessage {
    /// A blank informational message, the state before any operation ran.
    fn default() -> (r: Self)
        ensures
            r@ == (StatusV { text: Seq::<char>::empty(), level: StatusLevel::Info }),
    {
        Self { text: String::new(), level: StatusLevel::Info }
    }
}

impl StatusLevel {
    /// The label under which the level is rendered.
    pub fn label(&self) -> (r: &'static str)
        ensures
            self is Info ==> r@ == "INFO"@,
            self is Error ==> r@ == "ERROR"@,
    {
        match self {
            StatusLevel::Info => "INFO",
            StatusLevel::Error => "ERROR",
        }
    }
}

} // verus!
