//! The values that pass between the tray icon and the rest of the program:
//! which menu entry was chosen, and what went wrong.

use vstd::prelude::*;
use vstd::string::StringExecFns;

verus! {

/// What can go wrong with the tray icon.
#[derive(Clone, Debug, PartialEq, Eq)]
pub enum Error {
    /// The operating system refused something; the text says what.
    OsError(String),
    NotImplementedError,
    UnknownError,
    /// A menu entry's action failed; the text is what it reported.
    Error(String),
}

/// The choice of one menu entry.
#[derive(Clone, Copy, Debug, PartialEq, Eq, Structural)]
pub struct SystrayEvent {
    menu_index: u32,
}

impl Error {
    /// The line that describes the error to a reader.
    pub open spec fn spec_message(&self) -> Seq<char> {
        match self {
            Error::OsError(detail) => "OsError: "@ + detail@,
            Error::NotImplementedError => "Functionality is not implemented yet"@,
            Error::UnknownError => "Unknown error occurrred"@,
            Error::Error(detail) => "Error: "@ + detail@,
        }
    }

    /// The line that describes the error to a reader.
    pub fn message(&self) -> (text: String)
        ensures
            text@ == self.spec_message(),
    {
        match self {
            Error::OsError(detail) => "OsError: ".to_owned().concat(detail.as_str()),
            Error::NotImplementedError => "Functionality is not implemented yet".to_owned(),
            Error::UnknownError => "Unknown error occurrred".to_owned(),
            Error::Error(detail) => "Error: ".to_owned().concat(detail.as_str()),
        }
    }
}

impl SystrayEvent {
    /// The place in the menu of the entry that was chosen.
    pub closed spec fn spec_menu_index(&self) -> u32 {
        self.menu_index
    }

    /// The event that the entry at `menu_index` was chosen.
    pub fn new(menu_index: u32) -> (event: SystrayEvent)
        ensures
            event.spec_menu_index() == menu_index,
    {
        SystrayEvent { menu_index }
    }

    /// The place in the menu of the entry that was chosen.
    #[verifier::when_used_as_spec(spec_menu_index)]
    pub fn menu_index(&self) -> (index: u32)
        ensures
            index == self.spec_menu_index(),
    {
        self.menu_index
    }
}

} // verus!
