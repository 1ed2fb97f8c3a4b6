use vstd::prelude::*;

verus! {

/// What the tray menu asks of the controller.
#[derive(Clone, Debug, PartialEq, Eq)]
pub enum TrayEvents {
    /// Open the window if none is open.
    Open,
    /// Start the automation if it is stopped, stop it if it runs.
    Toggle,
    /// Quit the application.
    Quit,
    /// The tray is listening for state changes from now on.
    PassSender,
    /// The tray failed, with this detail.
    Failure(String),
}

/// What the controller tells the tray.
#[derive(Clone, Debug, PartialEq, Eq)]
pub enum TrayInput {
    Started,
    Stopped,
    IconUpdate(String),
}

impl TrayInput {
    /// The name of the icon the tray shows after this notice, if it changes.
    pub open spec fn icon_spec(&self) -> Option<Seq<char>> {
        match self {
            TrayInput::Started => Some("emblem-pause"@),
            TrayInput::Stopped => Some("checkmark"@),
            TrayInput::IconUpdate(_) => None,
        }
    }

    pub fn icon(&self) -> (r: Option<&'static str>)
        ensures
            match r {
                Some(name) => self.icon_spec() == Some(name@),
                None => self.icon_spec() is None,
            },
    {
        match self {
            TrayInput::Started => Some("emblem-pause"),
            TrayInput::Stopped => Some("checkmark"),
            TrayInput::IconUpdate(_) => None,
        }
    }
}

} // verus!
