//! Tray icon states and the assets that show them.
//!
//! The front end drives the tray; this module only maps a state to its icon
//! and tooltip.

use vstd::prelude::*;

verus! {

/// What the tray icon can show.
#[derive(Debug, Clone, Copy, PartialEq, Eq, Structural)]
pub enum TrayState {
    /// Nothing is going on.
    Idle,
    /// Voice input is being recorded.
    Listening,
    /// A request is being worked on.
    Processing,
    /// Something went wrong.
    Error,
}

impl TrayState {
    /// File name of the icon for this state.
    pub open spec fn icon(self) -> Seq<char> {
        match self {
            TrayState::Idle => "icon.png"@,
            TrayState::Listening => "icon-listening.png"@,
            TrayState::Processing => "icon-processing.png"@,
            TrayState::Error => "icon-error.png"@,
        }
    }

    /// Tooltip text for this state.
    pub open spec fn tip(self) -> Seq<char> {
        match self {
            TrayState::Idle => "Slovo Voice Assistant"@,
            TrayState::Listening => "Slovo - Listening..."@,
            TrayState::Processing => "Slovo - Processing..."@,
            TrayState::Error => "Slovo - Error"@,
        }
    }

    /// File name of the icon for this state.
    pub fn icon_name(&self) -> (name: &'static str)
        ensures
            name@ == self.icon(),
    {
        match self {
            TrayState::Idle => "icon.png",
            TrayState::Listening => "icon-listening.png",
            TrayState::Processing => "icon-processing.png",
            TrayState::Error => "icon-error.png",
        }
    }

    /// Tooltip text for this state.
    pub fn tooltip(&self) -> (text: &'static str)
        ensures
            text@ == self.tip(),
    {
        match self {
            TrayState::Idle => "Slovo Voice Assistant",
            TrayState::Listening => "Slovo - Listening...",
            TrayState::Processing => "Slovo - Processing...",
            TrayState::Error => "Slovo - Error",
        }
    }
}

/// Sets up native tray state tracking. The front end owns the tray, so
/// there is nothing to prepare on this side.
pub fn init_tray() {
}

} // verus!
