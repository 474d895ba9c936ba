//! The dialog shown over the window, if any.
use vstd::prelude::*;

use crate::ui::add_download::{start_fits, stepped, AddDownload, AddDownloadAction, AddDownloadMessage};

verus! {

/// The dialog on screen.
#[derive(Debug)]
pub enum Dialog {
    AddDownload(AddDownload),
    /// No dialog is open.
    Closed,
}

/// What can happen to the dialog.
#[derive(Debug)]
pub enum DialogMessage {
    AddDownload(AddDownloadMessage),
    DoNothing,
}

/// Whether a message can be handed to the dialog: starting a download needs
/// its numbers to fit.
pub open spec fn dialog_accepts(dialog: Dialog, message: DialogMessage) -> bool {
    match (dialog, message) {
        (Dialog::AddDownload(d), DialogMessage::AddDownload(AddDownloadMessage::StartWrapper)) => start_fits(d),
        _ => true,
    }
}

/// The dialog before and after a message, and what its owner is asked to do:
/// `Hide` closes an open dialog; another message for the open dialog is
/// handled by it; with no dialog open nothing happens.
pub open spec fn dialog_stepped(
    before: Dialog,
    after: Dialog,
    message: DialogMessage,
    action: AddDownloadAction,
) -> bool {
    match (before, message) {
        (Dialog::AddDownload(open), DialogMessage::AddDownload(m)) => if m is Hide {
            after is Closed && action is Nothing
        } else {
            after matches Dialog::AddDownload(next) && stepped(open, next, m, action)
        },
        _ => after == before && action is Nothing,
    }
}

impl Dialog {
    /// Applies a message: `Hide` closes the dialog, any other message for
    /// the open dialog goes to it; with no dialog open nothing happens.
    pub fn update(&mut self, message: DialogMessage) -> (action: AddDownloadAction)
        requires
            dialog_accepts(*old(self), message),
        ensures
            dialog_stepped(*old(self), *final(self), message, action),
    {
        match message {
            DialogMessage::AddDownload(m) => {
                if let AddDownloadMessage::Hide = m {
                    if let Dialog::AddDownload(_) = self {
                        *self = Dialog::Closed;
                    }
                    return AddDownloadAction::Nothing;
                }
                match self {
                    Dialog::AddDownload(d) => d.update(m),
                    Dialog::Closed => AddDownloadAction::Nothing,
                }
            },
            DialogMessage::DoNothing => AddDownloadAction::Nothing,
        }
    }
}

} // verus!
