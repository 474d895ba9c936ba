//! The list of downloads the window shows, as last fetched from the manager.
use vstd::prelude::*;
use vstd::string::StringExecFns;

use crate::download::{Download, DownloadStatus};

verus! {

/// The downloads shown: those last fetched, or why fetching failed.
#[derive(Debug)]
pub struct Downloads {
    pub all: Result<Vec<Download>, String>,
}

/// What can happen to the list.
#[derive(Debug)]
pub enum DownloadsMessage {
    AddDownload,
    ShowAddDownloadModal,
    UpdateDownloads(Result<Vec<Download>, String>),
    ShowDetails(i64),
    PauseDownload(i64),
    ResumeDownload(i64),
}

/// What the list shows before anything was fetched.
pub open spec fn not_fetched_text() -> Seq<char> {
    "not fetched yet"@
}

/// The message a download's control button sends: pause while it is
/// downloading, resume otherwise.
pub fn control_message(id: i64, status: DownloadStatus) -> (m: DownloadsMessage)
    ensures
        m == (if status == DownloadStatus::Downloading {
            DownloadsMessage::PauseDownload(id)
        } else {
            DownloadsMessage::ResumeDownload(id)
        }),
{
    if status == DownloadStatus::Downloading {
        DownloadsMessage::PauseDownload(id)
    } else {
        DownloadsMessage::ResumeDownload(id)
    }
}

impl Downloads {
    /// A list that has not been fetched yet.
    pub fn new() -> (d: Self)
        ensures
            d.all matches Err(e) && e@ == not_fetched_text(),
    {
        Downloads { all: Err(String::from_str("not fetched yet")) }
    }

    /// Takes in a fetched list (or the reason there is none); other messages
    /// are not handled here and leave the list as it is.
    pub fn update(&mut self, message: DownloadsMessage)
        ensures
            match message {
                DownloadsMessage::UpdateDownloads(fetched) => final(self).all == fetched,
                _ => *final(self) == *old(self),
            },
    {
        if let DownloadsMessage::UpdateDownloads(fetched) = message {
            self.all = fetched;
        }
    }
}

} // verus!
