//! The download manager window: which page it shows, its dialog, notices and
//! title bar, and what it asks its owner to do (talk to the manager, wait,
//! move the window) in answer to each message.
use vstd::prelude::*;
use vstd::string::StringExecFns;

use crate::decimal::{i64_to_decimal, signed_decimal_text};
use crate::download::{Download, DownloadConfig, DownloadRequestMessage};
use crate::rpc::messages::{ClientError, RpcRequest, RpcResponse};
use crate::ui::add_download::{is_fresh, AddDownload, AddDownloadAction, AddDownloadMessage};
use crate::ui::dialog::{dialog_accepts, dialog_stepped, Dialog, DialogMessage};
use crate::ui::downloads::{Downloads, DownloadsMessage};
use crate::ui::title_bar::{focus_after, window_action_for, TitleBar, TitleBarMessage, WindowAction};
use crate::ui::toast::{toast_stepped, Toast, ToastAction, ToastMessage, ToastVariant};
use crate::ui_types::Page;

verus! {

/// What can happen in the window.
#[derive(Debug)]
pub enum Message {
    ConnectAndRefetch,
    DoNothing,
    DownloadsMessage(DownloadsMessage),
    DialogMessage(DialogMessage),
    Navigate(Page),
    OpenDialog,
    /// The refresh timer fired.
    Periodic,
    Refetch,
    TitleBar(TitleBarMessage),
    Toast(ToastMessage),
}

/// A request that controls one download.
#[derive(Debug, Clone, Copy, PartialEq, Eq, Structural)]
pub enum ControlKind {
    Pause,
    Resume,
}

/// What the window asks its owner to do after a message.
#[derive(Debug)]
pub enum Command {
    Nothing,
    /// Hand this message back to the window.
    Then(Message),
    /// Wait this many seconds, then hand the message back.
    After(u64, Message),
    /// Connect to the manager, fetch the downloads, and hand back
    /// `after_connect_and_fetch` of the result.
    ConnectAndFetch,
    /// Fetch the downloads and hand back `after_fetch` of the result.
    Fetch,
    /// Send `control_request` of these to the manager and hand back
    /// `after_control` of the reply.
    Control(ControlKind, i64),
    /// Send this download request to the manager, then hand back `after_start()`.
    StartDownload(DownloadRequestMessage),
    /// Let the user pick a directory for the dialog.
    PickDirectory,
    /// Act on the window itself.
    Window(WindowAction),
}

/// The window's state.
#[derive(Debug)]
pub struct DownloadManager {
    pub current_page: Page,
    pub default_page: Page,
    pub dialog: Dialog,
    pub downloads: Downloads,
    pub title_bar: TitleBar,
    pub toast: Toast,
    /// The configuration a new download dialog starts from.
    pub download_defaults: DownloadConfig,
}

/// The command that answers what the dialog asked for.
pub open spec fn dialog_command(action: AddDownloadAction) -> Command {
    match action {
        AddDownloadAction::Nothing => Command::Nothing,
        AddDownloadAction::PickDirectory => Command::PickDirectory,
        AddDownloadAction::Hide => Command::Then(
            Message::DialogMessage(DialogMessage::AddDownload(AddDownloadMessage::Hide)),
        ),
        AddDownloadAction::Start(request) => Command::Then(
            Message::DialogMessage(DialogMessage::AddDownload(AddDownloadMessage::Start(request))),
        ),
    }
}

/// The command that answers what the notices asked for.
pub open spec fn toast_command(action: ToastAction) -> Command {
    match action {
        ToastAction::Nothing => Command::Nothing,
        ToastAction::DeleteLater { id, seconds } => Command::After(
            seconds,
            Message::Toast(ToastMessage::DeleteToast(id)),
        ),
    }
}

/// Whether the window can take a message: a message for the dialog must be
/// one the dialog can take.
pub open spec fn window_accepts(w: DownloadManager, message: Message) -> bool {
    match message {
        Message::DialogMessage(m) => dialog_accepts(w.dialog, m),
        _ => true,
    }
}

/// The window before and after a message, and the command it gives.
pub open spec fn window_stepped(
    before: DownloadManager,
    after: DownloadManager,
    message: Message,
    command: Command,
) -> bool {
    match message {
        Message::Navigate(page) => {
            &&& after == (DownloadManager { current_page: page, ..before })
            &&& command is Nothing
        },
        Message::DoNothing => after == before && command is Nothing,
        Message::Toast(m) => {
            &&& after == (DownloadManager { toast: after.toast, ..before })
            &&& exists|a: ToastAction|
                #[trigger] toast_stepped(before.toast@, after.toast@, m, a) && command == toast_command(
                    a,
                )
        },
        Message::Periodic => after == before && command == Command::Then(Message::Refetch),
        Message::ConnectAndRefetch => after == before && command is ConnectAndFetch,
        Message::Refetch => after == before && command is Fetch,
        Message::DownloadsMessage(m) => match m {
            DownloadsMessage::ShowAddDownloadModal => after == before && command == Command::Then(
                Message::OpenDialog,
            ),
            DownloadsMessage::ResumeDownload(id) => after == before && command == Command::Control(
                ControlKind::Resume,
                id,
            ),
            DownloadsMessage::PauseDownload(id) => after == before && command == Command::Control(
                ControlKind::Pause,
                id,
            ),
            DownloadsMessage::UpdateDownloads(fetched) => {
                &&& after == (DownloadManager { downloads: Downloads { all: fetched }, ..before })
                &&& command is Nothing
            },
            _ => after == before && command is Nothing,
        },
        Message::DialogMessage(m) => match m {
            DialogMessage::AddDownload(AddDownloadMessage::Start(request)) => {
                &&& after == before
                &&& command == Command::StartDownload(request)
            },
            _ => {
                &&& after == (DownloadManager { dialog: after.dialog, ..before })
                &&& exists|a: AddDownloadAction|
                    #[trigger] dialog_stepped(before.dialog, after.dialog, m, a) && command
                        == dialog_command(a)
            },
        },
        Message::OpenDialog => {
            &&& after == (DownloadManager { dialog: after.dialog, ..before })
            &&& after.dialog matches Dialog::AddDownload(d) && is_fresh(d, before.download_defaults)
            &&& command is Nothing
        },
        Message::TitleBar(m) => {
            &&& after == (DownloadManager { title_bar: after.title_bar, ..before })
            &&& after.title_bar.title_text() == before.title_bar.title_text()
            &&& after.title_bar.has_focus() == focus_after(before.title_bar.has_focus(), m)
            &&& command == Command::Window(window_action_for(m))
        },
    }
}

/// The message the window gets back after fetching: a failed fetch asks to
/// connect again and fetch; a list goes to the downloads.
pub open spec fn fetched_message(result: Result<Vec<Download>, String>) -> Message {
    match result {
        Ok(_) => Message::DownloadsMessage(DownloadsMessage::UpdateDownloads(result)),
        Err(_) => Message::ConnectAndRefetch,
    }
}

/// The notice shown after a control request: its text and kind.
pub open spec fn control_notice(kind: ControlKind, id: i64, reply: Result<RpcResponse, ClientError>) -> (
    Seq<char>,
    ToastVariant,
) {
    let n = signed_decimal_text(id as int);
    match (kind, reply) {
        (ControlKind::Resume, Ok(RpcResponse::Success)) => ("Download resumed: "@ + n, ToastVariant::Info),
        (ControlKind::Resume, Ok(_)) => ("Could not resume the Download: "@ + n, ToastVariant::Error),
        (ControlKind::Resume, Err(_)) => (
            "Something went wrong. Could not resume the Download: "@ + n,
            ToastVariant::Error,
        ),
        (ControlKind::Pause, Ok(RpcResponse::Success)) => ("Download paused: "@ + n, ToastVariant::Info),
        (ControlKind::Pause, Ok(_)) => ("Could not pause the Download: "@ + n, ToastVariant::Error),
        (ControlKind::Pause, Err(_)) => (
            "Something went wrong. Could not pause the Download: "@ + n,
            ToastVariant::Error,
        ),
    }
}

/// The request a control command sends.
pub fn control_request(kind: ControlKind, id: i64) -> (r: RpcRequest)
    ensures
        r == match kind {
            ControlKind::Pause => RpcRequest::PauseDownload(id),
            ControlKind::Resume => RpcRequest::ResumeDownload(id),
        },
{
    match kind {
        ControlKind::Pause => RpcRequest::PauseDownload(id),
        ControlKind::Resume => RpcRequest::ResumeDownload(id),
    }
}

/// What the window gets back after fetching the downloads.
pub fn after_fetch(result: Result<Vec<Download>, String>) -> (m: Message)
    ensures
        m == fetched_message(result),
{
    if result.is_err() {
        Message::ConnectAndRefetch
    } else {
        Message::DownloadsMessage(DownloadsMessage::UpdateDownloads(result))
    }
}

/// What the window gets back after connecting and fetching: the result goes
/// to the downloads, failed or not.
pub fn after_connect_and_fetch(result: Result<Vec<Download>, String>) -> (m: Message)
    ensures
        m == Message::DownloadsMessage(DownloadsMessage::UpdateDownloads(result)),
{
    Message::DownloadsMessage(DownloadsMessage::UpdateDownloads(result))
}

/// What the window gets back once a download request was sent: the dialog
/// closes, whatever the reply.
pub fn after_start() -> (m: Message)
    ensures
        m == Message::DialogMessage(DialogMessage::AddDownload(AddDownloadMessage::Hide)),
{
    Message::DialogMessage(DialogMessage::AddDownload(AddDownloadMessage::Hide))
}

/// `prefix` followed by `id` in decimal.
fn with_id(prefix: &str, id: i64) -> (s: String)
    ensures
        s@ == prefix@ + signed_decimal_text(id as int),
{
    let mut s = String::from_str(prefix);
    let n = i64_to_decimal(id);
    s.append(n.as_str());
    s
}

/// The notice the window gets back after a control request.
pub fn after_control(kind: ControlKind, id: i64, reply: Result<RpcResponse, ClientError>) -> (m:
    Message)
    ensures
        m matches Message::Toast(ToastMessage::Show(text, variant)) && (text@, variant)
            == control_notice(kind, id, reply),
{
    let success = match &reply {
        Ok(RpcResponse::Success) => true,
        _ => false,
    };
    let (text, variant) = match kind {
        ControlKind::Resume => if success {
            (with_id("Download resumed: ", id), ToastVariant::Info)
        } else if reply.is_ok() {
            (with_id("Could not resume the Download: ", id), ToastVariant::Error)
        } else {
            (
                with_id("Something went wrong. Could not resume the Download: ", id),
                ToastVariant::Error,
            )
        },
        ControlKind::Pause => if success {
            (with_id("Download paused: ", id), ToastVariant::Info)
        } else if reply.is_ok() {
            (with_id("Could not pause the Download: ", id), ToastVariant::Error)
        } else {
            (
                with_id("Something went wrong. Could not pause the Download: ", id),
                ToastVariant::Error,
            )
        },
    };
    Message::Toast(ToastMessage::Show(text, variant))
}

/// The command for what the dialog asked.
fn command_for_dialog(action: AddDownloadAction) -> (c: Command)
    ensures
        c == dialog_command(action),
{
    match action {
        AddDownloadAction::Nothing => Command::Nothing,
        AddDownloadAction::PickDirectory => Command::PickDirectory,
        AddDownloadAction::Hide => Command::Then(
            Message::DialogMessage(DialogMessage::AddDownload(AddDownloadMessage::Hide)),
        ),
        AddDownloadAction::Start(request) => Command::Then(
            Message::DialogMessage(DialogMessage::AddDownload(AddDownloadMessage::Start(request))),
        ),
    }
}

/// The command for what the notices asked.
fn command_for_toast(action: ToastAction) -> (c: Command)
    ensures
        c == toast_command(action),
{
    match action {
        ToastAction::Nothing => Command::Nothing,
        ToastAction::DeleteLater { id, seconds } => Command::After(
            seconds,
            Message::Toast(ToastMessage::DeleteToast(id)),
        ),
    }
}

impl DownloadManager {
    /// A window on the list of all downloads, with no dialog and no notices.
    pub fn new(download_defaults: DownloadConfig) -> (w: Self)
        ensures
            w.current_page == Page::AllDownloads,
            w.default_page == Page::AllDownloads,
            w.dialog is Closed,
            w.downloads.all is Err,
            w.toast@ == Seq::<crate::ui::toast::ToastItem>::empty(),
            !w.title_bar.has_focus(),
            w.download_defaults == download_defaults,
    {
        DownloadManager {
            current_page: Page::AllDownloads,
            default_page: Page::AllDownloads,
            dialog: Dialog::Closed,
            downloads: Downloads::new(),
            title_bar: TitleBar::new(),
            toast: Toast::new(),
            download_defaults,
        }
    }

    /// Applies a message; says what the owner must do next.
    pub fn update(&mut self, message: Message) -> (command: Command)
        requires
            window_accepts(*old(self), message),
        ensures
            window_stepped(*old(self), *final(self), message, command),
    {
        match message {
            Message::Navigate(page) => {
                self.current_page = page;
                Command::Nothing
            },
            Message::DoNothing => Command::Nothing,
            Message::Toast(m) => {
                let a = self.toast.update(m);
                command_for_toast(a)
            },
            Message::Periodic => Command::Then(Message::Refetch),
            Message::ConnectAndRefetch => Command::ConnectAndFetch,
            Message::Refetch => Command::Fetch,
            Message::DownloadsMessage(m) => match m {
                DownloadsMessage::ShowAddDownloadModal => Command::Then(Message::OpenDialog),
                DownloadsMessage::ResumeDownload(id) => Command::Control(ControlKind::Resume, id),
                DownloadsMessage::PauseDownload(id) => Command::Control(ControlKind::Pause, id),
                other => {
                    self.downloads.update(other);
                    Command::Nothing
                },
            },
            Message::DialogMessage(m) => match m {
                DialogMessage::AddDownload(AddDownloadMessage::Start(request)) => {
                    Command::StartDownload(request)
                },
                other => {
                    let a = self.dialog.update(other);
                    command_for_dialog(a)
                },
            },
            Message::OpenDialog => {
                self.dialog = Dialog::AddDownload(AddDownload::new(self.download_defaults));
                Command::Nothing
            },
            Message::TitleBar(m) => {
                let a = self.title_bar.update(m);
                Command::Window(a)
            },
        }
    }
}

/// Opening the add-download dialog and then hiding it leaves the window as it
/// was, with no dialog open, and asks for nothing.
pub proof fn lemma_open_then_hide_closes(
    w0: DownloadManager,
    w1: DownloadManager,
    w2: DownloadManager,
    c1: Command,
    c2: Command,
)
    requires
        window_stepped(w0, w1, Message::OpenDialog, c1),
        window_stepped(
            w1,
            w2,
            Message::DialogMessage(DialogMessage::AddDownload(AddDownloadMessage::Hide)),
            c2,
        ),
    ensures
        w2 == (DownloadManager { dialog: Dialog::Closed, ..w0 }),
        c1 is Nothing,
        c2 is Nothing,
{
    let a = choose|a: AddDownloadAction|
        #[trigger] dialog_stepped(
            w1.dialog,
            w2.dialog,
            DialogMessage::AddDownload(AddDownloadMessage::Hide),
            a,
        ) && c2 == dialog_command(a);
}

} // verus!
