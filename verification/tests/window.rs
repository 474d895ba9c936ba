use net_manthan::download::{Download, DownloadConfig};
use net_manthan::rpc::messages::{ClientError, RpcRequest, RpcResponse};
use net_manthan::ui::add_download::{AddDownload, AddDownloadAction, AddDownloadMessage};
use net_manthan::ui::dialog::{Dialog, DialogMessage};
use net_manthan::download::DownloadStatus;
use net_manthan::ui::downloads::{control_message, DownloadsMessage};
use net_manthan::ui::input::ValidatedInputMessage;
use net_manthan::ui::title_bar::{TitleBar, TitleBarMessage, WindowAction};
use net_manthan::ui::toast::{Toast, ToastAction, ToastMessage, ToastVariant};
use net_manthan::ui::window::{
    after_connect_and_fetch, after_control, after_fetch, after_start, control_request, Command,
    ControlKind, DownloadManager, Message,
};
use net_manthan::ui_types::Page;

fn defaults() -> DownloadConfig {
    DownloadConfig {
        connections_per_server: 8,
        retry_count: 3,
        buffer_size: 262144,
        update_interval: 500,
    }
}

fn changed(text: &str) -> ValidatedInputMessage {
    ValidatedInputMessage::ValueChanged(text.to_string())
}

fn to_dialog(m: AddDownloadMessage) -> Message {
    Message::DialogMessage(DialogMessage::AddDownload(m))
}

fn open_window() -> DownloadManager {
    let mut w = DownloadManager::new(defaults());
    assert!(matches!(w.update(Message::OpenDialog), Command::Nothing));
    w
}

fn dialog(w: &DownloadManager) -> &AddDownload {
    match &w.dialog {
        Dialog::AddDownload(d) => d,
        Dialog::Closed => panic!("no dialog"),
    }
}

#[test]
fn new_window_shows_all_downloads() {
    let w = DownloadManager::new(defaults());
    assert_eq!(w.current_page, Page::AllDownloads);
    assert_eq!(w.default_page, Page::AllDownloads);
    assert!(matches!(w.dialog, Dialog::Closed));
    assert!(matches!(&w.downloads.all, Err(e) if e == "not fetched yet"));
    assert!(w.toast.messages().is_empty());
    assert!(!w.title_bar.is_focused());
    assert_eq!(w.title_bar.title(), "Vayuget");
}

#[test]
fn navigation_and_timers() {
    let mut w = DownloadManager::new(defaults());
    assert!(matches!(w.update(Message::Navigate(Page::Settings)), Command::Nothing));
    assert_eq!(w.current_page, Page::Settings);
    assert!(matches!(w.update(Message::Periodic), Command::Then(Message::Refetch)));
    assert!(matches!(w.update(Message::Refetch), Command::Fetch));
    assert!(matches!(w.update(Message::ConnectAndRefetch), Command::ConnectAndFetch));
    assert!(matches!(w.update(Message::DoNothing), Command::Nothing));
    assert_eq!(w.current_page, Page::Settings);
}

#[test]
fn fetch_results_come_back() {
    assert!(matches!(after_fetch(Err("down".to_string())), Message::ConnectAndRefetch));
    let m = after_fetch(Ok(Vec::<Download>::new()));
    assert!(matches!(m, Message::DownloadsMessage(DownloadsMessage::UpdateDownloads(Ok(ref v))) if v.is_empty()));
    let mut w = DownloadManager::new(defaults());
    assert!(matches!(w.update(m), Command::Nothing));
    assert!(matches!(&w.downloads.all, Ok(v) if v.is_empty()));
    let m = after_connect_and_fetch(Err("refused".to_string()));
    w.update(m);
    assert!(matches!(&w.downloads.all, Err(e) if e == "refused"));
}

#[test]
fn add_download_button_opens_a_fresh_dialog() {
    let mut w = DownloadManager::new(defaults());
    let c = w.update(Message::DownloadsMessage(DownloadsMessage::ShowAddDownloadModal));
    let next = match c {
        Command::Then(m) => m,
        _ => panic!("no follow-up"),
    };
    assert!(matches!(next, Message::OpenDialog));
    w.update(next);
    let d = dialog(&w);
    assert_eq!(d.link_input.value, "");
    assert_eq!(d.user_agent_input.value, "net-manthan/0.1.0");
    assert_eq!(d.connections_per_server_input.value, "8");
    assert_eq!(d.retry_count_input.value, "3");
    assert_eq!(d.buffer_size_input.value, "256");
    assert_eq!(d.update_interval_input.value, "500");
    assert!(!d.show_advanced_options);
    assert_eq!(d.retry_count_input.label(), "Retry count");
    assert_eq!(d.buffer_size_input.label(), "Buffer Size (KB)");
    assert_eq!(d.cookie_input.placeholder(), "Enter cookie here");
    assert!(d.update_interval_input.error.is_none());
}

#[test]
fn starting_sends_the_request_then_closes() {
    let mut w = open_window();
    w.update(to_dialog(AddDownloadMessage::LinkInput(changed("https://example.com/a.iso"))));
    w.update(to_dialog(AddDownloadMessage::DirectoryInput(changed("/downloads"))));
    let c = w.update(to_dialog(AddDownloadMessage::StartWrapper));
    let start = match c {
        Command::Then(m) => m,
        _ => panic!("not started"),
    };
    match &start {
        Message::DialogMessage(DialogMessage::AddDownload(AddDownloadMessage::Start(req))) => {
            assert_eq!(req.request.url, "https://example.com/a.iso");
            assert_eq!(req.request.directory, "/downloads");
            assert_eq!(req.request.rename, None);
            assert_eq!(req.request.headers.user_agent.as_deref(), Some("net-manthan/0.1.0"));
            assert_eq!(req.request.headers.cookie, None);
            assert!(req.config.is_none());
            assert!(req.info.is_none());
        }
        _ => panic!("not a start message"),
    }
    let c = w.update(start);
    assert!(matches!(&c, Command::StartDownload(req) if req.request.directory == "/downloads"));
    // the dialog stays open until the request was sent
    assert!(matches!(w.dialog, Dialog::AddDownload(_)));
    w.update(after_start());
    assert!(matches!(w.dialog, Dialog::Closed));
}

#[test]
fn starting_with_bad_fields_shows_errors() {
    let mut w = open_window();
    assert!(matches!(w.update(to_dialog(AddDownloadMessage::StartWrapper)), Command::Nothing));
    assert_eq!(dialog(&w).link_input.error.as_deref(), Some("This field cannot be empty"));
    assert_eq!(dialog(&w).directory_input.error.as_deref(), Some("This field cannot be empty"));
    w.update(to_dialog(AddDownloadMessage::LinkInput(changed("ftp://example.com/x"))));
    assert_eq!(
        dialog(&w).link_input.error.as_deref(),
        Some("Must be a valid URL starting with http:// or https://")
    );
}

#[test]
fn advanced_options_give_a_configuration() {
    let mut w = open_window();
    w.update(to_dialog(AddDownloadMessage::LinkInput(changed("http://h/f"))));
    w.update(to_dialog(AddDownloadMessage::DirectoryInput(changed("/d"))));
    w.update(to_dialog(AddDownloadMessage::FileNameInput(changed("renamed.bin"))));
    w.update(to_dialog(AddDownloadMessage::ToggleAdvanceOptions(true)));
    w.update(to_dialog(AddDownloadMessage::ConnectionsPerServerInput(changed("16"))));
    w.update(to_dialog(AddDownloadMessage::BufferSizeInput(changed("512"))));
    w.update(to_dialog(AddDownloadMessage::UpdateIntervalInput(changed(""))));
    w.update(to_dialog(AddDownloadMessage::CookieInput(changed("a=b"))));
    w.update(to_dialog(AddDownloadMessage::UserAgentInput(ValidatedInputMessage::Clear)));
    match w.update(to_dialog(AddDownloadMessage::StartWrapper)) {
        Command::Then(Message::DialogMessage(DialogMessage::AddDownload(AddDownloadMessage::Start(req)))) => {
            let c = req.config.unwrap();
            assert_eq!(c.connections_per_server, 16);
            assert_eq!(c.retry_count, 3);
            assert_eq!(c.buffer_size, 512 * 1024);
            // an empty number field falls back
            assert_eq!(c.update_interval, 500);
            assert_eq!(req.request.rename.as_deref(), Some("renamed.bin"));
            assert_eq!(req.request.headers.cookie.as_deref(), Some("a=b"));
            assert_eq!(req.request.headers.user_agent, None);
        }
        _ => panic!("not started"),
    }
}

#[test]
fn bad_number_blocks_start_only_when_shown() {
    let mut w = open_window();
    w.update(to_dialog(AddDownloadMessage::LinkInput(changed("http://h/f"))));
    w.update(to_dialog(AddDownloadMessage::DirectoryInput(changed("/d"))));
    w.update(to_dialog(AddDownloadMessage::RetryCountInput(changed("lots"))));
    assert_eq!(
        dialog(&w).retry_count_input.error.as_deref(),
        Some("Must be a valid positive number")
    );
    w.update(to_dialog(AddDownloadMessage::ToggleAdvanceOptions(true)));
    assert!(matches!(w.update(to_dialog(AddDownloadMessage::StartWrapper)), Command::Nothing));
    w.update(to_dialog(AddDownloadMessage::ToggleAdvanceOptions(false)));
    assert!(matches!(w.update(to_dialog(AddDownloadMessage::StartWrapper)), Command::Then(_)));
}

#[test]
fn cancel_clears_then_hides() {
    let mut w = open_window();
    w.update(to_dialog(AddDownloadMessage::LinkInput(changed("http://h/f"))));
    w.update(to_dialog(AddDownloadMessage::RetryCountInput(changed("lots"))));
    assert!(dialog(&w).retry_count_input.error.is_some());
    let hide = match w.update(to_dialog(AddDownloadMessage::Clear)) {
        Command::Then(m) => m,
        _ => panic!("no follow-up"),
    };
    assert_eq!(dialog(&w).link_input.value, "");
    assert!(dialog(&w).retry_count_input.error.is_none());
    assert!(matches!(hide, Message::DialogMessage(DialogMessage::AddDownload(AddDownloadMessage::Hide))));
    w.update(hide);
    assert!(matches!(w.dialog, Dialog::Closed));
    // with no dialog open, dialog messages do nothing
    assert!(matches!(w.update(to_dialog(AddDownloadMessage::StartWrapper)), Command::Nothing));
}

#[test]
fn directory_chooser_round_trip() {
    let mut w = open_window();
    assert!(matches!(w.update(to_dialog(AddDownloadMessage::OpenDirectoryChooser)), Command::PickDirectory));
    w.update(to_dialog(AddDownloadMessage::DirectorySelected(Some("/home/me".to_string()))));
    assert_eq!(dialog(&w).directory_input.value, "/home/me");
    w.update(to_dialog(AddDownloadMessage::DirectorySelected(None)));
    assert_eq!(dialog(&w).directory_input.value, "/home/me");
}

#[test]
fn add_download_alone() {
    let mut d = AddDownload::new(defaults());
    assert!(matches!(d.update(AddDownloadMessage::OpenDirectoryChooser), AddDownloadAction::PickDirectory));
    assert!(matches!(d.update(AddDownloadMessage::Clear), AddDownloadAction::Hide));
    assert!(matches!(d.update(AddDownloadMessage::DoNothing), AddDownloadAction::Nothing));
    assert!(matches!(d.update(AddDownloadMessage::Hide), AddDownloadAction::Nothing));
}

#[test]
fn notices_come_and_go() {
    let mut w = DownloadManager::new(defaults());
    let c = w.update(Message::Toast(ToastMessage::Show("saved".to_string(), ToastVariant::Info)));
    let (seconds, delete) = match c {
        Command::After(s, m) => (s, m),
        _ => panic!("no deletion asked"),
    };
    assert_eq!(seconds, 5);
    assert_eq!(w.toast.messages().len(), 1);
    assert_eq!(w.toast.messages()[0].message(), "saved");
    assert_eq!(w.toast.messages()[0].variant(), ToastVariant::Info);
    let id = w.toast.messages()[0].id();
    assert!(matches!(delete, Message::Toast(ToastMessage::DeleteToast(x)) if x == id));
    assert!(matches!(w.update(delete), Command::Nothing));
    assert!(w.toast.messages().is_empty());
}

#[test]
fn toast_with_known_ids() {
    let mut t = Toast::new();
    assert_eq!(
        t.show_with_id("a".to_string(), ToastVariant::Info, 1),
        ToastAction::DeleteLater { id: 1, seconds: 5 }
    );
    t.show_with_id("b".to_string(), ToastVariant::Error, 2);
    t.show_with_id("c".to_string(), ToastVariant::Info, 1);
    t.delete(1);
    assert_eq!(t.messages().len(), 1);
    assert_eq!(t.messages()[0].message(), "b");
    t.delete(42);
    assert_eq!(t.messages().len(), 1);
    assert_eq!(t.update(ToastMessage::DoNothing), ToastAction::Nothing);
}

#[test]
fn control_buttons_and_their_notices() {
    let mut w = DownloadManager::new(defaults());
    assert!(matches!(
        w.update(Message::DownloadsMessage(DownloadsMessage::ResumeDownload(3))),
        Command::Control(ControlKind::Resume, 3)
    ));
    assert!(matches!(
        w.update(Message::DownloadsMessage(DownloadsMessage::PauseDownload(-5))),
        Command::Control(ControlKind::Pause, -5)
    ));
    assert!(matches!(control_request(ControlKind::Pause, 4), RpcRequest::PauseDownload(4)));
    assert!(matches!(control_request(ControlKind::Resume, 4), RpcRequest::ResumeDownload(4)));
    let cases = [
        (ControlKind::Resume, Ok(RpcResponse::Success), "Download resumed: 3", ToastVariant::Info),
        (
            ControlKind::Resume,
            Ok(RpcResponse::Error("x".to_string())),
            "Could not resume the Download: 3",
            ToastVariant::Error,
        ),
        (
            ControlKind::Resume,
            Err(ClientError::NotConnected),
            "Something went wrong. Could not resume the Download: 3",
            ToastVariant::Error,
        ),
        (ControlKind::Pause, Ok(RpcResponse::Success), "Download paused: 3", ToastVariant::Info),
        (
            ControlKind::Pause,
            Ok(RpcResponse::Recieved),
            "Could not pause the Download: 3",
            ToastVariant::Error,
        ),
        (
            ControlKind::Pause,
            Err(ClientError::Transport("eof".to_string())),
            "Something went wrong. Could not pause the Download: 3",
            ToastVariant::Error,
        ),
    ];
    for (kind, reply, text, variant) in cases {
        match after_control(kind, 3, reply) {
            Message::Toast(ToastMessage::Show(t, v)) => {
                assert_eq!(t, text);
                assert_eq!(v, variant);
            }
            _ => panic!("no notice"),
        }
    }
    match after_control(ControlKind::Pause, -12, Ok(RpcResponse::Success)) {
        Message::Toast(ToastMessage::Show(t, _)) => assert_eq!(t, "Download paused: -12"),
        _ => panic!("no notice"),
    }
}

#[test]
fn title_bar_buttons() {
    let mut w = DownloadManager::new(defaults());
    assert!(matches!(w.update(Message::TitleBar(TitleBarMessage::Focused)), Command::Window(WindowAction::Nothing)));
    assert!(w.title_bar.is_focused());
    assert!(matches!(
        w.update(Message::TitleBar(TitleBarMessage::ToggleMaximize(true))),
        Command::Window(WindowAction::SetMaximized(false))
    ));
    assert!(matches!(w.update(Message::TitleBar(TitleBarMessage::Close)), Command::Window(WindowAction::Close)));
    let mut t = TitleBar::new();
    assert_eq!(t.update(TitleBarMessage::DragStart), WindowAction::Drag);
    assert_eq!(t.update(TitleBarMessage::Minimize), WindowAction::Minimize);
    assert_eq!(t.update(TitleBarMessage::ToggleMaximize(false)), WindowAction::SetMaximized(true));
    t.update(TitleBarMessage::Focused);
    t.update(TitleBarMessage::UnFocused);
    assert!(!t.is_focused());
}

#[test]
fn control_button_follows_status() {
    assert!(matches!(
        control_message(4, DownloadStatus::Downloading),
        DownloadsMessage::PauseDownload(4)
    ));
    assert!(matches!(control_message(4, DownloadStatus::Paused), DownloadsMessage::ResumeDownload(4)));
    assert!(matches!(control_message(4, DownloadStatus::Failed), DownloadsMessage::ResumeDownload(4)));
}
