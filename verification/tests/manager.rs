use net_manthan::download::{
    ChunksInfo, Download, DownloadInfo, DownloadRequest, DownloadRequestMessage, DownloadStatus,
    Headers,
};
use net_manthan::download_manager::{
    info_request_error, DownloadManager, DownloadStep, FollowUp, InfoRequest, StartDecision,
};
use net_manthan::rpc::messages::{RpcRequest, RpcResponse};

fn info() -> DownloadInfo {
    DownloadInfo { total_size: Some(1024), resumable: true, file_name: Some("f.bin".to_string()) }
}

fn download(id: i64, loaded: bool) -> Download {
    Download {
        id,
        request: DownloadRequest {
            url: format!("https://example.com/{id}"),
            directory: "/tmp".to_string(),
            rename: None,
            headers: Headers::none(),
        },
        status: DownloadStatus::Created,
        chunks_info: if loaded { ChunksInfo::InfoLoaded(info()) } else { ChunksInfo::InfoNotLoaded },
    }
}

fn running(id: i64) -> Download {
    let mut d = download(id, true);
    d.status = DownloadStatus::Downloading;
    d
}

#[test]
fn fresh_manager_is_empty_and_stops_unless_daemon() {
    let m: DownloadManager<u32> = DownloadManager::new(2, false, true);
    assert!(m.downloads_snapshot().is_empty());
    assert_eq!(m.active_count(), 0);
    assert!(m.should_shut_down());
    assert!(m.pretty_print());
    assert!(m.prints_progress_now());
    let d: DownloadManager<u32> = DownloadManager::new(2, true, false);
    assert!(!d.should_shut_down());
    assert!(!d.prints_progress_now());
}

#[test]
fn start_launches_while_a_slot_is_free_then_queues() {
    let mut m: DownloadManager<u32> = DownloadManager::new(1, false, false);
    m.register(download(1, true));
    m.register(download(2, true));
    assert!(matches!(m.start_download(download(1, true)), StartDecision::Launch(d) if d.id == 1));
    m.on_launched(100, running(1));
    assert_eq!(m.active_count(), 1);
    assert_eq!(*m.active_handle(0), 100);
    assert!(matches!(m.start_download(download(2, true)), StartDecision::Queued));
    let all = m.downloads_snapshot();
    assert_eq!(all[0].id, 2);
    assert_eq!(all[0].status, DownloadStatus::Queued);
    assert_eq!(all[1].status, DownloadStatus::Downloading);
    // queued once only
    assert!(matches!(m.start_download(download(2, true)), StartDecision::Queued));
    // no slot yet
    assert!(m.next_from_queue().is_none());
    // the running download finishes and frees its slot
    let mut done = running(1);
    done.status = DownloadStatus::Complete;
    m.record_progress(0, done);
    m.retain_running();
    assert_eq!(m.active_count(), 0);
    let next = m.next_from_queue().unwrap();
    assert_eq!(next.id, 2);
    assert!(m.next_from_queue().is_none());
}

#[test]
fn download_asks_for_information_only_when_it_can() {
    let mut m: DownloadManager<u32> = DownloadManager::new(3, false, false);
    let d = download(5, false);
    assert!(matches!(m.download(&d), DownloadStep::Nothing));
    m.set_info_loader_ready();
    assert!(matches!(m.download(&d), DownloadStep::RequestInfo));
    let loaded = download(6, true);
    assert!(matches!(
        m.download(&loaded),
        DownloadStep::Start(StartDecision::Launch(x)) if x.id == 6
    ));
}

#[test]
fn loaded_information_starts_a_waiting_download() {
    let mut m: DownloadManager<u32> = DownloadManager::new(2, false, false);
    m.set_info_loader_ready();
    m.register(download(8, false));
    m.info_requested(8);
    let out = m.handle_command(RpcRequest::SetDownloadInfo((8, Ok(info()))));
    assert!(matches!(out.response, RpcResponse::Recieved));
    match out.follow_up {
        FollowUp::Start(StartDecision::Launch(d)) => {
            assert_eq!(d.id, 8);
            assert!(matches!(d.chunks_info, ChunksInfo::InfoLoaded(_)));
        }
        _ => panic!("not started"),
    }
}

#[test]
fn failed_information_is_kept_and_nothing_starts() {
    let mut m: DownloadManager<u32> = DownloadManager::new(2, false, false);
    m.register(download(8, false));
    m.info_requested(8);
    let out = m.handle_command(RpcRequest::SetDownloadInfo((8, Err("timeout".to_string()))));
    assert!(matches!(out.follow_up, FollowUp::Nothing));
    let all = m.downloads_snapshot();
    assert!(matches!(&all[0].chunks_info, ChunksInfo::ErrorLoadingInfo(e) if e == "timeout"));
    // nothing is left to do: the manager can stop
    assert!(m.should_shut_down());
}

#[test]
fn commands_are_answered() {
    let mut m: DownloadManager<u32> = DownloadManager::new(2, false, false);
    assert!(matches!(m.handle_command(RpcRequest::Heartbeat).response, RpcResponse::Heartbeat));
    let req = DownloadRequestMessage {
        request: download(1, false).request,
        config: None,
        info: None,
    };
    let out = m.handle_command(RpcRequest::DownloadRequest(req));
    assert!(matches!(out.response, RpcResponse::Recieved));
    assert!(matches!(out.follow_up, FollowUp::CreateAndRun(r) if r.request.url == "https://example.com/1"));
    m.register(download(3, true));
    m.register(download(4, true));
    match m.handle_command(RpcRequest::GetDownloads(vec![])).response {
        RpcResponse::Downloads(v) => {
            assert_eq!(v.len(), 2);
            assert_eq!(v[0].id, 4);
            assert_eq!(v[1].id, 3);
        }
        _ => panic!("no list"),
    }
    match m.handle_command(RpcRequest::PauseDownload(3)).response {
        RpcResponse::Error(e) => assert_eq!(e, "Download not found"),
        _ => panic!("paused a download that does not run"),
    }
    m.on_launched(7, running(3));
    let out = m.handle_command(RpcRequest::PauseDownload(3));
    assert!(matches!(out.response, RpcResponse::Success));
    assert!(matches!(out.follow_up, FollowUp::Pause(0)));
    let out = m.handle_command(RpcRequest::ResumeDownload(4));
    assert!(matches!(out.response, RpcResponse::Success));
    assert!(matches!(out.follow_up, FollowUp::RunDownload(d) if d.id == 4));
    match m.handle_command(RpcRequest::ResumeDownload(99)).response {
        RpcResponse::Error(e) => assert_eq!(e, "Download not found"),
        _ => panic!("resumed an unknown download"),
    }
    assert!(matches!(
        m.handle_command(RpcRequest::PauseDownloads(vec![])).response,
        RpcResponse::RequestNotSupported
    ));
    assert!(matches!(m.handle_command(RpcRequest::Shutdown).response, RpcResponse::Recieved));
}

#[test]
fn registering_twice_keeps_one_entry() {
    let mut m: DownloadManager<u32> = DownloadManager::new(1, false, false);
    m.register(download(1, true));
    m.register(download(1, false));
    let all = m.downloads_snapshot();
    assert_eq!(all.len(), 1);
    assert!(matches!(all[0].chunks_info, ChunksInfo::InfoLoaded(_)));
}

#[test]
fn shutting_down_stops_printing_and_self_stop() {
    let mut m: DownloadManager<u32> = DownloadManager::new(1, false, true);
    m.register(download(1, false));
    assert!(!m.should_shut_down());
    m.begin_shutdown();
    assert!(!m.should_shut_down());
    assert!(!m.prints_progress_now());
    assert!(m.pretty_print());
}

#[test]
fn information_request_errors_are_recorded() {
    let mut d = download(3, false);
    info_request_error(&mut d, "no connection");
    assert!(matches!(
        &d.chunks_info,
        ChunksInfo::ErrorLoadingInfo(e) if e == "Failed to load download info: no connection"
    ));
    assert_eq!(d.id, 3);
}

#[test]
fn finishing_a_download_registers_it_once() {
    let mut m: DownloadManager<u32> = DownloadManager::new(2, false, false);
    m.set_info_loader_ready();
    let d = download(11, false);
    assert!(matches!(m.download(&d), DownloadStep::RequestInfo));
    m.finish_download(d, InfoRequest::Sent);
    let e = download(12, false);
    assert!(matches!(m.download(&e), DownloadStep::RequestInfo));
    m.finish_download(e, InfoRequest::Failed("channel closed".to_string()));
    // finishing a known download again adds nothing
    m.finish_download(download(11, true), InfoRequest::NotAsked);
    let all = m.downloads_snapshot();
    assert_eq!(all.len(), 2);
    assert_eq!(all[0].id, 12);
    assert!(matches!(
        &all[0].chunks_info,
        ChunksInfo::ErrorLoadingInfo(t) if t == "Failed to load download info: channel closed"
    ));
    assert_eq!(all[1].id, 11);
    assert!(matches!(all[1].chunks_info, ChunksInfo::InfoNotLoaded));
    // the information for 11 was asked for: its arrival starts it
    let out = m.handle_command(RpcRequest::SetDownloadInfo((11, Ok(info()))));
    assert!(matches!(out.follow_up, FollowUp::Start(StartDecision::Launch(x)) if x.id == 11));
}
