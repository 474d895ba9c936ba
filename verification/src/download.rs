//! The values that describe a download: its request, its configuration, the
//! information loaded about it, and its status.
use vstd::prelude::*;

verus! {

/// Where a download stands.
#[derive(Debug, Clone, Copy, PartialEq, Eq, Structural)]
pub enum DownloadStatus {
    Created,
    Queued,
    Connecting,
    Retrying,
    Downloading,
    Paused,
    Complete,
    Failed,
    Cancelled,
}

/// A download that is running: connecting, retrying, or moving bytes.
pub open spec fn is_running(status: DownloadStatus) -> bool {
    status == DownloadStatus::Connecting || status == DownloadStatus::Retrying || status
        == DownloadStatus::Downloading
}

/// The HTTP headers a download request may carry.
#[derive(Debug, Clone)]
pub struct Headers {
    pub user_agent: Option<String>,
    pub authorization: Option<String>,
    pub referer: Option<String>,
    pub cookie: Option<String>,
}

/// What to download and where to put it.
#[derive(Debug, Clone)]
pub struct DownloadRequest {
    pub url: String,
    pub directory: String,
    pub rename: Option<String>,
    pub headers: Headers,
}

/// How a single download is carried out.
#[derive(Debug, Clone, Copy, PartialEq, Eq, Structural)]
pub struct DownloadConfig {
    pub connections_per_server: usize,
    pub retry_count: usize,
    pub buffer_size: usize,
    pub update_interval: usize,
}

/// What the server told about a download before it started.
#[derive(Debug, Clone)]
pub struct DownloadInfo {
    pub total_size: Option<u64>,
    pub resumable: bool,
    pub file_name: Option<String>,
}

/// Whether the information about a download has been loaded.
#[derive(Debug, Clone)]
pub enum ChunksInfo {
    InfoNotLoaded,
    Queued,
    InfoLoaded(DownloadInfo),
    ErrorLoadingInfo(String),
}

/// A download as the manager keeps it.
#[derive(Debug, Clone)]
pub struct Download {
    pub id: i64,
    pub request: DownloadRequest,
    pub status: DownloadStatus,
    pub chunks_info: ChunksInfo,
}

/// A request to download, as it arrives from a client.
#[derive(Debug, Clone)]
pub struct DownloadRequestMessage {
    pub request: DownloadRequest,
    pub config: Option<DownloadConfig>,
    pub info: Option<DownloadInfo>,
}

/// A copy of an optional string.
pub fn copy_opt_string(s: &Option<String>) -> (r: Option<String>)
    ensures
        r == *s,
{
    match s {
        Some(v) => Some(v.clone()),
        None => None,
    }
}

impl Headers {
    /// No headers at all.
    pub fn none() -> (h: Headers)
        ensures
            h.user_agent is None,
            h.authorization is None,
            h.referer is None,
            h.cookie is None,
    {
        Headers { user_agent: None, authorization: None, referer: None, cookie: None }
    }

    /// An equal copy.
    pub fn duplicate(&self) -> (r: Headers)
        ensures
            r == *self,
    {
        Headers {
            user_agent: copy_opt_string(&self.user_agent),
            authorization: copy_opt_string(&self.authorization),
            referer: copy_opt_string(&self.referer),
            cookie: copy_opt_string(&self.cookie),
        }
    }
}

impl DownloadRequest {
    /// An equal copy.
    pub fn duplicate(&self) -> (r: DownloadRequest)
        ensures
            r == *self,
    {
        DownloadRequest {
            url: self.url.clone(),
            directory: self.directory.clone(),
            rename: copy_opt_string(&self.rename),
            headers: self.headers.duplicate(),
        }
    }
}

impl DownloadInfo {
    /// An equal copy.
    pub fn duplicate(&self) -> (r: DownloadInfo)
        ensures
            r == *self,
    {
        DownloadInfo {
            total_size: self.total_size,
            resumable: self.resumable,
            file_name: copy_opt_string(&self.file_name),
        }
    }
}

impl ChunksInfo {
    /// An equal copy.
    pub fn duplicate(&self) -> (r: ChunksInfo)
        ensures
            r == *self,
    {
        match self {
            ChunksInfo::InfoNotLoaded => ChunksInfo::InfoNotLoaded,
            ChunksInfo::Queued => ChunksInfo::Queued,
            ChunksInfo::InfoLoaded(info) => ChunksInfo::InfoLoaded(info.duplicate()),
            ChunksInfo::ErrorLoadingInfo(e) => ChunksInfo::ErrorLoadingInfo(e.clone()),
        }
    }
}

impl Download {
    /// Whether the information about the download has been loaded.
    pub fn has_info_loaded(&self) -> (r: bool)
        ensures
            r == (self.chunks_info is InfoLoaded),
    {
        match self.chunks_info {
            ChunksInfo::InfoLoaded(_) => true,
            _ => false,
        }
    }

    /// An equal copy.
    pub fn duplicate(&self) -> (r: Download)
        ensures
            r == *self,
    {
        Download {
            id: self.id,
            request: self.request.duplicate(),
            status: self.status,
            chunks_info: self.chunks_info.duplicate(),
        }
    }
}

} // verus!
