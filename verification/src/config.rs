//! The settings of the download daemon and of its RPC endpoint.
use vstd::prelude::*;
use vstd::string::StringExecFns;

verus! {

#[verifier::external_type_specification]
#[verifier::external_body]
pub struct ExPathBuf(std::path::PathBuf);

/// `PathBuf::clone`, which the derived `Clone` of `Vayuget` calls; nothing is
/// stated of the copy.
pub assume_specification[ <std::path::PathBuf as Clone>::clone ](p: &std::path::PathBuf) -> std::path::PathBuf;

/// The daemon's own settings.
#[derive(Debug, Clone)]
pub struct Vayuget {
    /// Path to the database file
    pub db_path: std::path::PathBuf,
    /// Path to the downloads directory
    pub downloads_path: std::path::PathBuf,
    /// Path to the log file
    pub log_path: std::path::PathBuf,
    /// Logging verbosity level
    pub log_level: String,
    /// Control pretty printing (default: true unless --daemon is used)
    pub pretty_print: Option<bool>,
}

/// How the local RPC endpoint is reached.
#[derive(Debug, Clone)]
pub struct NativeRpcSettings {
    /// In unix systems, whether to keep the socket permission user only
    pub allow_all_users: bool,
    /// Platform-specific address for local communication:
    /// - **Unix**: Filesystem path for the socket (e.g., `/tmp/myapp.sock`)
    /// - **Windows**: Named pipe identifier (e.g., `myapp-pipe`)
    pub address: String,
    /// Authorization token for RPC access
    pub rpc_secret: Option<String>,
}

/// The RPC settings.
#[derive(Debug, Clone)]
pub struct RpcConfig {
    pub native_rpc_settings: NativeRpcSettings,
}

/// All the daemon's settings.
#[derive(Debug, Clone)]
pub struct Config {
    pub vayuget: Vayuget,
    pub rpc: RpcConfig,
}

/// `std::path::MAIN_SEPARATOR`: the separator of path components on this platform.
#[verifier::external_body]
fn main_separator() -> char {
    std::path::MAIN_SEPARATOR
}

/// The default address: a named pipe on Windows, a socket file elsewhere.
pub open spec fn default_address_text(windows: bool) -> Seq<char> {
    if windows {
        "vayu-pipe"@
    } else {
        "/tmp/vayu.sock"@
    }
}

/// The default address for a platform.
pub fn default_address_for(windows: bool) -> (s: String)
    ensures
        s@ == default_address_text(windows),
{
    if windows {
        String::from_str("vayu-pipe")
    } else {
        String::from_str("/tmp/vayu.sock")
    }
}

/// The default address on this platform (Windows is the platform whose paths
/// are separated by a backslash).
pub fn default_address() -> (s: String)
    ensures
        s@ == default_address_text(false) || s@ == default_address_text(true),
{
    default_address_for(main_separator() == '\\')
}

impl NativeRpcSettings {
    /// The default settings: open to all users, at the default address, without a secret.
    pub fn default_settings() -> (s: Self)
        ensures
            s.allow_all_users,
            s.address@ == default_address_text(false) || s.address@ == default_address_text(true),
            s.rpc_secret is None,
    {
        NativeRpcSettings { allow_all_users: true, address: default_address(), rpc_secret: None }
    }
}

impl Vayuget {
    /// The daemon's settings for these paths: logging at `info`, pretty printing left to the mode.
    pub fn with_paths(
        db_path: std::path::PathBuf,
        downloads_path: std::path::PathBuf,
        log_path: std::path::PathBuf,
    ) -> (v: Self)
        ensures
            v.db_path == db_path,
            v.downloads_path == downloads_path,
            v.log_path == log_path,
            v.log_level@ == "info"@,
            v.pretty_print is None,
    {
        Vayuget {
            db_path,
            downloads_path,
            log_path,
            log_level: String::from_str("info"),
            pretty_print: None,
        }
    }

    /// Whether progress is pretty printed: as set, or else unless running as a daemon.
    pub fn pretty_print_for(&self, is_daemon: bool) -> (r: bool)
        ensures
            r == match self.pretty_print {
                Some(b) => b,
                None => !is_daemon,
            },
    {
        match self.pretty_print {
            Some(b) => b,
            None => !is_daemon,
        }
    }
}

impl Config {
    /// The default settings, given the paths the platform suggests.
    pub fn with_paths(
        db_path: std::path::PathBuf,
        downloads_path: std::path::PathBuf,
        log_path: std::path::PathBuf,
    ) -> (c: Self)
        ensures
            c.vayuget.db_path == db_path,
            c.vayuget.downloads_path == downloads_path,
            c.vayuget.log_path == log_path,
            c.vayuget.log_level@ == "info"@,
            c.vayuget.pretty_print is None,
            c.rpc.native_rpc_settings.allow_all_users,
            c.rpc.native_rpc_settings.address@ == default_address_text(false)
                || c.rpc.native_rpc_settings.address@ == default_address_text(true),
            c.rpc.native_rpc_settings.rpc_secret is None,
    {
        Config {
            vayuget: Vayuget::with_paths(db_path, downloads_path, log_path),
            rpc: RpcConfig { native_rpc_settings: NativeRpcSettings::default_settings() },
        }
    }
}

} // verus!
