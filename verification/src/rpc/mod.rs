use vstd::prelude::*;

pub mod frame_buffer;
pub mod message_codec;
pub mod messages;

verus! {

/// Where the manager's local socket (or named pipe) is, and who may use it.
#[derive(Debug, Clone)]
pub struct NativeRpcSettings {
    /// On Unix, whether users other than the owner may use the socket.
    pub allow_all_users: bool,
    /// The socket's path on Unix, the pipe's name on Windows.
    pub address: String,
}

/// How clients and the server reach each other.
#[derive(Debug, Clone)]
pub struct RpcConfig {
    pub native_rpc_settings: NativeRpcSettings,
}

} // verus!
