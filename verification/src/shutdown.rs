//! The handle of a started server: the two capabilities that end it.

use axum_server::Handle;
use tokio::task::AbortHandle;
use vstd::prelude::*;

verus! {

/// tokio's `task::AbortHandle`: the capability to cancel a spawned task.
#[verifier::external_type_specification]
#[verifier::external_body]
pub struct ExAbortHandle(AbortHandle);

/// axum-server's `Handle`: the capability to shut a network listener down.
#[verifier::external_type_specification]
#[verifier::external_body]
pub struct ExHandle(Handle);

/// axum-server's `Handle::new` makes the handle of a listener that is yet
/// to be started. Nothing is claimed of it.
pub assume_specification[ Handle::new ]() -> (handle: Handle);

/// tokio's `AbortHandle::abort` asks for the task to be cancelled and
/// returns at once. Nothing is claimed of it.
pub assume_specification[ AbortHandle::abort ](task: &AbortHandle);

/// axum-server's `Handle::shutdown` tells the listener to shut down and
/// returns at once. Nothing is claimed of it.
pub assume_specification[ Handle::shutdown ](listener: &Handle);

/// A handle to end a started server: it owns the capability to cancel the
/// dispatch task and the capability to shut the network listener down.
pub struct ServerHandle {
    server_handle: AbortHandle,
    http_handle: Handle,
}

/// What a [`ServerHandle`] is, as a mathematical value: the capability
/// over the dispatch task and the capability over the network listener.
pub ghost struct ServerHandleView {
    pub server_handle: AbortHandle,
    pub http_handle: Handle,
}

impl View for ServerHandle {
    type V = ServerHandleView;

    closed spec fn view(&self) -> ServerHandleView {
        ServerHandleView { server_handle: self.server_handle, http_handle: self.http_handle }
    }
}

impl ServerHandle {
    /// The handle of a server whose dispatch task and network listener
    /// answer to the given capabilities: it owns exactly these two.
    pub fn new(server_handle: AbortHandle, http_handle: Handle) -> (handle: ServerHandle)
        ensures
            handle@ == (ServerHandleView { server_handle, http_handle }),
    {
        ServerHandle { server_handle, http_handle }
    }

    /// Ends the server: cancels the dispatch task, then tells the network
    /// listener to shut down. The handle is used up.
    pub fn abort(self) {
        self.server_handle.abort();
        self.http_handle.shutdown();
    }
}

} // verus!
