//! Messages of the control protocol between the supervisor and its client.
use vstd::prelude::*;

use crate::service::ServiceStatus;

verus! {

/// Path of the control endpoint.
pub const SOCKET_PATH: &'static str = "/tmp/operator.sock";

/// Message exchanged between the supervisor and its control client.
#[derive(Debug)]
pub enum IPCMessage {
    /// Start a service.
    Start { name: String },
    /// Stop a service.
    Stop { name: String },
    /// Status of a service.
    Status { name: String },
    /// Response to [`IPCMessage::Status`]: the pid and status of the service, if known.
    StatusResponse(Option<(i32, ServiceStatus)>),
}

} // verus!
