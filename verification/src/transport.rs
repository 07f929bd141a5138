use vstd::prelude::*;
use std::sync::Arc;

use crate::message::UMessage;
use crate::status::{UCode, UStatus};
use crate::uri::UUri;

verus! {

/// A factory for URIs representing this uEntity's resources.
///
/// Implementations may use arbitrary mechanisms to determine the information that
/// is necessary for creating URIs, e.g. environment variables, configuration files etc.
pub trait LocalUriProvider: Send + Sync {
    /// Gets the _authority_ used for URIs representing this uEntity's resources.
    fn get_authority(&self) -> String;

    /// Gets a URI that represents a given resource of this uEntity.
    fn get_resource_uri(&self, resource_id: u16) -> UUri;

    /// Gets the URI that represents the resource that this uEntity expects
    /// RPC responses and notifications to be sent to.
    fn get_source_uri(&self) -> UUri;
}

/// A handler for processing messages.
///
/// Implementations of `UListener` contain the details for what should occur when a
/// message is received.
pub trait UListener: Send + Sync {
    /// Performs some action on receipt of a message.
    ///
    /// `on_receive()` is expected to return almost immediately. If it does not, it could
    /// potentially block further message receipt. For long-running operations consider
    /// passing off received data to another task and returning.
    fn on_receive(&self, msg: UMessage);
}

/// The status with which the default methods of [`UTransport`] refuse a request:
/// code `UNIMPLEMENTED` and the message "not implemented".
pub open spec fn is_not_implemented_status(status: UStatus) -> bool {
    &&& status.code == UCode::UNIMPLEMENTED
    &&& status.message matches Some(m) && m@ == "not implemented"@
}

/// The common API for sending and receiving messages.
///
/// Implementations of `UTransport` contain the details for connecting to the underlying
/// transport technology and sending messages using the configured technology.
pub trait UTransport: Send + Sync {
    /// Sends a message using this transport's message exchange mechanism.
    ///
    /// Returns an error if the message could not be sent.
    fn send(&self, message: UMessage) -> Result<(), UStatus>;

    /// Receives a message from the transport.
    ///
    /// `source_filter` is the source address pattern that the message to receive needs to
    /// match; `sink_filter` is the sink address pattern that it needs to match, or `None`
    /// to indicate that the message must not contain any sink address.
    ///
    /// This default implementation returns an error with [`UCode::UNIMPLEMENTED`].
    fn receive(&self, source_filter: &UUri, sink_filter: Option<&UUri>) -> (result: Result<
        UMessage,
        UStatus,
    >)
        default_ensures
            result matches Err(status) && is_not_implemented_status(status),
    {
        Err(UStatus::fail_with_code(UCode::UNIMPLEMENTED, "not implemented"))
    }

    /// Registers a listener to be called for messages that match the given source and
    /// sink filter patterns. The listener can be unregistered again using
    /// [`UTransport::unregister_listener`].
    ///
    /// This default implementation returns an error with [`UCode::UNIMPLEMENTED`].
    fn register_listener(
        &self,
        source_filter: &UUri,
        sink_filter: Option<&UUri>,
        listener: Arc<dyn UListener>,
    ) -> (result: Result<(), UStatus>)
        default_ensures
            result matches Err(status) && is_not_implemented_status(status),
    {
        Err(UStatus::fail_with_code(UCode::UNIMPLEMENTED, "not implemented"))
    }

    /// Unregisters a message listener. The listener will no longer be called for any
    /// (matching) messages after this function has returned successfully.
    ///
    /// Returns an error if the listener could not be unregistered, for example if the
    /// given listener does not exist.
    ///
    /// This default implementation returns an error with [`UCode::UNIMPLEMENTED`].
    fn unregister_listener(
        &self,
        source_filter: &UUri,
        sink_filter: Option<&UUri>,
        listener: Arc<dyn UListener>,
    ) -> (result: Result<(), UStatus>)
        default_ensures
            result matches Err(status) && is_not_implemented_status(status),
    {
        Err(UStatus::fail_with_code(UCode::UNIMPLEMENTED, "not implemented"))
    }
}

} // verus!
