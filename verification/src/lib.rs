//! The transport layer's common interface: the traits that a transport, a
//! listener and a provider of local URIs implement, the status and message
//! types that flow through them, and `ComparableListener`, which gives a shared
//! listener an identity so that it can be compared, hashed and printed.
mod decimal;
mod listener;
mod message;
mod status;
mod transport;
mod uri;

pub use listener::ComparableListener;
pub use message::UMessage;
pub use status::{UCode, UStatus};
pub use transport::{LocalUriProvider, UListener, UTransport};
pub use uri::UUri;
