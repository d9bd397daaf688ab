//! A single email notification channel: static relay configuration and
//! a synchronous delivery pipeline that composes one plain-text message
//! per call, prepares an authenticated TLS transport, and classifies
//! every failure by the stage that reported it.

pub mod errors;
pub mod notifier;

pub use errors::DeliveryError;
pub use notifier::{finish, finish_connection, Email, OutboundMessage, Prepared, RelayFailure};
pub use lettre::message::Mailbox;
pub use lettre::Address;
