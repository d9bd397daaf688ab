//! Delivery failures, tagged by the stage of the sending pipeline that
//! reported them, and their rendering as one descriptive string for the
//! caller.

use vstd::prelude::*;
use vstd::string::StringExecFns;

verus! {

/// A delivery failure: which stage of the pipeline failed, and the
/// mail library's own description of what went wrong there.
#[derive(Debug)]
pub enum DeliveryError {
    /// The outbound message could not be built from the configured
    /// mailboxes, the subject and the body.
    Construction(String),
    /// The relay transport could not be prepared from the configured
    /// relay hostname and credentials.
    TransportSetup(String),
    /// The relay rejected the credentials or the envelope, or the
    /// connection failed while the message was being sent.
    Transmission(String),
}

/// The fixed text that introduces a construction failure.
pub open spec fn construction_prefix() -> Seq<char> {
    "Failed to build a message: "@
}

/// The fixed text that introduces a transport-setup failure.
pub open spec fn transport_setup_prefix() -> Seq<char> {
    "Failed to create a mailer: "@
}

/// The fixed text that introduces a transmission failure.
pub open spec fn transmission_prefix() -> Seq<char> {
    "Failed to send email: "@
}

impl DeliveryError {
    /// The underlying description carried by the error, as the mail
    /// library reported it.
    pub open spec fn detail(&self) -> Seq<char> {
        match self {
            DeliveryError::Construction(d) => d@,
            DeliveryError::TransportSetup(d) => d@,
            DeliveryError::Transmission(d) => d@,
        }
    }

    /// The full description owed to the caller: the failing stage's
    /// fixed prefix followed by the underlying detail.
    pub open spec fn describe_spec(&self) -> Seq<char> {
        match self {
            DeliveryError::Construction(d) => construction_prefix() + d@,
            DeliveryError::TransportSetup(d) => transport_setup_prefix() + d@,
            DeliveryError::Transmission(d) => transmission_prefix() + d@,
        }
    }

    /// Renders the error for the caller, naming the failing stage and
    /// wrapping the mail library's own text.
    pub fn describe(&self) -> (r: String)
        ensures
            r@ == self.describe_spec(),
            r@.len() > 0,
    {
        proof {
            reveal_strlit("Failed to build a message: ");
            reveal_strlit("Failed to create a mailer: ");
            reveal_strlit("Failed to send email: ");
        }
        match self {
            DeliveryError::Construction(d) => "Failed to build a message: ".to_owned().concat(
                d.as_str(),
            ),
            DeliveryError::TransportSetup(d) => "Failed to create a mailer: ".to_owned().concat(
                d.as_str(),
            ),
            DeliveryError::Transmission(d) => "Failed to send email: ".to_owned().concat(
                d.as_str(),
            ),
        }
    }
}

/// Whatever stage failed, and even when the underlying detail is empty,
/// the description handed to the caller is never the empty string: a
/// failed send is always distinguishable from a successful one.
pub proof fn lemma_description_never_empty(e: &DeliveryError)
    ensures
        e.describe_spec().len() > 0,
{
    reveal_strlit("Failed to build a message: ");
    reveal_strlit("Failed to create a mailer: ");
    reveal_strlit("Failed to send email: ");
}

} // verus!
