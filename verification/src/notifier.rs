//! The email notifier: its immutable configuration, the per-call
//! composition of one outbound message, the preparation of the relay
//! transport, and the classification of the transmission outcome.

use vstd::prelude::*;
use crate::errors::{DeliveryError, transmission_prefix, transport_setup_prefix};

verus! {

/// lettre's `Mailbox`: a display name plus an address that lettre
/// validated when the configuration was parsed. Opaque here; it is
/// only handed back to lettre when a message is built.
#[verifier::external_type_specification]
#[verifier::external_body]
pub struct ExMailbox(lettre::message::Mailbox);

/// lettre's `Message`: one composed mail message. Opaque here; it is
/// built once per send and handed to the transport for delivery.
#[verifier::external_type_specification]
#[verifier::external_body]
pub struct ExMessage(lettre::Message);

/// lettre's `SmtpTransport`: a relay handle bound to credentials. It
/// performs the one network operation of a send, outside this crate.
#[verifier::external_type_specification]
#[verifier::external_body]
pub struct ExSmtpTransport(lettre::SmtpTransport);

/// An email notification channel: the immutable delivery configuration
/// for one sender, one recipient and one authenticated relay.
pub struct Email {
    pub from: lettre::message::Mailbox,
    pub to: lettre::message::Mailbox,
    pub relay: String,
    pub smtp_username: String,
    pub smtp_password: String,
}

/// The body a notification delivers: the diagnostic when one is given,
/// the message text itself otherwise.
pub open spec fn chosen_body(msg: Seq<char>, diagnostic: Option<Seq<char>>) -> Seq<char> {
    match diagnostic {
        Some(d) => d,
        None => msg,
    }
}

/// When no diagnostic is given, the delivered body falls back to the
/// message text itself, unchanged.
pub proof fn lemma_body_defaults_to_message(msg: Seq<char>)
    ensures
        chosen_body(msg, None) == msg,
{
}

/// When a diagnostic is given, it is the delivered body verbatim,
/// whatever the message text says: subject and body are independent.
pub proof fn lemma_diagnostic_is_body_verbatim(msg: Seq<char>, diagnostic: Seq<char>)
    ensures
        chosen_body(msg, Some(diagnostic)) == diagnostic,
{
}

/// One outbound message, built afresh for every send: the subject and
/// body it was composed from, and the transport-layer message itself.
pub struct OutboundMessage {
    pub subject: String,
    pub body: String,
    pub message: lettre::Message,
}

/// Everything a send needs before the network is touched: the composed
/// message and the relay transport it goes out on.
pub struct Prepared {
    pub message: OutboundMessage,
    pub mailer: lettre::SmtpTransport,
}

/// Relies on lettre's `MessageBuilder` (`from`, `to`, `subject`,
/// `body`): with exactly one sender and one recipient supplied, and no
/// preset transfer encoding, the builder has no failure path — the
/// message is always built.
#[verifier::external_body]
fn build_message(
    from: &lettre::message::Mailbox,
    to: &lettre::message::Mailbox,
    subject: &str,
    body: String,
) -> (r: Result<lettre::Message, String>)
    ensures
        r is Ok,
{
    lettre::Message::builder()
        .from(from.clone())
        .to(to.clone())
        .subject(subject)
        .body(body)
        .map_err(|e| e.to_string())
}

/// Relies on lettre's `SmtpTransport::relay`, `Credentials::new` and
/// the transport builder: prepares a TLS submission handle for the
/// relay hostname, bound to the credentials; every failure `relay`
/// can report renders with a fixed, non-empty kind text first.
#[verifier::external_body]
fn build_transport(relay: &str, username: String, password: String) -> (r: Result<
    lettre::SmtpTransport,
    String,
>)
    ensures
        r matches Err(e) ==> e@.len() > 0,
{
    let creds = lettre::transport::smtp::authentication::Credentials::new(username, password);
    match lettre::SmtpTransport::relay(relay) {
        Ok(builder) => Ok(builder.credentials(creds).build()),
        Err(e) => Err(e.to_string()),
    }
}

impl Email {
    /// Composes one outbound message: `msg` becomes the subject, and
    /// the body is the diagnostic when one is given, `msg` otherwise.
    /// Composition always succeeds — with one sender and one recipient
    /// the mail library's builder cannot fail; were it ever to report a
    /// failure, that would be a construction error.
    pub fn compose(&self, msg: &str, diagnostic: Option<String>) -> (r: Result<
        OutboundMessage,
        DeliveryError,
    >)
        ensures
            r is Ok,
            r matches Ok(m) ==> m.subject@ == msg@ && m.body@ == chosen_body(
                msg@,
                diagnostic.deep_view(),
            ),
    {
        let body: String = match diagnostic {
            Some(d) => d,
            None => msg.to_owned(),
        };
        let subject: String = msg.to_owned();
        match build_message(&self.from, &self.to, msg, body.clone()) {
            Ok(message) => Ok(OutboundMessage { subject, body, message }),
            Err(e) => Err(DeliveryError::Construction(e)),
        }
    }

    /// Prepares the relay transport: a TLS submission handle for the
    /// configured relay hostname, bound to the configured credentials.
    /// An empty relay hostname is syntactically invalid and is rejected
    /// here, before the mail library is asked. No transmission is
    /// attempted; a failure here is a transport-setup error.
    pub fn mailer(&self) -> (r: Result<lettre::SmtpTransport, DeliveryError>)
        ensures
            self.relay@.len() == 0 ==> (r matches Err(e) && e.detail()
                == "relay hostname is empty"@),
            r matches Err(e) ==> e is TransportSetup && e.detail().len() > 0,
    {
        if self.relay.as_str().is_empty() {
            proof {
                reveal_strlit("relay hostname is empty");
            }
            return Err(DeliveryError::TransportSetup("relay hostname is empty".to_owned()));
        }
        match build_transport(
            self.relay.as_str(),
            self.smtp_username.clone(),
            self.smtp_password.clone(),
        ) {
            Ok(t) => Ok(t),
            Err(e) => Err(DeliveryError::TransportSetup(e)),
        }
    }

    /// Runs the local part of one send, in the pipeline's order: the
    /// message is composed first — which always succeeds — then the
    /// transport is prepared, so the only failure this can report is a
    /// transport-setup one. Nothing is transmitted, and on failure
    /// there is no transport to transmit with.
    pub fn prepare(&self, msg: &str, diagnostic: Option<String>) -> (r: Result<
        Prepared,
        DeliveryError,
    >)
        ensures
            self.relay@.len() == 0 ==> r is Err,
            r matches Ok(p) ==> p.message.subject@ == msg@ && p.message.body@ == chosen_body(
                msg@,
                diagnostic.deep_view(),
            ),
            r matches Err(e) ==> e is TransportSetup && e.detail().len() > 0,
    {
        let message = match self.compose(msg, diagnostic) {
            Ok(m) => m,
            Err(e) => return Err(e),
        };
        let mailer = match self.mailer() {
            Ok(t) => t,
            Err(e) => return Err(e),
        };
        Ok(Prepared { message, mailer })
    }
}

/// How one network interaction with the relay failed, as plain values:
/// either the relay itself answered with a rejection, or no answer was
/// had at all — the hostname could not be resolved, the connection
/// could not be made, or the channel could not be secured.
#[derive(Debug)]
pub enum RelayFailure {
    /// The relay answered and refused: credentials rejected, or a
    /// negative SMTP response. Its detail is the relay's own text.
    Rejection(String),
    /// The relay never answered: resolution, connection or TLS
    /// failure before any SMTP exchange.
    Unreachable(String),
}

/// What the connection test's outcome is reported as: a reached and
/// willing relay passes; one that cannot be reached or secured — an
/// unresolvable hostname included — is a transport-setup failure; a
/// refusal the relay itself answered is a transmission failure, its
/// detail kept verbatim.
pub open spec fn connection_classified(outcome: Result<bool, RelayFailure>) -> Result<
    (),
    Seq<char>,
> {
    match outcome {
        Ok(b) => if b {
            Ok(())
        } else {
            Err(transport_setup_prefix() + "relay refused the connection test"@)
        },
        Err(RelayFailure::Unreachable(t)) => Err(transport_setup_prefix() + t@),
        Err(RelayFailure::Rejection(t)) => Err(transmission_prefix() + t@),
    }
}

/// Classifies the outcome of the relay connection test, which runs
/// before any message is handed over. A relay that cannot be reached
/// or secured is a transport-setup failure — so an unresolvable
/// hostname fails at that stage, with nothing transmitted. A refusal
/// the relay itself answered (rejected credentials, for instance) is a
/// transmission failure, the relay's detail kept verbatim.
pub fn finish_connection(outcome: Result<bool, RelayFailure>) -> (r: Result<(), String>)
    ensures
        r is Ok <==> connection_classified(outcome) is Ok,
        r matches Err(s) ==> connection_classified(outcome) matches Err(c) && s@ == c,
        r matches Err(s) ==> s@.len() > 0,
{
    match outcome {
        Ok(true) => Ok(()),
        Ok(false) => Err(
            DeliveryError::TransportSetup(
                "relay refused the connection test".to_owned(),
            ).describe(),
        ),
        Err(RelayFailure::Unreachable(t)) => Err(DeliveryError::TransportSetup(t).describe()),
        Err(RelayFailure::Rejection(t)) => Err(DeliveryError::Transmission(t).describe()),
    }
}

/// What one transmission outcome is reported as: success unchanged, a
/// failure wrapped as a transmission-stage description.
pub open spec fn classified(outcome: Result<(), Seq<char>>) -> Result<(), Seq<char>> {
    match outcome {
        Ok(u) => Ok(u),
        Err(t) => Err(transmission_prefix() + t),
    }
}

/// Classifies the outcome of the one transmission attempt, made only
/// once the relay has been reached and greeted: success passes through
/// unchanged; a failure — a rejected envelope or a connection dropped
/// mid-send — becomes a transmission error whose description wraps the
/// relay's own text, rejection detail included.
pub fn finish(outcome: Result<(), String>) -> (r: Result<(), String>)
    ensures
        r is Ok <==> outcome is Ok,
        outcome matches Err(t) ==> r matches Err(s) && s@ == classified(Err(t@))->Err_0,
        r matches Err(s) ==> s@.len() > 0,
{
    match outcome {
        Ok(u) => Ok(u),
        Err(t) => Err(DeliveryError::Transmission(t).describe()),
    }
}

/// Attempts do not interact: however an earlier attempt ended, a later
/// attempt's report is classified from its own outcome alone — an
/// earlier transient failure neither suppresses a later success nor
/// alters a later failure's description.
pub proof fn lemma_attempts_independent(
    earlier: Result<(), Seq<char>>,
    later: Result<(), Seq<char>>,
)
    ensures
        classified(later) is Ok <==> later is Ok,
        later matches Err(t) ==> classified(later) == Result::<(), Seq<char>>::Err(
            transmission_prefix() + t,
        ),
{
}

} // verus!
