use email_notify::{finish, finish_connection, DeliveryError, Email, Mailbox, RelayFailure};

fn notifier() -> Email {
    Email {
        from: "A <a@x.com>".parse::<Mailbox>().unwrap(),
        to: "B <b@x.com>".parse::<Mailbox>().unwrap(),
        relay: "smtp.example.com".to_string(),
        smtp_username: "username".to_string(),
        smtp_password: "password".to_string(),
    }
}

#[test]
fn body_falls_back_to_message() {
    let m = notifier().compose("svc down", None).unwrap();
    assert_eq!(m.subject, "svc down");
    assert_eq!(m.body, "svc down");
}

#[test]
fn diagnostic_is_body_verbatim() {
    let m = notifier()
        .compose("svc down", Some("disk full on sda1".to_string()))
        .unwrap();
    assert_eq!(m.subject, "svc down");
    assert_eq!(m.body, "disk full on sda1");
}

#[test]
fn empty_diagnostic_is_still_the_body() {
    let m = notifier()
        .compose("svc down", Some(String::new()))
        .unwrap();
    assert_eq!(m.subject, "svc down");
    assert_eq!(m.body, "");
}

#[test]
fn empty_message_composes() {
    let m = notifier().compose("", None).unwrap();
    assert_eq!(m.subject, "");
    assert_eq!(m.body, "");
}

#[test]
fn repeated_composition_is_identical() {
    let first = notifier().compose("svc down", None).unwrap();
    let second = notifier().compose("svc down", None).unwrap();
    assert_eq!(first.subject, second.subject);
    assert_eq!(first.body, second.body);
}

#[test]
fn describe_names_the_construction_stage() {
    let e = DeliveryError::Construction("missing source address".to_string());
    assert_eq!(e.describe(), "Failed to build a message: missing source address");
}

#[test]
fn describe_names_the_transport_setup_stage() {
    let e = DeliveryError::TransportSetup("tls error".to_string());
    assert_eq!(e.describe(), "Failed to create a mailer: tls error");
}

#[test]
fn describe_names_the_transmission_stage() {
    let e = DeliveryError::Transmission("network error".to_string());
    assert_eq!(e.describe(), "Failed to send email: network error");
}

#[test]
fn description_is_nonempty_even_without_detail() {
    let e = DeliveryError::Transmission(String::new());
    let d = e.describe();
    assert!(!d.is_empty());
    assert_eq!(d, "Failed to send email: ");
}

#[test]
fn finish_passes_success_through() {
    assert!(matches!(finish(Ok(())), Ok(())));
}

#[test]
fn finish_wraps_relay_rejection_detail() {
    let rejection = "permanent error (535): 5.7.8 authentication credentials invalid";
    let r = finish(Err(rejection.to_string()));
    let text = r.unwrap_err();
    assert_eq!(
        text,
        "Failed to send email: permanent error (535): 5.7.8 authentication credentials invalid"
    );
    assert!(text.contains(rejection));
}

#[test]
fn attempts_do_not_interact() {
    let first = finish(Err("transient error (421)".to_string()));
    assert!(first.is_err());
    assert!(matches!(finish(Ok(())), Ok(())));
    let third = finish(Err("transient error (421)".to_string()));
    assert_eq!(first.unwrap_err(), third.unwrap_err());
}

#[test]
fn prepare_composes_and_builds_the_mailer() {
    let p = notifier().prepare("svc down", None).unwrap();
    assert_eq!(p.message.subject, "svc down");
    assert_eq!(p.message.body, "svc down");
}

#[test]
fn mailer_is_built_without_touching_the_network() {
    assert!(notifier().mailer().is_ok());
}

#[test]
fn willing_relay_passes_the_connection_test() {
    assert!(matches!(finish_connection(Ok(true)), Ok(())));
}

#[test]
fn refused_connection_test_is_transport_setup() {
    let r = finish_connection(Ok(false));
    assert_eq!(
        r.unwrap_err(),
        "Failed to create a mailer: relay refused the connection test"
    );
}

#[test]
fn unreachable_relay_is_transport_setup() {
    let detail = "Connection error: failed to lookup address information";
    let r = finish_connection(Err(RelayFailure::Unreachable(detail.to_string())));
    let text = r.unwrap_err();
    assert_eq!(
        text,
        "Failed to create a mailer: Connection error: failed to lookup address information"
    );
    assert!(text.contains(detail));
}

#[test]
fn rejected_credentials_at_connection_are_transmission() {
    let detail = "permanent error (535): 5.7.8 authentication credentials invalid";
    let r = finish_connection(Err(RelayFailure::Rejection(detail.to_string())));
    let text = r.unwrap_err();
    assert_eq!(
        text,
        "Failed to send email: permanent error (535): 5.7.8 authentication credentials invalid"
    );
    assert!(text.contains(detail));
}

#[test]
fn empty_relay_fails_at_transport_setup() {
    let mut n = notifier();
    n.relay = String::new();
    let e = n.mailer().unwrap_err();
    assert!(matches!(e, DeliveryError::TransportSetup(_)));
    assert_eq!(
        e.describe(),
        "Failed to create a mailer: relay hostname is empty"
    );
}

#[test]
fn empty_relay_leaves_nothing_to_transmit_with() {
    let mut n = notifier();
    n.relay = String::new();
    match n.prepare("svc down", None) {
        Ok(_) => panic!("an empty relay hostname must not prepare a transport"),
        Err(e) => assert!(matches!(e, DeliveryError::TransportSetup(_))),
    }
}
