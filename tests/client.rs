use amqpiothub::client::{
    reattach_report, Client, LinkRecord, CloseOutcome, ConnectOutcome, DispatcherOutcome, OpenOutcome, ReceiveOutcome,
    SendOutcome, ServiceClient, RECEIVER_CREDIT,
};
use amqpiothub::errors::{AmqpFailure, ClientRedirectRecovery, TransferExceptions};

const SECRET: &str = "AAAAAAAAAAAAAAAAAAAAAA==";

fn connected() -> Client {
    let mut c = Client::new("d", "h", SECRET, "initial");
    assert_eq!(c.connect(ConnectOutcome::Established), Ok(()));
    c
}

#[test]
fn connect_twice_is_refused() {
    let mut c = connected();
    assert_eq!(c.check_connect(), Err(AmqpFailure::AlreadyActive));
    assert_eq!(c.connect(ConnectOutcome::Established), Err(AmqpFailure::AlreadyActive));
    let mut d = Client::new("d", "h", SECRET, "t");
    assert_eq!(d.check_connect(), Ok(()));
    assert_eq!(d.connect(ConnectOutcome::AuthenticationFailed), Err(AmqpFailure::FailedSasl));
    assert!(!d.is_connected());
}

#[test]
fn attach_without_session_is_refused() {
    let mut c = Client::new("d", "h", SECRET, "t");
    assert_eq!(c.attach_sender("events", "/a", OpenOutcome::Opened { handle: 0 }), Err(TransferExceptions::NoSession));
    assert_eq!(
        c.attach_receiver("r", "/b", &vec![], OpenOutcome::Opened { handle: 0 }),
        Err(TransferExceptions::NoSession)
    );
    assert_eq!(c.send_message("events", SendOutcome::Accepted), Err(TransferExceptions::NoSession));
}

#[test]
fn second_sender_of_a_name_is_refused() {
    let mut c = connected();
    assert_eq!(c.attach_sender("events", "/devices/d/messages/events", OpenOutcome::Opened { handle: 1 }), Ok(()));
    assert_eq!(c.sender_links().len(), 1);
    assert_eq!(c.check_attach_sender("events"), Err(TransferExceptions::LinkAlreadyActive));
    assert_eq!(
        c.attach_sender("events", "/devices/d/messages/events", OpenOutcome::Opened { handle: 2 }),
        Err(TransferExceptions::LinkAlreadyActive)
    );
    assert_eq!(c.sender_links().len(), 1);
}

#[test]
fn failed_sender_attach_records_nothing() {
    let mut c = connected();
    assert_eq!(c.attach_sender("s", "/a", OpenOutcome::TimedOut), Err(TransferExceptions::GeneralTimeout));
    assert_eq!(c.attach_sender("s", "/a", OpenOutcome::Refused), Err(TransferExceptions::LinkCreateFailure));
    assert_eq!(c.sender_links().len(), 0);
}

#[test]
fn receiver_gets_credit_window() {
    let mut c = connected();
    assert_eq!(c.attach_receiver("r1", "/b", &vec![], OpenOutcome::Opened { handle: 4 }), Ok(RECEIVER_CREDIT));
    assert_eq!(RECEIVER_CREDIT, 360);
    let handles = c.receiver_handles();
    assert_eq!(handles.len(), 1);
    assert_eq!(handles[0].credit, 360);
    assert_eq!(handles[0].handle, 4);
    assert_eq!(c.check_attach_receiver(&vec![true]), Err(TransferExceptions::LinkAlreadyActive));
    assert_eq!(
        c.attach_receiver("r2", "/c", &vec![true], OpenOutcome::Opened { handle: 5 }),
        Err(TransferExceptions::LinkAlreadyActive)
    );
    assert_eq!(c.attach_receiver("r2", "/c", &vec![false], OpenOutcome::Opened { handle: 5 }), Ok(360));
    assert_eq!(c.receiver_handles()[1].credit, 360);
    assert_eq!(
        c.attach_receiver("r3", "/d", &vec![false, false], OpenOutcome::Refused),
        Err(TransferExceptions::LinkCreateFailure)
    );
    assert_eq!(
        c.attach_receiver("r3", "/d", &vec![false, false], OpenOutcome::TimedOut),
        Err(TransferExceptions::GeneralTimeout)
    );
    assert_eq!(c.receiver_links().len(), 2);
}

#[test]
fn recovery_restores_topology() {
    let mut c = connected();
    assert_eq!(c.attach_sender("s1", "/a", OpenOutcome::Opened { handle: 0 }), Ok(()));
    assert_eq!(c.attach_receiver("r1", "/b", &vec![], OpenOutcome::Opened { handle: 1 }), Ok(360));
    let before = c.receiver_handles()[0];

    assert_eq!(c.recover_at(CloseOutcome::Closed, 1700000000), Ok(()));
    assert!(!c.is_connected());
    assert!(c.credential().contains("se=1700086400"));
    assert_eq!(c.connect(ConnectOutcome::Established), Ok(()));

    let senders = c.take_sender_links();
    for link in senders.iter() {
        assert_eq!(c.check_attach_sender(&link.name), Ok(()));
        assert_eq!(c.attach_sender(&link.name, &link.address, OpenOutcome::Opened { handle: 0 }), Ok(()));
    }
    let receivers = c.take_receiver_links();
    for link in receivers.iter() {
        let live = vec![false; c.receiver_handles().len()];
        assert_eq!(c.attach_receiver(&link.name, &link.address, &live, OpenOutcome::Opened { handle: 1 }), Ok(360));
    }

    let s = c.sender_links();
    assert_eq!(s.len(), 1);
    assert_eq!((s[0].name.as_str(), s[0].address.as_str()), ("s1", "/a"));
    let r = c.receiver_links();
    assert_eq!(r.len(), 1);
    assert_eq!((r[0].name.as_str(), r[0].address.as_str()), ("r1", "/b"));
    let after = c.receiver_handles()[0];
    assert_ne!(after, before);
    assert_eq!(after.handle, before.handle);
    assert_eq!(after.credit, 360);
}

#[test]
fn recovery_failure_to_close_is_reported() {
    let mut c = connected();
    assert_eq!(c.recover_at(CloseOutcome::TimedOut, 1700000000), Err(ClientRedirectRecovery::Timeout));
    assert!(c.is_connected());
    assert_eq!(c.credential(), "initial");
    assert_eq!(
        c.recover_at(CloseOutcome::ProtocolError, 1700000000),
        Err(ClientRedirectRecovery::AMQPProtocolFailure)
    );
    assert!(c.is_connected());
}

#[test]
fn recovery_without_session_renews_credential() {
    let mut c = Client::new("d", "h", SECRET, "initial");
    assert_eq!(c.recover_at(CloseOutcome::TimedOut, 1700000000), Ok(()));
    assert_eq!(
        c.credential(),
        "SharedAccessSignature sr=h.azure-devices.net%2Fdevices%2Fd&sig=jINoikP2UhRwjYyVb6NsRbsCPHbBeFXO7q0YF9AxysY%3D&se=1700086400&skn=d"
    );
    let mut bad = Client::new("d", "h", "###", "initial");
    assert_eq!(bad.recover_at(CloseOutcome::Closed, 1700000000), Err(ClientRedirectRecovery::GeneralFailure));
    assert_eq!(bad.credential(), "initial");
    let mut clock = connected();
    assert_eq!(clock.recover(CloseOutcome::Closed), Ok(()));
    assert!(clock.credential().ends_with("&skn=d"));
}

#[test]
fn send_outcomes_are_classified() {
    let mut c = connected();
    assert_eq!(c.send_message("s1", SendOutcome::Accepted), Err(TransferExceptions::LinkDetachedOrDoesNotExist));
    assert_eq!(c.attach_sender("s1", "/a", OpenOutcome::Opened { handle: 0 }), Ok(()));
    assert_eq!(c.check_send("s1"), Ok(()));
    assert_eq!(c.send_message("s1", SendOutcome::Accepted), Ok(()));
    assert_eq!(c.send_message("s1", SendOutcome::TimedOut), Err(TransferExceptions::MessageTimeOut));
    assert_eq!(c.send_message("s1", SendOutcome::Rejected), Err(TransferExceptions::MessageAmqpProtocolError));
    assert_eq!(c.send_message("s1", SendOutcome::LinkMissing), Err(TransferExceptions::LinkDetachedOrDoesNotExist));
}

#[test]
fn idle_receive_is_no_message() {
    let mut c = connected();
    assert_eq!(c.receive_message_listener(0, ReceiveOutcome::Delivered), Err(TransferExceptions::LinkDetachedOrDoesNotExist));
    assert_eq!(c.attach_receiver("r1", "/b", &vec![], OpenOutcome::Opened { handle: 9 }), Ok(360));
    for _ in 0..3 {
        assert_eq!(c.receive_message_listener(0, ReceiveOutcome::TimedOut), Err(TransferExceptions::NoMessage));
        assert_eq!(c.receiver_handles().len(), 1);
        assert_eq!(c.receiver_links().len(), 1);
    }
    assert_eq!(c.receive_message_listener(0, ReceiveOutcome::StreamEnded), Err(TransferExceptions::NoMessage));
    assert_eq!(c.receive_message_listener(0, ReceiveOutcome::Failed), Err(TransferExceptions::LinkAmqpProtocolError));
    assert_eq!(c.receive_message_listener(0, ReceiveOutcome::Delivered), Ok(()));
    assert_eq!(c.receive_message_listener(1, ReceiveOutcome::Delivered), Err(TransferExceptions::LinkDetachedOrDoesNotExist));
    assert_eq!(c.retrieve_receiver_link(0).map(|h| h.handle), Some(9));
    assert_eq!(c.disconnect(CloseOutcome::Closed), Ok(()));
    assert_eq!(c.retrieve_receiver_link(0), None);
}

#[test]
fn runtime_exceptions_are_classified() {
    let c = Client::new("d", "h", SECRET, "t");
    assert_eq!(c.attempt_get_runtime_exception(DispatcherOutcome::Finished), Err(ClientRedirectRecovery::NoThreadAvailable));
    let c = connected();
    assert_eq!(c.attempt_get_runtime_exception(DispatcherOutcome::Finished), Ok(()));
    assert_eq!(c.attempt_get_runtime_exception(DispatcherOutcome::StillRunning), Err(ClientRedirectRecovery::Timeout));
    assert_eq!(c.attempt_get_runtime_exception(DispatcherOutcome::JoinFailed), Err(ClientRedirectRecovery::ThreadJoinError));
    assert_eq!(c.attempt_get_runtime_exception(DispatcherOutcome::ServiceError), Err(ClientRedirectRecovery::ServiceDisconnect));
    assert_eq!(c.attempt_get_runtime_exception(DispatcherOutcome::CodecError), Err(ClientRedirectRecovery::AMQPCodecFailure));
    assert_eq!(c.attempt_get_runtime_exception(DispatcherOutcome::ProtocolError), Err(ClientRedirectRecovery::AMQPProtocolFailure));
    assert_eq!(c.attempt_get_runtime_exception(DispatcherOutcome::Disconnected), Err(ClientRedirectRecovery::Disconnected));
    assert_eq!(c.attempt_get_runtime_exception(DispatcherOutcome::IoError), Err(ClientRedirectRecovery::AMQPIOFailure));
}

#[test]
fn client_names() {
    let mut c = Client::new("airquality", "hub", SECRET, "t");
    assert_eq!(c.username(), "airquality@sas.hub");
    assert_eq!(c.hostname(), "hub.azure-devices.net");
    assert_eq!(c.address(), "hub.azure-devices.net:5671");
    c.update_sas_token("renewed");
    assert_eq!(c.credential(), "renewed");
}

#[test]
fn service_client_sends_on_fresh_link() {
    let mut s = ServiceClient::new("hub", SECRET, "token", "iothubowner");
    assert_eq!(s.username(), "iothubowner@sas.root.hub");
    assert_eq!(s.credential(), "token");
    assert_eq!(s.hostname(), "hub.azure-devices.net");
    assert_eq!(s.address(), "hub.azure-devices.net:5671");
    assert_eq!(s.send_simple_message(OpenOutcome::Opened { handle: 0 }, SendOutcome::Accepted), Err(TransferExceptions::NoSession));
    assert_eq!(s.connect(ConnectOutcome::Established), Ok(()));
    assert_eq!(s.connect(ConnectOutcome::Established), Err(AmqpFailure::AlreadyActive));
    assert!(s.is_connected());
    assert_eq!(s.open_simple_link(OpenOutcome::TimedOut), Err(TransferExceptions::GeneralTimeout));
    assert_eq!(s.send_simple_message(OpenOutcome::Refused, SendOutcome::Accepted), Err(TransferExceptions::LinkAmqpProtocolError));
    assert_eq!(s.send_simple_message(OpenOutcome::Opened { handle: 0 }, SendOutcome::Accepted), Ok(()));
    assert_eq!(s.send_simple_message(OpenOutcome::Opened { handle: 0 }, SendOutcome::TimedOut), Err(TransferExceptions::MessageTimeOut));
    assert_eq!(s.send_simple_message(OpenOutcome::Opened { handle: 0 }, SendOutcome::Rejected), Err(TransferExceptions::MessageAmqpProtocolError));
}

#[test]
fn error_texts() {
    assert_eq!(AmqpFailure::FailedSasl.to_string(), "FailedSasl");
    assert_eq!(ClientRedirectRecovery::AMQPCodecFailure.to_string(), "AMQPCodedFailure");
    assert_eq!(TransferExceptions::NoMessage.to_string(), "No message");
    assert_eq!(TransferExceptions::LinkAlreadyActive.to_string(), "Link is already active");
}

#[test]
fn reattach_report_lists_failures_in_order() {
    let links = vec![
        LinkRecord { name: String::from("a"), address: String::from("/a") },
        LinkRecord { name: String::from("b"), address: String::from("/b") },
        LinkRecord { name: String::from("c"), address: String::from("/c") },
    ];
    let results = vec![Err(TransferExceptions::GeneralTimeout), Ok(()), Err(TransferExceptions::NoSession)];
    let report = reattach_report(&links, &results);
    assert_eq!(report.len(), 2);
    assert_eq!((report[0].name.as_str(), report[0].address.as_str(), report[0].error), ("a", "/a", TransferExceptions::GeneralTimeout));
    assert_eq!((report[1].name.as_str(), report[1].address.as_str(), report[1].error), ("c", "/c", TransferExceptions::NoSession));
    assert_eq!(reattach_report(&links, &vec![Ok(())]).len(), 0);
    assert_eq!(reattach_report(&links, &vec![Ok(()), Err(TransferExceptions::LinkCreateFailure)]).len(), 1);
}

#[test]
fn missing_live_flags_count_as_not_live() {
    let mut c = connected();
    assert_eq!(c.attach_receiver("r1", "/b", &vec![], OpenOutcome::Opened { handle: 1 }), Ok(360));
    assert_eq!(c.check_attach_receiver(&vec![]), Ok(()));
    assert_eq!(c.attach_receiver("r2", "/c", &vec![], OpenOutcome::Opened { handle: 2 }), Ok(360));
    assert_eq!(c.check_attach_receiver(&vec![false, true, true]), Err(TransferExceptions::LinkAlreadyActive));
}

#[test]
fn recovery_from_the_clock_succeeds_on_a_good_key() {
    let mut c = Client::new("d", "h", SECRET, "initial");
    assert_eq!(c.recover(CloseOutcome::Closed), Ok(()));
    assert!(c.credential().starts_with("SharedAccessSignature sr=h.azure-devices.net%2Fdevices%2Fd&sig="));
}
