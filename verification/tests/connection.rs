use rastro::config_file::{ConfigFile, ConnectionProtocol, ConnectionSpec};
use rastro::frame::FrameError;
use rastro::element::DecodeError;
use rastro::indi::connection::{
    decode_all, protocol_version, CloseStep, Connection, ConnectionError, EnableBlobSemantics,
    IndiConnection, IndiReaderLoop, LoopAction, OutgoingMsg, Polled, ReadError, ReadOutcome,
    Reader, StopReason, Writer,
};
use rastro::indi::enable_blob::{EnableBLOB, EnableBLOBValue};
use rastro::indi::get_properties::GetProperties;
use rastro::indi::{decode, IncomingMsg};

#[test]
fn get_properties_is_written_as_an_empty_element() {
    let cmd = GetProperties { version: "1.7".to_string() };
    assert_eq!(cmd.to_xml(), br#"<getProperties version="1.7"/>"#.to_vec());
    assert_eq!(protocol_version(), "1.7");
}

#[test]
fn enable_blob_is_written_with_its_payload_as_text() {
    let all = EnableBLOB { device: None, value: EnableBLOBValue::Only };
    assert_eq!(all.to_xml(), b"<enableBLOB>Only</enableBLOB>".to_vec());
    let one = EnableBLOB { device: Some("CCD Simulator".to_string()), value: EnableBLOBValue::Never };
    assert_eq!(one.to_xml(), br#"<enableBLOB device="CCD Simulator">Never</enableBLOB>"#.to_vec());
    let also = EnableBLOB { device: Some("a<b>&\"c'".to_string()), value: EnableBLOBValue::Also };
    assert_eq!(
        also.to_xml(),
        br#"<enableBLOB device="a&lt;b&gt;&amp;&quot;c&apos;">Also</enableBLOB>"#.to_vec()
    );
}

#[test]
fn get_properties_comes_back_from_its_own_bytes() {
    for version in ["1.7", "", "1.7 & <up>", "\"quoted\" 'single'", "ünï©ode"] {
        let cmd = GetProperties { version: version.to_string() };
        match decode(&cmd.to_xml()).unwrap() {
            IncomingMsg::GetProperties(back) => assert_eq!(back.version, version),
            other => panic!("{:?}", other),
        }
    }
}

#[test]
fn enable_blob_comes_back_from_its_own_bytes() {
    let devices = [None, Some("CCD Simulator"), Some("a<b>&\"c'"), Some("")];
    let values = [EnableBLOBValue::Never, EnableBLOBValue::Also, EnableBLOBValue::Only];
    for device in devices {
        for value in values {
            let cmd = EnableBLOB { device: device.map(|d| d.to_string()), value };
            match decode(&cmd.to_xml()).unwrap() {
                IncomingMsg::EnableBLOB(back) => {
                    assert_eq!(back.device.as_deref(), device);
                    assert_eq!(back.value, value);
                }
                other => panic!("{:?}", other),
            }
        }
    }
}

#[test]
fn enable_blob_with_another_payload_is_refused() {
    assert_eq!(decode(b"<enableBLOB>Sometimes</enableBLOB>").err(), Some(DecodeError::InvalidValue));
    assert_eq!(decode(b"<enableBLOB/>").err(), Some(DecodeError::InvalidValue));
    assert_eq!(decode(b"<getProperties/>").err(), Some(DecodeError::MissingAttribute));
}

#[test]
fn semantics_name_their_payload() {
    assert_eq!(EnableBlobSemantics::Never.value(), EnableBLOBValue::Never);
    assert_eq!(EnableBlobSemantics::Also.value(), EnableBLOBValue::Also);
    assert_eq!(EnableBlobSemantics::Only.value(), EnableBLOBValue::Only);
    assert_eq!(EnableBLOBValue::Never.name(), "Never");
    assert_eq!(EnableBLOBValue::from_text("Also"), Some(EnableBLOBValue::Also));
    assert_eq!(EnableBLOBValue::from_text("also"), None);
}

#[test]
fn the_writer_queues_commands_in_order() {
    let mut w = Writer::new(Vec::new(), "127.0.0.1:50000");
    assert_eq!(w.dbg_name(), "127.0.0.1:50000");
    w.send_enable_blob(EnableBlobSemantics::Only);
    w.send_get_properties();
    w.send_enable_blob_for("CCD", EnableBlobSemantics::Also);
    let sent = w.take_outgoing();
    assert_eq!(
        String::from_utf8(sent).unwrap(),
        r#"<enableBLOB>Only</enableBLOB><getProperties version="1.7"/><enableBLOB device="CCD">Also</enableBLOB>"#
    );
    assert!(w.w.is_empty());
    assert!(w.take_outgoing().is_empty());
}

#[test]
fn the_reader_gives_messages_as_their_bytes_arrive() {
    let mut r = Reader::new(());
    assert!(matches!(r.read(), Ok(None)));
    r.receive(br#"<delProperty device="T"/><delProperty device="A"></delProp"#);
    assert!(matches!(r.read(), Ok(None)));
    r.receive(br#"erty><nonsense a="1"></nonsense><message device="x"></message></stray>"#);
    match r.read() {
        Ok(Some(IncomingMsg::DelProperty(d))) => assert_eq!(d.device, "A"),
        other => panic!("{:?}", other),
    }
    match r.read() {
        Ok(Some(IncomingMsg::Unparsed(m))) => assert_eq!(m.get("a").map(|s| s.as_str()), Some("1")),
        other => panic!("{:?}", other),
    }
    assert_eq!(r.read().err(), Some(ReadError::Decode(DecodeError::MissingAttribute)));
    assert_eq!(r.read().err(), Some(ReadError::Frame(FrameError::UnbalancedEnd)));
    assert!(matches!(r.read(), Ok(None)));
    r.end();
    assert!(matches!(r.read(), Ok(None)));
}

#[test]
fn a_connection_is_a_reader_and_a_writer() {
    let mut c = Connection::new((), Vec::new(), "local");
    c.w.send_get_properties();
    c.r.receive(b"<pong></pong>");
    assert!(matches!(c.r.read(), Ok(Some(IncomingMsg::Unparsed(_)))));
    assert_eq!(c.w.take_outgoing(), br#"<getProperties version="1.7"/>"#.to_vec());
}

#[test]
fn decode_all_keeps_the_order_and_drops_what_is_no_message() {
    let documents = vec![
        br#"<delProperty device="1"></delProperty>"#.to_vec(),
        br#"<delProperty></delProperty>"#.to_vec(),
        br#"<delProperty device="2"></delProperty>"#.to_vec(),
        b"not xml <".to_vec(),
        br#"<delProperty device="3"></delProperty>"#.to_vec(),
    ];
    let messages = decode_all(&documents);
    let devices: Vec<String> = messages
        .iter()
        .map(|m| match m {
            IncomingMsg::DelProperty(d) => d.device.clone(),
            other => panic!("{:?}", other),
        })
        .collect();
    assert_eq!(devices, vec!["1", "2", "3"]);
}

fn devices(messages: &[IncomingMsg]) -> Vec<String> {
    messages
        .iter()
        .map(|m| match m {
            IncomingMsg::DelProperty(d) => d.device.clone(),
            other => panic!("{:?}", other),
        })
        .collect()
}

#[test]
fn the_reader_loop_delivers_in_the_order_of_arrival() {
    let stream = br#"<delProperty device="1"></delProperty><delProperty device="2"></delProperty><delProperty device="3"></delProperty>"#;
    for chunk in [1usize, 2, 7, 40, 1000] {
        let mut l = IndiReaderLoop::create();
        let mut delivered = Vec::new();
        for piece in stream.chunks(chunk) {
            let (messages, action) = l.reader_main(ReadOutcome::Data(piece.to_vec()));
            assert_eq!(action, LoopAction::Continue);
            delivered.extend(messages);
            let (none, action) = l.reader_main(ReadOutcome::WouldBlock);
            assert!(none.is_empty());
            assert_eq!(action, LoopAction::Yield);
        }
        assert_eq!(devices(&delivered), vec!["1", "2", "3"], "chunks of {}", chunk);
        let (none, action) = l.reader_main(ReadOutcome::Closed);
        assert!(none.is_empty());
        assert_eq!(action, LoopAction::Stop(StopReason::EndOfStream));
    }
}

#[test]
fn one_bad_document_does_not_end_the_loop() {
    let mut l = IndiReaderLoop::create();
    let (messages, action) = l.reader_main(ReadOutcome::Data(
        br#"<delProperty device="1"></delProperty><delProperty></delProperty></x><!-- c --><delProperty device="2"></delProperty>"#
            .to_vec(),
    ));
    assert_eq!(action, LoopAction::Continue);
    assert_eq!(devices(&messages), vec!["1", "2"]);
}

#[test]
fn a_failed_transport_ends_the_loop() {
    let mut l = IndiReaderLoop::create();
    let (messages, action) = l.reader_main(ReadOutcome::Failed);
    assert!(messages.is_empty());
    assert_eq!(action, LoopAction::Stop(StopReason::TransportError));
}

#[test]
fn a_loop_that_was_unblocked_stops_whatever_the_read_returned() {
    for outcome in [
        ReadOutcome::Failed,
        ReadOutcome::WouldBlock,
        ReadOutcome::Closed,
        ReadOutcome::Data(br#"<delProperty device="1"></delProperty>"#.to_vec()),
    ] {
        let mut l = IndiReaderLoop::create();
        l.unblock();
        let (messages, action) = l.reader_main(outcome);
        assert!(messages.is_empty());
        assert_eq!(action, LoopAction::Stop(StopReason::Unblocked));
    }
}

fn local() -> ConnectionSpec {
    ConnectionSpec {
        name: "local".to_string(),
        protocol: ConnectionProtocol::InstrumentNeutralDistributedInterface,
        host: "localhost".to_string(),
        port: 7624,
    }
}

#[test]
fn a_connection_knows_its_address() {
    let config = ConfigFile { connections: vec![local()] };
    let c = IndiConnection::connect(&config.connections[0]);
    assert_eq!(c.endpoint(), "localhost:7624");
    assert!(c.is_open());
    let zero = ConnectionSpec { port: 0, host: "::1".to_string(), ..local() };
    assert_eq!(IndiConnection::connect(&zero).endpoint(), "::1:0");
}

#[test]
fn a_connection_sends_what_a_client_sends() {
    let mut c = IndiConnection::connect(&local());
    let get = IncomingMsg::GetProperties(GetProperties { version: "1.7".to_string() });
    assert_eq!(c.send(&get), Ok(br#"<getProperties version="1.7"/>"#.to_vec()));
    let blob = IncomingMsg::EnableBLOB(EnableBLOB { device: None, value: EnableBLOBValue::Never });
    assert_eq!(c.send(&blob), Ok(b"<enableBLOB>Never</enableBLOB>".to_vec()));
    let other = decode(br#"<delProperty device="T"/>"#).unwrap();
    assert_eq!(c.send(&other), Err(ConnectionError::NotSendable));
    assert_eq!(c.close(), CloseStep::Flush);
    assert_eq!(c.send(&get), Err(ConnectionError::Closed));
}

#[test]
fn closing_flushes_then_unblocks_then_joins() {
    let mut c = IndiConnection::connect(&local());
    assert_eq!(c.close(), CloseStep::Flush);
    assert!(!c.is_open());
    assert_eq!(c.close(), CloseStep::Unblock);
    assert_eq!(c.close(), CloseStep::Join);
    assert_eq!(c.close(), CloseStep::Done);
    assert_eq!(c.close(), CloseStep::Done);
    assert_eq!(c.endpoint(), "localhost:7624");
}

#[test]
fn a_poll_gives_a_message_or_none_or_the_end() {
    let c = IndiConnection::connect(&local());
    let waiting = decode(br#"<delProperty device="T"/>"#).unwrap();
    match c.recv_or_none(Polled::Message(waiting)) {
        Ok(Some(m)) => assert!(matches!(*m, IncomingMsg::DelProperty(_))),
        other => panic!("{:?}", other),
    }
    assert!(matches!(c.recv_or_none(Polled::Empty), Ok(None)));
    assert_eq!(c.recv_or_none(Polled::Disconnected).err(), Some(ConnectionError::Disconnected));
    let arrived = decode(br#"<delProperty device="T"/>"#).unwrap();
    assert!(matches!(c.recv_or_block(Polled::Message(arrived)), Some(IncomingMsg::DelProperty(_))));
    assert!(c.recv_or_block(Polled::Disconnected).is_none());
    assert!(c.recv_or_block(Polled::Empty).is_none());
}
