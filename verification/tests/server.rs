use std::io::Cursor;

use lsmon::config::Config;
use lsmon::server::{
    Attempt, ConnectionState, Handshake, MQTTServer, PublishError, Reconnect,
    HANDSHAKE_TIMEOUT_MS,
};
use lsmon::transport::{
    ConnectError, ConnectReturnCode, Outbound, Request, Response, TransportErrorKind,
};
use lsmon::wire::{is_valid_topic, MAX_REMAINING_LENGTH};
use mqtt::packet::{ConnectPacket, Packet, PublishPacket, QoSWithPacketIdentifier};
use mqtt::{Decodable, Encodable, TopicName};

fn fresh() -> MQTTServer {
    MQTTServer::new(String::from("broker:1883"), String::from("alice"), String::from("secret"))
}

fn connected(handle: u64) -> MQTTServer {
    let server = fresh();
    match server.try_reconnect(
        Handshake::Awaiting { handle },
        Response::Acknowledged(Some(ConnectReturnCode::ConnectionAccepted)),
    ) {
        Attempt::Finished { outcome: Ok(server) } => server,
        other => panic!("no connection: {:?}", other),
    }
}

fn frame_of(result: Result<Outbound, PublishError>) -> Vec<u8> {
    match result {
        Ok(outbound) => outbound.frame,
        Err(error) => panic!("not published: {:?}", error),
    }
}

#[test]
fn new_manager_is_disconnected() {
    let server = fresh();
    assert_eq!(server.state(), ConnectionState::Disconnected);
    assert_eq!(server.transport(), None);
    assert_eq!(server.server_addr(), "broker:1883");
}

#[test]
fn connect_begins_by_opening_a_transport() {
    let mut config = Config::make_default();
    config.server_addr = String::from("10.0.0.1:1883");
    let (server, progress, request) = MQTTServer::connect(config);
    assert_eq!(server.state(), ConnectionState::Disconnected);
    assert_eq!(progress, Handshake::Opening);
    assert_eq!(request, Request::Open { address: String::from("10.0.0.1:1883") });
}

#[test]
fn handshake_begins_by_opening_a_transport_where_none_is_held() {
    assert_eq!(
        fresh().open(),
        (Handshake::Opening, Request::Open { address: String::from("broker:1883") })
    );
}

#[test]
fn handshake_begins_by_closing_the_transport_that_is_held() {
    let server = connected(4);
    assert_eq!(server.open(), (Handshake::Releasing, Request::Close { handle: 4 }));
    for response in [Response::Closed, Response::Opened(None), Response::Written(Ok(()))] {
        assert_eq!(
            server.try_reconnect(Handshake::Releasing, response),
            Attempt::Pending {
                progress: Handshake::Opening,
                request: Request::Open { address: String::from("broker:1883") },
            }
        );
    }
}

fn gives_up(attempt: Attempt, handle: u64, error: ConnectError) {
    assert_eq!(
        attempt,
        Attempt::Pending {
            progress: Handshake::Closing { error },
            request: Request::Close { handle },
        }
    );
    assert_eq!(
        fresh().try_reconnect(Handshake::Closing { error }, Response::Closed),
        Attempt::Finished { outcome: Err(error) }
    );
}

#[test]
fn handshake_writes_the_connection_request_once_the_transport_is_open() {
    let server = fresh();
    let frame = match server.try_reconnect(Handshake::Opening, Response::Opened(Some(7))) {
        Attempt::Pending {
            progress: Handshake::Sending { handle: 7 },
            request: Request::Write(Outbound { handle: 7, frame }),
        } => frame,
        other => panic!("unexpected step: {:?}", other),
    };
    let packet = ConnectPacket::decode(&mut Cursor::new(&frame[..])).unwrap();
    assert_eq!(packet.client_identifier(), "lsm_test_client");
    assert!(packet.clean_session());
    assert_eq!(packet.user_name(), Some("alice"));
    assert_eq!(packet.password(), Some("secret"));
    assert!(packet.will().is_none());

    let mut expected = ConnectPacket::new("MQTT", "lsm_test_client");
    expected.set_clean_session(true);
    expected.set_user_name(Some(String::from("alice")));
    expected.set_password(Some(String::from("secret")));
    let mut bytes = Vec::new();
    expected.encode(&mut bytes).unwrap();
    assert_eq!(frame, bytes);
}

#[test]
fn connection_request_is_stated_byte_for_byte() {
    let server = fresh();
    let frame = match server.try_reconnect(Handshake::Opening, Response::Opened(Some(7))) {
        Attempt::Pending { request: Request::Write(outbound), .. } => outbound.frame,
        other => panic!("unexpected step: {:?}", other),
    };
    let mut expected = vec![0x10, 42, 0x00, 0x04, b'M', b'Q', b'T', b'T', 0x04, 0xC2, 0x00, 0x00];
    expected.extend_from_slice(&[0x00, 15]);
    expected.extend_from_slice(b"lsm_test_client");
    expected.extend_from_slice(&[0x00, 5]);
    expected.extend_from_slice(b"alice");
    expected.extend_from_slice(&[0x00, 6]);
    expected.extend_from_slice(b"secret");
    assert_eq!(frame, expected);
}

#[test]
fn connection_request_carries_long_credentials_behind_their_length() {
    let long = "x".repeat(300);
    let server = MQTTServer::new(String::from("broker:1883"), long.clone(), String::new());
    let frame = match server.try_reconnect(Handshake::Opening, Response::Opened(Some(7))) {
        Attempt::Pending { request: Request::Write(outbound), .. } => outbound.frame,
        other => panic!("unexpected step: {:?}", other),
    };
    // 10 bytes of header, 17 of identifier, 302 of user name, 2 of password.
    assert_eq!(&frame[..3], &[0x10, 0xCB, 0x02]);
    assert_eq!(&frame[30..32], &[0x01, 0x2C]);
    assert_eq!(&frame[32..332], long.as_bytes());
    assert_eq!(&frame[332..], &[0x00, 0x00]);
}

#[test]
fn handshake_accepts_empty_credentials() {
    let server = MQTTServer::new(String::from("broker:1883"), String::new(), String::new());
    let frame = match server.try_reconnect(Handshake::Opening, Response::Opened(Some(1))) {
        Attempt::Pending { request: Request::Write(outbound), .. } => outbound.frame,
        other => panic!("unexpected step: {:?}", other),
    };
    let packet = ConnectPacket::decode(&mut Cursor::new(&frame[..])).unwrap();
    assert_eq!(packet.user_name(), Some(""));
    assert_eq!(packet.password(), Some(""));
}

#[test]
fn handshake_reads_the_acknowledgement_once_the_request_is_written() {
    let server = fresh();
    assert_eq!(
        server.try_reconnect(Handshake::Sending { handle: 7 }, Response::Written(Ok(()))),
        Attempt::Pending {
            progress: Handshake::Awaiting { handle: 7 },
            request: Request::ReadAck { handle: 7, timeout_ms: HANDSHAKE_TIMEOUT_MS },
        }
    );
    assert_eq!(HANDSHAKE_TIMEOUT_MS, 5000);
}

#[test]
fn handshake_ends_connected_when_accepted() {
    let server = connected(7);
    assert_eq!(server.state(), ConnectionState::Connected { handle: 7 });
    assert_eq!(server.transport(), Some(7));
    assert_eq!(server.server_addr(), "broker:1883");
}

#[test]
fn handshake_fails_unreachable_when_the_transport_does_not_open() {
    let server = fresh();
    assert_eq!(
        server.try_reconnect(Handshake::Opening, Response::Opened(None)),
        Attempt::Finished { outcome: Err(ConnectError::Unreachable) }
    );
    assert_eq!(
        server.try_reconnect(Handshake::Opening, Response::ReaderSpawned),
        Attempt::Finished { outcome: Err(ConnectError::Unreachable) }
    );
}

#[test]
fn handshake_fails_unreachable_when_the_request_is_not_written() {
    let server = fresh();
    for kind in [TransportErrorKind::ConnectionReset, TransportErrorKind::Other] {
        gives_up(
            server.try_reconnect(Handshake::Sending { handle: 7 }, Response::Written(Err(kind))),
            7,
            ConnectError::Unreachable,
        );
    }
}

#[test]
fn handshake_fails_to_encode_overlong_credentials() {
    let long = "x".repeat(65536);
    let server = MQTTServer::new(String::from("broker:1883"), long.clone(), String::new());
    gives_up(
        server.try_reconnect(Handshake::Opening, Response::Opened(Some(7))),
        7,
        ConnectError::ProtocolEncodeFailure,
    );
    let server = MQTTServer::new(String::from("broker:1883"), String::new(), long);
    gives_up(
        server.try_reconnect(Handshake::Opening, Response::Opened(Some(7))),
        7,
        ConnectError::ProtocolEncodeFailure,
    );
}

#[test]
fn handshake_encodes_credentials_of_the_greatest_length() {
    let long = "x".repeat(65535);
    let server = MQTTServer::new(String::from("broker:1883"), long.clone(), long.clone());
    let frame = match server.try_reconnect(Handshake::Opening, Response::Opened(Some(7))) {
        Attempt::Pending { request: Request::Write(outbound), .. } => outbound.frame,
        other => panic!("unexpected step: {:?}", other),
    };
    let packet = ConnectPacket::decode(&mut Cursor::new(&frame[..])).unwrap();
    assert_eq!(packet.user_name(), Some(&long[..]));
    assert_eq!(packet.password(), Some(&long[..]));
}

#[test]
fn handshake_fails_to_decode_when_no_acknowledgement_comes() {
    let server = fresh();
    gives_up(
        server.try_reconnect(Handshake::Awaiting { handle: 7 }, Response::Acknowledged(None)),
        7,
        ConnectError::ProtocolDecodeFailure,
    );
    gives_up(
        server.try_reconnect(Handshake::Awaiting { handle: 7 }, Response::Written(Ok(()))),
        7,
        ConnectError::ProtocolDecodeFailure,
    );
}

#[test]
fn handshake_is_rejected_by_every_other_return_code() {
    let server = fresh();
    let codes = [
        ConnectReturnCode::UnacceptableProtocolVersion,
        ConnectReturnCode::IdentifierRejected,
        ConnectReturnCode::ServiceUnavailable,
        ConnectReturnCode::BadUserNameOrPassword,
        ConnectReturnCode::NotAuthorized,
        ConnectReturnCode::Reserved(9),
        ConnectReturnCode::Reserved(0),
    ];
    for code in codes {
        gives_up(
            server.try_reconnect(
                Handshake::Awaiting { handle: 7 },
                Response::Acknowledged(Some(code)),
            ),
            7,
            ConnectError::Rejected(code),
        );
    }
}

#[test]
fn reconnect_passes_the_handshake_on_while_it_lasts() {
    let server = connected(3);
    match server.reconnect(Handshake::Opening, Response::Opened(Some(4))) {
        Reconnect::Pending {
            server,
            progress: Handshake::Sending { handle: 4 },
            request: Request::Write(Outbound { handle: 4, .. }),
        } => assert_eq!(server.state(), ConnectionState::Connected { handle: 3 }),
        other => panic!("unexpected step: {:?}", other),
    }
}

#[test]
fn reconnect_ends_on_the_new_transport() {
    let server = connected(3);
    match server.reconnect(
        Handshake::Awaiting { handle: 4 },
        Response::Acknowledged(Some(ConnectReturnCode::ConnectionAccepted)),
    ) {
        Reconnect::Finished { server } => {
            assert_eq!(server.state(), ConnectionState::Connected { handle: 4 });
            assert_eq!(server.server_addr(), "broker:1883");
        }
        other => panic!("unexpected step: {:?}", other),
    }
}

#[test]
fn failed_reconnect_leaves_the_manager_disconnected() {
    let failures = [
        (Handshake::Opening, Response::Opened(None)),
        (Handshake::Closing { error: ConnectError::Unreachable }, Response::Closed),
        (Handshake::Closing { error: ConnectError::ProtocolDecodeFailure }, Response::Closed),
        (
            Handshake::Closing {
                error: ConnectError::Rejected(ConnectReturnCode::ServiceUnavailable),
            },
            Response::Closed,
        ),
    ];
    for (progress, response) in failures {
        match connected(3).reconnect(progress, response) {
            Reconnect::Finished { server } => {
                assert_eq!(server.state(), ConnectionState::Disconnected);
                assert_eq!(server.server_addr(), "broker:1883");
            }
            other => panic!("unexpected step: {:?}", other),
        }
    }
    match connected(3).reconnect(
        Handshake::Awaiting { handle: 4 },
        Response::Acknowledged(Some(ConnectReturnCode::ServiceUnavailable)),
    ) {
        Reconnect::Pending {
            server,
            progress: Handshake::Closing { .. },
            request: Request::Close { handle: 4 },
        } => assert_eq!(server.state(), ConnectionState::Connected { handle: 3 }),
        other => panic!("unexpected step: {:?}", other),
    }
}

#[test]
fn repeated_reconnect_failures_keep_the_manager_disconnected() {
    let mut server = connected(3);
    for _ in 0..5 {
        server = match server.reconnect(Handshake::Opening, Response::Opened(None)) {
            Reconnect::Finished { server } => server,
            other => panic!("unexpected step: {:?}", other),
        };
        assert_eq!(server.state(), ConnectionState::Disconnected);
        assert_eq!(
            server.open(),
            (Handshake::Opening, Request::Open { address: String::from("broker:1883") })
        );
    }
}

#[test]
fn start_names_the_transport_for_its_reader_once() {
    let (server, spawn) = connected(7).start();
    assert_eq!(spawn, Some(7));
    assert_eq!(server.state(), ConnectionState::Connected { handle: 7 });
    let (server, again) = server.start();
    assert_eq!(again, None);
    assert_eq!(server.state(), ConnectionState::Connected { handle: 7 });
}

#[test]
fn start_without_a_transport_starts_nothing() {
    let (server, spawn) = fresh().start();
    assert_eq!(spawn, None);
    assert_eq!(server.state(), ConnectionState::Disconnected);
}

#[test]
fn start_after_a_reconnection_names_the_new_transport() {
    let (server, _) = connected(7).start();
    let server = match server.reconnect(
        Handshake::Awaiting { handle: 8 },
        Response::Acknowledged(Some(ConnectReturnCode::ConnectionAccepted)),
    ) {
        Reconnect::Finished { server } => server,
        other => panic!("unexpected step: {:?}", other),
    };
    let (_, spawn) = server.start();
    assert_eq!(spawn, Some(8));
}

#[test]
fn loss_of_the_held_transport_disconnects() {
    let (server, _) = connected(7).start();
    let server = server.connection_lost(7);
    assert_eq!(server.state(), ConnectionState::Disconnected);
    let (_, spawn) = server.start();
    assert_eq!(spawn, None);
}

#[test]
fn loss_of_a_replaced_transport_changes_nothing() {
    let server = connected(7).connection_lost(6);
    assert_eq!(server.state(), ConnectionState::Connected { handle: 7 });
    let server = fresh().connection_lost(6);
    assert_eq!(server.state(), ConnectionState::Disconnected);
}

#[test]
fn publish_without_a_transport_is_not_connected() {
    let mut server = fresh();
    assert_eq!(server.publish("m/a", b"1".to_vec()), Err(PublishError::NotConnected));
    assert_eq!(server.publish_value("m/a", 1u32), Err(PublishError::NotConnected));
    assert_eq!(server.state(), ConnectionState::Disconnected);
}

#[test]
fn publish_hands_out_a_retained_frame_for_the_held_transport() {
    let mut server = connected(7);
    let outbound = server.publish("m/a", b"123.45".to_vec()).unwrap();
    assert_eq!(outbound.handle, 7);
    let packet = PublishPacket::decode(&mut Cursor::new(&outbound.frame[..])).unwrap();
    assert_eq!(packet.topic_name(), "m/a");
    assert_eq!(packet.payload_ref(), &b"123.45".to_vec());
    assert!(packet.retain());
    assert!(!packet.dup());
    assert_eq!(packet.qos(), QoSWithPacketIdentifier::Level0);
    assert_eq!(server.state(), ConnectionState::Connected { handle: 7 });

    let mut expected = PublishPacket::new(
        TopicName::new("m/a").unwrap(),
        QoSWithPacketIdentifier::Level0,
        b"123.45".to_vec(),
    );
    expected.set_retain(true);
    let mut bytes = Vec::new();
    expected.encode(&mut bytes).unwrap();
    assert_eq!(outbound.frame, bytes);
}

#[test]
fn publish_frame_is_type_length_topic_and_message() {
    let mut server = connected(7);
    let frame = frame_of(server.publish("m/a", b"123.45".to_vec()));
    assert_eq!(
        frame,
        vec![0x31, 0x0B, 0x00, 0x03, b'm', b'/', b'a', b'1', b'2', b'3', b'.', b'4', b'5']
    );
    let frame = frame_of(server.publish("gr\u{fc}n", Vec::new()));
    assert_eq!(frame, vec![0x31, 0x07, 0x00, 0x05, b'g', b'r', 0xC3, 0xBC, b'n']);
}

#[test]
fn publish_frame_spreads_a_long_length_over_several_bytes() {
    let mut server = connected(7);
    let frame = frame_of(server.publish("m/a", vec![9u8; 122]));
    assert_eq!(&frame[..2], &[0x31, 0x7F]);
    assert_eq!(frame.len(), 2 + 127);
    let frame = frame_of(server.publish("m/a", vec![9u8; 123]));
    assert_eq!(&frame[..3], &[0x31, 0x80, 0x01]);
    assert_eq!(frame.len(), 3 + 128);
    let frame = frame_of(server.publish("m/a", vec![9u8; 20000]));
    assert_eq!(&frame[..9], &[0x31, 0xA5, 0x9C, 0x01, 0x00, 0x03, b'm', b'/', b'a']);
    assert_eq!(frame.len(), 4 + 20005);
    let frame = frame_of(server.publish("m/a", vec![9u8; 2_097_152]));
    assert_eq!(&frame[..5], &[0x31, 0x85, 0x80, 0x80, 0x01]);
    assert_eq!(frame.len(), 5 + 2_097_157);
}

#[test]
fn publish_takes_an_empty_message() {
    let mut server = connected(7);
    let frame = frame_of(server.publish("m/a", Vec::new()));
    let packet = PublishPacket::decode(&mut Cursor::new(&frame[..])).unwrap();
    assert_eq!(packet.payload_ref(), &Vec::<u8>::new());
}

#[test]
fn publish_refuses_a_message_too_long_for_a_frame() {
    let mut server = connected(7);
    let fits = vec![0u8; MAX_REMAINING_LENGTH - 2 - 3];
    assert!(server.publish("m/a", fits).is_ok());
    let too_long = vec![0u8; MAX_REMAINING_LENGTH - 2 - 3 + 1];
    assert_eq!(
        server.publish("m/a", too_long),
        Err(PublishError::Transport(TransportErrorKind::Other))
    );
    assert_eq!(server.state(), ConnectionState::Connected { handle: 7 });
}

#[test]
fn publish_value_sends_the_text_of_a_number() {
    let mut server = connected(7);
    let frame = frame_of(server.publish_value("m/a", 42.5f32));
    let packet = PublishPacket::decode(&mut Cursor::new(&frame[..])).unwrap();
    assert_eq!(packet.topic_name(), "m/a");
    assert_eq!(String::from_utf8(packet.payload_ref().clone()).unwrap(), "42.5");
    assert!(packet.retain());
}

#[test]
fn publish_value_sends_the_text_of_any_printable_value() {
    let mut server = connected(7);
    let frame = frame_of(server.publish_value("m/disk/usage", 75u32));
    let packet = PublishPacket::decode(&mut Cursor::new(&frame[..])).unwrap();
    assert_eq!(packet.payload_ref(), &b"75".to_vec());
    let frame = frame_of(server.publish_value("m/t", "gr\u{fc}n"));
    let packet = PublishPacket::decode(&mut Cursor::new(&frame[..])).unwrap();
    assert_eq!(packet.payload_ref(), &"gr\u{fc}n".as_bytes().to_vec());
}

#[test]
fn written_frame_is_published() {
    assert_eq!(MQTTServer::sent(Ok(())), Ok(()));
}

#[test]
fn failed_write_is_a_transport_error_of_its_kind() {
    assert_eq!(
        MQTTServer::sent(Err(TransportErrorKind::ConnectionReset)),
        Err(PublishError::Transport(TransportErrorKind::ConnectionReset))
    );
    assert_eq!(
        MQTTServer::sent(Err(TransportErrorKind::Other)),
        Err(PublishError::Transport(TransportErrorKind::Other))
    );
}

#[test]
fn connection_is_lost_without_transport_or_after_a_reset() {
    assert!(PublishError::NotConnected.is_connection_lost());
    assert!(PublishError::Transport(TransportErrorKind::ConnectionReset).is_connection_lost());
    assert!(!PublishError::Transport(TransportErrorKind::Other).is_connection_lost());
}

#[test]
fn valid_topics_are_those_the_protocol_takes() {
    let mut samples = vec![
        String::from("m/a"),
        String::from("/"),
        String::from("mqtt/learning"),
        String::from("a b\nc"),
        String::from("gr\u{fc}n/\u{1f600}"),
        String::new(),
        String::from("#"),
        String::from("a/#"),
        String::from("a/+/b"),
        String::from("+"),
        String::from("sensor+1"),
        "t".repeat(65535),
        "t".repeat(65536),
        "\u{fc}".repeat(32767),
        "\u{fc}".repeat(32768),
    ];
    samples.push(format!("{}#", "t".repeat(10)));
    for topic in samples.iter() {
        assert_eq!(is_valid_topic(topic), TopicName::new(topic.clone()).is_ok());
    }
    assert!(is_valid_topic("m/a"));
    assert!(!is_valid_topic(""));
    assert!(!is_valid_topic("a/#"));
    assert!(!is_valid_topic("a/+"));
    assert!(is_valid_topic(&"t".repeat(65535)));
    assert!(!is_valid_topic(&"t".repeat(65536)));
}
