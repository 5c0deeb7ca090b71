use mcping::address::IpAddress;
use mcping::java::{Chat, Java, JavaResponse, Packet, Player, Players, Version};
use mcping::java_probe::{JavaAction, JavaEvent, JavaProbe, SrvRecord};
use mcping::Error;

const SERVER: IpAddress = IpAddress::V4([10, 0, 0, 7]);

fn config(address: &str) -> Java {
    Java {
        server_address: address.to_string(),
        timeout: Some(1000),
    }
}

fn status(description: Chat) -> JavaResponse {
    JavaResponse {
        version: Version {
            name: "1.20".to_string(),
            protocol: 763,
        },
        players: Players {
            max: 20,
            online: 3,
            sample: Some(vec![Player {
                name: "alice".to_string(),
                id: "uuid-a".to_string(),
            }]),
        },
        description,
        favicon: None,
        modinfo: None,
        enforces_secure_chat: None,
        previews_chat: None,
    }
}

fn response_frame(json: &str) -> Vec<u8> {
    let mut body = vec![0x00];
    mcping::java::write_string(&mut body, json).unwrap();
    body
}

fn pong_frame(payload: u64) -> Vec<u8> {
    let mut body = vec![0x01];
    body.extend_from_slice(&payload.to_be_bytes());
    body
}

/// Drives a probe up to the point where the status document is asked for.
fn until_status(address: &str, json: &str) -> JavaProbe {
    let (probe, action) = JavaProbe::start(config(address));
    assert!(matches!(action, JavaAction::Classify(_)));
    let (probe, action) = probe.step(JavaEvent::Literal(Some(SERVER)));
    assert!(matches!(action, JavaAction::Connect { .. }));
    let (probe, action) = probe.step(JavaEvent::Connected);
    assert!(matches!(action, JavaAction::Send(_)));
    let (probe, action) = probe.step(JavaEvent::Sent);
    assert_eq!(action, JavaAction::Send(vec![1, 0]));
    let (probe, action) = probe.step(JavaEvent::Sent);
    assert_eq!(action, JavaAction::ReadFrame);
    let (probe, action) = probe.step(JavaEvent::Frame(response_frame(json)));
    assert_eq!(action, JavaAction::ParseStatus(json.to_string()));
    probe
}

#[test]
fn java_probe_happy_path() {
    let (probe, action) = JavaProbe::start(config("play.example.org"));
    assert_eq!(action, JavaAction::Classify("play.example.org".to_string()));

    let (probe, action) = probe.step(JavaEvent::Literal(None));
    assert_eq!(
        action,
        JavaAction::LookupSrv("_minecraft._tcp.play.example.org.".to_string())
    );

    let (probe, action) = probe.step(JavaEvent::Srv(vec![]));
    assert_eq!(action, JavaAction::LookupIp("play.example.org".to_string()));

    let (probe, action) = probe.step(JavaEvent::Ip(Some(SERVER)));
    assert_eq!(
        action,
        JavaAction::Connect {
            ip: SERVER,
            port: 25565,
            timeout: Some(1000)
        }
    );

    let (probe, action) = probe.step(JavaEvent::Connected);
    let handshake = Packet::Handshake {
        version: 47,
        host: "play.example.org".to_string(),
        port: 25565,
        next_state: 1,
    };
    assert_eq!(action, JavaAction::Send(handshake.encode().unwrap()));

    let (probe, action) = probe.step(JavaEvent::Sent);
    assert_eq!(action, JavaAction::Send(vec![1, 0]));

    let (probe, action) = probe.step(JavaEvent::Sent);
    assert_eq!(action, JavaAction::ReadFrame);

    let json = "{\"version\":{\"name\":\"1.20\",\"protocol\":763},\"players\":{\"max\":20,\"online\":3,\"sample\":[{\"name\":\"alice\",\"id\":\"uuid-a\"}]},\"description\":{\"text\":\"Hello\"}}";
    let (probe, action) = probe.step(JavaEvent::Frame(response_frame(json)));
    assert_eq!(action, JavaAction::ParseStatus(json.to_string()));

    let answer = status(Chat::Text {
        text: "Hello".to_string(),
    });
    let (probe, action) = probe.step_with(JavaEvent::Status(answer.clone()), 0x1122_3344);
    assert_eq!(
        action,
        JavaAction::SendPing(vec![9, 1, 0, 0, 0, 0, 0x11, 0x22, 0x33, 0x44])
    );

    let (probe, action) = probe.step(JavaEvent::Sent);
    assert_eq!(action, JavaAction::ReadFrame);

    let (probe, action) = probe.step(JavaEvent::Frame(pong_frame(0x1122_3344)));
    assert_eq!(action, JavaAction::Measure);
    assert!(!probe.is_finished());

    let (probe, action) = probe.step(JavaEvent::Elapsed(12));
    assert!(probe.is_finished());
    match action {
        JavaAction::Finish(Ok((latency, response))) => {
            assert_eq!(latency, 12);
            assert_eq!(response, answer);
            assert_eq!(response.description.text(), "Hello");
            assert_eq!(response.players.online, 3);
            assert_eq!(response.players.sample.unwrap()[0].name, "alice");
        }
        other => panic!("not finished well: {other:?}"),
    }
}

#[test]
fn java_probe_mismatched_pong() {
    let probe = until_status("10.0.0.7", "{}");
    let (probe, _) = probe.step_with(
        JavaEvent::Status(status(Chat::String("x".to_string()))),
        41,
    );
    let (probe, _) = probe.step(JavaEvent::Sent);
    let (probe, action) = probe.step(JavaEvent::Frame(pong_frame(42)));
    assert_eq!(action, JavaAction::Finish(Err(Error::InvalidPacket)));
    assert!(probe.is_finished());
}

#[test]
fn java_probe_draws_a_payload_and_accepts_its_echo() {
    let probe = until_status("10.0.0.7", "{}");
    let (probe, action) = probe.step(JavaEvent::Status(status(Chat::String("x".to_string()))));
    let bytes = match action {
        JavaAction::SendPing(bytes) => bytes,
        other => panic!("no ping: {other:?}"),
    };
    assert_eq!(bytes.len(), 10);
    assert_eq!(&bytes[..2], &[9, 1]);
    let (probe, _) = probe.step(JavaEvent::Sent);
    let (_, action) = probe.step(JavaEvent::Frame(bytes[1..].to_vec()));
    assert_eq!(action, JavaAction::Measure);
}

#[test]
fn java_probe_chat_as_bare_string() {
    let probe = until_status("10.0.0.7", "{}");
    let answer = JavaResponse {
        players: Players {
            max: 1,
            online: 0,
            sample: None,
        },
        ..status(Chat::String("Just text".to_string()))
    };
    let (probe, _) = probe.step_with(JavaEvent::Status(answer), 5);
    let (probe, _) = probe.step(JavaEvent::Sent);
    let (probe, _) = probe.step(JavaEvent::Frame(pong_frame(5)));
    let (_, action) = probe.step(JavaEvent::Elapsed(1));
    match action {
        JavaAction::Finish(Ok((_, response))) => {
            assert_eq!(response.description.text(), "Just text");
        }
        other => panic!("not finished well: {other:?}"),
    }
}

#[test]
fn java_probe_follows_the_service_record() {
    let (probe, _) = JavaProbe::start(config("example.org:1234"));
    let (probe, _) = probe.step(JavaEvent::Literal(None));
    let records = vec![
        SrvRecord {
            target: "mc1.example.net.".to_string(),
            port: 30000,
        },
        SrvRecord {
            target: "mc2.example.net.".to_string(),
            port: 30001,
        },
    ];
    let (probe, action) = probe.step(JavaEvent::Srv(records));
    assert_eq!(action, JavaAction::LookupIp("mc1.example.net.".to_string()));
    let (probe, action) = probe.step(JavaEvent::Ip(Some(SERVER)));
    assert_eq!(
        action,
        JavaAction::Connect {
            ip: SERVER,
            port: 30000,
            timeout: Some(1000)
        }
    );
    // The handshake names the host that the caller gave.
    let (_, action) = probe.step(JavaEvent::Connected);
    let handshake = Packet::Handshake {
        version: 47,
        host: "example.org".to_string(),
        port: 30000,
        next_state: 1,
    };
    assert_eq!(action, JavaAction::Send(handshake.encode().unwrap()));
}

#[test]
fn java_probe_literal_skips_the_lookups() {
    let (probe, action) = JavaProbe::start(config("10.0.0.7:25570"));
    assert_eq!(action, JavaAction::Classify("10.0.0.7".to_string()));
    let (_, action) = probe.step(JavaEvent::Literal(Some(SERVER)));
    assert_eq!(
        action,
        JavaAction::Connect {
            ip: SERVER,
            port: 25570,
            timeout: Some(1000)
        }
    );
}

#[test]
fn java_probe_invalid_address() {
    let (probe, action) = JavaProbe::start(config("host:port"));
    assert_eq!(action, JavaAction::Finish(Err(Error::InvalidAddress)));
    assert!(probe.is_finished());
}

#[test]
fn java_probe_unresolved_host() {
    let (probe, _) = JavaProbe::start(config("nowhere.invalid"));
    let (probe, _) = probe.step(JavaEvent::Literal(None));
    let (probe, _) = probe.step(JavaEvent::Srv(vec![]));
    let (_, action) = probe.step(JavaEvent::Ip(None));
    assert_eq!(action, JavaAction::Finish(Err(Error::DnsLookupFailed)));
}

#[test]
fn java_probe_deadline_ends_every_stage() {
    let (probe, _) = JavaProbe::start(config("play.example.org"));
    let (_, action) = probe.step(JavaEvent::Deadline);
    assert_eq!(action, JavaAction::Finish(Err(Error::TimedOut)));

    let (probe, _) = JavaProbe::start(config("10.0.0.7"));
    let (probe, _) = probe.step(JavaEvent::Literal(Some(SERVER)));
    let (probe, action) = probe.step(JavaEvent::Deadline);
    assert_eq!(action, JavaAction::Finish(Err(Error::TimedOut)));
    assert!(probe.is_finished());

    let probe = until_status("10.0.0.7", "{}");
    let (_, action) = probe.step(JavaEvent::Deadline);
    assert_eq!(action, JavaAction::Finish(Err(Error::TimedOut)));
}

#[test]
fn java_probe_failure_is_handed_on() {
    let (probe, _) = JavaProbe::start(config("10.0.0.7"));
    let (probe, _) = probe.step(JavaEvent::Literal(Some(SERVER)));
    let refused = Error::Io("connection refused".to_string());
    let (_, action) = probe.step(JavaEvent::Failed(refused.clone()));
    assert_eq!(action, JavaAction::Finish(Err(refused)));
}

#[test]
fn java_probe_bad_status_is_a_json_error() {
    let probe = until_status("10.0.0.7", "not json");
    let (_, action) = probe.step(JavaEvent::BadStatus("expected ident".to_string()));
    assert_eq!(
        action,
        JavaAction::Finish(Err(Error::JsonErr("expected ident".to_string())))
    );
}

#[test]
fn java_probe_pong_in_place_of_response_is_invalid() {
    let (probe, _) = JavaProbe::start(config("10.0.0.7"));
    let (probe, _) = probe.step(JavaEvent::Literal(Some(SERVER)));
    let (probe, _) = probe.step(JavaEvent::Connected);
    let (probe, _) = probe.step(JavaEvent::Sent);
    let (probe, _) = probe.step(JavaEvent::Sent);
    let (_, action) = probe.step(JavaEvent::Frame(pong_frame(1)));
    assert_eq!(action, JavaAction::Finish(Err(Error::InvalidPacket)));
}

#[test]
fn java_probe_response_in_place_of_pong_is_invalid() {
    let probe = until_status("10.0.0.7", "{}");
    let (probe, _) = probe.step_with(JavaEvent::Status(status(Chat::String("x".into()))), 9);
    let (probe, _) = probe.step(JavaEvent::Sent);
    let (_, action) = probe.step(JavaEvent::Frame(response_frame("{}")));
    assert_eq!(action, JavaAction::Finish(Err(Error::InvalidPacket)));
}

#[test]
fn java_probe_does_not_try_again() {
    let (probe, _) = JavaProbe::start(config("10.0.0.7"));
    let (probe, _) = probe.step(JavaEvent::Deadline);
    for event in [
        JavaEvent::Connected,
        JavaEvent::Sent,
        JavaEvent::Literal(Some(SERVER)),
        JavaEvent::Deadline,
    ] {
        let (probe, action) = JavaProbe::start(config("10.0.0.7"));
        let (probe, _) = probe.step(JavaEvent::Deadline);
        let (probe, action2) = probe.step(event);
        assert!(probe.is_finished());
        assert!(matches!(action, JavaAction::Classify(_)));
        assert_eq!(
            action2,
            JavaAction::Finish(Err(Error::Io("unexpected event".to_string())))
        );
    }
    assert!(probe.is_finished());
}

#[test]
fn java_probe_unexpected_event_ends_it() {
    let (probe, _) = JavaProbe::start(config("10.0.0.7"));
    let (probe, action) = probe.step(JavaEvent::Sent);
    assert_eq!(
        action,
        JavaAction::Finish(Err(Error::Io("unexpected event".to_string())))
    );
    assert!(probe.is_finished());
}
