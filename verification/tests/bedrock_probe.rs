use mcping::address::{IpAddress, SocketAddress};
use mcping::bedrock::{Bedrock, BedrockEdition, Packet, OFFLINE_MESSAGE_DATA_ID};
use mcping::bedrock_probe::{BedrockAction, BedrockEvent, BedrockProbe};
use mcping::Error;

const SERVER: IpAddress = IpAddress::V4([10, 0, 0, 9]);

fn local(port: u16) -> SocketAddress {
    SocketAddress {
        ip: IpAddress::V4([0, 0, 0, 0]),
        port,
    }
}

fn config(address: &str, tries: usize, wait: Option<u64>) -> Bedrock {
    Bedrock {
        server_address: address.to_string(),
        timeout: Some(5000),
        tries,
        wait_to_try: wait,
        ..Bedrock::default()
    }
}

fn pong(payload: &str) -> Vec<u8> {
    let mut bytes = vec![0x1c];
    bytes.extend_from_slice(&42u64.to_be_bytes());
    bytes.extend_from_slice(&7u64.to_be_bytes());
    bytes.extend_from_slice(&OFFLINE_MESSAGE_DATA_ID);
    bytes.extend_from_slice(&(payload.len() as u16).to_be_bytes());
    bytes.extend_from_slice(payload.as_bytes());
    bytes
}

fn ping() -> Vec<u8> {
    Packet::UnconnectedPing.encode().unwrap()
}

/// Drives a probe of a literal address up to the read of the datagram.
fn until_receive(tries: usize, wait: Option<u64>) -> (BedrockProbe, usize, usize) {
    let (probe, _) = BedrockProbe::start(config("10.0.0.9", tries, wait));
    let (probe, _) = probe.step(BedrockEvent::Literal(Some(SERVER)));
    let (probe, _) = probe.step(BedrockEvent::Bound);
    let (mut probe, mut action) = probe.step(BedrockEvent::Connected);
    let mut pings = 0;
    let mut pauses = 0;
    loop {
        let event = match action {
            BedrockAction::Send(bytes) => {
                assert_eq!(bytes, ping());
                pings += 1;
                BedrockEvent::Sent
            }
            BedrockAction::Pause(ms) => {
                assert_eq!(Some(ms), wait);
                pauses += 1;
                BedrockEvent::Paused
            }
            BedrockAction::Receive(max) => {
                assert_eq!(max, 1024);
                return (probe, pings, pauses);
            }
            other => panic!("unexpected action: {other:?}"),
        };
        (probe, action) = probe.step(event);
    }
}

#[test]
fn bedrock_probe_happy_path() {
    let (probe, action) = BedrockProbe::start(config("bedrock.example.org", 2, Some(10)));
    assert_eq!(
        action,
        BedrockAction::Classify("bedrock.example.org".to_string())
    );
    let (probe, action) = probe.step(BedrockEvent::Literal(None));
    assert_eq!(
        action,
        BedrockAction::LookupIp("bedrock.example.org".to_string())
    );
    let (probe, action) = probe.step(BedrockEvent::Ip(Some(SERVER)));
    assert_eq!(action, BedrockAction::Bind(local(25567)));
    let (probe, action) = probe.step(BedrockEvent::Bound);
    assert_eq!(
        action,
        BedrockAction::Connect {
            ip: SERVER,
            port: 19132,
            timeout: Some(5000)
        }
    );
    let (probe, action) = probe.step(BedrockEvent::Connected);
    assert_eq!(action, BedrockAction::Send(ping()));
    let (probe, action) = probe.step(BedrockEvent::Sent);
    assert_eq!(action, BedrockAction::Pause(10));
    let (probe, action) = probe.step(BedrockEvent::Paused);
    assert_eq!(action, BedrockAction::Send(ping()));
    let (probe, action) = probe.step(BedrockEvent::Sent);
    assert_eq!(action, BedrockAction::Pause(10));
    let (probe, action) = probe.step(BedrockEvent::Paused);
    assert_eq!(action, BedrockAction::Receive(1024));
    let (probe, action) = probe.step(BedrockEvent::Datagram(pong(
        "MCPE;Server;503;1.19;2;10;7;World;Survival;1;19132;19133",
    )));
    assert_eq!(action, BedrockAction::Measure);
    let (probe, action) = probe.step(BedrockEvent::Elapsed(33));
    assert!(probe.is_finished());
    match action {
        BedrockAction::Finish(Ok((latency, response))) => {
            assert_eq!(latency, 33);
            assert_eq!(response.edition, BedrockEdition::PocketEdition);
            assert_eq!(response.players_online, Some(2));
            assert_eq!(response.players_max, Some(10));
            assert_eq!(response.port_v4, Some(19132));
        }
        other => panic!("not finished well: {other:?}"),
    }
}

#[test]
fn bedrock_probe_truncated_payload() {
    let (probe, _, _) = until_receive(1, None);
    let (probe, action) = probe.step(BedrockEvent::Datagram(pong("MCPE;Server;503")));
    assert_eq!(
        action,
        BedrockAction::Finish(Err(Error::Io("Invalid Payload".to_string())))
    );
    assert!(probe.is_finished());
}

#[test]
fn bedrock_probe_sends_as_many_pings_as_asked() {
    for tries in [0, 1, 2, 5, 8] {
        let (_, pings, pauses) = until_receive(tries, Some(100));
        assert_eq!(pings, tries);
        assert_eq!(pauses, tries);
        let (_, pings, pauses) = until_receive(tries, None);
        assert_eq!(pings, tries);
        assert_eq!(pauses, 0);
    }
}

#[test]
fn bedrock_probe_tries_the_local_addresses_in_order() {
    let (probe, _) = BedrockProbe::start(config("10.0.0.9:19140", 1, None));
    let (probe, action) = probe.step(BedrockEvent::Literal(Some(SERVER)));
    assert_eq!(action, BedrockAction::Bind(local(25567)));
    let (probe, action) = probe.step(BedrockEvent::BindFailed("in use".to_string()));
    assert_eq!(action, BedrockAction::Bind(local(25568)));
    let (probe, action) = probe.step(BedrockEvent::BindFailed("in use".to_string()));
    assert_eq!(action, BedrockAction::Bind(local(25569)));
    let (_, action) = probe.step(BedrockEvent::Bound);
    assert_eq!(
        action,
        BedrockAction::Connect {
            ip: SERVER,
            port: 19140,
            timeout: Some(5000)
        }
    );
}

#[test]
fn bedrock_probe_fails_when_nothing_can_be_bound() {
    let (probe, _) = BedrockProbe::start(config("10.0.0.9", 1, None));
    let (probe, _) = probe.step(BedrockEvent::Literal(Some(SERVER)));
    let (probe, _) = probe.step(BedrockEvent::BindFailed("first".to_string()));
    let (probe, _) = probe.step(BedrockEvent::BindFailed("second".to_string()));
    let (probe, action) = probe.step(BedrockEvent::BindFailed("third".to_string()));
    assert_eq!(
        action,
        BedrockAction::Finish(Err(Error::Io("third".to_string())))
    );
    assert!(probe.is_finished());

    let nothing = Bedrock {
        socket_addresses: vec![],
        ..config("10.0.0.9", 1, None)
    };
    let (probe, _) = BedrockProbe::start(nothing);
    let (_, action) = probe.step(BedrockEvent::Literal(Some(SERVER)));
    assert_eq!(
        action,
        BedrockAction::Finish(Err(Error::Io(
            "could not resolve to any address".to_string()
        )))
    );
}

#[test]
fn bedrock_probe_invalid_address() {
    let (probe, action) = BedrockProbe::start(config("a:b:c", 1, None));
    assert_eq!(action, BedrockAction::Finish(Err(Error::InvalidAddress)));
    assert!(probe.is_finished());
}

#[test]
fn bedrock_probe_unresolved_host() {
    let (probe, _) = BedrockProbe::start(config("nowhere.invalid", 1, None));
    let (probe, _) = probe.step(BedrockEvent::Literal(None));
    let (_, action) = probe.step(BedrockEvent::Ip(None));
    assert_eq!(action, BedrockAction::Finish(Err(Error::DnsLookupFailed)));
}

#[test]
fn bedrock_probe_bad_datagrams() {
    let (probe, _, _) = until_receive(1, None);
    let mut bytes = pong("MCPE;Server;503;1.19");
    bytes[18] = 0;
    let (_, action) = probe.step(BedrockEvent::Datagram(bytes));
    assert_eq!(action, BedrockAction::Finish(Err(Error::InvalidPacket)));

    let (probe, _, _) = until_receive(1, None);
    let (_, action) = probe.step(BedrockEvent::Datagram(ping()));
    assert_eq!(action, BedrockAction::Finish(Err(Error::InvalidPacket)));
}

#[test]
fn bedrock_probe_deadline_and_failure() {
    let (probe, _, _) = until_receive(3, Some(1));
    let (probe, action) = probe.step(BedrockEvent::Deadline);
    assert_eq!(action, BedrockAction::Finish(Err(Error::TimedOut)));
    assert!(probe.is_finished());

    let (probe, _, _) = until_receive(3, Some(1));
    let failure = Error::Io("timed out".to_string());
    let (_, action) = probe.step(BedrockEvent::Failed(failure.clone()));
    assert_eq!(action, BedrockAction::Finish(Err(failure)));
}

#[test]
fn bedrock_probe_unexpected_event_ends_it() {
    let (probe, _) = BedrockProbe::start(config("10.0.0.9", 1, None));
    let (probe, action) = probe.step(BedrockEvent::Sent);
    assert_eq!(
        action,
        BedrockAction::Finish(Err(Error::Io("unexpected event".to_string())))
    );
    let (_, action) = probe.step(BedrockEvent::Literal(Some(SERVER)));
    assert_eq!(
        action,
        BedrockAction::Finish(Err(Error::Io("unexpected event".to_string())))
    );
}
