use mcping::address::{IpAddress, SocketAddress};
use mcping::bedrock::{BedrockEdition, BedrockResponse};
use mcping::executor::{
    bedrock_probe, deadline, java_probe, summarize_bedrock, summarize_java, JAVA_DEADLINE_MS,
};
use mcping::web::Edition;
use mcping::java::{Chat, JavaResponse, Player, Players as JavaPlayers, Version as JavaVersion};
use mcping::structures::{ChatStatus, MCPingResponse, PlayerSample, Players, Version};

fn java_answer() -> JavaResponse {
    JavaResponse {
        version: JavaVersion {
            name: "1.20".to_string(),
            protocol: 763,
        },
        players: JavaPlayers {
            max: 20,
            online: 3,
            sample: Some(vec![
                Player {
                    name: "alice".to_string(),
                    id: "uuid-a".to_string(),
                },
                Player {
                    name: "bob".to_string(),
                    id: "uuid-b".to_string(),
                },
            ]),
        },
        description: Chat::Text {
            text: "Hello".to_string(),
        },
        favicon: Some("data:image/png;base64,AAAA".to_string()),
        modinfo: None,
        enforces_secure_chat: Some(true),
        previews_chat: None,
    }
}

fn bedrock_answer() -> BedrockResponse {
    BedrockResponse {
        edition: BedrockEdition::PocketEdition,
        motd_1: "Server".to_string(),
        protocol_version: Some(503),
        version_name: "1.19".to_string(),
        players_online: Some(2),
        players_max: Some(10),
        server_id: Some(7),
        motd_2: Some("World".to_string()),
        game_mode: Some("Survival".to_string()),
        game_mode_id: Some(1),
        port_v4: Some(19132),
        port_v6: Some(19133),
    }
}

#[test]
fn summary_of_a_java_answer() {
    assert_eq!(
        summarize_java(17, java_answer()),
        MCPingResponse {
            latency: 17,
            players: Players {
                online: 3,
                maximum: 20,
                sample: vec![
                    PlayerSample {
                        uuid: "uuid-a".to_string(),
                        name: "alice".to_string(),
                    },
                    PlayerSample {
                        uuid: "uuid-b".to_string(),
                        name: "bob".to_string(),
                    },
                ],
            },
            motd: "Hello".to_string(),
            icon: Some("data:image/png;base64,AAAA".to_string()),
            version: Version {
                protocol: 763,
                broadcast: "1.20".to_string(),
            },
            chat: ChatStatus {
                preview: false,
                signing: true,
            },
        }
    );
}

#[test]
fn summary_of_a_java_answer_with_bare_description() {
    let answer = JavaResponse {
        description: Chat::String("Just text".to_string()),
        players: JavaPlayers {
            max: 1,
            online: 0,
            sample: None,
        },
        favicon: None,
        enforces_secure_chat: None,
        previews_chat: Some(true),
        ..java_answer()
    };
    let summary = summarize_java(0, answer);
    assert_eq!(summary.motd, "Just text");
    assert_eq!(summary.players.sample, vec![]);
    assert_eq!(summary.icon, None);
    assert_eq!(
        summary.chat,
        ChatStatus {
            preview: true,
            signing: false
        }
    );
}

#[test]
fn summary_of_a_bedrock_answer() {
    assert_eq!(
        summarize_bedrock(44, bedrock_answer()),
        MCPingResponse {
            latency: 44,
            players: Players {
                online: 2,
                maximum: 10,
                sample: vec![],
            },
            motd: "Server".to_string(),
            icon: None,
            version: Version {
                protocol: 503,
                broadcast: "1.19".to_string(),
            },
            chat: ChatStatus {
                preview: false,
                signing: false,
            },
        }
    );
}

#[test]
fn summary_of_a_bedrock_answer_without_counts() {
    let answer = BedrockResponse {
        players_online: None,
        players_max: None,
        protocol_version: None,
        ..bedrock_answer()
    };
    let summary = summarize_bedrock(1, answer);
    assert_eq!(summary.players.online, -1);
    assert_eq!(summary.players.maximum, -1);
    assert_eq!(summary.version.protocol, -1);
}

#[test]
fn limits_of_the_probes_that_are_run_for_callers() {
    let java = java_probe("mc.hypixel.net".to_string());
    assert_eq!(java.server_address, "mc.hypixel.net");
    assert_eq!(java.timeout, Some(1000));
    assert_eq!(JAVA_DEADLINE_MS, 5000);
    assert_eq!(deadline(Edition::Java), Some(5000));
    assert_eq!(deadline(Edition::Bedrock), None);

    let bedrock = bedrock_probe("play.nethergames.org".to_string());
    assert_eq!(bedrock.server_address, "play.nethergames.org");
    assert_eq!(bedrock.timeout, Some(5000));
    assert_eq!(bedrock.tries, 5);
    assert_eq!(bedrock.wait_to_try, Some(100));
    let any = IpAddress::V4([0, 0, 0, 0]);
    assert_eq!(
        bedrock.socket_addresses,
        vec![
            SocketAddress { ip: any, port: 25567 },
            SocketAddress { ip: any, port: 25568 },
            SocketAddress { ip: any, port: 25569 },
        ]
    );
}
