//! From a probe's answer to the summary that callers get, and the limits
//! that a probe for a caller runs under.

use crate::bedrock::{usual_bind_addresses, Bedrock, BedrockResponse, BedrockResponseView};
use crate::java::{Java, JavaResponse, JavaResponseView, Player, PlayerView};
use crate::structures::{
    ChatStatus, MCPingResponse, MCPingResponseView, PlayerSample, PlayerSampleView, Players,
    PlayersView, Version, VersionView,
};
use crate::web::Edition;
use vstd::prelude::*;

verus! {

/// How long a Java probe may take in all, in milliseconds.
pub const JAVA_DEADLINE_MS: u64 = 5000;

/// How long one read or write of a Java probe may take, in milliseconds.
pub const JAVA_SOCKET_TIMEOUT_MS: u64 = 1000;

/// How long one read or write of a Bedrock probe may take, in milliseconds.
pub const BEDROCK_SOCKET_TIMEOUT_MS: u64 = 5000;

/// How many pings a Bedrock probe sends.
pub const BEDROCK_TRIES: usize = 5;

/// How long a Bedrock probe waits after each ping, in milliseconds.
pub const BEDROCK_WAIT_MS: u64 = 100;

/// The number that stands for a count that the server did not give.
pub const UNKNOWN: i64 = -1;

/// How long a probe for a caller may take in all, in milliseconds: five
/// seconds for Java Edition, no limit beyond the socket's for Bedrock
/// Edition, whose pings are few and timed.
pub open spec fn deadline_of(edition: Edition) -> Option<u64> {
    match edition {
        Edition::Java => Some(5000u64),
        Edition::Bedrock => None,
    }
}

/// How long a probe for a caller may take in all, in milliseconds.
pub fn deadline(edition: Edition) -> (limit: Option<u64>)
    ensures
        limit == deadline_of(edition),
{
    match edition {
        Edition::Java => Some(JAVA_DEADLINE_MS),
        Edition::Bedrock => None,
    }
}

/// The Java probe that is run for a caller: reads and writes may take a
/// second each.
pub fn java_probe(address: String) -> (config: Java)
    ensures
        config.server_address == address,
        config.timeout == Some(1000u64),
{
    Java { server_address: address, timeout: Some(JAVA_SOCKET_TIMEOUT_MS) }
}

/// The Bedrock probe that is run for a caller: five pings a tenth of a
/// second apart, five seconds for each read and write, and the usual local
/// addresses.
pub fn bedrock_probe(address: String) -> (config: Bedrock)
    ensures
        config.server_address == address,
        config.timeout == Some(5000u64),
        config.tries == 5,
        config.wait_to_try == Some(100u64),
        config.socket_addresses@ == usual_bind_addresses(),
{
    let usual = Bedrock::default();
    Bedrock {
        server_address: address,
        timeout: Some(BEDROCK_SOCKET_TIMEOUT_MS),
        tries: BEDROCK_TRIES,
        wait_to_try: Some(BEDROCK_WAIT_MS),
        socket_addresses: usual.socket_addresses,
    }
}

/// A player of an answer as a player of the summary.
pub open spec fn sample_of(player: PlayerView) -> PlayerSampleView {
    PlayerSampleView { uuid: player.id, name: player.name }
}

/// The players of an answer as the players of the summary: all of them in
/// their order, none where the server named none.
pub open spec fn samples_of(sample: Option<Seq<PlayerView>>) -> Seq<PlayerSampleView> {
    match sample {
        Some(players) => players.map_values(|p: PlayerView| sample_of(p)),
        None => Seq::empty(),
    }
}

/// `flag`, or `false` where the server did not say.
pub open spec fn flag_or_false(flag: Option<bool>) -> bool {
    match flag {
        Some(b) => b,
        None => false,
    }
}

/// `count`, or -1 where the server did not say.
pub open spec fn count_or_unknown(count: Option<i64>) -> i64 {
    match count {
        Some(n) => n,
        None => -1i64,
    }
}

/// The summary of a Java server's answer that took `latency` milliseconds.
pub open spec fn java_summary(latency: u64, response: JavaResponseView) -> MCPingResponseView {
    MCPingResponseView {
        latency,
        players: PlayersView {
            online: response.players.online,
            maximum: response.players.max,
            sample: samples_of(response.players.sample),
        },
        motd: response.description,
        icon: response.favicon,
        version: VersionView {
            protocol: response.version.protocol,
            broadcast: response.version.name,
        },
        chat: ChatStatus {
            signing: flag_or_false(response.enforces_secure_chat),
            preview: flag_or_false(response.previews_chat),
        },
    }
}

/// The summary of a Bedrock server's answer that took `latency`
/// milliseconds. It has no players by name, no icon and no chat rules.
pub open spec fn bedrock_summary(latency: u64, response: BedrockResponseView) -> MCPingResponseView {
    MCPingResponseView {
        latency,
        players: PlayersView {
            online: count_or_unknown(response.players_online),
            maximum: count_or_unknown(response.players_max),
            sample: Seq::empty(),
        },
        motd: response.motd_1,
        icon: None,
        version: VersionView {
            protocol: count_or_unknown(response.protocol_version),
            broadcast: response.version_name,
        },
        chat: ChatStatus { signing: false, preview: false },
    }
}

fn convert_sample(sample: &Option<Vec<Player>>) -> (out: Vec<PlayerSample>)
    ensures
        out.deep_view() == samples_of(sample.deep_view()),
{
    let mut out: Vec<PlayerSample> = Vec::new();
    match sample {
        Some(players) => {
            let ghost wanted = players.deep_view().map_values(|p: PlayerView| sample_of(p));
            let mut i: usize = 0;
            while i < players.len()
                invariant
                    i <= players.len(),
                    wanted == players.deep_view().map_values(|p: PlayerView| sample_of(p)),
                    out.deep_view() == wanted.take(i as int),
                decreases players.len() - i,
            {
                let ghost done = out.deep_view();
                let player = &players[i];
                out.push(PlayerSample { uuid: player.id.clone(), name: player.name.clone() });
                i = i + 1;
                proof {
                    assert(out.deep_view() =~= done.push(sample_of(players.deep_view()[i - 1])));
                    assert(out.deep_view() =~= wanted.take(i as int));
                }
            }
            proof {
                assert(wanted.take(i as int) =~= wanted);
            }
        },
        None => {
            assert(out.deep_view() =~= Seq::<PlayerSampleView>::empty());
        },
    }
    out
}

/// Turns a Java server's answer into the summary.
pub fn summarize_java(latency: u64, response: JavaResponse) -> (summary: MCPingResponse)
    ensures
        summary@ == java_summary(latency, response@),
{
    let motd = response.description.text().to_owned();
    MCPingResponse {
        latency,
        players: Players {
            online: response.players.online,
            maximum: response.players.max,
            sample: convert_sample(&response.players.sample),
        },
        motd,
        icon: response.favicon,
        version: Version { protocol: response.version.protocol, broadcast: response.version.name },
        chat: ChatStatus {
            signing: match response.enforces_secure_chat {
                Some(b) => b,
                None => false,
            },
            preview: match response.previews_chat {
                Some(b) => b,
                None => false,
            },
        },
    }
}

/// Turns a Bedrock server's answer into the summary.
pub fn summarize_bedrock(latency: u64, response: BedrockResponse) -> (summary: MCPingResponse)
    ensures
        summary@ == bedrock_summary(latency, response@),
{
    let sample: Vec<PlayerSample> = Vec::new();
    proof {
        assert(sample.deep_view() =~= Seq::<PlayerSampleView>::empty());
    }
    MCPingResponse {
        latency,
        players: Players {
            online: match response.players_online {
                Some(n) => n,
                None => UNKNOWN,
            },
            maximum: match response.players_max {
                Some(n) => n,
                None => UNKNOWN,
            },
            sample,
        },
        motd: response.motd_1,
        icon: None,
        version: Version {
            protocol: match response.protocol_version {
                Some(n) => n,
                None => UNKNOWN,
            },
            broadcast: response.version_name,
        },
        chat: ChatStatus::default(),
    }
}

/// A Bedrock answer without a player count is summarized with -1 players
/// online, whatever else it holds.
pub proof fn lemma_missing_count_is_unknown(latency: u64, response: BedrockResponseView)
    requires
        response.players_online is None,
    ensures
        bedrock_summary(latency, response).players.online == -1,
{
}

/// A Java answer's message is its description's text, in whichever of the
/// two forms the description came.
pub proof fn lemma_motd_is_description(latency: u64, response: JavaResponse)
    ensures
        java_summary(latency, response@).motd == response.description@,
        response.description matches crate::java::Chat::String(text) ==> java_summary(
            latency,
            response@,
        ).motd == text@,
{
}

} // verus!
