//! What is handed to callers: the summary of a probe and the state of the
//! services that players depend on.

use crate::text::same_text;
use vstd::prelude::*;
use vstd::string::*;

verus! {

/// How well a service works. Later variants are worse.
#[derive(Clone, Copy, Debug, PartialOrd, Ord, PartialEq, Eq)]
pub enum Status {
    Operational,
    PossibleProblems,
    DefiniteProblems,
}

impl Status {
    /// How bad this state is: 0, 1 or 2.
    pub open spec fn rank(self) -> int {
        match self {
            Status::Operational => 0,
            Status::PossibleProblems => 1,
            Status::DefiniteProblems => 2,
        }
    }

    /// The worse of two states.
    pub open spec fn worse(self, other: Status) -> Status {
        if other.rank() > self.rank() {
            other
        } else {
            self
        }
    }

    /// Makes this state at least as bad as `other`.
    pub fn make_at_least(&mut self, other: Self)
        ensures
            *final(self) == old(self).worse(other),
    {
        let worse = match (*self, other) {
            (Status::DefiniteProblems, _) => Status::DefiniteProblems,
            (_, Status::DefiniteProblems) => Status::DefiniteProblems,
            (Status::PossibleProblems, _) => Status::PossibleProblems,
            (_, Status::PossibleProblems) => Status::PossibleProblems,
            _ => Status::Operational,
        };
        *self = worse;
    }

    /// The name of this state.
    pub fn to_string(&self) -> (name: String)
        ensures
            name@ == match *self {
                Status::Operational => "Operational"@,
                Status::PossibleProblems => "PossibleProblems"@,
                Status::DefiniteProblems => "DefiniteProblems"@,
            },
    {
        match self {
            Status::Operational => "Operational".to_owned(),
            Status::PossibleProblems => "PossibleProblems".to_owned(),
            Status::DefiniteProblems => "DefiniteProblems".to_owned(),
        }
    }
}

/// The state of each service.
#[derive(Debug, Clone, Copy, PartialEq, Eq)]
pub struct ServicesResponse {
    pub xbox: Status,
    pub mojang_session: Status,
    pub mojang_api: Status,
    pub minecraft_api: Status,
}

/// What the Xbox status service answers.
#[derive(Clone, Debug, PartialEq, Eq)]
pub struct XblStatusResponse {
    pub status: XblStatusStatus,
    pub core_services: Vec<XblStatusCoreService>,
    pub titles: Vec<XblStatusCoreService>,
}

#[derive(Clone, Debug, PartialEq, Eq)]
pub struct XblStatusStatus {
    pub overall: XblStatusStatusItem,
}

#[derive(Clone, Debug, PartialEq, Eq)]
pub struct XblStatusStatusItem {
    pub state: XblStatusName,
}

/// One service or title and the scenarios that may be affected.
#[derive(Clone, Debug, PartialEq, Eq)]
pub struct XblStatusCoreService {
    pub id: i64,
    pub status: XblStatusCoreServiceStatus,
    pub possible_scenarios: Vec<XblStatusCoreServiceScenario>,
}

#[derive(Clone, Debug, PartialEq, Eq)]
pub struct XblStatusCoreServiceScenario {
    pub id: i64,
}

/// The name of a state as the Xbox status service spells it.
#[derive(Clone, Debug, Eq, PartialEq)]
pub enum XblStatusName {
    Impacted,
    /// Spelled `None`: nothing is impacted.
    Unaffected,
    /// A name that is spelled in another way.
    Unknown(String),
}

pub enum XblStatusNameView {
    Impacted,
    Unaffected,
    Unknown(Seq<char>),
}

impl View for XblStatusName {
    type V = XblStatusNameView;

    open spec fn view(&self) -> XblStatusNameView {
        match self {
            XblStatusName::Impacted => XblStatusNameView::Impacted,
            XblStatusName::Unaffected => XblStatusNameView::Unaffected,
            XblStatusName::Unknown(name) => XblStatusNameView::Unknown(name@),
        }
    }
}

/// The state that `name` spells.
pub open spec fn status_name_of(name: Seq<char>) -> XblStatusNameView {
    if name == "Impacted"@ {
        XblStatusNameView::Impacted
    } else if name == "None"@ {
        XblStatusNameView::Unaffected
    } else {
        XblStatusNameView::Unknown(name)
    }
}

/// How `name` is spelled.
pub open spec fn spelling_of(name: XblStatusNameView) -> Seq<char> {
    match name {
        XblStatusNameView::Impacted => "Impacted"@,
        XblStatusNameView::Unaffected => "None"@,
        XblStatusNameView::Unknown(text) => text,
    }
}

impl vstd::std_specs::convert::FromSpecImpl<String> for XblStatusName {
    open spec fn obeys_from_spec() -> bool {
        true
    }

    open spec fn from_spec(value: String) -> Self {
        if value@ == "Impacted"@ {
            XblStatusName::Impacted
        } else if value@ == "None"@ {
            XblStatusName::Unaffected
        } else {
            XblStatusName::Unknown(value)
        }
    }
}

impl From<String> for XblStatusName {
    /// The state that `value` spells. The spelling is exact: case matters.
    fn from(value: String) -> (name: Self)
        ensures
            name@ == status_name_of(value@),
    {
        if same_text(value.as_str(), "Impacted") {
            XblStatusName::Impacted
        } else if same_text(value.as_str(), "None") {
            XblStatusName::Unaffected
        } else {
            XblStatusName::Unknown(value)
        }
    }
}

impl XblStatusName {
    /// How this state is spelled.
    pub fn into_string(self) -> (text: String)
        ensures
            text@ == spelling_of(self@),
    {
        match self {
            XblStatusName::Impacted => "Impacted".to_owned(),
            XblStatusName::Unaffected => "None".to_owned(),
            XblStatusName::Unknown(unknown) => unknown,
        }
    }
}

/// Spelling a state and reading it back gives the state.
pub proof fn lemma_status_name_round_trip(name: XblStatusNameView)
    requires
        name matches XblStatusNameView::Unknown(text) ==> text != "Impacted"@ && text != "None"@,
    ensures
        status_name_of(spelling_of(name)) == name,
{
    reveal_strlit("Impacted");
    reveal_strlit("None");
    match name {
        XblStatusNameView::Impacted => {
            assert("Impacted"@.len() == 8);
        },
        XblStatusNameView::Unaffected => {
            assert("None"@.len() == 4);
            assert("Impacted"@.len() == 8);
        },
        XblStatusNameView::Unknown(_) => {},
    }
}

#[derive(Clone, Debug, PartialEq, Eq)]
pub struct XblStatusCoreServiceStatus {
    pub id: i64,
    pub name: XblStatusName,
}

/// The profile that the session server returns.
#[derive(Clone, Debug, PartialEq, Eq)]
pub struct MojangSessionServerStatus {
    pub id: String,
    pub name: String,
}

/// The profile that the Mojang API returns.
#[derive(Clone, Debug, PartialEq, Eq)]
pub struct MojangApiStatus {
    pub id: String,
    pub name: String,
}

/// One profile of the bulk lookup.
#[derive(Clone, Debug, Eq, PartialEq)]
pub struct MinecraftApiStatusEntry {
    pub id: String,
    pub name: String,
}

/// Whether chat is signed and previewed.
#[derive(Debug, Clone, Copy, PartialEq, Eq)]
pub struct ChatStatus {
    pub preview: bool,
    pub signing: bool,
}

impl Default for ChatStatus {
    /// Neither signed nor previewed.
    fn default() -> (chat: Self)
        ensures
            chat == (ChatStatus { preview: false, signing: false }),
    {
        ChatStatus { preview: false, signing: false }
    }
}

/// The version a server runs.
#[derive(Debug, Clone, PartialEq, Eq)]
pub struct Version {
    pub protocol: i64,
    /// The version's name as the server announces it.
    pub broadcast: String,
}

/// A player who is online.
#[derive(Debug, Clone, PartialEq, Eq)]
pub struct PlayerSample {
    pub uuid: String,
    pub name: String,
}

/// How many players there are and may be, and some of them.
#[derive(Debug, Clone, PartialEq, Eq)]
pub struct Players {
    pub online: i64,
    pub maximum: i64,
    pub sample: Vec<PlayerSample>,
}

/// The summary of one probe, the same for both editions.
#[derive(Debug, Clone, PartialEq, Eq)]
pub struct MCPingResponse {
    /// How long the server took to answer, in milliseconds.
    pub latency: u64,
    pub players: Players,
    /// The message of the day.
    pub motd: String,
    /// The server's icon as a data URL.
    pub icon: Option<String>,
    pub version: Version,
    pub chat: ChatStatus,
}

pub struct VersionView {
    pub protocol: i64,
    pub broadcast: Seq<char>,
}

pub struct PlayerSampleView {
    pub uuid: Seq<char>,
    pub name: Seq<char>,
}

pub struct PlayersView {
    pub online: i64,
    pub maximum: i64,
    pub sample: Seq<PlayerSampleView>,
}

pub struct MCPingResponseView {
    pub latency: u64,
    pub players: PlayersView,
    pub motd: Seq<char>,
    pub icon: Option<Seq<char>>,
    pub version: VersionView,
    pub chat: ChatStatus,
}

impl View for Version {
    type V = VersionView;

    open spec fn view(&self) -> VersionView {
        VersionView { protocol: self.protocol, broadcast: self.broadcast@ }
    }
}

impl DeepView for PlayerSample {
    type V = PlayerSampleView;

    open spec fn deep_view(&self) -> PlayerSampleView {
        PlayerSampleView { uuid: self.uuid@, name: self.name@ }
    }
}

impl View for PlayerSample {
    type V = PlayerSampleView;

    open spec fn view(&self) -> PlayerSampleView {
        self.deep_view()
    }
}

impl View for Players {
    type V = PlayersView;

    open spec fn view(&self) -> PlayersView {
        PlayersView {
            online: self.online,
            maximum: self.maximum,
            sample: self.sample.deep_view(),
        }
    }
}

impl View for MCPingResponse {
    type V = MCPingResponseView;

    open spec fn view(&self) -> MCPingResponseView {
        MCPingResponseView {
            latency: self.latency,
            players: self.players@,
            motd: self.motd@,
            icon: self.icon.deep_view(),
            version: self.version@,
            chat: self.chat,
        }
    }
}

} // verus!
