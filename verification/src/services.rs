//! The state of the services that players depend on, judged from what each
//! service answered.

use crate::structures::{
    MinecraftApiStatusEntry, MojangApiStatus, MojangSessionServerStatus, Status,
    XblStatusCoreService, XblStatusName, XblStatusResponse,
};
use crate::text::same_text;
use vstd::prelude::*;
use vstd::string::*;

verus! {

/// What asking a service came to.
#[derive(Debug, Clone, PartialEq, Eq)]
pub enum Fetched<T> {
    /// The service could not be reached.
    Unreachable,
    /// The service answered, but not with what was expected.
    Malformed,
    /// The service answered with this.
    Body(T),
}

/// The name of the profile that is looked up.
pub open spec fn probe_name() -> Seq<char> {
    "mcping_me"@
}

/// The identifier of the profile that is looked up.
pub open spec fn probe_id() -> Seq<char> {
    "bbb47773bb48438e806b7731b2724e84"@
}

/// Whether the Xbox service or title `id` matters to players of Minecraft.
pub open spec fn is_adjacent(id: i64) -> bool {
    id == 13 || id == 16 || id == 20 || id == 22 || id == 23 || id == 24 || id == 25
}

/// Whether one of the scenarios of `service` is the one its state names.
pub open spec fn scenario_hit(service: XblStatusCoreService) -> bool {
    exists|k: int|
        0 <= k < service.possible_scenarios@.len() && (
        #[trigger] service.possible_scenarios@[k]).id == service.status.id
}

/// What one Xbox service or title says about play: nothing where it does not
/// matter, definite problems where it is impacted or a scenario is hit,
/// possible problems where its state is spelled in an unknown way.
pub open spec fn service_status(service: XblStatusCoreService) -> Status {
    if !is_adjacent(service.id) {
        Status::Operational
    } else if service.status.name is Impacted || scenario_hit(service) {
        Status::DefiniteProblems
    } else if service.status.name is Unknown {
        Status::PossibleProblems
    } else {
        Status::Operational
    }
}

/// The worst that any of `services` says.
pub open spec fn worst_of(services: Seq<XblStatusCoreService>) -> Status
    decreases services.len(),
{
    if services.len() == 0 {
        Status::Operational
    } else {
        worst_of(services.drop_last()).worse(service_status(services.last()))
    }
}

/// What the Xbox status service's answer says: possible problems where the
/// overall state is not `None`, and the worst of what the services and
/// titles say.
pub open spec fn xbox_answer_status(response: XblStatusResponse) -> Status {
    let overall = if response.status.overall.state is Unaffected {
        Status::Operational
    } else {
        Status::PossibleProblems
    };
    overall.worse(worst_of(response.core_services@)).worse(worst_of(response.titles@))
}

/// The state of the Xbox services.
pub open spec fn xbox_status_of(fetched: Fetched<XblStatusResponse>) -> Status {
    match fetched {
        Fetched::Unreachable => Status::DefiniteProblems,
        Fetched::Malformed => Status::PossibleProblems,
        Fetched::Body(response) => xbox_answer_status(response),
    }
}

/// The state of a service that was asked for the profile: fine only where it
/// returned that profile.
pub open spec fn profile_status_of(fetched: Fetched<(Seq<char>, Seq<char>)>) -> Status {
    match fetched {
        Fetched::Unreachable => Status::DefiniteProblems,
        Fetched::Malformed => Status::PossibleProblems,
        Fetched::Body((id, name)) => if name == probe_name() && id == probe_id() {
            Status::Operational
        } else {
            Status::DefiniteProblems
        },
    }
}

/// Whether `entries` hold the profile with `id` and `name`.
pub open spec fn holds_entry(
    entries: Seq<MinecraftApiStatusEntry>,
    id: Seq<char>,
    name: Seq<char>,
) -> bool {
    exists|k: int|
        0 <= k < entries.len() && (#[trigger] entries[k]).id@ == id && entries[k].name@ == name
}

/// Whether `entries` are the three profiles that the bulk lookup asks for,
/// in any order.
pub open spec fn is_expected_lookup(entries: Seq<MinecraftApiStatusEntry>) -> bool {
    &&& entries.len() == 3
    &&& holds_entry(entries, probe_id(), probe_name())
    &&& holds_entry(entries, "c5ff333a8ef3423babac8d0338f731d5"@, "pawlet"@)
    &&& holds_entry(entries, "b5dcf182a943402bb75ba057a6508fed"@, "valkyrie_pilot"@)
}

/// The state of the Minecraft API.
pub open spec fn minecraft_status_of(fetched: Fetched<Vec<MinecraftApiStatusEntry>>) -> Status {
    match fetched {
        Fetched::Unreachable => Status::DefiniteProblems,
        Fetched::Malformed => Status::PossibleProblems,
        Fetched::Body(entries) => if is_expected_lookup(entries@) {
            Status::Operational
        } else {
            Status::PossibleProblems
        },
    }
}

fn adjacent(id: i64) -> (r: bool)
    ensures
        r == is_adjacent(id),
{
    id == 13 || id == 16 || id == 20 || id == 22 || id == 23 || id == 24 || id == 25
}

fn service_state(service: &XblStatusCoreService) -> (status: Status)
    ensures
        status == service_status(*service),
{
    if !adjacent(service.id) {
        return Status::Operational;
    }
    let mut status = Status::Operational;
    match &service.status.name {
        XblStatusName::Impacted => status.make_at_least(Status::DefiniteProblems),
        XblStatusName::Unaffected => {},
        XblStatusName::Unknown(_) => status.make_at_least(Status::PossibleProblems),
    }
    let mut i: usize = 0;
    let mut hit = false;
    while i < service.possible_scenarios.len()
        invariant
            i <= service.possible_scenarios.len(),
            hit <==> exists|k: int|
                0 <= k < i && (#[trigger] service.possible_scenarios@[k]).id == service.status.id,
        decreases service.possible_scenarios.len() - i,
    {
        if service.possible_scenarios[i].id == service.status.id {
            hit = true;
        }
        i = i + 1;
    }
    if hit {
        status.make_at_least(Status::DefiniteProblems);
    }
    status
}

fn worst_state(services: &Vec<XblStatusCoreService>) -> (status: Status)
    ensures
        status == worst_of(services@),
{
    let mut status = Status::Operational;
    let mut i: usize = 0;
    while i < services.len()
        invariant
            i <= services.len(),
            status == worst_of(services@.take(i as int)),
        decreases services.len() - i,
    {
        let one = service_state(&services[i]);
        status.make_at_least(one);
        i = i + 1;
        proof {
            assert(services@.take(i as int).drop_last() =~= services@.take(i - 1));
        }
    }
    proof {
        assert(services@.take(i as int) =~= services@);
    }
    status
}

/// The state of the Xbox services, from what the Xbox status service
/// answered.
pub fn xbox_status(fetched: &Fetched<XblStatusResponse>) -> (status: Status)
    ensures
        status == xbox_status_of(*fetched),
{
    match fetched {
        Fetched::Unreachable => Status::DefiniteProblems,
        Fetched::Malformed => Status::PossibleProblems,
        Fetched::Body(response) => {
            let mut status = Status::Operational;
            match &response.status.overall.state {
                XblStatusName::Unaffected => {},
                _ => status.make_at_least(Status::PossibleProblems),
            }
            status.make_at_least(worst_state(&response.core_services));
            status.make_at_least(worst_state(&response.titles));
            status
        },
    }
}

fn profile_status(fetched: Fetched<(&str, &str)>) -> (status: Status)
    ensures
        status == profile_status_of(
            match fetched {
                Fetched::Unreachable => Fetched::Unreachable,
                Fetched::Malformed => Fetched::Malformed,
                Fetched::Body((id, name)) => Fetched::Body((id@, name@)),
            },
        ),
{
    match fetched {
        Fetched::Unreachable => Status::DefiniteProblems,
        Fetched::Malformed => Status::PossibleProblems,
        Fetched::Body((id, name)) => {
            if !same_text(name, "mcping_me") || !same_text(id, "bbb47773bb48438e806b7731b2724e84") {
                Status::DefiniteProblems
            } else {
                Status::Operational
            }
        },
    }
}

/// The profile that the session server returned, as texts.
pub open spec fn session_profile(fetched: Fetched<MojangSessionServerStatus>) -> Fetched<
    (Seq<char>, Seq<char>),
> {
    match fetched {
        Fetched::Unreachable => Fetched::Unreachable,
        Fetched::Malformed => Fetched::Malformed,
        Fetched::Body(profile) => Fetched::Body((profile.id@, profile.name@)),
    }
}

/// The profile that the Mojang API returned, as texts.
pub open spec fn mojang_profile(fetched: Fetched<MojangApiStatus>) -> Fetched<
    (Seq<char>, Seq<char>),
> {
    match fetched {
        Fetched::Unreachable => Fetched::Unreachable,
        Fetched::Malformed => Fetched::Malformed,
        Fetched::Body(profile) => Fetched::Body((profile.id@, profile.name@)),
    }
}

/// The state of the session server, from the profile it returned.
pub fn session_status(fetched: &Fetched<MojangSessionServerStatus>) -> (status: Status)
    ensures
        status == profile_status_of(session_profile(*fetched)),
{
    match fetched {
        Fetched::Unreachable => profile_status(Fetched::Unreachable),
        Fetched::Malformed => profile_status(Fetched::Malformed),
        Fetched::Body(profile) => profile_status(
            Fetched::Body((profile.id.as_str(), profile.name.as_str())),
        ),
    }
}

/// The state of the Mojang API, from the profile it returned.
pub fn mojang_status(fetched: &Fetched<MojangApiStatus>) -> (status: Status)
    ensures
        status == profile_status_of(mojang_profile(*fetched)),
{
    match fetched {
        Fetched::Unreachable => profile_status(Fetched::Unreachable),
        Fetched::Malformed => profile_status(Fetched::Malformed),
        Fetched::Body(profile) => profile_status(
            Fetched::Body((profile.id.as_str(), profile.name.as_str())),
        ),
    }
}

fn has_entry(entries: &Vec<MinecraftApiStatusEntry>, id: &str, name: &str) -> (found: bool)
    ensures
        found == holds_entry(entries@, id@, name@),
{
    let mut i: usize = 0;
    while i < entries.len()
        invariant
            i <= entries.len(),
            forall|k: int|
                0 <= k < i ==> !((#[trigger] entries@[k]).id@ == id@ && entries@[k].name@ == name@),
        decreases entries.len() - i,
    {
        if same_text(entries[i].id.as_str(), id) && same_text(entries[i].name.as_str(), name) {
            return true;
        }
        i = i + 1;
    }
    false
}

/// The state of the Minecraft API, from the profiles that the bulk lookup
/// returned.
pub fn minecraft_status(fetched: &Fetched<Vec<MinecraftApiStatusEntry>>) -> (status: Status)
    ensures
        status == minecraft_status_of(*fetched),
{
    match fetched {
        Fetched::Unreachable => Status::DefiniteProblems,
        Fetched::Malformed => Status::PossibleProblems,
        Fetched::Body(entries) => {
            if entries.len() == 3 && has_entry(
                entries,
                "bbb47773bb48438e806b7731b2724e84",
                "mcping_me",
            ) && has_entry(entries, "c5ff333a8ef3423babac8d0338f731d5", "pawlet") && has_entry(
                entries,
                "b5dcf182a943402bb75ba057a6508fed",
                "valkyrie_pilot",
            ) {
                Status::Operational
            } else {
                Status::PossibleProblems
            }
        },
    }
}

/// A service that could not be reached has definite problems, whichever
/// service it is.
pub proof fn lemma_unreachable_is_definite()
    ensures
        xbox_status_of(Fetched::Unreachable) == Status::DefiniteProblems,
        profile_status_of(Fetched::Unreachable) == Status::DefiniteProblems,
        minecraft_status_of(Fetched::Unreachable) == Status::DefiniteProblems,
{
}

/// Making a state at least as bad as another never makes it better, and
/// gives a state that is as bad as both.
pub proof fn lemma_worse_is_upper_bound(a: Status, b: Status)
    ensures
        a.worse(b).rank() >= a.rank(),
        a.worse(b).rank() >= b.rank(),
        a.worse(b) == a || a.worse(b) == b,
        a.worse(b) == b.worse(a),
{
}

} // verus!
