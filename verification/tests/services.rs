use mcping::services::{minecraft_status, mojang_status, session_status, xbox_status, Fetched};
use mcping::structures::{
    ChatStatus, MinecraftApiStatusEntry, MojangApiStatus, MojangSessionServerStatus, Status,
    XblStatusCoreService, XblStatusCoreServiceScenario, XblStatusCoreServiceStatus, XblStatusName,
    XblStatusResponse, XblStatusStatus, XblStatusStatusItem,
};

fn service(id: i64, status_id: i64, name: XblStatusName, scenarios: &[i64]) -> XblStatusCoreService {
    XblStatusCoreService {
        id,
        status: XblStatusCoreServiceStatus {
            id: status_id,
            name,
        },
        possible_scenarios: scenarios
            .iter()
            .map(|&id| XblStatusCoreServiceScenario { id })
            .collect(),
    }
}

fn answer(
    overall: XblStatusName,
    core_services: Vec<XblStatusCoreService>,
    titles: Vec<XblStatusCoreService>,
) -> Fetched<XblStatusResponse> {
    Fetched::Body(XblStatusResponse {
        status: XblStatusStatus {
            overall: XblStatusStatusItem { state: overall },
        },
        core_services,
        titles,
    })
}

fn entry(id: &str, name: &str) -> MinecraftApiStatusEntry {
    MinecraftApiStatusEntry {
        id: id.to_string(),
        name: name.to_string(),
    }
}

const PROBE_ID: &str = "bbb47773bb48438e806b7731b2724e84";

#[test]
fn status_gets_worse_and_never_better() {
    let all = [
        Status::Operational,
        Status::PossibleProblems,
        Status::DefiniteProblems,
    ];
    for (i, &a) in all.iter().enumerate() {
        for (j, &b) in all.iter().enumerate() {
            let mut status = a;
            status.make_at_least(b);
            assert_eq!(status, all[i.max(j)]);
            assert_eq!(status, a.max(b));
        }
    }
}

#[test]
fn status_names() {
    assert_eq!(Status::Operational.to_string(), "Operational");
    assert_eq!(Status::PossibleProblems.to_string(), "PossibleProblems");
    assert_eq!(Status::DefiniteProblems.to_string(), "DefiniteProblems");
}

#[test]
fn xbl_status_names() {
    assert_eq!(
        XblStatusName::from("Impacted".to_string()),
        XblStatusName::Impacted
    );
    assert_eq!(
        XblStatusName::from("None".to_string()),
        XblStatusName::Unaffected
    );
    assert_eq!(
        XblStatusName::from("none".to_string()),
        XblStatusName::Unknown("none".to_string())
    );
    assert_eq!(
        XblStatusName::from(String::new()),
        XblStatusName::Unknown(String::new())
    );
    assert_eq!(XblStatusName::Impacted.into_string(), "Impacted");
    assert_eq!(XblStatusName::Unaffected.into_string(), "None");
    assert_eq!(
        XblStatusName::Unknown("Degraded".to_string()).into_string(),
        "Degraded"
    );
}

#[test]
fn chat_status_default() {
    assert_eq!(
        ChatStatus::default(),
        ChatStatus {
            preview: false,
            signing: false
        }
    );
}

#[test]
fn xbox_unreachable_or_malformed() {
    assert_eq!(
        xbox_status(&Fetched::Unreachable),
        Status::DefiniteProblems
    );
    assert_eq!(xbox_status(&Fetched::Malformed), Status::PossibleProblems);
}

#[test]
fn xbox_all_well() {
    let fetched = answer(
        XblStatusName::Unaffected,
        vec![
            service(13, 1, XblStatusName::Unaffected, &[2, 3]),
            service(1, 1, XblStatusName::Impacted, &[1]),
        ],
        vec![service(25, 9, XblStatusName::Unaffected, &[])],
    );
    assert_eq!(xbox_status(&fetched), Status::Operational);
    assert_eq!(
        xbox_status(&answer(XblStatusName::Unaffected, vec![], vec![])),
        Status::Operational
    );
}

#[test]
fn xbox_overall_state_matters() {
    assert_eq!(
        xbox_status(&answer(XblStatusName::Impacted, vec![], vec![])),
        Status::PossibleProblems
    );
    assert_eq!(
        xbox_status(&answer(
            XblStatusName::Unknown("?".to_string()),
            vec![],
            vec![]
        )),
        Status::PossibleProblems
    );
}

#[test]
fn xbox_adjacent_services_matter() {
    for id in [13, 16, 20, 22, 23, 24, 25] {
        let impacted = answer(
            XblStatusName::Unaffected,
            vec![service(id, 1, XblStatusName::Impacted, &[])],
            vec![],
        );
        assert_eq!(xbox_status(&impacted), Status::DefiniteProblems);
        let title = answer(
            XblStatusName::Unaffected,
            vec![],
            vec![service(id, 1, XblStatusName::Unknown("x".to_string()), &[])],
        );
        assert_eq!(xbox_status(&title), Status::PossibleProblems);
        let scenario = answer(
            XblStatusName::Unaffected,
            vec![service(id, 7, XblStatusName::Unaffected, &[5, 6, 7])],
            vec![],
        );
        assert_eq!(xbox_status(&scenario), Status::DefiniteProblems);
    }
    for id in [0, 12, 14, 21, 26, -13] {
        let elsewhere = answer(
            XblStatusName::Unaffected,
            vec![service(id, 7, XblStatusName::Impacted, &[7])],
            vec![service(id, 7, XblStatusName::Unknown("x".to_string()), &[7])],
        );
        assert_eq!(xbox_status(&elsewhere), Status::Operational);
    }
}

#[test]
fn xbox_worst_counts() {
    let fetched = answer(
        XblStatusName::Unaffected,
        vec![
            service(13, 1, XblStatusName::Unknown("x".to_string()), &[]),
            service(16, 1, XblStatusName::Unaffected, &[]),
        ],
        vec![
            service(20, 1, XblStatusName::Unaffected, &[]),
            service(22, 4, XblStatusName::Unaffected, &[4]),
        ],
    );
    assert_eq!(xbox_status(&fetched), Status::DefiniteProblems);
}

#[test]
fn profile_lookups() {
    let good = Fetched::Body(MojangSessionServerStatus {
        id: PROBE_ID.to_string(),
        name: "mcping_me".to_string(),
    });
    assert_eq!(session_status(&good), Status::Operational);
    let wrong_name = Fetched::Body(MojangSessionServerStatus {
        id: PROBE_ID.to_string(),
        name: "mcping_you".to_string(),
    });
    assert_eq!(session_status(&wrong_name), Status::DefiniteProblems);
    let wrong_id = Fetched::Body(MojangApiStatus {
        id: "0".to_string(),
        name: "mcping_me".to_string(),
    });
    assert_eq!(mojang_status(&wrong_id), Status::DefiniteProblems);
    let good = Fetched::Body(MojangApiStatus {
        id: PROBE_ID.to_string(),
        name: "mcping_me".to_string(),
    });
    assert_eq!(mojang_status(&good), Status::Operational);
    assert_eq!(
        session_status(&Fetched::Unreachable),
        Status::DefiniteProblems
    );
    assert_eq!(mojang_status(&Fetched::Malformed), Status::PossibleProblems);
}

#[test]
fn bulk_lookup() {
    let a = entry(PROBE_ID, "mcping_me");
    let b = entry("c5ff333a8ef3423babac8d0338f731d5", "pawlet");
    let c = entry("b5dcf182a943402bb75ba057a6508fed", "valkyrie_pilot");
    for order in [
        vec![a.clone(), b.clone(), c.clone()],
        vec![c.clone(), a.clone(), b.clone()],
        vec![b.clone(), c.clone(), a.clone()],
    ] {
        assert_eq!(
            minecraft_status(&Fetched::Body(order)),
            Status::Operational
        );
    }
    for wrong in [
        vec![],
        vec![a.clone(), b.clone()],
        vec![a.clone(), b.clone(), b.clone()],
        vec![a.clone(), b.clone(), c.clone(), c.clone()],
        vec![a.clone(), b.clone(), entry("0", "valkyrie_pilot")],
    ] {
        assert_eq!(
            minecraft_status(&Fetched::Body(wrong)),
            Status::PossibleProblems
        );
    }
    assert_eq!(
        minecraft_status(&Fetched::Unreachable),
        Status::DefiniteProblems
    );
    assert_eq!(
        minecraft_status(&Fetched::Malformed),
        Status::PossibleProblems
    );
}
