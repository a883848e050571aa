use porkbun_ddns::failure::{Exchange, Failure};
use porkbun_ddns::model::{
    Config, DnsRecord, DomainEntry, QueryRequest, QueryResponse, Target, UpdateRequest,
    UpdateResponse,
};
use porkbun_ddns::pipeline::{start, step, Action, Event, State};

fn home_config() -> Config {
    Config {
        secretkey: String::from("sk1_secret"),
        apikey: String::from("pk1_public"),
        domains: vec![DomainEntry {
            domain: String::from("example.com"),
            dns_entry_type: String::from("A"),
            subdomain: String::from("home"),
        }],
    }
}

fn home_target() -> Target {
    Target {
        secretkey: String::from("sk1_secret"),
        apikey: String::from("pk1_public"),
        entry: DomainEntry {
            domain: String::from("example.com"),
            dns_entry_type: String::from("A"),
            subdomain: String::from("home"),
        },
    }
}

fn record(content: &str) -> DnsRecord {
    DnsRecord {
        id: String::from("106926652"),
        name: String::from("home.example.com"),
        type_: String::from("A"),
        content: String::from(content),
        ttl: String::from("600"),
        prio: String::from("0"),
        notes: None,
    }
}

fn answer(contents: &[&str]) -> QueryResponse {
    QueryResponse {
        status: String::from("SUCCESS"),
        records: contents.iter().map(|content| record(content)).collect(),
    }
}

/// Feeds the events to a fresh run and collects every action, the first one
/// included. Stops at the first event that the machine does not take.
fn drive(path: &str, events: Vec<Event>) -> Vec<Action> {
    let (mut state, first) = start(String::from(path));
    let mut actions = vec![first];
    for event in events {
        match step(state.clone(), event) {
            Some((next, action)) => {
                state = next;
                actions.push(action);
            }
            None => return actions,
        }
    }
    actions
}

fn count_updates(actions: &[Action]) -> usize {
    actions.iter().filter(|action| matches!(action, Action::UpdateRecord { .. })).count()
}

#[test]
fn scenario_identical_address_is_not_updated() {
    let actions = drive(
        "ddns.json",
        vec![
            Event::ConfigLoaded(home_config()),
            Event::IpResolved { body: String::from("203.0.113.5") },
            Event::RecordsRetrieved(answer(&["203.0.113.5"])),
        ],
    );
    assert_eq!(actions.len(), 4);
    assert_eq!(actions[0], Action::LoadConfig { path: String::from("ddns.json") });
    assert_eq!(
        actions[1],
        Action::ResolveIp { url: String::from("https://checkip.amazonaws.com/") }
    );
    assert_eq!(
        actions[2],
        Action::QueryRecord {
            url: String::from(
                "https://porkbun.com/api/json/v3/dns/retrieveByNameType/example.com/A/home"
            ),
            query: QueryRequest {
                secretapikey: String::from("sk1_secret"),
                apikey: String::from("pk1_public"),
            },
        }
    );
    assert_eq!(
        actions[3],
        Action::Report {
            message: String::from(
                "Current IP: 203.0.113.5, identical to current DNS Entry, 203.0.113.5. Not updating."
            ),
        }
    );
    assert_eq!(count_updates(&actions), 0);
    assert_eq!(actions[3].exit_status(), Some(0));
}

#[test]
fn scenario_changed_address_is_updated() {
    let actions = drive(
        "ddns.json",
        vec![
            Event::ConfigLoaded(home_config()),
            Event::IpResolved { body: String::from("203.0.113.9") },
            Event::RecordsRetrieved(answer(&["203.0.113.5"])),
            Event::UpdateAnswered(UpdateResponse {
                status: String::from("SUCCESS"),
                message: None,
            }),
        ],
    );
    assert_eq!(actions.len(), 5);
    assert_eq!(
        actions[3],
        Action::UpdateRecord {
            url: String::from(
                "https://porkbun.com/api/json/v3/dns/editByNameType/example.com/A/home"
            ),
            update: UpdateRequest {
                secretapikey: String::from("sk1_secret"),
                apikey: String::from("pk1_public"),
                content: String::from("203.0.113.9"),
                ttl: String::from("600"),
            },
        }
    );
    assert_eq!(
        actions[4],
        Action::Report { message: String::from("Updated DNS Entry to 203.0.113.9") }
    );
    assert_eq!(count_updates(&actions), 1);
    assert_eq!(actions[4].exit_status(), Some(0));
}

#[test]
fn scenario_refused_update_is_reported_and_ends_well() {
    let actions = drive(
        "ddns.json",
        vec![
            Event::ConfigLoaded(home_config()),
            Event::IpResolved { body: String::from("203.0.113.9") },
            Event::RecordsRetrieved(answer(&["203.0.113.5"])),
            Event::UpdateAnswered(UpdateResponse {
                status: String::from("ERROR"),
                message: Some(String::from("Invalid API key.")),
            }),
        ],
    );
    assert_eq!(actions.len(), 5);
    assert_eq!(count_updates(&actions), 1);
    match &actions[4] {
        Action::Report { message } => {
            assert!(message.contains("Could not update DNS Entry. 203.0.113.5 -> 203.0.113.9"));
            assert_eq!(message, "Could not update DNS Entry. 203.0.113.5 -> 203.0.113.9");
        }
        other => panic!("the run should end with a report, not with {:?}", other),
    }
    assert_eq!(actions[4].exit_status(), Some(0));
}

#[test]
fn scenario_missing_config_file_names_the_path() {
    let actions = drive(
        "/etc/ddns/absent.json",
        vec![Event::ConfigUnreadable {
            detail: String::from("No such file or directory (os error 2)"),
        }],
    );
    assert_eq!(actions.len(), 2);
    assert_eq!(actions[0], Action::LoadConfig { path: String::from("/etc/ddns/absent.json") });
    match &actions[1] {
        Action::Abort { failure } => {
            assert_eq!(
                *failure,
                Failure::Io {
                    path: String::from("/etc/ddns/absent.json"),
                    detail: String::from("No such file or directory (os error 2)"),
                }
            );
            assert!(failure.message().contains("/etc/ddns/absent.json"));
        }
        other => panic!("the run should abort, not {:?}", other),
    }
    let status = actions[1].exit_status();
    assert!(matches!(status, Some(code) if code != 0));
}

#[test]
fn start_asks_for_the_configuration() {
    let (state, action) = start(String::from("conf/ddns.json"));
    assert_eq!(state, State::LoadingConfig { path: String::from("conf/ddns.json") });
    assert_eq!(action, Action::LoadConfig { path: String::from("conf/ddns.json") });
    assert_eq!(action.exit_status(), None);
}

#[test]
fn loaded_config_leads_to_resolving_the_address() {
    let (state, _) = start(String::from("ddns.json"));
    let (next, action) = step(state, Event::ConfigLoaded(home_config())).unwrap();
    assert_eq!(next, State::ResolvingIp { target: home_target() });
    assert_eq!(action, Action::ResolveIp { url: String::from("https://checkip.amazonaws.com/") });
}

#[test]
fn resolved_address_is_kept_as_it_came() {
    let state = State::ResolvingIp { target: home_target() };
    let (next, _) = step(state, Event::IpResolved { body: String::from(" 203.0.113.5\n") }).unwrap();
    assert_eq!(
        next,
        State::ReadingRecord { target: home_target(), current_ip: String::from(" 203.0.113.5\n") }
    );
}

#[test]
fn trailing_newline_counts_as_a_change() {
    let actions = drive(
        "ddns.json",
        vec![
            Event::ConfigLoaded(home_config()),
            Event::IpResolved { body: String::from("203.0.113.5\n") },
            Event::RecordsRetrieved(answer(&["203.0.113.5"])),
        ],
    );
    assert_eq!(count_updates(&actions), 1);
    match &actions[3] {
        Action::UpdateRecord { update, .. } => {
            assert_eq!(update.content, "203.0.113.5\n");
            assert_eq!(update.ttl, "600");
        }
        other => panic!("an update should be sent, not {:?}", other),
    }
}

#[test]
fn only_the_first_record_is_consulted() {
    let actions = drive(
        "ddns.json",
        vec![
            Event::ConfigLoaded(home_config()),
            Event::IpResolved { body: String::from("203.0.113.5") },
            Event::RecordsRetrieved(answer(&["203.0.113.5", "198.51.100.7"])),
        ],
    );
    assert_eq!(count_updates(&actions), 0);
    let actions = drive(
        "ddns.json",
        vec![
            Event::ConfigLoaded(home_config()),
            Event::IpResolved { body: String::from("203.0.113.5") },
            Event::RecordsRetrieved(answer(&["198.51.100.7", "203.0.113.5"])),
        ],
    );
    assert_eq!(count_updates(&actions), 1);
}

#[test]
fn empty_records_abort_with_an_error_of_shape() {
    let actions = drive(
        "ddns.json",
        vec![
            Event::ConfigLoaded(home_config()),
            Event::IpResolved { body: String::from("203.0.113.5") },
            Event::RecordsRetrieved(answer(&[])),
            Event::UpdateAnswered(UpdateResponse {
                status: String::from("SUCCESS"),
                message: None,
            }),
        ],
    );
    assert_eq!(actions.len(), 4);
    assert_eq!(
        actions[3],
        Action::Abort {
            failure: Failure::ResponseShape {
                exchange: Exchange::ReadRecord,
                detail: String::from("the provider returned no record"),
            },
        }
    );
    assert_eq!(actions[3].exit_status(), Some(1));
    assert_eq!(count_updates(&actions), 0);
}

#[test]
fn malformed_config_aborts_before_any_request() {
    let actions = drive(
        "ddns.json",
        vec![
            Event::ConfigMalformed { detail: String::from("missing field `apikey` at line 4") },
            Event::IpResolved { body: String::from("203.0.113.5") },
        ],
    );
    assert_eq!(actions.len(), 2);
    assert_eq!(
        actions[1],
        Action::Abort {
            failure: Failure::Parse { detail: String::from("missing field `apikey` at line 4") },
        }
    );
    assert_eq!(actions[1].exit_status(), Some(1));
}

#[test]
fn config_without_domains_aborts_before_any_request() {
    let mut config = home_config();
    config.domains.clear();
    let actions = drive("ddns.json", vec![Event::ConfigLoaded(config)]);
    assert_eq!(actions.len(), 2);
    assert_eq!(
        actions[1],
        Action::Abort {
            failure: Failure::Parse { detail: String::from("the configuration names no domain") },
        }
    );
}

#[test]
fn failures_of_the_address_service_are_network_errors() {
    let state = State::ResolvingIp { target: home_target() };
    let (next, action) =
        step(state.clone(), Event::TransportFailed { detail: String::from("timed out") }).unwrap();
    let failure =
        Failure::Network { exchange: Exchange::ResolveIp, detail: String::from("timed out") };
    assert_eq!(next, State::Aborted { failure: failure.clone() });
    assert_eq!(action, Action::Abort { failure });
    let (_, action) =
        step(state, Event::ResponseMalformed { detail: String::from("invalid utf-8") }).unwrap();
    assert_eq!(
        action,
        Action::Abort {
            failure: Failure::Network {
                exchange: Exchange::ResolveIp,
                detail: String::from("invalid utf-8"),
            },
        }
    );
}

#[test]
fn failures_of_the_query_are_fatal() {
    let state =
        State::ReadingRecord { target: home_target(), current_ip: String::from("203.0.113.9") };
    let (_, action) =
        step(state.clone(), Event::TransportFailed { detail: String::from("HTTP 503") }).unwrap();
    assert_eq!(
        action,
        Action::Abort {
            failure: Failure::Network {
                exchange: Exchange::ReadRecord,
                detail: String::from("HTTP 503"),
            },
        }
    );
    let (_, action) =
        step(state, Event::ResponseMalformed { detail: String::from("missing field `records`") })
            .unwrap();
    assert_eq!(
        action,
        Action::Abort {
            failure: Failure::ResponseShape {
                exchange: Exchange::ReadRecord,
                detail: String::from("missing field `records`"),
            },
        }
    );
}

#[test]
fn failures_of_the_update_are_fatal() {
    let state = State::Updating {
        current_ip: String::from("203.0.113.9"),
        current_dns_entry: String::from("203.0.113.5"),
    };
    let (_, action) =
        step(state.clone(), Event::TransportFailed { detail: String::from("connection reset") })
            .unwrap();
    assert_eq!(
        action,
        Action::Abort {
            failure: Failure::Network {
                exchange: Exchange::UpdateRecord,
                detail: String::from("connection reset"),
            },
        }
    );
    let (next, action) =
        step(state, Event::ResponseMalformed { detail: String::from("expected value") }).unwrap();
    let failure = Failure::ResponseShape {
        exchange: Exchange::UpdateRecord,
        detail: String::from("expected value"),
    };
    assert_eq!(next, State::Aborted { failure: failure.clone() });
    assert_eq!(action, Action::Abort { failure });
    assert_eq!(action.exit_status(), Some(1));
}

#[test]
fn an_event_that_does_not_answer_is_not_taken() {
    let (state, _) = start(String::from("ddns.json"));
    assert_eq!(step(state.clone(), Event::IpResolved { body: String::from("203.0.113.5") }), None);
    assert_eq!(step(state, Event::TransportFailed { detail: String::from("x") }), None);
    let state = State::ResolvingIp { target: home_target() };
    assert_eq!(step(state.clone(), Event::ConfigLoaded(home_config())), None);
    assert_eq!(step(state, Event::RecordsRetrieved(answer(&["203.0.113.5"]))), None);
    let state =
        State::ReadingRecord { target: home_target(), current_ip: String::from("203.0.113.9") };
    assert_eq!(step(state.clone(), Event::IpResolved { body: String::from("203.0.113.5") }), None);
    assert_eq!(
        step(
            state,
            Event::UpdateAnswered(UpdateResponse {
                status: String::from("SUCCESS"),
                message: None
            })
        ),
        None
    );
    let state = State::Updating {
        current_ip: String::from("203.0.113.9"),
        current_dns_entry: String::from("203.0.113.5"),
    };
    assert_eq!(step(state, Event::RecordsRetrieved(answer(&["203.0.113.5"]))), None);
}

#[test]
fn a_run_that_has_ended_takes_no_event() {
    let finished = State::Finished { message: String::from("Updated DNS Entry to 203.0.113.9") };
    let aborted = State::Aborted { failure: Failure::Parse { detail: String::from("bad") } };
    let events = vec![
        Event::ConfigLoaded(home_config()),
        Event::ConfigUnreadable { detail: String::from("x") },
        Event::ConfigMalformed { detail: String::from("x") },
        Event::IpResolved { body: String::from("203.0.113.5") },
        Event::RecordsRetrieved(answer(&["203.0.113.5"])),
        Event::UpdateAnswered(UpdateResponse { status: String::from("SUCCESS"), message: None }),
        Event::TransportFailed { detail: String::from("x") },
        Event::ResponseMalformed { detail: String::from("x") },
    ];
    for event in events {
        assert_eq!(step(finished.clone(), event.clone()), None);
        assert_eq!(step(aborted.clone(), event), None);
    }
}

#[test]
fn no_sequence_of_events_sends_two_updates() {
    let pool = vec![
        Event::ConfigLoaded(home_config()),
        Event::IpResolved { body: String::from("203.0.113.9") },
        Event::RecordsRetrieved(answer(&["203.0.113.5"])),
        Event::RecordsRetrieved(answer(&["203.0.113.9"])),
        Event::UpdateAnswered(UpdateResponse { status: String::from("ERROR"), message: None }),
        Event::TransportFailed { detail: String::from("x") },
    ];
    let n = pool.len();
    let mut most = 0;
    let mut longest = 0;
    for code in 0..n.pow(5) {
        let mut rest = code;
        let mut events = Vec::new();
        for _ in 0..5 {
            events.push(pool[rest % n].clone());
            rest /= n;
        }
        let actions = drive("ddns.json", events);
        most = most.max(count_updates(&actions));
        longest = longest.max(actions.len());
    }
    assert_eq!(most, 1);
    assert_eq!(longest, 5);
}

#[test]
fn every_request_goes_over_https() {
    let actions = drive(
        "ddns.json",
        vec![
            Event::ConfigLoaded(home_config()),
            Event::IpResolved { body: String::from("203.0.113.9") },
            Event::RecordsRetrieved(answer(&["203.0.113.5"])),
        ],
    );
    let mut requests = 0;
    for action in &actions {
        let url = match action {
            Action::ResolveIp { url } => url,
            Action::QueryRecord { url, .. } => url,
            Action::UpdateRecord { url, .. } => url,
            _ => continue,
        };
        requests += 1;
        assert!(url.starts_with("https://"));
    }
    assert_eq!(requests, 3);
}
