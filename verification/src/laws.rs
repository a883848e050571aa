//! What holds of every run, whatever the driver hands back.
//!
//! A run is described by the actions that the machine asks for when it is
//! fed a sequence of events. The statements below are about all such
//! sequences.

use vstd::prelude::*;
use crate::failure::{diagnostic, FailureView};
use crate::model::{ConfigView, QueryResponseView, TargetView, UpdateResponseView};
use crate::pipeline::{
    exit_status_of, start_of, step_of, ActionView, EventView, StateView,
};
use crate::request::{
    no_domain_failure, query_request_of, record_url, target_of, update_request_of, EDIT_ENDPOINT,
    IP_SERVICE_URL, RETRIEVE_ENDPOINT,
};
use crate::update::{
    no_record_failure, outcome_of, published_content, refused_message, unchanged_message,
    updated_message,
};

verus! {

/// The actions that the machine asks for when it is in `state` and is fed
/// `events` in order. The run is over at the first event that does not
/// answer what the machine is waiting for.
pub open spec fn actions_from(state: StateView, events: Seq<EventView>) -> Seq<ActionView>
    decreases events.len(),
{
    if events.len() == 0 {
        Seq::empty()
    } else {
        match step_of(state, events[0]) {
            Some((next, action)) => seq![action] + actions_from(next, events.drop_first()),
            None => Seq::empty(),
        }
    }
}

/// All the actions of a run on the configuration file at `path`: the first
/// one, and those that the events bring about.
pub open spec fn actions_of_run(path: Seq<char>, events: Seq<EventView>) -> Seq<ActionView> {
    seq![start_of(path).1] + actions_from(start_of(path).0, events)
}

/// How many of the actions send an update to the provider.
pub open spec fn updates_in(actions: Seq<ActionView>) -> nat
    decreases actions.len(),
{
    if actions.len() == 0 {
        0
    } else if actions[0] is UpdateRecord {
        1 + updates_in(actions.drop_first())
    } else {
        updates_in(actions.drop_first())
    }
}

/// Whether an action sends a request over the network.
pub open spec fn uses_network(action: ActionView) -> bool {
    action is ResolveIp || action is QueryRecord || action is UpdateRecord
}

/// How many updates a run that stands in `state` can still send.
pub open spec fn updates_ahead(state: StateView) -> nat {
    match state {
        StateView::LoadingConfig { .. } => 1,
        StateView::ResolvingIp { .. } => 1,
        StateView::ReadingRecord { .. } => 1,
        _ => 0,
    }
}

/// How many states a run that stands in `state` can still pass through.
pub open spec fn steps_ahead(state: StateView) -> nat {
    match state {
        StateView::LoadingConfig { .. } => 4,
        StateView::ResolvingIp { .. } => 3,
        StateView::ReadingRecord { .. } => 2,
        StateView::Updating { .. } => 1,
        _ => 0,
    }
}

/// The address that an action sends a request to, if it sends one.
pub open spec fn url_of(action: ActionView) -> Option<Seq<char>> {
    match action {
        ActionView::ResolveIp { url } => Some(url),
        ActionView::QueryRecord { url, .. } => Some(url),
        ActionView::UpdateRecord { url, .. } => Some(url),
        _ => None,
    }
}

/// Whether `part` stands in `whole`, character for character.
pub open spec fn occurs_in(part: Seq<char>, whole: Seq<char>) -> bool {
    exists|at: int|
        0 <= at && at + part.len() <= whole.len() && #[trigger] whole.subrange(
            at,
            at + part.len(),
        ) == part
}

proof fn lemma_updates_in_prepend(action: ActionView, rest: Seq<ActionView>)
    ensures
        updates_in(seq![action] + rest) == (if action is UpdateRecord {
            1nat
        } else {
            0nat
        }) + updates_in(rest),
{
    let all = seq![action] + rest;
    assert(all[0] == action);
    assert(all.drop_first() =~= rest);
}

/// Every step takes the run to a later state: none is entered twice, and
/// the states follow one another in the order in which the run is laid out.
pub proof fn every_step_advances(state: StateView, event: EventView)
    ensures
        step_of(state, event) matches Some((next, _)) ==> steps_ahead(next) < steps_ahead(state),
{
}

/// A run is over after four events at most.
pub proof fn run_is_bounded(state: StateView, events: Seq<EventView>)
    ensures
        actions_from(state, events).len() <= steps_ahead(state),
    decreases events.len(),
{
    if events.len() > 0 {
        match step_of(state, events[0]) {
            Some((next, action)) => {
                run_is_bounded(next, events.drop_first());
            },
            None => {},
        }
    }
}

/// Every request that the machine asks for goes to an address that begins
/// with "https://".
pub proof fn every_request_uses_https(state: StateView, event: EventView)
    ensures
        step_of(state, event) matches Some((_, action)) ==> (url_of(action) matches Some(url)
            ==> "https://"@.is_prefix_of(url)),
{
    reveal_strlit("https://");
    reveal_strlit("https://checkip.amazonaws.com/");
    reveal_strlit("https://porkbun.com/api/json/v3/dns/retrieveByNameType/");
    reveal_strlit("https://porkbun.com/api/json/v3/dns/editByNameType/");
    assert("https://"@.is_prefix_of(IP_SERVICE_URL@));
    assert("https://"@.is_prefix_of(RETRIEVE_ENDPOINT@));
    assert("https://"@.is_prefix_of(EDIT_ENDPOINT@));
}

/// A run that has ended asks for nothing more.
pub proof fn ended_run_is_silent(state: StateView, events: Seq<EventView>)
    requires
        state is Finished || state is Aborted,
    ensures
        actions_from(state, events) == Seq::<ActionView>::empty(),
{
}

/// No run sends more than one update, and a run that has sent its update
/// or has ended sends none.
pub proof fn update_sent_at_most_once(state: StateView, events: Seq<EventView>)
    ensures
        updates_in(actions_from(state, events)) <= updates_ahead(state),
    decreases events.len(),
{
    if events.len() > 0 {
        match step_of(state, events[0]) {
            Some((next, action)) => {
                update_sent_at_most_once(next, events.drop_first());
                lemma_updates_in_prepend(action, actions_from(next, events.drop_first()));
            },
            None => {},
        }
    }
}

/// The same of a whole run: at most one update is ever sent.
pub proof fn run_sends_at_most_one_update(path: Seq<char>, events: Seq<EventView>)
    ensures
        updates_in(actions_of_run(path, events)) <= 1,
{
    update_sent_at_most_once(start_of(path).0, events);
    lemma_updates_in_prepend(start_of(path).1, actions_from(start_of(path).0, events));
}

/// Where the resolved address is, character for character, the content of
/// the first record that the provider returns, the run consists of loading
/// the configuration, resolving the address, querying the record and
/// reporting that nothing needs to be done. No update is sent, whatever
/// events follow.
pub proof fn unchanged_address_sends_no_update(
    path: Seq<char>,
    config: ConfigView,
    current_ip: Seq<char>,
    response: QueryResponseView,
    later: Seq<EventView>,
)
    requires
        config.domains.len() > 0,
        published_content(response) == Some(current_ip),
    ensures
        ({
            let events = seq![
                EventView::ConfigLoaded(config),
                EventView::IpResolved { body: current_ip },
                EventView::RecordsRetrieved(response),
            ] + later;
            let target = target_of(config).unwrap();
            &&& actions_of_run(path, events) == seq![
                ActionView::LoadConfig { path },
                ActionView::ResolveIp { url: IP_SERVICE_URL@ },
                ActionView::QueryRecord {
                    url: record_url(RETRIEVE_ENDPOINT@, target.entry),
                    query: query_request_of(target),
                },
                ActionView::Report { message: unchanged_message(current_ip, current_ip) },
            ]
            &&& updates_in(actions_of_run(path, events)) == 0
        }),
{
    let first = EventView::ConfigLoaded(config);
    let second = EventView::IpResolved { body: current_ip };
    let third = EventView::RecordsRetrieved(response);
    let events = seq![first, second, third] + later;
    let target = target_of(config).unwrap();
    let message = unchanged_message(current_ip, current_ip);
    let loading = StateView::LoadingConfig { path };
    let resolving = StateView::ResolvingIp { target };
    let reading = StateView::ReadingRecord { target, current_ip };
    let finished = StateView::Finished { message };
    let load = ActionView::LoadConfig { path };
    let resolve = ActionView::ResolveIp { url: IP_SERVICE_URL@ };
    let query = ActionView::QueryRecord {
        url: record_url(RETRIEVE_ENDPOINT@, target.entry),
        query: query_request_of(target),
    };
    let report = ActionView::Report { message };
    let after_first = seq![second, third] + later;
    let after_second = seq![third] + later;
    assert(events[0] == first);
    assert(events.drop_first() =~= after_first);
    assert(after_first[0] == second);
    assert(after_first.drop_first() =~= after_second);
    assert(after_second[0] == third);
    assert(after_second.drop_first() =~= later);
    assert(step_of(loading, first) == Some((resolving, resolve)));
    assert(step_of(resolving, second) == Some((reading, query)));
    assert(step_of(reading, third) == Some((finished, report)));
    ended_run_is_silent(finished, later);
    assert(actions_from(reading, after_second) =~= seq![report]);
    assert(actions_from(resolving, after_first) =~= seq![query, report]);
    assert(actions_from(loading, events) =~= seq![resolve, query, report]);
    assert(actions_of_run(path, events) =~= seq![load, resolve, query, report]);
    lemma_updates_in_prepend(report, Seq::empty());
    assert(seq![report] =~= seq![report] + Seq::<ActionView>::empty());
    lemma_updates_in_prepend(query, seq![report]);
    assert(seq![query, report] =~= seq![query] + seq![report]);
    lemma_updates_in_prepend(resolve, seq![query, report]);
    assert(seq![resolve, query, report] =~= seq![resolve] + seq![query, report]);
    lemma_updates_in_prepend(load, seq![resolve, query, report]);
    assert(seq![load, resolve, query, report] =~= seq![load] + seq![resolve, query, report]);
}

/// Where the resolved address differs from the content of the first record
/// that the provider returns, exactly one update is sent, whatever events
/// follow. It is the fourth action of the run, it goes to the edit endpoint
/// of the configured record, and it carries the credential, the resolved
/// address as content and a time to live of "600".
pub proof fn changed_address_sends_one_update(
    path: Seq<char>,
    config: ConfigView,
    current_ip: Seq<char>,
    response: QueryResponseView,
    later: Seq<EventView>,
)
    requires
        config.domains.len() > 0,
        published_content(response).is_some(),
        published_content(response) != Some(current_ip),
    ensures
        ({
            let events = seq![
                EventView::ConfigLoaded(config),
                EventView::IpResolved { body: current_ip },
                EventView::RecordsRetrieved(response),
            ] + later;
            let target = target_of(config).unwrap();
            let actions = actions_of_run(path, events);
            &&& updates_in(actions) == 1
            &&& actions.len() >= 4
            &&& actions[0] == ActionView::LoadConfig { path }
            &&& actions[1] == ActionView::ResolveIp { url: IP_SERVICE_URL@ }
            &&& actions[2] == ActionView::QueryRecord {
                url: record_url(RETRIEVE_ENDPOINT@, target.entry),
                query: query_request_of(target),
            }
            &&& actions[3] == ActionView::UpdateRecord {
                url: record_url(EDIT_ENDPOINT@, target.entry),
                update: update_request_of(target, current_ip),
            }
            &&& update_request_of(target, current_ip).content == current_ip
            &&& update_request_of(target, current_ip).ttl == "600"@
            &&& update_request_of(target, current_ip).secretapikey == config.secretkey
            &&& update_request_of(target, current_ip).apikey == config.apikey
        }),
{
    let first = EventView::ConfigLoaded(config);
    let second = EventView::IpResolved { body: current_ip };
    let third = EventView::RecordsRetrieved(response);
    let events = seq![first, second, third] + later;
    let target = target_of(config).unwrap();
    let current_dns_entry = published_content(response).unwrap();
    let loading = StateView::LoadingConfig { path };
    let resolving = StateView::ResolvingIp { target };
    let reading = StateView::ReadingRecord { target, current_ip };
    let updating = StateView::Updating { current_ip, current_dns_entry };
    let load = ActionView::LoadConfig { path };
    let resolve = ActionView::ResolveIp { url: IP_SERVICE_URL@ };
    let query = ActionView::QueryRecord {
        url: record_url(RETRIEVE_ENDPOINT@, target.entry),
        query: query_request_of(target),
    };
    let update = ActionView::UpdateRecord {
        url: record_url(EDIT_ENDPOINT@, target.entry),
        update: update_request_of(target, current_ip),
    };
    let after_first = seq![second, third] + later;
    let after_second = seq![third] + later;
    let tail = actions_from(updating, later);
    assert(events[0] == first);
    assert(events.drop_first() =~= after_first);
    assert(after_first[0] == second);
    assert(after_first.drop_first() =~= after_second);
    assert(after_second[0] == third);
    assert(after_second.drop_first() =~= later);
    assert(step_of(loading, first) == Some((resolving, resolve)));
    assert(step_of(resolving, second) == Some((reading, query)));
    assert(step_of(reading, third) == Some((updating, update)));
    assert(actions_from(reading, after_second) == seq![update] + tail);
    assert(actions_from(resolving, after_first) == seq![query] + (seq![update] + tail));
    assert(actions_from(loading, events) == seq![resolve] + (seq![query] + (seq![update] + tail)));
    update_sent_at_most_once(updating, later);
    lemma_updates_in_prepend(update, tail);
    lemma_updates_in_prepend(query, seq![update] + tail);
    lemma_updates_in_prepend(resolve, seq![query] + (seq![update] + tail));
    lemma_updates_in_prepend(load, seq![resolve] + (seq![query] + (seq![update] + tail)));
}

/// Whatever status the provider answers an update with, the run ends with
/// a report and exit status zero. The status "SUCCESS" is reported as an
/// update; every other status is reported as a refusal, in a line that
/// holds both the address that stays published and the one that was
/// offered.
pub proof fn answered_update_ends_well(
    current_ip: Seq<char>,
    current_dns_entry: Seq<char>,
    response: UpdateResponseView,
)
    ensures
        ({
            let state = StateView::Updating { current_ip, current_dns_entry };
            let message = outcome_of(response, current_dns_entry, current_ip);
            &&& step_of(state, EventView::UpdateAnswered(response)) == Some(
                (StateView::Finished { message }, ActionView::Report { message }),
            )
            &&& exit_status_of(ActionView::Report { message }) == Some(0u8)
            &&& response.status == "SUCCESS"@ ==> message == updated_message(current_ip)
            &&& response.status != "SUCCESS"@ ==> message == refused_message(
                current_dns_entry,
                current_ip,
            )
        }),
        occurs_in(current_dns_entry, refused_message(current_dns_entry, current_ip)),
        occurs_in(current_ip, refused_message(current_dns_entry, current_ip)),
        occurs_in(current_ip, updated_message(current_ip)),
{
    let refused = refused_message(current_dns_entry, current_ip);
    let head = "Could not update DNS Entry. "@;
    let arrow = " -> "@;
    let old_at = head.len() as int;
    let new_at = (head.len() + current_dns_entry.len() + arrow.len()) as int;
    assert(refused.subrange(old_at, old_at + current_dns_entry.len()) =~= current_dns_entry);
    assert(refused.subrange(new_at, new_at + current_ip.len()) =~= current_ip);
    let updated = updated_message(current_ip);
    let at = "Updated DNS Entry to "@.len() as int;
    assert(updated.subrange(at, at + current_ip.len()) =~= current_ip);
}

/// An answer to the query that holds no record ends the run with an error
/// of shape and a non-zero exit status. Nothing is sent after it.
pub proof fn empty_answer_aborts(
    target: TargetView,
    current_ip: Seq<char>,
    response: QueryResponseView,
    later: Seq<EventView>,
)
    requires
        response.records.len() == 0,
    ensures
        ({
            let state = StateView::ReadingRecord { target, current_ip };
            let events = seq![EventView::RecordsRetrieved(response)] + later;
            let abort = ActionView::Abort { failure: no_record_failure() };
            &&& no_record_failure() is ResponseShape
            &&& actions_from(state, events) == seq![abort]
            &&& exit_status_of(abort) is Some
            &&& exit_status_of(abort) != Some(0u8)
        }),
{
    let state = StateView::ReadingRecord { target, current_ip };
    let event = EventView::RecordsRetrieved(response);
    let events = seq![event] + later;
    let failure = no_record_failure();
    let aborted = StateView::Aborted { failure };
    let abort = ActionView::Abort { failure };
    assert(events[0] == event);
    assert(events.drop_first() =~= later);
    assert(step_of(state, event) == Some((aborted, abort)));
    ended_run_is_silent(aborted, later);
    assert(actions_from(state, events) =~= seq![abort]);
}

/// A configuration that is malformed, or that names no record, ends the
/// run with a parse error before anything is sent over the network.
pub proof fn rejected_config_reaches_no_network(
    path: Seq<char>,
    event: EventView,
    later: Seq<EventView>,
)
    requires
        event is ConfigMalformed || (event matches EventView::ConfigLoaded(config)
            && config.domains.len() == 0),
    ensures
        ({
            let actions = actions_of_run(path, seq![event] + later);
            &&& actions.len() == 2
            &&& actions[0] == ActionView::LoadConfig { path }
            &&& actions[1] matches ActionView::Abort { failure } && failure is Parse
            &&& event matches EventView::ConfigMalformed { detail } ==> actions[1]
                == ActionView::Abort { failure: FailureView::Parse { detail } }
            &&& event is ConfigLoaded ==> actions[1] == ActionView::Abort {
                failure: no_domain_failure(),
            }
            &&& exit_status_of(actions[1]) is Some
            &&& exit_status_of(actions[1]) != Some(0u8)
            &&& forall|i: int| 0 <= i < actions.len() ==> !uses_network(#[trigger] actions[i])
        }),
{
    let events = seq![event] + later;
    let loading = StateView::LoadingConfig { path };
    assert(events[0] == event);
    assert(events.drop_first() =~= later);
    let taken = step_of(loading, event);
    assert(taken is Some);
    let (next, action) = taken.unwrap();
    assert(next is Aborted);
    ended_run_is_silent(next, later);
    assert(actions_from(loading, events) =~= seq![action]);
    assert(actions_of_run(path, events) =~= seq![ActionView::LoadConfig { path }, action]);
}

/// A configuration file that cannot be read ends the run with a non-zero
/// exit status and a diagnostic that holds the file's path.
pub proof fn unreadable_config_names_the_path(
    path: Seq<char>,
    detail: Seq<char>,
    later: Seq<EventView>,
)
    ensures
        ({
            let failure = FailureView::Io { path, detail };
            let abort = ActionView::Abort { failure };
            let events = seq![EventView::ConfigUnreadable { detail }] + later;
            &&& actions_of_run(path, events) == seq![ActionView::LoadConfig { path }, abort]
            &&& exit_status_of(abort) is Some
            &&& exit_status_of(abort) != Some(0u8)
            &&& occurs_in(path, diagnostic(failure))
        }),
{
    let failure = FailureView::Io { path, detail };
    let abort = ActionView::Abort { failure };
    let aborted = StateView::Aborted { failure };
    let event = EventView::ConfigUnreadable { detail };
    let events = seq![event] + later;
    let loading = StateView::LoadingConfig { path };
    assert(events[0] == event);
    assert(events.drop_first() =~= later);
    assert(step_of(loading, event) == Some((aborted, abort)));
    ended_run_is_silent(aborted, later);
    assert(actions_from(loading, events) =~= seq![abort]);
    assert(actions_of_run(path, events) =~= seq![ActionView::LoadConfig { path }, abort]);
    let at = "could not read config '"@.len() as int;
    assert(diagnostic(failure).subrange(at, at + path.len()) =~= path);
}

/// Every failure of the address service, of the query or of the update
/// that the driver reports ends the run at once, with a non-zero exit
/// status.
pub proof fn failed_exchange_is_fatal(state: StateView, event: EventView)
    requires
        state is ResolvingIp || state is ReadingRecord || state is Updating,
        event is TransportFailed || event is ResponseMalformed,
    ensures
        step_of(state, event) matches Some((next, action)) && next is Aborted && action is Abort
            && exit_status_of(action) != Some(0u8),
{
}

} // verus!
