//! The run as a state machine. The machine decides; a driver acts.
//!
//! A run starts with [`start`], which asks for the configuration to be
//! loaded. The driver performs each [`Action`] and hands what came of it
//! back to [`step`] as an [`Event`], until the action is one of the two that
//! end the run: [`Action::Report`] or [`Action::Abort`]. The states follow
//! one another in a straight line: loading the configuration, resolving the
//! address, reading the record, updating it. None is entered twice.

use vstd::prelude::*;
use vstd::string::StringExecFns;
use crate::failure::{Exchange, Failure, FailureView};
use crate::model::{
    Config, ConfigView, QueryRequest, QueryRequestView, QueryResponse, QueryResponseView, Target,
    TargetView, UpdateRequest, UpdateRequestView, UpdateResponse, UpdateResponseView,
};
use crate::request::{
    no_domain_failure, query_request_of, record_url, target_of, IP_SERVICE_URL, RETRIEVE_ENDPOINT,
};
use crate::update::{
    current_dns_entry, no_record_failure, outcome_of, plan_of, plan_update, published_content,
    update_outcome, UpdatePlan, UpdatePlanView,
};

verus! {

/// Where a run stands: what it is waiting for, and what it has learnt so
/// far.
#[derive(Clone, Debug, PartialEq, Eq)]
pub enum State {
    /// Waiting for the configuration file at `path` to be read and parsed.
    LoadingConfig { path: String },
    /// Waiting for the address service to answer.
    ResolvingIp { target: Target },
    /// Waiting for the provider to answer the query.
    ReadingRecord { target: Target, current_ip: String },
    /// Waiting for the provider to answer the update.
    Updating { current_ip: String, current_dns_entry: String },
    /// The run has ended well, with `message` as its one line of output.
    Finished { message: String },
    /// The run has ended with a fatal error.
    Aborted { failure: Failure },
}

/// What a [`State`] holds.
pub enum StateView {
    LoadingConfig { path: Seq<char> },
    ResolvingIp { target: TargetView },
    ReadingRecord { target: TargetView, current_ip: Seq<char> },
    Updating { current_ip: Seq<char>, current_dns_entry: Seq<char> },
    Finished { message: Seq<char> },
    Aborted { failure: FailureView },
}

impl View for State {
    type V = StateView;

    open spec fn view(&self) -> StateView {
        match *self {
            State::LoadingConfig { path } => StateView::LoadingConfig { path: path@ },
            State::ResolvingIp { target } => StateView::ResolvingIp { target: target@ },
            State::ReadingRecord { target, current_ip } => StateView::ReadingRecord {
                target: target@,
                current_ip: current_ip@,
            },
            State::Updating { current_ip, current_dns_entry } => StateView::Updating {
                current_ip: current_ip@,
                current_dns_entry: current_dns_entry@,
            },
            State::Finished { message } => StateView::Finished { message: message@ },
            State::Aborted { failure } => StateView::Aborted { failure: failure@ },
        }
    }
}

/// What came of the action that the machine asked for last.
#[derive(Clone, Debug, PartialEq, Eq)]
pub enum Event {
    /// The configuration file was read and parsed.
    ConfigLoaded(Config),
    /// The configuration file could not be read.
    ConfigUnreadable { detail: String },
    /// The configuration file was read, but does not hold a configuration:
    /// it is not well-formed, a field is missing or has the wrong type.
    ConfigMalformed { detail: String },
    /// The address service answered with `body`.
    IpResolved { body: String },
    /// The provider answered the query.
    RecordsRetrieved(QueryResponse),
    /// The provider answered the update.
    UpdateAnswered(UpdateResponse),
    /// The request could not be carried out: no connection, no answer in
    /// time, or an answer with an error status.
    TransportFailed { detail: String },
    /// The request was answered, but the answer could not be read.
    ResponseMalformed { detail: String },
}

/// What an [`Event`] holds.
pub enum EventView {
    ConfigLoaded(ConfigView),
    ConfigUnreadable { detail: Seq<char> },
    ConfigMalformed { detail: Seq<char> },
    IpResolved { body: Seq<char> },
    RecordsRetrieved(QueryResponseView),
    UpdateAnswered(UpdateResponseView),
    TransportFailed { detail: Seq<char> },
    ResponseMalformed { detail: Seq<char> },
}

impl View for Event {
    type V = EventView;

    open spec fn view(&self) -> EventView {
        match *self {
            Event::ConfigLoaded(config) => EventView::ConfigLoaded(config@),
            Event::ConfigUnreadable { detail } => EventView::ConfigUnreadable { detail: detail@ },
            Event::ConfigMalformed { detail } => EventView::ConfigMalformed { detail: detail@ },
            Event::IpResolved { body } => EventView::IpResolved { body: body@ },
            Event::RecordsRetrieved(response) => EventView::RecordsRetrieved(response@),
            Event::UpdateAnswered(response) => EventView::UpdateAnswered(response@),
            Event::TransportFailed { detail } => EventView::TransportFailed { detail: detail@ },
            Event::ResponseMalformed { detail } => EventView::ResponseMalformed {
                detail: detail@,
            },
        }
    }
}

/// What the driver is to do next.
#[derive(Clone, Debug, PartialEq, Eq)]
pub enum Action {
    /// Read the file at `path` and parse it as a configuration.
    LoadConfig { path: String },
    /// Send a GET request to `url` and take the body of the answer as text.
    ResolveIp { url: String },
    /// Post `query` to `url` and parse the answer to a query.
    QueryRecord { url: String, query: QueryRequest },
    /// Post `update` to `url` and parse the answer to an update.
    UpdateRecord { url: String, update: UpdateRequest },
    /// Print `message` and end the run with exit status zero.
    Report { message: String },
    /// Print the diagnostic of `failure` and end the run with a non-zero
    /// exit status.
    Abort { failure: Failure },
}

/// What an [`Action`] holds.
pub enum ActionView {
    LoadConfig { path: Seq<char> },
    ResolveIp { url: Seq<char> },
    QueryRecord { url: Seq<char>, query: QueryRequestView },
    UpdateRecord { url: Seq<char>, update: UpdateRequestView },
    Report { message: Seq<char> },
    Abort { failure: FailureView },
}

impl View for Action {
    type V = ActionView;

    open spec fn view(&self) -> ActionView {
        match *self {
            Action::LoadConfig { path } => ActionView::LoadConfig { path: path@ },
            Action::ResolveIp { url } => ActionView::ResolveIp { url: url@ },
            Action::QueryRecord { url, query } => ActionView::QueryRecord {
                url: url@,
                query: query@,
            },
            Action::UpdateRecord { url, update } => ActionView::UpdateRecord {
                url: url@,
                update: update@,
            },
            Action::Report { message } => ActionView::Report { message: message@ },
            Action::Abort { failure } => ActionView::Abort { failure: failure@ },
        }
    }
}

/// The exit status of a run that ends with a fatal error.
pub const FAILURE_EXIT_STATUS: u8 = 1;

/// The exit status that an action ends the run with: zero after the report,
/// non-zero after a fatal error, none for an action that does not end the
/// run.
pub open spec fn exit_status_of(action: ActionView) -> Option<u8> {
    match action {
        ActionView::Report { .. } => Some(0u8),
        ActionView::Abort { .. } => Some(FAILURE_EXIT_STATUS),
        _ => None,
    }
}

/// The first state of a run and its first action.
pub open spec fn start_of(path: Seq<char>) -> (StateView, ActionView) {
    (StateView::LoadingConfig { path }, ActionView::LoadConfig { path })
}

/// The end of a run with a fatal error.
pub open spec fn abort_with(failure: FailureView) -> Option<(StateView, ActionView)> {
    Some((StateView::Aborted { failure }, ActionView::Abort { failure }))
}

/// The end of a run with its line of output.
pub open spec fn finish_with(message: Seq<char>) -> Option<(StateView, ActionView)> {
    Some((StateView::Finished { message }, ActionView::Report { message }))
}

/// What follows once the configuration has been loaded, or has not.
pub open spec fn after_config(path: Seq<char>, event: EventView) -> Option<
    (StateView, ActionView),
> {
    match event {
        EventView::ConfigLoaded(config) => match target_of(config) {
            Some(target) => Some(
                (StateView::ResolvingIp { target }, ActionView::ResolveIp { url: IP_SERVICE_URL@ }),
            ),
            None => abort_with(no_domain_failure()),
        },
        EventView::ConfigUnreadable { detail } => abort_with(FailureView::Io { path, detail }),
        EventView::ConfigMalformed { detail } => abort_with(FailureView::Parse { detail }),
        _ => None,
    }
}

/// What follows once the address service has answered, or has not. The body
/// of its answer is taken as the current address as it is. An answer that
/// cannot be read counts as a failure of the network.
pub open spec fn after_ip(target: TargetView, event: EventView) -> Option<
    (StateView, ActionView),
> {
    match event {
        EventView::IpResolved { body } => Some(
            (
                StateView::ReadingRecord { target, current_ip: body },
                ActionView::QueryRecord {
                    url: record_url(RETRIEVE_ENDPOINT@, target.entry),
                    query: query_request_of(target),
                },
            ),
        ),
        EventView::TransportFailed { detail } => abort_with(
            FailureView::Network { exchange: Exchange::ResolveIp, detail },
        ),
        EventView::ResponseMalformed { detail } => abort_with(
            FailureView::Network { exchange: Exchange::ResolveIp, detail },
        ),
        _ => None,
    }
}

/// What follows once the provider has answered the query, or has not.
pub open spec fn after_record(target: TargetView, current_ip: Seq<char>, event: EventView)
    -> Option<(StateView, ActionView)> {
    match event {
        EventView::RecordsRetrieved(response) => match published_content(response) {
            Some(content) => match plan_of(current_ip, content, target) {
                UpdatePlanView::Skip { message } => finish_with(message),
                UpdatePlanView::Send { url, payload } => Some(
                    (
                        StateView::Updating { current_ip, current_dns_entry: content },
                        ActionView::UpdateRecord { url, update: payload },
                    ),
                ),
            },
            None => abort_with(no_record_failure()),
        },
        EventView::TransportFailed { detail } => abort_with(
            FailureView::Network { exchange: Exchange::ReadRecord, detail },
        ),
        EventView::ResponseMalformed { detail } => abort_with(
            FailureView::ResponseShape { exchange: Exchange::ReadRecord, detail },
        ),
        _ => None,
    }
}

/// What follows once the provider has answered the update, or has not.
pub open spec fn after_update(
    current_ip: Seq<char>,
    current_dns_entry: Seq<char>,
    event: EventView,
) -> Option<(StateView, ActionView)> {
    match event {
        EventView::UpdateAnswered(response) => finish_with(
            outcome_of(response, current_dns_entry, current_ip),
        ),
        EventView::TransportFailed { detail } => abort_with(
            FailureView::Network { exchange: Exchange::UpdateRecord, detail },
        ),
        EventView::ResponseMalformed { detail } => abort_with(
            FailureView::ResponseShape { exchange: Exchange::UpdateRecord, detail },
        ),
        _ => None,
    }
}

/// The transition of the machine: the state that follows and the action to
/// perform, or nothing where the event does not answer what the state is
/// waiting for. A run that has ended is waiting for nothing.
pub open spec fn step_of(state: StateView, event: EventView) -> Option<(StateView, ActionView)> {
    match state {
        StateView::LoadingConfig { path } => after_config(path, event),
        StateView::ResolvingIp { target } => after_ip(target, event),
        StateView::ReadingRecord { target, current_ip } => after_record(target, current_ip, event),
        StateView::Updating { current_ip, current_dns_entry } => after_update(
            current_ip,
            current_dns_entry,
            event,
        ),
        StateView::Finished { .. } => None,
        StateView::Aborted { .. } => None,
    }
}

/// Whether a transition is the one that the exec function has taken.
pub open spec fn is_step(
    taken: Option<(State, Action)>,
    expected: Option<(StateView, ActionView)>,
) -> bool {
    match taken {
        Some((next, action)) => expected == Some((next@, action@)),
        None => expected.is_none(),
    }
}

impl Action {
    /// The exit status that this action ends the run with, if it ends it.
    pub fn exit_status(&self) -> (status: Option<u8>)
        ensures
            status == exit_status_of(self@),
    {
        match self {
            Action::Report { .. } => Some(0u8),
            Action::Abort { .. } => Some(FAILURE_EXIT_STATUS),
            _ => None,
        }
    }
}

fn abort(failure: Failure) -> (taken: Option<(State, Action)>)
    ensures
        is_step(taken, abort_with(failure@)),
{
    let kept = failure.clone();
    Some((State::Aborted { failure: kept }, Action::Abort { failure }))
}

fn finish(message: String) -> (taken: Option<(State, Action)>)
    ensures
        is_step(taken, finish_with(message@)),
{
    let kept = message.clone();
    Some((State::Finished { message: kept }, Action::Report { message }))
}

/// Begins a run on the configuration file at `path`.
pub fn start(path: String) -> (begun: (State, Action))
    ensures
        (begun.0@, begun.1@) == start_of(path@),
{
    let kept = path.clone();
    (State::LoadingConfig { path: kept }, Action::LoadConfig { path })
}

/// Takes the run one step further: from the state it is in and the outcome
/// of the action it asked for last, to the state that follows and the
/// action to perform next. Returns `None`, and decides nothing, exactly
/// where the event does not answer what the state is waiting for.
pub fn step(state: State, event: Event) -> (taken: Option<(State, Action)>)
    ensures
        is_step(taken, step_of(state@, event@)),
{
    match state {
        State::LoadingConfig { path } => match event {
            Event::ConfigLoaded(config) => match config.target() {
                Ok(target) => Some(
                    (
                        State::ResolvingIp { target },
                        Action::ResolveIp { url: String::from_str(IP_SERVICE_URL) },
                    ),
                ),
                Err(failure) => abort(failure),
            },
            Event::ConfigUnreadable { detail } => abort(Failure::Io { path, detail }),
            Event::ConfigMalformed { detail } => abort(Failure::Parse { detail }),
            _ => None,
        },
        State::ResolvingIp { target } => match event {
            Event::IpResolved { body } => {
                let url = target.retrieve_url();
                let query = target.query_request();
                Some(
                    (
                        State::ReadingRecord { target, current_ip: body },
                        Action::QueryRecord { url, query },
                    ),
                )
            },
            Event::TransportFailed { detail } => abort(
                Failure::Network { exchange: Exchange::ResolveIp, detail },
            ),
            Event::ResponseMalformed { detail } => abort(
                Failure::Network { exchange: Exchange::ResolveIp, detail },
            ),
            _ => None,
        },
        State::ReadingRecord { target, current_ip } => match event {
            Event::RecordsRetrieved(response) => match current_dns_entry(&response) {
                Ok(content) => match plan_update(&current_ip, &content, &target) {
                    UpdatePlan::Skip { message } => finish(message),
                    UpdatePlan::Send { url, payload } => Some(
                        (
                            State::Updating { current_ip, current_dns_entry: content },
                            Action::UpdateRecord { url, update: payload },
                        ),
                    ),
                },
                Err(failure) => abort(failure),
            },
            Event::TransportFailed { detail } => abort(
                Failure::Network { exchange: Exchange::ReadRecord, detail },
            ),
            Event::ResponseMalformed { detail } => abort(
                Failure::ResponseShape { exchange: Exchange::ReadRecord, detail },
            ),
            _ => None,
        },
        State::Updating { current_ip, current_dns_entry } => match event {
            Event::UpdateAnswered(response) => finish(
                update_outcome(&response, &current_dns_entry, &current_ip),
            ),
            Event::TransportFailed { detail } => abort(
                Failure::Network { exchange: Exchange::UpdateRecord, detail },
            ),
            Event::ResponseMalformed { detail } => abort(
                Failure::ResponseShape { exchange: Exchange::UpdateRecord, detail },
            ),
            _ => None,
        },
        State::Finished { .. } => None,
        State::Aborted { .. } => None,
    }
}

} // verus!
