//! The ways in which a run can fail, and the diagnostic that is printed for
//! each of them.

use vstd::prelude::*;
use vstd::string::StringExecFns;

verus! {

/// The part of a run that talks to a network service.
#[derive(Clone, Copy, Debug, PartialEq, Eq, Structural)]
pub enum Exchange {
    /// Asking the address service for the caller's public address.
    ResolveIp,
    /// Asking the provider for the record that is published.
    ReadRecord,
    /// Asking the provider to publish the new address.
    UpdateRecord,
}

/// A fatal error. Every one of them ends the run with a diagnostic and a
/// non-zero exit status.
#[derive(Debug, PartialEq, Eq)]
pub enum Failure {
    /// The configuration file could not be read.
    Io { path: String, detail: String },
    /// The configuration is not usable: it does not have the expected shape,
    /// or it names no record.
    Parse { detail: String },
    /// A request could not be carried out, or was answered with an error
    /// status.
    Network { exchange: Exchange, detail: String },
    /// An answer did not have the expected shape.
    ResponseShape { exchange: Exchange, detail: String },
}

/// What a [`Failure`] holds.
pub enum FailureView {
    Io { path: Seq<char>, detail: Seq<char> },
    Parse { detail: Seq<char> },
    Network { exchange: Exchange, detail: Seq<char> },
    ResponseShape { exchange: Exchange, detail: Seq<char> },
}

impl View for Failure {
    type V = FailureView;

    open spec fn view(&self) -> FailureView {
        match *self {
            Failure::Io { path, detail } => FailureView::Io { path: path@, detail: detail@ },
            Failure::Parse { detail } => FailureView::Parse { detail: detail@ },
            Failure::Network { exchange, detail } => FailureView::Network {
                exchange,
                detail: detail@,
            },
            Failure::ResponseShape { exchange, detail } => FailureView::ResponseShape {
                exchange,
                detail: detail@,
            },
        }
    }
}

/// The detail of the failure that is raised for a configuration whose list
/// of records is empty.
pub const NO_DOMAIN_DETAIL: &'static str = "the configuration names no domain";

/// The detail of the failure that is raised for an answer to a query whose
/// list of records is empty.
pub const NO_RECORD_DETAIL: &'static str = "the provider returned no record";

/// How the diagnostic names an exchange.
pub open spec fn exchange_phrase(exchange: Exchange) -> Seq<char> {
    match exchange {
        Exchange::ResolveIp => "retrieve current IP"@,
        Exchange::ReadRecord => "retrieve current DNS Entry"@,
        Exchange::UpdateRecord => "update DNS Entry"@,
    }
}

/// The diagnostic for a failure: what went wrong, in which part of the run,
/// and the detail that came with it. For an unreadable configuration file it
/// names the file's path.
pub open spec fn diagnostic(failure: FailureView) -> Seq<char> {
    match failure {
        FailureView::Io { path, detail } => "could not read config '"@ + path + "': "@ + detail,
        FailureView::Parse { detail } => "could not parse config: "@ + detail,
        FailureView::Network { exchange, detail } => "Could not "@ + exchange_phrase(exchange)
            + ": network error: "@ + detail,
        FailureView::ResponseShape { exchange, detail } => "Could not "@ + exchange_phrase(
            exchange,
        ) + ": unexpected response: "@ + detail,
    }
}

impl Exchange {
    /// How the diagnostic names this exchange.
    pub fn phrase(self) -> (phrase: &'static str)
        ensures
            phrase@ == exchange_phrase(self),
    {
        match self {
            Exchange::ResolveIp => "retrieve current IP",
            Exchange::ReadRecord => "retrieve current DNS Entry",
            Exchange::UpdateRecord => "update DNS Entry",
        }
    }
}

impl Failure {
    /// The diagnostic that is printed when the run ends with this failure.
    pub fn message(&self) -> (text: String)
        ensures
            text@ == diagnostic(self@),
    {
        match self {
            Failure::Io { path, detail } => {
                let mut text = String::from_str("could not read config '");
                text.append(path.as_str());
                text.append("': ");
                text.append(detail.as_str());
                text
            },
            Failure::Parse { detail } => {
                let mut text = String::from_str("could not parse config: ");
                text.append(detail.as_str());
                text
            },
            Failure::Network { exchange, detail } => {
                let mut text = String::from_str("Could not ");
                text.append(exchange.phrase());
                text.append(": network error: ");
                text.append(detail.as_str());
                text
            },
            Failure::ResponseShape { exchange, detail } => {
                let mut text = String::from_str("Could not ");
                text.append(exchange.phrase());
                text.append(": unexpected response: ");
                text.append(detail.as_str());
                text
            },
        }
    }
}

impl Clone for Failure {
    /// A copy that holds the same content.
    fn clone(&self) -> (copy: Failure)
        ensures
            copy@ == self@,
    {
        match self {
            Failure::Io { path, detail } => Failure::Io {
                path: path.clone(),
                detail: detail.clone(),
            },
            Failure::Parse { detail } => Failure::Parse { detail: detail.clone() },
            Failure::Network { exchange, detail } => Failure::Network {
                exchange: *exchange,
                detail: detail.clone(),
            },
            Failure::ResponseShape { exchange, detail } => Failure::ResponseShape {
                exchange: *exchange,
                detail: detail.clone(),
            },
        }
    }
}

} // verus!
