//! What is decided: which address is published at the moment, whether an
//! update is due, and what is reported once the provider has answered.

use vstd::prelude::*;
use vstd::string::StringExecFns;
use crate::failure::{Exchange, Failure, FailureView, NO_RECORD_DETAIL};
use crate::model::{
    QueryResponse, QueryResponseView, Target, TargetView, UpdateRequest, UpdateRequestView,
    UpdateResponse, UpdateResponseView,
};
use crate::request::{record_url, update_request_of, EDIT_ENDPOINT};

verus! {

/// The status with which the provider confirms an update. Every other
/// status means that the update was refused.
pub const SUCCESS_STATUS: &'static str = "SUCCESS";

/// The failure that an answer without a record is rejected with.
pub open spec fn no_record_failure() -> FailureView {
    FailureView::ResponseShape { exchange: Exchange::ReadRecord, detail: NO_RECORD_DETAIL@ }
}

/// The address that is published at the moment: the content of the first
/// record of the answer. An answer without a record holds none.
pub open spec fn published_content(response: QueryResponseView) -> Option<Seq<char>> {
    if response.records.len() == 0 {
        None
    } else {
        Some(response.records[0].content)
    }
}

/// The line that reports that the published address is the current one.
pub open spec fn unchanged_message(current_ip: Seq<char>, current_dns_entry: Seq<char>) -> Seq<
    char,
> {
    "Current IP: "@ + current_ip + ", identical to current DNS Entry, "@ + current_dns_entry
        + ". Not updating."@
}

/// The line that reports that the provider has published the new address.
pub open spec fn updated_message(current_ip: Seq<char>) -> Seq<char> {
    "Updated DNS Entry to "@ + current_ip
}

/// The line that reports that the provider has refused the update. It
/// names the address that stays published and the one that was offered.
pub open spec fn refused_message(current_dns_entry: Seq<char>, current_ip: Seq<char>) -> Seq<
    char,
> {
    "Could not update DNS Entry. "@ + current_dns_entry + " -> "@ + current_ip
}

/// What is to be done once both addresses are known.
#[derive(Clone, Debug, PartialEq, Eq)]
pub enum UpdatePlan {
    /// The two addresses are the same: nothing is sent, and `message` is
    /// the line to report.
    Skip { message: String },
    /// The two addresses differ: `payload` is to be posted to `url`.
    Send { url: String, payload: UpdateRequest },
}

/// What an [`UpdatePlan`] holds.
pub enum UpdatePlanView {
    Skip { message: Seq<char> },
    Send { url: Seq<char>, payload: UpdateRequestView },
}

impl View for UpdatePlan {
    type V = UpdatePlanView;

    open spec fn view(&self) -> UpdatePlanView {
        match *self {
            UpdatePlan::Skip { message } => UpdatePlanView::Skip { message: message@ },
            UpdatePlan::Send { url, payload } => UpdatePlanView::Send {
                url: url@,
                payload: payload@,
            },
        }
    }
}

/// The rule of the whole run: an update is sent exactly when the current
/// address is not, character for character, the published one. Neither
/// string is trimmed or otherwise normalised before the comparison.
pub open spec fn plan_of(
    current_ip: Seq<char>,
    current_dns_entry: Seq<char>,
    target: TargetView,
) -> UpdatePlanView {
    if current_ip == current_dns_entry {
        UpdatePlanView::Skip { message: unchanged_message(current_ip, current_dns_entry) }
    } else {
        UpdatePlanView::Send {
            url: record_url(EDIT_ENDPOINT@, target.entry),
            payload: update_request_of(target, current_ip),
        }
    }
}

/// The line that reports the provider's answer to an update.
pub open spec fn outcome_of(
    response: UpdateResponseView,
    current_dns_entry: Seq<char>,
    current_ip: Seq<char>,
) -> Seq<char> {
    if response.status == SUCCESS_STATUS@ {
        updated_message(current_ip)
    } else {
        refused_message(current_dns_entry, current_ip)
    }
}

/// Reads the address that is published at the moment out of the provider's
/// answer to a query. An answer without a record is an error of shape.
pub fn current_dns_entry(response: &QueryResponse) -> (content: Result<String, Failure>)
    ensures
        match content {
            Ok(text) => published_content(response@) == Some(text@),
            Err(failure) => published_content(response@).is_none() && failure@
                == no_record_failure(),
        },
{
    if response.records.len() == 0 {
        Err(
            Failure::ResponseShape {
                exchange: Exchange::ReadRecord,
                detail: String::from_str(NO_RECORD_DETAIL),
            },
        )
    } else {
        Ok(response.records[0].content.clone())
    }
}

/// Builds the line that reports that nothing was sent.
pub fn unchanged_report(current_ip: &String, current_dns_entry: &String) -> (message: String)
    ensures
        message@ == unchanged_message(current_ip@, current_dns_entry@),
{
    let mut message = String::from_str("Current IP: ");
    message.append(current_ip.as_str());
    message.append(", identical to current DNS Entry, ");
    message.append(current_dns_entry.as_str());
    message.append(". Not updating.");
    message
}

/// Decides whether the record is to be updated, and with what.
pub fn plan_update(
    current_ip: &String,
    current_dns_entry: &String,
    target: &Target,
) -> (plan: UpdatePlan)
    ensures
        plan@ == plan_of(current_ip@, current_dns_entry@, target@),
{
    if *current_ip == *current_dns_entry {
        UpdatePlan::Skip { message: unchanged_report(current_ip, current_dns_entry) }
    } else {
        UpdatePlan::Send {
            url: target.edit_url(),
            payload: target.update_request(current_ip.as_str()),
        }
    }
}

/// Turns the provider's answer to an update into the line to report. A
/// refusal is reported, not raised: the run still ends well.
pub fn update_outcome(
    response: &UpdateResponse,
    current_dns_entry: &String,
    current_ip: &String,
) -> (message: String)
    ensures
        message@ == outcome_of(response@, current_dns_entry@, current_ip@),
{
    let confirmed = String::from_str(SUCCESS_STATUS);
    if response.status == confirmed {
        let mut message = String::from_str("Updated DNS Entry to ");
        message.append(current_ip.as_str());
        message
    } else {
        let mut message = String::from_str("Could not update DNS Entry. ");
        message.append(current_dns_entry.as_str());
        message.append(" -> ");
        message.append(current_ip.as_str());
        message
    }
}

} // verus!
