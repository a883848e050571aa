//! What is sent: the address of each service and the body of each request.

use vstd::prelude::*;
use vstd::string::StringExecFns;
use crate::failure::{Failure, FailureView, NO_DOMAIN_DETAIL};
use crate::model::{
    Config, ConfigView, DomainEntryView, QueryRequest, QueryRequestView, Target, TargetView,
    UpdateRequest, UpdateRequestView,
};

verus! {

/// The service that answers with the caller's public address as plain text.
pub const IP_SERVICE_URL: &'static str = "https://checkip.amazonaws.com/";

/// The provider's endpoint for reading a record; the record's domain, type
/// and subdomain follow it.
pub const RETRIEVE_ENDPOINT: &'static str =
    "https://porkbun.com/api/json/v3/dns/retrieveByNameType/";

/// The provider's endpoint for editing a record; the record's domain, type
/// and subdomain follow it.
pub const EDIT_ENDPOINT: &'static str = "https://porkbun.com/api/json/v3/dns/editByNameType/";

/// The time to live that every update asks for. It is not configurable.
pub const UPDATE_TTL: &'static str = "600";

/// The longest that a driver may wait for one request to be answered, in
/// seconds.
pub const REQUEST_TIMEOUT_SECONDS: u64 = 30;

/// The usable form of a configuration: its credential and its first record.
/// A configuration without a record has none.
pub open spec fn target_of(config: ConfigView) -> Option<TargetView> {
    if config.domains.len() == 0 {
        None
    } else {
        Some(
            TargetView {
                secretkey: config.secretkey,
                apikey: config.apikey,
                entry: config.domains[0],
            },
        )
    }
}

/// The failure that a configuration without a record is rejected with.
pub open spec fn no_domain_failure() -> FailureView {
    FailureView::Parse { detail: NO_DOMAIN_DETAIL@ }
}

/// An endpoint followed by the record's domain, type and subdomain, each
/// taken as it is written and separated by a slash.
pub open spec fn record_url(endpoint: Seq<char>, entry: DomainEntryView) -> Seq<char> {
    endpoint + entry.domain + "/"@ + entry.dns_entry_type + "/"@ + entry.subdomain
}

/// The body of a query: the credential, passed on as it is.
pub open spec fn query_request_of(target: TargetView) -> QueryRequestView {
    QueryRequestView { secretapikey: target.secretkey, apikey: target.apikey }
}

/// The body of an update: the credential, the new address as content and
/// the fixed time to live.
pub open spec fn update_request_of(target: TargetView, current_ip: Seq<char>) -> UpdateRequestView {
    UpdateRequestView {
        secretapikey: target.secretkey,
        apikey: target.apikey,
        content: current_ip,
        ttl: UPDATE_TTL@,
    }
}

impl Config {
    /// Picks the record that the run is about: the first one. A
    /// configuration that names no record is rejected.
    pub fn target(&self) -> (picked: Result<Target, Failure>)
        ensures
            match picked {
                Ok(target) => target_of(self@) == Some(target@),
                Err(failure) => target_of(self@).is_none() && failure@ == no_domain_failure(),
            },
    {
        if self.domains.len() == 0 {
            Err(Failure::Parse { detail: String::from_str(NO_DOMAIN_DETAIL) })
        } else {
            Ok(
                Target {
                    secretkey: self.secretkey.clone(),
                    apikey: self.apikey.clone(),
                    entry: self.domains[0].clone(),
                },
            )
        }
    }
}

impl Target {
    /// The address at which the provider answers a query for the record.
    pub fn retrieve_url(&self) -> (url: String)
        ensures
            url@ == record_url(RETRIEVE_ENDPOINT@, self@.entry),
    {
        let mut url = String::from_str(RETRIEVE_ENDPOINT);
        url.append(self.entry.domain.as_str());
        url.append("/");
        url.append(self.entry.dns_entry_type.as_str());
        url.append("/");
        url.append(self.entry.subdomain.as_str());
        url
    }

    /// The address at which the provider takes an update of the record.
    pub fn edit_url(&self) -> (url: String)
        ensures
            url@ == record_url(EDIT_ENDPOINT@, self@.entry),
    {
        let mut url = String::from_str(EDIT_ENDPOINT);
        url.append(self.entry.domain.as_str());
        url.append("/");
        url.append(self.entry.dns_entry_type.as_str());
        url.append("/");
        url.append(self.entry.subdomain.as_str());
        url
    }

    /// The body of the query for the record.
    pub fn query_request(&self) -> (body: QueryRequest)
        ensures
            body@ == query_request_of(self@),
    {
        QueryRequest { secretapikey: self.secretkey.clone(), apikey: self.apikey.clone() }
    }

    /// The body of the update that publishes `current_ip`.
    pub fn update_request(&self, current_ip: &str) -> (body: UpdateRequest)
        ensures
            body@ == update_request_of(self@, current_ip@),
    {
        UpdateRequest {
            secretapikey: self.secretkey.clone(),
            apikey: self.apikey.clone(),
            content: String::from_str(current_ip),
            ttl: String::from_str(UPDATE_TTL),
        }
    }
}

} // verus!
