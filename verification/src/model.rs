//! The values that pass through one run: the configuration, the bodies of
//! the requests sent to the DNS provider and the answers it gives.
//!
//! Each type has a view that holds the same content as sequences of
//! characters; the contracts of the crate are stated over these views.

use vstd::prelude::*;

verus! {

/// One DNS record that the configuration asks to keep up to date.
#[derive(Debug, PartialEq, Eq)]
pub struct DomainEntry {
    pub domain: String,
    pub dns_entry_type: String,
    pub subdomain: String,
}

/// What a [`DomainEntry`] holds.
pub struct DomainEntryView {
    pub domain: Seq<char>,
    pub dns_entry_type: Seq<char>,
    pub subdomain: Seq<char>,
}

impl View for DomainEntry {
    type V = DomainEntryView;

    open spec fn view(&self) -> DomainEntryView {
        DomainEntryView {
            domain: self.domain@,
            dns_entry_type: self.dns_entry_type@,
            subdomain: self.subdomain@,
        }
    }
}

impl Clone for DomainEntry {
    /// A copy that holds the same three strings.
    fn clone(&self) -> (copy: DomainEntry)
        ensures
            copy@ == self@,
    {
        DomainEntry {
            domain: self.domain.clone(),
            dns_entry_type: self.dns_entry_type.clone(),
            subdomain: self.subdomain.clone(),
        }
    }
}

/// The configuration as it is written in the configuration file: the two
/// halves of the provider credential and the records to look after. Only
/// the first entry of `domains` is ever used.
#[derive(Clone, Debug, PartialEq, Eq)]
pub struct Config {
    pub secretkey: String,
    pub apikey: String,
    pub domains: Vec<DomainEntry>,
}

/// What a [`Config`] holds.
pub struct ConfigView {
    pub secretkey: Seq<char>,
    pub apikey: Seq<char>,
    pub domains: Seq<DomainEntryView>,
}

impl View for Config {
    type V = ConfigView;

    open spec fn view(&self) -> ConfigView {
        ConfigView {
            secretkey: self.secretkey@,
            apikey: self.apikey@,
            domains: self.domains@.map_values(|entry: DomainEntry| entry@),
        }
    }
}

/// A configuration that has been found usable: the credential and the one
/// record that the run is about.
#[derive(Debug, PartialEq, Eq)]
pub struct Target {
    pub secretkey: String,
    pub apikey: String,
    pub entry: DomainEntry,
}

/// What a [`Target`] holds.
pub struct TargetView {
    pub secretkey: Seq<char>,
    pub apikey: Seq<char>,
    pub entry: DomainEntryView,
}

impl View for Target {
    type V = TargetView;

    open spec fn view(&self) -> TargetView {
        TargetView { secretkey: self.secretkey@, apikey: self.apikey@, entry: self.entry@ }
    }
}

impl Clone for Target {
    /// A copy that holds the same content.
    fn clone(&self) -> (copy: Target)
        ensures
            copy@ == self@,
    {
        Target {
            secretkey: self.secretkey.clone(),
            apikey: self.apikey.clone(),
            entry: self.entry.clone(),
        }
    }
}

/// The body of the request that asks the provider for the published record.
#[derive(Clone, Debug, PartialEq, Eq)]
pub struct QueryRequest {
    pub secretapikey: String,
    pub apikey: String,
}

/// What a [`QueryRequest`] holds.
pub struct QueryRequestView {
    pub secretapikey: Seq<char>,
    pub apikey: Seq<char>,
}

impl View for QueryRequest {
    type V = QueryRequestView;

    open spec fn view(&self) -> QueryRequestView {
        QueryRequestView { secretapikey: self.secretapikey@, apikey: self.apikey@ }
    }
}

/// The body of the request that asks the provider to publish new content.
#[derive(Clone, Debug, PartialEq, Eq)]
pub struct UpdateRequest {
    pub secretapikey: String,
    pub apikey: String,
    pub content: String,
    pub ttl: String,
}

/// What an [`UpdateRequest`] holds.
pub struct UpdateRequestView {
    pub secretapikey: Seq<char>,
    pub apikey: Seq<char>,
    pub content: Seq<char>,
    pub ttl: Seq<char>,
}

impl View for UpdateRequest {
    type V = UpdateRequestView;

    open spec fn view(&self) -> UpdateRequestView {
        UpdateRequestView {
            secretapikey: self.secretapikey@,
            apikey: self.apikey@,
            content: self.content@,
            ttl: self.ttl@,
        }
    }
}

/// One record of the provider's answer to a query. Only `content`, the
/// address that is published at the moment, is ever consulted.
#[derive(Clone, Debug, PartialEq, Eq)]
pub struct DnsRecord {
    pub id: String,
    pub name: String,
    pub type_: String,
    pub content: String,
    pub ttl: String,
    pub prio: String,
    pub notes: Option<String>,
}

/// What a [`DnsRecord`] holds.
pub struct DnsRecordView {
    pub id: Seq<char>,
    pub name: Seq<char>,
    pub type_: Seq<char>,
    pub content: Seq<char>,
    pub ttl: Seq<char>,
    pub prio: Seq<char>,
    pub notes: Option<Seq<char>>,
}

/// The characters of an optional string.
pub open spec fn optional_text(text: Option<String>) -> Option<Seq<char>> {
    match text {
        Some(s) => Some(s@),
        None => None,
    }
}

impl View for DnsRecord {
    type V = DnsRecordView;

    open spec fn view(&self) -> DnsRecordView {
        DnsRecordView {
            id: self.id@,
            name: self.name@,
            type_: self.type_@,
            content: self.content@,
            ttl: self.ttl@,
            prio: self.prio@,
            notes: optional_text(self.notes),
        }
    }
}

/// The provider's answer to a query.
#[derive(Clone, Debug, PartialEq, Eq)]
pub struct QueryResponse {
    pub status: String,
    pub records: Vec<DnsRecord>,
}

/// What a [`QueryResponse`] holds.
pub struct QueryResponseView {
    pub status: Seq<char>,
    pub records: Seq<DnsRecordView>,
}

impl View for QueryResponse {
    type V = QueryResponseView;

    open spec fn view(&self) -> QueryResponseView {
        QueryResponseView {
            status: self.status@,
            records: self.records@.map_values(|record: DnsRecord| record@),
        }
    }
}

/// The provider's answer to an update.
#[derive(Clone, Debug, PartialEq, Eq)]
pub struct UpdateResponse {
    pub status: String,
    pub message: Option<String>,
}

/// What an [`UpdateResponse`] holds.
pub struct UpdateResponseView {
    pub status: Seq<char>,
    pub message: Option<Seq<char>>,
}

impl View for UpdateResponse {
    type V = UpdateResponseView;

    open spec fn view(&self) -> UpdateResponseView {
        UpdateResponseView { status: self.status@, message: optional_text(self.message) }
    }
}

} // verus!
