#![allow(non_snake_case)]

use vstd::prelude::*;

use std::collections::HashMap;

use crate::bindings::url_with_params;
use crate::errors::{ConsulError, ErrorKind};
use crate::params::{set_param, Pair, Params};
use crate::request::{
    is_request_for, opt_view, read_query, read_request, target_of, Request, Verb,
};
use crate::{Client, QueryOptions};

verus! {

/// A health check of a node or a service.
#[derive(Eq, Default, PartialEq, Debug)]
pub struct HealthCheck {
    pub Node: String,
    pub CheckID: String,
    pub Name: String,
    pub Status: String,
    pub Notes: String,
    pub Output: String,
    pub ServiceID: String,
    pub ServiceName: String,
    pub ServiceTags: Option<Vec<String>>,
}

/// A node of the catalog.
#[derive(Eq, Default, PartialEq, Debug)]
pub struct Node {
    pub ID: String,
    pub Node: String,
    pub Address: String,
    pub Datacenter: Option<String>,
    pub TaggedAddresses: Option<HashMap<String, String>>,
    pub Meta: Option<HashMap<String, String>>,
    pub CreateIndex: u64,
    pub ModifyIndex: u64,
}

/// A service as an agent registers it.
#[derive(Eq, Default, PartialEq, Debug)]
pub struct AgentService {
    pub ID: String,
    pub Service: String,
    pub Tags: Option<Vec<String>>,
    pub Port: u16,
    pub Address: String,
    pub EnableTagOverride: bool,
    pub CreateIndex: u64,
    pub ModifyIndex: u64,
}

/// An instance of a service: its node, the service, and their checks.
#[derive(Eq, Default, PartialEq, Debug)]
pub struct ServiceEntry {
    pub Node: Node,
    pub Service: AgentService,
    pub Checks: Vec<HealthCheck>,
}

/// The resource path of the health of `service`.
pub open spec fn service_path(service: Seq<char>) -> Seq<char> {
    "/v1/health/service/"@ + service
}

/// The parameters of a health query: `passing=1` where only passing
/// instances are asked for, then `tag` where one is given.
pub open spec fn service_query(tag: Option<Seq<char>>, passing_only: bool) -> Seq<Pair> {
    let s = if passing_only {
        set_param(Seq::empty(), "passing"@, "1"@)
    } else {
        Seq::empty()
    };
    match tag {
        Some(t) => set_param(s, "tag"@, t),
        None => s,
    }
}

/// The text of an optional string slice.
pub open spec fn opt_str_view(o: Option<&str>) -> Option<Seq<char>> {
    match o {
        Some(s) => Some(s@),
        None => None,
    }
}

/// The parameters of a health query, as `service_query` gives them.
pub fn service_params(tag: Option<&str>, passing_only: bool) -> (r: Params)
    ensures
        r.wf(),
        r@ == service_query(opt_str_view(tag), passing_only),
{
    let mut params = Params::new();
    if passing_only {
        params.insert(String::from_str("passing"), String::from_str("1"));
    }
    match tag {
        Some(t) => params.insert(String::from_str("tag"), String::from_str(t)),
        None => {},
    }
    params
}

/// The path of the health of `service`.
pub fn service_path_text(service: &str) -> (r: String)
    ensures
        r@ == service_path(service@),
{
    let mut path = String::from_str("/v1/health/service/");
    path.append(service);
    path
}

/// The read of the instances of `service`, with their checks: only passing
/// ones where `passing_only` holds, only those with `tag` where one is given.
pub fn service_request<H>(
    client: &Client<H>,
    service: &str,
    tag: Option<&str>,
    passing_only: bool,
    options: Option<&QueryOptions>,
) -> (r: Result<Request, ConsulError>)
    ensures
        match r {
            Ok(req) => is_request_for(
                req,
                Verb::Get,
                target_of(client.config(), service_path(service@)),
                read_query(service_query(opt_str_view(tag), passing_only), client.config(), options),
                opt_view(client.config().token),
                None,
            ),
            Err(e) => e.kind == ErrorKind::UrlConstruction && url_with_params(
                target_of(client.config(), service_path(service@)),
                read_query(service_query(opt_str_view(tag), passing_only), client.config(), options),
            ) is None,
        },
{
    let path = service_path_text(service);
    let params = service_params(tag, passing_only);
    read_request(path.as_str(), client.configuration(), params, options)
}

} // verus!
