use vstd::prelude::*;

use crate::bindings::{parse_url_with_params, url_with_params, whole_seconds};
use crate::decimal::{decimal, decimal_u64, parse_decimal_u64, to_decimal};
use crate::errors::{ConsulError, ErrorKind};
use crate::params::{
    has_key, keys_distinct, lemma_set_param, pairs_map, pairs_view, set_param, Pair, Params,
};
use crate::{Config, QueryMeta, QueryOptions, WriteMeta, WriteOptions};

verus! {

/// The status code of a response for a resource that does not exist.
pub const NOT_FOUND: u16 = 404;

/// The HTTP method of a request.
#[derive(Clone, Copy, Debug, PartialEq, Eq, Structural)]
pub enum Verb {
    Get,
    Put,
    Delete,
}

/// The method of a write.
#[derive(Clone, Copy, Debug, PartialEq, Eq, Structural)]
pub enum WriteVerb {
    Put,
    Delete,
}

/// The method that a write is sent with.
pub open spec fn write_method(w: WriteVerb) -> Verb {
    match w {
        WriteVerb::Put => Verb::Put,
        WriteVerb::Delete => Verb::Delete,
    }
}

/// A request ready to be sent: its method, the address and path it goes to,
/// its query parameters, the full URL, its headers and its JSON body.
#[derive(Debug)]
pub struct Request {
    pub verb: Verb,
    pub target: String,
    pub query: Params,
    pub url: String,
    pub headers: Vec<(String, String)>,
    pub body: Option<Vec<u8>>,
}

/// The text of an optional string.
pub open spec fn opt_view(o: Option<String>) -> Option<Seq<char>> {
    match o {
        Some(s) => Some(s@),
        None => None,
    }
}

/// The datacenter of a call: the per-call one, else the configured one, else none.
pub open spec fn chosen_datacenter(per_call: Option<String>, configured: Option<String>) -> Option<
    Seq<char>,
> {
    match per_call {
        Some(d) => Some(d@),
        None => opt_view(configured),
    }
}

/// The per-call datacenter of a read.
pub open spec fn read_datacenter(options: Option<&QueryOptions>) -> Option<String> {
    match options {
        Some(o) => o.datacenter,
        None => None,
    }
}

/// The per-call datacenter of a write.
pub open spec fn write_datacenter(options: Option<&WriteOptions>) -> Option<String> {
    match options {
        Some(o) => o.datacenter,
        None => None,
    }
}

/// The parameters `s` with `dc` set to `dc`, if there is one.
pub open spec fn with_datacenter(s: Seq<Pair>, dc: Option<Seq<char>>) -> Seq<Pair> {
    match dc {
        Some(d) => set_param(s, "dc"@, d),
        None => s,
    }
}

/// The value of the `wait` parameter: whole seconds followed by `s`.
pub open spec fn wait_text(secs: u64) -> Seq<char> {
    decimal(secs as nat) + "s"@
}

/// The parameters of a read: the base ones, then `dc`, then `index` and
/// `wait` from the per-call options.
pub open spec fn read_query<H>(
    base: Seq<Pair>,
    config: Config<H>,
    options: Option<&QueryOptions>,
) -> Seq<Pair> {
    let s1 = with_datacenter(base, chosen_datacenter(read_datacenter(options), config.datacenter));
    match options {
        None => s1,
        Some(o) => {
            let s2 = match o.wait_index {
                Some(i) => set_param(s1, "index"@, decimal(i as nat)),
                None => s1,
            };
            match o.wait_time {
                Some(t) => set_param(s2, "wait"@, wait_text(whole_seconds(t))),
                None => s2,
            }
        },
    }
}

/// The parameters of a write: the base ones, then `dc`.
pub open spec fn write_query<H>(
    base: Seq<Pair>,
    config: Config<H>,
    options: Option<&WriteOptions>,
) -> Seq<Pair> {
    with_datacenter(base, chosen_datacenter(write_datacenter(options), config.datacenter))
}

/// The headers of a request: the token, where one is configured, and the
/// content type, where a JSON body goes with it.
pub open spec fn request_headers(token: Option<Seq<char>>, json_body: bool) -> Seq<Pair> {
    let t = match token {
        Some(t) => seq![("X-Consul-Token"@, t)],
        None => Seq::empty(),
    };
    if json_body {
        t.push(("Content-Type"@, "application/json"@))
    } else {
        t
    }
}

/// What a request to `target` with the parameters `query` is, when the URL can be formed.
pub open spec fn is_request_for(
    r: Request,
    verb: Verb,
    target: Seq<char>,
    query: Seq<Pair>,
    token: Option<Seq<char>>,
    body: Option<Vec<u8>>,
) -> bool {
    &&& r.verb == verb
    &&& r.target@ == target
    &&& r.query.wf()
    &&& r.query@ == query
    &&& url_with_params(target, query) == Some(r.url@)
    &&& pairs_view(r.headers@) == request_headers(token, body is Some)
    &&& r.body == body
}

fn set_datacenter(params: &mut Params, per_call: &Option<String>, configured: &Option<String>)
    requires
        old(params).wf(),
    ensures
        final(params).wf(),
        final(params)@ == with_datacenter(old(params)@, chosen_datacenter(*per_call, *configured)),
{
    let dc: Option<&String> = match per_call {
        Some(d) => Some(d),
        None => match configured {
            Some(d) => Some(d),
            None => None,
        },
    };
    match dc {
        Some(d) => params.insert(String::from_str("dc"), d.clone()),
        None => {},
    }
}

/// The parameters of a read: `params`, then `dc` from the per-call options or
/// else the configuration, then `index` and `wait` from the per-call options.
pub fn read_params<H>(params: Params, config: &Config<H>, options: Option<&QueryOptions>) -> (r:
    Params)
    requires
        params.wf(),
    ensures
        r.wf(),
        r@ == read_query(params@, *config, options),
{
    let mut params = params;
    match options {
        Some(o) => set_datacenter(&mut params, &o.datacenter, &config.datacenter),
        None => set_datacenter(&mut params, &None, &config.datacenter),
    }
    match options {
        Some(o) => {
            match o.wait_index {
                Some(index) => params.insert(String::from_str("index"), to_decimal(index)),
                None => {},
            }
            match &o.wait_time {
                Some(t) => {
                    let mut wait = to_decimal(t.as_secs());
                    wait.append("s");
                    params.insert(String::from_str("wait"), wait);
                },
                None => {},
            }
        },
        None => {},
    }
    params
}

/// The parameters of a write: `params`, then `dc` from the per-call options
/// or else the configuration. A write never waits, so it sends no `index`
/// and no `wait`.
pub fn write_params<H>(params: Params, config: &Config<H>, options: Option<&WriteOptions>) -> (r:
    Params)
    requires
        params.wf(),
    ensures
        r.wf(),
        r@ == write_query(params@, *config, options),
{
    let mut params = params;
    match options {
        Some(o) => set_datacenter(&mut params, &o.datacenter, &config.datacenter),
        None => set_datacenter(&mut params, &None, &config.datacenter),
    }
    params
}

fn header_pairs(token: &Option<String>, json_body: bool) -> (r: Vec<(String, String)>)
    ensures
        pairs_view(r@) == request_headers(opt_view(*token), json_body),
{
    let mut headers: Vec<(String, String)> = Vec::new();
    match token {
        Some(t) => headers.push((String::from_str("X-Consul-Token"), t.clone())),
        None => {},
    }
    if json_body {
        headers.push((String::from_str("Content-Type"), String::from_str("application/json")));
    }
    assert(pairs_view(headers@) =~= request_headers(opt_view(*token), json_body));
    headers
}

fn build_request(
    verb: Verb,
    target: String,
    query: Params,
    token: &Option<String>,
    body: Option<Vec<u8>>,
) -> (r: Result<Request, ConsulError>)
    requires
        query.wf(),
    ensures
        match r {
            Ok(req) => is_request_for(req, verb, target@, query@, opt_view(*token), body),
            Err(e) => e.kind == ErrorKind::UrlConstruction && url_with_params(target@, query@) is None,
        },
{
    match parse_url_with_params(target.as_str(), query.pairs()) {
        Ok(url) => {
            let headers = header_pairs(token, body.is_some());
            Ok(Request { verb, target, query, url, headers, body })
        },
        Err(_) => Err(ConsulError::new(ErrorKind::UrlConstruction, None)),
    }
}

/// The configured address followed by the resource path.
pub open spec fn target_of<H>(config: Config<H>, path: Seq<char>) -> Seq<char> {
    config.address@ + path
}

fn target_text<H>(config: &Config<H>, path: &str) -> (r: String)
    ensures
        r@ == target_of(*config, path@),
{
    let mut target = config.address.clone();
    target.append(path);
    target
}

/// The GET request of a read of `path`: the parameters merged as
/// `read_params` does, the token header where one is configured, no body.
/// It fails with `UrlConstruction` exactly where the URL cannot be formed.
pub fn read_request<H>(
    path: &str,
    config: &Config<H>,
    params: Params,
    options: Option<&QueryOptions>,
) -> (r: Result<Request, ConsulError>)
    requires
        params.wf(),
    ensures
        match r {
            Ok(req) => is_request_for(
                req,
                Verb::Get,
                target_of(*config, path@),
                read_query(params@, *config, options),
                opt_view(config.token),
                None,
            ),
            Err(e) => e.kind == ErrorKind::UrlConstruction && url_with_params(
                target_of(*config, path@),
                read_query(params@, *config, options),
            ) is None,
        },
{
    let query = read_params(params, config, options);
    let target = target_text(config, path);
    build_request(Verb::Get, target, query, &config.token, None)
}

/// The request of a write of `path` with `verb`: the parameters merged as
/// `write_params` does, the token header where one is configured, and the
/// JSON `body`, if any, with its content type. It fails with
/// `UrlConstruction` exactly where the URL cannot be formed.
pub fn write_with_body<H>(
    verb: WriteVerb,
    path: &str,
    body: Option<Vec<u8>>,
    config: &Config<H>,
    params: Params,
    options: Option<&WriteOptions>,
) -> (r: Result<Request, ConsulError>)
    requires
        params.wf(),
    ensures
        match r {
            Ok(req) => is_request_for(
                req,
                write_method(verb),
                target_of(*config, path@),
                write_query(params@, *config, options),
                opt_view(config.token),
                body,
            ),
            Err(e) => e.kind == ErrorKind::UrlConstruction && url_with_params(
                target_of(*config, path@),
                write_query(params@, *config, options),
            ) is None,
        },
{
    let query = write_params(params, config, options);
    let target = target_text(config, path);
    let method = match verb {
        WriteVerb::Put => Verb::Put,
        WriteVerb::Delete => Verb::Delete,
    };
    build_request(method, target, query, &config.token, body)
}

/// The PUT request of a write of `path`, with the JSON `body`, if any.
pub fn put_request<H>(
    path: &str,
    body: Option<Vec<u8>>,
    config: &Config<H>,
    params: Params,
    options: Option<&WriteOptions>,
) -> (r: Result<Request, ConsulError>)
    requires
        params.wf(),
    ensures
        match r {
            Ok(req) => is_request_for(
                req,
                Verb::Put,
                target_of(*config, path@),
                write_query(params@, *config, options),
                opt_view(config.token),
                body,
            ),
            Err(e) => e.kind == ErrorKind::UrlConstruction && url_with_params(
                target_of(*config, path@),
                write_query(params@, *config, options),
            ) is None,
        },
{
    write_with_body(WriteVerb::Put, path, body, config, params, options)
}

/// The DELETE request of `path`, with no body.
pub fn delete_request<H>(
    path: &str,
    config: &Config<H>,
    params: Params,
    options: Option<&WriteOptions>,
) -> (r: Result<Request, ConsulError>)
    requires
        params.wf(),
    ensures
        match r {
            Ok(req) => is_request_for(
                req,
                Verb::Delete,
                target_of(*config, path@),
                write_query(params@, *config, options),
                opt_view(config.token),
                None,
            ),
            Err(e) => e.kind == ErrorKind::UrlConstruction && url_with_params(
                target_of(*config, path@),
                write_query(params@, *config, options),
            ) is None,
        },
{
    write_with_body(WriteVerb::Delete, path, None, config, params, options)
}

/// What the consistency-index header says: nothing where it is absent, its
/// number where it is a decimal `u64`, and an `IndexParse` error otherwise.
pub fn parse_index(header: Option<&[u8]>) -> (r: Result<Option<u64>, ConsulError>)
    ensures
        match header {
            None => r == Ok::<Option<u64>, ConsulError>(None),
            Some(h) => match decimal_u64(h@) {
                Some(n) => r == Ok::<Option<u64>, ConsulError>(Some(n)),
                None => r is Err && r->Err_0.kind == ErrorKind::IndexParse,
            },
        },
{
    match header {
        None => Ok(None),
        Some(h) => match parse_decimal_u64(h) {
            Some(n) => Ok(Some(n)),
            None => Err(ConsulError::new(ErrorKind::IndexParse, None)),
        },
    }
}

/// Whether a collection read decodes the body of a response with `status`:
/// a 404 stands for an empty collection and carries no body.
pub fn collection_body_wanted(status: u16) -> (r: bool)
    ensures
        r == (status != NOT_FOUND),
{
    status != NOT_FOUND
}

/// The outcome of a read, given the decoded body and the index header: the
/// body's error first, then the header's, else the payload with the index
/// and the elapsed time.
pub fn finish_read<T>(
    body: Result<T, ConsulError>,
    index_header: Option<&[u8]>,
    request_time: core::time::Duration,
) -> (r: Result<(T, QueryMeta), ConsulError>)
    ensures
        match body {
            Err(e) => r == Err::<(T, QueryMeta), ConsulError>(e),
            Ok(v) => match index_header {
                None => r == Ok::<(T, QueryMeta), ConsulError>(
                    (v, QueryMeta { last_index: None, request_time }),
                ),
                Some(h) => match decimal_u64(h@) {
                    Some(n) => r == Ok::<(T, QueryMeta), ConsulError>(
                        (v, QueryMeta { last_index: Some(n), request_time }),
                    ),
                    None => r is Err && r->Err_0.kind == ErrorKind::IndexParse,
                },
            },
        },
{
    match body {
        Err(e) => Err(e),
        Ok(v) => match parse_index(index_header) {
            Ok(last_index) => Ok((v, QueryMeta { last_index, request_time })),
            Err(e) => Err(e),
        },
    }
}

/// The outcome of a collection read with `status`: for a 404 an empty
/// collection, whatever `body` holds; otherwise as `finish_read` on `body`.
/// The index comes from the header either way.
pub fn finish_collection_read<T>(
    status: u16,
    body: Option<Result<Vec<T>, ConsulError>>,
    index_header: Option<&[u8]>,
    request_time: core::time::Duration,
) -> (r: Result<(Vec<T>, QueryMeta), ConsulError>)
    requires
        status != NOT_FOUND ==> body is Some,
    ensures
        ({
            let decoded = if status == NOT_FOUND {
                Ok::<Seq<T>, ConsulError>(Seq::empty())
            } else {
                match body.unwrap() {
                    Ok(v) => Ok::<Seq<T>, ConsulError>(v@),
                    Err(e) => Err::<Seq<T>, ConsulError>(e),
                }
            };
            match decoded {
                Err(e) => r == Err::<(Vec<T>, QueryMeta), ConsulError>(e),
                Ok(v) => match index_header {
                    None => r is Ok && r->Ok_0.0@ == v && r->Ok_0.1 == QueryMeta {
                        last_index: None,
                        request_time,
                    },
                    Some(h) => match decimal_u64(h@) {
                        Some(n) => r is Ok && r->Ok_0.0@ == v && r->Ok_0.1 == QueryMeta {
                            last_index: Some(n),
                            request_time,
                        },
                        None => r is Err && r->Err_0.kind == ErrorKind::IndexParse,
                    },
                },
            }
        }),
{
    let decoded: Result<Vec<T>, ConsulError> = if status == NOT_FOUND {
        Ok(Vec::new())
    } else {
        match body {
            Some(b) => b,
            None => Ok(Vec::new()),
        }
    };
    finish_read(decoded, index_header, request_time)
}

/// The outcome of a write: the decoded body with the elapsed time, or the
/// body's error.
pub fn finish_write<T>(body: Result<T, ConsulError>, request_time: core::time::Duration) -> (r:
    Result<(T, WriteMeta), ConsulError>)
    ensures
        match body {
            Ok(v) => r == Ok::<(T, WriteMeta), ConsulError>((v, WriteMeta { request_time })),
            Err(e) => r == Err::<(T, WriteMeta), ConsulError>(e),
        },
{
    match body {
        Ok(v) => Ok((v, WriteMeta { request_time })),
        Err(e) => Err(e),
    }
}

/// The map of a read's parameters: the base map, with `dc`, `index` and
/// `wait` inserted where they apply.
pub open spec fn read_query_map<H>(
    base: Map<Seq<char>, Seq<char>>,
    config: Config<H>,
    options: Option<&QueryOptions>,
) -> Map<Seq<char>, Seq<char>> {
    let m1 = match chosen_datacenter(read_datacenter(options), config.datacenter) {
        Some(d) => base.insert("dc"@, d),
        None => base,
    };
    match options {
        None => m1,
        Some(o) => {
            let m2 = match o.wait_index {
                Some(i) => m1.insert("index"@, decimal(i as nat)),
                None => m1,
            };
            match o.wait_time {
                Some(t) => m2.insert("wait"@, wait_text(whole_seconds(t))),
                None => m2,
            }
        },
    }
}

/// The parameters of a read keep their names distinct, and as a map they
/// are the base map with `dc`, `index` and `wait` inserted where they apply.
pub proof fn lemma_read_query_map<H>(
    base: Seq<Pair>,
    config: Config<H>,
    options: Option<&QueryOptions>,
)
    requires
        keys_distinct(base),
    ensures
        keys_distinct(read_query(base, config, options)),
        pairs_map(read_query(base, config, options)) == read_query_map(
            pairs_map(base),
            config,
            options,
        ),
{
    let s1 = with_datacenter(base, chosen_datacenter(read_datacenter(options), config.datacenter));
    match chosen_datacenter(read_datacenter(options), config.datacenter) {
        Some(d) => lemma_set_param(base, "dc"@, d),
        None => {},
    }
    match options {
        None => {},
        Some(o) => {
            let s2 = match o.wait_index {
                Some(i) => set_param(s1, "index"@, decimal(i as nat)),
                None => s1,
            };
            match o.wait_index {
                Some(i) => lemma_set_param(s1, "index"@, decimal(i as nat)),
                None => {},
            }
            match o.wait_time {
                Some(t) => lemma_set_param(s2, "wait"@, wait_text(whole_seconds(t))),
                None => {},
            }
        },
    }
}

/// The parameters of a write keep their names distinct, and as a map they
/// are the base map with `dc` inserted where one applies.
pub proof fn lemma_write_query_map<H>(
    base: Seq<Pair>,
    config: Config<H>,
    options: Option<&WriteOptions>,
)
    requires
        keys_distinct(base),
    ensures
        keys_distinct(write_query(base, config, options)),
        pairs_map(write_query(base, config, options)) == match chosen_datacenter(
            write_datacenter(options),
            config.datacenter,
        ) {
            Some(d) => pairs_map(base).insert("dc"@, d),
            None => pairs_map(base),
        },
{
    match chosen_datacenter(write_datacenter(options), config.datacenter) {
        Some(d) => lemma_set_param(base, "dc"@, d),
        None => {},
    }
}

/// Every request carries the configured token in an `X-Consul-Token`
/// header, with its exact value; with no token configured, no request has
/// that header.
pub proof fn lemma_token_header(
    r: Request,
    verb: Verb,
    target: Seq<char>,
    query: Seq<Pair>,
    token: Option<Seq<char>>,
    body: Option<Vec<u8>>,
)
    requires
        is_request_for(r, verb, target, query, token, body),
    ensures
        match token {
            Some(t) => exists|i: int|
                0 <= i < r.headers@.len() && #[trigger] pairs_view(r.headers@)[i] == (
                    "X-Consul-Token"@,
                    t,
                ),
            None => forall|i: int|
                0 <= i < r.headers@.len() ==> (#[trigger] pairs_view(r.headers@)[i]).0
                    != "X-Consul-Token"@,
        },
{
    reveal_strlit("X-Consul-Token");
    reveal_strlit("Content-Type");
    let h = pairs_view(r.headers@);
    assert(h.len() == r.headers@.len());
    match token {
        Some(t) => {
            assert(h[0] == ("X-Consul-Token"@, t));
        },
        None => {
            assert forall|i: int| 0 <= i < r.headers@.len() implies (
            #[trigger] pairs_view(r.headers@)[i]).0 != "X-Consul-Token"@ by {
                assert(h[i].0 == "Content-Type"@);
                assert(h[i].0[0] != "X-Consul-Token"@[0]);
            }
        },
    }
}

/// A write never sends `index` or `wait`: where the base parameters hold
/// neither, the parameters of the write hold neither, whatever the options.
pub proof fn lemma_write_never_waits<H>(
    base: Seq<Pair>,
    config: Config<H>,
    options: Option<&WriteOptions>,
)
    requires
        keys_distinct(base),
        !has_key(base, "index"@),
        !has_key(base, "wait"@),
    ensures
        !has_key(write_query(base, config, options), "index"@),
        !has_key(write_query(base, config, options), "wait"@),
{
    reveal_strlit("dc");
    reveal_strlit("index");
    reveal_strlit("wait");
    lemma_write_query_map(base, config, options);
    let m = pairs_map(write_query(base, config, options));
    assert(!pairs_map(base).contains_key("index"@));
    assert(!pairs_map(base).contains_key("wait"@));
    assert("dc"@.len() == 2 && "index"@.len() == 5 && "wait"@.len() == 4);
    assert("dc"@ != "index"@ && "dc"@ != "wait"@);
    assert(!m.contains_key("index"@));
    assert(!m.contains_key("wait"@));
}

/// The datacenter of a read: the per-call one wins over the configured one,
/// which wins over none; with neither, no `dc` is sent. The base parameters
/// are the façade's own and hold no `dc`.
pub proof fn lemma_read_datacenter_precedence<H>(
    base: Seq<Pair>,
    config: Config<H>,
    options: Option<&QueryOptions>,
)
    requires
        keys_distinct(base),
        !has_key(base, "dc"@),
    ensures
        ({
            let m = pairs_map(read_query(base, config, options));
            match read_datacenter(options) {
                Some(d) => m.contains_key("dc"@) && m["dc"@] == d@,
                None => match config.datacenter {
                    Some(d) => m.contains_key("dc"@) && m["dc"@] == d@,
                    None => !m.contains_key("dc"@),
                },
            }
        }),
{
    reveal_strlit("dc");
    reveal_strlit("index");
    reveal_strlit("wait");
    lemma_read_query_map(base, config, options);
    assert(!pairs_map(base).contains_key("dc"@));
    assert("dc"@.len() == 2 && "index"@.len() == 5 && "wait"@.len() == 4);
    assert("dc"@ != "index"@ && "dc"@ != "wait"@);
}

/// The datacenter of a write: the per-call one wins over the configured one,
/// which wins over none; with neither, no `dc` is sent.
pub proof fn lemma_write_datacenter_precedence<H>(
    base: Seq<Pair>,
    config: Config<H>,
    options: Option<&WriteOptions>,
)
    requires
        keys_distinct(base),
        !has_key(base, "dc"@),
    ensures
        ({
            let m = pairs_map(write_query(base, config, options));
            match write_datacenter(options) {
                Some(d) => m.contains_key("dc"@) && m["dc"@] == d@,
                None => match config.datacenter {
                    Some(d) => m.contains_key("dc"@) && m["dc"@] == d@,
                    None => !m.contains_key("dc"@),
                },
            }
        }),
{
    lemma_write_query_map(base, config, options);
    assert(!pairs_map(base).contains_key("dc"@));
}

} // verus!
