use std::time::Duration;

use consul::decimal::{parse_decimal_u64, to_decimal};
use consul::errors::{ConsulError, ErrorKind};
use consul::health::{service_params, service_path_text, service_request};
use consul::params::Params;
use consul::request::{
    collection_body_wanted, delete_request, finish_collection_read, finish_read, finish_write,
    parse_index, put_request, read_params, read_request, write_params, write_with_body, Verb,
    WriteVerb,
};
use consul::{Client, Config, QueryOptions, WriteOptions};

fn config(datacenter: Option<&str>, token: Option<&str>) -> Config<()> {
    Config {
        address: String::from("http://127.0.0.1:8500"),
        datacenter: datacenter.map(String::from),
        http_client: (),
        token: token.map(String::from),
        wait_time: None,
    }
}

fn value(p: &Params, key: &str) -> Option<String> {
    p.get(&String::from(key)).cloned()
}

fn names(p: &Params) -> Vec<String> {
    p.pairs().iter().map(|(k, _)| k.clone()).collect()
}

fn header(headers: &[(String, String)], name: &str) -> Option<String> {
    headers.iter().find(|(k, _)| k == name).map(|(_, v)| v.clone())
}

#[test]
fn wait_time_is_whole_seconds_with_suffix() {
    let options = QueryOptions { wait_time: Some(Duration::from_secs(5)), ..Default::default() };
    let p = read_params(Params::new(), &config(None, None), Some(&options));
    assert_eq!(value(&p, "wait"), Some(String::from("5s")));
    assert_eq!(names(&p), vec![String::from("wait")]);
}

#[test]
fn wait_time_drops_fractions_of_a_second() {
    let options = QueryOptions { wait_time: Some(Duration::from_millis(2500)), ..Default::default() };
    let p = read_params(Params::new(), &config(None, None), Some(&options));
    assert_eq!(value(&p, "wait"), Some(String::from("2s")));
}

#[test]
fn wait_index_is_sent_in_decimal() {
    let options = QueryOptions { wait_index: Some(42), ..Default::default() };
    let p = read_params(Params::new(), &config(None, None), Some(&options));
    assert_eq!(value(&p, "index"), Some(String::from("42")));
    assert_eq!(value(&p, "wait"), None);
}

#[test]
fn per_call_datacenter_beats_configured_one() {
    let options = QueryOptions { datacenter: Some(String::from("dc2")), ..Default::default() };
    let p = read_params(Params::new(), &config(Some("dc1"), None), Some(&options));
    assert_eq!(value(&p, "dc"), Some(String::from("dc2")));
}

#[test]
fn configured_datacenter_is_the_default() {
    let p = read_params(Params::new(), &config(Some("dc1"), None), Some(&QueryOptions::default()));
    assert_eq!(value(&p, "dc"), Some(String::from("dc1")));
    let p = read_params(Params::new(), &config(Some("dc1"), None), None);
    assert_eq!(value(&p, "dc"), Some(String::from("dc1")));
}

#[test]
fn no_datacenter_means_no_dc_parameter() {
    let p = read_params(Params::new(), &config(None, None), None);
    assert_eq!(value(&p, "dc"), None);
    assert!(names(&p).is_empty());
}

#[test]
fn write_datacenter_precedence() {
    let options = WriteOptions { datacenter: Some(String::from("dc2")) };
    let p = write_params(Params::new(), &config(Some("dc1"), None), Some(&options));
    assert_eq!(value(&p, "dc"), Some(String::from("dc2")));
    let p = write_params(Params::new(), &config(Some("dc1"), None), None);
    assert_eq!(value(&p, "dc"), Some(String::from("dc1")));
    let p = write_params(Params::new(), &config(None, None), Some(&WriteOptions::default()));
    assert_eq!(value(&p, "dc"), None);
}

#[test]
fn writes_never_send_index_or_wait() {
    let options = WriteOptions { datacenter: Some(String::from("dc3")) };
    let mut base = Params::new();
    base.insert(String::from("cas"), String::from("7"));
    let r = put_request("/v1/kv/foo", Some(b"\"bar\"".to_vec()), &config(None, None), base, Some(&options))
        .unwrap();
    assert_eq!(names(&r.query), vec![String::from("cas"), String::from("dc")]);
    assert!(!r.url.contains("index="));
    assert!(!r.url.contains("wait="));
    let r = delete_request("/v1/kv/foo", &config(None, None), Params::new(), None).unwrap();
    assert!(names(&r.query).is_empty());
    assert_eq!(r.verb, Verb::Delete);
}

#[test]
fn token_header_carries_configured_token() {
    let r = read_request("/v1/kv/foo", &config(None, Some("secret")), Params::new(), None).unwrap();
    assert_eq!(header(&r.headers, "X-Consul-Token"), Some(String::from("secret")));
    let w = delete_request("/v1/kv/foo", &config(None, Some("secret")), Params::new(), None).unwrap();
    assert_eq!(header(&w.headers, "X-Consul-Token"), Some(String::from("secret")));
}

#[test]
fn no_token_means_no_token_header() {
    let r = read_request("/v1/kv/foo", &config(None, None), Params::new(), None).unwrap();
    assert_eq!(header(&r.headers, "X-Consul-Token"), None);
    assert!(r.headers.is_empty());
}

#[test]
fn put_with_body_sets_json_content_type() {
    let body = b"{\"Key\":\"foo\",\"Value\":\"bar\"}".to_vec();
    let r = write_with_body(WriteVerb::Put, "/v1/kv/foo", Some(body.clone()), &config(None, None), Params::new(), None)
        .unwrap();
    assert_eq!(r.verb, Verb::Put);
    assert_eq!(r.body, Some(body));
    assert_eq!(header(&r.headers, "Content-Type"), Some(String::from("application/json")));
}

#[test]
fn read_request_forms_full_url() {
    let options = QueryOptions {
        datacenter: Some(String::from("dc2")),
        wait_index: Some(42),
        wait_time: Some(Duration::from_secs(5)),
    };
    let r = read_request("/v1/kv/foo", &config(Some("dc1"), None), Params::new(), Some(&options)).unwrap();
    assert_eq!(r.verb, Verb::Get);
    assert_eq!(r.target, "http://127.0.0.1:8500/v1/kv/foo");
    assert_eq!(r.url, "http://127.0.0.1:8500/v1/kv/foo?dc=dc2&index=42&wait=5s");
    assert_eq!(r.body, None);
}

#[test]
fn malformed_address_is_a_url_construction_error() {
    let mut c = config(None, None);
    c.address = String::from("not a url");
    let e = read_request("/v1/kv/foo", &c, Params::new(), None).err().unwrap();
    assert_eq!(e.kind, ErrorKind::UrlConstruction);
    let e = put_request("/v1/kv/foo", None, &c, Params::new(), None).err().unwrap();
    assert_eq!(e.kind(), ErrorKind::UrlConstruction);
}

#[test]
fn index_header_numeric() {
    assert_eq!(parse_index(Some(b"42".as_slice())).unwrap(), Some(42));
    assert_eq!(parse_index(Some(b"+7".as_slice())).unwrap(), Some(7));
    assert_eq!(parse_index(Some(b"18446744073709551615".as_slice())).unwrap(), Some(u64::MAX));
}

#[test]
fn index_header_absent() {
    assert_eq!(parse_index(None).unwrap(), None);
}

#[test]
fn index_header_not_numeric_is_an_error() {
    for bad in [&b"abc"[..], b"", b"+", b"-1", b"1 2", b"18446744073709551616", &[0xff, 0xfe][..]] {
        let e = parse_index(Some(bad)).err().unwrap();
        assert_eq!(e.kind, ErrorKind::IndexParse);
    }
}

#[test]
fn decimal_matches_std() {
    for n in [0u64, 7, 10, 99, 100, 1234567890, u64::MAX] {
        assert_eq!(to_decimal(n), n.to_string());
        assert_eq!(parse_decimal_u64(n.to_string().as_bytes()), Some(n));
    }
}

#[test]
fn collection_404_is_empty_without_body() {
    assert!(!collection_body_wanted(404));
    assert!(collection_body_wanted(200));
    let (v, meta) = finish_collection_read::<u32>(404, None, None, Duration::from_millis(3)).unwrap();
    assert!(v.is_empty());
    assert_eq!(meta.last_index, None);
    assert_eq!(meta.request_time, Duration::from_millis(3));
}

#[test]
fn collection_404_keeps_header_index() {
    let (v, meta) = finish_collection_read::<u32>(404, None, Some(b"9".as_slice()), Duration::ZERO).unwrap();
    assert!(v.is_empty());
    assert_eq!(meta.last_index, Some(9));
}

#[test]
fn collection_200_empty_array_and_404_both_empty() {
    let (a, ma) =
        finish_collection_read::<u32>(200, Some(Ok(Vec::new())), Some(b"12".as_slice()), Duration::ZERO).unwrap();
    let (b, mb) = finish_collection_read::<u32>(404, None, None, Duration::ZERO).unwrap();
    assert!(a.is_empty() && b.is_empty());
    assert_eq!(ma.last_index, Some(12));
    assert_eq!(mb.last_index, None);
}

#[test]
fn collection_body_error_is_reported() {
    let e = finish_collection_read::<u32>(
        500,
        Some(Err(ConsulError::new(ErrorKind::BodyDecode, None))),
        None,
        Duration::ZERO,
    )
    .err()
    .unwrap();
    assert_eq!(e.kind, ErrorKind::BodyDecode);
}

#[test]
fn read_body_error_comes_before_index_error() {
    let e = finish_read::<u32>(
        Err(ConsulError::new(ErrorKind::BodyDecode, None)),
        Some(b"x".as_slice()),
        Duration::ZERO,
    )
    .err()
    .unwrap();
    assert_eq!(e.kind, ErrorKind::BodyDecode);
    let e = finish_read::<u32>(Ok(1), Some(b"x".as_slice()), Duration::ZERO).err().unwrap();
    assert_eq!(e.kind, ErrorKind::IndexParse);
    let (v, meta) = finish_read::<u32>(Ok(5), Some(b"77".as_slice()), Duration::from_secs(1)).unwrap();
    assert_eq!(v, 5);
    assert_eq!(meta.last_index, Some(77));
}

#[test]
fn write_outcome_keeps_payload() {
    let (v, meta) = finish_write(Ok(true), Duration::from_secs(2)).unwrap();
    assert!(v);
    assert_eq!(meta.request_time, Duration::from_secs(2));
    let e = finish_write::<bool>(Err(ConsulError::new(ErrorKind::Transport, Some(String::from("down")))), Duration::ZERO)
        .err()
        .unwrap();
    assert_eq!(e.kind, ErrorKind::Transport);
    assert_eq!(e.cause, Some(String::from("down")));
}

#[test]
fn params_insert_replaces_in_place() {
    let mut p = Params::new();
    p.insert(String::from("a"), String::from("1"));
    p.insert(String::from("b"), String::from("2"));
    p.insert(String::from("a"), String::from("3"));
    assert_eq!(names(&p), vec![String::from("a"), String::from("b")]);
    assert_eq!(value(&p, "a"), Some(String::from("3")));
    assert_eq!(value(&p, "c"), None);
}

#[test]
fn base_parameters_keep_their_dc_overridden() {
    let mut base = Params::new();
    base.insert(String::from("dc"), String::from("old"));
    let p = read_params(base, &config(Some("dc1"), None), None);
    assert_eq!(value(&p, "dc"), Some(String::from("dc1")));
}

#[test]
fn health_service_request() {
    assert_eq!(service_path_text("web"), "/v1/health/service/web");
    let p = service_params(Some("v1"), true);
    assert_eq!(names(&p), vec![String::from("passing"), String::from("tag")]);
    assert_eq!(value(&p, "passing"), Some(String::from("1")));
    let p = service_params(None, false);
    assert!(names(&p).is_empty());
    let client = Client::new(config(None, Some("t")));
    let r = service_request(&client, "web", Some("v1"), true, None).unwrap();
    assert_eq!(r.url, "http://127.0.0.1:8500/v1/health/service/web?passing=1&tag=v1");
    assert_eq!(header(&r.headers, "X-Consul-Token"), Some(String::from("t")));
}

#[test]
fn config_from_host_uses_default_port() {
    let c = Config::new_from_consul_host("127.0.0.1", None, None, ());
    assert_eq!(c.address, "127.0.0.1:8500");
    assert_eq!(c.datacenter, None);
    let c = Config::new_from_consul_host("consul.local", Some(9000), Some(String::from("tok")), ());
    assert_eq!(c.address, "consul.local:9000");
    assert_eq!(c.token, Some(String::from("tok")));
}
