use std::collections::HashMap;

use spacegate_kernel::basic::error::{ErrorKind, GatewayError};
use spacegate_kernel::config::gateway_dto::SgProtocol;
use spacegate_kernel::config::http_route_dto::{SgBackendRef, SgHttpRouteRule};
use spacegate_kernel::plugins::context::{AvailableBackendInst, SgRespBody, SgRoutePluginContext};
use spacegate_kernel::plugins::filters::status::server_err::ServerErrors;
use spacegate_kernel::plugins::filters::status::status_plugin::{
    clean_status, create_status_html, get_status, update_status, Status, StoreCommand,
};
use spacegate_kernel::plugins::filters::status::{
    bind_error, get_cache_key, serv_addr_error, SgFilterStatus, SgFilterStatusDef,
    SgFilterStatusOptions, StatusServers, StatusStep, CODE,
};
use spacegate_kernel::plugins::filters::{
    SgAttachedLevel, SgPluginFilterInitDto, SgPluginFilterKind,
};

/// The cache as far as the filter uses it: hashes of tags. It can be made
/// to refuse every write.
struct Store {
    hashes: HashMap<String, HashMap<String, String>>,
    broken: bool,
}

impl Store {
    fn new() -> Store {
        Store { hashes: HashMap::new(), broken: false }
    }

    fn apply(&mut self, command: &StoreCommand) -> Result<(), String> {
        if self.broken {
            return Err("the cache is down".to_string());
        }
        match command {
            StoreCommand::Clean { key } => {
                self.hashes.remove(key);
            }
            StoreCommand::Update { key, backend, status } => {
                self.hashes.entry(key.clone()).or_default().insert(backend.clone(), status.tag().to_string());
            }
        }
        Ok(())
    }

    fn get(&self, key: &str, backend: &str) -> Option<Status> {
        get_status(self.hashes.get(key).and_then(|h| h.get(backend)).map(|t| t.as_str()))
    }

    /// Carries a step out as the gateway does: the write first, the count
    /// once the write has succeeded.
    fn step(&mut self, errors: &mut ServerErrors, step: StatusStep) -> Result<(), String> {
        match step {
            StatusStep::Nothing => {}
            StatusStep::Failure { ref write, .. } => {
                if let Some(command) = write {
                    self.apply(command)?;
                }
                step.count(errors);
            }
            StatusStep::Promote { key, backend } => {
                let current = self.get(&key, &backend);
                if let Some(command) = SgFilterStatus::promote(key, backend, current) {
                    self.apply(&command)?;
                }
            }
        }
        Ok(())
    }
}

/// The filter on one response at the second `now`; says whether the chain
/// goes on.
fn respond(filter: &SgFilterStatus, store: &mut Store, errors: &mut ServerErrors, ctx: &SgRoutePluginContext, now: i64) -> bool {
    let step = filter.resp_filter_at(errors, ctx, now);
    store.step(errors, step).is_ok()
}

/// Counts one failure at once, as where nothing is to be written or the
/// write has succeeded.
fn count_error(filter: &SgFilterStatus, errors: &mut ServerErrors, backend: &str, now: i64) -> Option<Status> {
    let plan = filter.plan_error(errors, backend, now);
    errors.insert(backend, plan.times, plan.expire);
    plan.status
}

fn backend_ref(name: &str) -> SgBackendRef {
    SgBackendRef {
        name_or_host: name.to_string(),
        namespace: None,
        port: 80,
        timeout_ms: None,
        protocol: Some(SgProtocol::Http),
        weight: None,
    }
}

fn init_dto(gateway_name: &str, rules: Vec<SgHttpRouteRule>, level: SgAttachedLevel) -> SgPluginFilterInitDto {
    SgPluginFilterInitDto { gateway_name: gateway_name.to_string(), http_route_rules: rules, attached_level: level }
}

fn ctx_for(gateway_name: &str, backend: Option<&str>) -> SgRoutePluginContext {
    SgRoutePluginContext::new_http(
        "POST".to_string(),
        "http://sg.idealworld.group/iam/ct/001?name=sg".to_string(),
        "/iam/ct/001?name=sg".to_string(),
        Vec::new(),
        "127.0.0.1:8080".to_string(),
        gateway_name.to_string(),
        backend.map(|name| AvailableBackendInst { name_or_host: name.to_string(), port: 80, protocol: Some(SgProtocol::Http), ..Default::default() }),
    )
}

#[test]
fn test_status() {
    let stats = SgFilterStatus::default();
    let gateway_name = "gateway_name1".to_string();
    let mut store = Store::new();
    let mut errors = ServerErrors::new();

    let start = stats
        .init(&init_dto(
            &gateway_name,
            vec![SgHttpRouteRule { backends: Some(vec![backend_ref("test1")]), timeout_ms: None }],
            SgAttachedLevel::Gateway,
        ))
        .unwrap();
    for command in start.seed {
        store.apply(&command).unwrap();
    }
    let key = get_cache_key(&stats.cache_key, &gateway_name);
    assert_eq!(store.get(&key, "test1"), Some(Status::Good));

    let ctx = ctx_for(&gateway_name, Some("test1"));
    let ctx = ctx.resp_from_error(GatewayError::bad_request(""));
    let now = 1_700_000_000;

    let is_ok = respond(&stats, &mut store, &mut errors, &ctx, now);
    assert!(is_ok);
    assert_eq!(store.get(&get_cache_key(&stats.cache_key, &ctx.get_gateway_name()), "test1").unwrap(), Status::Minor);

    assert!(respond(&stats, &mut store, &mut errors, &ctx, now));
    assert!(respond(&stats, &mut store, &mut errors, &ctx, now + 1));
    assert!(respond(&stats, &mut store, &mut errors, &ctx, now + 2));
    assert_eq!(store.get(&get_cache_key(&stats.cache_key, &ctx.get_gateway_name()), "test1").unwrap(), Status::Major);

    let ctx = ctx.resp(200, Vec::new(), SgRespBody::Empty);
    assert!(respond(&stats, &mut store, &mut errors, &ctx, now + 2));
    assert_eq!(store.get(&get_cache_key(&stats.cache_key, &ctx.get_gateway_name()), "test1").unwrap(), Status::Good);
}

#[test]
fn defaults_of_the_filter() {
    let f = SgFilterStatus::default();
    assert_eq!(f.serv_addr, "0.0.0.0");
    assert_eq!(f.port, 8110);
    assert_eq!(f.title, "System Status");
    assert_eq!(f.unhealthy_threshold, 3);
    assert_eq!(f.interval, 5);
    assert_eq!(f.cache_key, "spacegate:cache:plugin:status");
    assert_eq!(CODE, "status");
    assert_eq!(Status::default(), Status::Good);
}

#[test]
fn options_left_out_take_their_default() {
    let none = SgFilterStatusOptions { serv_addr: None, port: None, title: None, unhealthy_threshold: None, interval: None, cache_key: None };
    let f = SgFilterStatusDef.inst(none);
    assert_eq!((f.serv_addr.as_str(), f.port, f.title.as_str()), ("0.0.0.0", 8110, "System Status"));
    assert_eq!((f.unhealthy_threshold, f.interval, f.cache_key.as_str()), (3, 5, "spacegate:cache:plugin:status"));

    let some = SgFilterStatusOptions {
        serv_addr: Some("127.0.0.1".to_string()),
        port: None,
        title: Some("Health".to_string()),
        unhealthy_threshold: Some(0),
        interval: None,
        cache_key: Some("k".to_string()),
    };
    let f = SgFilterStatusDef.inst(some);
    assert_eq!((f.serv_addr.as_str(), f.port, f.title.as_str()), ("127.0.0.1", 8110, "Health"));
    assert_eq!((f.unhealthy_threshold, f.interval, f.cache_key.as_str()), (0, 5, "k"));

    let all = SgFilterStatusOptions {
        serv_addr: Some("::1".to_string()),
        port: Some(0),
        title: Some("".to_string()),
        unhealthy_threshold: Some(65535),
        interval: Some(u64::MAX),
        cache_key: Some("".to_string()),
    };
    let f = SgFilterStatusDef.inst(all);
    assert_eq!((f.serv_addr.as_str(), f.port, f.title.as_str()), ("::1", 0, ""));
    assert_eq!((f.unhealthy_threshold, f.interval, f.cache_key.as_str()), (65535, u64::MAX, ""));
}

#[test]
fn filter_takes_http_and_error_responses() {
    let accept = SgFilterStatus::default().accept();
    assert_eq!(accept.kind, vec![SgPluginFilterKind::Http]);
    assert!(accept.accept_error_response);
}

#[test]
fn cache_key_joins_prefix_and_gateway() {
    assert_eq!(get_cache_key("spacegate:cache:plugin:status", "gateway_name1"), "spacegate:cache:plugin:status:gateway_name1");
    assert_eq!(get_cache_key("", ""), ":");
    assert_eq!(get_cache_key("a:b", "网关"), "a:b:网关");
}

#[test]
fn init_elsewhere_than_on_a_gateway_does_nothing() {
    let f = SgFilterStatus::default();
    let rules = || vec![SgHttpRouteRule { backends: Some(vec![backend_ref("a")]), timeout_ms: None }];
    assert!(f.init(&init_dto("g", rules(), SgAttachedLevel::HttpRoute)).is_none());
    assert!(f.init(&init_dto("g", rules(), SgAttachedLevel::Rule)).is_none());
    assert!(f.init(&init_dto("g", rules(), SgAttachedLevel::Backend)).is_none());
    assert!(f.init(&init_dto("g", rules(), SgAttachedLevel::Gateway)).is_some());
}

#[test]
fn init_seeds_every_backend_as_good() {
    let f = SgFilterStatus { port: 9000, title: "T".to_string(), serv_addr: "127.0.0.1".to_string(), ..Default::default() };
    let rules = vec![
        SgHttpRouteRule { backends: Some(vec![backend_ref("a"), backend_ref("b")]), timeout_ms: None },
        SgHttpRouteRule { backends: None, timeout_ms: Some(3) },
        SgHttpRouteRule { backends: Some(Vec::new()), timeout_ms: None },
        SgHttpRouteRule { backends: Some(vec![backend_ref("c"), backend_ref("a")]), timeout_ms: None },
    ];
    let start = f.init(&init_dto("g1", rules, SgAttachedLevel::Gateway)).unwrap();
    assert_eq!(start.serv_addr, "127.0.0.1");
    assert_eq!(start.port, 9000);
    assert_eq!(start.title, "T");
    assert_eq!(start.gateway_name, "g1");
    assert_eq!(start.cache_key, "spacegate:cache:plugin:status:g1");
    let written: Vec<String> = start
        .seed
        .iter()
        .map(|c| match c {
            StoreCommand::Clean { key } => format!("clean {key}"),
            StoreCommand::Update { key, backend, status } => format!("update {key} {backend} {}", status.tag()),
        })
        .collect();
    assert_eq!(
        written,
        vec![
            "clean spacegate:cache:plugin:status:g1",
            "update spacegate:cache:plugin:status:g1 a Good",
            "update spacegate:cache:plugin:status:g1 b Good",
            "update spacegate:cache:plugin:status:g1 c Good",
            "update spacegate:cache:plugin:status:g1 a Good",
        ]
    );
}

#[test]
fn init_starts_the_stored_health_afresh() {
    let f = SgFilterStatus::default();
    let mut store = Store::new();
    let key = get_cache_key(&f.cache_key, "g1");
    store.apply(&update_status("gone", &key, Status::Major)).unwrap();
    store.apply(&update_status("a", &key, Status::Minor)).unwrap();
    store.apply(&update_status("a", "other:key", Status::Minor)).unwrap();
    let rules = vec![SgHttpRouteRule { backends: Some(vec![backend_ref("a"), backend_ref("b")]), timeout_ms: None }];
    for command in f.init(&init_dto("g1", rules, SgAttachedLevel::Gateway)).unwrap().seed {
        store.apply(&command).unwrap();
    }
    assert_eq!(store.get(&key, "a"), Some(Status::Good));
    assert_eq!(store.get(&key, "b"), Some(Status::Good));
    assert_eq!(store.get(&key, "gone"), None);
    assert_eq!(store.get("other:key", "a"), Some(Status::Minor));
}

#[test]
fn status_page_lists_the_backends_after_init() {
    let f = SgFilterStatus::default();
    let mut store = Store::new();
    let rules = vec![SgHttpRouteRule { backends: Some(vec![backend_ref("a"), backend_ref("b")]), timeout_ms: None }];
    let start = f.init(&init_dto("g1", rules, SgAttachedLevel::Gateway)).unwrap();
    let names: Vec<String> = vec!["a".to_string(), "b".to_string()];
    for command in start.seed {
        store.apply(&command).unwrap();
    }
    let entries: Vec<(String, Status)> = names.iter().map(|n| (n.clone(), store.get(&start.cache_key, n).unwrap())).collect();
    let html = create_status_html(&start.title, &entries);
    assert!(html.contains("<title>System Status</title>"));
    assert!(html.contains("<tr><td>a</td><td>Good</td></tr>"));
    assert!(html.contains("<tr><td>b</td><td>Good</td></tr>"));
    assert_eq!(
        html,
        "<!DOCTYPE html><html><head><meta charset=\"utf-8\"><title>System Status</title></head><body><h1>System Status</h1><table><tr><th>Backend</th><th>Status</th></tr><tr><td>a</td><td>Good</td></tr><tr><td>b</td><td>Good</td></tr></table></body></html>"
    );
}

#[test]
fn status_page_without_backends() {
    assert_eq!(
        create_status_html("T", &Vec::new()),
        "<!DOCTYPE html><html><head><meta charset=\"utf-8\"><title>T</title></head><body><h1>T</h1><table><tr><th>Backend</th><th>Status</th></tr></table></body></html>"
    );
    let html = create_status_html("状态", &vec![("x".to_string(), Status::Major), ("y".to_string(), Status::Minor)]);
    assert!(html.contains("<h1>状态</h1>"));
    assert!(html.contains("<tr><td>x</td><td>Major</td></tr><tr><td>y</td><td>Minor</td></tr>"));
}

#[test]
fn status_tags() {
    assert_eq!(Status::Good.tag(), "Good");
    assert_eq!(Status::Minor.tag(), "Minor");
    assert_eq!(Status::Major.tag(), "Major");
    for status in [Status::Good, Status::Minor, Status::Major] {
        assert_eq!(Status::from_tag(status.tag()), Some(status));
    }
    assert_eq!(Status::from_tag("good"), None);
    assert_eq!(Status::from_tag(""), None);
    assert_eq!(Status::from_tag("Majority"), None);
    assert_eq!(get_status(None), None);
    assert_eq!(get_status(Some("Minor")), Some(Status::Minor));
    assert_eq!(get_status(Some("\"Minor\"")), None);
}

#[test]
fn store_commands() {
    match clean_status("k") {
        StoreCommand::Clean { key } => assert_eq!(key, "k"),
        _ => panic!("clean"),
    }
    match update_status("b", "k", Status::Major) {
        StoreCommand::Update { key, backend, status } => {
            assert_eq!((key.as_str(), backend.as_str(), status), ("k", "b", Status::Major))
        }
        _ => panic!("update"),
    }
}

#[test]
fn first_failure_is_minor() {
    let f = SgFilterStatus::default();
    let mut errors = ServerErrors::new();
    assert_eq!(errors.get("x"), None);
    assert_eq!(count_error(&f, &mut errors, "x", 1000), Some(Status::Minor));
    assert_eq!(errors.get("x"), Some((1, 1005)));
    assert_eq!(errors.get("y"), None);
}

#[test]
fn failures_within_the_window_escalate_past_the_threshold() {
    let f = SgFilterStatus { unhealthy_threshold: 3, interval: 5, ..Default::default() };
    let mut errors = ServerErrors::new();
    assert_eq!(count_error(&f, &mut errors, "x", 1000), Some(Status::Minor));
    assert_eq!(count_error(&f, &mut errors, "x", 1004), Some(Status::Minor));
    assert_eq!(errors.get("x"), Some((2, 1009)));
    assert_eq!(count_error(&f, &mut errors, "x", 1008), Some(Status::Minor));
    assert_eq!(errors.get("x"), Some((3, 1013)));
    assert_eq!(count_error(&f, &mut errors, "x", 1012), Some(Status::Major));
    assert_eq!(errors.get("x"), Some((4, 1017)));
    assert_eq!(count_error(&f, &mut errors, "x", 1016), Some(Status::Major));
    assert_eq!(errors.get("x"), Some((5, 1021)));
}

#[test]
fn failure_after_the_window_starts_over_and_writes_nothing() {
    let f = SgFilterStatus { unhealthy_threshold: 1, interval: 5, ..Default::default() };
    let mut errors = ServerErrors::new();
    assert_eq!(count_error(&f, &mut errors, "x", 1000), Some(Status::Minor));
    assert_eq!(count_error(&f, &mut errors, "x", 1001), Some(Status::Major));
    assert_eq!(errors.get("x"), Some((2, 1006)));
    // the window ends at 1006: a failure at that second is after it
    assert_eq!(count_error(&f, &mut errors, "x", 1006), None);
    assert_eq!(errors.get("x"), Some((1, 1011)));
    assert_eq!(count_error(&f, &mut errors, "x", 1010), Some(Status::Major));
    assert_eq!(count_error(&f, &mut errors, "x", 2000), None);
    assert_eq!(errors.get("x"), Some((1, 2005)));
}

#[test]
fn threshold_zero_still_starts_minor() {
    let f = SgFilterStatus { unhealthy_threshold: 0, interval: 5, ..Default::default() };
    let mut errors = ServerErrors::new();
    assert_eq!(count_error(&f, &mut errors, "x", 10), Some(Status::Minor));
    assert_eq!(count_error(&f, &mut errors, "x", 11), Some(Status::Major));
}

#[test]
fn window_of_zero_seconds_never_holds() {
    let f = SgFilterStatus { interval: 0, ..Default::default() };
    let mut errors = ServerErrors::new();
    assert_eq!(count_error(&f, &mut errors, "x", 10), Some(Status::Minor));
    assert_eq!(count_error(&f, &mut errors, "x", 10), None);
    assert_eq!(errors.get("x"), Some((1, 10)));
}

#[test]
fn backends_are_counted_apart() {
    let f = SgFilterStatus { unhealthy_threshold: 1, ..Default::default() };
    let mut errors = ServerErrors::new();
    assert_eq!(count_error(&f, &mut errors, "x", 10), Some(Status::Minor));
    assert_eq!(count_error(&f, &mut errors, "y", 10), Some(Status::Minor));
    assert_eq!(count_error(&f, &mut errors, "x", 11), Some(Status::Major));
    assert_eq!(count_error(&f, &mut errors, "", 11), Some(Status::Minor));
    assert_eq!(errors.get("x"), Some((2, 16)));
    assert_eq!(errors.get("y"), Some((1, 15)));
    assert_eq!(errors.get(""), Some((1, 16)));
    errors.insert("y", 9, -3);
    assert_eq!(errors.get("y"), Some((9, -3)));
    assert_eq!(errors.get("x"), Some((2, 16)));
}

#[test]
fn four_errors_make_major_and_one_success_good() {
    let f = SgFilterStatus::default();
    let mut store = Store::new();
    let mut errors = ServerErrors::new();
    let key = get_cache_key(&f.cache_key, "g");
    store.apply(&update_status("x", &key, Status::Good)).unwrap();
    let failing = ctx_for("g", Some("x")).resp_from_error(GatewayError::transport("down"));
    for i in 0..4 {
        assert!(respond(&f, &mut store, &mut errors, &failing, 100 + i));
        let expected = if i < 3 { Status::Minor } else { Status::Major };
        assert_eq!(store.get(&key, "x"), Some(expected));
    }
    let fine = failing.resp(200, Vec::new(), SgRespBody::Backend);
    assert!(respond(&f, &mut store, &mut errors, &fine, 104));
    assert_eq!(store.get(&key, "x"), Some(Status::Good));
    // the count is not taken back by a success
    assert_eq!(errors.get("x"), Some((4, 108)));
}

#[test]
fn response_without_a_chosen_backend_is_passed_over() {
    let f = SgFilterStatus::default();
    let mut errors = ServerErrors::new();
    let failing = ctx_for("g", None).resp_from_error(GatewayError::transport("down"));
    assert!(matches!(f.resp_filter_at(&errors, &failing, 5), StatusStep::Nothing));
    assert!(matches!(f.resp_filter(&errors, &failing), Some(StatusStep::Nothing)));
    let fine = ctx_for("g", None);
    assert!(matches!(f.resp_filter_at(&errors, &fine, 5), StatusStep::Nothing));
}

#[test]
fn success_asks_for_the_stored_status() {
    let f = SgFilterStatus { cache_key: "k".to_string(), ..Default::default() };
    let mut errors = ServerErrors::new();
    match f.resp_filter_at(&errors, &ctx_for("g", Some("x")), 5) {
        StatusStep::Promote { key, backend } => assert_eq!((key.as_str(), backend.as_str()), ("k:g", "x")),
        _ => panic!("a success asks for the stored status"),
    }
    assert_eq!(errors.get("x"), None);
    // a 504 that stands for a deadline is no error
    let timed_out = ctx_for("g", Some("x")).resp(504, Vec::new(), SgRespBody::Empty);
    assert!(matches!(f.resp_filter_at(&errors, &timed_out, 5), StatusStep::Promote { .. }));
}

#[test]
fn promote_writes_good_unless_good_is_stored() {
    let promote = |current| SgFilterStatus::promote("k".to_string(), "x".to_string(), current);
    assert!(promote(Some(Status::Good)).is_none());
    for current in [None, Some(Status::Minor), Some(Status::Major)] {
        match promote(current) {
            Some(StoreCommand::Update { key, backend, status }) => {
                assert_eq!((key.as_str(), backend.as_str(), status), ("k", "x", Status::Good))
            }
            _ => panic!("a backend that is not stored as good is put to good"),
        }
    }
}

#[test]
fn success_makes_an_unknown_backend_good() {
    let f = SgFilterStatus::default();
    let mut store = Store::new();
    let mut errors = ServerErrors::new();
    assert!(respond(&f, &mut store, &mut errors, &ctx_for("g", Some("x")), 5));
    assert_eq!(store.get(&get_cache_key(&f.cache_key, "g"), "x"), Some(Status::Good));
    assert_eq!(errors.get("x"), None);
}

#[test]
fn req_filter_passes_the_request_on() {
    let f = SgFilterStatus::default();
    let (is_ok, ctx) = f.req_filter(ctx_for("g", Some("x")));
    assert!(is_ok);
    assert_eq!(ctx.get_chose_backend_name(), Some("x".to_string()));
    assert_eq!(ctx.request.uri, "http://sg.idealworld.group/iam/ct/001?name=sg");
}

#[test]
fn failure_is_counted_only_once_its_status_is_written() {
    let f = SgFilterStatus { unhealthy_threshold: 1, interval: 5, ..Default::default() };
    let mut store = Store::new();
    let mut errors = ServerErrors::new();
    let key = get_cache_key(&f.cache_key, "g");
    let failing = ctx_for("g", Some("x")).resp_from_error(GatewayError::transport("down"));

    store.broken = true;
    assert!(!respond(&f, &mut store, &mut errors, &failing, 100));
    assert_eq!(errors.get("x"), None);
    assert_eq!(store.get(&key, "x"), None);

    store.broken = false;
    assert!(respond(&f, &mut store, &mut errors, &failing, 100));
    assert_eq!(errors.get("x"), Some((1, 105)));
    assert_eq!(store.get(&key, "x"), Some(Status::Minor));

    store.broken = true;
    assert!(!respond(&f, &mut store, &mut errors, &failing, 101));
    assert_eq!(errors.get("x"), Some((1, 105)));
    assert_eq!(store.get(&key, "x"), Some(Status::Minor));

    // a failure after the window writes nothing, so it is counted whatever
    // the cache does
    assert!(respond(&f, &mut store, &mut errors, &failing, 105));
    assert_eq!(errors.get("x"), Some((1, 110)));

    store.broken = false;
    assert!(respond(&f, &mut store, &mut errors, &failing, 106));
    assert_eq!(errors.get("x"), Some((2, 111)));
    assert_eq!(store.get(&key, "x"), Some(Status::Major));
}

#[test]
fn planning_a_failure_counts_nothing() {
    let f = SgFilterStatus::default();
    let mut errors = ServerErrors::new();
    let plan = f.plan_error(&errors, "x", 1000);
    assert_eq!((plan.status, plan.times, plan.expire), (Some(Status::Minor), 1, 1005));
    assert_eq!(errors.get("x"), None);
    let again = f.plan_error(&errors, "x", 1001);
    assert_eq!((again.status, again.times, again.expire), (Some(Status::Minor), 1, 1006));
    errors.insert("x", plan.times, plan.expire);
    let next = f.plan_error(&errors, "x", 1001);
    assert_eq!((next.status, next.times, next.expire), (Some(Status::Minor), 2, 1006));
    assert_eq!(errors.get("x"), Some((1, 1005)));
}

#[test]
fn late_failure_keeps_the_stored_status() {
    let f = SgFilterStatus { unhealthy_threshold: 1, interval: 5, ..Default::default() };
    let mut store = Store::new();
    let mut errors = ServerErrors::new();
    let key = get_cache_key(&f.cache_key, "g");
    let failing = ctx_for("g", Some("x")).resp_from_error(GatewayError::transport("down"));
    assert!(respond(&f, &mut store, &mut errors, &failing, 100));
    let fine = ctx_for("g", Some("x"));
    assert!(respond(&f, &mut store, &mut errors, &fine, 101));
    assert_eq!(store.get(&key, "x"), Some(Status::Good));
    // the window of the first failure is over: the failure is counted, nothing is written
    assert!(matches!(f.resp_filter_at(&errors, &failing, 200), StatusStep::Failure { write: None, .. }));
    assert!(respond(&f, &mut store, &mut errors, &failing, 200));
    assert_eq!(store.get(&key, "x"), Some(Status::Good));
    assert_eq!(errors.get("x"), Some((1, 205)));
}

#[test]
fn clock_is_read_for_a_failure() {
    let f = SgFilterStatus::default();
    let mut errors = ServerErrors::new();
    let failing = ctx_for("g", Some("x")).resp_from_error(GatewayError::transport("down"));
    let step = f.resp_filter(&errors, &failing).unwrap();
    match &step {
        StatusStep::Failure { write: Some(StoreCommand::Update { key, backend, status }), backend: counted, times, .. } => {
            assert_eq!(key, "spacegate:cache:plugin:status:g");
            assert_eq!(backend, "x");
            assert_eq!(*status, Status::Minor);
            assert_eq!(counted, "x");
            assert_eq!(*times, 1);
        }
        _ => panic!("the first failure is written as minor"),
    }
    assert_eq!(errors.get("x"), None);
    step.count(&mut errors);
    let (times, expire) = errors.get("x").unwrap();
    assert_eq!(times, 1);
    // the window ends five seconds from now, and now is well after 2020
    let now = std::time::SystemTime::now().duration_since(std::time::UNIX_EPOCH).unwrap().as_secs() as i64;
    assert!(expire > 1_600_000_000);
    assert!(expire >= now + 4 && expire <= now + 6);
    let step = f.resp_filter(&errors, &failing).unwrap();
    assert!(matches!(step, StatusStep::Failure { write: Some(_), times: 2, .. }));
    step.count(&mut errors);
    assert_eq!(errors.get("x").unwrap().0, 2);
    // no other step counts
    StatusStep::Nothing.count(&mut errors);
    StatusStep::Promote { key: "k".to_string(), backend: "x".to_string() }.count(&mut errors);
    assert_eq!(errors.get("x").unwrap().0, 2);
}

#[test]
fn failure_that_cannot_be_counted_is_refused() {
    let f = SgFilterStatus { interval: 5, ..Default::default() };
    let mut errors = ServerErrors::new();
    assert!(f.can_count(&errors, "x", i64::MAX - 5));
    assert!(!f.can_count(&errors, "x", i64::MAX - 4));
    errors.insert("x", u16::MAX, 100);
    assert!(!f.can_count(&errors, "x", 99));
    // after the window the count starts over, whatever it was
    assert!(f.can_count(&errors, "x", 100));
    errors.insert("x", u16::MAX - 1, 100);
    assert!(f.can_count(&errors, "x", 99));
    assert_eq!(count_error(&f, &mut errors, "x", 99), Some(Status::Major));
    assert_eq!(errors.get("x"), Some((u16::MAX, 104)));

    let wide = SgFilterStatus { interval: u64::MAX, ..Default::default() };
    assert!(!wide.can_count(&errors, "y", 0));
    assert!(wide.can_count(&errors, "y", i64::MIN));
    assert!(!wide.can_count(&errors, "y", i64::MIN + 1));
    let long = SgFilterStatus { interval: i64::MAX as u64, ..Default::default() };
    assert!(long.can_count(&errors, "y", 0));
    assert!(!long.can_count(&errors, "y", 1));
    assert!(long.can_count(&errors, "y", -7));

    // the clock lies beyond such a window: nothing is counted
    let failing = ctx_for("g", Some("y")).resp_from_error(GatewayError::transport("down"));
    assert!(wide.resp_filter(&errors, &failing).is_none());
    assert_eq!(errors.get("y"), None);
}

#[test]
fn servers_are_kept_by_port() {
    let mut servers: StatusServers<&str> = StatusServers::new();
    assert_eq!(servers.take(8110), None);
    assert_eq!(servers.put(8110, "first"), None);
    assert_eq!(servers.put(8111, "other"), None);
    assert_eq!(servers.put(8110, "second"), Some("first"));
    assert_eq!(servers.take(8110), Some("second"));
    assert_eq!(servers.take(8110), None);
    assert_eq!(servers.take(8111), Some("other"));
}

#[test]
fn destroy_frees_the_port_of_the_filter() {
    let f = SgFilterStatus { port: 9000, ..Default::default() };
    let mut servers: StatusServers<u32> = StatusServers::new();
    assert_eq!(f.destroy(&mut servers), None);
    servers.put(9000, 1);
    servers.put(9001, 2);
    assert_eq!(f.destroy(&mut servers), Some(1));
    assert_eq!(f.destroy(&mut servers), None);
    assert_eq!(servers.put(9000, 3), None);
    assert_eq!(servers.take(9001), Some(2));
}

#[test]
fn address_that_cannot_be_used_is_a_conflict() {
    let e = serv_addr_error("invalid IP address syntax");
    assert_eq!(e.kind, ErrorKind::Conflict);
    assert_eq!(e.code(), 409);
    assert_eq!(e.message, "[SG.Filter.Status] serv_addr parse error: invalid IP address syntax");
    let e = bind_error("address in use");
    assert_eq!(e.kind, ErrorKind::Conflict);
    assert_eq!(e.message, "[SG.Filter.Status] bind error: address in use");
}
