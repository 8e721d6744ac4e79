//! The filter that follows the health of the backends.
//!
//! It looks at every response. A response that stands for an error counts
//! against the backend, within a window that each failure opens anew; a
//! response that does not puts the backend back to good. What is to be
//! written to the stored health is handed to the caller.
use crate::basic::error::{ErrorKind, GatewayError, GatewayErrorView};
use crate::config::http_route_dto::{
    spec_backend_names,
    spec_rule_backend_names,
    SgHttpRouteRule,
};
use crate::plugins::context::SgRoutePluginContext;
use crate::plugins::context::ContextView;
use crate::plugins::filters::{
    SgAttachedLevel,
    SgPluginFilterAccept,
    SgPluginFilterInitDto,
    SgPluginFilterKind,
};
use std::collections::HashMap;
use vstd::prelude::*;
use vstd::string::*;

pub mod server_err;
pub mod status_plugin;

use server_err::{ServerErrors, Window};
use status_plugin::{
    commands_view,
    spec_apply,
    spec_apply_all,
    spec_get_status,
    Status,
    StoreCommand,
    StoreCommandView,
};

verus! {

broadcast use vstd::std_specs::hash::group_hash_axioms;

/// The name under which this filter is configured.
pub const CODE: &'static str = "status";

/// The address that the status page is served on where none is configured.
pub const DEFAULT_SERV_ADDR: &'static str = "0.0.0.0";

/// The title of the status page where none is configured.
pub const DEFAULT_TITLE: &'static str = "System Status";

/// The prefix of the hash that holds the health where none is configured.
pub const DEFAULT_CACHE_KEY: &'static str = "spacegate:cache:plugin:status";

/// The options of the filter as they are configured: an option that is left
/// out takes its default.
#[derive(Debug)]
pub struct SgFilterStatusOptions {
    pub serv_addr: Option<String>,
    pub port: Option<u16>,
    pub title: Option<String>,
    pub unhealthy_threshold: Option<u16>,
    pub interval: Option<u64>,
    pub cache_key: Option<String>,
}

/// The filter that follows the health of the backends of one gateway.
#[derive(Debug)]
pub struct SgFilterStatus {
    /// The address that the status page is served on.
    pub serv_addr: String,
    /// The port that the status page is served on.
    pub port: u16,
    /// The title of the status page.
    pub title: String,
    /// A backend that has failed more often than this within a window is
    /// in major trouble.
    pub unhealthy_threshold: u16,
    /// The length of the window in seconds.
    pub interval: u64,
    /// The prefix of the hash that holds the health; the name of the gateway
    /// follows after a colon.
    pub cache_key: String,
}

/// The mathematical content of an [`SgFilterStatus`].
pub struct FilterView {
    pub serv_addr: Seq<char>,
    pub port: u16,
    pub title: Seq<char>,
    pub unhealthy_threshold: u16,
    pub interval: u64,
    pub cache_key: Seq<char>,
}

impl View for SgFilterStatus {
    type V = FilterView;

    open spec fn view(&self) -> FilterView {
        FilterView {
            serv_addr: self.serv_addr@,
            port: self.port,
            title: self.title@,
            unhealthy_threshold: self.unhealthy_threshold,
            interval: self.interval,
            cache_key: self.cache_key@,
        }
    }
}

/// The filter that is made where nothing is configured.
pub open spec fn spec_default() -> FilterView {
    FilterView {
        serv_addr: DEFAULT_SERV_ADDR@,
        port: 8110,
        title: DEFAULT_TITLE@,
        unhealthy_threshold: 3,
        interval: 5,
        cache_key: DEFAULT_CACHE_KEY@,
    }
}

impl Default for SgFilterStatus {
    fn default() -> (filter: SgFilterStatus)
        ensures
            filter@ == spec_default(),
    {
        SgFilterStatus {
            serv_addr: String::from_str(DEFAULT_SERV_ADDR),
            port: 8110,
            title: String::from_str(DEFAULT_TITLE),
            unhealthy_threshold: 3,
            interval: 5,
            cache_key: String::from_str(DEFAULT_CACHE_KEY),
        }
    }
}

/// Makes the filter from its configuration.
pub struct SgFilterStatusDef;

/// The text that is configured, or `default` where none is.
pub open spec fn spec_text_or(configured: Option<String>, default: Seq<char>) -> Seq<char> {
    match configured {
        Some(text) => text@,
        None => default,
    }
}

/// The number that is configured, or `default` where none is.
pub open spec fn spec_or<T>(configured: Option<T>, default: T) -> T {
    match configured {
        Some(n) => n,
        None => default,
    }
}

impl SgFilterStatusDef {
    /// The filter for the options `spec`: each option that is configured is
    /// taken, each other one has its default.
    pub fn inst(&self, spec: SgFilterStatusOptions) -> (filter: SgFilterStatus)
        ensures
            filter@ == (FilterView {
                serv_addr: spec_text_or(spec.serv_addr, spec_default().serv_addr),
                port: spec_or(spec.port, spec_default().port),
                title: spec_text_or(spec.title, spec_default().title),
                unhealthy_threshold: spec_or(
                    spec.unhealthy_threshold,
                    spec_default().unhealthy_threshold,
                ),
                interval: spec_or(spec.interval, spec_default().interval),
                cache_key: spec_text_or(spec.cache_key, spec_default().cache_key),
            }),
    {
        let default = SgFilterStatus::default();
        SgFilterStatus {
            serv_addr: match spec.serv_addr {
                Some(text) => text,
                None => default.serv_addr,
            },
            port: match spec.port {
                Some(n) => n,
                None => default.port,
            },
            title: match spec.title {
                Some(text) => text,
                None => default.title,
            },
            unhealthy_threshold: match spec.unhealthy_threshold {
                Some(n) => n,
                None => default.unhealthy_threshold,
            },
            interval: match spec.interval {
                Some(n) => n,
                None => default.interval,
            },
            cache_key: match spec.cache_key {
                Some(text) => text,
                None => default.cache_key,
            },
        }
    }
}

/// The message of the error for an address that is none.
pub open spec fn spec_serv_addr_error(why: Seq<char>) -> Seq<char> {
    "[SG.Filter.Status] serv_addr parse error: "@ + why
}

/// The message of the error for an address that cannot be bound.
pub open spec fn spec_bind_error(why: Seq<char>) -> Seq<char> {
    "[SG.Filter.Status] bind error: "@ + why
}

/// The error that ends the start of the filter where its address is none;
/// `why` is what the parser said.
pub fn serv_addr_error(why: &str) -> (error: GatewayError)
    ensures
        error@ == (GatewayErrorView {
            kind: ErrorKind::Conflict,
            message: spec_serv_addr_error(why@),
        }),
{
    let mut message = String::from_str("[SG.Filter.Status] serv_addr parse error: ");
    message.append(why);
    GatewayError::new(ErrorKind::Conflict, message)
}

/// The error that ends the start of the filter where its address cannot be
/// bound; `why` is what the system said.
pub fn bind_error(why: &str) -> (error: GatewayError)
    ensures
        error@ == (GatewayErrorView { kind: ErrorKind::Conflict, message: spec_bind_error(why@) }),
{
    let mut message = String::from_str("[SG.Filter.Status] bind error: ");
    message.append(why);
    GatewayError::new(ErrorKind::Conflict, message)
}

/// The key of the hash that holds the health of the backends of one gateway.
pub open spec fn spec_cache_key(cache_key: Seq<char>, gateway_name: Seq<char>) -> Seq<char> {
    cache_key + seq![':'] + gateway_name
}

/// The key of the hash that holds the health of the backends of the gateway
/// `gateway_name`: the prefix `cache_key`, a colon, and the name.
pub fn get_cache_key(cache_key: &str, gateway_name: &str) -> (key: String)
    ensures
        key@ == spec_cache_key(cache_key@, gateway_name@),
{
    let mut key = String::from_str(cache_key);
    proof {
        reveal_strlit(":");
    }
    key.append(":");
    key.append(gateway_name);
    assert(key@ =~= spec_cache_key(cache_key@, gateway_name@));
    key
}

// ---------------------------------------------------------------------------
// Start and stop
// ---------------------------------------------------------------------------

/// What is to be done to start the filter.
#[derive(Debug)]
pub struct StatusStart {
    /// The address to serve the status page on.
    pub serv_addr: String,
    /// The port to serve the status page on.
    pub port: u16,
    /// The title of the status page.
    pub title: String,
    /// The gateway whose backends the page shows.
    pub gateway_name: String,
    /// The key of the hash that the page reads.
    pub cache_key: String,
    /// What is written to the stored health once the page is served.
    pub seed: Vec<StoreCommand>,
}

/// The writes that start the stored health under `key`: the hash is deleted,
/// then every backend of `names` is set to good, in their order.
pub open spec fn spec_seed(key: Seq<char>, names: Seq<Seq<char>>) -> Seq<StoreCommandView> {
    seq![StoreCommandView::Clean { key }] + Seq::new(
        names.len(),
        |i: int| StoreCommandView::Update { key, backend: names[i], status: Status::Good },
    )
}

/// The servers of status pages that run in this process, by their port. `H`
/// is whatever stops a server.
pub struct StatusServers<H> {
    servers: HashMap<u16, H>,
}

impl<H> StatusServers<H> {
    /// The handle of the server on each port that has one.
    pub closed spec fn view(&self) -> Map<u16, H> {
        self.servers@
    }

    /// No server runs.
    pub fn new() -> (servers: StatusServers<H>)
        ensures
            servers@ == Map::<u16, H>::empty(),
    {
        StatusServers { servers: HashMap::new() }
    }

    /// Takes the server on `port` out, where one runs there, for the caller
    /// to stop it. The port is free of an entry afterwards.
    pub fn take(&mut self, port: u16) -> (server: Option<H>)
        ensures
            final(self)@ == old(self)@.remove(port),
            server == if old(self)@.contains_key(port) {
                Some(old(self)@[port])
            } else {
                None
            },
    {
        self.servers.remove(&port)
    }

    /// Enters `server` as the one on `port`. Whatever was entered there
    /// before is handed back.
    pub fn put(&mut self, port: u16, server: H) -> (before: Option<H>)
        ensures
            final(self)@ == old(self)@.insert(port, server),
            before == if old(self)@.contains_key(port) {
                Some(old(self)@[port])
            } else {
                None
            },
    {
        self.servers.insert(port, server)
    }
}

// ---------------------------------------------------------------------------
// Counting failures
// ---------------------------------------------------------------------------

/// The latest second that the clock of the machine is taken to show.
pub const NOW_MAX: i64 = 185_480_451_503_999;

/// What one more failure of `backend` at the second `now` asks for: the
/// status that is written for it, if any, and the count that is entered for
/// it once that is written.
///
/// The first failure that is counted makes the backend minor. A failure
/// within the window makes it major where `threshold` failures were counted
/// before, minor else. A failure after the window writes nothing and starts
/// the count over. Each failure opens a window of `interval` seconds.
pub open spec fn spec_plan_error(
    threshold: nat,
    interval: nat,
    errors: Map<Seq<char>, Window>,
    backend: Seq<char>,
    now: int,
) -> (Option<Status>, Window) {
    let expire = now + interval;
    if !errors.contains_key(backend) {
        (Some(Status::Minor), Window { times: 1, expire })
    } else if errors[backend].expire > now {
        (
            Some(
                if errors[backend].times >= threshold {
                    Status::Major
                } else {
                    Status::Minor
                },
            ),
            Window { times: errors[backend].times + 1, expire },
        )
    } else {
        (None, Window { times: 1, expire })
    }
}

/// Whether one more failure of `backend` at `now` can be counted in the
/// integers that the counts are kept in.
pub open spec fn spec_can_count(
    interval: nat,
    errors: Map<Seq<char>, Window>,
    backend: Seq<char>,
    now: int,
) -> bool {
    &&& now + interval <= i64::MAX
    &&& errors.contains_key(backend) && errors[backend].expire > now ==> errors[backend].times
        < u16::MAX
}

/// What one more failure asks for, as [`SgFilterStatus::plan_error`] hands it
/// out.
#[derive(Debug, Clone, Copy, PartialEq, Eq, Structural)]
pub struct ErrorPlan {
    /// The status to write, if any.
    pub status: Option<Status>,
    /// The failures that are counted once this one is.
    pub times: u16,
    /// The second at which that count runs out.
    pub expire: i64,
}

/// What the filter asks of the caller after a response.
#[derive(Debug)]
pub enum StatusStep {
    /// Nothing.
    Nothing,
    /// The backend has failed. Carry out `write` where there is one. Once
    /// that has succeeded, or where there is none, enter the count with
    /// [`StatusStep::count`]. Where the write fails, the count stays as it
    /// was.
    Failure { write: Option<StoreCommand>, backend: String, times: u16, expire: i64 },
    /// Read the status of `backend` under `key` and hand it to
    /// [`SgFilterStatus::promote`].
    Promote { key: String, backend: String },
}

/// The mathematical content of a [`StatusStep`].
pub enum StatusStepView {
    Nothing,
    Failure { write: Option<StoreCommandView>, backend: Seq<char>, window: Window },
    Promote { key: Seq<char>, backend: Seq<char> },
}

impl View for StatusStep {
    type V = StatusStepView;

    open spec fn view(&self) -> StatusStepView {
        match self {
            StatusStep::Nothing => StatusStepView::Nothing,
            StatusStep::Failure { write, backend, times, expire } => StatusStepView::Failure {
                write: match write {
                    Some(command) => Some(command@),
                    None => None,
                },
                backend: backend@,
                window: Window { times: *times as nat, expire: *expire as int },
            },
            StatusStep::Promote { key, backend } => StatusStepView::Promote {
                key: key@,
                backend: backend@,
            },
        }
    }
}

/// What the filter asks for after a response at the second `now`. Without a
/// chosen backend it asks for nothing.
pub open spec fn spec_resp_filter(
    filter: FilterView,
    errors: Map<Seq<char>, Window>,
    ctx: ContextView,
    now: int,
) -> StatusStepView {
    match ctx.chose_backend {
        None => StatusStepView::Nothing,
        Some(chosen) => {
            let key = spec_cache_key(filter.cache_key, ctx.gateway_name);
            let backend = chosen.name_or_host;
            if ctx.response.raw_resp_err is Some {
                let (status, window) = spec_plan_error(
                    filter.unhealthy_threshold as nat,
                    filter.interval as nat,
                    errors,
                    backend,
                    now,
                );
                StatusStepView::Failure {
                    write: match status {
                        Some(status) => Some(StoreCommandView::Update { key, backend, status }),
                        None => None,
                    },
                    backend,
                    window,
                }
            } else {
                StatusStepView::Promote { key, backend }
            }
        },
    }
}

/// Whether a response makes the filter count a failure.
pub open spec fn spec_counts(ctx: ContextView) -> bool {
    ctx.chose_backend is Some && ctx.response.raw_resp_err is Some
}

/// The counts after the count of a step was entered.
pub open spec fn spec_counted(errors: Map<Seq<char>, Window>, step: StatusStepView) -> Map<
    Seq<char>,
    Window,
> {
    match step {
        StatusStepView::Failure { write, backend, window } => errors.insert(backend, window),
        _ => errors,
    }
}

/// The write that puts a backend back to good: there is one unless the
/// backend is stored as good already.
pub open spec fn spec_promote(key: Seq<char>, backend: Seq<char>, current: Option<Status>) -> Option<
    StoreCommandView,
> {
    if current == Some(Status::Good) {
        None
    } else {
        Some(StoreCommandView::Update { key, backend, status: Status::Good })
    }
}

impl StatusStep {
    /// Enters the count of a failure; any other step leaves the counts as
    /// they are.
    pub fn count(&self, errors: &mut ServerErrors)
        requires
            old(errors).wf(),
        ensures
            final(errors).wf(),
            final(errors)@ == spec_counted(old(errors)@, self@),
    {
        match self {
            StatusStep::Failure { write, backend, times, expire } => {
                errors.insert(backend.as_str(), *times, *expire);
            },
            _ => {},
        }
    }
}

/// `chrono::Utc::now` and `DateTime::timestamp`: the seconds that have passed
/// since the start of 1970 by the clock of the machine. chrono keeps the days
/// since then in 32 bits, so the second is no later than [`NOW_MAX`]. The
/// clock is taken to stand after the start of 1970; chrono does not return
/// where it stands before.
#[verifier::external_body]
fn epoch_seconds() -> (now: i64)
    ensures
        0 <= now <= NOW_MAX,
{
    chrono::Utc::now().timestamp()
}

impl SgFilterStatus {
    /// The filter is called for HTTP traffic, also on responses that stand
    /// for an error.
    pub fn accept(&self) -> (accept: SgPluginFilterAccept)
        ensures
            accept.kind@ == seq![SgPluginFilterKind::Http],
            accept.accept_error_response,
    {
        let mut kind: Vec<SgPluginFilterKind> = Vec::new();
        kind.push(SgPluginFilterKind::Http);
        assert(kind@ =~= seq![SgPluginFilterKind::Http]);
        SgPluginFilterAccept { kind, accept_error_response: true }
    }

    /// What is to be done to start the filter: nothing where it is attached
    /// elsewhere than to a gateway. Else the status page is to be served, and
    /// then the stored health is started afresh with every backend that the
    /// rules name set to good.
    pub fn init(&self, init_dto: &SgPluginFilterInitDto) -> (start: Option<StatusStart>)
        ensures
            start is Some <==> init_dto.attached_level == SgAttachedLevel::Gateway,
            start matches Some(s) ==> {
                &&& s.serv_addr@ == self.serv_addr@
                &&& s.port == self.port
                &&& s.title@ == self.title@
                &&& s.gateway_name@ == init_dto.gateway_name@
                &&& s.cache_key@ == spec_cache_key(self.cache_key@, init_dto.gateway_name@)
                &&& commands_view(s.seed@) == spec_seed(
                    s.cache_key@,
                    spec_backend_names(init_dto.http_route_rules@),
                )
            },
    {
        match init_dto.attached_level {
            SgAttachedLevel::Gateway => {},
            _ => {
                return None;
            },
        }
        let cache_key = get_cache_key(self.cache_key.as_str(), init_dto.gateway_name.as_str());
        let ghost key = cache_key@;
        let mut seed: Vec<StoreCommand> = Vec::new();
        seed.push(status_plugin::clean_status(cache_key.as_str()));
        assert(commands_view(seed@) =~= spec_seed(key, Seq::empty()));
        let rules = &init_dto.http_route_rules;
        let mut r: usize = 0;
        assert(rules@.take(0) =~= Seq::empty());
        while r < rules.len()
            invariant
                r <= rules.len(),
                cache_key@ == key,
                commands_view(seed@) == spec_seed(key, spec_backend_names(rules@.take(r as int))),
            decreases rules.len() - r,
        {
            let ghost done = spec_backend_names(rules@.take(r as int));
            let ghost rule_names = spec_rule_backend_names(rules@[r as int]);
            if let Some(backends) = &rules[r].backends {
                let mut b: usize = 0;
                assert(rule_names.take(0) =~= Seq::empty());
                assert(done + Seq::empty() =~= done);
                while b < backends.len()
                    invariant
                        b <= backends.len(),
                        cache_key@ == key,
                        rule_names.len() == backends.len(),
                        forall|i: int|
                            0 <= i < backends.len() ==> rule_names[i]
                                == #[trigger] backends[i].name_or_host@,
                        commands_view(seed@) == spec_seed(key, done + rule_names.take(b as int)),
                    decreases backends.len() - b,
                {
                    let ghost before = seed@;
                    let ghost names = done + rule_names.take(b as int);
                    seed.push(
                        status_plugin::update_status(
                            backends[b].name_or_host.as_str(),
                            cache_key.as_str(),
                            Status::default(),
                        ),
                    );
                    proof {
                        let more = done + rule_names.take(b + 1);
                        assert(more =~= names.push(rule_names[b as int]));
                        assert(commands_view(before).len() == spec_seed(key, names).len());
                        assert(before.len() == 1 + names.len());
                        assert(spec_seed(key, more).len() == 1 + more.len());
                        assert forall|i: int| 0 <= i < seed@.len() implies commands_view(seed@)[i]
                            == spec_seed(key, more)[i] by {
                            if i < before.len() {
                                assert(seed@[i] == before[i]);
                                assert(commands_view(before)[i] == spec_seed(key, names)[i]);
                                if i >= 1 {
                                    assert(more[i - 1] == names[i - 1]);
                                }
                            } else {
                                assert(more[i - 1] == rule_names[b as int]);
                            }
                        }
                        assert(commands_view(seed@) =~= spec_seed(key, more));
                    }
                    b += 1;
                }
                assert(rule_names.take(b as int) =~= rule_names);
            } else {
                assert(done + rule_names =~= done);
            }
            assert(rules@.take(r + 1).drop_last() =~= rules@.take(r as int));
            assert(rules@.take(r + 1).last() == rules@[r as int]);
            r += 1;
        }
        assert(rules@.take(r as int) =~= rules@);
        Some(
            StatusStart {
                serv_addr: self.serv_addr.clone(),
                port: self.port,
                title: self.title.clone(),
                gateway_name: init_dto.gateway_name.clone(),
                cache_key,
                seed,
            },
        )
    }

    /// Stops the filter: takes the server of its status page out of
    /// `servers`, for the caller to stop it.
    pub fn destroy<H>(&self, servers: &mut StatusServers<H>) -> (server: Option<H>)
        ensures
            final(servers)@ == old(servers)@.remove(self.port),
            !final(servers)@.contains_key(self.port),
            server == if old(servers)@.contains_key(self.port) {
                Some(old(servers)@[self.port])
            } else {
                None
            },
    {
        servers.take(self.port)
    }

    /// A request passes as it is.
    pub fn req_filter(&self, ctx: SgRoutePluginContext) -> (passed: (bool, SgRoutePluginContext))
        ensures
            passed.0,
            passed.1 == ctx,
    {
        (true, ctx)
    }

    /// Whether one more failure of `backend` at `now` can be counted.
    pub fn can_count(&self, errors: &ServerErrors, backend: &str, now: i64) -> (yes: bool)
        requires
            errors.wf(),
        ensures
            yes == spec_can_count(self.interval as nat, errors@, backend@, now as int),
    {
        if now as i128 + self.interval as i128 > i64::MAX as i128 {
            return false;
        }
        match errors.get(backend) {
            Some((times, expire)) => !(expire > now) || times < u16::MAX,
            None => true,
        }
    }

    /// What one more failure of `backend` at the second `now` asks for: the
    /// status to write, if any, and the count to enter once that is written.
    /// The counts themselves are left as they are.
    pub fn plan_error(&self, errors: &ServerErrors, backend: &str, now: i64) -> (plan: ErrorPlan)
        requires
            errors.wf(),
            spec_can_count(self.interval as nat, errors@, backend@, now as int),
        ensures
            (plan.status, Window { times: plan.times as nat, expire: plan.expire as int })
                == spec_plan_error(
                self.unhealthy_threshold as nat,
                self.interval as nat,
                errors@,
                backend@,
                now as int,
            ),
    {
        let expire: i64 = (now as i128 + self.interval as i128) as i64;
        match errors.get(backend) {
            Some((times, window_end)) => {
                if window_end > now {
                    let status = if times >= self.unhealthy_threshold {
                        Status::Major
                    } else {
                        Status::Minor
                    };
                    ErrorPlan { status: Some(status), times: times + 1, expire }
                } else {
                    ErrorPlan { status: None, times: 1, expire }
                }
            },
            None => ErrorPlan { status: Some(Status::Minor), times: 1, expire },
        }
    }

    /// What the filter asks for after a response at the second `now`. It
    /// counts nothing itself: see [`StatusStep::Failure`].
    pub fn resp_filter_at(&self, errors: &ServerErrors, ctx: &SgRoutePluginContext, now: i64) -> (step:
        StatusStep)
        requires
            errors.wf(),
            spec_counts(ctx@) ==> spec_can_count(
                self.interval as nat,
                errors@,
                ctx@.chose_backend->0.name_or_host,
                now as int,
            ),
        ensures
            step@ == spec_resp_filter(self@, errors@, ctx@, now as int),
    {
        match &ctx.chose_backend {
            None => StatusStep::Nothing,
            Some(chosen) => {
                let key = get_cache_key(self.cache_key.as_str(), ctx.gateway_name.as_str());
                let backend = chosen.name_or_host.clone();
                if ctx.is_resp_error() {
                    let plan = self.plan_error(errors, backend.as_str(), now);
                    let write = match plan.status {
                        Some(status) => Some(
                            status_plugin::update_status(backend.as_str(), key.as_str(), status),
                        ),
                        None => None,
                    };
                    StatusStep::Failure { write, backend, times: plan.times, expire: plan.expire }
                } else {
                    StatusStep::Promote { key, backend }
                }
            },
        }
    }

    /// What the filter asks for after a response now, by the clock of the
    /// machine. The clock is read for a failure only. Where the failure
    /// cannot be counted in the integers that the counts are kept in, `None`
    /// comes back; that does not happen while the failure can be counted at
    /// every second that the clock may show.
    pub fn resp_filter(&self, errors: &ServerErrors, ctx: &SgRoutePluginContext) -> (step: Option<
        StatusStep,
    >)
        requires
            errors.wf(),
        ensures
            !spec_counts(ctx@) ==> step is Some && step->0@ == spec_resp_filter(
                self@,
                errors@,
                ctx@,
                0,
            ),
            spec_counts(ctx@) ==> exists|now: int|
                0 <= now <= NOW_MAX && {
                    let can = #[trigger] spec_can_count(
                        self.interval as nat,
                        errors@,
                        ctx@.chose_backend->0.name_or_host,
                        now,
                    );
                    match step {
                        Some(s) => can && s@ == spec_resp_filter(self@, errors@, ctx@, now),
                        None => !can,
                    }
                },
            spec_counts(ctx@) && (forall|now: int|
                0 <= now <= NOW_MAX ==> #[trigger] spec_can_count(
                    self.interval as nat,
                    errors@,
                    ctx@.chose_backend->0.name_or_host,
                    now,
                )) ==> step is Some,
    {
        match &ctx.chose_backend {
            Some(chosen) => {
                if ctx.is_resp_error() {
                    let now = epoch_seconds();
                    if !self.can_count(errors, chosen.name_or_host.as_str(), now) {
                        assert(!spec_can_count(
                            self.interval as nat,
                            errors@,
                            ctx@.chose_backend->0.name_or_host,
                            now as int,
                        ));
                        return None;
                    }
                    let step = self.resp_filter_at(errors, ctx, now);
                    assert(spec_can_count(
                        self.interval as nat,
                        errors@,
                        ctx@.chose_backend->0.name_or_host,
                        now as int,
                    ));
                    return Some(step);
                }
            },
            None => {},
        }
        Some(self.resp_filter_at(errors, ctx, 0))
    }

    /// The second half of a [`StatusStep::Promote`]: given what is stored for
    /// the backend, the write that puts it back to good. None is needed where
    /// it is stored as good.
    pub fn promote(key: String, backend: String, current: Option<Status>) -> (command: Option<
        StoreCommand,
    >)
        ensures
            command is Some <==> spec_promote(key@, backend@, current) is Some,
            command matches Some(c) ==> Some(c@) == spec_promote(key@, backend@, current),
    {
        match current {
            Some(Status::Good) => None,
            _ => Some(StoreCommand::Update { key, backend, status: Status::Good }),
        }
    }
}

// ---------------------------------------------------------------------------
// What holds of the stored health
// ---------------------------------------------------------------------------

/// The stored health after the writes of a step were carried out.
pub open spec fn spec_effect(
    store: Map<Seq<char>, Map<Seq<char>, Status>>,
    step: StatusStepView,
) -> Map<Seq<char>, Map<Seq<char>, Status>> {
    match step {
        StatusStepView::Nothing => store,
        StatusStepView::Failure { write, backend, window } => match write {
            Some(command) => spec_apply(store, command),
            None => store,
        },
        StatusStepView::Promote { key, backend } => match spec_promote(
            key,
            backend,
            spec_get_status(store, key, backend),
        ) {
            Some(command) => spec_apply(store, command),
            None => store,
        },
    }
}

/// The counts and the stored health after the filter has seen the response
/// of `ctx` once at each second of `nows`, in their order, and every write
/// has succeeded.
pub open spec fn spec_after_responses(
    filter: FilterView,
    errors: Map<Seq<char>, Window>,
    store: Map<Seq<char>, Map<Seq<char>, Status>>,
    ctx: ContextView,
    nows: Seq<int>,
) -> (Map<Seq<char>, Window>, Map<Seq<char>, Map<Seq<char>, Status>>)
    decreases nows.len(),
{
    if nows.len() == 0 {
        (errors, store)
    } else {
        let (counted, stored) = spec_after_responses(filter, errors, store, ctx, nows.drop_last());
        let step = spec_resp_filter(filter, counted, ctx, nows.last());
        (spec_counted(counted, step), spec_effect(stored, step))
    }
}

/// Starting the stored health leaves every backend that was named good, and
/// no other backend stored under the key.
pub proof fn lemma_seed_all_good(
    store: Map<Seq<char>, Map<Seq<char>, Status>>,
    key: Seq<char>,
    names: Seq<Seq<char>>,
)
    ensures
        forall|backend: Seq<char>| #[trigger]
            spec_get_status(spec_apply_all(store, spec_seed(key, names)), key, backend) == if names.contains(
                backend,
            ) {
                Some(Status::Good)
            } else {
                None
            },
    decreases names.len(),
{
    let seed = spec_seed(key, names);
    let after = spec_apply_all(store, seed);
    if names.len() == 0 {
        assert(seed.drop_last() =~= Seq::<StoreCommandView>::empty());
        assert(spec_apply_all(store, seed.drop_last()) == store);
        assert(seed.last() == StoreCommandView::Clean { key });
        assert(after == store.remove(key));
    } else {
        let front = names.drop_last();
        lemma_seed_all_good(store, key, front);
        assert(seed.drop_last() =~= spec_seed(key, front));
        assert(seed.last() == StoreCommandView::Update {
            key,
            backend: names.last(),
            status: Status::Good,
        });
        let mid = spec_apply_all(store, spec_seed(key, front));
        assert forall|backend: Seq<char>| #[trigger]
            spec_get_status(after, key, backend) == if names.contains(backend) {
                Some(Status::Good)
            } else {
                None
            } by {
            let was = spec_get_status(mid, key, backend);
            if front.contains(backend) {
                let i = front.index_of(backend);
                assert(names[i] == backend);
            }
            if backend == names.last() {
                assert(names[names.len() - 1] == backend);
            }
            if names.contains(backend) && backend != names.last() {
                let i = names.index_of(backend);
                assert(front[i] == backend);
            }
        }
    }
}

/// Failures in a row escalate. Take a backend of which no failure is counted
/// yet, and let it fail once or more, each time before the window of the
/// failure before it has run out. Then it is stored as major once it has
/// failed more often than the threshold and at least twice, and as minor
/// before that. Each of these failures can be counted, as long as they are
/// no more than the count can hold and the window of the last one ends within
/// the seconds that can be kept.
pub proof fn lemma_failures_escalate(
    filter: FilterView,
    errors: Map<Seq<char>, Window>,
    store: Map<Seq<char>, Map<Seq<char>, Status>>,
    ctx: ContextView,
    nows: Seq<int>,
)
    requires
        spec_counts(ctx),
        !errors.contains_key(ctx.chose_backend->0.name_or_host),
        nows.len() >= 1,
        forall|i: int| 0 < i < nows.len() ==> #[trigger] nows[i] < nows[i - 1] + filter.interval,
    ensures
        ({
            let backend = ctx.chose_backend->0.name_or_host;
            let key = spec_cache_key(filter.cache_key, ctx.gateway_name);
            let (before, _) = spec_after_responses(filter, errors, store, ctx, nows.drop_last());
            let (counted, stored) = spec_after_responses(filter, errors, store, ctx, nows);
            &&& counted.contains_key(backend)
            &&& counted[backend] == (Window {
                times: nows.len(),
                expire: nows.last() + filter.interval,
            })
            &&& spec_get_status(stored, key, backend) == Some(
                if nows.len() >= 2 && nows.len() > filter.unhealthy_threshold {
                    Status::Major
                } else {
                    Status::Minor
                },
            )
            &&& nows.len() <= u16::MAX && nows.last() + filter.interval <= i64::MAX
                ==> spec_can_count(filter.interval as nat, before, backend, nows.last())
        }),
    decreases nows.len(),
{
    let front = nows.drop_last();
    let backend = ctx.chose_backend->0.name_or_host;
    let key = spec_cache_key(filter.cache_key, ctx.gateway_name);
    let (counted, stored) = spec_after_responses(filter, errors, store, ctx, front);
    let step = spec_resp_filter(filter, counted, ctx, nows.last());
    assert(spec_after_responses(filter, errors, store, ctx, nows) == (
        spec_counted(counted, step),
        spec_effect(stored, step),
    ));
    if front.len() == 0 {
        assert(counted == errors);
    } else {
        assert forall|i: int| 0 < i < front.len() implies #[trigger] front[i] < front[i - 1]
            + filter.interval by {
            assert(front[i] == nows[i]);
            assert(front[i - 1] == nows[i - 1]);
        }
        lemma_failures_escalate(filter, errors, store, ctx, front);
        assert(front.last() == nows[nows.len() - 2]);
        assert(counted[backend].expire > nows.last());
    }
}

/// A failure can be counted at every second that the clock may show, where
/// the window is short enough to end within the seconds that can be kept and
/// the count of the backend is not at its end.
pub proof fn lemma_clock_can_be_counted(
    interval: nat,
    errors: Map<Seq<char>, Window>,
    backend: Seq<char>,
)
    requires
        interval + NOW_MAX <= i64::MAX,
        errors.contains_key(backend) ==> errors[backend].times < u16::MAX,
    ensures
        forall|now: int|
            0 <= now <= NOW_MAX ==> #[trigger] spec_can_count(interval, errors, backend, now),
{
}

/// A success puts the backend back to good: whatever was stored for it or
/// not, and however often it had failed, it is stored as good afterwards. The
/// counts stay.
pub proof fn lemma_success_restores(
    filter: FilterView,
    errors: Map<Seq<char>, Window>,
    store: Map<Seq<char>, Map<Seq<char>, Status>>,
    ctx: ContextView,
    now: int,
)
    requires
        ctx.chose_backend is Some,
        ctx.response.raw_resp_err is None,
    ensures
        ({
            let backend = ctx.chose_backend->0.name_or_host;
            let key = spec_cache_key(filter.cache_key, ctx.gateway_name);
            let step = spec_resp_filter(filter, errors, ctx, now);
            &&& spec_counted(errors, step) == errors
            &&& spec_get_status(spec_effect(store, step), key, backend) == Some(Status::Good)
        }),
{
}

} // verus!
