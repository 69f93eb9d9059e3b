//! The two listeners: what each serves and under which policy, and the
//! order in which they are bound, run and given up.

use vstd::prelude::*;
use vstd::string::*;
use crate::config::{Config, ConfigView};
use crate::handlers::{answer_of, Handler};

verus! {

/// Seconds for which a browser may cache the cross-origin policy.
pub const CORS_MAX_AGE: usize = 3600;

/// The cross-origin policy of a listener.
#[derive(Debug, Clone)]
pub struct CorsPolicy {
    /// Whether requests from every origin are allowed.
    pub any_origin: bool,
    /// The methods a cross-origin request may use.
    pub methods: Vec<String>,
    /// The headers a cross-origin request may carry.
    pub headers: Vec<String>,
    /// Seconds for which the policy may be cached.
    pub max_age: usize,
}

/// One entry of a route table: requests with `GET` for `path` are
/// answered by `handler`.
#[derive(Debug, Clone)]
pub struct Route {
    pub path: String,
    pub handler: Handler,
}

/// Everything that describes one listener before it is bound.
#[derive(Debug, Clone)]
pub struct ServerPlan {
    pub bind_address: String,
    pub port: u16,
    pub routes: Vec<Route>,
    pub cors: CorsPolicy,
    /// The format of the access-log line written per request.
    pub log_format: String,
}

/// Owns the configuration and describes and steers the two listeners.
#[derive(Debug, Clone)]
pub struct ServerManager {
    config: Config,
}

/// A cross-origin policy as mathematical values.
pub ghost struct CorsPolicyView {
    pub any_origin: bool,
    pub methods: Seq<Seq<char>>,
    pub headers: Seq<Seq<char>>,
    pub max_age: nat,
}

/// A listener's description as mathematical values.
pub ghost struct ServerPlanView {
    pub bind_address: Seq<char>,
    pub port: u16,
    pub routes: Seq<(Seq<char>, Handler)>,
    pub cors: CorsPolicyView,
    pub log_format: Seq<char>,
}

/// The texts of a sequence of strings.
pub open spec fn texts(strings: Seq<String>) -> Seq<Seq<char>> {
    Seq::new(strings.len(), |i: int| strings[i]@)
}

/// A route table as pairs of path and handler.
pub open spec fn table(routes: Seq<Route>) -> Seq<(Seq<char>, Handler)> {
    Seq::new(routes.len(), |i: int| (routes[i].path@, routes[i].handler))
}

impl View for CorsPolicy {
    type V = CorsPolicyView;

    open spec fn view(&self) -> CorsPolicyView {
        CorsPolicyView {
            any_origin: self.any_origin,
            methods: texts(self.methods@),
            headers: texts(self.headers@),
            max_age: self.max_age as nat,
        }
    }
}

impl View for ServerPlan {
    type V = ServerPlanView;

    open spec fn view(&self) -> ServerPlanView {
        ServerPlanView {
            bind_address: self.bind_address@,
            port: self.port,
            routes: table(self.routes@),
            cors: self.cors@,
            log_format: self.log_format@,
        }
    }
}

impl View for ServerManager {
    type V = ConfigView;

    closed spec fn view(&self) -> ConfigView {
        self.config@
    }
}

/// The policy both listeners share: any origin, five methods, three
/// headers, cached for an hour.
pub open spec fn shared_cors() -> CorsPolicyView {
    CorsPolicyView {
        any_origin: true,
        methods: seq!["GET"@, "POST"@, "PUT"@, "DELETE"@, "OPTIONS"@],
        headers: seq!["authorization"@, "accept"@, "content-type"@],
        max_age: 3600,
    }
}

/// The access-log line: client address, time, request line, status,
/// response size, referer, user agent and duration.
pub open spec fn access_log_format() -> Seq<char> {
    "%a - - [%t] \"%r\" %s %b \"%{Referer}i\" \"%{User-Agent}i\" %T"@
}

/// The route table of the main listener.
pub open spec fn main_routes() -> Seq<(Seq<char>, Handler)> {
    seq![("/"@, Handler::Hello), ("/health"@, Handler::Hello)]
}

/// The route table of the application listener.
pub open spec fn app_routes() -> Seq<(Seq<char>, Handler)> {
    seq![
        ("/"@, Handler::Root),
        ("/health"@, Handler::Root),
        ("/public"@, Handler::PublicRoute),
        ("/private"@, Handler::PrivateRoute),
    ]
}

/// The description of the main listener under `config`.
pub open spec fn main_plan(config: ConfigView) -> ServerPlanView {
    ServerPlanView {
        bind_address: config.bind_address,
        port: config.main_port,
        routes: main_routes(),
        cors: shared_cors(),
        log_format: access_log_format(),
    }
}

/// The description of the application listener under `config`.
pub open spec fn app_plan(config: ConfigView) -> ServerPlanView {
    ServerPlanView {
        bind_address: config.bind_address,
        port: config.app_port,
        routes: app_routes(),
        cors: shared_cors(),
        log_format: access_log_format(),
    }
}

/// The handler of the first route of `routes` whose path is `path`.
pub open spec fn lookup(routes: Seq<(Seq<char>, Handler)>, path: Seq<char>) -> Option<Handler>
    decreases routes.len(),
{
    if routes.len() == 0 {
        None
    } else if routes[0].0 == path {
        Some(routes[0].1)
    } else {
        lookup(routes.drop_first(), path)
    }
}

impl ServerPlan {
    /// Finds the handler that answers a `GET` for `path`, if the
    /// listener serves that path.
    pub fn handler_for(&self, path: &str) -> (found: Option<Handler>)
        ensures
            found == lookup(self@.routes, path@),
    {
        let wanted = String::from_str(path);
        let n: usize = self.routes.len();
        let mut i: usize = 0;
        assert(self@.routes.skip(0) =~= self@.routes);
        while i < n
            invariant
                i <= n,
                n == self.routes@.len(),
                wanted@ == path@,
                lookup(self@.routes, path@) == lookup(self@.routes.skip(i as int), path@),
            decreases n - i,
        {
            let ghost rest = self@.routes.skip(i as int);
            assert(rest[0] == self@.routes[i as int]);
            assert(rest.drop_first() =~= self@.routes.skip(i + 1));
            if self.routes[i].path == wanted {
                return Some(self.routes[i].handler);
            }
            i = i + 1;
        }
        None
    }
}

/// A `Vec` of the given five texts.
fn five(a: &str, b: &str, c: &str, d: &str, e: &str) -> (v: Vec<String>)
    ensures
        texts(v@) == seq![a@, b@, c@, d@, e@],
{
    let mut v: Vec<String> = Vec::new();
    v.push(String::from_str(a));
    v.push(String::from_str(b));
    v.push(String::from_str(c));
    v.push(String::from_str(d));
    v.push(String::from_str(e));
    assert(texts(v@) =~= seq![a@, b@, c@, d@, e@]);
    v
}

/// A `Vec` of the given three texts.
fn three(a: &str, b: &str, c: &str) -> (v: Vec<String>)
    ensures
        texts(v@) == seq![a@, b@, c@],
{
    let mut v: Vec<String> = Vec::new();
    v.push(String::from_str(a));
    v.push(String::from_str(b));
    v.push(String::from_str(c));
    assert(texts(v@) =~= seq![a@, b@, c@]);
    v
}

/// A route from `path` to `handler`.
fn route(path: &str, handler: Handler) -> (r: Route)
    ensures
        r.path@ == path@,
        r.handler == handler,
{
    Route { path: String::from_str(path), handler }
}

impl ServerManager {
    /// A manager that owns `config`.
    pub fn new(config: Config) -> (manager: ServerManager)
        ensures
            manager@ == config@,
            manager.config() == config,
    {
        ServerManager { config }
    }

    /// The configuration the manager was made with.
    #[verifier::when_used_as_spec(spec_config)]
    pub fn config(&self) -> (config: &Config)
        ensures
            config == self.spec_config(),
            config@ == self@,
    {
        &self.config
    }

    /// The configuration the manager was made with.
    pub closed spec fn spec_config(&self) -> &Config {
        &self.config
    }

    /// The cross-origin policy of both listeners.
    pub fn create_cors() -> (policy: CorsPolicy)
        ensures
            policy@ == shared_cors(),
    {
        CorsPolicy {
            any_origin: true,
            methods: five("GET", "POST", "PUT", "DELETE", "OPTIONS"),
            headers: three("authorization", "accept", "content-type"),
            max_age: CORS_MAX_AGE,
        }
    }

    /// Describes the main listener: the bind address and the main port,
    /// the greeting under `/` and `/health`, the shared policy and the
    /// access log.
    pub fn create_main_server(&self) -> (plan: ServerPlan)
        ensures
            plan@ == main_plan(self@),
    {
        let mut routes: Vec<Route> = Vec::new();
        routes.push(route("/", Handler::Hello));
        routes.push(route("/health", Handler::Hello));
        assert(table(routes@) =~= main_routes());
        ServerPlan {
            bind_address: self.config.bind_address.clone(),
            port: self.config.main_port,
            routes,
            cors: ServerManager::create_cors(),
            log_format: String::from_str(
                "%a - - [%t] \"%r\" %s %b \"%{Referer}i\" \"%{User-Agent}i\" %T",
            ),
        }
    }

    /// Describes the application listener: the bind address and the
    /// application port, its four routes, the shared policy and the
    /// access log.
    pub fn create_app_server(&self) -> (plan: ServerPlan)
        ensures
            plan@ == app_plan(self@),
    {
        let mut routes: Vec<Route> = Vec::new();
        routes.push(route("/", Handler::Root));
        routes.push(route("/health", Handler::Root));
        routes.push(route("/public", Handler::PublicRoute));
        routes.push(route("/private", Handler::PrivateRoute));
        assert(table(routes@) =~= app_routes());
        ServerPlan {
            bind_address: self.config.bind_address.clone(),
            port: self.config.app_port,
            routes,
            cors: ServerManager::create_cors(),
            log_format: String::from_str(
                "%a - - [%t] \"%r\" %s %b \"%{Referer}i\" \"%{User-Agent}i\" %T",
            ),
        }
    }
}

/// On the main listener `/` and `/health` reach the same handler, the
/// greeting, and get identical answers whenever they are asked.
pub proof fn lemma_main_root_and_health_agree(first: Seq<char>, second: Seq<char>)
    ensures
        lookup(main_routes(), "/"@) == Some(Handler::Hello),
        lookup(main_routes(), "/health"@) == Some(Handler::Hello),
        answer_of(lookup(main_routes(), "/"@).unwrap(), first) == answer_of(
            lookup(main_routes(), "/health"@).unwrap(),
            second,
        ),
{
    reveal_strlit("/");
    reveal_strlit("/health");
    reveal_with_fuel(lookup, 3);
    assert(main_routes().drop_first()[0] == main_routes()[1]);
}

/// On the application listener `/` and `/health` reach the same
/// handler, the status report, and get identical answers whenever they
/// are asked.
pub proof fn lemma_app_root_and_health_agree(first: Seq<char>, second: Seq<char>)
    ensures
        lookup(app_routes(), "/"@) == Some(Handler::Root),
        lookup(app_routes(), "/health"@) == Some(Handler::Root),
        answer_of(lookup(app_routes(), "/"@).unwrap(), first) == answer_of(
            lookup(app_routes(), "/health"@).unwrap(),
            second,
        ),
{
    reveal_strlit("/");
    reveal_strlit("/health");
    reveal_with_fuel(lookup, 3);
    assert(app_routes().drop_first()[0] == app_routes()[1]);
}

/// Both listeners bind to the one configured address, each to its own
/// port, under the same policy.
pub proof fn lemma_plans_share_address_and_policy(config: ConfigView)
    ensures
        main_plan(config).bind_address == app_plan(config).bind_address,
        main_plan(config).cors == app_plan(config).cors,
        main_plan(config).log_format == app_plan(config).log_format,
        main_plan(config).port == config.main_port,
        app_plan(config).port == config.app_port,
{
}

} // verus!
