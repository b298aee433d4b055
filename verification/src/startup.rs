//! What the gateway decides when it starts: what the command asks for, which parts are on,
//! and how the upstreams are put together.
use vstd::prelude::*;

use crate::http::routes::RouterOptions;
use crate::json::JsonMap;
use crate::text;

verus! {

// --- Commands ----------------------------------------------------------------------------------

/// What the gateway is started to do.
#[derive(Debug, Clone)]
pub enum Commands {
    /// Ask for the configuration and write it.
    Configure {
        /// Path of the configuration.
        config: Option<String>,
    },
    /// Analyze a request log.
    AnalyzeLog {
        /// Path of the configuration.
        config: Option<String>,
        /// Path of the log.
        path: Option<String>,
        /// How many pairs to show.
        pairs: usize,
    },
    /// Serve.
    Start {
        /// Path of the configuration.
        config: Option<String>,
        /// Whether the model's text goes to the terminal.
        raw: bool,
    },
}

/// Whether the terminal belongs to the model's text, so that nothing is logged to it.
pub fn command_uses_dedicated_terminal(command: &Option<Commands>) -> (r: bool)
    ensures
        r == (*command matches Some(Commands::Start { raw: true, .. })),
{
    match command {
        Some(Commands::Start { raw, .. }) => *raw,
        _ => false,
    }
}

/// What is told where no request log is known.
pub open spec fn no_log_message(config_path: Seq<char>) -> Seq<char> {
    "no request log path configured; pass --path or set upstream_request_log_path in "@
        + config_path
}

/// The request log to analyze: the one that is asked for, or else the configured one.
pub fn request_log_path(
    path: Option<String>,
    configured: Option<String>,
    config_path: &str,
) -> (r: Result<String, String>)
    ensures
        match r {
            Ok(log) => if path is Some {
                path == Some(log)
            } else {
                configured == Some(log)
            },
            Err(message) => path is None && configured is None && message@ == no_log_message(
                config_path@,
            ),
        },
{
    match path {
        Some(path) => Ok(path),
        None => match configured {
            Some(path) => Ok(path),
            None => Err(
                text::joined(
                    "no request log path configured; pass --path or set upstream_request_log_path in ",
                    config_path,
                ),
            ),
        },
    }
}

// --- Parts -------------------------------------------------------------------------------------

/// What is asked of the gateway.
#[derive(Debug, Clone, Copy, PartialEq, Eq, Structural)]
pub struct AppOptions {
    /// Whether the debug UI is wanted.
    pub with_debug_ui: bool,
}

impl Default for AppOptions {
    fn default() -> (r: Self)
        ensures
            r == (AppOptions { with_debug_ui: false }),
    {
        AppOptions { with_debug_ui: false }
    }
}

impl vstd::std_specs::convert::FromSpecImpl<AppOptions> for RouterOptions {
    open spec fn obeys_from_spec() -> bool {
        true
    }

    open spec fn from_spec(options: AppOptions) -> RouterOptions {
        RouterOptions { with_debug_ui: options.with_debug_ui, register_protected_routes: false }
    }
}

impl From<AppOptions> for RouterOptions {
    /// The routes of a gateway that was not started here: there is no address to decide
    /// by, so the protected routes are not there.
    fn from(options: AppOptions) -> (r: RouterOptions) {
        RouterOptions { with_debug_ui: options.with_debug_ui, register_protected_routes: false }
    }
}

/// How many events the monitor keeps.
pub const MONITOR_CAPACITY: usize = 512;

/// Which parts are on.
#[derive(Debug, Clone, Copy, PartialEq, Eq, Structural)]
pub struct StartupPlan {
    /// How many events the monitor keeps, where it is on.
    pub monitor_capacity: Option<usize>,
    /// Whether flows are followed.
    pub flow_store: bool,
    /// Whether metrics are counted.
    pub metrics: bool,
    /// Whether whole turns are captured.
    pub turn_capture: bool,
    /// Whether sessions are checked, so that the protected routes may be there.
    pub dashboard_auth: bool,
    /// Whether a first snapshot is published before anyone asks.
    pub first_snapshot: bool,
    /// Whether tasks publish the state from time to time.
    pub publishers: bool,
}

/// Which parts are on: without the debug UI none of those that serve it are, and tasks
/// need something to run them.
pub fn startup_plan(options: AppOptions, has_capture_dir: bool, has_runtime: bool) -> (r:
    StartupPlan)
    ensures
        r == (StartupPlan {
            monitor_capacity: if options.with_debug_ui {
                Some(MONITOR_CAPACITY)
            } else {
                None
            },
            flow_store: options.with_debug_ui,
            metrics: options.with_debug_ui,
            turn_capture: has_capture_dir,
            dashboard_auth: options.with_debug_ui,
            first_snapshot: options.with_debug_ui,
            publishers: options.with_debug_ui && has_runtime,
        }),
{
    StartupPlan {
        monitor_capacity: if options.with_debug_ui {
            Some(MONITOR_CAPACITY)
        } else {
            None
        },
        flow_store: options.with_debug_ui,
        metrics: options.with_debug_ui,
        turn_capture: has_capture_dir,
        dashboard_auth: options.with_debug_ui,
        first_snapshot: options.with_debug_ui,
        publishers: options.with_debug_ui && has_runtime,
    }
}

/// The routes of a gateway that starts here: the protected ones may be there where the
/// debug UI is wanted, the address does not refuse them, and sessions can be checked.
pub fn router_options(options: AppOptions, refused: bool, auth_built: bool) -> (r: RouterOptions)
    ensures
        r == (RouterOptions {
            with_debug_ui: options.with_debug_ui,
            register_protected_routes: options.with_debug_ui && !refused && auth_built,
        }),
{
    RouterOptions {
        with_debug_ui: options.with_debug_ui,
        register_protected_routes: options.with_debug_ui && !refused && auth_built,
    }
}

// --- Upstreams ---------------------------------------------------------------------------------

/// How an upstream is reached.
#[derive(Debug, Clone)]
pub struct UpstreamLeaf {
    /// Its address.
    pub base_url: String,
    /// The key that it wants.
    pub api_key: Option<String>,
    /// Where requests to it are logged.
    pub request_log_path: Option<String>,
}

/// How an upstream is reached, with texts as their characters.
pub struct LeafView {
    /// Its address.
    pub base_url: Seq<char>,
    /// The key that it wants.
    pub api_key: Option<Seq<char>>,
    /// Where requests to it are logged.
    pub request_log_path: Option<Seq<char>>,
}

impl View for UpstreamLeaf {
    type V = LeafView;

    open spec fn view(&self) -> LeafView {
        LeafView {
            base_url: self.base_url@,
            api_key: text::opt_view(self.api_key),
            request_log_path: text::opt_view(self.request_log_path),
        }
    }
}

/// Models that are routed by their name.
#[derive(Debug, Clone)]
pub struct ModelRoute {
    /// Name or pattern of the models.
    pub name: String,
    /// Address of the upstream.
    pub base_url: String,
    /// The upstream's own name of the model.
    pub upstream_model: Option<String>,
}

/// How the upstreams are put together.
#[derive(Debug, Clone, Copy, PartialEq, Eq, Structural)]
pub enum UpstreamKind {
    /// By the model that is asked for.
    Routing,
    /// One upstream alone.
    BarePrimary,
    /// One upstream, and others where it fails.
    Failover,
}

/// How the upstreams are put together: routed where there are providers or routes, and
/// else one upstream, alone or with others to fall back on.
pub fn upstream_kind(providers: usize, routes: usize, fallbacks: usize) -> (r: UpstreamKind)
    ensures
        r == if providers > 0 || routes > 0 {
            UpstreamKind::Routing
        } else if fallbacks == 0 {
            UpstreamKind::BarePrimary
        } else {
            UpstreamKind::Failover
        },
{
    if providers > 0 || routes > 0 {
        UpstreamKind::Routing
    } else if fallbacks == 0 {
        UpstreamKind::BarePrimary
    } else {
        UpstreamKind::Failover
    }
}

fn copy_opt(t: &Option<String>) -> (r: Option<String>)
    ensures
        text::opt_view(r) == text::opt_view(*t),
{
    match t {
        Some(t) => Some(t.clone()),
        None => None,
    }
}

/// A route's own upstream.
#[derive(Debug, Clone)]
pub struct RouteProvider {
    /// Name of the provider.
    pub name: String,
    /// How it is reached.
    pub leaf: UpstreamLeaf,
}

/// A route, by the index of its provider.
#[derive(Debug, Clone)]
pub struct RouteSpec {
    /// Name or pattern of the models.
    pub name: String,
    /// Index of the provider.
    pub provider: usize,
    /// The upstream's own name of the model.
    pub upstream_model: Option<String>,
}

/// Whether `p` is the provider of `route`: named after it, at its address, and for the
/// rest reached as the primary upstream is.
pub open spec fn is_provider_of(
    p: RouteProvider,
    route: ModelRoute,
    primary: UpstreamLeaf,
) -> bool {
    &&& p.name@ == "route-"@ + route.name@
    &&& p.leaf@ == (LeafView { base_url: route.base_url@, ..primary@ })
}

/// Whether `s` is the spec of the route at `i`.
pub open spec fn is_spec_of(s: RouteSpec, route: ModelRoute, i: int) -> bool {
    &&& s.name@ == route.name@
    &&& s.provider == i
    &&& text::opt_view(s.upstream_model) == text::opt_view(route.upstream_model)
}

/// The providers and the specs of the routes, each in the order of the routes.
pub fn route_upstreams(routes: &Vec<ModelRoute>, primary: &UpstreamLeaf) -> (r: (
    Vec<RouteProvider>,
    Vec<RouteSpec>,
))
    ensures
        r.0@.len() == routes@.len(),
        r.1@.len() == routes@.len(),
        forall|i: int|
            0 <= i < routes@.len() ==> is_provider_of(#[trigger] r.0@[i], routes@[i], *primary),
        forall|i: int| 0 <= i < routes@.len() ==> is_spec_of(#[trigger] r.1@[i], routes@[i], i),
{
    let mut providers: Vec<RouteProvider> = Vec::new();
    let mut specs: Vec<RouteSpec> = Vec::new();
    let mut i: usize = 0;
    while i < routes.len()
        invariant
            i <= routes@.len(),
            providers@.len() == i,
            specs@.len() == i,
            forall|k: int|
                0 <= k < i ==> is_provider_of(#[trigger] providers@[k], routes@[k], *primary),
            forall|k: int| 0 <= k < i ==> is_spec_of(#[trigger] specs@[k], routes@[k], k),
        decreases routes@.len() - i,
    {
        let route = &routes[i];
        providers.push(
            RouteProvider {
                name: text::joined("route-", route.name.as_str()),
                leaf: UpstreamLeaf {
                    base_url: route.base_url.clone(),
                    api_key: copy_opt(&primary.api_key),
                    request_log_path: copy_opt(&primary.request_log_path),
                },
            },
        );
        specs.push(
            RouteSpec {
                name: route.name.clone(),
                provider: i,
                upstream_model: copy_opt(&route.upstream_model),
            },
        );
        i += 1;
    }
    (providers, specs)
}

/// An upstream to fall back on.
#[derive(Debug)]
pub struct FailoverProvider {
    /// Name of the provider.
    pub name: String,
    /// How it is reached.
    pub leaf: UpstreamLeaf,
    /// The upstream's own name of the model.
    pub upstream_model: Option<String>,
    /// Name under which the model is shown.
    pub exposed_model: Option<String>,
    /// What is added to its chat requests.
    pub chat_kwargs: JsonMap,
}

/// An upstream that is chosen by the model that is asked for.
#[derive(Debug)]
pub struct RoutingProvider {
    /// Name of the provider.
    pub name: String,
    /// How it is reached.
    pub leaf: UpstreamLeaf,
    /// The upstream's own name of the model.
    pub upstream_model: Option<String>,
    /// What is added to its chat requests.
    pub chat_kwargs: JsonMap,
    /// The upstreams to fall back on.
    pub fallbacks: Vec<FailoverProvider>,
}

/// What is configured about upstreams.
#[derive(Debug)]
pub struct UpstreamSettings {
    /// How the primary upstream is reached.
    pub primary: UpstreamLeaf,
    /// Upstreams that are chosen by model.
    pub providers: Vec<RoutingProvider>,
    /// Models that are routed by their name.
    pub routes: Vec<ModelRoute>,
    /// The upstreams that the primary one falls back on.
    pub fallbacks: Vec<FailoverProvider>,
}

/// The upstreams, put together.
#[derive(Debug)]
pub enum UpstreamPlan {
    /// By the model that is asked for.
    Routing {
        /// The configured providers.
        providers: Vec<RoutingProvider>,
        /// The routes' own providers.
        route_providers: Vec<RouteProvider>,
        /// The routes.
        route_specs: Vec<RouteSpec>,
    },
    /// One upstream alone.
    BarePrimary(UpstreamLeaf),
    /// Upstreams in the order in which they are tried.
    Failover(Vec<FailoverProvider>),
}

/// Whether `p` is the primary upstream as one of several: under its own name, with the
/// models as they are asked for and nothing added.
pub open spec fn is_primary_provider(p: FailoverProvider, primary: UpstreamLeaf) -> bool {
    &&& p.name@ == "primary"@
    &&& p.leaf == primary
    &&& p.upstream_model is None
    &&& p.exposed_model is None
    &&& p.chat_kwargs@.len() == 0
}

/// How the configured upstreams are put together.
pub open spec fn kind_of(settings: UpstreamSettings) -> UpstreamKind {
    if settings.providers@.len() > 0 || settings.routes@.len() > 0 {
        UpstreamKind::Routing
    } else if settings.fallbacks@.len() == 0 {
        UpstreamKind::BarePrimary
    } else {
        UpstreamKind::Failover
    }
}

/// Whether `plan` puts the configured upstreams together.
pub open spec fn is_plan_of(plan: UpstreamPlan, settings: UpstreamSettings) -> bool {
    match plan {
        UpstreamPlan::Routing { providers, route_providers, route_specs } => {
            &&& kind_of(settings) is Routing
            &&& providers == settings.providers
            &&& route_providers@.len() == settings.routes@.len()
            &&& route_specs@.len() == settings.routes@.len()
            &&& forall|i: int|
                0 <= i < settings.routes@.len() ==> is_provider_of(
                    #[trigger] route_providers@[i],
                    settings.routes@[i],
                    settings.primary,
                )
            &&& forall|i: int|
                0 <= i < settings.routes@.len() ==> is_spec_of(
                    #[trigger] route_specs@[i],
                    settings.routes@[i],
                    i,
                )
        },
        UpstreamPlan::BarePrimary(leaf) => {
            &&& kind_of(settings) is BarePrimary
            &&& leaf == settings.primary
        },
        UpstreamPlan::Failover(providers) => {
            &&& kind_of(settings) is Failover
            &&& providers@.len() == settings.fallbacks@.len() + 1
            &&& is_primary_provider(providers@[0], settings.primary)
            &&& providers@.skip(1) == settings.fallbacks@
        },
    }
}

/// Puts the configured upstreams together: by model where there are providers or routes,
/// and else the primary one, alone or before those that it falls back on.
pub fn upstream_plan(settings: UpstreamSettings) -> (r: UpstreamPlan)
    ensures
        is_plan_of(r, settings),
{
    match upstream_kind(
        settings.providers.len(),
        settings.routes.len(),
        settings.fallbacks.len(),
    ) {
        UpstreamKind::Routing => {
            let (route_providers, route_specs) = route_upstreams(
                &settings.routes,
                &settings.primary,
            );
            UpstreamPlan::Routing { providers: settings.providers, route_providers, route_specs }
        },
        UpstreamKind::BarePrimary => UpstreamPlan::BarePrimary(settings.primary),
        UpstreamKind::Failover => {
            let ghost fallbacks = settings.fallbacks@;
            let mut providers: Vec<FailoverProvider> = Vec::new();
            providers.push(
                FailoverProvider {
                    name: "primary".to_owned(),
                    leaf: settings.primary,
                    upstream_model: None,
                    exposed_model: None,
                    chat_kwargs: JsonMap::new(),
                },
            );
            let mut rest = settings.fallbacks;
            providers.append(&mut rest);
            assert(providers@.skip(1) =~= fallbacks);
            UpstreamPlan::Failover(providers)
        },
    }
}

/// Every route has a provider of its own, at its own address.
pub proof fn law_route_leads_to_its_address(plan: UpstreamPlan, settings: UpstreamSettings, i: int)
    requires
        is_plan_of(plan, settings),
        kind_of(settings) is Routing,
        0 <= i < settings.routes@.len(),
    ensures
        plan matches UpstreamPlan::Routing { route_providers, route_specs, .. } && {
            let provider = route_specs@[i].provider as int;
            &&& provider < route_providers@.len()
            &&& route_providers@[provider].leaf@.base_url == settings.routes@[i].base_url@
        },
{
}

/// Upstreams are routed where a provider or a route is configured; else the primary one stands
/// alone where there is nothing to fall back to.
pub proof fn law_upstreams_decide_the_kind(settings: UpstreamSettings)
    ensures
        kind_of(settings) is Routing <==> settings.providers@.len() > 0 || settings.routes@.len()
            > 0,
        kind_of(settings) is BarePrimary <==> settings.providers@.len() == 0
            && settings.routes@.len() == 0 && settings.fallbacks@.len() == 0,
        kind_of(settings) is Failover <==> settings.providers@.len() == 0 && settings.routes@.len()
            == 0 && settings.fallbacks@.len() > 0,
{
}

/// A plan leads to the upstreams that are configured: a route's provider is named after it and
/// reached with the key and the log of the primary one, a route's model is its own, and the
/// upstreams to fall back to follow the primary one in their order.
pub proof fn law_plan_leads_to_its_upstreams(plan: UpstreamPlan, settings: UpstreamSettings, i: int)
    requires
        is_plan_of(plan, settings),
    ensures
        settings.providers@.len() > 0 || settings.routes@.len() > 0 <==> plan is Routing,
        plan matches UpstreamPlan::Routing { providers, route_providers, route_specs } ==> providers
            == settings.providers && (0 <= i < settings.routes@.len() ==> route_providers@[i].name@
            == "route-"@ + settings.routes@[i].name@ && route_providers@[i].leaf.base_url@
            == settings.routes@[i].base_url@ && text::opt_view(route_providers@[i].leaf.api_key)
            == text::opt_view(settings.primary.api_key) && text::opt_view(
            route_providers@[i].leaf.request_log_path,
        ) == text::opt_view(settings.primary.request_log_path) && route_specs@[i].name@
            == settings.routes@[i].name@ && route_specs@[i].provider == i && text::opt_view(
            route_specs@[i].upstream_model,
        ) == text::opt_view(settings.routes@[i].upstream_model)),
        plan matches UpstreamPlan::BarePrimary(leaf) ==> leaf == settings.primary
            && settings.fallbacks@.len() == 0,
        plan matches UpstreamPlan::Failover(all) ==> all@.len() == settings.fallbacks@.len() + 1
            && all@[0].leaf == settings.primary && all@[0].name@ == "primary"@
            && all@[0].upstream_model is None && all@[0].exposed_model is None
            && all@[0].chat_kwargs@.len() == 0
                && (0 <= i < settings.fallbacks@.len() ==> all@[i + 1]
            == settings.fallbacks@[i]),
{
    match plan {
        UpstreamPlan::Routing { route_providers, route_specs, .. } => {
            if 0 <= i < settings.routes@.len() {
                assert(is_provider_of(route_providers@[i], settings.routes@[i], settings.primary));
                assert(is_spec_of(route_specs@[i], settings.routes@[i], i));
            }
        },
        UpstreamPlan::Failover(all) => {
            if 0 <= i < settings.fallbacks@.len() {
                assert(all@.skip(1)[i] == all@[i + 1]);
            }
        },
        _ => {},
    }
}

/// Where no request log is known, both ways to name one are told.
pub proof fn law_missing_log_is_told(config_path: Seq<char>)
    ensures
        config_path.is_suffix_of(no_log_message(config_path)),
        no_log_message(config_path).len() == config_path.len() + no_log_message(seq![]).len(),
{
    let told = no_log_message(config_path);
    let start = told.len() - config_path.len();
    assert(told.subrange(start, told.len() as int) =~= config_path);
}

} // verus!
