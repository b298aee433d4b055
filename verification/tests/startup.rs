use llmconduit::http::routes::RouterOptions;
use llmconduit::json::JsonMap;
use llmconduit::log_rotation::count_removed;
use llmconduit::log_rotation::dump_files_to_remove;
use llmconduit::log_rotation::max_age_seconds;
use llmconduit::log_rotation::tmp_files_to_remove;
use llmconduit::log_rotation::work_dirs_to_remove;
use llmconduit::log_rotation::DirEntry;
use llmconduit::log_rotation::WorkDir;
use llmconduit::monitor::MonitorEvent;
use llmconduit::monitor::MonitorEventKind;
use llmconduit::startup::command_uses_dedicated_terminal;
use llmconduit::startup::request_log_path;
use llmconduit::startup::route_upstreams;
use llmconduit::startup::router_options;
use llmconduit::startup::startup_plan;
use llmconduit::startup::upstream_kind;
use llmconduit::startup::upstream_plan;
use llmconduit::startup::AppOptions;
use llmconduit::startup::Commands;
use llmconduit::startup::FailoverProvider;
use llmconduit::startup::ModelRoute;
use llmconduit::startup::UpstreamKind;
use llmconduit::startup::UpstreamLeaf;
use llmconduit::startup::UpstreamPlan;
use llmconduit::startup::UpstreamSettings;

#[test]
fn detects_raw_start_command() {
    assert!(command_uses_dedicated_terminal(&Some(Commands::Start {
        config: None,
        raw: true,
    })));
}

#[test]
fn does_not_suppress_logs_for_non_raw_commands() {
    assert!(!command_uses_dedicated_terminal(&None));
    assert!(!command_uses_dedicated_terminal(&Some(Commands::Start {
        config: None,
        raw: false,
    })));
    assert!(!command_uses_dedicated_terminal(&Some(
        Commands::AnalyzeLog {
            config: None,
            path: Some("/tmp/requests.jsonl".to_string()),
            pairs: 1,
        }
    )));
}

#[test]
fn request_log_is_asked_for_or_configured() {
    let some = |t: &str| Some(t.to_string());
    assert_eq!(request_log_path(some("a"), some("b"), "c"), Ok("a".to_string()));
    assert_eq!(request_log_path(None, some("b"), "c"), Ok("b".to_string()));
    assert_eq!(
        request_log_path(None, None, "c.yaml"),
        Err(
            "no request log path configured; pass --path or set upstream_request_log_path in c.yaml"
                .to_string()
        )
    );
}

#[test]
fn embedded_gateway_has_no_protected_routes() {
    let options = RouterOptions::from(AppOptions { with_debug_ui: true });
    assert!(options.with_debug_ui);
    assert!(!options.register_protected_routes);
    let own = router_options(AppOptions { with_debug_ui: true }, false, true);
    assert!(own.register_protected_routes);
    assert!(!router_options(AppOptions { with_debug_ui: true }, true, true).register_protected_routes);
    assert!(!router_options(AppOptions::default(), false, true).register_protected_routes);
}

#[test]
fn without_the_debug_ui_nothing_serves_it() {
    let plan = startup_plan(AppOptions::default(), true, true);
    assert_eq!(plan.monitor_capacity, None);
    assert!(!plan.flow_store && !plan.metrics && !plan.publishers && plan.turn_capture);
    let plan = startup_plan(AppOptions { with_debug_ui: true }, false, false);
    assert_eq!(plan.monitor_capacity, Some(512));
    assert!(plan.flow_store && plan.first_snapshot && !plan.publishers && !plan.turn_capture);
}

#[test]
fn upstreams_are_put_together() {
    assert_eq!(upstream_kind(1, 0, 0), UpstreamKind::Routing);
    assert_eq!(upstream_kind(0, 1, 3), UpstreamKind::Routing);
    assert_eq!(upstream_kind(0, 0, 0), UpstreamKind::BarePrimary);
    assert_eq!(upstream_kind(0, 0, 2), UpstreamKind::Failover);
    let primary = UpstreamLeaf {
        base_url: "http://p".to_string(),
        api_key: Some("k".to_string()),
        request_log_path: None,
    };
    let routes = vec![ModelRoute {
        name: "glm-*".to_string(),
        base_url: "http://r".to_string(),
        upstream_model: Some("glm".to_string()),
    }];
    let (providers, specs) = route_upstreams(&routes, &primary);
    assert_eq!(providers[0].name, "route-glm-*");
    assert_eq!(providers[0].leaf.base_url, "http://r");
    assert_eq!(providers[0].leaf.api_key.as_deref(), Some("k"));
    assert_eq!(specs[0].provider, 0);
    assert_eq!(specs[0].upstream_model.as_deref(), Some("glm"));
}

fn leaf(base_url: &str) -> UpstreamLeaf {
    UpstreamLeaf {
        base_url: base_url.to_string(),
        api_key: None,
        request_log_path: None,
    }
}

fn fallback(name: &str) -> FailoverProvider {
    FailoverProvider {
        name: name.to_string(),
        leaf: leaf("http://f"),
        upstream_model: Some("m".to_string()),
        exposed_model: None,
        chat_kwargs: JsonMap::new(),
    }
}

fn settings(fallbacks: Vec<FailoverProvider>, routes: Vec<ModelRoute>) -> UpstreamSettings {
    UpstreamSettings {
        primary: leaf("http://p"),
        providers: Vec::new(),
        routes,
        fallbacks,
    }
}

#[test]
fn primary_is_tried_before_its_fallbacks() {
    let plan = upstream_plan(settings(vec![fallback("x"), fallback("y")], Vec::new()));
    let UpstreamPlan::Failover(providers) = plan else {
        panic!("failover");
    };
    let names: Vec<&str> = providers.iter().map(|p| p.name.as_str()).collect();
    assert_eq!(names, vec!["primary", "x", "y"]);
    assert_eq!(providers[0].leaf.base_url, "http://p");
    assert_eq!(providers[0].upstream_model, None);
    assert_eq!(providers[1].upstream_model.as_deref(), Some("m"));
    assert!(matches!(
        upstream_plan(settings(Vec::new(), Vec::new())),
        UpstreamPlan::BarePrimary(leaf) if leaf.base_url == "http://p"
    ));
}

#[test]
fn routes_alone_are_enough_to_route() {
    let route = |name: &str, base_url: &str| ModelRoute {
        name: name.to_string(),
        base_url: base_url.to_string(),
        upstream_model: None,
    };
    let routes = vec![route("a", "http://a"), route("b-*", "http://b")];
    let plan = upstream_plan(settings(vec![fallback("x")], routes));
    let UpstreamPlan::Routing {
        providers,
        route_providers,
        route_specs,
    } = plan
    else {
        panic!("routing");
    };
    assert!(providers.is_empty());
    assert_eq!(route_specs[1].name, "b-*");
    let provider = &route_providers[route_specs[1].provider];
    assert_eq!(provider.name, "route-b-*");
    assert_eq!(provider.leaf.base_url, "http://b");
}

fn entry(name: &str, extension: Option<&str>, is_file: bool, modified: i128) -> DirEntry {
    DirEntry {
        extension: extension.map(str::to_string),
        name: Some(name.to_string()),
        is_file: Some(is_file),
        modified: Some(modified),
    }
}

#[test]
fn deletes_eligible_file_older_than_cutoff() {
    let hour: i128 = 3600 * 1_000_000_000;
    let written: i128 = 1_700_000_000 * 1_000_000_000;
    let now = written + 10 * hour;
    let entries = vec![entry("dump.json", Some("json"), true, written)];
    let removed = dump_files_to_remove(&entries, Some(now - 2 * hour));
    assert_eq!(removed, vec![0]);
    assert_eq!(count_removed(&vec![true]), 1);
}

#[test]
fn only_old_dump_files_are_removed() {
    let entries = vec![
        entry("a.json", Some("json"), true, 5),
        entry("b.JSON", Some("JSON"), true, 5),
        entry("c.ndjson", Some("ndjson"), true, 5),
        entry("d.txt", Some("txt"), true, 5),
        entry("e", None, true, 5),
        entry("dir.json", Some("json"), false, 5),
        entry("fresh.json", Some("json"), true, 10),
        entry("x.json.tmp", Some("tmp"), true, 5),
        DirEntry {
            extension: Some("json".to_string()),
            name: None,
            is_file: Some(true),
            modified: None,
        },
    ];
    assert_eq!(dump_files_to_remove(&entries, Some(10)), vec![0, 1, 2]);
    assert_eq!(tmp_files_to_remove(&entries, Some(10)), vec![7]);
    assert!(dump_files_to_remove(&entries, None).is_empty());
    assert_eq!(count_removed(&vec![true, false, true]), 2);
}

#[test]
fn active_work_dirs_are_kept() {
    let dirs = vec![
        WorkDir {
            is_dir: Some(true),
            modified: Some(1),
            entries: vec![Some(2), None],
        },
        WorkDir {
            is_dir: Some(true),
            modified: Some(1),
            entries: vec![Some(11)],
        },
        WorkDir {
            is_dir: Some(false),
            modified: Some(1),
            entries: vec![],
        },
        WorkDir {
            is_dir: Some(true),
            modified: None,
            entries: vec![],
        },
    ];
    assert_eq!(work_dirs_to_remove(&dirs, Some(10)), vec![0]);
}

#[test]
fn cleanup_is_opt_in() {
    assert_eq!(max_age_seconds(None), None);
    assert_eq!(max_age_seconds(Some(0)), None);
    assert_eq!(max_age_seconds(Some(2)), Some(7200));
    assert_eq!(max_age_seconds(Some(u64::MAX)), Some(u64::MAX));
}

#[test]
fn monitor_events_are_stamped() {
    let event = MonitorEvent::at("resp_1", Some(5), MonitorEventKind::Completed);
    assert_eq!(event.response_id, "resp_1");
    assert_eq!(event.timestamp_ms, 5);
    assert_eq!(
        MonitorEvent::at("r", None, MonitorEventKind::Completed).timestamp_ms,
        0
    );
}

#[test]
fn monitor_events_as_text() {
    let text = |kind: MonitorEventKind| {
        MonitorEvent::at("r", Some(7), kind).to_text().expect("text")
    };
    assert_eq!(
        text(MonitorEventKind::Completed),
        r#"{"response_id":"r","timestamp_ms":7,"kind":"Completed"}"#
    );
    assert_eq!(
        text(MonitorEventKind::UpstreamRequest {
            request_index: 1,
            message_count: 2,
            prompt_chars: 3,
        }),
        r#"{"response_id":"r","timestamp_ms":7,"kind":{"UpstreamRequest":{"request_index":1,"message_count":2,"prompt_chars":3}}}"#
    );
    assert_eq!(
        text(MonitorEventKind::Failed {
            message: "a\"b".to_string(),
        }),
        r#"{"response_id":"r","timestamp_ms":7,"kind":{"Failed":{"message":"a\"b"}}}"#
    );
}
