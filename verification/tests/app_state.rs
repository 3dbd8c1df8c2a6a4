use kubeview::app::{App, ConfirmAction, Fetch, InputMode, PortForward, Tab};
use kubeview::keys::{Command, Key};
use kubeview::model::{DeploymentInfo, PodInfo, SecretInfo, ServiceInfo};
use kubeview::theme::ThemeVariant;

fn pod(name: &str, containers: &[&str]) -> PodInfo {
    PodInfo {
        name: name.to_string(),
        status: "Running".to_string(),
        ready: "1/1".to_string(),
        restarts: 0,
        age: "1m".to_string(),
        node: "n1".to_string(),
        ip: "10.0.0.1".to_string(),
        image: "img".to_string(),
        containers: containers.iter().map(|c| c.to_string()).collect(),
    }
}

fn deployment(name: &str, replicas: i32) -> DeploymentInfo {
    DeploymentInfo {
        name: name.to_string(),
        ready: format!("{replicas}/{replicas}"),
        up_to_date: replicas,
        available: replicas,
        age: "2d".to_string(),
        image: "img".to_string(),
        replicas,
    }
}

fn app() -> App {
    App::new(vec!["apps".to_string(), "default".to_string(), "kube-system".to_string()], Some("dev".to_string()))
}

#[test]
fn new_prefers_default_namespace() {
    let a = app();
    assert_eq!(a.current_namespace, "default");
    assert_eq!(a.current_context, "dev");
    assert_eq!(a.input_mode, InputMode::Normal);
    assert_eq!(a.port_input_buffer, "8080:8080");
    assert_eq!(a.service_log_path, "logs/service.log");
    assert_eq!(a.refresh_interval_secs, 5);
    let b = App::new(vec!["zeta".to_string()], None);
    assert_eq!(b.current_namespace, "zeta");
    assert_eq!(b.current_context, "unknown");
    let c = App::new(vec![], None);
    assert_eq!(c.current_namespace, "default");
}

#[test]
fn namespace_cycles_and_resets_selection() {
    let mut a = app();
    a.pod_selected = 3;
    let f = a.next_namespace();
    assert_eq!(a.current_namespace, "kube-system");
    assert_eq!(a.pod_selected, 0);
    assert_eq!(f, Some(Fetch::List { tab: Tab::Pods, namespace: "kube-system".to_string() }));
    assert_eq!(a.status_message, "Refreshing…");
    assert!(a.loading);
    a.next_namespace();
    assert_eq!(a.current_namespace, "apps");
    a.next_namespace();
    assert_eq!(a.current_namespace, "default");
    let mut empty = App::new(vec![], None);
    assert_eq!(empty.next_namespace(), None);
}

#[test]
fn tabs_wrap_both_ways() {
    let mut a = app();
    a.prev_tab();
    assert_eq!(a.active_tab, 5);
    a.next_tab();
    assert_eq!(a.active_tab, 0);
    for _ in 0..6 {
        a.next_tab();
    }
    assert_eq!(a.active_tab, 0);
    a.select_tab(3);
    assert_eq!(a.active_tab, 3);
    a.select_tab(9);
    assert_eq!(a.active_tab, 3);
    assert_eq!(Tab::Ingresses.title(), "Ingresses");
}

#[test]
fn navigation_stays_in_the_list() {
    let mut a = app();
    a.pods = vec![pod("a", &[]), pod("b", &[]), pod("c", &[])];
    a.apply_filter();
    a.next_item();
    a.next_item();
    a.next_item();
    assert_eq!(a.pod_selected, 2);
    a.prev_item();
    assert_eq!(a.pod_selected, 1);
    a.jump_top();
    a.prev_item();
    assert_eq!(a.pod_selected, 0);
    a.jump_bottom();
    assert_eq!(a.pod_selected, 2);
    a.select_tab(1);
    a.next_item();
    assert_eq!(a.svc_selected, 0);
    a.jump_bottom();
    assert_eq!(a.svc_selected, 0);
}

#[test]
fn search_filters_and_clamps_selection() {
    let mut a = app();
    a.pods = vec![pod("nginx-abc", &[]), pod("redis-1", &[]), pod("nginx-def", &[])];
    a.apply_filter();
    assert_eq!(a.filtered_pods.len(), 3);
    a.pod_selected = 2;
    a.enter_search();
    assert_eq!(a.input_mode, InputMode::Search);
    a.search_query = "rds".to_string();
    a.apply_filter();
    assert_eq!(a.filtered_pods.iter().map(|p| p.name.as_str()).collect::<Vec<_>>(), vec!["redis-1"]);
    assert_eq!(a.pod_selected, 0);
    a.search_query = "NGX".to_string();
    a.apply_filter();
    assert!(a.filtered_pods.is_empty());
    a.search_query = "ngx".to_string();
    a.apply_filter();
    assert_eq!(a.filtered_pods.len(), 2);
    a.exit_search();
    assert_eq!(a.input_mode, InputMode::Normal);
}

#[test]
fn viewer_scrolls_within_content() {
    let mut a = app();
    a.open_viewer("t".to_string(), Ok(vec!["1".into(), "2".into(), "3".into()]));
    assert_eq!(a.input_mode, InputMode::Viewing);
    assert_eq!(a.viewer_scroll, 0);
    a.scroll_viewer_down();
    a.scroll_viewer_down();
    a.scroll_viewer_down();
    assert_eq!(a.viewer_scroll, 2);
    a.scroll_viewer_up();
    assert_eq!(a.viewer_scroll, 1);
    a.scroll_viewer_top();
    assert_eq!(a.viewer_scroll, 0);
    a.scroll_viewer_bottom();
    assert_eq!(a.viewer_scroll, 2);
    a.receive_log_lines(vec!["4".into()]);
    assert_eq!(a.viewer_scroll, 3);
    a.close_viewer();
    assert!(a.viewer_content.is_empty());
    assert_eq!(a.input_mode, InputMode::Normal);
    a.open_viewer("x".to_string(), Err("boom".to_string()));
    assert_eq!(a.viewer_content, vec!["Error: boom"]);
}

#[test]
fn logs_view_is_live_and_follows_the_end() {
    let mut a = app();
    assert_eq!(a.view_logs(), None);
    assert_eq!(a.input_mode, InputMode::Normal);
    a.pods = vec![pod("api", &["main"])];
    a.apply_filter();
    assert_eq!(a.view_logs(), Some(Fetch::PodLogs { namespace: "default".into(), pod: "api".into() }));
    assert_eq!(a.viewer_title, "Logs: api");
    assert_eq!(a.input_mode, InputMode::Viewing);
    assert!(a.log_streaming);
    assert!(a.viewer_content.is_empty());
    a.receive_log_lines(vec!["a".into(), "b".into()]);
    assert_eq!(a.viewer_content, vec!["a", "b"]);
    assert_eq!(a.viewer_scroll, 1);
    a.receive_log_lines(vec!["c".into()]);
    assert_eq!(a.viewer_scroll, 2);
    a.close_viewer();
    assert!(!a.log_streaming);
}

#[test]
fn service_log_path_prompt() {
    let mut a = app();
    a.prompt_service_log_path();
    assert_eq!(a.input_mode, InputMode::Normal);
    a.pods = vec![pod("api", &[])];
    a.apply_filter();
    a.prompt_service_log_path();
    assert_eq!(a.input_mode, InputMode::PathInput);
    assert_eq!(a.path_input_buffer, "logs/service.log");
    a.path_input_buffer = "  /var/log/app.log ".to_string();
    let f = a.confirm_service_log_path();
    assert_eq!(f, Some(Fetch::ExecTail { namespace: "default".into(), pod: "api".into(), path: "/var/log/app.log".into() }));
    assert_eq!(a.service_log_path, "/var/log/app.log");
    assert_eq!(a.viewer_title, "Service Logs [live]: api");
    assert_eq!(a.viewer_content, vec!["Tailing /var/log/app.log in pod api …".to_string(), String::new()]);
    assert!(a.log_streaming);
    a.path_input_buffer = "   ".to_string();
    a.input_mode = InputMode::PathInput;
    assert_eq!(a.confirm_service_log_path(), None);
    assert_eq!(a.input_mode, InputMode::Normal);
}

#[test]
fn scale_flow() {
    let mut a = app();
    a.deployments = vec![deployment("web", 3)];
    a.prompt_scale();
    assert_eq!(a.input_mode, InputMode::ScaleInput);
    assert_eq!(a.scale_input_buffer, "3");
    a.scale_input_buffer = "5".to_string();
    let f = a.confirm_scale();
    assert_eq!(f, Some(Fetch::Scale { namespace: "default".into(), name: "web".into(), replicas: 5 }));
    assert_eq!(a.status_message, "Scaling web to 5…");
    let r = a.scale_done(Ok(()));
    assert_eq!(r, Some(Fetch::List { tab: Tab::Deployments, namespace: "default".into() }));
    assert_eq!(a.status_message, "Refreshing…");
    assert!(a.loading);
    assert_eq!(a.scale_done(Err("denied".into())), None);
    assert_eq!(a.status_message, "Scale failed: denied");
    a.scale_input_buffer = "x".to_string();
    assert_eq!(a.confirm_scale(), None);
    assert_eq!(a.status_message, "Invalid replica count");
}

#[test]
fn rollout_restart_needs_confirmation() {
    let mut a = app();
    a.deployments = vec![deployment("web", 1)];
    a.request_rollout_restart();
    assert_eq!(a.input_mode, InputMode::Confirm);
    assert!(!a.confirm_yes);
    assert_eq!(a.confirm_action, Some(ConfirmAction::RolloutRestart { name: "web".into(), namespace: "default".into() }));
    let f = a.execute_confirm();
    assert_eq!(f, Some(Fetch::RolloutRestart { namespace: "default".into(), name: "web".into() }));
    assert_eq!(a.status_message, "Restarting web…");
    assert_eq!(a.confirm_action, None);
    assert_eq!(a.execute_confirm(), None);
    assert_eq!(
        a.restart_done(Ok(())),
        Some(Fetch::List { tab: Tab::Deployments, namespace: "default".into() })
    );
    assert_eq!(a.status_message, "Refreshing…");
    assert_eq!(a.restart_done(Err("no".into())), None);
    assert_eq!(a.status_message, "Restart failed: no");
    a.request_rollout_restart();
    a.cancel_confirm();
    assert_eq!(a.confirm_action, None);
    assert_eq!(a.status_message, "Cancelled.");
}

#[test]
fn secret_edit_sorts_keys() {
    let mut a = app();
    a.secrets = vec![SecretInfo {
        name: "db".into(),
        type_: "Opaque".into(),
        keys: 3,
        key_names: vec!["user".into(), "b".into(), "Pass".into()],
        age: "1d".into(),
    }];
    a.open_secret_edit();
    assert_eq!(a.input_mode, InputMode::SecretKeyPicker);
    assert_eq!(a.secret_key_picker_list, vec!["Pass", "b", "user"]);
    a.secret_key_picker_next();
    a.secret_key_picker_next();
    a.secret_key_picker_next();
    assert_eq!(a.secret_key_picker_idx, 2);
    a.secret_key_picker_prev();
    let f = a.secret_key_request();
    assert_eq!(f, Some(Fetch::SecretKeyValue { namespace: "default".into(), name: "db".into(), key: "b".into() }));
    a.confirm_secret_key_selection("b".into(), "old".into());
    assert_eq!(a.input_mode, InputMode::SecretValueInput);
    a.secret_value_input_buffer = "new".into();
    let u = a.confirm_secret_value_edit();
    assert_eq!(u, Fetch::UpdateSecretKey { namespace: "default".into(), name: "db".into(), key: "b".into(), value: "new".into() });
    assert_eq!(a.status_message, "Updating db/b…");
    assert_eq!(
        a.secret_update_done(Ok(())),
        Some(Fetch::List { tab: Tab::Secrets, namespace: "default".into() })
    );
    assert_eq!(a.status_message, "Refreshing…");
    a.secret_update_done(Err("x".into()));
    assert_eq!(a.status_message, "Update failed: x");
    a.secrets[0].key_names.clear();
    a.input_mode = InputMode::Normal;
    a.open_secret_edit();
    assert_eq!(a.status_message, "Secret has no data keys to edit.");
    assert_eq!(a.input_mode, InputMode::Normal);
}

#[test]
fn exec_goes_through_picker_for_many_containers() {
    let mut a = app();
    a.pods = vec![pod("one", &["main"]), pod("two", &["a", "b"]), pod("none", &[])];
    a.apply_filter();
    a.open_exec();
    assert_eq!(a.pending_exec, Some(("one".into(), "default".into(), "main".into())));
    a.pending_exec = None;
    a.next_item();
    a.open_exec();
    assert_eq!(a.input_mode, InputMode::ContainerPicker);
    assert_eq!(a.container_picker_list, vec!["a", "b"]);
    a.container_picker_next();
    a.container_picker_next();
    a.confirm_container_for_exec();
    assert_eq!(a.pending_exec, Some(("two".into(), "default".into(), "b".into())));
    assert_eq!(a.input_mode, InputMode::Normal);
    a.next_item();
    a.open_exec();
    assert_eq!(a.pending_exec, Some(("none".into(), "default".into(), String::new())));
}

#[test]
fn port_forward_flow() {
    let mut a = app();
    a.prompt_port_forward();
    assert_eq!(a.input_mode, InputMode::Normal);
    a.pods = vec![pod("api", &[])];
    a.apply_filter();
    a.prompt_port_forward();
    assert_eq!(a.input_mode, InputMode::PortInput);
    a.port_input_buffer = "9000:80".into();
    let f = a.confirm_port_forward();
    assert_eq!(f, Some(Fetch::PortForward { namespace: "default".into(), pod: "api".into(), local_port: 9000, remote_port: 80 }));
    assert_eq!(a.status_message, "Port-forwarding 9000→api:80…");
    a.port_forward_started("api".into(), 9000, 80, Ok(()));
    assert_eq!(a.status_message, "Port-forward active: localhost:9000 → api:80");
    assert_eq!(a.port_forwards, vec![PortForward { pod: "api".into(), local_port: 9000, remote_port: 80, active: true }]);
    a.port_input_buffer = "nope".into();
    assert_eq!(a.confirm_port_forward(), None);
    assert_eq!(a.status_message, "Invalid port 'nope' — use local:remote (e.g. 8080:8080)");
    a.view_port_forwards();
    assert_eq!(a.viewer_title, "Port Forwards");
    assert_eq!(a.viewer_content[0], format!("{:<6} {:<30} {}", "LOCAL", "POD", "STATUS"));
    assert_eq!(a.viewer_content[1], "-".repeat(50));
    assert_eq!(a.viewer_content[2], format!("[{}] :{:<5} → {}:{} ({})", 1, 9000, "api", 80, "active"));
    assert!(a.port_forward_view);
    assert_eq!(a.viewer_content[4], "Press 1–9 to stop that forward, Esc to close.");
    assert_eq!(a.stop_port_forward(1), None);
    assert!(a.port_forwards[0].active);
    assert_eq!(a.stop_port_forward(0), Some(0));
    assert!(!a.port_forwards[0].active);
    assert_eq!(a.viewer_content[2], format!("[{}] :{:<5} → {}:{} ({})", 1, 9000, "api", 80, "stopped"));
    assert_eq!(a.status_message, "Stopped port-forward localhost:9000 → api:80");
    a.cleanup_port_forwards();
    assert!(!a.port_forwards[0].active);
    let mut b = app();
    b.view_port_forwards();
    assert_eq!(b.viewer_content, vec!["No active port-forwards.", "", "Use 'p' on a pod to start one."]);
}

#[test]
fn cluster_picker_flow() {
    let mut a = app();
    assert_eq!(a.open_cluster_picker(), Fetch::TshClusters);
    assert_eq!(a.tsh_clusters, vec!["Loading…"]);
    assert_eq!(a.confirm_cluster_selection(), None);
    assert_eq!(a.input_mode, InputMode::Normal);
    a.open_cluster_picker();
    a.receive_tsh_clusters(vec![]);
    assert_eq!(a.tsh_clusters, vec!["(no clusters found)"]);
    assert_eq!(a.confirm_cluster_selection(), None);
    a.receive_tsh_clusters(vec!["c1".into(), "c2".into()]);
    a.cluster_picker_next();
    a.cluster_picker_next();
    assert_eq!(a.cluster_picker_index, 1);
    let f = a.confirm_cluster_selection();
    assert_eq!(f, Some(Fetch::TshLogin { cluster: "c2".into() }));
    assert_eq!(a.status_message, "Logging into c2…");
    a.pod_selected = 4;
    let r = a.cluster_login_done("c2", Ok((Some("ctx2".into()), vec!["ns".into()])));
    assert_eq!(a.current_context, "ctx2");
    assert_eq!(a.namespaces, vec!["ns"]);
    assert_eq!(a.pod_selected, 0);
    assert_eq!(r, Some(Fetch::List { tab: Tab::Pods, namespace: "default".into() }));
    a.cluster_login_done("c2", Err("no".into()));
    assert_eq!(a.status_message, "Login failed: no");
}

#[test]
fn refresh_results_update_lists() {
    let mut a = app();
    a.schedule_svc_refresh();
    assert!(a.loading);
    let s = ServiceInfo {
        name: "svc".into(),
        type_: "ClusterIP".into(),
        cluster_ip: "1.2.3.4".into(),
        external_ip: "<none>".into(),
        ports: "80/TCP".into(),
        age: "1h".into(),
    };
    a.receive_services(Ok(vec![s]), "12:00:00");
    assert!(!a.loading);
    assert_eq!(a.services.len(), 1);
    assert_eq!(a.status_message, "Refreshed at 12:00:00");
    a.receive_pods(Err("timeout".into()), "12:00:01");
    assert_eq!(a.status_message, "Error: timeout");
    a.initial_load(Ok(vec![pod("p", &[])]), "09:00:00");
    assert_eq!(a.status_message, "Loaded at 09:00:00");
    assert_eq!(a.filtered_pods.len(), 1);
    a.initial_load(Err("down".into()), "x");
    assert_eq!(a.status_message, "Load error: down");
}

#[test]
fn auto_refresh_waits_for_interval_and_idle() {
    let mut a = app();
    assert_eq!(a.auto_refresh(4), None);
    assert_eq!(a.auto_refresh(5), Some(Fetch::List { tab: Tab::Pods, namespace: "default".into() }));
    assert_eq!(a.auto_refresh(100), None);
}

#[test]
fn describe_and_yaml_requests() {
    let mut a = app();
    a.pods = vec![pod("api", &[])];
    a.apply_filter();
    let (t, f) = a.describe_selected().unwrap();
    assert_eq!(t, "Describe Pod: api");
    assert_eq!(f, Fetch::DescribePod { namespace: "default".into(), name: "api".into() });
    let (t, f) = a.view_yaml().unwrap();
    assert_eq!(t, "YAML: pod/api");
    assert_eq!(f, Fetch::ResourceYaml { kind: "pod".into(), name: "api".into(), namespace: "default".into() });
    a.select_tab(5);
    assert_eq!(a.view_yaml(), None);
    assert_eq!(a.describe_selected(), None);
    a.select_tab(4);
    assert_eq!(a.describe_selected(), None);
    a.secrets = vec![SecretInfo {
        name: "db".into(),
        type_: "Opaque".into(),
        keys: 0,
        key_names: vec![],
        age: "1d".into(),
    }];
    let (t, f) = a.describe_selected().unwrap();
    assert_eq!(t, "Secret (decoded): db");
    assert_eq!(f, Fetch::SecretData { namespace: "default".into(), name: "db".into() });
    assert_eq!(a.describe_selected(), a.view_secret_decoded());
    a.select_tab(1);
    assert_eq!(a.view_yaml(), None);
    let (t, f) = a.view_helm_list();
    assert_eq!(t, "Helm releases: default");
    assert_eq!(f, Fetch::HelmList { namespace: "default".into() });
}

#[test]
fn theme_cycles_with_status() {
    let mut a = app();
    a.cycle_theme();
    assert_eq!(a.theme, ThemeVariant::Dracula);
    assert_eq!(a.status_message, "Theme: Dracula");
    a.cycle_theme();
    a.cycle_theme();
    assert_eq!(a.status_message, "Theme: Tokyo Night");
    a.cycle_theme();
    assert_eq!(a.theme, ThemeVariant::Default);
}

#[test]
fn keys_map_to_commands() {
    let mut a = app();
    let ch = |c| Key::Char { c, ctrl: false };
    assert_eq!(a.key_command(ch('q')), Command::Quit);
    assert_eq!(a.key_command(Key::Char { c: 'c', ctrl: true }), Command::Quit);
    assert_eq!(a.key_command(ch('c')), Command::OpenClusterPicker);
    assert_eq!(a.key_command(ch('/')), Command::EnterSearch);
    assert_eq!(a.key_command(ch('3')), Command::SelectTab(2));
    assert_eq!(a.key_command(ch('s')), Command::PromptServiceLogPath);
    a.select_tab(2);
    assert_eq!(a.key_command(ch('s')), Command::PromptScale);
    assert_eq!(a.key_command(ch('r')), Command::RequestRolloutRestart);
    assert_eq!(a.key_command(ch('/')), Command::Nothing);
    a.select_tab(4);
    assert_eq!(a.key_command(Key::Enter), Command::ViewSecretDecoded);
    assert_eq!(a.key_command(ch('e')), Command::OpenSecretEdit);
    assert_eq!(a.key_command(ch('r')), Command::RefreshCurrentTab);
    a.input_mode = InputMode::ScaleInput;
    assert_eq!(a.key_command(ch('7')), Command::ScalePush('7'));
    assert_eq!(a.key_command(ch('x')), Command::Nothing);
    a.input_mode = InputMode::Confirm;
    assert_eq!(a.key_command(Key::Enter), Command::CancelConfirm);
    a.confirm_yes = true;
    assert_eq!(a.key_command(ch('y')), Command::ExecuteConfirm);
    assert_eq!(a.key_command(Key::Left), Command::ToggleConfirm);
    a.input_mode = InputMode::Search;
    assert_eq!(a.key_command(ch('q')), Command::SearchPush('q'));
    assert_eq!(a.key_command(Key::Esc), Command::ExitSearch);
}

#[test]
fn digits_stop_forwards_only_in_the_forward_list() {
    let mut a = app();
    let ch = |c| Key::Char { c, ctrl: false };
    a.view_port_forwards();
    assert_eq!(a.key_command(ch('1')), Command::StopPortForward(0));
    assert_eq!(a.key_command(ch('9')), Command::StopPortForward(8));
    assert_eq!(a.key_command(ch('0')), Command::Nothing);
    assert_eq!(a.key_command(Key::Esc), Command::CloseViewer);
    a.close_viewer();
    assert!(!a.port_forward_view);
    a.open_viewer("YAML: pod/api".into(), Ok(vec![]));
    assert_eq!(a.key_command(ch('1')), Command::Nothing);
}

#[test]
fn jump_bottom_matches_repeated_next() {
    let mut a = app();
    a.pods = vec![pod("a", &[]), pod("b", &[]), pod("c", &[])];
    a.apply_filter();
    let mut b = app();
    b.pods = a.pods.clone();
    b.apply_filter();
    a.jump_bottom();
    for _ in 0..3 {
        b.next_item();
    }
    assert_eq!(a.pod_selected, 2);
    assert_eq!(b.pod_selected, a.pod_selected);
}

#[test]
fn namespace_cycle_visits_each_once() {
    let mut a = App::new(vec!["a".into(), "b".into(), "default".into()], None);
    assert_eq!(a.current_namespace, "default");
    let mut seen = Vec::new();
    for _ in 0..3 {
        a.next_namespace();
        seen.push(a.current_namespace.clone());
    }
    assert_eq!(seen, vec!["a", "b", "default"]);
}
