use kubeview::describe::{describe_deployment, describe_ingress, describe_pod};
use kubeview::model::{
    events_newest_first, format_age, namespace_names, secret_key_value, DeploymentInfo, EventInfo,
    IngressInfo, PodInfo, RawBackendService, RawCondition, RawContainer, RawContainerStatus,
    RawDeployment, RawEvent, RawIngress, RawIngressPath, RawIngressRule, RawIngressTls,
    RawLoadBalancerIngress, RawPod, RawPort, RawSecret, RawSecretData, RawService,
    RawServicePort, SecretInfo, ServiceInfo, StatusColor,
};
use kubeview::output::{helm_lines, secret_view, tsh_clusters_from, yaml_lines};
use kubeview::sort::sort_strings;

fn s(x: &str) -> String {
    x.to_string()
}

fn container(name: &str, image: Option<&str>) -> RawContainer {
    RawContainer {
        name: s(name),
        image: image.map(s),
        ports: Some(vec![RawPort { container_port: 8080, protocol: None }]),
        requests: Some(vec![(s("cpu"), s("100m"))]),
        limits: None,
    }
}

fn raw_pod() -> RawPod {
    RawPod {
        name: Some(s("web-1")),
        phase: Some(s("Running")),
        container_statuses: Some(vec![
            RawContainerStatus { waiting: None, terminated: false, ready: true, restart_count: 2 },
            RawContainerStatus { waiting: None, terminated: false, ready: false, restart_count: 5 },
        ]),
        deleting: false,
        age_secs: Some(7200),
        node_name: Some(s("node-a")),
        pod_ip: None,
        containers: Some(vec![container("app", Some("nginx:1")), container("side", None)]),
        labels: Some(vec![(s("app"), s("web"))]),
        conditions: Some(vec![RawCondition { type_: s("Ready"), status: s("True"), reason: None, message: None }]),
    }
}

#[test]
fn ages_by_unit() {
    assert_eq!(format_age(5), "5s");
    assert_eq!(format_age(-3), "-3s");
    assert_eq!(format_age(59), "59s");
    assert_eq!(format_age(60), "1m");
    assert_eq!(format_age(3599), "59m");
    assert_eq!(format_age(3600), "1h");
    assert_eq!(format_age(86399), "23h");
    assert_eq!(format_age(86400), "1d");
    assert_eq!(format_age(10 * 86400 + 5), "10d");
}

#[test]
fn pod_row_from_api_record() {
    let p = PodInfo::from_raw(&raw_pod());
    assert_eq!(p.name, "web-1");
    assert_eq!(p.status, "Running");
    assert_eq!(p.ready, "1/2");
    assert_eq!(p.restarts, 7);
    assert_eq!(p.age, "2h");
    assert_eq!(p.node, "node-a");
    assert_eq!(p.ip, "-");
    assert_eq!(p.image, "nginx:1");
    assert_eq!(p.containers, vec!["app", "side"]);
    assert_eq!(p.status_color(), StatusColor::Green);
}

#[test]
fn pod_status_precedence() {
    let mut r = raw_pod();
    r.container_statuses.as_mut().unwrap()[1].waiting = Some(Some(s("CrashLoopBackOff")));
    let p = PodInfo::from_raw(&r);
    assert_eq!(p.status, "CrashLoopBackOff");
    assert_eq!(p.status_color(), StatusColor::Red);
    r.container_statuses.as_mut().unwrap()[0].terminated = true;
    assert_eq!(PodInfo::from_raw(&r).status, "Terminated");
    r.container_statuses.as_mut().unwrap()[0].waiting = Some(None);
    assert_eq!(PodInfo::from_raw(&r).status, "Waiting");
    r.deleting = true;
    let p = PodInfo::from_raw(&r);
    assert_eq!(p.status, "Terminating");
    assert_eq!(p.status_color(), StatusColor::Magenta);
    let bare = RawPod {
        name: None,
        phase: None,
        container_statuses: None,
        deleting: false,
        age_secs: None,
        node_name: None,
        pod_ip: None,
        containers: None,
        labels: None,
        conditions: None,
    };
    let p = PodInfo::from_raw(&bare);
    assert_eq!(p.status, "Unknown");
    assert_eq!(p.ready, "0/0");
    assert_eq!(p.age, "?");
    assert_eq!(p.name, "");
    assert_eq!(p.status_color(), StatusColor::Gray);
}

#[test]
fn service_row() {
    let r = RawService {
        name: Some(s("api")),
        type_: None,
        cluster_ip: Some(s("10.0.0.9")),
        lb_ingress: Some(vec![RawLoadBalancerIngress { ip: None, hostname: Some(s("lb.example")) }]),
        ports: Some(vec![
            RawServicePort { port: 80, node_port: Some(30080), protocol: None },
            RawServicePort { port: 53, node_port: None, protocol: Some(s("UDP")) },
        ]),
        age_secs: Some(30),
    };
    let v = ServiceInfo::from_raw(&r);
    assert_eq!(v.type_, "ClusterIP");
    assert_eq!(v.external_ip, "lb.example");
    assert_eq!(v.ports, "80:30080/TCP,53/UDP");
    assert_eq!(v.age, "30s");
    let none = RawService { name: None, type_: None, cluster_ip: None, lb_ingress: None, ports: None, age_secs: None };
    let v = ServiceInfo::from_raw(&none);
    assert_eq!(v.external_ip, "<none>");
    assert_eq!(v.ports, "<none>");
    assert_eq!(v.cluster_ip, "-");
}

fn raw_deployment() -> RawDeployment {
    RawDeployment {
        name: Some(s("web")),
        has_spec: true,
        replicas: Some(3),
        strategy: Some(s("RollingUpdate")),
        selector: Some(vec![(s("app"), s("web"))]),
        template_containers: Some(vec![container("app", Some("nginx:2"))]),
        ready_replicas: Some(2),
        updated_replicas: None,
        available_replicas: Some(2),
        labels: None,
        conditions: Some(vec![RawCondition { type_: s("Available"), status: s("True"), reason: None, message: Some(s("ok")) }]),
        age_secs: Some(90000),
    }
}

#[test]
fn deployment_row_and_readiness() {
    let d = DeploymentInfo::from_raw(&raw_deployment());
    assert_eq!(d.ready, "2/3");
    assert_eq!(d.up_to_date, 0);
    assert_eq!(d.available, 2);
    assert_eq!(d.image, "nginx:2");
    assert_eq!(d.age, "1d");
    assert!(!d.is_fully_ready());
    let mut ok = d.clone();
    ok.ready = s("3/3");
    assert!(ok.is_fully_ready());
    ok.ready = s("0/0");
    assert!(!ok.is_fully_ready());
    ok.ready = s("nothing");
    assert!(!ok.is_fully_ready());
}

fn raw_ingress() -> RawIngress {
    RawIngress {
        name: Some(s("edge")),
        age_secs: None,
        labels: Some(vec![]),
        annotations: Some(vec![
            (s("kubectl.kubernetes.io/last-applied"), s("{}")),
            (s("nginx/rewrite"), s("/")),
        ]),
        class_name: Some(s("nginx")),
        tls: Some(vec![RawIngressTls { hosts: Some(vec![s("a.com"), s("b.com")]), secret_name: None }]),
        rules: Some(vec![
            RawIngressRule {
                host: Some(s("a.com")),
                http: Some(vec![RawIngressPath {
                    path: Some(s("/api")),
                    backend: Some(RawBackendService { name: s("api"), port: Some(80) }),
                    path_type: s("Prefix"),
                }]),
            },
            RawIngressRule { host: None, http: None },
        ]),
        default_backend: Some(Some(RawBackendService { name: s("fallback"), port: None })),
    }
}

#[test]
fn ingress_row() {
    let g = IngressInfo::from_raw(&raw_ingress());
    assert_eq!(g.hosts, "a.com");
    assert_eq!(g.paths, "a.com/api → api:80");
    assert_eq!(g.age, "?");
    let mut r = raw_ingress();
    r.rules = None;
    let g = IngressInfo::from_raw(&r);
    assert_eq!(g.hosts, "*");
    assert_eq!(g.paths, "");
}

#[test]
fn secret_row_and_value() {
    let x = SecretInfo::from_raw(&RawSecret { name: Some(s("db")), type_: None, data_keys: Some(vec![s("a"), s("b")]), age_secs: Some(61) });
    assert_eq!(x.type_, "Opaque");
    assert_eq!(x.keys, 2);
    assert_eq!(x.age, "1m");
    let data = RawSecretData {
        type_: None,
        data: Some(vec![(s("pw"), b"hunter2".to_vec()), (s("bin"), vec![0xff, 0xfe])]),
        string_data: None,
    };
    assert_eq!(secret_key_value(&data, "pw"), "hunter2");
    assert_eq!(secret_key_value(&data, "bin"), "");
    assert_eq!(secret_key_value(&data, "missing"), "");
}

#[test]
fn events_are_newest_first_and_stable() {
    let ev = |ts: Option<i64>, reason: &str| RawEvent {
        last_seen: ts.map(|t| (t, 10)),
        created_age_secs: Some(100),
        type_: None,
        reason: Some(s(reason)),
        kind: Some(s("Pod")),
        object_name: None,
        message: None,
        count: None,
    };
    let out: Vec<EventInfo> = events_newest_first(&vec![ev(Some(5), "a"), ev(None, "b"), ev(Some(9), "c"), ev(Some(5), "d")]);
    let reasons: Vec<&str> = out.iter().map(|e| e.reason.as_str()).collect();
    assert_eq!(reasons, vec!["c", "a", "d", "b"]);
    assert_eq!(out[0].object, "Pod/?");
    assert_eq!(out[0].type_, "Normal");
    assert_eq!(out[0].count, 1);
    assert_eq!(out[0].last_seen, "10s");
    assert_eq!(out[3].last_seen, "1m");
}

#[test]
fn namespaces_sorted() {
    let names = namespace_names(&vec![Some(s("kube-system")), None, Some(s("default")), Some(s("apps"))]);
    assert_eq!(names, vec!["apps", "default", "kube-system"]);
    let sorted = sort_strings(vec![s("b"), s("B"), s("é"), s("a"), s("ab")]);
    let mut want = vec![s("b"), s("B"), s("é"), s("a"), s("ab")];
    want.sort();
    assert_eq!(sorted, want);
}

#[test]
fn describe_pod_lines() {
    let lines = describe_pod("prod", &raw_pod());
    let want = vec![
        "Name:         web-1",
        "Namespace:    prod",
        "Node:         node-a",
        "Status:       Running",
        "IP:           -",
        "Labels:",
        "  app=web",
        "",
        "Containers:",
        "  app:",
        "    Image:   nginx:1",
        "    Port:    8080/TCP",
        "    Requests:",
        "      cpu: 100m",
        "  side:",
        "    Image:   -",
        "    Port:    8080/TCP",
        "    Requests:",
        "      cpu: 100m",
        "",
        "Conditions:",
        "  Ready: True (-)",
        "",
        "Events:  <use 'kubectl describe' for full events>",
    ];
    assert_eq!(lines, want);
}

#[test]
fn describe_deployment_lines() {
    let lines = describe_deployment("prod", &raw_deployment());
    let want = vec![
        "Name:        web",
        "Namespace:   prod",
        "Replicas:    3 desired | 2 ready | 2 available",
        "Strategy:    RollingUpdate",
        "Selector:",
        "  app=web",
        "",
        "Pod Template:",
        "  Container: app",
        "    Image: nginx:2",
        "    Port: 8080/TCP",
        "    Requests:",
        "      cpu: 100m",
        "",
        "Conditions:",
        "  Available: True — ok",
    ];
    assert_eq!(lines, want);
}

#[test]
fn describe_ingress_lines() {
    let lines = describe_ingress("prod", &raw_ingress());
    let want: Vec<String> = vec![
        s("Name:       edge"),
        s("Namespace:  prod"),
        s("Age:        -"),
        s("Annotations:"),
        s("  nginx/rewrite: /"),
        s("IngressClass: nginx"),
        s(""),
        s("TLS:"),
        s("  a.com, b.com → secret/<no secret>"),
        s(""),
        s("Rules:"),
        format!("  {:<40} {:<25} {}", "HOST", "PATH", "BACKEND"),
        format!("  {}", "-".repeat(80)),
        format!("  {:<40} {:<25} {}  ({})", "a.com", "/api", "api:80", "Prefix"),
        s("  *  (no HTTP rules)"),
        s(""),
        s("Default backend: fallback:?"),
    ];
    assert_eq!(lines, want);
}

#[test]
fn secret_decoded_view() {
    let data = RawSecretData {
        type_: Some(s("kubernetes.io/tls")),
        data: Some(vec![(s("bin"), vec![0xff]), (s("pw"), b"a\nb".to_vec())]),
        string_data: Some(vec![(s("k"), s("v"))]),
    };
    let lines = secret_view("db", "prod", Ok(data));
    let want = vec![
        "Secret: db",
        "Namespace: prod",
        "Type: kubernetes.io/tls",
        "",
        "── Data (base64-decoded) ─────────────────────",
        "bin:",
        "  <binary 1 bytes>",
        "",
        "pw:",
        "  a",
        "  b",
        "",
        "── StringData ────────────────────────────────",
        "k:",
        "  v",
        "",
    ];
    assert_eq!(lines, want);
    assert_eq!(secret_view("db", "prod", Err(s("403"))), vec!["Error fetching secret: 403"]);
    let empty = RawSecretData { type_: None, data: None, string_data: Some(vec![]) };
    assert_eq!(secret_view("x", "y", Ok(empty))[5], "  (no data)");
}

#[test]
fn command_output_views() {
    assert_eq!(helm_lines("ns", Ok(vec![])), vec!["No Helm releases in namespace 'ns'"]);
    assert_eq!(helm_lines("ns", Ok(b"NAME\nweb\n".to_vec())), vec!["NAME", "web"]);
    assert_eq!(helm_lines("ns", Err(s("not found"))), vec!["Error running helm: not found"]);
    assert_eq!(yaml_lines(Ok((vec![], b"no such pod".to_vec()))), vec!["Error: no such pod"]);
    assert_eq!(yaml_lines(Ok((b"a: 1\n".to_vec(), vec![]))), vec!["a: 1"]);
    assert_eq!(yaml_lines(Err(s("x"))), vec!["Error running kubectl: x"]);
    assert_eq!(tsh_clusters_from(None), vec!["(tsh not found)"]);
    assert_eq!(tsh_clusters_from(Some(b"H\n--\nc1 x\n".to_vec())), vec!["c1"]);
}

#[test]
fn invalid_utf8_output_is_replaced() {
    assert_eq!(helm_lines("ns", Ok(vec![b'o', b'k', 0xff, b'\n', b'x'])), vec!["ok\u{FFFD}", "x"]);
    assert_eq!(yaml_lines(Ok((vec![], vec![0xfe, b'!']))), vec!["Error: \u{FFFD}!"]);
}
