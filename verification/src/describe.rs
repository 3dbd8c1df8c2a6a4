//! The `describe` views: the lines shown for one pod, deployment, ingress or
//! secret, and the lines of command output shown in the viewer.

use vstd::prelude::*;
use crate::model::{
    backend_string, backend_text, join, join_strings, opt_age_text, opt_text, or_text,
    path_backend_string, path_backend_text, utf8_to_string, RawCondition, RawContainer,
    RawDeployment, RawIngress, RawIngressRule, RawIngressTls, RawPod, RawSecretData,
};
use crate::text::{
    concat, concat3, decimal, i64_decimal, lines, owned, pad_right, pad_str, push_char,
    repeat_char, repeat_str, signed_decimal, split_lines, starts_with, str_starts_with,
    u64_decimal,
};

verus! {

/// Appends one line.
pub fn push_line(out: &mut Vec<String>, l: String)
    ensures
        final(out).deep_view() == old(out).deep_view().push(l@),
{
    let ghost before = out@;
    out.push(l);
    assert(out.deep_view() =~= before.map(|_i: int, s: String| s@).push(l@));
}

/// Appends lines.
pub fn extend_lines(out: &mut Vec<String>, more: Vec<String>)
    ensures
        final(out).deep_view() == old(out).deep_view() + more.deep_view(),
{
    let mut more = more;
    let ghost a = out@;
    let ghost b = more@;
    out.append(&mut more);
    assert(out.deep_view() =~= a.map(|_i: int, s: String| s@) + b.map(|_i: int, s: String| s@));
}

/// One line per pair: `prefix`, key, `sep`, value.
pub open spec fn kv_lines(prefix: Seq<char>, sep: Seq<char>, pairs: Seq<(String, String)>) -> Seq<
    Seq<char>,
> {
    Seq::new(pairs.len(), |i: int| prefix + pairs[i].0@ + sep + pairs[i].1@)
}

pub fn kv_block(prefix: &str, sep: &str, pairs: &Vec<(String, String)>) -> (r: Vec<String>)
    ensures
        r.deep_view() == kv_lines(prefix@, sep@, pairs@),
{
    let mut out: Vec<String> = Vec::new();
    let mut i: usize = 0;
    while i < pairs.len()
        invariant
            i <= pairs@.len(),
            out.deep_view() == kv_lines(prefix@, sep@, pairs@).subrange(0, i as int),
        decreases pairs@.len() - i,
    {
        let mut l = concat(prefix, pairs[i].0.as_str());
        l.append(sep);
        l.append(pairs[i].1.as_str());
        push_line(&mut out, l);
        i = i + 1;
        assert(out.deep_view() =~= kv_lines(prefix@, sep@, pairs@).subrange(0, i as int));
    }
    assert(kv_lines(prefix@, sep@, pairs@).subrange(0, i as int) =~= kv_lines(
        prefix@,
        sep@,
        pairs@,
    ));
    out
}

pub open spec fn port_lines(port_label: Seq<char>, c: RawContainer) -> Seq<Seq<char>> {
    match c.ports {
        Some(ps) => Seq::new(
            ps@.len(),
            |i: int|
                port_label + signed_decimal(ps@[i].container_port as int) + seq!['/']
                    + opt_text(ps@[i].protocol, "TCP"@),
        ),
        None => Seq::empty(),
    }
}

pub open spec fn resource_lines(c: RawContainer) -> Seq<Seq<char>> {
    (match c.requests {
        Some(r) => seq!["    Requests:"@] + kv_lines("      "@, ": "@, r@),
        None => Seq::empty(),
    }) + match c.limits {
        Some(l) => seq!["    Limits:"@] + kv_lines("      "@, ": "@, l@),
        None => Seq::empty(),
    }
}

/// The lines describing one container.
pub open spec fn container_lines(
    head_prefix: Seq<char>,
    head_suffix: Seq<char>,
    image_label: Seq<char>,
    port_label: Seq<char>,
    c: RawContainer,
) -> Seq<Seq<char>> {
    seq![head_prefix + c.name@ + head_suffix, image_label + opt_text(c.image, "-"@)] + port_lines(
        port_label,
        c,
    ) + resource_lines(c)
}

/// The lines describing each container in turn.
pub open spec fn containers_lines(
    head_prefix: Seq<char>,
    head_suffix: Seq<char>,
    image_label: Seq<char>,
    port_label: Seq<char>,
    cs: Seq<RawContainer>,
) -> Seq<Seq<char>>
    decreases cs.len(),
{
    if cs.len() == 0 {
        Seq::empty()
    } else {
        containers_lines(head_prefix, head_suffix, image_label, port_label, cs.drop_last())
            + container_lines(head_prefix, head_suffix, image_label, port_label, cs.last())
    }
}

fn push_container(
    out: &mut Vec<String>,
    head_prefix: &str,
    head_suffix: &str,
    image_label: &str,
    port_label: &str,
    c: &RawContainer,
)
    ensures
        final(out).deep_view() == old(out).deep_view() + container_lines(
            head_prefix@,
            head_suffix@,
            image_label@,
            port_label@,
            *c,
        ),
{
    let ghost start = out.deep_view();
    push_line(out, concat3(head_prefix, c.name.as_str(), head_suffix));
    let img = or_text(&c.image, "-");
    push_line(out, concat(image_label, img.as_str()));
    assert(out.deep_view() =~= start + seq![
        head_prefix@ + c.name@ + head_suffix@,
        image_label@ + opt_text(c.image, "-"@),
    ]);
    let ghost mid = out.deep_view();
    match &c.ports {
        Some(ps) => {
            let mut i: usize = 0;
            while i < ps.len()
                invariant
                    c.ports == Some(*ps),
                    i <= ps@.len(),
                    out.deep_view() == mid + port_lines(port_label@, *c).subrange(0, i as int),
                decreases ps@.len() - i,
            {
                let mut l = owned(port_label);
                let d = i64_decimal(ps[i].container_port as i64);
                l.append(d.as_str());
                push_char(&mut l, '/');
                let proto = or_text(&ps[i].protocol, "TCP");
                l.append(proto.as_str());
                assert(l@ =~= port_lines(port_label@, *c)[i as int]);
                push_line(out, l);
                i = i + 1;
                assert(out.deep_view() =~= mid + port_lines(port_label@, *c).subrange(0, i as int));
            }
            assert(port_lines(port_label@, *c).subrange(0, i as int) =~= port_lines(
                port_label@,
                *c,
            ));
        },
        None => {
            assert(out.deep_view() =~= mid + port_lines(port_label@, *c));
        },
    }
    let ghost mid2 = out.deep_view();
    match &c.requests {
        Some(r) => {
            push_line(out, owned("    Requests:"));
            extend_lines(out, kv_block("      ", ": ", r));
        },
        None => {},
    }
    match &c.limits {
        Some(l) => {
            push_line(out, owned("    Limits:"));
            extend_lines(out, kv_block("      ", ": ", l));
        },
        None => {},
    }
    assert(out.deep_view() =~= mid2 + resource_lines(*c));
    assert(out.deep_view() =~= start + container_lines(
        head_prefix@,
        head_suffix@,
        image_label@,
        port_label@,
        *c,
    ));
}

fn push_containers(
    out: &mut Vec<String>,
    head_prefix: &str,
    head_suffix: &str,
    image_label: &str,
    port_label: &str,
    cs: &Vec<RawContainer>,
)
    ensures
        final(out).deep_view() == old(out).deep_view() + containers_lines(
            head_prefix@,
            head_suffix@,
            image_label@,
            port_label@,
            cs@,
        ),
{
    let ghost start = out.deep_view();
    let mut i: usize = 0;
    assert(start =~= start + containers_lines(
        head_prefix@,
        head_suffix@,
        image_label@,
        port_label@,
        cs@.subrange(0, 0),
    ));
    while i < cs.len()
        invariant
            i <= cs@.len(),
            out.deep_view() == start + containers_lines(
                head_prefix@,
                head_suffix@,
                image_label@,
                port_label@,
                cs@.subrange(0, i as int),
            ),
        decreases cs@.len() - i,
    {
        let ghost pre1 = cs@.subrange(0, i + 1);
        assert(pre1.drop_last() =~= cs@.subrange(0, i as int));
        assert(pre1.last() == cs@[i as int]);
        push_container(out, head_prefix, head_suffix, image_label, port_label, &cs[i]);
        i = i + 1;
        assert(out.deep_view() =~= start + containers_lines(
            head_prefix@,
            head_suffix@,
            image_label@,
            port_label@,
            cs@.subrange(0, i as int),
        ));
    }
    assert(cs@.subrange(0, i as int) =~= cs@);
}

// ---------------------------------------------------------------- pods

pub open spec fn pod_condition_line(c: RawCondition) -> Seq<char> {
    "  "@ + c.type_@ + ": "@ + c.status@ + " ("@ + opt_text(c.reason, "-"@) + seq![')']
}

/// The `describe` lines of a pod.
pub open spec fn describe_pod_lines(namespace: Seq<char>, p: RawPod) -> Seq<Seq<char>> {
    seq![
        "Name:         "@ + opt_text(p.name, "-"@),
        "Namespace:    "@ + namespace,
        "Node:         "@ + opt_text(p.node_name, "-"@),
        "Status:       "@ + opt_text(p.phase, "Unknown"@),
        "IP:           "@ + opt_text(p.pod_ip, "-"@),
    ] + (match p.labels {
        Some(l) => seq!["Labels:"@] + kv_lines("  "@, "="@, l@),
        None => Seq::empty(),
    }) + (match p.containers {
        Some(cs) => seq![Seq::<char>::empty(), "Containers:"@] + containers_lines(
            "  "@,
            ":"@,
            "    Image:   "@,
            "    Port:    "@,
            cs@,
        ),
        None => Seq::empty(),
    }) + (match p.conditions {
        Some(cs) => seq![Seq::<char>::empty(), "Conditions:"@] + Seq::new(
            cs@.len(),
            |i: int| pod_condition_line(cs@[i]),
        ),
        None => Seq::empty(),
    }) + seq![Seq::<char>::empty(), "Events:  <use 'kubectl describe' for full events>"@]
}

fn push_conditions(out: &mut Vec<String>, cs: &Vec<RawCondition>, pod_style: bool)
    ensures
        final(out).deep_view() == old(out).deep_view() + if pod_style {
            Seq::new(cs@.len(), |i: int| pod_condition_line(cs@[i]))
        } else {
            Seq::new(cs@.len(), |i: int| deployment_condition_line(cs@[i]))
        },
{
    let ghost start = out.deep_view();
    let ghost want = if pod_style {
        Seq::new(cs@.len(), |i: int| pod_condition_line(cs@[i]))
    } else {
        Seq::new(cs@.len(), |i: int| deployment_condition_line(cs@[i]))
    };
    let mut i: usize = 0;
    while i < cs.len()
        invariant
            i <= cs@.len(),
            want.len() == cs@.len(),
            want == if pod_style {
                Seq::new(cs@.len(), |i: int| pod_condition_line(cs@[i]))
            } else {
                Seq::new(cs@.len(), |i: int| deployment_condition_line(cs@[i]))
            },
            out.deep_view() == start + want.subrange(0, i as int),
        decreases cs@.len() - i,
    {
        let c = &cs[i];
        let mut l = concat3("  ", c.type_.as_str(), ": ");
        l.append(c.status.as_str());
        if pod_style {
            l.append(" (");
            let r = or_text(&c.reason, "-");
            l.append(r.as_str());
            push_char(&mut l, ')');
        } else {
            l.append(" — ");
            let m = or_text(&c.message, "-");
            l.append(m.as_str());
        }
        assert(l@ =~= want[i as int]);
        push_line(out, l);
        i = i + 1;
        assert(out.deep_view() =~= start + want.subrange(0, i as int));
    }
    assert(want.subrange(0, i as int) =~= want);
}

/// The `describe` lines of a pod.
pub fn describe_pod(namespace: &str, p: &RawPod) -> (r: Vec<String>)
    ensures
        r.deep_view() == describe_pod_lines(namespace@, *p),
{
    let mut out: Vec<String> = Vec::new();
    let name = or_text(&p.name, "-");
    push_line(&mut out, concat("Name:         ", name.as_str()));
    push_line(&mut out, concat("Namespace:    ", namespace));
    let node = or_text(&p.node_name, "-");
    push_line(&mut out, concat("Node:         ", node.as_str()));
    let phase = or_text(&p.phase, "Unknown");
    push_line(&mut out, concat("Status:       ", phase.as_str()));
    let ip = or_text(&p.pod_ip, "-");
    push_line(&mut out, concat("IP:           ", ip.as_str()));
    let ghost s1 = out.deep_view();
    match &p.labels {
        Some(l) => {
            push_line(&mut out, owned("Labels:"));
            extend_lines(&mut out, kv_block("  ", "=", l));
        },
        None => {},
    }
    let ghost s2 = out.deep_view();
    match &p.containers {
        Some(cs) => {
            push_line(&mut out, String::new());
            push_line(&mut out, owned("Containers:"));
            push_containers(&mut out, "  ", ":", "    Image:   ", "    Port:    ", cs);
        },
        None => {},
    }
    let ghost s3 = out.deep_view();
    match &p.conditions {
        Some(cs) => {
            push_line(&mut out, String::new());
            push_line(&mut out, owned("Conditions:"));
            push_conditions(&mut out, cs, true);
        },
        None => {},
    }
    push_line(&mut out, String::new());
    push_line(&mut out, owned("Events:  <use 'kubectl describe' for full events>"));
    assert(out.deep_view() =~= describe_pod_lines(namespace@, *p));
    out
}

// ---------------------------------------------------------------- deployments

pub open spec fn deployment_condition_line(c: RawCondition) -> Seq<char> {
    "  "@ + c.type_@ + ": "@ + c.status@ + " — "@ + opt_text(c.message, "-"@)
}

pub open spec fn or_zero_text(o: Option<i32>) -> Seq<char> {
    signed_decimal(crate::model::or_zero(o) as int)
}

pub open spec fn deployment_head_lines(namespace: Seq<char>, d: RawDeployment) -> Seq<Seq<char>> {
    seq![
        "Name:        "@ + opt_text(d.name, "-"@),
        "Namespace:   "@ + namespace,
        "Replicas:    "@ + or_zero_text(d.replicas) + " desired | "@ + or_zero_text(
            d.ready_replicas,
        ) + " ready | "@ + or_zero_text(d.available_replicas) + " available"@,
        "Strategy:    "@ + opt_text(d.strategy, "-"@),
    ]
}

/// A titled block of `key=value` lines, when the map is present.
pub open spec fn labels_block(title: Seq<char>, l: Option<Vec<(String, String)>>) -> Seq<Seq<char>> {
    match l {
        Some(l) => seq![title] + kv_lines("  "@, "="@, l@),
        None => Seq::empty(),
    }
}

pub open spec fn deployment_spec_lines(d: RawDeployment) -> Seq<Seq<char>> {
    if d.has_spec {
        labels_block("Selector:"@, d.selector) + seq![Seq::<char>::empty(), "Pod Template:"@]
            + match d.template_containers {
            Some(cs) => containers_lines(
                "  Container: "@,
                Seq::<char>::empty(),
                "    Image: "@,
                "    Port: "@,
                cs@,
            ),
            None => Seq::empty(),
        }
    } else {
        Seq::empty()
    }
}

pub open spec fn deployment_condition_lines(d: RawDeployment) -> Seq<Seq<char>> {
    match d.conditions {
        Some(cs) => seq![Seq::<char>::empty(), "Conditions:"@] + Seq::new(
            cs@.len(),
            |i: int| deployment_condition_line(cs@[i]),
        ),
        None => Seq::empty(),
    }
}

/// The `describe` lines of a deployment.
pub open spec fn describe_deployment_lines(namespace: Seq<char>, d: RawDeployment) -> Seq<
    Seq<char>,
> {
    deployment_head_lines(namespace, d) + labels_block("Labels:"@, d.labels)
        + deployment_spec_lines(d) + deployment_condition_lines(d)
}

fn or_zero_string(o: Option<i32>) -> (r: String)
    ensures
        r@ == or_zero_text(o),
{
    i64_decimal(
        match o {
            Some(n) => n,
            None => 0,
        } as i64,
    )
}

fn deployment_head(namespace: &str, d: &RawDeployment) -> (r: Vec<String>)
    ensures
        r.deep_view() == deployment_head_lines(namespace@, *d),
{
    let mut out: Vec<String> = Vec::new();
    let name = or_text(&d.name, "-");
    push_line(&mut out, concat("Name:        ", name.as_str()));
    push_line(&mut out, concat("Namespace:   ", namespace));
    let mut rl = owned("Replicas:    ");
    let a = or_zero_string(d.replicas);
    rl.append(a.as_str());
    rl.append(" desired | ");
    let b = or_zero_string(d.ready_replicas);
    rl.append(b.as_str());
    rl.append(" ready | ");
    let c = or_zero_string(d.available_replicas);
    rl.append(c.as_str());
    rl.append(" available");
    push_line(&mut out, rl);
    let st = or_text(&d.strategy, "-");
    push_line(&mut out, concat("Strategy:    ", st.as_str()));
    assert(out.deep_view() =~= deployment_head_lines(namespace@, *d));
    out
}

pub fn labels_lines(title: &str, l: &Option<Vec<(String, String)>>) -> (r: Vec<String>)
    ensures
        r.deep_view() == labels_block(title@, *l),
{
    let mut out: Vec<String> = Vec::new();
    match l {
        Some(l) => {
            push_line(&mut out, owned(title));
            extend_lines(&mut out, kv_block("  ", "=", l));
        },
        None => {},
    }
    assert(out.deep_view() =~= labels_block(title@, *l));
    out
}

fn deployment_spec(d: &RawDeployment) -> (r: Vec<String>)
    ensures
        r.deep_view() == deployment_spec_lines(*d),
{
    let mut out: Vec<String> = Vec::new();
    if d.has_spec {
        extend_lines(&mut out, labels_lines("Selector:", &d.selector));
        push_line(&mut out, String::new());
        push_line(&mut out, owned("Pod Template:"));
        match &d.template_containers {
            Some(cs) => {
                push_containers(&mut out, "  Container: ", "", "    Image: ", "    Port: ", cs);
                proof {
                    assert(""@ == Seq::<char>::empty()) by {
                        reveal_strlit("");
                    }
                }
            },
            None => {},
        }
    }
    assert(out.deep_view() =~= deployment_spec_lines(*d));
    out
}

/// The `describe` lines of a deployment.
pub fn describe_deployment(namespace: &str, d: &RawDeployment) -> (r: Vec<String>)
    ensures
        r.deep_view() == describe_deployment_lines(namespace@, *d),
{
    let mut out = deployment_head(namespace, d);
    extend_lines(&mut out, labels_lines("Labels:", &d.labels));
    extend_lines(&mut out, deployment_spec(d));
    let ghost s3 = out.deep_view();
    match &d.conditions {
        Some(cs) => {
            push_line(&mut out, String::new());
            push_line(&mut out, owned("Conditions:"));
            push_conditions(&mut out, cs, false);
        },
        None => {},
    }
    assert(out.deep_view() =~= describe_deployment_lines(namespace@, *d));
    out
}

// ---------------------------------------------------------------- ingresses

pub open spec fn ingress_head_lines(namespace: Seq<char>, g: RawIngress) -> Seq<Seq<char>> {
    seq![
        "Name:       "@ + opt_text(g.name, "-"@),
        "Namespace:  "@ + namespace,
        "Age:        "@ + match g.age_secs {
            Some(a) => crate::model::age_text(a as int),
            None => "-"@,
        },
    ]
}

/// The annotations worth showing: those not set by `kubectl` itself.
pub open spec fn relevant_annotations(a: Seq<(String, String)>) -> Seq<(String, String)>
    decreases a.len(),
{
    if a.len() == 0 {
        Seq::empty()
    } else {
        relevant_annotations(a.drop_last()) + if starts_with(
            a.last().0@,
            "kubectl.kubernetes.io"@,
        ) {
            Seq::empty()
        } else {
            seq![a.last()]
        }
    }
}

pub open spec fn ingress_meta_lines(g: RawIngress) -> Seq<Seq<char>> {
    (match g.labels {
        Some(l) => if l@.len() > 0 {
            seq!["Labels:"@] + kv_lines("  "@, "="@, l@)
        } else {
            Seq::empty()
        },
        None => Seq::empty(),
    }) + match g.annotations {
        Some(a) => if relevant_annotations(a@).len() > 0 {
            seq!["Annotations:"@] + kv_lines("  "@, ": "@, relevant_annotations(a@))
        } else {
            Seq::empty()
        },
        None => Seq::empty(),
    }
}

pub open spec fn tls_line(t: RawIngressTls) -> Seq<char> {
    "  "@ + match t.hosts {
        Some(h) => join(h.deep_view(), ", "@),
        None => "*"@,
    } + " → secret/"@ + opt_text(t.secret_name, "<no secret>"@)
}

pub open spec fn rule_lines(r: RawIngressRule) -> Seq<Seq<char>> {
    let host = opt_text(r.host, "*"@);
    match r.http {
        Some(ps) => Seq::new(
            ps@.len(),
            |i: int|
                "  "@ + pad_right(host, 40) + seq![' '] + pad_right(
                    crate::model::path_text(ps@[i]),
                    25,
                ) + seq![' '] + path_backend_text(ps@[i]) + "  ("@ + ps@[i].path_type@ + seq![')'],
        ),
        None => seq!["  "@ + host + "  (no HTTP rules)"@],
    }
}

pub open spec fn all_rule_lines(rs: Seq<RawIngressRule>) -> Seq<Seq<char>>
    decreases rs.len(),
{
    if rs.len() == 0 {
        Seq::empty()
    } else {
        all_rule_lines(rs.drop_last()) + rule_lines(rs.last())
    }
}

pub open spec fn rules_header() -> Seq<Seq<char>> {
    seq![
        "  "@ + pad_right("HOST"@, 40) + seq![' '] + pad_right("PATH"@, 25) + seq![' ']
            + "BACKEND"@,
        "  "@ + repeat_char('-', 80),
    ]
}

pub open spec fn ingress_spec_lines(g: RawIngress) -> Seq<Seq<char>> {
    (match g.class_name {
        Some(c) => seq!["IngressClass: "@ + c@],
        None => Seq::empty(),
    }) + (match g.tls {
        Some(ts) => seq![Seq::<char>::empty(), "TLS:"@] + Seq::new(
            ts@.len(),
            |i: int| tls_line(ts@[i]),
        ),
        None => Seq::empty(),
    }) + (match g.rules {
        Some(rs) => seq![Seq::<char>::empty(), "Rules:"@] + rules_header() + all_rule_lines(rs@),
        None => Seq::empty(),
    }) + match g.default_backend {
        Some(b) => seq![Seq::<char>::empty()] + match b {
            Some(svc) => seq!["Default backend: "@ + backend_text(svc)],
            None => Seq::empty(),
        },
        None => Seq::empty(),
    }
}

/// The `describe` lines of an ingress.
pub open spec fn describe_ingress_lines(namespace: Seq<char>, g: RawIngress) -> Seq<Seq<char>> {
    ingress_head_lines(namespace, g) + ingress_meta_lines(g) + ingress_spec_lines(g)
}

fn ingress_head(namespace: &str, g: &RawIngress) -> (r: Vec<String>)
    ensures
        r.deep_view() == ingress_head_lines(namespace@, *g),
{
    let mut out: Vec<String> = Vec::new();
    let name = or_text(&g.name, "-");
    push_line(&mut out, concat("Name:       ", name.as_str()));
    push_line(&mut out, concat("Namespace:  ", namespace));
    let age = match g.age_secs {
        Some(a) => crate::model::format_age(a),
        None => owned("-"),
    };
    push_line(&mut out, concat("Age:        ", age.as_str()));
    assert(out.deep_view() =~= ingress_head_lines(namespace@, *g));
    out
}

fn relevant(a: &Vec<(String, String)>) -> (r: Vec<(String, String)>)
    ensures
        r@ == relevant_annotations(a@),
{
    let mut out: Vec<(String, String)> = Vec::new();
    let mut i: usize = 0;
    while i < a.len()
        invariant
            i <= a@.len(),
            out@ == relevant_annotations(a@.subrange(0, i as int)),
        decreases a@.len() - i,
    {
        let ghost pre1 = a@.subrange(0, i + 1);
        assert(pre1.drop_last() =~= a@.subrange(0, i as int));
        assert(pre1.last() == a@[i as int]);
        if !str_starts_with(a[i].0.as_str(), "kubectl.kubernetes.io") {
            let k = a[i].0.clone();
            let v = a[i].1.clone();
            out.push((k, v));
        }
        i = i + 1;
        assert(out@ =~= relevant_annotations(a@.subrange(0, i as int)));
    }
    assert(a@.subrange(0, i as int) =~= a@);
    out
}

fn ingress_meta(g: &RawIngress) -> (r: Vec<String>)
    ensures
        r.deep_view() == ingress_meta_lines(*g),
{
    let mut out: Vec<String> = Vec::new();
    match &g.labels {
        Some(l) => {
            if l.len() > 0 {
                push_line(&mut out, owned("Labels:"));
                extend_lines(&mut out, kv_block("  ", "=", l));
            }
        },
        None => {},
    }
    let ghost s1 = out.deep_view();
    match &g.annotations {
        Some(a) => {
            let rel = relevant(a);
            if rel.len() > 0 {
                push_line(&mut out, owned("Annotations:"));
                extend_lines(&mut out, kv_block("  ", ": ", &rel));
            }
        },
        None => {},
    }
    assert(out.deep_view() =~= ingress_meta_lines(*g));
    out
}

fn tls_string(t: &RawIngressTls) -> (r: String)
    ensures
        r@ == tls_line(*t),
{
    let hosts = match &t.hosts {
        Some(h) => join_strings(h, ", "),
        None => owned("*"),
    };
    let mut l = concat3("  ", hosts.as_str(), " → secret/");
    let sn = or_text(&t.secret_name, "<no secret>");
    l.append(sn.as_str());
    l
}

fn push_rule_lines(out: &mut Vec<String>, r: &RawIngressRule)
    ensures
        final(out).deep_view() == old(out).deep_view() + rule_lines(*r),
{
    let ghost start = out.deep_view();
    let host = or_text(&r.host, "*");
    match &r.http {
        Some(ps) => {
            let hp = pad_str(host.as_str(), 40);
            let mut i: usize = 0;
            while i < ps.len()
                invariant
                    r.http == Some(*ps),
                    host@ == opt_text(r.host, "*"@),
                    hp@ == pad_right(host@, 40),
                    i <= ps@.len(),
                    out.deep_view() == start + rule_lines(*r).subrange(0, i as int),
                decreases ps@.len() - i,
            {
                let mut l = concat("  ", hp.as_str());
                push_char(&mut l, ' ');
                let path = or_text(&ps[i].path, "/");
                let pp = pad_str(path.as_str(), 25);
                l.append(pp.as_str());
                push_char(&mut l, ' ');
                let be = path_backend_string(&ps[i]);
                l.append(be.as_str());
                l.append("  (");
                l.append(ps[i].path_type.as_str());
                push_char(&mut l, ')');
                assert(l@ =~= rule_lines(*r)[i as int]);
                push_line(out, l);
                i = i + 1;
                assert(out.deep_view() =~= start + rule_lines(*r).subrange(0, i as int));
            }
            assert(rule_lines(*r).subrange(0, i as int) =~= rule_lines(*r));
        },
        None => {
            push_line(out, concat3("  ", host.as_str(), "  (no HTTP rules)"));
            assert(out.deep_view() =~= start + rule_lines(*r));
        },
    }
}

fn ingress_rules(rs: &Vec<RawIngressRule>) -> (r: Vec<String>)
    ensures
        r.deep_view() == seq![Seq::<char>::empty(), "Rules:"@] + rules_header() + all_rule_lines(rs@),
{
    let mut out: Vec<String> = Vec::new();
    push_line(&mut out, String::new());
    push_line(&mut out, owned("Rules:"));
    let mut h = owned("  ");
    let a = pad_str("HOST", 40);
    h.append(a.as_str());
    push_char(&mut h, ' ');
    let b = pad_str("PATH", 25);
    h.append(b.as_str());
    push_char(&mut h, ' ');
    h.append("BACKEND");
    assert(h@ =~= rules_header()[0]);
    push_line(&mut out, h);
    let dashes = repeat_str('-', 80);
    push_line(&mut out, concat("  ", dashes.as_str()));
    let ghost start = out.deep_view();
    assert(start =~= seq![Seq::<char>::empty(), "Rules:"@] + rules_header());
    let mut i: usize = 0;
    assert(all_rule_lines(rs@.subrange(0, 0)) =~= Seq::<Seq<char>>::empty());
    while i < rs.len()
        invariant
            i <= rs@.len(),
            out.deep_view() == start + all_rule_lines(rs@.subrange(0, i as int)),
        decreases rs@.len() - i,
    {
        let ghost pre1 = rs@.subrange(0, i + 1);
        assert(pre1.drop_last() =~= rs@.subrange(0, i as int));
        assert(pre1.last() == rs@[i as int]);
        push_rule_lines(&mut out, &rs[i]);
        i = i + 1;
        assert(out.deep_view() =~= start + all_rule_lines(rs@.subrange(0, i as int)));
    }
    assert(rs@.subrange(0, i as int) =~= rs@);
    out
}

fn ingress_spec(g: &RawIngress) -> (r: Vec<String>)
    ensures
        r.deep_view() == ingress_spec_lines(*g),
{
    let mut out: Vec<String> = Vec::new();
    match &g.class_name {
        Some(c) => push_line(&mut out, concat("IngressClass: ", c.as_str())),
        None => {},
    }
    let ghost s1 = out.deep_view();
    match &g.tls {
        Some(ts) => {
            push_line(&mut out, String::new());
            push_line(&mut out, owned("TLS:"));
            let ghost s = out.deep_view();
            let mut i: usize = 0;
            while i < ts.len()
                invariant
                    i <= ts@.len(),
                    out.deep_view() == s + Seq::new(ts@.len(), |i: int| tls_line(ts@[i])).subrange(
                        0,
                        i as int,
                    ),
                decreases ts@.len() - i,
            {
                push_line(&mut out, tls_string(&ts[i]));
                i = i + 1;
                assert(out.deep_view() =~= s + Seq::new(ts@.len(), |i: int| tls_line(ts@[i])).subrange(
                    0,
                    i as int,
                ));
            }
            assert(Seq::new(ts@.len(), |i: int| tls_line(ts@[i])).subrange(0, i as int) =~= Seq::new(
                ts@.len(),
                |i: int| tls_line(ts@[i]),
            ));
        },
        None => {},
    }
    let ghost s2 = out.deep_view();
    match &g.rules {
        Some(rs) => extend_lines(&mut out, ingress_rules(rs)),
        None => {},
    }
    let ghost s3 = out.deep_view();
    match &g.default_backend {
        Some(b) => {
            push_line(&mut out, String::new());
            match b {
                Some(svc) => {
                    let t = backend_string(svc);
                    push_line(&mut out, concat("Default backend: ", t.as_str()));
                },
                None => {},
            }
        },
        None => {},
    }
    assert(out.deep_view() =~= ingress_spec_lines(*g));
    out
}

/// The `describe` lines of an ingress.
pub fn describe_ingress(namespace: &str, g: &RawIngress) -> (r: Vec<String>)
    ensures
        r.deep_view() == describe_ingress_lines(namespace@, *g),
{
    let mut out = ingress_head(namespace, g);
    extend_lines(&mut out, ingress_meta(g));
    extend_lines(&mut out, ingress_spec(g));
    out
}

} // verus!
