//! The resource summaries shown in the tables, built from plain records of
//! what the Kubernetes API returned.

use vstd::prelude::*;
use crate::text::{concat, concat3, decimal, i64_decimal, owned, signed_decimal, str_eq, u64_decimal};

verus! {

// ---------------------------------------------------------------- helpers

/// The text of an optional string, or `d` when it is absent.
pub open spec fn opt_text(o: Option<String>, d: Seq<char>) -> Seq<char> {
    match o {
        Some(s) => s@,
        None => d,
    }
}

pub fn or_text(o: &Option<String>, d: &str) -> (r: String)
    ensures
        r@ == opt_text(*o, d@),
{
    match o {
        Some(s) => s.clone(),
        None => owned(d),
    }
}

pub fn or_empty(o: &Option<String>) -> (r: String)
    ensures
        r@ == opt_text(*o, Seq::empty()),
{
    match o {
        Some(s) => s.clone(),
        None => String::new(),
    }
}

/// `parts` joined with `sep` between neighbours.
pub open spec fn join(parts: Seq<Seq<char>>, sep: Seq<char>) -> Seq<char>
    decreases parts.len(),
{
    if parts.len() == 0 {
        Seq::empty()
    } else if parts.len() == 1 {
        parts[0]
    } else {
        join(parts.drop_last(), sep) + sep + parts.last()
    }
}

/// The strings of `parts` joined with `sep`, as `[String]::join` writes them.
pub fn join_strings(parts: &Vec<String>, sep: &str) -> (r: String)
    ensures
        r@ == join(parts.deep_view(), sep@),
{
    let mut r = String::new();
    let mut i: usize = 0;
    while i < parts.len()
        invariant
            i <= parts@.len(),
            r@ == join(parts.deep_view().subrange(0, i as int), sep@),
        decreases parts@.len() - i,
    {
        let ghost before = parts.deep_view().subrange(0, i as int);
        let ghost after = parts.deep_view().subrange(0, i + 1);
        assert(after.drop_last() =~= before);
        if i > 0 {
            r.append(sep);
        }
        r.append(parts[i].as_str());
        i = i + 1;
        assert(r@ =~= join(after, sep@));
    }
    assert(parts.deep_view().subrange(0, i as int) =~= parts.deep_view());
    r
}

/// The age of a resource created `secs` seconds ago, as the tables show it:
/// seconds below a minute, then whole minutes, hours, or days.
pub open spec fn age_text(secs: int) -> Seq<char> {
    if secs < 60 {
        signed_decimal(secs) + seq!['s']
    } else if secs < 3600 {
        decimal((secs / 60) as nat) + seq!['m']
    } else if secs < 86400 {
        decimal((secs / 3600) as nat) + seq!['h']
    } else {
        decimal((secs / 86400) as nat) + seq!['d']
    }
}

pub fn format_age(secs: i64) -> (r: String)
    ensures
        r@ == age_text(secs as int),
{
    let mut r;
    if secs < 60 {
        r = i64_decimal(secs);
        crate::text::push_char(&mut r, 's');
    } else if secs < 3600 {
        r = u64_decimal((secs / 60) as u64);
        crate::text::push_char(&mut r, 'm');
    } else if secs < 86400 {
        r = u64_decimal((secs / 3600) as u64);
        crate::text::push_char(&mut r, 'h');
    } else {
        r = u64_decimal((secs / 86400) as u64);
        crate::text::push_char(&mut r, 'd');
    }
    r
}

/// An optional age in seconds as text, `?` when unknown.
pub open spec fn opt_age_text(a: Option<i64>) -> Seq<char> {
    match a {
        Some(s) => age_text(s as int),
        None => "?"@,
    }
}

fn age_or_unknown(a: Option<i64>) -> (r: String)
    ensures
        r@ == opt_age_text(a),
{
    match a {
        Some(s) => format_age(s),
        None => owned("?"),
    }
}

fn dec_usize(n: usize) -> (r: String)
    ensures
        r@ == decimal(n as nat),
{
    u64_decimal(n as u64)
}

fn dec_i32(n: i32) -> (r: String)
    ensures
        r@ == signed_decimal(n as int),
{
    i64_decimal(n as i64)
}

// ---------------------------------------------------------------- pods

/// What the API reports of one container's state.
pub struct RawContainerStatus {
    /// `Some(reason)` when the container is waiting.
    pub waiting: Option<Option<String>>,
    pub terminated: bool,
    pub ready: bool,
    pub restart_count: i32,
}

/// A port a container exposes.
pub struct RawPort {
    pub container_port: i32,
    pub protocol: Option<String>,
}

/// A container of a pod or pod template.
pub struct RawContainer {
    pub name: String,
    pub image: Option<String>,
    pub ports: Option<Vec<RawPort>>,
    /// resource requests, name and quantity
    pub requests: Option<Vec<(String, String)>>,
    /// resource limits, name and quantity
    pub limits: Option<Vec<(String, String)>>,
}

/// A status condition of a pod or deployment.
pub struct RawCondition {
    pub type_: String,
    pub status: String,
    pub reason: Option<String>,
    pub message: Option<String>,
}

/// What the API reports of a pod.
pub struct RawPod {
    pub name: Option<String>,
    pub phase: Option<String>,
    pub container_statuses: Option<Vec<RawContainerStatus>>,
    /// the pod has a deletion timestamp
    pub deleting: bool,
    /// seconds since creation, when the creation time is known
    pub age_secs: Option<i64>,
    pub node_name: Option<String>,
    pub pod_ip: Option<String>,
    /// the containers of the pod spec, when there is a spec
    pub containers: Option<Vec<RawContainer>>,
    pub labels: Option<Vec<(String, String)>>,
    /// the status conditions, when there is a status
    pub conditions: Option<Vec<RawCondition>>,
}

#[derive(Debug)]
pub struct PodInfo {
    pub name: String,
    pub status: String,
    pub ready: String,
    pub restarts: i32,
    pub age: String,
    pub node: String,
    pub ip: String,
    pub image: String,
    /// container names, for the exec picker
    pub containers: Vec<String>,
}

pub struct PodInfoView {
    pub name: Seq<char>,
    pub status: Seq<char>,
    pub ready: Seq<char>,
    pub restarts: i32,
    pub age: Seq<char>,
    pub node: Seq<char>,
    pub ip: Seq<char>,
    pub image: Seq<char>,
    pub containers: Seq<Seq<char>>,
}

impl View for PodInfo {
    type V = PodInfoView;

    open spec fn view(&self) -> PodInfoView {
        PodInfoView {
            name: self.name@,
            status: self.status@,
            ready: self.ready@,
            restarts: self.restarts,
            age: self.age@,
            node: self.node@,
            ip: self.ip@,
            image: self.image@,
            containers: self.containers.deep_view(),
        }
    }
}

impl DeepView for PodInfo {
    type V = PodInfoView;

    open spec fn deep_view(&self) -> PodInfoView {
        self@
    }
}

pub fn clone_strings(v: &Vec<String>) -> (r: Vec<String>)
    ensures
        r.deep_view() == v.deep_view(),
{
    let mut r: Vec<String> = Vec::new();
    let mut i: usize = 0;
    while i < v.len()
        invariant
            i <= v@.len(),
            r@.len() == i,
            forall|j: int| 0 <= j < i ==> (#[trigger] r@[j])@ == v@[j]@,
        decreases v@.len() - i,
    {
        r.push(v[i].clone());
        i = i + 1;
    }
    assert(r.deep_view() =~= v.deep_view());
    r
}

impl Clone for PodInfo {
    fn clone(&self) -> (r: Self)
        ensures
            r@ == self@,
    {
        PodInfo {
            name: self.name.clone(),
            status: self.status.clone(),
            ready: self.ready.clone(),
            restarts: self.restarts,
            age: self.age.clone(),
            node: self.node.clone(),
            ip: self.ip.clone(),
            image: self.image.clone(),
            containers: clone_strings(&self.containers),
        }
    }
}

/// The reason a container gives for not running, if it gives one.
pub open spec fn container_reason(c: RawContainerStatus) -> Option<Seq<char>> {
    match c.waiting {
        Some(reason) => Some(opt_text(reason, "Waiting"@)),
        None => if c.terminated {
            Some("Terminated"@)
        } else {
            None
        },
    }
}

/// The first reason any container gives.
pub open spec fn first_reason(cs: Seq<RawContainerStatus>) -> Option<Seq<char>>
    decreases cs.len(),
{
    if cs.len() == 0 {
        None
    } else {
        match container_reason(cs[0]) {
            Some(r) => Some(r),
            None => first_reason(cs.drop_first()),
        }
    }
}

/// The status column of a pod: `Terminating` while it is being deleted, else the
/// first container's waiting reason or `Terminated`, else its phase.
pub open spec fn pod_status_text(p: RawPod) -> Seq<char> {
    if p.deleting {
        "Terminating"@
    } else {
        let reason = match p.container_statuses {
            Some(cs) => first_reason(cs@),
            None => None,
        };
        match reason {
            Some(r) => r,
            None => opt_text(p.phase, "Unknown"@),
        }
    }
}

pub open spec fn count_ready(cs: Seq<RawContainerStatus>) -> nat
    decreases cs.len(),
{
    if cs.len() == 0 {
        0
    } else {
        count_ready(cs.drop_last()) + if cs.last().ready {
            1nat
        } else {
            0nat
        }
    }
}

pub open spec fn sum_restarts(cs: Seq<RawContainerStatus>) -> int
    decreases cs.len(),
{
    if cs.len() == 0 {
        0
    } else {
        sum_restarts(cs.drop_last()) + cs.last().restart_count
    }
}

pub open spec fn pod_statuses(p: RawPod) -> Seq<RawContainerStatus> {
    match p.container_statuses {
        Some(cs) => cs@,
        None => Seq::empty(),
    }
}

/// The restart total fits the `i32` in which the table keeps it.
pub open spec fn restarts_fit(p: RawPod) -> bool {
    forall|k: int|
        0 <= k <= pod_statuses(p).len() ==> i32::MIN <= #[trigger] sum_restarts(
            pod_statuses(p).subrange(0, k),
        ) <= i32::MAX
}

pub open spec fn first_image(cs: Option<Vec<RawContainer>>) -> Seq<char> {
    match cs {
        Some(v) => if v@.len() > 0 {
            opt_text(v@[0].image, Seq::empty())
        } else {
            Seq::empty()
        },
        None => Seq::empty(),
    }
}

pub open spec fn container_names(cs: Option<Vec<RawContainer>>) -> Seq<Seq<char>> {
    match cs {
        Some(v) => Seq::new(v@.len(), |i: int| v@[i].name@),
        None => Seq::empty(),
    }
}

/// The row of the pods table for a pod.
pub open spec fn pod_info_of(p: RawPod) -> PodInfoView {
    PodInfoView {
        name: opt_text(p.name, Seq::empty()),
        status: pod_status_text(p),
        ready: decimal(count_ready(pod_statuses(p))) + seq!['/'] + decimal(
            pod_statuses(p).len(),
        ),
        restarts: sum_restarts(pod_statuses(p)) as i32,
        age: opt_age_text(p.age_secs),
        node: opt_text(p.node_name, "-"@),
        ip: opt_text(p.pod_ip, "-"@),
        image: first_image(p.containers),
        containers: container_names(p.containers),
    }
}

fn status_text(p: &RawPod) -> (r: String)
    ensures
        r@ == pod_status_text(*p),
{
    if p.deleting {
        return owned("Terminating");
    }
    match &p.container_statuses {
        Some(cs) => {
            let mut i: usize = 0;
            assert(cs@.subrange(0, cs@.len() as int) =~= cs@);
            while i < cs.len()
                invariant
                    p.container_statuses == Some(*cs),
                    !p.deleting,
                    i <= cs@.len(),
                    first_reason(cs@) == first_reason(cs@.subrange(i as int, cs@.len() as int)),
                decreases cs@.len() - i,
            {
                let ghost rest = cs@.subrange(i as int, cs@.len() as int);
                assert(rest.drop_first() =~= cs@.subrange(i + 1, cs@.len() as int));
                assert(rest[0] == cs@[i as int]);
                assert(first_reason(rest) == match container_reason(rest[0]) {
                    Some(r) => Some(r),
                    None => first_reason(rest.drop_first()),
                });
                match &cs[i].waiting {
                    Some(reason) => {
                        return or_text(reason, "Waiting");
                    },
                    None => {
                        if cs[i].terminated {
                            return owned("Terminated");
                        }
                    },
                }
                i = i + 1;
            }
            assert(cs@.subrange(i as int, cs@.len() as int) =~= Seq::<RawContainerStatus>::empty());
            or_text(&p.phase, "Unknown")
        },
        None => or_text(&p.phase, "Unknown"),
    }
}

impl PodInfo {
    /// The row of the pods table for a pod the API returned.
    pub fn from_raw(p: &RawPod) -> (r: PodInfo)
        requires
            restarts_fit(*p),
        ensures
            r@ == pod_info_of(*p),
    {
        let name = or_empty(&p.name);
        let status = status_text(p);
        let mut ready_count: usize = 0;
        let mut total: usize = 0;
        let mut restarts: i32 = 0;
        match &p.container_statuses {
            Some(cs) => {
                let mut i: usize = 0;
                while i < cs.len()
                    invariant
                        p.container_statuses == Some(*cs),
                        restarts_fit(*p),
                        i <= cs@.len(),
                        ready_count == count_ready(cs@.subrange(0, i as int)),
                        ready_count <= i,
                        restarts == sum_restarts(cs@.subrange(0, i as int)),
                    decreases cs@.len() - i,
                {
                    let ghost pre1 = cs@.subrange(0, i + 1);
                    assert(pre1.drop_last() =~= cs@.subrange(0, i as int));
                    assert(pre1.last() == cs@[i as int]);
                    assert(i32::MIN <= sum_restarts(pod_statuses(*p).subrange(0, i + 1)) <= i32::MAX);
                    if cs[i].ready {
                        ready_count = ready_count + 1;
                    }
                    restarts = restarts + cs[i].restart_count;
                    i = i + 1;
                }
                total = cs.len();
                assert(cs@.subrange(0, i as int) =~= cs@);
            },
            None => {},
        }
        let mut ready = dec_usize(ready_count);
        crate::text::push_char(&mut ready, '/');
        let t = dec_usize(total);
        ready.append(t.as_str());
        let age = age_or_unknown(p.age_secs);
        let node = or_text(&p.node_name, "-");
        let ip = or_text(&p.pod_ip, "-");
        let mut image = String::new();
        let mut containers: Vec<String> = Vec::new();
        match &p.containers {
            Some(cs) => {
                if cs.len() > 0 {
                    image = or_empty(&cs[0].image);
                }
                let mut i: usize = 0;
                while i < cs.len()
                    invariant
                        p.containers == Some(*cs),
                        i <= cs@.len(),
                        containers@.len() == i,
                        forall|j: int| 0 <= j < i ==> (#[trigger] containers@[j])@ == cs@[j].name@,
                    decreases cs@.len() - i,
                {
                    containers.push(cs[i].name.clone());
                    i = i + 1;
                }
                assert(containers.deep_view() =~= container_names(p.containers));
            },
            None => {
                assert(containers.deep_view() =~= container_names(p.containers));
            },
        }
        let r = PodInfo { name, status, ready, restarts, age, node, ip, image, containers };
        assert(r@.name == pod_info_of(*p).name);
        assert(r@.status == pod_info_of(*p).status);
        assert(r@.ready == pod_info_of(*p).ready);
        assert(r@.restarts == pod_info_of(*p).restarts);
        assert(r@.age == pod_info_of(*p).age);
        assert(r@.image == pod_info_of(*p).image);
        assert(r@.containers == pod_info_of(*p).containers);
        r
    }
}

/// The colour the status column takes.
#[derive(Debug, Clone, Copy, PartialEq, Eq, Structural)]
pub enum StatusColor {
    Green,
    Blue,
    Yellow,
    Red,
    Magenta,
    Gray,
}

pub open spec fn status_color_of(s: Seq<char>) -> StatusColor {
    if s == "Running"@ {
        StatusColor::Green
    } else if s == "Succeeded"@ {
        StatusColor::Blue
    } else if s == "Pending"@ {
        StatusColor::Yellow
    } else if s == "Failed"@ || s == "CrashLoopBackOff"@ || s == "Error"@ || s == "OOMKilled"@ {
        StatusColor::Red
    } else if s == "Terminating"@ {
        StatusColor::Magenta
    } else {
        StatusColor::Gray
    }
}

impl PodInfo {
    /// The colour in which the pod's status is shown.
    pub fn status_color(&self) -> (r: StatusColor)
        ensures
            r == status_color_of(self.status@),
    {
        let s = self.status.as_str();
        if str_eq(s, "Running") {
            StatusColor::Green
        } else if str_eq(s, "Succeeded") {
            StatusColor::Blue
        } else if str_eq(s, "Pending") {
            StatusColor::Yellow
        } else if str_eq(s, "Failed") || str_eq(s, "CrashLoopBackOff") || str_eq(s, "Error")
            || str_eq(s, "OOMKilled") {
            StatusColor::Red
        } else if str_eq(s, "Terminating") {
            StatusColor::Magenta
        } else {
            StatusColor::Gray
        }
    }
}

// ---------------------------------------------------------------- services

pub struct RawLoadBalancerIngress {
    pub ip: Option<String>,
    pub hostname: Option<String>,
}

pub struct RawServicePort {
    pub port: i32,
    pub node_port: Option<i32>,
    pub protocol: Option<String>,
}

/// What the API reports of a service.
pub struct RawService {
    pub name: Option<String>,
    pub type_: Option<String>,
    pub cluster_ip: Option<String>,
    /// the load balancer's ingress points, when the status lists them
    pub lb_ingress: Option<Vec<RawLoadBalancerIngress>>,
    pub ports: Option<Vec<RawServicePort>>,
    pub age_secs: Option<i64>,
}

#[derive(Debug, Clone)]
pub struct ServiceInfo {
    pub name: String,
    pub type_: String,
    pub cluster_ip: String,
    pub external_ip: String,
    pub ports: String,
    pub age: String,
}

pub open spec fn external_ip_text(s: RawService) -> Seq<char> {
    match s.lb_ingress {
        Some(v) => if v@.len() > 0 {
            match v@[0].ip {
                Some(ip) => ip@,
                None => opt_text(v@[0].hostname, "<none>"@),
            }
        } else {
            "<none>"@
        },
        None => "<none>"@,
    }
}

/// The row of the services table for a service, field by field.
pub open spec fn service_info_matches(r: ServiceInfo, s: RawService) -> bool {
    &&& r.name@ == opt_text(s.name, Seq::empty())
    &&& r.type_@ == opt_text(s.type_, "ClusterIP"@)
    &&& r.cluster_ip@ == opt_text(s.cluster_ip, "-"@)
    &&& r.external_ip@ == external_ip_text(s)
    &&& r.ports@ == service_ports_text(s)
    &&& r.age@ == opt_age_text(s.age_secs)
}

/// One port of a service as `port/PROTO`, or `port:nodePort/PROTO`.
pub open spec fn service_port_text(p: RawServicePort) -> Seq<char> {
    signed_decimal(p.port as int) + match p.node_port {
        Some(n) => seq![':'] + signed_decimal(n as int),
        None => Seq::empty(),
    } + seq!['/'] + opt_text(p.protocol, "TCP"@)
}

pub open spec fn service_ports_text(s: RawService) -> Seq<char> {
    match s.ports {
        Some(v) => join(Seq::new(v@.len(), |i: int| service_port_text(v@[i])), seq![',']),
        None => "<none>"@,
    }
}

fn port_text(p: &RawServicePort) -> (r: String)
    ensures
        r@ == service_port_text(*p),
{
    let mut r = dec_i32(p.port);
    match p.node_port {
        Some(n) => {
            crate::text::push_char(&mut r, ':');
            let d = dec_i32(n);
            r.append(d.as_str());
        },
        None => {},
    }
    crate::text::push_char(&mut r, '/');
    let proto = or_text(&p.protocol, "TCP");
    r.append(proto.as_str());
    r
}

impl ServiceInfo {
    /// The row of the services table for a service the API returned.
    pub fn from_raw(s: &RawService) -> (r: ServiceInfo)
        ensures
            service_info_matches(r, *s),
    {
        let external_ip = match &s.lb_ingress {
            Some(v) => if v.len() > 0 {
                match &v[0].ip {
                    Some(ip) => ip.clone(),
                    None => or_text(&v[0].hostname, "<none>"),
                }
            } else {
                owned("<none>")
            },
            None => owned("<none>"),
        };
        let ports = match &s.ports {
            Some(v) => {
                let mut parts: Vec<String> = Vec::new();
                let mut i: usize = 0;
                while i < v.len()
                    invariant
                        i <= v@.len(),
                        parts@.len() == i,
                        forall|j: int| 0 <= j < i ==> (#[trigger] parts@[j])@ == service_port_text(v@[j]),
                    decreases v@.len() - i,
                {
                    parts.push(port_text(&v[i]));
                    i = i + 1;
                }
                assert(parts.deep_view() =~= Seq::new(v@.len(), |i: int| service_port_text(v@[i])));
                join_strings(&parts, ",")
            },
            None => owned("<none>"),
        };
        proof {
            if s.ports is Some {
                assert(","@ == seq![',']) by {
                    reveal_strlit(",");
                }
            }
        }
        ServiceInfo {
            name: or_empty(&s.name),
            type_: or_text(&s.type_, "ClusterIP"),
            cluster_ip: or_text(&s.cluster_ip, "-"),
            external_ip,
            ports,
            age: age_or_unknown(s.age_secs),
        }
    }
}

// ---------------------------------------------------------------- deployments

/// What the API reports of a deployment.
pub struct RawDeployment {
    pub name: Option<String>,
    /// the deployment has a spec
    pub has_spec: bool,
    pub replicas: Option<i32>,
    pub strategy: Option<String>,
    /// the spec's selector labels
    pub selector: Option<Vec<(String, String)>>,
    /// the containers of the pod template, when it has a spec
    pub template_containers: Option<Vec<RawContainer>>,
    pub ready_replicas: Option<i32>,
    pub updated_replicas: Option<i32>,
    pub available_replicas: Option<i32>,
    pub labels: Option<Vec<(String, String)>>,
    /// the status conditions, when there is a status
    pub conditions: Option<Vec<RawCondition>>,
    pub age_secs: Option<i64>,
}

#[derive(Debug, Clone)]
pub struct DeploymentInfo {
    pub name: String,
    /// ready over desired, as `2/3`
    pub ready: String,
    pub up_to_date: i32,
    pub available: i32,
    pub age: String,
    pub image: String,
    pub replicas: i32,
}

pub open spec fn or_zero(o: Option<i32>) -> i32 {
    match o {
        Some(n) => n,
        None => 0,
    }
}

pub open spec fn template_image(d: RawDeployment) -> Seq<char> {
    match d.template_containers {
        Some(v) => if v@.len() > 0 {
            opt_text(v@[0].image, Seq::empty())
        } else {
            Seq::empty()
        },
        None => Seq::empty(),
    }
}

/// The row of the deployments table for a deployment, field by field.
pub open spec fn deployment_info_matches(r: DeploymentInfo, d: RawDeployment) -> bool {
    &&& r.name@ == opt_text(d.name, Seq::empty())
    &&& r.ready@ == signed_decimal(or_zero(d.ready_replicas) as int) + seq!['/'] + signed_decimal(
        or_zero(d.replicas) as int,
    )
    &&& r.up_to_date == or_zero(d.updated_replicas)
    &&& r.available == or_zero(d.available_replicas)
    &&& r.age@ == opt_age_text(d.age_secs)
    &&& r.image@ == template_image(d)
    &&& r.replicas == or_zero(d.replicas)
}

impl DeploymentInfo {
    /// The row of the deployments table for a deployment the API returned.
    pub fn from_raw(d: &RawDeployment) -> (r: DeploymentInfo)
        ensures
            deployment_info_matches(r, *d),
    {
        let replicas = match d.replicas {
            Some(n) => n,
            None => 0,
        };
        let ready_n = match d.ready_replicas {
            Some(n) => n,
            None => 0,
        };
        let mut ready = dec_i32(ready_n);
        crate::text::push_char(&mut ready, '/');
        let t = dec_i32(replicas);
        ready.append(t.as_str());
        let image = match &d.template_containers {
            Some(v) => if v.len() > 0 {
                or_empty(&v[0].image)
            } else {
                String::new()
            },
            None => String::new(),
        };
        let r = DeploymentInfo {
            name: or_empty(&d.name),
            ready,
            up_to_date: match d.updated_replicas {
                Some(n) => n,
                None => 0,
            },
            available: match d.available_replicas {
                Some(n) => n,
                None => 0,
            },
            age: age_or_unknown(d.age_secs),
            image,
            replicas,
        };
        assert(r.ready@ =~= signed_decimal(or_zero(d.ready_replicas) as int) + seq!['/']
            + signed_decimal(or_zero(d.replicas) as int));
        r
    }

    /// Whether every desired replica is ready (and there is at least one):
    /// the ready column reads `n/n` with `n` other than `0`.
    pub fn is_fully_ready(&self) -> (r: bool)
        ensures
            r == ({
                let k = crate::text::index_of(self.ready@, '/');
                k >= 0 && self.ready@.subrange(0, k) == self.ready@.subrange(
                    k + 1,
                    self.ready@.len() as int,
                ) && self.ready@.subrange(0, k) != "0"@
            }),
    {
        let v = crate::text::to_chars(self.ready.as_str());
        let k = crate::text::find_char(&v, 0, '/');
        proof {
            crate::text::lemma_find_char_index_of(v@, 0, '/', k as int);
            assert(v@.subrange(0, v@.len() as int) =~= v@);
        }
        if k == v.len() {
            return false;
        }
        let a = crate::text::string_of_range(&v, 0, k);
        let b = crate::text::string_of_range(&v, k + 1, v.len());
        a == b && !str_eq(a.as_str(), "0")
    }
}

// ---------------------------------------------------------------- ingresses

pub struct RawBackendService {
    pub name: String,
    /// the port number, when the backend names the port by number
    pub port: Option<i32>,
}

pub struct RawIngressPath {
    pub path: Option<String>,
    pub backend: Option<RawBackendService>,
    pub path_type: String,
}

pub struct RawIngressRule {
    pub host: Option<String>,
    /// the HTTP paths, when the rule has an HTTP section
    pub http: Option<Vec<RawIngressPath>>,
}

pub struct RawIngressTls {
    pub hosts: Option<Vec<String>>,
    pub secret_name: Option<String>,
}

/// What the API reports of an ingress.
pub struct RawIngress {
    pub name: Option<String>,
    pub age_secs: Option<i64>,
    pub labels: Option<Vec<(String, String)>>,
    pub annotations: Option<Vec<(String, String)>>,
    pub class_name: Option<String>,
    pub tls: Option<Vec<RawIngressTls>>,
    pub rules: Option<Vec<RawIngressRule>>,
    /// the default backend, and its service when it names one
    pub default_backend: Option<Option<RawBackendService>>,
}

#[derive(Debug, Clone)]
pub struct IngressInfo {
    pub name: String,
    /// comma-joined host names
    pub hosts: String,
    /// simplified `host/path -> svc:port` entries
    pub paths: String,
    pub age: String,
}

/// A backend service as `name:port`, `?` for an unnamed port.
pub open spec fn backend_text(b: RawBackendService) -> Seq<char> {
    b.name@ + seq![':'] + match b.port {
        Some(n) => signed_decimal(n as int),
        None => "?"@,
    }
}

pub open spec fn path_backend_text(p: RawIngressPath) -> Seq<char> {
    match p.backend {
        Some(b) => backend_text(b),
        None => "?"@,
    }
}

pub open spec fn rule_host(r: RawIngressRule) -> Seq<char> {
    opt_text(r.host, "*"@)
}

pub open spec fn path_text(p: RawIngressPath) -> Seq<char> {
    opt_text(p.path, "/"@)
}

/// The entries `host/path → backend` of one rule.
pub open spec fn rule_entries(r: RawIngressRule) -> Seq<Seq<char>> {
    match r.http {
        Some(ps) => Seq::new(
            ps@.len(),
            |i: int| rule_host(r) + path_text(ps@[i]) + " → "@ + path_backend_text(ps@[i]),
        ),
        None => Seq::empty(),
    }
}

pub open spec fn all_rule_entries(rs: Seq<RawIngressRule>) -> Seq<Seq<char>>
    decreases rs.len(),
{
    if rs.len() == 0 {
        Seq::empty()
    } else {
        all_rule_entries(rs.drop_last()) + rule_entries(rs.last())
    }
}

pub open spec fn rule_hosts(rs: Seq<RawIngressRule>) -> Seq<Seq<char>>
    decreases rs.len(),
{
    if rs.len() == 0 {
        Seq::empty()
    } else {
        rule_hosts(rs.drop_last()) + match rs.last().host {
            Some(h) => seq![h@],
            None => Seq::empty(),
        }
    }
}

pub open spec fn ingress_hosts_text(g: RawIngress) -> Seq<char> {
    match g.rules {
        Some(rs) => join(rule_hosts(rs@), ", "@),
        None => "*"@,
    }
}

/// The row of the ingresses table for an ingress, field by field.
pub open spec fn ingress_info_matches(r: IngressInfo, g: RawIngress) -> bool {
    &&& r.name@ == opt_text(g.name, Seq::empty())
    &&& r.hosts@ == ingress_hosts_text(g)
    &&& r.paths@ == ingress_paths_text(g)
    &&& r.age@ == opt_age_text(g.age_secs)
}

pub open spec fn ingress_paths_text(g: RawIngress) -> Seq<char> {
    match g.rules {
        Some(rs) => join(all_rule_entries(rs@), "  "@),
        None => Seq::empty(),
    }
}

pub fn backend_string(b: &RawBackendService) -> (r: String)
    ensures
        r@ == backend_text(*b),
{
    let mut r = b.name.clone();
    crate::text::push_char(&mut r, ':');
    match b.port {
        Some(n) => {
            let d = dec_i32(n);
            r.append(d.as_str());
        },
        None => r.append("?"),
    }
    r
}

pub fn path_backend_string(p: &RawIngressPath) -> (r: String)
    ensures
        r@ == path_backend_text(*p),
{
    match &p.backend {
        Some(b) => backend_string(b),
        None => owned("?"),
    }
}

fn push_rule_entries(out: &mut Vec<String>, r: &RawIngressRule)
    ensures
        final(out).deep_view() == old(out).deep_view() + rule_entries(*r),
{
    let ghost start = out.deep_view();
    let ghost n = start.len();
    match &r.http {
        Some(ps) => {
            let host = or_text(&r.host, "*");
            let mut i: usize = 0;
            while i < ps.len()
                invariant
                    r.http == Some(*ps),
                    host@ == rule_host(*r),
                    i <= ps@.len(),
                    out@.len() == n + i,
                    forall|j: int| 0 <= j < n ==> (#[trigger] out@[j])@ == start[j],
                    forall|j: int| 0 <= j < i ==> (#[trigger] out@[n + j])@ == rule_entries(*r)[j],
                decreases ps@.len() - i,
            {
                let path = or_text(&ps[i].path, "/");
                let be = path_backend_string(&ps[i]);
                let mut e = host.clone();
                e.append(path.as_str());
                e.append(" → ");
                e.append(be.as_str());
                assert(rule_entries(*r)[i as int] == e@);
                out.push(e);
                i = i + 1;
            }
            assert forall|j: int| 0 <= j < out@.len() implies out.deep_view()[j] == (start
                + rule_entries(*r))[j] by {
                if j >= n {
                    assert(out@[n + (j - n)]@ == rule_entries(*r)[j - n]);
                }
            }
            assert(out.deep_view() =~= start + rule_entries(*r));
        },
        None => {
            assert(out.deep_view() =~= start + rule_entries(*r));
        },
    }
}

impl IngressInfo {
    /// The row of the ingresses table for an ingress the API returned.
    pub fn from_raw(g: &RawIngress) -> (r: IngressInfo)
        ensures
            ingress_info_matches(r, *g),
    {
        let (hosts, paths) = match &g.rules {
            Some(rs) => {
                let mut hs: Vec<String> = Vec::new();
                let mut es: Vec<String> = Vec::new();
                let mut i: usize = 0;
                while i < rs.len()
                    invariant
                        i <= rs@.len(),
                        hs.deep_view() == rule_hosts(rs@.subrange(0, i as int)),
                        es.deep_view() == all_rule_entries(rs@.subrange(0, i as int)),
                    decreases rs@.len() - i,
                {
                    let ghost pre1 = rs@.subrange(0, i + 1);
                    assert(pre1.drop_last() =~= rs@.subrange(0, i as int));
                    assert(pre1.last() == rs@[i as int]);
                    match &rs[i].host {
                        Some(h) => {
                            hs.push(h.clone());
                        },
                        None => {},
                    }
                    push_rule_entries(&mut es, &rs[i]);
                    i = i + 1;
                    assert(hs.deep_view() =~= rule_hosts(rs@.subrange(0, i as int)));
                }
                assert(rs@.subrange(0, i as int) =~= rs@);
                (join_strings(&hs, ", "), join_strings(&es, "  "))
            },
            None => (owned("*"), String::new()),
        };
        IngressInfo { name: or_empty(&g.name), hosts, paths, age: age_or_unknown(g.age_secs) }
    }
}

// ---------------------------------------------------------------- secrets

/// What the API reports of a secret.
pub struct RawSecret {
    pub name: Option<String>,
    pub type_: Option<String>,
    /// the keys of its data, when it has data
    pub data_keys: Option<Vec<String>>,
    pub age_secs: Option<i64>,
}

#[derive(Debug, Clone)]
pub struct SecretInfo {
    pub name: String,
    pub type_: String,
    pub keys: usize,
    pub key_names: Vec<String>,
    pub age: String,
}

pub open spec fn secret_keys(s: RawSecret) -> Seq<Seq<char>> {
    match s.data_keys {
        Some(k) => k.deep_view(),
        None => Seq::empty(),
    }
}

impl SecretInfo {
    /// The row of the secrets table for a secret the API returned.
    pub fn from_raw(s: &RawSecret) -> (r: SecretInfo)
        ensures
            r.name@ == opt_text(s.name, Seq::empty()),
            r.type_@ == opt_text(s.type_, "Opaque"@),
            r.key_names.deep_view() == secret_keys(*s),
            r.keys == secret_keys(*s).len(),
            r.age@ == opt_age_text(s.age_secs),
    {
        let key_names = match &s.data_keys {
            Some(k) => clone_strings(k),
            None => Vec::new(),
        };
        proof {
            if s.data_keys is None {
                assert(key_names.deep_view() =~= Seq::<Seq<char>>::empty());
            }
        }
        SecretInfo {
            name: or_empty(&s.name),
            type_: or_text(&s.type_, "Opaque"),
            keys: key_names.len(),
            key_names,
            age: age_or_unknown(s.age_secs),
        }
    }
}

// ---------------------------------------------------------------- events

/// What the API reports of an event.
pub struct RawEvent {
    /// the last time it was seen: its timestamp in seconds and its age in seconds
    pub last_seen: Option<(i64, i64)>,
    /// seconds since the event object was created, when known
    pub created_age_secs: Option<i64>,
    pub type_: Option<String>,
    pub reason: Option<String>,
    pub kind: Option<String>,
    pub object_name: Option<String>,
    pub message: Option<String>,
    pub count: Option<i32>,
}

#[derive(Debug, Clone)]
pub struct EventInfo {
    pub last_seen: String,
    /// `Normal` or `Warning`
    pub type_: String,
    pub reason: String,
    /// the involved object, as `Pod/my-pod-xyz`
    pub object: String,
    pub message: String,
    pub count: i32,
}

pub open spec fn event_last_seen_text(e: RawEvent) -> Seq<char> {
    match e.last_seen {
        Some((_ts, age)) => age_text(age as int),
        None => opt_age_text(e.created_age_secs),
    }
}

/// The key events are ordered by: the last-seen timestamp, 0 when unknown.
pub open spec fn event_sort_key(e: RawEvent) -> i64 {
    match e.last_seen {
        Some((ts, _age)) => ts,
        None => 0,
    }
}

/// The row of the events table for an event, field by field.
pub open spec fn event_info_matches(r: EventInfo, e: RawEvent) -> bool {
    &&& r.last_seen@ == event_last_seen_text(e)
    &&& r.type_@ == opt_text(e.type_, "Normal"@)
    &&& r.reason@ == opt_text(e.reason, Seq::empty())
    &&& r.object@ == opt_text(e.kind, "?"@) + seq!['/'] + opt_text(e.object_name, "?"@)
    &&& r.message@ == opt_text(e.message, Seq::empty())
    &&& r.count == match e.count {
        Some(n) => n,
        None => 1,
    }
}

impl EventInfo {
    /// The row of the events table for an event the API returned.
    pub fn from_raw(e: &RawEvent) -> (r: EventInfo)
        ensures
            event_info_matches(r, *e),
    {
        let last_seen = match e.last_seen {
            Some((_ts, age)) => format_age(age),
            None => age_or_unknown(e.created_age_secs),
        };
        let mut object = or_text(&e.kind, "?");
        crate::text::push_char(&mut object, '/');
        let n = or_text(&e.object_name, "?");
        object.append(n.as_str());
        assert(object@ =~= opt_text(e.kind, "?"@) + seq!['/'] + opt_text(e.object_name, "?"@));
        EventInfo {
            last_seen,
            type_: or_text(&e.type_, "Normal"),
            reason: or_empty(&e.reason),
            object,
            message: or_empty(&e.message),
            count: match e.count {
                Some(c) => c,
                None => 1,
            },
        }
    }
}

/// The rows of the events table, most recent first: a stable sort by
/// descending last-seen timestamp.
/// The rows of the events table for the events the API returned: one row per
/// event, the rows in the order a stable sort by descending last-seen time gives.
pub open spec fn is_events_table(raw: Seq<RawEvent>, rows: Seq<EventInfo>) -> bool {
    &&& rows.len() == raw.len()
    &&& exists|order: Seq<usize>|
        {
            &&& crate::sort::is_index_permutation(order, raw.len())
            &&& crate::sort::is_stable_descending(
                order,
                Seq::new(raw.len(), |i: int| event_sort_key(raw[i])),
            )
            &&& forall|j: int|
                0 <= j < rows.len() ==> event_info_matches(#[trigger] rows[j], raw[order[j] as int])
        }
}

pub fn events_newest_first(raw: &Vec<RawEvent>) -> (r: Vec<EventInfo>)
    ensures
        r@.len() == raw@.len(),
        is_events_table(raw@, r@),
{
    let mut keys: Vec<i64> = Vec::new();
    let mut i: usize = 0;
    while i < raw.len()
        invariant
            i <= raw@.len(),
            keys@.len() == i,
            forall|j: int| 0 <= j < i ==> keys@[j] == event_sort_key(#[trigger] raw@[j]),
        decreases raw@.len() - i,
    {
        let k = match raw[i].last_seen {
            Some((ts, _age)) => ts,
            None => 0,
        };
        keys.push(k);
        i = i + 1;
    }
    assert(keys@ =~= Seq::new(raw@.len(), |i: int| event_sort_key(raw@[i])));
    let order = crate::sort::stable_order_descending(&keys);
    let mut out: Vec<EventInfo> = Vec::new();
    let mut j: usize = 0;
    while j < order.len()
        invariant
            crate::sort::is_index_permutation(order@, raw@.len()),
            j <= order@.len(),
            out@.len() == j,
            forall|q: int| 0 <= q < j ==> event_info_matches(#[trigger] out@[q], raw@[order@[q] as int]),
        decreases order@.len() - j,
    {
        out.push(EventInfo::from_raw(&raw[order[j]]));
        j = j + 1;
    }
    out
}

// ---------------------------------------------------------------- namespaces

/// The names that are present, in order.
pub open spec fn present_names(names: Seq<Option<String>>) -> Seq<Seq<char>>
    decreases names.len(),
{
    if names.len() == 0 {
        Seq::empty()
    } else {
        present_names(names.drop_last()) + match names.last() {
            Some(n) => seq![n@],
            None => Seq::empty(),
        }
    }
}

/// The namespace names the cluster listed, sorted.
pub fn namespace_names(names: &Vec<Option<String>>) -> (r: Vec<String>)
    ensures
        crate::sort::sorted_strings(r.deep_view()),
        r.deep_view().to_multiset() == present_names(names@).to_multiset(),
{
    let mut out: Vec<String> = Vec::new();
    let mut i: usize = 0;
    while i < names.len()
        invariant
            i <= names@.len(),
            out.deep_view() == present_names(names@.subrange(0, i as int)),
        decreases names@.len() - i,
    {
        let ghost pre1 = names@.subrange(0, i + 1);
        assert(pre1.drop_last() =~= names@.subrange(0, i as int));
        match &names[i] {
            Some(n) => {
                out.push(n.clone());
            },
            None => {},
        }
        i = i + 1;
        assert(out.deep_view() =~= present_names(names@.subrange(0, i as int)));
    }
    assert(names@.subrange(0, i as int) =~= names@);
    crate::sort::sort_strings(out)
}

// ---------------------------------------------------------------- secret data

/// Decodes UTF-8 bytes into a string.
/// Calls `String::from_utf8`, which its documentation says succeeds exactly
/// when the bytes are valid UTF-8, and then holds the characters they encode.
#[verifier::external_body]
pub(crate) fn utf8_to_string(bytes: Vec<u8>) -> (r: Option<String>)
    ensures
        r is Some <==> vstd::utf8::valid_utf8(bytes@),
        r is Some ==> r->0@ == vstd::utf8::decode_utf8(bytes@),
{
    String::from_utf8(bytes).ok()
}

fn clone_bytes(v: &Vec<u8>) -> (r: Vec<u8>)
    ensures
        r@ == v@,
{
    let mut r: Vec<u8> = Vec::new();
    let mut i: usize = 0;
    while i < v.len()
        invariant
            i <= v@.len(),
            r@ == v@.subrange(0, i as int),
        decreases v@.len() - i,
    {
        r.push(v[i]);
        i = i + 1;
        assert(r@ =~= v@.subrange(0, i as int));
    }
    assert(r@ =~= v@);
    r
}

/// What a secret holds: its type, its data (key and raw bytes) and its
/// string data, each in key order.
pub struct RawSecretData {
    pub type_: Option<String>,
    pub data: Option<Vec<(String, Vec<u8>)>>,
    pub string_data: Option<Vec<(String, String)>>,
}

/// The index of `key` among the data keys, or -1.
pub open spec fn data_index(data: Seq<(String, Vec<u8>)>, key: Seq<char>) -> int
    decreases data.len(),
{
    if data.len() == 0 {
        -1
    } else if data.last().0@ == key {
        data.len() - 1
    } else {
        data_index(data.drop_last(), key)
    }
}

/// The value of `key` decoded as UTF-8: empty when the secret has no such key or
/// its bytes are not valid UTF-8.
pub open spec fn secret_key_text(s: RawSecretData, key: Seq<char>) -> Seq<char> {
    match s.data {
        Some(d) => {
            let i = data_index(d@, key);
            if i >= 0 && vstd::utf8::valid_utf8(d@[i].1@) {
                vstd::utf8::decode_utf8(d@[i].1@)
            } else {
                Seq::empty()
            }
        },
        None => Seq::empty(),
    }
}

/// The decoded value of one key of a secret, for pre-filling the edit buffer.
pub fn secret_key_value(s: &RawSecretData, key: &str) -> (r: String)
    ensures
        r@ == secret_key_text(*s, key@),
{
    match &s.data {
        Some(d) => {
            let mut i = d.len();
            assert(d@.subrange(0, i as int) =~= d@);
            while i > 0
                invariant
                    s.data == Some(*d),
                    i <= d@.len(),
                    data_index(d@, key@) == data_index(d@.subrange(0, i as int), key@),
                decreases i,
            {
                let ghost pre = d@.subrange(0, i as int);
                assert(pre.drop_last() =~= d@.subrange(0, i - 1));
                if crate::text::str_eq(d[i - 1].0.as_str(), key) {
                    assert(pre.last() == d@[i - 1]);
                    assert(data_index(d@, key@) == i - 1);
                    let b = clone_bytes(&d[i - 1].1);
                    assert(b@ == d@[i - 1].1@);
                    let decoded = utf8_to_string(b);
                    let r = match decoded {
                        Some(v) => v,
                        None => String::new(),
                    };
                    return r;
                }
                i = i - 1;
            }
            String::new()
        },
        None => String::new(),
    }
}

} // verus!
