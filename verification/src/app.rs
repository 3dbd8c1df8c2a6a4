//! The application's state and every decision it takes on a key press or on
//! an answer from the cluster. Work outside the process (API calls, child
//! processes, the clock) is asked for with a `Fetch` and answered by a call
//! that takes its result.

use vstd::prelude::*;
use crate::fuzzy::{fuzzy_match, skim_accepts};
use crate::model::{
    clone_strings, DeploymentInfo, EventInfo, IngressInfo, PodInfo, PodInfoView, SecretInfo,
    ServiceInfo,
};
use crate::text::{concat, concat3, owned, push_char, str_eq, str_starts_with, u64_decimal};
use crate::theme::{theme_name, variant_at, variant_index, ThemeVariant};

verus! {

#[derive(Debug, Clone, Copy, PartialEq, Eq, Structural)]
pub enum InputMode {
    Normal,
    Search,
    Viewing,
    ClusterPicker,
    Help,
    /// service log path prompt
    PathInput,
    /// deployment replica count prompt
    ScaleInput,
    /// pick a container before exec
    ContainerPicker,
    /// local:remote port-forward prompt
    PortInput,
    /// yes/no confirmation dialog
    Confirm,
    /// pick which key of a secret to edit
    SecretKeyPicker,
    /// edit the value of a secret key
    SecretValueInput,
}

/// Action to execute when the user confirms a dialog.
#[derive(Debug, Clone, PartialEq, Eq)]
pub enum ConfirmAction {
    RolloutRestart { name: String, namespace: String },
}

#[derive(Debug, Clone, Copy, PartialEq, Eq, Structural)]
pub enum Tab {
    Pods,
    Services,
    Deployments,
    Ingresses,
    Secrets,
    Events,
}

/// The number of tabs.
pub const TAB_COUNT: usize = 6;

/// The tab at a position of the tab bar.
pub open spec fn tab_at(i: int) -> Tab {
    if i == 0 {
        Tab::Pods
    } else if i == 1 {
        Tab::Services
    } else if i == 2 {
        Tab::Deployments
    } else if i == 3 {
        Tab::Ingresses
    } else if i == 4 {
        Tab::Secrets
    } else {
        Tab::Events
    }
}

pub open spec fn tab_title(t: Tab) -> Seq<char> {
    match t {
        Tab::Pods => "Pods"@,
        Tab::Services => "Services"@,
        Tab::Deployments => "Deployments"@,
        Tab::Ingresses => "Ingresses"@,
        Tab::Secrets => "Secrets"@,
        Tab::Events => "Events"@,
    }
}

impl Tab {
    pub fn title(&self) -> (r: &'static str)
        ensures
            r@ == tab_title(*self),
    {
        match self {
            Tab::Pods => "Pods",
            Tab::Services => "Services",
            Tab::Deployments => "Deployments",
            Tab::Ingresses => "Ingresses",
            Tab::Secrets => "Secrets",
            Tab::Events => "Events",
        }
    }

    /// The tab at position `i` of the tab bar.
    pub fn at(i: usize) -> (r: Tab)
        requires
            i < TAB_COUNT,
        ensures
            r == tab_at(i as int),
    {
        if i == 0 {
            Tab::Pods
        } else if i == 1 {
            Tab::Services
        } else if i == 2 {
            Tab::Deployments
        } else if i == 3 {
            Tab::Ingresses
        } else if i == 4 {
            Tab::Secrets
        } else {
            Tab::Events
        }
    }
}

/// An active `kubectl port-forward`, as the application records it.
#[derive(Debug, Clone, PartialEq, Eq)]
pub struct PortForward {
    pub pod: String,
    pub local_port: u16,
    pub remote_port: u16,
    pub active: bool,
}

impl PortForward {
    /// Records that the forward was stopped.
    pub fn stop(&mut self)
        ensures
            *final(self) == (PortForward { active: false, ..*old(self) }),
    {
        self.active = false;
    }
}

/// Work outside the process that the application asks for.
#[derive(Debug, Clone, PartialEq, Eq)]
pub enum Fetch {
    /// list the resources of a tab in a namespace
    List { tab: Tab, namespace: String },
    /// follow the log of a pod, from its last 200 lines on
    PodLogs { namespace: String, pod: String },
    /// follow a file inside a pod
    ExecTail { namespace: String, pod: String, path: String },
    DescribePod { namespace: String, name: String },
    DescribeDeployment { namespace: String, name: String },
    DescribeIngress { namespace: String, name: String },
    /// `kubectl get <kind> <name> -o yaml`
    ResourceYaml { kind: String, name: String, namespace: String },
    /// a secret's decoded data
    SecretData { namespace: String, name: String },
    HelmList { namespace: String },
    /// the decoded value of one key of a secret
    SecretKeyValue { namespace: String, name: String, key: String },
    UpdateSecretKey { namespace: String, name: String, key: String, value: String },
    Scale { namespace: String, name: String, replicas: i32 },
    RolloutRestart { namespace: String, name: String },
    PortForward { namespace: String, pod: String, local_port: u16, remote_port: u16 },
    TshLogin { cluster: String },
    TshClusters,
}

pub struct App {
    pub input_mode: InputMode,
    // Navigation
    pub active_tab: usize,
    // Per-tab selection indices
    pub pod_selected: usize,
    pub svc_selected: usize,
    pub deploy_selected: usize,
    pub ingress_selected: usize,
    pub secret_selected: usize,
    pub event_selected: usize,
    // Data
    pub pods: Vec<PodInfo>,
    pub filtered_pods: Vec<PodInfo>,
    pub services: Vec<ServiceInfo>,
    pub deployments: Vec<DeploymentInfo>,
    pub ingresses: Vec<IngressInfo>,
    pub secrets: Vec<SecretInfo>,
    pub events: Vec<EventInfo>,
    pub namespaces: Vec<String>,
    pub current_namespace: String,
    pub current_context: String,
    // Search (pods only)
    pub search_query: String,
    // Viewer
    pub viewer_content: Vec<String>,
    pub viewer_title: String,
    pub viewer_scroll: usize,
    /// a live log stream feeds the viewer
    pub log_streaming: bool,
    /// the viewer shows the port-forward list, where a number key stops a forward
    pub port_forward_view: bool,
    // TSH cluster picker
    pub tsh_clusters: Vec<String>,
    pub cluster_picker_index: usize,
    /// the cluster list has been asked for and not yet received
    pub tsh_clusters_pending: bool,
    // Confirmation dialog
    pub confirm_action: Option<ConfirmAction>,
    /// YES is highlighted
    pub confirm_yes: bool,
    pub loading: bool,
    pub refresh_interval_secs: u64,
    // Status / prompts
    pub status_message: String,
    pub service_log_path: String,
    pub path_input_buffer: String,
    pub scale_input_buffer: String,
    pub scale_deploy_name: String,
    pub scale_current_replicas: i32,
    // Container picker (for exec)
    pub container_picker_list: Vec<String>,
    pub container_picker_idx: usize,
    /// pod name waiting for exec
    pub container_picker_pod: String,
    // Port-forward
    pub port_forwards: Vec<PortForward>,
    pub port_input_buffer: String,
    // Secret editing
    pub secret_key_picker_list: Vec<String>,
    pub secret_key_picker_idx: usize,
    pub secret_key_picker_secret: String,
    pub secret_value_input_key: String,
    pub secret_value_input_buffer: String,
    // Theme
    pub theme: ThemeVariant,
    /// pod, namespace and container of an exec the terminal should run next
    pub pending_exec: Option<(String, String, String)>,
}

/// The index of the first of `names` equal to `x`, or -1.
pub open spec fn position_of(names: Seq<Seq<char>>, x: Seq<char>) -> int
    decreases names.len(),
{
    if names.len() == 0 {
        -1
    } else if names[0] == x {
        0
    } else {
        let r = position_of(names.drop_first(), x);
        if r < 0 {
            -1
        } else {
            r + 1
        }
    }
}

proof fn lemma_position_of(names: Seq<Seq<char>>, x: Seq<char>)
    ensures
        -1 <= position_of(names, x) < names.len(),
        position_of(names, x) >= 0 ==> names[position_of(names, x)] == x,
        position_of(names, x) < 0 ==> forall|j: int| 0 <= j < names.len() ==> names[j] != x,
        forall|j: int| 0 <= j < position_of(names, x) ==> names[j] != x,
    decreases names.len(),
{
    if names.len() > 0 && names[0] != x {
        lemma_position_of(names.drop_first(), x);
        assert forall|j: int| 0 <= j < names.len() && (position_of(names, x) < 0 || j < position_of(names, x)) implies names[j] != x by {
            if j > 0 {
                assert(names[j] == names.drop_first()[j - 1]);
            }
        }
    }
}

pub proof fn lemma_position_of_bounds(names: Seq<Seq<char>>, x: Seq<char>)
    ensures
        -1 <= position_of(names, x) < names.len(),
{
    lemma_position_of(names, x);
}

/// In a list without repeats, each name's position is its index.
pub proof fn lemma_position_of_distinct(names: Seq<Seq<char>>, j: int)
    requires
        0 <= j < names.len(),
        forall|a: int, b: int| 0 <= a < b < names.len() ==> names[a] != names[b],
    ensures
        position_of(names, names[j]) == j,
{
    lemma_position_of(names, names[j]);
    let p = position_of(names, names[j]);
    if p < j {
        assert(p >= 0);
        assert(names[p] == names[j]);
    }
}

/// The namespace chosen at start: `default` when the cluster has it, else the
/// first listed, else `default`.
pub open spec fn initial_namespace(names: Seq<Seq<char>>) -> Seq<char> {
    if position_of(names, "default"@) >= 0 {
        "default"@
    } else if names.len() > 0 {
        names[0]
    } else {
        "default"@
    }
}

/// The namespace after `current` in `names`, wrapping; from the first one when
/// `current` is not listed.
pub open spec fn next_namespace_of(names: Seq<Seq<char>>, current: Seq<char>) -> Seq<char> {
    let p = position_of(names, current);
    let i = if p < 0 {
        0
    } else {
        p
    };
    names[(i + 1) % (names.len() as int)]
}

/// The pods whose names the search query matches, in order.
pub open spec fn filter_pods(pods: Seq<PodInfoView>, query: Seq<char>) -> Seq<PodInfoView>
    decreases pods.len(),
{
    if pods.len() == 0 {
        Seq::empty()
    } else {
        filter_pods(pods.drop_last(), query) + if skim_accepts(pods.last().name, query) {
            seq![pods.last()]
        } else {
            Seq::empty()
        }
    }
}

/// The refresh a tab asks for.
pub open spec fn list_fetch(tab: Tab, namespace: String) -> Fetch {
    Fetch::List { tab, namespace }
}

pub open spec fn min_index(a: int, b: int) -> int {
    if a < b {
        a
    } else {
        b
    }
}

/// The index after `i` in a list of `len` items, staying on the last one.
pub open spec fn step_down(i: usize, len: int) -> usize {
    if len == 0 {
        i
    } else {
        min_index(i + 1, len - 1) as usize
    }
}

/// The index before `i`, staying at 0.
pub open spec fn step_up(i: usize) -> usize {
    if i == 0 {
        0
    } else {
        (i - 1) as usize
    }
}

/// The index of the last of `len` items, 0 when there are none.
pub open spec fn last_index(len: int) -> usize {
    if len == 0 {
        0
    } else {
        (len - 1) as usize
    }
}

/// The tab after tab `a`, wrapping from the last to the first.
pub open spec fn next_tab_index(a: usize) -> usize {
    ((a + 1) % (TAB_COUNT as int)) as usize
}

/// The tab before tab `a`, wrapping from the first to the last.
pub open spec fn prev_tab_index(a: usize) -> usize {
    if a == 0 {
        (TAB_COUNT - 1) as usize
    } else {
        (a - 1) as usize
    }
}

/// A selection kept on a list of `len` rows: moved to the last row when it
/// is past the end of a non-empty list.
pub open spec fn clamped_selection(sel: usize, len: int) -> usize {
    if sel >= len && len > 0 {
        (len - 1) as usize
    } else {
        sel
    }
}

fn next_index(i: usize, len: usize) -> (r: usize)
    ensures
        r == step_down(i, len as int),
{
    if len == 0 {
        i
    } else if i < len - 1 {
        i + 1
    } else {
        len - 1
    }
}

fn prev_index(i: usize) -> (r: usize)
    ensures
        r == step_up(i),
{
    if i == 0 {
        0
    } else {
        i - 1
    }
}

impl App {
    /// The application's own invariant: the active tab is one of the tabs.
    pub open spec fn wf(&self) -> bool {
        self.active_tab < TAB_COUNT
    }

    pub open spec fn current_tab(&self) -> Tab {
        tab_at(self.active_tab as int)
    }

    /// The number of rows the tab lists.
    pub open spec fn tab_len(&self, t: Tab) -> int {
        match t {
            Tab::Pods => self.filtered_pods@.len() as int,
            Tab::Services => self.services@.len() as int,
            Tab::Deployments => self.deployments@.len() as int,
            Tab::Ingresses => self.ingresses@.len() as int,
            Tab::Secrets => self.secrets@.len() as int,
            Tab::Events => self.events@.len() as int,
        }
    }

    /// The selected row of the tab.
    pub open spec fn tab_selected(&self, t: Tab) -> usize {
        match t {
            Tab::Pods => self.pod_selected,
            Tab::Services => self.svc_selected,
            Tab::Deployments => self.deploy_selected,
            Tab::Ingresses => self.ingress_selected,
            Tab::Secrets => self.secret_selected,
            Tab::Events => self.event_selected,
        }
    }

    /// The state with the tab's selection set to `v`.
    pub open spec fn with_tab_selected(self, t: Tab, v: usize) -> App {
        match t {
            Tab::Pods => App { pod_selected: v, ..self },
            Tab::Services => App { svc_selected: v, ..self },
            Tab::Deployments => App { deploy_selected: v, ..self },
            Tab::Ingresses => App { ingress_selected: v, ..self },
            Tab::Secrets => App { secret_selected: v, ..self },
            Tab::Events => App { event_selected: v, ..self },
        }
    }

    /// The state after one press of "next item": the tab on screen moves down a row.
    pub open spec fn after_next_item(self) -> App {
        self.with_tab_selected(
            self.current_tab(),
            step_down(self.tab_selected(self.current_tab()), self.tab_len(self.current_tab())),
        )
    }

    /// The state after "jump to bottom": the tab on screen selects its last row,
    /// and an empty tab stays as it is.
    pub open spec fn after_jump_bottom(self) -> App {
        if self.tab_len(self.current_tab()) == 0 {
            self
        } else {
            self.with_tab_selected(self.current_tab(), last_index(self.tab_len(self.current_tab())))
        }
    }

    /// The state with every tab's selection back at the top.
    pub open spec fn with_selections_reset(self) -> App {
        App {
            pod_selected: 0,
            svc_selected: 0,
            deploy_selected: 0,
            ingress_selected: 0,
            secret_selected: 0,
            event_selected: 0,
            ..self
        }
    }

    /// A fresh application state for a cluster whose namespaces and current
    /// kubeconfig context are given.
    pub fn new(namespaces: Vec<String>, current_context: Option<String>) -> (r: App)
        ensures
            r.wf(),
            r.current_context@ == crate::model::opt_text(current_context, "unknown"@),
            r.namespaces.deep_view() == namespaces.deep_view(),
            r.current_namespace@ == initial_namespace(namespaces.deep_view()),
            r.input_mode == InputMode::Normal,
            r.active_tab == 0,
            r.with_selections_reset() == r,
            r.pods@.len() == 0 && r.filtered_pods@.len() == 0 && r.services@.len() == 0
                && r.deployments@.len() == 0 && r.ingresses@.len() == 0 && r.secrets@.len()
                == 0 && r.events@.len() == 0,
            r.search_query@.len() == 0,
            r.viewer_content@.len() == 0 && r.viewer_title@.len() == 0 && r.viewer_scroll == 0,
            !r.log_streaming,
            r.tsh_clusters@.len() == 0 && r.cluster_picker_index == 0 && !r.tsh_clusters_pending,
            r.confirm_action is None && !r.confirm_yes,
            !r.loading,
            r.refresh_interval_secs == 5,
            r.status_message@.len() == 0,
            r.service_log_path@ == "logs/service.log"@,
            r.path_input_buffer@.len() == 0 && r.scale_input_buffer@.len() == 0,
            r.scale_deploy_name@.len() == 0 && r.scale_current_replicas == 0,
            r.container_picker_list@.len() == 0 && r.container_picker_idx == 0
                && r.container_picker_pod@.len() == 0,
            r.port_forwards@.len() == 0,
            r.port_input_buffer@ == "8080:8080"@,
            r.secret_key_picker_list@.len() == 0 && r.secret_key_picker_idx == 0
                && r.secret_key_picker_secret@.len() == 0,
            r.secret_value_input_key@.len() == 0 && r.secret_value_input_buffer@.len() == 0,
            r.theme == ThemeVariant::Default,
            r.pending_exec is None,
    {
        let current_context = match current_context {
            Some(c) => c,
            None => owned("unknown"),
        };
        let mut has_default = false;
        let mut i: usize = 0;
        while i < namespaces.len()
            invariant
                i <= namespaces@.len(),
                has_default == exists|j: int| 0 <= j < i && namespaces.deep_view()[j] == "default"@,
            decreases namespaces@.len() - i,
        {
            let is_default = str_eq(namespaces[i].as_str(), "default");
            assert(namespaces.deep_view()[i as int] == namespaces@[i as int]@);
            if is_default {
                has_default = true;
            }
            i = i + 1;
            assert(has_default == exists|j: int| 0 <= j < i && namespaces.deep_view()[j] == "default"@) by {
                if is_default {
                    assert(namespaces.deep_view()[i - 1] == "default"@);
                }
            }
        }
        proof {
            lemma_position_of(namespaces.deep_view(), "default"@);
            if has_default {
                let j = choose|j: int| 0 <= j < i && namespaces.deep_view()[j] == "default"@;
                assert(position_of(namespaces.deep_view(), "default"@) >= 0);
            }
        }
        let current_namespace = if has_default {
            owned("default")
        } else if namespaces.len() > 0 {
            namespaces[0].clone()
        } else {
            owned("default")
        };
        App {
            input_mode: InputMode::Normal,
            active_tab: 0,
            pod_selected: 0,
            svc_selected: 0,
            deploy_selected: 0,
            ingress_selected: 0,
            secret_selected: 0,
            event_selected: 0,
            pods: Vec::new(),
            filtered_pods: Vec::new(),
            services: Vec::new(),
            deployments: Vec::new(),
            ingresses: Vec::new(),
            secrets: Vec::new(),
            events: Vec::new(),
            namespaces,
            current_namespace,
            current_context,
            search_query: String::new(),
            viewer_content: Vec::new(),
            viewer_title: String::new(),
            viewer_scroll: 0,
            log_streaming: false,
            port_forward_view: false,
            tsh_clusters: Vec::new(),
            cluster_picker_index: 0,
            tsh_clusters_pending: false,
            confirm_action: None,
            confirm_yes: false,
            loading: false,
            refresh_interval_secs: 5,
            status_message: String::new(),
            service_log_path: owned("logs/service.log"),
            path_input_buffer: String::new(),
            scale_input_buffer: String::new(),
            scale_deploy_name: String::new(),
            scale_current_replicas: 0,
            container_picker_list: Vec::new(),
            container_picker_idx: 0,
            container_picker_pod: String::new(),
            port_forwards: Vec::new(),
            port_input_buffer: owned("8080:8080"),
            secret_key_picker_list: Vec::new(),
            secret_key_picker_idx: 0,
            secret_key_picker_secret: String::new(),
            secret_value_input_key: String::new(),
            secret_value_input_buffer: String::new(),
            theme: ThemeVariant::Default,
            pending_exec: None,
        }
    }

    // ---------------------------------------------------------------- refresh

    /// Marks a refresh of `tab` as under way and asks for it.
    fn schedule_refresh(&mut self, tab: Tab) -> (r: Fetch)
        ensures
            *final(self) == (App {
                loading: true,
                status_message: final(self).status_message,
                ..*old(self)
            }),
            final(self).status_message@ == "Refreshing…"@,
            r == list_fetch(tab, old(self).current_namespace),
    {
        self.loading = true;
        self.status_message = owned("Refreshing…");
        Fetch::List { tab, namespace: self.current_namespace.clone() }
    }

    pub fn schedule_pod_refresh(&mut self) -> (r: Fetch)
        ensures
            *final(self) == (App {
                loading: true,
                status_message: final(self).status_message,
                ..*old(self)
            }),
            final(self).status_message@ == "Refreshing…"@,
            r == list_fetch(Tab::Pods, old(self).current_namespace),
    {
        self.schedule_refresh(Tab::Pods)
    }

    pub fn schedule_svc_refresh(&mut self) -> (r: Fetch)
        ensures
            *final(self) == (App {
                loading: true,
                status_message: final(self).status_message,
                ..*old(self)
            }),
            final(self).status_message@ == "Refreshing…"@,
            r == list_fetch(Tab::Services, old(self).current_namespace),
    {
        self.schedule_refresh(Tab::Services)
    }

    pub fn schedule_deploy_refresh(&mut self) -> (r: Fetch)
        ensures
            *final(self) == (App {
                loading: true,
                status_message: final(self).status_message,
                ..*old(self)
            }),
            final(self).status_message@ == "Refreshing…"@,
            r == list_fetch(Tab::Deployments, old(self).current_namespace),
    {
        self.schedule_refresh(Tab::Deployments)
    }

    pub fn schedule_events_refresh(&mut self) -> (r: Fetch)
        ensures
            *final(self) == (App {
                loading: true,
                status_message: final(self).status_message,
                ..*old(self)
            }),
            final(self).status_message@ == "Refreshing…"@,
            r == list_fetch(Tab::Events, old(self).current_namespace),
    {
        self.schedule_refresh(Tab::Events)
    }

    pub fn schedule_ingress_refresh(&mut self) -> (r: Fetch)
        ensures
            *final(self) == (App {
                loading: true,
                status_message: final(self).status_message,
                ..*old(self)
            }),
            final(self).status_message@ == "Refreshing…"@,
            r == list_fetch(Tab::Ingresses, old(self).current_namespace),
    {
        self.schedule_refresh(Tab::Ingresses)
    }

    pub fn schedule_secret_refresh(&mut self) -> (r: Fetch)
        ensures
            *final(self) == (App {
                loading: true,
                status_message: final(self).status_message,
                ..*old(self)
            }),
            final(self).status_message@ == "Refreshing…"@,
            r == list_fetch(Tab::Secrets, old(self).current_namespace),
    {
        self.schedule_refresh(Tab::Secrets)
    }

    /// Refreshes the tab on screen.
    pub fn schedule_current_tab_refresh(&mut self) -> (r: Fetch)
        requires
            old(self).wf(),
        ensures
            *final(self) == (App {
                loading: true,
                status_message: final(self).status_message,
                ..*old(self)
            }),
            final(self).status_message@ == "Refreshing…"@,
            r == list_fetch(old(self).current_tab(), old(self).current_namespace),
    {
        let t = Tab::at(self.active_tab);
        self.schedule_refresh(t)
    }

    // ---------------------------------------------------------------- filter

    /// Recomputes the pods the search shows and keeps the selection on one of them.
    pub fn apply_filter(&mut self)
        ensures
            *final(self) == (App {
                filtered_pods: final(self).filtered_pods,
                pod_selected: final(self).pod_selected,
                ..*old(self)
            }),
            final(self).filtered_pods.deep_view() == filter_pods(
                old(self).pods.deep_view(),
                old(self).search_query@,
            ),
            final(self).pod_selected == clamped_selection(
                old(self).pod_selected,
                final(self).filtered_pods@.len() as int,
            ),
    {
        let mut out: Vec<PodInfo> = Vec::new();
        let mut i: usize = 0;
        while i < self.pods.len()
            invariant
                i <= self.pods@.len(),
                out.deep_view() == filter_pods(
                    self.pods.deep_view().subrange(0, i as int),
                    self.search_query@,
                ),
            decreases self.pods@.len() - i,
        {
            let ghost pre1 = self.pods.deep_view().subrange(0, i + 1);
            assert(pre1.drop_last() =~= self.pods.deep_view().subrange(0, i as int));
            assert(pre1.last() == self.pods@[i as int]@);
            let keep = self.search_query.unicode_len() == 0 || fuzzy_match(
                self.pods[i].name.as_str(),
                self.search_query.as_str(),
            ).is_some();
            if keep {
                let p = self.pods[i].clone();
                let ghost before = out.deep_view();
                out.push(p);
                assert(out.deep_view() =~= before.push(self.pods@[i as int]@));
            }
            i = i + 1;
        }
        assert(self.pods.deep_view().subrange(0, i as int) =~= self.pods.deep_view());
        self.filtered_pods = out;
        if self.pod_selected >= self.filtered_pods.len() && self.filtered_pods.len() > 0 {
            self.pod_selected = self.filtered_pods.len() - 1;
        }
    }

    // ---------------------------------------------------------------- navigation

    /// Moves the selection of the tab on screen one row down, stopping at the last row.
    pub fn next_item(&mut self)
        requires
            old(self).wf(),
        ensures
            *final(self) == old(self).after_next_item(),
    {
        match Tab::at(self.active_tab) {
            Tab::Pods => self.pod_selected = next_index(self.pod_selected, self.filtered_pods.len()),
            Tab::Services => self.svc_selected = next_index(self.svc_selected, self.services.len()),
            Tab::Deployments => self.deploy_selected = next_index(
                self.deploy_selected,
                self.deployments.len(),
            ),
            Tab::Ingresses => self.ingress_selected = next_index(
                self.ingress_selected,
                self.ingresses.len(),
            ),
            Tab::Secrets => self.secret_selected = next_index(
                self.secret_selected,
                self.secrets.len(),
            ),
            Tab::Events => self.event_selected = next_index(self.event_selected, self.events.len()),
        }
    }

    /// Moves the selection of the tab on screen one row up, stopping at the top.
    pub fn prev_item(&mut self)
        requires
            old(self).wf(),
        ensures
            *final(self) == old(self).with_tab_selected(
                old(self).current_tab(),
                step_up(old(self).tab_selected(old(self).current_tab())),
            ),
    {
        match Tab::at(self.active_tab) {
            Tab::Pods => self.pod_selected = prev_index(self.pod_selected),
            Tab::Services => self.svc_selected = prev_index(self.svc_selected),
            Tab::Deployments => self.deploy_selected = prev_index(self.deploy_selected),
            Tab::Ingresses => self.ingress_selected = prev_index(self.ingress_selected),
            Tab::Secrets => self.secret_selected = prev_index(self.secret_selected),
            Tab::Events => self.event_selected = prev_index(self.event_selected),
        }
    }

    /// Selects the first row of the tab on screen.
    pub fn jump_top(&mut self)
        requires
            old(self).wf(),
        ensures
            *final(self) == old(self).with_tab_selected(old(self).current_tab(), 0),
    {
        match Tab::at(self.active_tab) {
            Tab::Pods => self.pod_selected = 0,
            Tab::Services => self.svc_selected = 0,
            Tab::Deployments => self.deploy_selected = 0,
            Tab::Ingresses => self.ingress_selected = 0,
            Tab::Secrets => self.secret_selected = 0,
            Tab::Events => self.event_selected = 0,
        }
    }

    /// Selects the last row of the tab on screen; an empty tab keeps its selection.
    pub fn jump_bottom(&mut self)
        requires
            old(self).wf(),
        ensures
            *final(self) == old(self).after_jump_bottom(),
    {
        match Tab::at(self.active_tab) {
            Tab::Pods => {
                if self.filtered_pods.len() > 0 {
                    self.pod_selected = self.filtered_pods.len() - 1;
                }
            },
            Tab::Services => {
                if self.services.len() > 0 {
                    self.svc_selected = self.services.len() - 1;
                }
            },
            Tab::Deployments => {
                if self.deployments.len() > 0 {
                    self.deploy_selected = self.deployments.len() - 1;
                }
            },
            Tab::Ingresses => {
                if self.ingresses.len() > 0 {
                    self.ingress_selected = self.ingresses.len() - 1;
                }
            },
            Tab::Secrets => {
                if self.secrets.len() > 0 {
                    self.secret_selected = self.secrets.len() - 1;
                }
            },
            Tab::Events => {
                if self.events.len() > 0 {
                    self.event_selected = self.events.len() - 1;
                }
            },
        }
    }

    /// The next tab, wrapping from the last to the first.
    pub fn next_tab(&mut self)
        ensures
            *final(self) == (App { active_tab: next_tab_index(old(self).active_tab), ..*old(self) }),
    {
        self.active_tab = (self.active_tab % TAB_COUNT + 1) % TAB_COUNT;
    }

    /// The previous tab, wrapping from the first to the last.
    pub fn prev_tab(&mut self)
        ensures
            *final(self) == (App { active_tab: prev_tab_index(old(self).active_tab), ..*old(self) }),
    {
        if self.active_tab == 0 {
            self.active_tab = TAB_COUNT - 1;
        } else {
            self.active_tab = self.active_tab - 1;
        }
    }

    /// Jumps to the tab at `idx`; other indices are ignored.
    pub fn select_tab(&mut self, idx: usize)
        ensures
            *final(self) == if idx < TAB_COUNT {
                App { active_tab: idx, ..*old(self) }
            } else {
                *old(self)
            },
    {
        if idx < TAB_COUNT {
            self.active_tab = idx;
        }
    }

    /// Moves to the next namespace, resets every selection and refreshes the tab
    /// on screen. Nothing happens when no namespaces are known.
    pub fn next_namespace(&mut self) -> (r: Option<Fetch>)
        requires
            old(self).wf(),
        ensures
            old(self).namespaces@.len() == 0 ==> *final(self) == *old(self) && r is None,
            old(self).namespaces@.len() > 0 ==> {
                &&& *final(self) == (App {
                    current_namespace: final(self).current_namespace,
                    loading: true,
                    status_message: final(self).status_message,
                    ..old(self).with_selections_reset()
                })
                &&& final(self).current_namespace@ == next_namespace_of(
                    old(self).namespaces.deep_view(),
                    old(self).current_namespace@,
                )
                &&& final(self).status_message@ == "Refreshing…"@
                &&& r == Some(list_fetch(old(self).current_tab(), final(self).current_namespace))
            },
    {
        if self.namespaces.len() == 0 {
            return None;
        }
        let mut idx: usize = 0;
        let mut found = false;
        let mut i: usize = 0;
        while i < self.namespaces.len() && !found
            invariant
                i <= self.namespaces@.len(),
                found ==> i < self.namespaces@.len() && self.namespaces.deep_view()[i as int]
                    == self.current_namespace@,
                forall|j: int| 0 <= j < i ==> self.namespaces.deep_view()[j] != self.current_namespace@,
            decreases self.namespaces@.len() - i + if found { 0int } else { 1int },
        {
            if self.namespaces[i] == self.current_namespace {
                found = true;
            } else {
                i = i + 1;
            }
        }
        if found {
            idx = i;
        }
        proof {
            let names = self.namespaces.deep_view();
            lemma_position_of(names, self.current_namespace@);
            let p = position_of(names, self.current_namespace@);
            if found {
                assert(p >= 0);
                assert(p == i);
            } else {
                assert(p < 0) by {
                    if p >= 0 {
                        assert(names[p] == self.current_namespace@);
                    }
                }
            }
        }
        let n = self.namespaces.len();
        assert(idx < n);
        proof {
            vstd::arithmetic::div_mod::lemma_small_mod(idx as nat, n as nat);
        }
        let next = (idx % n + 1) % n;
        self.current_namespace = self.namespaces[next].clone();
        self.pod_selected = 0;
        self.svc_selected = 0;
        self.deploy_selected = 0;
        self.ingress_selected = 0;
        self.secret_selected = 0;
        self.event_selected = 0;
        Some(self.schedule_current_tab_refresh())
    }

    /// Enters search mode with an empty query.
    pub fn enter_search(&mut self)
        ensures
            *final(self) == (App {
                input_mode: InputMode::Search,
                search_query: final(self).search_query,
                ..*old(self)
            }),
            final(self).search_query@.len() == 0,
    {
        self.input_mode = InputMode::Search;
        self.search_query = String::new();
    }

    pub fn exit_search(&mut self)
        ensures
            *final(self) == (App { input_mode: InputMode::Normal, ..*old(self) }),
    {
        self.input_mode = InputMode::Normal;
    }

    // ---------------------------------------------------------------- accessors

    pub fn selected_pod(&self) -> (r: Option<&PodInfo>)
        ensures
            r == if self.pod_selected < self.filtered_pods@.len() {
                Some(&self.filtered_pods@[self.pod_selected as int])
            } else {
                None
            },
    {
        if self.pod_selected < self.filtered_pods.len() {
            Some(&self.filtered_pods[self.pod_selected])
        } else {
            None
        }
    }

    pub fn selected_deployment(&self) -> (r: Option<&DeploymentInfo>)
        ensures
            r == if self.deploy_selected < self.deployments@.len() {
                Some(&self.deployments@[self.deploy_selected as int])
            } else {
                None
            },
    {
        if self.deploy_selected < self.deployments.len() {
            Some(&self.deployments[self.deploy_selected])
        } else {
            None
        }
    }

    pub fn selected_service(&self) -> (r: Option<&ServiceInfo>)
        ensures
            r == if self.svc_selected < self.services@.len() {
                Some(&self.services@[self.svc_selected as int])
            } else {
                None
            },
    {
        if self.svc_selected < self.services.len() {
            Some(&self.services[self.svc_selected])
        } else {
            None
        }
    }

    pub fn selected_ingress(&self) -> (r: Option<&IngressInfo>)
        ensures
            r == if self.ingress_selected < self.ingresses@.len() {
                Some(&self.ingresses@[self.ingress_selected as int])
            } else {
                None
            },
    {
        if self.ingress_selected < self.ingresses.len() {
            Some(&self.ingresses[self.ingress_selected])
        } else {
            None
        }
    }

    pub fn selected_secret(&self) -> (r: Option<&SecretInfo>)
        ensures
            r == if self.secret_selected < self.secrets@.len() {
                Some(&self.secrets@[self.secret_selected as int])
            } else {
                None
            },
    {
        if self.secret_selected < self.secrets.len() {
            Some(&self.secrets[self.secret_selected])
        } else {
            None
        }
    }

    // ---------------------------------------------------------------- viewers

    pub open spec fn selected_pod_spec(&self) -> Option<PodInfo> {
        if self.pod_selected < self.filtered_pods@.len() {
            Some(self.filtered_pods@[self.pod_selected as int])
        } else {
            None
        }
    }

    pub open spec fn selected_deployment_spec(&self) -> Option<DeploymentInfo> {
        if self.deploy_selected < self.deployments@.len() {
            Some(self.deployments@[self.deploy_selected as int])
        } else {
            None
        }
    }

    pub open spec fn selected_service_spec(&self) -> Option<ServiceInfo> {
        if self.svc_selected < self.services@.len() {
            Some(self.services@[self.svc_selected as int])
        } else {
            None
        }
    }

    pub open spec fn selected_ingress_spec(&self) -> Option<IngressInfo> {
        if self.ingress_selected < self.ingresses@.len() {
            Some(self.ingresses@[self.ingress_selected as int])
        } else {
            None
        }
    }

    pub open spec fn selected_secret_spec(&self) -> Option<SecretInfo> {
        if self.secret_selected < self.secrets@.len() {
            Some(self.secrets@[self.secret_selected as int])
        } else {
            None
        }
    }

    /// Opens the live log viewer on the selected pod: the stream it asks for
    /// starts with the pod's last lines and keeps appending new ones.
    pub fn view_logs(&mut self) -> (r: Option<Fetch>)
        ensures
            match old(self).selected_pod_spec() {
                Some(p) => {
                    &&& *final(self) == (App {
                        viewer_title: final(self).viewer_title,
                        viewer_content: final(self).viewer_content,
                        viewer_scroll: 0,
                        log_streaming: true,
                        port_forward_view: false,
                        input_mode: InputMode::Viewing,
                        ..*old(self)
                    })
                    &&& final(self).viewer_title@ == "Logs: "@ + p.name@
                    &&& final(self).viewer_content@.len() == 0
                    &&& r == Some(
                        Fetch::PodLogs { namespace: old(self).current_namespace, pod: p.name },
                    )
                },
                None => {
                    &&& *final(self) == *old(self)
                    &&& r is None
                },
            },
    {
        match self.selected_pod() {
            Some(p) => {
                let pod = p.name.clone();
                self.viewer_title = concat("Logs: ", pod.as_str());
                self.viewer_content = Vec::new();
                self.viewer_scroll = 0;
                self.log_streaming = true;
                self.port_forward_view = false;
                self.input_mode = InputMode::Viewing;
                Some(Fetch::PodLogs { namespace: self.current_namespace.clone(), pod })
            },
            None => None,
        }
    }

    /// Asks for the path of a log file to follow in the selected pod.
    pub fn prompt_service_log_path(&mut self)
        ensures
            old(self).selected_pod_spec() is None ==> *final(self) == *old(self),
            old(self).selected_pod_spec() is Some ==> *final(self) == (App {
                path_input_buffer: old(self).service_log_path,
                input_mode: InputMode::PathInput,
                ..*old(self)
            }),
    {
        if self.selected_pod().is_some() {
            self.path_input_buffer = self.service_log_path.clone();
            self.input_mode = InputMode::PathInput;
        }
    }

    /// Takes the typed path: a blank one closes the prompt; otherwise it is
    /// remembered and, when a pod is selected, a live tail of it opens.
    pub fn confirm_service_log_path(&mut self) -> (r: Option<Fetch>)
        ensures
            ({
                let path = crate::text::trim(old(self).path_input_buffer@);
                if path.len() == 0 {
                    &&& *final(self) == (App { input_mode: InputMode::Normal, ..*old(self) })
                    &&& r is None
                } else {
                    &&& final(self).service_log_path@ == path
                    &&& match old(self).selected_pod_spec() {
                        None => {
                            &&& *final(self) == (App {
                                service_log_path: final(self).service_log_path,
                                ..*old(self)
                            })
                            &&& r is None
                        },
                        Some(p) => {
                            &&& *final(self) == (App {
                                service_log_path: final(self).service_log_path,
                                viewer_title: final(self).viewer_title,
                                viewer_content: final(self).viewer_content,
                                viewer_scroll: 0,
                                log_streaming: true,
                                port_forward_view: false,
                                input_mode: InputMode::Viewing,
                                ..*old(self)
                            })
                            &&& final(self).viewer_title@ == "Service Logs [live]: "@ + p.name@
                            &&& final(self).viewer_content.deep_view() == seq![
                                "Tailing "@ + path + " in pod "@ + p.name@ + " …"@,
                                Seq::<char>::empty(),
                            ]
                            &&& r matches Some(Fetch::ExecTail { namespace, pod, path: tail })
                                && namespace == old(self).current_namespace && pod == p.name
                                && tail@ == path
                        },
                    }
                }
            }),
    {
        let path = crate::text::trim_str(self.path_input_buffer.as_str());
        if path.unicode_len() == 0 {
            self.input_mode = InputMode::Normal;
            return None;
        }
        self.service_log_path = path.clone();
        match self.selected_pod() {
            Some(p) => {
                let name = p.name.clone();
                self.viewer_title = concat("Service Logs [live]: ", name.as_str());
                let mut first = concat3("Tailing ", path.as_str(), " in pod ");
                first.append(name.as_str());
                first.append(" …");
                let mut content: Vec<String> = Vec::new();
                content.push(first);
                content.push(String::new());
                assert(content.deep_view() =~= seq![
                    "Tailing "@ + path@ + " in pod "@ + name@ + " …"@,
                    Seq::<char>::empty(),
                ]);
                self.viewer_content = content;
                self.viewer_scroll = 0;
                self.log_streaming = true;
                self.port_forward_view = false;
                self.input_mode = InputMode::Viewing;
                Some(
                    Fetch::ExecTail {
                        namespace: self.current_namespace.clone(),
                        pod: name,
                        path,
                    },
                )
            },
            None => None,
        }
    }

    /// What `d` shows for the tab on screen: the viewer title and the fetch
    /// of its contents. On the secrets tab it is the decoded view, as Enter.
    pub fn describe_selected(&self) -> (r: Option<(String, Fetch)>)
        requires
            self.wf(),
        ensures
            match self.current_tab() {
                Tab::Pods => match self.selected_pod_spec() {
                    Some(p) => r matches Some((title, f)) && title@ == "Describe Pod: "@ + p.name@
                        && f == (Fetch::DescribePod {
                        namespace: self.current_namespace,
                        name: p.name,
                    }),
                    None => r is None,
                },
                Tab::Deployments => match self.selected_deployment_spec() {
                    Some(d) => r matches Some((title, f)) && title@ == "Describe Deployment: "@
                        + d.name@ && f == (Fetch::DescribeDeployment {
                        namespace: self.current_namespace,
                        name: d.name,
                    }),
                    None => r is None,
                },
                Tab::Services => match self.selected_service_spec() {
                    Some(v) => r matches Some((title, f)) && title@ == "YAML: "@ + v.name@
                        && (f matches Fetch::ResourceYaml { kind, name, namespace } && kind@
                        == "service"@ && name == v.name && namespace == self.current_namespace),
                    None => r is None,
                },
                Tab::Ingresses => match self.selected_ingress_spec() {
                    Some(g) => r matches Some((title, f)) && title@ == "Ingress: "@ + g.name@
                        && f == (Fetch::DescribeIngress {
                        namespace: self.current_namespace,
                        name: g.name,
                    }),
                    None => r is None,
                },
                Tab::Secrets => match self.selected_secret_spec() {
                    Some(x) => r matches Some((title, f)) && title@ == "Secret (decoded): "@
                        + x.name@ && f == (Fetch::SecretData {
                        namespace: self.current_namespace,
                        name: x.name,
                    }),
                    None => r is None,
                },
                Tab::Events => r is None,
            },
    {
        let ns = self.current_namespace.clone();
        match Tab::at(self.active_tab) {
            Tab::Pods => match self.selected_pod() {
                Some(p) => Some(
                    (
                        concat("Describe Pod: ", p.name.as_str()),
                        Fetch::DescribePod { namespace: ns, name: p.name.clone() },
                    ),
                ),
                None => None,
            },
            Tab::Deployments => match self.selected_deployment() {
                Some(d) => Some(
                    (
                        concat("Describe Deployment: ", d.name.as_str()),
                        Fetch::DescribeDeployment { namespace: ns, name: d.name.clone() },
                    ),
                ),
                None => None,
            },
            Tab::Services => match self.selected_service() {
                Some(v) => Some(
                    (
                        concat("YAML: ", v.name.as_str()),
                        Fetch::ResourceYaml {
                            kind: owned("service"),
                            name: v.name.clone(),
                            namespace: ns,
                        },
                    ),
                ),
                None => None,
            },
            Tab::Ingresses => match self.selected_ingress() {
                Some(g) => Some(
                    (
                        concat("Ingress: ", g.name.as_str()),
                        Fetch::DescribeIngress { namespace: ns, name: g.name.clone() },
                    ),
                ),
                None => None,
            },
            Tab::Secrets => self.view_secret_decoded(),
            Tab::Events => None,
        }
    }

    /// What `y` shows for the tab on screen: the raw YAML of the selected
    /// resource (for secrets, their stored base64 form).
    pub fn view_yaml(&self) -> (r: Option<(String, Fetch)>)
        requires
            self.wf(),
        ensures
            match self.current_tab() {
                Tab::Secrets => match self.selected_secret_spec() {
                    Some(x) => r matches Some((title, f)) && title@ == "YAML (raw): "@ + x.name@
                        && (f matches Fetch::ResourceYaml { kind, name, namespace } && kind@
                        == "secret"@ && name == x.name && namespace == self.current_namespace),
                    None => r is None,
                },
                Tab::Events => r is None,
                t => {
                    let name = selected_name(*self, t);
                    if name.len() == 0 {
                        r is None
                    } else {
                        r matches Some((title, f)) && title@ == "YAML: "@ + yaml_kind(t) + seq!['/']
                            + name && (f matches Fetch::ResourceYaml { kind, name: n, namespace }
                            && kind@ == yaml_kind(t) && n@ == name && namespace
                            == self.current_namespace)
                    }
                },
            },
    {
        let (kind, name) = match Tab::at(self.active_tab) {
            Tab::Pods => (
                owned("pod"),
                match self.selected_pod() {
                    Some(p) => p.name.clone(),
                    None => String::new(),
                },
            ),
            Tab::Services => (
                owned("service"),
                match self.selected_service() {
                    Some(v) => v.name.clone(),
                    None => String::new(),
                },
            ),
            Tab::Deployments => (
                owned("deployment"),
                match self.selected_deployment() {
                    Some(d) => d.name.clone(),
                    None => String::new(),
                },
            ),
            Tab::Ingresses => (
                owned("ingress"),
                match self.selected_ingress() {
                    Some(g) => g.name.clone(),
                    None => String::new(),
                },
            ),
            Tab::Secrets => {
                return match self.selected_secret() {
                    Some(x) => Some(
                        (
                            concat("YAML (raw): ", x.name.as_str()),
                            Fetch::ResourceYaml {
                                kind: owned("secret"),
                                name: x.name.clone(),
                                namespace: self.current_namespace.clone(),
                            },
                        ),
                    ),
                    None => None,
                };
            },
            Tab::Events => {
                return None;
            },
        };
        if name.unicode_len() == 0 {
            return None;
        }
        let mut title = concat3("YAML: ", kind.as_str(), "/");
        title.append(name.as_str());
        proof {
            assert("/"@ == seq!['/']) by {
                reveal_strlit("/");
            }
        }
        Some(
            (
                title,
                Fetch::ResourceYaml { kind, name, namespace: self.current_namespace.clone() },
            ),
        )
    }

    /// What Enter shows on the secrets tab: the decoded data of the selected secret.
    pub fn view_secret_decoded(&self) -> (r: Option<(String, Fetch)>)
        ensures
            match self.selected_secret_spec() {
                Some(x) => r matches Some((title, f)) && title@ == "Secret (decoded): "@ + x.name@
                    && f == (Fetch::SecretData { namespace: self.current_namespace, name: x.name }),
                None => r is None,
            },
    {
        match self.selected_secret() {
            Some(x) => Some(
                (
                    concat("Secret (decoded): ", x.name.as_str()),
                    Fetch::SecretData {
                        namespace: self.current_namespace.clone(),
                        name: x.name.clone(),
                    },
                ),
            ),
            None => None,
        }
    }

    /// What `H` shows: the Helm releases of the current namespace.
    pub fn view_helm_list(&self) -> (r: (String, Fetch))
        ensures
            r.0@ == "Helm releases: "@ + self.current_namespace@,
            r.1 == (Fetch::HelmList { namespace: self.current_namespace }),
    {
        (
            concat("Helm releases: ", self.current_namespace.as_str()),
            Fetch::HelmList { namespace: self.current_namespace.clone() },
        )
    }

    /// Opens the viewer on fetched lines, from the top; a failed fetch shows its error.
    pub fn open_viewer(&mut self, title: String, content: Result<Vec<String>, String>)
        ensures
            *final(self) == (App {
                viewer_title: title,
                viewer_content: final(self).viewer_content,
                viewer_scroll: 0,
                log_streaming: false,
                port_forward_view: false,
                input_mode: InputMode::Viewing,
                ..*old(self)
            }),
            final(self).viewer_content.deep_view() == result_lines(content),
    {
        self.viewer_title = title;
        self.viewer_content = lines_or_error(content);
        self.viewer_scroll = 0;
        self.log_streaming = false;
        self.port_forward_view = false;
        self.input_mode = InputMode::Viewing;
    }

    /// Moves to the next theme and says so.
    pub fn cycle_theme(&mut self)
        ensures
            *final(self) == (App {
                theme: variant_at((variant_index(old(self).theme) + 1) % 4),
                status_message: final(self).status_message,
                ..*old(self)
            }),
            final(self).status_message@ == "Theme: "@ + theme_name(final(self).theme),
    {
        self.theme = self.theme.next();
        self.status_message = concat("Theme: ", self.theme.name());
    }

    pub fn close_viewer(&mut self)
        ensures
            *final(self) == (App {
                input_mode: InputMode::Normal,
                viewer_content: final(self).viewer_content,
                log_streaming: false,
                port_forward_view: false,
                ..*old(self)
            }),
            final(self).viewer_content@.len() == 0,
    {
        self.input_mode = InputMode::Normal;
        self.viewer_content = Vec::new();
        self.log_streaming = false;
        self.port_forward_view = false;
    }

    pub fn scroll_viewer_down(&mut self)
        ensures
            *final(self) == (App {
                viewer_scroll: step_down(
                    old(self).viewer_scroll,
                    old(self).viewer_content@.len() as int,
                ),
                ..*old(self)
            }),
    {
        self.viewer_scroll = next_index(self.viewer_scroll, self.viewer_content.len());
    }

    pub fn scroll_viewer_up(&mut self)
        ensures
            *final(self) == (App { viewer_scroll: step_up(old(self).viewer_scroll), ..*old(self) }),
    {
        self.viewer_scroll = prev_index(self.viewer_scroll);
    }

    pub fn scroll_viewer_bottom(&mut self)
        ensures
            *final(self) == (App {
                viewer_scroll: last_index(old(self).viewer_content@.len() as int),
                ..*old(self)
            }),
    {
        self.viewer_scroll = if self.viewer_content.len() == 0 {
            0
        } else {
            self.viewer_content.len() - 1
        };
    }

    pub fn scroll_viewer_top(&mut self)
        ensures
            *final(self) == (App { viewer_scroll: 0, ..*old(self) }),
    {
        self.viewer_scroll = 0;
    }

    // ---------------------------------------------------------------- deployments

    /// Asks for a replica count for the selected deployment, pre-filled with
    /// its current one.
    pub fn prompt_scale(&mut self)
        ensures
            match old(self).selected_deployment_spec() {
                None => *final(self) == *old(self),
                Some(d) => {
                    &&& *final(self) == (App {
                        scale_deploy_name: d.name,
                        scale_current_replicas: d.replicas,
                        scale_input_buffer: final(self).scale_input_buffer,
                        input_mode: InputMode::ScaleInput,
                        ..*old(self)
                    })
                    &&& final(self).scale_input_buffer@ == crate::text::signed_decimal(
                        d.replicas as int,
                    )
                },
            },
    {
        if self.deploy_selected < self.deployments.len() {
            let name = self.deployments[self.deploy_selected].name.clone();
            let replicas = self.deployments[self.deploy_selected].replicas;
            self.scale_deploy_name = name;
            self.scale_current_replicas = replicas;
            self.scale_input_buffer = crate::text::i64_decimal(replicas as i64);
            self.input_mode = InputMode::ScaleInput;
        }
    }

    /// Takes the typed replica count: an unreadable one is reported; otherwise
    /// the scale of the deployment is asked for.
    pub fn confirm_scale(&mut self) -> (r: Option<Fetch>)
        ensures
            match crate::parse::spec_parse_i32(crate::text::trim(old(self).scale_input_buffer@)) {
                None => {
                    &&& *final(self) == (App {
                        status_message: final(self).status_message,
                        input_mode: InputMode::Normal,
                        ..*old(self)
                    })
                    &&& final(self).status_message@ == "Invalid replica count"@
                    &&& r is None
                },
                Some(n) => {
                    &&& *final(self) == (App {
                        status_message: final(self).status_message,
                        input_mode: InputMode::Normal,
                        ..*old(self)
                    })
                    &&& final(self).status_message@ == "Scaling "@ + old(self).scale_deploy_name@
                        + " to "@ + crate::text::signed_decimal(n as int) + "…"@
                    &&& r == Some(
                        Fetch::Scale {
                            namespace: old(self).current_namespace,
                            name: old(self).scale_deploy_name,
                            replicas: n,
                        },
                    )
                },
            },
    {
        let t = crate::text::trim_str(self.scale_input_buffer.as_str());
        match crate::parse::parse_i32(t.as_str()) {
            None => {
                self.status_message = owned("Invalid replica count");
                self.input_mode = InputMode::Normal;
                None
            },
            Some(n) => {
                let name = self.scale_deploy_name.clone();
                let ns = self.current_namespace.clone();
                self.input_mode = InputMode::Normal;
                let mut m = concat3("Scaling ", name.as_str(), " to ");
                let d = crate::text::i64_decimal(n as i64);
                m.append(d.as_str());
                m.append("…");
                self.status_message = m;
                Some(Fetch::Scale { namespace: ns, name, replicas: n })
            },
        }
    }

    /// Reports how a scale went; a successful one refreshes the deployments,
    /// and the refresh's status replaces the report.
    pub fn scale_done(&mut self, result: Result<(), String>) -> (r: Option<Fetch>)
        ensures
            *final(self) == (App {
                status_message: final(self).status_message,
                loading: final(self).loading,
                ..*old(self)
            }),
            match result {
                Ok(()) => {
                    &&& final(self).status_message@ == "Refreshing…"@
                    &&& final(self).loading
                    &&& r == Some(list_fetch(Tab::Deployments, old(self).current_namespace))
                },
                Err(e) => {
                    &&& final(self).status_message@ == "Scale failed: "@ + e@
                    &&& final(self).loading == old(self).loading
                    &&& r is None
                },
            },
    {
        match result {
            Ok(()) => Some(self.schedule_deploy_refresh()),
            Err(e) => {
                self.status_message = concat("Scale failed: ", e.as_str());
                None
            },
        }
    }

    /// Asks for confirmation before a rollout restart of the selected deployment.
    pub fn request_rollout_restart(&mut self)
        ensures
            match old(self).selected_deployment_spec() {
                None => *final(self) == *old(self),
                Some(d) => *final(self) == (App {
                    confirm_action: Some(
                        ConfirmAction::RolloutRestart {
                            name: d.name,
                            namespace: old(self).current_namespace,
                        },
                    ),
                    confirm_yes: false,
                    input_mode: InputMode::Confirm,
                    ..*old(self)
                }),
            },
    {
        match self.selected_deployment() {
            Some(d) => {
                let name = d.name.clone();
                let ns = self.current_namespace.clone();
                self.confirm_action = Some(ConfirmAction::RolloutRestart { name, namespace: ns });
                self.confirm_yes = false;
                self.input_mode = InputMode::Confirm;
            },
            None => {},
        }
    }

    /// Carries out the confirmed action.
    pub fn execute_confirm(&mut self) -> (r: Option<Fetch>)
        ensures
            match old(self).confirm_action {
                None => *final(self) == *old(self) && r is None,
                Some(ConfirmAction::RolloutRestart { name, namespace }) => {
                    &&& *final(self) == (App {
                        confirm_action: None,
                        input_mode: InputMode::Normal,
                        status_message: final(self).status_message,
                        ..*old(self)
                    })
                    &&& final(self).status_message@ == "Restarting "@ + name@ + "…"@
                    &&& r == Some(Fetch::RolloutRestart { namespace, name })
                },
            },
    {
        match self.confirm_action.take() {
            Some(ConfirmAction::RolloutRestart { name, namespace }) => {
                self.input_mode = InputMode::Normal;
                self.status_message = concat3("Restarting ", name.as_str(), "…");
                Some(Fetch::RolloutRestart { namespace, name })
            },
            None => None,
        }
    }

    /// Reports how a rollout restart went; a successful one refreshes the
    /// deployments, and the refresh's status replaces the report.
    pub fn restart_done(&mut self, result: Result<(), String>) -> (r: Option<Fetch>)
        ensures
            *final(self) == (App {
                status_message: final(self).status_message,
                loading: final(self).loading,
                ..*old(self)
            }),
            match result {
                Ok(()) => {
                    &&& final(self).status_message@ == "Refreshing…"@
                    &&& final(self).loading
                    &&& r == Some(list_fetch(Tab::Deployments, old(self).current_namespace))
                },
                Err(e) => {
                    &&& final(self).status_message@ == "Restart failed: "@ + e@
                    &&& final(self).loading == old(self).loading
                    &&& r is None
                },
            },
    {
        match result {
            Ok(()) => Some(self.schedule_deploy_refresh()),
            Err(e) => {
                self.status_message = concat("Restart failed: ", e.as_str());
                None
            },
        }
    }

    pub fn cancel_confirm(&mut self)
        ensures
            *final(self) == (App {
                confirm_action: None,
                input_mode: InputMode::Normal,
                status_message: final(self).status_message,
                ..*old(self)
            }),
            final(self).status_message@ == "Cancelled."@,
    {
        self.confirm_action = None;
        self.input_mode = InputMode::Normal;
        self.status_message = owned("Cancelled.");
    }

    // ---------------------------------------------------------------- secret editing

    /// Opens the key picker for the selected secret, its keys sorted.
    pub fn open_secret_edit(&mut self)
        ensures
            match old(self).selected_secret_spec() {
                None => *final(self) == *old(self),
                Some(x) => if x.key_names@.len() == 0 {
                    &&& *final(self) == (App {
                        status_message: final(self).status_message,
                        ..*old(self)
                    })
                    &&& final(self).status_message@ == "Secret has no data keys to edit."@
                } else {
                    &&& *final(self) == (App {
                        secret_key_picker_secret: x.name,
                        secret_key_picker_list: final(self).secret_key_picker_list,
                        secret_key_picker_idx: 0,
                        input_mode: InputMode::SecretKeyPicker,
                        ..*old(self)
                    })
                    &&& crate::sort::sorted_strings(final(self).secret_key_picker_list.deep_view())
                    &&& final(self).secret_key_picker_list.deep_view().to_multiset()
                        == x.key_names.deep_view().to_multiset()
                },
            },
    {
        if self.secret_selected < self.secrets.len() {
            if self.secrets[self.secret_selected].key_names.len() == 0 {
                self.status_message = owned("Secret has no data keys to edit.");
                return;
            }
            let keys = clone_strings(&self.secrets[self.secret_selected].key_names);
            let keys = crate::sort::sort_strings(keys);
            self.secret_key_picker_secret = self.secrets[self.secret_selected].name.clone();
            self.secret_key_picker_list = keys;
            self.secret_key_picker_idx = 0;
            self.input_mode = InputMode::SecretKeyPicker;
        }
    }

    pub fn secret_key_picker_next(&mut self)
        ensures
            *final(self) == (App {
                secret_key_picker_idx: step_down(
                    old(self).secret_key_picker_idx,
                    old(self).secret_key_picker_list@.len() as int,
                ),
                ..*old(self)
            }),
    {
        self.secret_key_picker_idx = next_index(
            self.secret_key_picker_idx,
            self.secret_key_picker_list.len(),
        );
    }

    pub fn secret_key_picker_prev(&mut self)
        ensures
            *final(self) == (App {
                secret_key_picker_idx: step_up(old(self).secret_key_picker_idx),
                ..*old(self)
            }),
    {
        self.secret_key_picker_idx = prev_index(self.secret_key_picker_idx);
    }

    /// The fetch of the current value of the picked key, if a key is picked.
    pub fn secret_key_request(&self) -> (r: Option<Fetch>)
        ensures
            r == if self.secret_key_picker_idx < self.secret_key_picker_list@.len() {
                Some(
                    Fetch::SecretKeyValue {
                        namespace: self.current_namespace,
                        name: self.secret_key_picker_secret,
                        key: self.secret_key_picker_list@[self.secret_key_picker_idx as int],
                    },
                )
            } else {
                None
            },
    {
        if self.secret_key_picker_idx < self.secret_key_picker_list.len() {
            Some(
                Fetch::SecretKeyValue {
                    namespace: self.current_namespace.clone(),
                    name: self.secret_key_picker_secret.clone(),
                    key: self.secret_key_picker_list[self.secret_key_picker_idx].clone(),
                },
            )
        } else {
            None
        }
    }

    /// Opens the value editor on the picked key, pre-filled with its value.
    pub fn confirm_secret_key_selection(&mut self, key: String, current_value: String)
        ensures
            *final(self) == (App {
                secret_value_input_key: key,
                secret_value_input_buffer: current_value,
                input_mode: InputMode::SecretValueInput,
                ..*old(self)
            }),
    {
        self.secret_value_input_key = key;
        self.secret_value_input_buffer = current_value;
        self.input_mode = InputMode::SecretValueInput;
    }

    /// Takes the edited value and asks for the secret to be updated.
    pub fn confirm_secret_value_edit(&mut self) -> (r: Fetch)
        ensures
            *final(self) == (App {
                input_mode: InputMode::Normal,
                status_message: final(self).status_message,
                ..*old(self)
            }),
            final(self).status_message@ == "Updating "@ + old(self).secret_key_picker_secret@
                + seq!['/'] + old(self).secret_value_input_key@ + "…"@,
            r == (Fetch::UpdateSecretKey {
                namespace: old(self).current_namespace,
                name: old(self).secret_key_picker_secret,
                key: old(self).secret_value_input_key,
                value: old(self).secret_value_input_buffer,
            }),
    {
        let key = self.secret_value_input_key.clone();
        let value = self.secret_value_input_buffer.clone();
        let name = self.secret_key_picker_secret.clone();
        let ns = self.current_namespace.clone();
        self.input_mode = InputMode::Normal;
        let mut m = concat("Updating ", name.as_str());
        push_char(&mut m, '/');
        m.append(key.as_str());
        m.append("…");
        self.status_message = m;
        Fetch::UpdateSecretKey { namespace: ns, name, key, value }
    }

    /// Reports how a secret update went; a successful one refreshes the secrets,
    /// and the refresh's status replaces the report.
    pub fn secret_update_done(&mut self, result: Result<(), String>) -> (r: Option<Fetch>)
        ensures
            *final(self) == (App {
                status_message: final(self).status_message,
                loading: final(self).loading,
                ..*old(self)
            }),
            match result {
                Ok(()) => {
                    &&& final(self).status_message@ == "Refreshing…"@
                    &&& final(self).loading
                    &&& r == Some(list_fetch(Tab::Secrets, old(self).current_namespace))
                },
                Err(e) => {
                    &&& final(self).status_message@ == "Update failed: "@ + e@
                    &&& final(self).loading == old(self).loading
                    &&& r is None
                },
            },
    {
        match result {
            Ok(()) => Some(self.schedule_secret_refresh()),
            Err(e) => {
                self.status_message = concat("Update failed: ", e.as_str());
                None
            },
        }
    }

    // ---------------------------------------------------------------- exec

    /// Execs into the selected pod: straight away when it has at most one
    /// container, else through the container picker.
    pub fn open_exec(&mut self)
        ensures
            match old(self).selected_pod_spec() {
                None => *final(self) == *old(self),
                Some(p) => if p.containers@.len() <= 1 {
                    &&& *final(self) == (App {
                        pending_exec: final(self).pending_exec,
                        ..*old(self)
                    })
                    &&& final(self).pending_exec matches Some((pod, ns, c)) && pod == p.name && ns
                        == old(self).current_namespace && c@ == if p.containers@.len() == 1 {
                        p.containers@[0]@
                    } else {
                        Seq::<char>::empty()
                    }
                } else {
                    &&& *final(self) == (App {
                        container_picker_pod: p.name,
                        container_picker_list: final(self).container_picker_list,
                        container_picker_idx: 0,
                        input_mode: InputMode::ContainerPicker,
                        ..*old(self)
                    })
                    &&& final(self).container_picker_list.deep_view() == p.containers.deep_view()
                },
            },
    {
        if self.pod_selected >= self.filtered_pods.len() {
            return;
        }
        let ns = self.current_namespace.clone();
        let name = self.filtered_pods[self.pod_selected].name.clone();
        let n = self.filtered_pods[self.pod_selected].containers.len();
        if n <= 1 {
            let container = if n == 1 {
                self.filtered_pods[self.pod_selected].containers[0].clone()
            } else {
                String::new()
            };
            self.pending_exec = Some((name, ns, container));
        } else {
            let list = clone_strings(&self.filtered_pods[self.pod_selected].containers);
            self.container_picker_pod = name;
            self.container_picker_list = list;
            self.container_picker_idx = 0;
            self.input_mode = InputMode::ContainerPicker;
        }
    }

    pub fn container_picker_next(&mut self)
        ensures
            *final(self) == (App {
                container_picker_idx: step_down(
                    old(self).container_picker_idx,
                    old(self).container_picker_list@.len() as int,
                ),
                ..*old(self)
            }),
    {
        self.container_picker_idx = next_index(
            self.container_picker_idx,
            self.container_picker_list.len(),
        );
    }

    pub fn container_picker_prev(&mut self)
        ensures
            *final(self) == (App {
                container_picker_idx: step_up(old(self).container_picker_idx),
                ..*old(self)
            }),
    {
        self.container_picker_idx = prev_index(self.container_picker_idx);
    }

    /// Execs into the picked container (an empty name when none is picked).
    pub fn confirm_container_for_exec(&mut self)
        ensures
            *final(self) == (App {
                input_mode: InputMode::Normal,
                pending_exec: final(self).pending_exec,
                ..*old(self)
            }),
            final(self).pending_exec matches Some((pod, ns, c)) && pod
                == old(self).container_picker_pod && ns == old(self).current_namespace && c@
                == if old(self).container_picker_idx < old(self).container_picker_list@.len() {
                old(self).container_picker_list@[old(self).container_picker_idx as int]@
            } else {
                Seq::<char>::empty()
            },
    {
        let container = if self.container_picker_idx < self.container_picker_list.len() {
            self.container_picker_list[self.container_picker_idx].clone()
        } else {
            String::new()
        };
        let pod = self.container_picker_pod.clone();
        let ns = self.current_namespace.clone();
        self.input_mode = InputMode::Normal;
        self.pending_exec = Some((pod, ns, container));
    }

    // ---------------------------------------------------------------- port-forward

    pub fn prompt_port_forward(&mut self)
        ensures
            *final(self) == if old(self).selected_pod_spec() is Some {
                App { input_mode: InputMode::PortInput, ..*old(self) }
            } else {
                *old(self)
            },
    {
        if self.selected_pod().is_some() {
            self.input_mode = InputMode::PortInput;
        }
    }

    /// Takes the typed `local:remote` ports and asks for the forward to the
    /// selected pod; unreadable ports are reported.
    pub fn confirm_port_forward(&mut self) -> (r: Option<Fetch>)
        ensures
            match old(self).selected_pod_spec() {
                None => *final(self) == (App { input_mode: InputMode::Normal, ..*old(self) })
                    && r is None,
                Some(p) => {
                    &&& *final(self) == (App {
                        input_mode: InputMode::Normal,
                        status_message: final(self).status_message,
                        ..*old(self)
                    })
                    &&& match crate::parse::spec_parse_port_pair(old(self).port_input_buffer@) {
                        None => {
                            &&& final(self).status_message@ == "Invalid port '"@
                                + old(self).port_input_buffer@
                                + "' — use local:remote (e.g. 8080:8080)"@
                            &&& r is None
                        },
                        Some((l, rp)) => {
                            &&& final(self).status_message@ == "Port-forwarding "@
                                + crate::text::decimal(l as nat) + "→"@ + p.name@ + seq![':']
                                + crate::text::decimal(rp as nat) + "…"@
                            &&& r == Some(
                                Fetch::PortForward {
                                    namespace: old(self).current_namespace,
                                    pod: p.name,
                                    local_port: l,
                                    remote_port: rp,
                                },
                            )
                        },
                    }
                },
            },
    {
        if self.pod_selected >= self.filtered_pods.len() {
            self.input_mode = InputMode::Normal;
            return None;
        }
        let pod = self.filtered_pods[self.pod_selected].name.clone();
        let ns = self.current_namespace.clone();
        match crate::parse::parse_port_pair(self.port_input_buffer.as_str()) {
            None => {
                self.status_message = concat3(
                    "Invalid port '",
                    self.port_input_buffer.as_str(),
                    "' — use local:remote (e.g. 8080:8080)",
                );
                self.input_mode = InputMode::Normal;
                None
            },
            Some((l, rp)) => {
                self.input_mode = InputMode::Normal;
                let mut m = owned("Port-forwarding ");
                let a = u64_decimal(l as u64);
                m.append(a.as_str());
                m.append("→");
                m.append(pod.as_str());
                push_char(&mut m, ':');
                let b = u64_decimal(rp as u64);
                m.append(b.as_str());
                m.append("…");
                self.status_message = m;
                Some(Fetch::PortForward { namespace: ns, pod, local_port: l, remote_port: rp })
            },
        }
    }

    /// Records a forward that was started, or reports why it was not.
    pub fn port_forward_started(
        &mut self,
        pod: String,
        local_port: u16,
        remote_port: u16,
        result: Result<(), String>,
    )
        ensures
            *final(self) == (App {
                port_forwards: final(self).port_forwards,
                status_message: final(self).status_message,
                ..*old(self)
            }),
            match result {
                Ok(()) => {
                    &&& final(self).port_forwards@ == old(self).port_forwards@.push(
                        PortForward { pod, local_port, remote_port, active: true },
                    )
                    &&& final(self).status_message@ == "Port-forward active: localhost:"@
                        + crate::text::decimal(local_port as nat) + " → "@ + pod@ + seq![':']
                        + crate::text::decimal(remote_port as nat)
                },
                Err(e) => {
                    &&& final(self).port_forwards == old(self).port_forwards
                    &&& final(self).status_message@ == "Port-forward failed: "@ + e@
                },
            },
    {
        match result {
            Ok(()) => {
                let mut m = owned("Port-forward active: localhost:");
                let a = u64_decimal(local_port as u64);
                m.append(a.as_str());
                m.append(" → ");
                m.append(pod.as_str());
                push_char(&mut m, ':');
                let b = u64_decimal(remote_port as u64);
                m.append(b.as_str());
                self.port_forwards.push(PortForward { pod, local_port, remote_port, active: true });
                self.status_message = m;
            },
            Err(e) => {
                self.status_message = concat("Port-forward failed: ", e.as_str());
            },
        }
    }

    /// Records that every forward was stopped.
    pub fn cleanup_port_forwards(&mut self)
        ensures
            *final(self) == (App { port_forwards: final(self).port_forwards, ..*old(self) }),
            final(self).port_forwards@.len() == old(self).port_forwards@.len(),
            forall|i: int|
                0 <= i < final(self).port_forwards@.len() ==> #[trigger] final(self).port_forwards@[i]
                    == (PortForward { active: false, ..old(self).port_forwards@[i] }),
    {
        let mut i: usize = 0;
        while i < self.port_forwards.len()
            invariant
                *self == (App { port_forwards: self.port_forwards, ..*old(self) }),
                self.port_forwards@.len() == old(self).port_forwards@.len(),
                i <= self.port_forwards@.len(),
                forall|j: int|
                    0 <= j < i ==> #[trigger] self.port_forwards@[j] == (PortForward {
                        active: false,
                        ..old(self).port_forwards@[j]
                    }),
                forall|j: int|
                    i <= j < self.port_forwards@.len() ==> #[trigger] self.port_forwards@[j]
                        == old(self).port_forwards@[j],
            decreases self.port_forwards@.len() - i,
        {
            let pf = PortForward {
                pod: self.port_forwards[i].pod.clone(),
                local_port: self.port_forwards[i].local_port,
                remote_port: self.port_forwards[i].remote_port,
                active: false,
            };
            self.port_forwards.set(i, pf);
            i = i + 1;
        }
    }

    /// The lines listing the recorded port-forwards.
    fn port_forward_list(&self) -> (lines: Vec<String>)
        ensures
            lines.deep_view() == port_forward_lines(self.port_forwards@),
    {
        let mut lines: Vec<String> = Vec::new();
        if self.port_forwards.len() == 0 {
            lines.push(owned("No active port-forwards."));
            lines.push(String::new());
            lines.push(owned("Use 'p' on a pod to start one."));
            assert(lines.deep_view() =~= port_forward_lines(self.port_forwards@));
        } else {
            let mut header = crate::text::pad_str("LOCAL", 6);
            push_char(&mut header, ' ');
            let pod_col = crate::text::pad_str("POD", 30);
            header.append(pod_col.as_str());
            push_char(&mut header, ' ');
            header.append("STATUS");
            assert(header@ =~= port_forward_head()[0]);
            lines.push(header);
            lines.push(crate::text::repeat_str('-', 50));
            assert(lines.deep_view().subrange(0, 2) =~= port_forward_head());
            let ghost n = self.port_forwards@.len();
            let mut i: usize = 0;
            while i < self.port_forwards.len()
                invariant
                    n == self.port_forwards@.len(),
                    i <= n,
                    lines@.len() == 2 + i,
                    lines.deep_view().subrange(0, 2) == port_forward_head(),
                    forall|j: int|
                        0 <= j < i ==> (#[trigger] lines@[2 + j])@ == port_forward_line(
                            j,
                            self.port_forwards@[j],
                        ),
                decreases n - i,
            {
                let pf = &self.port_forwards[i];
                let mut l = owned("[");
                let num = u64_decimal((i as u64) + 1);
                l.append(num.as_str());
                l.append("] :");
                let lp = u64_decimal(pf.local_port as u64);
                let lp = crate::text::pad_str(lp.as_str(), 5);
                l.append(lp.as_str());
                l.append(" → ");
                l.append(pf.pod.as_str());
                push_char(&mut l, ':');
                let rp = u64_decimal(pf.remote_port as u64);
                l.append(rp.as_str());
                l.append(" (");
                l.append(if pf.active {
                    "active"
                } else {
                    "stopped"
                });
                push_char(&mut l, ')');
                assert(l@ =~= port_forward_line(i as int, self.port_forwards@[i as int]));
                let ghost before = lines.deep_view();
                lines.push(l);
                assert(lines.deep_view().subrange(0, 2) =~= before.subrange(0, 2));
                i = i + 1;
            }
            lines.push(String::new());
            lines.push(owned("Press 1–9 to stop that forward, Esc to close."));
            assert(lines.deep_view() =~= port_forward_lines(self.port_forwards@)) by {
                let want = port_forward_lines(self.port_forwards@);
                assert forall|j: int| 0 <= j < want.len() implies lines.deep_view()[j] == want[j] by {
                    if j < 2 {
                        assert(lines.deep_view()[j] == lines.deep_view().subrange(0, 2)[j]);
                    } else if j < 2 + n {
                        assert(lines@[2 + (j - 2)]@ == port_forward_line(j - 2, self.port_forwards@[j - 2]));
                    }
                }
            }
        }
        lines
    }

    /// Shows the recorded port-forwards in the viewer.
    pub fn view_port_forwards(&mut self)
        ensures
            *final(self) == (App {
                viewer_title: final(self).viewer_title,
                viewer_content: final(self).viewer_content,
                viewer_scroll: 0,
                log_streaming: false,
                port_forward_view: true,
                input_mode: InputMode::Viewing,
                ..*old(self)
            }),
            final(self).viewer_title@ == "Port Forwards"@,
            final(self).viewer_content.deep_view() == port_forward_lines(old(self).port_forwards@),
    {
        let lines = self.port_forward_list();
        self.viewer_title = owned("Port Forwards");
        self.viewer_content = lines;
        self.viewer_scroll = 0;
        self.log_streaming = false;
        self.port_forward_view = true;
        self.input_mode = InputMode::Viewing;
    }

    /// Stops the forward at `i` (counting from 0) in the port-forward list: it is
    /// marked stopped, the list is shown again, and its index is handed back so
    /// its process can be ended. An index past the list changes nothing.
    pub fn stop_port_forward(&mut self, i: usize) -> (r: Option<usize>)
        ensures
            i < old(self).port_forwards@.len() ==> {
                let pf = old(self).port_forwards@[i as int];
                let pfs = old(self).port_forwards@.update(
                    i as int,
                    PortForward { active: false, ..pf },
                );
                &&& *final(self) == (App {
                    port_forwards: final(self).port_forwards,
                    viewer_content: final(self).viewer_content,
                    status_message: final(self).status_message,
                    ..*old(self)
                })
                &&& final(self).port_forwards@ == pfs
                &&& final(self).viewer_content.deep_view() == port_forward_lines(pfs)
                &&& final(self).status_message@ == "Stopped port-forward localhost:"@
                    + crate::text::decimal(pf.local_port as nat) + " → "@ + pf.pod@ + seq![':']
                    + crate::text::decimal(pf.remote_port as nat)
                &&& r == Some(i)
            },
            i >= old(self).port_forwards@.len() ==> *final(self) == *old(self) && r is None,
    {
        if i >= self.port_forwards.len() {
            return None;
        }
        let pod = self.port_forwards[i].pod.clone();
        let local_port = self.port_forwards[i].local_port;
        let remote_port = self.port_forwards[i].remote_port;
        let mut m = owned("Stopped port-forward localhost:");
        let a = u64_decimal(local_port as u64);
        m.append(a.as_str());
        m.append(" → ");
        m.append(pod.as_str());
        push_char(&mut m, ':');
        let b = u64_decimal(remote_port as u64);
        m.append(b.as_str());
        self.port_forwards.set(i, PortForward { pod, local_port, remote_port, active: false });
        let lines = self.port_forward_list();
        self.viewer_content = lines;
        self.status_message = m;
        Some(i)
    }

    // ---------------------------------------------------------------- cluster picker

    /// Opens the cluster picker and asks for the cluster list.
    pub fn open_cluster_picker(&mut self) -> (r: Fetch)
        ensures
            *final(self) == (App {
                tsh_clusters: final(self).tsh_clusters,
                cluster_picker_index: 0,
                input_mode: InputMode::ClusterPicker,
                tsh_clusters_pending: true,
                ..*old(self)
            }),
            final(self).tsh_clusters.deep_view() == seq!["Loading…"@],
            r == Fetch::TshClusters,
    {
        let mut l: Vec<String> = Vec::new();
        l.push(owned("Loading…"));
        assert(l.deep_view() =~= seq!["Loading…"@]);
        self.tsh_clusters = l;
        self.cluster_picker_index = 0;
        self.input_mode = InputMode::ClusterPicker;
        self.tsh_clusters_pending = true;
        Fetch::TshClusters
    }

    pub fn cluster_picker_next(&mut self)
        ensures
            *final(self) == (App {
                cluster_picker_index: step_down(
                    old(self).cluster_picker_index,
                    old(self).tsh_clusters@.len() as int,
                ),
                ..*old(self)
            }),
    {
        self.cluster_picker_index = next_index(self.cluster_picker_index, self.tsh_clusters.len());
    }

    pub fn cluster_picker_prev(&mut self)
        ensures
            *final(self) == (App {
                cluster_picker_index: step_up(old(self).cluster_picker_index),
                ..*old(self)
            }),
    {
        self.cluster_picker_index = prev_index(self.cluster_picker_index);
    }

    pub fn close_cluster_picker(&mut self)
        ensures
            *final(self) == (App {
                tsh_clusters_pending: false,
                input_mode: InputMode::Normal,
                ..*old(self)
            }),
    {
        self.tsh_clusters_pending = false;
        self.input_mode = InputMode::Normal;
    }

    /// Takes the picked cluster and asks to log into it; the placeholder rows
    /// (`Loading…`, and those in parentheses) only close the picker.
    pub fn confirm_cluster_selection(&mut self) -> (r: Option<Fetch>)
        ensures
            if pickable_cluster(*old(self)) {
                let c = old(self).tsh_clusters@[old(self).cluster_picker_index as int];
                &&& *final(self) == (App {
                    status_message: final(self).status_message,
                    input_mode: InputMode::Normal,
                    tsh_clusters_pending: false,
                    ..*old(self)
                })
                &&& final(self).status_message@ == "Logging into "@ + c@ + "…"@
                &&& r == Some(Fetch::TshLogin { cluster: c })
            } else {
                &&& *final(self) == (App { input_mode: InputMode::Normal, ..*old(self) })
                &&& r is None
            },
    {
        if self.cluster_picker_index >= self.tsh_clusters.len() {
            self.input_mode = InputMode::Normal;
            return None;
        }
        let c = self.tsh_clusters[self.cluster_picker_index].clone();
        if str_starts_with(c.as_str(), "(") || str_eq(c.as_str(), "Loading…") {
            self.input_mode = InputMode::Normal;
            return None;
        }
        self.status_message = concat3("Logging into ", c.as_str(), "…");
        self.input_mode = InputMode::Normal;
        self.tsh_clusters_pending = false;
        Some(Fetch::TshLogin { cluster: c })
    }

    /// After a login attempt: on success switches to the cluster's context and
    /// namespaces, resets the selections and refreshes the tab on screen.
    pub fn cluster_login_done(
        &mut self,
        cluster: &str,
        result: Result<(Option<String>, Vec<String>), String>,
    ) -> (r: Option<Fetch>)
        requires
            old(self).wf(),
        ensures
            match result {
                Ok((ctx, nss)) => {
                    &&& *final(self) == (App {
                        current_context: final(self).current_context,
                        namespaces: nss,
                        status_message: final(self).status_message,
                        loading: true,
                        ..old(self).with_selections_reset()
                    })
                    &&& final(self).current_context@ == crate::model::opt_text(ctx, "unknown"@)
                    &&& final(self).status_message@ == "Refreshing…"@
                    &&& r == Some(list_fetch(old(self).current_tab(), old(self).current_namespace))
                },
                Err(e) => {
                    &&& *final(self) == (App {
                        status_message: final(self).status_message,
                        ..*old(self)
                    })
                    &&& final(self).status_message@ == "Login failed: "@ + e@
                    &&& r is None
                },
            },
    {
        match result {
            Ok((ctx, nss)) => {
                self.current_context = match ctx {
                    Some(c) => c,
                    None => owned("unknown"),
                };
                self.namespaces = nss;
                self.pod_selected = 0;
                self.svc_selected = 0;
                self.deploy_selected = 0;
                self.ingress_selected = 0;
                self.secret_selected = 0;
                self.event_selected = 0;
                let mut m = concat("Switched to ", cluster);
                m.append(" — loading…");
                self.status_message = m;
                Some(self.schedule_current_tab_refresh())
            },
            Err(e) => {
                self.status_message = concat("Login failed: ", e.as_str());
                None
            },
        }
    }

    /// Takes the cluster list; an empty one shows a placeholder row.
    pub fn receive_tsh_clusters(&mut self, clusters: Vec<String>)
        ensures
            *final(self) == (App {
                tsh_clusters: final(self).tsh_clusters,
                tsh_clusters_pending: false,
                ..*old(self)
            }),
            final(self).tsh_clusters.deep_view() == if clusters@.len() == 0 {
                seq!["(no clusters found)"@]
            } else {
                clusters.deep_view()
            },
    {
        self.tsh_clusters_pending = false;
        if clusters.len() == 0 {
            let mut l: Vec<String> = Vec::new();
            l.push(owned("(no clusters found)"));
            assert(l.deep_view() =~= seq!["(no clusters found)"@]);
            self.tsh_clusters = l;
        } else {
            self.tsh_clusters = clusters;
        }
    }

    // ---------------------------------------------------------------- tick

    /// Appends lines from the live log stream, scrolling to the end when any came.
    pub fn receive_log_lines(&mut self, lines: Vec<String>)
        ensures
            *final(self) == (App {
                viewer_content: final(self).viewer_content,
                viewer_scroll: if lines@.len() > 0 {
                    last_index(final(self).viewer_content@.len() as int)
                } else {
                    old(self).viewer_scroll
                },
                ..*old(self)
            }),
            final(self).viewer_content.deep_view() == old(self).viewer_content.deep_view()
                + lines.deep_view(),
    {
        let ghost before = self.viewer_content@;
        let n = lines.len();
        let mut lines = lines;
        let ghost added = lines@;
        self.viewer_content.append(&mut lines);
        assert(self.viewer_content@ == before + added);
        assert(self.viewer_content.deep_view() =~= before.map(|_i: int, s: String| s@) + added.map(
            |_i: int, s: String| s@,
        ));
        if n > 0 {
            self.viewer_scroll = if self.viewer_content.len() == 0 {
                0
            } else {
                self.viewer_content.len() - 1
            };
        }
    }

    /// The first pod list after start; a failure is shown in the status bar.
    pub fn initial_load(&mut self, result: Result<Vec<PodInfo>, String>, now: &str)
        ensures
            match result {
                Ok(pods) => {
                    &&& *final(self) == (App {
                        pods: pods,
                        filtered_pods: final(self).filtered_pods,
                        pod_selected: final(self).pod_selected,
                        status_message: final(self).status_message,
                        ..*old(self)
                    })
                    &&& final(self).filtered_pods.deep_view() == filter_pods(
                        pods.deep_view(),
                        old(self).search_query@,
                    )
                    &&& final(self).status_message@ == "Loaded at "@ + now@
                },
                Err(e) => {
                    &&& *final(self) == (App {
                        status_message: final(self).status_message,
                        ..*old(self)
                    })
                    &&& final(self).status_message@ == "Load error: "@ + e@
                },
            },
    {
        match result {
            Ok(pods) => {
                self.pods = pods;
                self.apply_filter();
                self.status_message = concat("Loaded at ", now);
            },
            Err(e) => {
                self.status_message = concat("Load error: ", e.as_str());
            },
        }
    }

    /// Takes a refreshed pod list, re-applying the search.
    pub fn receive_pods(&mut self, result: Result<Vec<PodInfo>, String>, now: &str)
        ensures
            match result {
                Ok(pods) => {
                    &&& *final(self) == (App {
                        pods: pods,
                        filtered_pods: final(self).filtered_pods,
                        pod_selected: final(self).pod_selected,
                        status_message: final(self).status_message,
                        loading: false,
                        ..*old(self)
                    })
                    &&& final(self).filtered_pods.deep_view() == filter_pods(
                        pods.deep_view(),
                        old(self).search_query@,
                    )
                    &&& final(self).pod_selected == clamped_selection(
                        old(self).pod_selected,
                        final(self).filtered_pods@.len() as int,
                    )
                    &&& final(self).status_message@ == "Refreshed at "@ + now@
                },
                Err(e) => refresh_failed(*old(self), *final(self), e),
            },
    {
        self.loading = false;
        match result {
            Ok(pods) => {
                self.pods = pods;
                self.apply_filter();
                self.status_message = concat("Refreshed at ", now);
            },
            Err(e) => {
                self.status_message = concat("Error: ", e.as_str());
            },
        }
    }

    /// Takes a refreshed service list.
    pub fn receive_services(&mut self, result: Result<Vec<ServiceInfo>, String>, now: &str)
        ensures
            match result {
                Ok(v) => {
                    &&& *final(self) == (App {
                        services: v,
                        status_message: final(self).status_message,
                        loading: false,
                        ..*old(self)
                    })
                    &&& final(self).status_message@ == "Refreshed at "@ + now@
                },
                Err(e) => refresh_failed(*old(self), *final(self), e),
            },
    {
        self.loading = false;
        match result {
            Ok(v) => {
                self.services = v;
                self.status_message = concat("Refreshed at ", now);
            },
            Err(e) => {
                self.status_message = concat("Error: ", e.as_str());
            },
        }
    }

    /// Takes a refreshed deployment list.
    pub fn receive_deployments(&mut self, result: Result<Vec<DeploymentInfo>, String>, now: &str)
        ensures
            match result {
                Ok(v) => {
                    &&& *final(self) == (App {
                        deployments: v,
                        status_message: final(self).status_message,
                        loading: false,
                        ..*old(self)
                    })
                    &&& final(self).status_message@ == "Refreshed at "@ + now@
                },
                Err(e) => refresh_failed(*old(self), *final(self), e),
            },
    {
        self.loading = false;
        match result {
            Ok(v) => {
                self.deployments = v;
                self.status_message = concat("Refreshed at ", now);
            },
            Err(e) => {
                self.status_message = concat("Error: ", e.as_str());
            },
        }
    }

    /// Takes a refreshed ingress list.
    pub fn receive_ingresses(&mut self, result: Result<Vec<IngressInfo>, String>, now: &str)
        ensures
            match result {
                Ok(v) => {
                    &&& *final(self) == (App {
                        ingresses: v,
                        status_message: final(self).status_message,
                        loading: false,
                        ..*old(self)
                    })
                    &&& final(self).status_message@ == "Refreshed at "@ + now@
                },
                Err(e) => refresh_failed(*old(self), *final(self), e),
            },
    {
        self.loading = false;
        match result {
            Ok(v) => {
                self.ingresses = v;
                self.status_message = concat("Refreshed at ", now);
            },
            Err(e) => {
                self.status_message = concat("Error: ", e.as_str());
            },
        }
    }

    /// Takes a refreshed secret list.
    pub fn receive_secrets(&mut self, result: Result<Vec<SecretInfo>, String>, now: &str)
        ensures
            match result {
                Ok(v) => {
                    &&& *final(self) == (App {
                        secrets: v,
                        status_message: final(self).status_message,
                        loading: false,
                        ..*old(self)
                    })
                    &&& final(self).status_message@ == "Refreshed at "@ + now@
                },
                Err(e) => refresh_failed(*old(self), *final(self), e),
            },
    {
        self.loading = false;
        match result {
            Ok(v) => {
                self.secrets = v;
                self.status_message = concat("Refreshed at ", now);
            },
            Err(e) => {
                self.status_message = concat("Error: ", e.as_str());
            },
        }
    }

    /// Takes a refreshed event list.
    pub fn receive_events(&mut self, result: Result<Vec<EventInfo>, String>, now: &str)
        ensures
            match result {
                Ok(v) => {
                    &&& *final(self) == (App {
                        events: v,
                        status_message: final(self).status_message,
                        loading: false,
                        ..*old(self)
                    })
                    &&& final(self).status_message@ == "Refreshed at "@ + now@
                },
                Err(e) => refresh_failed(*old(self), *final(self), e),
            },
    {
        self.loading = false;
        match result {
            Ok(v) => {
                self.events = v;
                self.status_message = concat("Refreshed at ", now);
            },
            Err(e) => {
                self.status_message = concat("Error: ", e.as_str());
            },
        }
    }

    /// Whether the periodic refresh is due: no refresh under way and the
    /// interval has passed since the last one.
    pub fn auto_refresh(&mut self, elapsed_secs: u64) -> (r: Option<Fetch>)
        requires
            old(self).wf(),
        ensures
            if !old(self).loading && elapsed_secs >= old(self).refresh_interval_secs {
                &&& *final(self) == (App {
                    loading: true,
                    status_message: final(self).status_message,
                    ..*old(self)
                })
                &&& final(self).status_message@ == "Refreshing…"@
                &&& r == Some(list_fetch(old(self).current_tab(), old(self).current_namespace))
            } else {
                *final(self) == *old(self) && r is None
            },
    {
        if !self.loading && elapsed_secs >= self.refresh_interval_secs {
            Some(self.schedule_current_tab_refresh())
        } else {
            None
        }
    }
}

/// A failed refresh: loading stops and the error is shown.
pub open spec fn refresh_failed(before: App, after: App, e: String) -> bool {
    &&& after == (App { status_message: after.status_message, loading: false, ..before })
    &&& after.status_message@ == "Error: "@ + e@
}

/// Whether the highlighted row of the cluster picker names a cluster.
pub open spec fn pickable_cluster(a: App) -> bool {
    &&& a.cluster_picker_index < a.tsh_clusters@.len()
    &&& !crate::text::starts_with(a.tsh_clusters@[a.cluster_picker_index as int]@, "("@)
    &&& a.tsh_clusters@[a.cluster_picker_index as int]@ != "Loading…"@
}

/// The header of the port-forward list.
pub open spec fn port_forward_head() -> Seq<Seq<char>> {
    seq![
        crate::text::pad_right("LOCAL"@, 6) + seq![' '] + crate::text::pad_right("POD"@, 30)
            + seq![' '] + "STATUS"@,
        crate::text::repeat_char('-', 50),
    ]
}

/// One row of the port-forward list.
pub open spec fn port_forward_line(i: int, pf: PortForward) -> Seq<char> {
    "["@ + crate::text::decimal((i + 1) as nat) + "] :"@ + crate::text::pad_right(
        crate::text::decimal(pf.local_port as nat),
        5,
    ) + " → "@ + pf.pod@ + seq![':'] + crate::text::decimal(pf.remote_port as nat) + " ("@
        + if pf.active {
        "active"@
    } else {
        "stopped"@
    } + seq![')']
}

/// The viewer lines listing the port-forwards.
pub open spec fn port_forward_lines(pfs: Seq<PortForward>) -> Seq<Seq<char>> {
    if pfs.len() == 0 {
        seq![
            "No active port-forwards."@,
            Seq::<char>::empty(),
            "Use 'p' on a pod to start one."@,
        ]
    } else {
        port_forward_head() + Seq::new(pfs.len(), |i: int| port_forward_line(i, pfs[i])) + seq![
            Seq::<char>::empty(),
            "Press 1–9 to stop that forward, Esc to close."@,
        ]
    }
}

/// The viewer lines of a fetch: its lines, or one line with its error.
pub open spec fn result_lines(r: Result<Vec<String>, String>) -> Seq<Seq<char>> {
    match r {
        Ok(v) => v.deep_view(),
        Err(e) => seq!["Error: "@ + e@],
    }
}

fn lines_or_error(r: Result<Vec<String>, String>) -> (v: Vec<String>)
    ensures
        v.deep_view() == result_lines(r),
{
    match r {
        Ok(v) => v,
        Err(e) => {
            let mut v: Vec<String> = Vec::new();
            v.push(concat("Error: ", e.as_str()));
            assert(v.deep_view() =~= seq!["Error: "@ + e@]);
            v
        },
    }
}

/// The resource kind `kubectl get` is given for a tab.
pub open spec fn yaml_kind(t: Tab) -> Seq<char> {
    match t {
        Tab::Pods => "pod"@,
        Tab::Services => "service"@,
        Tab::Deployments => "deployment"@,
        Tab::Ingresses => "ingress"@,
        Tab::Secrets => "secret"@,
        Tab::Events => "event"@,
    }
}

/// The name of the selected row of a tab, empty when nothing is selected.
pub open spec fn selected_name(a: App, t: Tab) -> Seq<char> {
    match t {
        Tab::Pods => match a.selected_pod_spec() {
            Some(p) => p.name@,
            None => Seq::empty(),
        },
        Tab::Services => match a.selected_service_spec() {
            Some(v) => v.name@,
            None => Seq::empty(),
        },
        Tab::Deployments => match a.selected_deployment_spec() {
            Some(d) => d.name@,
            None => Seq::empty(),
        },
        Tab::Ingresses => match a.selected_ingress_spec() {
            Some(g) => g.name@,
            None => Seq::empty(),
        },
        Tab::Secrets => match a.selected_secret_spec() {
            Some(x) => x.name@,
            None => Seq::empty(),
        },
        Tab::Events => Seq::empty(),
    }
}

} // verus!
