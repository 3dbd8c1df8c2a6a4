//! What the tables, describe views, key bindings and the port-forward list
//! show, stated against the data they are built from.

use vstd::prelude::*;
use crate::app::{port_forward_lines, InputMode, PortForward, Tab};
use crate::keys::{command_for, Command, Key};
use crate::model::{
    event_info_matches, event_sort_key, is_events_table, service_info_matches, EventInfo,
    RawEvent, RawService, ServiceInfo,
};
use crate::text::{decimal, pad_right, signed_decimal};
use crate::describe::{
    container_lines, containers_lines, describe_deployment_lines, describe_pod_lines,
};
use crate::model::{
    deployment_info_matches, ingress_info_matches, opt_text, DeploymentInfo, IngressInfo,
    RawContainer, RawDeployment, RawIngress, RawPod,
};

verus! {

// ---------------------------------------------------------------- events

/// An event's row keeps what the API said of it: the type it was given
/// ("Normal" only when it gave none), its reason and message, its count (1 when
/// none was given), and the object as kind/name.
pub proof fn law_event_row_keeps_the_event(r: EventInfo, e: RawEvent)
    requires
        event_info_matches(r, e),
    ensures
        e.type_ matches Some(t) ==> r.type_@ == t@,
        e.type_ is None ==> r.type_@ == "Normal"@,
        e.reason matches Some(x) ==> r.reason@ == x@,
        e.message matches Some(m) ==> r.message@ == m@,
        e.count matches Some(n) ==> r.count == n,
        e.count is None ==> r.count == 1,
        e.kind matches Some(k) ==> (e.object_name matches Some(n) ==> r.object@ == k@ + seq!['/']
            + n@),
{
}

/// The rows are built from the events taken in `order`, each event once, from
/// the most recently seen to the least, events seen at the same time keeping
/// the order the API gave them.
pub open spec fn rows_in_order(raw: Seq<RawEvent>, rows: Seq<EventInfo>, order: Seq<int>) -> bool {
    &&& order.len() == raw.len()
    &&& forall|j: int|
        0 <= j < rows.len() ==> 0 <= #[trigger] order[j] < raw.len() && event_info_matches(
            rows[j],
            raw[order[j]],
        )
    &&& forall|j: int, k: int|
        0 <= j < k < rows.len() ==> #[trigger] order[j] != #[trigger] order[k] && event_sort_key(
            raw[order[j]],
        ) >= event_sort_key(raw[order[k]]) && (event_sort_key(raw[order[j]]) == event_sort_key(
            raw[order[k]],
        ) ==> order[j] < order[k])
}

/// The events table has one row per event: the rows are built from the events
/// taken in some order, each event once, that order going from the most
/// recently seen to the least, events seen at the same time keeping the order
/// the API gave them; a single event gives a single row built from it.
pub proof fn law_events_table_newest_first(raw: Seq<RawEvent>, rows: Seq<EventInfo>)
    requires
        is_events_table(raw, rows),
    ensures
        rows.len() == raw.len(),
        exists|order: Seq<int>| rows_in_order(raw, rows, order),
        raw.len() == 1 ==> event_info_matches(rows[0], raw[0]),
{
    let order = choose|order: Seq<usize>|
        {
            &&& crate::sort::is_index_permutation(order, raw.len())
            &&& crate::sort::is_stable_descending(
                order,
                Seq::new(raw.len(), |i: int| event_sort_key(raw[i])),
            )
            &&& forall|j: int|
                0 <= j < rows.len() ==> event_info_matches(#[trigger] rows[j], raw[order[j] as int])
        };
    let keys = Seq::new(raw.len(), |i: int| event_sort_key(raw[i]));
    let o = Seq::new(order.len(), |j: int| order[j] as int);
    assert forall|j: int| 0 <= j < rows.len() implies 0 <= #[trigger] o[j] < raw.len()
        && event_info_matches(rows[j], raw[o[j]]) by {
        assert(order[j] < raw.len());
        assert(event_info_matches(rows[j], raw[order[j] as int]));
    }
    assert forall|j: int, k: int| 0 <= j < k < rows.len() implies #[trigger] o[j] != #[trigger] o[k]
        && event_sort_key(raw[o[j]]) >= event_sort_key(raw[o[k]]) && (event_sort_key(raw[o[j]])
        == event_sort_key(raw[o[k]]) ==> o[j] < o[k]) by {
        assert(order[j] < raw.len() && order[k] < raw.len());
        assert(order[j] != order[k]);
        assert(keys[order[j] as int] >= keys[order[k] as int]);
        assert(keys[order[j] as int] == keys[order[k] as int] ==> order[j] < order[k]);
        assert(keys[o[j]] == event_sort_key(raw[o[j]]));
        assert(keys[o[k]] == event_sort_key(raw[o[k]]));
    }
    assert(rows_in_order(raw, rows, o));
    if raw.len() == 1 {
        assert(order[0] < 1);
        assert(event_info_matches(rows[0], raw[order[0] as int]));
    }
}

// ---------------------------------------------------------------- services

/// A service's row shows the type and cluster IP it was given (ClusterIP and
/// `-` when none), and as external address the IP of its first load-balancer
/// ingress point, that point's host name only when it has no IP, and `<none>`
/// when there is neither.
pub proof fn law_service_row_shows_the_address(r: ServiceInfo, s: RawService)
    requires
        service_info_matches(r, s),
    ensures
        s.type_ matches Some(t) ==> r.type_@ == t@,
        s.type_ is None ==> r.type_@ == "ClusterIP"@,
        s.cluster_ip matches Some(c) ==> r.cluster_ip@ == c@,
        s.cluster_ip is None ==> r.cluster_ip@ == "-"@,
        s.name matches Some(n) ==> r.name@ == n@,
        s.lb_ingress matches Some(v) ==> (v@.len() > 0 ==> (v@[0].ip matches Some(x)
            ==> r.external_ip@ == x@)),
        s.lb_ingress matches Some(v) ==> ((v@.len() > 0 && v@[0].ip is None) ==> (
        v@[0].hostname matches Some(h) ==> r.external_ip@ == h@)),
        (match s.lb_ingress {
            Some(v) => v@.len() == 0 || (v@[0].ip is None && v@[0].hostname is None),
            None => true,
        }) ==> r.external_ip@ == "<none>"@,
{
}

// ---------------------------------------------------------------- deployments and ingresses

/// A deployment's row shows its replica counts as given (0 when not given):
/// "ready/desired", the up-to-date and available counts, and the image of the
/// first container of its pod template.
pub proof fn law_deployment_row_shows_the_counts(r: DeploymentInfo, d: RawDeployment)
    requires
        deployment_info_matches(r, d),
    ensures
        d.replicas matches Some(n) ==> r.replicas == n,
        d.replicas is None ==> r.replicas == 0,
        d.updated_replicas matches Some(n) ==> r.up_to_date == n,
        d.available_replicas matches Some(n) ==> r.available == n,
        d.ready_replicas matches Some(a) ==> (d.replicas matches Some(b) ==> r.ready@
            == signed_decimal(a as int) + seq!['/'] + signed_decimal(b as int)),
        d.name matches Some(n) ==> r.name@ == n@,
        d.template_containers matches Some(cs) ==> (cs@.len() > 0 ==> (cs@[0].image matches Some(
            i,
        ) ==> r.image@ == i@)),
{
}

/// An ingress with one rule shows that rule's host (or nothing when it names
/// none) and, for a rule with one path, the entry `host/path → service:port`:
/// `*` for no host, `/` for no path, `?` for a backend or port not given by
/// number. An ingress without rules shows the host `*` and no paths.
pub proof fn law_ingress_row_shows_its_rule(r: IngressInfo, g: RawIngress)
    requires
        ingress_info_matches(r, g),
    ensures
        g.rules is None ==> r.hosts@ == "*"@ && r.paths@.len() == 0,
        g.rules matches Some(rs) ==> (rs@.len() == 1 ==> r.hosts@ == opt_text(
            rs@[0].host,
            Seq::empty(),
        )),
        g.rules matches Some(rs) ==> (rs@.len() == 1 ==> (rs@[0].http matches Some(ps) ==> (
        ps@.len() == 1 ==> r.paths@ == opt_text(rs@[0].host, "*"@) + opt_text(ps@[0].path, "/"@)
            + " → "@ + match ps@[0].backend {
            Some(b) => b.name@ + seq![':'] + match b.port {
                Some(n) => signed_decimal(n as int),
                None => "?"@,
            },
            None => "?"@,
        }))),
{
    if let Some(rs) = g.rules {
        if rs@.len() == 1 {
            let hosts = crate::model::rule_hosts(rs@);
            assert(rs@.drop_last() =~= Seq::<crate::model::RawIngressRule>::empty());
            assert(crate::model::rule_hosts(rs@.drop_last()) =~= Seq::<Seq<char>>::empty());
            match rs@[0].host {
                Some(h) => {
                    assert(hosts =~= seq![h@]);
                },
                None => {
                    assert(hosts =~= Seq::<Seq<char>>::empty());
                },
            }
            let entries = crate::model::all_rule_entries(rs@);
            assert(crate::model::all_rule_entries(rs@.drop_last()) =~= Seq::<Seq<char>>::empty());
            assert(entries =~= crate::model::rule_entries(rs@[0]));
        }
    }
}

// ---------------------------------------------------------------- keys

/// In normal mode, on every tab, the keys of the key table: `j`/Down and
/// `k`/Up move by a row, `g` and `G` jump to the top and the bottom, `n` cycles
/// the namespace, `c` opens the cluster picker, `y` the YAML, `d` describes,
/// `H` lists Helm releases, `P` lists port-forwards, `T` cycles the theme, `?`
/// opens the help and Tab and Shift+Tab change tabs.
pub proof fn law_normal_keys(tab: Tab, yes: bool, shown: bool, ctrl: bool)
    ensures
        command_for(InputMode::Normal, tab, yes, shown, Key::Char { c: 'G', ctrl })
            == Command::JumpBottom,
        command_for(InputMode::Normal, tab, yes, shown, Key::Char { c: 'g', ctrl })
            == Command::JumpTop,
        command_for(InputMode::Normal, tab, yes, shown, Key::Char { c: 'j', ctrl })
            == Command::NextItem,
        command_for(InputMode::Normal, tab, yes, shown, Key::Down) == Command::NextItem,
        command_for(InputMode::Normal, tab, yes, shown, Key::Char { c: 'k', ctrl })
            == Command::PrevItem,
        command_for(InputMode::Normal, tab, yes, shown, Key::Up) == Command::PrevItem,
        command_for(InputMode::Normal, tab, yes, shown, Key::Char { c: 'n', ctrl })
            == Command::NextNamespace,
        command_for(InputMode::Normal, tab, yes, shown, Key::Char { c: 'c', ctrl: false })
            == Command::OpenClusterPicker,
        command_for(InputMode::Normal, tab, yes, shown, Key::Char { c: 'y', ctrl })
            == Command::ViewYaml,
        command_for(InputMode::Normal, tab, yes, shown, Key::Char { c: 'd', ctrl })
            == Command::Describe,
        command_for(InputMode::Normal, tab, yes, shown, Key::Char { c: 'H', ctrl })
            == Command::HelmList,
        command_for(InputMode::Normal, tab, yes, shown, Key::Char { c: 'P', ctrl })
            == Command::ViewPortForwards,
        command_for(InputMode::Normal, tab, yes, shown, Key::Char { c: 'T', ctrl })
            == Command::CycleTheme,
        command_for(InputMode::Normal, tab, yes, shown, Key::Char { c: '?', ctrl })
            == Command::ShowHelp,
        command_for(InputMode::Normal, tab, yes, shown, Key::Tab) == Command::NextTab,
        command_for(InputMode::Normal, tab, yes, shown, Key::BackTab) == Command::PrevTab,
{
}

/// The keys that belong to one tab: on Pods `l` follows logs, `s` tails a
/// file, `e` execs, `p` port-forwards and `/` searches; on Deployments `s`
/// scales and `r` restarts; on Secrets Enter shows the decoded data and `e`
/// edits; elsewhere `r` refreshes.
pub proof fn law_tab_keys(tab: Tab, yes: bool, shown: bool, ctrl: bool)
    ensures
        command_for(InputMode::Normal, Tab::Pods, yes, shown, Key::Char { c: 'l', ctrl })
            == Command::ViewLogs,
        command_for(InputMode::Normal, Tab::Pods, yes, shown, Key::Char { c: 's', ctrl })
            == Command::PromptServiceLogPath,
        command_for(InputMode::Normal, Tab::Pods, yes, shown, Key::Char { c: 'e', ctrl })
            == Command::OpenExec,
        command_for(InputMode::Normal, Tab::Pods, yes, shown, Key::Char { c: 'p', ctrl })
            == Command::PromptPortForward,
        command_for(InputMode::Normal, Tab::Pods, yes, shown, Key::Char { c: '/', ctrl })
            == Command::EnterSearch,
        command_for(InputMode::Normal, Tab::Deployments, yes, shown, Key::Char { c: 's', ctrl })
            == Command::PromptScale,
        command_for(InputMode::Normal, Tab::Deployments, yes, shown, Key::Char { c: 'r', ctrl })
            == Command::RequestRolloutRestart,
        command_for(InputMode::Normal, Tab::Secrets, yes, shown, Key::Enter)
            == Command::ViewSecretDecoded,
        command_for(InputMode::Normal, Tab::Secrets, yes, shown, Key::Char { c: 'e', ctrl })
            == Command::OpenSecretEdit,
        tab != Tab::Deployments ==> command_for(
            InputMode::Normal,
            tab,
            yes,
            shown,
            Key::Char { c: 'r', ctrl },
        ) == Command::RefreshCurrentTab,
{
}

/// In a viewer `j`/`k` scroll by a line, `g` and `G` jump to the top and the
/// bottom, and Esc or `q` close it.
pub proof fn law_viewer_keys(tab: Tab, yes: bool, shown: bool, ctrl: bool)
    ensures
        command_for(InputMode::Viewing, tab, yes, shown, Key::Char { c: 'G', ctrl })
            == Command::ScrollBottom,
        command_for(InputMode::Viewing, tab, yes, shown, Key::Char { c: 'g', ctrl })
            == Command::ScrollTop,
        command_for(InputMode::Viewing, tab, yes, shown, Key::Char { c: 'j', ctrl })
            == Command::ScrollDown,
        command_for(InputMode::Viewing, tab, yes, shown, Key::Char { c: 'k', ctrl })
            == Command::ScrollUp,
        command_for(InputMode::Viewing, tab, yes, shown, Key::Esc) == Command::CloseViewer,
        command_for(InputMode::Viewing, tab, yes, shown, Key::Char { c: 'q', ctrl })
            == Command::CloseViewer,
{
}

// ---------------------------------------------------------------- port-forward list

/// The port-forward list shows the forwards in the order they were started:
/// below its two header lines, row `i` is forward `i`, labelled `[i+1]`, with
/// its local port, pod, remote port and whether it is still active; and the
/// digit key of that label stops exactly that forward.
pub proof fn law_forward_rows_follow_the_list(
    pfs: Seq<PortForward>,
    i: int,
    tab: Tab,
    yes: bool,
    c: char,
    ctrl: bool,
)
    requires
        0 <= i < pfs.len(),
    ensures
        port_forward_lines(pfs).len() == pfs.len() + 4,
        port_forward_lines(pfs)[2 + i] == "["@ + decimal((i + 1) as nat) + "] :"@ + pad_right(
            decimal(pfs[i].local_port as nat),
            5,
        ) + " → "@ + pfs[i].pod@ + seq![':'] + decimal(pfs[i].remote_port as nat) + " ("@ + (
        if pfs[i].active {
            "active"@
        } else {
            "stopped"@
        }) + seq![')'],
        ('1' <= c <= '9' && decimal((i + 1) as nat) == seq![c]) ==> command_for(
            InputMode::Viewing,
            tab,
            yes,
            true,
            Key::Char { c, ctrl },
        ) == Command::StopPortForward(i as usize),
{
    if '1' <= c <= '9' && decimal((i + 1) as nat) == seq![c] {
        assert(i + 1 < 10) by {
            if i + 1 >= 10 {
                crate::parse::lemma_decimal_digits(((i + 1) / 10) as nat);
                assert(decimal((i + 1) as nat).len() >= 2);
            }
        }
        assert(seq![c][0] == crate::text::digit_char((i + 1) as nat));
        assert(c as u32 - 49 == i);
    }
}

// ---------------------------------------------------------------- describe

/// The number of port lines a container has.
pub open spec fn port_count(c: RawContainer) -> int {
    match c.ports {
        Some(ps) => ps@.len() as int,
        None => 0,
    }
}

/// The number of lines a titled block of entries takes: the title and one line
/// per entry, or nothing when there is no block.
pub open spec fn block_len(o: Option<Vec<(String, String)>>) -> int {
    match o {
        Some(v) => v@.len() + 1int,
        None => 0,
    }
}

/// `lines` shows container `c` from index `h` on: the header naming it, its
/// image (`-` when none), one `port/PROTO` line per port (TCP when no protocol
/// is given), then its resource requests and right after them its limits, each
/// under its title with one `name: quantity` line per entry, in order.
pub open spec fn shows_container(
    lines: Seq<Seq<char>>,
    h: int,
    head_prefix: Seq<char>,
    head_suffix: Seq<char>,
    image_label: Seq<char>,
    port_label: Seq<char>,
    c: RawContainer,
) -> bool {
    let s = h + 2 + port_count(c);
    let t = s + block_len(c.requests);
    &&& 0 <= h
    &&& t + block_len(c.limits) <= lines.len()
    &&& lines[h] == head_prefix + c.name@ + head_suffix
    &&& lines[h + 1] == image_label + opt_text(c.image, "-"@)
    &&& forall|j: int|
        0 <= j < port_count(c) ==> lines[h + 2 + j] == port_label + signed_decimal(
            (#[trigger] c.ports->0@[j]).container_port as int,
        ) + seq!['/'] + opt_text(c.ports->0@[j].protocol, "TCP"@)
    &&& match c.requests {
        Some(q) => {
            &&& lines[s] == "    Requests:"@
            &&& forall|j: int|
                0 <= j < q@.len() ==> lines[s + 1 + j] == "      "@ + (#[trigger] q@[j]).0@
                    + ": "@ + q@[j].1@
        },
        None => true,
    }
    &&& match c.limits {
        Some(l) => {
            &&& lines[t] == "    Limits:"@
            &&& forall|j: int|
                0 <= j < l@.len() ==> lines[t + 1 + j] == "      "@ + (#[trigger] l@[j]).0@
                    + ": "@ + l@[j].1@
        },
        None => true,
    }
}

proof fn lemma_container_lines_show(
    hp: Seq<char>,
    hs: Seq<char>,
    il: Seq<char>,
    pl: Seq<char>,
    c: RawContainer,
)
    ensures
        shows_container(container_lines(hp, hs, il, pl, c), 0, hp, hs, il, pl, c),
        container_lines(hp, hs, il, pl, c).len() == 2 + port_count(c) + block_len(c.requests)
            + block_len(c.limits),
{
    let lines = container_lines(hp, hs, il, pl, c);
    let np = port_count(c);
    let s = 2 + np;
    let t = s + block_len(c.requests);
    assert forall|j: int| 0 <= j < np implies lines[2 + j] == pl + signed_decimal(
        (#[trigger] c.ports->0@[j]).container_port as int,
    ) + seq!['/'] + opt_text(c.ports->0@[j].protocol, "TCP"@) by {
        assert(lines[2 + j] == crate::describe::port_lines(pl, c)[j]);
    }
    match c.requests {
        Some(q) => {
            assert(lines[s] == crate::describe::resource_lines(c)[0]);
            assert forall|j: int| 0 <= j < q@.len() implies lines[s + 1 + j] == "      "@ + (
            #[trigger] q@[j]).0@ + ": "@ + q@[j].1@ by {
                assert(lines[s + 1 + j] == crate::describe::resource_lines(c)[1 + j]);
            }
        },
        None => {},
    }
    match c.limits {
        Some(l) => {
            assert(lines[t] == crate::describe::resource_lines(c)[t - s]);
            assert forall|j: int| 0 <= j < l@.len() implies lines[t + 1 + j] == "      "@ + (
            #[trigger] l@[j]).0@ + ": "@ + l@[j].1@ by {
                assert(lines[t + 1 + j] == crate::describe::resource_lines(c)[t - s + 1 + j]);
            }
        },
        None => {},
    }
}

proof fn lemma_shows_shift(
    small: Seq<Seq<char>>,
    big: Seq<Seq<char>>,
    off: int,
    hp: Seq<char>,
    hs: Seq<char>,
    il: Seq<char>,
    pl: Seq<char>,
    c: RawContainer,
)
    requires
        shows_container(small, 0, hp, hs, il, pl, c),
        0 <= off,
        off + small.len() <= big.len(),
        forall|t: int| 0 <= t < small.len() ==> big[off + t] == #[trigger] small[t],
    ensures
        shows_container(big, off, hp, hs, il, pl, c),
{
    let s = 2 + port_count(c);
    let t = s + block_len(c.requests);
    assert(big[off] == small[0]);
    assert(big[off + 1] == small[1]);
    assert forall|j: int| 0 <= j < port_count(c) implies big[off + 2 + j] == pl + signed_decimal(
        (#[trigger] c.ports->0@[j]).container_port as int,
    ) + seq!['/'] + opt_text(c.ports->0@[j].protocol, "TCP"@) by {
        assert(big[off + (2 + j)] == small[2 + j]);
    }
    match c.requests {
        Some(q) => {
            assert(big[off + s] == small[s]);
            assert forall|j: int| 0 <= j < q@.len() implies big[off + s + 1 + j] == "      "@ + (
            #[trigger] q@[j]).0@ + ": "@ + q@[j].1@ by {
                assert(big[off + (s + 1 + j)] == small[s + 1 + j]);
            }
        },
        None => {},
    }
    match c.limits {
        Some(l) => {
            assert(big[off + t] == small[t]);
            assert forall|j: int| 0 <= j < l@.len() implies big[off + t + 1 + j] == "      "@ + (
            #[trigger] l@[j]).0@ + ": "@ + l@[j].1@ by {
                assert(big[off + (t + 1 + j)] == small[t + 1 + j]);
            }
        },
        None => {},
    }
}

/// Container `k`'s lines stand inside the lines of all containers, after those
/// of the containers before it.
proof fn lemma_container_at(
    hp: Seq<char>,
    hs: Seq<char>,
    il: Seq<char>,
    pl: Seq<char>,
    cs: Seq<RawContainer>,
    k: int,
)
    requires
        0 <= k < cs.len(),
    ensures
        ({
            let off = containers_lines(hp, hs, il, pl, cs.subrange(0, k)).len() as int;
            let one = container_lines(hp, hs, il, pl, cs[k]);
            &&& off + one.len() <= containers_lines(hp, hs, il, pl, cs).len()
            &&& forall|t: int|
                0 <= t < one.len() ==> containers_lines(hp, hs, il, pl, cs)[off + t]
                    == #[trigger] one[t]
        }),
    decreases cs.len(),
{
    let off = containers_lines(hp, hs, il, pl, cs.subrange(0, k)).len() as int;
    let one = container_lines(hp, hs, il, pl, cs[k]);
    let all = containers_lines(hp, hs, il, pl, cs);
    let front = containers_lines(hp, hs, il, pl, cs.drop_last());
    assert(all == front + container_lines(hp, hs, il, pl, cs.last()));
    if k == cs.len() - 1 {
        assert(cs.drop_last() =~= cs.subrange(0, k));
        assert forall|t: int| 0 <= t < one.len() implies all[off + t] == #[trigger] one[t] by {}
    } else {
        lemma_container_at(hp, hs, il, pl, cs.drop_last(), k);
        assert(cs.drop_last().subrange(0, k) =~= cs.subrange(0, k));
        assert(cs.drop_last()[k] == cs[k]);
        assert forall|t: int| 0 <= t < one.len() implies all[off + t] == #[trigger] one[t] by {
            assert(front[off + t] == one[t]);
        }
    }
}

/// Describing a pod shows each of its containers in full: its header, image,
/// ports, and its resource requests followed by its limits, every entry on a
/// line of its own.
pub proof fn law_describe_pod_shows_each_container(namespace: Seq<char>, p: RawPod, k: int)
    requires
        p.containers is Some,
        0 <= k < p.containers->0@.len(),
    ensures
        exists|h: int|
            shows_container(
                #[trigger] describe_pod_lines(namespace, p),
                h,
                "  "@,
                ":"@,
                "    Image:   "@,
                "    Port:    "@,
                p.containers->0@[k],
            ),
{
    let cs = p.containers->0@;
    let (hp, hs, il, pl) = ("  "@, ":"@, "    Image:   "@, "    Port:    "@);
    let lines = describe_pod_lines(namespace, p);
    let head = seq![
        "Name:         "@ + opt_text(p.name, "-"@),
        "Namespace:    "@ + namespace,
        "Node:         "@ + opt_text(p.node_name, "-"@),
        "Status:       "@ + opt_text(p.phase, "Unknown"@),
        "IP:           "@ + opt_text(p.pod_ip, "-"@),
    ] + (match p.labels {
        Some(l) => seq!["Labels:"@] + crate::describe::kv_lines("  "@, "="@, l@),
        None => Seq::empty(),
    });
    let all = containers_lines(hp, hs, il, pl, cs);
    let part = seq![Seq::<char>::empty(), "Containers:"@] + all;
    let rest = (match p.conditions {
        Some(cds) => seq![Seq::<char>::empty(), "Conditions:"@] + Seq::new(
            cds@.len(),
            |i: int| crate::describe::pod_condition_line(cds@[i]),
        ),
        None => Seq::empty(),
    }) + seq![Seq::<char>::empty(), "Events:  <use 'kubectl describe' for full events>"@];
    assert(lines =~= head + part + rest);
    let base = head.len() + 2;
    assert forall|t: int| 0 <= t < all.len() implies lines[base + t] == #[trigger] all[t] by {
        assert((head + part)[base + t] == part[2 + t]);
    }
    lemma_container_at(hp, hs, il, pl, cs, k);
    let off = containers_lines(hp, hs, il, pl, cs.subrange(0, k)).len() as int;
    let one = container_lines(hp, hs, il, pl, cs[k]);
    lemma_container_lines_show(hp, hs, il, pl, cs[k]);
    assert forall|t: int| 0 <= t < one.len() implies lines[base + off + t] == #[trigger] one[t] by {
        assert(all[off + t] == one[t]);
        assert(lines[base + (off + t)] == all[off + t]);
    }
    lemma_shows_shift(one, lines, base + off, hp, hs, il, pl, cs[k]);
}

/// Describing a deployment shows each container of its pod template in full:
/// its header, image, ports, and its resource requests followed by its limits,
/// every entry on a line of its own.
pub proof fn law_describe_deployment_shows_each_container(
    namespace: Seq<char>,
    d: RawDeployment,
    k: int,
)
    requires
        d.has_spec,
        d.template_containers is Some,
        0 <= k < d.template_containers->0@.len(),
    ensures
        exists|h: int|
            shows_container(
                #[trigger] describe_deployment_lines(namespace, d),
                h,
                "  Container: "@,
                Seq::<char>::empty(),
                "    Image: "@,
                "    Port: "@,
                d.template_containers->0@[k],
            ),
{
    let cs = d.template_containers->0@;
    let (hp, hs, il, pl) = ("  Container: "@, Seq::<char>::empty(), "    Image: "@, "    Port: "@);
    let lines = describe_deployment_lines(namespace, d);
    let head = crate::describe::deployment_head_lines(namespace, d) + crate::describe::labels_block(
        "Labels:"@,
        d.labels,
    ) + crate::describe::labels_block("Selector:"@, d.selector) + seq![
        Seq::<char>::empty(),
        "Pod Template:"@,
    ];
    let all = containers_lines(hp, hs, il, pl, cs);
    let rest = crate::describe::deployment_condition_lines(d);
    assert(lines =~= head + all + rest);
    let base = head.len() as int;
    assert forall|t: int| 0 <= t < all.len() implies lines[base + t] == #[trigger] all[t] by {
        assert((head + all)[base + t] == all[t]);
    }
    lemma_container_at(hp, hs, il, pl, cs, k);
    let off = containers_lines(hp, hs, il, pl, cs.subrange(0, k)).len() as int;
    let one = container_lines(hp, hs, il, pl, cs[k]);
    lemma_container_lines_show(hp, hs, il, pl, cs[k]);
    assert forall|t: int| 0 <= t < one.len() implies lines[base + off + t] == #[trigger] one[t] by {
        assert(all[off + t] == one[t]);
        assert(lines[base + (off + t)] == all[off + t]);
    }
    lemma_shows_shift(one, lines, base + off, hp, hs, il, pl, cs[k]);
}

} // verus!
