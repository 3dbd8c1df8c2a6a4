//! Properties of the application that hold across operations and inputs.

use vstd::prelude::*;
use crate::app::{
    clamped_selection, filter_pods, last_index, min_index, next_namespace_of, next_tab_index,
    position_of, prev_tab_index, step_down, step_up, tab_at, App, InputMode, Tab, TAB_COUNT,
};
use crate::fuzzy::skim_accepts;
use crate::keys::{command_for, Command, Key};
use crate::model::PodInfoView;

verus! {

/// Moving down never leaves a non-empty list: the selection ends on a row.
pub proof fn law_step_down_stays_in_list(i: usize, len: int)
    requires
        0 < len <= usize::MAX,
    ensures
        step_down(i, len) < len,
{
}

/// Moving down from the last row stays on the last row.
pub proof fn law_step_down_stops_at_last(len: int)
    requires
        0 < len <= usize::MAX,
    ensures
        step_down(last_index(len), len) == last_index(len),
{
}

/// Moving up from the top stays at the top.
pub proof fn law_step_up_stops_at_top()
    ensures
        step_up(0) == 0,
{
}

/// Inside a list, moving down then up (or up then down) returns to the same row.
pub proof fn law_step_up_down_inverse(i: usize, len: int)
    requires
        len <= usize::MAX,
    ensures
        0 < i < len ==> step_down(step_up(i), len) == i,
        i + 1 < len ==> step_up(step_down(i, len)) == i,
{
}

/// The tab moves keep the active tab one of the tabs.
pub proof fn law_tab_moves_stay_valid(a: usize)
    ensures
        next_tab_index(a) < TAB_COUNT,
        prev_tab_index(a) < TAB_COUNT || a > TAB_COUNT,
{
}

/// Moving to the next tab and back (or back and forward) returns to the same tab.
pub proof fn law_tab_next_prev_inverse(a: usize)
    requires
        a < TAB_COUNT,
    ensures
        prev_tab_index(next_tab_index(a)) == a,
        next_tab_index(prev_tab_index(a)) == a,
{
}

/// Six moves to the next tab come back to the same tab.
pub proof fn law_tab_cycle(a: usize)
    requires
        a < TAB_COUNT,
    ensures
        next_tab_index(
            next_tab_index(next_tab_index(next_tab_index(next_tab_index(next_tab_index(a))))),
        ) == a,
{
}

/// The tab index and the tab agree with the tab bar's order.
pub proof fn law_tab_order()
    ensures
        tab_at(0) == Tab::Pods,
        tab_at(1) == Tab::Services,
        tab_at(2) == Tab::Deployments,
        tab_at(3) == Tab::Ingresses,
        tab_at(4) == Tab::Secrets,
        tab_at(5) == Tab::Events,
{
}

/// The state after `k` presses of "next item".
pub open spec fn next_items(a: App, k: nat) -> App
    decreases k,
{
    if k == 0 {
        a
    } else {
        next_items(a, (k - 1) as nat).after_next_item()
    }
}

proof fn lemma_next_items(a: App, k: nat)
    requires
        k >= 1,
        0 < a.tab_len(a.current_tab()) <= usize::MAX,
    ensures
        next_items(a, k) == a.with_tab_selected(
            a.current_tab(),
            min_index(a.tab_selected(a.current_tab()) + k, a.tab_len(a.current_tab()) - 1) as usize,
        ),
    decreases k,
{
    let t = a.current_tab();
    if k > 1 {
        lemma_next_items(a, (k - 1) as nat);
    }
    let b = next_items(a, (k - 1) as nat);
    assert(b.current_tab() == t && b.tab_len(t) == a.tab_len(t)) by {
        match t {
            Tab::Pods => {},
            Tab::Services => {},
            Tab::Deployments => {},
            Tab::Ingresses => {},
            Tab::Secrets => {},
            Tab::Events => {},
        }
    }
    assert(b.after_next_item() == a.with_tab_selected(
        t,
        min_index(a.tab_selected(t) + k, a.tab_len(t) - 1) as usize,
    )) by {
        match t {
            Tab::Pods => {},
            Tab::Services => {},
            Tab::Deployments => {},
            Tab::Ingresses => {},
            Tab::Secrets => {},
            Tab::Events => {},
        }
    }
}

/// Jumping to the bottom of the tab on screen lands where pressing "next item"
/// once for each of its rows does. (A list's length fits in `usize`.)
pub proof fn law_jump_bottom_is_repeated_next(a: App)
    requires
        a.tab_len(a.current_tab()) <= usize::MAX,
    ensures
        next_items(a, a.tab_len(a.current_tab()) as nat) == a.after_jump_bottom(),
{
    if a.tab_len(a.current_tab()) > 0 {
        lemma_next_items(a, a.tab_len(a.current_tab()) as nat);
    }
}

// ---------------------------------------------------------------- namespaces

/// The next namespace is always one of the known namespaces.
pub proof fn law_next_namespace_is_listed(names: Seq<Seq<char>>, current: Seq<char>)
    requires
        names.len() > 0,
    ensures
        exists|j: int| 0 <= j < names.len() && names[j] == next_namespace_of(names, current),
{
    crate::app::lemma_position_of_bounds(names, current);
    let p = position_of(names, current);
    let i = if p < 0 {
        0
    } else {
        p
    };
    let j = (i + 1) % (names.len() as int);
    assert(names[j] == next_namespace_of(names, current));
}

/// The namespace reached by cycling `k` times from `start`.
pub open spec fn cycle_namespaces(names: Seq<Seq<char>>, start: Seq<char>, k: nat) -> Seq<char>
    decreases k,
{
    if k == 0 {
        start
    } else {
        next_namespace_of(names, cycle_namespaces(names, start, (k - 1) as nat))
    }
}

pub open spec fn distinct(names: Seq<Seq<char>>) -> bool {
    forall|a: int, b: int| 0 <= a < b < names.len() ==> names[a] != names[b]
}

/// Cycling `k` times from the `i`-th of distinct namespaces reaches the
/// `(i + k)`-th, counting round the list.
pub proof fn law_namespace_cycle_position(names: Seq<Seq<char>>, i: int, k: nat)
    requires
        distinct(names),
        0 <= i < names.len(),
    ensures
        cycle_namespaces(names, names[i], k) == names[(i + k) % (names.len() as int)],
    decreases k,
{
    let n = names.len() as int;
    if k == 0 {
        vstd::arithmetic::div_mod::lemma_small_mod(i as nat, n as nat);
    } else {
        law_namespace_cycle_position(names, i, (k - 1) as nat);
        let j = (i + k - 1) % n;
        vstd::arithmetic::div_mod::lemma_mod_bound(i + k - 1, n);
        crate::app::lemma_position_of_distinct(names, j);
        vstd::arithmetic::div_mod::lemma_add_mod_noop(i + k - 1, 1, n);
        if n > 1 {
            vstd::arithmetic::div_mod::lemma_small_mod(1, n as nat);
        } else {
            assert((i + k) % n == 0) by {
                vstd::arithmetic::div_mod::lemma_mod_self_0(1);
                vstd::arithmetic::div_mod::lemma_mod_multiples_basic(i + k, 1);
            }
        }
    }
}

/// Cycling through distinct namespaces as many times as there are namespaces
/// comes back to where it started.
pub proof fn law_namespace_cycle(names: Seq<Seq<char>>, i: int)
    requires
        distinct(names),
        0 <= i < names.len(),
    ensures
        cycle_namespaces(names, names[i], names.len()) == names[i],
{
    law_namespace_cycle_position(names, i, names.len());
    let n = names.len() as int;
    vstd::arithmetic::div_mod::lemma_add_mod_noop(i, n, n);
    vstd::arithmetic::div_mod::lemma_mod_self_0(n);
    vstd::arithmetic::div_mod::lemma_small_mod(i as nat, n as nat);
}

/// Cycling through distinct namespaces as many times as there are namespaces
/// visits each one exactly once: two different counts below the number of
/// namespaces reach different namespaces, and every namespace is reached.
pub proof fn law_namespace_cycle_visits_each_once(
    names: Seq<Seq<char>>,
    i: int,
    k1: nat,
    k2: nat,
    j: int,
)
    requires
        distinct(names),
        0 <= i < names.len(),
    ensures
        k1 < k2 < names.len() ==> cycle_namespaces(names, names[i], k1) != cycle_namespaces(
            names,
            names[i],
            k2,
        ),
        0 <= j < names.len() ==> exists|m: nat|
            m < names.len() && #[trigger] cycle_namespaces(names, names[i], m) == names[j],
{
    let n = names.len() as int;
    if k1 < k2 < n {
        law_namespace_cycle_position(names, i, k1);
        law_namespace_cycle_position(names, i, k2);
        let x = i + k1;
        let y = i + k2;
        vstd::arithmetic::div_mod::lemma_fundamental_div_mod(x, n);
        vstd::arithmetic::div_mod::lemma_fundamental_div_mod(y, n);
        vstd::arithmetic::div_mod::lemma_mod_bound(x, n);
        vstd::arithmetic::div_mod::lemma_mod_bound(y, n);
        if x % n == y % n {
            let q = y / n - x / n;
            assert(y - x == n * q) by (nonlinear_arith)
                requires
                    x == n * (x / n) + x % n,
                    y == n * (y / n) + y % n,
                    x % n == y % n,
                    q == y / n - x / n,
            ;
            assert(false) by (nonlinear_arith)
                requires
                    y - x == n * q,
                    0 < y - x < n,
                    n > 0,
            ;
        }
    }
    if 0 <= j < n {
        let m: nat = if j >= i {
            (j - i) as nat
        } else {
            (j - i + n) as nat
        };
        law_namespace_cycle_position(names, i, m);
        if j >= i {
            vstd::arithmetic::div_mod::lemma_small_mod(j as nat, n as nat);
        } else {
            vstd::arithmetic::div_mod::lemma_add_mod_noop(j, n, n);
            vstd::arithmetic::div_mod::lemma_mod_self_0(n);
            vstd::arithmetic::div_mod::lemma_small_mod(j as nat, n as nat);
        }
        assert(cycle_namespaces(names, names[i], m) == names[j]);
    }
}

// ---------------------------------------------------------------- search

/// With an empty query every pod is shown, in order.
pub proof fn law_empty_query_shows_all(pods: Seq<PodInfoView>)
    ensures
        filter_pods(pods, Seq::empty()) == pods,
    decreases pods.len(),
{
    if pods.len() > 0 {
        law_empty_query_shows_all(pods.drop_last());
        assert(skim_accepts(pods.last().name, Seq::empty()));
        assert(pods.drop_last().push(pods.last()) =~= pods);
    }
}

/// The search shows exactly the pods whose names the query matches, in their
/// original order: the shown pods are a subsequence of all pods.
pub proof fn law_search_shows_matching(pods: Seq<PodInfoView>, q: Seq<char>)
    ensures
        filter_pods(pods, q).len() <= pods.len(),
        forall|i: int|
            0 <= i < filter_pods(pods, q).len() ==> skim_accepts(
                #[trigger] filter_pods(pods, q)[i].name,
                q,
            ),
        forall|i: int|
            0 <= i < filter_pods(pods, q).len() ==> pods.contains(
                #[trigger] filter_pods(pods, q)[i],
            ),
        forall|j: int|
            0 <= j < pods.len() && skim_accepts(#[trigger] pods[j].name, q) ==> filter_pods(
                pods,
                q,
            ).contains(pods[j]),
    decreases pods.len(),
{
    if pods.len() > 0 {
        let init = pods.drop_last();
        law_search_shows_matching(init, q);
        let f0 = filter_pods(init, q);
        let f = filter_pods(pods, q);
        assert forall|i: int| 0 <= i < f.len() implies skim_accepts(#[trigger] f[i].name, q)
            && pods.contains(f[i]) by {
            if i < f0.len() {
                assert(f[i] == f0[i]);
                let j = choose|j: int| 0 <= j < init.len() && init[j] == f0[i];
                assert(pods[j] == init[j]);
            } else {
                assert(f[i] == pods.last());
                assert(pods[pods.len() - 1] == pods.last());
            }
        }
        assert forall|j: int| 0 <= j < pods.len() && skim_accepts(#[trigger] pods[j].name, q)
            implies f.contains(pods[j]) by {
            if j < pods.len() - 1 {
                assert(init[j] == pods[j]);
                let k = choose|k: int| 0 <= k < f0.len() && f0[k] == init[j];
                assert(f[k] == f0[k]);
            } else {
                assert(f[f.len() - 1] == pods.last());
            }
        }
    }
}

/// After the search is applied the selection is on a shown pod whenever
/// any pod is shown.
pub proof fn law_search_keeps_selection_on_a_row(sel: usize, len: int)
    requires
        0 < len <= usize::MAX,
    ensures
        clamped_selection(sel, len) < len,
        sel < len ==> clamped_selection(sel, len) == sel,
{
}

// ---------------------------------------------------------------- keys

/// Esc always leaves a prompt, picker, viewer or dialog, and never does nothing
/// outside normal mode.
pub proof fn law_escape_leaves_every_overlay(mode: InputMode, tab: Tab, yes: bool, shown: bool)
    requires
        mode != InputMode::Normal,
    ensures
        ({
            let c = command_for(mode, tab, yes, shown, Key::Esc);
            ||| c == Command::ExitSearch
            ||| c == Command::CloseViewer
            ||| c == Command::CloseClusterPicker
            ||| c == Command::BackToNormal
            ||| c == Command::CancelConfirm
        }),
{
}

/// In normal mode `q` and Ctrl+C quit, on every tab.
pub proof fn law_quit_keys(tab: Tab, ctrl: bool)
    ensures
        command_for(InputMode::Normal, tab, false, false, Key::Char { c: 'q', ctrl })
            == Command::Quit,
        command_for(InputMode::Normal, tab, false, false, Key::Char { c: 'c', ctrl: true })
            == Command::Quit,
{
}

/// The number keys pick the tab with that position, counting from 1.
pub proof fn law_number_keys_pick_tabs(tab: Tab)
    ensures
        command_for(InputMode::Normal, tab, false, false, Key::Char { c: '1', ctrl: false })
            == Command::SelectTab(0),
        command_for(InputMode::Normal, tab, false, false, Key::Char { c: '6', ctrl: false })
            == Command::SelectTab(5),
{
}

/// A confirmation dialog only carries out its action when YES is highlighted.
pub proof fn law_confirm_needs_yes(tab: Tab, shown: bool, k: Key)
    ensures
        command_for(InputMode::Confirm, tab, false, shown, k) != Command::ExecuteConfirm,
{
}

/// In the port-forward list the key of digit `d` (1 to 9) stops the forward
/// listed as `[d]`, and outside that list no key stops one.
pub proof fn law_digits_stop_forwards(tab: Tab, yes: bool, c: char, ctrl: bool, mode: InputMode, k: Key)
    requires
        '1' <= c <= '9',
    ensures
        command_for(InputMode::Viewing, tab, yes, true, Key::Char { c, ctrl })
            == Command::StopPortForward((c as u32 - 49) as usize),
        command_for(mode, tab, yes, false, k) !is StopPortForward,
{
}

} // verus!
