//! What the screen shows, decided apart from drawing it: labels, titles,
//! colours by meaning, and where popups and scrolled windows sit.

use vstd::prelude::*;
use crate::app::{App, InputMode, Tab, tab_title};
use crate::text::{
    concat, concat3, contains, decimal, owned, push_char, str_contains, to_chars, u64_decimal,
};

verus! {

pub open spec fn mode_label_text(m: InputMode) -> Seq<char> {
    match m {
        InputMode::Normal => "NORMAL"@,
        InputMode::Search => "SEARCH"@,
        InputMode::Viewing => "VIEW"@,
        InputMode::ClusterPicker => "TSH"@,
        InputMode::Help => "HELP"@,
        InputMode::PathInput => "PATH"@,
        InputMode::ScaleInput => "SCALE"@,
        InputMode::ContainerPicker => "CONTAINER"@,
        InputMode::PortInput => "PORT-FWD"@,
        InputMode::Confirm => "CONFIRM"@,
        InputMode::SecretKeyPicker => "SECRET-KEY"@,
        InputMode::SecretValueInput => "SECRET-EDIT"@,
    }
}

/// The name of the input mode in the status bar.
pub fn mode_label(m: InputMode) -> (r: &'static str)
    ensures
        r@ == mode_label_text(m),
{
    match m {
        InputMode::Normal => "NORMAL",
        InputMode::Search => "SEARCH",
        InputMode::Viewing => "VIEW",
        InputMode::ClusterPicker => "TSH",
        InputMode::Help => "HELP",
        InputMode::PathInput => "PATH",
        InputMode::ScaleInput => "SCALE",
        InputMode::ContainerPicker => "CONTAINER",
        InputMode::PortInput => "PORT-FWD",
        InputMode::Confirm => "CONFIRM",
        InputMode::SecretKeyPicker => "SECRET-KEY",
        InputMode::SecretValueInput => "SECRET-EDIT",
    }
}

/// The whole status bar line before it is cut to the screen width.
pub open spec fn status_line(a: App) -> Seq<char> {
    seq![' '] + mode_label_text(a.input_mode) + (if a.loading {
        " ⟳ "@
    } else {
        Seq::empty()
    }) + " │ "@ + a.current_context@ + " │ "@ + a.status_message@
        + " │  j/k:nav  /:search  l:logs  s:svc-log  d:desc  c:cluster  ?:help  q:quit"@
}

pub open spec fn take_chars(s: Seq<char>, n: int) -> Seq<char> {
    if n < s.len() {
        s.subrange(0, n)
    } else {
        s
    }
}

impl App {
    /// The status bar: mode, a loading mark, context, status and key hints,
    /// cut to `width` characters.
    pub fn status_bar_text(&self, width: usize) -> (r: String)
        ensures
            r@ == take_chars(status_line(*self), width as int),
    {
        let mut t = owned(" ");
        t.append(mode_label(self.input_mode));
        if self.loading {
            t.append(" ⟳ ");
        }
        t.append(" │ ");
        t.append(self.current_context.as_str());
        t.append(" │ ");
        t.append(self.status_message.as_str());
        t.append(" │  j/k:nav  /:search  l:logs  s:svc-log  d:desc  c:cluster  ?:help  q:quit");
        proof {
            assert(" "@ == seq![' ']) by {
                reveal_strlit(" ");
            }
        }
        assert(t@ =~= status_line(*self));
        let v = to_chars(t.as_str());
        let n = if width < v.len() {
            width
        } else {
            v.len()
        };
        let r = crate::text::string_of_range(&v, 0, n);
        assert(v@.subrange(0, v@.len() as int) =~= v@);
        r
    }

    /// The title of the pod list: position and count, and the query while searching.
    pub fn pod_list_title(&self) -> (r: String)
        requires
            self.pod_selected < usize::MAX,
        ensures
            r@ == "Pods ["@ + decimal((self.pod_selected + 1) as nat) + seq!['/'] + decimal(
                self.filtered_pods@.len(),
            ) + seq![']'] + if self.input_mode == InputMode::Search {
                " /"@ + self.search_query@
            } else {
                Seq::empty()
            },
    {
        let mut t = owned("Pods [");
        let a = u64_decimal((self.pod_selected as u64) + 1);
        t.append(a.as_str());
        push_char(&mut t, '/');
        let b = u64_decimal(self.filtered_pods.len() as u64);
        t.append(b.as_str());
        push_char(&mut t, ']');
        if self.input_mode == InputMode::Search {
            t.append(" /");
            t.append(self.search_query.as_str());
        }
        t
    }

    /// The title of the viewer: the content's title, a live mark, and the
    /// first visible line over the line count when there are lines.
    pub fn viewer_heading(&self, start: usize) -> (r: String)
        requires
            start < usize::MAX,
        ensures
            r@ == self.viewer_title@ + (if self.log_streaming {
                " ● LIVE"@
            } else {
                Seq::empty()
            }) + if self.viewer_content@.len() > 0 {
                " ["@ + decimal((start + 1) as nat) + seq!['/'] + decimal(self.viewer_content@.len())
                    + seq![']']
            } else {
                Seq::empty()
            },
    {
        let mut t = self.viewer_title.clone();
        if self.log_streaming {
            t.append(" ● LIVE");
        }
        if self.viewer_content.len() > 0 {
            t.append(" [");
            let a = u64_decimal((start as u64) + 1);
            t.append(a.as_str());
            push_char(&mut t, '/');
            let b = u64_decimal(self.viewer_content.len() as u64);
            t.append(b.as_str());
            push_char(&mut t, ']');
        }
        t
    }
}

/// The label of a tab in the tab bar: its number (from 1) and its title.
pub fn tab_label(i: usize, t: Tab) -> (r: String)
    requires
        i < usize::MAX,
    ensures
        r@ == seq![' '] + decimal((i + 1) as nat) + seq![':'] + tab_title(t) + seq![' '],
{
    let mut s = owned(" ");
    let n = u64_decimal((i as u64) + 1);
    s.append(n.as_str());
    push_char(&mut s, ':');
    s.append(t.title());
    push_char(&mut s, ' ');
    proof {
        assert(" "@ == seq![' ']) by {
            reveal_strlit(" ");
        }
    }
    s
}

/// The first line the viewer shows: the scroll position, kept so that the
/// window of `visible` lines stays filled when the content is longer.
pub open spec fn window_start(total: int, visible: int, scroll: int) -> int {
    if total > visible {
        if scroll < total - visible {
            scroll
        } else {
            total - visible
        }
    } else {
        0
    }
}

pub fn viewer_window_start(total: usize, visible: usize, scroll: usize) -> (r: usize)
    ensures
        r == window_start(total as int, visible as int, scroll as int),
{
    if total > visible {
        if scroll < total - visible {
            scroll
        } else {
            total - visible
        }
    } else {
        0
    }
}

/// A rectangle of the terminal.
#[derive(Debug, Clone, Copy, PartialEq, Eq, Structural)]
pub struct Area {
    pub x: u16,
    pub y: u16,
    pub width: u16,
    pub height: u16,
}

/// A `width` by `height` rectangle centred in `area` and cut to fit it.
pub fn centered_rect(width: u16, height: u16, area: Area) -> (r: Area)
    requires
        area.x + (if area.width > width {
            area.width - width
        } else {
            0
        }) / 2 <= u16::MAX,
        area.y + (if area.height > height {
            area.height - height
        } else {
            0
        }) / 2 <= u16::MAX,
    ensures
        r.x == area.x + (if area.width > width {
            area.width - width
        } else {
            0
        }) / 2,
        r.y == area.y + (if area.height > height {
            area.height - height
        } else {
            0
        }) / 2,
        r.width == if width < area.width {
            width
        } else {
            area.width
        },
        r.height == if height < area.height {
            height
        } else {
            area.height
        },
{
    let dx = if area.width > width {
        area.width - width
    } else {
        0
    };
    let dy = if area.height > height {
        area.height - height
    } else {
        0
    };
    Area {
        x: area.x + dx / 2,
        y: area.y + dy / 2,
        width: if width < area.width {
            width
        } else {
            area.width
        },
        height: if height < area.height {
            height
        } else {
            area.height
        },
    }
}

/// The context names a production cluster.
pub open spec fn is_prod(ctx: Seq<char>) -> bool {
    contains(ctx, "prod"@) || contains(ctx, "production"@)
}

/// Whether the context name marks a production cluster (shown in red).
pub fn is_prod_context(ctx: &str) -> (r: bool)
    ensures
        r == is_prod(ctx@),
{
    str_contains(ctx, "prod") || str_contains(ctx, "production")
}

/// How a row of the pod list is emphasised.
#[derive(Debug, Clone, Copy, PartialEq, Eq, Structural)]
pub enum RowTone {
    Selected,
    Danger,
    Warning,
    Plain,
}

/// The selected row stands out; otherwise over 20 restarts is a danger and
/// over 5 a warning.
pub fn pod_row_tone(restarts: i32, selected: bool) -> (r: RowTone)
    ensures
        r == if selected {
            RowTone::Selected
        } else if restarts > 20 {
            RowTone::Danger
        } else if restarts > 5 {
            RowTone::Warning
        } else {
            RowTone::Plain
        },
{
    if selected {
        RowTone::Selected
    } else if restarts > 20 {
        RowTone::Danger
    } else if restarts > 5 {
        RowTone::Warning
    } else {
        RowTone::Plain
    }
}

/// Whether a pod's restart count is shown as a warning: from six restarts on.
pub fn restarts_warn(restarts: i32) -> (r: bool)
    ensures
        r == (restarts > 5),
{
    restarts > 5
}

/// What `str::to_uppercase` gives for `s`.
pub uninterp spec fn unicode_uppercase(s: Seq<char>) -> Seq<char>;

/// Upper-cases a string.
/// Calls `str::to_uppercase`, which maps each character by the Unicode
/// uppercase mapping; the mapping itself is left to the name.
#[verifier::external_body]
pub(crate) fn to_uppercase(s: &str) -> (r: String)
    ensures
        r@ == unicode_uppercase(s@),
{
    s.to_uppercase()
}

/// The level a log line reports, by the words it contains.
#[derive(Debug, Clone, Copy, PartialEq, Eq, Structural)]
pub enum LogLevel {
    Error,
    Warn,
    Debug,
    Plain,
}

pub open spec fn level_of(line: Seq<char>) -> LogLevel {
    let u = unicode_uppercase(line);
    if contains(u, "ERROR"@) || contains(u, "FATAL"@) || contains(u, "CRITICAL"@) {
        LogLevel::Error
    } else if contains(u, "WARN"@) {
        LogLevel::Warn
    } else if contains(u, "DEBUG"@) || contains(u, "TRACE"@) {
        LogLevel::Debug
    } else {
        LogLevel::Plain
    }
}

/// The level of a log line, which picks its colour in the viewer.
pub fn log_level(line: &str) -> (r: LogLevel)
    ensures
        r == level_of(line@),
{
    let u = to_uppercase(line);
    let u = u.as_str();
    if str_contains(u, "ERROR") || str_contains(u, "FATAL") || str_contains(u, "CRITICAL") {
        LogLevel::Error
    } else if str_contains(u, "WARN") {
        LogLevel::Warn
    } else if str_contains(u, "DEBUG") || str_contains(u, "TRACE") {
        LogLevel::Debug
    } else {
        LogLevel::Plain
    }
}

/// The title of a table with its row count.
pub fn counted_title(prefix: &str, n: usize, suffix: &str) -> (r: String)
    ensures
        r@ == prefix@ + seq!['('] + decimal(n as nat) + seq![')'] + suffix@,
{
    let mut t = owned(prefix);
    push_char(&mut t, '(');
    let d = u64_decimal(n as u64);
    t.append(d.as_str());
    push_char(&mut t, ')');
    t.append(suffix);
    t
}


/// How wide one table column is: a share of the width the table has, or a
/// fixed number of cells.
#[derive(Debug, Clone, Copy, PartialEq, Eq, Structural)]
pub enum ColumnWidth {
    Percent(u16),
    Fixed(u16),
}

/// The cells a column takes out of `available`: a percentage rounds down, and
/// the product saturates at the largest width.
pub open spec fn column_cells(available: u16, c: ColumnWidth) -> int {
    match c {
        ColumnWidth::Percent(p) => (if available * p > u16::MAX {
            u16::MAX as int
        } else {
            available * p
        }) / 100,
        ColumnWidth::Fixed(w) => w as int,
    }
}

/// The cells the columns take together.
pub open spec fn cells_taken(available: u16, cs: Seq<ColumnWidth>) -> int
    decreases cs.len(),
{
    if cs.len() == 0 {
        0
    } else {
        cells_taken(available, cs.drop_last()) + column_cells(available, cs.last())
    }
}

proof fn lemma_cells_taken_nonneg(available: u16, cs: Seq<ColumnWidth>)
    ensures
        cells_taken(available, cs) >= 0,
    decreases cs.len(),
{
    if cs.len() > 0 {
        lemma_cells_taken_nonneg(available, cs.drop_last());
    }
}

/// The widths of a table's columns: one for each given column, then a last
/// column that takes what is left, or nothing when the others fill the table.
pub fn column_widths(available: u16, cols: &Vec<ColumnWidth>) -> (r: Vec<u16>)
    ensures
        r@.len() == cols@.len() + 1,
        forall|i: int| 0 <= i < cols@.len() ==> r@[i] == column_cells(available, #[trigger] cols@[i]),
        r@[cols@.len() as int] == if available >= cells_taken(available, cols@) {
            available - cells_taken(available, cols@)
        } else {
            0
        },
{
    let mut r: Vec<u16> = Vec::new();
    // the cells taken so far, counted up to one more than any width
    let mut taken: u32 = 0;
    let mut i: usize = 0;
    while i < cols.len()
        invariant
            i <= cols@.len(),
            r@.len() == i,
            forall|j: int| 0 <= j < i ==> r@[j] == column_cells(available, #[trigger] cols@[j]),
            taken as int == if cells_taken(available, cols@.subrange(0, i as int)) > 65536 {
                65536
            } else {
                cells_taken(available, cols@.subrange(0, i as int))
            },
        decreases cols@.len() - i,
    {
        let w: u16 = match cols[i] {
            ColumnWidth::Percent(p) => {
                assert(available * p <= 65535 * 65535) by (nonlinear_arith)
                    requires
                        available <= 65535,
                        p <= 65535,
                ;
                let product: u32 = (available as u32) * (p as u32);
                let capped: u32 = if product > 65535 {
                    65535
                } else {
                    product
                };
                (capped / 100) as u16
            },
            ColumnWidth::Fixed(w) => w,
        };
        proof {
            assert(cols@.subrange(0, i + 1).drop_last() =~= cols@.subrange(0, i as int));
            lemma_cells_taken_nonneg(available, cols@.subrange(0, i as int));
        }
        r.push(w);
        let next: u32 = taken + (w as u32);
        taken = if next > 65536 {
            65536
        } else {
            next
        };
        i = i + 1;
    }
    assert(cols@.subrange(0, cols@.len() as int) =~= cols@);
    let last: u16 = if (available as u32) >= taken {
        ((available as u32) - taken) as u16
    } else {
        0
    };
    r.push(last);
    r
}

} // verus!
