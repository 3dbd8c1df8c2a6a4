use kubeview::app::{App, InputMode, Tab};
use kubeview::screen::{
    centered_rect, column_widths, counted_title, is_prod_context, log_level, mode_label, pod_row_tone,
    tab_label, viewer_window_start, Area, ColumnWidth, LogLevel, RowTone,
};
use kubeview::theme::{Rgb, ThemeVariant};

#[test]
fn theme_names_and_cycle() {
    assert_eq!(ThemeVariant::Default.name(), "Default");
    assert_eq!(ThemeVariant::TokyoNight.name(), "Tokyo Night");
    let mut t = ThemeVariant::Nord;
    for _ in 0..4 {
        t = t.next();
    }
    assert_eq!(t, ThemeVariant::Nord);
    assert_eq!(ThemeVariant::Nord.next(), ThemeVariant::TokyoNight);
    assert_eq!(ThemeVariant::TokyoNight.next(), ThemeVariant::Default);
}

#[test]
fn theme_palettes() {
    let d = ThemeVariant::Default.colors();
    assert_eq!(d.bg, Rgb { r: 13, g: 13, b: 17 });
    assert_eq!(d.danger, Rgb { r: 230, g: 80, b: 80 });
    let dr = ThemeVariant::Dracula.colors();
    assert_eq!(dr.accent, Rgb { r: 255, g: 121, b: 198 });
    let t = ThemeVariant::TokyoNight.colors();
    assert_eq!(t.warning, t.secondary);
}

#[test]
fn status_bar_and_titles() {
    let mut a = App::new(vec![], Some("prod-eu".into()));
    a.status_message = "ok".into();
    let full = " NORMAL │ prod-eu │ ok │  j/k:nav  /:search  l:logs  s:svc-log  d:desc  c:cluster  ?:help  q:quit";
    assert_eq!(a.status_bar_text(1000), full);
    assert_eq!(a.status_bar_text(8), " NORMAL ");
    a.loading = true;
    assert!(a.status_bar_text(1000).starts_with(" NORMAL ⟳  │ prod-eu"));
    assert_eq!(a.pod_list_title(), "Pods [1/0]");
    a.input_mode = InputMode::Search;
    a.search_query = "ng".into();
    assert_eq!(a.pod_list_title(), "Pods [1/0] /ng");
    a.viewer_title = "Logs: x".into();
    a.viewer_content = vec!["a".into(), "b".into()];
    a.log_streaming = true;
    assert_eq!(a.viewer_heading(1), "Logs: x ● LIVE [2/2]");
    assert_eq!(tab_label(0, Tab::Pods), " 1:Pods ");
    assert_eq!(counted_title("Services ", 4, ""), "Services (4)");
    assert_eq!(mode_label(InputMode::PortInput), "PORT-FWD");
}

#[test]
fn prod_contexts_are_flagged() {
    assert!(is_prod_context("gke-production"));
    assert!(is_prod_context("prod"));
    assert!(!is_prod_context("staging"));
}

#[test]
fn layout_helpers() {
    assert_eq!(viewer_window_start(100, 10, 95), 90);
    assert_eq!(viewer_window_start(100, 10, 5), 5);
    assert_eq!(viewer_window_start(5, 10, 3), 0);
    let area = Area { x: 0, y: 0, width: 100, height: 40 };
    assert_eq!(centered_rect(50, 10, area), Area { x: 25, y: 15, width: 50, height: 10 });
    assert_eq!(centered_rect(200, 100, area), Area { x: 0, y: 0, width: 100, height: 40 });
}

#[test]
fn log_levels_and_tones() {
    assert_eq!(log_level("2024 error: boom"), LogLevel::Error);
    assert_eq!(log_level("Fatal"), LogLevel::Error);
    assert_eq!(log_level("warning: x"), LogLevel::Warn);
    assert_eq!(log_level("trace id"), LogLevel::Debug);
    assert_eq!(log_level("hello"), LogLevel::Plain);
    assert_eq!(pod_row_tone(30, true), RowTone::Selected);
    assert_eq!(pod_row_tone(21, false), RowTone::Danger);
    assert_eq!(pod_row_tone(6, false), RowTone::Warning);
    assert_eq!(pod_row_tone(5, false), RowTone::Plain);
}

#[test]
fn column_widths_share_the_table_width() {
    let pods = vec![
        ColumnWidth::Percent(40),
        ColumnWidth::Percent(20),
        ColumnWidth::Percent(15),
        ColumnWidth::Percent(12),
    ];
    assert_eq!(column_widths(100, &pods), vec![40, 20, 15, 12, 13]);
    assert_eq!(column_widths(78, &pods), vec![31, 15, 11, 9, 12]);
    let events = vec![
        ColumnWidth::Percent(10),
        ColumnWidth::Percent(9),
        ColumnWidth::Percent(14),
        ColumnWidth::Percent(20),
        ColumnWidth::Fixed(5),
    ];
    assert_eq!(column_widths(100, &events), vec![10, 9, 14, 20, 5, 42]);
    // fixed columns wider than the table leave nothing for the last one
    assert_eq!(column_widths(4, &vec![ColumnWidth::Fixed(6)]), vec![6, 0]);
    // a product past the largest width saturates before the division
    assert_eq!(column_widths(65535, &vec![ColumnWidth::Percent(50)]), vec![655, 64880]);
}
