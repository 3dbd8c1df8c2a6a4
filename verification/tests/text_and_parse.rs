use kubeview::parse::{parse_i32, parse_port_pair, parse_tsh_kube_ls, parse_u16};
use kubeview::text::{
    i64_decimal, pad_str, split_lines, str_contains, str_starts_with, trim_str, u64_decimal,
};

#[test]
fn trim_removes_unicode_white_space_at_both_ends() {
    assert_eq!(trim_str("  a b \t\n"), "a b");
    assert_eq!(trim_str("\u{3000}x\u{a0}"), "x");
    assert_eq!(trim_str("   "), "");
    assert_eq!(trim_str(""), "");
}

#[test]
fn lines_split_like_str_lines() {
    assert_eq!(split_lines("a\nb\r\nc"), vec!["a", "b", "c"]);
    assert_eq!(split_lines("a\n"), vec!["a"]);
    assert_eq!(split_lines("\n"), vec![""]);
    assert_eq!(split_lines(""), Vec::<String>::new());
    assert_eq!(split_lines("x\r"), vec!["x\r"]);
    for s in ["a\n\nb", "q\r\n\r\n", "no newline", "\r\n"] {
        let want: Vec<String> = s.lines().map(String::from).collect();
        assert_eq!(split_lines(s), want);
    }
}

#[test]
fn decimals_match_display() {
    for n in [0u64, 7, 10, 99, 100, 65535, u64::MAX] {
        assert_eq!(u64_decimal(n), n.to_string());
    }
    for i in [0i64, -1, -10, 42, i64::MIN, i64::MAX] {
        assert_eq!(i64_decimal(i), i.to_string());
    }
}

#[test]
fn padding_and_search() {
    assert_eq!(pad_str("ab", 5), "ab   ");
    assert_eq!(pad_str("abcdef", 3), "abcdef");
    assert!(str_contains("my-prod-cluster", "prod"));
    assert!(!str_contains("staging", "prod"));
    assert!(str_contains("x", ""));
    assert!(str_starts_with("(no clusters)", "("));
    assert!(!str_starts_with("", "("));
}

#[test]
fn parse_integers_like_std() {
    for s in ["0", "80", "+80", "65535", "65536", "-1", "", "+", "8a", " 8", "00012"] {
        assert_eq!(parse_u16(s), s.parse::<u16>().ok(), "u16 {s:?}");
    }
    for s in ["0", "-0", "-2147483648", "2147483647", "2147483648", "-2147483649", "+5", "-", "--1", "3"] {
        assert_eq!(parse_i32(s), s.parse::<i32>().ok(), "i32 {s:?}");
    }
}

#[test]
fn port_pairs() {
    assert_eq!(parse_port_pair("8080:80"), Some((8080, 80)));
    assert_eq!(parse_port_pair("  3000  "), Some((3000, 3000)));
    assert_eq!(parse_port_pair("1:2:3"), None);
    assert_eq!(parse_port_pair("abc"), None);
    assert_eq!(parse_port_pair(":80"), None);
    assert_eq!(parse_port_pair("70000:1"), None);
    assert_eq!(parse_port_pair(""), None);
}

#[test]
fn port_pair_round_trip() {
    for (l, r) in [(0u16, 0u16), (1, 65535), (8080, 8080), (443, 8443)] {
        assert_eq!(parse_port_pair(&format!("{l}:{r}")), Some((l, r)));
        assert_eq!(parse_port_pair(&format!("{l}")), Some((l, l)));
    }
}

#[test]
fn tsh_kube_ls_names() {
    let out = "Kube Cluster Name   Labels   Selected\n------------------  -------  --------\ncluster-prod                 *\n cluster-staging\n\n";
    assert_eq!(parse_tsh_kube_ls(out), vec!["cluster-prod", "cluster-staging"]);
    // the rule must begin the line: an indented rule is not recognised
    let indented = " Kube Cluster Name\n ------------------\n cluster-prod\n";
    assert_eq!(parse_tsh_kube_ls(indented), Vec::<String>::new());
    let out2 = "Kube Cluster Name Labels\n-------- ----\nalpha env=x\n   \nbeta\n";
    assert_eq!(parse_tsh_kube_ls(out2), vec!["alpha", "beta"]);
    assert_eq!(parse_tsh_kube_ls("no rule here\nfoo\n"), Vec::<String>::new());
    assert_eq!(parse_tsh_kube_ls(""), Vec::<String>::new());
}
