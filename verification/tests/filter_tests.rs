use packetmon::filter::{parse_filters, should_display, FilterKind, FilterRule};

fn rule(pattern: &str, kind: FilterKind) -> FilterRule {
    FilterRule::new(pattern, kind)
}

#[test]
fn empty_rules_display_everything() {
    let rules: Vec<FilterRule> = Vec::new();
    assert!(should_display("", &rules));
    assert!(should_display("anything at all", &rules));
    assert!(should_display("[0] IPv4 TCP | SRC: 1.2.3.4:80", &rules));
}

#[test]
fn single_exclude_drops_matches_case_insensitively() {
    let rules = vec![rule("udp", FilterKind::Exclude)];
    assert!(!should_display("[1] IPv4 UDP | SRC: 1.2.3.4:53", &rules));
    assert!(!should_display("plain udp text", &rules));
    assert!(!should_display("xUdPy", &rules));
    assert!(should_display("[1] IPv4 TCP | SRC: 1.2.3.4:80", &rules));
    assert!(should_display("", &rules));
}

#[test]
fn include_and_exclude_exclude_wins() {
    let rules = vec![rule("tcp", FilterKind::Include), rule("udp", FilterKind::Exclude)];
    assert!(!should_display("has tcp and udp", &rules));
    assert!(should_display("only tcp here", &rules));
    assert!(!should_display("neither protocol", &rules));
    assert!(!should_display("only udp here", &rules));
}

#[test]
fn exclude_only_set_is_a_deny_list() {
    let rules = vec![
        rule("192.168.1.1", FilterKind::Exclude),
        rule("icmp", FilterKind::Exclude),
    ];
    assert!(should_display("[0] IPv4 TCP | SRC: 10.0.0.1:80", &rules));
    assert!(!should_display("[0] IPv4 TCP | SRC: 192.168.1.1:80", &rules));
    assert!(!should_display("an ICMP thing", &rules));
}

#[test]
fn include_only_requires_a_match() {
    let rules = vec![rule("ipv6", FilterKind::Include)];
    assert!(should_display("[0] IPv6 TCP | SRC: ...", &rules));
    assert!(!should_display("[0] IPv4 TCP | SRC: ...", &rules));
}

#[test]
fn empty_include_pattern_matches_everything() {
    let rules = vec![rule("", FilterKind::Include)];
    assert!(should_display("anything", &rules));
    assert!(should_display("", &rules));
}

#[test]
fn parse_filters_splits_and_marks_kinds() {
    let rules = parse_filters("TCP;!192.168.1.1;!UDP");
    assert_eq!(rules.len(), 3);
    assert_eq!(rules[0].pattern, "TCP");
    assert!(matches!(rules[0].kind, FilterKind::Include));
    assert_eq!(rules[1].pattern, "192.168.1.1");
    assert!(matches!(rules[1].kind, FilterKind::Exclude));
    assert_eq!(rules[2].pattern, "UDP");
    assert!(matches!(rules[2].kind, FilterKind::Exclude));
}

#[test]
fn parse_filters_empty_spec_has_no_rules() {
    assert_eq!(parse_filters("").len(), 0);
}

#[test]
fn parse_filters_skips_blank_pieces() {
    let rules = parse_filters(" ; ;; tcp ; ");
    assert_eq!(rules.len(), 1);
    assert_eq!(rules[0].pattern, "tcp");
    assert!(matches!(rules[0].kind, FilterKind::Include));
}

#[test]
fn parse_filters_trims_pieces_but_not_after_bang() {
    let rules = parse_filters("  tcp  ; ! stuff ");
    assert_eq!(rules.len(), 2);
    assert_eq!(rules[0].pattern, "tcp");
    assert!(matches!(rules[0].kind, FilterKind::Include));
    assert_eq!(rules[1].pattern, " stuff");
    assert!(matches!(rules[1].kind, FilterKind::Exclude));
}

#[test]
fn parse_filters_lone_bang_is_empty_exclude() {
    let rules = parse_filters("!");
    assert_eq!(rules.len(), 1);
    assert_eq!(rules[0].pattern, "");
    assert!(matches!(rules[0].kind, FilterKind::Exclude));
}

#[test]
fn parsed_rules_drive_the_predicate() {
    let rules = parse_filters("TCP;!192.168.1.1");
    assert!(should_display("[0] IPv4 TCP | SRC: 10.0.0.1:80", &rules));
    assert!(!should_display("[0] IPv4 TCP | SRC: 192.168.1.1:80", &rules));
    assert!(!should_display("[0] IPv4 UDP | SRC: 10.0.0.1:53", &rules));
}
