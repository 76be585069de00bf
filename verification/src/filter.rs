//! The include/exclude filter predicate over summary lines.
//!
//! A rule is a pattern and a kind. Matching is case-insensitive substring
//! matching (ASCII fold). An empty rule list displays everything; any
//! matching exclude rule suppresses the line unconditionally; with no
//! include rules an exclude-only list acts as a deny-list; otherwise at
//! least one include rule must match.

use vstd::prelude::*;
use vstd::string::*;
use crate::text::{lower_seq, contains_seq, chars_of, lower_vec, contains_chars};

verus! {

/// Whether a rule admits or suppresses matching lines.
#[derive(Clone, Copy, PartialEq, Eq, Structural, Debug)]
pub enum FilterKind {
    Include,
    Exclude,
}

/// One filter rule: a pattern and its kind.
#[derive(Debug)]
pub struct FilterRule {
    pub pattern: String,
    pub kind: FilterKind,
}

impl FilterRule {
    /// Build a rule from a pattern string.
    pub fn new(pattern: &str, kind: FilterKind) -> (r: FilterRule)
        ensures
            r.pattern@ == pattern@,
            r.kind == kind,
    {
        FilterRule { pattern: pattern.to_owned(), kind }
    }
}

/// The rule's pattern occurs in the already lower-cased text.
pub open spec fn rule_matches(text_lower: Seq<char>, r: FilterRule) -> bool {
    contains_seq(text_lower, lower_seq(r.pattern@))
}

/// Some exclude rule matches the lower-cased text.
pub open spec fn has_exclude_match(text_lower: Seq<char>, rules: Seq<FilterRule>) -> bool {
    exists|i: int| 0 <= i < rules.len() && rules[i].kind is Exclude && rule_matches(text_lower, rules[i])
}

/// The rule list holds at least one include rule.
pub open spec fn has_include(rules: Seq<FilterRule>) -> bool {
    exists|i: int| 0 <= i < rules.len() && rules[i].kind is Include
}

/// Some include rule matches the lower-cased text.
pub open spec fn has_include_match(text_lower: Seq<char>, rules: Seq<FilterRule>) -> bool {
    exists|i: int| 0 <= i < rules.len() && rules[i].kind is Include && rule_matches(text_lower, rules[i])
}

/// Whether a summary line passes the rule list.
pub open spec fn should_display_spec(text: Seq<char>, rules: Seq<FilterRule>) -> bool {
    if rules.len() == 0 {
        true
    } else if has_exclude_match(lower_seq(text), rules) {
        false
    } else if !has_include(rules) {
        true
    } else {
        has_include_match(lower_seq(text), rules)
    }
}

/// Decide whether a summary line passes the rule list.
pub fn should_display(text: &str, rules: &Vec<FilterRule>) -> (r: bool)
    ensures
        r == should_display_spec(text@, rules@),
{
    if rules.len() == 0 {
        return true;
    }
    let text_lower = lower_vec(&chars_of(text));
    let mut i: usize = 0;
    while i < rules.len()
        invariant
            i <= rules@.len(),
            text_lower@ == lower_seq(text@),
            forall|k: int| 0 <= k < i ==> !(rules@[k].kind is Exclude && rule_matches(text_lower@, rules@[k])),
        decreases rules@.len() - i,
    {
        let rule = &rules[i];
        if matches!(rule.kind, FilterKind::Exclude) {
            let pat_lower = lower_vec(&chars_of(rule.pattern.as_str()));
            if contains_chars(&text_lower, &pat_lower) {
                return false;
            }
        }
        i = i + 1;
    }
    proof {
        assert(!has_exclude_match(lower_seq(text@), rules@));
    }
    let mut any_include = false;
    let mut j: usize = 0;
    while j < rules.len()
        invariant
            j <= rules@.len(),
            !has_exclude_match(lower_seq(text@), rules@),
            any_include == exists|k: int| 0 <= k < j && rules@[k].kind is Include,
        decreases rules@.len() - j,
    {
        if matches!(rules[j].kind, FilterKind::Include) {
            any_include = true;
        }
        j = j + 1;
    }
    if !any_include {
        return true;
    }
    let mut m: usize = 0;
    while m < rules.len()
        invariant
            m <= rules@.len(),
            rules@.len() > 0,
            text_lower@ == lower_seq(text@),
            !has_exclude_match(lower_seq(text@), rules@),
            has_include(rules@),
            forall|k: int| 0 <= k < m ==> !(rules@[k].kind is Include && rule_matches(text_lower@, rules@[k])),
        decreases rules@.len() - m,
    {
        let rule = &rules[m];
        if matches!(rule.kind, FilterKind::Include) {
            let pat_lower = lower_vec(&chars_of(rule.pattern.as_str()));
            if contains_chars(&text_lower, &pat_lower) {
                proof {
                    assert(rules@[m as int].kind is Include && rule_matches(text_lower@, rules@[m as int]));
                    assert(has_include_match(lower_seq(text@), rules@));
                }
                return true;
            }
        }
        m = m + 1;
    }
    false
}

/// ASCII whitespace stripped by rule trimming.
pub open spec fn is_space(c: char) -> bool {
    c == ' ' || c == '\t' || c == '\n' || c == '\r'
}

/// Drop leading whitespace.
pub open spec fn trim_left(s: Seq<char>) -> Seq<char>
    decreases s.len(),
{
    if s.len() > 0 && is_space(s[0]) {
        trim_left(s.skip(1))
    } else {
        s
    }
}

/// Drop trailing whitespace.
pub open spec fn trim_right(s: Seq<char>) -> Seq<char>
    decreases s.len(),
{
    if s.len() > 0 && is_space(s[s.len() - 1]) {
        trim_right(s.take(s.len() - 1))
    } else {
        s
    }
}

/// Drop leading and trailing whitespace.
pub open spec fn trim_spec(s: Seq<char>) -> Seq<char> {
    trim_right(trim_left(s))
}

/// The rule a trimmed non-empty piece denotes: a leading `!` marks an
/// exclude rule whose pattern is the rest of the piece (not re-trimmed);
/// anything else is an include rule.
pub open spec fn rule_of(t: Seq<char>) -> (Seq<char>, FilterKind)
    recommends
        t.len() > 0,
{
    if t[0] == '!' {
        (t.skip(1), FilterKind::Exclude)
    } else {
        (t, FilterKind::Include)
    }
}

/// The rules one piece contributes: none if it trims to nothing.
pub open spec fn piece_rules(piece: Seq<char>) -> Seq<(Seq<char>, FilterKind)> {
    if trim_spec(piece).len() == 0 {
        Seq::empty()
    } else {
        seq![rule_of(trim_spec(piece))]
    }
}

/// The pieces of `s` between semicolons, scanning from position `i` with
/// the current piece starting at `p`.
pub open spec fn split_from(s: Seq<char>, p: int, i: int) -> Seq<Seq<char>>
    recommends
        0 <= p <= i <= s.len(),
    decreases s.len() - i,
{
    if i >= s.len() {
        seq![s.subrange(p, s.len() as int)]
    } else if s[i] == ';' {
        seq![s.subrange(p, i)] + split_from(s, i + 1, i + 1)
    } else {
        split_from(s, p, i + 1)
    }
}

/// The pieces of `s` between semicolons.
pub open spec fn split_semi(s: Seq<char>) -> Seq<Seq<char>> {
    split_from(s, 0, 0)
}

/// The rules of a piece list, in order.
pub open spec fn rules_of_pieces(ps: Seq<Seq<char>>) -> Seq<(Seq<char>, FilterKind)>
    decreases ps.len(),
{
    if ps.len() == 0 {
        Seq::empty()
    } else {
        piece_rules(ps[0]) + rules_of_pieces(ps.skip(1))
    }
}

/// The rule list a raw filter specification denotes: semicolon-separated
/// pieces, each trimmed, empty pieces skipped, a leading `!` marking an
/// exclude rule. An empty specification means no rules at all.
pub open spec fn parse_filters_spec(s: Seq<char>) -> Seq<(Seq<char>, FilterKind)> {
    if s.len() == 0 {
        Seq::empty()
    } else {
        rules_of_pieces(split_semi(s))
    }
}

/// The built rules agree, field for field, with the specified ones.
pub open spec fn rules_match(rs: Seq<FilterRule>, ms: Seq<(Seq<char>, FilterKind)>) -> bool {
    &&& rs.len() == ms.len()
    &&& forall|i: int| 0 <= i < rs.len() ==> rs[i].pattern@ == ms[i].0 && rs[i].kind == ms[i].1
}

fn is_space_exec(c: char) -> (r: bool)
    ensures
        r == is_space(c),
{
    c == ' ' || c == '\t' || c == '\n' || c == '\r'
}

fn push_piece_rule(spec_str: &str, piece_chars: &Vec<char>, p: usize, e: usize, rules: &mut Vec<FilterRule>)
    requires
        piece_chars@ == spec_str@,
        p <= e <= piece_chars@.len(),
    ensures
        final(rules)@.len() == old(rules)@.len() + piece_rules(
            spec_str@.subrange(p as int, e as int),
        ).len(),
        forall|i: int| 0 <= i < old(rules)@.len() ==> final(rules)@[i] == old(rules)@[i],
        piece_rules(spec_str@.subrange(p as int, e as int)).len() <= 1,
        piece_rules(spec_str@.subrange(p as int, e as int)).len() == 1 ==> {
            let m = piece_rules(spec_str@.subrange(p as int, e as int))[0];
            final(rules)@[old(rules)@.len() as int].pattern@ == m.0
                && final(rules)@[old(rules)@.len() as int].kind == m.1
        },
{
    let ghost piece = spec_str@.subrange(p as int, e as int);
    let mut a = p;
    while a < e && is_space_exec(piece_chars[a])
        invariant
            p <= a <= e <= piece_chars@.len(),
            piece_chars@ == spec_str@,
            piece == spec_str@.subrange(p as int, e as int),
            trim_left(piece) == trim_left(spec_str@.subrange(a as int, e as int)),
        decreases e - a,
    {
        proof {
            let cur = spec_str@.subrange(a as int, e as int);
            assert(cur.len() > 0 && is_space(cur[0]));
            assert(cur.skip(1) =~= spec_str@.subrange(a + 1, e as int));
        }
        a = a + 1;
    }
    proof {
        assert(trim_left(piece) == spec_str@.subrange(a as int, e as int));
    }
    let mut b = e;
    while b > a && is_space_exec(piece_chars[b - 1])
        invariant
            a <= b <= e <= piece_chars@.len(),
            piece_chars@ == spec_str@,
            trim_left(piece) == spec_str@.subrange(a as int, e as int),
            trim_right(trim_left(piece)) == trim_right(spec_str@.subrange(a as int, b as int)),
        decreases b - a,
    {
        proof {
            let cur = spec_str@.subrange(a as int, b as int);
            assert(cur.len() > 0 && is_space(cur[cur.len() - 1]));
            assert(cur.take(cur.len() - 1) =~= spec_str@.subrange(a as int, b - 1));
        }
        b = b - 1;
    }
    proof {
        assert(trim_spec(piece) == spec_str@.subrange(a as int, b as int));
    }
    if a == b {
        return;
    }
    let ghost t = trim_spec(piece);
    if piece_chars[a] == '!' {
        let rule = FilterRule::new(spec_str.substring_char(a + 1, b), FilterKind::Exclude);
        proof {
            assert(t.skip(1) =~= spec_str@.subrange(a + 1, b as int));
        }
        rules.push(rule);
    } else {
        let rule = FilterRule::new(spec_str.substring_char(a, b), FilterKind::Include);
        rules.push(rule);
    }
}

/// Parse a raw filter specification into its rule list.
pub fn parse_filters(spec_str: &str) -> (v: Vec<FilterRule>)
    ensures
        rules_match(v@, parse_filters_spec(spec_str@)),
{
    let cs = chars_of(spec_str);
    let n = cs.len();
    let mut rules: Vec<FilterRule> = Vec::new();
    if n == 0 {
        return rules;
    }
    let ghost s = spec_str@;
    let ghost mut done: Seq<(Seq<char>, FilterKind)> = Seq::empty();
    let mut p: usize = 0;
    let mut q: usize = 0;
    proof {
        assert(done + rules_of_pieces(split_from(s, 0, 0)) =~= rules_of_pieces(split_from(s, 0, 0)));
    }
    loop
        invariant
            p <= q <= n,
            n == s.len(),
            cs@ == s,
            s == spec_str@,
            s.len() > 0,
            rules_of_pieces(split_semi(s)) == done + rules_of_pieces(
                split_from(s, p as int, q as int),
            ),
            rules_match(rules@, done),
        decreases n - q,
    {
        if q == n {
            let ghost before = rules@;
            push_piece_rule(spec_str, &cs, p, q, &mut rules);
            proof {
                let piece = s.subrange(p as int, n as int);
                let pm = piece_rules(piece);
                assert(split_from(s, p as int, q as int) == seq![piece]);
                assert(seq![piece].skip(1) =~~= Seq::<Seq<char>>::empty());
                assert(rules_of_pieces(Seq::<Seq<char>>::empty()) =~= Seq::<(Seq<char>, FilterKind)>::empty());
                assert(pm + Seq::<(Seq<char>, FilterKind)>::empty() =~= pm);
                assert(rules_of_pieces(seq![piece]) =~= pm);
                assert forall|i: int| 0 <= i < rules@.len() implies rules@[i].pattern@ == (done
                    + pm)[i].0 && rules@[i].kind == (done + pm)[i].1 by {
                    if i < before.len() {
                        assert(rules@[i] == before[i]);
                    }
                }
                done = done + pm;
                assert(rules_match(rules@, done));
                assert(rules_of_pieces(split_semi(s)) =~= done);
            }
            return rules;
        }
        if cs[q] == ';' {
            let ghost before = rules@;
            push_piece_rule(spec_str, &cs, p, q, &mut rules);
            proof {
                let piece = s.subrange(p as int, q as int);
                let pm = piece_rules(piece);
                let rest = split_from(s, q + 1, q + 1);
                assert(split_from(s, p as int, q as int) == seq![piece] + rest);
                assert((seq![piece] + rest)[0] == piece);
                assert((seq![piece] + rest).skip(1) =~~= rest);
                assert(rules_of_pieces(seq![piece] + rest) == pm + rules_of_pieces(rest));
                assert(done + (pm + rules_of_pieces(rest)) =~= (done + pm) + rules_of_pieces(rest));
                assert forall|i: int| 0 <= i < rules@.len() implies rules@[i].pattern@ == (done
                    + pm)[i].0 && rules@[i].kind == (done + pm)[i].1 by {
                    if i < before.len() {
                        assert(rules@[i] == before[i]);
                    }
                }
                done = done + pm;
                assert(rules_match(rules@, done));
            }
            p = q + 1;
        }
        q = q + 1;
    }
}

/// With an empty rule list every line is displayed.
pub proof fn lemma_empty_rules_display(text: Seq<char>)
    ensures
        should_display_spec(text, Seq::<FilterRule>::empty()),
{
}

/// With a single exclude rule, a line is displayed exactly when the rule's
/// pattern does not occur in it (case-insensitively): an exclude-only list
/// is a deny-list over an otherwise open stream.
pub proof fn lemma_single_exclude(text: Seq<char>, rules: Seq<FilterRule>)
    requires
        rules.len() == 1,
        rules[0].kind is Exclude,
    ensures
        should_display_spec(text, rules) == !contains_seq(lower_seq(text), lower_seq(rules[0].pattern@)),
{
    if contains_seq(lower_seq(text), lower_seq(rules[0].pattern@)) {
        assert(rules[0].kind is Exclude && rule_matches(lower_seq(text), rules[0]));
        assert(has_exclude_match(lower_seq(text), rules));
    } else {
        assert(!has_exclude_match(lower_seq(text), rules));
        assert(!has_include(rules));
    }
}

/// With one include rule followed by one exclude rule, a line is displayed
/// exactly when the include pattern occurs and the exclude pattern does
/// not: the exclude always wins, and with an include rule present a line
/// matching neither pattern is dropped.
pub proof fn lemma_include_then_exclude(text: Seq<char>, rules: Seq<FilterRule>)
    requires
        rules.len() == 2,
        rules[0].kind is Include,
        rules[1].kind is Exclude,
    ensures
        should_display_spec(text, rules) == (
            contains_seq(lower_seq(text), lower_seq(rules[0].pattern@))
            && !contains_seq(lower_seq(text), lower_seq(rules[1].pattern@))
        ),
{
    let tl = lower_seq(text);
    if contains_seq(tl, lower_seq(rules[1].pattern@)) {
        assert(rules[1].kind is Exclude && rule_matches(tl, rules[1]));
        assert(has_exclude_match(tl, rules));
    } else {
        assert(forall|i: int| 0 <= i < 2 && rules[i].kind is Exclude ==> i == 1);
        assert(!has_exclude_match(tl, rules));
        assert(has_include(rules));
        if contains_seq(tl, lower_seq(rules[0].pattern@)) {
            assert(rules[0].kind is Include && rule_matches(tl, rules[0]));
            assert(has_include_match(tl, rules));
        } else {
            assert(forall|i: int| 0 <= i < 2 && rules[i].kind is Include ==> i == 0);
            assert(!has_include_match(tl, rules));
        }
    }
}

} // verus!
