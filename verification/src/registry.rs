//! The rule matcher: first-match resolution of a source identifier against
//! the document's rule groups, in document order across groups and within a
//! group, with template substitution applied to the matched rule only.

use vstd::prelude::*;

use crate::config::DockerMirrorRule;
use crate::config::DockerMirrorRuleset;
use crate::config::RuleView;
use crate::config::RulesetView;
use crate::config::RushGetConfig;
use crate::error::DockermirError;
use crate::error::ErrorView;
use crate::pattern::pattern_compiles;
use crate::pattern::pattern_ok;
use crate::pattern::regex_is_match;
use crate::pattern::regex_match;
use crate::pattern::regex_replace;
use crate::pattern::regex_replace_first;
use crate::strutil::spec_substitute;
use crate::strutil::substitute_mirror_tokens;

verus! {

/// Outcome of scanning one group's rules from an index on: the first rule
/// that matches, the first whose pattern does not compile, or neither.
pub enum RuleScan {
    Hit(int),
    Invalid(int),
    Miss,
}

/// Outcome of scanning the whole document from a group index on.
pub enum DocScan {
    Hit { g: int, r: int },
    Invalid { g: int, r: int },
    Miss,
}

/// Scans a group's rules from index `i` in order: the first rule whose
/// pattern fails to compile stops the scan, the first whose pattern matches
/// `source` wins.
pub open spec fn scan_rules(source: Seq<char>, rules: Seq<RuleView>, i: int) -> RuleScan
    decreases rules.len() - i,
{
    if i < 0 || i >= rules.len() {
        RuleScan::Miss
    } else if !pattern_ok(rules[i].match_regex) {
        RuleScan::Invalid(i)
    } else if regex_match(rules[i].match_regex, source) {
        RuleScan::Hit(i)
    } else {
        scan_rules(source, rules, i + 1)
    }
}

/// Scans the document's groups from index `g` in order, each group's rules
/// in their own order.
pub open spec fn scan_doc(source: Seq<char>, groups: Seq<RulesetView>, g: int) -> DocScan
    decreases groups.len() - g,
{
    if g < 0 || g >= groups.len() {
        DocScan::Miss
    } else {
        match scan_rules(source, groups[g].rules, 0) {
            RuleScan::Hit(r) => DocScan::Hit { g, r },
            RuleScan::Invalid(r) => DocScan::Invalid { g, r },
            RuleScan::Miss => scan_doc(source, groups, g + 1),
        }
    }
}

/// The mirror identifier a matched rule produces: the rule's template with
/// the group's host and namespace filled in, then the regex engine's
/// capture-group substitution of that template against the source.
pub open spec fn mirror_for(source: Seq<char>, group: RulesetView, rule: RuleView) -> Seq<char> {
    regex_replace(
        rule.match_regex,
        source,
        spec_substitute(rule.replace_template, group.mirror_host, group.mirror_namespace),
    )
}

/// Ghost shape of a resolution result.
#[verifier::ext_equal]
pub struct ImageMirrorDataView {
    pub hit_rule: RuleView,
    pub hit_ruleset: RulesetView,
    pub source_image: Seq<char>,
    pub mirror_image: Seq<char>,
}

/// A successful resolution: the matched rule and its owning group, the
/// source identifier, and the substituted mirror identifier.
#[derive(Debug)]
pub struct ImageMirrorData {
    pub hit_rule: DockerMirrorRule,
    pub hit_ruleset: DockerMirrorRuleset,
    pub source_image: String,
    pub mirror_image: String,
}

impl View for ImageMirrorData {
    type V = ImageMirrorDataView;

    open spec fn view(&self) -> ImageMirrorDataView {
        ImageMirrorDataView {
            hit_rule: self.hit_rule@,
            hit_ruleset: self.hit_ruleset@,
            source_image: self.source_image@,
            mirror_image: self.mirror_image@,
        }
    }
}

/// What `map_mirror_by_configuration` promises: its result mirrors the
/// document scan exactly.
pub open spec fn resolution_spec(
    source: Seq<char>,
    groups: Seq<RulesetView>,
    res: Result<ImageMirrorData, DockermirError>,
) -> bool {
    match res {
        Result::Ok(d) => scan_doc(source, groups, 0) matches DocScan::Hit { g, r }
            && d@.source_image == source
            && d@.hit_ruleset == groups[g]
            && d@.hit_rule == groups[g].rules[r]
            && d@.mirror_image == mirror_for(source, groups[g], groups[g].rules[r]),
        Result::Err(e) => match scan_doc(source, groups, 0) {
            DocScan::Hit { .. } => false,
            DocScan::Invalid { g, r } => e@ == (ErrorView::InvalidPattern {
                rule_name: groups[g].rules[r].name,
            }),
            DocScan::Miss => e@ == ErrorView::MismatchAllRule,
        },
    }
}

/// Resolves source identifiers against a rule document.
pub struct MirrorRegistry {}

impl MirrorRegistry {
    pub fn new() -> (r: MirrorRegistry) {
        MirrorRegistry {  }
    }

    /// First-match resolution. Groups are tried in document order and rules
    /// in group order; the first matching rule yields the mirror identifier,
    /// a rule whose pattern does not compile aborts with `InvalidPattern`
    /// naming it, and a document with no matching rule yields
    /// `MismatchAllRule` with no substitution performed.
    #[verifier::loop_isolation(false)]
    pub fn map_mirror_by_configuration(source: &str, config: &RushGetConfig) -> (res: Result<
        ImageMirrorData,
        DockermirError,
    >)
        ensures
            resolution_spec(source@, config@.docker.ruleset, res),
    {
        let ghost groups = config@.docker.ruleset;
        let rulesets = &config.docker.ruleset;
        let mut g: usize = 0;
        while g < rulesets.len()
            invariant
                g <= rulesets.len(),
                scan_doc(source@, groups, 0) == scan_doc(source@, groups, g as int),
            decreases rulesets.len() - g,
        {
            let group = &rulesets[g];
            let ghost gv = groups[g as int];
            proof {
                assert(gv == rulesets@[g as int]@);
            }
            let rules = &group.rules;
            let mut i: usize = 0;
            while i < rules.len()
                invariant
                    i <= rules.len(),
                    scan_rules(source@, gv.rules, 0) == scan_rules(source@, gv.rules, i as int),
                decreases rules.len() - i,
            {
                let rule = &rules[i];
                proof {
                    assert(gv.rules[i as int] == rules@[i as int]@);
                }
                if !pattern_compiles(rule.match_regex.as_str()) {
                    proof {
                        assert(scan_rules(source@, gv.rules, i as int) == RuleScan::Invalid(
                            i as int,
                        ));
                    }
                    return Result::Err(
                        DockermirError::InvalidPattern { rule_name: rule.name.clone() },
                    );
                }
                if regex_is_match(rule.match_regex.as_str(), source) {
                    proof {
                        assert(scan_rules(source@, gv.rules, i as int) == RuleScan::Hit(i as int));
                        assert(scan_doc(source@, groups, g as int) == (DocScan::Hit {
                            g: g as int,
                            r: i as int,
                        }));
                    }
                    let substituted = substitute_mirror_tokens(
                        rule.replace_template.as_str(),
                        group.mirror_host.as_str(),
                        group.mirror_namespace.as_str(),
                    );
                    let mirror = regex_replace_first(
                        rule.match_regex.as_str(),
                        source,
                        substituted.as_str(),
                    );
                    return Result::Ok(
                        ImageMirrorData {
                            hit_rule: rule.clone(),
                            hit_ruleset: group.clone(),
                            source_image: String::from_str(source),
                            mirror_image: mirror,
                        },
                    );
                }
                i = i + 1;
            }
            g = g + 1;
        }
        Result::Err(DockermirError::MismatchAllRule)
    }
}

/// Every pattern in the document compiles.
pub open spec fn all_patterns_ok(groups: Seq<RulesetView>) -> bool {
    forall|g: int, r: int|
        0 <= g < groups.len() && 0 <= r < groups[g].rules.len() ==> pattern_ok(
            #[trigger] groups[g].rules[r].match_regex,
        )
}

/// `(g1, r1)` comes before `(g2, r2)` in document order.
pub open spec fn earlier(g1: int, r1: int, g2: int, r2: int) -> bool {
    g1 < g2 || (g1 == g2 && r1 < r2)
}

proof fn lemma_scan_rules_props(source: Seq<char>, rules: Seq<RuleView>, i: int)
    requires
        0 <= i <= rules.len(),
        forall|r: int| i <= r < rules.len() ==> pattern_ok(#[trigger] rules[r].match_regex),
    ensures
        !(scan_rules(source, rules, i) is Invalid),
        scan_rules(source, rules, i) matches RuleScan::Hit(r) ==> i <= r < rules.len()
            && regex_match(rules[r].match_regex, source) && (forall|k: int|
            i <= k < r ==> !regex_match(#[trigger] rules[k].match_regex, source)),
        scan_rules(source, rules, i) is Miss ==> (forall|k: int|
            i <= k < rules.len() ==> !regex_match(#[trigger] rules[k].match_regex, source)),
    decreases rules.len() - i,
{
    if i < rules.len() {
        if !regex_match(rules[i].match_regex, source) {
            lemma_scan_rules_props(source, rules, i + 1);
        }
    }
}

proof fn lemma_scan_doc_props(source: Seq<char>, groups: Seq<RulesetView>, g0: int)
    requires
        0 <= g0 <= groups.len(),
        all_patterns_ok(groups),
    ensures
        !(scan_doc(source, groups, g0) is Invalid),
        scan_doc(source, groups, g0) matches DocScan::Hit { g, r } ==> g0 <= g < groups.len() && 0
            <= r < groups[g].rules.len() && regex_match(groups[g].rules[r].match_regex, source) && (
        forall|g2: int, r2: int|
            g0 <= g2 < groups.len() && 0 <= r2 < groups[g2].rules.len() && earlier(g2, r2, g, r)
                ==> !regex_match(#[trigger] groups[g2].rules[r2].match_regex, source)),
        scan_doc(source, groups, g0) is Miss ==> (forall|g2: int, r2: int|
            g0 <= g2 < groups.len() && 0 <= r2 < groups[g2].rules.len() ==> !regex_match(
                #[trigger] groups[g2].rules[r2].match_regex,
                source,
            )),
    decreases groups.len() - g0,
{
    if g0 < groups.len() {
        assert forall|r: int| 0 <= r < groups[g0].rules.len() implies pattern_ok(
            #[trigger] groups[g0].rules[r].match_regex,
        ) by {
            assert(all_patterns_ok(groups));
        }
        lemma_scan_rules_props(source, groups[g0].rules, 0);
        match scan_rules(source, groups[g0].rules, 0) {
            RuleScan::Hit(_) => {},
            RuleScan::Invalid(_) => {},
            RuleScan::Miss => {
                lemma_scan_doc_props(source, groups, g0 + 1);
            },
        }
    }
}

/// First-match-wins: when every pattern in the document compiles and some
/// rule matches the source, the document scan lands on a rule that matches,
/// and on the first such rule — no rule earlier in document order matches.
/// `resolve` therefore returns that rule's result, never a later one.
pub proof fn lemma_resolve_first_match(source: Seq<char>, groups: Seq<RulesetView>)
    requires
        all_patterns_ok(groups),
        exists|g: int, r: int|
            0 <= g < groups.len() && 0 <= r < groups[g].rules.len() && regex_match(
                #[trigger] groups[g].rules[r].match_regex,
                source,
            ),
    ensures
        scan_doc(source, groups, 0) matches DocScan::Hit { g, r } && 0 <= g < groups.len() && 0
            <= r < groups[g].rules.len() && regex_match(groups[g].rules[r].match_regex, source) && (
        forall|g2: int, r2: int|
            0 <= g2 < groups.len() && 0 <= r2 < groups[g2].rules.len() && earlier(g2, r2, g, r)
                ==> !regex_match(#[trigger] groups[g2].rules[r2].match_regex, source)),
{
    lemma_scan_doc_props(source, groups, 0);
}

/// A document in which no rule matches scans to `Miss`: `resolve` then
/// returns `MismatchAllRule`, and no substitution is performed on the way.
pub proof fn lemma_resolve_no_match(source: Seq<char>, groups: Seq<RulesetView>)
    requires
        all_patterns_ok(groups),
        forall|g: int, r: int|
            0 <= g < groups.len() && 0 <= r < groups[g].rules.len() ==> !regex_match(
                #[trigger] groups[g].rules[r].match_regex,
                source,
            ),
    ensures
        scan_doc(source, groups, 0) is Miss,
{
    lemma_scan_doc_props(source, groups, 0);
    match scan_doc(source, groups, 0) {
        DocScan::Hit { g, r } => {
            assert(!regex_match(groups[g].rules[r].match_regex, source));
        },
        DocScan::Invalid { .. } => {},
        DocScan::Miss => {},
    }
}

} // verus!
