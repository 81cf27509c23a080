//! Matching windows against the configured rules.
use vstd::prelude::*;
use crate::config::rules::{RuleActions, WindowMatch, WindowRule};
use crate::text::{chars_of, contains_chars, has_substring, lowercase, to_lowercase};

verus! {

/// A criterion is met when it is not given, or when it occurs in the
/// lowercased property once lowercased itself.
pub open spec fn criterion_met(criterion: Option<String>, property: Seq<char>) -> bool {
    match criterion {
        Some(c) => has_substring(lowercase(property), lowercase(c@)),
        None => true,
    }
}

/// A window matches when at least one criterion is given and every given
/// criterion is met.
pub open spec fn spec_rule_matches(
    m: WindowMatch,
    class: Seq<char>,
    instance: Seq<char>,
    title: Seq<char>,
) -> bool {
    &&& criterion_met(m.class, class)
    &&& criterion_met(m.instance, instance)
    &&& criterion_met(m.title, title)
    &&& (m.class is Some || m.instance is Some || m.title is Some)
}

/// The actions of the matching rules merged in order: a later rule's
/// choice overrides an earlier one's, a rule that leaves a choice open
/// keeps the earlier one.
pub open spec fn merge_rules(
    rules: Seq<WindowRule>,
    class: Seq<char>,
    instance: Seq<char>,
    title: Seq<char>,
) -> RuleActions
    decreases rules.len(),
{
    if rules.len() == 0 {
        RuleActions { floating: None, workspace: None }
    } else {
        let before = merge_rules(rules.drop_last(), class, instance, title);
        let rule = rules.last();
        if spec_rule_matches(rule.match_criteria, class, instance, title) {
            RuleActions {
                floating: if rule.actions.floating is Some {
                    rule.actions.floating
                } else {
                    before.floating
                },
                workspace: if rule.actions.workspace is Some {
                    rule.actions.workspace
                } else {
                    before.workspace
                },
            }
        } else {
            before
        }
    }
}

/// A criterion already in lower case is met by a property already in
/// lower case: it is not given, or it occurs in the property.
pub open spec fn lower_criterion_met(criterion_lower: Option<Seq<char>>, property_lower: Seq<char>) -> bool {
    match criterion_lower {
        Some(c) => has_substring(property_lower, c),
        None => true,
    }
}

/// Whether a criterion already in lower case is met by a property already
/// in lower case (see `lower_criterion_met`).
pub fn lower_criterion_holds(criterion_lower: Option<&[char]>, property_lower: &[char]) -> (r: bool)
    ensures
        r == lower_criterion_met(
            match criterion_lower {
                Some(c) => Some(c@),
                None => None,
            },
            property_lower@,
        ),
{
    match criterion_lower {
        Some(c) => contains_chars(property_lower, c),
        None => true,
    }
}

fn criterion_holds(criterion: &Option<String>, property_lower: &[char], Ghost(property): Ghost<Seq<char>>) -> (r: bool)
    requires
        property_lower@ == lowercase(property),
    ensures
        r == criterion_met(*criterion, property),
{
    match criterion {
        Some(c) => {
            let cl = to_lowercase(c.as_str());
            let cv = chars_of(cl.as_str());
            lower_criterion_holds(Some(cv.as_slice()), property_lower)
        },
        None => lower_criterion_holds(None, property_lower),
    }
}

/// Whether a window with these properties meets `criteria`.
pub fn rule_matches(criteria: &WindowMatch, class: &str, instance: &str, title: &str) -> (r: bool)
    ensures
        r == spec_rule_matches(*criteria, class@, instance@, title@),
{
    let class_lower = to_lowercase(class);
    let instance_lower = to_lowercase(instance);
    let title_lower = to_lowercase(title);
    let cl = chars_of(class_lower.as_str());
    let il = chars_of(instance_lower.as_str());
    let tl = chars_of(title_lower.as_str());
    if !criterion_holds(&criteria.class, cl.as_slice(), Ghost(class@)) {
        return false;
    }
    if !criterion_holds(&criteria.instance, il.as_slice(), Ghost(instance@)) {
        return false;
    }
    if !criterion_holds(&criteria.title, tl.as_slice(), Ghost(title@)) {
        return false;
    }
    criteria.class.is_some() || criteria.instance.is_some() || criteria.title.is_some()
}

/// The actions the rules ask for a window with these properties.
pub fn check_rules(rules: &Vec<WindowRule>, class: &str, instance: &str, title: &str) -> (r: RuleActions)
    ensures
        r == merge_rules(rules@, class@, instance@, title@),
{
    let mut result = RuleActions::none();
    let mut i: usize = 0;
    proof {
        assert(rules@.subrange(0, 0) =~= Seq::<WindowRule>::empty());
    }
    while i < rules.len()
        invariant
            i <= rules@.len(),
            result == merge_rules(rules@.subrange(0, i as int), class@, instance@, title@),
        decreases rules@.len() - i,
    {
        let ghost q = rules@.subrange(0, i + 1);
        assert(q.drop_last() =~= rules@.subrange(0, i as int));
        assert(q.last() == rules@[i as int]);
        let rule = &rules[i];
        if rule_matches(&rule.match_criteria, class, instance, title) {
            if rule.actions.floating.is_some() {
                result.floating = rule.actions.floating;
            }
            if rule.actions.workspace.is_some() {
                result.workspace = rule.actions.workspace;
            }
        }
        i = i + 1;
    }
    assert(rules@.subrange(0, rules@.len() as int) =~= rules@);
    result
}

} // verus!
