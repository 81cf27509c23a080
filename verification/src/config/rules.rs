//! Window rules: criteria on a window's class, instance and title, and what
//! to do with a window that meets them.
use vstd::prelude::*;

verus! {

/// What a rule looks for; every criterion given must occur, ignoring case,
/// in the window's property.
#[derive(Debug, Clone, Default)]
pub struct WindowMatch {
    pub class: Option<String>,
    pub instance: Option<String>,
    pub title: Option<String>,
}

/// What a matching rule asks for.
#[derive(Debug, Clone, Copy, Default, PartialEq, Eq, Structural)]
pub struct RuleActions {
    pub floating: Option<bool>,
    pub workspace: Option<usize>,
}

#[derive(Debug, Clone)]
pub struct WindowRule {
    pub match_criteria: WindowMatch,
    pub actions: RuleActions,
}

impl RuleActions {
    pub fn none() -> (r: RuleActions)
        ensures
            r.floating is None,
            r.workspace is None,
    {
        RuleActions { floating: None, workspace: None }
    }
}

} // verus!
