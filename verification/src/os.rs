//! The operating-system family: its record, its rule, and how a rule turns
//! a regex match into a record.

use crate::fields::{optional_field, optional_field_spec, required_field, required_field_spec};
use crate::parser::Parser;
use crate::pattern::{captures_of, CompiledPattern};
use vstd::prelude::*;

verus! {

/// The operating-system identity extracted from a user-agent string.
#[derive(Debug)]
pub struct Os {
    pub family: String,
    pub major: Option<String>,
    pub minor: Option<String>,
    pub patch: Option<String>,
    pub patch_minor: Option<String>,
}

/// The mathematical shape of an operating-system record.
pub struct OsView {
    pub family: Seq<char>,
    pub major: Option<Seq<char>>,
    pub minor: Option<Seq<char>>,
    pub patch: Option<Seq<char>>,
    pub patch_minor: Option<Seq<char>>,
}

impl View for Os {
    type V = OsView;

    open spec fn view(&self) -> OsView {
        OsView {
            family: self.family@,
            major: self.major.deep_view(),
            minor: self.minor.deep_view(),
            patch: self.patch.deep_view(),
            patch_minor: self.patch_minor.deep_view(),
        }
    }
}

impl DeepView for Os {
    type V = OsView;

    open spec fn deep_view(&self) -> OsView {
        self@
    }
}

/// The record for a user-agent string that no operating-system rule
/// classifies.
pub open spec fn os_default_view() -> OsView {
    OsView { family: "Other"@, major: None, minor: None, patch: None, patch_minor: None }
}

impl Default for Os {
    /// The fallback record: family `Other`, all version fields absent.
    fn default() -> (r: Self)
        ensures
            r@ == os_default_view(),
    {
        Os {
            family: String::from_str("Other"),
            major: None,
            minor: None,
            patch: None,
            patch_minor: None,
        }
    }
}

/// One operating-system rule: a compiled pattern and up to five replacement
/// templates, one per record field.
#[derive(Debug)]
pub struct OsMatcher {
    pub regex: CompiledPattern,
    pub os_replacement: Option<String>,
    pub os_v1_replacement: Option<String>,
    pub os_v2_replacement: Option<String>,
    pub os_v3_replacement: Option<String>,
    pub os_v4_replacement: Option<String>,
}

/// The mathematical shape of an operating-system rule.
pub struct OsMatcherView {
    pub pattern: Seq<char>,
    pub os_replacement: Option<Seq<char>>,
    pub os_v1_replacement: Option<Seq<char>>,
    pub os_v2_replacement: Option<Seq<char>>,
    pub os_v3_replacement: Option<Seq<char>>,
    pub os_v4_replacement: Option<Seq<char>>,
}

impl View for OsMatcher {
    type V = OsMatcherView;

    open spec fn view(&self) -> OsMatcherView {
        OsMatcherView {
            pattern: self.regex@,
            os_replacement: self.os_replacement.deep_view(),
            os_v1_replacement: self.os_v1_replacement.deep_view(),
            os_v2_replacement: self.os_v2_replacement.deep_view(),
            os_v3_replacement: self.os_v3_replacement.deep_view(),
            os_v4_replacement: self.os_v4_replacement.deep_view(),
        }
    }
}

impl DeepView for OsMatcher {
    type V = OsMatcherView;

    open spec fn deep_view(&self) -> OsMatcherView {
        self@
    }
}

/// The record an operating-system rule builds from the capture groups of a
/// match: the family from group 1, the four version components from groups
/// 2 to 5, each through the field extraction policy.
pub open spec fn os_from_groups(m: OsMatcherView, groups: Seq<Option<Seq<char>>>) -> OsView {
    OsView {
        family: required_field_spec(m.os_replacement, 1, groups),
        major: optional_field_spec(m.os_v1_replacement, 2, groups),
        minor: optional_field_spec(m.os_v2_replacement, 3, groups),
        patch: optional_field_spec(m.os_v3_replacement, 4, groups),
        patch_minor: optional_field_spec(m.os_v4_replacement, 5, groups),
    }
}

/// What an operating-system rule answers for `text`: a record exactly when
/// the pattern matches somewhere in the text.
pub open spec fn os_match_spec(m: OsMatcherView, text: Seq<char>) -> Option<OsView> {
    match captures_of(m.pattern, text) {
        Some(groups) => Some(os_from_groups(m, groups)),
        None => None,
    }
}

impl OsMatcher {
    /// Applies this rule to `text`: the record built from the leftmost
    /// match, or absent when the pattern does not match.
    pub fn match_against(&self, text: &str) -> (r: Option<Os>)
        ensures
            r.deep_view() == os_match_spec(self@, text@),
    {
        match self.regex.captures(text) {
            Some(groups) => Some(
                Os {
                    family: required_field(&self.os_replacement, 1, &groups),
                    major: optional_field(&self.os_v1_replacement, 2, &groups),
                    minor: optional_field(&self.os_v2_replacement, 3, &groups),
                    patch: optional_field(&self.os_v3_replacement, 4, &groups),
                    patch_minor: optional_field(&self.os_v4_replacement, 5, &groups),
                },
            ),
            None => None,
        }
    }
}

impl Parser for OsMatcher {
    type Item = Os;

    open spec fn match_spec(&self, text: Seq<char>) -> Option<OsView> {
        os_match_spec(self@, text)
    }

    fn parse(&self, text: &str) -> Option<Os> {
        self.match_against(text)
    }
}

} // verus!
