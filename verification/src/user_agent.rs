//! The browser family: its record, its rule, and how a rule turns a regex
//! match into a record.

use crate::fields::{optional_field, optional_field_spec, required_field, required_field_spec};
use crate::parser::Parser;
use crate::pattern::{captures_of, CompiledPattern};
use vstd::prelude::*;

verus! {

/// The browser identity extracted from a user-agent string.
#[derive(Debug)]
pub struct UserAgent {
    pub family: String,
    pub major: Option<String>,
    pub minor: Option<String>,
    pub patch: Option<String>,
    pub patch_minor: Option<String>,
}

/// The mathematical shape of a browser record.
pub struct UserAgentView {
    pub family: Seq<char>,
    pub major: Option<Seq<char>>,
    pub minor: Option<Seq<char>>,
    pub patch: Option<Seq<char>>,
    pub patch_minor: Option<Seq<char>>,
}

impl View for UserAgent {
    type V = UserAgentView;

    open spec fn view(&self) -> UserAgentView {
        UserAgentView {
            family: self.family@,
            major: self.major.deep_view(),
            minor: self.minor.deep_view(),
            patch: self.patch.deep_view(),
            patch_minor: self.patch_minor.deep_view(),
        }
    }
}

impl DeepView for UserAgent {
    type V = UserAgentView;

    open spec fn deep_view(&self) -> UserAgentView {
        self@
    }
}

/// The record for a user-agent string that no browser rule classifies.
pub open spec fn ua_default_view() -> UserAgentView {
    UserAgentView {
        family: "Other"@,
        major: None,
        minor: None,
        patch: None,
        patch_minor: None,
    }
}

impl Default for UserAgent {
    /// The fallback record: family `Other`, all version fields absent.
    fn default() -> (r: Self)
        ensures
            r@ == ua_default_view(),
    {
        UserAgent {
            family: String::from_str("Other"),
            major: None,
            minor: None,
            patch: None,
            patch_minor: None,
        }
    }
}

/// One browser rule: a compiled pattern and up to five replacement
/// templates, one per record field.
#[derive(Debug)]
pub struct UserAgentMatcher {
    pub regex: CompiledPattern,
    pub family_replacement: Option<String>,
    pub v1_replacement: Option<String>,
    pub v2_replacement: Option<String>,
    pub v3_replacement: Option<String>,
    pub v4_replacement: Option<String>,
}

/// The mathematical shape of a browser rule.
pub struct UserAgentMatcherView {
    pub pattern: Seq<char>,
    pub family_replacement: Option<Seq<char>>,
    pub v1_replacement: Option<Seq<char>>,
    pub v2_replacement: Option<Seq<char>>,
    pub v3_replacement: Option<Seq<char>>,
    pub v4_replacement: Option<Seq<char>>,
}

impl View for UserAgentMatcher {
    type V = UserAgentMatcherView;

    open spec fn view(&self) -> UserAgentMatcherView {
        UserAgentMatcherView {
            pattern: self.regex@,
            family_replacement: self.family_replacement.deep_view(),
            v1_replacement: self.v1_replacement.deep_view(),
            v2_replacement: self.v2_replacement.deep_view(),
            v3_replacement: self.v3_replacement.deep_view(),
            v4_replacement: self.v4_replacement.deep_view(),
        }
    }
}

impl DeepView for UserAgentMatcher {
    type V = UserAgentMatcherView;

    open spec fn deep_view(&self) -> UserAgentMatcherView {
        self@
    }
}

/// The record a browser rule builds from the capture groups of a match:
/// the family from group 1, the four version components from groups 2 to 5,
/// each through the field extraction policy.
pub open spec fn ua_from_groups(
    m: UserAgentMatcherView,
    groups: Seq<Option<Seq<char>>>,
) -> UserAgentView {
    UserAgentView {
        family: required_field_spec(m.family_replacement, 1, groups),
        major: optional_field_spec(m.v1_replacement, 2, groups),
        minor: optional_field_spec(m.v2_replacement, 3, groups),
        patch: optional_field_spec(m.v3_replacement, 4, groups),
        patch_minor: optional_field_spec(m.v4_replacement, 5, groups),
    }
}

/// What a browser rule answers for `text`: a record exactly when the
/// pattern matches somewhere in the text.
pub open spec fn ua_match_spec(m: UserAgentMatcherView, text: Seq<char>) -> Option<
    UserAgentView,
> {
    match captures_of(m.pattern, text) {
        Some(groups) => Some(ua_from_groups(m, groups)),
        None => None,
    }
}

impl UserAgentMatcher {
    /// Applies this rule to `text`: the record built from the leftmost
    /// match, or absent when the pattern does not match.
    pub fn match_against(&self, text: &str) -> (r: Option<UserAgent>)
        ensures
            r.deep_view() == ua_match_spec(self@, text@),
    {
        match self.regex.captures(text) {
            Some(groups) => Some(
                UserAgent {
                    family: required_field(&self.family_replacement, 1, &groups),
                    major: optional_field(&self.v1_replacement, 2, &groups),
                    minor: optional_field(&self.v2_replacement, 3, &groups),
                    patch: optional_field(&self.v3_replacement, 4, &groups),
                    patch_minor: optional_field(&self.v4_replacement, 5, &groups),
                },
            ),
            None => None,
        }
    }
}

impl Parser for UserAgentMatcher {
    type Item = UserAgent;

    open spec fn match_spec(&self, text: Seq<char>) -> Option<UserAgentView> {
        ua_match_spec(self@, text)
    }

    fn parse(&self, text: &str) -> Option<UserAgent> {
        self.match_against(text)
    }
}

} // verus!
