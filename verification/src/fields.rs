//! The field extraction policy: how one output field of a record is computed
//! from a rule's optional replacement template and the match's capture
//! groups.

use crate::template::{expand_spec, group_text, replace_captures};
use vstd::prelude::*;

verus! {

/// The value of a required field (the family): a configured template is
/// expanded, even to the empty string; otherwise the raw capture at `idx`,
/// empty when that group is absent.
pub open spec fn required_field_spec(
    tmpl: Option<Seq<char>>,
    idx: int,
    groups: Seq<Option<Seq<char>>>,
) -> Seq<char> {
    match tmpl {
        Some(t) => expand_spec(t, groups),
        None => group_text(groups, idx),
    }
}

/// The value of an optional field: a configured template always yields a
/// present value; otherwise the raw capture at `idx`, where a capture that
/// did not participate and one that matched zero characters both collapse to
/// an absent value.
pub open spec fn optional_field_spec(
    tmpl: Option<Seq<char>>,
    idx: int,
    groups: Seq<Option<Seq<char>>>,
) -> Option<Seq<char>> {
    match tmpl {
        Some(t) => Some(expand_spec(t, groups)),
        None => if 0 <= idx < groups.len() {
            match groups[idx] {
                Some(s) => if s.len() > 0 {
                    Some(s)
                } else {
                    None
                },
                None => None,
            }
        } else {
            None
        },
    }
}

/// Law: with no template configured, an optional capture group that matched
/// zero characters and one that did not participate at all yield the same
/// absent field value.
pub proof fn lemma_empty_equals_absent(
    g1: Seq<Option<Seq<char>>>,
    g2: Seq<Option<Seq<char>>>,
    idx: int,
)
    requires
        0 <= idx < g1.len(),
        0 <= idx < g2.len(),
        g1[idx] == Some(Seq::<char>::empty()),
        g2[idx] is None,
    ensures
        optional_field_spec(None, idx, g1) == optional_field_spec(None, idx, g2),
        optional_field_spec(None, idx, g1) is None,
{
}

/// Computes a required field from a template and the capture groups.
pub fn required_field(tmpl: &Option<String>, idx: usize, groups: &Vec<Option<String>>) -> (r:
    String)
    ensures
        r@ == required_field_spec(tmpl.deep_view(), idx as int, groups.deep_view()),
{
    match tmpl {
        Some(t) => replace_captures(t.as_str(), groups),
        None => {
            if idx < groups.len() {
                proof {
                    assert(groups.deep_view()[idx as int] == groups@[idx as int].deep_view());
                }
                match &groups[idx] {
                    Some(s) => s.clone(),
                    None => String::new(),
                }
            } else {
                String::new()
            }
        },
    }
}

/// Computes an optional field from a template and the capture groups.
pub fn optional_field(tmpl: &Option<String>, idx: usize, groups: &Vec<Option<String>>) -> (r:
    Option<String>)
    ensures
        r.deep_view() == optional_field_spec(tmpl.deep_view(), idx as int, groups.deep_view()),
{
    match tmpl {
        Some(t) => Some(replace_captures(t.as_str(), groups)),
        None => {
            if idx < groups.len() {
                proof {
                    assert(groups.deep_view()[idx as int] == groups@[idx as int].deep_view());
                }
                match &groups[idx] {
                    Some(s) => {
                        if s.as_str().is_empty() {
                            None
                        } else {
                            Some(s.clone())
                        }
                    },
                    None => None,
                }
            } else {
                None
            }
        },
    }
}

} // verus!
