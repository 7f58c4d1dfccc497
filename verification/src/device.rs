//! The device family: its record, its rule, and how a rule turns a regex
//! match into a record.

use crate::fields::{optional_field, optional_field_spec, required_field, required_field_spec};
use crate::parser::Parser;
use crate::pattern::{captures_of, CompiledPattern};
use vstd::prelude::*;

verus! {

/// The device identity extracted from a user-agent string.
#[derive(Debug)]
pub struct Device {
    pub family: String,
    pub brand: Option<String>,
    pub model: Option<String>,
}

/// The mathematical shape of a device record.
pub struct DeviceView {
    pub family: Seq<char>,
    pub brand: Option<Seq<char>>,
    pub model: Option<Seq<char>>,
}

impl View for Device {
    type V = DeviceView;

    open spec fn view(&self) -> DeviceView {
        DeviceView {
            family: self.family@,
            brand: self.brand.deep_view(),
            model: self.model.deep_view(),
        }
    }
}

impl DeepView for Device {
    type V = DeviceView;

    open spec fn deep_view(&self) -> DeviceView {
        self@
    }
}

/// The record for a user-agent string that no device rule classifies.
pub open spec fn device_default_view() -> DeviceView {
    DeviceView { family: "Other"@, brand: None, model: None }
}

impl Default for Device {
    /// The fallback record: family `Other`, brand and model absent.
    fn default() -> (r: Self)
        ensures
            r@ == device_default_view(),
    {
        Device { family: String::from_str("Other"), brand: None, model: None }
    }
}

/// One device rule: a compiled pattern and up to three replacement
/// templates, one per record field.
#[derive(Debug)]
pub struct DeviceMatcher {
    pub regex: CompiledPattern,
    pub device_replacement: Option<String>,
    pub brand_replacement: Option<String>,
    pub model_replacement: Option<String>,
}

/// The mathematical shape of a device rule.
pub struct DeviceMatcherView {
    pub pattern: Seq<char>,
    pub device_replacement: Option<Seq<char>>,
    pub brand_replacement: Option<Seq<char>>,
    pub model_replacement: Option<Seq<char>>,
}

impl View for DeviceMatcher {
    type V = DeviceMatcherView;

    open spec fn view(&self) -> DeviceMatcherView {
        DeviceMatcherView {
            pattern: self.regex@,
            device_replacement: self.device_replacement.deep_view(),
            brand_replacement: self.brand_replacement.deep_view(),
            model_replacement: self.model_replacement.deep_view(),
        }
    }
}

impl DeepView for DeviceMatcher {
    type V = DeviceMatcherView;

    open spec fn deep_view(&self) -> DeviceMatcherView {
        self@
    }
}

/// The record a device rule builds from the capture groups of a match: the
/// family from group 1, brand and model from groups 2 and 3, each through
/// the field extraction policy.
pub open spec fn device_from_groups(
    m: DeviceMatcherView,
    groups: Seq<Option<Seq<char>>>,
) -> DeviceView {
    DeviceView {
        family: required_field_spec(m.device_replacement, 1, groups),
        brand: optional_field_spec(m.brand_replacement, 2, groups),
        model: optional_field_spec(m.model_replacement, 3, groups),
    }
}

/// What a device rule answers for `text`: a record exactly when the pattern
/// matches somewhere in the text.
pub open spec fn device_match_spec(m: DeviceMatcherView, text: Seq<char>) -> Option<DeviceView> {
    match captures_of(m.pattern, text) {
        Some(groups) => Some(device_from_groups(m, groups)),
        None => None,
    }
}

impl DeviceMatcher {
    /// Applies this rule to `text`: the record built from the leftmost
    /// match, or absent when the pattern does not match.
    pub fn match_against(&self, text: &str) -> (r: Option<Device>)
        ensures
            r.deep_view() == device_match_spec(self@, text@),
    {
        match self.regex.captures(text) {
            Some(groups) => Some(
                Device {
                    family: required_field(&self.device_replacement, 1, &groups),
                    brand: optional_field(&self.brand_replacement, 2, &groups),
                    model: optional_field(&self.model_replacement, 3, &groups),
                },
            ),
            None => None,
        }
    }
}

impl Parser for DeviceMatcher {
    type Item = Device;

    open spec fn match_spec(&self, text: Seq<char>) -> Option<DeviceView> {
        device_match_spec(self@, text)
    }

    fn parse(&self, text: &str) -> Option<Device> {
        self.match_against(text)
    }
}

} // verus!
