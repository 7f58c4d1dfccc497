//! Construction-time errors: the rule definitions could not be read, could
//! not be deserialized, or hold a pattern that is not valid
//! regular-expression syntax. Classifying a string never fails.

use vstd::prelude::*;

verus! {

#[verifier::external_type_specification]
#[verifier::external_body]
pub struct ExIoError(std::io::Error);

#[verifier::external_type_specification]
#[verifier::external_body]
pub struct ExYamlError(serde_yaml::Error);

/// Why a parser facade could not be built.
#[derive(Debug)]
pub enum UAParserError {
    /// The rule definitions could not be read from their origin.
    Io(std::io::Error),
    /// One rule's pattern is not valid regular-expression syntax.
    Regex(regex::Error),
    /// The rule definitions do not deserialize into the expected shape.
    Yaml(serde_yaml::Error),
}

impl From<std::io::Error> for UAParserError {
    fn from(value: std::io::Error) -> Self {
        Self::Io(value)
    }
}

impl vstd::std_specs::convert::FromSpecImpl<std::io::Error> for UAParserError {
    open spec fn obeys_from_spec() -> bool {
        true
    }

    open spec fn from_spec(value: std::io::Error) -> Self {
        UAParserError::Io(value)
    }
}

impl From<regex::Error> for UAParserError {
    fn from(value: regex::Error) -> Self {
        Self::Regex(value)
    }
}

impl vstd::std_specs::convert::FromSpecImpl<regex::Error> for UAParserError {
    open spec fn obeys_from_spec() -> bool {
        true
    }

    open spec fn from_spec(value: regex::Error) -> Self {
        UAParserError::Regex(value)
    }
}

impl From<serde_yaml::Error> for UAParserError {
    fn from(value: serde_yaml::Error) -> Self {
        Self::Yaml(value)
    }
}

impl vstd::std_specs::convert::FromSpecImpl<serde_yaml::Error> for UAParserError {
    open spec fn obeys_from_spec() -> bool {
        true
    }

    open spec fn from_spec(value: serde_yaml::Error) -> Self {
        UAParserError::Yaml(value)
    }
}

} // verus!
