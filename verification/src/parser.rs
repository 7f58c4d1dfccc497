//! The parser facade: three independent rule catalogs, one per family, and
//! the single entry point that classifies a user-agent string.

use crate::catalog::{first_some, lemma_default_fallback, lemma_first_match_wins};
use crate::device::{
    device_default_view, device_match_spec, Device, DeviceMatcher, DeviceMatcherView, DeviceView,
};
use crate::error::UAParserError;
use crate::os::{os_default_view, os_match_spec, Os, OsMatcher, OsMatcherView, OsView};
use crate::pattern::{pattern_compiles, CompiledPattern};
use crate::user_agent::{
    ua_default_view, ua_match_spec, UserAgent, UserAgentMatcher, UserAgentMatcherView,
    UserAgentView,
};
use crate::yaml_file::{
    DeviceParserView, OsParserView, UserAgentParserView, YamlFile, YamlFileView,
};
use vstd::prelude::*;

verus! {

/// One rule of any family: applying it to a text yields the family's record
/// exactly when the rule's pattern matches, and the answer is pinned to the
/// rule's own match specification.
pub trait Parser {
    type Item: DeepView;

    /// What this rule answers for `text`, as a mathematical value.
    spec fn match_spec(&self, text: Seq<char>) -> Option<<Self::Item as DeepView>::V>;

    fn parse(&self, text: &str) -> (r: Option<Self::Item>)
        ensures
            r.deep_view() == self.match_spec(text@),
    ;
}

/// Copies an optional template string.
fn clone_opt(s: &Option<String>) -> (r: Option<String>)
    ensures
        r == *s,
{
    match s {
        Some(x) => Some(x.clone()),
        None => None,
    }
}

/// The aggregate result of one classification: the three family records for
/// the same input.
#[derive(Debug)]
pub struct Client {
    pub user_agent: UserAgent,
    pub device: Device,
    pub os: Os,
}

/// The mathematical shape of a classification result.
pub struct ClientView {
    pub user_agent: UserAgentView,
    pub device: DeviceView,
    pub os: OsView,
}

impl View for Client {
    type V = ClientView;

    open spec fn view(&self) -> ClientView {
        ClientView { user_agent: self.user_agent@, device: self.device@, os: self.os@ }
    }
}

impl DeepView for Client {
    type V = ClientView;

    open spec fn deep_view(&self) -> ClientView {
        self@
    }
}

/// The parser facade: one ordered rule catalog per family. Immutable once
/// built, so every call answers from the same catalogs.
#[derive(Debug)]
pub struct UAParser {
    ua_matchers: Vec<UserAgentMatcher>,
    device_matchers: Vec<DeviceMatcher>,
    os_matchers: Vec<OsMatcher>,
}

/// The mathematical shape of the facade.
pub struct UAParserView {
    pub ua_matchers: Seq<UserAgentMatcherView>,
    pub device_matchers: Seq<DeviceMatcherView>,
    pub os_matchers: Seq<OsMatcherView>,
}

impl View for UAParser {
    type V = UAParserView;

    closed spec fn view(&self) -> UAParserView {
        UAParserView {
            ua_matchers: self.ua_matchers.deep_view(),
            device_matchers: self.device_matchers.deep_view(),
            os_matchers: self.os_matchers.deep_view(),
        }
    }
}

/// What the browser catalog answers for `text`: the first matching rule's
/// record, or the default record when no rule matches.
pub open spec fn resolve_ua_spec(ms: Seq<UserAgentMatcherView>, text: Seq<char>) -> UserAgentView {
    first_some(ms.map_values(|m: UserAgentMatcherView| ua_match_spec(m, text)), ua_default_view())
}

/// What the operating-system catalog answers for `text`.
pub open spec fn resolve_os_spec(ms: Seq<OsMatcherView>, text: Seq<char>) -> OsView {
    first_some(ms.map_values(|m: OsMatcherView| os_match_spec(m, text)), os_default_view())
}

/// What the device catalog answers for `text`.
pub open spec fn resolve_device_spec(ms: Seq<DeviceMatcherView>, text: Seq<char>) -> DeviceView {
    first_some(
        ms.map_values(|m: DeviceMatcherView| device_match_spec(m, text)),
        device_default_view(),
    )
}

/// What one classification returns: the three catalogs are applied to the
/// same text, each independently of the others.
pub open spec fn parse_spec(p: UAParserView, text: Seq<char>) -> ClientView {
    ClientView {
        user_agent: resolve_ua_spec(p.ua_matchers, text),
        device: resolve_device_spec(p.device_matchers, text),
        os: resolve_os_spec(p.os_matchers, text),
    }
}

/// The browser rule described by one descriptor.
pub open spec fn ua_matcher_of(d: UserAgentParserView) -> UserAgentMatcherView {
    UserAgentMatcherView {
        pattern: d.regex,
        family_replacement: d.family_replacement,
        v1_replacement: d.v1_replacement,
        v2_replacement: d.v2_replacement,
        v3_replacement: d.v3_replacement,
        v4_replacement: d.v4_replacement,
    }
}

/// The operating-system rule described by one descriptor.
pub open spec fn os_matcher_of(d: OsParserView) -> OsMatcherView {
    OsMatcherView {
        pattern: d.regex,
        os_replacement: d.os_replacement,
        os_v1_replacement: d.os_v1_replacement,
        os_v2_replacement: d.os_v2_replacement,
        os_v3_replacement: d.os_v3_replacement,
        os_v4_replacement: d.os_v4_replacement,
    }
}

/// The device rule described by one descriptor.
pub open spec fn device_matcher_of(d: DeviceParserView) -> DeviceMatcherView {
    DeviceMatcherView {
        pattern: d.regex,
        device_replacement: d.device_replacement,
        brand_replacement: d.brand_replacement,
        model_replacement: d.model_replacement,
    }
}

/// Whether every pattern of every rule in the file compiles.
pub open spec fn file_compiles(f: YamlFileView) -> bool {
    &&& forall|i: int|
        0 <= i < f.ua_parsers.len() ==> pattern_compiles(#[trigger] f.ua_parsers[i].regex)
    &&& forall|i: int|
        0 <= i < f.device_parsers.len() ==> pattern_compiles(#[trigger] f.device_parsers[i].regex)
    &&& forall|i: int|
        0 <= i < f.os_parsers.len() ==> pattern_compiles(#[trigger] f.os_parsers[i].regex)
}

/// The facade a rule file describes: one rule per descriptor, in file order.
pub open spec fn parser_of(f: YamlFileView) -> UAParserView {
    UAParserView {
        ua_matchers: f.ua_parsers.map_values(|d: UserAgentParserView| ua_matcher_of(d)),
        device_matchers: f.device_parsers.map_values(|d: DeviceParserView| device_matcher_of(d)),
        os_matchers: f.os_parsers.map_values(|d: OsParserView| os_matcher_of(d)),
    }
}

/// Law: rule order decides ties in the browser catalog. When rule `i`
/// matches and every rule before it does not, the catalog's record is rule
/// `i`'s, whatever later rules would have said.
pub proof fn lemma_ua_order_sensitivity(ms: Seq<UserAgentMatcherView>, text: Seq<char>, i: int)
    requires
        0 <= i < ms.len(),
        ua_match_spec(ms[i], text) is Some,
        forall|j: int| 0 <= j < i ==> ua_match_spec(#[trigger] ms[j], text) is None,
    ensures
        resolve_ua_spec(ms, text) == ua_match_spec(ms[i], text)->0,
{
    let results = ms.map_values(|m: UserAgentMatcherView| ua_match_spec(m, text));
    lemma_first_match_wins(results, ua_default_view(), i);
}

/// Law: when no browser rule matches, the browser catalog falls back to the
/// default record.
pub proof fn lemma_ua_default_fallback(ms: Seq<UserAgentMatcherView>, text: Seq<char>)
    requires
        forall|j: int| 0 <= j < ms.len() ==> ua_match_spec(#[trigger] ms[j], text) is None,
    ensures
        resolve_ua_spec(ms, text) == ua_default_view(),
{
    let results = ms.map_values(|m: UserAgentMatcherView| ua_match_spec(m, text));
    lemma_default_fallback(results, ua_default_view());
}

/// Law: rule order decides ties in the operating-system catalog.
pub proof fn lemma_os_order_sensitivity(ms: Seq<OsMatcherView>, text: Seq<char>, i: int)
    requires
        0 <= i < ms.len(),
        os_match_spec(ms[i], text) is Some,
        forall|j: int| 0 <= j < i ==> os_match_spec(#[trigger] ms[j], text) is None,
    ensures
        resolve_os_spec(ms, text) == os_match_spec(ms[i], text)->0,
{
    let results = ms.map_values(|m: OsMatcherView| os_match_spec(m, text));
    lemma_first_match_wins(results, os_default_view(), i);
}

/// Law: when no operating-system rule matches, the catalog falls back to
/// the default record.
pub proof fn lemma_os_default_fallback(ms: Seq<OsMatcherView>, text: Seq<char>)
    requires
        forall|j: int| 0 <= j < ms.len() ==> os_match_spec(#[trigger] ms[j], text) is None,
    ensures
        resolve_os_spec(ms, text) == os_default_view(),
{
    let results = ms.map_values(|m: OsMatcherView| os_match_spec(m, text));
    lemma_default_fallback(results, os_default_view());
}

/// Law: rule order decides ties in the device catalog.
pub proof fn lemma_device_order_sensitivity(ms: Seq<DeviceMatcherView>, text: Seq<char>, i: int)
    requires
        0 <= i < ms.len(),
        device_match_spec(ms[i], text) is Some,
        forall|j: int| 0 <= j < i ==> device_match_spec(#[trigger] ms[j], text) is None,
    ensures
        resolve_device_spec(ms, text) == device_match_spec(ms[i], text)->0,
{
    let results = ms.map_values(|m: DeviceMatcherView| device_match_spec(m, text));
    lemma_first_match_wins(results, device_default_view(), i);
}

/// Law: when no device rule matches, the catalog falls back to the default
/// record.
pub proof fn lemma_device_default_fallback(ms: Seq<DeviceMatcherView>, text: Seq<char>)
    requires
        forall|j: int| 0 <= j < ms.len() ==> device_match_spec(#[trigger] ms[j], text) is None,
    ensures
        resolve_device_spec(ms, text) == device_default_view(),
{
    let results = ms.map_values(|m: DeviceMatcherView| device_match_spec(m, text));
    lemma_default_fallback(results, device_default_view());
}

/// Law: construction is idempotent. Two facades built from the same
/// descriptor set classify every input alike.
pub proof fn lemma_construction_idempotent(f1: YamlFileView, f2: YamlFileView, text: Seq<char>)
    requires
        f1 == f2,
    ensures
        parse_spec(parser_of(f1), text) == parse_spec(parser_of(f2), text),
{
}

fn resolve_ua(matchers: &Vec<UserAgentMatcher>, text: &str) -> (r: UserAgent)
    ensures
        r@ == resolve_ua_spec(matchers.deep_view(), text@),
{
    let n = matchers.len();
    let mut i: usize = 0;
    while i < n
        invariant
            i <= n,
            n == matchers.len(),
            forall|j: int|
                0 <= j < i ==> ua_match_spec(#[trigger] matchers.deep_view()[j], text@) is None,
        decreases n - i,
    {
        let m = &matchers[i];
        let matched = m.match_against(text);
        if let Some(r) = matched {
            proof {
                let results = matchers.deep_view().map_values(
                    |mv: UserAgentMatcherView| ua_match_spec(mv, text@),
                );
                lemma_first_match_wins(results, ua_default_view(), i as int);
            }
            return r;
        }
        i += 1;
    }
    proof {
        let results = matchers.deep_view().map_values(
            |mv: UserAgentMatcherView| ua_match_spec(mv, text@),
        );
        lemma_default_fallback(results, ua_default_view());
    }
    UserAgent::default()
}

fn resolve_os(matchers: &Vec<OsMatcher>, text: &str) -> (r: Os)
    ensures
        r@ == resolve_os_spec(matchers.deep_view(), text@),
{
    let n = matchers.len();
    let mut i: usize = 0;
    while i < n
        invariant
            i <= n,
            n == matchers.len(),
            forall|j: int|
                0 <= j < i ==> os_match_spec(#[trigger] matchers.deep_view()[j], text@) is None,
        decreases n - i,
    {
        let m = &matchers[i];
        let matched = m.match_against(text);
        if let Some(r) = matched {
            proof {
                let results = matchers.deep_view().map_values(
                    |mv: OsMatcherView| os_match_spec(mv, text@),
                );
                lemma_first_match_wins(results, os_default_view(), i as int);
            }
            return r;
        }
        i += 1;
    }
    proof {
        let results = matchers.deep_view().map_values(
            |mv: OsMatcherView| os_match_spec(mv, text@),
        );
        lemma_default_fallback(results, os_default_view());
    }
    Os::default()
}

fn resolve_device(matchers: &Vec<DeviceMatcher>, text: &str) -> (r: Device)
    ensures
        r@ == resolve_device_spec(matchers.deep_view(), text@),
{
    let n = matchers.len();
    let mut i: usize = 0;
    while i < n
        invariant
            i <= n,
            n == matchers.len(),
            forall|j: int|
                0 <= j < i ==> device_match_spec(
                    #[trigger] matchers.deep_view()[j],
                    text@,
                ) is None,
        decreases n - i,
    {
        let m = &matchers[i];
        let matched = m.match_against(text);
        if let Some(r) = matched {
            proof {
                let results = matchers.deep_view().map_values(
                    |mv: DeviceMatcherView| device_match_spec(mv, text@),
                );
                lemma_first_match_wins(results, device_default_view(), i as int);
            }
            return r;
        }
        i += 1;
    }
    proof {
        let results = matchers.deep_view().map_values(
            |mv: DeviceMatcherView| device_match_spec(mv, text@),
        );
        lemma_default_fallback(results, device_default_view());
    }
    Device::default()
}

impl UAParser {
    /// Builds the facade from an already-loaded rule file: every pattern is
    /// compiled up front, in file order, and the first pattern that is not
    /// valid regular-expression syntax fails construction as a whole.
    pub fn from_regex_file(regex_file: YamlFile) -> (r: Result<Self, UAParserError>)
        ensures
            r is Ok <==> file_compiles(regex_file@),
            r matches Ok(p) ==> p@ == parser_of(regex_file@),
            r matches Err(e) ==> e is Regex,
    {
        let ghost fv = regex_file@;
        let mut ua_matchers: Vec<UserAgentMatcher> = Vec::new();
        let mut device_matchers: Vec<DeviceMatcher> = Vec::new();
        let mut os_matchers: Vec<OsMatcher> = Vec::new();
        let ua_len = regex_file.ua_parsers.len();
        let mut i: usize = 0;
        while i < ua_len
            invariant
                i <= ua_len,
                ua_len == regex_file.ua_parsers.len(),
                fv == regex_file@,
                ua_matchers@.len() == i,
                forall|k: int|
                    0 <= k < i ==> (#[trigger] ua_matchers@[k])@ == ua_matcher_of(
                        fv.ua_parsers[k],
                    ),
                forall|j: int| 0 <= j < i ==> pattern_compiles(#[trigger] fv.ua_parsers[j].regex),
            decreases ua_len - i,
        {
            let d = &regex_file.ua_parsers[i];
            proof {
                assert(fv.ua_parsers[i as int] == regex_file.ua_parsers@[i as int].deep_view());
            }
            match CompiledPattern::new(d.regex.as_str()) {
                Ok(compiled) => {
                    let matcher = UserAgentMatcher {
                        regex: compiled,
                        family_replacement: clone_opt(&d.family_replacement),
                        v1_replacement: clone_opt(&d.v1_replacement),
                        v2_replacement: clone_opt(&d.v2_replacement),
                        v3_replacement: clone_opt(&d.v3_replacement),
                        v4_replacement: clone_opt(&d.v4_replacement),
                    };
                    proof {
                        assert(matcher@ == ua_matcher_of(fv.ua_parsers[i as int]));
                    }
                    ua_matchers.push(matcher);
                },
                Err(e) => {
                    proof {
                        assert(!pattern_compiles(fv.ua_parsers[i as int].regex));
                    }
                    return Err(UAParserError::from(e));
                },
            }
            i += 1;
        }
        proof {
            assert forall|k: int| 0 <= k < ua_matchers.deep_view().len() implies ua_matchers.deep_view()[k]
                == ua_matcher_of(fv.ua_parsers[k]) by {
                assert(ua_matchers.deep_view()[k] == ua_matchers@[k].deep_view());
            }
            assert(ua_matchers.deep_view() =~= fv.ua_parsers.map_values(
                |d: UserAgentParserView| ua_matcher_of(d),
            ));
        }
        let device_len = regex_file.device_parsers.len();
        let mut i: usize = 0;
        while i < device_len
            invariant
                i <= device_len,
                device_len == regex_file.device_parsers.len(),
                fv == regex_file@,
                device_matchers@.len() == i,
                forall|k: int|
                    0 <= k < i ==> (#[trigger] device_matchers@[k])@ == device_matcher_of(
                        fv.device_parsers[k],
                    ),
                forall|j: int|
                    0 <= j < i ==> pattern_compiles(#[trigger] fv.device_parsers[j].regex),
            decreases device_len - i,
        {
            let d = &regex_file.device_parsers[i];
            proof {
                assert(fv.device_parsers[i as int] == regex_file.device_parsers@[
                    i as int
                ].deep_view());
            }
            match CompiledPattern::new(d.regex.as_str()) {
                Ok(compiled) => {
                    let matcher = DeviceMatcher {
                        regex: compiled,
                        device_replacement: clone_opt(&d.device_replacement),
                        brand_replacement: clone_opt(&d.brand_replacement),
                        model_replacement: clone_opt(&d.model_replacement),
                    };
                    proof {
                        assert(matcher@ == device_matcher_of(fv.device_parsers[i as int]));
                    }
                    device_matchers.push(matcher);
                },
                Err(e) => {
                    proof {
                        assert(!pattern_compiles(fv.device_parsers[i as int].regex));
                    }
                    return Err(UAParserError::from(e));
                },
            }
            i += 1;
        }
        proof {
            assert forall|k: int|
                0 <= k < device_matchers.deep_view().len() implies device_matchers.deep_view()[k]
                == device_matcher_of(fv.device_parsers[k]) by {
                assert(device_matchers.deep_view()[k] == device_matchers@[k].deep_view());
            }
            assert(device_matchers.deep_view() =~= fv.device_parsers.map_values(
                |d: DeviceParserView| device_matcher_of(d),
            ));
        }
        let os_len = regex_file.os_parsers.len();
        let mut i: usize = 0;
        while i < os_len
            invariant
                i <= os_len,
                os_len == regex_file.os_parsers.len(),
                fv == regex_file@,
                os_matchers@.len() == i,
                forall|k: int|
                    0 <= k < i ==> (#[trigger] os_matchers@[k])@ == os_matcher_of(
                        fv.os_parsers[k],
                    ),
                forall|j: int| 0 <= j < i ==> pattern_compiles(#[trigger] fv.os_parsers[j].regex),
            decreases os_len - i,
        {
            let d = &regex_file.os_parsers[i];
            proof {
                assert(fv.os_parsers[i as int] == regex_file.os_parsers@[i as int].deep_view());
            }
            match CompiledPattern::new(d.regex.as_str()) {
                Ok(compiled) => {
                    let matcher = OsMatcher {
                        regex: compiled,
                        os_replacement: clone_opt(&d.os_replacement),
                        os_v1_replacement: clone_opt(&d.os_v1_replacement),
                        os_v2_replacement: clone_opt(&d.os_v2_replacement),
                        os_v3_replacement: clone_opt(&d.os_v3_replacement),
                        os_v4_replacement: clone_opt(&d.os_v4_replacement),
                    };
                    proof {
                        assert(matcher@ == os_matcher_of(fv.os_parsers[i as int]));
                    }
                    os_matchers.push(matcher);
                },
                Err(e) => {
                    proof {
                        assert(!pattern_compiles(fv.os_parsers[i as int].regex));
                    }
                    return Err(UAParserError::from(e));
                },
            }
            i += 1;
        }
        proof {
            assert forall|k: int| 0 <= k < os_matchers.deep_view().len() implies os_matchers.deep_view()[k]
                == os_matcher_of(fv.os_parsers[k]) by {
                assert(os_matchers.deep_view()[k] == os_matchers@[k].deep_view());
            }
            assert(os_matchers.deep_view() =~= fv.os_parsers.map_values(
                |d: OsParserView| os_matcher_of(d),
            ));
        }
        Ok(Self { ua_matchers, device_matchers, os_matchers })
    }

    /// Classifies one user-agent string: each family's catalog is resolved
    /// independently against the same text, and the result is a function of
    /// the facade and the text alone, so repeated calls agree.
    pub fn parse(&self, user_agent: &str) -> (r: Client)
        ensures
            r@ == parse_spec(self@, user_agent@),
    {
        Client {
            user_agent: resolve_ua(&self.ua_matchers, user_agent),
            device: resolve_device(&self.device_matchers, user_agent),
            os: resolve_os(&self.os_matchers, user_agent),
        }
    }
}

} // verus!
