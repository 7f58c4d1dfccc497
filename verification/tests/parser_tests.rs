use uaparser_rs::yaml_file::{DeviceParser, OsParser, UserAgentParser, YamlFile};
use uaparser_rs::{CompiledPattern, UAParser, UAParserError};

const GALAXY_NEXUS_UA: &str = "Mozilla/5.0 (Linux; Android 4.0.1; Galaxy Nexus Build/ITL41F) \
     AppleWebKit/537.31 (KHTML, like Gecko) Chrome/26.0.1410.58 Mobile Safari/537.31";

fn ua_rule(regex: &str, family: Option<&str>) -> UserAgentParser {
    UserAgentParser {
        regex: regex.to_string(),
        family_replacement: family.map(|s| s.to_string()),
        v1_replacement: None,
        v2_replacement: None,
        v3_replacement: None,
        v4_replacement: None,
    }
}

fn os_rule(regex: &str) -> OsParser {
    OsParser {
        regex: regex.to_string(),
        os_replacement: None,
        os_v1_replacement: None,
        os_v2_replacement: None,
        os_v3_replacement: None,
        os_v4_replacement: None,
    }
}

fn device_rule(regex: &str, device: Option<&str>, brand: Option<&str>) -> DeviceParser {
    DeviceParser {
        regex: regex.to_string(),
        device_replacement: device.map(|s| s.to_string()),
        brand_replacement: brand.map(|s| s.to_string()),
        model_replacement: None,
    }
}

fn file_of(
    ua: Vec<UserAgentParser>,
    os: Vec<OsParser>,
    device: Vec<DeviceParser>,
) -> YamlFile {
    YamlFile { ua_parsers: ua, os_parsers: os, device_parsers: device }
}

#[test]
fn end_to_end_chrome() {
    let file = file_of(
        vec![ua_rule(r"(Chrome)/(\d+)\.(\d+)\.(\d+)\.(\d+)", None)],
        vec![],
        vec![],
    );
    let uap = UAParser::from_regex_file(file).unwrap();
    let client = uap.parse(GALAXY_NEXUS_UA);
    assert_eq!(client.user_agent.family, "Chrome");
    assert_eq!(client.user_agent.major, Some("26".to_string()));
    assert_eq!(client.user_agent.minor, Some("0".to_string()));
    assert_eq!(client.user_agent.patch, Some("1410".to_string()));
    assert_eq!(client.user_agent.patch_minor, Some("58".to_string()));
    assert_eq!(client.os.family, "Other");
    assert_eq!(client.device.family, "Other");
}

#[test]
fn device_galaxy_nexus() {
    let file = file_of(
        vec![],
        vec![],
        vec![device_rule("Galaxy Nexus", Some("Galaxy Nexus"), Some("Samsung"))],
    );
    let uap = UAParser::from_regex_file(file).unwrap();
    let client = uap.parse(GALAXY_NEXUS_UA);
    assert_eq!(client.device.family, "Galaxy Nexus");
    assert_eq!(client.device.brand, Some("Samsung".to_string()));
    assert_eq!(client.device.model, None);
}

#[test]
fn os_version_components() {
    let file = file_of(vec![], vec![os_rule(r"(Android) (\d+)\.(\d+)\.(\d+)")], vec![]);
    let uap = UAParser::from_regex_file(file).unwrap();
    let client = uap.parse(GALAXY_NEXUS_UA);
    assert_eq!(client.os.family, "Android");
    assert_eq!(client.os.major, Some("4".to_string()));
    assert_eq!(client.os.minor, Some("0".to_string()));
    assert_eq!(client.os.patch, Some("1".to_string()));
    assert_eq!(client.os.patch_minor, None);
}

#[test]
fn earlier_rule_wins() {
    let specific = ua_rule("(Chrome)", Some("First"));
    let catch_all = ua_rule("Chrome", Some("Second"));
    let uap = UAParser::from_regex_file(file_of(vec![specific, catch_all], vec![], vec![]))
        .unwrap();
    assert_eq!(uap.parse(GALAXY_NEXUS_UA).user_agent.family, "First");

    let specific = ua_rule("(Chrome)", Some("First"));
    let catch_all = ua_rule("Chrome", Some("Second"));
    let reversed = UAParser::from_regex_file(file_of(vec![catch_all, specific], vec![], vec![]))
        .unwrap();
    assert_eq!(reversed.parse(GALAXY_NEXUS_UA).user_agent.family, "Second");
}

#[test]
fn unmatched_input_falls_back_to_defaults() {
    let file = file_of(
        vec![ua_rule("(Opera)", None)],
        vec![os_rule("(Windows)")],
        vec![device_rule("iPhone", None, None)],
    );
    let uap = UAParser::from_regex_file(file).unwrap();
    let client = uap.parse("curl/8.0.1");
    assert_eq!(client.user_agent.family, "Other");
    assert_eq!(client.user_agent.major, None);
    assert_eq!(client.user_agent.minor, None);
    assert_eq!(client.user_agent.patch, None);
    assert_eq!(client.user_agent.patch_minor, None);
    assert_eq!(client.os.family, "Other");
    assert_eq!(client.os.major, None);
    assert_eq!(client.device.family, "Other");
    assert_eq!(client.device.brand, None);
    assert_eq!(client.device.model, None);
}

#[test]
fn empty_capture_equals_absent_capture() {
    let with_empty_group = file_of(vec![ua_rule(r"(Foo)(\d*)", None)], vec![], vec![]);
    let without_group = file_of(vec![ua_rule("(Foo)", None)], vec![], vec![]);
    let first = UAParser::from_regex_file(with_empty_group).unwrap();
    let second = UAParser::from_regex_file(without_group).unwrap();
    let a = first.parse("Foo");
    let b = second.parse("Foo");
    assert_eq!(a.user_agent.major, None);
    assert_eq!(b.user_agent.major, None);
    assert_eq!(a.user_agent.family, b.user_agent.family);
    let c = first.parse("Foo7");
    assert_eq!(c.user_agent.major, Some("7".to_string()));
}

#[test]
fn construction_is_idempotent() {
    let make = || {
        file_of(
            vec![ua_rule(r"(Chrome)/(\d+)", None), ua_rule("(Safari)", None)],
            vec![os_rule(r"(Android) (\d+)")],
            vec![device_rule("Galaxy Nexus", Some("Galaxy Nexus"), Some("Samsung"))],
        )
    };
    let first = UAParser::from_regex_file(make()).unwrap();
    let second = UAParser::from_regex_file(make()).unwrap();
    let a = first.parse(GALAXY_NEXUS_UA);
    let b = second.parse(GALAXY_NEXUS_UA);
    assert_eq!(a.user_agent.family, b.user_agent.family);
    assert_eq!(a.user_agent.major, b.user_agent.major);
    assert_eq!(a.user_agent.minor, b.user_agent.minor);
    assert_eq!(a.os.family, b.os.family);
    assert_eq!(a.os.major, b.os.major);
    assert_eq!(a.device.family, b.device.family);
    assert_eq!(a.device.brand, b.device.brand);
    assert_eq!(a.device.model, b.device.model);
}

#[test]
fn repeated_parse_is_deterministic() {
    let file = file_of(
        vec![ua_rule(r"(Chrome)/(\d+)\.(\d+)\.(\d+)\.(\d+)", None)],
        vec![os_rule(r"(Android) (\d+)\.(\d+)\.(\d+)")],
        vec![device_rule("Galaxy Nexus", Some("Galaxy Nexus"), Some("Samsung"))],
    );
    let uap = UAParser::from_regex_file(file).unwrap();
    let a = uap.parse(GALAXY_NEXUS_UA);
    let b = uap.parse(GALAXY_NEXUS_UA);
    assert_eq!(a.user_agent.family, b.user_agent.family);
    assert_eq!(a.user_agent.major, b.user_agent.major);
    assert_eq!(a.user_agent.patch_minor, b.user_agent.patch_minor);
    assert_eq!(a.os.family, b.os.family);
    assert_eq!(a.os.patch, b.os.patch);
    assert_eq!(a.device.family, b.device.family);
    assert_eq!(a.device.brand, b.device.brand);
}

#[test]
fn device_raw_brand_and_model_captures() {
    let rule = DeviceParser {
        regex: r"Phone/(\w+)/(\w+)/(\w+)".to_string(),
        device_replacement: None,
        brand_replacement: None,
        model_replacement: None,
    };
    let uap = UAParser::from_regex_file(file_of(vec![], vec![], vec![rule])).unwrap();
    let client = uap.parse("Phone/Fam/Acme/X1");
    assert_eq!(client.device.family, "Fam");
    assert_eq!(client.device.brand, Some("Acme".to_string()));
    assert_eq!(client.device.model, Some("X1".to_string()));
}

#[test]
fn os_templates_override_captures() {
    let rule = OsParser {
        regex: r"(Android) (\d+)\.(\d+)".to_string(),
        os_replacement: Some("$1 OS".to_string()),
        os_v1_replacement: Some("$3".to_string()),
        os_v2_replacement: None,
        os_v3_replacement: None,
        os_v4_replacement: None,
    };
    let uap = UAParser::from_regex_file(file_of(vec![], vec![rule], vec![])).unwrap();
    let client = uap.parse(GALAXY_NEXUS_UA);
    assert_eq!(client.os.family, "Android OS");
    assert_eq!(client.os.major, Some("0".to_string()));
    assert_eq!(client.os.minor, Some("0".to_string()));
    assert_eq!(client.os.patch, None);
}

#[test]
fn invalid_pattern_fails_construction() {
    let bad_ua = file_of(vec![ua_rule("foo(bar", None)], vec![], vec![]);
    assert!(matches!(
        UAParser::from_regex_file(bad_ua),
        Err(UAParserError::Regex(_))
    ));
    let bad_device = file_of(
        vec![ua_rule("(Chrome)", None)],
        vec![],
        vec![device_rule("[", None, None)],
    );
    assert!(matches!(
        UAParser::from_regex_file(bad_device),
        Err(UAParserError::Regex(_))
    ));
}

#[test]
fn family_without_capture_group_is_empty() {
    let file = file_of(vec![ua_rule("Chrome", None)], vec![], vec![]);
    let uap = UAParser::from_regex_file(file).unwrap();
    assert_eq!(uap.parse(GALAXY_NEXUS_UA).user_agent.family, "");
}

#[test]
fn family_template_with_placeholder() {
    let file = file_of(vec![ua_rule("(Chrome)", Some("Browser $1"))], vec![], vec![]);
    let uap = UAParser::from_regex_file(file).unwrap();
    assert_eq!(uap.parse(GALAXY_NEXUS_UA).user_agent.family, "Browser Chrome");
}

#[test]
fn literal_family_template_ignores_captures() {
    let file = file_of(vec![ua_rule("Chrome", Some("Forced"))], vec![], vec![]);
    let uap = UAParser::from_regex_file(file).unwrap();
    assert_eq!(uap.parse(GALAXY_NEXUS_UA).user_agent.family, "Forced");
}

#[test]
fn configured_version_template_is_always_present() {
    let mut rule = ua_rule("Chrome", None);
    rule.v1_replacement = Some("".to_string());
    let file = file_of(vec![rule], vec![], vec![]);
    let uap = UAParser::from_regex_file(file).unwrap();
    let client = uap.parse(GALAXY_NEXUS_UA);
    assert_eq!(client.user_agent.major, Some("".to_string()));
}

#[test]
fn default_records() {
    let ua = uaparser_rs::UserAgent::default();
    assert_eq!(ua.family, "Other");
    assert_eq!(ua.major, None);
    assert_eq!(ua.minor, None);
    assert_eq!(ua.patch, None);
    assert_eq!(ua.patch_minor, None);
    let os = uaparser_rs::Os::default();
    assert_eq!(os.family, "Other");
    assert_eq!(os.major, None);
    let device = uaparser_rs::Device::default();
    assert_eq!(device.family, "Other");
    assert_eq!(device.brand, None);
    assert_eq!(device.model, None);
}

#[test]
fn compiled_pattern_reports_leftmost_captures() {
    let cp = CompiledPattern::new(r"(a+)(b?)").unwrap();
    let caps = cp.captures("xxaab aab").unwrap();
    assert_eq!(caps.len(), 3);
    assert_eq!(caps[0], Some("aab".to_string()));
    assert_eq!(caps[1], Some("aa".to_string()));
    assert_eq!(caps[2], Some("b".to_string()));
    assert!(cp.captures("xyz").is_none());
    assert!(CompiledPattern::new("(").is_err());
}

#[test]
fn matcher_applies_extraction_policy() {
    let rule = UserAgentParser {
        regex: r"(Edge)/(\d+)(?:\.(\d+))?".to_string(),
        family_replacement: None,
        v1_replacement: None,
        v2_replacement: None,
        v3_replacement: Some("$2".to_string()),
        v4_replacement: None,
    };
    let uap = UAParser::from_regex_file(file_of(vec![rule], vec![], vec![])).unwrap();
    let client = uap.parse("Edge/17");
    assert_eq!(client.user_agent.family, "Edge");
    assert_eq!(client.user_agent.major, Some("17".to_string()));
    // group 3 did not participate at all
    assert_eq!(client.user_agent.minor, None);
    // a configured template is expanded instead of reading group 4
    assert_eq!(client.user_agent.patch, Some("17".to_string()));
}
