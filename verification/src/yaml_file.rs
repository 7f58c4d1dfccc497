//! The external, serializable description of a rule catalog: per family a
//! list of rule descriptors in file order, each a pattern string plus the
//! family's optional replacement templates.

use vstd::prelude::*;

verus! {

/// A whole rule file: three descriptor lists, one per family, each in the
/// order the rules appear in the file.
pub struct YamlFile {
    pub ua_parsers: Vec<UserAgentParser>,
    pub os_parsers: Vec<OsParser>,
    pub device_parsers: Vec<DeviceParser>,
}

/// The description of one browser rule.
pub struct UserAgentParser {
    pub regex: String,
    pub family_replacement: Option<String>,
    pub v1_replacement: Option<String>,
    pub v2_replacement: Option<String>,
    pub v3_replacement: Option<String>,
    pub v4_replacement: Option<String>,
}

/// The description of one operating-system rule.
pub struct OsParser {
    pub regex: String,
    pub os_replacement: Option<String>,
    pub os_v1_replacement: Option<String>,
    pub os_v2_replacement: Option<String>,
    pub os_v3_replacement: Option<String>,
    pub os_v4_replacement: Option<String>,
}

/// The description of one device rule.
pub struct DeviceParser {
    pub regex: String,
    pub device_replacement: Option<String>,
    pub brand_replacement: Option<String>,
    pub model_replacement: Option<String>,
}

/// The mathematical shape of a browser rule descriptor.
pub struct UserAgentParserView {
    pub regex: Seq<char>,
    pub family_replacement: Option<Seq<char>>,
    pub v1_replacement: Option<Seq<char>>,
    pub v2_replacement: Option<Seq<char>>,
    pub v3_replacement: Option<Seq<char>>,
    pub v4_replacement: Option<Seq<char>>,
}

/// The mathematical shape of an operating-system rule descriptor.
pub struct OsParserView {
    pub regex: Seq<char>,
    pub os_replacement: Option<Seq<char>>,
    pub os_v1_replacement: Option<Seq<char>>,
    pub os_v2_replacement: Option<Seq<char>>,
    pub os_v3_replacement: Option<Seq<char>>,
    pub os_v4_replacement: Option<Seq<char>>,
}

/// The mathematical shape of a device rule descriptor.
pub struct DeviceParserView {
    pub regex: Seq<char>,
    pub device_replacement: Option<Seq<char>>,
    pub brand_replacement: Option<Seq<char>>,
    pub model_replacement: Option<Seq<char>>,
}

/// The mathematical shape of a whole rule file.
pub struct YamlFileView {
    pub ua_parsers: Seq<UserAgentParserView>,
    pub os_parsers: Seq<OsParserView>,
    pub device_parsers: Seq<DeviceParserView>,
}

impl View for UserAgentParser {
    type V = UserAgentParserView;

    open spec fn view(&self) -> UserAgentParserView {
        UserAgentParserView {
            regex: self.regex@,
            family_replacement: self.family_replacement.deep_view(),
            v1_replacement: self.v1_replacement.deep_view(),
            v2_replacement: self.v2_replacement.deep_view(),
            v3_replacement: self.v3_replacement.deep_view(),
            v4_replacement: self.v4_replacement.deep_view(),
        }
    }
}

impl DeepView for UserAgentParser {
    type V = UserAgentParserView;

    open spec fn deep_view(&self) -> UserAgentParserView {
        self@
    }
}

impl View for OsParser {
    type V = OsParserView;

    open spec fn view(&self) -> OsParserView {
        OsParserView {
            regex: self.regex@,
            os_replacement: self.os_replacement.deep_view(),
            os_v1_replacement: self.os_v1_replacement.deep_view(),
            os_v2_replacement: self.os_v2_replacement.deep_view(),
            os_v3_replacement: self.os_v3_replacement.deep_view(),
            os_v4_replacement: self.os_v4_replacement.deep_view(),
        }
    }
}

impl DeepView for OsParser {
    type V = OsParserView;

    open spec fn deep_view(&self) -> OsParserView {
        self@
    }
}

impl View for DeviceParser {
    type V = DeviceParserView;

    open spec fn view(&self) -> DeviceParserView {
        DeviceParserView {
            regex: self.regex@,
            device_replacement: self.device_replacement.deep_view(),
            brand_replacement: self.brand_replacement.deep_view(),
            model_replacement: self.model_replacement.deep_view(),
        }
    }
}

impl DeepView for DeviceParser {
    type V = DeviceParserView;

    open spec fn deep_view(&self) -> DeviceParserView {
        self@
    }
}

impl View for YamlFile {
    type V = YamlFileView;

    open spec fn view(&self) -> YamlFileView {
        YamlFileView {
            ua_parsers: self.ua_parsers.deep_view(),
            os_parsers: self.os_parsers.deep_view(),
            device_parsers: self.device_parsers.deep_view(),
        }
    }
}

impl DeepView for YamlFile {
    type V = YamlFileView;

    open spec fn deep_view(&self) -> YamlFileView {
        self@
    }
}

} // verus!
