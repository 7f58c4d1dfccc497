//! A user-agent classification library: an ordered catalog of regular
//! expression rules per family (browser, operating system, device) is matched
//! against a raw user-agent string, and the first matching rule produces a
//! structured record through capture extraction and template expansion.

pub mod catalog;
pub mod device;
pub mod error;
pub mod fields;
pub mod os;
pub mod parser;
pub mod pattern;
pub mod template;
pub mod user_agent;
pub mod yaml_file;

pub use device::Device;
pub use error::UAParserError;
pub use os::Os;
pub use parser::{Client, Parser, UAParser};
pub use pattern::CompiledPattern;
pub use user_agent::UserAgent;
pub use yaml_file::YamlFile;
