//! Text transformations for tool output and workflow logs: extraction of a
//! code or JSON payload from conversational text, and rendering of log
//! records as severity-classified XML.

pub mod text;
pub mod xml;
pub mod casing;
pub mod clock;
pub mod severity;
pub mod hint;
pub mod value;
pub mod json;
pub mod log_entry;
pub mod execution;
pub mod stream;
pub mod auth;
pub mod credentials;
pub mod toolkit;
pub mod feedback;
pub mod wordclass;
pub mod extract;
pub mod json_extract;
pub mod clean;
pub mod gate1;
pub mod generate;
pub mod endpoints;

pub use crate::execution::{Execution, ExecutionState, TaskRun};
pub use crate::extract::{extract_code_block, looks_like_code, ExtractError};
pub use crate::json_extract::extract_json;
pub use crate::log_entry::LogEntry;
pub use crate::severity::{classify_severity, Severity};
pub use crate::stream::{StreamSession, XmlStream};
pub use crate::value::{json_to_xml, DynamicValue};
pub use crate::xml::{escape_xml, sanitize_xml_tag};
