//! Process-wide configuration of the server launcher: the protocol
//! constants, the user agent with its environment override, and the tables
//! that a build embeds for each release channel.
//!
//! The values come from three sources: strings that the build embeds
//! ([`BuildMetadata`]), one environment variable, and two embedded JSON
//! texts keyed by release channel ([`Quality`]). A [`ProcessConfig`] computes
//! each value when it is first asked for and serves the same value from then
//! on.

pub mod config;
pub mod embedded;
pub mod metadata;
pub mod protocol;
pub mod quality;
pub mod table;
pub mod text;
pub mod user_agent;

pub use config::ProcessConfig;
pub use embedded::{
    parse_app_id_table, parse_download_uri_table, table_from_decoded, MalformedEmbeddedJson,
    Parsed, TableError, TableKind,
};
pub use metadata::BuildMetadata;
pub use protocol::{CONTROL_PORT, PROTOCOL_VERSION};
pub use quality::Quality;
pub use table::{table_from_entries, QualityTable};
pub use user_agent::{
    compute_user_agent, get_default_user_agent, TUNNEL_SERVICE_USER_AGENT_ENV_VAR,
};
