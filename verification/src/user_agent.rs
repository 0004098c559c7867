//! The user agent that the launcher sends as a network client.

use vstd::prelude::*;
use crate::metadata::version_of;

verus! {

/// Name of the environment variable whose value, when set and not empty, is
/// put in front of the default user agent.
pub const TUNNEL_SERVICE_USER_AGENT_ENV_VAR: &'static str = "TUNNEL_SERVICE_USER_AGENT";

/// The default user agent: the launcher's product token, a slash, and the
/// build's version.
pub open spec fn default_user_agent(version: Option<Seq<char>>) -> Seq<char> {
    "vscode-server-launcher/"@ + version_of(version)
}

/// The user agent under an override: the override, one space and the default
/// where the override is set and not empty, the default alone otherwise.
pub open spec fn user_agent(env_value: Option<Seq<char>>, version: Option<Seq<char>>) -> Seq<
    char,
> {
    match env_value {
        Some(prefix) if prefix.len() > 0 => prefix + " "@ + default_user_agent(version),
        _ => default_user_agent(version),
    }
}

/// Builds the default user agent from the version that the build embeds.
pub fn get_default_user_agent(version: Option<&str>) -> (agent: String)
    ensures
        agent@ == default_user_agent(version.deep_view()),
{
    let prefix = String::from_str("vscode-server-launcher/");
    match version {
        Some(v) => prefix.concat(v),
        None => prefix.concat("dev"),
    }
}

/// Builds the user agent from the value of the override variable, as it was
/// read from the environment, and the embedded version.
pub fn compute_user_agent(env_value: Option<&str>, version: Option<&str>) -> (agent: String)
    ensures
        agent@ == user_agent(env_value.deep_view(), version.deep_view()),
{
    let default = get_default_user_agent(version);
    match env_value {
        Some(prefix) if !prefix.is_empty() => {
            String::from_str(prefix).concat(" ").concat(default.as_str())
        },
        _ => default,
    }
}

} // verus!
