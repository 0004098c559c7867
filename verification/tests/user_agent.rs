use launcher_config::user_agent::{
    compute_user_agent, get_default_user_agent, TUNNEL_SERVICE_USER_AGENT_ENV_VAR,
};

#[test]
fn default_user_agent_without_version_reports_dev() {
    assert_eq!(get_default_user_agent(None), "vscode-server-launcher/dev");
}

#[test]
fn default_user_agent_carries_the_embedded_version() {
    assert_eq!(get_default_user_agent(Some("1.87.2")), "vscode-server-launcher/1.87.2");
}

#[test]
fn default_user_agent_with_empty_version_ends_in_the_slash() {
    assert_eq!(get_default_user_agent(Some("")), "vscode-server-launcher/");
}

#[test]
fn override_comes_first_then_one_space_then_the_default() {
    assert_eq!(compute_user_agent(Some("foo"), None), "foo vscode-server-launcher/dev");
}

#[test]
fn override_is_kept_as_it_is() {
    assert_eq!(
        compute_user_agent(Some(" my agent/2 "), Some("1.0.0")),
        " my agent/2  vscode-server-launcher/1.0.0"
    );
}

#[test]
fn empty_override_counts_as_none() {
    assert_eq!(compute_user_agent(Some(""), None), "vscode-server-launcher/dev");
    assert_eq!(compute_user_agent(Some(""), Some("3.1")), "vscode-server-launcher/3.1");
}

#[test]
fn without_override_the_default_is_the_user_agent() {
    assert_eq!(compute_user_agent(None, None), get_default_user_agent(None));
    assert_eq!(compute_user_agent(None, Some("3.1")), "vscode-server-launcher/3.1");
}

#[test]
fn override_variable_has_its_name() {
    assert_eq!(TUNNEL_SERVICE_USER_AGENT_ENV_VAR, "TUNNEL_SERVICE_USER_AGENT");
}
