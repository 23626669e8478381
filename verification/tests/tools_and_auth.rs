use docker_ops_agent::auth::check_auth;
use docker_ops_agent::memory::Memory;
use docker_ops_agent::state::{AppState, ServiceProposal};
use docker_ops_agent::tools::{
    available_tools, detect_binaries, has_text, needed_binaries, tool_with_id, tools, valid_name,
    Tool,
};

fn owned(list: &[&str]) -> Vec<String> {
    list.iter().map(|s| s.to_string()).collect()
}

fn state(bearer: &str, mesh: Option<&str>) -> AppState {
    AppState::new(bearer.to_string(), mesh.map(|m| m.to_string()), Memory::default())
}

fn header(text: &str) -> Option<Vec<u8>> {
    Some(text.as_bytes().to_vec())
}

#[test]
fn safe_names() {
    for name in ["mcp-proxy", "a", "A.b_c-9", "hermes", &"x".repeat(128)] {
        assert!(valid_name(name), "{}", name);
    }
    for name in ["", "a b", "a;b", "$(x)", "a/b", "ü", "a\n", "\n", &"x".repeat(129), "a\"b"] {
        assert!(!valid_name(name), "{:?}", name);
    }
}

#[test]
fn sixteen_tools_in_order() {
    let ids: Vec<&str> = tools().into_iter().map(|t| t.def().id).collect();
    assert_eq!(
        ids,
        vec![
            "anvil_docker_update",
            "compose_restart",
            "docker_logs",
            "docker_ps",
            "network_diagnose",
            "discover_environment",
            "service_config_read",
            "service_config_propose",
            "service_config_apply",
            "update_instructions",
            "container_restart",
            "container_recreate",
            "env_get",
            "env_update",
            "compose_logs",
            "compose_up_force_recreate",
        ]
    );
}

#[test]
fn tools_are_found_by_their_ids() {
    assert!(matches!(tool_with_id("docker_ps"), Some(Tool::DockerPs)));
    assert!(tool_with_id("docker ps").is_none());
    assert!(tool_with_id("").is_none());
    for tool in tools() {
        let id = tool.def().id;
        assert_eq!(tool_with_id(id).map(|t| t.def().id), Some(id));
    }
}

#[test]
fn a_definition_in_full() {
    let def = Tool::ContainerRestart.def();
    assert_eq!(def.name, "Container Restart");
    assert_eq!(def.tags, vec!["docker", "operate"]);
    assert_eq!(def.requires_binary, "docker");
    assert_eq!(
        def.description,
        "Restart a stopped or running container (docker restart). Note: this preserves the original env vars from when the container was first created — it does NOT re-read .env files. For containers whose env may have changed, use container_recreate instead."
    );
}

#[test]
fn tools_are_offered_by_their_binaries() {
    assert_eq!(available_tools(&owned(&[])).len(), 0);
    assert_eq!(available_tools(&owned(&["docker"])).len(), 14);
    let anvil: Vec<&str> = available_tools(&owned(&["anvil"])).iter().map(|d| d.id).collect();
    assert_eq!(anvil, vec!["anvil_docker_update"]);
    let gawk: Vec<&str> = available_tools(&owned(&["gawk"])).iter().map(|d| d.id).collect();
    assert_eq!(gawk, vec!["env_update"]);
}

#[test]
fn binaries_that_are_looked_for() {
    let needed = needed_binaries();
    assert_eq!(needed.len(), 3);
    assert!(has_text(&needed, "docker"));
    assert!(has_text(&needed, "anvil"));
    assert!(has_text(&needed, "gawk"));
    assert!(!has_text(&needed, "curl"));
    let found = detect_binaries(owned(&["anvil", "docker", "gawk"]), &vec![false, true, true]);
    assert_eq!(found, owned(&["docker", "gawk"]));
}

#[test]
fn tokens_that_pass() {
    let s = state("secret", Some("mesh"));
    assert!(check_auth(&header("Bearer secret"), &s));
    assert!(check_auth(&header("Bearer mesh"), &s));
}

#[test]
fn tokens_that_do_not_pass() {
    let s = state("secret", None);
    assert!(!check_auth(&None, &s));
    assert!(!check_auth(&header("Bearer mesh"), &s));
    assert!(!check_auth(&header("secret"), &s));
    assert!(!check_auth(&header("bearer secret"), &s));
    assert!(!check_auth(&header("Bearer  secret"), &s));
    assert!(!check_auth(&header("Bearer secret "), &s));
    assert!(!check_auth(&header(""), &s));
}

#[test]
fn headers_that_are_not_visible_ascii_do_not_pass() {
    let s = state("sécret", None);
    assert!(!check_auth(&header("Bearer sécret"), &s));
    let odd = state("a\u{7f}", None);
    assert!(!check_auth(&header("Bearer a\u{7f}"), &odd));
    let tab = state("a\tb", None);
    assert!(check_auth(&header("Bearer a\tb"), &tab));
}

#[test]
fn proposals_are_taken_once() {
    let mut s = state("secret", None);
    assert!(s.take_proposal("p").is_none());
    s.stage_proposal(
        "p".to_string(),
        ServiceProposal { role: "r".to_string(), content: "c".to_string() },
    );
    assert!(s.pending_proposals.contains_key("p"));
    assert_eq!(
        s.take_proposal("p"),
        Some(ServiceProposal { role: "r".to_string(), content: "c".to_string() })
    );
    assert!(s.take_proposal("p").is_none());
}
