use docker_ops_agent::command::{run_command, Command, CommandOutcome, ToolResult};
use docker_ops_agent::container::{ContainerConfig, ContainerInspect};
use docker_ops_agent::discovery::{DiscoveredService, DiscoveryManifest, ServiceRoleConfig};
use docker_ops_agent::execute::{
    ensure_instructions_file_exists, execute_tool, execute_tool_at, DEFAULT_INSTRUCTIONS_TEMPLATE,
};
use docker_ops_agent::json::{array, member, object, string, Json, Number};
use docker_ops_agent::memory::{LearnedNote, Memory};
use docker_ops_agent::resume::{resume_tool, resume_tool_at};
use docker_ops_agent::state::{AppState, ServiceProposal};
use docker_ops_agent::task::{Host, ToolAction, ToolCall, ToolEvent, ToolStep, ToolTask};

fn owned(list: &[&str]) -> Vec<String> {
    list.iter().map(|s| s.to_string()).collect()
}

fn host() -> Host {
    Host {
        binaries: owned(&["docker", "anvil", "gawk"]),
        compose_dir: None,
        has_compose_yaml: true,
        has_compose_yml: false,
    }
}

fn state() -> AppState {
    AppState::new("secret".to_string(), None, Memory::default())
}

fn proxy(path: Option<&str>, reload: &[&str]) -> DiscoveredService {
    DiscoveredService {
        role: "proxy".to_string(),
        container_name: "p1".to_string(),
        config_path: path.map(|p| p.to_string()),
        reload_command: owned(reload),
        last_confirmed: "t".to_string(),
    }
}

fn state_with(service: DiscoveredService) -> AppState {
    AppState::new(
        "secret".to_string(),
        None,
        Memory { discovered_services: vec![service], learned_notes: vec![] },
    )
}

fn args(list: &[(&str, &str)]) -> Json {
    object(list.iter().map(|(k, v)| member(k, string(v))).collect())
}

fn call(name: &str, arguments: Json) -> ToolCall {
    ToolCall { name: name.to_string(), arguments }
}

fn start(host: &Host, state: &mut AppState, name: &str, arguments: Json) -> ToolStep {
    execute_tool_at(host, state, &call(name, arguments), "NOW")
}

fn docker(list: &[&str]) -> ToolAction {
    program("docker", list)
}

fn program(program: &str, list: &[&str]) -> ToolAction {
    ToolAction::Run(Command { program: program.to_string(), args: owned(list), input: None })
}

fn refused(step: ToolStep, output: &str) {
    assert_eq!(step, ToolStep::Done(ToolResult { ok: false, output: output.to_string() }));
}

fn done(step: ToolStep, output: &str) {
    assert_eq!(step, ToolStep::Done(ToolResult { ok: true, output: output.to_string() }));
}

fn awaiting(step: ToolStep, action: ToolAction) -> ToolTask {
    match step {
        ToolStep::Await(task, named) => {
            assert_eq!(named, action);
            task
        }
        ToolStep::Done(result) => panic!("the tool is done: {:?}", result),
    }
}

fn go_on(host: &Host, state: &mut AppState, task: ToolTask, event: ToolEvent) -> ToolStep {
    assert!(task.accepts(&event));
    resume_tool_at(host, state, task, event, "LATER".to_string(), "ID".to_string())
}

fn ran(success: bool, stdout: &str, stderr: &str) -> ToolEvent {
    ToolEvent::Ran(CommandOutcome::Exited {
        success,
        stdout: stdout.as_bytes().to_vec(),
        stderr: stderr.as_bytes().to_vec(),
    })
}

fn not_started(error: &str) -> ToolEvent {
    ToolEvent::Ran(CommandOutcome::NotStarted { error: error.to_string() })
}

fn lost(error: &str) -> ToolEvent {
    ToolEvent::Ran(CommandOutcome::Lost { error: error.to_string() })
}

#[test]
fn what_a_command_printed_is_the_answer() {
    let out = CommandOutcome::Exited {
        success: true,
        stdout: vec![b'a', 0xff, b'b'],
        stderr: vec![b'!'],
    };
    assert_eq!(
        run_command("docker", &out),
        ToolResult { ok: true, output: "a\u{fffd}b!".to_string() }
    );
    let lost = CommandOutcome::Lost { error: "gone".to_string() };
    assert_eq!(
        run_command("docker", &lost),
        ToolResult { ok: false, output: "failed to spawn `docker`: gone".to_string() }
    );
}

#[test]
fn unknown_tools_and_missing_binaries_are_refused() {
    let mut s = state();
    refused(
        start(&host(), &mut s, "rm_rf", Json::Null),
        "unknown tool `rm_rf` — see agent card `skills` for the allowlist",
    );
    let mut bare = host();
    bare.binaries = owned(&["docker"]);
    refused(
        start(&bare, &mut s, "anvil_docker_update", args(&[("service", "x")])),
        "tool `anvil_docker_update` requires `anvil`, which is not installed on this host",
    );
}

#[test]
fn names_are_checked_first() {
    let mut s = state();
    for (tool, key) in [
        ("anvil_docker_update", "service"),
        ("compose_restart", "service"),
        ("compose_logs", "service"),
        ("compose_up_force_recreate", "service"),
        ("docker_logs", "container"),
        ("container_restart", "container"),
        ("container_recreate", "container"),
        ("env_get", "container"),
        ("network_diagnose", "target"),
    ] {
        refused(start(&host(), &mut s, tool, Json::Null), &format!("missing `{}` argument", key));
        let number = object(vec![member(key, Json::Number(Number::PosInt(1)))]);
        refused(start(&host(), &mut s, tool, number), &format!("missing `{}` argument", key));
        refused(
            start(&host(), &mut s, tool, args(&[(key, "a; rm -rf /")])),
            &format!("invalid `{}` name", key),
        );
        refused(
            start(&host(), &mut s, tool, args(&[(key, "")])),
            &format!("invalid `{}` name", key),
        );
    }
}

#[test]
fn anvil_update_waits_within_bounds() {
    let mut s = state();
    let with = |wait: Json| {
        object(vec![member("service", string("mcp-proxy")), member("wait_seconds", wait)])
    };
    awaiting(
        start(&host(), &mut s, "anvil_docker_update", args(&[("service", "mcp-proxy")])),
        program("anvil", &["docker", "update", "--in-order", "mcp-proxy:15"]),
    );
    awaiting(
        start(&host(), &mut s, "anvil_docker_update", with(Json::Number(Number::PosInt(300)))),
        program("anvil", &["docker", "update", "--in-order", "mcp-proxy:300"]),
    );
    awaiting(
        start(&host(), &mut s, "anvil_docker_update", with(Json::Number(Number::PosInt(301)))),
        program("anvil", &["docker", "update", "--in-order", "mcp-proxy:300"]),
    );
    let task = awaiting(
        start(&host(), &mut s, "anvil_docker_update", with(Json::Number(Number::NegInt(-1)))),
        program("anvil", &["docker", "update", "--in-order", "mcp-proxy:15"]),
    );
    refused(
        go_on(&host(), &mut s, task, not_started("no such file")),
        "failed to spawn `anvil`: no such file",
    );
}

#[test]
fn tools_with_a_single_command() {
    let mut s = state();
    let mut here = host();
    here.compose_dir = Some("/srv".to_string());
    let service = args(&[("service", "web")]);
    let task = awaiting(
        start(&host(), &mut s, "compose_restart", service.duplicate()),
        docker(&["compose", "-f", "/stack/compose.yaml", "restart", "web"]),
    );
    done(go_on(&host(), &mut s, task, ran(true, "out", "err")), "outerr");
    awaiting(
        start(&here, &mut s, "compose_logs", service.duplicate()),
        docker(&["compose", "-f", "/srv/compose.yaml", "logs", "--tail", "100", "web"]),
    );
    awaiting(
        start(&here, &mut s, "compose_up_force_recreate", service),
        docker(&["compose", "-f", "/srv/compose.yaml", "up", "-d", "--force-recreate", "web"]),
    );
    let many = object(vec![
        member("container", string("c")),
        member("tail", Json::Number(Number::PosInt(5000))),
    ]);
    awaiting(
        start(&here, &mut s, "docker_logs", many),
        docker(&["logs", "--tail", "2000", "c"]),
    );
    awaiting(
        start(&here, &mut s, "docker_ps", Json::Null),
        docker(&["ps", "--format", "{{.Names}}\t{{.Status}}"]),
    );
    let task = awaiting(
        start(&here, &mut s, "container_restart", args(&[("container", "c")])),
        docker(&["restart", "c"]),
    );
    refused(go_on(&here, &mut s, task, ran(false, "", "no such container")), "no such container");
}

#[test]
fn the_compose_file_by_either_name() {
    for (yaml, yml, file) in [
        (true, false, "/stack/compose.yaml"),
        (true, true, "/stack/compose.yaml"),
        (false, false, "/stack/compose.yaml"),
        (false, true, "/stack/compose.yml"),
    ] {
        let mut here = host();
        here.has_compose_yaml = yaml;
        here.has_compose_yml = yml;
        awaiting(
            start(&here, &mut state(), "compose_restart", args(&[("service", "web")])),
            docker(&["compose", "-f", file, "restart", "web"]),
        );
    }
}

#[test]
fn a_network_diagnosis() {
    let mut s = state();
    let bridge = ["network", "inspect", "bridge", "--format", "{{json .Containers}}"];
    for (dns_ok, net_ok) in [(true, true), (true, false), (false, true), (false, false)] {
        let task = awaiting(
            start(&host(), &mut s, "network_diagnose", args(&[("target", "db")])),
            program("getent", &["hosts", "db"]),
        );
        let task = awaiting(go_on(&host(), &mut s, task, ran(dns_ok, "1.2.3.4 db", "")), docker(&bridge));
        assert_eq!(
            go_on(&host(), &mut s, task, ran(net_ok, "{}", "")),
            ToolStep::Done(ToolResult {
                ok: dns_ok || net_ok,
                output: "--- getent hosts db ---\n1.2.3.4 db\n--- docker network inspect (bridge) ---\n{}"
                    .to_string(),
            })
        );
    }
    let task = awaiting(
        start(&host(), &mut s, "network_diagnose", args(&[("target", "db")])),
        program("getent", &["hosts", "db"]),
    );
    let task = awaiting(go_on(&host(), &mut s, task, not_started("absent")), docker(&bridge));
    refused(
        go_on(&host(), &mut s, task, not_started("absent too")),
        "--- getent hosts db ---\nfailed to spawn `getent`: absent\n--- docker network inspect (bridge) ---\nfailed to spawn `docker`: absent too",
    );
}

fn manifest() -> DiscoveryManifest {
    DiscoveryManifest {
        services: vec![ServiceRoleConfig {
            role: "proxy".to_string(),
            image_hint: "caddy".to_string(),
            config_candidates: owned(&["/etc/c"]),
            reload_command: vec![],
        }],
    }
}

#[test]
fn discovery_updates_the_memory() {
    let mut s = state_with(proxy(Some("/stale"), &["x"]));
    s.memory.discovered_services[0].role = "stale".to_string();
    let task = awaiting(
        start(&host(), &mut s, "discover_environment", Json::Null),
        ToolAction::LoadManifest,
    );
    let task = awaiting(
        go_on(&host(), &mut s, task, ToolEvent::Manifest(Some(Ok(manifest())))),
        docker(&["ps", "--format", "{{.Names}}\t{{.Image}}"]),
    );
    let task = awaiting(
        go_on(&host(), &mut s, task, ran(true, "p\"1\tcaddy:2\n", "")),
        docker(&["exec", "p\"1", "test", "-f", "/etc/c"]),
    );
    let found = DiscoveredService {
        role: "proxy".to_string(),
        container_name: "p\"1".to_string(),
        config_path: Some("/etc/c".to_string()),
        reload_command: vec![],
        last_confirmed: "LATER".to_string(),
    };
    let memory = Memory { discovered_services: vec![found], learned_notes: vec![] };
    let step = go_on(&host(), &mut s, task, ran(true, "", ""));
    assert_eq!(s.memory, memory);
    let task = awaiting(step, ToolAction::SaveMemory(memory));
    done(
        go_on(&host(), &mut s, task, ToolEvent::Stored(Ok(()))),
        "discovery updated memory with 1 service(s):\nproxy -> container 'p\"1', config_path Some(\"/etc/c\")",
    );
}

#[test]
fn discovery_that_finds_nothing_or_cannot_be_kept() {
    let mut s = state();
    for found in [None, Some(Err("bad".to_string()))] {
        let task = awaiting(
            start(&host(), &mut s, "discover_environment", Json::Null),
            ToolAction::LoadManifest,
        );
        let task = awaiting(
            go_on(&host(), &mut s, task, ToolEvent::Manifest(found)),
            ToolAction::SaveMemory(Memory::default()),
        );
        done(
            go_on(&host(), &mut s, task, ToolEvent::Stored(Ok(()))),
            "discovery ran — no services found (no discovery.toml mounted on this host, or none of its declared roles are currently running)",
        );
    }
    let task = awaiting(
        start(&host(), &mut s, "discover_environment", Json::Null),
        ToolAction::LoadManifest,
    );
    let task = awaiting(
        go_on(&host(), &mut s, task, ToolEvent::Manifest(None)),
        ToolAction::SaveMemory(Memory::default()),
    );
    refused(
        go_on(&host(), &mut s, task, ToolEvent::Stored(Err("disk full".to_string()))),
        "discovery ran (0 services found) but failed to persist: disk full",
    );
}

#[test]
fn the_summary_of_a_service_without_a_config_path() {
    let mut s = state();
    let mut bare = manifest();
    bare.services[0].config_candidates = vec![];
    let step = start(&host(), &mut s, "discover_environment", Json::Null);
    let task = awaiting(step, ToolAction::LoadManifest);
    let step = go_on(&host(), &mut s, task, ToolEvent::Manifest(Some(Ok(bare))));
    let task = awaiting(step, docker(&["ps", "--format", "{{.Names}}\t{{.Image}}"]));
    match go_on(&host(), &mut s, task, ran(true, "p1\tcaddy\n", "")) {
        ToolStep::Await(task, _) => done(
            go_on(&host(), &mut s, task, ToolEvent::Stored(Ok(()))),
            "discovery updated memory with 1 service(s):\nproxy -> container 'p1', config_path None",
        ),
        ToolStep::Done(r) => panic!("{:?}", r),
    }
}

#[test]
fn config_files_are_read_by_role() {
    let mut s = state_with(proxy(Some("/etc/c"), &[]));
    refused(start(&host(), &mut s, "service_config_read", Json::Null), "missing `role` argument");
    refused(
        start(&host(), &mut s, "service_config_read", args(&[("role", "db")])),
        "no discovered service for role `db` on this host — call discover_environment first, or check this host's discovery.toml",
    );
    let task = awaiting(
        start(&host(), &mut s, "service_config_read", args(&[("role", "proxy")])),
        docker(&["exec", "p1", "cat", "/etc/c"]),
    );
    done(go_on(&host(), &mut s, task, ran(true, "live", "")), "live");
    let mut bare = state_with(proxy(None, &[]));
    refused(
        start(&host(), &mut bare, "service_config_read", args(&[("role", "proxy")])),
        "role `proxy` was discovered but no config path was found among its candidates",
    );
}

fn propose(s: &mut AppState, content: &str) -> ToolTask {
    awaiting(
        start(
            &host(),
            s,
            "service_config_propose",
            args(&[("role", "proxy"), ("proposed_content", content)]),
        ),
        docker(&["exec", "p1", "cat", "/etc/c"]),
    )
}

#[test]
fn a_proposal_is_staged() {
    let mut s = state_with(proxy(Some("/etc/c"), &[]));
    let task = propose(&mut s, "new");
    done(
        go_on(&host(), &mut s, task, ran(true, "old", "")),
        "proposal_id: ID\nrole: proxy\n\n--- CURRENT ---\nold\n\n--- PROPOSED ---\nnew\n\nReview both, get Gabriel's explicit go-ahead per /data/instructions.md approval policy, then call service_config_apply with this proposal_id.",
    );
    assert_eq!(
        s.take_proposal("ID"),
        Some(ServiceProposal { role: "proxy".to_string(), content: "new".to_string() })
    );
}

#[test]
fn proposals_that_are_refused() {
    let mut s = state_with(proxy(Some("/etc/c"), &[]));
    refused(start(&host(), &mut s, "service_config_propose", Json::Null), "missing `role` argument");
    refused(
        start(&host(), &mut s, "service_config_propose", args(&[("role", "proxy")])),
        "missing `proposed_content` argument",
    );
    refused(
        start(
            &host(),
            &mut s,
            "service_config_propose",
            args(&[("role", "db"), ("proposed_content", "x")]),
        ),
        "no discovered service for role `db` on this host — call discover_environment first",
    );
    let task = propose(&mut s, "new");
    refused(
        go_on(&host(), &mut s, task, ran(false, "", "no such file")),
        "could not read current config to compare against: no such file",
    );
    assert!(!s.pending_proposals.contains_key("ID"));
    let mut bare = state_with(proxy(None, &[]));
    refused(
        start(
            &host(),
            &mut bare,
            "service_config_propose",
            args(&[("role", "proxy"), ("proposed_content", "x")]),
        ),
        "role `proxy` has no known config path",
    );
}

#[test]
fn a_proposal_gets_a_random_id() {
    let mut s = state_with(proxy(Some("/etc/c"), &[]));
    let mut ids: Vec<String> = vec![];
    for _ in 0..2 {
        let task = propose(&mut s, "new");
        match resume_tool(&host(), &mut s, task, ran(true, "old", "")) {
            ToolStep::Done(r) => {
                let line = r.output.lines().next().unwrap().to_string();
                ids.push(line.strip_prefix("proposal_id: ").unwrap().to_string());
            }
            ToolStep::Await(_, a) => panic!("{:?}", a),
        }
    }
    assert_ne!(ids[0], ids[1]);
    for id in &ids {
        let uuid = uuid::Uuid::parse_str(id).unwrap();
        assert_eq!(uuid.get_version_num(), 4);
        assert_eq!(uuid.to_string(), *id);
        assert!(s.pending_proposals.contains_key(id));
    }
}

fn staged(content: &str, reload: &[&str]) -> AppState {
    let mut s = state_with(proxy(Some("/etc/c"), reload));
    s.stage_proposal(
        "ID".to_string(),
        ServiceProposal { role: "proxy".to_string(), content: content.to_string() },
    );
    s
}

fn apply(s: &mut AppState) -> ToolStep {
    start(&host(), s, "service_config_apply", args(&[("proposal_id", "ID")]))
}

fn write_action(content: &str) -> ToolAction {
    ToolAction::Run(Command {
        program: "docker".to_string(),
        args: owned(&["exec", "-i", "p1", "tee", "/etc/c.new"]),
        input: Some(content.to_string()),
    })
}

#[test]
fn a_proposal_is_applied_once() {
    let mut s = staged("new config", &["caddy", "reload", "--config={config_path}", "{config_path}"]);
    let task = awaiting(apply(&mut s), write_action("new config"));
    assert!(!s.pending_proposals.contains_key("ID"));
    let task = awaiting(
        go_on(&host(), &mut s, task, ran(true, "", "")),
        docker(&["exec", "p1", "mv", "/etc/c.new", "/etc/c"]),
    );
    let task = awaiting(
        go_on(&host(), &mut s, task, ran(true, "", "")),
        docker(&["exec", "p1", "caddy", "reload", "--config=/etc/c", "/etc/c"]),
    );
    done(
        go_on(&host(), &mut s, task, ran(true, "reloaded", "")),
        "config written and moved into place.\nreload output: reloaded",
    );
    refused(
        apply(&mut s),
        "no pending proposal with that id — call service_config_propose first",
    );
}

#[test]
fn a_role_without_a_reload_command() {
    let mut s = staged("x", &[]);
    let task = awaiting(apply(&mut s), write_action("x"));
    let task = awaiting(
        go_on(&host(), &mut s, task, ran(true, "", "")),
        docker(&["exec", "p1", "mv", "/etc/c.new", "/etc/c"]),
    );
    done(
        go_on(&host(), &mut s, task, ran(true, "", "")),
        "config written and moved into place. No reload_command configured for this role — the service may need a manual restart (see compose_restart).",
    );
}

#[test]
fn ways_in_which_applying_fails() {
    let mut s = state();
    refused(
        start(&host(), &mut s, "service_config_apply", Json::Null),
        "missing `proposal_id` argument",
    );
    for (event, output) in [
        (not_started("no docker"), "failed to write staged config: no docker"),
        (lost("gone"), "staged write failed: gone"),
        (ran(false, "out", "denied"), "staged write failed: denied"),
    ] {
        let mut s = staged("x", &[]);
        let task = awaiting(apply(&mut s), write_action("x"));
        refused(go_on(&host(), &mut s, task, event), output);
    }
    let mut s = staged("x", &["r"]);
    let task = awaiting(apply(&mut s), write_action("x"));
    let task = awaiting(
        go_on(&host(), &mut s, task, ran(true, "", "")),
        docker(&["exec", "p1", "mv", "/etc/c.new", "/etc/c"]),
    );
    refused(
        go_on(&host(), &mut s, task, ran(false, "", "busy")),
        "failed to move staged config into place: busy",
    );
    let mut s = staged("x", &["r"]);
    let task = awaiting(apply(&mut s), write_action("x"));
    let task = awaiting(
        go_on(&host(), &mut s, task, ran(true, "", "")),
        docker(&["exec", "p1", "mv", "/etc/c.new", "/etc/c"]),
    );
    let task = awaiting(go_on(&host(), &mut s, task, ran(true, "", "")), docker(&["exec", "p1", "r"]));
    refused(
        go_on(&host(), &mut s, task, ran(false, "", "bad config")),
        "config written and moved into place.\nreload output: bad config",
    );
}

#[test]
fn applying_to_a_role_that_is_gone() {
    let mut s = staged("x", &[]);
    s.memory.discovered_services.clear();
    refused(
        apply(&mut s),
        "role `proxy` from this proposal is no longer known to this host (was memory cleared or the service removed?) — re-run discover_environment and start over",
    );
    assert!(!s.pending_proposals.contains_key("ID"));
    let mut s = staged("x", &[]);
    s.memory.discovered_services[0].config_path = None;
    refused(apply(&mut s), "service has no known config path");
}

#[test]
fn a_note_goes_to_both_places() {
    for (appended, saved, ok, output) in [
        (true, true, true, "instructions.md append: ok, memory.json save: ok"),
        (false, true, false, "instructions.md append: failed, memory.json save: ok"),
        (true, false, false, "instructions.md append: ok, memory.json save: failed"),
        (false, false, false, "instructions.md append: failed, memory.json save: failed"),
    ] {
        let mut s = state();
        let task = awaiting(
            start(&host(), &mut s, "update_instructions", args(&[("note", "be kind")])),
            ToolAction::AppendFile {
                path: "/data/instructions.md".to_string(),
                text: "\n- [NOW] be kind".to_string(),
            },
        );
        let event = |good: bool| ToolEvent::Stored(if good { Ok(()) } else { Err("e".to_string()) });
        let step = go_on(&host(), &mut s, task, event(appended));
        let memory = Memory {
            discovered_services: vec![],
            learned_notes: vec![LearnedNote {
                note: "be kind".to_string(),
                source: "hermes".to_string(),
                added: "LATER".to_string(),
            }],
        };
        assert_eq!(s.memory, memory);
        let task = awaiting(step, ToolAction::SaveMemory(memory));
        assert_eq!(
            go_on(&host(), &mut s, task, event(saved)),
            ToolStep::Done(ToolResult { ok, output: output.to_string() })
        );
    }
    let mut s = state();
    refused(start(&host(), &mut s, "update_instructions", Json::Null), "missing `note` argument");
}

#[test]
fn a_note_gets_the_current_time() {
    let mut s = state();
    let before = chrono::Utc::now();
    let step = execute_tool(&host(), &mut s, &call("update_instructions", args(&[("note", "n")])));
    match step {
        ToolStep::Await(_, ToolAction::AppendFile { text, .. }) => {
            let stamp = text.strip_prefix("\n- [").unwrap().strip_suffix("] n").unwrap();
            let stamp = chrono::DateTime::parse_from_rfc3339(stamp).unwrap();
            assert!(before <= stamp && stamp <= chrono::Utc::now());
        }
        other => panic!("{:?}", other),
    }
}

fn inspected(env: &[&str]) -> ToolEvent {
    ToolEvent::Inspected(Ok(ContainerInspect {
        config: ContainerConfig {
            env: owned(env),
            image: "img:1".to_string(),
            host_config: Err("absent".to_string()),
        },
        host_config: Some(object(vec![member("Binds", array(vec![string("/a:/b")]))])),
    }))
}

fn recreate_until_env(s: &mut AppState, env: &[&str]) -> ToolTask {
    let task = awaiting(
        start(&host(), s, "container_recreate", args(&[("container", "web")])),
        docker(&["inspect", "--format", "{{json .}}", "web"]),
    );
    let task = awaiting(
        go_on(&host(), s, task, ran(true, "{json}", "")),
        ToolAction::DecodeInspect { printed: "{json}".to_string() },
    );
    let task = awaiting(go_on(&host(), s, task, inspected(env)), docker(&["stop", "web"]));
    let task = awaiting(go_on(&host(), s, task, ran(true, "", "")), docker(&["rm", "web"]));
    awaiting(
        go_on(&host(), s, task, ran(true, "", "")),
        ToolAction::ReadFile { path: "/stack/.env".to_string() },
    )
}

#[test]
fn a_container_is_recreated() {
    let mut s = state();
    let task = recreate_until_env(&mut s, &["A=old", "PATH=/bin", "B=1"]);
    let run = ["run", "-d", "--name", "web", "-v=/a:/b", "-eA=new", "-ePATH=/bin", "-eB=1", "img:1"];
    let task = awaiting(
        go_on(&host(), &mut s, task, ToolEvent::FileRead(Ok("A=new\n".to_string()))),
        docker(&run),
    );
    done(
        go_on(&host(), &mut s, task, ran(true, " abc123\n", "")),
        "container recreated successfully.\nImage: img:1\nEnv vars applied from /stack/.env (1 vars from .env, 2 extra from original container)\nRun command: docker run -d --name web -v=/a:/b -eA=new -ePATH=/bin -eB=1 img:1\nContainer output: abc123",
    );
}

#[test]
fn a_container_is_recreated_without_an_env_file() {
    let mut s = state();
    let task = recreate_until_env(&mut s, &["A=old"]);
    let task = awaiting(
        go_on(&host(), &mut s, task, ToolEvent::FileRead(Err("absent".to_string()))),
        docker(&["run", "-d", "--name", "web", "-v=/a:/b", "-eA=old", "img:1"]),
    );
    refused(
        go_on(&host(), &mut s, task, ran(false, "out", "err")),
        "container stopped and removed but failed to re-create:\nerr\nContainer is now gone — you need to manually run:\ndocker run -d --name web -v=/a:/b -eA=old img:1\nError: out",
    );
    let task = recreate_until_env(&mut s, &["A=old"]);
    let step = go_on(&host(), &mut s, task, ToolEvent::FileRead(Err("absent".to_string())));
    let task = awaiting(step, docker(&["run", "-d", "--name", "web", "-v=/a:/b", "-eA=old", "img:1"]));
    refused(
        go_on(&host(), &mut s, task, not_started("no docker")),
        "container stopped and removed but failed to spawn docker run: no docker\nYou need to manually re-create the container.",
    );
}

#[test]
fn extra_variables_are_those_that_only_the_container_had() {
    let mut s = state();
    let task = recreate_until_env(&mut s, &["A=1", "C=3", "D=4"]);
    let step = go_on(&host(), &mut s, task, ToolEvent::FileRead(Ok("A=1\nB=2".to_string())));
    let run = [
        "run", "-d", "--name", "web", "-v=/a:/b", "-eA=1", "-eB=2", "-eC=3", "-eD=4", "img:1",
    ];
    let task = awaiting(step, docker(&run));
    done(
        go_on(&host(), &mut s, task, ran(true, "x", "")),
        "container recreated successfully.\nImage: img:1\nEnv vars applied from /stack/.env (2 vars from .env, 2 extra from original container)\nRun command: docker run -d --name web -v=/a:/b -eA=1 -eB=2 -eC=3 -eD=4 img:1\nContainer output: x",
    );
}

#[test]
fn an_env_file_with_more_variables_than_the_container() {
    let mut s = state();
    let task = recreate_until_env(&mut s, &["A=1"]);
    let step = go_on(&host(), &mut s, task, ToolEvent::FileRead(Ok("A=1\nB=2".to_string())));
    let run = ["run", "-d", "--name", "web", "-v=/a:/b", "-eA=1", "-eB=2", "img:1"];
    let task = awaiting(step, docker(&run));
    done(
        go_on(&host(), &mut s, task, ran(true, "x", "")),
        "container recreated successfully.\nImage: img:1\nEnv vars applied from /stack/.env (2 vars from .env, 0 extra from original container)\nRun command: docker run -d --name web -v=/a:/b -eA=1 -eB=2 img:1\nContainer output: x",
    );
}

#[test]
fn ways_in_which_recreating_stops_early() {
    let mut s = state();
    let begin = |s: &mut AppState| {
        awaiting(
            start(&host(), s, "container_recreate", args(&[("container", "web")])),
            docker(&["inspect", "--format", "{{json .}}", "web"]),
        )
    };
    let decode = ToolAction::DecodeInspect { printed: "P".to_string() };
    let task = begin(&mut s);
    refused(
        go_on(&host(), &mut s, task, ran(false, "", "no such object")),
        "failed to inspect container: no such object",
    );
    let task = begin(&mut s);
    let task = awaiting(go_on(&host(), &mut s, task, ran(true, "P", "")), decode);
    refused(
        go_on(&host(), &mut s, task, ToolEvent::Inspected(Err("eof".to_string()))),
        "failed to parse docker inspect JSON: eof — output was: P",
    );
    let decode = ToolAction::DecodeInspect { printed: "P".to_string() };
    let task = begin(&mut s);
    let task = awaiting(go_on(&host(), &mut s, task, ran(true, "P", "")), decode);
    let bare = ContainerInspect {
        config: ContainerConfig {
            env: vec![],
            image: "i".to_string(),
            host_config: Err("missing field `HostConfig` at line 1 column 40".to_string()),
        },
        host_config: None,
    };
    refused(
        go_on(&host(), &mut s, task, ToolEvent::Inspected(Ok(bare))),
        "failed to parse docker inspect JSON: missing field `HostConfig` at line 1 column 40 — output was: P",
    );
    let decode = ToolAction::DecodeInspect { printed: "P".to_string() };
    let task = begin(&mut s);
    let task = awaiting(go_on(&host(), &mut s, task, ran(true, "P", "")), decode);
    let task = awaiting(go_on(&host(), &mut s, task, inspected(&[])), docker(&["stop", "web"]));
    refused(go_on(&host(), &mut s, task, ran(false, "", "busy")), "stop failed: busy");
    let decode = ToolAction::DecodeInspect { printed: "P".to_string() };
    let task = begin(&mut s);
    let task = awaiting(go_on(&host(), &mut s, task, ran(true, "P", "")), decode);
    let task = awaiting(go_on(&host(), &mut s, task, inspected(&[])), docker(&["stop", "web"]));
    let task = awaiting(go_on(&host(), &mut s, task, ran(true, "", "")), docker(&["rm", "web"]));
    refused(
        go_on(&host(), &mut s, task, ran(false, "", "in use")),
        "rm failed (container may still be present): in use",
    );
}

#[test]
fn the_variables_of_a_container() {
    let mut s = state();
    let task = awaiting(
        start(&host(), &mut s, "env_get", args(&[("container", "web"), ("filter", "path")])),
        docker(&["exec", "web", "env"]),
    );
    done(go_on(&host(), &mut s, task, ran(true, "PATH=/bin\nHOME=/path\n", "")), "PATH=/bin");
    let task = awaiting(
        start(&host(), &mut s, "env_get", args(&[("container", "web")])),
        docker(&["exec", "web", "env"]),
    );
    refused(go_on(&host(), &mut s, task, ran(false, "A=1\nB=2\n", "oops\n")), "A=1\nB=2\noops");
}

fn env_update_args() -> Json {
    object(vec![member("values", args(&[("A", "x")]))])
}

#[test]
fn an_env_file_is_updated() {
    let mut s = state();
    let read = ToolAction::ReadFile { path: "/stack/.env".to_string() };
    let task = awaiting(start(&host(), &mut s, "env_update", env_update_args()), read);
    let task = awaiting(
        go_on(&host(), &mut s, task, ToolEvent::FileRead(Ok("A=1\n# c\n".to_string()))),
        ToolAction::WriteFile {
            path: "/stack/.env".to_string(),
            content: "A=x\n# c".to_string(),
        },
    );
    done(
        go_on(&host(), &mut s, task, ToolEvent::Stored(Ok(()))),
        "updated /stack/.env:\n  A: (was Some(\"1\")) -> String(\"x\")",
    );
}

#[test]
fn an_env_update_touches_the_requested_line_only() {
    let mut s = state();
    let read = ToolAction::ReadFile { path: "/stack/.env".to_string() };
    let nine = object(vec![member("values", args(&[("A", "9")]))]);
    let task = awaiting(start(&host(), &mut s, "env_update", nine), read);
    let before = "# A=1\nAB=2\nA=x=y".to_string();
    awaiting(
        go_on(&host(), &mut s, task, ToolEvent::FileRead(Ok(before))),
        ToolAction::WriteFile {
            path: "/stack/.env".to_string(),
            content: "# A=1\nAB=2\nA=9".to_string(),
        },
    );
}

#[test]
fn an_env_update_without_a_change() {
    let mut s = state();
    let read = ToolAction::ReadFile { path: "/stack/.env".to_string() };
    let task = awaiting(start(&host(), &mut s, "env_update", env_update_args()), read);
    let write = ToolAction::WriteFile {
        path: "/stack/.env".to_string(),
        content: "B=1\nA=x".to_string(),
    };
    let task = awaiting(
        go_on(&host(), &mut s, task, ToolEvent::FileRead(Ok("B=1\nA=x".to_string()))),
        write,
    );
    done(
        go_on(&host(), &mut s, task, ToolEvent::Stored(Ok(()))),
        "no changes needed — all keys already have the requested values",
    );
}

#[test]
fn env_updates_that_fail() {
    let mut s = state();
    refused(
        start(&host(), &mut s, "env_update", Json::Null),
        "missing `values` argument (must be a map)",
    );
    refused(
        start(&host(), &mut s, "env_update", args(&[("values", "A=1")])),
        "missing `values` argument (must be a map)",
    );
    refused(
        start(&host(), &mut s, "env_update", object(vec![member("values", object(vec![]))])),
        "`values` map is empty — nothing to update",
    );
    let mut there = host();
    there.compose_dir = Some("/srv".to_string());
    let read = ToolAction::ReadFile { path: "/srv/.env".to_string() };
    let task = awaiting(start(&there, &mut s, "env_update", env_update_args()), read);
    refused(
        go_on(&there, &mut s, task, ToolEvent::FileRead(Err("absent".to_string()))),
        "could not read /srv/.env: absent",
    );
    let read = ToolAction::ReadFile { path: "/srv/.env".to_string() };
    let task = awaiting(start(&there, &mut s, "env_update", env_update_args()), read);
    let write = ToolAction::WriteFile {
        path: "/srv/.env".to_string(),
        content: "A=x".to_string(),
    };
    let task = awaiting(go_on(&there, &mut s, task, ToolEvent::FileRead(Ok(String::new()))), write);
    refused(
        go_on(&there, &mut s, task, ToolEvent::Stored(Err("read-only".to_string()))),
        "failed to write /srv/.env: read-only",
    );
}

#[test]
fn tasks_accept_only_what_they_wait_for() {
    let mut s = state();
    let task = awaiting(
        start(&host(), &mut s, "discover_environment", Json::Null),
        ToolAction::LoadManifest,
    );
    assert!(task.accepts(&ToolEvent::Manifest(None)));
    assert!(!task.accepts(&ran(true, "", "")));
    assert!(!task.accepts(&ToolEvent::Stored(Ok(()))));
    assert!(!task.accepts(&ToolEvent::FileRead(Err("x".to_string()))));
    assert!(!task.accepts(&ToolEvent::Inspected(Err("x".to_string()))));
}

#[test]
fn instructions_are_written_where_there_are_none() {
    assert_eq!(ensure_instructions_file_exists(true), None);
    assert_eq!(
        ensure_instructions_file_exists(false),
        Some(ToolAction::WriteFile {
            path: "/data/instructions.md".to_string(),
            content: DEFAULT_INSTRUCTIONS_TEMPLATE.to_string(),
        })
    );
    assert!(DEFAULT_INSTRUCTIONS_TEMPLATE.starts_with("# docker-ops-agent instructions\n"));
    assert!(DEFAULT_INSTRUCTIONS_TEMPLATE.ends_with("no special marker needed to distinguish them.)\n"));
}
