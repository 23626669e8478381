use docker_ops_agent::card::{agent_card, peer_rpc_base, Settings};
use docker_ops_agent::command::{Command, CommandOutcome};
use docker_ops_agent::json::{array, member, object, string, Json, Number};
use docker_ops_agent::memory::Memory;
use docker_ops_agent::mesh::{
    call_peer, fetch_registry_peers, heartbeat_outcome, heartbeat_status, listed_peers,
    peer_answer, peer_json_answer, post_to_peer, register_agent, registry_heartbeat,
    registry_json, registry_peer_list, select_peer, Heartbeat, HeartbeatPlan, MeshCallParams, RegistryPeer,
};
use docker_ops_agent::rpc::{
    agent_card_route, follow_answer, follow_list, jsonrpc_error, jsonrpc_result, resume_rpc, resume_rpc_at, rpc_handler,
    JsonRpcRequest, Purpose, RpcAction, RpcEvent, RpcStep, RpcTask,
};
use docker_ops_agent::state::AppState;
use docker_ops_agent::task::{Host, ToolAction, ToolCall, ToolEvent};

fn owned(list: &[&str]) -> Vec<String> {
    list.iter().map(|s| s.to_string()).collect()
}

fn settings() -> Settings {
    Settings {
        host: Host {
            binaries: owned(&["docker"]),
            compose_dir: None,
            has_compose_yaml: true,
            has_compose_yml: false,
        },
        host_label: Some("h1".to_string()),
        self_card_url: None,
        registry_url: Some("http://reg".to_string()),
        registry_token: Some("rt".to_string()),
    }
}

fn state() -> AppState {
    AppState::new("secret".to_string(), Some("mesh".to_string()), Memory::default())
}

fn exited(success: bool, stdout: &str, stderr: &str) -> CommandOutcome {
    CommandOutcome::Exited {
        success,
        stdout: stdout.as_bytes().to_vec(),
        stderr: stderr.as_bytes().to_vec(),
    }
}

fn curl(args: &[&str]) -> Command {
    Command { program: "curl".to_string(), args: owned(args), input: None }
}

fn awaiting(step: RpcStep, action: RpcAction) -> RpcTask {
    match step {
        RpcStep::Await(task, named) => {
            assert_eq!(named, action);
            task
        }
        RpcStep::Reply(reply) => panic!("answered: {:?}", reply),
    }
}

fn replied(step: RpcStep, status: u16, body: &str) {
    match step {
        RpcStep::Reply(reply) => {
            assert_eq!(reply.status, status);
            assert_eq!(reply.body.to_text(), body);
        }
        RpcStep::Await(_, action) => panic!("not answered: {:?}", action),
    }
}

fn begin(s: &AppState) -> RpcTask {
    awaiting(
        rpc_handler(s, &Some(b"Bearer secret".to_vec()), vec![1, 2]),
        RpcAction::DecodeRequest { body: vec![1, 2] },
    )
}

fn go_on(settings: &Settings, s: &mut AppState, task: RpcTask, event: RpcEvent) -> RpcStep {
    assert!(task.accepts(&event));
    resume_rpc_at(settings, s, task, event, "NOW".to_string(), "ID".to_string())
}

fn request(method: &str, params: Json) -> RpcEvent {
    RpcEvent::Request(Ok(JsonRpcRequest {
        id: Some(string("r-1")),
        method: method.to_string(),
        params,
    }))
}

fn first(settings: &Settings, s: &mut AppState, method: &str, params: Json) -> RpcStep {
    let task = begin(s);
    go_on(settings, s, task, request(method, params))
}

#[test]
fn requests_without_a_valid_token_are_not_read() {
    for header in [None, Some(b"Bearer wrong".to_vec()), Some(b"secret".to_vec())] {
        replied(
            rpc_handler(&state(), &header, vec![0]),
            401,
            "{\"error\":\"missing or invalid bearer token\"}",
        );
    }
    awaiting(
        rpc_handler(&state(), &Some(b"Bearer mesh".to_vec()), vec![7]),
        RpcAction::DecodeRequest { body: vec![7] },
    );
}

#[test]
fn bodies_that_are_no_requests() {
    let mut s = state();
    let task = begin(&s);
    replied(
        go_on(&settings(), &mut s, task, RpcEvent::Request(Err("eof".to_string()))),
        400,
        "{\"error\":{\"code\":-32700,\"message\":\"parse error: eof\"},\"id\":null,\"jsonrpc\":\"2.0\"}",
    );
}

#[test]
fn ping_and_unknown_methods() {
    let mut s = state();
    replied(
        first(&settings(), &mut s, "ping", Json::Null),
        200,
        "{\"id\":\"r-1\",\"jsonrpc\":\"2.0\",\"result\":\"Pong!\"}",
    );
    replied(
        first(&settings(), &mut s, "pong", Json::Null),
        200,
        "{\"error\":{\"code\":-32601,\"message\":\"method not found: pong\"},\"id\":\"r-1\",\"jsonrpc\":\"2.0\"}",
    );
    let task = begin(&s);
    let anonymous =
        JsonRpcRequest { id: None, method: "ping".to_string(), params: Json::Null };
    replied(
        go_on(&settings(), &mut s, task, RpcEvent::Request(Ok(anonymous))),
        200,
        "{\"id\":null,\"jsonrpc\":\"2.0\",\"result\":\"Pong!\"}",
    );
}

#[test]
fn a_tool_call_from_start_to_end() {
    let mut s = state();
    let params = object(vec![member("name", string("docker_ps"))]);
    let task = awaiting(
        first(&settings(), &mut s, "tools/call", params.duplicate()),
        RpcAction::DecodeToolCall { params },
    );
    let call = ToolCall { name: "docker_ps".to_string(), arguments: Json::Null };
    let task = awaiting(
        go_on(&settings(), &mut s, task, RpcEvent::ToolCall(Ok(call))),
        RpcAction::Tool(ToolAction::Run(Command {
            program: "docker".to_string(),
            args: owned(&["ps", "--format", "{{.Names}}\t{{.Status}}"]),
            input: None,
        })),
    );
    let event = RpcEvent::Tool(ToolEvent::Ran(exited(true, "web\tUp", "")));
    replied(
        resume_rpc(&settings(), &mut s, task, event),
        200,
        "{\"id\":\"r-1\",\"jsonrpc\":\"2.0\",\"result\":{\"ok\":true,\"output\":\"web\\tUp\"}}",
    );
}

#[test]
fn tool_calls_that_are_refused() {
    let mut s = state();
    let task = awaiting(
        first(&settings(), &mut s, "tools/call", Json::Null),
        RpcAction::DecodeToolCall { params: Json::Null },
    );
    assert!(!task.accepts(&RpcEvent::Ran(exited(true, "", ""))));
    replied(
        go_on(&settings(), &mut s, task, RpcEvent::ToolCall(Err("missing name".to_string()))),
        200,
        "{\"error\":{\"code\":-32602,\"message\":\"invalid params: missing name\"},\"id\":\"r-1\",\"jsonrpc\":\"2.0\"}",
    );
    let task = awaiting(
        first(&settings(), &mut s, "tools/call", Json::Null),
        RpcAction::DecodeToolCall { params: Json::Null },
    );
    let call = ToolCall { name: "nope".to_string(), arguments: Json::Null };
    replied(
        go_on(&settings(), &mut s, task, RpcEvent::ToolCall(Ok(call))),
        200,
        "{\"id\":\"r-1\",\"jsonrpc\":\"2.0\",\"result\":{\"ok\":false,\"output\":\"unknown tool `nope` — see agent card `skills` for the allowlist\"}}",
    );
}

#[test]
fn listed_tools_are_those_on_the_card() {
    let mut s = state();
    let card = agent_card(&settings());
    let skills = card.get("skills").unwrap().to_text();
    replied(
        first(&settings(), &mut s, "tools/list", Json::Null),
        200,
        &format!("{{\"id\":\"r-1\",\"jsonrpc\":\"2.0\",\"result\":{{\"tools\":{}}}}}", skills),
    );
    let value: serde_json::Value = serde_json::from_str(&skills).unwrap();
    assert_eq!(value.as_array().unwrap().len(), 14);
}

#[test]
fn the_agent_card() {
    let mut here = settings();
    here.host.binaries = owned(&["anvil"]);
    here.host_label = None;
    here.self_card_url = Some("https://a.example/.well-known/agent-card.json".to_string());
    let reply = agent_card_route(&here);
    assert_eq!(reply.status, 200);
    let text = reply.body.to_text();
    assert_eq!(
        text,
        "{\"capabilities\":{\"streaming\":false},\"defaultInputModes\":[\"application/json\"],\"defaultOutputModes\":[\"application/json\"],\"description\":\"Host Docker/Anvil operations exposed as a narrow, allowlisted A2A tool surface, scoped to whatever tooling is actually installed on this host and whatever services this host's discovery.toml manifest declares. Does not grant raw shell or docker-socket access to callers — every operation is a named, validated function. Config-mutating tools (service_config_apply) require staging a reviewable proposal first.\",\"hostLabel\":\"unknown-host\",\"name\":\"docker-ops-agent (unknown-host)\",\"securityRequirements\":[{\"schemes\":{\"bearerAuth\":{}}}],\"securitySchemes\":{\"bearerAuth\":{\"httpAuthSecurityScheme\":{\"bearerFormat\":\"opaque\",\"description\":\"Bearer token authentication\",\"scheme\":\"bearer\"}}},\"skills\":[{\"description\":\"Run `anvil docker update --in-order <service>:<wait_seconds>`. Arguments: service (string, required), wait_seconds (integer, default 15, max 300).\",\"id\":\"anvil_docker_update\",\"name\":\"Anvil Docker Update\",\"tags\":[\"docker\",\"anvil\",\"deploy\"]}],\"supportedInterfaces\":[{\"protocolBinding\":\"JSONRPC\",\"protocolVersion\":\"1.0\",\"url\":\"https://a.example\"}],\"version\":\"0.5.0\"}"
    );
    let value: serde_json::Value = serde_json::from_str(&text).unwrap();
    assert_eq!(value.to_string(), text);
}

#[test]
fn the_address_for_requests() {
    assert_eq!(peer_rpc_base("http://x:8000/.well-known/agent-card.json"), "http://x:8000");
    assert_eq!(peer_rpc_base("http://x:8000"), "http://x:8000");
    assert_eq!(peer_rpc_base("http://x/.well-known/agent-card.json/"), "http://x/.well-known/agent-card.json/");
    assert_eq!(
        peer_rpc_base("u/.well-known/agent-card.json/.well-known/agent-card.json"),
        "u"
    );
    assert_eq!(peer_rpc_base(""), "");
}

#[test]
fn bodies_of_replies() {
    assert_eq!(
        jsonrpc_error(Some(Json::Number(Number::PosInt(4))), 7, "m").to_text(),
        "{\"error\":{\"code\":7,\"message\":\"m\"},\"id\":4,\"jsonrpc\":\"2.0\"}"
    );
    assert_eq!(
        jsonrpc_result(None, array(vec![])).to_text(),
        "{\"id\":null,\"jsonrpc\":\"2.0\",\"result\":[]}"
    );
}

fn peer(label: &str, role: &str) -> RegistryPeer {
    RegistryPeer {
        host_label: label.to_string(),
        role: role.to_string(),
        agent_card_url: format!("http://{}/.well-known/agent-card.json", label),
    }
}

fn mesh_params(label: Option<&str>, role: Option<&str>) -> MeshCallParams {
    MeshCallParams {
        host_label: label.map(|s| s.to_string()),
        role: role.map(|s| s.to_string()),
        tool_name: "docker_ps".to_string(),
        arguments: object(vec![member("a", Json::Number(Number::PosInt(1)))]),
    }
}

#[test]
fn the_peer_that_a_call_goes_to() {
    let peers = vec![peer("a", "docker-ops"), peer("b", "docker-ops"), peer("c", "other")];
    assert_eq!(select_peer(&peers, &mesh_params(Some("b"), None)), Ok(1));
    assert_eq!(select_peer(&peers, &mesh_params(None, Some("other"))), Ok(2));
    assert_eq!(select_peer(&peers, &mesh_params(Some("b"), Some("docker-ops"))), Ok(1));
    assert_eq!(
        select_peer(&peers, &mesh_params(None, Some("docker-ops"))),
        Err("2 peers match — specify host_label to disambiguate".to_string())
    );
    assert_eq!(
        select_peer(&peers, &mesh_params(None, None)),
        Err("3 peers match — specify host_label to disambiguate".to_string())
    );
    assert_eq!(
        select_peer(&peers, &mesh_params(Some("z"), None)),
        Err("no registered peer matches the given host_label/role".to_string())
    );
    assert_eq!(select_peer(&peers, &mesh_params(Some("a"), Some("other"))), Ok(0));
    assert_eq!(
        select_peer(&peers, &mesh_params(Some("z"), Some("other"))),
        Err("no registered peer matches the given host_label/role".to_string())
    );
}

#[test]
fn what_the_registry_is_asked() {
    assert_eq!(
        fetch_registry_peers(&Some("http://reg".to_string())),
        Ok(curl(&["-s", "http://reg/peers"]))
    );
    assert_eq!(
        fetch_registry_peers(&None),
        Err("REGISTRY_URL is not configured on this agent".to_string())
    );
    assert_eq!(listed_peers(&object(vec![member("peers", string("x"))])), string("x"));
    assert_eq!(listed_peers(&Json::Null), array(vec![]));
}

fn ask(settings: &Settings, s: &mut AppState, method: &str) -> RpcTask {
    awaiting(
        first(settings, s, method, Json::Null),
        RpcAction::Run(curl(&["-s", "http://reg/peers"])),
    )
}

#[test]
fn peers_are_listed() {
    let mut s = state();
    let task = ask(&settings(), &mut s, "mesh_list_peers");
    let body = "{\"count\": 1, \"peers\": [\"p\", {\"b\": -2, \"a\": 1.50}]}";
    let task = awaiting(
        go_on(&settings(), &mut s, task, RpcEvent::Ran(exited(true, body, ""))),
        RpcAction::DecodePeers {
            list: array(vec![
                string("p"),
                object(vec![
                    member("a", Json::Number(Number::Float("1.5".to_string()))),
                    member("b", Json::Number(Number::NegInt(-2))),
                ]),
            ]),
        },
    );
    replied(
        go_on(&settings(), &mut s, task, RpcEvent::Peers(Ok(vec![peer("a", "r")]))),
        200,
        "{\"id\":\"r-1\",\"jsonrpc\":\"2.0\",\"result\":{\"peers\":[{\"agent_card_url\":\"http://a/.well-known/agent-card.json\",\"host_label\":\"a\",\"role\":\"r\"}]}}",
    );
}

fn error_reply(code: &str, message: &str) -> String {
    format!(
        "{{\"error\":{{\"code\":{},\"message\":\"{}\"}},\"id\":\"r-1\",\"jsonrpc\":\"2.0\"}}",
        code, message
    )
}

#[test]
fn peers_that_cannot_be_listed() {
    let mut s = state();
    let mut alone = settings();
    alone.registry_url = None;
    replied(
        first(&alone, &mut s, "mesh_list_peers", Json::Null),
        200,
        &error_reply("-32000", "REGISTRY_URL is not configured on this agent"),
    );
    let task = ask(&settings(), &mut s, "mesh_list_peers");
    replied(
        go_on(&settings(), &mut s, task, RpcEvent::Ran(exited(false, "x", "no route"))),
        200,
        &error_reply("-32000", "registry request exited non-zero: no route"),
    );
    let task = ask(&settings(), &mut s, "mesh_list_peers");
    let gone = CommandOutcome::NotStarted { error: "no curl".to_string() };
    replied(
        go_on(&settings(), &mut s, task, RpcEvent::Ran(gone)),
        200,
        &error_reply("-32000", "failed to reach registry: no curl"),
    );
    let task = ask(&settings(), &mut s, "mesh_list_peers");
    replied(
        go_on(&settings(), &mut s, task, RpcEvent::Ran(exited(true, "", ""))),
        200,
        &error_reply(
            "-32000",
            "registry returned invalid JSON: EOF while parsing a value at line 1 column 0",
        ),
    );
    let task = ask(&settings(), &mut s, "mesh_list_peers");
    let task = awaiting(
        go_on(&settings(), &mut s, task, RpcEvent::Ran(exited(true, "null", ""))),
        RpcAction::DecodePeers { list: array(vec![]) },
    );
    replied(
        go_on(&settings(), &mut s, task, RpcEvent::Peers(Err("not a list".to_string()))),
        200,
        &error_reply("-32000", "could not parse peer list: not a list"),
    );
}

fn mesh_until_peers(s: &mut AppState, params: MeshCallParams) -> RpcTask {
    let task = awaiting(
        first(&settings(), s, "mesh_call", string("raw")),
        RpcAction::DecodeMeshCall { params: string("raw") },
    );
    let task = awaiting(
        go_on(&settings(), s, task, RpcEvent::MeshCall(Ok(params))),
        RpcAction::Run(curl(&["-s", "http://reg/peers"])),
    );
    awaiting(
        go_on(&settings(), s, task, RpcEvent::Ran(exited(true, "{}", ""))),
        RpcAction::DecodePeers { list: array(vec![]) },
    )
}

fn peer_call() -> Command {
    curl(&[
        "-s", "-X", "POST", "http://b", "-H", "Authorization: Bearer mesh", "-H",
        "Content-Type: application/json", "-d",
        "{\"id\":1,\"jsonrpc\":\"2.0\",\"method\":\"tools/call\",\"params\":{\"arguments\":{\"a\":1},\"name\":\"docker_ps\"}}",
    ])
}

#[test]
fn a_call_to_a_peer() {
    let mut s = state();
    let task = mesh_until_peers(&mut s, mesh_params(Some("b"), None));
    let peers = vec![peer("a", "r"), peer("b", "r")];
    let task = awaiting(
        go_on(&settings(), &mut s, task, RpcEvent::Peers(Ok(peers))),
        RpcAction::Run(peer_call()),
    );
    let reply = " {\"result\": {\"ok\": true, \"output\": \"\\u0041\"}, \"id\": 1}\n";
    replied(
        go_on(&settings(), &mut s, task, RpcEvent::Ran(exited(true, reply, ""))),
        200,
        "{\"id\":\"r-1\",\"jsonrpc\":\"2.0\",\"result\":{\"id\":1,\"result\":{\"ok\":true,\"output\":\"A\"}}}",
    );
    assert_eq!(post_to_peer("http://b", "mesh", "{}").args[9], "{}");
    assert_eq!(
        call_peer("http://b", "mesh", "docker_ps", mesh_params(None, None).arguments),
        peer_call()
    );
}

#[test]
fn calls_to_peers_that_fail() {
    let mut lone = AppState::new("secret".to_string(), None, Memory::default());
    replied(
        first(&settings(), &mut lone, "mesh_call", Json::Null),
        200,
        &error_reply(
            "-32001",
            "MESH_AUTH_TOKEN is not configured on this agent — cannot make outbound mesh calls",
        ),
    );
    let mut s = state();
    let task = awaiting(
        first(&settings(), &mut s, "mesh_call", Json::Null),
        RpcAction::DecodeMeshCall { params: Json::Null },
    );
    replied(
        go_on(&settings(), &mut s, task, RpcEvent::MeshCall(Err("missing tool_name".to_string()))),
        200,
        &error_reply("-32001", "invalid mesh_call params: missing tool_name"),
    );
    let mut alone = settings();
    alone.registry_url = None;
    let task = awaiting(
        first(&alone, &mut s, "mesh_call", Json::Null),
        RpcAction::DecodeMeshCall { params: Json::Null },
    );
    replied(
        go_on(&alone, &mut s, task, RpcEvent::MeshCall(Ok(mesh_params(None, None)))),
        200,
        &error_reply("-32001", "REGISTRY_URL is not configured on this agent"),
    );
    let task = mesh_until_peers(&mut s, mesh_params(Some("z"), None));
    replied(
        go_on(&settings(), &mut s, task, RpcEvent::Peers(Ok(vec![peer("a", "r")]))),
        200,
        &error_reply("-32001", "no registered peer matches the given host_label/role"),
    );
    for (outcome, message) in [
        (exited(false, "", "refused"), "peer request exited non-zero: refused"),
        (CommandOutcome::Lost { error: "gone".to_string() }, "failed to reach peer: gone"),
    ] {
        let task = mesh_until_peers(&mut s, mesh_params(Some("b"), None));
        let task = awaiting(
            go_on(&settings(), &mut s, task, RpcEvent::Peers(Ok(vec![peer("b", "r")]))),
            RpcAction::Run(peer_call()),
        );
        replied(
            go_on(&settings(), &mut s, task, RpcEvent::Ran(outcome)),
            200,
            &error_reply("-32001", message),
        );
    }
    let task = mesh_until_peers(&mut s, mesh_params(Some("b"), None));
    let task = awaiting(
        go_on(&settings(), &mut s, task, RpcEvent::Peers(Ok(vec![peer("b", "r")]))),
        RpcAction::Run(peer_call()),
    );
    replied(
        go_on(&settings(), &mut s, task, RpcEvent::Ran(exited(true, "<html>", ""))),
        200,
        &error_reply(
            "-32001",
            "peer returned invalid JSON: expected value at line 1 column 1",
        ),
    );
}

#[test]
fn what_follows_a_decoded_reply() {
    let body = object(vec![member("peers", string("x"))]);
    assert_eq!(registry_json(Ok(body)), Ok(string("x")));
    assert_eq!(registry_json(Ok(Json::Null)), Ok(array(vec![])));
    assert_eq!(
        registry_json(Err("e".to_string())),
        Err("registry returned invalid JSON: e".to_string())
    );
    assert_eq!(peer_json_answer(Ok(string("x"))), Ok(string("x")));
    assert_eq!(
        peer_json_answer(Err("e".to_string())),
        Err("peer returned invalid JSON: e".to_string())
    );
    assert_eq!(peer_answer(exited(true, "[1, 2]", "")).map(|j| j.to_text()), Ok("[1,2]".to_string()));
    assert_eq!(
        registry_peer_list(exited(true, "{\"peers\":[]}", "")),
        Ok(array(vec![]))
    );
    replied(
        follow_answer(None, Ok(string("x"))),
        200,
        "{\"id\":null,\"jsonrpc\":\"2.0\",\"result\":\"x\"}",
    );
    awaiting(
        follow_list(None, Purpose::List, Ok(string("x"))),
        RpcAction::DecodePeers { list: string("x") },
    );
}

#[test]
fn how_the_agent_announces_itself() {
    assert_eq!(
        registry_heartbeat(&settings()),
        HeartbeatPlan::Beat {
            command: curl(&[
                "-s", "-o", "/dev/null", "-w", "%{http_code}", "-X", "POST", "http://reg/register",
                "-H", "X-Registry-Token: rt", "-H", "Content-Type: application/json", "-d",
                "{\"agent_card_url\":\"http://docker-ops-agent:8000/.well-known/agent-card.json\",\"host_label\":\"h1\",\"role\":\"docker-ops\",\"ttl_seconds\":90}",
            ]),
            every_seconds: 30,
        }
    );
    assert_eq!(register_agent("http://reg", "rt", "P").args[7], "http://reg/register");
    assert_eq!(register_agent("http://reg", "rt", "P").args[13], "P");
    let mut here = settings();
    here.registry_token = None;
    assert_eq!(registry_heartbeat(&here), HeartbeatPlan::NoToken);
    here.registry_url = None;
    assert_eq!(registry_heartbeat(&here), HeartbeatPlan::NoRegistry);
}

#[test]
fn what_comes_of_an_announcement() {
    assert_eq!(heartbeat_outcome(exited(true, "200", "")), Heartbeat::Taken);
    assert_eq!(heartbeat_outcome(exited(false, "200", "")), Heartbeat::Taken);
    assert_eq!(heartbeat_outcome(exited(true, "500", "")), Heartbeat::Status("500".to_string()));
    assert_eq!(
        heartbeat_outcome(CommandOutcome::NotStarted { error: "e".to_string() }),
        Heartbeat::NotSent("e".to_string())
    );
    assert_eq!(heartbeat_status("200\n".to_string()), Heartbeat::Status("200\n".to_string()));
}
