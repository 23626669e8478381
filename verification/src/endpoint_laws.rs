//! What the endpoint answers, from the bytes of a request to the members of a
//! reply, and what goes out to the mesh.

use vstd::prelude::*;
use crate::auth::authorized;
use crate::card::{CARD_DESCRIPTION, SettingsView, card, rpc_base, skills, string_array};
use crate::command::{CommandView, OutcomeView};
use crate::execute::start_call;
use crate::json::{JsonView, NumberView, json_text, lemma_lookup_at};
use crate::mesh::{HeartbeatView, MeshCallView, PeerView, PlanView, heard, heartbeat, peers_json,
    selected};
use crate::outside::{ascii_text, json_parsed, lossy_text};
use crate::resume::next_step;
use crate::rpc::{PurposeView, ReplyView, RequestView, RpcActionView, RpcEventView, RpcStepView,
    RpcTaskView, answered, answered_error, error_body, result_body, rpc_next, start_request};
use crate::state::StateView;
use crate::task::{EventView, StepView, TaskView, ToolCallView};
use crate::text::has_prefix;
use crate::text_laws::law_every_copy_of_an_end_is_taken_off;
use crate::tools::{Tool, all_tools, present_of, published, usable};

verus! {

// Who gets in.

/// A request passes exactly with a header of visible ASCII characters, spaces and
/// tabs that reads `Bearer `, and then all of the agent's token or all of the
/// mesh's, and nothing else.
pub proof fn law_who_gets_in(state: StateView, header: Option<Seq<u8>>)
    ensures
        authorized(state, header) <==> (header matches Some(bytes) && (forall|i: int|
            0 <= i < bytes.len() ==> (#[trigger] bytes[i] == 9 || 32 <= bytes[i] <= 126)) && {
            let text = Seq::new(bytes.len(), |i: int| bytes[i] as char);
            ||| text == "Bearer "@ + state.bearer_token
            ||| state.mesh_token is Some && text == "Bearer "@ + state.mesh_token->0
        }),
{
    if let Some(bytes) = header {
        let text = Seq::new(bytes.len(), |i: int| bytes[i] as char);
        assert(text == ascii_text(bytes));
        let p = "Bearer "@;
        if has_prefix(text, p) {
            assert(text =~= p + text.skip(p.len() as int));
        }
        assert((p + state.bearer_token).take(p.len() as int) =~= p);
        assert((p + state.bearer_token).skip(p.len() as int) =~= state.bearer_token);
        if let Some(token) = state.mesh_token {
            assert((p + token).take(p.len() as int) =~= p);
            assert((p + token).skip(p.len() as int) =~= token);
        }
    }
}

/// A request that does not pass is answered with status 401 and an error; the body
/// of one that passes is decoded whole.
pub proof fn law_requests_without_a_token(
    state: StateView,
    header: Option<Seq<u8>>,
    body: Seq<u8>,
)
    ensures
        !authorized(state, header) ==> start_request(state, header, body) == RpcStepView::Reply(
            ReplyView {
                status: 401,
                body: JsonView::Object(
                    seq![("error"@, JsonView::String("missing or invalid bearer token"@))],
                ),
            },
        ),
        authorized(state, header) ==> start_request(state, header, body) == RpcStepView::Await(
            RpcTaskView::Reading,
            RpcActionView::DecodeRequest { body },
        ),
{
}

// Replies.

/// A reply with a result: the identifier of the request, null where it had none,
/// the version and the result.
pub open spec fn result_reply(id: Option<JsonView>, result: JsonView) -> RpcStepView {
    RpcStepView::Reply(
        ReplyView {
            status: 200,
            body: JsonView::Object(
                seq![
                    (
                        "id"@,
                        match id {
                            Some(id) => id,
                            None => JsonView::Null,
                        },
                    ),
                    ("jsonrpc"@, JsonView::String("2.0"@)),
                    ("result"@, result),
                ],
            ),
        },
    )
}

/// A reply with an error: its code and message, the identifier of the request and
/// the version.
pub open spec fn error_reply(
    status: u16,
    id: Option<JsonView>,
    code: int,
    message: Seq<char>,
) -> RpcStepView {
    RpcStepView::Reply(
        ReplyView {
            status,
            body: JsonView::Object(
                seq![
                    (
                        "error"@,
                        JsonView::Object(
                            seq![
                                ("code"@, JsonView::Number(NumberView::NegInt(code as i64))),
                                ("message"@, JsonView::String(message)),
                            ],
                        ),
                    ),
                    (
                        "id"@,
                        match id {
                            Some(id) => id,
                            None => JsonView::Null,
                        },
                    ),
                    ("jsonrpc"@, JsonView::String("2.0"@)),
                ],
            ),
        },
    )
}

proof fn lemma_replies()
    ensures
        forall|id: Option<JsonView>, result: JsonView|
            #[trigger] answered(id, result) == result_reply(id, result),
        forall|id: Option<JsonView>, code: i64, message: Seq<char>|
            code < 0 ==> #[trigger] answered_error(id, code, message) == error_reply(
                200,
                id,
                code as int,
                message,
            ),
        forall|id: Option<JsonView>, code: i64, message: Seq<char>|
            code < 0 ==> RpcStepView::Reply(
                ReplyView { status: 400, body: #[trigger] error_body(id, code, message) },
            ) == error_reply(400, id, code as int, message),
{
    assert forall|id: Option<JsonView>, result: JsonView|
        #[trigger] answered(id, result) == result_reply(id, result) by {
        let body = result_reply(id, result)->Reply_0.body;
        assert(result_body(id, result)->Object_0 =~= body->Object_0);
    }
    assert forall|id: Option<JsonView>, code: i64, message: Seq<char>| code < 0 implies {
        &&& #[trigger] error_body(id, code, message) == error_reply(
            200,
            id,
            code as int,
            message,
        )->Reply_0.body
        &&& error_body(id, code, message) == error_reply(
            400,
            id,
            code as int,
            message,
        )->Reply_0.body
    } by {
        let body = error_reply(200, id, code as int, message)->Reply_0.body;
        let error = error_body(id, code, message)->Object_0[0].1;
        assert(error->Object_0 =~= body->Object_0[0].1->Object_0);
        assert(error_body(id, code, message)->Object_0 =~= body->Object_0);
    }
}

/// What comes of a request that was read, by its method. The state does not
/// change.
pub open spec fn for_method(
    settings: SettingsView,
    state: StateView,
    id: Option<JsonView>,
    method: Seq<char>,
    params: JsonView,
    now: Seq<char>,
    fresh: Seq<char>,
) -> RpcStepView {
    rpc_next(
        settings,
        state,
        RpcTaskView::Reading,
        RpcEventView::Request(Ok(RequestView { id, method, params })),
        now,
        fresh,
    ).1
}

proof fn lemma_methods_differ()
    ensures
        "tools/call"@ != "tools/list"@,
        "mesh_list_peers"@ != "tools/call"@,
        "mesh_list_peers"@ != "tools/list"@,
        "mesh_call"@ != "tools/call"@,
        "mesh_call"@ != "tools/list"@,
        "mesh_call"@ != "mesh_list_peers"@,
        "ping"@ != "tools/call"@,
        "ping"@ != "tools/list"@,
        "ping"@ != "mesh_list_peers"@,
        "ping"@ != "mesh_call"@,
{
    reveal_strlit("tools/call");
    reveal_strlit("tools/list");
    reveal_strlit("mesh_list_peers");
    reveal_strlit("mesh_call");
    reveal_strlit("ping");
    assert("tools/list"@[6] == 'l');
    assert("tools/call"@[6] == 'c');
    assert("mesh_call"@.len() == 9);
    assert("ping"@.len() == 4);
    assert("mesh_list_peers"@.len() == 15);
    assert("tools/call"@.len() == 10);
    assert("tools/list"@.len() == 10);
}

/// The endpoint has five methods. A tool call and a mesh call have their
/// parameters decoded whole; the list of tools and the ping are answered at once;
/// the list of peers is asked of the registry. Any other method is an error that
/// names it, and so is a request that could not be read.
pub proof fn law_methods_of_the_endpoint(
    settings: SettingsView,
    state: StateView,
    id: Option<JsonView>,
    method: Seq<char>,
    params: JsonView,
    error: Seq<char>,
    now: Seq<char>,
    fresh: Seq<char>,
)
    ensures
        for_method(settings, state, id, "tools/call"@, params, now, fresh) == RpcStepView::Await(
            RpcTaskView::ReadingCall { id },
            RpcActionView::DecodeToolCall { params },
        ),
        for_method(settings, state, id, "tools/list"@, params, now, fresh) == result_reply(
            id,
            JsonView::Object(seq![("tools"@, skills(settings.host.binaries))]),
        ),
        for_method(settings, state, id, "ping"@, params, now, fresh) == result_reply(
            id,
            JsonView::String("Pong!"@),
        ),
        settings.registry_url matches Some(url) ==> for_method(
            settings,
            state,
            id,
            "mesh_list_peers"@,
            params,
            now,
            fresh,
        ) == asking(id, PurposeView::List, url),
        settings.registry_url is None ==> for_method(
            settings,
            state,
            id,
            "mesh_list_peers"@,
            params,
            now,
            fresh,
        ) == error_reply(200, id, -32000, "REGISTRY_URL is not configured on this agent"@),
        state.mesh_token matches Some(mesh_token) ==> for_method(
            settings,
            state,
            id,
            "mesh_call"@,
            params,
            now,
            fresh,
        ) == RpcStepView::Await(
            RpcTaskView::ReadingMeshCall { id, mesh_token },
            RpcActionView::DecodeMeshCall { params },
        ),
        state.mesh_token is None ==> for_method(
            settings,
            state,
            id,
            "mesh_call"@,
            params,
            now,
            fresh,
        ) == error_reply(
            200,
            id,
            -32001,
            "MESH_AUTH_TOKEN is not configured on this agent — cannot make outbound mesh calls"@,
        ),
        method != "tools/call"@ && method != "tools/list"@ && method != "ping"@ && method
            != "mesh_list_peers"@ && method != "mesh_call"@ ==> for_method(
            settings,
            state,
            id,
            method,
            params,
            now,
            fresh,
        ) == error_reply(200, id, -32601, "method not found: "@ + method),
        rpc_next(
            settings,
            state,
            RpcTaskView::Reading,
            RpcEventView::Request(Ok(RequestView { id, method, params })),
            now,
            fresh,
        ).0 == state,
        rpc_next(
            settings,
            state,
            RpcTaskView::Reading,
            RpcEventView::Request(Err(error)),
            now,
            fresh,
        ) == (state, error_reply(400, None, -32700, "parse error: "@ + error)),
{
    lemma_replies();
    lemma_methods_differ();
}

/// A tool call is run as it was decoded, and its result comes back with all of its
/// output; one that could not be decoded is an error.
pub proof fn law_tool_calls_are_answered(
    settings: SettingsView,
    state: StateView,
    id: Option<JsonView>,
    call: ToolCallView,
    task: TaskView,
    event: EventView,
    error: Seq<char>,
    now: Seq<char>,
    fresh: Seq<char>,
)
    ensures
        ({
            let begun = rpc_next(
                settings,
                state,
                RpcTaskView::ReadingCall { id },
                RpcEventView::ToolCall(Ok(call)),
                now,
                fresh,
            );
            &&& begun.0 == start_call(settings.host, state, call, now).0
            &&& passed_on(id, start_call(settings.host, state, call, now).1, begun.1)
        }),
        ({
            let later = rpc_next(
                settings,
                state,
                RpcTaskView::Working { id, task },
                RpcEventView::Tool(event),
                now,
                fresh,
            );
            &&& later.0 == next_step(settings.host, state, task, event, now, fresh).0
            &&& passed_on(id, next_step(settings.host, state, task, event, now, fresh).1, later.1)
        }),
        rpc_next(
            settings,
            state,
            RpcTaskView::ReadingCall { id },
            RpcEventView::ToolCall(Err(error)),
            now,
            fresh,
        ) == (state, error_reply(200, id, -32602, "invalid params: "@ + error)),
{
    lemma_replies();
}

/// Whether a step of the endpoint passes a step of a tool on: its result, with
/// whether it succeeded and all of its output, or its task and action.
pub open spec fn passed_on(id: Option<JsonView>, step: StepView, reply: RpcStepView) -> bool {
    match step {
        StepView::Done(result) => reply == result_reply(
            id,
            JsonView::Object(
                seq![
                    ("ok"@, JsonView::Bool(result.ok)),
                    ("output"@, JsonView::String(result.output)),
                ],
            ),
        ),
        StepView::Await(task, action) => reply == RpcStepView::Await(
            RpcTaskView::Working { id, task },
            RpcActionView::Tool(action),
        ),
    }
}

// The mesh.

/// A request to the registry for its list of peers.
pub open spec fn asking(id: Option<JsonView>, purpose: PurposeView, url: Seq<char>) -> RpcStepView {
    RpcStepView::Await(
        RpcTaskView::Asking { id, purpose },
        RpcActionView::Run(
            CommandView { program: "curl"@, args: seq!["-s"@, url + "/peers"@], input: None },
        ),
    )
}

/// The code of an error on the way to a list of peers, or to a peer.
pub open spec fn mesh_code(purpose: PurposeView) -> int {
    match purpose {
        PurposeView::List => -32000,
        PurposeView::Call { .. } => -32001,
    }
}

/// A mesh call asks the registry for its peers, with the parameters as they were
/// decoded; without a registry, or with parameters that could not be decoded, it
/// is an error.
pub proof fn law_mesh_call_asks_the_registry(
    settings: SettingsView,
    state: StateView,
    id: Option<JsonView>,
    mesh_token: Seq<char>,
    params: MeshCallView,
    error: Seq<char>,
    now: Seq<char>,
    fresh: Seq<char>,
)
    ensures
        ({
            let task = RpcTaskView::ReadingMeshCall { id, mesh_token };
            let asked = rpc_next(
                settings,
                state,
                task,
                RpcEventView::MeshCall(Ok(params)),
                now,
                fresh,
            );
            &&& asked.0 == state
            &&& asked.1 == match settings.registry_url {
                Some(url) => asking(id, PurposeView::Call { mesh_token, params }, url),
                None => error_reply(
                    200,
                    id,
                    -32001,
                    "REGISTRY_URL is not configured on this agent"@,
                ),
            }
            &&& rpc_next(settings, state, task, RpcEventView::MeshCall(Err(error)), now, fresh) == (
                state,
                error_reply(200, id, -32001, "invalid mesh_call params: "@ + error),
            )
        }),
{
    lemma_replies();
}

/// What the registry printed is parsed, and the value under its first `peers`
/// decoded; a reply without that member has no peers. A registry that could not be
/// asked, or whose reply is no JSON, is an error with all that it told.
pub proof fn law_registry_reply_is_decoded(
    settings: SettingsView,
    state: StateView,
    id: Option<JsonView>,
    purpose: PurposeView,
    success: bool,
    stdout: Seq<u8>,
    stderr: Seq<u8>,
    error: Seq<char>,
    now: Seq<char>,
    fresh: Seq<char>,
)
    ensures
        ({
            let task = RpcTaskView::Asking { id, purpose };
            let heard = rpc_next(
                settings,
                state,
                task,
                RpcEventView::Ran(OutcomeView::Exited { success, stdout, stderr }),
                now,
                fresh,
            );
            &&& heard.0 == state
            &&& success ==> match json_parsed(stdout) {
                Ok(body) => heard.1 == RpcStepView::Await(
                    RpcTaskView::ReadingPeers { id, purpose },
                    RpcActionView::DecodePeers {
                        list: match body.get("peers"@) {
                            Some(list) => list,
                            None => JsonView::Array(Seq::empty()),
                        },
                    },
                ),
                Err(e) => heard.1 == error_reply(
                    200,
                    id,
                    mesh_code(purpose),
                    "registry returned invalid JSON: "@ + e,
                ),
            }
            &&& !success ==> heard.1 == error_reply(
                200,
                id,
                mesh_code(purpose),
                "registry request exited non-zero: "@ + lossy_text(stderr),
            )
            &&& rpc_next(
                settings,
                state,
                task,
                RpcEventView::Ran(OutcomeView::NotStarted { error }),
                now,
                fresh,
            ) == (
                state,
                error_reply(200, id, mesh_code(purpose), "failed to reach registry: "@ + error),
            )
            &&& rpc_next(
                settings,
                state,
                task,
                RpcEventView::Ran(OutcomeView::Lost { error }),
                now,
                fresh,
            ) == (
                state,
                error_reply(200, id, mesh_code(purpose), "failed to reach registry: "@ + error),
            )
        }),
{
    lemma_replies();
}

/// A request for the list of peers is answered with every peer, in order and with
/// all that is known of it.
pub proof fn law_every_peer_is_listed(
    settings: SettingsView,
    state: StateView,
    id: Option<JsonView>,
    purpose: PurposeView,
    peers: Seq<PeerView>,
    error: Seq<char>,
    now: Seq<char>,
    fresh: Seq<char>,
)
    ensures
        rpc_next(
            settings,
            state,
            RpcTaskView::ReadingPeers { id, purpose: PurposeView::List },
            RpcEventView::Peers(Ok(peers)),
            now,
            fresh,
        ) == (
            state,
            result_reply(
                id,
                JsonView::Object(
                    seq![
                        (
                            "peers"@,
                            JsonView::Array(
                                Seq::new(
                                    peers.len(),
                                    |i: int|
                                        JsonView::Object(
                                            seq![
                                                (
                                                    "agent_card_url"@,
                                                    JsonView::String(peers[i].agent_card_url),
                                                ),
                                                (
                                                    "host_label"@,
                                                    JsonView::String(peers[i].host_label),
                                                ),
                                                ("role"@, JsonView::String(peers[i].role)),
                                            ],
                                        ),
                                ),
                            ),
                        ),
                    ],
                ),
            ),
        ),
        rpc_next(
            settings,
            state,
            RpcTaskView::ReadingPeers { id, purpose },
            RpcEventView::Peers(Err(error)),
            now,
            fresh,
        ) == (
            state,
            error_reply(200, id, mesh_code(purpose), "could not parse peer list: "@ + error),
        ),
{
    lemma_replies();
    assert(peers_json(peers)->Array_0 =~= Seq::new(
        peers.len(),
        |i: int|
            JsonView::Object(
                seq![
                    ("agent_card_url"@, JsonView::String(peers[i].agent_card_url)),
                    ("host_label"@, JsonView::String(peers[i].host_label)),
                    ("role"@, JsonView::String(peers[i].role)),
                ],
            ),
    ));
}

/// A mesh call posts to the selected peer, with the mesh's token, the name of the
/// tool and the arguments as they were given. Where no peer is selected, that is
/// the error.
pub proof fn law_mesh_call_posts_to_the_peer(
    settings: SettingsView,
    state: StateView,
    id: Option<JsonView>,
    mesh_token: Seq<char>,
    params: MeshCallView,
    peers: Seq<PeerView>,
    now: Seq<char>,
    fresh: Seq<char>,
)
    ensures
        ({
            let called = rpc_next(
                settings,
                state,
                RpcTaskView::ReadingPeers { id, purpose: PurposeView::Call { mesh_token, params } },
                RpcEventView::Peers(Ok(peers)),
                now,
                fresh,
            );
            let payload = JsonView::Object(
                seq![
                    ("id"@, JsonView::Number(NumberView::PosInt(1))),
                    ("jsonrpc"@, JsonView::String("2.0"@)),
                    ("method"@, JsonView::String("tools/call"@)),
                    (
                        "params"@,
                        JsonView::Object(
                            seq![
                                ("arguments"@, params.arguments),
                                ("name"@, JsonView::String(params.tool_name)),
                            ],
                        ),
                    ),
                ],
            );
            &&& called.0 == state
            &&& called.1 == match selected(peers, params) {
                Ok(peer) => RpcStepView::Await(
                    RpcTaskView::Calling { id },
                    RpcActionView::Run(
                        CommandView {
                            program: "curl"@,
                            args: seq![
                                "-s"@,
                                "-X"@,
                                "POST"@,
                                rpc_base(peer.agent_card_url),
                                "-H"@,
                                "Authorization: Bearer "@ + mesh_token,
                                "-H"@,
                                "Content-Type: application/json"@,
                                "-d"@,
                                json_text(payload),
                            ],
                            input: None,
                        },
                    ),
                ),
                Err(e) => error_reply(200, id, -32001, e),
            }
        }),
{
    lemma_replies();
}

/// What the peer printed is parsed and comes back as the result; a peer that could
/// not be reached, or whose reply is no JSON, is an error with all that it told.
pub proof fn law_peer_reply_comes_back(
    settings: SettingsView,
    state: StateView,
    id: Option<JsonView>,
    success: bool,
    stdout: Seq<u8>,
    stderr: Seq<u8>,
    error: Seq<char>,
    now: Seq<char>,
    fresh: Seq<char>,
)
    ensures
        ({
            let task = RpcTaskView::Calling { id };
            let heard = rpc_next(
                settings,
                state,
                task,
                RpcEventView::Ran(OutcomeView::Exited { success, stdout, stderr }),
                now,
                fresh,
            );
            &&& heard.0 == state
            &&& success ==> match json_parsed(stdout) {
                Ok(value) => heard.1 == result_reply(id, value),
                Err(e) => heard.1 == error_reply(
                    200,
                    id,
                    -32001,
                    "peer returned invalid JSON: "@ + e,
                ),
            }
            &&& !success ==> heard.1 == error_reply(
                200,
                id,
                -32001,
                "peer request exited non-zero: "@ + lossy_text(stderr),
            )
            &&& rpc_next(
                settings,
                state,
                task,
                RpcEventView::Ran(OutcomeView::NotStarted { error }),
                now,
                fresh,
            ) == (state, error_reply(200, id, -32001, "failed to reach peer: "@ + error))
            &&& rpc_next(
                settings,
                state,
                task,
                RpcEventView::Ran(OutcomeView::Lost { error }),
                now,
                fresh,
            ) == (state, error_reply(200, id, -32001, "failed to reach peer: "@ + error))
        }),
{
    lemma_replies();
}

/// The agent announces itself to the registry every 30 seconds, for 90 seconds at
/// a time, under its label and the address of its card; without an address or a
/// token for the registry it does not.
pub proof fn law_agent_announces_itself(settings: SettingsView)
    ensures
        heartbeat(settings) == match (settings.registry_url, settings.registry_token) {
            (None, _) => PlanView::NoRegistry,
            (Some(_), None) => PlanView::NoToken,
            (Some(url), Some(token)) => PlanView::Beat {
                command: CommandView {
                    program: "curl"@,
                    args: seq![
                        "-s"@,
                        "-o"@,
                        "/dev/null"@,
                        "-w"@,
                        "%{http_code}"@,
                        "-X"@,
                        "POST"@,
                        url + "/register"@,
                        "-H"@,
                        "X-Registry-Token: "@ + token,
                        "-H"@,
                        "Content-Type: application/json"@,
                        "-d"@,
                        json_text(
                            JsonView::Object(
                                seq![
                                    ("agent_card_url"@, JsonView::String(card_address(settings))),
                                    ("host_label"@, JsonView::String(host_name(settings))),
                                    ("role"@, JsonView::String("docker-ops"@)),
                                    ("ttl_seconds"@, JsonView::Number(NumberView::PosInt(90))),
                                ],
                            ),
                        ),
                    ],
                    input: None,
                },
                every_seconds: 30,
            },
        },
{
}

/// The label of the host.
pub open spec fn host_name(settings: SettingsView) -> Seq<char> {
    match settings.host_label {
        Some(label) => label,
        None => "unknown-host"@,
    }
}

/// The address of the agent's card.
pub open spec fn card_address(settings: SettingsView) -> Seq<char> {
    match settings.self_card_url {
        Some(url) => url,
        None => "http://docker-ops-agent:8000/.well-known/agent-card.json"@,
    }
}

/// An announcement was taken exactly where the registry answered with the code
/// 200; any other code, and an error, is told as it is.
pub proof fn law_announcement_is_taken_with_200(
    success: bool,
    stdout: Seq<u8>,
    stderr: Seq<u8>,
    error: Seq<char>,
)
    ensures
        heard(OutcomeView::Exited { success, stdout, stderr }) == if lossy_text(stdout) == "200"@ {
            HeartbeatView::Taken
        } else {
            HeartbeatView::Status(lossy_text(stdout))
        },
        heard(OutcomeView::NotStarted { error }) == HeartbeatView::NotSent(error),
        heard(OutcomeView::Lost { error }) == HeartbeatView::NotSent(error),
{
}

// The card.

/// The card tells the host's label, the address for requests and the tools that
/// the host can run, and that a bearer token is needed.
pub proof fn law_card_tells_the_host(settings: SettingsView)
    ensures
        card(settings).get("hostLabel"@) == Some(JsonView::String(host_name(settings))),
        card(settings).get("name"@) == Some(
            JsonView::String("docker-ops-agent ("@ + host_name(settings) + ")"@),
        ),
        card(settings).get("skills"@) == Some(skills(settings.host.binaries)),
        card(settings).get("version"@) == Some(JsonView::String("0.5.0"@)),
        card(settings).get("supportedInterfaces"@) == Some(
            JsonView::Array(
                seq![
                    JsonView::Object(
                        seq![
                            ("protocolBinding"@, JsonView::String("JSONRPC"@)),
                            ("protocolVersion"@, JsonView::String("1.0"@)),
                            ("url"@, JsonView::String(rpc_base(card_address(settings)))),
                        ],
                    ),
                ],
            ),
        ),
        card(settings).get("securityRequirements"@) == Some(
            JsonView::Array(
                seq![
                    JsonView::Object(
                        seq![
                            (
                                "schemes"@,
                                JsonView::Object(
                                    seq![("bearerAuth"@, JsonView::Object(Seq::empty()))],
                                ),
                            ),
                        ],
                    ),
                ],
            ),
        ),
        card(settings).get("capabilities"@) == Some(
            JsonView::Object(seq![("streaming"@, JsonView::Bool(false))]),
        ),
        card(settings).get("defaultInputModes"@) == Some(
            JsonView::Array(seq![JsonView::String("application/json"@)]),
        ),
        card(settings).get("defaultOutputModes"@) == Some(
            JsonView::Array(seq![JsonView::String("application/json"@)]),
        ),
        card(settings).get("description"@) == Some(JsonView::String(CARD_DESCRIPTION@)),
        card(settings).get("securitySchemes"@) == Some(
            JsonView::Object(
                seq![
                    (
                        "bearerAuth"@,
                        JsonView::Object(
                            seq![
                                (
                                    "httpAuthSecurityScheme"@,
                                    JsonView::Object(
                                        seq![
                                            ("bearerFormat"@, JsonView::String("opaque"@)),
                                            (
                                                "description"@,
                                                JsonView::String("Bearer token authentication"@),
                                            ),
                                            ("scheme"@, JsonView::String("bearer"@)),
                                        ],
                                    ),
                                ),
                            ],
                        ),
                    ),
                ],
            ),
        ),
        card(settings)->Object_0.len() == 11,
{
    reveal_strlit("capabilities");
    reveal_strlit("defaultInputModes");
    reveal_strlit("defaultOutputModes");
    reveal_strlit("description");
    reveal_strlit("hostLabel");
    reveal_strlit("name");
    reveal_strlit("securityRequirements");
    reveal_strlit("securitySchemes");
    reveal_strlit("skills");
    reveal_strlit("supportedInterfaces");
    reveal_strlit("version");
    assert("capabilities"@.len() == 12 && "defaultInputModes"@.len() == 17);
    assert("defaultOutputModes"@.len() == 18 && "description"@.len() == 11);
    assert("hostLabel"@.len() == 9 && "name"@.len() == 4 && "securityRequirements"@.len() == 20);
    assert("securitySchemes"@.len() == 15 && "skills"@.len() == 6);
    assert("supportedInterfaces"@.len() == 19 && "version"@.len() == 7);
    let ms = card(settings)->Object_0;
    lemma_lookup_at(ms, "capabilities"@, 0);
    lemma_lookup_at(ms, "defaultInputModes"@, 1);
    lemma_lookup_at(ms, "defaultOutputModes"@, 2);
    lemma_lookup_at(ms, "description"@, 3);
    lemma_lookup_at(ms, "securitySchemes"@, 7);
    lemma_lookup_at(ms, "hostLabel"@, 4);
    lemma_lookup_at(ms, "name"@, 5);
    lemma_lookup_at(ms, "securityRequirements"@, 6);
    lemma_lookup_at(ms, "skills"@, 8);
    lemma_lookup_at(ms, "supportedInterfaces"@, 9);
    lemma_lookup_at(ms, "version"@, 10);
    let modes = string_array(seq!["application/json"@])->Array_0;
    assert(modes =~= seq![JsonView::String("application/json"@)]);
}

/// The published tools are those whose program is on the host, in the fixed order,
/// each with its identifier, name, description and tags.
pub proof fn law_tools_are_published_whole(binaries: Seq<Seq<char>>)
    ensures
        ({
            let list = all_tools().filter(|t: Tool| binaries.contains(t.binary()));
            skills(binaries) == JsonView::Array(
                Seq::new(
                    list.len(),
                    |i: int|
                        JsonView::Object(
                            seq![
                                ("description"@, JsonView::String(list[i].description())),
                                ("id"@, JsonView::String(list[i].id())),
                                ("name"@, JsonView::String(list[i].label())),
                                (
                                    "tags"@,
                                    JsonView::Array(
                                        Seq::new(
                                            list[i].tags().len(),
                                            |k: int| JsonView::String(list[i].tags()[k]),
                                        ),
                                    ),
                                ),
                            ],
                        ),
                ),
            )
        }),
{
    lemma_usable_filter(all_tools(), binaries);
    let list = usable(all_tools(), binaries);
    let defs = published(list);
    assert(skills(binaries)->Array_0 =~= Seq::new(
        list.len(),
        |i: int|
            JsonView::Object(
                seq![
                    ("description"@, JsonView::String(list[i].description())),
                    ("id"@, JsonView::String(list[i].id())),
                    ("name"@, JsonView::String(list[i].label())),
                    (
                        "tags"@,
                        JsonView::Array(
                            Seq::new(
                                list[i].tags().len(),
                                |k: int| JsonView::String(list[i].tags()[k]),
                            ),
                        ),
                    ),
                ],
            ),
    ));
}

proof fn lemma_usable_filter(list: Seq<Tool>, binaries: Seq<Seq<char>>)
    ensures
        usable(list, binaries) == list.filter(|t: Tool| binaries.contains(t.binary())),
    decreases list.len(),
{
    reveal(Seq::filter);
    if list.len() > 0 {
        lemma_usable_filter(list.drop_last(), binaries);
    }
}

/// A program counts as present exactly where it was looked for and found.
pub proof fn law_present_programs_are_those_found(
    names: Seq<Seq<char>>,
    present: Seq<bool>,
    name: Seq<char>,
)
    requires
        names.len() <= present.len(),
    ensures
        present_of(names, present).contains(name) <==> exists|i: int|
            0 <= i < names.len() && #[trigger] names[i] == name && present[i],
    decreases names.len(),
{
    if names.len() > 0 {
        let init = names.drop_last();
        let last = names.len() - 1;
        let rest = present_of(init, present);
        let all = present_of(names, present);
        law_present_programs_are_those_found(init, present, name);
        if all.contains(name) {
            let k = choose|k: int| 0 <= k < all.len() && all[k] == name;
            if k < rest.len() {
                assert(rest[k] == name);
                let i = choose|i: int|
                    0 <= i < init.len() && #[trigger] init[i] == name && present[i];
                assert(names[i] == name);
            } else {
                assert(names[last] == name);
            }
        }
        if exists|i: int| 0 <= i < names.len() && #[trigger] names[i] == name && present[i] {
            let i = choose|i: int|
                0 <= i < names.len() && #[trigger] names[i] == name && present[i];
            if i < last {
                assert(init[i] == name);
                let k = choose|k: int| 0 <= k < rest.len() && rest[k] == name;
                assert(all[k] == name);
            } else {
                assert(all[rest.len() as int] == name);
            }
        }
    }
}

// Events and addresses.

/// A step of a request takes the kind of event that its action brings.
pub proof fn law_steps_take_their_events(task: RpcTaskView, event: RpcEventView)
    ensures
        task is Reading ==> (task.accepts(event) <==> event is Request),
        task is ReadingCall ==> (task.accepts(event) <==> event is ToolCall),
        task is ReadingMeshCall ==> (task.accepts(event) <==> event is MeshCall),
        task is ReadingPeers ==> (task.accepts(event) <==> event is Peers),
        task is Asking ==> (task.accepts(event) <==> event is Ran),
        task is Calling ==> (task.accepts(event) <==> event is Ran),
        task matches RpcTaskView::Working { id, task: t } ==> (task.accepts(event) <==> event is Tool
            && t.accepts(event->Tool_0)),
{
}

/// The address for requests is that of the card without every copy of
/// `/.well-known/agent-card.json` at its end.
pub proof fn law_requests_go_beside_the_card(url: Seq<char>)
    ensures
        rpc_base(url + "/.well-known/agent-card.json"@) == rpc_base(url),
        (forall|start: Seq<char>| url != #[trigger] (start + "/.well-known/agent-card.json"@))
            ==> rpc_base(url) == url,
{
    reveal_strlit("/.well-known/agent-card.json");
    assert("/.well-known/agent-card.json"@.len() > 0);
    law_every_copy_of_an_end_is_taken_off(url, "/.well-known/agent-card.json"@);
}

/// The body of an error carries any code as that number, and its message whole; the
/// body of a result carries the result as it is.
pub proof fn law_bodies_carry_what_they_are_given(
    id: Option<JsonView>,
    code: i64,
    message: Seq<char>,
    result: JsonView,
)
    ensures
        ({
            let given = match id {
                Some(id) => id,
                None => JsonView::Null,
            };
            &&& error_body(id, code, message) == JsonView::Object(
                seq![
                    (
                        "error"@,
                        JsonView::Object(
                            seq![
                                (
                                    "code"@,
                                    JsonView::Number(
                                        if code < 0 {
                                            NumberView::NegInt(code)
                                        } else {
                                            NumberView::PosInt(code as u64)
                                        },
                                    ),
                                ),
                                ("message"@, JsonView::String(message)),
                            ],
                        ),
                    ),
                    ("id"@, given),
                    ("jsonrpc"@, JsonView::String("2.0"@)),
                ],
            )
            &&& result_body(id, result) == JsonView::Object(
                seq![
                    ("id"@, given),
                    ("jsonrpc"@, JsonView::String("2.0"@)),
                    ("result"@, result),
                ],
            )
        }),
{
    let given = match id {
        Some(id) => id,
        None => JsonView::Null,
    };
    let number = JsonView::Number(
        if code < 0 {
            NumberView::NegInt(code)
        } else {
            NumberView::PosInt(code as u64)
        },
    );
    let error = seq![("code"@, number), ("message"@, JsonView::String(message))];
    assert(error_body(id, code, message)->Object_0[0].1->Object_0 =~= error);
    assert(error_body(id, code, message)->Object_0 =~= seq![
        ("error"@, JsonView::Object(error)),
        ("id"@, given),
        ("jsonrpc"@, JsonView::String("2.0"@)),
    ]);
    assert(result_body(id, result)->Object_0 =~= seq![
        ("id"@, given),
        ("jsonrpc"@, JsonView::String("2.0"@)),
        ("result"@, result),
    ]);
}

} // verus!
