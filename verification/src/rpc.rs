//! The JSON-RPC endpoint: how a request is answered, step by step. As with a tool
//! call, each step either has the reply or names one action and a task to go on
//! with.

use vstd::prelude::*;
use vstd::string::*;
use crate::auth::{authorized, bytes_of, check_auth};
use crate::card::{Settings, SettingsView, agent_card, card, peer_rpc_base, published_skills,
    rpc_base, skills};
use crate::command::{Command, CommandOutcome, CommandView, OutcomeView, ToolResultView};
use crate::execute::{execute_tool_at, start_call};
use crate::json::{Json, JsonView, Member, Number, NumberView, decoded_view, member, members_view,
    object, string, value_of};
use crate::mesh::{MeshCallParams, MeshCallView, PeerView, RegistryPeer, call_peer,
    fetch_registry_peers, peer_answer, peer_request, peer_result, peers_json, peers_view,
    publish_peers, registry_peer_list, registry_request, registry_result, select_peer, selected};
use crate::outside::{new_uuid, now_rfc3339, random_uuid, utc_stamp};
use crate::resume::{next_step, resume_tool_at};
use crate::state::{AppState, StateView};
use crate::task::{ActionView, EventView, StepView, TaskView, ToolAction, ToolCall, ToolCallView,
    ToolEvent, ToolStep, ToolTask};
use crate::text::same_text;

verus! {

/// The error code for a body that is no request.
pub const PARSE_ERROR: i64 = -32700;

/// The error code for parameters that are no tool call.
pub const INVALID_PARAMS: i64 = -32602;

/// The error code for a method that there is not.
pub const METHOD_NOT_FOUND: i64 = -32601;

/// The error code for peers that could not be listed.
pub const REGISTRY_ERROR: i64 = -32000;

/// The error code for a call to a peer that failed.
pub const MESH_ERROR: i64 = -32001;

/// A request.
#[derive(Debug, PartialEq)]
pub struct JsonRpcRequest {
    pub id: Option<Json>,
    pub method: String,
    pub params: Json,
}

/// What a [`JsonRpcRequest`] stands for.
pub struct RequestView {
    pub id: Option<JsonView>,
    pub method: Seq<char>,
    pub params: JsonView,
}

impl View for JsonRpcRequest {
    type V = RequestView;

    open spec fn view(&self) -> RequestView {
        RequestView { id: value_of(self.id), method: self.method@, params: self.params@ }
    }
}

/// A reply: an HTTP status and a JSON body.
#[derive(Debug, PartialEq)]
pub struct HttpReply {
    pub status: u16,
    pub body: Json,
}

/// What an [`HttpReply`] stands for.
pub struct ReplyView {
    pub status: u16,
    pub body: JsonView,
}

impl View for HttpReply {
    type V = ReplyView;

    open spec fn view(&self) -> ReplyView {
        ReplyView { status: self.status, body: self.body@ }
    }
}

/// What the peers are asked of the registry for.
#[derive(Debug, PartialEq)]
pub enum Purpose {
    /// To list them.
    List,
    /// To call one of them.
    Call { mesh_token: String, params: MeshCallParams },
}

/// What a [`Purpose`] stands for.
pub enum PurposeView {
    List,
    Call { mesh_token: Seq<char>, params: MeshCallView },
}

impl View for Purpose {
    type V = PurposeView;

    open spec fn view(&self) -> PurposeView {
        match self {
            Purpose::List => PurposeView::List,
            Purpose::Call { mesh_token, params } => PurposeView::Call {
                mesh_token: mesh_token@,
                params: params@,
            },
        }
    }
}

/// What a request waits for.
#[derive(Debug, PartialEq)]
pub enum RpcTask {
    /// The body, to be read as a request.
    Reading,
    /// The parameters, to be read as a tool call.
    ReadingCall { id: Option<Json> },
    /// The event that a tool waits for.
    Working { id: Option<Json>, task: ToolTask },
    /// The parameters, to be read as a call to a peer.
    ReadingMeshCall { id: Option<Json>, mesh_token: String },
    /// The answer of the registry.
    Asking { id: Option<Json>, purpose: Purpose },
    /// The list in the answer of the registry, to be read as peers.
    ReadingPeers { id: Option<Json>, purpose: Purpose },
    /// The answer of the peer.
    Calling { id: Option<Json> },
}

/// What an [`RpcTask`] stands for.
pub enum RpcTaskView {
    Reading,
    ReadingCall { id: Option<JsonView> },
    Working { id: Option<JsonView>, task: TaskView },
    ReadingMeshCall { id: Option<JsonView>, mesh_token: Seq<char> },
    Asking { id: Option<JsonView>, purpose: PurposeView },
    ReadingPeers { id: Option<JsonView>, purpose: PurposeView },
    Calling { id: Option<JsonView> },
}

impl View for RpcTask {
    type V = RpcTaskView;

    open spec fn view(&self) -> RpcTaskView {
        match self {
            RpcTask::Reading => RpcTaskView::Reading,
            RpcTask::ReadingCall { id } => RpcTaskView::ReadingCall { id: value_of(*id) },
            RpcTask::Working { id, task } => RpcTaskView::Working {
                id: value_of(*id),
                task: task@,
            },
            RpcTask::ReadingMeshCall { id, mesh_token } => RpcTaskView::ReadingMeshCall {
                id: value_of(*id),
                mesh_token: mesh_token@,
            },
            RpcTask::Asking { id, purpose } => RpcTaskView::Asking {
                id: value_of(*id),
                purpose: purpose@,
            },
            RpcTask::ReadingPeers { id, purpose } => RpcTaskView::ReadingPeers {
                id: value_of(*id),
                purpose: purpose@,
            },
            RpcTask::Calling { id } => RpcTaskView::Calling { id: value_of(*id) },
        }
    }
}

/// Something to be done for a request.
#[derive(Debug, PartialEq)]
pub enum RpcAction {
    DecodeRequest { body: Vec<u8> },
    DecodeToolCall { params: Json },
    DecodeMeshCall { params: Json },
    DecodePeers { list: Json },
    Run(Command),
    Tool(ToolAction),
}

/// What an [`RpcAction`] stands for.
pub enum RpcActionView {
    DecodeRequest { body: Seq<u8> },
    DecodeToolCall { params: JsonView },
    DecodeMeshCall { params: JsonView },
    DecodePeers { list: JsonView },
    Run(CommandView),
    Tool(ActionView),
}

impl View for RpcAction {
    type V = RpcActionView;

    open spec fn view(&self) -> RpcActionView {
        match self {
            RpcAction::DecodeRequest { body } => RpcActionView::DecodeRequest { body: body@ },
            RpcAction::DecodeToolCall { params } => RpcActionView::DecodeToolCall {
                params: params@,
            },
            RpcAction::DecodeMeshCall { params } => RpcActionView::DecodeMeshCall {
                params: params@,
            },
            RpcAction::DecodePeers { list } => RpcActionView::DecodePeers { list: list@ },
            RpcAction::Run(c) => RpcActionView::Run(c@),
            RpcAction::Tool(a) => RpcActionView::Tool(a@),
        }
    }
}

/// What an action brought.
#[derive(Debug, PartialEq)]
pub enum RpcEvent {
    Request(Result<JsonRpcRequest, String>),
    ToolCall(Result<ToolCall, String>),
    MeshCall(Result<MeshCallParams, String>),
    Peers(Result<Vec<RegistryPeer>, String>),
    Ran(CommandOutcome),
    Tool(ToolEvent),
}

/// What an [`RpcEvent`] stands for.
pub enum RpcEventView {
    Request(Result<RequestView, Seq<char>>),
    ToolCall(Result<ToolCallView, Seq<char>>),
    MeshCall(Result<MeshCallView, Seq<char>>),
    Peers(Result<Seq<PeerView>, Seq<char>>),
    Ran(OutcomeView),
    Tool(EventView),
}

impl View for RpcEvent {
    type V = RpcEventView;

    open spec fn view(&self) -> RpcEventView {
        match self {
            RpcEvent::Request(Ok(r)) => RpcEventView::Request(Ok(r@)),
            RpcEvent::Request(Err(e)) => RpcEventView::Request(Err(e@)),
            RpcEvent::ToolCall(Ok(c)) => RpcEventView::ToolCall(Ok(c@)),
            RpcEvent::ToolCall(Err(e)) => RpcEventView::ToolCall(Err(e@)),
            RpcEvent::MeshCall(Ok(c)) => RpcEventView::MeshCall(Ok(c@)),
            RpcEvent::MeshCall(Err(e)) => RpcEventView::MeshCall(Err(e@)),
            RpcEvent::Peers(Ok(p)) => RpcEventView::Peers(Ok(peers_view(p@))),
            RpcEvent::Peers(Err(e)) => RpcEventView::Peers(Err(e@)),
            RpcEvent::Ran(o) => RpcEventView::Ran(o@),
            RpcEvent::Tool(e) => RpcEventView::Tool(e@),
        }
    }
}

impl RpcTaskView {
    /// Whether the task can go on with an event.
    pub open spec fn accepts(self, event: RpcEventView) -> bool {
        match self {
            RpcTaskView::Reading => event is Request,
            RpcTaskView::ReadingCall { .. } => event is ToolCall,
            RpcTaskView::Working { id, task } => event matches RpcEventView::Tool(e)
                && task.accepts(e),
            RpcTaskView::ReadingMeshCall { .. } => event is MeshCall,
            RpcTaskView::Asking { .. } => event is Ran,
            RpcTaskView::ReadingPeers { .. } => event is Peers,
            RpcTaskView::Calling { .. } => event is Ran,
        }
    }
}

impl RpcTask {
    /// Whether the task can go on with an event.
    pub fn accepts(&self, event: &RpcEvent) -> (r: bool)
        ensures
            r == self@.accepts(event@),
    {
        match (self, event) {
            (RpcTask::Reading, RpcEvent::Request(_)) => true,
            (RpcTask::ReadingCall { .. }, RpcEvent::ToolCall(_)) => true,
            (RpcTask::Working { id: _, task }, RpcEvent::Tool(e)) => task.accepts(e),
            (RpcTask::ReadingMeshCall { .. }, RpcEvent::MeshCall(_)) => true,
            (RpcTask::Asking { .. }, RpcEvent::Ran(_)) => true,
            (RpcTask::ReadingPeers { .. }, RpcEvent::Peers(_)) => true,
            (RpcTask::Calling { .. }, RpcEvent::Ran(_)) => true,
            _ => false,
        }
    }
}

/// What is done next for a request.
#[derive(Debug, PartialEq)]
pub enum RpcStep {
    /// It is answered.
    Reply(HttpReply),
    /// It wants the action performed and goes on with what that brings.
    Await(RpcTask, RpcAction),
}

/// What an [`RpcStep`] stands for.
pub enum RpcStepView {
    Reply(ReplyView),
    Await(RpcTaskView, RpcActionView),
}

impl View for RpcStep {
    type V = RpcStepView;

    open spec fn view(&self) -> RpcStepView {
        match self {
            RpcStep::Reply(r) => RpcStepView::Reply(r@),
            RpcStep::Await(t, a) => RpcStepView::Await(t@, a@),
        }
    }
}

// Replies.

/// The id that a reply carries.
pub open spec fn reply_id(id: Option<JsonView>) -> JsonView {
    match id {
        Some(id) => id,
        None => JsonView::Null,
    }
}

/// An integer as JSON has it.
pub open spec fn integer(n: i64) -> JsonView {
    if n < 0 {
        JsonView::Number(NumberView::NegInt(n))
    } else {
        JsonView::Number(NumberView::PosInt(n as u64))
    }
}

/// The body of an error. The members stand in the order of their keys.
pub open spec fn error_body(id: Option<JsonView>, code: i64, message: Seq<char>) -> JsonView {
    JsonView::Object(
        seq![
            (
                "error"@,
                JsonView::Object(
                    seq![("code"@, integer(code)), ("message"@, JsonView::String(message))],
                ),
            ),
            ("id"@, reply_id(id)),
            ("jsonrpc"@, JsonView::String("2.0"@)),
        ],
    )
}

/// The body of a result. The members stand in the order of their keys.
pub open spec fn result_body(id: Option<JsonView>, result: JsonView) -> JsonView {
    JsonView::Object(
        seq![
            ("id"@, reply_id(id)),
            ("jsonrpc"@, JsonView::String("2.0"@)),
            ("result"@, result),
        ],
    )
}

fn take_id(id: Option<Json>) -> (r: Json)
    ensures
        r@ == reply_id(value_of(id)),
{
    match id {
        Some(id) => id,
        None => Json::Null,
    }
}

/// The body of an error.
pub fn jsonrpc_error(id: Option<Json>, code: i64, message: &str) -> (r: Json)
    ensures
        r@ == error_body(value_of(id), code, message@),
{
    let number: Json = if code < 0 {
        Json::Number(Number::NegInt(code))
    } else {
        Json::Number(Number::PosInt(code as u64))
    };
    let inner: Vec<Member> = vec![member("code", number), member("message", string(message))];
    proof {
        assert(members_view(inner@) =~= seq![
            ("code"@, integer(code)),
            ("message"@, JsonView::String(message@)),
        ]);
    }
    let ghost idv = value_of(id);
    let ms: Vec<Member> = vec![
        member("error", object(inner)),
        member("id", take_id(id)),
        member("jsonrpc", string("2.0")),
    ];
    proof {
        assert(members_view(ms@) =~= error_body(idv, code, message@)->Object_0);
    }
    object(ms)
}

/// The body of a result.
pub fn jsonrpc_result(id: Option<Json>, result: Json) -> (r: Json)
    ensures
        r@ == result_body(value_of(id), result@),
{
    let ghost idv = value_of(id);
    let ghost resultv = result@;
    let ms: Vec<Member> = vec![
        member("id", take_id(id)),
        member("jsonrpc", string("2.0")),
        member("result", result),
    ];
    proof {
        assert(members_view(ms@) =~= result_body(idv, resultv)->Object_0);
    }
    object(ms)
}

/// The step that answers with a result.
pub open spec fn answered(id: Option<JsonView>, result: JsonView) -> RpcStepView {
    RpcStepView::Reply(ReplyView { status: 200, body: result_body(id, result) })
}

/// The step that answers with an error.
pub open spec fn answered_error(id: Option<JsonView>, code: i64, message: Seq<char>) -> RpcStepView {
    RpcStepView::Reply(ReplyView { status: 200, body: error_body(id, code, message) })
}

fn answer(id: Option<Json>, result: Json) -> (r: RpcStep)
    ensures
        r@ == answered(value_of(id), result@),
{
    RpcStep::Reply(HttpReply { status: 200, body: jsonrpc_result(id, result) })
}

fn answer_error(id: Option<Json>, code: i64, message: &str) -> (r: RpcStep)
    ensures
        r@ == answered_error(value_of(id), code, message@),
{
    RpcStep::Reply(HttpReply { status: 200, body: jsonrpc_error(id, code, message) })
}

/// The JSON object with a single member.
pub open spec fn single_member(key: Seq<char>, value: JsonView) -> JsonView {
    JsonView::Object(seq![(key, value)])
}

fn object_of(key: &str, value: Json) -> (r: Json)
    ensures
        r@ == single_member(key@, value@),
{
    let ms: Vec<Member> = vec![member(key, value)];
    proof {
        assert(members_view(ms@) =~= seq![(key@, value@)]);
    }
    object(ms)
}

// Tool calls.

/// The answer of a tool as JSON.
pub open spec fn tool_result_json(result: ToolResultView) -> JsonView {
    JsonView::Object(
        seq![
            ("ok"@, JsonView::Bool(result.ok)),
            ("output"@, JsonView::String(result.output)),
        ],
    )
}

/// What follows a step of a tool.
pub open spec fn after_tool(id: Option<JsonView>, next: (StateView, StepView)) -> (
    StateView,
    RpcStepView,
) {
    (
        next.0,
        match next.1 {
            StepView::Done(result) => answered(id, tool_result_json(result)),
            StepView::Await(task, action) => RpcStepView::Await(
                RpcTaskView::Working { id, task },
                RpcActionView::Tool(action),
            ),
        },
    )
}

fn follow_tool(id: Option<Json>, step: ToolStep) -> (r: RpcStep)
    ensures
        forall|state: StateView| #[trigger]
            after_tool(value_of(id), (state, step@)) == (state, r@),
{
    match step {
        ToolStep::Done(result) => {
            let ghost expected = tool_result_json(result@);
            let ms: Vec<Member> = vec![
                member("ok", Json::Bool(result.ok)),
                member("output", Json::String(result.output)),
            ];
            proof {
                assert(members_view(ms@) =~= expected->Object_0);
            }
            answer(id, object(ms))
        },
        ToolStep::Await(task, action) => RpcStep::Await(
            RpcTask::Working { id, task },
            RpcAction::Tool(action),
        ),
    }
}

// The mesh.

/// The error code for what went wrong on behalf of a purpose.
pub open spec fn purpose_code(purpose: PurposeView) -> i64 {
    match purpose {
        PurposeView::List => REGISTRY_ERROR,
        PurposeView::Call { .. } => MESH_ERROR,
    }
}

fn code_of(purpose: &Purpose) -> (r: i64)
    ensures
        r == purpose_code(purpose@),
{
    match purpose {
        Purpose::List => REGISTRY_ERROR,
        Purpose::Call { .. } => MESH_ERROR,
    }
}

/// Asks the registry for its peers.
pub open spec fn ask_registry(
    settings: SettingsView,
    id: Option<JsonView>,
    purpose: PurposeView,
) -> RpcStepView {
    match registry_request(settings.registry_url) {
        Ok(c) => RpcStepView::Await(RpcTaskView::Asking { id, purpose }, RpcActionView::Run(c)),
        Err(e) => answered_error(id, purpose_code(purpose), e),
    }
}

fn ask(settings: &Settings, id: Option<Json>, purpose: Purpose) -> (r: RpcStep)
    ensures
        r@ == ask_registry(settings@, value_of(id), purpose@),
{
    match fetch_registry_peers(&settings.registry_url) {
        Ok(c) => RpcStep::Await(RpcTask::Asking { id, purpose }, RpcAction::Run(c)),
        Err(e) => {
            let code: i64 = code_of(&purpose);
            answer_error(id, code, e.as_str())
        },
    }
}

/// What follows the list in the answer of the registry, or why there is none.
pub open spec fn after_list(
    id: Option<JsonView>,
    purpose: PurposeView,
    list: Result<JsonView, Seq<char>>,
) -> RpcStepView {
    match list {
        Ok(list) => RpcStepView::Await(
            RpcTaskView::ReadingPeers { id, purpose },
            RpcActionView::DecodePeers { list },
        ),
        Err(e) => answered_error(id, purpose_code(purpose), e),
    }
}

/// What follows the answer of the registry.
pub open spec fn after_registry(
    id: Option<JsonView>,
    purpose: PurposeView,
    outcome: OutcomeView,
) -> RpcStepView {
    after_list(id, purpose, registry_result(outcome))
}

/// Goes on with the list in the answer of the registry, or answers why there is
/// none.
pub fn follow_list(id: Option<Json>, purpose: Purpose, list: Result<Json, String>) -> (r: RpcStep)
    ensures
        r@ == after_list(value_of(id), purpose@, decoded_view(list)),
{
    match list {
        Ok(list) => RpcStep::Await(
            RpcTask::ReadingPeers { id, purpose },
            RpcAction::DecodePeers { list },
        ),
        Err(e) => {
            let code: i64 = code_of(&purpose);
            answer_error(id, code, e.as_str())
        },
    }
}

fn follow_registry(id: Option<Json>, purpose: Purpose, outcome: CommandOutcome) -> (r: RpcStep)
    ensures
        r@ == after_registry(value_of(id), purpose@, outcome@),
{
    follow_list(id, purpose, registry_peer_list(outcome))
}

/// What follows the list of peers: it is the answer, or the call goes to the one
/// peer that it asks for.
pub open spec fn after_peers(
    id: Option<JsonView>,
    purpose: PurposeView,
    peers: Result<Seq<PeerView>, Seq<char>>,
) -> RpcStepView {
    match peers {
        Err(e) => answered_error(
            id,
            purpose_code(purpose),
            "could not parse peer list: "@ + e,
        ),
        Ok(peers) => match purpose {
            PurposeView::List => answered(id, single_member("peers"@, peers_json(peers))),
            PurposeView::Call { mesh_token, params } => match selected(peers, params) {
                Err(e) => answered_error(id, MESH_ERROR, e),
                Ok(peer) => RpcStepView::Await(
                    RpcTaskView::Calling { id },
                    RpcActionView::Run(
                        peer_request(
                            rpc_base(peer.agent_card_url),
                            mesh_token,
                            params.tool_name,
                            params.arguments,
                        ),
                    ),
                ),
            },
        },
    }
}

/// The view of what came of reading a list of peers.
pub open spec fn read_peers_view(peers: Result<Vec<RegistryPeer>, String>) -> Result<
    Seq<PeerView>,
    Seq<char>,
> {
    match peers {
        Ok(p) => Ok(peers_view(p@)),
        Err(e) => Err(e@),
    }
}

fn follow_peers(id: Option<Json>, purpose: Purpose, peers: &Result<Vec<RegistryPeer>, String>) -> (r:
    RpcStep)
    ensures
        r@ == after_peers(value_of(id), purpose@, read_peers_view(*peers)),
{
    match peers {
        Err(e) => {
            let code: i64 = code_of(&purpose);
            let message: String = "could not parse peer list: ".to_owned().concat(e.as_str());
            answer_error(id, code, message.as_str())
        },
        Ok(peers) => match purpose {
            Purpose::List => answer(id, object_of("peers", publish_peers(peers))),
            Purpose::Call { mesh_token, params } => match select_peer(peers, &params) {
                Err(e) => answer_error(id, MESH_ERROR, e.as_str()),
                Ok(i) => {
                    let base: String = peer_rpc_base(peers[i].agent_card_url.as_str());
                    let c: Command = call_peer(
                        base.as_str(),
                        mesh_token.as_str(),
                        params.tool_name.as_str(),
                        params.arguments,
                    );
                    RpcStep::Await(RpcTask::Calling { id }, RpcAction::Run(c))
                },
            },
        },
    }
}

/// What follows the answer of the peer, or why there is none: the answer is the
/// result, as it is.
pub open spec fn after_answer(
    id: Option<JsonView>,
    result: Result<JsonView, Seq<char>>,
) -> RpcStepView {
    match result {
        Ok(result) => answered(id, result),
        Err(e) => answered_error(id, MESH_ERROR, e),
    }
}

/// What follows the run of the command that called the peer.
pub open spec fn after_peer(id: Option<JsonView>, outcome: OutcomeView) -> RpcStepView {
    after_answer(id, peer_result(outcome))
}

/// Answers with what the peer answered, or with why there is nothing.
pub fn follow_answer(id: Option<Json>, result: Result<Json, String>) -> (r: RpcStep)
    ensures
        r@ == after_answer(value_of(id), decoded_view(result)),
{
    match result {
        Ok(result) => answer(id, result),
        Err(e) => answer_error(id, MESH_ERROR, e.as_str()),
    }
}

fn follow_peer(id: Option<Json>, outcome: CommandOutcome) -> (r: RpcStep)
    ensures
        r@ == after_peer(value_of(id), outcome@),
{
    follow_answer(id, peer_answer(outcome))
}

/// What a call to a peer starts with: it takes the token of a mesh.
pub open spec fn start_mesh_call(
    state: StateView,
    id: Option<JsonView>,
    params: JsonView,
) -> RpcStepView {
    match state.mesh_token {
        Some(mesh_token) => RpcStepView::Await(
            RpcTaskView::ReadingMeshCall { id, mesh_token },
            RpcActionView::DecodeMeshCall { params },
        ),
        None => answered_error(
            id,
            MESH_ERROR,
            "MESH_AUTH_TOKEN is not configured on this agent — cannot make outbound mesh calls"@,
        ),
    }
}

/// Starts a call to a peer.
pub fn handle_mesh_call(state: &AppState, id: Option<Json>, params: Json) -> (r: RpcStep)
    ensures
        r@ == start_mesh_call(state@, value_of(id), params@),
{
    match &state.mesh_token {
        Some(mesh_token) => RpcStep::Await(
            RpcTask::ReadingMeshCall { id, mesh_token: mesh_token.clone() },
            RpcAction::DecodeMeshCall { params },
        ),
        None => answer_error(
            id,
            MESH_ERROR,
            "MESH_AUTH_TOKEN is not configured on this agent — cannot make outbound mesh calls",
        ),
    }
}

/// What follows the parameters of a call to a peer.
pub open spec fn after_mesh_params(
    settings: SettingsView,
    id: Option<JsonView>,
    mesh_token: Seq<char>,
    params: Result<MeshCallView, Seq<char>>,
) -> RpcStepView {
    match params {
        Ok(params) => ask_registry(settings, id, PurposeView::Call { mesh_token, params }),
        Err(e) => answered_error(id, MESH_ERROR, "invalid mesh_call params: "@ + e),
    }
}

/// The view of what came of reading the parameters of a call to a peer.
pub open spec fn mesh_params_view(params: Result<MeshCallParams, String>) -> Result<
    MeshCallView,
    Seq<char>,
> {
    match params {
        Ok(p) => Ok(p@),
        Err(e) => Err(e@),
    }
}

fn follow_mesh_params(
    settings: &Settings,
    id: Option<Json>,
    mesh_token: String,
    params: Result<MeshCallParams, String>,
) -> (r: RpcStep)
    ensures
        r@ == after_mesh_params(settings@, value_of(id), mesh_token@, mesh_params_view(params)),
{
    match params {
        Ok(params) => ask(settings, id, Purpose::Call { mesh_token, params }),
        Err(e) => {
            let message: String = "invalid mesh_call params: ".to_owned().concat(e.as_str());
            answer_error(id, MESH_ERROR, message.as_str())
        },
    }
}

// Requests.

/// What a request without a valid token is answered.
pub open spec fn unauthorized() -> RpcStepView {
    RpcStepView::Reply(
        ReplyView {
            status: 401,
            body: single_member("error"@, JsonView::String("missing or invalid bearer token"@)),
        },
    )
}

/// What a request starts with: nothing is read of one without a valid token.
pub open spec fn start_request(
    state: StateView,
    header: Option<Seq<u8>>,
    body: Seq<u8>,
) -> RpcStepView {
    if !authorized(state, header) {
        unauthorized()
    } else {
        RpcStepView::Await(RpcTaskView::Reading, RpcActionView::DecodeRequest { body })
    }
}

/// Starts to answer a request, given its `Authorization` header and its body.
pub fn rpc_handler(state: &AppState, header: &Option<Vec<u8>>, body: Vec<u8>) -> (r: RpcStep)
    ensures
        r@ == start_request(state@, bytes_of(*header), body@),
{
    if !check_auth(header, state) {
        RpcStep::Reply(
            HttpReply {
                status: 401,
                body: object_of("error", string("missing or invalid bearer token")),
            },
        )
    } else {
        RpcStep::Await(RpcTask::Reading, RpcAction::DecodeRequest { body })
    }
}

/// The reply with the agent card.
pub fn agent_card_route(settings: &Settings) -> (r: HttpReply)
    ensures
        r@ == (ReplyView { status: 200, body: card(settings@) }),
{
    HttpReply { status: 200, body: agent_card(settings) }
}

/// What a request is answered, or what is done first, by its method.
pub open spec fn dispatched(
    settings: SettingsView,
    state: StateView,
    request: RequestView,
) -> RpcStepView {
    let id = request.id;
    if request.method == "tools/call"@ {
        RpcStepView::Await(
            RpcTaskView::ReadingCall { id },
            RpcActionView::DecodeToolCall { params: request.params },
        )
    } else if request.method == "tools/list"@ {
        answered(id, single_member("tools"@, skills(settings.host.binaries)))
    } else if request.method == "mesh_list_peers"@ {
        ask_registry(settings, id, PurposeView::List)
    } else if request.method == "mesh_call"@ {
        start_mesh_call(state, id, request.params)
    } else if request.method == "ping"@ {
        answered(id, JsonView::String("Pong!"@))
    } else {
        answered_error(id, METHOD_NOT_FOUND, "method not found: "@ + request.method)
    }
}

/// Answers a request, or starts what it asks for, by its method.
pub fn dispatch(settings: &Settings, state: &AppState, request: JsonRpcRequest) -> (r: RpcStep)
    ensures
        r@ == dispatched(settings@, state@, request@),
{
    let method: &str = request.method.as_str();
    if same_text(method, "tools/call") {
        RpcStep::Await(
            RpcTask::ReadingCall { id: request.id },
            RpcAction::DecodeToolCall { params: request.params },
        )
    } else if same_text(method, "tools/list") {
        answer(request.id, object_of("tools", published_skills(&settings.host.binaries)))
    } else if same_text(method, "mesh_list_peers") {
        ask(settings, request.id, Purpose::List)
    } else if same_text(method, "mesh_call") {
        handle_mesh_call(state, request.id, request.params)
    } else if same_text(method, "ping") {
        answer(request.id, string("Pong!"))
    } else {
        let message: String = "method not found: ".to_owned().concat(method);
        answer_error(request.id, METHOD_NOT_FOUND, message.as_str())
    }
}

/// What follows the body once it was read as a request.
pub open spec fn after_body(
    settings: SettingsView,
    state: StateView,
    request: Result<RequestView, Seq<char>>,
) -> RpcStepView {
    match request {
        Ok(request) => dispatched(settings, state, request),
        Err(e) => RpcStepView::Reply(
            ReplyView { status: 400, body: error_body(None, PARSE_ERROR, "parse error: "@ + e) },
        ),
    }
}

/// What a task does with an event that it accepts, at the given time and with a
/// fresh proposal id at hand: the next state and step.
pub open spec fn rpc_next(
    settings: SettingsView,
    state: StateView,
    task: RpcTaskView,
    event: RpcEventView,
    now: Seq<char>,
    fresh: Seq<char>,
) -> (StateView, RpcStepView) {
    match (task, event) {
        (RpcTaskView::Reading, RpcEventView::Request(request)) => (
            state,
            after_body(settings, state, request),
        ),
        (RpcTaskView::ReadingCall { id }, RpcEventView::ToolCall(call)) => match call {
            Ok(call) => after_tool(id, start_call(settings.host, state, call, now)),
            Err(e) => (state, answered_error(id, INVALID_PARAMS, "invalid params: "@ + e)),
        },
        (RpcTaskView::Working { id, task }, RpcEventView::Tool(event)) => after_tool(
            id,
            next_step(settings.host, state, task, event, now, fresh),
        ),
        (RpcTaskView::ReadingMeshCall { id, mesh_token }, RpcEventView::MeshCall(params)) => (
            state,
            after_mesh_params(settings, id, mesh_token, params),
        ),
        (RpcTaskView::Asking { id, purpose }, RpcEventView::Ran(outcome)) => (
            state,
            after_registry(id, purpose, outcome),
        ),
        (RpcTaskView::ReadingPeers { id, purpose }, RpcEventView::Peers(peers)) => (
            state,
            after_peers(id, purpose, peers),
        ),
        (RpcTaskView::Calling { id }, RpcEventView::Ran(outcome)) => (
            state,
            after_peer(id, outcome),
        ),
        _ => arbitrary(),
    }
}

/// Goes on with a request at the given time and with a fresh proposal id at hand.
pub fn resume_rpc_at(
    settings: &Settings,
    state: &mut AppState,
    task: RpcTask,
    event: RpcEvent,
    now: String,
    fresh: String,
) -> (r: RpcStep)
    requires
        task@.accepts(event@),
    ensures
        (final(state)@, r@) == rpc_next(settings@, old(state)@, task@, event@, now@, fresh@),
{
    match (task, event) {
        (RpcTask::Reading, RpcEvent::Request(request)) => match request {
            Ok(request) => dispatch(settings, state, request),
            Err(e) => {
                let message: String = "parse error: ".to_owned().concat(e.as_str());
                RpcStep::Reply(
                    HttpReply { status: 400, body: jsonrpc_error(None, PARSE_ERROR, message.as_str()) },
                )
            },
        },
        (RpcTask::ReadingCall { id }, RpcEvent::ToolCall(call)) => match call {
            Ok(call) => {
                let step: ToolStep = execute_tool_at(&settings.host, state, &call, now.as_str());
                follow_tool(id, step)
            },
            Err(e) => {
                let message: String = "invalid params: ".to_owned().concat(e.as_str());
                answer_error(id, INVALID_PARAMS, message.as_str())
            },
        },
        (RpcTask::Working { id, task }, RpcEvent::Tool(event)) => {
            let step: ToolStep = resume_tool_at(&settings.host, state, task, event, now, fresh);
            follow_tool(id, step)
        },
        (RpcTask::ReadingMeshCall { id, mesh_token }, RpcEvent::MeshCall(params)) =>
            follow_mesh_params(settings, id, mesh_token, params),
        (RpcTask::Asking { id, purpose }, RpcEvent::Ran(outcome)) => follow_registry(
            id,
            purpose,
            outcome,
        ),
        (RpcTask::ReadingPeers { id, purpose }, RpcEvent::Peers(peers)) => follow_peers(
            id,
            purpose,
            &peers,
        ),
        (RpcTask::Calling { id }, RpcEvent::Ran(outcome)) => follow_peer(id, outcome),
        _ => unreached(),
    }
}

/// Goes on with a request now.
pub fn resume_rpc(settings: &Settings, state: &mut AppState, task: RpcTask, event: RpcEvent) -> (r:
    RpcStep)
    requires
        task@.accepts(event@),
    ensures
        exists|now: Seq<char>, fresh: Seq<char>| #[trigger]
            utc_stamp(now) && #[trigger] random_uuid(fresh) && (final(state)@, r@) == rpc_next(
                settings@,
                old(state)@,
                task@,
                event@,
                now,
                fresh,
            ),
{
    let now: String = now_rfc3339();
    let fresh: String = new_uuid();
    proof {
        assert(utc_stamp(now@));
        assert(random_uuid(fresh@));
    }
    resume_rpc_at(settings, state, task, event, now, fresh)
}

} // verus!
