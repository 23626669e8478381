//! How the values that go in and out are seen: with all that they hold.

use vstd::prelude::*;
use crate::auth::bytes_of;
use crate::card::Settings;
use crate::command::{Command, CommandOutcome, CommandView, OutcomeView, ToolResult, slices};
use crate::container::{ContainerInspect, Recipe, RecipeView, recipe_view};
use crate::discovery::{DiscoveredService, Discovery, DiscoveryStep, DiscoveryStepView, Row,
    ServiceRoleConfig, roles_view, rows_view, services_view};
use crate::dotenv::{EnvVar, env_view};
use crate::execute::{action_of, agrees};
use crate::json::{Json, JsonView, Member, Number, NumberView, decoded_view, lemma_array_view,
    lemma_object_view, members_view, value_of, values_view};
use crate::memory::{LearnedNote, Memory, notes_view};
use crate::memory_file::{borrowed, found_json};
use crate::mesh::{Heartbeat, HeartbeatPlan, HeartbeatView, MeshCallParams, MeshCallView, PeerView,
    PlanView, RegistryPeer, bytes_agree, command_agrees, peers_view};
use crate::resume::{read_view, stored_view};
use crate::rpc::{HttpReply, JsonRpcRequest, Purpose, PurposeView, RpcAction, RpcActionView,
    RpcEvent, RpcEventView, RpcStep, RpcStepView, RpcTask, RpcTaskView, mesh_params_view,
    read_peers_view};
use crate::state::{AppState, ServiceProposal};
use crate::task::{ActionView, EventView, Host, Recreation, StepView, Target, TaskView, ToolAction,
    ToolCall, ToolEvent, ToolStep, ToolTask};
use crate::text::{text_of, texts};
use crate::tools::{Tool, ToolDef, defs_view};

verus! {

// Commands.

/// A command is seen with its program, all of its arguments and its input; its
/// outcome with all that was written; a result with all of its output.
pub proof fn law_commands_are_seen_whole(c: Command, o: CommandOutcome, r: ToolResult)
    ensures
        c@.program == c.program@,
        c@.args == texts(c.args@),
        c@.input == text_of(c.input),
        o matches CommandOutcome::Exited { success, stdout, stderr } ==> o@ == (
        OutcomeView::Exited { success, stdout: stdout@, stderr: stderr@ }),
        o matches CommandOutcome::NotStarted { error } ==> o@ == (OutcomeView::NotStarted {
            error: error@,
        }),
        o matches CommandOutcome::Lost { error } ==> o@ == (OutcomeView::Lost { error: error@ }),
        r@.ok == r.ok,
        r@.output == r.output@,
{
}

// JSON.

/// A JSON value is seen with all of its elements and members, in order.
pub proof fn law_json_is_seen_whole(j: Json, ms: Seq<Member>, given: Option<Json>)
    ensures
        j is Null ==> j@ is Null,
        j matches Json::Bool(b) ==> j@ == JsonView::Bool(b),
        j matches Json::Number(Number::PosInt(n)) ==> j@ == JsonView::Number(NumberView::PosInt(n)),
        j matches Json::Number(Number::NegInt(n)) ==> j@ == JsonView::Number(NumberView::NegInt(n)),
        j matches Json::Number(Number::Float(s)) ==> j@ == JsonView::Number(NumberView::Float(s@)),
        j matches Json::String(s) ==> j@ == JsonView::String(s@),
        j matches Json::Array(xs) ==> (j@ matches JsonView::Array(seen) && seen.len() == xs@.len()
            && forall|i: int| 0 <= i < xs@.len() ==> #[trigger] seen[i] == xs@[i]@),
        j matches Json::Object(xs) ==> (j@ matches JsonView::Object(seen) && seen.len() == xs@.len()
            && forall|i: int|
            0 <= i < xs@.len() ==> #[trigger] seen[i] == (xs@[i].key@, xs@[i].value@)),
        members_view(ms).len() == ms.len(),
        forall|i: int|
            0 <= i < ms.len() ==> #[trigger] members_view(ms)[i] == (ms[i].key@, ms[i].value@),
        given is None ==> value_of(given) is None,
        given matches Some(v) ==> value_of(given) == Some(v@),
{
    lemma_array_view(j);
    lemma_object_view(j);
}

// Tools.

/// A call is seen with its name and arguments, and a host with its programs and
/// its compose files.
pub proof fn law_calls_are_seen_whole(c: ToolCall, h: Host)
    ensures
        c@.name == c.name@,
        c@.arguments == c.arguments@,
        h@.binaries == texts(h.binaries@),
        h@.compose_dir == text_of(h.compose_dir),
        h@.has_compose_yaml == h.has_compose_yaml,
        h@.has_compose_yml == h.has_compose_yml,
{
}

/// What is to be done on the host is seen with all that it takes.
pub proof fn law_actions_are_seen_whole(a: ToolAction, s: ToolStep)
    ensures
        a matches ToolAction::Run(c) ==> a@ == ActionView::Run(c@),
        a is LoadManifest ==> a@ is LoadManifest,
        a matches ToolAction::ReadFile { path } ==> a@ == (ActionView::ReadFile { path: path@ }),
        a matches ToolAction::WriteFile { path, content } ==> a@ == (ActionView::WriteFile {
            path: path@,
            content: content@,
        }),
        a matches ToolAction::AppendFile { path, text } ==> a@ == (ActionView::AppendFile {
            path: path@,
            text: text@,
        }),
        a matches ToolAction::SaveMemory(m) ==> a@ == ActionView::SaveMemory(m@),
        a matches ToolAction::DecodeInspect { printed } ==> a@ == (ActionView::DecodeInspect {
            printed: printed@,
        }),
        s matches ToolStep::Done(r) ==> s@ == StepView::Done(r@),
        s matches ToolStep::Await(t, a) ==> s@ == StepView::Await(t@, a@),
{
}

/// What happened on the host is seen with all that came of it. A manifest that is
/// not there, or cannot be read, declares nothing.
pub proof fn law_events_are_seen_whole(e: ToolEvent)
    ensures
        e matches ToolEvent::Ran(o) ==> e@ == EventView::Ran(o@),
        e matches ToolEvent::Manifest(Some(Ok(m))) ==> e@ == EventView::Manifest(
            roles_view(m.services@),
        ),
        e matches ToolEvent::Manifest(Some(Err(_))) ==> e@ == EventView::Manifest(Seq::empty()),
        e matches ToolEvent::Manifest(None) ==> e@ == EventView::Manifest(Seq::empty()),
        e matches ToolEvent::FileRead(Ok(s)) ==> e@ == EventView::FileRead(Ok(s@)),
        e matches ToolEvent::FileRead(Err(s)) ==> e@ == EventView::FileRead(Err(s@)),
        e matches ToolEvent::Stored(Ok(_)) ==> e@ == EventView::Stored(Ok(())),
        e matches ToolEvent::Stored(Err(s)) ==> e@ == EventView::Stored(Err(s@)),
        e matches ToolEvent::Inspected(Ok(i)) ==> e@ == EventView::Inspected(Ok(i@)),
        e matches ToolEvent::Inspected(Err(s)) ==> e@ == EventView::Inspected(Err(s@)),
{
}

/// What a call has come to is seen with all that it goes on with.
pub proof fn law_tasks_are_seen_whole(t: ToolTask, target: Target, r: Recreation)
    ensures
        t matches ToolTask::Printing { program } ==> t@ == (TaskView::Printing {
            program: program@,
        }),
        t matches ToolTask::Resolving { target } ==> t@ == (TaskView::Resolving {
            target: target@,
        }),
        t matches ToolTask::ListingBridge { target, dns } ==> t@ == (TaskView::ListingBridge {
            target: target@,
            dns: dns@,
        }),
        t is LoadingManifest ==> t@ is LoadingManifest,
        t matches ToolTask::Discovering(d) ==> t@ == TaskView::Discovering(d@),
        t matches ToolTask::SavingDiscovery { count, summary } ==> t@ == (
        TaskView::SavingDiscovery { count: count as nat, summary: texts(summary@) }),
        t matches ToolTask::ReadingCurrent { role, proposed } ==> t@ == (TaskView::ReadingCurrent {
            role: role@,
            proposed: proposed@,
        }),
        t matches ToolTask::WritingStaged(x) ==> t@ == TaskView::WritingStaged(x@),
        t matches ToolTask::MovingStaged(x) ==> t@ == TaskView::MovingStaged(x@),
        t is Reloading ==> t@ is Reloading,
        t matches ToolTask::AppendingNote { note } ==> t@ == (TaskView::AppendingNote {
            note: note@,
        }),
        t matches ToolTask::SavingNote { appended } ==> t@ == (TaskView::SavingNote { appended }),
        t matches ToolTask::Inspecting { container } ==> t@ == (TaskView::Inspecting {
            container: container@,
        }),
        t matches ToolTask::DecodingInspect { container, printed } ==> t@ == (
        TaskView::DecodingInspect { container: container@, printed: printed@ }),
        t matches ToolTask::Stopping { container, recipe } ==> t@ == (TaskView::Stopping {
            container: container@,
            recipe: recipe@,
        }),
        t matches ToolTask::Removing { container, recipe } ==> t@ == (TaskView::Removing {
            container: container@,
            recipe: recipe@,
        }),
        t matches ToolTask::ReadingEnv { container, recipe, env_path } ==> t@ == (
        TaskView::ReadingEnv {
            container: container@,
            recipe: recipe@,
            env_path: env_path@,
        }),
        t matches ToolTask::Recreating(x) ==> t@ == TaskView::Recreating(x@),
        t matches ToolTask::ListingEnv { filter } ==> t@ == (TaskView::ListingEnv {
            filter: filter@,
        }),
        t matches ToolTask::ReadingEnvFile { values, env_path } ==> t@ == (
        TaskView::ReadingEnvFile { values: members_view(values@), env_path: env_path@ }),
        t matches ToolTask::WritingEnvFile { env_path, changes } ==> t@ == (
        TaskView::WritingEnvFile { env_path: env_path@, changes: texts(changes@) }),
        target@.container == target.container@,
        target@.config_path == target.config_path@,
        target@.reload_command == texts(target.reload_command@),
        r@.image == r.image@,
        r@.env_path == r.env_path@,
        r@.from_file == r.from_file,
        r@.kept == r.kept,
        r@.args == texts(r.args@),
{
}

/// An inspected container is seen with its variables, its image and both of its
/// host configurations.
pub proof fn law_containers_are_seen_whole(i: ContainerInspect, r: Recipe)
    ensures
        i@.env == texts(i.config.env@),
        i@.image == i.config.image@,
        i.config.host_config matches Ok(h) ==> i@.inner_host_config == Ok::<JsonView, Seq<char>>(
            h@,
        ),
        i.config.host_config matches Err(e) ==> i@.inner_host_config == Err::<JsonView, Seq<char>>(
            e@,
        ),
        i@.outer_host_config == value_of(i.host_config),
        r@.env == texts(r.env@),
        r@.image == r.image@,
        r@.host_config == r.host_config@,
{
}

/// Variables are seen with their names and values, and the rows of a listing with
/// their names and images, in order.
pub proof fn law_rows_are_seen_whole(env: Seq<EnvVar>, rows: Seq<Row>)
    ensures
        env_view(env).len() == env.len(),
        forall|i: int|
            0 <= i < env.len() ==> #[trigger] env_view(env)[i] == (env[i].name@, env[i].value@),
        rows_view(rows).len() == rows.len(),
        forall|i: int|
            0 <= i < rows.len() ==> #[trigger] rows_view(rows)[i] == (rows[i].name@, rows[i].image@),
{
}

// Discovery and memory.

/// What a manifest declares and what discovery has found is seen with all of its
/// parts, in order.
pub proof fn law_services_are_seen_whole(
    declared: Seq<ServiceRoleConfig>,
    found: Seq<DiscoveredService>,
    d: Discovery,
    step: DiscoveryStep,
)
    ensures
        roles_view(declared).len() == declared.len(),
        forall|i: int|
            0 <= i < declared.len() ==> {
                let seen = #[trigger] roles_view(declared)[i];
                &&& seen.role == declared[i].role@
                &&& seen.image_hint == declared[i].image_hint@
                &&& seen.config_candidates == texts(declared[i].config_candidates@)
                &&& seen.reload_command == texts(declared[i].reload_command@)
            },
        services_view(found).len() == found.len(),
        forall|i: int|
            0 <= i < found.len() ==> {
                let seen = #[trigger] services_view(found)[i];
                &&& seen.role == found[i].role@
                &&& seen.container_name == found[i].container_name@
                &&& seen.config_path == text_of(found[i].config_path)
                &&& seen.reload_command == texts(found[i].reload_command@)
                &&& seen.last_confirmed == found[i].last_confirmed@
            },
        d@.services == roles_view(d.services@),
        d@.next == d.next,
        d.probing is None ==> d@.probing is None,
        d.probing matches Some(p) ==> d@.probing == Some((p.container@, p.candidate as int)),
        d@.found == services_view(d.found@),
        d@.now == d.now@,
        step matches DiscoveryStep::Done(x) ==> step@ == DiscoveryStepView::Done(services_view(x@)),
        step matches DiscoveryStep::Run(x, c) ==> step@ == DiscoveryStepView::Run(x@, c@),
{
}

/// What the agent holds is seen with all of its parts: the tokens, the services
/// and notes, and each pending proposal under its identifier.
pub proof fn law_state_is_seen_whole(
    notes: Seq<LearnedNote>,
    m: Memory,
    p: ServiceProposal,
    s: AppState,
    id: Seq<char>,
)
    ensures
        notes_view(notes).len() == notes.len(),
        forall|i: int|
            0 <= i < notes.len() ==> {
                let seen = #[trigger] notes_view(notes)[i];
                &&& seen.note == notes[i].note@
                &&& seen.source == notes[i].source@
                &&& seen.added == notes[i].added@
            },
        m@.services == services_view(m.discovered_services@),
        m@.notes == notes_view(m.learned_notes@),
        p@.role == p.role@,
        p@.content == p.content@,
        s@.bearer_token == s.bearer_token@,
        s@.mesh_token == text_of(s.mesh_token),
        s@.memory == s.memory@,
        s@.pending.contains_key(id) <==> s.pending_proposals@.contains_key(id),
        s@.pending.contains_key(id) ==> s@.pending[id] == s.pending_proposals@[id]@,
{
}

// The endpoint and the mesh.

/// Requests, replies and settings are seen with all of their parts.
pub proof fn law_requests_are_seen_whole(q: JsonRpcRequest, r: HttpReply, s: Settings)
    ensures
        q@.id == value_of(q.id),
        q@.method == q.method@,
        q@.params == q.params@,
        r@.status == r.status,
        r@.body == r.body@,
        s@.host == s.host@,
        s@.host_label == text_of(s.host_label),
        s@.self_card_url == text_of(s.self_card_url),
        s@.registry_url == text_of(s.registry_url),
        s@.registry_token == text_of(s.registry_token),
{
}

/// Peers, mesh calls and announcements are seen with all of their parts.
pub proof fn law_peers_are_seen_whole(
    peers: Seq<RegistryPeer>,
    c: MeshCallParams,
    plan: HeartbeatPlan,
    beat: Heartbeat,
    purpose: Purpose,
)
    ensures
        peers_view(peers).len() == peers.len(),
        forall|i: int|
            0 <= i < peers.len() ==> {
                let seen = #[trigger] peers_view(peers)[i];
                &&& seen.host_label == peers[i].host_label@
                &&& seen.role == peers[i].role@
                &&& seen.agent_card_url == peers[i].agent_card_url@
            },
        c@.host_label == text_of(c.host_label),
        c@.role == text_of(c.role),
        c@.tool_name == c.tool_name@,
        c@.arguments == c.arguments@,
        plan is NoRegistry ==> plan@ is NoRegistry,
        plan is NoToken ==> plan@ is NoToken,
        plan matches HeartbeatPlan::Beat { command, every_seconds } ==> plan@ == (PlanView::Beat {
            command: command@,
            every_seconds,
        }),
        beat is Taken ==> beat@ is Taken,
        beat matches Heartbeat::Status(code) ==> beat@ == HeartbeatView::Status(code@),
        beat matches Heartbeat::NotSent(error) ==> beat@ == HeartbeatView::NotSent(error@),
        purpose is List ==> purpose@ is List,
        purpose matches Purpose::Call { mesh_token, params } ==> purpose@ == (PurposeView::Call {
            mesh_token: mesh_token@,
            params: params@,
        }),
{
}

/// The steps of a request are seen with all that they go on with.
pub proof fn law_steps_are_seen_whole(t: RpcTask, a: RpcAction, e: RpcEvent, s: RpcStep)
    ensures
        t is Reading ==> t@ is Reading,
        t matches RpcTask::ReadingCall { id } ==> t@ == (RpcTaskView::ReadingCall {
            id: value_of(id),
        }),
        t matches RpcTask::Working { id, task } ==> t@ == (RpcTaskView::Working {
            id: value_of(id),
            task: task@,
        }),
        t matches RpcTask::ReadingMeshCall { id, mesh_token } ==> t@ == (
        RpcTaskView::ReadingMeshCall { id: value_of(id), mesh_token: mesh_token@ }),
        t matches RpcTask::Asking { id, purpose } ==> t@ == (RpcTaskView::Asking {
            id: value_of(id),
            purpose: purpose@,
        }),
        t matches RpcTask::ReadingPeers { id, purpose } ==> t@ == (RpcTaskView::ReadingPeers {
            id: value_of(id),
            purpose: purpose@,
        }),
        t matches RpcTask::Calling { id } ==> t@ == (RpcTaskView::Calling { id: value_of(id) }),
        a matches RpcAction::DecodeRequest { body } ==> a@ == (RpcActionView::DecodeRequest {
            body: body@,
        }),
        a matches RpcAction::DecodeToolCall { params } ==> a@ == (RpcActionView::DecodeToolCall {
            params: params@,
        }),
        a matches RpcAction::DecodeMeshCall { params } ==> a@ == (RpcActionView::DecodeMeshCall {
            params: params@,
        }),
        a matches RpcAction::DecodePeers { list } ==> a@ == (RpcActionView::DecodePeers {
            list: list@,
        }),
        a matches RpcAction::Run(c) ==> a@ == RpcActionView::Run(c@),
        a matches RpcAction::Tool(x) ==> a@ == RpcActionView::Tool(x@),
        e matches RpcEvent::Request(Ok(r)) ==> e@ == RpcEventView::Request(Ok(r@)),
        e matches RpcEvent::Request(Err(r)) ==> e@ == RpcEventView::Request(Err(r@)),
        e matches RpcEvent::ToolCall(Ok(r)) ==> e@ == RpcEventView::ToolCall(Ok(r@)),
        e matches RpcEvent::ToolCall(Err(r)) ==> e@ == RpcEventView::ToolCall(Err(r@)),
        e matches RpcEvent::MeshCall(Ok(r)) ==> e@ == RpcEventView::MeshCall(Ok(r@)),
        e matches RpcEvent::MeshCall(Err(r)) ==> e@ == RpcEventView::MeshCall(Err(r@)),
        e matches RpcEvent::Peers(Ok(r)) ==> e@ == RpcEventView::Peers(Ok(peers_view(r@))),
        e matches RpcEvent::Peers(Err(r)) ==> e@ == RpcEventView::Peers(Err(r@)),
        e matches RpcEvent::Ran(o) ==> e@ == RpcEventView::Ran(o@),
        e matches RpcEvent::Tool(x) ==> e@ == RpcEventView::Tool(x@),
        s matches RpcStep::Reply(r) ==> s@ == RpcStepView::Reply(r@),
        s matches RpcStep::Await(t, a) ==> s@ == RpcStepView::Await(t@, a@),
{
}

// Values that may be absent, and results.

/// An optional value is seen where it is there, and a result as what it is.
pub proof fn law_results_are_seen_whole(
    bytes: Option<Vec<u8>>,
    list: Seq<&str>,
    recipe: Result<Recipe, String>,
    action: Option<ToolAction>,
    given: Option<&Json>,
    file: Option<Result<Json, String>>,
    decoded: Result<Json, String>,
    read: Result<String, String>,
    stored: Result<(), String>,
    peers: Result<Vec<RegistryPeer>, String>,
    call: Result<MeshCallParams, String>,
    values: Seq<Json>,
)
    ensures
        bytes is None ==> bytes_of(bytes) is None,
        bytes matches Some(b) ==> bytes_of(bytes) == Some(b@),
        slices(list).len() == list.len(),
        forall|i: int| 0 <= i < list.len() ==> #[trigger] slices(list)[i] == list[i]@,
        recipe matches Ok(r) ==> recipe_view(recipe) == Ok::<RecipeView, Seq<char>>(r@),
        recipe matches Err(e) ==> recipe_view(recipe) == Err::<RecipeView, Seq<char>>(e@),
        action is None ==> action_of(action) is None,
        action matches Some(a) ==> action_of(action) == Some(a@),
        given is None ==> borrowed(given) is None,
        given matches Some(v) ==> borrowed(given) == Some(v@),
        file matches Some(Ok(v)) ==> found_json(file) == Some(v@),
        file matches Some(Err(_)) ==> found_json(file) is None,
        file is None ==> found_json(file) is None,
        decoded matches Ok(j) ==> decoded_view(decoded) == Ok::<JsonView, Seq<char>>(j@),
        decoded matches Err(e) ==> decoded_view(decoded) == Err::<JsonView, Seq<char>>(e@),
        read matches Ok(s) ==> read_view(read) == Ok::<Seq<char>, Seq<char>>(s@),
        read matches Err(e) ==> read_view(read) == Err::<Seq<char>, Seq<char>>(e@),
        stored matches Ok(_) ==> stored_view(stored) == Ok::<(), Seq<char>>(()),
        stored matches Err(e) ==> stored_view(stored) == Err::<(), Seq<char>>(e@),
        peers matches Ok(p) ==> read_peers_view(peers) == Ok::<Seq<PeerView>, Seq<char>>(
            peers_view(p@),
        ),
        peers matches Err(e) ==> read_peers_view(peers) == Err::<Seq<PeerView>, Seq<char>>(e@),
        call matches Ok(c) ==> mesh_params_view(call) == Ok::<MeshCallView, Seq<char>>(c@),
        call matches Err(e) ==> mesh_params_view(call) == Err::<MeshCallView, Seq<char>>(e@),
        values_view(values).len() == values.len(),
        forall|i: int| 0 <= i < values.len() ==> #[trigger] values_view(values)[i] == values[i]@,
{
}

/// A result agrees with what is expected exactly where both succeed or both fail,
/// with the same value.
pub proof fn law_agreement_is_equality(
    text: Result<&str, ToolResult>,
    expected_text: Result<Seq<char>, Seq<char>>,
    command: Result<Command, String>,
    expected_command: Result<CommandView, Seq<char>>,
    bytes: Result<Vec<u8>, String>,
    expected_bytes: Result<Seq<u8>, Seq<char>>,
)
    ensures
        agrees(text, expected_text) <==> {
            ||| text is Ok && expected_text is Ok && text->Ok_0@ == expected_text->Ok_0
            ||| text is Err && expected_text is Err && !text->Err_0.ok && text->Err_0.output@
                == expected_text->Err_0
        },
        command_agrees(command, expected_command) <==> {
            ||| command is Ok && expected_command is Ok && command->Ok_0@ == expected_command->Ok_0
            ||| command is Err && expected_command is Err && command->Err_0@
                == expected_command->Err_0
        },
        bytes_agree(bytes, expected_bytes) <==> {
            ||| bytes is Ok && expected_bytes is Ok && bytes->Ok_0@ == expected_bytes->Ok_0
            ||| bytes is Err && expected_bytes is Err && bytes->Err_0@ == expected_bytes->Err_0
        },
{
}

/// A published tool is seen with all that is told of it.
pub proof fn law_tools_are_seen_whole(defs: Seq<ToolDef>, tool: Tool)
    ensures
        defs_view(defs).len() == defs.len(),
        forall|i: int|
            0 <= i < defs.len() ==> {
                let seen = #[trigger] defs_view(defs)[i];
                &&& seen.id == defs[i].id@
                &&& seen.name == defs[i].name@
                &&& seen.description == defs[i].description@
                &&& seen.requires_binary == defs[i].requires_binary@
                &&& seen.tags.len() == defs[i].tags@.len()
                &&& forall|k: int|
                    0 <= k < defs[i].tags@.len() ==> #[trigger] seen.tags[k] == defs[i].tags@[k]@
            },
        tool.def_view().id == tool.id(),
        tool.def_view().name == tool.label(),
        tool.def_view().description == tool.description(),
        tool.def_view().requires_binary == tool.binary(),
        tool.def_view().tags == tool.tags(),
{
}

} // verus!
