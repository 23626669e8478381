//! What holds of the endpoint and of the mesh.

use vstd::prelude::*;
use crate::auth::authorized;
use crate::card::{CARD_PATH, SettingsView, card, rpc_base, skills};
use crate::command::OutcomeView;
use crate::json::{JsonView, lemma_lookup_at};
use crate::mesh::{MeshCallView, PeerView, PlanView, TTL_SECONDS, fits, fitting, heartbeat,
    selected};
use crate::outside::json_parsed;
use crate::rpc::{ReplyView, RequestView, RpcActionView, RpcEventView, RpcStepView, RpcTaskView,
    answered, dispatched, error_body, reply_id, result_body, rpc_next, single_member,
    start_mesh_call, start_request};
use crate::state::StateView;
use crate::text::{decimal, has_suffix, without_suffixes};
use crate::tool_laws::{brings, distance, law_first_actions_bring_accepted_events,
    law_later_actions_bring_accepted_events, law_tool_calls_end};

verus! {

// Who gets in.

/// A request without a valid token is answered at once, with status 401; nothing
/// of it is read. One with a valid token is read.
pub proof fn law_only_authorized_requests_are_read(
    state: StateView,
    header: Option<Seq<u8>>,
    body: Seq<u8>,
)
    ensures
        !authorized(state, header) ==> (start_request(state, header, body) matches
            RpcStepView::Reply(reply) && reply.status == 401),
        authorized(state, header) ==> start_request(state, header, body) == RpcStepView::Await(
            RpcTaskView::Reading,
            RpcActionView::DecodeRequest { body },
        ),
{
}

/// No request changes a token.
pub proof fn law_requests_keep_tokens(
    settings: SettingsView,
    state: StateView,
    task: RpcTaskView,
    event: RpcEventView,
    now: Seq<char>,
    fresh: Seq<char>,
)
    requires
        task.accepts(event),
    ensures
        rpc_next(settings, state, task, event, now, fresh).0.bearer_token == state.bearer_token,
        rpc_next(settings, state, task, event, now, fresh).0.mesh_token == state.mesh_token,
{
}

/// Besides what its tool runs, a request runs no program but curl, and with no
/// input.
pub proof fn law_requests_run_only_curl(
    settings: SettingsView,
    state: StateView,
    task: RpcTaskView,
    event: RpcEventView,
    now: Seq<char>,
    fresh: Seq<char>,
)
    requires
        task.accepts(event),
    ensures
        rpc_next(settings, state, task, event, now, fresh).1 matches RpcStepView::Await(
            _,
            RpcActionView::Run(c),
        ) ==> c.program == "curl"@ && c.input is None,
{
}

// Replies.

/// The id of the request that a task works on.
pub open spec fn task_id(task: RpcTaskView) -> Option<JsonView> {
    match task {
        RpcTaskView::Reading => None,
        RpcTaskView::ReadingCall { id } => id,
        RpcTaskView::Working { id, .. } => id,
        RpcTaskView::ReadingMeshCall { id, .. } => id,
        RpcTaskView::Asking { id, .. } => id,
        RpcTaskView::ReadingPeers { id, .. } => id,
        RpcTaskView::Calling { id } => id,
    }
}

/// Whether a reply answers the request with the given id.
pub open spec fn replies_to(reply: ReplyView, id: Option<JsonView>) -> bool {
    &&& reply.status == 200
    &&& reply.body.get("id"@) == Some(reply_id(id))
    &&& reply.body.get("jsonrpc"@) == Some(JsonView::String("2.0"@))
}

/// Whether a step answers the request with the given id or goes on with it.
pub open spec fn serves(step: RpcStepView, id: Option<JsonView>) -> bool {
    match step {
        RpcStepView::Reply(reply) => replies_to(reply, id),
        RpcStepView::Await(task, _) => task_id(task) == id,
    }
}

proof fn lemma_bodies_carry_id(id: Option<JsonView>, result: JsonView, code: i64, message: Seq<char>)
    ensures
        replies_to((ReplyView { status: 200, body: result_body(id, result) }), id),
        replies_to((ReplyView { status: 200, body: error_body(id, code, message) }), id),
{
    reveal_strlit("error");
    reveal_strlit("id");
    reveal_strlit("jsonrpc");
    reveal_strlit("result");
    assert("error"@.len() == 5);
    assert("id"@.len() == 2);
    assert("jsonrpc"@.len() == 7);
    let r = result_body(id, result)->Object_0;
    lemma_lookup_at(r, "id"@, 0);
    lemma_lookup_at(r, "jsonrpc"@, 1);
    let e = error_body(id, code, message)->Object_0;
    lemma_lookup_at(e, "id"@, 1);
    lemma_lookup_at(e, "jsonrpc"@, 2);
}

/// Once a request was read, every step goes on with its id, up to the reply,
/// which carries it.
pub proof fn law_replies_carry_the_request_id(
    settings: SettingsView,
    state: StateView,
    task: RpcTaskView,
    event: RpcEventView,
    now: Seq<char>,
    fresh: Seq<char>,
)
    requires
        task.accepts(event),
        !(task is Reading),
    ensures
        serves(rpc_next(settings, state, task, event, now, fresh).1, task_id(task)),
{
    let id = task_id(task);
    let step = rpc_next(settings, state, task, event, now, fresh).1;
    match step {
        RpcStepView::Reply(reply) => {
            if exists|result: JsonView| reply.body == #[trigger] result_body(id, result) {
                let result = choose|result: JsonView| reply.body == #[trigger] result_body(id, result);
                lemma_bodies_carry_id(id, result, 0, seq![]);
            } else {
                let (code, message) = choose|code: i64, message: Seq<char>|
                    reply.body == #[trigger] error_body(id, code, message);
                lemma_bodies_carry_id(id, JsonView::Null, code, message);
            }
        },
        _ => {},
    }
}

/// The first step for a request that was read carries its id.
pub proof fn law_dispatch_carries_the_request_id(
    settings: SettingsView,
    state: StateView,
    request: RequestView,
)
    ensures
        serves(dispatched(settings, state, request), request.id),
{
    let id = request.id;
    match dispatched(settings, state, request) {
        RpcStepView::Reply(reply) => {
            if exists|result: JsonView| reply.body == #[trigger] result_body(id, result) {
                let result = choose|result: JsonView| reply.body == #[trigger] result_body(id, result);
                lemma_bodies_carry_id(id, result, 0, seq![]);
            } else {
                let (code, message) = choose|code: i64, message: Seq<char>|
                    reply.body == #[trigger] error_body(id, code, message);
                lemma_bodies_carry_id(id, JsonView::Null, code, message);
            }
        },
        _ => {},
    }
}

/// The tools that are listed are those on the agent card.
pub proof fn law_listed_tools_are_those_on_the_card(
    settings: SettingsView,
    state: StateView,
    request: RequestView,
)
    requires
        request.method == "tools/list"@,
    ensures
        card(settings).get("skills"@) is Some,
        dispatched(settings, state, request) == answered(
            request.id,
            single_member("tools"@, card(settings).get("skills"@)->0),
        ),
{
    reveal_strlit("tools/list");
    reveal_strlit("tools/call");
    assert("tools/list"@[6] == 'l');
    assert("tools/call"@[6] == 'c');
    reveal_strlit("capabilities");
    reveal_strlit("defaultInputModes");
    reveal_strlit("defaultOutputModes");
    reveal_strlit("description");
    reveal_strlit("hostLabel");
    reveal_strlit("name");
    reveal_strlit("securityRequirements");
    reveal_strlit("securitySchemes");
    reveal_strlit("skills");
    assert("skills"@.len() == 6);
    lemma_lookup_at(card(settings)->Object_0, "skills"@, 8);
}

// The mesh.

/// Without the token of a mesh, no call goes out: neither the registry nor a peer
/// is asked.
pub proof fn law_mesh_calls_need_the_mesh_token(
    state: StateView,
    id: Option<JsonView>,
    params: JsonView,
)
    ensures
        state.mesh_token is None ==> start_mesh_call(state, id, params) is Reply,
        state.mesh_token matches Some(token) ==> start_mesh_call(state, id, params)
            == RpcStepView::Await(
            RpcTaskView::ReadingMeshCall { id, mesh_token: token },
            RpcActionView::DecodeMeshCall { params },
        ),
{
}

/// What a peer printed comes back as the result, as the JSON that it is.
pub proof fn law_peer_answers_come_back_as_they_are(
    settings: SettingsView,
    state: StateView,
    id: Option<JsonView>,
    stdout: Seq<u8>,
    stderr: Seq<u8>,
    now: Seq<char>,
    fresh: Seq<char>,
)
    ensures
        json_parsed(stdout) matches Ok(value) ==> rpc_next(
            settings,
            state,
            RpcTaskView::Calling { id },
            RpcEventView::Ran(OutcomeView::Exited { success: true, stdout, stderr }),
            now,
            fresh,
        ) == (state, answered(id, value)),
{
}

proof fn lemma_fitting(peers: Seq<PeerView>, call: MeshCallView)
    ensures
        fitting(peers, call).len() == 0 <==> forall|i: int|
            0 <= i < peers.len() ==> !#[trigger] fits(peers[i], call),
        fitting(peers, call).len() == 1 ==> exists|i: int|
            0 <= i < peers.len() && #[trigger] fits(peers[i], call) && peers[i] == fitting(
                peers,
                call,
            )[0],
        forall|i: int, j: int|
            0 <= i < j < peers.len() && #[trigger] fits(peers[i], call) && #[trigger] fits(
                peers[j],
                call,
            ) ==> fitting(peers, call).len() >= 2,
    decreases peers.len(),
{
    if peers.len() > 0 {
        let init = peers.drop_last();
        let rest = fitting(init, call);
        let all = fitting(peers, call);
        let last = peers.len() - 1;
        lemma_fitting(init, call);
        assert forall|i: int| 0 <= i < init.len() implies init[i] == #[trigger] peers[i] by {}
        if fits(peers[last], call) {
            assert(all == rest.push(peers[last]));
            assert(all.len() == 1 ==> all[0] == peers[last]);
        } else {
            if rest.len() == 1 {
                let k = choose|k: int|
                    0 <= k < init.len() && #[trigger] fits(init[k], call) && init[k] == rest[0];
                assert(fits(peers[k], call) && peers[k] == all[0]);
            }
        }
        assert forall|i: int, j: int|
            0 <= i < j < peers.len() && #[trigger] fits(peers[i], call) && #[trigger] fits(
                peers[j],
                call,
            ) implies all.len() >= 2 by {
            assert(fits(init[i], call));
            if j < last {
                assert(fits(init[j], call));
            } else {
                assert(rest.len() != 0);
            }
        }
        if all.len() == 0 {
            assert forall|i: int| 0 <= i < peers.len() implies !#[trigger] fits(
                peers[i],
                call,
            ) by {
                if i < last {
                    assert(!fits(init[i], call));
                }
            }
        }
        if forall|i: int| 0 <= i < peers.len() ==> !#[trigger] fits(peers[i], call) {
            assert forall|i: int| 0 <= i < init.len() implies !#[trigger] fits(init[i], call) by {
                assert(!fits(peers[i], call));
            }
            assert(!fits(peers[last], call));
        }
    }
}

/// A call goes to a peer exactly where that peer is the only one that it asks
/// for.
pub proof fn law_selected_peer_is_the_only_one(
    peers: Seq<PeerView>,
    call: MeshCallView,
    i: int,
)
    requires
        0 <= i < peers.len(),
        fits(peers[i], call),
    ensures
        (forall|j: int| 0 <= j < peers.len() && #[trigger] fits(peers[j], call) ==> j == i)
            ==> selected(peers, call) == Ok::<PeerView, Seq<char>>(peers[i]),
        (exists|j: int| 0 <= j < peers.len() && j != i && #[trigger] fits(peers[j], call))
            ==> selected(peers, call) is Err,
{
    lemma_fitting(peers, call);
    let found = fitting(peers, call);
    if exists|j: int| 0 <= j < peers.len() && j != i && #[trigger] fits(peers[j], call) {
        let j = choose|j: int| 0 <= j < peers.len() && j != i && #[trigger] fits(peers[j], call);
        if i < j {
            assert(fits(peers[i], call) && fits(peers[j], call));
        } else {
            assert(fits(peers[j], call) && fits(peers[i], call));
        }
        assert(found.len() >= 2);
    } else {
        lemma_fitting_at_most(peers, call, i);
    }
}

proof fn lemma_fitting_at_most(peers: Seq<PeerView>, call: MeshCallView, i: int)
    requires
        forall|j: int| 0 <= j < peers.len() && #[trigger] fits(peers[j], call) ==> j == i,
    ensures
        fitting(peers, call).len() <= 1,
    decreases peers.len(),
{
    if peers.len() > 0 {
        let init = peers.drop_last();
        let last = peers.len() - 1;
        assert forall|j: int| 0 <= j < init.len() && #[trigger] fits(init[j], call) implies j
            == i by {
            assert(fits(peers[j], call));
        }
        lemma_fitting_at_most(init, call, i);
        if fits(peers[last], call) {
            lemma_fitting(init, call);
            assert forall|j: int| 0 <= j < init.len() implies !#[trigger] fits(init[j], call) by {
                if fits(init[j], call) {
                    assert(fits(peers[j], call));
                }
            }
        }
    }
}

/// A call that no peer fits goes nowhere.
pub proof fn law_no_fitting_peer_no_call(peers: Seq<PeerView>, call: MeshCallView)
    requires
        forall|j: int| 0 <= j < peers.len() ==> !#[trigger] fits(peers[j], call),
    ensures
        selected(peers, call) == Err::<PeerView, Seq<char>>(
            "no registered peer matches the given host_label/role"@,
        ),
{
    lemma_fitting(peers, call);
}

/// A call that gives a host label goes only to a peer with exactly that label. It
/// goes there where one peer has the label and no other does; where none or more
/// than one has it, it goes nowhere.
pub proof fn law_host_label_picks_its_peer(
    peers: Seq<PeerView>,
    call: MeshCallView,
    label: Seq<char>,
    i: int,
)
    requires
        call.host_label == Some(label),
    ensures
        selected(peers, call) matches Ok(peer) ==> peer.host_label == label && peers.contains(
            peer,
        ),
        0 <= i < peers.len() && peers[i].host_label == label && (forall|j: int|
            0 <= j < peers.len() && j != i ==> (#[trigger] peers[j]).host_label != label)
            ==> selected(peers, call) == Ok::<PeerView, Seq<char>>(peers[i]),
        0 <= i < peers.len() && peers[i].host_label == label && (exists|j: int|
            0 <= j < peers.len() && j != i && (#[trigger] peers[j]).host_label == label)
            ==> selected(peers, call) is Err,
        (forall|j: int| 0 <= j < peers.len() ==> (#[trigger] peers[j]).host_label != label)
            ==> selected(peers, call) == Err::<PeerView, Seq<char>>(
            "no registered peer matches the given host_label/role"@,
        ),
{
    lemma_selected_among(peers, call);
    if 0 <= i < peers.len() && peers[i].host_label == label {
        assert(fits(peers[i], call));
        law_selected_peer_is_the_only_one(peers, call, i);
        if exists|j: int|
            0 <= j < peers.len() && j != i && (#[trigger] peers[j]).host_label == label {
            let j = choose|j: int|
                0 <= j < peers.len() && j != i && (#[trigger] peers[j]).host_label == label;
            assert(fits(peers[j], call));
        }
    }
    if forall|j: int| 0 <= j < peers.len() ==> (#[trigger] peers[j]).host_label != label {
        law_no_fitting_peer_no_call(peers, call);
    }
}

/// A call that gives a role and no host label goes only to a peer with exactly
/// that role, where it is the only one with the role.
pub proof fn law_role_picks_its_peer(
    peers: Seq<PeerView>,
    call: MeshCallView,
    role: Seq<char>,
    i: int,
)
    requires
        call.host_label is None,
        call.role == Some(role),
    ensures
        selected(peers, call) matches Ok(peer) ==> peer.role == role && peers.contains(peer),
        0 <= i < peers.len() && peers[i].role == role && (forall|j: int|
            0 <= j < peers.len() && j != i ==> (#[trigger] peers[j]).role != role) ==> selected(
            peers,
            call,
        ) == Ok::<PeerView, Seq<char>>(peers[i]),
        0 <= i < peers.len() && peers[i].role == role && (exists|j: int|
            0 <= j < peers.len() && j != i && (#[trigger] peers[j]).role == role) ==> selected(
            peers,
            call,
        ) is Err,
        (forall|j: int| 0 <= j < peers.len() ==> (#[trigger] peers[j]).role != role)
            ==> selected(peers, call) == Err::<PeerView, Seq<char>>(
            "no registered peer matches the given host_label/role"@,
        ),
{
    lemma_selected_among(peers, call);
    if 0 <= i < peers.len() && peers[i].role == role {
        assert(fits(peers[i], call));
        law_selected_peer_is_the_only_one(peers, call, i);
        if exists|j: int| 0 <= j < peers.len() && j != i && (#[trigger] peers[j]).role == role {
            let j = choose|j: int|
                0 <= j < peers.len() && j != i && (#[trigger] peers[j]).role == role;
            assert(fits(peers[j], call));
        }
    }
    if forall|j: int| 0 <= j < peers.len() ==> (#[trigger] peers[j]).role != role {
        law_no_fitting_peer_no_call(peers, call);
    }
}

/// Which peer is called depends on how many of them have the label that the call
/// gives, or else the role; a call that gives neither asks for every peer. The
/// refusal of an unclear call tells how many there are.
pub proof fn law_unclear_calls_tell_how_many_peers_match(peers: Seq<PeerView>, call: MeshCallView)
    ensures
        ({
            let asked = match (call.host_label, call.role) {
                (Some(label), _) => peers.filter(|p: PeerView| p.host_label == label),
                (None, Some(role)) => peers.filter(|p: PeerView| p.role == role),
                (None, None) => peers,
            };
            selected(peers, call) == if asked.len() == 0 {
                Err("no registered peer matches the given host_label/role"@)
            } else if asked.len() == 1 {
                Ok(asked[0])
            } else {
                Err(decimal(asked.len()) + " peers match — specify host_label to disambiguate"@)
            }
        }),
{
    match (call.host_label, call.role) {
        (Some(label), _) => lemma_fitting_filter(
            peers,
            call,
            |p: PeerView| p.host_label == label,
        ),
        (None, Some(role)) => lemma_fitting_filter(peers, call, |p: PeerView| p.role == role),
        (None, None) => {
            lemma_fitting_filter(peers, call, |p: PeerView| true);
            lemma_filter_all(peers);
        },
    }
}

proof fn lemma_filter_all(peers: Seq<PeerView>)
    ensures
        peers.filter(|p: PeerView| true) == peers,
    decreases peers.len(),
{
    reveal(Seq::filter);
    if peers.len() > 0 {
        lemma_filter_all(peers.drop_last());
        assert(peers.drop_last().push(peers.last()) =~= peers);
    }
}

proof fn lemma_fitting_filter(
    peers: Seq<PeerView>,
    call: MeshCallView,
    asked: spec_fn(PeerView) -> bool,
)
    requires
        forall|p: PeerView| #[trigger] asked(p) == fits(p, call),
    ensures
        fitting(peers, call) == peers.filter(asked),
    decreases peers.len(),
{
    reveal(Seq::filter);
    if peers.len() > 0 {
        lemma_fitting_filter(peers.drop_last(), call, asked);
        assert(asked(peers.last()) == fits(peers.last(), call));
    }
}

proof fn lemma_selected_among(peers: Seq<PeerView>, call: MeshCallView)
    ensures
        selected(peers, call) matches Ok(peer) ==> fits(peer, call) && peers.contains(peer),
{
    lemma_fitting(peers, call);
    if fitting(peers, call).len() == 1 {
        let i = choose|i: int|
            0 <= i < peers.len() && #[trigger] fits(peers[i], call) && peers[i] == fitting(
                peers,
                call,
            )[0];
        assert(peers.contains(peers[i]));
    }
}

proof fn lemma_without_suffixes(s: Seq<char>, p: Seq<char>)
    requires
        p.len() > 0,
    ensures
        !has_suffix(without_suffixes(s, p), p),
        without_suffixes(s + p, p) == without_suffixes(s, p),
    decreases s.len(),
{
    assert((s + p).skip((s + p).len() - p.len()) =~= p);
    assert((s + p).take((s + p).len() - p.len()) =~= s);
    if has_suffix(s, p) {
        lemma_without_suffixes(s.take(s.len() - p.len()), p);
    }
}

/// The address for requests is that of the card without its fixed end: it no
/// longer has that end, adding the end to an address changes nothing, and an
/// address without the end stays as it is.
pub proof fn law_rpc_base_is_the_card_address_without_its_end(url: Seq<char>)
    ensures
        !has_suffix(rpc_base(url), CARD_PATH@),
        rpc_base(url + CARD_PATH@) == rpc_base(url),
        !has_suffix(url, CARD_PATH@) ==> rpc_base(url + CARD_PATH@) == url,
        rpc_base(rpc_base(url)) == rpc_base(url),
{
    reveal_strlit("/.well-known/agent-card.json");
    assert(CARD_PATH@.len() > 0);
    lemma_without_suffixes(url, CARD_PATH@);
}

/// The agent announces itself again before the registry forgets it.
pub proof fn law_announcements_come_in_time(settings: SettingsView)
    ensures
        heartbeat(settings) matches PlanView::Beat { every_seconds, .. } ==> 0 < every_seconds
            < TTL_SECONDS,
        heartbeat(settings) is Beat <==> settings.registry_url is Some
            && settings.registry_token is Some,
{
}

// Progress.

/// Whether an event is of the sort that an action brings.
pub open spec fn rpc_brings(action: RpcActionView, event: RpcEventView) -> bool {
    match action {
        RpcActionView::DecodeRequest { .. } => event is Request,
        RpcActionView::DecodeToolCall { .. } => event is ToolCall,
        RpcActionView::DecodeMeshCall { .. } => event is MeshCall,
        RpcActionView::DecodePeers { .. } => event is Peers,
        RpcActionView::Run(_) => event is Ran,
        RpcActionView::Tool(a) => event matches RpcEventView::Tool(e) && brings(a, e),
    }
}

/// What a request waits for is what its action brings.
pub proof fn law_requests_get_accepted_events(
    settings: SettingsView,
    state: StateView,
    task: RpcTaskView,
    event: RpcEventView,
    now: Seq<char>,
    fresh: Seq<char>,
    brought: RpcEventView,
)
    requires
        task.accepts(event),
    ensures
        ({
            let next = rpc_next(settings, state, task, event, now, fresh).1;
            next is Await && rpc_brings(next->Await_1, brought) ==> next->Await_0.accepts(brought)
        }),
{
    if let RpcEventView::Tool(e) = brought {
        match (task, event) {
            (RpcTaskView::ReadingCall { id }, RpcEventView::ToolCall(Ok(call))) => {
                law_first_actions_bring_accepted_events(settings.host, state, call, now, e);
            },
            (RpcTaskView::Working { id, task }, RpcEventView::Tool(event)) => {
                law_later_actions_bring_accepted_events(
                    settings.host,
                    state,
                    task,
                    event,
                    now,
                    fresh,
                    e,
                );
            },
            _ => {},
        }
    }
}

/// How far a request is from its reply.
pub open spec fn rpc_distance(task: RpcTaskView) -> (int, int, int) {
    match task {
        RpcTaskView::Reading => (5, 0, 0),
        RpcTaskView::ReadingCall { .. } => (1, 0, 0),
        RpcTaskView::Working { id, task } => (0, distance(task).0, distance(task).1),
        RpcTaskView::ReadingMeshCall { .. } => (4, 0, 0),
        RpcTaskView::Asking { .. } => (3, 0, 0),
        RpcTaskView::ReadingPeers { .. } => (2, 0, 0),
        RpcTaskView::Calling { .. } => (1, 0, 0),
    }
}

/// Every request gets its reply: each event that it accepts leads to the reply or
/// to a task that is nearer to it.
pub proof fn law_requests_end(
    settings: SettingsView,
    state: StateView,
    task: RpcTaskView,
    event: RpcEventView,
    now: Seq<char>,
    fresh: Seq<char>,
)
    requires
        task.accepts(event),
    ensures
        rpc_distance(task).0 >= 0,
        rpc_distance(task).1 >= 0,
        rpc_distance(task).2 >= 0,
        rpc_next(settings, state, task, event, now, fresh).1 matches RpcStepView::Await(later, _)
            ==> {
            let (a, b, c) = rpc_distance(task);
            let (x, y, z) = rpc_distance(later);
            x < a || (x == a && (y < b || (y == b && z < c)))
        },
{
    if let RpcTaskView::Working { id, task } = task {
        if let RpcEventView::Tool(event) = event {
            law_tool_calls_end(settings.host, state, task, event, now, fresh);
        }
    }
}

} // verus!
