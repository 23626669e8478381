//! The mesh: what is asked of the registry, which peer a call goes to, and how
//! the agent announces itself.

use vstd::prelude::*;
use vstd::string::*;
use crate::card::{Settings, SettingsView};
use crate::command::{Command, CommandOutcome, CommandView, OutcomeView, command, owned_list,
    plain_command};
use crate::json::{Json, JsonView, Member, Number, NumberView, array, decoded_view, json_text,
    member, members_view, object, string, values_view};
use crate::outside::{from_utf8_lossy, json_parsed, lossy_text, parse_json};
use crate::text::{decimal, decimal_text, same_text, text_of, texts};

verus! {

/// An agent that the registry knows.
#[derive(Debug, PartialEq)]
pub struct RegistryPeer {
    pub host_label: String,
    pub role: String,
    pub agent_card_url: String,
}

/// What a [`RegistryPeer`] stands for.
pub struct PeerView {
    pub host_label: Seq<char>,
    pub role: Seq<char>,
    pub agent_card_url: Seq<char>,
}

impl View for RegistryPeer {
    type V = PeerView;

    open spec fn view(&self) -> PeerView {
        PeerView {
            host_label: self.host_label@,
            role: self.role@,
            agent_card_url: self.agent_card_url@,
        }
    }
}

/// The views of a list of peers.
pub open spec fn peers_view(peers: Seq<RegistryPeer>) -> Seq<PeerView> {
    Seq::new(peers.len(), |i: int| peers[i]@)
}

/// A call that is to go to a peer, found by its host label or, where none is
/// given, by its role.
#[derive(Debug, PartialEq)]
pub struct MeshCallParams {
    pub host_label: Option<String>,
    pub role: Option<String>,
    pub tool_name: String,
    pub arguments: Json,
}

/// What [`MeshCallParams`] stand for.
pub struct MeshCallView {
    pub host_label: Option<Seq<char>>,
    pub role: Option<Seq<char>>,
    pub tool_name: Seq<char>,
    pub arguments: JsonView,
}

impl View for MeshCallParams {
    type V = MeshCallView;

    open spec fn view(&self) -> MeshCallView {
        MeshCallView {
            host_label: text_of(self.host_label),
            role: text_of(self.role),
            tool_name: self.tool_name@,
            arguments: self.arguments@,
        }
    }
}

/// Whether a command is what a spec function says, or the error.
pub open spec fn command_agrees(
    r: Result<Command, String>,
    expected: Result<CommandView, Seq<char>>,
) -> bool {
    match (r, expected) {
        (Ok(c), Ok(v)) => c@ == v,
        (Err(e), Err(v)) => e@ == v,
        _ => false,
    }
}

/// Whether bytes are what a spec function says, or the error.
pub open spec fn bytes_agree(
    r: Result<Vec<u8>, String>,
    expected: Result<Seq<u8>, Seq<char>>,
) -> bool {
    match (r, expected) {
        (Ok(b), Ok(v)) => b@ == v,
        (Err(e), Err(v)) => e@ == v,
        _ => false,
    }
}

// The registry.

/// The command that asks the registry for its peers.
pub open spec fn registry_request(registry_url: Option<Seq<char>>) -> Result<
    CommandView,
    Seq<char>,
> {
    match registry_url {
        Some(url) => Ok(plain_command("curl"@, seq!["-s"@, url + "/peers"@])),
        None => Err("REGISTRY_URL is not configured on this agent"@),
    }
}

/// What a request that went through curl brought: what was printed, or an error
/// that names the side that failed.
pub open spec fn curl_reply(
    unreached: Seq<char>,
    refused: Seq<char>,
    outcome: OutcomeView,
) -> Result<Seq<u8>, Seq<char>> {
    match outcome {
        OutcomeView::Exited { success, stdout, stderr } => if success {
            Ok(stdout)
        } else {
            Err(refused + lossy_text(stderr))
        },
        OutcomeView::NotStarted { error } => Err(unreached + error),
        OutcomeView::Lost { error } => Err(unreached + error),
    }
}

/// What the registry sent.
pub open spec fn registry_reply(outcome: OutcomeView) -> Result<Seq<u8>, Seq<char>> {
    curl_reply("failed to reach registry: "@, "registry request exited non-zero: "@, outcome)
}

/// The part of the registry's reply that lists the peers.
pub open spec fn peer_list(body: JsonView) -> JsonView {
    match body.get("peers"@) {
        Some(list) => list,
        None => JsonView::Array(seq![]),
    }
}

/// The command that asks the registry for its peers.
pub fn fetch_registry_peers(registry_url: &Option<String>) -> (r: Result<Command, String>)
    ensures
        command_agrees(r, registry_request(text_of(*registry_url))),
{
    match registry_url {
        Some(url) => {
            let address: String = url.as_str().to_owned().concat("/peers");
            let args: Vec<String> = owned_list(&vec!["-s", address.as_str()]);
            proof {
                assert(texts(args@) =~= seq!["-s"@, address@]);
            }
            Ok(command("curl", args))
        },
        None => Err("REGISTRY_URL is not configured on this agent".to_owned()),
    }
}

fn printed_by_curl(unreached: &str, refused: &str, outcome: CommandOutcome) -> (r: Result<
    Vec<u8>,
    String,
>)
    ensures
        bytes_agree(r, curl_reply(unreached@, refused@, outcome@)),
{
    match outcome {
        CommandOutcome::Exited { success, stdout, stderr } => if success {
            Ok(stdout)
        } else {
            Err(refused.to_owned().concat(from_utf8_lossy(stderr.as_slice()).as_str()))
        },
        CommandOutcome::NotStarted { error } => Err(unreached.to_owned().concat(error.as_str())),
        CommandOutcome::Lost { error } => Err(unreached.to_owned().concat(error.as_str())),
    }
}

/// What the registry sent.
pub fn registry_body(outcome: CommandOutcome) -> (r: Result<Vec<u8>, String>)
    ensures
        bytes_agree(r, registry_reply(outcome@)),
{
    printed_by_curl("failed to reach registry: ", "registry request exited non-zero: ", outcome)
}

/// The part of the registry's reply that lists the peers.
pub fn listed_peers(body: &Json) -> (r: Json)
    ensures
        r@ == peer_list(body@),
{
    match body.get("peers") {
        Some(list) => list.duplicate(),
        None => {
            let none: Vec<Json> = Vec::new();
            proof {
                assert(values_view(none@) =~= seq![]);
            }
            array(none)
        },
    }
}

/// The list of peers in the registry's reply, given what came of reading it as
/// JSON.
pub open spec fn list_in_reply(decoded: Result<JsonView, Seq<char>>) -> Result<
    JsonView,
    Seq<char>,
> {
    match decoded {
        Ok(body) => Ok(peer_list(body)),
        Err(e) => Err("registry returned invalid JSON: "@ + e),
    }
}

/// The list of peers in the registry's reply, given what came of reading it as
/// JSON.
pub fn registry_json(decoded: Result<Json, String>) -> (r: Result<Json, String>)
    ensures
        decoded_view(r) == list_in_reply(decoded_view(decoded)),
{
    match decoded {
        Ok(body) => Ok(listed_peers(&body)),
        Err(e) => Err("registry returned invalid JSON: ".to_owned().concat(e.as_str())),
    }
}

/// The list of peers that the registry sent.
pub open spec fn registry_result(outcome: OutcomeView) -> Result<JsonView, Seq<char>> {
    match registry_reply(outcome) {
        Ok(bytes) => list_in_reply(json_parsed(bytes)),
        Err(e) => Err(e),
    }
}

/// The list of peers that the registry sent.
pub fn registry_peer_list(outcome: CommandOutcome) -> (r: Result<Json, String>)
    ensures
        decoded_view(r) == registry_result(outcome@),
{
    match registry_body(outcome) {
        Ok(bytes) => registry_json(parse_json(bytes.as_slice())),
        Err(e) => Err(e),
    }
}

/// A peer as a JSON object. The members stand in the order of their keys.
pub open spec fn peer_json(peer: PeerView) -> JsonView {
    JsonView::Object(
        seq![
            ("agent_card_url"@, JsonView::String(peer.agent_card_url)),
            ("host_label"@, JsonView::String(peer.host_label)),
            ("role"@, JsonView::String(peer.role)),
        ],
    )
}

/// A list of peers as a JSON array.
pub open spec fn peers_json(peers: Seq<PeerView>) -> JsonView {
    JsonView::Array(Seq::new(peers.len(), |i: int| peer_json(peers[i])))
}

fn publish_peer(peer: &RegistryPeer) -> (r: Json)
    ensures
        r@ == peer_json(peer@),
{
    let ms: Vec<Member> = vec![
        member("agent_card_url", string(peer.agent_card_url.as_str())),
        member("host_label", string(peer.host_label.as_str())),
        member("role", string(peer.role.as_str())),
    ];
    proof {
        assert(members_view(ms@) =~= peer_json(peer@)->Object_0);
    }
    object(ms)
}

/// A list of peers as a JSON array.
pub fn publish_peers(peers: &Vec<RegistryPeer>) -> (r: Json)
    ensures
        r@ == peers_json(peers_view(peers@)),
{
    let mut out: Vec<Json> = Vec::new();
    let n: usize = peers.len();
    let mut i: usize = 0;
    while i < n
        invariant
            n == peers@.len(),
            i <= n,
            out@.len() == i,
            forall|k: int| 0 <= k < i ==> (#[trigger] out@[k])@ == peer_json(peers@[k]@),
        decreases n - i,
    {
        out.push(publish_peer(&peers[i]));
        i = i + 1;
    }
    proof {
        assert(values_view(out@) =~= peers_json(peers_view(peers@))->Array_0);
    }
    array(out)
}

// The peer that a call goes to.

/// Whether a peer is one that the call asks for: the host label decides and, where
/// none is given, the role. Without either every peer fits.
pub open spec fn fits(peer: PeerView, call: MeshCallView) -> bool {
    match call.host_label {
        Some(label) => peer.host_label == label,
        None => call.role matches Some(role) ==> peer.role == role,
    }
}

/// The peers that a call asks for, in order.
pub open spec fn fitting(peers: Seq<PeerView>, call: MeshCallView) -> Seq<PeerView>
    decreases peers.len(),
{
    if peers.len() == 0 {
        seq![]
    } else {
        let rest = fitting(peers.drop_last(), call);
        if fits(peers.last(), call) {
            rest.push(peers.last())
        } else {
            rest
        }
    }
}

/// The one peer that a call asks for, or why there is none.
pub open spec fn selected(peers: Seq<PeerView>, call: MeshCallView) -> Result<PeerView, Seq<char>> {
    let found = fitting(peers, call);
    if found.len() == 0 {
        Err("no registered peer matches the given host_label/role"@)
    } else if found.len() == 1 {
        Ok(found[0])
    } else {
        Err(decimal(found.len()) + " peers match — specify host_label to disambiguate"@)
    }
}

fn is_wanted(peer: &RegistryPeer, call: &MeshCallParams) -> (r: bool)
    ensures
        r == fits(peer@, call@),
{
    match &call.host_label {
        Some(label) => same_text(peer.host_label.as_str(), label.as_str()),
        None => match &call.role {
            Some(role) => same_text(peer.role.as_str(), role.as_str()),
            None => true,
        },
    }
}

/// The position of the one peer that a call asks for, or why there is none.
pub fn select_peer(peers: &Vec<RegistryPeer>, call: &MeshCallParams) -> (r: Result<usize, String>)
    ensures
        match (r, selected(peers_view(peers@), call@)) {
            (Ok(i), Ok(peer)) => i < peers@.len() && peers@[i as int]@ == peer,
            (Err(e), Err(v)) => e@ == v,
            _ => false,
        },
{
    let n: usize = peers.len();
    let mut i: usize = 0;
    let mut count: usize = 0;
    let mut first: usize = 0;
    let ghost all = peers_view(peers@);
    proof {
        assert(all.take(0) =~= seq![]);
    }
    while i < n
        invariant
            n == peers@.len(),
            all == peers_view(peers@),
            i <= n,
            count <= i,
            count == fitting(all.take(i as int), call@).len(),
            count > 0 ==> first < i && peers@[first as int]@ == fitting(
                all.take(i as int),
                call@,
            )[0],
        decreases n - i,
    {
        proof {
            assert(all.take(i + 1).drop_last() =~= all.take(i as int));
            assert(all.take(i + 1).last() == peers@[i as int]@);
        }
        if is_wanted(&peers[i], call) {
            if count == 0 {
                first = i;
            }
            count = count + 1;
        }
        i = i + 1;
    }
    proof {
        assert(all.take(n as int) =~= all);
    }
    if count == 0 {
        Err("no registered peer matches the given host_label/role".to_owned())
    } else if count == 1 {
        Ok(first)
    } else {
        Err(
            decimal_text(count as u64).concat(
                " peers match — specify host_label to disambiguate",
            ),
        )
    }
}

// The call to a peer.

/// The request that a peer gets. The members stand in the order of their keys.
pub open spec fn peer_payload(tool_name: Seq<char>, arguments: JsonView) -> JsonView {
    JsonView::Object(
        seq![
            ("id"@, JsonView::Number(NumberView::PosInt(1))),
            ("jsonrpc"@, JsonView::String("2.0"@)),
            ("method"@, JsonView::String("tools/call"@)),
            (
                "params"@,
                JsonView::Object(
                    seq![("arguments"@, arguments), ("name"@, JsonView::String(tool_name))],
                ),
            ),
        ],
    )
}

/// The command that sends a request to a peer.
pub open spec fn peer_post(
    rpc_base: Seq<char>,
    mesh_token: Seq<char>,
    payload: Seq<char>,
) -> CommandView {
    plain_command(
        "curl"@,
        seq![
            "-s"@,
            "-X"@,
            "POST"@,
            rpc_base,
            "-H"@,
            "Authorization: Bearer "@ + mesh_token,
            "-H"@,
            "Content-Type: application/json"@,
            "-d"@,
            payload,
        ],
    )
}

/// The command that sends a tool call to a peer.
pub open spec fn peer_request(
    rpc_base: Seq<char>,
    mesh_token: Seq<char>,
    tool_name: Seq<char>,
    arguments: JsonView,
) -> CommandView {
    peer_post(rpc_base, mesh_token, json_text(peer_payload(tool_name, arguments)))
}

/// What a peer sent.
pub open spec fn peer_reply(outcome: OutcomeView) -> Result<Seq<u8>, Seq<char>> {
    curl_reply("failed to reach peer: "@, "peer request exited non-zero: "@, outcome)
}

fn make_payload(tool_name: &str, arguments: Json) -> (r: Json)
    ensures
        r@ == peer_payload(tool_name@, arguments@),
{
    let params: Vec<Member> = vec![
        member("arguments", arguments),
        member("name", string(tool_name)),
    ];
    proof {
        assert(members_view(params@) =~= seq![
            ("arguments"@, arguments@),
            ("name"@, JsonView::String(tool_name@)),
        ]);
    }
    let ms: Vec<Member> = vec![
        member("id", Json::Number(Number::PosInt(1))),
        member("jsonrpc", string("2.0")),
        member("method", string("tools/call")),
        member("params", object(params)),
    ];
    proof {
        assert(members_view(ms@) =~= peer_payload(tool_name@, arguments@)->Object_0);
    }
    object(ms)
}

/// The command that sends a request to a peer, with the token of the mesh.
pub fn post_to_peer(rpc_base: &str, mesh_token: &str, payload: &str) -> (r: Command)
    ensures
        r@ == peer_post(rpc_base@, mesh_token@, payload@),
{
    let token: String = "Authorization: Bearer ".to_owned().concat(mesh_token);
    let args: Vec<String> = owned_list(
        &vec![
            "-s",
            "-X",
            "POST",
            rpc_base,
            "-H",
            token.as_str(),
            "-H",
            "Content-Type: application/json",
            "-d",
            payload,
        ],
    );
    proof {
        assert(texts(args@) =~= peer_post(rpc_base@, mesh_token@, payload@).args);
    }
    command("curl", args)
}

/// The command that sends a tool call to a peer, with the token of the mesh.
pub fn call_peer(rpc_base: &str, mesh_token: &str, tool_name: &str, arguments: Json) -> (r: Command)
    ensures
        r@ == peer_request(rpc_base@, mesh_token@, tool_name@, arguments@),
{
    let payload: String = make_payload(tool_name, arguments).to_text();
    post_to_peer(rpc_base, mesh_token, payload.as_str())
}

/// What a peer sent.
pub fn peer_body(outcome: CommandOutcome) -> (r: Result<Vec<u8>, String>)
    ensures
        bytes_agree(r, peer_reply(outcome@)),
{
    printed_by_curl("failed to reach peer: ", "peer request exited non-zero: ", outcome)
}

/// What a peer answered, given what came of reading its reply as JSON: the value as
/// it is.
pub open spec fn answer_in_reply(decoded: Result<JsonView, Seq<char>>) -> Result<
    JsonView,
    Seq<char>,
> {
    match decoded {
        Ok(value) => Ok(value),
        Err(e) => Err("peer returned invalid JSON: "@ + e),
    }
}

/// What a peer answered, given what came of reading its reply as JSON.
pub fn peer_json_answer(decoded: Result<Json, String>) -> (r: Result<Json, String>)
    ensures
        decoded_view(r) == answer_in_reply(decoded_view(decoded)),
{
    match decoded {
        Ok(value) => Ok(value),
        Err(e) => Err("peer returned invalid JSON: ".to_owned().concat(e.as_str())),
    }
}

/// What a peer answered.
pub open spec fn peer_result(outcome: OutcomeView) -> Result<JsonView, Seq<char>> {
    match peer_reply(outcome) {
        Ok(bytes) => answer_in_reply(json_parsed(bytes)),
        Err(e) => Err(e),
    }
}

/// What a peer answered.
pub fn peer_answer(outcome: CommandOutcome) -> (r: Result<Json, String>)
    ensures
        decoded_view(r) == peer_result(outcome@),
{
    match peer_body(outcome) {
        Ok(bytes) => peer_json_answer(parse_json(bytes.as_slice())),
        Err(e) => Err(e),
    }
}

// The announcement to the registry.

/// For how many seconds the registry is to believe an announcement.
pub const TTL_SECONDS: u64 = 90;

/// How many seconds lie between two announcements.
pub const HEARTBEAT_SECONDS: u64 = 30;

/// How the agent announces itself.
#[derive(Debug, PartialEq)]
pub enum HeartbeatPlan {
    /// Not at all: there is no registry.
    NoRegistry,
    /// Not at all: the registry's token is missing.
    NoToken,
    /// By running the command every so many seconds.
    Beat { command: Command, every_seconds: u64 },
}

/// What a [`HeartbeatPlan`] stands for.
pub enum PlanView {
    NoRegistry,
    NoToken,
    Beat { command: CommandView, every_seconds: u64 },
}

impl View for HeartbeatPlan {
    type V = PlanView;

    open spec fn view(&self) -> PlanView {
        match self {
            HeartbeatPlan::NoRegistry => PlanView::NoRegistry,
            HeartbeatPlan::NoToken => PlanView::NoToken,
            HeartbeatPlan::Beat { command, every_seconds } => PlanView::Beat {
                command: command@,
                every_seconds: *every_seconds,
            },
        }
    }
}

/// What the agent tells the registry. The members stand in the order of their
/// keys.
pub open spec fn announcement(settings: SettingsView) -> JsonView {
    JsonView::Object(
        seq![
            ("agent_card_url"@, JsonView::String(settings.card_url())),
            ("host_label"@, JsonView::String(settings.label())),
            ("role"@, JsonView::String("docker-ops"@)),
            ("ttl_seconds"@, JsonView::Number(NumberView::PosInt(TTL_SECONDS))),
        ],
    )
}

/// The command that announces the agent with the given payload.
pub open spec fn register(url: Seq<char>, token: Seq<char>, payload: Seq<char>) -> CommandView {
    plain_command(
        "curl"@,
        seq![
            "-s"@,
            "-o"@,
            "/dev/null"@,
            "-w"@,
            "%{http_code}"@,
            "-X"@,
            "POST"@,
            url + "/register"@,
            "-H"@,
            "X-Registry-Token: "@ + token,
            "-H"@,
            "Content-Type: application/json"@,
            "-d"@,
            payload,
        ],
    )
}

/// How the agent announces itself.
pub open spec fn heartbeat(settings: SettingsView) -> PlanView {
    match (settings.registry_url, settings.registry_token) {
        (Some(url), Some(token)) => PlanView::Beat {
            command: register(url, token, json_text(announcement(settings))),
            every_seconds: HEARTBEAT_SECONDS,
        },
        (Some(_), None) => PlanView::NoToken,
        (None, _) => PlanView::NoRegistry,
    }
}

fn announce(settings: &Settings) -> (r: Json)
    ensures
        r@ == announcement(settings@),
{
    let ms: Vec<Member> = vec![
        member("agent_card_url", string(settings.card_url())),
        member("host_label", string(settings.label())),
        member("role", string("docker-ops")),
        member("ttl_seconds", Json::Number(Number::PosInt(TTL_SECONDS))),
    ];
    proof {
        assert(members_view(ms@) =~= announcement(settings@)->Object_0);
    }
    object(ms)
}

/// The command that announces the agent with the given payload.
pub fn register_agent(url: &str, token: &str, payload: &str) -> (r: Command)
    ensures
        r@ == register(url@, token@, payload@),
{
    let address: String = url.to_owned().concat("/register");
    let header: String = "X-Registry-Token: ".to_owned().concat(token);
    let args: Vec<String> = owned_list(
        &vec![
            "-s",
            "-o",
            "/dev/null",
            "-w",
            "%{http_code}",
            "-X",
            "POST",
            address.as_str(),
            "-H",
            header.as_str(),
            "-H",
            "Content-Type: application/json",
            "-d",
            payload,
        ],
    );
    proof {
        assert(texts(args@) =~= register(url@, token@, payload@).args);
    }
    command("curl", args)
}

/// How the agent announces itself.
pub fn registry_heartbeat(settings: &Settings) -> (r: HeartbeatPlan)
    ensures
        r@ == heartbeat(settings@),
{
    let url: &String = match &settings.registry_url {
        Some(url) => url,
        None => {
            return HeartbeatPlan::NoRegistry;
        },
    };
    let token: &String = match &settings.registry_token {
        Some(token) => token,
        None => {
            return HeartbeatPlan::NoToken;
        },
    };
    let payload: String = announce(settings).to_text();
    HeartbeatPlan::Beat {
        command: register_agent(url.as_str(), token.as_str(), payload.as_str()),
        every_seconds: HEARTBEAT_SECONDS,
    }
}

/// What came of an announcement.
#[derive(Debug, PartialEq)]
pub enum Heartbeat {
    /// The registry took it.
    Taken,
    /// The registry answered with another status code.
    Status(String),
    /// The registry was not asked.
    NotSent(String),
}

/// What a [`Heartbeat`] stands for.
pub enum HeartbeatView {
    Taken,
    Status(Seq<char>),
    NotSent(Seq<char>),
}

impl View for Heartbeat {
    type V = HeartbeatView;

    open spec fn view(&self) -> HeartbeatView {
        match self {
            Heartbeat::Taken => HeartbeatView::Taken,
            Heartbeat::Status(code) => HeartbeatView::Status(code@),
            Heartbeat::NotSent(error) => HeartbeatView::NotSent(error@),
        }
    }
}

/// What a status code says of an announcement.
pub open spec fn status_heard(code: Seq<char>) -> HeartbeatView {
    if code == "200"@ {
        HeartbeatView::Taken
    } else {
        HeartbeatView::Status(code)
    }
}

/// What a status code says of an announcement.
pub fn heartbeat_status(code: String) -> (r: Heartbeat)
    ensures
        r@ == status_heard(code@),
{
    if same_text(code.as_str(), "200") {
        Heartbeat::Taken
    } else {
        Heartbeat::Status(code)
    }
}

/// What came of an announcement: curl prints the status code, whatever its own
/// exit status.
pub open spec fn heard(outcome: OutcomeView) -> HeartbeatView {
    match outcome {
        OutcomeView::Exited { stdout, .. } => status_heard(lossy_text(stdout)),
        OutcomeView::NotStarted { error } => HeartbeatView::NotSent(error),
        OutcomeView::Lost { error } => HeartbeatView::NotSent(error),
    }
}

/// What came of an announcement.
pub fn heartbeat_outcome(outcome: CommandOutcome) -> (r: Heartbeat)
    ensures
        r@ == heard(outcome@),
{
    match outcome {
        CommandOutcome::Exited { success: _, stdout, stderr: _ } => heartbeat_status(
            from_utf8_lossy(stdout.as_slice()),
        ),
        CommandOutcome::NotStarted { error } => Heartbeat::NotSent(error),
        CommandOutcome::Lost { error } => Heartbeat::NotSent(error),
    }
}

} // verus!
