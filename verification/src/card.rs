//! The agent card: what the agent publishes about itself.

use vstd::prelude::*;
use vstd::string::*;
use crate::command::slices;
use crate::json::{Json, JsonView, Member, array, member, members_view, object, string, values_view};
use crate::task::{Host, HostView};
use crate::text::{text_of, texts, trim_end_matches, without_suffixes};
use crate::tools::{ToolDef, ToolDefView, all_tools, available_tools, defs_view, published, usable};

verus! {

/// What every agent-card address ends with.
pub const CARD_PATH: &'static str = "/.well-known/agent-card.json";

/// The label of a host that sets none.
pub const UNKNOWN_HOST: &'static str = "unknown-host";

/// The address of the agent's own card where none is set.
pub const DEFAULT_CARD_URL: &'static str = "http://docker-ops-agent:8000/.well-known/agent-card.json";

/// What the agent is told about itself and its surroundings.
#[derive(Debug, PartialEq)]
pub struct Settings {
    pub host: Host,
    pub host_label: Option<String>,
    pub self_card_url: Option<String>,
    pub registry_url: Option<String>,
    pub registry_token: Option<String>,
}

/// What [`Settings`] stand for.
pub struct SettingsView {
    pub host: HostView,
    pub host_label: Option<Seq<char>>,
    pub self_card_url: Option<Seq<char>>,
    pub registry_url: Option<Seq<char>>,
    pub registry_token: Option<Seq<char>>,
}

impl View for Settings {
    type V = SettingsView;

    open spec fn view(&self) -> SettingsView {
        SettingsView {
            host: self.host@,
            host_label: text_of(self.host_label),
            self_card_url: text_of(self.self_card_url),
            registry_url: text_of(self.registry_url),
            registry_token: text_of(self.registry_token),
        }
    }
}

impl SettingsView {
    /// The label of this host.
    pub open spec fn label(self) -> Seq<char> {
        match self.host_label {
            Some(l) => l,
            None => UNKNOWN_HOST@,
        }
    }

    /// The address of the agent's own card.
    pub open spec fn card_url(self) -> Seq<char> {
        match self.self_card_url {
            Some(u) => u,
            None => DEFAULT_CARD_URL@,
        }
    }
}

impl Settings {
    /// The label of this host.
    pub fn label(&self) -> (r: &str)
        ensures
            r@ == self@.label(),
    {
        match &self.host_label {
            Some(l) => l.as_str(),
            None => UNKNOWN_HOST,
        }
    }

    /// The address of the agent's own card.
    pub fn card_url(&self) -> (r: &str)
        ensures
            r@ == self@.card_url(),
    {
        match &self.self_card_url {
            Some(u) => u.as_str(),
            None => DEFAULT_CARD_URL,
        }
    }
}

/// Where an agent takes requests, given the address of its card.
pub open spec fn rpc_base(card_url: Seq<char>) -> Seq<char> {
    without_suffixes(card_url, CARD_PATH@)
}

/// The address to which requests go, derived from the address of an agent's card.
pub fn peer_rpc_base(agent_card_url: &str) -> (r: String)
    ensures
        r@ == rpc_base(agent_card_url@),
{
    trim_end_matches(agent_card_url, CARD_PATH).to_owned()
}

/// A list of strings as a JSON array.
pub open spec fn string_array(list: Seq<Seq<char>>) -> JsonView {
    JsonView::Array(Seq::new(list.len(), |i: int| JsonView::String(list[i])))
}

/// How a tool is published. The members of an object stand in the order of their
/// keys.
pub open spec fn skill(def: ToolDefView) -> JsonView {
    JsonView::Object(
        seq![
            ("description"@, JsonView::String(def.description)),
            ("id"@, JsonView::String(def.id)),
            ("name"@, JsonView::String(def.name)),
            ("tags"@, string_array(def.tags)),
        ],
    )
}

/// The tools that a host with the given binaries publishes.
pub open spec fn skills(binaries: Seq<Seq<char>>) -> JsonView {
    let defs = published(usable(all_tools(), binaries));
    JsonView::Array(Seq::new(defs.len(), |i: int| skill(defs[i])))
}

/// What the card says about the agent in words.
pub const CARD_DESCRIPTION: &'static str = "Host Docker/Anvil operations exposed as a narrow, allowlisted A2A tool surface, scoped to whatever tooling is actually installed on this host and whatever services this host's discovery.toml manifest declares. Does not grant raw shell or docker-socket access to callers — every operation is a named, validated function. Config-mutating tools (service_config_apply) require staging a reviewable proposal first.";

/// The way in which callers show who they are.
pub open spec fn bearer_scheme() -> JsonView {
    JsonView::Object(
        seq![
            (
                "bearerAuth"@,
                JsonView::Object(
                    seq![
                        (
                            "httpAuthSecurityScheme"@,
                            JsonView::Object(
                                seq![
                                    ("bearerFormat"@, JsonView::String("opaque"@)),
                                    (
                                        "description"@,
                                        JsonView::String("Bearer token authentication"@),
                                    ),
                                    ("scheme"@, JsonView::String("bearer"@)),
                                ],
                            ),
                        ),
                    ],
                ),
            ),
        ],
    )
}

/// What a caller has to show.
pub open spec fn bearer_required() -> JsonView {
    JsonView::Array(
        seq![
            JsonView::Object(
                seq![
                    (
                        "schemes"@,
                        JsonView::Object(seq![("bearerAuth"@, JsonView::Object(seq![]))]),
                    ),
                ],
            ),
        ],
    )
}

/// Where and how the agent takes requests.
pub open spec fn interfaces(settings: SettingsView) -> JsonView {
    JsonView::Array(
        seq![
            JsonView::Object(
                seq![
                    ("protocolBinding"@, JsonView::String("JSONRPC"@)),
                    ("protocolVersion"@, JsonView::String("1.0"@)),
                    ("url"@, JsonView::String(rpc_base(settings.card_url()))),
                ],
            ),
        ],
    )
}

/// The agent card.
pub open spec fn card(settings: SettingsView) -> JsonView {
    JsonView::Object(
        seq![
            ("capabilities"@, JsonView::Object(seq![("streaming"@, JsonView::Bool(false))])),
            ("defaultInputModes"@, string_array(seq!["application/json"@])),
            ("defaultOutputModes"@, string_array(seq!["application/json"@])),
            ("description"@, JsonView::String(CARD_DESCRIPTION@)),
            ("hostLabel"@, JsonView::String(settings.label())),
            ("name"@, JsonView::String("docker-ops-agent ("@ + settings.label() + ")"@)),
            ("securityRequirements"@, bearer_required()),
            ("securitySchemes"@, bearer_scheme()),
            ("skills"@, skills(settings.host.binaries)),
            ("supportedInterfaces"@, interfaces(settings)),
            ("version"@, JsonView::String("0.5.0"@)),
        ],
    )
}

fn strings(list: &Vec<&'static str>) -> (r: Json)
    ensures
        r@ == string_array(slices(list@)),
{
    let mut out: Vec<Json> = Vec::new();
    let n: usize = list.len();
    let mut i: usize = 0;
    while i < n
        invariant
            n == list@.len(),
            i <= n,
            out@.len() == i,
            forall|k: int| 0 <= k < i ==> (#[trigger] out@[k])@ == JsonView::String(list@[k]@),
        decreases n - i,
    {
        out.push(string(list[i]));
        i = i + 1;
    }
    proof {
        assert(values_view(out@) =~= Seq::new(
            list@.len(),
            |i: int| JsonView::String(slices(list@)[i]),
        ));
    }
    array(out)
}

/// The JSON object with a single member.
fn single(key: &str, value: Json) -> (r: Json)
    ensures
        r@ == JsonView::Object(seq![(key@, value@)]),
{
    let ms: Vec<Member> = vec![member(key, value)];
    proof {
        assert(members_view(ms@) =~= seq![(key@, value@)]);
    }
    object(ms)
}

/// The JSON array with a single element.
fn only(value: Json) -> (r: Json)
    ensures
        r@ == JsonView::Array(seq![value@]),
{
    let xs: Vec<Json> = vec![value];
    proof {
        assert(values_view(xs@) =~= seq![value@]);
    }
    array(xs)
}

fn publish(def: &ToolDef) -> (r: Json)
    ensures
        r@ == skill(def@),
{
    let tags: Json = strings(&def.tags);
    proof {
        assert(slices(def.tags@) =~= def@.tags);
    }
    let ms: Vec<Member> = vec![
        member("description", string(def.description)),
        member("id", string(def.id)),
        member("name", string(def.name)),
        member("tags", tags),
    ];
    proof {
        assert(members_view(ms@) =~= skill(def@)->Object_0);
    }
    object(ms)
}

/// The tools that a host with the given binaries publishes.
pub fn published_skills(binaries: &Vec<String>) -> (r: Json)
    ensures
        r@ == skills(texts(binaries@)),
{
    let defs: Vec<ToolDef> = available_tools(binaries);
    let ghost views = defs_view(defs@);
    let mut out: Vec<Json> = Vec::new();
    let n: usize = defs.len();
    let mut i: usize = 0;
    while i < n
        invariant
            n == defs@.len(),
            i <= n,
            out@.len() == i,
            forall|k: int| 0 <= k < i ==> (#[trigger] out@[k])@ == skill(defs@[k]@),
        decreases n - i,
    {
        out.push(publish(&defs[i]));
        i = i + 1;
    }
    proof {
        assert(values_view(out@) =~= Seq::new(views.len(), |i: int| skill(views[i])));
    }
    array(out)
}

fn make_bearer_scheme() -> (r: Json)
    ensures
        r@ == bearer_scheme(),
{
    let ms: Vec<Member> = vec![
        member("bearerFormat", string("opaque")),
        member("description", string("Bearer token authentication")),
        member("scheme", string("bearer")),
    ];
    proof {
        assert(members_view(ms@) =~= seq![
            ("bearerFormat"@, JsonView::String("opaque"@)),
            ("description"@, JsonView::String("Bearer token authentication"@)),
            ("scheme"@, JsonView::String("bearer"@)),
        ]);
    }
    single("bearerAuth", single("httpAuthSecurityScheme", object(ms)))
}

fn make_bearer_required() -> (r: Json)
    ensures
        r@ == bearer_required(),
{
    let none: Vec<Member> = Vec::new();
    proof {
        assert(members_view(none@) =~= seq![]);
    }
    only(single("schemes", single("bearerAuth", object(none))))
}

fn make_interfaces(settings: &Settings) -> (r: Json)
    ensures
        r@ == interfaces(settings@),
{
    let base: String = peer_rpc_base(settings.card_url());
    let ms: Vec<Member> = vec![
        member("protocolBinding", string("JSONRPC")),
        member("protocolVersion", string("1.0")),
        member("url", string(base.as_str())),
    ];
    proof {
        assert(members_view(ms@) =~= seq![
            ("protocolBinding"@, JsonView::String("JSONRPC"@)),
            ("protocolVersion"@, JsonView::String("1.0"@)),
            ("url"@, JsonView::String(base@)),
        ]);
    }
    only(object(ms))
}

fn json_only() -> (r: Json)
    ensures
        r@ == string_array(seq!["application/json"@]),
{
    let list: Vec<&'static str> = vec!["application/json"];
    proof {
        assert(slices(list@) =~= seq!["application/json"@]);
    }
    strings(&list)
}

/// The agent card.
pub fn agent_card(settings: &Settings) -> (r: Json)
    ensures
        r@ == card(settings@),
{
    let name: String = "docker-ops-agent (".to_owned().concat(settings.label()).concat(")");
    let ms: Vec<Member> = vec![
        member("capabilities", single("streaming", Json::Bool(false))),
        member("defaultInputModes", json_only()),
        member("defaultOutputModes", json_only()),
        member("description", string(CARD_DESCRIPTION)),
        member("hostLabel", string(settings.label())),
        member("name", string(name.as_str())),
        member("securityRequirements", make_bearer_required()),
        member("securitySchemes", make_bearer_scheme()),
        member("skills", published_skills(&settings.host.binaries)),
        member("supportedInterfaces", make_interfaces(settings)),
        member("version", string("0.5.0")),
    ];
    proof {
        assert(members_view(ms@) =~= card(settings@)->Object_0);
    }
    object(ms)
}

} // verus!
