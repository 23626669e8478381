//! The tools that the agent offers, and the names that they take.

use vstd::prelude::*;
use crate::outside::regex_is_match;
use crate::text::{same_text, texts};

verus! {

/// The pattern that service, container and host names must match.
pub const SAFE_NAME: &'static str = "^[a-zA-Z0-9_.-]+$";

/// Whether `c` may stand in a name.
pub open spec fn safe_char(c: char) -> bool {
    'a' <= c <= 'z' || 'A' <= c <= 'Z' || '0' <= c <= '9' || c == '_' || c == '.' || c == '-'
}

/// Whether `s` is a non-empty text of characters that may stand in a name.
pub open spec fn safe_name(s: Seq<char>) -> bool {
    s.len() > 0 && forall|i: int| 0 <= i < s.len() ==> safe_char(#[trigger] s[i])
}

/// Whether `s` is accepted as a name: safe, and not longer than 128 characters.
pub open spec fn name_ok(s: Seq<char>) -> bool {
    safe_name(s) && s.len() <= 128
}

/// Whether `s` is accepted as the name of a service, a container or a host.
pub fn valid_name(s: &str) -> (r: bool)
    ensures
        r == name_ok(s@),
{
    proof {
        if safe_name(s@) {
            assert(vstd::utf8::is_ascii_chars(s@));
            vstd::utf8::is_ascii_chars_encode_utf8(s@);
        }
    }
    !s.is_empty() && s.as_bytes().len() <= 128 && regex_is_match(SAFE_NAME, s)
}

/// A tool of the agent. To add one, add a variant here, its entry below, and
/// what it does to the execution of tools.
#[derive(Debug, Clone, Copy, PartialEq, Eq, Structural)]
pub enum Tool {
    AnvilDockerUpdate,
    ComposeRestart,
    DockerLogs,
    DockerPs,
    NetworkDiagnose,
    DiscoverEnvironment,
    ServiceConfigRead,
    ServiceConfigPropose,
    ServiceConfigApply,
    UpdateInstructions,
    ContainerRestart,
    ContainerRecreate,
    EnvGet,
    EnvUpdate,
    ComposeLogs,
    ComposeUpForceRecreate,
}

/// What the agent publishes about a tool.
#[derive(Debug, PartialEq)]
pub struct ToolDef {
    pub id: &'static str,
    pub name: &'static str,
    pub description: &'static str,
    pub tags: Vec<&'static str>,
    /// The program that the tool needs on this host. Without it the tool is not
    /// offered, and calls of it are refused.
    pub requires_binary: &'static str,
}

/// What a [`ToolDef`] stands for.
pub struct ToolDefView {
    pub id: Seq<char>,
    pub name: Seq<char>,
    pub description: Seq<char>,
    pub tags: Seq<Seq<char>>,
    pub requires_binary: Seq<char>,
}

impl View for ToolDef {
    type V = ToolDefView;

    open spec fn view(&self) -> ToolDefView {
        ToolDefView {
            id: self.id@,
            name: self.name@,
            description: self.description@,
            tags: Seq::new(self.tags@.len(), |i: int| self.tags@[i]@),
            requires_binary: self.requires_binary@,
        }
    }
}

/// The views of a list of tool definitions.
pub open spec fn defs_view(defs: Seq<ToolDef>) -> Seq<ToolDefView> {
    Seq::new(defs.len(), |i: int| defs[i]@)
}

/// All tools, in the order in which they are published.
pub open spec fn all_tools() -> Seq<Tool> {
    seq![
        Tool::AnvilDockerUpdate,
        Tool::ComposeRestart,
        Tool::DockerLogs,
        Tool::DockerPs,
        Tool::NetworkDiagnose,
        Tool::DiscoverEnvironment,
        Tool::ServiceConfigRead,
        Tool::ServiceConfigPropose,
        Tool::ServiceConfigApply,
        Tool::UpdateInstructions,
        Tool::ContainerRestart,
        Tool::ContainerRecreate,
        Tool::EnvGet,
        Tool::EnvUpdate,
        Tool::ComposeLogs,
        Tool::ComposeUpForceRecreate,
    ]
}

impl Tool {
    /// The name that calls use.
    pub open spec fn id(self) -> Seq<char> {
        match self {
            Tool::AnvilDockerUpdate => "anvil_docker_update"@,
            Tool::ComposeRestart => "compose_restart"@,
            Tool::DockerLogs => "docker_logs"@,
            Tool::DockerPs => "docker_ps"@,
            Tool::NetworkDiagnose => "network_diagnose"@,
            Tool::DiscoverEnvironment => "discover_environment"@,
            Tool::ServiceConfigRead => "service_config_read"@,
            Tool::ServiceConfigPropose => "service_config_propose"@,
            Tool::ServiceConfigApply => "service_config_apply"@,
            Tool::UpdateInstructions => "update_instructions"@,
            Tool::ContainerRestart => "container_restart"@,
            Tool::ContainerRecreate => "container_recreate"@,
            Tool::EnvGet => "env_get"@,
            Tool::EnvUpdate => "env_update"@,
            Tool::ComposeLogs => "compose_logs"@,
            Tool::ComposeUpForceRecreate => "compose_up_force_recreate"@,
        }
    }

    /// The name to show.
    pub open spec fn label(self) -> Seq<char> {
        match self {
            Tool::AnvilDockerUpdate => "Anvil Docker Update"@,
            Tool::ComposeRestart => "Compose Restart"@,
            Tool::DockerLogs => "Docker Logs"@,
            Tool::DockerPs => "Docker PS"@,
            Tool::NetworkDiagnose => "Network Diagnose"@,
            Tool::DiscoverEnvironment => "Discover Environment"@,
            Tool::ServiceConfigRead => "Service Config Read"@,
            Tool::ServiceConfigPropose => "Service Config Propose"@,
            Tool::ServiceConfigApply => "Service Config Apply"@,
            Tool::UpdateInstructions => "Update Instructions"@,
            Tool::ContainerRestart => "Container Restart"@,
            Tool::ContainerRecreate => "Container Recreate"@,
            Tool::EnvGet => "Env Get"@,
            Tool::EnvUpdate => "Env Update"@,
            Tool::ComposeLogs => "Compose Logs"@,
            Tool::ComposeUpForceRecreate => "Compose Up Force Recreate"@,
        }
    }

    /// What it does and which arguments it takes.
    pub open spec fn description(self) -> Seq<char> {
        match self {
            Tool::AnvilDockerUpdate => "Run `anvil docker update --in-order <service>:<wait_seconds>`. Arguments: service (string, required), wait_seconds (integer, default 15, max 300)."@,
            Tool::ComposeRestart => "Restart a named service via `docker compose restart <service>` against the fixed stack compose file. Arguments: service (string, required)."@,
            Tool::DockerLogs => "Fetch recent logs for a named container. Arguments: container (string, required), tail (integer, default 100, max 2000)."@,
            Tool::DockerPs => "List running containers (name + status). No arguments."@,
            Tool::NetworkDiagnose => "Diagnose DNS/connectivity for a hostname reachable from this host — runs getent hosts + docker network inspect against the bridge network. Arguments: target (string, required — a hostname or container name)."@,
            Tool::DiscoverEnvironment => "Re-run service discovery against this host's discovery.toml manifest (if mounted) and update memory with what's actually found running. Call this if a service was restarted/renamed and memory might be stale, or to check what roles this host actually has. No arguments."@,
            Tool::ServiceConfigRead => "Read the live config file for a discovered service role on this host. Arguments: role (string, required — must match a role this host's discovery manifest declares and actually found running; call discover_environment first if unsure what roles exist here)."@,
            Tool::ServiceConfigPropose => "Stage a proposed full replacement of a discovered service's config file without applying it. Returns a proposal_id and shows current vs proposed content side by side for review. Does NOT touch the live config. Arguments: role (string, required), proposed_content (string, required)."@,
            Tool::ServiceConfigApply => "Apply a previously staged proposal and run that service role's reload command (if any). Only works with a valid, still-pending proposal_id — cannot apply arbitrary content directly. Requires explicit go-ahead from Gabriel in the requesting conversation before calling this, even with a valid proposal_id — see /data/instructions.md approval policy. Arguments: proposal_id (string, required)."@,
            Tool::UpdateInstructions => "Append a learned note to the human-editable instructions file at /data/instructions.md and to persisted memory. Use this to record something learned that should persist and guide future actions — a corrected path, a policy clarification Gabriel gave, etc. Arguments: note (string, required)."@,
            Tool::ContainerRestart => "Restart a stopped or running container (docker restart). Note: this preserves the original env vars from when the container was first created — it does NOT re-read .env files. For containers whose env may have changed, use container_recreate instead."@,
            Tool::ContainerRecreate => "Recreate a container using the same image, ports, volumes, and environment as the original. The container is removed and recreated fresh, which forces Docker to re-read the current .env file for any env vars. Use this after editing .env to pick up changes that docker restart would miss. Arguments: container (string, required)."@,
            Tool::EnvGet => "Read environment variables from a running container as key=value lines. Arguments: container (string, required), filter (string, optional — only return vars whose name contains this substring, case-insensitive)."@,
            Tool::EnvUpdate => "Update KEY=value entries in a .env file on the host filesystem (at /stack/.env by default, or in the directory specified by COMPOSE_DIR). Only modifies existing keys or adds new ones — never rewrites unrelated content. Returns a diff of what changed. Arguments: values (map of string->string, required — keys and their new values)."@,
            Tool::ComposeLogs => "Fetch logs for a compose service from `docker compose logs`. Arguments: service (string, required), tail (integer, default 100, max 2000)."@,
            Tool::ComposeUpForceRecreate => "Run `docker compose up -d --force-recreate <service>` to stop, remove, and recreate a compose service with fresh env vars from the current .env file. Use this after editing .env to force Docker to re-read updated environment variables. Arguments: service (string, required)."@,
        }
    }

    /// The program that it needs on the host.
    pub open spec fn binary(self) -> Seq<char> {
        match self {
            Tool::AnvilDockerUpdate => "anvil"@,
            Tool::ComposeRestart => "docker"@,
            Tool::DockerLogs => "docker"@,
            Tool::DockerPs => "docker"@,
            Tool::NetworkDiagnose => "docker"@,
            Tool::DiscoverEnvironment => "docker"@,
            Tool::ServiceConfigRead => "docker"@,
            Tool::ServiceConfigPropose => "docker"@,
            Tool::ServiceConfigApply => "docker"@,
            Tool::UpdateInstructions => "docker"@,
            Tool::ContainerRestart => "docker"@,
            Tool::ContainerRecreate => "docker"@,
            Tool::EnvGet => "docker"@,
            Tool::EnvUpdate => "gawk"@,
            Tool::ComposeLogs => "docker"@,
            Tool::ComposeUpForceRecreate => "docker"@,
        }
    }

    /// The tags that it is published with.
    pub open spec fn tags(self) -> Seq<Seq<char>> {
        match self {
            Tool::AnvilDockerUpdate => seq!["docker"@, "anvil"@, "deploy"@],
            Tool::ComposeRestart => seq!["docker"@, "compose"@],
            Tool::DockerLogs => seq!["docker"@, "debug"@],
            Tool::DockerPs => seq!["docker"@, "debug"@],
            Tool::NetworkDiagnose => seq!["network"@, "debug"@],
            Tool::DiscoverEnvironment => seq!["discovery"@, "memory"@],
            Tool::ServiceConfigRead => seq!["config"@, "debug"@],
            Tool::ServiceConfigPropose => seq!["config"@, "propose"@],
            Tool::ServiceConfigApply => seq!["config"@, "apply"@],
            Tool::UpdateInstructions => seq!["memory"@, "instructions"@],
            Tool::ContainerRestart => seq!["docker"@, "operate"@],
            Tool::ContainerRecreate => seq!["docker"@, "operate"@],
            Tool::EnvGet => seq!["docker"@, "debug"@, "env"@],
            Tool::EnvUpdate => seq!["docker"@, "compose"@, "env"@],
            Tool::ComposeLogs => seq!["docker"@, "compose"@, "debug"@],
            Tool::ComposeUpForceRecreate => seq!["docker"@, "compose"@, "operate"@],
        }
    }

    /// What the agent publishes about it.
    pub open spec fn def_view(self) -> ToolDefView {
        ToolDefView {
            id: self.id(),
            name: self.label(),
            description: self.description(),
            tags: self.tags(),
            requires_binary: self.binary(),
        }
    }

    /// What the agent publishes about it.
    pub fn def(self) -> (r: ToolDef)
        ensures
            r@ == self.def_view(),
    {
        let r = match self {
            Tool::AnvilDockerUpdate => ToolDef {
                id: "anvil_docker_update",
                name: "Anvil Docker Update",
                description: "Run `anvil docker update --in-order <service>:<wait_seconds>`. Arguments: service (string, required), wait_seconds (integer, default 15, max 300).",
                tags: vec!["docker", "anvil", "deploy"],
                requires_binary: "anvil",
            },
            Tool::ComposeRestart => ToolDef {
                id: "compose_restart",
                name: "Compose Restart",
                description: "Restart a named service via `docker compose restart <service>` against the fixed stack compose file. Arguments: service (string, required).",
                tags: vec!["docker", "compose"],
                requires_binary: "docker",
            },
            Tool::DockerLogs => ToolDef {
                id: "docker_logs",
                name: "Docker Logs",
                description: "Fetch recent logs for a named container. Arguments: container (string, required), tail (integer, default 100, max 2000).",
                tags: vec!["docker", "debug"],
                requires_binary: "docker",
            },
            Tool::DockerPs => ToolDef {
                id: "docker_ps",
                name: "Docker PS",
                description: "List running containers (name + status). No arguments.",
                tags: vec!["docker", "debug"],
                requires_binary: "docker",
            },
            Tool::NetworkDiagnose => ToolDef {
                id: "network_diagnose",
                name: "Network Diagnose",
                description: "Diagnose DNS/connectivity for a hostname reachable from this host — runs getent hosts + docker network inspect against the bridge network. Arguments: target (string, required — a hostname or container name).",
                tags: vec!["network", "debug"],
                requires_binary: "docker",
            },
            Tool::DiscoverEnvironment => ToolDef {
                id: "discover_environment",
                name: "Discover Environment",
                description: "Re-run service discovery against this host's discovery.toml manifest (if mounted) and update memory with what's actually found running. Call this if a service was restarted/renamed and memory might be stale, or to check what roles this host actually has. No arguments.",
                tags: vec!["discovery", "memory"],
                requires_binary: "docker",
            },
            Tool::ServiceConfigRead => ToolDef {
                id: "service_config_read",
                name: "Service Config Read",
                description: "Read the live config file for a discovered service role on this host. Arguments: role (string, required — must match a role this host's discovery manifest declares and actually found running; call discover_environment first if unsure what roles exist here).",
                tags: vec!["config", "debug"],
                requires_binary: "docker",
            },
            Tool::ServiceConfigPropose => ToolDef {
                id: "service_config_propose",
                name: "Service Config Propose",
                description: "Stage a proposed full replacement of a discovered service's config file without applying it. Returns a proposal_id and shows current vs proposed content side by side for review. Does NOT touch the live config. Arguments: role (string, required), proposed_content (string, required).",
                tags: vec!["config", "propose"],
                requires_binary: "docker",
            },
            Tool::ServiceConfigApply => ToolDef {
                id: "service_config_apply",
                name: "Service Config Apply",
                description: "Apply a previously staged proposal and run that service role's reload command (if any). Only works with a valid, still-pending proposal_id — cannot apply arbitrary content directly. Requires explicit go-ahead from Gabriel in the requesting conversation before calling this, even with a valid proposal_id — see /data/instructions.md approval policy. Arguments: proposal_id (string, required).",
                tags: vec!["config", "apply"],
                requires_binary: "docker",
            },
            Tool::UpdateInstructions => ToolDef {
                id: "update_instructions",
                name: "Update Instructions",
                description: "Append a learned note to the human-editable instructions file at /data/instructions.md and to persisted memory. Use this to record something learned that should persist and guide future actions — a corrected path, a policy clarification Gabriel gave, etc. Arguments: note (string, required).",
                tags: vec!["memory", "instructions"],
                requires_binary: "docker",
            },
            Tool::ContainerRestart => ToolDef {
                id: "container_restart",
                name: "Container Restart",
                description: "Restart a stopped or running container (docker restart). Note: this preserves the original env vars from when the container was first created — it does NOT re-read .env files. For containers whose env may have changed, use container_recreate instead.",
                tags: vec!["docker", "operate"],
                requires_binary: "docker",
            },
            Tool::ContainerRecreate => ToolDef {
                id: "container_recreate",
                name: "Container Recreate",
                description: "Recreate a container using the same image, ports, volumes, and environment as the original. The container is removed and recreated fresh, which forces Docker to re-read the current .env file for any env vars. Use this after editing .env to pick up changes that docker restart would miss. Arguments: container (string, required).",
                tags: vec!["docker", "operate"],
                requires_binary: "docker",
            },
            Tool::EnvGet => ToolDef {
                id: "env_get",
                name: "Env Get",
                description: "Read environment variables from a running container as key=value lines. Arguments: container (string, required), filter (string, optional — only return vars whose name contains this substring, case-insensitive).",
                tags: vec!["docker", "debug", "env"],
                requires_binary: "docker",
            },
            Tool::EnvUpdate => ToolDef {
                id: "env_update",
                name: "Env Update",
                description: "Update KEY=value entries in a .env file on the host filesystem (at /stack/.env by default, or in the directory specified by COMPOSE_DIR). Only modifies existing keys or adds new ones — never rewrites unrelated content. Returns a diff of what changed. Arguments: values (map of string->string, required — keys and their new values).",
                tags: vec!["docker", "compose", "env"],
                requires_binary: "gawk",
            },
            Tool::ComposeLogs => ToolDef {
                id: "compose_logs",
                name: "Compose Logs",
                description: "Fetch logs for a compose service from `docker compose logs`. Arguments: service (string, required), tail (integer, default 100, max 2000).",
                tags: vec!["docker", "compose", "debug"],
                requires_binary: "docker",
            },
            Tool::ComposeUpForceRecreate => ToolDef {
                id: "compose_up_force_recreate",
                name: "Compose Up Force Recreate",
                description: "Run `docker compose up -d --force-recreate <service>` to stop, remove, and recreate a compose service with fresh env vars from the current .env file. Use this after editing .env to force Docker to re-read updated environment variables. Arguments: service (string, required).",
                tags: vec!["docker", "compose", "operate"],
                requires_binary: "docker",
            },
        };
        proof {
            assert(r@.tags =~= self.tags());
        }
        r
    }
}

/// All tools.
pub fn tools() -> (r: Vec<Tool>)
    ensures
        r@ == all_tools(),
{
    let r: Vec<Tool> = vec![
        Tool::AnvilDockerUpdate,
        Tool::ComposeRestart,
        Tool::DockerLogs,
        Tool::DockerPs,
        Tool::NetworkDiagnose,
        Tool::DiscoverEnvironment,
        Tool::ServiceConfigRead,
        Tool::ServiceConfigPropose,
        Tool::ServiceConfigApply,
        Tool::UpdateInstructions,
        Tool::ContainerRestart,
        Tool::ContainerRecreate,
        Tool::EnvGet,
        Tool::EnvUpdate,
        Tool::ComposeLogs,
        Tool::ComposeUpForceRecreate,
    ];
    proof {
        assert(r@ =~= all_tools());
    }
    r
}

/// Whether one of the strings has the given text.
pub fn has_text(list: &Vec<String>, s: &str) -> (r: bool)
    ensures
        r == texts(list@).contains(s@),
{
    let n: usize = list.len();
    let mut i: usize = 0;
    while i < n
        invariant
            n == list@.len(),
            i <= n,
            forall|k: int| 0 <= k < i ==> (#[trigger] texts(list@)[k]) != s@,
        decreases n - i,
    {
        if same_text(list[i].as_str(), s) {
            proof {
                assert(texts(list@)[i as int] == s@);
            }
            return true;
        }
        i = i + 1;
    }
    false
}

/// Every tool is in the list of all tools.
pub proof fn law_all_tools_complete(tool: Tool)
    ensures
        all_tools().contains(tool),
{
    let all = all_tools();
    match tool {
        Tool::AnvilDockerUpdate => assert(all[0] == tool),
        Tool::ComposeRestart => assert(all[1] == tool),
        Tool::DockerLogs => assert(all[2] == tool),
        Tool::DockerPs => assert(all[3] == tool),
        Tool::NetworkDiagnose => assert(all[4] == tool),
        Tool::DiscoverEnvironment => assert(all[5] == tool),
        Tool::ServiceConfigRead => assert(all[6] == tool),
        Tool::ServiceConfigPropose => assert(all[7] == tool),
        Tool::ServiceConfigApply => assert(all[8] == tool),
        Tool::UpdateInstructions => assert(all[9] == tool),
        Tool::ContainerRestart => assert(all[10] == tool),
        Tool::ContainerRecreate => assert(all[11] == tool),
        Tool::EnvGet => assert(all[12] == tool),
        Tool::EnvUpdate => assert(all[13] == tool),
        Tool::ComposeLogs => assert(all[14] == tool),
        Tool::ComposeUpForceRecreate => assert(all[15] == tool),
    }
}

/// No two tools have the same id.
pub proof fn law_tool_ids_distinct(a: Tool, b: Tool)
    requires
        a.id() == b.id(),
    ensures
        a == b,
{
    reveal_strlit("anvil_docker_update");
    reveal_strlit("compose_restart");
    reveal_strlit("docker_logs");
    reveal_strlit("docker_ps");
    reveal_strlit("network_diagnose");
    reveal_strlit("discover_environment");
    reveal_strlit("service_config_read");
    reveal_strlit("service_config_propose");
    reveal_strlit("service_config_apply");
    reveal_strlit("update_instructions");
    reveal_strlit("container_restart");
    reveal_strlit("container_recreate");
    reveal_strlit("env_get");
    reveal_strlit("env_update");
    reveal_strlit("compose_logs");
    reveal_strlit("compose_up_force_recreate");
    assert("anvil_docker_update"@.len() == 19 && "anvil_docker_update"@[0] == 'a');
    assert("compose_restart"@.len() == 15 && "compose_restart"@[0] == 'c');
    assert("docker_logs"@.len() == 11 && "docker_logs"@[0] == 'd');
    assert("docker_ps"@.len() == 9 && "docker_ps"@[0] == 'd');
    assert("network_diagnose"@.len() == 16 && "network_diagnose"@[0] == 'n');
    assert("discover_environment"@.len() == 20 && "discover_environment"@[0] == 'd');
    assert("service_config_read"@.len() == 19 && "service_config_read"@[0] == 's');
    assert("service_config_propose"@.len() == 22 && "service_config_propose"@[0] == 's');
    assert("service_config_apply"@.len() == 20 && "service_config_apply"@[0] == 's');
    assert("update_instructions"@.len() == 19 && "update_instructions"@[0] == 'u');
    assert("container_restart"@.len() == 17 && "container_restart"@[0] == 'c');
    assert("container_recreate"@.len() == 18 && "container_recreate"@[0] == 'c');
    assert("env_get"@.len() == 7 && "env_get"@[0] == 'e');
    assert("env_update"@.len() == 10 && "env_update"@[0] == 'e');
    assert("compose_logs"@.len() == 12 && "compose_logs"@[0] == 'c');
    assert("compose_up_force_recreate"@.len() == 25 && "compose_up_force_recreate"@[0] == 'c');
    assert(a.id().len() == b.id().len());
    assert(a.id()[0] == b.id()[0]);
}

/// The tool with the given id.
pub open spec fn tool_named(id: Seq<char>) -> Option<Tool> {
    if exists|t: Tool| #[trigger] t.id() == id {
        Some(choose|t: Tool| #[trigger] t.id() == id)
    } else {
        None
    }
}

/// A tool is the only one with its id.
pub proof fn law_tool_named_by_its_id(tool: Tool)
    ensures
        tool_named(tool.id()) == Some(tool),
{
    let other = choose|t: Tool| #[trigger] t.id() == tool.id();
    if other != tool {
        law_tool_ids_distinct(other, tool);
    }
}

/// The tool with the given id.
pub fn tool_with_id(id: &str) -> (r: Option<Tool>)
    ensures
        r == tool_named(id@),
        match r {
            Some(t) => t.id() == id@,
            None => forall|t: Tool| #[trigger] t.id() != id@,
        },
{
    let all: Vec<Tool> = tools();
    let n: usize = all.len();
    let mut i: usize = 0;
    while i < n
        invariant
            all@ == all_tools(),
            n == all@.len(),
            i <= n,
            forall|k: int| 0 <= k < i ==> (#[trigger] all@[k]).id() != id@,
        decreases n - i,
    {
        if same_text(all[i].def().id, id) {
            proof {
                law_tool_named_by_its_id(all@[i as int]);
            }
            return Some(all[i]);
        }
        i = i + 1;
    }
    proof {
        assert forall|t: Tool| #[trigger] t.id() != id@ by {
            law_all_tools_complete(t);
            let k = choose|k: int| 0 <= k < all_tools().len() && all_tools()[k] == t;
            assert(all@[k].id() != id@);
        }
    }
    None
}

/// Those of the given tools whose program is among the binaries.
pub open spec fn usable(list: Seq<Tool>, binaries: Seq<Seq<char>>) -> Seq<Tool>
    decreases list.len(),
{
    if list.len() == 0 {
        seq![]
    } else {
        let rest = usable(list.drop_last(), binaries);
        if binaries.contains(list.last().binary()) {
            rest.push(list.last())
        } else {
            rest
        }
    }
}

/// What is published about each of the given tools.
pub open spec fn published(list: Seq<Tool>) -> Seq<ToolDefView> {
    Seq::new(list.len(), |i: int| list[i].def_view())
}

/// The tools that this host can run, given the binaries that it has.
pub fn available_tools(binaries: &Vec<String>) -> (r: Vec<ToolDef>)
    ensures
        defs_view(r@) == published(usable(all_tools(), texts(binaries@))),
{
    let all: Vec<Tool> = tools();
    let n: usize = all.len();
    let mut out: Vec<ToolDef> = Vec::new();
    let mut i: usize = 0;
    let ghost bins = texts(binaries@);
    proof {
        assert(all@.take(0) =~= seq![]);
        assert(defs_view(out@) =~= published(usable(all@.take(0), bins)));
    }
    while i < n
        invariant
            all@ == all_tools(),
            bins == texts(binaries@),
            n == all@.len(),
            i <= n,
            defs_view(out@) == published(usable(all@.take(i as int), bins)),
        decreases n - i,
    {
        let ghost before = usable(all@.take(i as int), bins);
        proof {
            assert(all@.take(i + 1).drop_last() =~= all@.take(i as int));
            assert(all@.take(i + 1).last() == all@[i as int]);
        }
        let def: ToolDef = all[i].def();
        if has_text(binaries, def.requires_binary) {
            let ghost defs = defs_view(out@);
            out.push(def);
            proof {
                assert(defs_view(out@) =~= defs.push(def@));
                assert(published(before.push(all@[i as int])) =~= published(before).push(def@));
            }
        }
        i = i + 1;
    }
    proof {
        assert(all@.take(n as int) =~= all@);
    }
    out
}

proof fn lemma_usable(list: Seq<Tool>, binaries: Seq<Seq<char>>, tool: Tool)
    ensures
        usable(list, binaries).contains(tool) <==> list.contains(tool) && binaries.contains(
            tool.binary(),
        ),
    decreases list.len(),
{
    if list.len() > 0 {
        let init = list.drop_last();
        let rest = usable(init, binaries);
        lemma_usable(init, binaries, tool);
        assert(list.contains(tool) <==> init.contains(tool) || tool == list.last()) by {
            if list.contains(tool) {
                let k = choose|k: int| 0 <= k < list.len() && list[k] == tool;
                if k < list.len() - 1 {
                    assert(init[k] == tool);
                }
            }
            if init.contains(tool) {
                let k = choose|k: int| 0 <= k < init.len() && init[k] == tool;
                assert(list[k] == tool);
            }
            assert(list[list.len() - 1] == list.last());
        }
        if binaries.contains(list.last().binary()) {
            let whole = rest.push(list.last());
            assert(whole.contains(tool) <==> rest.contains(tool) || tool == list.last()) by {
                if whole.contains(tool) {
                    let k = choose|k: int| 0 <= k < whole.len() && whole[k] == tool;
                    if k < rest.len() {
                        assert(rest[k] == tool);
                    }
                }
                if rest.contains(tool) {
                    let k = choose|k: int| 0 <= k < rest.len() && rest[k] == tool;
                    assert(whole[k] == tool);
                }
                assert(whole[rest.len() as int] == list.last());
            }
        }
    }
}

/// A tool is published exactly where the host has the program that it needs.
pub proof fn law_published_iff_binary_present(binaries: Seq<Seq<char>>, tool: Tool)
    ensures
        usable(all_tools(), binaries).contains(tool) <==> binaries.contains(tool.binary()),
{
    law_all_tools_complete(tool);
    lemma_usable(all_tools(), binaries, tool);
}

/// The programs to look for on the host: those that some tool needs, and docker
/// in any case. No program is listed twice.
pub fn needed_binaries() -> (r: Vec<String>)
    ensures
        texts(r@).no_duplicates(),
        forall|b: Seq<char>|
            #[trigger] texts(r@).contains(b) <==> b == "docker"@ || exists|t: Tool|
                #[trigger] t.binary() == b,
{
    let all: Vec<Tool> = tools();
    let n: usize = all.len();
    let mut out: Vec<String> = vec!["docker".to_owned()];
    let mut i: usize = 0;
    proof {
        assert(texts(out@) =~= seq!["docker"@]);
        assert(texts(out@)[0] == "docker"@);
    }
    while i < n
        invariant
            all@ == all_tools(),
            n == all@.len(),
            i <= n,
            texts(out@).no_duplicates(),
            texts(out@).contains("docker"@),
            forall|k: int| 0 <= k < i ==> texts(out@).contains((#[trigger] all@[k]).binary()),
            forall|b: Seq<char>| #[trigger]
                texts(out@).contains(b) ==> b == "docker"@ || exists|t: Tool|
                    #[trigger] t.binary() == b,
        decreases n - i,
    {
        let binary = all[i].def().requires_binary;
        let ghost before = texts(out@);
        if !has_text(&out, binary) {
            out.push(binary.to_owned());
            proof {
                let after = texts(out@);
                assert(after =~= before.push(binary@));
                assert forall|b: Seq<char>| before.contains(b) implies after.contains(b) by {
                    let k = choose|k: int| 0 <= k < before.len() && before[k] == b;
                    assert(after[k] == b);
                }
                assert(after[before.len() as int] == binary@);
                assert forall|b: Seq<char>| #[trigger] after.contains(b) implies b == "docker"@
                    || exists|t: Tool| #[trigger] t.binary() == b by {
                    let k = choose|k: int| 0 <= k < after.len() && after[k] == b;
                    if k < before.len() {
                        assert(before[k] == b);
                        assert(before.contains(b));
                    } else {
                        assert(all@[i as int].binary() == b);
                    }
                }
            }
        }
        i = i + 1;
    }
    proof {
        assert forall|b: Seq<char>| (b == "docker"@ || exists|t: Tool| #[trigger] t.binary() == b)
            implies #[trigger] texts(out@).contains(b) by {
            if b != "docker"@ {
                let t = choose|t: Tool| #[trigger] t.binary() == b;
                law_all_tools_complete(t);
                let k = choose|k: int| 0 <= k < all_tools().len() && all_tools()[k] == t;
                assert(texts(out@).contains(all@[k].binary()));
            }
        }
    }
    out
}

/// Those elements at whose positions `present` holds.
pub open spec fn present_of(names: Seq<Seq<char>>, present: Seq<bool>) -> Seq<Seq<char>>
    decreases names.len(),
{
    if names.len() == 0 {
        seq![]
    } else {
        let rest = present_of(names.drop_last(), present);
        if present[names.len() - 1] {
            rest.push(names.last())
        } else {
            rest
        }
    }
}

/// The binaries that the host has: those looked for that were found.
pub fn detect_binaries(needed: Vec<String>, present: &Vec<bool>) -> (r: Vec<String>)
    requires
        needed@.len() == present@.len(),
    ensures
        texts(r@) == present_of(texts(needed@), present@),
{
    let n: usize = needed.len();
    let mut out: Vec<String> = Vec::new();
    let mut i: usize = 0;
    let ghost all = texts(needed@);
    proof {
        assert(all.take(0) =~= seq![]);
        assert(texts(out@) =~= seq![]);
    }
    while i < n
        invariant
            all == texts(needed@),
            n == needed@.len(),
            n == present@.len(),
            i <= n,
            texts(out@) == present_of(all.take(i as int), present@),
        decreases n - i,
    {
        proof {
            assert(all.take(i + 1).drop_last() =~= all.take(i as int));
            assert(all.take(i + 1).last() == needed@[i as int]@);
        }
        if present[i] {
            let ghost before = texts(out@);
            out.push(needed[i].clone());
            proof {
                assert(texts(out@) =~= before.push(needed@[i as int]@));
            }
        }
        i = i + 1;
    }
    proof {
        assert(all.take(n as int) =~= all);
    }
    out
}

} // verus!
