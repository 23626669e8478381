//! The table of the tools, in words.

use vstd::prelude::*;
use crate::tools::{Tool, all_tools};

verus! {

/// Whether a tool is published under these texts and needs this program.
pub open spec fn is_tool(
    tool: Tool,
    id: Seq<char>,
    label: Seq<char>,
    binary: Seq<char>,
    tags: Seq<Seq<char>>,
) -> bool {
    tool.id() == id && tool.label() == label && tool.binary() == binary && tool.tags() == tags
}

/// The tools in the order in which they are published, with the name that calls
/// use, the name to show, the program that is needed and the tags.
pub proof fn law_table_of_the_tools()
    ensures
        all_tools().len() == 16,
        all_tools()[0] == Tool::AnvilDockerUpdate,
        is_tool(
            Tool::AnvilDockerUpdate,
            "anvil_docker_update"@,
            "Anvil Docker Update"@,
            "anvil"@,
            seq!["docker"@, "anvil"@, "deploy"@],
        ),
        all_tools()[1] == Tool::ComposeRestart,
        is_tool(
            Tool::ComposeRestart,
            "compose_restart"@,
            "Compose Restart"@,
            "docker"@,
            seq!["docker"@, "compose"@],
        ),
        all_tools()[2] == Tool::DockerLogs,
        is_tool(
            Tool::DockerLogs,
            "docker_logs"@,
            "Docker Logs"@,
            "docker"@,
            seq!["docker"@, "debug"@],
        ),
        all_tools()[3] == Tool::DockerPs,
        is_tool(
            Tool::DockerPs,
            "docker_ps"@,
            "Docker PS"@,
            "docker"@,
            seq!["docker"@, "debug"@],
        ),
        all_tools()[4] == Tool::NetworkDiagnose,
        is_tool(
            Tool::NetworkDiagnose,
            "network_diagnose"@,
            "Network Diagnose"@,
            "docker"@,
            seq!["network"@, "debug"@],
        ),
        all_tools()[5] == Tool::DiscoverEnvironment,
        is_tool(
            Tool::DiscoverEnvironment,
            "discover_environment"@,
            "Discover Environment"@,
            "docker"@,
            seq!["discovery"@, "memory"@],
        ),
        all_tools()[6] == Tool::ServiceConfigRead,
        is_tool(
            Tool::ServiceConfigRead,
            "service_config_read"@,
            "Service Config Read"@,
            "docker"@,
            seq!["config"@, "debug"@],
        ),
        all_tools()[7] == Tool::ServiceConfigPropose,
        is_tool(
            Tool::ServiceConfigPropose,
            "service_config_propose"@,
            "Service Config Propose"@,
            "docker"@,
            seq!["config"@, "propose"@],
        ),
        all_tools()[8] == Tool::ServiceConfigApply,
        is_tool(
            Tool::ServiceConfigApply,
            "service_config_apply"@,
            "Service Config Apply"@,
            "docker"@,
            seq!["config"@, "apply"@],
        ),
        all_tools()[9] == Tool::UpdateInstructions,
        is_tool(
            Tool::UpdateInstructions,
            "update_instructions"@,
            "Update Instructions"@,
            "docker"@,
            seq!["memory"@, "instructions"@],
        ),
        all_tools()[10] == Tool::ContainerRestart,
        is_tool(
            Tool::ContainerRestart,
            "container_restart"@,
            "Container Restart"@,
            "docker"@,
            seq!["docker"@, "operate"@],
        ),
        all_tools()[11] == Tool::ContainerRecreate,
        is_tool(
            Tool::ContainerRecreate,
            "container_recreate"@,
            "Container Recreate"@,
            "docker"@,
            seq!["docker"@, "operate"@],
        ),
        all_tools()[12] == Tool::EnvGet,
        is_tool(
            Tool::EnvGet,
            "env_get"@,
            "Env Get"@,
            "docker"@,
            seq!["docker"@, "debug"@, "env"@],
        ),
        all_tools()[13] == Tool::EnvUpdate,
        is_tool(
            Tool::EnvUpdate,
            "env_update"@,
            "Env Update"@,
            "gawk"@,
            seq!["docker"@, "compose"@, "env"@],
        ),
        all_tools()[14] == Tool::ComposeLogs,
        is_tool(
            Tool::ComposeLogs,
            "compose_logs"@,
            "Compose Logs"@,
            "docker"@,
            seq!["docker"@, "compose"@, "debug"@],
        ),
        all_tools()[15] == Tool::ComposeUpForceRecreate,
        is_tool(
            Tool::ComposeUpForceRecreate,
            "compose_up_force_recreate"@,
            "Compose Up Force Recreate"@,
            "docker"@,
            seq!["docker"@, "compose"@, "operate"@],
        ),
{
}

/// What the tools are said to do.
pub proof fn law_descriptions_of_the_tools()
    ensures
        Tool::AnvilDockerUpdate.description() == "Run `anvil docker update --in-order <service>:<wait_seconds>`. Arguments: service (string, required), wait_seconds (integer, default 15, max 300)."@,
        Tool::ComposeRestart.description() == "Restart a named service via `docker compose restart <service>` against the fixed stack compose file. Arguments: service (string, required)."@,
        Tool::DockerLogs.description() == "Fetch recent logs for a named container. Arguments: container (string, required), tail (integer, default 100, max 2000)."@,
        Tool::DockerPs.description() == "List running containers (name + status). No arguments."@,
        Tool::NetworkDiagnose.description() == "Diagnose DNS/connectivity for a hostname reachable from this host — runs getent hosts + docker network inspect against the bridge network. Arguments: target (string, required — a hostname or container name)."@,
        Tool::DiscoverEnvironment.description() == "Re-run service discovery against this host's discovery.toml manifest (if mounted) and update memory with what's actually found running. Call this if a service was restarted/renamed and memory might be stale, or to check what roles this host actually has. No arguments."@,
        Tool::ServiceConfigRead.description() == "Read the live config file for a discovered service role on this host. Arguments: role (string, required — must match a role this host's discovery manifest declares and actually found running; call discover_environment first if unsure what roles exist here)."@,
        Tool::ServiceConfigPropose.description() == "Stage a proposed full replacement of a discovered service's config file without applying it. Returns a proposal_id and shows current vs proposed content side by side for review. Does NOT touch the live config. Arguments: role (string, required), proposed_content (string, required)."@,
        Tool::ServiceConfigApply.description() == "Apply a previously staged proposal and run that service role's reload command (if any). Only works with a valid, still-pending proposal_id — cannot apply arbitrary content directly. Requires explicit go-ahead from Gabriel in the requesting conversation before calling this, even with a valid proposal_id — see /data/instructions.md approval policy. Arguments: proposal_id (string, required)."@,
        Tool::UpdateInstructions.description() == "Append a learned note to the human-editable instructions file at /data/instructions.md and to persisted memory. Use this to record something learned that should persist and guide future actions — a corrected path, a policy clarification Gabriel gave, etc. Arguments: note (string, required)."@,
        Tool::ContainerRestart.description() == "Restart a stopped or running container (docker restart). Note: this preserves the original env vars from when the container was first created — it does NOT re-read .env files. For containers whose env may have changed, use container_recreate instead."@,
        Tool::ContainerRecreate.description() == "Recreate a container using the same image, ports, volumes, and environment as the original. The container is removed and recreated fresh, which forces Docker to re-read the current .env file for any env vars. Use this after editing .env to pick up changes that docker restart would miss. Arguments: container (string, required)."@,
        Tool::EnvGet.description() == "Read environment variables from a running container as key=value lines. Arguments: container (string, required), filter (string, optional — only return vars whose name contains this substring, case-insensitive)."@,
        Tool::EnvUpdate.description() == "Update KEY=value entries in a .env file on the host filesystem (at /stack/.env by default, or in the directory specified by COMPOSE_DIR). Only modifies existing keys or adds new ones — never rewrites unrelated content. Returns a diff of what changed. Arguments: values (map of string->string, required — keys and their new values)."@,
        Tool::ComposeLogs.description() == "Fetch logs for a compose service from `docker compose logs`. Arguments: service (string, required), tail (integer, default 100, max 2000)."@,
        Tool::ComposeUpForceRecreate.description() == "Run `docker compose up -d --force-recreate <service>` to stop, remove, and recreate a compose service with fresh env vars from the current .env file. Use this after editing .env to force Docker to re-read updated environment variables. Arguments: service (string, required)."@,
{
}

} // verus!
