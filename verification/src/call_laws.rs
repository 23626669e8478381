//! What each tool does, from the arguments of a call to the commands that run and
//! the answer that is given.

use vstd::prelude::*;
use crate::command::{CommandView, OutcomeView, ToolResultView, command_result};
use crate::container::{InspectView, RecipeView};
use crate::discovery::{DiscoveryStepView, DiscoveryView, RoleView, ServiceView, first_step};
use crate::dotenv::{all_changes, env_listing, updated_lines};
use crate::execute::{DEFAULT_INSTRUCTIONS_TEMPLATE, initial_instructions, start_call, start_tool};
use crate::json::JsonView;
use crate::memory::{MemoryView, NoteView, service_for};
use crate::outside::{debug_of, lossy_text};
use crate::resume::{next_step, service_summaries, with_path};
use crate::state::{ProposalView, StateView};
use crate::task::{ActionView, EventView, HostView, RecreationView, StepView, TargetView, TaskView,
    ToolCallView};
use crate::text::{decimal, joined, lines_of, replaced, trimmed};
use crate::tools::{Tool, law_tool_named_by_its_id, name_ok};

verus! {

// Arguments.

/// A name that passes has one to 128 characters, each an ASCII letter or digit, an
/// underscore, a dot or a hyphen.
pub proof fn law_names_that_pass(s: Seq<char>)
    ensures
        name_ok(s) <==> 1 <= s.len() <= 128 && forall|i: int|
            0 <= i < s.len() ==> {
                ||| 'a' <= #[trigger] s[i] <= 'z'
                ||| 'A' <= s[i] <= 'Z'
                ||| '0' <= s[i] <= '9'
                ||| s[i] == '_'
                ||| s[i] == '.'
                ||| s[i] == '-'
            },
{
}

/// What starts a call of the tool with the given name on a host.
pub open spec fn called(
    host: HostView,
    state: StateView,
    name: Seq<char>,
    args: JsonView,
    now: Seq<char>,
) -> (StateView, StepView) {
    start_call(host, state, ToolCallView { name, arguments: args }, now)
}

/// A call that ends at once, with this message.
pub open spec fn turned_down(message: Seq<char>) -> StepView {
    StepView::Done(ToolResultView { ok: false, output: message })
}

/// A command without standard input.
pub open spec fn run_of(program: Seq<char>, args: Seq<Seq<char>>) -> ActionView {
    ActionView::Run(CommandView { program, args, input: None })
}

/// A command whose output is the answer.
pub open spec fn shown_run(program: Seq<char>, args: Seq<Seq<char>>) -> StepView {
    StepView::Await(TaskView::Printing { program }, run_of(program, args))
}

/// A number argument: as given up to a limit, the limit above it, and a default
/// where no such number is given.
pub open spec fn limited(given: Option<u64>, default: nat, limit: nat) -> nat {
    match given {
        None => default,
        Some(n) => if n > limit {
            limit
        } else {
            n as nat
        },
    }
}

/// The directory of the compose stack.
pub open spec fn stack_dir(host: HostView) -> Seq<char> {
    match host.compose_dir {
        Some(dir) => dir,
        None => "/stack"@,
    }
}

/// The compose file of the stack: `compose.yml` only where that one is there and
/// `compose.yaml` is not.
pub open spec fn stack_file(host: HostView) -> Seq<char> {
    if host.has_compose_yml && !host.has_compose_yaml {
        stack_dir(host) + "/compose.yml"@
    } else {
        stack_dir(host) + "/compose.yaml"@
    }
}

// Calls that are turned down.

/// A call is turned down where no tool has its name, or where the program that the
/// tool needs is not on the host. The message names the tool, and the program.
pub proof fn law_unavailable_tools_are_turned_down(
    host: HostView,
    state: StateView,
    name: Seq<char>,
    tool: Tool,
    args: JsonView,
    now: Seq<char>,
)
    ensures
        (forall|t: Tool| #[trigger] t.id() != name) ==> called(host, state, name, args, now) == (
            state,
            turned_down(
                "unknown tool `"@ + name + "` — see agent card `skills` for the allowlist"@,
            ),
        ),
        !host.binaries.contains(tool.binary()) ==> called(host, state, tool.id(), args, now) == (
            state,
            turned_down(
                "tool `"@ + tool.id() + "` requires `"@ + tool.binary()
                    + "`, which is not installed on this host"@,
            ),
        ),
        host.binaries.contains(tool.binary()) ==> called(host, state, tool.id(), args, now)
            == start_tool(host, state, tool, args, now),
{
    law_tool_named_by_its_id(tool);
}

/// A tool that works on a named container, service or target turns a call down
/// that does not give the name as a string, or gives one that does not pass.
pub proof fn law_calls_without_a_name_are_turned_down(
    host: HostView,
    state: StateView,
    tool: Tool,
    args: JsonView,
    now: Seq<char>,
)
    ensures
        ({
            let key = match tool {
                Tool::AnvilDockerUpdate => Some("service"@),
                Tool::ComposeRestart => Some("service"@),
                Tool::ComposeLogs => Some("service"@),
                Tool::ComposeUpForceRecreate => Some("service"@),
                Tool::DockerLogs => Some("container"@),
                Tool::ContainerRestart => Some("container"@),
                Tool::ContainerRecreate => Some("container"@),
                Tool::EnvGet => Some("container"@),
                Tool::NetworkDiagnose => Some("target"@),
                _ => None,
            };
            key matches Some(k) ==> match args.str_at(k) {
                None => start_tool(host, state, tool, args, now) == (
                    state,
                    turned_down("missing `"@ + k + "` argument"@),
                ),
                Some(s) => !name_ok(s) ==> start_tool(host, state, tool, args, now) == (
                    state,
                    turned_down("invalid `"@ + k + "` name"@),
                ),
            }
        }),
{
}

/// A tool that takes a text turns a call down that does not give it as a string.
pub proof fn law_calls_without_a_text_are_turned_down(
    host: HostView,
    state: StateView,
    args: JsonView,
    now: Seq<char>,
)
    ensures
        args.str_at("role"@) is None ==> start_tool(
            host,
            state,
            Tool::ServiceConfigRead,
            args,
            now,
        ) == (state, turned_down("missing `role` argument"@)),
        args.str_at("role"@) is None ==> start_tool(
            host,
            state,
            Tool::ServiceConfigPropose,
            args,
            now,
        ) == (state, turned_down("missing `role` argument"@)),
        args.str_at("role"@) is Some && args.str_at("proposed_content"@) is None ==> start_tool(
            host,
            state,
            Tool::ServiceConfigPropose,
            args,
            now,
        ) == (state, turned_down("missing `proposed_content` argument"@)),
        args.str_at("proposal_id"@) is None ==> start_tool(
            host,
            state,
            Tool::ServiceConfigApply,
            args,
            now,
        ) == (state, turned_down("missing `proposal_id` argument"@)),
        args.str_at("note"@) is None ==> start_tool(
            host,
            state,
            Tool::UpdateInstructions,
            args,
            now,
        ) == (state, turned_down("missing `note` argument"@)),
{
    reveal_strlit("missing `");
    reveal_strlit("` argument");
    reveal_strlit("role");
    reveal_strlit("proposed_content");
    reveal_strlit("proposal_id");
    reveal_strlit("note");
    reveal_strlit("missing `role` argument");
    reveal_strlit("missing `proposed_content` argument");
    reveal_strlit("missing `proposal_id` argument");
    reveal_strlit("missing `note` argument");
    assert("missing `"@ + "role"@ + "` argument"@ =~= "missing `role` argument"@);
    assert("missing `"@ + "proposed_content"@ + "` argument"@
        =~= "missing `proposed_content` argument"@);
    assert("missing `"@ + "proposal_id"@ + "` argument"@ =~= "missing `proposal_id` argument"@);
    assert("missing `"@ + "note"@ + "` argument"@ =~= "missing `note` argument"@);
}

// Calls that run one command and show its output.

/// The output of a command is all that it wrote to its standard output and then
/// all that it wrote to its standard error; a command that could not be run is
/// reported with the error.
pub proof fn law_output_is_shown_in_full(
    host: HostView,
    state: StateView,
    program: Seq<char>,
    success: bool,
    stdout: Seq<u8>,
    stderr: Seq<u8>,
    error: Seq<char>,
    now: Seq<char>,
    id: Seq<char>,
)
    ensures
        next_step(
            host,
            state,
            TaskView::Printing { program },
            EventView::Ran(OutcomeView::Exited { success, stdout, stderr }),
            now,
            id,
        ) == (
            state,
            StepView::Done(
                ToolResultView { ok: success, output: lossy_text(stdout) + lossy_text(stderr) },
            ),
        ),
        next_step(
            host,
            state,
            TaskView::Printing { program },
            EventView::Ran(OutcomeView::NotStarted { error }),
            now,
            id,
        ) == (state, turned_down("failed to spawn `"@ + program + "`: "@ + error)),
        next_step(
            host,
            state,
            TaskView::Printing { program },
            EventView::Ran(OutcomeView::Lost { error }),
            now,
            id,
        ) == (state, turned_down("failed to spawn `"@ + program + "`: "@ + error)),
{
}

/// What the answer to a command amounts to, as the later steps of a call use it.
pub proof fn law_results_of_docker_commands(
    success: bool,
    stdout: Seq<u8>,
    stderr: Seq<u8>,
    program: Seq<char>,
    error: Seq<char>,
)
    ensures
        command_result(program, OutcomeView::Exited { success, stdout, stderr }) == (
        ToolResultView { ok: success, output: lossy_text(stdout) + lossy_text(stderr) }),
        command_result(program, OutcomeView::NotStarted { error }) == (ToolResultView {
            ok: false,
            output: "failed to spawn `"@ + program + "`: "@ + error,
        }),
        command_result(program, OutcomeView::Lost { error }) == (ToolResultView {
            ok: false,
            output: "failed to spawn `"@ + program + "`: "@ + error,
        }),
{
}

/// Updating a service runs anvil for it, with a wait of at most 300 seconds, 15
/// where none is given.
pub proof fn law_anvil_update_runs(
    host: HostView,
    state: StateView,
    args: JsonView,
    service: Seq<char>,
    now: Seq<char>,
)
    requires
        args.str_at("service"@) == Some(service),
        name_ok(service),
    ensures
        host.binaries.contains("anvil"@) ==> called(
            host,
            state,
            "anvil_docker_update"@,
            args,
            now,
        ) == (
            state,
            shown_run(
                "anvil"@,
                seq![
                    "docker"@,
                    "update"@,
                    "--in-order"@,
                    service + ":"@ + decimal(limited(args.u64_at("wait_seconds"@), 15, 300)),
                ],
            ),
        ),
{
    law_tool_named_by_its_id(Tool::AnvilDockerUpdate);
}

/// The tools for a compose service run docker compose on the stack's file, for
/// exactly that service; at most 2000 lines are shown of its log, 100 where no
/// number is given.
pub proof fn law_compose_tools_run(
    host: HostView,
    state: StateView,
    args: JsonView,
    service: Seq<char>,
    now: Seq<char>,
)
    requires
        args.str_at("service"@) == Some(service),
        name_ok(service),
        host.binaries.contains("docker"@),
    ensures
        called(host, state, "compose_restart"@, args, now) == (
            state,
            shown_run(
                "docker"@,
                seq!["compose"@, "-f"@, stack_file(host), "restart"@, service],
            ),
        ),
        called(host, state, "compose_logs"@, args, now) == (
            state,
            shown_run(
                "docker"@,
                seq![
                    "compose"@,
                    "-f"@,
                    stack_file(host),
                    "logs"@,
                    "--tail"@,
                    decimal(limited(args.u64_at("tail"@), 100, 2000)),
                    service,
                ],
            ),
        ),
        called(host, state, "compose_up_force_recreate"@, args, now) == (
            state,
            shown_run(
                "docker"@,
                seq![
                    "compose"@,
                    "-f"@,
                    stack_file(host),
                    "up"@,
                    "-d"@,
                    "--force-recreate"@,
                    service,
                ],
            ),
        ),
{
    law_tool_named_by_its_id(Tool::ComposeRestart);
    law_tool_named_by_its_id(Tool::ComposeLogs);
    law_tool_named_by_its_id(Tool::ComposeUpForceRecreate);
}

/// The tools for a container run docker for exactly that container; at most 2000
/// lines are shown of its log, 100 where no number is given. The list of
/// containers needs no argument.
pub proof fn law_container_tools_run(
    host: HostView,
    state: StateView,
    args: JsonView,
    container: Seq<char>,
    now: Seq<char>,
)
    requires
        args.str_at("container"@) == Some(container),
        name_ok(container),
        host.binaries.contains("docker"@),
    ensures
        called(host, state, "docker_logs"@, args, now) == (
            state,
            shown_run(
                "docker"@,
                seq![
                    "logs"@,
                    "--tail"@,
                    decimal(limited(args.u64_at("tail"@), 100, 2000)),
                    container,
                ],
            ),
        ),
        called(host, state, "container_restart"@, args, now) == (
            state,
            shown_run("docker"@, seq!["restart"@, container]),
        ),
        called(host, state, "container_recreate"@, args, now) == (
            state,
            StepView::Await(
                TaskView::Inspecting { container },
                run_of("docker"@, seq!["inspect"@, "--format"@, "{{json .}}"@, container]),
            ),
        ),
        called(host, state, "env_get"@, args, now) == (
            state,
            StepView::Await(
                TaskView::ListingEnv {
                    filter: match args.str_at("filter"@) {
                        Some(filter) => filter,
                        None => Seq::empty(),
                    },
                },
                run_of("docker"@, seq!["exec"@, container, "env"@]),
            ),
        ),
{
    law_tool_named_by_its_id(Tool::DockerLogs);
    law_tool_named_by_its_id(Tool::ContainerRestart);
    law_tool_named_by_its_id(Tool::ContainerRecreate);
    law_tool_named_by_its_id(Tool::EnvGet);
}

/// Listing the containers and discovery take no arguments.
pub proof fn law_calls_without_arguments(
    host: HostView,
    state: StateView,
    args: JsonView,
    now: Seq<char>,
)
    requires
        host.binaries.contains("docker"@),
    ensures
        called(host, state, "docker_ps"@, args, now) == (
            state,
            shown_run("docker"@, seq!["ps"@, "--format"@, "{{.Names}}\t{{.Status}}"@]),
        ),
        called(host, state, "discover_environment"@, args, now) == (
            state,
            StepView::Await(TaskView::LoadingManifest, ActionView::LoadManifest),
        ),
{
    law_tool_named_by_its_id(Tool::DockerPs);
    law_tool_named_by_its_id(Tool::DiscoverEnvironment);
}

/// The variables of a container are shown as the filter has them; whether the
/// command succeeded is passed on.
pub proof fn law_env_get_shows_the_listing(
    host: HostView,
    state: StateView,
    filter: Seq<char>,
    outcome: OutcomeView,
    now: Seq<char>,
    id: Seq<char>,
)
    ensures
        ({
            let result = command_result("docker"@, outcome);
            next_step(
                host,
                state,
                TaskView::ListingEnv { filter },
                EventView::Ran(outcome),
                now,
                id,
            ) == (
                state,
                StepView::Done(
                    ToolResultView { ok: result.ok, output: env_listing(result.output, filter) },
                ),
            )
        }),
{
}

// The network.

/// A diagnosis first looks the name up and then inspects the bridge network,
/// however the lookup went. Its answer shows all that both commands printed, and
/// succeeds where either did.
pub proof fn law_diagnosis_shows_both(
    host: HostView,
    state: StateView,
    args: JsonView,
    target: Seq<char>,
    looked_up: OutcomeView,
    inspected: OutcomeView,
    now: Seq<char>,
    id: Seq<char>,
)
    ensures
        args.str_at("target"@) == Some(target) && name_ok(target) && host.binaries.contains(
            "docker"@,
        ) ==> called(host, state, "network_diagnose"@, args, now) == (
            state,
            StepView::Await(
                TaskView::Resolving { target },
                run_of("getent"@, seq!["hosts"@, target]),
            ),
        ),
        ({
            let dns = command_result("getent"@, looked_up);
            let net = command_result("docker"@, inspected);
            let task = TaskView::ListingBridge { target, dns };
            &&& next_step(
                host,
                state,
                TaskView::Resolving { target },
                EventView::Ran(looked_up),
                now,
                id,
            ) == (
                state,
                StepView::Await(
                    task,
                    run_of(
                        "docker"@,
                        seq![
                            "network"@,
                            "inspect"@,
                            "bridge"@,
                            "--format"@,
                            "{{json .Containers}}"@,
                        ],
                    ),
                ),
            )
            &&& next_step(host, state, task, EventView::Ran(inspected), now, id) == (
                state,
                StepView::Done(
                    ToolResultView {
                        ok: dns.ok || net.ok,
                        output: "--- getent hosts "@ + target + " ---\n"@ + dns.output
                            + "\n--- docker network inspect (bridge) ---\n"@ + net.output,
                    },
                ),
            )
        }),
{
    law_tool_named_by_its_id(Tool::NetworkDiagnose);
}

// Discovery.

/// What discovery has found replaces the services in memory, which is then saved;
/// the notes stay. The answer tells each service on a line of its own.
pub proof fn law_discovered_services_are_saved(
    host: HostView,
    state: StateView,
    roles: Seq<RoleView>,
    d: DiscoveryView,
    outcome: OutcomeView,
    found: Seq<ServiceView>,
    now: Seq<char>,
    id: Seq<char>,
)
    ensures
        ({
            let memory = MemoryView { services: found, notes: state.memory.notes };
            let after = StateView {
                bearer_token: state.bearer_token,
                mesh_token: state.mesh_token,
                memory,
                pending: state.pending,
            };
            let saving = (
                after,
                StepView::Await(
                    TaskView::SavingDiscovery {
                        count: found.len(),
                        summary: Seq::new(
                            found.len(),
                            |i: int|
                                found[i].role + " -> container '"@ + found[i].container_name
                                    + "', config_path "@ + match found[i].config_path {
                                    Some(path) => "Some("@ + debug_of(path) + ")"@,
                                    None => "None"@,
                                },
                        ),
                    },
                    ActionView::SaveMemory(memory),
                ),
            );
            &&& first_step(roles, now) == DiscoveryStepView::Done(found) ==> next_step(
                host,
                state,
                TaskView::LoadingManifest,
                EventView::Manifest(roles),
                now,
                id,
            ) == saving
            &&& d.step(outcome) == DiscoveryStepView::Done(found) ==> next_step(
                host,
                state,
                TaskView::Discovering(d),
                EventView::Ran(outcome),
                now,
                id,
            ) == saving
        }),
        first_step(roles, now) matches DiscoveryStepView::Run(next, c) ==> next_step(
            host,
            state,
            TaskView::LoadingManifest,
            EventView::Manifest(roles),
            now,
            id,
        ) == (state, StepView::Await(TaskView::Discovering(next), ActionView::Run(c))),
        d.step(outcome) matches DiscoveryStepView::Run(next, c) ==> next_step(
            host,
            state,
            TaskView::Discovering(d),
            EventView::Ran(outcome),
            now,
            id,
        ) == (state, StepView::Await(TaskView::Discovering(next), ActionView::Run(c))),
{
    let memory = MemoryView { services: found, notes: state.memory.notes };
    let lines = Seq::new(
        found.len(),
        |i: int|
            found[i].role + " -> container '"@ + found[i].container_name + "', config_path "@
                + match found[i].config_path {
                Some(path) => "Some("@ + debug_of(path) + ")"@,
                None => "None"@,
            },
    );
    assert(service_summaries(found) =~= lines);
}

/// The answer of discovery, once memory has been saved or not.
pub proof fn law_discovery_tells_what_it_found(
    host: HostView,
    state: StateView,
    count: nat,
    summary: Seq<Seq<char>>,
    error: Seq<char>,
    now: Seq<char>,
    id: Seq<char>,
)
    ensures
        ({
            let task = TaskView::SavingDiscovery { count, summary };
            &&& next_step(host, state, task, EventView::Stored(Err(error)), now, id) == (
                state,
                turned_down(
                    "discovery ran ("@ + decimal(count)
                        + " services found) but failed to persist: "@ + error,
                ),
            )
            &&& next_step(host, state, task, EventView::Stored(Ok(())), now, id) == (
                state,
                StepView::Done(
                    ToolResultView {
                        ok: true,
                        output: if count == 0 {
                            "discovery ran — no services found (no discovery.toml mounted on this host, or none of its declared roles are currently running)"@
                        } else {
                            "discovery updated memory with "@ + decimal(count)
                                + " service(s):\n"@ + joined(summary, "\n"@)
                        },
                    },
                ),
            )
        }),
{
}

// Configurations.

/// The service for a role is the first one in memory with exactly that role.
pub proof fn law_service_is_the_first_with_the_role(services: Seq<ServiceView>, i: int)
    requires
        0 <= i < services.len(),
        forall|j: int| 0 <= j < i ==> (#[trigger] services[j]).role != services[i].role,
    ensures
        service_for(services, services[i].role) == Some(services[i]),
    decreases i,
{
    if i > 0 {
        let rest = services.drop_first();
        assert(rest[i - 1] == services[i]);
        assert forall|j: int| 0 <= j < i - 1 implies (#[trigger] rest[j]).role
            != rest[i - 1].role by {
            assert(rest[j] == services[j + 1]);
        }
        assert(services[0].role != services[i].role);
        law_service_is_the_first_with_the_role(rest, i - 1);
    }
}

/// A role that no service in memory has is not found.
pub proof fn law_unknown_roles_are_not_found(services: Seq<ServiceView>, role: Seq<char>)
    requires
        forall|j: int| 0 <= j < services.len() ==> (#[trigger] services[j]).role != role,
    ensures
        service_for(services, role) is None,
    decreases services.len(),
{
    if services.len() > 0 {
        let rest = services.drop_first();
        assert(services[0].role != role);
        assert forall|j: int| 0 <= j < rest.len() implies (#[trigger] rest[j]).role != role by {
            assert(rest[j] == services[j + 1]);
        }
        law_unknown_roles_are_not_found(rest, role);
    }
}

/// Reading a configuration prints the file at the service's path in the service's
/// container; proposing one reads the same first.
pub proof fn law_config_is_read_in_its_container(
    host: HostView,
    state: StateView,
    args: JsonView,
    role: Seq<char>,
    now: Seq<char>,
)
    requires
        args.str_at("role"@) == Some(role),
        host.binaries.contains("docker"@),
    ensures
        ({
            let reading = called(host, state, "service_config_read"@, args, now);
            match service_for(state.memory.services, role) {
                None => reading == (
                    state,
                    turned_down(
                        "no discovered service for role `"@ + role
                            + "` on this host — call discover_environment first, or check this host's discovery.toml"@,
                    ),
                ),
                Some(service) => match service.config_path {
                    None => reading == (
                        state,
                        turned_down(
                            "role `"@ + role
                                + "` was discovered but no config path was found among its candidates"@,
                        ),
                    ),
                    Some(path) => reading == (
                        state,
                        shown_run(
                            "docker"@,
                            seq!["exec"@, service.container_name, "cat"@, path],
                        ),
                    ),
                },
            }
        }),
        args.str_at("proposed_content"@) matches Some(proposed) ==> {
            let proposing = called(host, state, "service_config_propose"@, args, now);
            match service_for(state.memory.services, role) {
                None => proposing == (
                    state,
                    turned_down(
                        "no discovered service for role `"@ + role
                            + "` on this host — call discover_environment first"@,
                    ),
                ),
                Some(service) => match service.config_path {
                    None => proposing == (
                        state,
                        turned_down("role `"@ + role + "` has no known config path"@),
                    ),
                    Some(path) => proposing == (
                        state,
                        StepView::Await(
                            TaskView::ReadingCurrent { role, proposed },
                            run_of("docker"@, seq!["exec"@, service.container_name, "cat"@, path]),
                        ),
                    ),
                },
            }
        },
{
    law_tool_named_by_its_id(Tool::ServiceConfigRead);
    law_tool_named_by_its_id(Tool::ServiceConfigPropose);
}

/// Whether a text shows the current contents under their heading and then the
/// proposed ones under theirs, between a start and an end.
pub open spec fn shows_both(
    text: Seq<char>,
    start: Seq<char>,
    current: Seq<char>,
    proposed: Seq<char>,
    end: Seq<char>,
) -> bool {
    text == start + "--- CURRENT ---\n"@ + current + "\n\n--- PROPOSED ---\n"@ + proposed + end
}

/// The answer of a successful proposal holds, between the heading for the current
/// contents and that for the proposed ones, all that the reading of the file
/// printed and nothing else, and after the second heading all of the proposed
/// contents: two answers for the same role and identifier differ in nothing else.
/// The proposal is kept under the identifier with all of its contents.
pub proof fn law_proposal_shows_current_and_proposed(
    host: HostView,
    state: StateView,
    role: Seq<char>,
    proposed: Seq<char>,
    stdout: Seq<u8>,
    stderr: Seq<u8>,
    other_proposed: Seq<char>,
    other_stdout: Seq<u8>,
    other_stderr: Seq<u8>,
    now: Seq<char>,
    id: Seq<char>,
)
    ensures
        ({
            let one = next_step(
                host,
                state,
                TaskView::ReadingCurrent { role, proposed },
                EventView::Ran(OutcomeView::Exited { success: true, stdout, stderr }),
                now,
                id,
            );
            let other = next_step(
                host,
                state,
                TaskView::ReadingCurrent { role, proposed: other_proposed },
                EventView::Ran(
                    OutcomeView::Exited {
                        success: true,
                        stdout: other_stdout,
                        stderr: other_stderr,
                    },
                ),
                now,
                id,
            );
            &&& one.0 == StateView {
                bearer_token: state.bearer_token,
                mesh_token: state.mesh_token,
                memory: state.memory,
                pending: state.pending.insert(id, ProposalView { role, content: proposed }),
            }
            &&& one.1 is Done && one.1->Done_0.ok && other.1 is Done && other.1->Done_0.ok
            &&& exists|start: Seq<char>, end: Seq<char>|
                #[trigger] shows_both(
                    one.1->Done_0.output,
                    start,
                    lossy_text(stdout) + lossy_text(stderr),
                    proposed,
                    end,
                ) && #[trigger] shows_both(
                    other.1->Done_0.output,
                    start,
                    lossy_text(other_stdout) + lossy_text(other_stderr),
                    other_proposed,
                    end,
                )
        }),
{
    let start = "proposal_id: "@ + id + "\nrole: "@ + role + "\n\n"@;
    let end =
        "\n\nReview both, get Gabriel's explicit go-ahead per /data/instructions.md approval policy, then call service_config_apply with this proposal_id."@;
    reveal_strlit("\n\n");
    reveal_strlit("--- CURRENT ---\n");
    reveal_strlit("\n\n--- CURRENT ---\n");
    assert("\n\n"@ + "--- CURRENT ---\n"@ =~= "\n\n--- CURRENT ---\n"@);
    let head = "proposal_id: "@ + id + "\nrole: "@ + role;
    assert(start + "--- CURRENT ---\n"@ =~= head + ("\n\n"@ + "--- CURRENT ---\n"@));
    let one = next_step(
        host,
        state,
        TaskView::ReadingCurrent { role, proposed },
        EventView::Ran(OutcomeView::Exited { success: true, stdout, stderr }),
        now,
        id,
    );
    let other = next_step(
        host,
        state,
        TaskView::ReadingCurrent { role, proposed: other_proposed },
        EventView::Ran(
            OutcomeView::Exited { success: true, stdout: other_stdout, stderr: other_stderr },
        ),
        now,
        id,
    );
    assert(shows_both(
        one.1->Done_0.output,
        start,
        lossy_text(stdout) + lossy_text(stderr),
        proposed,
        end,
    ));
    assert(shows_both(
        other.1->Done_0.output,
        start,
        lossy_text(other_stdout) + lossy_text(other_stderr),
        other_proposed,
        end,
    ));
}

/// The answer of a proposal starts with its identifier and its role, and ends with
/// what to do with it. Where the file could not be read nothing is proposed.
pub proof fn law_proposal_tells_its_id(
    host: HostView,
    state: StateView,
    role: Seq<char>,
    proposed: Seq<char>,
    outcome: OutcomeView,
    now: Seq<char>,
    id: Seq<char>,
)
    ensures
        ({
            let current = command_result("docker"@, outcome);
            let step = next_step(
                host,
                state,
                TaskView::ReadingCurrent { role, proposed },
                EventView::Ran(outcome),
                now,
                id,
            );
            &&& current.ok ==> step.1 == StepView::Done(
                ToolResultView {
                    ok: true,
                    output: "proposal_id: "@ + id + "\nrole: "@ + role + "\n\n--- CURRENT ---\n"@
                        + current.output + "\n\n--- PROPOSED ---\n"@ + proposed
                        + "\n\nReview both, get Gabriel's explicit go-ahead per /data/instructions.md approval policy, then call service_config_apply with this proposal_id."@,
                },
            )
            &&& !current.ok ==> step == (
                state,
                turned_down(
                    "could not read current config to compare against: "@ + current.output,
                ),
            )
        }),
{
}

/// Applying a proposal takes it from the pending ones, and writes all of its
/// contents, and nothing else, to a new file beside the configuration of the
/// service that has the proposal's role.
pub proof fn law_apply_stages_the_contents(
    host: HostView,
    state: StateView,
    args: JsonView,
    id: Seq<char>,
    now: Seq<char>,
)
    requires
        args.str_at("proposal_id"@) == Some(id),
        host.binaries.contains("docker"@),
    ensures
        ({
            let applying = called(host, state, "service_config_apply"@, args, now);
            let after = StateView {
                bearer_token: state.bearer_token,
                mesh_token: state.mesh_token,
                memory: state.memory,
                pending: state.pending.remove(id),
            };
            if !state.pending.contains_key(id) {
                applying == (
                    after,
                    turned_down(
                        "no pending proposal with that id — call service_config_propose first"@,
                    ),
                )
            } else {
                let proposal = state.pending[id];
                match service_for(state.memory.services, proposal.role) {
                    None => applying == (
                        after,
                        turned_down(
                            "role `"@ + proposal.role
                                + "` from this proposal is no longer known to this host (was memory cleared or the service removed?) — re-run discover_environment and start over"@,
                        ),
                    ),
                    Some(service) => match service.config_path {
                        None => applying == (
                            after,
                            turned_down("service has no known config path"@),
                        ),
                        Some(path) => applying == (
                            after,
                            StepView::Await(
                                TaskView::WritingStaged(
                                    TargetView {
                                        container: service.container_name,
                                        config_path: path,
                                        reload_command: service.reload_command,
                                    },
                                ),
                                ActionView::Run(
                                    CommandView {
                                        program: "docker"@,
                                        args: seq![
                                            "exec"@,
                                            "-i"@,
                                            service.container_name,
                                            "tee"@,
                                            path + ".new"@,
                                        ],
                                        input: Some(proposal.content),
                                    },
                                ),
                            ),
                        ),
                    },
                }
            }
        }),
{
    law_tool_named_by_its_id(Tool::ServiceConfigApply);
}

/// The staged file is moved over the configuration only once it has been written.
pub proof fn law_staged_file_is_moved_once_written(
    host: HostView,
    state: StateView,
    target: TargetView,
    success: bool,
    stdout: Seq<u8>,
    stderr: Seq<u8>,
    error: Seq<char>,
    now: Seq<char>,
    id: Seq<char>,
)
    ensures
        ({
            let task = TaskView::WritingStaged(target);
            &&& next_step(
                host,
                state,
                task,
                EventView::Ran(OutcomeView::Exited { success, stdout, stderr }),
                now,
                id,
            ) == (
                state,
                if success {
                    StepView::Await(
                        TaskView::MovingStaged(target),
                        run_of(
                            "docker"@,
                            seq![
                                "exec"@,
                                target.container,
                                "mv"@,
                                target.config_path + ".new"@,
                                target.config_path,
                            ],
                        ),
                    )
                } else {
                    turned_down("staged write failed: "@ + lossy_text(stderr))
                },
            )
            &&& next_step(
                host,
                state,
                task,
                EventView::Ran(OutcomeView::NotStarted { error }),
                now,
                id,
            ) == (state, turned_down("failed to write staged config: "@ + error))
            &&& next_step(
                host,
                state,
                task,
                EventView::Ran(OutcomeView::Lost { error }),
                now,
                id,
            ) == (state, turned_down("staged write failed: "@ + error))
        }),
{
}

/// Once the file has been moved, the reload command of the service runs in its
/// container, with the path of the configuration for each `{config_path}` in it. A
/// service without one is not reloaded. The answer shows all that the reload
/// printed.
pub proof fn law_reload_runs_once_moved(
    host: HostView,
    state: StateView,
    target: TargetView,
    outcome: OutcomeView,
    now: Seq<char>,
    id: Seq<char>,
)
    ensures
        ({
            let result = command_result("docker"@, outcome);
            &&& next_step(
                host,
                state,
                TaskView::MovingStaged(target),
                EventView::Ran(outcome),
                now,
                id,
            ) == (
                state,
                if !result.ok {
                    turned_down("failed to move staged config into place: "@ + result.output)
                } else if target.reload_command.len() == 0 {
                    StepView::Done(
                        ToolResultView {
                            ok: true,
                            output: "config written and moved into place. No reload_command configured for this role — the service may need a manual restart (see compose_restart)."@,
                        },
                    )
                } else {
                    StepView::Await(
                        TaskView::Reloading,
                        run_of(
                            "docker"@,
                            seq!["exec"@, target.container] + Seq::new(
                                target.reload_command.len(),
                                |i: int|
                                    replaced(
                                        target.reload_command[i],
                                        "{config_path}"@,
                                        target.config_path,
                                    ),
                            ),
                        ),
                    )
                },
            )
            &&& next_step(host, state, TaskView::Reloading, EventView::Ran(outcome), now, id) == (
                state,
                StepView::Done(
                    ToolResultView {
                        ok: result.ok,
                        output: "config written and moved into place.\nreload output: "@
                            + result.output,
                    },
                ),
            )
        }),
{
    assert(with_path(target.reload_command, target.config_path) =~= Seq::new(
        target.reload_command.len(),
        |i: int| replaced(target.reload_command[i], "{config_path}"@, target.config_path),
    ));
}

// Notes.

/// A note is appended to the instructions, whole and with the time, and then kept
/// in memory, which is saved; the answer tells of both.
pub proof fn law_note_is_appended_and_kept(
    host: HostView,
    state: StateView,
    args: JsonView,
    note: Seq<char>,
    stored: Result<(), Seq<char>>,
    appended: bool,
    now: Seq<char>,
    id: Seq<char>,
)
    ensures
        args.str_at("note"@) == Some(note) && host.binaries.contains("docker"@) ==> called(
            host,
            state,
            "update_instructions"@,
            args,
            now,
        ) == (
            state,
            StepView::Await(
                TaskView::AppendingNote { note },
                ActionView::AppendFile {
                    path: "/data/instructions.md"@,
                    text: "\n- ["@ + now + "] "@ + note,
                },
            ),
        ),
        ({
            let memory = MemoryView {
                services: state.memory.services,
                notes: state.memory.notes.push(NoteView { note, source: "hermes"@, added: now }),
            };
            next_step(
                host,
                state,
                TaskView::AppendingNote { note },
                EventView::Stored(stored),
                now,
                id,
            ) == (
                StateView {
                    bearer_token: state.bearer_token,
                    mesh_token: state.mesh_token,
                    memory,
                    pending: state.pending,
                },
                StepView::Await(
                    TaskView::SavingNote { appended: stored is Ok },
                    ActionView::SaveMemory(memory),
                ),
            )
        }),
        next_step(
            host,
            state,
            TaskView::SavingNote { appended },
            EventView::Stored(stored),
            now,
            id,
        ) == (
            state,
            StepView::Done(
                ToolResultView {
                    ok: appended && stored is Ok,
                    output: "instructions.md append: "@ + (if appended {
                        "ok"@
                    } else {
                        "failed"@
                    }) + ", memory.json save: "@ + (if stored is Ok {
                        "ok"@
                    } else {
                        "failed"@
                    }),
                },
            ),
        ),
{
    law_tool_named_by_its_id(Tool::UpdateInstructions);
}

/// The instructions file is written at the start exactly where it is not there.
pub proof fn law_instructions_are_written_where_absent(present: bool)
    ensures
        present <==> initial_instructions(present) is None,
        initial_instructions(present) matches Some(action) ==> (action matches ActionView::WriteFile {
            path,
            content,
        } && path == "/data/instructions.md"@ && content == DEFAULT_INSTRUCTIONS_TEMPLATE@),
{
}

// Making a container anew.

/// What was inspected is decoded whole; a failed inspection ends the call and
/// leaves the container alone.
pub proof fn law_inspection_is_decoded(
    host: HostView,
    state: StateView,
    container: Seq<char>,
    outcome: OutcomeView,
    now: Seq<char>,
    id: Seq<char>,
)
    ensures
        ({
            let result = command_result("docker"@, outcome);
            next_step(
                host,
                state,
                TaskView::Inspecting { container },
                EventView::Ran(outcome),
                now,
                id,
            ) == (
                state,
                if result.ok {
                    StepView::Await(
                        TaskView::DecodingInspect { container, printed: result.output },
                        ActionView::DecodeInspect { printed: result.output },
                    )
                } else {
                    turned_down("failed to inspect container: "@ + result.output)
                },
            )
        }),
{
}

/// Once the container is known it is stopped. Its variables, image and host
/// configuration are kept for the new one; the host configuration beside the
/// container's own configuration counts before the one inside it.
pub proof fn law_known_container_is_stopped(
    host: HostView,
    state: StateView,
    container: Seq<char>,
    printed: Seq<char>,
    inspect: InspectView,
    error: Seq<char>,
    now: Seq<char>,
    id: Seq<char>,
)
    ensures
        ({
            let task = TaskView::DecodingInspect { container, printed };
            let step = next_step(host, state, task, EventView::Inspected(Ok(inspect)), now, id);
            let config = match inspect.outer_host_config {
                Some(h) => Ok(h),
                None => inspect.inner_host_config,
            };
            &&& config matches Ok(host_config) ==> step == (
                state,
                StepView::Await(
                    TaskView::Stopping {
                        container,
                        recipe: RecipeView { env: inspect.env, image: inspect.image, host_config },
                    },
                    run_of("docker"@, seq!["stop"@, container]),
                ),
            )
            &&& config matches Err(e) ==> step == (
                state,
                turned_down(
                    "failed to parse docker inspect JSON: "@ + e + " — output was: "@ + printed,
                ),
            )
            &&& next_step(host, state, task, EventView::Inspected(Err(error)), now, id) == (
                state,
                turned_down(
                    "failed to parse docker inspect JSON: "@ + error + " — output was: "@
                        + printed,
                ),
            )
        }),
{
}

/// The container is removed only once it has stopped, and the `.env` file of the
/// stack is read only once it has been removed.
pub proof fn law_stopped_container_is_removed(
    host: HostView,
    state: StateView,
    container: Seq<char>,
    recipe: RecipeView,
    outcome: OutcomeView,
    now: Seq<char>,
    id: Seq<char>,
)
    ensures
        ({
            let result = command_result("docker"@, outcome);
            &&& next_step(
                host,
                state,
                TaskView::Stopping { container, recipe },
                EventView::Ran(outcome),
                now,
                id,
            ) == (
                state,
                if result.ok {
                    StepView::Await(
                        TaskView::Removing { container, recipe },
                        run_of("docker"@, seq!["rm"@, container]),
                    )
                } else {
                    turned_down("stop failed: "@ + result.output)
                },
            )
            &&& next_step(
                host,
                state,
                TaskView::Removing { container, recipe },
                EventView::Ran(outcome),
                now,
                id,
            ) == (
                state,
                if result.ok {
                    StepView::Await(
                        TaskView::ReadingEnv {
                            container,
                            recipe,
                            env_path: stack_dir(host) + "/.env"@,
                        },
                        ActionView::ReadFile { path: stack_dir(host) + "/.env"@ },
                    )
                } else {
                    turned_down("rm failed (container may still be present): "@ + result.output)
                },
            )
        }),
{
}

/// The answer of a recreation tells the image, the file, the counts and the whole
/// command that ran; a failed one tells the whole command to run by hand and all
/// that docker printed.
pub proof fn law_recreation_tells_its_command(
    host: HostView,
    state: StateView,
    r: RecreationView,
    success: bool,
    stdout: Seq<u8>,
    stderr: Seq<u8>,
    error: Seq<char>,
    now: Seq<char>,
    id: Seq<char>,
)
    ensures
        ({
            let task = TaskView::Recreating(r);
            let step = next_step(
                host,
                state,
                task,
                EventView::Ran(OutcomeView::Exited { success, stdout, stderr }),
                now,
                id,
            );
            let unspawned =
                "container stopped and removed but failed to spawn docker run: "@ + error
                + "\nYou need to manually re-create the container."@;
            &&& success ==> step == (
                state,
                StepView::Done(
                    ToolResultView {
                        ok: true,
                        output: "container recreated successfully.\nImage: "@ + r.image
                            + "\nEnv vars applied from "@ + r.env_path + " ("@ + decimal(
                            r.from_file,
                        ) + " vars from .env, "@ + decimal(r.kept)
                            + " extra from original container)\nRun command: docker "@ + joined(
                            r.args,
                            " "@,
                        ) + "\nContainer output: "@ + trimmed(lossy_text(stdout)),
                    },
                ),
            )
            &&& !success ==> step == (
                state,
                turned_down(
                    "container stopped and removed but failed to re-create:\n"@ + lossy_text(stderr)
                        + "\nContainer is now gone — you need to manually run:\ndocker "@
                        + joined(r.args, " "@) + "\nError: "@ + lossy_text(stdout),
                ),
            )
            &&& next_step(
                host,
                state,
                task,
                EventView::Ran(OutcomeView::NotStarted { error }),
                now,
                id,
            ) == (state, turned_down(unspawned))
            &&& next_step(
                host,
                state,
                task,
                EventView::Ran(OutcomeView::Lost { error }),
                now,
                id,
            ) == (state, turned_down(unspawned))
        }),
{
}

// Changing the `.env` file.

/// A change of the `.env` file needs a map of values that is not empty. It reads
/// the file of the stack, and writes to the same file the changed lines with a line
/// feed between them.
pub proof fn law_env_update_rewrites_the_file(
    host: HostView,
    state: StateView,
    args: JsonView,
    values: Seq<(Seq<char>, JsonView)>,
    env_path: Seq<char>,
    content: Seq<char>,
    error: Seq<char>,
    now: Seq<char>,
    id: Seq<char>,
)
    ensures
        host.binaries.contains("gawk"@) ==> {
            let calling = called(host, state, "env_update"@, args, now);
            &&& args.get("values"@) == Some(JsonView::Object(values)) && values.len() > 0
                ==> calling == (
                state,
                StepView::Await(
                    TaskView::ReadingEnvFile { values, env_path: stack_dir(host) + "/.env"@ },
                    ActionView::ReadFile { path: stack_dir(host) + "/.env"@ },
                ),
            )
            &&& args.get("values"@) == Some(JsonView::Object(values)) && values.len() == 0
                ==> calling == (
                state,
                turned_down("`values` map is empty — nothing to update"@),
            )
            &&& !(args.get("values"@) matches Some(JsonView::Object(_))) ==> calling == (
                state,
                turned_down("missing `values` argument (must be a map)"@),
            )
        },
        ({
            let task = TaskView::ReadingEnvFile { values, env_path };
            &&& next_step(host, state, task, EventView::FileRead(Err(error)), now, id) == (
                state,
                turned_down("could not read "@ + env_path + ": "@ + error),
            )
            &&& next_step(host, state, task, EventView::FileRead(Ok(content)), now, id) == (
                state,
                StepView::Await(
                    TaskView::WritingEnvFile {
                        env_path,
                        changes: all_changes(lines_of(content), values),
                    },
                    ActionView::WriteFile {
                        path: env_path,
                        content: joined(updated_lines(lines_of(content), values), "\n"@),
                    },
                ),
            )
        }),
{
    law_tool_named_by_its_id(Tool::EnvUpdate);
}

/// The answer of a change of the `.env` file lists every change.
pub proof fn law_env_update_lists_every_change(
    host: HostView,
    state: StateView,
    env_path: Seq<char>,
    changes: Seq<Seq<char>>,
    error: Seq<char>,
    now: Seq<char>,
    id: Seq<char>,
)
    ensures
        ({
            let task = TaskView::WritingEnvFile { env_path, changes };
            &&& next_step(host, state, task, EventView::Stored(Err(error)), now, id) == (
                state,
                turned_down("failed to write "@ + env_path + ": "@ + error),
            )
            &&& next_step(host, state, task, EventView::Stored(Ok(())), now, id) == (
                state,
                StepView::Done(
                    ToolResultView {
                        ok: true,
                        output: if changes.len() == 0 {
                            "no changes needed — all keys already have the requested values"@
                        } else {
                            "updated "@ + env_path + ":\n"@ + joined(changes, "\n"@)
                        },
                    },
                ),
            )
        }),
{
}

// Events.

/// A task takes the kind of event that its action brings: the outcome of a
/// command, except where it waits for a manifest, a file or the storing of one, or
/// for a container to be decoded.
pub proof fn law_tasks_take_their_events(task: TaskView, event: EventView)
    ensures
        task.accepts(event) <==> match task {
            TaskView::LoadingManifest => event is Manifest,
            TaskView::SavingDiscovery { .. } | TaskView::AppendingNote { .. }
            | TaskView::SavingNote { .. } | TaskView::WritingEnvFile { .. } => event is Stored,
            TaskView::ReadingEnv { .. } | TaskView::ReadingEnvFile { .. } => event is FileRead,
            TaskView::DecodingInspect { .. } => event is Inspected,
            TaskView::Discovering(d) => event is Ran && d.waiting(),
            TaskView::Printing { .. } | TaskView::Resolving { .. }
            | TaskView::ListingBridge { .. } | TaskView::ReadingCurrent { .. }
            | TaskView::WritingStaged(_) | TaskView::MovingStaged(_) | TaskView::Reloading
            | TaskView::Inspecting { .. } | TaskView::Stopping { .. } | TaskView::Removing { .. }
            | TaskView::Recreating(_) | TaskView::ListingEnv { .. } => event is Ran,
        },
{
}

} // verus!
