//! What holds of the tools as a whole.

use vstd::prelude::*;
use crate::command::{CommandView, OutcomeView, ToolResultView, plain_command};
use crate::container::{binding_flags, env_flags, host_flags, port_flags, run_args, volume_flags};
use crate::discovery::{DiscoveryManifest, DiscoveryStepView, DiscoveryView, ServiceView};
use crate::dotenv::env_completed;
use crate::execute::{anvil_update, binary_absent, capped_argument, compose_logs, docker_logs,
    name_argument, read_in_container, refused, staged_path, start_anvil_update, start_call,
    start_compose_logs, start_config_apply, start_config_propose, start_docker_logs, start_tool,
    text_argument, unknown_tool, write_staged};
use crate::json::JsonView;
use crate::memory::service_for;
use crate::resume::{after_current, env_in_file, next_step, reload};
use crate::state::{ProposalView, StateView};
use crate::task::{ActionView, EventView, HostView, StepView, TargetView, TaskView, ToolCallView,
    ToolEvent};
use crate::text::{decimal, digit};
use crate::tools::{Tool, all_tools, law_published_iff_binary_present, law_tool_ids_distinct,
    law_tool_named_by_its_id, name_ok, published, tool_named, usable};

verus! {

// The allowlist.

/// A call of a tool that is not on the list is refused and changes nothing.
pub proof fn law_unknown_tools_are_refused(
    host: HostView,
    state: StateView,
    call: ToolCallView,
    now: Seq<char>,
)
    requires
        forall|t: Tool| #[trigger] t.id() != call.name,
    ensures
        start_call(host, state, call, now) == (state, refused(unknown_tool(call.name))),
{
}

/// A tool that the host publishes is started when it is called; one that it does
/// not publish is refused and changes nothing.
pub proof fn law_published_tools_are_started(
    host: HostView,
    state: StateView,
    tool: Tool,
    args: JsonView,
    now: Seq<char>,
)
    ensures
        ({
            let call = ToolCallView { name: tool.id(), arguments: args };
            if published(usable(all_tools(), host.binaries)).contains(tool.def_view()) {
                start_call(host, state, call, now) == start_tool(host, state, tool, args, now)
            } else {
                start_call(host, state, call, now) == (state, refused(binary_absent(tool)))
            }
        }),
{
    law_tool_named_by_its_id(tool);
    law_published_iff_binary_present(host.binaries, tool);
    let list = usable(all_tools(), host.binaries);
    let defs = published(list);
    if list.contains(tool) {
        let k = choose|k: int| 0 <= k < list.len() && list[k] == tool;
        assert(defs[k] == tool.def_view());
    }
    if defs.contains(tool.def_view()) {
        let k = choose|k: int| 0 <= k < defs.len() && defs[k] == tool.def_view();
        assert(list[k].id() == tool.id());
        law_tool_ids_distinct(list[k], tool);
        assert(list.contains(tool));
    }
}

/// The argument of a tool that has to be a safe name.
pub open spec fn name_key(tool: Tool) -> Option<Seq<char>> {
    match tool {
        Tool::AnvilDockerUpdate => Some("service"@),
        Tool::ComposeRestart => Some("service"@),
        Tool::ComposeLogs => Some("service"@),
        Tool::ComposeUpForceRecreate => Some("service"@),
        Tool::DockerLogs => Some("container"@),
        Tool::ContainerRestart => Some("container"@),
        Tool::ContainerRecreate => Some("container"@),
        Tool::EnvGet => Some("container"@),
        Tool::NetworkDiagnose => Some("target"@),
        _ => None,
    }
}

/// A tool that takes a name runs nothing and changes nothing without a safe one.
pub proof fn law_unsafe_names_are_refused(
    host: HostView,
    state: StateView,
    tool: Tool,
    args: JsonView,
    now: Seq<char>,
)
    requires
        name_key(tool) matches Some(key) && !(args.str_at(key) matches Some(name) && name_ok(name)),
    ensures
        start_tool(host, state, tool, args, now).0 == state,
        start_tool(host, state, tool, args, now).1 matches StepView::Done(r) && !r.ok,
{
}

/// A safe name stands in the command as a whole argument; anvil gets it with the
/// seconds to wait behind a colon.
pub proof fn law_names_are_whole_arguments(
    host: HostView,
    state: StateView,
    tool: Tool,
    args: JsonView,
    now: Seq<char>,
)
    requires
        name_key(tool) matches Some(key) && args.str_at(key) matches Some(name) && name_ok(name),
    ensures
        ({
            let name = args.str_at(name_key(tool)->0)->0;
            start_tool(host, state, tool, args, now).1 matches StepView::Await(
                _,
                ActionView::Run(c),
            ) && if tool is AnvilDockerUpdate {
                exists|wait: nat| wait <= 300 && c == #[trigger] anvil_update(name, wait)
            } else {
                c.args.contains(name)
            }
        }),
{
    let name = args.str_at(name_key(tool)->0)->0;
    match start_tool(host, state, tool, args, now).1 {
        StepView::Await(_, ActionView::Run(c)) => {
            if tool is AnvilDockerUpdate {
                let wait = capped_argument(args, "wait_seconds"@, 15, 300);
                assert(c == anvil_update(name, wait));
            } else {
                let k = if tool is EnvGet {
                    1int
                } else {
                    c.args.len() - 1
                };
                assert(c.args[k] == name);
            }
        },
        _ => {},
    }
}

/// A numeric argument is taken as it is up to its cap, and as the cap beyond it;
/// without one the default counts.
pub proof fn law_numbers_are_capped(args: JsonView, key: Seq<char>, default: u64, cap: u64)
    requires
        default <= cap,
    ensures
        capped_argument(args, key, default, cap) <= cap,
        args.u64_at(key) is None ==> capped_argument(args, key, default, cap) == default,
        args.u64_at(key) matches Some(n) ==> capped_argument(args, key, default, cap) == if n
            <= cap {
            n
        } else {
            cap
        },
{
}

/// No call waits for more than 300 seconds or asks for more than 2000 lines.
pub proof fn law_waits_and_tails_are_bounded(host: HostView, args: JsonView)
    ensures
        start_anvil_update(args) matches StepView::Await(_, ActionView::Run(c)) ==> exists|
            service: Seq<char>,
            wait: nat,
        |
            wait <= 300 && c == #[trigger] anvil_update(service, wait),
        start_docker_logs(args) matches StepView::Await(_, ActionView::Run(c)) ==> exists|
            container: Seq<char>,
            tail: nat,
        |
            tail <= 2000 && c == #[trigger] docker_logs(container, tail),
        start_compose_logs(host, args) matches StepView::Await(_, ActionView::Run(c)) ==> exists|
            service: Seq<char>,
            tail: nat,
        |
            tail <= 2000 && c == #[trigger] compose_logs(host.compose_file(), service, tail),
{
    let wait = capped_argument(args, "wait_seconds"@, 15, 300);
    let tail = capped_argument(args, "tail"@, 100, 2000);
    if let Ok(name) = name_argument(args, "service"@) {
        let a = anvil_update(name, wait);
        let b = compose_logs(host.compose_file(), name, tail);
    }
    if let Ok(name) = name_argument(args, "container"@) {
        let c = docker_logs(name, tail);
    }
}

// What the tools run.

/// Whether a program is one that the tools run.
pub open spec fn allowed_program(program: Seq<char>) -> bool {
    program == "anvil"@ || program == "docker"@ || program == "getent"@
}

/// A tool starts no program but those on the list, and only the staged write of a
/// proposal that waits has an input.
pub proof fn law_tools_start_only_allowed_programs(
    host: HostView,
    state: StateView,
    call: ToolCallView,
    now: Seq<char>,
)
    ensures
        start_call(host, state, call, now).1 matches StepView::Await(_, ActionView::Run(c))
            ==> allowed_program(c.program) && (c.input matches Some(content) ==> exists|
            id: Seq<char>,
        |
            #[trigger] state.pending.contains_key(id) && state.pending[id].content == content),
{
    if let Some(tool) = tool_named(call.name) {
        if host.binaries.contains(tool.binary()) && tool is ServiceConfigApply {
            if let Ok(id) = text_argument(call.arguments, "proposal_id"@) {
                if state.pending.contains_key(id) {
                    assert(state.pending[id].content == state.proposal(id)->0.content);
                }
            }
        }
    }
}

/// Whatever an action brings, a tool goes on with no program but docker, and with
/// no input.
pub proof fn law_tools_go_on_with_docker(
    host: HostView,
    state: StateView,
    task: TaskView,
    event: EventView,
    now: Seq<char>,
    id: Seq<char>,
)
    requires
        task.accepts(event),
    ensures
        next_step(host, state, task, event, now, id).1 matches StepView::Await(
            _,
            ActionView::Run(c),
        ) ==> c.program == "docker"@ && c.input is None,
{
}

/// Whether a text is a flag of a `docker run`: for a binding, a volume or a
/// variable.
spec fn run_flag(s: Seq<char>) -> bool {
    s.len() >= 2 && s[0] == '-' && (s[1] == 'p' || s[1] == 'v' || s[1] == 'e')
}

proof fn lemma_port_flags_are_flags(ports: Seq<(Seq<char>, JsonView)>)
    ensures
        forall|i: int| 0 <= i < port_flags(ports).len() ==> run_flag(#[trigger] port_flags(ports)[i]),
    decreases ports.len(),
{
    if ports.len() > 0 {
        lemma_port_flags_are_flags(ports.drop_last());
        let rest = port_flags(ports.drop_last());
        let all = port_flags(ports);
        reveal_strlit("-p");
        assert forall|i: int| 0 <= i < all.len() implies run_flag(#[trigger] all[i]) by {
            if i < rest.len() {
                assert(all[i] == rest[i]);
            } else if let JsonView::Array(bindings) = ports.last().1 {
                assert(all[i] == binding_flags(ports.last().0, bindings)[i - rest.len()]);
            }
        }
    }
}

proof fn lemma_volume_flags_are_flags(binds: Seq<JsonView>)
    ensures
        forall|i: int|
            0 <= i < volume_flags(binds).len() ==> run_flag(#[trigger] volume_flags(binds)[i]),
    decreases binds.len(),
{
    if binds.len() > 0 {
        lemma_volume_flags_are_flags(binds.drop_last());
        let rest = volume_flags(binds.drop_last());
        let all = volume_flags(binds);
        reveal_strlit("-v=");
        assert forall|i: int| 0 <= i < all.len() implies run_flag(#[trigger] all[i]) by {
            if i < rest.len() {
                assert(all[i] == rest[i]);
            }
        }
    }
}

proof fn lemma_run_is_no_shell_line(
    container: Seq<char>,
    host: JsonView,
    env: Seq<(Seq<char>, Seq<char>)>,
    image: Seq<char>,
)
    requires
        !(container == "sh"@ && image == "-c"@ && host_flags(host).len() == 0 && env.len() == 0),
    ensures
        no_shell_line(plain_command("docker"@, run_args(container, host, env, image))),
{
    lemma_literals_are_no_shell_parts();
    let args = run_args(container, host, env, image);
    let flags = host_flags(host);
    let vars = env_flags(env);
    if let Some(JsonView::Object(ports)) = host.get("PortBindings"@) {
        lemma_port_flags_are_flags(ports);
    }
    if let Some(JsonView::Array(binds)) = host.get("Binds"@) {
        lemma_volume_flags_are_flags(binds);
    }
    reveal_strlit("-e");
    reveal_strlit("sh");
    reveal_strlit("-c");
    reveal_strlit("run");
    reveal_strlit("exec");
    assert("run"@.len() == 3 && "exec"@.len() == 4);
    assert(args[0] == "run"@ && args[1] == "-d"@ && args[2] == "--name"@);
    assert("sh"@.len() == 2 && "sh"@[0] == 's' && "-c"@[1] == 'c');
    assert forall|i: int| !#[trigger] shell_at(args, i) by {
        if 0 <= i < args.len() - 1 {
            if i < 3 {
                assert(i == 0 || i == 1 || i == 2);
            }
            if i + 1 < args.len() - 1 && i + 1 >= 4 {
                let k = i + 1 - 4;
                if k < flags.len() {
                    assert(args[i + 1] == flags[k]);
                    assert(run_flag(flags[k]));
                } else {
                    assert(args[i + 1] == vars[k - flags.len()]);
                    assert(run_flag(vars[k - flags.len()]));
                }
            }
            if i + 1 == args.len() - 1 {
                assert(args[i + 1] == image);
            }
            if i >= 4 {
                let k = i - 4;
                if k < flags.len() {
                    assert(args[i] == flags[k]);
                    assert(run_flag(flags[k]));
                } else {
                    assert(args[i] == vars[k - flags.len()]);
                    assert(run_flag(vars[k - flags.len()]));
                }
            }
        }
    }
    assert(args[0] == "run"@);
}

/// Whether an argument is a shell and the next one tells it to run a line.
pub open spec fn shell_at(args: Seq<Seq<char>>, i: int) -> bool {
    0 <= i < args.len() - 1 && args[i] == "sh"@ && args[i + 1] == "-c"@
}

/// Whether a program is one that the tools run inside a container.
pub open spec fn fixed_in_container(program: Seq<char>) -> bool {
    program == "cat"@ || program == "env"@ || program == "mv"@ || program == "tee"@ || program
        == "test"@
}

/// Whether a command is a fixed program with separate arguments: not a shell, with
/// no shell among its arguments that is told to run a line, and, where it runs
/// something inside a container, with a fixed program there too.
pub open spec fn no_shell_line(c: CommandView) -> bool {
    &&& allowed_program(c.program)
    &&& forall|i: int| !#[trigger] shell_at(c.args, i)
    &&& c.args.len() > 0 && c.args[0] == "exec"@ ==> {
        let k: int = if c.input is Some {
            3
        } else {
            2
        };
        k < c.args.len() && fixed_in_container(c.args[k])
    }
}

/// Whether a text can stand before a shell line's flag or be that flag.
spec fn part_of_shell_line(s: Seq<char>) -> bool {
    s == "sh"@ || s == "-c"@
}

proof fn lemma_literals_are_no_shell_parts()
    ensures
        !part_of_shell_line("exec"@),
        !part_of_shell_line("-i"@),
        !part_of_shell_line("cat"@),
        !part_of_shell_line("tee"@),
        !part_of_shell_line("env"@),
        !part_of_shell_line("test"@),
        !part_of_shell_line("-f"@),
        !part_of_shell_line("mv"@),
        !part_of_shell_line("ps"@),
        !part_of_shell_line("--format"@),
        !part_of_shell_line("{{.Names}}\t{{.Status}}"@),
        !part_of_shell_line("{{.Names}}\t{{.Image}}"@),
        !part_of_shell_line("docker"@),
        !part_of_shell_line("update"@),
        !part_of_shell_line("--in-order"@),
        !part_of_shell_line("compose"@),
        !part_of_shell_line("restart"@),
        !part_of_shell_line("logs"@),
        !part_of_shell_line("--tail"@),
        !part_of_shell_line("up"@),
        !part_of_shell_line("-d"@),
        !part_of_shell_line("--force-recreate"@),
        !part_of_shell_line("hosts"@),
        !part_of_shell_line("inspect"@),
        !part_of_shell_line("{{json .}}"@),
        !part_of_shell_line("network"@),
        !part_of_shell_line("bridge"@),
        !part_of_shell_line("{{json .Containers}}"@),
        !part_of_shell_line("stop"@),
        !part_of_shell_line("rm"@),
        !part_of_shell_line("run"@),
        !part_of_shell_line("--name"@),
        "docker"@ != "exec"@,
        "compose"@ != "exec"@,
        "logs"@ != "exec"@,
        "ps"@ != "exec"@,
        "restart"@ != "exec"@,
        "hosts"@ != "exec"@,
        "inspect"@ != "exec"@,
        "network"@ != "exec"@,
        "stop"@ != "exec"@,
        "rm"@ != "exec"@,
        "run"@ != "exec"@,
{
    reveal_strlit("sh");
    reveal_strlit("-c");
    reveal_strlit("exec");
    reveal_strlit("-i");
    reveal_strlit("cat");
    reveal_strlit("tee");
    reveal_strlit("env");
    reveal_strlit("test");
    reveal_strlit("-f");
    reveal_strlit("mv");
    reveal_strlit("ps");
    reveal_strlit("--format");
    reveal_strlit("{{.Names}}\t{{.Status}}");
    reveal_strlit("{{.Names}}\t{{.Image}}");
    reveal_strlit("docker");
    reveal_strlit("update");
    reveal_strlit("--in-order");
    reveal_strlit("compose");
    reveal_strlit("restart");
    reveal_strlit("logs");
    reveal_strlit("--tail");
    reveal_strlit("up");
    reveal_strlit("-d");
    reveal_strlit("--force-recreate");
    reveal_strlit("hosts");
    reveal_strlit("inspect");
    reveal_strlit("{{json .}}");
    reveal_strlit("network");
    reveal_strlit("bridge");
    reveal_strlit("{{json .Containers}}");
    reveal_strlit("stop");
    reveal_strlit("rm");
    reveal_strlit("run");
    reveal_strlit("--name");
    assert("sh"@.len() == 2 && "sh"@[0] == 's');
    assert("-c"@.len() == 2 && "-c"@[0] == '-' && "-c"@[1] == 'c');
    assert("exec"@.len() == 4 && "exec"@[0] == 'e');
    assert("-i"@.len() == 2 && "-i"@[0] == '-' && "-i"@[1] == 'i');
    assert("cat"@.len() == 3);
    assert("tee"@.len() == 3);
    assert("env"@.len() == 3);
    assert("test"@.len() == 4);
    assert("-f"@.len() == 2 && "-f"@[0] == '-' && "-f"@[1] == 'f');
    assert("mv"@.len() == 2 && "mv"@[0] == 'm' && "mv"@[1] == 'v');
    assert("ps"@.len() == 2 && "ps"@[0] == 'p' && "ps"@[1] == 's');
    assert("--format"@.len() == 8);
    assert("{{.Names}}\t{{.Status}}"@.len() == 22);
    assert("{{.Names}}\t{{.Image}}"@.len() == 21);
    assert("docker"@.len() == 6);
    assert("update"@.len() == 6);
    assert("--in-order"@.len() == 10);
    assert("compose"@.len() == 7);
    assert("restart"@.len() == 7);
    assert("logs"@.len() == 4 && "logs"@[0] == 'l');
    assert("--tail"@.len() == 6);
    assert("up"@.len() == 2 && "up"@[0] == 'u' && "up"@[1] == 'p');
    assert("-d"@.len() == 2 && "-d"@[0] == '-' && "-d"@[1] == 'd');
    assert("--force-recreate"@.len() == 16);
    assert("hosts"@.len() == 5);
    assert("inspect"@.len() == 7);
    assert("{{json .}}"@.len() == 10);
    assert("network"@.len() == 7);
    assert("bridge"@.len() == 6);
    assert("{{json .Containers}}"@.len() == 20);
    assert("stop"@.len() == 4 && "stop"@[0] == 's');
    assert("rm"@.len() == 2 && "rm"@[0] == 'r' && "rm"@[1] == 'm');
    assert("run"@.len() == 3);
    assert("--name"@.len() == 6);
}

proof fn lemma_decimal_is_no_shell(n: nat)
    ensures
        decimal(n) != "sh"@,
{
    reveal_strlit("sh");
    assert("sh"@.last() == 'h');
    assert(decimal(n).last() == digit(n % 10));
}

/// Short argument lists are looked through position by position.
proof fn lemma_no_shell_in_short_list(args: Seq<Seq<char>>)
    requires
        args.len() <= 7,
        !shell_at(args, 0),
        !shell_at(args, 1),
        !shell_at(args, 2),
        !shell_at(args, 3),
        !shell_at(args, 4),
        !shell_at(args, 5),
    ensures
        forall|i: int| !#[trigger] shell_at(args, i),
{
    assert forall|i: int| !#[trigger] shell_at(args, i) by {
        assert(i < 0 || i == 0 || i == 1 || i == 2 || i == 3 || i == 4 || i == 5 || i >= 6);
    }
}

/// A tool starts with a fixed program and separate arguments; none is a shell that
/// is given a line to run, whatever the call holds.
pub proof fn law_started_commands_are_no_shell_lines(
    host: HostView,
    state: StateView,
    call: ToolCallView,
    now: Seq<char>,
)
    ensures
        start_call(host, state, call, now).1 matches StepView::Await(_, ActionView::Run(c))
            ==> no_shell_line(c),
{
    lemma_literals_are_no_shell_parts();
    lemma_decimal_is_no_shell(capped_argument(call.arguments, "tail"@, 100, 2000));
    if let StepView::Await(_, ActionView::Run(c)) = start_call(host, state, call, now).1 {
        lemma_no_shell_in_short_list(c.args);
    }
}

/// Whether a container named `sh` is made anew, without any flag, from an image
/// named `-c`.
pub open spec fn reads_as_shell_line(task: TaskView, event: EventView) -> bool {
    task matches TaskView::ReadingEnv { container, recipe, .. } && event matches EventView::FileRead(
        read,
    ) && container == "sh"@ && recipe.image == "-c"@ && host_flags(recipe.host_config).len() == 0
        && env_completed(env_in_file(read), recipe.env).len() == 0
}

/// A tool goes on with fixed programs and separate arguments too. The exception is
/// the reload command of a role: what it runs inside the role's container is the
/// manifest's own. Left out is a container named `sh` that is made anew, without
/// any flag, from an image named `-c`.
pub proof fn law_later_commands_are_no_shell_lines(
    host: HostView,
    state: StateView,
    task: TaskView,
    event: EventView,
    now: Seq<char>,
    id: Seq<char>,
)
    requires
        task.accepts(event),
        !reads_as_shell_line(task, event),
    ensures
        next_step(host, state, task, event, now, id).1 matches StepView::Await(
            _,
            ActionView::Run(c),
        ) ==> if let TaskView::MovingStaged(target) = task {
            c == reload(target)
        } else {
            no_shell_line(c)
        },
{
    lemma_literals_are_no_shell_parts();
    if let StepView::Await(_, ActionView::Run(c)) = next_step(
        host,
        state,
        task,
        event,
        now,
        id,
    ).1 {
        if let TaskView::ReadingEnv { container, recipe, env_path } = task {
            if let EventView::FileRead(read) = event {
                let env = env_completed(env_in_file(read), recipe.env);
                lemma_run_is_no_shell_line(container, recipe.host_config, env, recipe.image);
            }
        } else if !(task is MovingStaged) {
            if let TaskView::WritingStaged(target) = task {
                reveal_strlit("sh");
                reveal_strlit(".new");
                assert(staged_path(target.config_path).len() >= 4);
            }
            lemma_no_shell_in_short_list(c.args);
        }
    }
}

// Tokens.

/// No tool changes a token.
pub proof fn law_tools_keep_tokens(
    host: HostView,
    state: StateView,
    call: ToolCallView,
    task: TaskView,
    event: EventView,
    now: Seq<char>,
    id: Seq<char>,
)
    ensures
        start_call(host, state, call, now).0.bearer_token == state.bearer_token,
        start_call(host, state, call, now).0.mesh_token == state.mesh_token,
        task.accepts(event) ==> next_step(host, state, task, event, now, id).0.bearer_token
            == state.bearer_token,
        task.accepts(event) ==> next_step(host, state, task, event, now, id).0.mesh_token
            == state.mesh_token,
{
}

// Proposals.

/// Nothing is applied without a proposal that waits under the given id.
pub proof fn law_apply_needs_a_pending_proposal(state: StateView, args: JsonView, id: Seq<char>)
    requires
        args.str_at("proposal_id"@) == Some(id),
        !state.pending.contains_key(id),
    ensures
        start_config_apply(state, args) == (
            state,
            refused("no pending proposal with that id — call service_config_propose first"@),
        ),
{
    assert(state.pending.remove(id) =~= state.pending);
}

/// A proposal is applied at most once: once it was taken out, whatever came of it,
/// the same call is refused.
pub proof fn law_proposal_is_applied_at_most_once(state: StateView, args: JsonView, id: Seq<char>)
    requires
        args.str_at("proposal_id"@) == Some(id),
    ensures
        start_config_apply(start_config_apply(state, args).0, args).1 == refused(
            "no pending proposal with that id — call service_config_propose first"@,
        ),
{
}

/// What is applied is the content of the proposal, all of it and nothing else, to
/// the staging path of its role's config file, in its role's container.
pub proof fn law_apply_writes_the_proposal(
    state: StateView,
    args: JsonView,
    id: Seq<char>,
    service: ServiceView,
    path: Seq<char>,
)
    requires
        args.str_at("proposal_id"@) == Some(id),
        state.pending.contains_key(id),
        service_for(state.memory.services, state.pending[id].role) == Some(service),
        service.config_path == Some(path),
    ensures
        ({
            let target = TargetView {
                container: service.container_name,
                config_path: path,
                reload_command: service.reload_command,
            };
            start_config_apply(state, args).1 == StepView::Await(
                TaskView::WritingStaged(target),
                ActionView::Run(write_staged(target, state.pending[id].content)),
            )
        }),
        start_config_apply(state, args).0.pending == state.pending.remove(id),
{
}

/// What was proposed for a role is what applying the proposal writes, as long as
/// the role is known.
pub proof fn law_proposed_content_is_what_is_applied(
    state: StateView,
    role: Seq<char>,
    proposed: Seq<char>,
    current: ToolResultView,
    id: Seq<char>,
    args: JsonView,
    service: ServiceView,
    path: Seq<char>,
)
    requires
        current.ok,
        args.str_at("proposal_id"@) == Some(id),
        service_for(state.memory.services, role) == Some(service),
        service.config_path == Some(path),
    ensures
        ({
            let staged = after_current(state, role, proposed, current, id).0;
            start_config_apply(staged, args).1 matches StepView::Await(
                TaskView::WritingStaged(target),
                ActionView::Run(c),
            ) && target.container == service.container_name && target.config_path == path
                && c.input == Some(proposed)
        }),
{
}

/// A proposal comes to wait only as the end of a call that proposes it, and
/// nothing else adds or changes one.
pub proof fn law_only_proposing_adds_a_proposal(
    host: HostView,
    state: StateView,
    task: TaskView,
    event: EventView,
    call: ToolCallView,
    now: Seq<char>,
    id: Seq<char>,
)
    ensures
        start_call(host, state, call, now).0.pending.submap_of(state.pending),
        task.accepts(event) ==> {
            let after = next_step(host, state, task, event, now, id).0.pending;
            after == state.pending || (task matches TaskView::ReadingCurrent { role, proposed }
                && after == state.pending.insert(id, ProposalView { role, content: proposed }))
        },
{
}

/// Proposing only reads: it runs one command, which prints the config file as it
/// is, and then it has its answer.
pub proof fn law_proposing_only_reads(
    host: HostView,
    state: StateView,
    args: JsonView,
    outcome: OutcomeView,
    now: Seq<char>,
    id: Seq<char>,
)
    ensures
        start_config_propose(state, args) matches StepView::Await(task, action) ==> (exists|
            service: ServiceView,
            path: Seq<char>,
        |
            service.config_path == Some(path) && action == ActionView::Run(
                #[trigger] read_in_container(service.container_name, path),
            )) && next_step(host, state, task, EventView::Ran(outcome), now, id).1 is Done,
{
    if let Ok(role) = text_argument(args, "role"@) {
        if let Some(service) = service_for(state.memory.services, role) {
            if let Some(path) = service.config_path {
                let c = read_in_container(service.container_name, path);
            }
        }
    }
}

/// Starting a tool changes the state only to take out a proposal that is to be
/// applied; going on changes it only with the end of discovery, with a proposal
/// or with a note.
pub proof fn law_state_changes_only_where_meant(
    host: HostView,
    state: StateView,
    call: ToolCallView,
    task: TaskView,
    event: EventView,
    now: Seq<char>,
    id: Seq<char>,
)
    ensures
        tool_named(call.name) != Some(Tool::ServiceConfigApply) ==> start_call(
            host,
            state,
            call,
            now,
        ).0 == state,
        task.accepts(event) && !(task is LoadingManifest || task is Discovering || task
            is ReadingCurrent || task is AppendingNote) ==> next_step(
            host,
            state,
            task,
            event,
            now,
            id,
        ).0 == state,
{
}

// Memory.

/// The memory that is kept on disk is the one that the agent goes on with.
pub proof fn law_saved_memory_is_the_memory(
    host: HostView,
    state: StateView,
    task: TaskView,
    event: EventView,
    now: Seq<char>,
    id: Seq<char>,
)
    requires
        task.accepts(event),
    ensures
        next_step(host, state, task, event, now, id).1 matches StepView::Await(
            _,
            ActionView::SaveMemory(memory),
        ) ==> memory == next_step(host, state, task, event, now, id).0.memory,
{
}

/// The memory changes only where it is then kept on disk.
pub proof fn law_changed_memory_is_saved(
    host: HostView,
    state: StateView,
    task: TaskView,
    event: EventView,
    call: ToolCallView,
    now: Seq<char>,
    id: Seq<char>,
)
    ensures
        start_call(host, state, call, now).0.memory == state.memory,
        task.accepts(event) ==> {
            let next = next_step(host, state, task, event, now, id);
            next.0.memory == state.memory || next.1 matches StepView::Await(
                _,
                ActionView::SaveMemory(_),
            )
        },
{
}

proof fn lemma_service_for_is_one(services: Seq<ServiceView>, role: Seq<char>)
    ensures
        service_for(services, role) matches Some(s) ==> services.contains(s) && s.role == role,
        service_for(services, role) is None ==> forall|i: int|
            0 <= i < services.len() ==> (#[trigger] services[i]).role != role,
    decreases services.len(),
{
    if services.len() > 0 && services[0].role != role {
        let t = services.drop_first();
        lemma_service_for_is_one(t, role);
        match service_for(services, role) {
            Some(s) => {
                let i = choose|i: int| 0 <= i < t.len() && t[i] == s;
                assert(services[i + 1] == s);
            },
            None => {
                assert forall|i: int| 0 <= i < services.len() implies (
                #[trigger] services[i]).role != role by {
                    if i > 0 {
                        assert(services[i] == t[i - 1]);
                    }
                }
            },
        }
    } else if services.len() > 0 {
        assert(services[0] == service_for(services, role)->0);
    }
}

/// Once discovery has run, a role is known exactly where that run found it; what
/// was known before and is no longer found is dropped, and the notes stay.
pub proof fn law_discovery_drops_stale_services(
    host: HostView,
    state: StateView,
    d: DiscoveryView,
    outcome: OutcomeView,
    found: Seq<ServiceView>,
    role: Seq<char>,
    now: Seq<char>,
    id: Seq<char>,
)
    requires
        d.waiting(),
        d.step(outcome) == DiscoveryStepView::Done(found),
    ensures
        ({
            let after = next_step(
                host,
                state,
                TaskView::Discovering(d),
                EventView::Ran(outcome),
                now,
                id,
            ).0.memory;
            &&& after.notes == state.memory.notes
            &&& service_for(after.services, role) is Some <==> exists|i: int|
                0 <= i < found.len() && (#[trigger] found[i]).role == role
            &&& service_for(after.services, role) matches Some(s) ==> found.contains(s)
        }),
{
    lemma_service_for_is_one(found, role);
    if service_for(found, role) is Some {
        let s = service_for(found, role)->0;
        let i = choose|i: int| 0 <= i < found.len() && found[i] == s;
        assert(found[i].role == role);
    }
}

/// A host without a manifest, or with one that cannot be read, discovers nothing
/// and runs nothing.
pub proof fn law_no_manifest_no_services(
    host: HostView,
    state: StateView,
    found: Option<Result<DiscoveryManifest, String>>,
    now: Seq<char>,
    id: Seq<char>,
)
    requires
        !(found matches Some(Ok(_))),
    ensures
        ({
            let (after, step) = next_step(
                host,
                state,
                TaskView::LoadingManifest,
                ToolEvent::Manifest(found)@,
                now,
                id,
            );
            after.memory.services.len() == 0 && step matches StepView::Await(
                TaskView::SavingDiscovery { .. },
                ActionView::SaveMemory(_),
            )
        }),
{
}

/// A note is remembered at the end of the notes, with its time; what was known
/// before stays.
pub proof fn law_notes_are_kept(
    host: HostView,
    state: StateView,
    note: Seq<char>,
    stored: Result<(), Seq<char>>,
    now: Seq<char>,
    id: Seq<char>,
)
    ensures
        ({
            let after = next_step(
                host,
                state,
                TaskView::AppendingNote { note },
                EventView::Stored(stored),
                now,
                id,
            ).0.memory;
            &&& after.services == state.memory.services
            &&& after.notes.len() == state.memory.notes.len() + 1
            &&& after.notes.drop_last() == state.memory.notes
            &&& after.notes.last().note == note
            &&& after.notes.last().added == now
        }),
{
    let notes = state.memory.notes;
    let after = next_step(
        host,
        state,
        TaskView::AppendingNote { note },
        EventView::Stored(stored),
        now,
        id,
    ).0.memory;
    assert(after.notes.drop_last() =~= notes);
}

// Progress.

/// Whether an event is of the sort that an action brings.
pub open spec fn brings(action: ActionView, event: EventView) -> bool {
    match action {
        ActionView::Run(_) => event is Ran,
        ActionView::LoadManifest => event is Manifest,
        ActionView::ReadFile { .. } => event is FileRead,
        ActionView::WriteFile { .. } => event is Stored,
        ActionView::AppendFile { .. } => event is Stored,
        ActionView::SaveMemory(_) => event is Stored,
        ActionView::DecodeInspect { .. } => event is Inspected,
    }
}

/// What a tool waits for at first is what its action brings.
pub proof fn law_first_actions_bring_accepted_events(
    host: HostView,
    state: StateView,
    call: ToolCallView,
    now: Seq<char>,
    brought: EventView,
)
    ensures
        start_call(host, state, call, now).1 matches StepView::Await(task, action) && brings(
            action,
            brought,
        ) ==> start_call(host, state, call, now).1->Await_0.accepts(brought),
{
}

/// What a tool waits for as it goes on is what its action brings.
pub proof fn law_later_actions_bring_accepted_events(
    host: HostView,
    state: StateView,
    task: TaskView,
    event: EventView,
    now: Seq<char>,
    id: Seq<char>,
    brought: EventView,
)
    requires
        task.accepts(event),
    ensures
        ({
            let next = next_step(host, state, task, event, now, id).1;
            next is Await && brings(next->Await_1, brought)
                ==> next->Await_0.accepts(brought)
        }),
{
}

/// The commands that a run of discovery can still need for the roles from `next`
/// on.
pub open spec fn commands_left(d: DiscoveryView, next: int) -> int
    decreases d.services.len() - next,
{
    if next < 0 || next >= d.services.len() {
        0
    } else {
        1 + d.services[next].config_candidates.len() + commands_left(d, next + 1)
    }
}

/// How far a task is from its end: the stages that lie before it and, within a
/// run of discovery, the commands.
pub open spec fn distance(task: TaskView) -> (int, int) {
    match task {
        TaskView::LoadingManifest => (2, 0),
        TaskView::Discovering(d) => (
            1,
            commands_left(d, d.next) - (match d.probing {
                None => 0,
                Some((_, k)) => 1 + k,
            }),
        ),
        TaskView::Resolving { .. } => (1, 0),
        TaskView::WritingStaged(_) => (2, 0),
        TaskView::MovingStaged(_) => (1, 0),
        TaskView::AppendingNote { .. } => (1, 0),
        TaskView::Inspecting { .. } => (6, 0),
        TaskView::DecodingInspect { .. } => (5, 0),
        TaskView::Stopping { .. } => (4, 0),
        TaskView::Removing { .. } => (3, 0),
        TaskView::ReadingEnv { .. } => (2, 0),
        TaskView::Recreating(_) => (1, 0),
        TaskView::ReadingEnvFile { .. } => (1, 0),
        _ => (0, 0),
    }
}

proof fn lemma_commands_left(a: DiscoveryView, b: DiscoveryView, next: int)
    requires
        a.services == b.services,
    ensures
        commands_left(a, next) == commands_left(b, next),
        commands_left(a, next) >= 0,
    decreases a.services.len() - next,
{
    if 0 <= next < a.services.len() {
        lemma_commands_left(a, b, next + 1);
    }
}

/// Every tool call ends: each event that it accepts leads to the answer or to a
/// task that is nearer to it.
pub proof fn law_tool_calls_end(
    host: HostView,
    state: StateView,
    task: TaskView,
    event: EventView,
    now: Seq<char>,
    id: Seq<char>,
)
    requires
        task.accepts(event),
    ensures
        distance(task).0 >= 0,
        distance(task).1 >= 0,
        next_step(host, state, task, event, now, id).1 matches StepView::Await(later, _) ==> {
            let (s, c) = distance(task);
            let (later_s, later_c) = distance(later);
            later_s < s || (later_s == s && later_c < c)
        },
{
    if let TaskView::Discovering(d) = task {
        lemma_commands_left(d, d, d.next);
        lemma_commands_left(d, d, d.next + 1);
        if let EventView::Ran(outcome) = event {
            if let DiscoveryStepView::Run(later, _) = d.step(outcome) {
                lemma_commands_left(d, later, d.next);
                lemma_commands_left(d, later, d.next + 1);
            }
        }
    }
}

} // verus!
