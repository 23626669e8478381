//! What a tool call starts with: the tool is looked up, its arguments are
//! checked, and its first action is named.

use vstd::prelude::*;
use vstd::string::*;
use crate::command::{Command, CommandView, ToolResult, command, copy_list, docker, failed,
    owned_list, plain_command, refuse};
use crate::json::{Json, JsonView, Member, lemma_object_view, members_view};
use crate::memory::{find_service, service_for};
use crate::outside::{now_rfc3339, utc_stamp};
use crate::state::{AppState, ProposalView, ServiceProposal, StateView};
use crate::task::{ActionView, Host, HostView, StepView, Target, TargetView, TaskView, ToolAction,
    ToolCall, ToolCallView, ToolStep, ToolTask};
use crate::text::{decimal, decimal_text, texts};
use crate::tools::{Tool, has_text, name_ok, tool_named, tool_with_id, valid_name};

verus! {

/// The compose directory where the host sets none.
pub const COMPOSE_DIR: &'static str = "/stack";

/// Where the instructions are kept.
pub const INSTRUCTIONS_PATH: &'static str = "/data/instructions.md";

/// What the instructions start with.
pub const DEFAULT_INSTRUCTIONS_TEMPLATE: &'static str = "# docker-ops-agent instructions
 
Rules this agent (and Hermes, when calling it) should follow when
executing gated actions. Hermes can append to this file via the
update_instructions tool; you can also edit it directly on disk —
this file is the single source of truth either way. Environment
details (which services live on this host, their config paths) are
tracked in /data/memory.json and discovery.toml, not here — this file
is for policy and learned notes, not raw facts.
 
## Approval policy
 
- service_config_apply requires a proposal_id from service_config_propose
  in the same session — the agent already refuses to apply without one.
- Do not run service_config_apply without an explicit go-ahead from
  Gabriel in the conversation that requested it, even if a proposal_id
  is valid. State the proposal is ready and wait for confirmation.
- compose_restart, docker_logs, docker_ps, network_diagnose, and
  service_config_read may be called freely — no approval needed, these
  are read-only or safely reversible.
 
## Notes learned over time
 
(Hermes appends dated entries here via update_instructions; manual
edits are equally valid — no special marker needed to distinguish them.)
";

/// The file that the instructions are to be started with, given whether there is
/// one.
pub open spec fn initial_instructions(present: bool) -> Option<ActionView> {
    if present {
        None
    } else {
        Some(
            ActionView::WriteFile {
                path: INSTRUCTIONS_PATH@,
                content: DEFAULT_INSTRUCTIONS_TEMPLATE@,
            },
        )
    }
}

/// The view of an optional action.
pub open spec fn action_of(a: Option<ToolAction>) -> Option<ActionView> {
    match a {
        Some(a) => Some(a@),
        None => None,
    }
}

/// What is to be written so that there are instructions, given whether there are
/// any: those that exist stay as they are.
pub fn ensure_instructions_file_exists(present: bool) -> (r: Option<ToolAction>)
    ensures
        action_of(r) == initial_instructions(present),
{
    if present {
        None
    } else {
        Some(
            ToolAction::WriteFile {
                path: INSTRUCTIONS_PATH.to_owned(),
                content: DEFAULT_INSTRUCTIONS_TEMPLATE.to_owned(),
            },
        )
    }
}

// The parts of a call.

impl HostView {
    /// The directory that the compose tools work on.
    pub open spec fn stack(self) -> Seq<char> {
        match self.compose_dir {
            Some(d) => d,
            None => COMPOSE_DIR@,
        }
    }

    /// The compose file: `compose.yaml`, or `compose.yml` where the directory has
    /// only that one.
    pub open spec fn compose_file(self) -> Seq<char> {
        if self.has_compose_yml && !self.has_compose_yaml {
            self.stack() + "/compose.yml"@
        } else {
            self.stack() + "/compose.yaml"@
        }
    }

    /// The `.env` file beside the compose file.
    pub open spec fn env_file(self) -> Seq<char> {
        self.stack() + "/.env"@
    }
}

impl Host {
    /// The directory that the compose tools work on.
    pub fn stack(&self) -> (r: &str)
        ensures
            r@ == self@.stack(),
    {
        match &self.compose_dir {
            Some(d) => d.as_str(),
            None => COMPOSE_DIR,
        }
    }

    /// The compose file: `compose.yaml`, or `compose.yml` where the directory has
    /// only that one.
    pub fn compose_file(&self) -> (r: String)
        ensures
            r@ == self@.compose_file(),
    {
        if self.has_compose_yml && !self.has_compose_yaml {
            self.stack().to_owned().concat("/compose.yml")
        } else {
            self.stack().to_owned().concat("/compose.yaml")
        }
    }

    /// The `.env` file beside the compose file.
    pub fn env_file(&self) -> (r: String)
        ensures
            r@ == self@.env_file(),
    {
        self.stack().to_owned().concat("/.env")
    }
}

/// The refusal of a call that lacks an argument.
pub open spec fn missing_argument(key: Seq<char>) -> Seq<char> {
    "missing `"@ + key + "` argument"@
}

/// An argument that has to be there, as a string: its text, or why the call is
/// refused.
pub open spec fn text_argument(args: JsonView, key: Seq<char>) -> Result<Seq<char>, Seq<char>> {
    match args.str_at(key) {
        Some(s) => Ok(s),
        None => Err(missing_argument(key)),
    }
}

/// An argument that names a service, a container or a host: the name, or why the
/// call is refused.
pub open spec fn name_argument(args: JsonView, key: Seq<char>) -> Result<Seq<char>, Seq<char>> {
    match text_argument(args, key) {
        Ok(s) => if name_ok(s) {
            Ok(s)
        } else {
            Err("invalid `"@ + key + "` name"@)
        },
        Err(e) => Err(e),
    }
}

/// A numeric argument with a default and an upper bound.
pub open spec fn capped_argument(
    args: JsonView,
    key: Seq<char>,
    default: u64,
    cap: u64,
) -> nat {
    let n = match args.u64_at(key) {
        Some(n) => n,
        None => default,
    };
    if n <= cap {
        n as nat
    } else {
        cap as nat
    }
}

/// Whether a result is what a spec function says, its text or the refusal.
pub open spec fn agrees(r: Result<&str, ToolResult>, expected: Result<Seq<char>, Seq<char>>) -> bool {
    match (r, expected) {
        (Ok(s), Ok(t)) => s@ == t,
        (Err(e), Err(t)) => e@ == failed(t),
        _ => false,
    }
}

fn get_text<'a>(args: &'a Json, key: &str) -> (r: Result<&'a str, ToolResult>)
    ensures
        agrees(r, text_argument(args@, key@)),
{
    match args.str_at(key) {
        Some(s) => Ok(s),
        None => {
            let message: String = "missing `".to_owned().concat(key).concat("` argument");
            Err(refuse(message.as_str()))
        },
    }
}

fn get_name<'a>(args: &'a Json, key: &str) -> (r: Result<&'a str, ToolResult>)
    ensures
        agrees(r, name_argument(args@, key@)),
{
    match get_text(args, key) {
        Ok(s) => if valid_name(s) {
            Ok(s)
        } else {
            let message: String = "invalid `".to_owned().concat(key).concat("` name");
            Err(refuse(message.as_str()))
        },
        Err(e) => Err(e),
    }
}

fn get_capped(args: &Json, key: &str, default: u64, cap: u64) -> (r: String)
    ensures
        r@ == decimal(capped_argument(args@, key@, default, cap)),
{
    let n: u64 = match args.u64_at(key) {
        Some(n) => n,
        None => default,
    };
    if n <= cap {
        decimal_text(n)
    } else {
        decimal_text(cap)
    }
}

/// The step that runs a command and answers with its output.
pub open spec fn printed(c: CommandView) -> StepView {
    StepView::Await(TaskView::Printing { program: c.program }, ActionView::Run(c))
}

/// The step that refuses the call.
pub open spec fn refused(message: Seq<char>) -> StepView {
    StepView::Done(failed(message))
}

fn print(c: Command) -> (r: ToolStep)
    ensures
        r@ == printed(c@),
{
    ToolStep::Await(ToolTask::Printing { program: c.program.clone() }, ToolAction::Run(c))
}

fn refuse_call(message: &str) -> (r: ToolStep)
    ensures
        r@ == refused(message@),
{
    ToolStep::Done(refuse(message))
}

// The tools that run a single command.

/// The command that updates a service with anvil and waits for `wait` seconds.
pub open spec fn anvil_update(service: Seq<char>, wait: nat) -> CommandView {
    plain_command(
        "anvil"@,
        seq!["docker"@, "update"@, "--in-order"@, service + ":"@ + decimal(wait)],
    )
}

/// What `anvil_docker_update` starts with.
pub open spec fn start_anvil_update(args: JsonView) -> StepView {
    match name_argument(args, "service"@) {
        Ok(service) => printed(
            anvil_update(service, capped_argument(args, "wait_seconds"@, 15, 300)),
        ),
        Err(e) => refused(e),
    }
}

fn do_anvil_update(args: &Json) -> (r: ToolStep)
    ensures
        r@ == start_anvil_update(args@),
{
    match get_name(args, "service") {
        Ok(service) => {
            let wait: String = get_capped(args, "wait_seconds", 15, 300);
            let arg: String = service.to_owned().concat(":").concat(wait.as_str());
            let list: Vec<String> = owned_list(&vec!["docker", "update", "--in-order", arg.as_str()]);
            let ghost expected = anvil_update(
                service@,
                capped_argument(args@, "wait_seconds"@, 15, 300),
            );
            proof {
                assert(texts(list@) =~= expected.args);
            }
            print(command("anvil", list))
        },
        Err(e) => ToolStep::Done(e),
    }
}

/// The command that restarts a service of the compose file.
pub open spec fn compose_restart(file: Seq<char>, service: Seq<char>) -> CommandView {
    plain_command("docker"@, seq!["compose"@, "-f"@, file, "restart"@, service])
}

/// What `compose_restart` starts with.
pub open spec fn start_compose_restart(host: HostView, args: JsonView) -> StepView {
    match name_argument(args, "service"@) {
        Ok(service) => printed(compose_restart(host.compose_file(), service)),
        Err(e) => refused(e),
    }
}

fn do_compose_restart(host: &Host, args: &Json) -> (r: ToolStep)
    ensures
        r@ == start_compose_restart(host@, args@),
{
    match get_name(args, "service") {
        Ok(service) => {
            let file: String = host.compose_file();
            let c: Command = docker(&vec!["compose", "-f", file.as_str(), "restart", service]);
            proof {
                assert(c@.args =~= compose_restart(file@, service@).args);
            }
            print(c)
        },
        Err(e) => ToolStep::Done(e),
    }
}

/// The command that prints the last `tail` lines of a container's logs.
pub open spec fn docker_logs(container: Seq<char>, tail: nat) -> CommandView {
    plain_command("docker"@, seq!["logs"@, "--tail"@, decimal(tail), container])
}

/// What `docker_logs` starts with.
pub open spec fn start_docker_logs(args: JsonView) -> StepView {
    match name_argument(args, "container"@) {
        Ok(container) => printed(
            docker_logs(container, capped_argument(args, "tail"@, 100, 2000)),
        ),
        Err(e) => refused(e),
    }
}

fn do_docker_logs(args: &Json) -> (r: ToolStep)
    ensures
        r@ == start_docker_logs(args@),
{
    match get_name(args, "container") {
        Ok(container) => {
            let tail: String = get_capped(args, "tail", 100, 2000);
            let c: Command = docker(&vec!["logs", "--tail", tail.as_str(), container]);
            let ghost expected = docker_logs(
                container@,
                capped_argument(args@, "tail"@, 100, 2000),
            );
            proof {
                assert(c@.args =~= expected.args);
            }
            print(c)
        },
        Err(e) => ToolStep::Done(e),
    }
}

/// The command that lists the running containers with their states.
pub open spec fn docker_ps() -> CommandView {
    plain_command("docker"@, seq!["ps"@, "--format"@, "{{.Names}}\t{{.Status}}"@])
}

fn do_docker_ps() -> (r: ToolStep)
    ensures
        r@ == printed(docker_ps()),
{
    let c: Command = docker(&vec!["ps", "--format", "{{.Names}}\t{{.Status}}"]);
    proof {
        assert(c@.args =~= docker_ps().args);
    }
    print(c)
}

/// The command that restarts a container.
pub open spec fn docker_restart(container: Seq<char>) -> CommandView {
    plain_command("docker"@, seq!["restart"@, container])
}

/// What `container_restart` starts with.
pub open spec fn start_container_restart(args: JsonView) -> StepView {
    match name_argument(args, "container"@) {
        Ok(container) => printed(docker_restart(container)),
        Err(e) => refused(e),
    }
}

fn do_container_restart(args: &Json) -> (r: ToolStep)
    ensures
        r@ == start_container_restart(args@),
{
    match get_name(args, "container") {
        Ok(container) => {
            let c: Command = docker(&vec!["restart", container]);
            proof {
                assert(c@.args =~= docker_restart(container@).args);
            }
            print(c)
        },
        Err(e) => ToolStep::Done(e),
    }
}

/// The command that prints the last `tail` lines of a compose service's logs.
pub open spec fn compose_logs(file: Seq<char>, service: Seq<char>, tail: nat) -> CommandView {
    plain_command(
        "docker"@,
        seq!["compose"@, "-f"@, file, "logs"@, "--tail"@, decimal(tail), service],
    )
}

/// What `compose_logs` starts with.
pub open spec fn start_compose_logs(host: HostView, args: JsonView) -> StepView {
    match name_argument(args, "service"@) {
        Ok(service) => printed(
            compose_logs(
                host.compose_file(),
                service,
                capped_argument(args, "tail"@, 100, 2000),
            ),
        ),
        Err(e) => refused(e),
    }
}

fn do_compose_logs(host: &Host, args: &Json) -> (r: ToolStep)
    ensures
        r@ == start_compose_logs(host@, args@),
{
    match get_name(args, "service") {
        Ok(service) => {
            let file: String = host.compose_file();
            let tail: String = get_capped(args, "tail", 100, 2000);
            let c: Command = docker(
                &vec!["compose", "-f", file.as_str(), "logs", "--tail", tail.as_str(), service],
            );
            let ghost expected = compose_logs(
                file@,
                service@,
                capped_argument(args@, "tail"@, 100, 2000),
            );
            proof {
                assert(c@.args =~= expected.args);
            }
            print(c)
        },
        Err(e) => ToolStep::Done(e),
    }
}

/// The command that stops, removes and recreates a compose service.
pub open spec fn compose_recreate(file: Seq<char>, service: Seq<char>) -> CommandView {
    plain_command(
        "docker"@,
        seq!["compose"@, "-f"@, file, "up"@, "-d"@, "--force-recreate"@, service],
    )
}

/// What `compose_up_force_recreate` starts with.
pub open spec fn start_compose_recreate(host: HostView, args: JsonView) -> StepView {
    match name_argument(args, "service"@) {
        Ok(service) => printed(compose_recreate(host.compose_file(), service)),
        Err(e) => refused(e),
    }
}

fn do_compose_recreate(host: &Host, args: &Json) -> (r: ToolStep)
    ensures
        r@ == start_compose_recreate(host@, args@),
{
    match get_name(args, "service") {
        Ok(service) => {
            let file: String = host.compose_file();
            let c: Command = docker(
                &vec!["compose", "-f", file.as_str(), "up", "-d", "--force-recreate", service],
            );
            proof {
                assert(c@.args =~= compose_recreate(file@, service@).args);
            }
            print(c)
        },
        Err(e) => ToolStep::Done(e),
    }
}

// The tools that go on after their first action.

/// The command that looks up a host name.
pub open spec fn getent_hosts(target: Seq<char>) -> CommandView {
    plain_command("getent"@, seq!["hosts"@, target])
}

/// What `network_diagnose` starts with.
pub open spec fn start_network_diagnose(args: JsonView) -> StepView {
    match name_argument(args, "target"@) {
        Ok(target) => StepView::Await(
            TaskView::Resolving { target },
            ActionView::Run(getent_hosts(target)),
        ),
        Err(e) => refused(e),
    }
}

fn do_network_diagnose(args: &Json) -> (r: ToolStep)
    ensures
        r@ == start_network_diagnose(args@),
{
    match get_name(args, "target") {
        Ok(target) => {
            let list: Vec<String> = owned_list(&vec!["hosts", target]);
            proof {
                assert(texts(list@) =~= getent_hosts(target@).args);
            }
            ToolStep::Await(
                ToolTask::Resolving { target: target.to_owned() },
                ToolAction::Run(command("getent", list)),
            )
        },
        Err(e) => ToolStep::Done(e),
    }
}

/// The command that prints a file of a container.
pub open spec fn read_in_container(container: Seq<char>, path: Seq<char>) -> CommandView {
    plain_command("docker"@, seq!["exec"@, container, "cat"@, path])
}

fn cat(container: &str, path: &str) -> (r: Command)
    ensures
        r@ == read_in_container(container@, path@),
{
    let c: Command = docker(&vec!["exec", container, "cat", path]);
    proof {
        assert(c@.args =~= read_in_container(container@, path@).args);
    }
    c
}

/// What `service_config_read` starts with.
pub open spec fn start_config_read(state: StateView, args: JsonView) -> StepView {
    match text_argument(args, "role"@) {
        Ok(role) => match service_for(state.memory.services, role) {
            None => refused(
                "no discovered service for role `"@ + role
                    + "` on this host — call discover_environment first, or check this host's discovery.toml"@,
            ),
            Some(service) => match service.config_path {
                None => refused(
                    "role `"@ + role
                        + "` was discovered but no config path was found among its candidates"@,
                ),
                Some(path) => printed(read_in_container(service.container_name, path)),
            },
        },
        Err(e) => refused(e),
    }
}

fn do_config_read(state: &AppState, args: &Json) -> (r: ToolStep)
    ensures
        r@ == start_config_read(state@, args@),
{
    match get_text(args, "role") {
        Ok(role) => match find_service(&state.memory, role) {
            None => {
                let message: String = "no discovered service for role `".to_owned().concat(
                    role,
                ).concat(
                    "` on this host — call discover_environment first, or check this host's discovery.toml",
                );
                refuse_call(message.as_str())
            },
            Some(service) => match &service.config_path {
                None => {
                    let message: String = "role `".to_owned().concat(role).concat(
                        "` was discovered but no config path was found among its candidates",
                    );
                    refuse_call(message.as_str())
                },
                Some(path) => print(cat(service.container_name.as_str(), path.as_str())),
            },
        },
        Err(e) => ToolStep::Done(e),
    }
}

/// What `service_config_propose` starts with.
pub open spec fn start_config_propose(state: StateView, args: JsonView) -> StepView {
    match (text_argument(args, "role"@), text_argument(args, "proposed_content"@)) {
        (Ok(role), Ok(proposed)) => match service_for(state.memory.services, role) {
            None => refused(
                "no discovered service for role `"@ + role
                    + "` on this host — call discover_environment first"@,
            ),
            Some(service) => match service.config_path {
                None => refused("role `"@ + role + "` has no known config path"@),
                Some(path) => StepView::Await(
                    TaskView::ReadingCurrent { role, proposed },
                    ActionView::Run(read_in_container(service.container_name, path)),
                ),
            },
        },
        (Err(e), _) => refused(e),
        (_, Err(e)) => refused(e),
    }
}

fn do_config_propose(state: &AppState, args: &Json) -> (r: ToolStep)
    ensures
        r@ == start_config_propose(state@, args@),
{
    let role: &str = match get_text(args, "role") {
        Ok(role) => role,
        Err(e) => {
            return ToolStep::Done(e);
        },
    };
    let proposed: &str = match get_text(args, "proposed_content") {
        Ok(proposed) => proposed,
        Err(e) => {
            return ToolStep::Done(e);
        },
    };
    match find_service(&state.memory, role) {
        None => {
            let message: String = "no discovered service for role `".to_owned().concat(role).concat(
                "` on this host — call discover_environment first",
            );
            refuse_call(message.as_str())
        },
        Some(service) => match &service.config_path {
            None => {
                let message: String = "role `".to_owned().concat(role).concat(
                    "` has no known config path",
                );
                refuse_call(message.as_str())
            },
            Some(path) => ToolStep::Await(
                ToolTask::ReadingCurrent { role: role.to_owned(), proposed: proposed.to_owned() },
                ToolAction::Run(cat(service.container_name.as_str(), path.as_str())),
            ),
        },
    }
}

/// Where a config file is staged before it is moved into place.
pub open spec fn staged_path(config_path: Seq<char>) -> Seq<char> {
    config_path + ".new"@
}

/// The command that writes its input to the staged config file.
pub open spec fn write_staged(target: TargetView, content: Seq<char>) -> CommandView {
    CommandView {
        program: "docker"@,
        args: seq!["exec"@, "-i"@, target.container, "tee"@, staged_path(target.config_path)],
        input: Some(content),
    }
}

/// What follows a proposal that was taken out to be applied.
pub open spec fn start_staging(state: StateView, proposal: ProposalView) -> StepView {
    match service_for(state.memory.services, proposal.role) {
        None => refused(
            "role `"@ + proposal.role
                + "` from this proposal is no longer known to this host (was memory cleared or the service removed?) — re-run discover_environment and start over"@,
        ),
        Some(service) => match service.config_path {
            None => refused("service has no known config path"@),
            Some(config_path) => {
                let target = TargetView {
                    container: service.container_name,
                    config_path,
                    reload_command: service.reload_command,
                };
                StepView::Await(
                    TaskView::WritingStaged(target),
                    ActionView::Run(write_staged(target, proposal.content)),
                )
            },
        },
    }
}

/// What `service_config_apply` starts with: the proposal is taken out at once.
pub open spec fn start_config_apply(state: StateView, args: JsonView) -> (StateView, StepView) {
    match text_argument(args, "proposal_id"@) {
        Ok(id) => {
            let after = StateView { pending: state.pending.remove(id), ..state };
            match state.proposal(id) {
                None => (
                    after,
                    refused(
                        "no pending proposal with that id — call service_config_propose first"@,
                    ),
                ),
                Some(proposal) => (after, start_staging(state, proposal)),
            }
        },
        Err(e) => (state, refused(e)),
    }
}

fn do_staging(state: &AppState, proposal: ServiceProposal) -> (r: ToolStep)
    ensures
        r@ == start_staging(state@, proposal@),
{
    match find_service(&state.memory, proposal.role.as_str()) {
        None => {
            let message: String = "role `".to_owned().concat(proposal.role.as_str()).concat(
                "` from this proposal is no longer known to this host (was memory cleared or the service removed?) — re-run discover_environment and start over",
            );
            refuse_call(message.as_str())
        },
        Some(service) => match &service.config_path {
            None => refuse_call("service has no known config path"),
            Some(config_path) => {
                let target = Target {
                    container: service.container_name.clone(),
                    config_path: config_path.clone(),
                    reload_command: copy_list(&service.reload_command),
                };
                let staged: String = config_path.as_str().to_owned().concat(".new");
                let args: Vec<String> = owned_list(
                    &vec!["exec", "-i", target.container.as_str(), "tee", staged.as_str()],
                );
                proof {
                    assert(texts(args@) =~= write_staged(target@, proposal.content@).args);
                }
                let c = Command {
                    program: "docker".to_owned(),
                    args,
                    input: Some(proposal.content),
                };
                ToolStep::Await(ToolTask::WritingStaged(target), ToolAction::Run(c))
            },
        },
    }
}

fn do_config_apply(state: &mut AppState, args: &Json) -> (r: ToolStep)
    ensures
        (final(state)@, r@) == start_config_apply(old(state)@, args@),
{
    match get_text(args, "proposal_id") {
        Ok(id) => match state.take_proposal(id) {
            None => refuse_call(
                "no pending proposal with that id — call service_config_propose first",
            ),
            Some(proposal) => do_staging(state, proposal),
        },
        Err(e) => ToolStep::Done(e),
    }
}

/// What is added to the instructions for a note.
pub open spec fn note_entry(now: Seq<char>, note: Seq<char>) -> Seq<char> {
    "\n- ["@ + now + "] "@ + note
}

/// What `update_instructions` starts with.
pub open spec fn start_update_instructions(args: JsonView, now: Seq<char>) -> StepView {
    match text_argument(args, "note"@) {
        Ok(note) => StepView::Await(
            TaskView::AppendingNote { note },
            ActionView::AppendFile { path: INSTRUCTIONS_PATH@, text: note_entry(now, note) },
        ),
        Err(e) => refused(e),
    }
}

fn do_update_instructions(args: &Json, now: &str) -> (r: ToolStep)
    ensures
        r@ == start_update_instructions(args@, now@),
{
    match get_text(args, "note") {
        Ok(note) => ToolStep::Await(
            ToolTask::AppendingNote { note: note.to_owned() },
            ToolAction::AppendFile {
                path: INSTRUCTIONS_PATH.to_owned(),
                text: "\n- [".to_owned().concat(now).concat("] ").concat(note),
            },
        ),
        Err(e) => ToolStep::Done(e),
    }
}

/// The command that prints all that is known of a container.
pub open spec fn docker_inspect(container: Seq<char>) -> CommandView {
    plain_command("docker"@, seq!["inspect"@, "--format"@, "{{json .}}"@, container])
}

/// What `container_recreate` starts with.
pub open spec fn start_container_recreate(args: JsonView) -> StepView {
    match name_argument(args, "container"@) {
        Ok(container) => StepView::Await(
            TaskView::Inspecting { container },
            ActionView::Run(docker_inspect(container)),
        ),
        Err(e) => refused(e),
    }
}

fn do_container_recreate(args: &Json) -> (r: ToolStep)
    ensures
        r@ == start_container_recreate(args@),
{
    match get_name(args, "container") {
        Ok(container) => {
            let c: Command = docker(&vec!["inspect", "--format", "{{json .}}", container]);
            proof {
                assert(c@.args =~= docker_inspect(container@).args);
            }
            ToolStep::Await(
                ToolTask::Inspecting { container: container.to_owned() },
                ToolAction::Run(c),
            )
        },
        Err(e) => ToolStep::Done(e),
    }
}

/// The command that prints the variables of a container.
pub open spec fn env_in_container(container: Seq<char>) -> CommandView {
    plain_command("docker"@, seq!["exec"@, container, "env"@])
}

/// What `env_get` starts with.
pub open spec fn start_env_get(args: JsonView) -> StepView {
    match name_argument(args, "container"@) {
        Ok(container) => StepView::Await(
            TaskView::ListingEnv {
                filter: match args.str_at("filter"@) {
                    Some(f) => f,
                    None => seq![],
                },
            },
            ActionView::Run(env_in_container(container)),
        ),
        Err(e) => refused(e),
    }
}

fn do_env_get(args: &Json) -> (r: ToolStep)
    ensures
        r@ == start_env_get(args@),
{
    match get_name(args, "container") {
        Ok(container) => {
            let filter: &str = match args.str_at("filter") {
                Some(f) => f,
                None => {
                    proof {
                        reveal_strlit("");
                        assert(""@ =~= seq![]);
                    }
                    ""
                },
            };
            let c: Command = docker(&vec!["exec", container, "env"]);
            proof {
                assert(c@.args =~= env_in_container(container@).args);
            }
            ToolStep::Await(
                ToolTask::ListingEnv { filter: filter.to_owned() },
                ToolAction::Run(c),
            )
        },
        Err(e) => ToolStep::Done(e),
    }
}

/// What `env_update` starts with.
pub open spec fn start_env_update(host: HostView, args: JsonView) -> StepView {
    match args.get("values"@) {
        Some(JsonView::Object(values)) => if values.len() == 0 {
            refused("`values` map is empty — nothing to update"@)
        } else {
            StepView::Await(
                TaskView::ReadingEnvFile { values, env_path: host.env_file() },
                ActionView::ReadFile { path: host.env_file() },
            )
        },
        _ => refused("missing `values` argument (must be a map)"@),
    }
}

fn copy_members(ms: &Vec<Member>) -> (r: Vec<Member>)
    ensures
        members_view(r@) == members_view(ms@),
{
    let mut out: Vec<Member> = Vec::new();
    let n: usize = ms.len();
    let mut i: usize = 0;
    while i < n
        invariant
            n == ms@.len(),
            i <= n,
            out@.len() == i,
            forall|k: int| 0 <= k < i ==> (#[trigger] out@[k])@ == ms@[k]@,
        decreases n - i,
    {
        out.push(Member { key: ms[i].key.clone(), value: ms[i].value.duplicate() });
        i = i + 1;
    }
    proof {
        assert(members_view(out@) =~= members_view(ms@));
    }
    out
}

fn do_env_update(host: &Host, args: &Json) -> (r: ToolStep)
    ensures
        r@ == start_env_update(host@, args@),
{
    match args.get("values") {
        Some(v) => {
            proof {
                lemma_object_view(*v);
            }
            match v {
                Json::Object(values) => if values.len() == 0 {
                    refuse_call("`values` map is empty — nothing to update")
                } else {
                    ToolStep::Await(
                        ToolTask::ReadingEnvFile {
                            values: copy_members(values),
                            env_path: host.env_file(),
                        },
                        ToolAction::ReadFile { path: host.env_file() },
                    )
                },
                _ => refuse_call("missing `values` argument (must be a map)"),
            }
        },
        None => refuse_call("missing `values` argument (must be a map)"),
    }
}

// All tools.

/// What a tool starts with, and what it does to the state at once.
pub open spec fn start_tool(
    host: HostView,
    state: StateView,
    tool: Tool,
    args: JsonView,
    now: Seq<char>,
) -> (StateView, StepView) {
    match tool {
        Tool::AnvilDockerUpdate => (state, start_anvil_update(args)),
        Tool::ComposeRestart => (state, start_compose_restart(host, args)),
        Tool::DockerLogs => (state, start_docker_logs(args)),
        Tool::DockerPs => (state, printed(docker_ps())),
        Tool::NetworkDiagnose => (state, start_network_diagnose(args)),
        Tool::DiscoverEnvironment => (
            state,
            StepView::Await(TaskView::LoadingManifest, ActionView::LoadManifest),
        ),
        Tool::ServiceConfigRead => (state, start_config_read(state, args)),
        Tool::ServiceConfigPropose => (state, start_config_propose(state, args)),
        Tool::ServiceConfigApply => start_config_apply(state, args),
        Tool::UpdateInstructions => (state, start_update_instructions(args, now)),
        Tool::ContainerRestart => (state, start_container_restart(args)),
        Tool::ContainerRecreate => (state, start_container_recreate(args)),
        Tool::EnvGet => (state, start_env_get(args)),
        Tool::EnvUpdate => (state, start_env_update(host, args)),
        Tool::ComposeLogs => (state, start_compose_logs(host, args)),
        Tool::ComposeUpForceRecreate => (state, start_compose_recreate(host, args)),
    }
}

/// The refusal of a tool that is not on the allowlist.
pub open spec fn unknown_tool(name: Seq<char>) -> Seq<char> {
    "unknown tool `"@ + name + "` — see agent card `skills` for the allowlist"@
}

/// The refusal of a tool whose binary the host does not have.
pub open spec fn binary_absent(tool: Tool) -> Seq<char> {
    "tool `"@ + tool.id() + "` requires `"@ + tool.binary()
        + "`, which is not installed on this host"@
}

/// What a call starts with, and what it does to the state at once.
pub open spec fn start_call(
    host: HostView,
    state: StateView,
    call: ToolCallView,
    now: Seq<char>,
) -> (StateView, StepView) {
    match tool_named(call.name) {
        None => (state, refused(unknown_tool(call.name))),
        Some(tool) => if !host.binaries.contains(tool.binary()) {
            (state, refused(binary_absent(tool)))
        } else {
            start_tool(host, state, tool, call.arguments, now)
        },
    }
}

fn do_tool(host: &Host, state: &mut AppState, tool: Tool, args: &Json, now: &str) -> (r: ToolStep)
    ensures
        (final(state)@, r@) == start_tool(host@, old(state)@, tool, args@, now@),
{
    match tool {
        Tool::AnvilDockerUpdate => do_anvil_update(args),
        Tool::ComposeRestart => do_compose_restart(host, args),
        Tool::DockerLogs => do_docker_logs(args),
        Tool::DockerPs => do_docker_ps(),
        Tool::NetworkDiagnose => do_network_diagnose(args),
        Tool::DiscoverEnvironment => ToolStep::Await(
            ToolTask::LoadingManifest,
            ToolAction::LoadManifest,
        ),
        Tool::ServiceConfigRead => do_config_read(state, args),
        Tool::ServiceConfigPropose => do_config_propose(state, args),
        Tool::ServiceConfigApply => do_config_apply(state, args),
        Tool::UpdateInstructions => do_update_instructions(args, now),
        Tool::ContainerRestart => do_container_restart(args),
        Tool::ContainerRecreate => do_container_recreate(args),
        Tool::EnvGet => do_env_get(args),
        Tool::EnvUpdate => do_env_update(host, args),
        Tool::ComposeLogs => do_compose_logs(host, args),
        Tool::ComposeUpForceRecreate => do_compose_recreate(host, args),
    }
}

/// Starts a call of a tool at the given time.
pub fn execute_tool_at(host: &Host, state: &mut AppState, call: &ToolCall, now: &str) -> (r:
    ToolStep)
    ensures
        (final(state)@, r@) == start_call(host@, old(state)@, call@, now@),
{
    match tool_with_id(call.name.as_str()) {
        None => {
            let message: String = "unknown tool `".to_owned().concat(call.name.as_str()).concat(
                "` — see agent card `skills` for the allowlist",
            );
            refuse_call(message.as_str())
        },
        Some(tool) => {
            let def = tool.def();
            if !has_text(&host.binaries, def.requires_binary) {
                let message: String = "tool `".to_owned().concat(def.id).concat(
                    "` requires `",
                ).concat(def.requires_binary).concat("`, which is not installed on this host");
                refuse_call(message.as_str())
            } else {
                do_tool(host, state, tool, &call.arguments, now)
            }
        },
    }
}

/// Starts a call of a tool now.
pub fn execute_tool(host: &Host, state: &mut AppState, call: &ToolCall) -> (r: ToolStep)
    ensures
        exists|now: Seq<char>| #[trigger]
            utc_stamp(now) && (final(state)@, r@) == start_call(host@, old(state)@, call@, now),
{
    let now: String = now_rfc3339();
    proof {
        assert(utc_stamp(now@));
    }
    execute_tool_at(host, state, call, now.as_str())
}

} // verus!
