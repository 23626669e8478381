//! How a tool call goes on: what follows the event of each action.

use vstd::prelude::*;
use vstd::string::*;
use crate::command::{Command, CommandOutcome, CommandView, OutcomeView, ToolResult, ToolResultView,
    command, command_result, copy_list, docker, failed, owned_list, plain_command, refuse,
    run_command};
use crate::container::{InspectView, Recipe, RecipeView, docker_run_args, recreated_message,
    recreated_text, run_args};
use crate::discovery::{DiscoveredService, DiscoveryManifest, DiscoveryStep, DiscoveryStepView,
    ServiceView, first_step, load_manifest, roles_view, run_discovery_at, services_view};
use crate::dotenv::{EnvVar, all_changes, complete_env, env_completed, env_listing, env_of, env_view,
    filter_env, parse_env, update_env, updated_lines};
use crate::execute::{printed, refused, staged_path};
use crate::json::{JsonView, Member, members_view};
use crate::memory::{MemoryView, NoteView, add_note_at, replace_discovered, with_note};
use crate::outside::{debug_of, debug_text, from_utf8_lossy, lossy_text, new_uuid, now_rfc3339,
    random_uuid, utc_stamp};
use crate::state::{AppState, ProposalView, ServiceProposal, StateView};
use crate::task::{ActionView, EventView, Host, HostView, Recreation, RecreationView, StepView,
    Target, TargetView, TaskView, ToolAction, ToolEvent, ToolStep, ToolTask, declared_roles};
use crate::text::{decimal, decimal_text, join, joined, lines_of, replace, replaced, texts, trim,
    trimmed};

verus! {

// Network diagnosis.

/// The command that lists the containers of the bridge network.
pub open spec fn inspect_bridge() -> CommandView {
    plain_command(
        "docker"@,
        seq!["network"@, "inspect"@, "bridge"@, "--format"@, "{{json .Containers}}"@],
    )
}

/// What follows the lookup of a host name, whatever came of it.
pub open spec fn after_lookup(target: Seq<char>, outcome: OutcomeView) -> StepView {
    StepView::Await(
        TaskView::ListingBridge { target, dns: command_result("getent"@, outcome) },
        ActionView::Run(inspect_bridge()),
    )
}

/// The answer of a network diagnosis: it is good where the name was found or the
/// network could be listed.
pub open spec fn diagnosis(
    target: Seq<char>,
    dns: ToolResultView,
    net: ToolResultView,
) -> ToolResultView {
    ToolResultView {
        ok: dns.ok || net.ok,
        output: "--- getent hosts "@ + target + " ---\n"@ + dns.output
            + "\n--- docker network inspect (bridge) ---\n"@ + net.output,
    }
}

fn list_bridge(target: String, outcome: &CommandOutcome) -> (r: ToolStep)
    ensures
        r@ == after_lookup(target@, outcome@),
{
    let c: Command = docker(
        &vec!["network", "inspect", "bridge", "--format", "{{json .Containers}}"],
    );
    proof {
        assert(c@.args =~= inspect_bridge().args);
    }
    ToolStep::Await(
        ToolTask::ListingBridge { target, dns: run_command("getent", outcome) },
        ToolAction::Run(c),
    )
}

fn diagnose(target: &str, dns: ToolResult, outcome: &CommandOutcome) -> (r: ToolResult)
    ensures
        r@ == diagnosis(target@, dns@, command_result("docker"@, outcome@)),
{
    let net: ToolResult = run_command("docker", outcome);
    ToolResult {
        ok: dns.ok || net.ok,
        output: "--- getent hosts ".to_owned().concat(target).concat(" ---\n").concat(
            dns.output.as_str(),
        ).concat("\n--- docker network inspect (bridge) ---\n").concat(net.output.as_str()),
    }
}

// Discovery.

/// How a discovered service is reported.
pub open spec fn service_summary(service: ServiceView) -> Seq<char> {
    service.role + " -> container '"@ + service.container_name + "', config_path "@ + (
    match service.config_path {
        Some(path) => "Some("@ + debug_of(path) + ")"@,
        None => "None"@,
    })
}

/// How discovered services are reported.
pub open spec fn service_summaries(services: Seq<ServiceView>) -> Seq<Seq<char>> {
    Seq::new(services.len(), |i: int| service_summary(services[i]))
}

/// What follows a step of a run of discovery: the next command, or, at the end of
/// the run, the memory to be kept with what the run found.
pub open spec fn after_discovery(state: StateView, step: DiscoveryStepView) -> (
    StateView,
    StepView,
) {
    match step {
        DiscoveryStepView::Run(d, c) => (
            state,
            StepView::Await(TaskView::Discovering(d), ActionView::Run(c)),
        ),
        DiscoveryStepView::Done(found) => {
            let memory = MemoryView { services: found, ..state.memory };
            (
                StateView { memory, ..state },
                StepView::Await(
                    TaskView::SavingDiscovery {
                        count: found.len(),
                        summary: service_summaries(found),
                    },
                    ActionView::SaveMemory(memory),
                ),
            )
        },
    }
}

/// The answer of a run of discovery.
pub open spec fn discovery_answer(
    count: nat,
    summary: Seq<Seq<char>>,
    saved: Result<(), Seq<char>>,
) -> ToolResultView {
    match saved {
        Err(e) => failed(
            "discovery ran ("@ + decimal(count) + " services found) but failed to persist: "@ + e,
        ),
        Ok(_) => ToolResultView {
            ok: true,
            output: if count == 0 {
                "discovery ran — no services found (no discovery.toml mounted on this host, or none of its declared roles are currently running)"@
            } else {
                "discovery updated memory with "@ + decimal(count) + " service(s):\n"@ + joined(
                    summary,
                    "\n"@,
                )
            },
        },
    }
}

fn summarize(service: &DiscoveredService) -> (r: String)
    ensures
        r@ == service_summary(service@),
{
    let path: String = match &service.config_path {
        Some(path) => "Some(".to_owned().concat(debug_text(path.as_str()).as_str()).concat(")"),
        None => "None".to_owned(),
    };
    service.role.as_str().to_owned().concat(" -> container '").concat(
        service.container_name.as_str(),
    ).concat("', config_path ").concat(path.as_str())
}

fn summaries(services: &Vec<DiscoveredService>) -> (r: Vec<String>)
    ensures
        texts(r@) == service_summaries(services_view(services@)),
{
    let mut out: Vec<String> = Vec::new();
    let n: usize = services.len();
    let mut i: usize = 0;
    while i < n
        invariant
            n == services@.len(),
            i <= n,
            out@.len() == i,
            forall|k: int| 0 <= k < i ==> (#[trigger] out@[k])@ == service_summary(
                services@[k]@,
            ),
        decreases n - i,
    {
        out.push(summarize(&services[i]));
        i = i + 1;
    }
    proof {
        assert(texts(out@) =~= service_summaries(services_view(services@)));
    }
    out
}

fn follow_discovery(state: &mut AppState, step: DiscoveryStep) -> (r: ToolStep)
    ensures
        (final(state)@, r@) == after_discovery(old(state)@, step@),
{
    match step {
        DiscoveryStep::Run(d, c) => ToolStep::Await(ToolTask::Discovering(d), ToolAction::Run(c)),
        DiscoveryStep::Done(found) => {
            let count: usize = found.len();
            let summary: Vec<String> = summaries(&found);
            replace_discovered(&mut state.memory, found);
            ToolStep::Await(
                ToolTask::SavingDiscovery { count, summary },
                ToolAction::SaveMemory(state.memory.duplicate()),
            )
        },
    }
}

fn report_discovery(count: usize, summary: &Vec<String>, saved: &Result<(), String>) -> (r:
    ToolResult)
    ensures
        r@ == discovery_answer(
            count as nat,
            texts(summary@),
            match *saved {
                Ok(_) => Ok(()),
                Err(e) => Err(e@),
            },
        ),
{
    match saved {
        Err(e) => {
            let message: String = "discovery ran (".to_owned().concat(
                decimal_text(count as u64).as_str(),
            ).concat(" services found) but failed to persist: ").concat(e.as_str());
            refuse(message.as_str())
        },
        Ok(_) => {
            let output: String = if count == 0 {
                "discovery ran — no services found (no discovery.toml mounted on this host, or none of its declared roles are currently running)".to_owned()
            } else {
                "discovery updated memory with ".to_owned().concat(
                    decimal_text(count as u64).as_str(),
                ).concat(" service(s):\n").concat(join(summary, "\n").as_str())
            };
            ToolResult { ok: true, output }
        },
    }
}

fn start_discovery(state: &mut AppState, manifest: DiscoveryManifest, now: String) -> (r: ToolStep)
    ensures
        (final(state)@, r@) == after_discovery(
            old(state)@,
            first_step(roles_view(manifest.services@), now@),
        ),
{
    let step: DiscoveryStep = run_discovery_at(manifest, now);
    follow_discovery(state, step)
}

// Proposals.

/// What a new proposal is answered with: both files side by side.
pub open spec fn proposal_text(
    id: Seq<char>,
    role: Seq<char>,
    current: Seq<char>,
    proposed: Seq<char>,
) -> Seq<char> {
    "proposal_id: "@ + id + "\nrole: "@ + role + "\n\n--- CURRENT ---\n"@ + current
        + "\n\n--- PROPOSED ---\n"@ + proposed
        + "\n\nReview both, get Gabriel's explicit go-ahead per /data/instructions.md approval policy, then call service_config_apply with this proposal_id."@
}

/// What follows the current config file: the proposal waits under the id.
pub open spec fn after_current(
    state: StateView,
    role: Seq<char>,
    proposed: Seq<char>,
    current: ToolResultView,
    id: Seq<char>,
) -> (StateView, StepView) {
    if !current.ok {
        (
            state,
            refused("could not read current config to compare against: "@ + current.output),
        )
    } else {
        (
            StateView {
                pending: state.pending.insert(id, ProposalView { role, content: proposed }),
                ..state
            },
            StepView::Done(
                ToolResultView {
                    ok: true,
                    output: proposal_text(id, role, current.output, proposed),
                },
            ),
        )
    }
}

fn stage(
    state: &mut AppState,
    role: String,
    proposed: String,
    current: ToolResult,
    id: String,
) -> (r: ToolStep)
    ensures
        (final(state)@, r@) == after_current(old(state)@, role@, proposed@, current@, id@),
{
    if !current.ok {
        let message: String = "could not read current config to compare against: ".to_owned().concat(
            current.output.as_str(),
        );
        ToolStep::Done(refuse(message.as_str()))
    } else {
        let output: String = "proposal_id: ".to_owned().concat(id.as_str()).concat(
            "\nrole: ",
        ).concat(role.as_str()).concat("\n\n--- CURRENT ---\n").concat(
            current.output.as_str(),
        ).concat("\n\n--- PROPOSED ---\n").concat(proposed.as_str()).concat(
            "\n\nReview both, get Gabriel's explicit go-ahead per /data/instructions.md approval policy, then call service_config_apply with this proposal_id.",
        );
        state.stage_proposal(id, ServiceProposal { role, content: proposed });
        ToolStep::Done(ToolResult { ok: true, output })
    }
}

/// The command that moves the staged config file into place.
pub open spec fn move_staged(target: TargetView) -> CommandView {
    plain_command(
        "docker"@,
        seq![
            "exec"@,
            target.container,
            "mv"@,
            staged_path(target.config_path),
            target.config_path,
        ],
    )
}

/// What follows the staged write.
pub open spec fn after_staged_write(target: TargetView, outcome: OutcomeView) -> StepView {
    match outcome {
        OutcomeView::Exited { success, stderr, .. } => if success {
            StepView::Await(TaskView::MovingStaged(target), ActionView::Run(move_staged(target)))
        } else {
            refused("staged write failed: "@ + lossy_text(stderr))
        },
        OutcomeView::NotStarted { error } => refused("failed to write staged config: "@ + error),
        OutcomeView::Lost { error } => refused("staged write failed: "@ + error),
    }
}

fn follow_staged_write(target: Target, outcome: &CommandOutcome) -> (r: ToolStep)
    ensures
        r@ == after_staged_write(target@, outcome@),
{
    match outcome {
        CommandOutcome::Exited { success, stdout: _, stderr } => if *success {
            let staged: String = target.config_path.as_str().to_owned().concat(".new");
            let c: Command = docker(
                &vec![
                    "exec",
                    target.container.as_str(),
                    "mv",
                    staged.as_str(),
                    target.config_path.as_str(),
                ],
            );
            proof {
                assert(c@.args =~= move_staged(target@).args);
            }
            ToolStep::Await(ToolTask::MovingStaged(target), ToolAction::Run(c))
        } else {
            let message: String = "staged write failed: ".to_owned().concat(
                from_utf8_lossy(stderr.as_slice()).as_str(),
            );
            ToolStep::Done(refuse(message.as_str()))
        },
        CommandOutcome::NotStarted { error } => {
            let message: String = "failed to write staged config: ".to_owned().concat(
                error.as_str(),
            );
            ToolStep::Done(refuse(message.as_str()))
        },
        CommandOutcome::Lost { error } => {
            let message: String = "staged write failed: ".to_owned().concat(error.as_str());
            ToolStep::Done(refuse(message.as_str()))
        },
    }
}

/// A reload command with the path of the config file in place of the words
/// `{config_path}`.
pub open spec fn with_path(list: Seq<Seq<char>>, path: Seq<char>) -> Seq<Seq<char>> {
    Seq::new(list.len(), |i: int| replaced(list[i], "{config_path}"@, path))
}

/// The reload command of a role, inside its container.
pub open spec fn reload(target: TargetView) -> CommandView {
    plain_command(
        "docker"@,
        seq!["exec"@, target.container] + with_path(target.reload_command, target.config_path),
    )
}

/// What follows the move of the staged config file into place.
pub open spec fn after_move(target: TargetView, moved: ToolResultView) -> StepView {
    if !moved.ok {
        refused("failed to move staged config into place: "@ + moved.output)
    } else if target.reload_command.len() == 0 {
        StepView::Done(
            ToolResultView {
                ok: true,
                output: "config written and moved into place. No reload_command configured for this role — the service may need a manual restart (see compose_restart)."@,
            },
        )
    } else {
        StepView::Await(TaskView::Reloading, ActionView::Run(reload(target)))
    }
}

/// The answer on a config file that was applied and a service that was told.
pub open spec fn reloaded(result: ToolResultView) -> ToolResultView {
    ToolResultView {
        ok: result.ok,
        output: "config written and moved into place.\nreload output: "@ + result.output,
    }
}

fn reload_command(target: &Target) -> (r: Command)
    ensures
        r@ == reload(target@),
{
    let mut args: Vec<String> = owned_list(&vec!["exec", target.container.as_str()]);
    let n: usize = target.reload_command.len();
    let mut i: usize = 0;
    let ghost start = seq!["exec"@, target.container@];
    let ghost rest = with_path(target@.reload_command, target@.config_path);
    proof {
        assert(texts(args@) =~= start);
        assert(start + rest.take(0) =~= start);
    }
    while i < n
        invariant
            n == target.reload_command@.len(),
            rest == with_path(target@.reload_command, target@.config_path),
            i <= n,
            texts(args@) == start + rest.take(i as int),
        decreases n - i,
    {
        let ghost before = texts(args@);
        proof {
            reveal_strlit("{config_path}");
        }
        let arg: String = replace(
            target.reload_command[i].as_str(),
            "{config_path}",
            target.config_path.as_str(),
        );
        args.push(arg);
        proof {
            assert(texts(args@) =~= before.push(arg@));
            assert(rest[i as int] == arg@);
            assert(start + rest.take(i + 1) =~= before.push(arg@));
        }
        i = i + 1;
    }
    proof {
        assert(rest.take(n as int) =~= rest);
    }
    command("docker", args)
}

fn follow_move(target: Target, moved: ToolResult) -> (r: ToolStep)
    ensures
        r@ == after_move(target@, moved@),
{
    if !moved.ok {
        let message: String = "failed to move staged config into place: ".to_owned().concat(
            moved.output.as_str(),
        );
        ToolStep::Done(refuse(message.as_str()))
    } else if target.reload_command.len() == 0 {
        ToolStep::Done(
            ToolResult {
                ok: true,
                output: "config written and moved into place. No reload_command configured for this role — the service may need a manual restart (see compose_restart).".to_owned(),
            },
        )
    } else {
        ToolStep::Await(ToolTask::Reloading, ToolAction::Run(reload_command(&target)))
    }
}

// Notes.

/// What follows a note's way to the instructions: it is remembered whether or not
/// it got there.
pub open spec fn after_append(
    state: StateView,
    note: Seq<char>,
    appended: bool,
    now: Seq<char>,
) -> (StateView, StepView) {
    let memory = with_note(state.memory, NoteView { note, source: "hermes"@, added: now });
    (
        StateView { memory, ..state },
        StepView::Await(TaskView::SavingNote { appended }, ActionView::SaveMemory(memory)),
    )
}

/// How it is told whether something worked.
pub open spec fn ok_text(ok: bool) -> Seq<char> {
    if ok {
        "ok"@
    } else {
        "failed"@
    }
}

/// The answer on a note.
pub open spec fn note_answer(appended: bool, saved: bool) -> ToolResultView {
    ToolResultView {
        ok: appended && saved,
        output: "instructions.md append: "@ + ok_text(appended) + ", memory.json save: "@ + ok_text(
            saved,
        ),
    }
}

fn follow_append(state: &mut AppState, note: String, appended: bool, now: String) -> (r: ToolStep)
    ensures
        (final(state)@, r@) == after_append(old(state)@, note@, appended, now@),
{
    add_note_at(&mut state.memory, note, "hermes", now);
    ToolStep::Await(
        ToolTask::SavingNote { appended },
        ToolAction::SaveMemory(state.memory.duplicate()),
    )
}

fn ok_word(ok: bool) -> (r: &'static str)
    ensures
        r@ == ok_text(ok),
{
    if ok {
        "ok"
    } else {
        "failed"
    }
}

fn answer_note(appended: bool, saved: bool) -> (r: ToolResult)
    ensures
        r@ == note_answer(appended, saved),
{
    ToolResult {
        ok: appended && saved,
        output: "instructions.md append: ".to_owned().concat(ok_word(appended)).concat(
            ", memory.json save: ",
        ).concat(ok_word(saved)),
    }
}

// Making a container anew.

/// What follows the inspection of a container.
pub open spec fn after_inspect(container: Seq<char>, inspect: ToolResultView) -> StepView {
    if !inspect.ok {
        refused("failed to inspect container: "@ + inspect.output)
    } else {
        StepView::Await(
            TaskView::DecodingInspect { container, printed: inspect.output },
            ActionView::DecodeInspect { printed: inspect.output },
        )
    }
}

/// The refusal on an inspection that cannot be read.
pub open spec fn unreadable(error: Seq<char>, printed: Seq<char>) -> StepView {
    refused("failed to parse docker inspect JSON: "@ + error + " — output was: "@ + printed)
}

/// The command that stops a container.
pub open spec fn docker_stop(container: Seq<char>) -> CommandView {
    plain_command("docker"@, seq!["stop"@, container])
}

/// The command that removes a container.
pub open spec fn docker_rm(container: Seq<char>) -> CommandView {
    plain_command("docker"@, seq!["rm"@, container])
}

/// What follows an inspection once it was read.
pub open spec fn after_decode(
    container: Seq<char>,
    printed: Seq<char>,
    decoded: Result<InspectView, Seq<char>>,
) -> StepView {
    match decoded {
        Err(e) => unreadable(e, printed),
        Ok(inspect) => match inspect.recipe() {
            Err(e) => unreadable(e, printed),
            Ok(recipe) => StepView::Await(
                TaskView::Stopping { container, recipe },
                ActionView::Run(docker_stop(container)),
            ),
        },
    }
}

/// What follows the stop of a container.
pub open spec fn after_stop(
    container: Seq<char>,
    recipe: RecipeView,
    stopped: ToolResultView,
) -> StepView {
    if !stopped.ok {
        refused("stop failed: "@ + stopped.output)
    } else {
        StepView::Await(
            TaskView::Removing { container, recipe },
            ActionView::Run(docker_rm(container)),
        )
    }
}

/// What follows the removal of a container.
pub open spec fn after_rm(
    host: HostView,
    container: Seq<char>,
    recipe: RecipeView,
    removed: ToolResultView,
) -> StepView {
    if !removed.ok {
        refused("rm failed (container may still be present): "@ + removed.output)
    } else {
        StepView::Await(
            TaskView::ReadingEnv { container, recipe, env_path: host.env_file() },
            ActionView::ReadFile { path: host.env_file() },
        )
    }
}

/// The variables of a `.env` file; without the file there are none.
pub open spec fn env_in_file(read: Result<Seq<char>, Seq<char>>) -> Seq<(Seq<char>, Seq<char>)> {
    match read {
        Ok(content) => env_of(lines_of(content)),
        Err(_) => seq![],
    }
}

/// The `docker run` that makes a container anew, with the variables of the `.env`
/// file and those that only the container had.
pub open spec fn recreation(
    container: Seq<char>,
    recipe: RecipeView,
    env_path: Seq<char>,
    read: Result<Seq<char>, Seq<char>>,
) -> RecreationView {
    let env = env_in_file(read);
    RecreationView {
        image: recipe.image,
        env_path,
        from_file: env.len(),
        kept: (env_completed(env, recipe.env).len() - env.len()) as nat,
        args: run_args(
            container,
            recipe.host_config,
            env_completed(env, recipe.env),
            recipe.image,
        ),
    }
}

/// What follows the `.env` file for a container that is made anew.
pub open spec fn after_env(
    container: Seq<char>,
    recipe: RecipeView,
    env_path: Seq<char>,
    read: Result<Seq<char>, Seq<char>>,
) -> StepView {
    let r = recreation(container, recipe, env_path, read);
    StepView::Await(
        TaskView::Recreating(r),
        ActionView::Run(plain_command("docker"@, r.args)),
    )
}

/// The answer on a container that was made anew.
pub open spec fn recreation_answer(r: RecreationView, outcome: OutcomeView) -> ToolResultView {
    match outcome {
        OutcomeView::Exited { success, stdout, stderr } => if success {
            ToolResultView {
                ok: true,
                output: recreated_text(
                    r.image,
                    r.env_path,
                    r.from_file,
                    r.kept,
                    r.args,
                    trimmed(lossy_text(stdout)),
                ),
            }
        } else {
            failed(
                "container stopped and removed but failed to re-create:\n"@ + lossy_text(stderr)
                    + "\nContainer is now gone — you need to manually run:\ndocker "@ + joined(
                    r.args,
                    " "@,
                ) + "\nError: "@ + lossy_text(stdout),
            )
        },
        OutcomeView::NotStarted { error } => not_recreated(error),
        OutcomeView::Lost { error } => not_recreated(error),
    }
}

/// The answer on a container that could not be made anew.
pub open spec fn not_recreated(error: Seq<char>) -> ToolResultView {
    failed(
        "container stopped and removed but failed to spawn docker run: "@ + error
            + "\nYou need to manually re-create the container."@,
    )
}

fn follow_inspect(container: String, inspect: ToolResult) -> (r: ToolStep)
    ensures
        r@ == after_inspect(container@, inspect@),
{
    if !inspect.ok {
        let message: String = "failed to inspect container: ".to_owned().concat(
            inspect.output.as_str(),
        );
        ToolStep::Done(refuse(message.as_str()))
    } else {
        ToolStep::Await(
            ToolTask::DecodingInspect { container, printed: inspect.output.clone() },
            ToolAction::DecodeInspect { printed: inspect.output },
        )
    }
}

fn refuse_unreadable(error: &str, printed: &str) -> (r: ToolStep)
    ensures
        r@ == unreadable(error@, printed@),
{
    let message: String = "failed to parse docker inspect JSON: ".to_owned().concat(error).concat(
        " — output was: ",
    ).concat(printed);
    ToolStep::Done(refuse(message.as_str()))
}

fn stop(container: String, recipe: Recipe) -> (r: ToolStep)
    ensures
        r@ == StepView::Await(
            TaskView::Stopping { container: container@, recipe: recipe@ },
            ActionView::Run(docker_stop(container@)),
        ),
{
    let c: Command = docker(&vec!["stop", container.as_str()]);
    proof {
        assert(c@.args =~= docker_stop(container@).args);
    }
    ToolStep::Await(ToolTask::Stopping { container, recipe }, ToolAction::Run(c))
}

fn follow_stop(container: String, recipe: Recipe, stopped: ToolResult) -> (r: ToolStep)
    ensures
        r@ == after_stop(container@, recipe@, stopped@),
{
    if !stopped.ok {
        let message: String = "stop failed: ".to_owned().concat(stopped.output.as_str());
        ToolStep::Done(refuse(message.as_str()))
    } else {
        let c: Command = docker(&vec!["rm", container.as_str()]);
        proof {
            assert(c@.args =~= docker_rm(container@).args);
        }
        ToolStep::Await(ToolTask::Removing { container, recipe }, ToolAction::Run(c))
    }
}

fn follow_rm(host: &Host, container: String, recipe: Recipe, removed: ToolResult) -> (r: ToolStep)
    ensures
        r@ == after_rm(host@, container@, recipe@, removed@),
{
    if !removed.ok {
        let message: String = "rm failed (container may still be present): ".to_owned().concat(
            removed.output.as_str(),
        );
        ToolStep::Done(refuse(message.as_str()))
    } else {
        ToolStep::Await(
            ToolTask::ReadingEnv { container, recipe, env_path: host.env_file() },
            ToolAction::ReadFile { path: host.env_file() },
        )
    }
}

/// The view of what came of reading a file.
pub open spec fn read_view(read: Result<String, String>) -> Result<Seq<char>, Seq<char>> {
    match read {
        Ok(s) => Ok(s@),
        Err(e) => Err(e@),
    }
}

fn follow_env(container: String, recipe: Recipe, env_path: String, read: Result<String, String>) -> (r:
    ToolStep)
    ensures
        r@ == after_env(container@, recipe@, env_path@, read_view(read)),
{
    let base: Vec<EnvVar> = match &read {
        Ok(content) => parse_env(content.as_str()),
        Err(_) => Vec::new(),
    };
    proof {
        assert(env_view(base@) =~= env_in_file(read_view(read)));
    }
    let from_file: usize = base.len();
    let env: Vec<EnvVar> = complete_env(base, &recipe.env);
    let kept: usize = env.len() - from_file;
    let args: Vec<String> = docker_run_args(
        container.as_str(),
        &recipe.host_config,
        &env,
        recipe.image.as_str(),
    );
    let c: Command = command("docker", copy_list(&args));
    let r = Recreation { image: recipe.image, env_path, from_file, kept, args };
    ToolStep::Await(ToolTask::Recreating(r), ToolAction::Run(c))
}

fn refuse_recreation(error: &str) -> (r: ToolResult)
    ensures
        r@ == not_recreated(error@),
{
    let message: String =
        "container stopped and removed but failed to spawn docker run: ".to_owned().concat(
        error,
    ).concat("\nYou need to manually re-create the container.");
    refuse(message.as_str())
}

fn answer_recreation(r: &Recreation, outcome: &CommandOutcome) -> (out: ToolResult)
    ensures
        out@ == recreation_answer(r@, outcome@),
{
    match outcome {
        CommandOutcome::Exited { success, stdout, stderr } => {
            let shown: String = from_utf8_lossy(stdout.as_slice());
            if *success {
                let output: String = recreated_message(
                    r.image.as_str(),
                    r.env_path.as_str(),
                    r.from_file,
                    r.kept,
                    &r.args,
                    trim(shown.as_str()),
                );
                ToolResult { ok: true, output }
            } else {
                let message: String =
                    "container stopped and removed but failed to re-create:\n".to_owned().concat(
                    from_utf8_lossy(stderr.as_slice()).as_str(),
                ).concat("\nContainer is now gone — you need to manually run:\ndocker ").concat(
                    join(&r.args, " ").as_str(),
                ).concat("\nError: ").concat(shown.as_str());
                refuse(message.as_str())
            }
        },
        CommandOutcome::NotStarted { error } => refuse_recreation(error.as_str()),
        CommandOutcome::Lost { error } => refuse_recreation(error.as_str()),
    }
}

// Variables.

/// The answer on the variables of a container.
pub open spec fn env_answer(filter: Seq<char>, listed: ToolResultView) -> ToolResultView {
    ToolResultView { ok: listed.ok, output: env_listing(listed.output, filter) }
}

fn answer_env(filter: &str, listed: ToolResult) -> (r: ToolResult)
    ensures
        r@ == env_answer(filter@, listed@),
{
    ToolResult { ok: listed.ok, output: filter_env(listed.output.as_str(), filter) }
}

/// What follows the `.env` file that is to be changed.
pub open spec fn after_env_file(
    values: Seq<(Seq<char>, JsonView)>,
    env_path: Seq<char>,
    read: Result<Seq<char>, Seq<char>>,
) -> StepView {
    match read {
        Err(e) => refused("could not read "@ + env_path + ": "@ + e),
        Ok(content) => StepView::Await(
            TaskView::WritingEnvFile {
                env_path,
                changes: all_changes(lines_of(content), values),
            },
            ActionView::WriteFile {
                path: env_path,
                content: joined(updated_lines(lines_of(content), values), "\n"@),
            },
        ),
    }
}

/// The answer on a changed `.env` file.
pub open spec fn env_update_answer(
    env_path: Seq<char>,
    changes: Seq<Seq<char>>,
    written: Result<(), Seq<char>>,
) -> ToolResultView {
    match written {
        Err(e) => failed("failed to write "@ + env_path + ": "@ + e),
        Ok(_) => ToolResultView {
            ok: true,
            output: if changes.len() == 0 {
                "no changes needed — all keys already have the requested values"@
            } else {
                "updated "@ + env_path + ":\n"@ + joined(changes, "\n"@)
            },
        },
    }
}

fn follow_env_file(values: &Vec<Member>, env_path: String, read: &Result<String, String>) -> (r:
    ToolStep)
    ensures
        r@ == after_env_file(members_view(values@), env_path@, read_view(*read)),
{
    match read {
        Err(e) => {
            let message: String = "could not read ".to_owned().concat(env_path.as_str()).concat(
                ": ",
            ).concat(e.as_str());
            ToolStep::Done(refuse(message.as_str()))
        },
        Ok(content) => {
            let update = update_env(content.as_str(), values);
            ToolStep::Await(
                ToolTask::WritingEnvFile { env_path: env_path.clone(), changes: update.changes },
                ToolAction::WriteFile { path: env_path, content: update.content },
            )
        },
    }
}

/// The view of what came of storing something.
pub open spec fn stored_view(stored: Result<(), String>) -> Result<(), Seq<char>> {
    match stored {
        Ok(_) => Ok(()),
        Err(e) => Err(e@),
    }
}

fn answer_env_update(env_path: &str, changes: &Vec<String>, written: &Result<(), String>) -> (r:
    ToolResult)
    ensures
        r@ == env_update_answer(env_path@, texts(changes@), stored_view(*written)),
{
    match written {
        Err(e) => {
            let message: String = "failed to write ".to_owned().concat(env_path).concat(
                ": ",
            ).concat(e.as_str());
            refuse(message.as_str())
        },
        Ok(_) => {
            let output: String = if changes.len() == 0 {
                "no changes needed — all keys already have the requested values".to_owned()
            } else {
                "updated ".to_owned().concat(env_path).concat(":\n").concat(
                    join(changes, "\n").as_str(),
                )
            };
            ToolResult { ok: true, output }
        },
    }
}

// All tasks.

/// What a task does with the outcome of a command.
pub open spec fn after_run(
    host: HostView,
    state: StateView,
    task: TaskView,
    outcome: OutcomeView,
    id: Seq<char>,
) -> (StateView, StepView) {
    let result = command_result("docker"@, outcome);
    match task {
        TaskView::Printing { program } => (
            state,
            StepView::Done(command_result(program, outcome)),
        ),
        TaskView::Resolving { target } => (state, after_lookup(target, outcome)),
        TaskView::ListingBridge { target, dns } => (
            state,
            StepView::Done(diagnosis(target, dns, result)),
        ),
        TaskView::Discovering(d) => after_discovery(state, d.step(outcome)),
        TaskView::ReadingCurrent { role, proposed } => after_current(
            state,
            role,
            proposed,
            result,
            id,
        ),
        TaskView::WritingStaged(target) => (state, after_staged_write(target, outcome)),
        TaskView::MovingStaged(target) => (state, after_move(target, result)),
        TaskView::Reloading => (state, StepView::Done(reloaded(result))),
        TaskView::Inspecting { container } => (state, after_inspect(container, result)),
        TaskView::Stopping { container, recipe } => (state, after_stop(container, recipe, result)),
        TaskView::Removing { container, recipe } => (
            state,
            after_rm(host, container, recipe, result),
        ),
        TaskView::Recreating(r) => (state, StepView::Done(recreation_answer(r, outcome))),
        TaskView::ListingEnv { filter } => (state, StepView::Done(env_answer(filter, result))),
        _ => arbitrary(),
    }
}

/// What a task does with an event that it accepts, at the given time and with a
/// fresh id at hand: the next state and step.
pub open spec fn next_step(
    host: HostView,
    state: StateView,
    task: TaskView,
    event: EventView,
    now: Seq<char>,
    id: Seq<char>,
) -> (StateView, StepView) {
    match event {
        EventView::Ran(outcome) => after_run(host, state, task, outcome, id),
        EventView::Manifest(roles) => after_discovery(state, first_step(roles, now)),
        EventView::Stored(stored) => match task {
            TaskView::SavingDiscovery { count, summary } => (
                state,
                StepView::Done(discovery_answer(count, summary, stored)),
            ),
            TaskView::AppendingNote { note } => after_append(state, note, stored is Ok, now),
            TaskView::SavingNote { appended } => (
                state,
                StepView::Done(note_answer(appended, stored is Ok)),
            ),
            TaskView::WritingEnvFile { env_path, changes } => (
                state,
                StepView::Done(env_update_answer(env_path, changes, stored)),
            ),
            _ => arbitrary(),
        },
        EventView::FileRead(read) => match task {
            TaskView::ReadingEnv { container, recipe, env_path } => (
                state,
                after_env(container, recipe, env_path, read),
            ),
            TaskView::ReadingEnvFile { values, env_path } => (
                state,
                after_env_file(values, env_path, read),
            ),
            _ => arbitrary(),
        },
        EventView::Inspected(decoded) => match task {
            TaskView::DecodingInspect { container, printed } => (
                state,
                after_decode(container, printed, decoded),
            ),
            _ => arbitrary(),
        },
    }
}

fn resume_with_outcome(
    host: &Host,
    state: &mut AppState,
    task: ToolTask,
    outcome: &CommandOutcome,
    id: String,
) -> (r: ToolStep)
    requires
        task@.accepts(EventView::Ran(outcome@)),
    ensures
        (final(state)@, r@) == after_run(host@, old(state)@, task@, outcome@, id@),
{
    match task {
        ToolTask::Printing { program } => ToolStep::Done(run_command(program.as_str(), outcome)),
        ToolTask::Resolving { target } => list_bridge(target, outcome),
        ToolTask::ListingBridge { target, dns } => ToolStep::Done(
            diagnose(target.as_str(), dns, outcome),
        ),
        ToolTask::Discovering(d) => {
            let step: DiscoveryStep = d.resume(outcome);
            follow_discovery(state, step)
        },
        ToolTask::ReadingCurrent { role, proposed } => stage(
            state,
            role,
            proposed,
            run_command("docker", outcome),
            id,
        ),
        ToolTask::WritingStaged(target) => follow_staged_write(target, outcome),
        ToolTask::MovingStaged(target) => follow_move(target, run_command("docker", outcome)),
        ToolTask::Reloading => {
            let result: ToolResult = run_command("docker", outcome);
            ToolStep::Done(
                ToolResult {
                    ok: result.ok,
                    output: "config written and moved into place.\nreload output: ".to_owned().concat(
                        result.output.as_str(),
                    ),
                },
            )
        },
        ToolTask::Inspecting { container } => follow_inspect(
            container,
            run_command("docker", outcome),
        ),
        ToolTask::Stopping { container, recipe } => follow_stop(
            container,
            recipe,
            run_command("docker", outcome),
        ),
        ToolTask::Removing { container, recipe } => follow_rm(
            host,
            container,
            recipe,
            run_command("docker", outcome),
        ),
        ToolTask::Recreating(r) => ToolStep::Done(answer_recreation(&r, outcome)),
        ToolTask::ListingEnv { filter } => ToolStep::Done(
            answer_env(filter.as_str(), run_command("docker", outcome)),
        ),
        _ => unreached(),
    }
}

/// Goes on with a tool call at the given time and with a fresh id at hand.
pub fn resume_tool_at(
    host: &Host,
    state: &mut AppState,
    task: ToolTask,
    event: ToolEvent,
    now: String,
    id: String,
) -> (r: ToolStep)
    requires
        task@.accepts(event@),
    ensures
        (final(state)@, r@) == next_step(host@, old(state)@, task@, event@, now@, id@),
{
    match event {
        ToolEvent::Ran(outcome) => resume_with_outcome(host, state, task, &outcome, id),
        ToolEvent::Manifest(found) => {
            let ghost roles = declared_roles(found);
            let manifest: DiscoveryManifest = load_manifest(found);
            proof {
                assert(roles_view(manifest.services@) =~= roles);
            }
            start_discovery(state, manifest, now)
        },
        ToolEvent::Stored(stored) => match task {
            ToolTask::SavingDiscovery { count, summary } => ToolStep::Done(
                report_discovery(count, &summary, &stored),
            ),
            ToolTask::AppendingNote { note } => follow_append(state, note, stored.is_ok(), now),
            ToolTask::SavingNote { appended } => ToolStep::Done(
                answer_note(appended, stored.is_ok()),
            ),
            ToolTask::WritingEnvFile { env_path, changes } => ToolStep::Done(
                answer_env_update(env_path.as_str(), &changes, &stored),
            ),
            _ => unreached(),
        },
        ToolEvent::FileRead(read) => match task {
            ToolTask::ReadingEnv { container, recipe, env_path } => follow_env(
                container,
                recipe,
                env_path,
                read,
            ),
            ToolTask::ReadingEnvFile { values, env_path } => follow_env_file(
                &values,
                env_path,
                &read,
            ),
            _ => unreached(),
        },
        ToolEvent::Inspected(decoded) => match task {
            ToolTask::DecodingInspect { container, printed } => match decoded {
                Err(e) => refuse_unreadable(e.as_str(), printed.as_str()),
                Ok(inspect) => match inspect.recipe() {
                    Err(e) => refuse_unreadable(e.as_str(), printed.as_str()),
                    Ok(recipe) => stop(container, recipe),
                },
            },
            _ => unreached(),
        },
    }
}

/// Goes on with a tool call now.
pub fn resume_tool(host: &Host, state: &mut AppState, task: ToolTask, event: ToolEvent) -> (r:
    ToolStep)
    requires
        task@.accepts(event@),
    ensures
        exists|now: Seq<char>, id: Seq<char>| #[trigger]
            utc_stamp(now) && #[trigger] random_uuid(id) && (final(state)@, r@) == next_step(
                host@,
                old(state)@,
                task@,
                event@,
                now,
                id,
            ),
{
    let now: String = now_rfc3339();
    let id: String = new_uuid();
    proof {
        assert(utc_stamp(now@));
        assert(random_uuid(id@));
    }
    resume_tool_at(host, state, task, event, now, id)
}

} // verus!
