//! What holds of a container that is made anew.

use vstd::prelude::*;
use crate::command::CommandView;
use crate::container::{InspectView, RecipeView, binding_flags, env_flags, host_flags, host_port,
    port_flags, run_args, volume_flags};
use crate::dotenv::{env_completed, env_of, env_pos, env_value, lemma_env_pos};
use crate::env_laws::{container_value, law_container_extras_preserved, law_env_file_wins};
use crate::json::JsonView;
use crate::resume::{after_decode, next_step, recreation};
use crate::state::StateView;
use crate::task::{ActionView, EventView, HostView, RecreationView, StepView, TaskView};
use crate::text::lines_of;
use crate::text_laws::law_first_member_counts;

verus! {

/// The container keeps its name and its image.
pub proof fn law_recreated_container_keeps_name_and_image(
    container: Seq<char>,
    host: JsonView,
    env: Seq<(Seq<char>, Seq<char>)>,
    image: Seq<char>,
)
    ensures
        run_args(container, host, env, image).take(4) == seq!["run"@, "-d"@, "--name"@, container],
        run_args(container, host, env, image).last() == image,
{
    assert(run_args(container, host, env, image).take(4) =~= seq![
        "run"@,
        "-d"@,
        "--name"@,
        container,
    ]);
}

proof fn lemma_port_flag(ports: Seq<(Seq<char>, JsonView)>, k: int, j: int)
    requires
        0 <= k < ports.len(),
        ports[k].1 matches JsonView::Array(bindings) && 0 <= j < bindings.len(),
    ensures
        port_flags(ports).contains(
            "-p"@ + host_port(ports[k].1->Array_0[j]) + ":"@ + ports[k].0,
        ),
    decreases ports.len(),
{
    let flag = "-p"@ + host_port(ports[k].1->Array_0[j]) + ":"@ + ports[k].0;
    let init = ports.drop_last();
    let rest = port_flags(init);
    let all = port_flags(ports);
    if k == ports.len() - 1 {
        let more = binding_flags(ports.last().0, ports.last().1->Array_0);
        assert(more[j] == flag);
        assert(all == rest + more);
        assert(all[rest.len() + j] == flag);
    } else {
        lemma_port_flag(init, k, j);
        let i = choose|i: int| 0 <= i < rest.len() && rest[i] == flag;
        assert(all[i] == flag);
    }
}

proof fn lemma_volume_flag(binds: Seq<JsonView>, k: int)
    requires
        0 <= k < binds.len(),
        binds[k] is String,
    ensures
        volume_flags(binds).contains("-v="@ + binds[k]->String_0),
    decreases binds.len(),
{
    let flag = "-v="@ + binds[k]->String_0;
    let init = binds.drop_last();
    let rest = volume_flags(init);
    let all = volume_flags(binds);
    if k == binds.len() - 1 {
        assert(all == rest.push(flag));
        assert(all[rest.len() as int] == flag);
    } else {
        lemma_volume_flag(init, k);
        let i = choose|i: int| 0 <= i < rest.len() && rest[i] == flag;
        assert(all[i] == flag);
    }
}

proof fn lemma_run_args_have(
    container: Seq<char>,
    host: JsonView,
    env: Seq<(Seq<char>, Seq<char>)>,
    image: Seq<char>,
    flag: Seq<char>,
)
    requires
        host_flags(host).contains(flag) || env_flags(env).contains(flag),
    ensures
        run_args(container, host, env, image).contains(flag),
{
    let all = run_args(container, host, env, image);
    let start: int = 4;
    let a = host_flags(host);
    let b = env_flags(env);
    if a.contains(flag) {
        let i = choose|i: int| 0 <= i < a.len() && a[i] == flag;
        assert(all[start + i] == flag);
    } else {
        let i = choose|i: int| 0 <= i < b.len() && b[i] == flag;
        assert(all[start + a.len() + i] == flag);
    }
}

/// The container keeps its ports: each host port that was bound to a container
/// port is bound to it again.
pub proof fn law_recreated_container_keeps_ports(
    container: Seq<char>,
    host: JsonView,
    env: Seq<(Seq<char>, Seq<char>)>,
    image: Seq<char>,
    ports: Seq<(Seq<char>, JsonView)>,
    k: int,
    j: int,
)
    requires
        host.get("PortBindings"@) == Some(JsonView::Object(ports)),
        0 <= k < ports.len(),
        ports[k].1 matches JsonView::Array(bindings) && 0 <= j < bindings.len(),
    ensures
        run_args(container, host, env, image).contains(
            "-p"@ + host_port(ports[k].1->Array_0[j]) + ":"@ + ports[k].0,
        ),
{
    lemma_port_flag(ports, k, j);
    let flag = "-p"@ + host_port(ports[k].1->Array_0[j]) + ":"@ + ports[k].0;
    let list = port_flags(ports);
    let i = choose|i: int| 0 <= i < list.len() && list[i] == flag;
    assert(host_flags(host)[i] == flag);
    lemma_run_args_have(container, host, env, image, flag);
}

/// The container keeps its volumes.
pub proof fn law_recreated_container_keeps_volumes(
    container: Seq<char>,
    host: JsonView,
    env: Seq<(Seq<char>, Seq<char>)>,
    image: Seq<char>,
    binds: Seq<JsonView>,
    k: int,
)
    requires
        host.get("Binds"@) == Some(JsonView::Array(binds)),
        0 <= k < binds.len(),
        binds[k] is String,
    ensures
        run_args(container, host, env, image).contains("-v="@ + binds[k]->String_0),
{
    lemma_volume_flag(binds, k);
    let flag = "-v="@ + binds[k]->String_0;
    let list = volume_flags(binds);
    let i = choose|i: int| 0 <= i < list.len() && list[i] == flag;
    let flags = host_flags(host);
    assert(flags[flags.len() - list.len() + i] == flag);
    lemma_run_args_have(container, host, env, image, flag);
}

proof fn lemma_run_args_set(
    container: Seq<char>,
    host: JsonView,
    env: Seq<(Seq<char>, Seq<char>)>,
    image: Seq<char>,
    name: Seq<char>,
)
    requires
        env_value(env, name) is Some,
    ensures
        run_args(container, host, env, image).contains(
            "-e"@ + name + "="@ + env_value(env, name)->0,
        ),
{
    let flag = "-e"@ + name + "="@ + env_value(env, name)->0;
    lemma_env_pos(env, name);
    let k = env_pos(env, name);
    assert(env_flags(env)[k] == flag);
    lemma_run_args_have(container, host, env, image, flag);
}

/// The container gets every variable of the `.env` file, with the value that the
/// file gives it now.
pub proof fn law_recreated_container_gets_env_file(
    container: Seq<char>,
    recipe: RecipeView,
    env_path: Seq<char>,
    content: Seq<char>,
    name: Seq<char>,
)
    requires
        env_value(env_of(lines_of(content)), name) is Some,
    ensures
        recreation(container, recipe, env_path, Ok(content)).args.contains(
            "-e"@ + name + "="@ + env_value(env_of(lines_of(content)), name)->0,
        ),
{
    let base = env_of(lines_of(content));
    let env = env_completed(base, recipe.env);
    law_env_file_wins(base, recipe.env, name);
    lemma_run_args_set(container, recipe.host_config, env, recipe.image, name);
}

/// The container keeps the variables that it had and the `.env` file does not
/// set.
pub proof fn law_recreated_container_keeps_other_variables(
    container: Seq<char>,
    recipe: RecipeView,
    env_path: Seq<char>,
    content: Seq<char>,
    name: Seq<char>,
)
    requires
        env_value(env_of(lines_of(content)), name) is None,
        container_value(recipe.env, name) is Some,
    ensures
        recreation(container, recipe, env_path, Ok(content)).args.contains(
            "-e"@ + name + "="@ + container_value(recipe.env, name)->0,
        ),
{
    let base = env_of(lines_of(content));
    let env = env_completed(base, recipe.env);
    lemma_env_pos(base, name);
    law_container_extras_preserved(base, recipe.env, name);
    lemma_run_args_set(container, recipe.host_config, env, recipe.image, name);
}

/// A container whose inspection cannot be read is left alone: it is neither
/// stopped nor removed.
pub proof fn law_unreadable_container_is_left_alone(
    container: Seq<char>,
    printed: Seq<char>,
    decoded: Result<InspectView, Seq<char>>,
)
    requires
        decoded matches Ok(inspect) ==> inspect.recipe() is Err,
    ensures
        after_decode(container, printed, decoded) matches StepView::Done(r) && !r.ok,
{
}

// The arguments of the run, one by one.

/// How many bindings the first `k` of the mapped ports have together.
pub open spec fn bindings_before(ports: Seq<(Seq<char>, JsonView)>, k: int) -> int
    decreases k,
{
    if k <= 0 {
        0
    } else {
        bindings_before(ports, k - 1) + match ports[k - 1].1 {
            JsonView::Array(bindings) => bindings.len() as int,
            _ => 0,
        }
    }
}

/// How many of the first `k` values are strings.
pub open spec fn strings_before(values: Seq<JsonView>, k: int) -> int
    decreases k,
{
    if k <= 0 {
        0
    } else {
        strings_before(values, k - 1) + if values[k - 1] is String {
            1int
        } else {
            0
        }
    }
}

proof fn lemma_bindings_before_prefix(ports: Seq<(Seq<char>, JsonView)>, n: int, k: int)
    requires
        0 <= k <= n <= ports.len(),
    ensures
        bindings_before(ports.take(n), k) == bindings_before(ports, k),
        0 <= bindings_before(ports, k) <= bindings_before(ports, n),
    decreases n + k,
{
    if k > 0 {
        lemma_bindings_before_prefix(ports, n, k - 1);
        assert(ports.take(n)[k - 1] == ports[k - 1]);
    }
    if k < n {
        lemma_bindings_before_prefix(ports, n - 1, k);
    }
}

proof fn lemma_strings_before_prefix(values: Seq<JsonView>, n: int, k: int)
    requires
        0 <= k <= n <= values.len(),
    ensures
        strings_before(values.take(n), k) == strings_before(values, k),
        0 <= strings_before(values, k) <= strings_before(values, n),
    decreases n + k,
{
    if k > 0 {
        lemma_strings_before_prefix(values, n, k - 1);
        assert(values.take(n)[k - 1] == values[k - 1]);
    }
    if k < n {
        lemma_strings_before_prefix(values, n - 1, k);
    }
}

proof fn lemma_port_flags_count(ports: Seq<(Seq<char>, JsonView)>)
    ensures
        port_flags(ports).len() == bindings_before(ports, ports.len() as int),
    decreases ports.len(),
{
    if ports.len() > 0 {
        let n = ports.len() - 1;
        lemma_port_flags_count(ports.drop_last());
        assert(ports.drop_last() =~= ports.take(n));
        lemma_bindings_before_prefix(ports, n, n);
    }
}

proof fn lemma_port_flag_at(ports: Seq<(Seq<char>, JsonView)>, k: int, j: int)
    requires
        0 <= k < ports.len(),
        ports[k].1 is Array,
        0 <= j < ports[k].1->Array_0.len(),
    ensures
        0 <= bindings_before(ports, k) + j < port_flags(ports).len(),
        port_flags(ports)[bindings_before(ports, k) + j] == "-p"@ + (
        match ports[k].1->Array_0[j].str_at("HostPort"@) {
            Some(p) => p,
            None => "0"@,
        }) + ":"@ + ports[k].0,
    decreases ports.len(),
{
    let init = ports.drop_last();
    let n = ports.len() - 1;
    assert(init =~= ports.take(n));
    lemma_port_flags_count(init);
    lemma_bindings_before_prefix(ports, n, k);
    lemma_bindings_before_prefix(ports, n, n);
    if k < n {
        assert(init[k] == ports[k]);
        lemma_port_flag_at(init, k, j);
        assert(port_flags(ports)[bindings_before(ports, k) + j] == port_flags(
            init,
        )[bindings_before(ports, k) + j]);
    } else {
        let flags = binding_flags(ports[k].0, ports[k].1->Array_0);
        assert(port_flags(ports) == port_flags(init) + flags);
        assert(port_flags(ports)[port_flags(init).len() + j] == flags[j]);
    }
}

proof fn lemma_volume_flag_at(binds: Seq<JsonView>)
    ensures
        volume_flags(binds).len() == strings_before(binds, binds.len() as int),
        forall|k: int|
            0 <= k < binds.len() && (#[trigger] binds[k]) is String ==> 0 <= strings_before(
                binds,
                k,
            ) < volume_flags(binds).len() && volume_flags(binds)[strings_before(binds, k)] == "-v="@
                + binds[k]->String_0,
    decreases binds.len(),
{
    if binds.len() > 0 {
        let init = binds.drop_last();
        let n = binds.len() - 1;
        lemma_volume_flag_at(init);
        assert(init =~= binds.take(n));
        lemma_strings_before_prefix(binds, n, n);
        assert forall|k: int|
            0 <= k < binds.len() && (#[trigger] binds[k]) is String implies 0 <= strings_before(
            binds,
            k,
        ) < volume_flags(binds).len() && volume_flags(binds)[strings_before(binds, k)] == "-v="@
            + binds[k]->String_0 by {
            if k < n {
                assert(init[k] == binds[k]);
                lemma_strings_before_prefix(binds, n, k);
            }
        }
    }
}

/// The run that makes a container anew has, after the four arguments that give the
/// name, one argument for each binding of each mapped port, in order. For a binding
/// whose host port is a string it is `-p`, that string, a colon and the container
/// port; for one without such a string the host port is 0.
pub proof fn law_each_port_binding_is_an_argument(
    container: Seq<char>,
    host: JsonView,
    env: Seq<(Seq<char>, Seq<char>)>,
    image: Seq<char>,
    ports: Seq<(Seq<char>, JsonView)>,
    k: int,
    bindings: Seq<JsonView>,
    j: int,
)
    requires
        host.get("PortBindings"@) == Some(JsonView::Object(ports)),
        0 <= k < ports.len(),
        ports[k].1 == JsonView::Array(bindings),
        0 <= j < bindings.len(),
    ensures
        ({
            let args = run_args(container, host, env, image);
            let at = 4 + bindings_before(ports, k) + j;
            &&& 4 <= at < args.len() - 1
            &&& bindings[j].str_at("HostPort"@) matches Some(p) ==> args[at] == "-p"@ + p + ":"@
                + ports[k].0 && args.contains("-p"@ + p + ":"@ + ports[k].0)
            &&& bindings[j].str_at("HostPort"@) is None ==> args[at] == "-p"@ + "0"@ + ":"@
                + ports[k].0
        }),
{
    let args = run_args(container, host, env, image);
    lemma_port_flag_at(ports, k, j);
    let at = bindings_before(ports, k) + j;
    assert(ports[k].1->Array_0[j] == bindings[j]);
    assert(port_flags(ports)[bindings_before(ports, k) + j] == args[4 + at]);
    assert(args.contains(args[4 + at]));
}

/// The same, from the members of the binding: the host port of a binding is the
/// whole string under its first `HostPort`.
pub proof fn law_published_port_is_the_member(
    container: Seq<char>,
    host: JsonView,
    env: Seq<(Seq<char>, Seq<char>)>,
    image: Seq<char>,
    ports: Seq<(Seq<char>, JsonView)>,
    k: int,
    bindings: Seq<JsonView>,
    j: int,
    members: Seq<(Seq<char>, JsonView)>,
    i: int,
    p: Seq<char>,
)
    requires
        host.get("PortBindings"@) == Some(JsonView::Object(ports)),
        0 <= k < ports.len(),
        ports[k].1 == JsonView::Array(bindings),
        0 <= j < bindings.len(),
        bindings[j] == JsonView::Object(members),
        0 <= i < members.len(),
        forall|h: int| 0 <= h < i ==> (#[trigger] members[h]).0 != "HostPort"@,
        members[i] == ("HostPort"@, JsonView::String(p)),
    ensures
        run_args(container, host, env, image).contains("-p"@ + p + ":"@ + ports[k].0),
{
    law_first_member_counts(members, i);
    law_each_port_binding_is_an_argument(container, host, env, image, ports, k, bindings, j);
}

/// After the ports comes one argument for each bind mount that is a string, in
/// order: `-v=` and the string.
pub proof fn law_each_bind_mount_is_an_argument(
    container: Seq<char>,
    host: JsonView,
    env: Seq<(Seq<char>, Seq<char>)>,
    image: Seq<char>,
    binds: Seq<JsonView>,
    k: int,
    volume: Seq<char>,
)
    requires
        host.get("Binds"@) == Some(JsonView::Array(binds)),
        0 <= k < binds.len(),
        binds[k] == JsonView::String(volume),
    ensures
        ({
            let args = run_args(container, host, env, image);
            let published = match host.get("PortBindings"@) {
                Some(JsonView::Object(ports)) => bindings_before(ports, ports.len() as int),
                _ => 0,
            };
            let at = 4 + published + strings_before(binds, k);
            4 <= at < args.len() - 1 && args[at] == "-v="@ + volume
        }),
{
    let args = run_args(container, host, env, image);
    lemma_volume_flag_at(binds);
    let ports = match host.get("PortBindings"@) {
        Some(JsonView::Object(ports)) => port_flags(ports),
        _ => seq![],
    };
    if let Some(JsonView::Object(mapped)) = host.get("PortBindings"@) {
        lemma_port_flags_count(mapped);
    }
    assert(binds[k] is String);
    assert(volume_flags(binds)[strings_before(binds, k)] == args[4 + ports.len() + strings_before(
        binds,
        k,
    )]);
}

/// The run has no other arguments: the four that give the name, one for each
/// binding, one for each bind mount that is a string, one for each variable in
/// order, and the image at the end.
pub proof fn law_run_has_no_other_arguments(
    container: Seq<char>,
    host: JsonView,
    env: Seq<(Seq<char>, Seq<char>)>,
    image: Seq<char>,
)
    ensures
        ({
            let args = run_args(container, host, env, image);
            let published = match host.get("PortBindings"@) {
                Some(JsonView::Object(ports)) => bindings_before(ports, ports.len() as int),
                _ => 0,
            };
            let mounted = match host.get("Binds"@) {
                Some(JsonView::Array(binds)) => strings_before(binds, binds.len() as int),
                _ => 0,
            };
            &&& published >= 0 && mounted >= 0
            &&& args.len() == 4 + published + mounted + env.len() + 1
            &&& args[0] == "run"@ && args[1] == "-d"@ && args[2] == "--name"@
            &&& args[3] == container
            &&& args.last() == image
            &&& forall|i: int|
                0 <= i < env.len() ==> args[4 + published + mounted + i] == "-e"@
                    + (#[trigger] env[i]).0 + "="@ + env[i].1
        }),
{
    let args = run_args(container, host, env, image);
    if let Some(JsonView::Object(ports)) = host.get("PortBindings"@) {
        lemma_port_flags_count(ports);
    }
    if let Some(JsonView::Array(binds)) = host.get("Binds"@) {
        lemma_volume_flag_at(binds);
    }
    assert forall|i: int| 0 <= i < env.len() implies args[4 + host_flags(host).len() + i] == "-e"@
        + (#[trigger] env[i]).0 + "="@ + env[i].1 by {
        assert(env_flags(env)[i] == args[4 + host_flags(host).len() + i]);
    }
}

/// Once the `.env` file has been read, the run is started with docker, under the
/// container's name and image, on the variables of the file and the container's
/// own others.
pub proof fn law_recreation_runs_docker(
    host: HostView,
    state: StateView,
    container: Seq<char>,
    recipe: RecipeView,
    env_path: Seq<char>,
    read: Result<Seq<char>, Seq<char>>,
    now: Seq<char>,
    id: Seq<char>,
)
    ensures
        ({
            let env = match read {
                Ok(content) => env_of(lines_of(content)),
                Err(_) => Seq::empty(),
            };
            let all = env_completed(env, recipe.env);
            let args = run_args(container, recipe.host_config, all, recipe.image);
            next_step(
                host,
                state,
                TaskView::ReadingEnv { container, recipe, env_path },
                EventView::FileRead(read),
                now,
                id,
            ) == (
                state,
                StepView::Await(
                    TaskView::Recreating(
                        RecreationView {
                            image: recipe.image,
                            env_path,
                            from_file: env.len(),
                            kept: (all.len() - env.len()) as nat,
                            args,
                        },
                    ),
                    ActionView::Run(CommandView { program: "docker"@, args, input: None }),
                ),
            )
        }),
{
}

} // verus!
