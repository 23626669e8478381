//! Recreating a container: what `docker inspect` tells about it, and the `docker
//! run` that makes it anew.

use vstd::prelude::*;
use vstd::string::*;
use crate::dotenv::{EnvVar, env_view};
use crate::json::{Json, JsonView, Member, lemma_array_view, lemma_object_view, members_view,
    value_of, values_view};
use crate::text::{decimal, decimal_text, join, joined, texts};

verus! {

/// What is read of a container's configuration.
#[derive(Debug, PartialEq)]
pub struct ContainerConfig {
    /// `NAME=value` lines.
    pub env: Vec<String>,
    pub image: String,
    /// The host configuration, where the API still has it here; else what the
    /// reader of the inspection says about its absence.
    pub host_config: Result<Json, String>,
}

/// What is read of the output of `docker inspect`: a single object with the
/// container's configuration and, beside it, its host configuration. Older
/// versions of the API have the latter inside the former.
#[derive(Debug, PartialEq)]
pub struct ContainerInspect {
    pub config: ContainerConfig,
    pub host_config: Option<Json>,
}

/// What a [`ContainerInspect`] stands for.
pub struct InspectView {
    pub env: Seq<Seq<char>>,
    pub image: Seq<char>,
    pub inner_host_config: Result<JsonView, Seq<char>>,
    pub outer_host_config: Option<JsonView>,
}

impl View for ContainerInspect {
    type V = InspectView;

    open spec fn view(&self) -> InspectView {
        InspectView {
            env: texts(self.config.env@),
            image: self.config.image@,
            inner_host_config: match self.config.host_config {
                Ok(h) => Ok(h@),
                Err(e) => Err(e@),
            },
            outer_host_config: value_of(self.host_config),
        }
    }
}

/// What it takes to make a container anew.
#[derive(Debug, PartialEq)]
pub struct Recipe {
    /// The variables of the container, as `NAME=value` lines.
    pub env: Vec<String>,
    pub image: String,
    pub host_config: Json,
}

/// What a [`Recipe`] stands for.
pub struct RecipeView {
    pub env: Seq<Seq<char>>,
    pub image: Seq<char>,
    pub host_config: JsonView,
}

impl View for Recipe {
    type V = RecipeView;

    open spec fn view(&self) -> RecipeView {
        RecipeView { env: texts(self.env@), image: self.image@, host_config: self.host_config@ }
    }
}

impl InspectView {
    /// The host configuration: the one beside the configuration or else the one
    /// inside.
    pub open spec fn host_config(self) -> Result<JsonView, Seq<char>> {
        match self.outer_host_config {
            Some(h) => Ok(h),
            None => self.inner_host_config,
        }
    }

    /// What it takes to make the container anew, where a host configuration is
    /// known.
    pub open spec fn recipe(self) -> Result<RecipeView, Seq<char>> {
        match self.host_config() {
            Ok(h) => Ok(RecipeView { env: self.env, image: self.image, host_config: h }),
            Err(e) => Err(e),
        }
    }
}

/// The view of what came of looking for a recipe.
pub open spec fn recipe_view(r: Result<Recipe, String>) -> Result<RecipeView, Seq<char>> {
    match r {
        Ok(r) => Ok(r@),
        Err(e) => Err(e@),
    }
}

impl ContainerInspect {
    /// What it takes to make the container anew, where a host configuration is
    /// known.
    pub fn recipe(self) -> (r: Result<Recipe, String>)
        ensures
            recipe_view(r) == self@.recipe(),
    {
        let config = self.config;
        match self.host_config {
            Some(h) => Ok(Recipe { env: config.env, image: config.image, host_config: h }),
            None => match config.host_config {
                Ok(h) => Ok(Recipe { env: config.env, image: config.image, host_config: h }),
                Err(e) => Err(e),
            },
        }
    }
}

/// The host port of a port binding.
pub open spec fn host_port(binding: JsonView) -> Seq<char> {
    match binding.str_at("HostPort"@) {
        Some(p) => p,
        None => "0"@,
    }
}

/// The flags that bind a container port to each of its host ports.
pub open spec fn binding_flags(port: Seq<char>, bindings: Seq<JsonView>) -> Seq<Seq<char>> {
    Seq::new(bindings.len(), |i: int| "-p"@ + host_port(bindings[i]) + ":"@ + port)
}

/// The flags for the given port bindings: a list of bindings for each container
/// port.
pub open spec fn port_flags(ports: Seq<(Seq<char>, JsonView)>) -> Seq<Seq<char>>
    decreases ports.len(),
{
    if ports.len() == 0 {
        seq![]
    } else {
        let rest = port_flags(ports.drop_last());
        match ports.last().1 {
            JsonView::Array(bindings) => rest + binding_flags(ports.last().0, bindings),
            _ => rest,
        }
    }
}

/// The flags that attach the given volumes.
pub open spec fn volume_flags(binds: Seq<JsonView>) -> Seq<Seq<char>>
    decreases binds.len(),
{
    if binds.len() == 0 {
        seq![]
    } else {
        let rest = volume_flags(binds.drop_last());
        match binds.last() {
            JsonView::String(v) => rest.push("-v="@ + v),
            _ => rest,
        }
    }
}

/// The flags for the ports and volumes of a host configuration.
pub open spec fn host_flags(host: JsonView) -> Seq<Seq<char>> {
    let ports = match host.get("PortBindings"@) {
        Some(JsonView::Object(ports)) => port_flags(ports),
        _ => seq![],
    };
    let volumes = match host.get("Binds"@) {
        Some(JsonView::Array(binds)) => volume_flags(binds),
        _ => seq![],
    };
    ports + volumes
}

/// The flags that set the given variables.
pub open spec fn env_flags(env: Seq<(Seq<char>, Seq<char>)>) -> Seq<Seq<char>> {
    Seq::new(env.len(), |i: int| "-e"@ + env[i].0 + "="@ + env[i].1)
}

/// The arguments of the `docker run` that makes a container anew: under the same
/// name, with the ports and volumes that it had, the given variables, and the
/// image that it had.
pub open spec fn run_args(
    container: Seq<char>,
    host: JsonView,
    env: Seq<(Seq<char>, Seq<char>)>,
    image: Seq<char>,
) -> Seq<Seq<char>> {
    (seq!["run"@, "-d"@, "--name"@, container] + host_flags(host) + env_flags(env)).push(image)
}

fn host_port_text(binding: &Json) -> (r: &str)
    ensures
        r@ == host_port(binding@),
{
    match binding.str_at("HostPort") {
        Some(p) => p,
        None => "0",
    }
}

fn push_bindings(args: &mut Vec<String>, port: &str, bindings: &Vec<Json>)
    ensures
        texts(final(args)@) == texts(old(args)@) + binding_flags(port@, values_view(bindings@)),
{
    let n: usize = bindings.len();
    let mut i: usize = 0;
    let ghost flags = binding_flags(port@, values_view(bindings@));
    let ghost start = texts(args@);
    proof {
        assert(start + flags.take(0) =~= start);
    }
    while i < n
        invariant
            n == bindings@.len(),
            flags == binding_flags(port@, values_view(bindings@)),
            i <= n,
            texts(args@) == start + flags.take(i as int),
        decreases n - i,
    {
        let ghost before = texts(args@);
        let flag: String = "-p".to_owned().concat(host_port_text(&bindings[i])).concat(":").concat(
            port,
        );
        args.push(flag);
        proof {
            assert(texts(args@) =~= before.push(flag@));
            assert(flags[i as int] == flag@);
            assert(start + flags.take(i + 1) =~= before.push(flag@));
        }
        i = i + 1;
    }
    proof {
        assert(flags.take(n as int) =~= flags);
    }
}

fn push_ports(args: &mut Vec<String>, ports: &Vec<Member>)
    ensures
        texts(final(args)@) == texts(old(args)@) + port_flags(members_view(ports@)),
{
    let n: usize = ports.len();
    let mut i: usize = 0;
    let ghost all = members_view(ports@);
    let ghost start = texts(args@);
    proof {
        assert(all.take(0) =~= seq![]);
        assert(start + port_flags(all.take(0)) =~= start);
    }
    while i < n
        invariant
            n == ports@.len(),
            all == members_view(ports@),
            i <= n,
            texts(args@) == start + port_flags(all.take(i as int)),
        decreases n - i,
    {
        proof {
            assert(all.take(i + 1).drop_last() =~= all.take(i as int));
            assert(all.take(i + 1).last() == ports@[i as int]@);
            lemma_array_view(ports@[i as int].value);
        }
        let ghost head = port_flags(all.take(i as int));
        if let Json::Array(bindings) = &ports[i].value {
            push_bindings(args, ports[i].key.as_str(), bindings);
            proof {
                let more = binding_flags(ports@[i as int].key@, values_view(bindings@));
                assert((start + head) + more =~= start + (head + more));
            }
        }
        i = i + 1;
    }
    proof {
        assert(all.take(n as int) =~= all);
    }
}

fn push_volumes(args: &mut Vec<String>, binds: &Vec<Json>)
    ensures
        texts(final(args)@) == texts(old(args)@) + volume_flags(values_view(binds@)),
{
    let n: usize = binds.len();
    let mut i: usize = 0;
    let ghost all = values_view(binds@);
    let ghost start = texts(args@);
    proof {
        assert(all.take(0) =~= seq![]);
        assert(start + volume_flags(all.take(0)) =~= start);
    }
    while i < n
        invariant
            n == binds@.len(),
            all == values_view(binds@),
            i <= n,
            texts(args@) == start + volume_flags(all.take(i as int)),
        decreases n - i,
    {
        proof {
            assert(all.take(i + 1).drop_last() =~= all.take(i as int));
            assert(all.take(i + 1).last() == binds@[i as int]@);
        }
        let ghost head = volume_flags(all.take(i as int));
        if let Json::String(v) = &binds[i] {
            let ghost before = texts(args@);
            args.push("-v=".to_owned().concat(v.as_str()));
            proof {
                assert(texts(args@) =~= before.push("-v="@ + v@));
                assert(before.push("-v="@ + v@) =~= start + head.push("-v="@ + v@));
            }
        }
        i = i + 1;
    }
    proof {
        assert(all.take(n as int) =~= all);
    }
}

fn push_env(args: &mut Vec<String>, env: &Vec<EnvVar>)
    ensures
        texts(final(args)@) == texts(old(args)@) + env_flags(env_view(env@)),
{
    let n: usize = env.len();
    let mut i: usize = 0;
    let ghost flags = env_flags(env_view(env@));
    let ghost start = texts(args@);
    proof {
        assert(start + flags.take(0) =~= start);
    }
    while i < n
        invariant
            n == env@.len(),
            flags == env_flags(env_view(env@)),
            i <= n,
            texts(args@) == start + flags.take(i as int),
        decreases n - i,
    {
        let ghost before = texts(args@);
        let flag: String = "-e".to_owned().concat(env[i].name.as_str()).concat("=").concat(
            env[i].value.as_str(),
        );
        args.push(flag);
        proof {
            assert(texts(args@) =~= before.push(flag@));
            assert(flags[i as int] == flag@);
            assert(start + flags.take(i + 1) =~= before.push(flag@));
        }
        i = i + 1;
    }
    proof {
        assert(flags.take(n as int) =~= flags);
    }
}

/// The arguments of the `docker run` that makes a container anew.
pub fn docker_run_args(container: &str, host: &Json, env: &Vec<EnvVar>, image: &str) -> (r: Vec<
    String,
>)
    ensures
        texts(r@) == run_args(container@, host@, env_view(env@), image@),
{
    let mut args: Vec<String> = vec![
        "run".to_owned(),
        "-d".to_owned(),
        "--name".to_owned(),
        container.to_owned(),
    ];
    let ghost start = seq!["run"@, "-d"@, "--name"@, container@];
    let ghost mut ports: Seq<Seq<char>> = seq![];
    let ghost mut volumes: Seq<Seq<char>> = seq![];
    proof {
        assert(texts(args@) =~= start);
        assert(start + ports =~= start);
    }
    match host.get("PortBindings") {
        Some(v) => {
            if let Json::Object(members) = v {
                push_ports(&mut args, members);
                proof {
                    lemma_object_view(*v);
                    ports = port_flags(members_view(members@));
                }
            }
        },
        None => {},
    }
    proof {
        assert(texts(args@) == start + ports);
        assert((start + ports) + volumes =~= start + ports);
    }
    match host.get("Binds") {
        Some(v) => {
            if let Json::Array(binds) = v {
                push_volumes(&mut args, binds);
                proof {
                    lemma_array_view(*v);
                    volumes = volume_flags(values_view(binds@));
                }
            }
        },
        None => {},
    }
    proof {
        assert((start + ports) + volumes =~= start + (ports + volumes));
        assert(ports + volumes == host_flags(host@));
    }
    push_env(&mut args, env);
    let ghost before = texts(args@);
    args.push(image.to_owned());
    proof {
        assert(texts(args@) =~= before.push(image@));
    }
    args
}

/// The answer once the container is running anew. `from_file` is the number of
/// variables in the `.env` file, `kept` that of the variables that only the
/// original container had.
pub open spec fn recreated_text(
    image: Seq<char>,
    env_path: Seq<char>,
    from_file: nat,
    kept: nat,
    args: Seq<Seq<char>>,
    printed: Seq<char>,
) -> Seq<char> {
    "container recreated successfully.\nImage: "@ + image + "\nEnv vars applied from "@ + env_path
        + " ("@ + decimal(from_file) + " vars from .env, "@ + decimal(kept)
        + " extra from original container)\nRun command: docker "@ + joined(args, " "@)
        + "\nContainer output: "@ + printed
}

/// The answer once the container is running anew.
pub fn recreated_message(
    image: &str,
    env_path: &str,
    from_file: usize,
    kept: usize,
    args: &Vec<String>,
    printed: &str,
) -> (r: String)
    ensures
        r@ == recreated_text(
            image@,
            env_path@,
            from_file as nat,
            kept as nat,
            texts(args@),
            printed@,
        ),
{
    "container recreated successfully.\nImage: ".to_owned().concat(image).concat(
        "\nEnv vars applied from ",
    ).concat(env_path).concat(" (").concat(decimal_text(from_file as u64).as_str()).concat(
        " vars from .env, ",
    ).concat(decimal_text(kept as u64).as_str()).concat(
        " extra from original container)\nRun command: docker ",
    ).concat(join(args, " ").as_str()).concat("\nContainer output: ").concat(printed)
}

} // verus!
