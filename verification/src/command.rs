//! Commands that run on the host, what comes of them, and the result of a tool.

use vstd::prelude::*;
use vstd::string::*;
use crate::outside::{from_utf8_lossy, lossy_text};
use crate::text::{text_of, texts};

verus! {

/// A program with its arguments. Each argument is one entry of the argument
/// vector, never a piece of a shell line.
#[derive(Debug, PartialEq)]
pub struct Command {
    pub program: String,
    pub args: Vec<String>,
    /// What the program reads from its standard input, where that is given.
    pub input: Option<String>,
}

/// What a [`Command`] stands for.
pub struct CommandView {
    pub program: Seq<char>,
    pub args: Seq<Seq<char>>,
    pub input: Option<Seq<char>>,
}

impl View for Command {
    type V = CommandView;

    open spec fn view(&self) -> CommandView {
        CommandView {
            program: self.program@,
            args: texts(self.args@),
            input: text_of(self.input),
        }
    }
}

/// How a command ended.
#[derive(Debug, PartialEq)]
pub enum CommandOutcome {
    /// It ran to its end.
    Exited { success: bool, stdout: Vec<u8>, stderr: Vec<u8> },
    /// It could not be started.
    NotStarted { error: String },
    /// It was started, and waiting for its end failed.
    Lost { error: String },
}

/// What a [`CommandOutcome`] stands for.
pub enum OutcomeView {
    Exited { success: bool, stdout: Seq<u8>, stderr: Seq<u8> },
    NotStarted { error: Seq<char> },
    Lost { error: Seq<char> },
}

impl View for CommandOutcome {
    type V = OutcomeView;

    open spec fn view(&self) -> OutcomeView {
        match self {
            CommandOutcome::Exited { success, stdout, stderr } => OutcomeView::Exited {
                success: *success,
                stdout: stdout@,
                stderr: stderr@,
            },
            CommandOutcome::NotStarted { error } => OutcomeView::NotStarted { error: error@ },
            CommandOutcome::Lost { error } => OutcomeView::Lost { error: error@ },
        }
    }
}

impl OutcomeView {
    /// Whether the command ran to its end and reported success.
    pub open spec fn succeeded(self) -> bool {
        self matches OutcomeView::Exited { success, .. } && success
    }
}

/// What a tool answers.
#[derive(Debug, PartialEq)]
pub struct ToolResult {
    pub ok: bool,
    pub output: String,
}

/// What a [`ToolResult`] stands for.
pub struct ToolResultView {
    pub ok: bool,
    pub output: Seq<char>,
}

impl View for ToolResult {
    type V = ToolResultView;

    open spec fn view(&self) -> ToolResultView {
        ToolResultView { ok: self.ok, output: self.output@ }
    }
}

/// The answer of a tool that failed.
pub open spec fn failed(output: Seq<char>) -> ToolResultView {
    ToolResultView { ok: false, output }
}

/// The answer that a command's outcome amounts to: everything that it printed,
/// first to its standard output, then to its standard error.
pub open spec fn command_result(program: Seq<char>, outcome: OutcomeView) -> ToolResultView {
    match outcome {
        OutcomeView::Exited { success, stdout, stderr } => ToolResultView {
            ok: success,
            output: lossy_text(stdout) + lossy_text(stderr),
        },
        OutcomeView::NotStarted { error } => failed(
            "failed to spawn `"@ + program + "`: "@ + error,
        ),
        OutcomeView::Lost { error } => failed("failed to spawn `"@ + program + "`: "@ + error),
    }
}

/// The command that runs `program` with `args` and no input.
pub open spec fn plain_command(program: Seq<char>, args: Seq<Seq<char>>) -> CommandView {
    CommandView { program, args, input: None }
}

/// The answer of a tool that failed with a fixed message.
pub fn refuse(output: &str) -> (r: ToolResult)
    ensures
        r@ == failed(output@),
{
    ToolResult { ok: false, output: output.to_owned() }
}

/// The answer on what a command printed.
pub fn printed_result(success: bool, stdout: &str, stderr: &str) -> (r: ToolResult)
    ensures
        r@ == (ToolResultView { ok: success, output: stdout@ + stderr@ }),
{
    ToolResult { ok: success, output: stdout.to_owned().concat(stderr) }
}

/// The answer that the outcome of a run of `program` amounts to.
pub fn run_command(program: &str, outcome: &CommandOutcome) -> (r: ToolResult)
    ensures
        r@ == command_result(program@, outcome@),
{
    match outcome {
        CommandOutcome::Exited { success, stdout, stderr } => printed_result(
            *success,
            from_utf8_lossy(stdout.as_slice()).as_str(),
            from_utf8_lossy(stderr.as_slice()).as_str(),
        ),
        CommandOutcome::NotStarted { error } => not_spawned(program, error.as_str()),
        CommandOutcome::Lost { error } => not_spawned(program, error.as_str()),
    }
}

fn not_spawned(program: &str, error: &str) -> (r: ToolResult)
    ensures
        r@ == failed("failed to spawn `"@ + program@ + "`: "@ + error@),
{
    ToolResult {
        ok: false,
        output: "failed to spawn `".to_owned().concat(program).concat("`: ").concat(error),
    }
}

/// The command that runs `program` with `args` and no input.
pub fn command(program: &str, args: Vec<String>) -> (r: Command)
    ensures
        r@ == plain_command(program@, texts(args@)),
{
    Command { program: program.to_owned(), args, input: None }
}

/// A list of strings with the given texts.
pub fn owned_list(list: &Vec<&str>) -> (r: Vec<String>)
    ensures
        r@.len() == list@.len(),
        forall|i: int| 0 <= i < list@.len() ==> (#[trigger] r@[i])@ == list@[i]@,
{
    let mut out: Vec<String> = Vec::new();
    let n: usize = list.len();
    let mut i: usize = 0;
    while i < n
        invariant
            n == list@.len(),
            i <= n,
            out@.len() == i,
            forall|k: int| 0 <= k < i ==> (#[trigger] out@[k])@ == list@[k]@,
        decreases n - i,
    {
        out.push(list[i].to_owned());
        i = i + 1;
    }
    out
}

/// The texts of a list of string slices.
pub open spec fn slices(list: Seq<&str>) -> Seq<Seq<char>> {
    Seq::new(list.len(), |i: int| list[i]@)
}

/// The command that runs `docker` with the given arguments and no input.
pub fn docker(args: &Vec<&str>) -> (r: Command)
    ensures
        r@ == plain_command("docker"@, slices(args@)),
{
    let list: Vec<String> = owned_list(args);
    proof {
        assert(texts(list@) =~= slices(args@));
    }
    command("docker", list)
}

/// A copy of a list of strings.
pub fn copy_list(list: &Vec<String>) -> (r: Vec<String>)
    ensures
        texts(r@) == texts(list@),
{
    let mut out: Vec<String> = Vec::new();
    let n: usize = list.len();
    let mut i: usize = 0;
    while i < n
        invariant
            n == list@.len(),
            i <= n,
            texts(out@) == texts(list@).take(i as int),
        decreases n - i,
    {
        let ghost before = texts(out@);
        out.push(list[i].clone());
        proof {
            assert(texts(out@) =~= before.push(list@[i as int]@));
        }
        i = i + 1;
    }
    proof {
        assert(texts(out@) =~= texts(list@));
    }
    out
}

/// A copy of an optional string.
pub fn copy_text(s: &Option<String>) -> (r: Option<String>)
    ensures
        text_of(r) == text_of(*s),
{
    match s {
        Some(s) => Some(s.clone()),
        None => None,
    }
}

} // verus!
