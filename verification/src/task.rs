//! A tool call in progress. A tool works by steps: it either has its answer, or
//! it names one action for the host to perform and a task to go on with once the
//! action has brought its event.

use vstd::prelude::*;
use crate::command::{Command, CommandOutcome, CommandView, OutcomeView, ToolResult, ToolResultView};
use crate::container::{ContainerInspect, InspectView, Recipe, RecipeView};
use crate::discovery::{Discovery, DiscoveryManifest, DiscoveryView, RoleView, roles_view};
use crate::json::{Json, JsonView, Member, members_view};
use crate::memory::{Memory, MemoryView};
use crate::text::{text_of, texts};

verus! {

/// A call of a tool.
#[derive(Debug, PartialEq)]
pub struct ToolCall {
    pub name: String,
    pub arguments: Json,
}

/// What a [`ToolCall`] stands for.
pub struct ToolCallView {
    pub name: Seq<char>,
    pub arguments: JsonView,
}

impl View for ToolCall {
    type V = ToolCallView;

    open spec fn view(&self) -> ToolCallView {
        ToolCallView { name: self.name@, arguments: self.arguments@ }
    }
}

/// What the tools know of the host.
#[derive(Debug, PartialEq)]
pub struct Host {
    /// The binaries that were found on the host.
    pub binaries: Vec<String>,
    /// The compose directory, where the host sets one.
    pub compose_dir: Option<String>,
    /// Whether that directory holds a `compose.yaml`.
    pub has_compose_yaml: bool,
    /// Whether that directory holds a `compose.yml`.
    pub has_compose_yml: bool,
}

/// What a [`Host`] stands for.
pub struct HostView {
    pub binaries: Seq<Seq<char>>,
    pub compose_dir: Option<Seq<char>>,
    pub has_compose_yaml: bool,
    pub has_compose_yml: bool,
}

impl View for Host {
    type V = HostView;

    open spec fn view(&self) -> HostView {
        HostView {
            binaries: texts(self.binaries@),
            compose_dir: text_of(self.compose_dir),
            has_compose_yaml: self.has_compose_yaml,
            has_compose_yml: self.has_compose_yml,
        }
    }
}

/// Something for the host to do.
#[derive(Debug, PartialEq)]
pub enum ToolAction {
    /// Run a command.
    Run(Command),
    /// Read the discovery manifest.
    LoadManifest,
    /// Read a file.
    ReadFile { path: String },
    /// Replace the content of a file.
    WriteFile { path: String, content: String },
    /// Add text at the end of a file that exists.
    AppendFile { path: String, text: String },
    /// Keep the memory on disk.
    SaveMemory(Memory),
    /// Read the output of `docker inspect`.
    DecodeInspect { printed: String },
}

/// What a [`ToolAction`] stands for.
pub enum ActionView {
    Run(CommandView),
    LoadManifest,
    ReadFile { path: Seq<char> },
    WriteFile { path: Seq<char>, content: Seq<char> },
    AppendFile { path: Seq<char>, text: Seq<char> },
    SaveMemory(MemoryView),
    DecodeInspect { printed: Seq<char> },
}

impl View for ToolAction {
    type V = ActionView;

    open spec fn view(&self) -> ActionView {
        match self {
            ToolAction::Run(c) => ActionView::Run(c@),
            ToolAction::LoadManifest => ActionView::LoadManifest,
            ToolAction::ReadFile { path } => ActionView::ReadFile { path: path@ },
            ToolAction::WriteFile { path, content } => ActionView::WriteFile {
                path: path@,
                content: content@,
            },
            ToolAction::AppendFile { path, text } => ActionView::AppendFile {
                path: path@,
                text: text@,
            },
            ToolAction::SaveMemory(m) => ActionView::SaveMemory(m@),
            ToolAction::DecodeInspect { printed } => ActionView::DecodeInspect {
                printed: printed@,
            },
        }
    }
}

/// What an action brought.
#[derive(Debug, PartialEq)]
pub enum ToolEvent {
    /// A command was run.
    Ran(CommandOutcome),
    /// The manifest was looked for: there is none, or there is one that could be
    /// read or not.
    Manifest(Option<Result<DiscoveryManifest, String>>),
    /// A file was read.
    FileRead(Result<String, String>),
    /// A file was written, added to, or the memory was kept.
    Stored(Result<(), String>),
    /// The output of `docker inspect` was read.
    Inspected(Result<ContainerInspect, String>),
}

/// What a [`ToolEvent`] stands for.
pub enum EventView {
    Ran(OutcomeView),
    Manifest(Seq<RoleView>),
    FileRead(Result<Seq<char>, Seq<char>>),
    Stored(Result<(), Seq<char>>),
    Inspected(Result<InspectView, Seq<char>>),
}

/// The roles that a manifest declares, given what was found on disk.
pub open spec fn declared_roles(found: Option<Result<DiscoveryManifest, String>>) -> Seq<RoleView> {
    match found {
        Some(Ok(m)) => roles_view(m.services@),
        _ => seq![],
    }
}

impl View for ToolEvent {
    type V = EventView;

    open spec fn view(&self) -> EventView {
        match self {
            ToolEvent::Ran(o) => EventView::Ran(o@),
            ToolEvent::Manifest(found) => EventView::Manifest(declared_roles(*found)),
            ToolEvent::FileRead(Ok(s)) => EventView::FileRead(Ok(s@)),
            ToolEvent::FileRead(Err(e)) => EventView::FileRead(Err(e@)),
            ToolEvent::Stored(Ok(_)) => EventView::Stored(Ok(())),
            ToolEvent::Stored(Err(e)) => EventView::Stored(Err(e@)),
            ToolEvent::Inspected(Ok(i)) => EventView::Inspected(Ok(i@)),
            ToolEvent::Inspected(Err(e)) => EventView::Inspected(Err(e@)),
        }
    }
}

/// Where a staged config file goes.
#[derive(Debug, PartialEq)]
pub struct Target {
    pub container: String,
    pub config_path: String,
    pub reload_command: Vec<String>,
}

/// What a [`Target`] stands for.
pub struct TargetView {
    pub container: Seq<char>,
    pub config_path: Seq<char>,
    pub reload_command: Seq<Seq<char>>,
}

impl View for Target {
    type V = TargetView;

    open spec fn view(&self) -> TargetView {
        TargetView {
            container: self.container@,
            config_path: self.config_path@,
            reload_command: texts(self.reload_command@),
        }
    }
}

/// A `docker run` that makes a container anew.
#[derive(Debug, PartialEq)]
pub struct Recreation {
    pub image: String,
    pub env_path: String,
    /// The number of variables in the `.env` file.
    pub from_file: usize,
    /// The number of variables that only the original container had.
    pub kept: usize,
    pub args: Vec<String>,
}

/// What a [`Recreation`] stands for.
pub struct RecreationView {
    pub image: Seq<char>,
    pub env_path: Seq<char>,
    pub from_file: nat,
    pub kept: nat,
    pub args: Seq<Seq<char>>,
}

impl View for Recreation {
    type V = RecreationView;

    open spec fn view(&self) -> RecreationView {
        RecreationView {
            image: self.image@,
            env_path: self.env_path@,
            from_file: self.from_file as nat,
            kept: self.kept as nat,
            args: texts(self.args@),
        }
    }
}

/// What a tool waits for.
#[derive(Debug, PartialEq)]
pub enum ToolTask {
    /// A command whose output is the answer.
    Printing { program: String },
    /// The lookup of a host name.
    Resolving { target: String },
    /// The listing of the bridge network, after the lookup of a host name.
    ListingBridge { target: String, dns: ToolResult },
    /// The discovery manifest.
    LoadingManifest,
    /// The next command of a run of discovery.
    Discovering(Discovery),
    /// The memory to be kept after a run of discovery.
    SavingDiscovery { count: usize, summary: Vec<String> },
    /// The config file to compare a proposal with.
    ReadingCurrent { role: String, proposed: String },
    /// The staged config file to be written.
    WritingStaged(Target),
    /// The staged config file to be moved into place.
    MovingStaged(Target),
    /// The reload command.
    Reloading,
    /// A note to be added to the instructions.
    AppendingNote { note: String },
    /// The memory to be kept after a note.
    SavingNote { appended: bool },
    /// The inspection of a container.
    Inspecting { container: String },
    /// The inspection to be read.
    DecodingInspect { container: String, printed: String },
    /// The container to stop.
    Stopping { container: String, recipe: Recipe },
    /// The container to go.
    Removing { container: String, recipe: Recipe },
    /// The `.env` file for a container that is made anew.
    ReadingEnv { container: String, recipe: Recipe, env_path: String },
    /// The container to run anew.
    Recreating(Recreation),
    /// The variables of a container.
    ListingEnv { filter: String },
    /// The `.env` file to be changed.
    ReadingEnvFile { values: Vec<Member>, env_path: String },
    /// The changed `.env` file to be written.
    WritingEnvFile { env_path: String, changes: Vec<String> },
}

/// What a [`ToolTask`] stands for.
pub enum TaskView {
    Printing { program: Seq<char> },
    Resolving { target: Seq<char> },
    ListingBridge { target: Seq<char>, dns: ToolResultView },
    LoadingManifest,
    Discovering(DiscoveryView),
    SavingDiscovery { count: nat, summary: Seq<Seq<char>> },
    ReadingCurrent { role: Seq<char>, proposed: Seq<char> },
    WritingStaged(TargetView),
    MovingStaged(TargetView),
    Reloading,
    AppendingNote { note: Seq<char> },
    SavingNote { appended: bool },
    Inspecting { container: Seq<char> },
    DecodingInspect { container: Seq<char>, printed: Seq<char> },
    Stopping { container: Seq<char>, recipe: RecipeView },
    Removing { container: Seq<char>, recipe: RecipeView },
    ReadingEnv { container: Seq<char>, recipe: RecipeView, env_path: Seq<char> },
    Recreating(RecreationView),
    ListingEnv { filter: Seq<char> },
    ReadingEnvFile { values: Seq<(Seq<char>, JsonView)>, env_path: Seq<char> },
    WritingEnvFile { env_path: Seq<char>, changes: Seq<Seq<char>> },
}

impl View for ToolTask {
    type V = TaskView;

    open spec fn view(&self) -> TaskView {
        match self {
            ToolTask::Printing { program } => TaskView::Printing { program: program@ },
            ToolTask::Resolving { target } => TaskView::Resolving { target: target@ },
            ToolTask::ListingBridge { target, dns } => TaskView::ListingBridge {
                target: target@,
                dns: dns@,
            },
            ToolTask::LoadingManifest => TaskView::LoadingManifest,
            ToolTask::Discovering(d) => TaskView::Discovering(d@),
            ToolTask::SavingDiscovery { count, summary } => TaskView::SavingDiscovery {
                count: *count as nat,
                summary: texts(summary@),
            },
            ToolTask::ReadingCurrent { role, proposed } => TaskView::ReadingCurrent {
                role: role@,
                proposed: proposed@,
            },
            ToolTask::WritingStaged(t) => TaskView::WritingStaged(t@),
            ToolTask::MovingStaged(t) => TaskView::MovingStaged(t@),
            ToolTask::Reloading => TaskView::Reloading,
            ToolTask::AppendingNote { note } => TaskView::AppendingNote { note: note@ },
            ToolTask::SavingNote { appended } => TaskView::SavingNote { appended: *appended },
            ToolTask::Inspecting { container } => TaskView::Inspecting { container: container@ },
            ToolTask::DecodingInspect { container, printed } => TaskView::DecodingInspect {
                container: container@,
                printed: printed@,
            },
            ToolTask::Stopping { container, recipe } => TaskView::Stopping {
                container: container@,
                recipe: recipe@,
            },
            ToolTask::Removing { container, recipe } => TaskView::Removing {
                container: container@,
                recipe: recipe@,
            },
            ToolTask::ReadingEnv { container, recipe, env_path } => TaskView::ReadingEnv {
                container: container@,
                recipe: recipe@,
                env_path: env_path@,
            },
            ToolTask::Recreating(r) => TaskView::Recreating(r@),
            ToolTask::ListingEnv { filter } => TaskView::ListingEnv { filter: filter@ },
            ToolTask::ReadingEnvFile { values, env_path } => TaskView::ReadingEnvFile {
                values: members_view(values@),
                env_path: env_path@,
            },
            ToolTask::WritingEnvFile { env_path, changes } => TaskView::WritingEnvFile {
                env_path: env_path@,
                changes: texts(changes@),
            },
        }
    }
}

impl TaskView {
    /// Whether the task can go on with an event: the event is of the sort that
    /// the task waits for.
    pub open spec fn accepts(self, event: EventView) -> bool {
        match self {
            TaskView::LoadingManifest => event is Manifest,
            TaskView::Discovering(d) => event is Ran && d.waiting(),
            TaskView::SavingDiscovery { .. } => event is Stored,
            TaskView::AppendingNote { .. } => event is Stored,
            TaskView::SavingNote { .. } => event is Stored,
            TaskView::DecodingInspect { .. } => event is Inspected,
            TaskView::ReadingEnv { .. } => event is FileRead,
            TaskView::ReadingEnvFile { .. } => event is FileRead,
            TaskView::WritingEnvFile { .. } => event is Stored,
            _ => event is Ran,
        }
    }
}

impl ToolTask {
    /// Whether the task can go on with an event.
    pub fn accepts(&self, event: &ToolEvent) -> (r: bool)
        ensures
            r == self@.accepts(event@),
    {
        let ran: bool = match event {
            ToolEvent::Ran(_) => true,
            _ => false,
        };
        let stored: bool = match event {
            ToolEvent::Stored(_) => true,
            _ => false,
        };
        let read: bool = match event {
            ToolEvent::FileRead(_) => true,
            _ => false,
        };
        match self {
            ToolTask::LoadingManifest => match event {
                ToolEvent::Manifest(_) => true,
                _ => false,
            },
            ToolTask::Discovering(d) => ran && d.is_waiting(),
            ToolTask::SavingDiscovery { .. } => stored,
            ToolTask::AppendingNote { .. } => stored,
            ToolTask::SavingNote { .. } => stored,
            ToolTask::DecodingInspect { .. } => match event {
                ToolEvent::Inspected(_) => true,
                _ => false,
            },
            ToolTask::ReadingEnv { .. } => read,
            ToolTask::ReadingEnvFile { .. } => read,
            ToolTask::WritingEnvFile { .. } => stored,
            _ => ran,
        }
    }
}

/// What a tool does next.
#[derive(Debug, PartialEq)]
pub enum ToolStep {
    /// It has its answer.
    Done(ToolResult),
    /// It wants the action performed and goes on with what that brings.
    Await(ToolTask, ToolAction),
}

/// What a [`ToolStep`] stands for.
pub enum StepView {
    Done(ToolResultView),
    Await(TaskView, ActionView),
}

impl View for ToolStep {
    type V = StepView;

    open spec fn view(&self) -> StepView {
        match self {
            ToolStep::Done(r) => StepView::Done(r@),
            ToolStep::Await(t, a) => StepView::Await(t@, a@),
        }
    }
}

} // verus!
