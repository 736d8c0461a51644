//! What passes between a resolution and its host: the questions the resolution asks, the
//! answers the host gives, and the command that comes out in the end.

use crate::failure::{Failure, FailureView};
use crate::platform::Platform;
use crate::release::{Release, ReleaseView};
use crate::store::{entry_views, DirEntry, DirEntryView};
use crate::text::{text_of, texts, texts_of};
use vstd::prelude::*;

verus! {

/// What the user's settings say of a tool's executable.
#[derive(Clone, Debug, PartialEq, Eq)]
pub struct CommandSettings {
    /// The executable to start instead of any the resolution would find.
    pub path: Option<String>,
    /// The arguments to start it with.
    pub arguments: Option<Vec<String>>,
}

/// What a [`CommandSettings`] holds, as plain values.
pub struct CommandSettingsView {
    pub path: Option<Seq<char>>,
    pub arguments: Option<Seq<Seq<char>>>,
}

impl View for CommandSettings {
    type V = CommandSettingsView;

    open spec fn view(&self) -> CommandSettingsView {
        CommandSettingsView { path: text_of(self.path), arguments: texts_of(self.arguments) }
    }
}

/// The executable the user configured, if the settings name one.
pub open spec fn configured_path(settings: Option<CommandSettingsView>) -> Option<Seq<char>> {
    match settings {
        Some(settings) => settings.path,
        None => None,
    }
}

/// The arguments the user configured, if the settings name any.
pub open spec fn configured_arguments(settings: Option<CommandSettingsView>) -> Option<
    Seq<Seq<char>>,
> {
    match settings {
        Some(settings) => settings.arguments,
        None => None,
    }
}

/// The outcome of a resolution: the executable to start.
#[derive(Clone, Debug, PartialEq, Eq)]
pub struct ResolvedCommand {
    pub path: String,
    /// The arguments the user configured. `None` where the settings name none: the caller
    /// then starts the tool with its default arguments.
    pub args: Option<Vec<String>>,
}

/// What a [`ResolvedCommand`] holds, as plain values.
pub struct ResolvedCommandView {
    pub path: Seq<char>,
    pub args: Option<Seq<Seq<char>>>,
}

impl View for ResolvedCommand {
    type V = ResolvedCommandView;

    open spec fn view(&self) -> ResolvedCommandView {
        ResolvedCommandView { path: self.path@, args: texts_of(self.args) }
    }
}

/// What the editor shows of an installation in progress.
#[derive(Clone, Copy, Debug, PartialEq, Eq, Structural)]
pub enum InstallationStatus {
    CheckingForUpdate,
    Downloading,
}

/// What the host does with a download.
#[derive(Clone, Copy, Debug, PartialEq, Eq, Structural)]
pub enum FileType {
    /// Stores the file as it comes.
    Uncompressed,
    /// Unpacks the archive into the destination directory.
    Zip,
}

/// A question to the host, or a task for it. Each is answered by one [`Event`].
#[derive(Clone, Debug, PartialEq, Eq)]
pub enum Request {
    /// Read what the settings say of the executable of `server`. Answer: `Settings`.
    ReadSettings { server: String },
    /// Look `name` up on the search path of the project. Answer: `Located`.
    Which { name: String },
    /// Tell whether `path` is a regular file. Answer: `FileProbed`.
    IsFile { path: String },
    /// Show `status` for `server` in the editor. Answer: `Acknowledged`.
    Report { server: String, status: InstallationStatus },
    /// Fetch the latest release of `repository`. Answer: `Release`.
    LatestRelease { repository: String, require_assets: bool, pre_release: bool },
    /// List the working directory, and tell of each entry whether it holds a regular file at
    /// `probe`, where one is given. Answer: `Listing`.
    List { probe: Option<String> },
    /// Create the directory `path` and what is missing above it. Answer: `Completed`.
    CreateDir { path: String },
    /// Download `url` to `destination`. Answer: `Completed`.
    Download { url: String, destination: String, file_type: FileType },
    /// Read the file `path`. Answer: `Contents`.
    ReadFile { path: String },
    /// Move the file `from` to `to`. Answer: `Completed`.
    Rename { from: String, to: String },
    /// Make the file `path` executable. Answer: `Completed`.
    MakeExecutable { path: String },
    /// Remove the entries of the working directory called `names` with all they hold, as far
    /// as that succeeds. Answer: `Acknowledged`.
    Remove { names: Vec<String> },
}

/// What a [`Request`] holds, as plain values.
pub enum RequestView {
    ReadSettings { server: Seq<char> },
    Which { name: Seq<char> },
    IsFile { path: Seq<char> },
    Report { server: Seq<char>, status: InstallationStatus },
    LatestRelease { repository: Seq<char>, require_assets: bool, pre_release: bool },
    List { probe: Option<Seq<char>> },
    CreateDir { path: Seq<char> },
    Download { url: Seq<char>, destination: Seq<char>, file_type: FileType },
    ReadFile { path: Seq<char> },
    Rename { from: Seq<char>, to: Seq<char> },
    MakeExecutable { path: Seq<char> },
    Remove { names: Seq<Seq<char>> },
}

impl View for Request {
    type V = RequestView;

    open spec fn view(&self) -> RequestView {
        match self {
            Request::ReadSettings { server } => RequestView::ReadSettings { server: server@ },
            Request::Which { name } => RequestView::Which { name: name@ },
            Request::IsFile { path } => RequestView::IsFile { path: path@ },
            Request::Report { server, status } => RequestView::Report {
                server: server@,
                status: *status,
            },
            Request::LatestRelease { repository, require_assets, pre_release } => {
                RequestView::LatestRelease {
                    repository: repository@,
                    require_assets: *require_assets,
                    pre_release: *pre_release,
                }
            },
            Request::List { probe } => RequestView::List { probe: text_of(*probe) },
            Request::CreateDir { path } => RequestView::CreateDir { path: path@ },
            Request::Download { url, destination, file_type } => RequestView::Download {
                url: url@,
                destination: destination@,
                file_type: *file_type,
            },
            Request::ReadFile { path } => RequestView::ReadFile { path: path@ },
            Request::Rename { from, to } => RequestView::Rename { from: from@, to: to@ },
            Request::MakeExecutable { path } => RequestView::MakeExecutable { path: path@ },
            Request::Remove { names } => RequestView::Remove { names: texts(names@) },
        }
    }
}

impl RequestView {
    /// Whether the request goes out to the network.
    pub open spec fn uses_network(self) -> bool {
        self is LatestRelease || self is Download
    }

    /// Whether the request changes the file system.
    pub open spec fn changes_files(self) -> bool {
        self is CreateDir || self is Download || self is Rename || self is MakeExecutable
            || self is Remove
    }
}

/// What the host reports back.
#[derive(Debug, PartialEq, Eq)]
pub enum Event {
    /// A resolution is wanted, on this platform.
    Start { platform: Platform },
    /// What the settings say of the executable; `None` where they say nothing or cannot be
    /// read.
    Settings { binary: Option<CommandSettings> },
    /// Where the search path has the executable, if it has it.
    Located { path: Option<String> },
    /// Whether the path is a regular file.
    FileProbed { is_file: bool },
    /// The task was attempted.
    Acknowledged,
    /// The latest release, or why it could not be had.
    Release { release: Result<Release, String> },
    /// The entries of the working directory that could be read; none where it cannot be
    /// listed.
    Listing { entries: Vec<DirEntry> },
    /// The task was done, or why it was not.
    Completed { outcome: Result<(), String> },
    /// The bytes of the file, or why they could not be read.
    Contents { contents: Result<Vec<u8>, String> },
}

/// What an [`Event`] holds, as plain values.
pub enum EventView {
    Start { platform: Platform },
    Settings { binary: Option<CommandSettingsView> },
    Located { path: Option<Seq<char>> },
    FileProbed { is_file: bool },
    Acknowledged,
    Release { release: Result<ReleaseView, Seq<char>> },
    Listing { entries: Seq<DirEntryView> },
    Completed { outcome: Result<(), Seq<char>> },
    Contents { contents: Result<Seq<u8>, Seq<char>> },
}

impl View for Event {
    type V = EventView;

    open spec fn view(&self) -> EventView {
        match self {
            Event::Start { platform } => EventView::Start { platform: *platform },
            Event::Settings { binary } => EventView::Settings { binary: settings_view(*binary) },
            Event::Located { path } => EventView::Located { path: text_of(*path) },
            Event::FileProbed { is_file } => EventView::FileProbed { is_file: *is_file },
            Event::Acknowledged => EventView::Acknowledged,
            Event::Release { release } => EventView::Release {
                release: match release {
                    Ok(release) => Ok(release@),
                    Err(reason) => Err(reason@),
                },
            },
            Event::Listing { entries } => EventView::Listing { entries: entry_views(entries@) },
            Event::Completed { outcome } => EventView::Completed {
                outcome: match outcome {
                    Ok(_) => Ok(()),
                    Err(reason) => Err(reason@),
                },
            },
            Event::Contents { contents } => EventView::Contents {
                contents: match contents {
                    Ok(bytes) => Ok(bytes@),
                    Err(reason) => Err(reason@),
                },
            },
        }
    }
}

/// What is said to an event: the next request, or the outcome.
#[derive(Debug, PartialEq, Eq)]
pub enum Reply<T> {
    Ask(Request),
    Done(Result<T, Failure>),
}

/// What a [`Reply`] holds, as plain values.
pub enum ReplyView<V> {
    Ask(RequestView),
    Done(Result<V, FailureView>),
}

impl<T: View> View for Reply<T> {
    type V = ReplyView<T::V>;

    open spec fn view(&self) -> ReplyView<T::V> {
        match self {
            Reply::Ask(request) => ReplyView::Ask(request@),
            Reply::Done(Ok(outcome)) => ReplyView::Done(Ok(outcome@)),
            Reply::Done(Err(failure)) => ReplyView::Done(Err(failure@)),
        }
    }
}

impl<V> ReplyView<V> {
    /// The same reply with the outcome of a success put through `f`.
    pub open spec fn map<W>(self, f: spec_fn(V) -> W) -> ReplyView<W> {
        match self {
            ReplyView::Ask(request) => ReplyView::Ask(request),
            ReplyView::Done(Ok(outcome)) => ReplyView::Done(Ok(f(outcome))),
            ReplyView::Done(Err(failure)) => ReplyView::Done(Err(failure)),
        }
    }
}

/// What a resolver says to an event.
pub type Resolution = Reply<ResolvedCommand>;

pub type ResolutionView = ReplyView<ResolvedCommandView>;

/// A command line for the editor to start.
#[derive(Clone, Debug, PartialEq, Eq)]
pub struct Command {
    pub command: String,
    pub args: Vec<String>,
    /// The environment variables to start it with, as names and values.
    pub env: Vec<(String, String)>,
}

/// What a [`Command`] holds, as plain values.
pub struct CommandView {
    pub command: Seq<char>,
    pub args: Seq<Seq<char>>,
    pub env: Seq<(Seq<char>, Seq<char>)>,
}

impl View for Command {
    type V = CommandView;

    open spec fn view(&self) -> CommandView {
        CommandView {
            command: self.command@,
            args: texts(self.args@),
            env: Seq::new(self.env@.len(), |i: int| (self.env@[i].0@, self.env@[i].1@)),
        }
    }
}

impl ResolvedCommandView {
    /// The command line that starts the executable: with the arguments the user configured,
    /// or else none, and nothing added to the environment.
    pub open spec fn command(self) -> CommandView {
        CommandView {
            command: self.path,
            args: match self.args {
                Some(args) => args,
                None => Seq::empty(),
            },
            env: Seq::empty(),
        }
    }
}

impl ResolvedCommand {
    /// The command line that starts the executable: with the arguments the user configured,
    /// or else none, and nothing added to the environment.
    pub fn command(self) -> (command: Command)
        ensures
            command@ == self@.command(),
    {
        let args = match self.args {
            Some(args) => args,
            None => {
                let none: Vec<String> = Vec::new();
                assert(texts(none@) =~= Seq::<Seq<char>>::empty());
                none
            },
        };
        let command = Command { command: self.path, args, env: Vec::new() };
        assert(command@.env =~= Seq::empty());
        command
    }
}

/// The view of optional settings.
pub open spec fn settings_view(settings: Option<CommandSettings>) -> Option<CommandSettingsView> {
    match settings {
        Some(settings) => Some(settings@),
        None => None,
    }
}

/// The executable the user configured, if the settings name one.
pub fn get_binary_path(binary_settings: &Option<CommandSettings>) -> (path: Option<String>)
    ensures
        text_of(path) == configured_path(settings_view(*binary_settings)),
{
    match binary_settings {
        Some(settings) => match &settings.path {
            Some(path) => Some(path.clone()),
            None => None,
        },
        None => None,
    }
}

/// The arguments the user configured, if the settings name any.
pub fn get_binary_args(binary_settings: &Option<CommandSettings>) -> (arguments: Option<
    Vec<String>,
>)
    ensures
        texts_of(arguments) == configured_arguments(settings_view(*binary_settings)),
{
    match binary_settings {
        Some(settings) => match &settings.arguments {
            Some(arguments) => Some(crate::text::copy_texts(arguments)),
            None => None,
        },
        None => None,
    }
}

} // verus!
