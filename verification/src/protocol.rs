//! What the state machines of this library ask of the host, and what the
//! host answers.

use vstd::prelude::*;

verus! {

/// A command line to be run to completion with its output captured.
#[derive(Clone, Debug, PartialEq, Eq)]
pub struct Invocation {
    pub program: String,
    pub args: Vec<String>,
}

/// What an [`Invocation`] holds, with each text as a sequence of characters.
pub ghost struct InvocationView {
    pub program: Seq<char>,
    pub args: Seq<Seq<char>>,
}

impl InvocationView {
    /// The command line that runs `program` without arguments.
    pub open spec fn new(program: Seq<char>) -> Self {
        InvocationView { program, args: Seq::empty() }
    }

    /// The same command line with `arg` added at its end.
    pub open spec fn arg(self, arg: Seq<char>) -> Self {
        InvocationView { program: self.program, args: self.args.push(arg) }
    }
}

impl View for Invocation {
    type V = InvocationView;

    open spec fn view(&self) -> InvocationView {
        InvocationView { program: self.program@, args: self.args.deep_view() }
    }
}

/// What came of running an [`Invocation`].
#[derive(Clone, Debug, PartialEq, Eq)]
pub enum ToolOutcome {
    /// The tool ran and ended. `code` is `None` when a signal ended it.
    Exited { code: Option<i32>, stdout: String, stderr: String },
    /// The tool could not be started at all.
    NotLaunched { reason: String },
}

/// What a [`ToolOutcome`] holds, with each text as a sequence of characters.
pub ghost enum ToolOutcomeView {
    Exited { code: Option<i32>, stdout: Seq<char>, stderr: Seq<char> },
    NotLaunched { reason: Seq<char> },
}

impl ToolOutcomeView {
    /// The tool ran and reported success.
    pub open spec fn succeeded(self) -> bool {
        self matches ToolOutcomeView::Exited { code, .. } && code == Some(0i32)
    }

    /// The text that explains a failure: the error stream of a tool that ran,
    /// or the reason it could not be started.
    pub open spec fn diagnostic(self) -> Seq<char> {
        match self {
            ToolOutcomeView::Exited { stderr, .. } => stderr,
            ToolOutcomeView::NotLaunched { reason } => reason,
        }
    }
}

impl View for ToolOutcome {
    type V = ToolOutcomeView;

    open spec fn view(&self) -> ToolOutcomeView {
        match self {
            ToolOutcome::Exited { code, stdout, stderr } => ToolOutcomeView::Exited {
                code: *code,
                stdout: stdout@,
                stderr: stderr@,
            },
            ToolOutcome::NotLaunched { reason } => ToolOutcomeView::NotLaunched {
                reason: reason@,
            },
        }
    }
}

impl ToolOutcome {
    /// Whether the tool ran and reported success.
    pub fn succeeded(&self) -> (ok: bool)
        ensures
            ok == self@.succeeded(),
    {
        match self {
            ToolOutcome::Exited { code, .. } => match code {
                Some(c) => *c == 0,
                None => false,
            },
            ToolOutcome::NotLaunched { .. } => false,
        }
    }

    /// The text that explains a failure.
    pub fn diagnostic(&self) -> (text: String)
        ensures
            text@ == self@.diagnostic(),
    {
        match self {
            ToolOutcome::Exited { stderr, .. } => stderr.clone(),
            ToolOutcome::NotLaunched { reason } => reason.clone(),
        }
    }
}

/// How loudly a message is reported to the operator.
#[derive(Clone, Copy, Debug, PartialEq, Eq, Structural)]
pub enum Level {
    Debug,
    Info,
    Warn,
    Error,
}

/// Capacity figures of a mounted filesystem, in units of `fragment_size` bytes.
#[derive(Clone, Copy, Debug, PartialEq, Eq, Structural)]
pub struct FsStats {
    pub fragment_size: u64,
    pub blocks: u64,
    pub blocks_free: u64,
    pub blocks_available: u64,
}

/// What a state machine of this library needs from the host before it can go on.
#[derive(Clone, Debug, PartialEq, Eq)]
pub enum Request {
    /// Resolve a path to its canonical absolute form.
    Resolve { path: String },
    /// Run a tool and capture its exit status and output.
    Run(Invocation),
    /// Look for an executable of this name on the search path.
    Locate { tool: String },
    /// Query the capacity figures of the filesystem mounted at this path.
    Stat { mount_point: String },
    /// Read the live mount table.
    ReadMounts,
    /// Report a message to the operator.
    Log { level: Level, message: String },
    /// Read the cancellation flag.
    CheckCancel,
    /// Sleep for this many milliseconds.
    Sleep { millis: u64 },
    /// Nothing: the machine has finished.
    Done,
}

/// What a [`Request`] holds, with each text as a sequence of characters.
pub ghost enum RequestView {
    Resolve { path: Seq<char> },
    Run(InvocationView),
    Locate { tool: Seq<char> },
    Stat { mount_point: Seq<char> },
    ReadMounts,
    Log { level: Level, message: Seq<char> },
    CheckCancel,
    Sleep { millis: u64 },
    Done,
}

impl View for Request {
    type V = RequestView;

    open spec fn view(&self) -> RequestView {
        match self {
            Request::Resolve { path } => RequestView::Resolve { path: path@ },
            Request::Run(invocation) => RequestView::Run(invocation@),
            Request::Locate { tool } => RequestView::Locate { tool: tool@ },
            Request::Stat { mount_point } => RequestView::Stat { mount_point: mount_point@ },
            Request::ReadMounts => RequestView::ReadMounts,
            Request::Log { level, message } => RequestView::Log {
                level: *level,
                message: message@,
            },
            Request::CheckCancel => RequestView::CheckCancel,
            Request::Sleep { millis } => RequestView::Sleep { millis: *millis },
            Request::Done => RequestView::Done,
        }
    }
}

/// The host's answer to a [`Request`].
#[derive(Clone, Debug, PartialEq, Eq)]
pub enum Reply {
    /// The canonical path, or `None` where the path does not resolve.
    Resolved(Option<String>),
    Tool(ToolOutcome),
    Located(bool),
    /// The capacity figures, or `None` where the query failed.
    Stats(Option<FsStats>),
    /// The text of the mount table, or `None` where it could not be read.
    Mounts(Option<String>),
    Logged,
    /// Whether cancellation has been asked for.
    Cancel(bool),
    Slept,
}

/// What a [`Reply`] holds, with each text as a sequence of characters.
pub ghost enum ReplyView {
    Resolved(Option<Seq<char>>),
    Tool(ToolOutcomeView),
    Located(bool),
    Stats(Option<FsStats>),
    Mounts(Option<Seq<char>>),
    Logged,
    Cancel(bool),
    Slept,
}

impl View for Reply {
    type V = ReplyView;

    open spec fn view(&self) -> ReplyView {
        match self {
            Reply::Resolved(path) => ReplyView::Resolved(path.deep_view()),
            Reply::Tool(outcome) => ReplyView::Tool(outcome@),
            Reply::Located(found) => ReplyView::Located(*found),
            Reply::Stats(stats) => ReplyView::Stats(*stats),
            Reply::Mounts(text) => ReplyView::Mounts(text.deep_view()),
            Reply::Logged => ReplyView::Logged,
            Reply::Cancel(cancelled) => ReplyView::Cancel(*cancelled),
            Reply::Slept => ReplyView::Slept,
        }
    }
}

/// The view of a result: that of its value or that of its error.
pub open spec fn view_result<T: View, E: View>(r: Result<T, E>) -> Result<T::V, E::V> {
    match r {
        Ok(t) => Ok(t@),
        Err(e) => Err(e@),
    }
}

/// The view of a machine's result: `None` while it is still running.
pub open spec fn view_outcome<T: View, E: View>(r: Option<Result<T, E>>) -> Option<
    Result<T::V, E::V>,
> {
    match r {
        Some(r) => Some(view_result(r)),
        None => None,
    }
}

impl Invocation {
    /// A command line that runs `program` without arguments.
    pub fn new(program: &str) -> (inv: Invocation)
        ensures
            inv@ == InvocationView::new(program@),
    {
        let inv = Invocation { program: program.to_owned(), args: Vec::new() };
        assert(inv.args.deep_view() =~= Seq::empty());
        inv
    }

    /// The same command line with `arg` added at its end.
    pub fn arg(self, arg: &str) -> (inv: Invocation)
        ensures
            inv@ == self@.arg(arg@),
    {
        let mut args = self.args;
        let ghost before = args.deep_view();
        args.push(arg.to_owned());
        let inv = Invocation { program: self.program, args };
        assert(inv.args.deep_view() =~= before.push(arg@));
        inv
    }
}

} // verus!
