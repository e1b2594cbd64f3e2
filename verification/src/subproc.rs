//! The wrapped command and the supervisor that keeps it alive.
//!
//! The supervisor is a state machine. The task that owns the child process
//! tells it what happened, one `RunEvent` at a time, and does what the
//! answering `RunAction` says. `ServerView::step` is the machine in
//! mathematical form; `WrappedServer::run_loop` is the code that runs it.

use crate::text::{decimal, decimal_string, join_lines, joined, signed_decimal, signed_decimal_string};
use std::collections::VecDeque;
use vstd::prelude::*;
use vstd::string::*;

verus! {

/// How many lines of subprocess output are kept.
pub const MAX_STDOUT_LINES: usize = 50;

/// How many commands may wait for the supervisor before senders must wait.
pub const COMMAND_QUEUE_CAPACITY: usize = 32;

/// How many reload notices a slow listener may fall behind before it is told
/// that it lagged.
pub const RELOAD_CAPACITY: usize = 32;

/// Why a command line was refused.
#[derive(Debug, Clone, Copy, PartialEq, Eq, Structural)]
pub enum ParseError {
    /// The line is not well quoted, or holds no word at all.
    InvalidCommand,
}

impl ParseError {
    /// The diagnostic shown to the user.
    pub fn message(&self) -> (text: String)
        ensures
            text@ == "Invalid command"@,
    {
        "Invalid command".to_owned()
    }
}

/// A program and its arguments, as the contracts see them.
pub struct CommandView {
    pub command: Seq<char>,
    pub args: Seq<Seq<char>>,
}

/// The command that the supervisor runs: a program and its argument vector.
#[derive(Debug, Clone, PartialEq, Eq)]
pub struct WrappedCommand {
    pub command: String,
    pub args: Vec<String>,
}

impl View for WrappedCommand {
    type V = CommandView;

    open spec fn view(&self) -> CommandView {
        CommandView { command: self.command@, args: self.args.deep_view() }
    }
}

/// The words into which POSIX shell quoting rules split `input`; `None` when
/// the input ends inside a quotation or right after a backslash.
pub uninterp spec fn shell_words(input: Seq<char>) -> Option<Seq<Seq<char>>>;

/// `shlex::split`. The contract names its result and claims nothing of the
/// words themselves.
#[verifier::external_body]
fn split_words(input: &str) -> (words: Option<Vec<String>>)
    ensures
        words.deep_view() == shell_words(input@),
{
    shlex::split(input)
}

/// The command that a list of words stands for: the first word is the
/// program, the others are its arguments. No list, or an empty one, is no
/// command.
pub open spec fn command_of_words(words: Option<Seq<Seq<char>>>) -> Result<CommandView, ParseError> {
    match words {
        Some(w) if w.len() > 0 => Ok(
            CommandView { command: w[0], args: w.subrange(1, w.len() as int) },
        ),
        _ => Err(ParseError::InvalidCommand),
    }
}

/// Whether `result` is the outcome that `expected` describes.
pub open spec fn parsed_as(
    result: Result<WrappedCommand, ParseError>,
    expected: Result<CommandView, ParseError>,
) -> bool {
    match result {
        Ok(command) => expected == Ok::<CommandView, ParseError>(command@),
        Err(error) => expected == Err::<CommandView, ParseError>(error),
    }
}

/// How a subprocess is to be started, as the contracts see it.
pub struct LaunchView {
    pub program: Seq<char>,
    pub args: Seq<Seq<char>>,
    pub env: Seq<(Seq<char>, Seq<char>)>,
    pub pipe_stdout: bool,
    pub pipe_stderr: bool,
    pub kill_on_drop: bool,
    pub process_group: Option<i32>,
}

/// How a subprocess is to be started.
#[derive(Debug, Clone, PartialEq, Eq)]
pub struct Launch {
    /// The program to run.
    pub program: String,
    /// Its arguments, in order.
    pub args: Vec<String>,
    /// Variables added to the environment that the child inherits.
    pub env: Vec<(String, String)>,
    /// Whether the child's standard output is captured through a pipe.
    pub pipe_stdout: bool,
    /// Whether the child's standard error is captured through a pipe.
    pub pipe_stderr: bool,
    /// Whether the child is killed when its handle is dropped.
    pub kill_on_drop: bool,
    /// The process group that the child joins; `Some(0)` gives it a group of
    /// its own, so that terminal signals sent to the parent do not reach it.
    pub process_group: Option<i32>,
}

impl View for Launch {
    type V = LaunchView;

    open spec fn view(&self) -> LaunchView {
        LaunchView {
            program: self.program@,
            args: self.args.deep_view(),
            env: self.env.deep_view(),
            pipe_stdout: self.pipe_stdout,
            pipe_stderr: self.pipe_stderr,
            kill_on_drop: self.kill_on_drop,
            process_group: self.process_group,
        }
    }
}

/// The program and its arguments, with nothing else arranged.
pub open spec fn bare_launch(command: CommandView) -> LaunchView {
    LaunchView {
        program: command.command,
        args: command.args,
        env: Seq::empty(),
        pipe_stdout: false,
        pipe_stderr: false,
        kill_on_drop: false,
        process_group: None,
    }
}

/// The way the supervisor starts its command: `PORT` set to the port in
/// decimal, both output streams piped, killed on drop, in a process group of
/// its own.
pub open spec fn supervised_launch(command: CommandView, port: u16) -> LaunchView {
    LaunchView {
        program: command.command,
        args: command.args,
        env: seq![("PORT"@, decimal(port as nat))],
        pipe_stdout: true,
        pipe_stderr: true,
        kill_on_drop: true,
        process_group: Some(0i32),
    }
}

fn clone_words(words: &Vec<String>) -> (copy: Vec<String>)
    ensures
        copy.deep_view() == words.deep_view(),
{
    let mut copy: Vec<String> = Vec::new();
    let mut i: usize = 0;
    while i < words.len()
        invariant
            i <= words.len(),
            copy.len() == i,
            forall|j: int| 0 <= j < i ==> copy@[j]@ == words@[j]@,
        decreases words.len() - i,
    {
        copy.push(words[i].clone());
        i = i + 1;
    }
    copy
}

impl WrappedCommand {
    /// Builds the command from the words of a command line.
    pub fn from_words(words: Option<Vec<String>>) -> (result: Result<WrappedCommand, ParseError>)
        ensures
            parsed_as(result, command_of_words(words.deep_view())),
    {
        match words {
            Some(mut parts) => {
                if parts.len() == 0 {
                    Err(ParseError::InvalidCommand)
                } else {
                    let ghost all = parts.deep_view();
                    let command = parts.remove(0);
                    assert(parts.deep_view() =~= all.subrange(1, all.len() as int));
                    Ok(WrappedCommand { command, args: parts })
                }
            },
            None => Err(ParseError::InvalidCommand),
        }
    }

    /// Parses a shell-quoted command line.
    pub fn from_str(s: &str) -> (result: Result<WrappedCommand, ParseError>)
        ensures
            parsed_as(result, command_of_words(shell_words(s@))),
    {
        WrappedCommand::from_words(split_words(s))
    }

    /// The start of a launch: the program and its arguments.
    pub fn command(&self) -> (launch: Launch)
        ensures
            launch@ == bare_launch(self@),
    {
        let launch = Launch {
            program: self.command.clone(),
            args: clone_words(&self.args),
            env: Vec::new(),
            pipe_stdout: false,
            pipe_stderr: false,
            kill_on_drop: false,
            process_group: None,
        };
        assert(launch.env.deep_view() =~= Seq::empty());
        launch
    }
}

impl core::str::FromStr for WrappedCommand {
    type Err = ParseError;

    /// Parses a shell-quoted command line, as `WrappedCommand::from_str` does.
    fn from_str(s: &str) -> (result: Result<WrappedCommand, ParseError>)
        ensures
            parsed_as(result, command_of_words(shell_words(s@))),
    {
        WrappedCommand::from_words(split_words(s))
    }
}

/// What the supervisor is asked to do with the subprocess.
#[derive(Debug, Clone, Copy, PartialEq, Eq, Structural)]
pub enum WrappedServerCommand {
    /// Kill the subprocess (SIGKILL).
    Restart,
    /// Interrupt the subprocess (SIGHUP); it may or may not exit.
    Interrupt,
    /// Something outside changed, for instance a file was uploaded. A running
    /// subprocess is left alone; one that has exited is started again.
    StateChange,
}

/// Where the supervisor's loop stands.
#[derive(Debug, Clone, Copy, PartialEq, Eq, Structural)]
pub enum Phase {
    /// No child is alive and one is being started.
    Spawning,
    /// A child is alive.
    Running,
    /// The child has exited; the loop waits for a command before it starts
    /// another.
    Waiting,
    /// The loop has ended.
    Stopped,
}

/// What the loop has just seen.
#[derive(Debug, Clone, PartialEq, Eq)]
pub enum RunEvent {
    /// The loop starts.
    Begin,
    /// The child was started.
    Spawned,
    /// A command was taken from the queue. `child_id` is the process id of
    /// the child at that moment, if it still has one.
    Command { command: WrappedServerCommand, child_id: Option<u32> },
    /// The command queue was closed: every sender is gone.
    QueueClosed,
    /// The child wrote a line to its standard output or standard error.
    Line(String),
    /// The child has exited, with its exit code if it has one.
    Exited(Option<i32>),
    /// Starting, killing, signalling or awaiting the child failed.
    Failed,
}

/// What the loop does next. `Spawn` is answered by `Spawned` or `Failed`.
/// After `Reload`, `Kill`, `Hangup` and `Continue` the loop awaits the next
/// event: a command, a line or the exit while a child is alive, a command
/// otherwise; where the kill or the signal fails it reports `Failed` instead.
#[derive(Debug, Clone, PartialEq, Eq)]
pub enum RunAction {
    /// Start the child as described.
    Spawn(Launch),
    /// Tell every listener that a child has been started.
    Reload,
    /// Send SIGKILL to the child and await its exit.
    Kill,
    /// Send SIGHUP to the process with this id.
    Hangup(u32),
    /// Nothing to do.
    Continue,
    /// End the loop; the child, if any, goes with it.
    Stop,
    /// End the loop with the failure that was reported.
    Fail,
}

/// A `RunAction` as the contracts see it.
pub enum ActionView {
    Spawn(LaunchView),
    Reload,
    Kill,
    Hangup(u32),
    Continue,
    Stop,
    Fail,
}

impl View for RunAction {
    type V = ActionView;

    open spec fn view(&self) -> ActionView {
        match *self {
            RunAction::Spawn(launch) => ActionView::Spawn(launch@),
            RunAction::Reload => ActionView::Reload,
            RunAction::Kill => ActionView::Kill,
            RunAction::Hangup(id) => ActionView::Hangup(id),
            RunAction::Continue => ActionView::Continue,
            RunAction::Stop => ActionView::Stop,
            RunAction::Fail => ActionView::Fail,
        }
    }
}

/// What a listener on the reload notices received.
#[derive(Debug, Clone, Copy, PartialEq, Eq, Structural)]
pub enum ReloadNotice {
    /// A child was started after the listener began to wait.
    Reloaded,
    /// The listener fell behind and this many notices were lost to it.
    Lagged(u64),
    /// The supervisor is gone and no notice will come.
    Closed,
}

/// The newest `limit` items of `items`, in order: items leave from the front
/// until no more than `limit` are left.
pub open spec fn keep_last<T>(items: Seq<T>, limit: nat) -> Seq<T> {
    if items.len() <= limit {
        items
    } else {
        items.subrange(items.len() - limit, items.len() as int)
    }
}

/// The buffer after one more line: the line goes to the back, and the oldest
/// lines leave so that no more than `MAX_STDOUT_LINES` stay.
pub open spec fn push_line(ring: Seq<Seq<char>>, line: Seq<char>) -> Seq<Seq<char>> {
    keep_last(ring.push(line), MAX_STDOUT_LINES as nat)
}

/// The line that records how the child ended.
pub open spec fn exit_message(code: Option<i32>) -> Seq<char> {
    match code {
        Some(n) => "Subprocess exited with code: "@ + signed_decimal(n as int),
        None => "Subprocess exited with no exit code."@,
    }
}

/// What a command does to a live child.
pub open spec fn command_action(command: WrappedServerCommand, child_id: Option<u32>) -> ActionView {
    match command {
        WrappedServerCommand::Restart => ActionView::Kill,
        WrappedServerCommand::Interrupt => match child_id {
            Some(id) => ActionView::Hangup(id),
            None => ActionView::Continue,
        },
        WrappedServerCommand::StateChange => ActionView::Continue,
    }
}

/// The supervisor's state as the contracts see it.
pub struct ServerView {
    pub command: CommandView,
    pub port: u16,
    pub running: bool,
    pub stdout: Seq<Seq<char>>,
    pub phase: Phase,
}

impl ServerView {
    /// What holds of every state that the supervisor reaches: the buffer is
    /// within its limit, and the running flag is up exactly while a child is
    /// alive.
    pub open spec fn inv(self) -> bool {
        &&& self.stdout.len() <= MAX_STDOUT_LINES
        &&& self.running <==> self.phase is Running
    }

    /// The state of a new supervisor.
    pub open spec fn initial(command: CommandView, port: u16) -> ServerView {
        ServerView { command, port, running: false, stdout: Seq::empty(), phase: Phase::Spawning }
    }

    /// The state after the loop has ended.
    pub open spec fn halted(self) -> ServerView {
        ServerView { running: false, phase: Phase::Stopped, ..self }
    }

    /// The loop starts: a new supervisor spawns its child.
    pub open spec fn on_begin(self) -> (ServerView, ActionView) {
        match self.phase {
            Phase::Spawning => (self, ActionView::Spawn(supervised_launch(self.command, self.port))),
            Phase::Stopped => (self, ActionView::Stop),
            _ => (self, ActionView::Continue),
        }
    }

    /// The child was started: the flag goes up and listeners hear of it.
    pub open spec fn on_spawned(self) -> (ServerView, ActionView) {
        match self.phase {
            Phase::Spawning => (
                ServerView { running: true, phase: Phase::Running, ..self },
                ActionView::Reload,
            ),
            Phase::Stopped => (self, ActionView::Stop),
            _ => (self, ActionView::Continue),
        }
    }

    /// A command arrived. A live child is killed, interrupted or left alone;
    /// with no child, any command starts one.
    pub open spec fn on_command(self, command: WrappedServerCommand, child_id: Option<u32>) -> (
        ServerView,
        ActionView,
    ) {
        match self.phase {
            Phase::Running => (self, command_action(command, child_id)),
            Phase::Waiting => (
                ServerView { phase: Phase::Spawning, ..self },
                ActionView::Spawn(supervised_launch(self.command, self.port)),
            ),
            Phase::Spawning => (self, ActionView::Continue),
            Phase::Stopped => (self, ActionView::Stop),
        }
    }

    /// The queue was closed: the loop ends, and so does the child.
    pub open spec fn on_queue_closed(self) -> (ServerView, ActionView) {
        (self.halted(), ActionView::Stop)
    }

    /// A line of output arrived. It is kept if it comes from a live child.
    pub open spec fn on_line(self, line: Seq<char>) -> (ServerView, ActionView) {
        match self.phase {
            Phase::Running => (
                ServerView { stdout: push_line(self.stdout, line), ..self },
                ActionView::Continue,
            ),
            Phase::Stopped => (self, ActionView::Stop),
            _ => (self, ActionView::Continue),
        }
    }

    /// The child exited: the flag goes down, a blank line and the exit
    /// message go to the buffer, and the loop waits for a command.
    pub open spec fn on_exited(self, code: Option<i32>) -> (ServerView, ActionView) {
        match self.phase {
            Phase::Running => (
                ServerView {
                    running: false,
                    phase: Phase::Waiting,
                    stdout: push_line(push_line(self.stdout, Seq::empty()), exit_message(code)),
                    ..self
                },
                ActionView::Continue,
            ),
            Phase::Stopped => (self, ActionView::Stop),
            _ => (self, ActionView::Continue),
        }
    }

    /// An operation on the child failed: the loop ends with that failure and
    /// the flag down.
    pub open spec fn on_failed(self) -> (ServerView, ActionView) {
        match self.phase {
            Phase::Stopped => (self, ActionView::Stop),
            _ => (self.halted(), ActionView::Fail),
        }
    }

    /// One turn of the loop: the state after `event` and what to do next.
    pub open spec fn step(self, event: RunEvent) -> (ServerView, ActionView) {
        match event {
            RunEvent::Begin => self.on_begin(),
            RunEvent::Spawned => self.on_spawned(),
            RunEvent::Command { command, child_id } => self.on_command(command, child_id),
            RunEvent::QueueClosed => self.on_queue_closed(),
            RunEvent::Line(line) => self.on_line(line@),
            RunEvent::Exited(code) => self.on_exited(code),
            RunEvent::Failed => self.on_failed(),
        }
    }
}

fn push_back_bounded(ring: &mut VecDeque<String>, line: String)
    ensures
        final(ring).deep_view() == push_line(old(ring).deep_view(), line@),
{
    let ghost before = ring.deep_view();
    while ring.len() >= MAX_STDOUT_LINES
        invariant
            ring.deep_view().len() <= before.len(),
            ring.deep_view().len() == before.len() || ring.deep_view().len() + 1
                >= MAX_STDOUT_LINES,
            ring.deep_view() == before.subrange(
                before.len() - ring.deep_view().len(),
                before.len() as int,
            ),
        decreases ring.len(),
    {
        let ghost current = ring.deep_view();
        ring.pop_front();
        assert(ring.deep_view() =~= current.subrange(1, current.len() as int));
    }
    let ghost kept = ring.deep_view();
    ring.push_back(line);
    assert(ring.deep_view() =~= kept.push(line@));
}

fn exit_line(code: Option<i32>) -> (line: String)
    ensures
        line@ == exit_message(code),
{
    match code {
        Some(n) => {
            let digits = signed_decimal_string(n);
            "Subprocess exited with code: ".to_owned().concat(digits.as_str())
        },
        None => "Subprocess exited with no exit code.".to_owned(),
    }
}

/// The running flag and the loop's phase; they change together.
struct Life {
    running: bool,
    phase: Phase,
}

/// The supervisor of one subprocess: the command it runs, the port it hands
/// to the child, whether a child is alive, and the newest lines the child
/// wrote.
pub struct WrappedServer {
    command: WrappedCommand,
    port: u16,
    life: Life,
    stdout: VecDeque<String>,
}

impl View for WrappedServer {
    type V = ServerView;

    closed spec fn view(&self) -> ServerView {
        ServerView {
            command: self.command@,
            port: self.port,
            running: self.life.running,
            stdout: self.stdout.deep_view(),
            phase: self.life.phase,
        }
    }
}

impl WrappedServer {
    #[verifier::type_invariant]
    closed spec fn well_formed(self) -> bool {
        self@.inv()
    }

    /// A supervisor that has not started its child yet. `port` is what the
    /// child will find in `PORT`.
    pub fn new(command: WrappedCommand, port: u16) -> (server: WrappedServer)
        ensures
            server@ == ServerView::initial(command@, port),
            server@.inv(),
    {
        let server = WrappedServer {
            command,
            port,
            life: Life { running: false, phase: Phase::Spawning },
            stdout: VecDeque::new(),
        };
        assert(server.stdout.deep_view() =~= Seq::empty());
        server
    }

    /// Whether a child is alive.
    pub fn running(&self) -> (alive: bool)
        ensures
            alive == self@.running,
            self@.inv(),
    {
        proof {
            use_type_invariant(self);
        }
        self.life.running
    }

    /// Where the loop stands.
    pub fn phase(&self) -> (phase: Phase)
        ensures
            phase == self@.phase,
            self@.inv(),
    {
        proof {
            use_type_invariant(self);
        }
        self.life.phase
    }

    /// The buffered output, one line after another.
    pub fn stdout(&self) -> (text: String)
        ensures
            text@ == join_lines(self@.stdout),
            self@.inv(),
    {
        proof {
            use_type_invariant(self);
        }
        joined(&self.stdout)
    }

    /// How the loop starts the child.
    pub fn launch(&self) -> (launch: Launch)
        ensures
            launch@ == supervised_launch(self@.command, self@.port),
    {
        let mut launch = self.command.command();
        let mut env: Vec<(String, String)> = Vec::new();
        env.push(("PORT".to_owned(), decimal_string(self.port as u64)));
        assert(env.deep_view() =~= seq![("PORT"@, decimal(self.port as nat))]);
        launch.env = env;
        launch.pipe_stdout = true;
        launch.pipe_stderr = true;
        launch.kill_on_drop = true;
        launch.process_group = Some(0);
        launch
    }

    /// The command that asks for the child to be killed; the caller puts it
    /// on the queue.
    pub fn restart(&self) -> (command: WrappedServerCommand)
        ensures
            command == WrappedServerCommand::Restart,
    {
        WrappedServerCommand::Restart
    }

    /// The command that asks for the child to be interrupted; the caller puts
    /// it on the queue.
    pub fn interrupt(&self) -> (command: WrappedServerCommand)
        ensures
            command == WrappedServerCommand::Interrupt,
    {
        WrappedServerCommand::Interrupt
    }

    /// The command that reports a change of outside state; the caller puts it
    /// on the queue.
    pub fn state_change(&self) -> (command: WrappedServerCommand)
        ensures
            command == WrappedServerCommand::StateChange,
    {
        WrappedServerCommand::StateChange
    }

    /// Whether a wait for the next reload is over, given what the listener
    /// received. A listener that lagged has missed notices, so a reload did
    /// happen; a closed channel brings none.
    pub fn wait_for_reload(&self, notice: ReloadNotice) -> (reloaded: bool)
        ensures
            reloaded == !(notice is Closed),
    {
        match notice {
            ReloadNotice::Reloaded => true,
            ReloadNotice::Lagged(_) => true,
            ReloadNotice::Closed => false,
        }
    }

    /// What a command does to a live child: `Restart` kills it, `Interrupt`
    /// hangs up on it if it still has a process id, `StateChange` leaves it
    /// alone.
    pub fn handle_command(&self, command: WrappedServerCommand, child_id: Option<u32>) -> (action:
        RunAction)
        ensures
            action@ == command_action(command, child_id),
    {
        match command {
            WrappedServerCommand::Restart => RunAction::Kill,
            WrappedServerCommand::Interrupt => match child_id {
                Some(id) => RunAction::Hangup(id),
                None => RunAction::Continue,
            },
            WrappedServerCommand::StateChange => RunAction::Continue,
        }
    }

    fn halt(&mut self)
        ensures
            final(self)@ == old(self)@.halted(),
    {
        proof {
            use_type_invariant(&*self);
        }
        self.life = Life { running: false, phase: Phase::Stopped };
    }

    fn keep_line(&mut self, line: String)
        ensures
            final(self)@ == (ServerView {
                stdout: push_line(old(self)@.stdout, line@),
                ..old(self)@
            }),
    {
        proof {
            use_type_invariant(&*self);
        }
        let mut ring: VecDeque<String> = VecDeque::new();
        core::mem::swap(&mut self.stdout, &mut ring);
        push_back_bounded(&mut ring, line);
        core::mem::swap(&mut self.stdout, &mut ring);
    }

    /// One turn of the supervisor's loop: takes in what happened and answers
    /// with what to do next.
    pub fn run_loop(&mut self, event: RunEvent) -> (action: RunAction)
        ensures
            (final(self)@, action@) == old(self)@.step(event),
            final(self)@.inv(),
    {
        proof {
            use_type_invariant(&*self);
        }
        let phase = self.life.phase;
        if phase == Phase::Stopped {
            return RunAction::Stop;
        }
        match event {
            RunEvent::Begin => {
                if phase == Phase::Spawning {
                    RunAction::Spawn(self.launch())
                } else {
                    RunAction::Continue
                }
            },
            RunEvent::Spawned => {
                if phase == Phase::Spawning {
                    self.life = Life { running: true, phase: Phase::Running };
                    RunAction::Reload
                } else {
                    RunAction::Continue
                }
            },
            RunEvent::Command { command, child_id } => {
                if phase == Phase::Running {
                    self.handle_command(command, child_id)
                } else if phase == Phase::Waiting {
                    self.life = Life { running: false, phase: Phase::Spawning };
                    RunAction::Spawn(self.launch())
                } else {
                    RunAction::Continue
                }
            },
            RunEvent::QueueClosed => {
                self.halt();
                RunAction::Stop
            },
            RunEvent::Line(line) => {
                if phase == Phase::Running {
                    self.keep_line(line);
                }
                RunAction::Continue
            },
            RunEvent::Exited(code) => {
                if phase == Phase::Running {
                    self.keep_line(String::new());
                    self.keep_line(exit_line(code));
                    self.life = Life { running: false, phase: Phase::Waiting };
                }
                RunAction::Continue
            },
            RunEvent::Failed => {
                self.halt();
                RunAction::Fail
            },
        }
    }
}

} // verus!
