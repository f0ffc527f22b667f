//! The server's decisions: its shared state, what each request gets, and
//! when a build's two output streams have been drained.
use crate::protocol::{Request, Response};
use vstd::prelude::*;
use vstd::string::{StrSliceExecFns, StringExecFns};

verus! {

/// The Unicode White_Space property.
pub open spec fn is_white_space(c: char) -> bool {
    let u = c as u32;
    (0x9 <= u && u <= 0xD) || u == 0x20 || u == 0x85 || u == 0xA0 || u == 0x1680 || (0x2000 <= u
        && u <= 0x200A) || u == 0x2028 || u == 0x2029 || u == 0x202F || u == 0x205F || u == 0x3000
}

/// Whether a command holds nothing but white space.
pub open spec fn is_blank(s: Seq<char>) -> bool {
    forall|i: int| 0 <= i < s.len() ==> is_white_space(#[trigger] s[i])
}

/// The text the command interpreter is handed for `command` run in `dir`.
pub open spec fn shell_line(dir: Seq<char>, command: Seq<char>) -> Seq<char> {
    "cd '"@ + dir + "'; "@ + command
}

/// The message of the error sent when `command` could not be started.
pub open spec fn spawn_message(command: Seq<char>, cause: Seq<char>) -> Seq<char> {
    "Failed to spawn process '"@ + command + "': "@ + cause
}

/// The exit code reported for a process that ended without one.
pub const ABNORMAL_EXIT: i32 = -1;

/// Relies on char::is_whitespace: true exactly for the White_Space property.
#[verifier::external_body]
fn char_is_white_space(c: char) -> (r: bool)
    ensures
        r == is_white_space(c),
{
    c.is_whitespace()
}

/// Whether `command` is empty or all white space.
pub fn command_is_blank(command: &str) -> (r: bool)
    ensures
        r == is_blank(command@),
{
    let n = command.unicode_len();
    let mut i: usize = 0;
    while i < n
        invariant
            n == command@.len(),
            i <= n,
            forall|j: int| 0 <= j < i ==> is_white_space(#[trigger] command@[j]),
        decreases n - i,
    {
        if !char_is_white_space(command.get_char(i)) {
            return false;
        }
        i = i + 1;
    }
    true
}

/// How the server runs a build: an interpreter and its arguments.
#[derive(Debug, PartialEq, Eq)]
pub struct BuildPlan {
    pub program: String,
    pub args: Vec<String>,
}

/// What the server does with a connection's request.
#[derive(Debug, PartialEq, Eq)]
pub enum Dispatch {
    /// Send this one response and close.
    Reply(Response),
    /// Start the planned build and stream its output.
    RunBuild(BuildPlan),
}

/// The server's shared state.
#[derive(Debug, PartialEq, Eq)]
pub struct ServerState {
    initialized: bool,
    running: bool,
    init_script: Option<String>,
}

/// Why the server did not start.
#[derive(Debug, PartialEq, Eq)]
pub enum StartupError {
    /// The init script failed; its exit code, or `ABNORMAL_EXIT`.
    InitScriptFailed { exit_code: i32 },
}

impl ServerState {
    pub closed spec fn is_initialized(&self) -> bool {
        self.initialized
    }

    pub closed spec fn is_running(&self) -> bool {
        self.running
    }

    pub closed spec fn script(&self) -> Option<String> {
        self.init_script
    }

    /// The state at startup: initialized at once when there is no init
    /// script, else only once it has succeeded.
    pub fn new(init_script: Option<String>) -> (r: Self)
        ensures
            r.is_initialized() == (init_script is None),
            r.is_running(),
            r.script() == init_script,
    {
        let initialized = init_script.is_none();
        ServerState { initialized, running: true, init_script }
    }

    pub fn initialized(&self) -> (r: bool)
        ensures
            r == self.is_initialized(),
    {
        self.initialized
    }

    pub fn running(&self) -> (r: bool)
        ensures
            r == self.is_running(),
    {
        self.running
    }

    /// Records how the init script ended (`None`: without an exit code).
    /// It succeeded exactly when it exited with code zero; then the server
    /// is initialized for good. On failure the server must not start.
    pub fn complete_init(&mut self, exit_code: Option<i32>) -> (r: Result<(), StartupError>)
        ensures
            r is Ok <==> exit_code == Some(0i32),
            r matches Err(StartupError::InitScriptFailed { exit_code: c }) ==> c == match exit_code {
                Some(v) => v,
                None => ABNORMAL_EXIT,
            },
            final(self).is_initialized() == (old(self).is_initialized() || r is Ok),
            final(self).is_running() == old(self).is_running(),
            final(self).script() == old(self).script(),
    {
        match exit_code {
            Some(0) => {
                self.initialized = true;
                Ok(())
            },
            Some(c) => Err(StartupError::InitScriptFailed { exit_code: c }),
            None => Err(StartupError::InitScriptFailed { exit_code: ABNORMAL_EXIT }),
        }
    }

    /// The readiness snapshot sent in reply to a status request.
    pub fn status(&self) -> (r: Response)
        ensures
            r == (Response::Status {
                initialized: self.is_initialized(),
                init_script: self.script(),
            }),
    {
        Response::Status { initialized: self.initialized, init_script: self.init_script.clone() }
    }

    /// Decides what a connection's request gets. A stop request stops the
    /// server for good; nothing else changes the state.
    pub fn handle_request(&mut self, request: Request) -> (r: Dispatch)
        ensures
            final(self).is_initialized() == old(self).is_initialized(),
            final(self).script() == old(self).script(),
            final(self).is_running() == (old(self).is_running() && !(request is Stop)),
            request is Status ==> r == Dispatch::Reply(old(self).status_spec()),
            request is Stop ==> r == Dispatch::Reply(Response::Stopping),
            request matches Request::Build { dir, command } ==> is_build_dispatch(r, dir@, command@),
    {
        match request {
            Request::Build { dir, command } => prepare_build(&dir, &command),
            Request::Status => Dispatch::Reply(self.status()),
            Request::Stop => {
                self.running = false;
                Dispatch::Reply(Response::Stopping)
            },
        }
    }

    /// The readiness snapshot of this state.
    pub open spec fn status_spec(&self) -> Response {
        Response::Status { initialized: self.is_initialized(), init_script: self.script() }
    }
}

/// Whether `d` is the dispatch owed to a build of `command` in `dir`: the
/// error "Empty command" for a blank command, else the interpreter run on
/// the command in that directory.
pub open spec fn is_build_dispatch(d: Dispatch, dir: Seq<char>, command: Seq<char>) -> bool {
    if is_blank(command) {
        match d {
            Dispatch::Reply(Response::Error { message }) => message@ == "Empty command"@,
            _ => false,
        }
    } else {
        match d {
            Dispatch::RunBuild(plan) => {
                &&& plan.program@ == "powershell"@
                &&& plan.args@.len() == 3
                &&& plan.args@[0]@ == "-NoProfile"@
                &&& plan.args@[1]@ == "-Command"@
                &&& plan.args@[2]@ == shell_line(dir, command)
            },
            _ => false,
        }
    }
}

/// What a build request of `command` in `dir` gets: an error for a blank
/// command, with no process started, else the plan to run it.
pub fn prepare_build(dir: &String, command: &String) -> (r: Dispatch)
    ensures
        is_build_dispatch(r, dir@, command@),
{
    if command_is_blank(command.as_str()) {
        return Dispatch::Reply(Response::Error { message: String::from_str("Empty command") });
    }
    let mut line = String::from_str("cd '");
    line.append(dir.as_str());
    line.append("'; ");
    line.append(command.as_str());
    let args = vec![String::from_str("-NoProfile"), String::from_str("-Command"), line];
    Dispatch::RunBuild(BuildPlan { program: String::from_str("powershell"), args })
}

/// The error sent when `command` could not be started, for the reason
/// `cause`; no completion follows it.
pub fn spawn_failure(command: &String, cause: &String) -> (r: Response)
    ensures
        r matches Response::Error { message } && message@ == spawn_message(command@, cause@),
{
    let mut message = String::from_str("Failed to spawn process '");
    message.append(command.as_str());
    message.append("': ");
    message.append(cause.as_str());
    Response::Error { message }
}

/// Something that happened on one of a running build's output streams.
#[derive(Debug, PartialEq, Eq)]
pub enum StreamEvent {
    /// A whole line was read.
    Line { line: String, is_stderr: bool },
    /// The stream reached its end.
    Closed { is_stderr: bool },
    /// Reading the stream failed; nothing more is read from it.
    Failed { is_stderr: bool },
}

/// What the server does after a stream event.
#[derive(Debug, PartialEq, Eq)]
pub enum DrainAction {
    /// Send this message to the client and keep reading.
    Forward(Response),
    /// Keep reading the stream that is still open.
    KeepReading,
    /// Both streams are done: wait for the process to exit.
    AwaitExit,
}

/// Tracks which of a build's two output streams are still being read.
#[derive(Debug, PartialEq, Eq)]
pub struct StreamDrain {
    stdout_open: bool,
    stderr_open: bool,
}

impl StreamDrain {
    pub closed spec fn stdout_open_spec(&self) -> bool {
        self.stdout_open
    }

    pub closed spec fn stderr_open_spec(&self) -> bool {
        self.stderr_open
    }

    /// Whether the stream with this tag is still being read.
    pub open spec fn is_open(&self, is_stderr: bool) -> bool {
        if is_stderr {
            self.stderr_open_spec()
        } else {
            self.stdout_open_spec()
        }
    }

    /// A build whose two streams are both open.
    pub fn new() -> (r: Self)
        ensures
            r.is_open(false),
            r.is_open(true),
    {
        StreamDrain { stdout_open: true, stderr_open: true }
    }

    /// Whether the stream with this tag is still being read.
    pub fn open(&self, is_stderr: bool) -> (r: bool)
        ensures
            r == self.is_open(is_stderr),
    {
        if is_stderr {
            self.stderr_open
        } else {
            self.stdout_open
        }
    }

    /// Decides what follows an event. A line is forwarded as it is, tagged
    /// with its stream. The end or failure of one stream closes that stream
    /// only; the process is awaited once both are closed, and never before.
    pub fn on_event(&mut self, event: StreamEvent) -> (r: DrainAction)
        ensures
            match event {
                StreamEvent::Line { line, is_stderr } => {
                    &&& r == DrainAction::Forward(Response::Output { line, is_stderr })
                    &&& final(self).is_open(false) == old(self).is_open(false)
                    &&& final(self).is_open(true) == old(self).is_open(true)
                },
                StreamEvent::Closed { is_stderr } | StreamEvent::Failed { is_stderr } => {
                    &&& !final(self).is_open(is_stderr)
                    &&& final(self).is_open(!is_stderr) == old(self).is_open(!is_stderr)
                    &&& r == if final(self).is_open(!is_stderr) {
                        DrainAction::KeepReading
                    } else {
                        DrainAction::AwaitExit
                    }
                },
            },
    {
        match event {
            StreamEvent::Line { line, is_stderr } => DrainAction::Forward(
                Response::Output { line, is_stderr },
            ),
            StreamEvent::Closed { is_stderr } | StreamEvent::Failed { is_stderr } => {
                if is_stderr {
                    self.stderr_open = false;
                } else {
                    self.stdout_open = false;
                }
                if self.stdout_open || self.stderr_open {
                    DrainAction::KeepReading
                } else {
                    DrainAction::AwaitExit
                }
            },
        }
    }
}

/// The last message of a build whose process exited with `exit_code`
/// (`None`: it ended without one, and `ABNORMAL_EXIT` is reported).
pub fn completion(exit_code: Option<i32>) -> (r: Response)
    ensures
        r == (Response::BuildComplete {
            exit_code: match exit_code {
                Some(c) => c,
                None => ABNORMAL_EXIT,
            },
        }),
{
    match exit_code {
        Some(c) => Response::BuildComplete { exit_code: c },
        None => Response::BuildComplete { exit_code: ABNORMAL_EXIT },
    }
}

} // verus!
