//! The older hooks file: a plain list of hooks, without the daemon's own
//! settings, hook environments or command replies.

use vstd::prelude::*;

pub use crate::config::{CommandArgs, MaybeBound, Stdin};
use crate::types::QueueType;

verus! {

/// A hook of a hooks file: the commands that a POST request for its URL runs.
#[derive(Debug, Clone)]
pub struct Hook {
    /// The URL for the hook (only the path part).
    pub url: String,
    /// The commands to execute when the hook is triggered.
    pub commands: Vec<Command>,
    /// The maximum number of concurrent jobs for the hook.
    pub max_concurrent: MaybeBound,
    /// How many jobs that the concurrency limit holds back may wait.
    pub queue_size: MaybeBound,
    /// The type of job queue: LIFO or FIFO.
    pub queue_type: QueueType,
    /// The working directory for the commands.
    pub working_dir: Option<String>,
    /// The shared secret for the X-Hub-Signature-256 header.
    pub secret: Option<String>,
}

/// A command of a hooks file, as mathematical values.
pub struct CommandView {
    /// The program and its arguments; never empty.
    pub args: Seq<Seq<char>>,
    pub stdin: Stdin,
}

/// A command of a hooks file.
#[derive(Debug, Clone)]
pub struct Command {
    cmd: crate::config::Command,
}

impl View for Command {
    type V = CommandView;

    closed spec fn view(&self) -> CommandView {
        CommandView { args: self.cmd@.args, stdin: self.cmd@.stdin }
    }
}

impl Command {
    /// A command that runs `cmd`; `stdin` says whether it reads the request
    /// body.
    pub fn new(cmd: CommandArgs, stdin: Stdin) -> (c: Command)
        ensures
            c@ == (CommandView { args: cmd@, stdin }),
    {
        Command { cmd: crate::config::Command::new(cmd, stdin, false) }
    }

    /// The program to run.
    pub fn cmd(&self) -> (r: &str)
        ensures
            self@.args.len() > 0,
            r@ == self@.args[0],
    {
        self.cmd.cmd()
    }

    /// The arguments after the program.
    pub fn args(&self) -> (r: &[String])
        ensures
            r@.map_values(|s: String| s@) == self@.args.drop_first(),
    {
        self.cmd.args()
    }

    /// Whether the command reads the request body on its standard input.
    pub fn wants_request_body(&self) -> (r: bool)
        ensures
            r == (self@.stdin == Stdin::RequestBody),
    {
        self.cmd.wants_request_body()
    }
}

/// An example hooks file.
pub fn example_hooks() -> (r: &'static str)
    ensures
        r@ == EXAMPLE_HOOKS@,
{
    EXAMPLE_HOOKS
}

/// An example hooks file.
pub const EXAMPLE_HOOKS: &'static str = "# Each POST request for a hook's URL runs its commands one after another.
- url: \"/make-release-tarball\"
  commands:
    # The request body is passed on the standard input of this command.
    - cmd: [\"make-release-tarball\"]
      stdin: request-body
  working-dir: \"/path/to/repository/\"
  # Run at most one job at once (a number or `unlimited`, default: 1).
  max-concurrent: 1
  # Keep any number of jobs waiting (a number or `unlimited`, default: 1).
  queue-size: unlimited
  # Run the oldest waiting job first (fifo or lifo, default: lifo).
  queue-type: fifo
  # Check the X-Hub-Signature-256 header with this shared secret.
  secret: \"some-randomly-generated-secret\"

- url: \"/update-daemon-config\"
  commands:
    - cmd: [\"git\", \"fetch\"]
    - cmd: [\"git\", \"reset\", \"--hard\", \"origin/main\"]
    - cmd: [\"systemctl\", \"reload\", \"my-little-service\"]
  working-dir: \"/etc/my-little-service/\"
  secret: \"some-randomly-generated-secret\"
";

} // verus!
