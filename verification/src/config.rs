use indexmap::IndexMap;
use vstd::prelude::*;

use crate::logging::LogLevel;
use crate::types::QueueType;

verus! {

/// An IP address: IPv4 as its 32 bits, IPv6 as its 128 bits, both in network
/// order (the first octet in the most significant bits).
#[derive(Debug, Clone, Copy, PartialEq, Eq, Structural)]
pub enum IpAddress {
    V4(u32),
    V6(u128),
}

/// An IP address with a port.
#[derive(Debug, Clone, Copy, PartialEq, Eq, Structural)]
pub struct SocketAddress {
    pub ip: IpAddress,
    pub port: u16,
}

/// The daemon's configuration.
#[derive(Debug)]
pub struct Config {
    /// Bind the HTTP server to a specific address.
    pub bind_address: Option<IpAddress>,
    /// Bind the server to this port.
    pub port: u16,
    /// TLS settings.
    pub tls: Option<Tls>,
    /// Log messages with this log level and up.
    pub log_level: LogLevel,
    /// The hooks to execute when a matching request is received.
    pub hooks: Vec<Hook>,
}

/// Where the TLS key and certificates are.
#[derive(Debug, Clone)]
pub struct Tls {
    /// The path to the private key encoded as PEM file.
    pub private_key: String,
    /// Path to the chain of certificates. The first certificate in the chain
    /// must be the server certificate.
    pub certificate_chain: String,
}

/// A hook: the commands that a POST request for its URL runs.
#[derive(Debug)]
pub struct Hook {
    /// The URL for the hook (only the path part).
    pub url: String,
    /// The commands to execute when the hook is triggered.
    pub commands: Vec<Command>,
    /// The environment variables to set when the hook is triggered, in the
    /// order in which they were written.
    pub environment: IndexMap<String, String>,
    /// The maximum number of concurrent jobs for the hook.
    pub max_concurrent: MaybeBound,
    /// How many jobs that the concurrency limit holds back may wait.
    pub queue_size: MaybeBound,
    /// The type of job queue: LIFO or FIFO.
    pub queue_type: QueueType,
    /// The working directory for the commands.
    pub working_dir: Option<String>,
    /// The shared secret for the X-Hub-Signature-256 header.
    pub secret: Option<String>,
}

/// `indexmap::IndexMap`, a hash map that keeps its entries in insertion
/// order; opaque here.
#[verifier::external_type_specification]
#[verifier::external_body]
#[verifier::reject_recursive_types(K)]
#[verifier::reject_recursive_types(V)]
#[verifier::reject_recursive_types(S)]
pub struct ExIndexMap<K, V, S>(IndexMap<K, V, S>);

/// The entries of a map of texts, in the map's order, each as a pair of
/// texts.
pub uninterp spec fn index_map_entries(map: IndexMap<String, String>) -> Seq<(Seq<char>, Seq<char>)>;

/// Calls `IndexMap::iter` and copies each entry. Claimed: the result holds
/// the map's entries in the map's order (`index_map_entries`); the source of
/// `iter` documents "the key-value pairs of the map, in their order".
#[verifier::external_body]
pub(crate) fn index_map_pairs(map: &IndexMap<String, String>) -> (pairs: Vec<(String, String)>)
    ensures
        pairs@.map_values(|p: (String, String)| (p.0@, p.1@)) == index_map_entries(*map),
{
    map.iter().map(|(name, value)| (name.clone(), value.clone())).collect()
}

/// A limit that may be absent.
#[derive(Debug, Clone, Copy, PartialEq, Eq, Structural)]
pub enum MaybeBound {
    N(usize),
    Unlimited,
}

/// Why a value is no bound.
#[derive(Debug, Clone, Copy, PartialEq, Eq, Structural)]
pub enum BoundError {
    /// A word other than `unlimited`.
    NotUnlimited,
    /// A number that does not fit in `usize`.
    OutOfRange(u64),
}

impl MaybeBound {
    /// The bound as an `Option`: `None` for no bound.
    pub open spec fn spec_bound(self) -> Option<usize> {
        match self {
            MaybeBound::Unlimited => None,
            MaybeBound::N(x) => Some(x),
        }
    }

    /// Get the bound as `Option<usize>`.
    pub fn bound(self) -> (r: Option<usize>)
        ensures
            r == self.spec_bound(),
    {
        match self {
            MaybeBound::Unlimited => None,
            MaybeBound::N(x) => Some(x),
        }
    }

    /// The bound that a word stands for: only `unlimited` is one.
    pub fn from_word(word: &str) -> (r: Result<MaybeBound, BoundError>)
        ensures
            word@ == "unlimited"@ ==> r == Ok::<MaybeBound, BoundError>(MaybeBound::Unlimited),
            word@ != "unlimited"@ ==> r == Err::<MaybeBound, BoundError>(BoundError::NotUnlimited),
    {
        if word.to_owned() == String::from_str("unlimited") {
            Ok(MaybeBound::Unlimited)
        } else {
            Err(BoundError::NotUnlimited)
        }
    }

    /// The bound that a number stands for, where it fits in `usize`.
    pub fn from_number(n: u64) -> (r: Result<MaybeBound, BoundError>)
        ensures
            n <= usize::MAX ==> r == Ok::<MaybeBound, BoundError>(MaybeBound::N(n as usize)),
            n > usize::MAX ==> r == Err::<MaybeBound, BoundError>(BoundError::OutOfRange(n)),
    {
        if n <= usize::MAX as u64 {
            Ok(MaybeBound::N(n as usize))
        } else {
            Err(BoundError::OutOfRange(n))
        }
    }
}

/// Whether a command gets the request body on its standard input.
#[derive(Debug, Clone, Copy, PartialEq, Eq, Structural)]
pub enum Stdin {
    Nothing,
    RequestBody,
}

/// The arguments of a command, the program first: never empty.
#[derive(Debug)]
pub struct CommandArgs {
    args: Vec<String>,
}

impl View for CommandArgs {
    type V = Seq<Seq<char>>;

    closed spec fn view(&self) -> Seq<Seq<char>> {
        self.args@.map_values(|s: String| s@)
    }
}

impl Clone for CommandArgs {
    fn clone(&self) -> (r: Self)
        ensures
            r@ == self@,
    {
        proof {
            use_type_invariant(self);
        }
        let args = self.args.clone();
        proof {
            assert forall|i: int| 0 <= i < args@.len() implies args@[i] == self.args@[i] by {
                assert(cloned::<String>(self.args[i], args[i]));
            }
            assert(args@ =~= self.args@);
        }
        CommandArgs { args }
    }
}

impl CommandArgs {
    #[verifier::type_invariant]
    spec fn non_empty(self) -> bool {
        self.args@.len() > 0
    }

    /// The arguments of a command; an empty list is no command.
    pub fn from_vec(args: Vec<String>) -> (r: Result<CommandArgs, &'static str>)
        ensures
            args@.len() == 0 <==> r is Err,
            r matches Err(e) ==> e@ == "command arguments can not be empty"@,
            r matches Ok(a) ==> a@ == args@.map_values(|s: String| s@),
    {
        if args.len() == 0 {
            Err("command arguments can not be empty")
        } else {
            Ok(CommandArgs { args })
        }
    }

    fn program(&self) -> (r: &str)
        ensures
            self@.len() > 0,
            r@ == self@[0],
    {
        proof {
            use_type_invariant(self);
        }
        self.args[0].as_str()
    }

    fn rest(&self) -> (r: &[String])
        ensures
            r@.map_values(|s: String| s@) == self@.drop_first(),
    {
        proof {
            use_type_invariant(self);
        }
        let (_, rest) = self.args.as_slice().split_at(1);
        assert(rest@.map_values(|s: String| s@) =~= self@.drop_first());
        rest
    }
}

/// A command of a hook, as mathematical values.
pub struct CommandView {
    /// The program and its arguments; never empty.
    pub args: Seq<Seq<char>>,
    pub stdin: Stdin,
    pub has_response: bool,
}

/// A command that a hook runs.
#[derive(Debug, Clone)]
pub struct Command {
    cmd: CommandArgs,
    stdin: Stdin,
    has_response: bool,
}

impl View for Command {
    type V = CommandView;

    closed spec fn view(&self) -> CommandView {
        CommandView { args: self.cmd@, stdin: self.stdin, has_response: self.has_response }
    }
}

impl Command {
    /// A command that runs `cmd`; `stdin` says whether it reads the request
    /// body, `has_response` whether its output is the reply to the request.
    pub fn new(cmd: CommandArgs, stdin: Stdin, has_response: bool) -> (c: Command)
        ensures
            c@ == (CommandView { args: cmd@, stdin, has_response }),
    {
        Command { cmd, stdin, has_response }
    }

    /// The program to run.
    pub fn cmd(&self) -> (r: &str)
        ensures
            self@.args.len() > 0,
            r@ == self@.args[0],
    {
        self.cmd.program()
    }

    /// The arguments after the program.
    pub fn args(&self) -> (r: &[String])
        ensures
            r@.map_values(|s: String| s@) == self@.args.drop_first(),
    {
        self.cmd.rest()
    }

    /// Whether the command reads the request body on its standard input.
    pub fn wants_request_body(&self) -> (r: bool)
        ensures
            r == (self@.stdin == Stdin::RequestBody),
    {
        match self.stdin {
            Stdin::RequestBody => true,
            Stdin::Nothing => false,
        }
    }

    /// Whether the command's standard output is the reply to the request.
    pub fn has_response(&self) -> (r: bool)
        ensures
            r == self@.has_response,
    {
        self.has_response
    }
}

/// The port when the configuration names none.
pub fn default_port() -> (r: u16)
    ensures
        r == 8091,
{
    8091
}

/// The log level when the configuration names none.
pub fn default_log_level() -> (r: LogLevel)
    ensures
        r == LogLevel::Info,
{
    LogLevel::Info
}

/// The concurrency limit of a hook that names none: one job at a time.
pub fn default_max_concurrent() -> (r: MaybeBound)
    ensures
        r == MaybeBound::N(1),
{
    MaybeBound::N(1)
}

/// The queue size of a hook that names none: one job.
pub fn default_queue_size() -> (r: MaybeBound)
    ensures
        r == MaybeBound::N(1),
{
    MaybeBound::N(1)
}

/// The queue type of a hook that names none: LIFO, so that the latest
/// request wins.
pub fn default_queue_type() -> (r: QueueType)
    ensures
        r == QueueType::Lifo,
{
    QueueType::Lifo
}

/// The standard input of a command that names none: nothing.
pub fn default_stdin() -> (r: Stdin)
    ensures
        r == Stdin::Nothing,
{
    Stdin::Nothing
}

/// Whether a command that says nothing about it replies to the request: no.
pub fn default_has_response() -> (r: bool)
    ensures
        r == false,
{
    false
}

/// The address a daemon binds to when the configuration names none: the
/// unspecified IPv6 address, `::`.
pub open spec fn unspecified_address() -> IpAddress {
    IpAddress::V6(0)
}

impl Config {
    /// The address and port to listen on: the configured address, or `::`.
    pub fn socket_address(&self) -> (r: SocketAddress)
        ensures
            r.port == self.port,
            r.ip == (match self.bind_address {
                Some(a) => a,
                None => unspecified_address(),
            }),
    {
        let ip = match self.bind_address {
            Some(a) => a,
            None => IpAddress::V6(0),
        };
        SocketAddress { ip, port: self.port }
    }

    /// A commented example configuration.
    pub fn example() -> (r: &'static str)
        ensures
            r@ == EXAMPLE_CONFIG@,
    {
        EXAMPLE_CONFIG
    }
}

/// A commented example configuration.
pub const EXAMPLE_CONFIG: &'static str = "# The port to listen on (default: 8091).
port: 8091

# Bind to a specific address (default: all addresses).
# bind-address: \"::1\"

# Log messages of this level and up: error, warn, info, debug or trace (default: info).
log-level: info

# Serve HTTPS instead of HTTP.
# tls:
#   private-key: /etc/letsencrypt/live/example.com/privkey.pem
#   certificate-chain: /etc/letsencrypt/live/example.com/fullchain.pem

hooks:
  # Each POST request for this URL runs the commands one after another.
  - url: \"/make-release-tarball\"
    commands:
      # The request body is passed on the standard input of this command.
      - cmd: [\"make-release-tarball\"]
        stdin: request-body
    # Run the commands in this directory.
    working-dir: \"/path/to/repository/\"
    # Extra environment variables for the commands.
    environment:
      RELEASE_DIR: \"/srv/releases\"
    # Run at most one job at once (a number or `unlimited`, default: 1).
    max-concurrent: 1
    # Keep any number of jobs waiting (a number or `unlimited`, default: 1).
    queue-size: unlimited
    # Run the oldest waiting job first (fifo or lifo, default: lifo).
    queue-type: fifo
    # Check the X-Hub-Signature-256 header with this shared secret.
    secret: \"some-randomly-generated-secret\"

  - url: \"/update-daemon-config\"
    commands:
      - cmd: [\"git\", \"fetch\"]
      - cmd: [\"git\", \"reset\", \"--hard\", \"origin/main\"]
      - cmd: [\"systemctl\", \"reload\", \"my-little-service\"]
    working-dir: \"/etc/my-little-service/\"
    secret: \"some-randomly-generated-secret\"

  - url: \"/status\"
    commands:
      # The output of this command is the reply to the request.
      - cmd: [\"systemctl\", \"is-active\", \"my-little-service\"]
        has_response: true
";

} // verus!
