use vstd::prelude::*;

use crate::config::{index_map_entries, index_map_pairs, Command, CommandView, Hook, Stdin};
use crate::request::{generic_error, simple_response, spec_text_reply, with_trailing_newline, Reply};
use crate::scheduler::Error;

verus! {

/// The decimal digit for `n < 10`.
pub open spec fn spec_decimal_digit(n: int) -> char {
    (48 + n) as char
}

/// The decimal text of a number, without leading zeros.
pub open spec fn spec_decimal(n: nat) -> Seq<char>
    decreases n,
{
    if n < 10 {
        seq![spec_decimal_digit(n as int)]
    } else {
        spec_decimal(n / 10).push(spec_decimal_digit((n % 10) as int))
    }
}

/// The number that a text of decimal digits stands for.
pub open spec fn decimal_value(text: Seq<char>) -> int
    decreases text.len(),
{
    if text.len() == 0 {
        0
    } else {
        decimal_value(text.drop_last()) * 10 + (text.last() as int - 48)
    }
}

/// Decimal text is right: it is made of the digits `0`-`9`, stands for the
/// number, and has no leading zero (only 0 itself starts with `0`).
pub proof fn lemma_decimal_is_right(n: nat)
    ensures
        spec_decimal(n).len() > 0,
        forall|i: int| 0 <= i < spec_decimal(n).len() ==> '0' <= #[trigger] spec_decimal(n)[i] <= '9',
        decimal_value(spec_decimal(n)) == n,
        spec_decimal(n)[0] == '0' ==> n == 0,
    decreases n,
{
    if n >= 10 {
        let q = n / 10;
        lemma_decimal_is_right(q);
        let t = spec_decimal(n);
        assert(t.drop_last() =~= spec_decimal(q));
        assert(q * 10 + n % 10 == n) by (nonlinear_arith)
            requires
                q == n / 10,
        ;
        assert(t[0] == spec_decimal(q)[0]);
        assert(t.last() as int - 48 == n % 10);
        assert(decimal_value(t) == decimal_value(spec_decimal(q)) * 10 + n % 10);
    } else {
        let t = spec_decimal(n);
        assert(t.drop_last() =~= Seq::<char>::empty());
        assert(t.last() as int - 48 == n);
        assert(decimal_value(t) == decimal_value(t.drop_last()) * 10 + n);
    }
}

fn push_decimal(n: u64, out: &mut String)
    ensures
        final(out)@ == old(out)@ + spec_decimal(n as nat),
    decreases n,
{
    if n >= 10 {
        push_decimal(n / 10, out);
    }
    let d: u8 = (n % 10) as u8;
    out.push((48 + d) as char);
    assert(final(out)@ =~= old(out)@ + spec_decimal(n as nat));
}

/// The decimal text of a number.
pub fn decimal(n: u64) -> (r: String)
    ensures
        r@ == spec_decimal(n as nat),
{
    let mut out = String::new();
    push_decimal(n, &mut out);
    assert(out@ =~= spec_decimal(n as nat));
    out
}

/// What a command learns of the request that triggered it.
#[derive(Debug, Clone)]
pub struct RequestInfo {
    /// The path of the request's URL.
    pub path: String,
    /// The query of the request's URL, if it has one.
    pub query: Option<String>,
    /// The request's `Content-Type` header, as text, if it has one.
    pub content_type: Option<String>,
    /// The address of the client, as text.
    pub remote_address: String,
    /// The port of the client.
    pub remote_port: u16,
}

/// Environment variables as pairs of texts.
pub open spec fn env_view(env: Seq<(String, String)>) -> Seq<(Seq<char>, Seq<char>)> {
    env.map_values(|p: (String, String)| (p.0@, p.1@))
}

/// The variables that describe a request to a command, in the order in
/// which they are set. `body_len` is the length of the request body when
/// the command reads it; only then are `CONTENT_LENGTH` and (where the
/// request has one) `CONTENT_TYPE` set.
pub open spec fn spec_request_environment(info: RequestInfo, body_len: Option<usize>) -> Seq<(Seq<char>, Seq<char>)> {
    let body_vars = match body_len {
        None => Seq::empty(),
        Some(n) => {
            let length = seq![("CONTENT_LENGTH"@, spec_decimal(n as nat))];
            match info.content_type {
                None => length,
                Some(t) => length.push(("CONTENT_TYPE"@, t@)),
            }
        },
    };
    let query = match info.query {
        None => Seq::<char>::empty(),
        Some(q) => q@,
    };
    body_vars + seq![
        ("URL_PATH"@, info.path@),
        ("URL_QUERY"@, query),
        ("REMOTE_ADDRESS"@, info.remote_address@),
        ("REMOTE_PORT"@, spec_decimal(info.remote_port as nat)),
    ]
}

/// The text of a request's query: empty when it has none.
pub open spec fn query_text(query: Option<String>) -> Seq<char> {
    match query {
        None => Seq::empty(),
        Some(q) => q@,
    }
}

/// The request environment ends with the same four variables whether or
/// not the command reads the body: `URL_PATH` (the path), `URL_QUERY` (the
/// query, empty when there is none), `REMOTE_ADDRESS` and `REMOTE_PORT`
/// (the client's address and port in decimal). Before them come nothing
/// when the command does not read the body, and otherwise `CONTENT_LENGTH`
/// (the body length in decimal), then `CONTENT_TYPE` exactly when the
/// request has one.
pub proof fn lemma_request_environment_contents(info: RequestInfo, body_len: Option<usize>)
    ensures
        ({
            let env = spec_request_environment(info, body_len);
            let n = env.len();
            let body_vars: int = match body_len {
                None => 0,
                Some(_) => if info.content_type is Some {
                    2
                } else {
                    1
                },
            };
            &&& n == body_vars + 4
            &&& env[n - 4] == ("URL_PATH"@, info.path@)
            &&& env[n - 3] == ("URL_QUERY"@, query_text(info.query))
            &&& env[n - 2] == ("REMOTE_ADDRESS"@, info.remote_address@)
            &&& env[n - 1] == ("REMOTE_PORT"@, spec_decimal(info.remote_port as nat))
            &&& env.subrange(n - 4, n as int) == spec_request_environment(info, None)
            &&& (body_len matches Some(len) ==> env[0] == ("CONTENT_LENGTH"@, spec_decimal(len as nat)))
            &&& (body_len is Some && info.content_type is Some ==> env[1] == ("CONTENT_TYPE"@,
                info.content_type->0@))
        }),
{
    let env = spec_request_environment(info, body_len);
    let n = env.len();
    assert(env.subrange(n - 4, n as int) =~= spec_request_environment(info, None));
}

fn push_var(env: &mut Vec<(String, String)>, name: &str, value: String)
    ensures
        env_view(final(env)@) == env_view(old(env)@).push((name@, value@)),
{
    let ghost before = env@;
    env.push((String::from_str(name), value));
    assert(env_view(env@) =~= env_view(before).push((name@, value@)));
}

/// The variables that describe a request to a command; see
/// `spec_request_environment`.
pub fn request_environment(info: &RequestInfo, body_len: Option<usize>) -> (env: Vec<(String, String)>)
    ensures
        env_view(env@) == spec_request_environment(*info, body_len),
        env@.len() >= 4,
        env@[env@.len() - 3].0@ == "URL_QUERY"@,
        env@[env@.len() - 3].1@ == query_text(info.query),
{
    proof {
        lemma_request_environment_contents(*info, body_len);
    }
    let mut env: Vec<(String, String)> = Vec::new();
    match body_len {
        None => {},
        Some(n) => {
            push_var(&mut env, "CONTENT_LENGTH", decimal(n as u64));
            match &info.content_type {
                None => {},
                Some(t) => push_var(&mut env, "CONTENT_TYPE", t.clone()),
            }
        },
    }
    push_var(&mut env, "URL_PATH", info.path.clone());
    let query = match &info.query {
        None => String::new(),
        Some(q) => q.clone(),
    };
    push_var(&mut env, "URL_QUERY", query);
    push_var(&mut env, "REMOTE_ADDRESS", info.remote_address.clone());
    push_var(&mut env, "REMOTE_PORT", decimal(info.remote_port as u64));
    assert(env_view(env@) =~= spec_request_environment(*info, body_len));
    env
}

/// How to run one command of a hook for one request.
#[derive(Debug, Clone)]
pub struct CommandPlan {
    /// The program to run.
    pub program: String,
    /// Its arguments.
    pub args: Vec<String>,
    /// Whether the request body is written to its standard input.
    pub pipe_stdin: bool,
    /// The directory to run it in; `None` for the daemon's own.
    pub working_dir: Option<String>,
    /// The variables to set, in order: a later one overrides an earlier one
    /// of the same name.
    pub environment: Vec<(String, String)>,
    /// Whether its standard output is kept as the reply to the request
    /// (otherwise its output lines are logged).
    pub capture_stdout: bool,
}

/// The plan for running command `cmd` of `hook` for a request with a body
/// of `body_len` bytes: the request's variables first, then the hook's own.
pub open spec fn spec_plan_environment(cmd: CommandView, hook: Hook, info: RequestInfo, body_len: usize) -> Seq<(Seq<char>, Seq<char>)> {
    let body = if cmd.stdin == Stdin::RequestBody {
        Some(body_len)
    } else {
        None
    };
    spec_request_environment(info, body) + index_map_entries(hook.environment)
}

fn clone_strings(items: &[String]) -> (r: Vec<String>)
    ensures
        r@.map_values(|s: String| s@) == items@.map_values(|s: String| s@),
{
    let mut r: Vec<String> = Vec::new();
    let mut i: usize = 0;
    while i < items.len()
        invariant
            i <= items@.len(),
            r@.len() == i,
            forall|j: int| 0 <= j < i ==> (#[trigger] r@[j])@ == items@[j]@,
        decreases items@.len() - i,
    {
        r.push(items[i].clone());
        i = i + 1;
    }
    assert(r@.map_values(|s: String| s@) =~= items@.map_values(|s: String| s@));
    r
}

fn append_env(env: &mut Vec<(String, String)>, extra: &Vec<(String, String)>)
    ensures
        env_view(final(env)@) == env_view(old(env)@) + env_view(extra@),
{
    let ghost before = env@;
    let mut i: usize = 0;
    while i < extra.len()
        invariant
            i <= extra@.len(),
            env@.len() == before.len() + i,
            forall|j: int| 0 <= j < before.len() ==> (#[trigger] env@[j]) == before[j],
            forall|j: int|
                0 <= j < i ==> (#[trigger] env@[before.len() + j]).0@ == extra@[j].0@ && env@[before.len()
                    + j].1@ == extra@[j].1@,
        decreases extra@.len() - i,
    {
        let (name, value) = &extra[i];
        env.push((name.clone(), value.clone()));
        i = i + 1;
    }
    assert(env_view(env@) =~= env_view(before) + env_view(extra@)) by {
        assert forall|j: int| 0 <= j < env@.len() implies #[trigger] env_view(env@)[j] == (env_view(before)
            + env_view(extra@))[j] by {
            if j >= before.len() {
                assert(env@[before.len() + (j - before.len())] == env@[j]);
            }
        }
    }
}

/// How to run command `cmd` of `hook` for a request described by `info`,
/// with a body of `body_len` bytes.
pub fn plan_command(cmd: &Command, hook: &Hook, info: &RequestInfo, body_len: usize) -> (plan: CommandPlan)
    ensures
        plan.program@ == cmd@.args[0],
        plan.args@.map_values(|s: String| s@) == cmd@.args.drop_first(),
        plan.pipe_stdin == (cmd@.stdin == Stdin::RequestBody),
        plan.working_dir == hook.working_dir,
        env_view(plan.environment@) == spec_plan_environment(cmd@, *hook, *info, body_len),
        plan.capture_stdout == cmd@.has_response,
{
    let wants_body = cmd.wants_request_body();
    let body = if wants_body {
        Some(body_len)
    } else {
        None
    };
    let mut environment = request_environment(info, body);
    append_env(&mut environment, &index_map_pairs(&hook.environment));
    let working_dir = match &hook.working_dir {
        None => None,
        Some(d) => Some(d.clone()),
    };
    CommandPlan {
        program: cmd.cmd().to_owned(),
        args: clone_strings(cmd.args()),
        pipe_stdin: wants_body,
        working_dir,
        environment,
        capture_stdout: cmd.has_response(),
    }
}

/// What a command's run gives its job: nothing when it failed; when it
/// succeeded, its standard output if the plan keeps it (`capture_stdout`),
/// and no output otherwise (its output lines were only logged).
pub fn command_result(capture_stdout: bool, success: bool, output: Vec<u8>) -> (r: Result<Vec<u8>, ()>)
    ensures
        !success ==> r is Err,
        success && capture_stdout ==> (r matches Ok(o) && o@ == output@),
        success && !capture_stdout ==> (r matches Ok(o) && o@.len() == 0),
{
    if !success {
        Err(())
    } else if capture_stdout {
        Ok(output)
    } else {
        Ok(Vec::new())
    }
}

/// What a job does next.
#[derive(Debug, Clone)]
pub enum JobStep {
    /// Run the command with this index.
    RunCommand(usize),
    /// Stop and answer the request with this reply.
    Reply(Reply),
}

/// The reply when every command of a job ran without output.
pub fn done_reply() -> (r: Reply)
    ensures
        (r.status, r.body@) == spec_text_reply(200, "thank you, come again"),
{
    simple_response(200, "thank you, come again".as_bytes_vec())
}

/// The first step of a job for a hook with `n_commands` commands.
pub fn job_start(n_commands: usize) -> (step: JobStep)
    ensures
        n_commands > 0 ==> (step matches JobStep::RunCommand(i) && i == 0),
        n_commands == 0 ==> (step matches JobStep::Reply(r) && (r.status, r.body@) == spec_text_reply(
            200,
            "thank you, come again",
        )),
{
    if n_commands > 0 {
        JobStep::RunCommand(0)
    } else {
        JobStep::Reply(done_reply())
    }
}

/// The step after command `index` of `n_commands` gave `result`: a failure
/// ends the job with the generic error, output ends it with that output as
/// the reply, and otherwise the next command runs, or the job ends with
/// thanks after the last one.
pub fn job_next(index: usize, n_commands: usize, result: Result<Vec<u8>, ()>) -> (step: JobStep)
    requires
        index < n_commands,
    ensures
        match result {
            Err(()) => step matches JobStep::Reply(r) && (r.status, r.body@) == spec_text_reply(
                500,
                "failed to run hook, see server logs for more details",
            ),
            Ok(out) => if out@.len() > 0 {
                step matches JobStep::Reply(r) && r.status == 200 && r.body@ == with_trailing_newline(out@)
            } else if index + 1 < n_commands {
                step matches JobStep::RunCommand(i) && i == index + 1
            } else {
                step matches JobStep::Reply(r) && (r.status, r.body@) == spec_text_reply(200, "thank you, come again")
            },
        },
{
    match result {
        Err(()) => JobStep::Reply(generic_error()),
        Ok(out) => {
            if out.len() > 0 {
                JobStep::Reply(simple_response(200, out))
            } else if index + 1 < n_commands {
                JobStep::RunCommand(index + 1)
            } else {
                JobStep::Reply(done_reply())
            }
        },
    }
}

/// The reply to a request whose job was posted with outcome `posted`; the
/// job's own reply is `done` (`None`: the job was dropped before it
/// replied).
pub fn post_reply(posted: Result<(), Error>, done: Option<Reply>) -> (r: Reply)
    ensures
        match posted {
            Err(_) => (r.status, r.body@) == spec_text_reply(500, "failed to run hook, see server logs for more details"),
            Ok(()) => match done {
                Some(d) => r.status == d.status && r.body@ == d.body@,
                None => (r.status, r.body@) == spec_text_reply(500, "job dropped due to resource limits"),
            },
        },
{
    match posted {
        Err(_) => generic_error(),
        Ok(()) => match done {
            Some(d) => d,
            None => simple_response(500, "job dropped due to resource limits".as_bytes_vec()),
        },
    }
}

} // verus!
