//! The server process: where its data lives, the arguments of the
//! background process, the PID file, and the shutdown protocol.

use vstd::prelude::*;
use crate::models::MockApi;
use crate::numeric::{decimal, lemma_decimal_digits, lemma_parse_decimal, parse_u32, parse_u32_spec, u64_to_decimal, IntErrorKind};
use crate::paths::{join_path, joined};
use crate::text::{str_eq, trim, trim_end_spec, trim_start_spec, trimmed, views};

verus! {

/// The largest request body the server accepts, in bytes (50 MiB), so that
/// very large JSON response bodies can be saved.
pub const MAX_BODY_BYTES: usize = 52428800;

/// The server's state: the loaded API definitions and where they are kept.
#[derive(Debug)]
pub struct AppState {
    pub apis: Vec<MockApi>,
    pub data_dir: String,
    pub data_file: String,
}

impl AppState {
    /// The state of a server whose program lies in `base_dir`: no APIs
    /// loaded, data under `base_dir/data`, definitions in
    /// `data/mock_apis.json`.
    pub fn new(base_dir: &str) -> (s: Self)
        ensures
            s.apis@ == Seq::<MockApi>::empty(),
            s.data_dir@ == joined(base_dir@, "data"@),
            s.data_file@ == joined(s.data_dir@, "mock_apis.json"@),
    {
        let data_dir = join_path(base_dir, "data");
        let data_file = join_path(data_dir.as_str(), "mock_apis.json");
        AppState { apis: Vec::new(), data_dir, data_file }
    }
}

/// The host shown in the access address: `localhost` for the unspecified
/// address `0.0.0.0`, else the bound host.
pub fn access_host(host: &str) -> (r: String)
    ensures
        r@ == if host@ == "0.0.0.0"@ {
            "localhost"@
        } else {
            host@
        },
{
    if str_eq(host, "0.0.0.0") {
        String::from_str("localhost")
    } else {
        String::from_str(host)
    }
}

/// The arguments of the background server process.
pub open spec fn daemon_arg_list(port: u16, host: Seq<char>, pid_file: Seq<char>) -> Seq<Seq<char>> {
    seq!["--port"@, decimal(port as nat), "--host"@, host, "--pid-file"@, pid_file]
}

/// The arguments that start the server in the background on `host:port`,
/// writing its PID to `pid_file`.
pub fn daemon_args(port: u16, host: &str, pid_file: &str) -> (args: Vec<String>)
    ensures
        views(args@) == daemon_arg_list(port, host@, pid_file@),
{
    let mut args: Vec<String> = Vec::new();
    args.push(String::from_str("--port"));
    args.push(u64_to_decimal(port as u64));
    args.push(String::from_str("--host"));
    args.push(String::from_str(host));
    args.push(String::from_str("--pid-file"));
    args.push(String::from_str(pid_file));
    assert(views(args@) =~= daemon_arg_list(port, host@, pid_file@));
    args
}

/// The text written to a PID file: the decimal process identifier.
pub fn pid_file_text(pid: u32) -> (r: String)
    ensures
        r@ == decimal(pid as nat),
{
    u64_to_decimal(pid as u64)
}

/// What reading a PID file's text yields: the trimmed text parsed as a `u32`.
pub open spec fn pid_of(text: Seq<char>) -> Result<u32, IntErrorKind> {
    parse_u32_spec(trimmed(text))
}

/// The process identifier in a PID file's text.
pub fn parse_pid(text: &str) -> (r: Result<u32, IntErrorKind>)
    ensures
        r == pid_of(text@),
{
    let t = trim(text);
    parse_u32(t.as_str())
}

/// Reading a PID file gives back the identifier that was written to it.
pub proof fn lemma_pid_round_trip(pid: u32)
    ensures
        pid_of(decimal(pid as nat)) == Ok::<u32, IntErrorKind>(pid),
{
    let d = decimal(pid as nat);
    lemma_decimal_digits(pid as nat);
    assert(trim_start_spec(d) == d);
    assert(trim_end_spec(d) == d);
    lemma_parse_decimal(pid);
}

/// How many one-second checks stopping a server waits before killing it.
pub const STOP_WAIT_CHECKS: u32 = 30;

/// The next move while waiting for a stopped server to exit.
#[derive(Debug, Clone, Copy, PartialEq, Eq, Structural)]
pub enum StopStep {
    /// The process is gone: remove the PID file, done.
    Stopped,
    /// Still running: wait another second and check again.
    KeepWaiting,
    /// Still running after the last check: kill it, remove the PID file, done.
    ForceKill,
}

/// The move after check number `check` (from 0) found the process `alive`
/// or not.
pub fn stop_step(check: u32, alive: bool) -> (s: StopStep)
    requires
        check < STOP_WAIT_CHECKS,
    ensures
        s == if !alive {
            StopStep::Stopped
        } else if check + 1 == STOP_WAIT_CHECKS {
            StopStep::ForceKill
        } else {
            StopStep::KeepWaiting
        },
{
    if !alive {
        StopStep::Stopped
    } else if check + 1 == STOP_WAIT_CHECKS {
        StopStep::ForceKill
    } else {
        StopStep::KeepWaiting
    }
}

} // verus!
