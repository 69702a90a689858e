//! Trusted boundary to the `subprocess` crate and to the process log stream.
//!
//! Every function here is `external_body`: its body spawns or observes a real
//! child process, whose outcome depends on the machine, so the contracts state
//! only what holds of every outcome. Verified callers take the returned status
//! and classify it themselves.

use vstd::prelude::*;

use std::io::Write;

verus! {

/// The raw exit status of the `subprocess` crate, opaque to verified code.
#[verifier::external_type_specification]
#[verifier::external_body]
pub struct ExSubprocessExitStatus(subprocess::ExitStatus);

/// Relies on `subprocess::ExitStatus::code` and `::signal`: `code` returns the
/// exit code exactly of a process that exited normally, and `signal` the
/// signal number exactly of one killed by a signal; any remaining status is
/// undetermined. Converts the raw status into this library's own.
#[verifier::external_body]
pub(crate) fn status_from(raw: subprocess::ExitStatus) -> crate::status::Status {
    if let Some(code) = raw.code() {
        crate::status::Status::Exited(code)
    } else if let Some(signal) = raw.signal() {
        crate::status::Status::Signaled(signal)
    } else {
        crate::status::Status::Undetermined
    }
}

/// Relies on `subprocess::Exec::join`: spawns `args[0]` with the remaining
/// arguments, both output streams inherited from the caller, waits for it to
/// exit, and returns its raw status; returns the OS error text when the
/// process could not be spawned or waited on.
#[verifier::external_body]
pub(crate) fn spawn_inherit(args: &Vec<String>) -> Result<subprocess::ExitStatus, String>
    requires
        args@.len() > 0,
{
    subprocess::Exec::cmd(&args[0])
        .args(&args[1..])
        .stdout(subprocess::Redirection::None)
        .stderr(subprocess::Redirection::None)
        .join()
        .map_err(|e| e.to_string())
}

/// Relies on `subprocess::Exec::join`: as `spawn_inherit`, but the child's
/// standard error is merged into its standard output's destination stream.
#[verifier::external_body]
pub(crate) fn spawn_merge_stderr(args: &Vec<String>) -> Result<subprocess::ExitStatus, String>
    requires
        args@.len() > 0,
{
    subprocess::Exec::cmd(&args[0])
        .args(&args[1..])
        .stdout(subprocess::Redirection::None)
        .stderr(subprocess::Redirection::Merge)
        .join()
        .map_err(|e| e.to_string())
}

/// Relies on `subprocess::Exec::capture`: spawns `args[0]` with the remaining
/// arguments, discards its standard error to the null device, waits for it to
/// exit, and returns its standard output decoded as text (lossily, so decoding
/// never fails); returns the OS error text when the process could not be
/// spawned or waited on.
#[verifier::external_body]
pub(crate) fn spawn_capture(args: &Vec<String>) -> Result<String, String>
    requires
        args@.len() > 0,
{
    subprocess::Exec::cmd(&args[0])
        .args(&args[1..])
        .stdout(subprocess::Redirection::Pipe)
        .stderr(subprocess::Redirection::Null)
        .capture()
        .map(|c| c.stdout_str())
        .map_err(|e| e.to_string())
}

/// Relies on `subprocess::Pipeline::join`: spawns the two stages concurrently
/// with the first stage's standard output (and, via a merge, its standard
/// error) piped into the second stage's standard input, the second stage's
/// output inherited, waits for both, and returns the raw status of the last
/// stage; returns the OS error text when a stage could not be spawned.
#[verifier::external_body]
pub(crate) fn spawn_pipeline(
    first: &Vec<String>,
    second: &Vec<String>,
) -> Result<subprocess::ExitStatus, String>
    requires
        first@.len() > 0,
        second@.len() > 0,
{
    let head = subprocess::Exec::cmd(&first[0])
        .args(&first[1..])
        .stdout(subprocess::Redirection::Pipe)
        .stderr(subprocess::Redirection::Merge);
    let tail = subprocess::Exec::cmd(&second[0]).args(&second[1..]);
    (head | tail).stdout(subprocess::Redirection::None).join().map_err(|e| e.to_string())
}

/// Relies on `subprocess::Exec::join` and `::cwd`: as `spawn_inherit`, but the
/// child runs with the given working directory.
#[verifier::external_body]
pub(crate) fn spawn_in_dir(args: &Vec<String>, cwd: &String) -> Result<
    subprocess::ExitStatus,
    String,
>
    requires
        args@.len() > 0,
{
    subprocess::Exec::cmd(&args[0])
        .args(&args[1..])
        .cwd(cwd)
        .stdout(subprocess::Redirection::None)
        .stderr(subprocess::Redirection::None)
        .join()
        .map_err(|e| e.to_string())
}

/// Relies on `std::io::stderr`: emits a human-readable message on the log
/// stream at informational severity.
#[verifier::external_body]
pub(crate) fn log_info(message: &String) {
    let _ = writeln!(std::io::stderr(), "info: {}", message);
}

/// Relies on `std::io::stderr`: emits the full constructed argument vector on
/// the log stream at debug severity, for observability.
#[verifier::external_body]
pub(crate) fn log_command(args: &Vec<String>) {
    let _ = writeln!(std::io::stderr(), "debug: running {:?}", args);
}

} // verus!
