//! The specialized build invocation: a direct run of the build tool, or a
//! two-stage pipeline where the build tool's output is piped through a
//! log formatter, with exit-status-based success/failure classification.

use vstd::prelude::*;

use crate::command::clone_strings;
use crate::command::error_annotated;
use crate::command::with_context;
use crate::run;
use crate::status::CommandError;
use crate::status::ExitError;
use crate::status::check_status;
use crate::status::is_success;

verus! {

/// One higher-level build invocation: a required message, the target to
/// build, extra arguments appended verbatim, and a flag selecting the
/// two-process formatter pipeline over a plain run.
pub struct BuildCommand {
    /// Human-readable message regarding what the command does; always logged.
    pub message: String,
    /// The target to build, passed verbatim to the build tool.
    pub flakeref: String,
    /// Extra arguments appended to the base build invocation.
    pub extra_args: Vec<String>,
    /// Pipe the build tool's output through the log formatter.
    pub nom: bool,
}

/// Accumulates the fields of a [`BuildCommand`]; every field must be set,
/// `extra_args` at least once (possibly with no content).
pub struct BuildCommandBuilder {
    /// The message, if it was set.
    pub message: Option<String>,
    /// The target, if it was set.
    pub flakeref: Option<String>,
    /// The accumulated extra arguments; none until the first call.
    pub extra_args: Option<Vec<String>>,
    /// The formatter flag, if it was set.
    pub nom: Option<bool>,
}

/// The extra arguments a builder has accumulated so far.
pub open spec fn built_extra_args(b: BuildCommandBuilder) -> Seq<String> {
    match b.extra_args {
        Some(v) => v@,
        None => Seq::empty(),
    }
}

/// The argument vector of a direct (non-pipeline) build run.
pub open spec fn direct_args_of(c: BuildCommand) -> Seq<Seq<char>> {
    seq!["nix"@, "build"@, c.flakeref@] + c.extra_args.deep_view()
}

/// The argument vector of the first (build) stage of the pipeline.
pub open spec fn pipeline_build_args_of(c: BuildCommand) -> Seq<Seq<char>> {
    seq!["nix"@, "build"@, c.flakeref@, "--log-format"@, "internal-json"@, "--verbose"@]
        + c.extra_args.deep_view()
}

/// The argument vector of the second (formatter) stage of the pipeline.
pub open spec fn formatter_args_of() -> Seq<Seq<char>> {
    seq!["nom"@, "--json"@]
}

impl Default for BuildCommandBuilder {
    /// A builder with no field set yet.
    fn default() -> (r: BuildCommandBuilder)
        ensures
            r.message is None,
            r.flakeref is None,
            r.extra_args is None,
            r.nom is None,
    {
        BuildCommandBuilder { message: None, flakeref: None, extra_args: None, nom: None }
    }
}

impl BuildCommandBuilder {
    /// A builder with no field set yet.
    pub fn new() -> (r: BuildCommandBuilder)
        ensures
            r.message is None,
            r.flakeref is None,
            r.extra_args is None,
            r.nom is None,
    {
        BuildCommandBuilder { message: None, flakeref: None, extra_args: None, nom: None }
    }

    /// Sets the human-readable message.
    pub fn message(self, value: String) -> (r: BuildCommandBuilder)
        ensures
            r.message == Some(value),
            r.flakeref == self.flakeref,
            r.extra_args == self.extra_args,
            r.nom == self.nom,
    {
        BuildCommandBuilder { message: Some(value), ..self }
    }

    /// Sets the target to build.
    pub fn flakeref(self, value: String) -> (r: BuildCommandBuilder)
        ensures
            r.flakeref == Some(value),
            r.message == self.message,
            r.extra_args == self.extra_args,
            r.nom == self.nom,
    {
        BuildCommandBuilder { flakeref: Some(value), ..self }
    }

    /// Selects the formatter pipeline.
    pub fn nom(self, value: bool) -> (r: BuildCommandBuilder)
        ensures
            r.nom == Some(value),
            r.message == self.message,
            r.flakeref == self.flakeref,
            r.extra_args == self.extra_args,
    {
        BuildCommandBuilder { nom: Some(value), ..self }
    }

    /// Appends extra arguments, preserving order; repeated calls keep
    /// accumulating, and even an empty call marks the field as populated.
    pub fn extra_args(self, input: Vec<String>) -> (r: BuildCommandBuilder)
        ensures
            r.message == self.message,
            r.flakeref == self.flakeref,
            r.nom == self.nom,
            r.extra_args is Some,
            built_extra_args(r) == built_extra_args(self) + input@,
    {
        let BuildCommandBuilder { message, flakeref, extra_args, nom } = self;
        let mut acc: Vec<String> = match extra_args {
            Some(v) => v,
            None => Vec::new(),
        };
        let mut rest = input;
        acc.append(&mut rest);
        BuildCommandBuilder { message, flakeref, extra_args: Some(acc), nom }
    }

    /// Finalizes into an immutable [`BuildCommand`]; fails exactly when some
    /// field was never set.
    pub fn build(&self) -> (r: Result<BuildCommand, CommandError>)
        ensures
            r is Ok <==> (self.message is Some && self.flakeref is Some && self.extra_args is Some
                && self.nom is Some),
            r matches Ok(c) ==> {
                &&& Some(c.message) == self.message
                &&& Some(c.flakeref) == self.flakeref
                &&& c.extra_args@ == built_extra_args(*self)
                &&& Some(c.nom) == self.nom
            },
            r matches Err(e) ==> e is Config,
    {
        match (&self.message, &self.flakeref, &self.extra_args, &self.nom) {
            (Some(message), Some(flakeref), Some(extra_args), Some(nom)) => Ok(
                BuildCommand {
                    message: message.clone(),
                    flakeref: flakeref.clone(),
                    extra_args: clone_strings(extra_args),
                    nom: *nom,
                },
            ),
            _ => Err(CommandError::Config),
        }
    }
}

/// Spawns the given argument vector with standard error merged into the
/// inherited standard output stream, waits, and classifies the terminal
/// status: zero-code exit is success, any other status an exit error.
pub fn run_checked(args: &Vec<String>) -> (r: Result<(), CommandError>)
    requires
        args@.len() > 0,
    ensures
        r matches Err(e) ==> !(e is Config),
        r matches Err(e) ==> (e matches CommandError::Exit(x) ==> !is_success(x.0)),
{
    match run::spawn_merge_stderr(args) {
        Ok(raw) => {
            let status = run::status_from(raw);
            match check_status(status) {
                Ok(()) => Ok(()),
                Err(e) => Err(CommandError::Exit(e)),
            }
        },
        Err(cause) => Err(CommandError::Spawn(cause)),
    }
}

/// Spawns the two stages as a pipeline, the first stage's output and merged
/// standard error feeding the second stage, waits for both, and classifies
/// the last stage's terminal status as [`run_checked`] does.
pub fn run_pipeline_checked(first: &Vec<String>, second: &Vec<String>) -> (r: Result<
    (),
    CommandError,
>)
    requires
        first@.len() > 0,
        second@.len() > 0,
    ensures
        r matches Err(e) ==> !(e is Config),
        r matches Err(e) ==> (e matches CommandError::Exit(x) ==> !is_success(x.0)),
{
    match run::spawn_pipeline(first, second) {
        Ok(raw) => {
            let status = run::status_from(raw);
            match check_status(status) {
                Ok(()) => Ok(()),
                Err(e) => Err(CommandError::Exit(e)),
            }
        },
        Err(cause) => Err(CommandError::Spawn(cause)),
    }
}

impl BuildCommand {
    /// The argument vector of a direct run: the build tool, its `build`
    /// subcommand, the target, then the extra arguments.
    pub fn direct_args(&self) -> (r: Vec<String>)
        ensures
            r.deep_view() == direct_args_of(*self),
            r@.len() >= 3,
    {
        let mut v: Vec<String> = Vec::new();
        v.push("nix".to_owned());
        v.push("build".to_owned());
        v.push(self.flakeref.clone());
        let mut extra = clone_strings(&self.extra_args);
        v.append(&mut extra);
        proof {
            assert(v.deep_view() =~= direct_args_of(*self));
        }
        v
    }

    /// The argument vector of the pipeline's build stage: as the direct run,
    /// but asking the build tool for verbose machine-readable logs.
    pub fn pipeline_build_args(&self) -> (r: Vec<String>)
        ensures
            r.deep_view() == pipeline_build_args_of(*self),
            r@.len() >= 6,
    {
        let mut v: Vec<String> = Vec::new();
        v.push("nix".to_owned());
        v.push("build".to_owned());
        v.push(self.flakeref.clone());
        v.push("--log-format".to_owned());
        v.push("internal-json".to_owned());
        v.push("--verbose".to_owned());
        let mut extra = clone_strings(&self.extra_args);
        v.append(&mut extra);
        proof {
            assert(v.deep_view() =~= pipeline_build_args_of(*self));
        }
        v
    }

    /// The argument vector of the pipeline's formatter stage.
    pub fn formatter_args(&self) -> (r: Vec<String>)
        ensures
            r.deep_view() == formatter_args_of(),
            r@.len() == 2,
    {
        let mut v: Vec<String> = Vec::new();
        v.push("nom".to_owned());
        v.push("--json".to_owned());
        proof {
            assert(v.deep_view() =~= formatter_args_of());
        }
        v
    }

    /// Logs the message, then runs the build: directly, or as the two-stage
    /// formatter pipeline when `nom` is set. A clean, zero-code terminal
    /// status is success; any other status is surfaced as an exit error
    /// carrying that status, and a failure to spawn as a spawn error, both
    /// annotated with the message.
    pub fn exec(&self) -> (r: Result<(), CommandError>)
        ensures
            r matches Err(e) ==> !(e is Config),
            r matches Err(e) ==> (e matches CommandError::Exit(x) ==> !is_success(x.0)),
            r matches Err(e) ==> error_annotated(e, Some(self.message)),
    {
        run::log_info(&self.message);
        let result = if self.nom {
            let first = self.pipeline_build_args();
            let second = self.formatter_args();
            run::log_command(&first);
            run::log_command(&second);
            run_pipeline_checked(&first, &second)
        } else {
            let args = self.direct_args();
            run::log_command(&args);
            run_checked(&args)
        };
        match result {
            Ok(()) => Ok(()),
            Err(CommandError::Spawn(cause)) => Err(
                CommandError::Spawn(with_context(&self.message, cause)),
            ),
            Err(e) => Err(e),
        }
    }
}

} // verus!
