//! A single executable invocation: program, argument vector, an optional
//! human-readable message, and a dry-run flag.

use vstd::prelude::*;

use crate::run;
use crate::status::CommandError;

verus! {

/// One process invocation. The first element of `args` is the program, the
/// rest are its positional arguments. When `dry` is set the invocation is
/// logged but never spawned. Constructed once via [`CommandBuilder`] and
/// consumed by exactly one execution call.
pub struct Command {
    /// Whether to actually run the command or just log it.
    pub dry: bool,
    /// Human-readable message regarding what the command does.
    pub message: Option<String>,
    /// Arguments 0..N; the first is the program.
    pub args: Vec<String>,
}

/// Accumulates the fields of a [`Command`]; `dry` defaults to `false` and
/// `message` to none, while `args` must be populated at least once.
pub struct CommandBuilder {
    /// The dry-run flag, if it was set.
    pub dry: Option<bool>,
    /// The message, if one was set.
    pub message: Option<String>,
    /// The accumulated arguments; none until the first `args` call.
    pub args: Option<Vec<String>>,
}

/// The arguments a builder has accumulated so far.
pub open spec fn built_args(b: CommandBuilder) -> Seq<String> {
    match b.args {
        Some(v) => v@,
        None => Seq::empty(),
    }
}

/// Copies a vector of strings element by element.
pub(crate) fn clone_strings(v: &Vec<String>) -> (r: Vec<String>)
    ensures
        r@ == v@,
{
    let mut r: Vec<String> = Vec::new();
    let mut i: usize = 0;
    while i < v.len()
        invariant
            i <= v.len(),
            r@ == v@.subrange(0, i as int),
        decreases v.len() - i,
    {
        r.push(v[i].clone());
        proof {
            assert(r@ =~= v@.subrange(0, i + 1 as int));
        }
        i = i + 1;
    }
    proof {
        assert(r@ =~= v@);
    }
    r
}

/// An error text carries the invocation's message as context: the message,
/// then a separator, then the underlying cause.
pub open spec fn annotated_with(text: Seq<char>, message: Seq<char>) -> bool {
    text.len() >= message.len() && text.subrange(0, message.len() as int) == message
}

/// A spawn-level failure carries the invocation's message as context, when
/// one was set; other errors and absent messages ask nothing.
pub open spec fn error_annotated(e: CommandError, message: Option<String>) -> bool {
    match (e, message) {
        (CommandError::Spawn(text), Some(m)) => annotated_with(text@, m@),
        _ => true,
    }
}

/// Prefixes an error's text with the invocation's message, as context.
pub(crate) fn with_context(message: &String, cause: String) -> (r: String)
    ensures
        r@ == message@ + ": "@ + cause@,
        annotated_with(r@, message@),
{
    let r = message.clone().concat(": ").concat(cause.as_str());
    proof {
        assert(r@ =~= message@ + ": "@ + cause@);
        assert(r@.subrange(0, message@.len() as int) =~= message@);
    }
    r
}

impl Default for CommandBuilder {
    /// A builder with no field set yet.
    fn default() -> (r: CommandBuilder)
        ensures
            r.dry is None,
            r.message is None,
            r.args is None,
    {
        CommandBuilder { dry: None, message: None, args: None }
    }
}

impl CommandBuilder {
    /// A builder with no field set yet.
    pub fn new() -> (r: CommandBuilder)
        ensures
            r.dry is None,
            r.message is None,
            r.args is None,
    {
        CommandBuilder { dry: None, message: None, args: None }
    }

    /// Sets the dry-run flag.
    pub fn dry(self, value: bool) -> (r: CommandBuilder)
        ensures
            r.dry == Some(value),
            r.message == self.message,
            r.args == self.args,
    {
        CommandBuilder { dry: Some(value), ..self }
    }

    /// Sets the human-readable message.
    pub fn message(self, value: String) -> (r: CommandBuilder)
        ensures
            r.message == Some(value),
            r.dry == self.dry,
            r.args == self.args,
    {
        CommandBuilder { message: Some(value), ..self }
    }

    /// Appends a sequence of arguments, preserving order; repeated calls keep
    /// accumulating, and even an empty call marks `args` as populated.
    pub fn args(self, input: Vec<String>) -> (r: CommandBuilder)
        ensures
            r.dry == self.dry,
            r.message == self.message,
            r.args is Some,
            built_args(r) == built_args(self) + input@,
    {
        let CommandBuilder { dry, message, args } = self;
        let mut acc: Vec<String> = match args {
            Some(v) => v,
            None => Vec::new(),
        };
        let mut rest = input;
        acc.append(&mut rest);
        CommandBuilder { dry, message, args: Some(acc) }
    }

    /// Finalizes into an immutable [`Command`], with `dry` defaulting to
    /// `false` and `message` to none; fails exactly when `args` was never
    /// populated.
    pub fn build(&self) -> (r: Result<Command, CommandError>)
        ensures
            r is Ok <==> self.args is Some,
            r matches Ok(c) ==> {
                &&& c.dry == (match self.dry {
                    Some(d) => d,
                    None => false,
                })
                &&& c.message == self.message
                &&& c.args@ == built_args(*self)
            },
            r matches Err(e) ==> e is Config,
    {
        match &self.args {
            None => Err(CommandError::Config),
            Some(v) => {
                let dry = match self.dry {
                    Some(d) => d,
                    None => false,
                };
                let message = match &self.message {
                    Some(m) => Some(m.clone()),
                    None => None,
                };
                Ok(Command { dry, message, args: clone_strings(v) })
            },
        }
    }
}

impl Command {
    /// Logs the message (if any) and the full command line; in dry mode
    /// returns success without spawning, otherwise spawns the program with
    /// inherited output streams and waits for it to exit. The child's own
    /// exit code is not validated: only spawn-level failures are errors.
    pub fn exec(&self) -> (r: Result<(), CommandError>)
        ensures
            self.args@.len() == 0 <==> (r matches Err(e) && e is Config),
            self.args@.len() > 0 && self.dry ==> r is Ok,
            r matches Err(e) ==> !(e is Exit),
            r matches Err(e) ==> error_annotated(e, self.message),
    {
        if self.args.len() == 0 {
            return Err(CommandError::Config);
        }
        if let Some(m) = &self.message {
            run::log_info(m);
        }
        run::log_command(&self.args);
        if self.dry {
            return Ok(());
        }
        match run::spawn_inherit(&self.args) {
            Ok(_status) => Ok(()),
            Err(cause) => match &self.message {
                Some(m) => Err(CommandError::Spawn(with_context(m, cause))),
                None => Err(CommandError::Spawn(cause)),
            },
        }
    }

    /// As [`Command::exec`], but the child's standard error is discarded and
    /// its standard output is captured and returned as text; in dry mode
    /// returns an absent result without spawning.
    pub fn exec_capture(&self) -> (r: Result<Option<String>, CommandError>)
        ensures
            self.args@.len() == 0 <==> (r matches Err(e) && e is Config),
            self.args@.len() > 0 && self.dry ==> r == Ok::<Option<String>, CommandError>(
                None::<String>,
            ),
            r matches Ok(out) ==> (out is Some <==> !self.dry),
            r matches Err(e) ==> !(e is Exit),
    {
        if self.args.len() == 0 {
            return Err(CommandError::Config);
        }
        if let Some(m) = &self.message {
            run::log_info(m);
        }
        run::log_command(&self.args);
        if self.dry {
            return Ok(None);
        }
        match run::spawn_capture(&self.args) {
            Ok(out) => Ok(Some(out)),
            Err(cause) => Err(CommandError::Spawn(cause)),
        }
    }
}

/// Law: for every non-empty argument vector, executing in dry mode always
/// returns success (and, since the dry branch returns before any spawn, no
/// process is ever spawned).
pub proof fn lemma_dry_run_succeeds(cmd: Command, r: Result<(), CommandError>)
    requires
        cmd.args@.len() > 0,
        cmd.dry,
        call_ensures(Command::exec, (&cmd,), r),
    ensures
        r is Ok,
{
}

/// Law: executing an invocation whose argument vector is empty, dry or not,
/// always fails with the zero-length-args error, before anything is spawned.
pub proof fn lemma_empty_args_exec_fails(cmd: Command, r: Result<(), CommandError>)
    requires
        cmd.args@.len() == 0,
        call_ensures(Command::exec, (&cmd,), r),
    ensures
        r matches Err(e) && e is Config,
{
}

/// Law: capturing from an invocation whose argument vector is empty, dry or
/// not, always fails with the zero-length-args error.
pub proof fn lemma_empty_args_exec_capture_fails(
    cmd: Command,
    r: Result<Option<String>, CommandError>,
)
    requires
        cmd.args@.len() == 0,
        call_ensures(Command::exec_capture, (&cmd,), r),
    ensures
        r matches Err(e) && e is Config,
{
}

/// Law: for every non-empty argument vector, capturing in dry mode always
/// returns an absent result, distinguishing "not run" from "captured empty".
pub proof fn lemma_dry_capture_is_absent(cmd: Command, r: Result<Option<String>, CommandError>)
    requires
        cmd.args@.len() > 0,
        cmd.dry,
        call_ensures(Command::exec_capture, (&cmd,), r),
    ensures
        r == Ok::<Option<String>, CommandError>(None::<String>),
{
}

} // verus!
