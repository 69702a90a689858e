//! Construction and execution of external command invocations: a builder for
//! shell-free argument vectors with a dry-run mode, a specialized two-stage
//! build pipeline, and translation of process exit statuses into typed errors.

pub mod build_command;
pub mod command;
pub mod edit;
pub mod run;
pub mod status;

pub use build_command::BuildCommand;
pub use build_command::BuildCommandBuilder;
pub use build_command::run_checked;
pub use build_command::run_pipeline_checked;
pub use command::Command;
pub use command::CommandBuilder;
pub use edit::edit_with;
pub use edit::flake_dir;
pub use status::CommandError;
pub use status::ExitError;
pub use status::Status;
pub use status::check_status;
