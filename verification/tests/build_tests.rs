use nix_commands::BuildCommand;
use nix_commands::BuildCommandBuilder;
use nix_commands::CommandError;
use nix_commands::ExitError;
use nix_commands::Status;
use nix_commands::check_status;
use nix_commands::run_checked;
use nix_commands::run_pipeline_checked;

fn strings(parts: &[&str]) -> Vec<String> {
    parts.iter().map(|s| s.to_string()).collect()
}

fn sample() -> BuildCommand {
    BuildCommandBuilder::new()
        .message("building the target".to_string())
        .flakeref(".#demo".to_string())
        .extra_args(strings(&["--impure"]))
        .nom(false)
        .build()
        .unwrap()
}

#[test]
fn builder_fails_when_a_field_is_missing() {
    let built = BuildCommandBuilder::new()
        .message("m".to_string())
        .flakeref("r".to_string())
        .extra_args(Vec::new())
        .build();
    assert!(matches!(built, Err(CommandError::Config)));
}

#[test]
fn builder_accumulates_extra_args() {
    let cmd = BuildCommandBuilder::new()
        .message("m".to_string())
        .flakeref("r".to_string())
        .extra_args(strings(&["--impure"]))
        .extra_args(strings(&["--offline"]))
        .nom(true)
        .build()
        .unwrap();
    assert_eq!(cmd.extra_args, strings(&["--impure", "--offline"]));
    assert!(cmd.nom);
}

#[test]
fn direct_args_hold_tool_subcommand_target_and_extras() {
    let args = sample().direct_args();
    assert_eq!(args, strings(&["nix", "build", ".#demo", "--impure"]));
}

#[test]
fn pipeline_build_args_ask_for_machine_readable_logs() {
    let args = sample().pipeline_build_args();
    assert_eq!(
        args,
        strings(&[
            "nix",
            "build",
            ".#demo",
            "--log-format",
            "internal-json",
            "--verbose",
            "--impure",
        ])
    );
}

#[test]
fn formatter_args_are_fixed() {
    let args = sample().formatter_args();
    assert_eq!(args, strings(&["nom", "--json"]));
}

#[test]
fn zero_exit_is_success() {
    assert!(check_status(Status::Exited(0)).is_ok());
}

#[test]
fn nonzero_exit_carries_the_status() {
    assert_eq!(check_status(Status::Exited(7)), Err(ExitError(Status::Exited(7))));
    assert_eq!(check_status(Status::Signaled(9)), Err(ExitError(Status::Signaled(9))));
    assert_eq!(check_status(Status::Undetermined), Err(ExitError(Status::Undetermined)));
}

#[test]
fn run_checked_succeeds_on_zero_exit() {
    assert!(run_checked(&strings(&["true"])).is_ok());
}

#[test]
fn run_checked_reports_the_exit_code() {
    let r = run_checked(&strings(&["sh", "-c", "exit 3"]));
    assert!(matches!(r, Err(CommandError::Exit(ExitError(Status::Exited(3))))));
}

#[test]
fn run_checked_reports_spawn_failure() {
    let r = run_checked(&strings(&["surely_no_such_program_zzz"]));
    assert!(matches!(r, Err(CommandError::Spawn(_))));
}

#[test]
fn pipeline_feeds_all_output_to_the_second_stage() {
    // The second stage exits 0 only if it received all three lines.
    let first = strings(&["sh", "-c", "printf 'a\\nb\\nc\\n'"]);
    let second = strings(&["sh", "-c", "test \"$(wc -l)\" -eq 3"]);
    assert!(run_pipeline_checked(&first, &second).is_ok());
}

#[test]
fn pipeline_merges_first_stage_stderr_into_the_pipe() {
    let first = strings(&["sh", "-c", "printf 'a\\n'; printf 'b\\n' >&2"]);
    let second = strings(&["sh", "-c", "test \"$(wc -l)\" -eq 2"]);
    assert!(run_pipeline_checked(&first, &second).is_ok());
}

#[test]
fn pipeline_reports_second_stage_exit_code() {
    let first = strings(&["sh", "-c", "printf 'a\\n'"]);
    let second = strings(&["sh", "-c", "exit 5"]);
    let r = run_pipeline_checked(&first, &second);
    assert!(matches!(r, Err(CommandError::Exit(ExitError(Status::Exited(5))))));
}

#[test]
fn pipeline_status_is_that_of_the_last_stage() {
    // The first stage fails, but the last stage's clean exit decides.
    let first = strings(&["false"]);
    let second = strings(&["cat"]);
    assert!(run_pipeline_checked(&first, &second).is_ok());
}
