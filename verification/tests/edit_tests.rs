use nix_commands::CommandError;
use nix_commands::edit_with;
use nix_commands::flake_dir;

#[test]
fn flake_dir_strips_the_fragment_of_the_final_segment() {
    assert_eq!(flake_dir(&"a/b/c#output".to_string()), "a/b/c");
}

#[test]
fn flake_dir_of_a_single_segment_with_fragment() {
    assert_eq!(flake_dir(&"x#y".to_string()), "x");
}

#[test]
fn flake_dir_without_slash_or_hash_is_the_whole_reference() {
    assert_eq!(flake_dir(&"nofragment".to_string()), "nofragment");
}

#[test]
fn flake_dir_keeps_a_hash_in_an_earlier_segment() {
    assert_eq!(flake_dir(&"a#b/c".to_string()), "a#b/c");
}

#[test]
fn flake_dir_with_trailing_slash_keeps_it() {
    assert_eq!(flake_dir(&"a/b/".to_string()), "a/b/");
}

#[test]
fn edit_with_rejects_an_empty_reference() {
    let r = edit_with(String::new(), "true".to_string());
    assert!(matches!(r, Err(CommandError::Config)));
}

#[test]
fn edit_with_runs_the_editor_in_the_computed_directory() {
    let r = edit_with(".#output".to_string(), "true".to_string());
    assert!(r.is_ok());
}

#[test]
fn edit_with_ignores_the_editor_exit_code() {
    let r = edit_with(".".to_string(), "false".to_string());
    assert!(r.is_ok());
}

#[test]
fn edit_with_surfaces_a_spawn_error() {
    let r = edit_with(".".to_string(), "surely_no_such_editor_zzz".to_string());
    assert!(matches!(r, Err(CommandError::Spawn(_))));
}

#[test]
fn edit_with_fails_when_the_directory_does_not_exist() {
    let r = edit_with("surely/no/such/dir#frag".to_string(), "true".to_string());
    assert!(matches!(r, Err(CommandError::Spawn(_))));
}
