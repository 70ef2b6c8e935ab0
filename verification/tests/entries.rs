use config_mapper::agent::agent::{Agent, Reply, Request, Session};
use config_mapper::agent::operation::{Observation, Operation, Outcome, PathState, Stage};
use config_mapper::parser::dto::{Config, Data};
use config_mapper::parser::parser::Parser;

fn entry(name: &str, target: &str, external: &str, repo: Option<&str>) -> Config {
    Config {
        name: name.to_string(),
        target: target.to_string(),
        external: external.to_string(),
        repo: repo.map(|source| source.to_string()),
    }
}

fn loaded(entries: Vec<Config>) -> Parser {
    Parser::new(None, Data { item: entries })
}

fn show(operation: &Operation) -> String {
    match operation {
        Operation::CloneRepository { source, destination } => {
            format!("clone_repository({source}, {destination})")
        }
        Operation::CopyTree { source, destination } => format!("copy_tree({source}, {destination})"),
        Operation::RenameAside { path } => format!("rename_aside({path})"),
        Operation::RemoveTree { path } => format!("remove_tree({path})"),
        Operation::CreateSymlink { target, link_path } => {
            format!("create_symlink({target}, {link_path})")
        }
    }
}

/// Drives a run over one entry: answers the probe with `observation` and the
/// k-th operation with `results[k]` (success once `results` is used up).
fn drive(
    parser: &Parser,
    observation: Observation,
    results: &[bool],
) -> (Vec<String>, Vec<Outcome>, Vec<String>) {
    let agent = Agent::new(parser);
    let mut session = Session::new(Some("/home/u".to_string()));
    let mut reply = Reply::Acknowledged;
    let mut calls = Vec::new();
    let mut outcomes = Vec::new();
    let mut lines = Vec::new();
    for _ in 0..1000 {
        match agent.run(&mut session, reply) {
            Request::Probe { .. } => reply = Reply::Observed(observation),
            Request::Perform(operation) => {
                let succeeded = results.get(calls.len()).copied().unwrap_or(true);
                calls.push(show(&operation));
                reply = Reply::Completed(succeeded);
            }
            Request::Report { outcome, line, .. } => {
                outcomes.push(outcome);
                lines.push(line);
                reply = Reply::Acknowledged;
            }
            Request::Finish => return (calls, outcomes, lines),
        }
    }
    panic!("the run did not finish");
}

fn seen(target: PathState, external: PathState) -> Observation {
    Observation { target, external }
}

#[test]
fn target_present_external_absent_links_once() {
    let parser = loaded(vec![entry("vimrc", "/repo/vimrc", "/home/u/.vimrc", None)]);
    let (calls, outcomes, lines) =
        drive(&parser, seen(PathState::RegularOrDirectory, PathState::Absent), &[]);
    assert_eq!(calls, vec!["create_symlink(/repo/vimrc, /home/u/.vimrc)".to_string()]);
    assert_eq!(outcomes, vec![Outcome::Converged]);
    assert_eq!(lines, vec!["<<>>[Config Mapper] >>> vimrc >>> done".to_string()]);
}

#[test]
fn both_absent_with_repo_clones_then_links() {
    let parser = loaded(vec![entry(
        "dots",
        "/repo/dots",
        "/home/u/dots",
        Some("https://example/dots.git"),
    )]);
    let (calls, outcomes, _) = drive(&parser, seen(PathState::Absent, PathState::Absent), &[]);
    assert_eq!(
        calls,
        vec![
            "clone_repository(https://example/dots.git, /repo/dots)".to_string(),
            "create_symlink(/repo/dots, /home/u/dots)".to_string(),
        ]
    );
    assert_eq!(outcomes, vec![Outcome::Converged]);
}

#[test]
fn failed_clone_makes_no_link() {
    let parser = loaded(vec![entry(
        "dots",
        "/repo/dots",
        "/home/u/dots",
        Some("https://example/dots.git"),
    )]);
    let (calls, outcomes, lines) =
        drive(&parser, seen(PathState::Absent, PathState::Absent), &[false]);
    assert_eq!(calls, vec!["clone_repository(https://example/dots.git, /repo/dots)".to_string()]);
    assert_eq!(outcomes, vec![Outcome::Failed(Stage::CloneRepository)]);
    assert_eq!(
        lines,
        vec!["<<>>[Config Mapper] >>> dots >>> Error cloning git repo".to_string()]
    );
}

#[test]
fn external_directory_is_copied_displaced_and_linked() {
    let parser = loaded(vec![entry("conf", "/repo/conf", "/home/u/conf", None)]);
    let (calls, outcomes, _) =
        drive(&parser, seen(PathState::Absent, PathState::RegularOrDirectory), &[]);
    assert_eq!(
        calls,
        vec![
            "copy_tree(/home/u/conf, /repo/conf)".to_string(),
            "rename_aside(/home/u/conf)".to_string(),
            "remove_tree(/home/u/conf.old-config-mapper)".to_string(),
            "create_symlink(/repo/conf, /home/u/conf)".to_string(),
        ]
    );
    assert_eq!(outcomes, vec![Outcome::Converged]);
}

#[test]
fn both_present_displaces_without_provisioning() {
    for repo in [None, Some("https://example/conf.git")] {
        let parser = loaded(vec![entry("conf", "/repo/conf", "/home/u/conf", repo)]);
        let (calls, outcomes, _) = drive(
            &parser,
            seen(PathState::RegularOrDirectory, PathState::RegularOrDirectory),
            &[],
        );
        assert_eq!(
            calls,
            vec![
                "rename_aside(/home/u/conf)".to_string(),
                "remove_tree(/home/u/conf.old-config-mapper)".to_string(),
                "create_symlink(/repo/conf, /home/u/conf)".to_string(),
            ]
        );
        assert_eq!(outcomes, vec![Outcome::Converged]);
    }
}

#[test]
fn a_tilde_inside_a_path_is_kept() {
    let parser = loaded(vec![entry("t", "/repo/a~b", "/home/u/x", None)]);
    let (calls, outcomes, _) =
        drive(&parser, seen(PathState::RegularOrDirectory, PathState::Absent), &[]);
    assert_eq!(calls, vec!["create_symlink(/repo/a~b, /home/u/x)".to_string()]);
    assert_eq!(outcomes, vec![Outcome::Converged]);
}

#[test]
fn a_leading_tilde_stands_for_the_home() {
    let parser = loaded(vec![entry("t", "~/repo/a~b", "~/x", None)]);
    let (calls, outcomes, _) =
        drive(&parser, seen(PathState::RegularOrDirectory, PathState::Absent), &[]);
    assert_eq!(calls, vec!["create_symlink(/home/u/repo/a~b, /home/u/x)".to_string()]);
    assert_eq!(outcomes, vec![Outcome::Converged]);
}
