use config_mapper::agent::operation::{Observation, Operation, Outcome, PathState, Stage};
use config_mapper::agent::plan::{classify, plan, settle, Case};
use config_mapper::agent::report::{describe, head, report_line};
use config_mapper::agent::runner::{exit_code, invocation, Completion, Invocation};
use config_mapper::parser::dto::{Config, Data};
use config_mapper::parser::parser::Parser;
use config_mapper::paths::{expand_tilde, resolve_base, sidecar_path};

fn config(target: &str, external: &str, repo: Option<&str>) -> Config {
    Config {
        name: "item".to_string(),
        target: target.to_string(),
        external: external.to_string(),
        repo: repo.map(|source| source.to_string()),
    }
}

fn spelled(operations: &[Operation]) -> Vec<String> {
    operations.iter().map(|operation| format!("{operation:?}")).collect()
}

const STATES: [PathState; 3] =
    [PathState::Absent, PathState::RegularOrDirectory, PathState::Symlink];

#[test]
fn sidecar_appends_the_suffix() {
    assert_eq!(sidecar_path("/home/u/.vimrc"), "/home/u/.vimrc.old-config-mapper");
    assert_eq!(sidecar_path(""), ".old-config-mapper");
}

#[test]
fn base_is_home_or_placeholder() {
    assert_eq!(resolve_base(Some("/home/u".to_string())), "/home/u");
    assert_eq!(resolve_base(None), "UNKNOWN");
    assert_eq!(resolve_base(Some(String::new())), "");
}

#[test]
fn a_leading_tilde_is_replaced() {
    assert_eq!(expand_tilde("~/.vimrc", "/home/u"), "/home/u/.vimrc");
    assert_eq!(expand_tilde("~", "/home/u"), "/home/u");
    assert_eq!(expand_tilde("~/x", "UNKNOWN"), "UNKNOWN/x");
    assert_eq!(expand_tilde("~/x", ""), "/x");
    assert_eq!(expand_tilde("~/é/ü", "/home/ö"), "/home/ö/é/ü");
    assert_eq!(expand_tilde("~user/x", "/home/u"), "/home/uuser/x");
}

#[test]
fn a_tilde_elsewhere_is_kept() {
    assert_eq!(expand_tilde("/etc/hosts", "/home/u"), "/etc/hosts");
    assert_eq!(expand_tilde("", "/home/u"), "");
    assert_eq!(expand_tilde("/repo/a~b", "/home/u"), "/repo/a~b");
    assert_eq!(expand_tilde("a~b~", "X"), "a~b~");
    assert_eq!(expand_tilde("/x/~", "/home/u"), "/x/~");
    assert_eq!(expand_tilde(" ~/x", "/home/u"), " ~/x");
    assert_eq!(expand_tilde("~/a~b", "/h"), "/h/a~b");
    assert_eq!(expand_tilde("~~", "/h"), "/h~");
    assert_eq!(expand_tilde("~/x", "~"), "~/x");
    assert_eq!(expand_tilde("é~", "/h"), "é~");
}

#[test]
fn location_defaults_to_the_toml_in_the_working_directory() {
    assert_eq!(Parser::location(None), "config_mapper.toml");
    assert_eq!(Parser::location(Some("/etc/mapper.toml".to_string())), "/etc/mapper.toml");
    let parser = Parser::new(None, Data { item: vec![config("/t", "/x", None)] });
    assert_eq!(parser.path, "config_mapper.toml");
    assert_eq!(parser.data.item.len(), 1);
    assert_eq!(parser.data.item[0].target, "/t");
    let parser = Parser::new(Some("other.toml".to_string()), Data { item: vec![] });
    assert_eq!(parser.path, "other.toml");
    assert!(parser.data.item.is_empty());
}

#[test]
fn probes_are_classified() {
    assert_eq!(PathState::from_probe(None), PathState::Absent);
    assert_eq!(PathState::from_probe(Some(true)), PathState::Symlink);
    assert_eq!(PathState::from_probe(Some(false)), PathState::RegularOrDirectory);
    assert_eq!(
        Observation::from_probes(true, Some(true)),
        Observation { target: PathState::RegularOrDirectory, external: PathState::Symlink }
    );
    assert_eq!(
        Observation::from_probes(false, None),
        Observation { target: PathState::Absent, external: PathState::Absent }
    );
    assert_eq!(
        Observation::from_probes(false, Some(false)),
        Observation { target: PathState::Absent, external: PathState::RegularOrDirectory }
    );
}

#[test]
fn the_table_has_one_case_for_each_observation() {
    let see = |target, external| Observation { target, external };
    let absent = PathState::Absent;
    let content = PathState::RegularOrDirectory;
    let link = PathState::Symlink;
    assert_eq!(classify(see(absent, absent), false), Case::InvalidConfig);
    assert_eq!(classify(see(absent, absent), true), Case::CloneThenLink);
    assert_eq!(classify(see(absent, content), true), Case::ProvisionThenReplace);
    assert_eq!(classify(see(absent, content), false), Case::ProvisionThenReplace);
    assert_eq!(classify(see(absent, link), false), Case::DanglingLink);
    assert_eq!(classify(see(absent, link), true), Case::DanglingLink);
    for has_repo in [false, true] {
        for target in [content, link] {
            assert_eq!(classify(see(target, absent), has_repo), Case::LinkOnly);
            assert_eq!(classify(see(target, content), has_repo), Case::ReplaceThenLink);
            assert_eq!(classify(see(target, link), has_repo), Case::AlreadyLinked);
        }
    }
}

#[test]
fn cases_settle() {
    assert_eq!(settle(Case::InvalidConfig), Outcome::Failed(Stage::Configuration));
    assert_eq!(settle(Case::AlreadyLinked), Outcome::Skipped);
    for case in [
        Case::CloneThenLink,
        Case::ProvisionThenReplace,
        Case::LinkOnly,
        Case::ReplaceThenLink,
        Case::DanglingLink,
    ] {
        assert_eq!(settle(case), Outcome::Converged);
    }
}

#[test]
fn plans_follow_the_table() {
    let see = |target, external| Observation { target, external };
    let absent = PathState::Absent;
    let content = PathState::RegularOrDirectory;
    let link = PathState::Symlink;
    let clone = r#"CloneRepository { source: "git@host:r", destination: "/h/t" }"#.to_string();
    let copy = r#"CopyTree { source: "/h/x", destination: "/h/t" }"#.to_string();
    let rename = r#"RenameAside { path: "/h/x" }"#.to_string();
    let remove = r#"RemoveTree { path: "/h/x.old-config-mapper" }"#.to_string();
    let symlink = r#"CreateSymlink { target: "/h/t", link_path: "/h/x" }"#.to_string();
    let with_repo = config("~/t", "~/x", Some("git@host:r"));
    let without = config("~/t", "~/x", None);

    assert!(plan(&without, "/h", see(absent, absent)).is_empty());
    assert_eq!(
        spelled(&plan(&with_repo, "/h", see(absent, absent))),
        vec![clone.clone(), symlink.clone()]
    );
    assert_eq!(
        spelled(&plan(&with_repo, "/h", see(absent, content))),
        vec![clone.clone(), rename.clone(), remove.clone(), symlink.clone()]
    );
    assert_eq!(
        spelled(&plan(&without, "/h", see(absent, content))),
        vec![copy, rename.clone(), remove.clone(), symlink.clone()]
    );
    for entry in [&with_repo, &without] {
        assert!(plan(entry, "/h", see(absent, link)).is_empty());
        assert_eq!(spelled(&plan(entry, "/h", see(content, absent))), vec![symlink.clone()]);
        assert_eq!(
            spelled(&plan(entry, "/h", see(content, content))),
            vec![rename.clone(), remove.clone(), symlink.clone()]
        );
        assert!(plan(entry, "/h", see(content, link)).is_empty());
    }
}

#[test]
fn a_link_is_planned_last_and_only_after_provisioning() {
    for repo in [None, Some("r")] {
        let entry = config("/t", "/x", repo);
        for target in STATES {
            for external in STATES {
                let operations = plan(&entry, "/h", Observation { target, external });
                let links: Vec<usize> = operations
                    .iter()
                    .enumerate()
                    .filter(|(_, operation)| matches!(operation, Operation::CreateSymlink { .. }))
                    .map(|(position, _)| position)
                    .collect();
                if operations.is_empty() {
                    continue;
                }
                assert_eq!(links, vec![operations.len() - 1]);
                if target == PathState::Absent {
                    assert!(matches!(
                        operations[0],
                        Operation::CloneRepository { .. } | Operation::CopyTree { .. }
                    ));
                }
                if external == PathState::RegularOrDirectory {
                    let last = operations.len() - 1;
                    assert!(matches!(operations[last - 2], Operation::RenameAside { .. }));
                    assert!(matches!(operations[last - 1], Operation::RemoveTree { .. }));
                }
            }
        }
    }
}

#[test]
fn stages_name_their_operations() {
    let text = || "p".to_string();
    assert_eq!(
        Operation::CloneRepository { source: text(), destination: text() }.stage(),
        Stage::CloneRepository
    );
    assert_eq!(Operation::CopyTree { source: text(), destination: text() }.stage(), Stage::CopyTree);
    assert_eq!(Operation::RenameAside { path: text() }.stage(), Stage::RenameAside);
    assert_eq!(Operation::RemoveTree { path: text() }.stage(), Stage::RemoveTree);
    assert_eq!(
        Operation::CreateSymlink { target: text(), link_path: text() }.stage(),
        Stage::CreateSymlink
    );
    let original = Operation::CreateSymlink { target: "/t".to_string(), link_path: "/x".to_string() };
    assert_eq!(format!("{:?}", original.duplicate()), format!("{original:?}"));
}

#[test]
fn lines_name_the_entry_and_what_happened() {
    assert_eq!(report_line("vimrc", Outcome::Converged), "<<>>[Config Mapper] >>> vimrc >>> done");
    assert_eq!(
        report_line("vimrc", Outcome::Skipped),
        "[Config Mapper] >>> vimrc >>> skip, symlink already exists"
    );
    assert_eq!(
        report_line("vimrc", Outcome::Failed(Stage::Configuration)),
        "[Config Mapper] >>> vimrc >>> Invalid config, path and symlink don't exist"
    );
    assert_eq!(
        report_line("d", Outcome::Failed(Stage::CloneRepository)),
        "<<>>[Config Mapper] >>> d >>> Error cloning git repo"
    );
    assert_eq!(
        report_line("d", Outcome::Failed(Stage::CopyTree)),
        "<<>>[Config Mapper] >>> d >>> Error cloning item"
    );
    assert_eq!(
        report_line("d", Outcome::Failed(Stage::RenameAside)),
        "<<>>[Config Mapper] >>> d >>> Error renaming item"
    );
    assert_eq!(
        report_line("d", Outcome::Failed(Stage::RemoveTree)),
        "<<>>[Config Mapper] >>> d >>> Error deleting item"
    );
    assert_eq!(
        report_line("", Outcome::Failed(Stage::CreateSymlink)),
        "<<>>[Config Mapper] >>>  >>> Error creating symlink"
    );
    assert_eq!(describe(Outcome::Converged), "done");
    assert_eq!(head(Outcome::Skipped), "[Config Mapper] >>> ");
    assert_eq!(head(Outcome::Converged), "<<>>[Config Mapper] >>> ");
}

#[test]
fn completion_is_exit_code_zero() {
    assert_eq!(exit_code(Some(0)), 0);
    assert_eq!(exit_code(Some(1)), 1);
    assert_eq!(exit_code(Some(-7)), -7);
    assert_eq!(exit_code(None), 128);
    assert!(Completion::Exited(Some(0)).succeeded());
    assert!(!Completion::Exited(Some(1)).succeeded());
    assert!(!Completion::Exited(Some(128)).succeeded());
    assert!(!Completion::Exited(None).succeeded());
    assert!(!Completion::NotStarted.succeeded());
    assert!(!Completion::NotAwaited.succeeded());
}

#[test]
fn operations_are_carried_out_by_their_programs() {
    let spawned = |operation: Operation| match invocation(&operation) {
        Invocation::Spawn { program, arguments } => (program, arguments),
        Invocation::Rename { .. } => panic!("a rename where a program was expected"),
    };
    let text = |value: &str| value.to_string();
    assert_eq!(
        spawned(Operation::CloneRepository { source: text("r"), destination: text("/t") }),
        (text("git"), vec![text("clone"), text("r"), text("/t")])
    );
    assert_eq!(
        spawned(Operation::CopyTree { source: text("/x"), destination: text("/t") }),
        (text("cp"), vec![text("-r"), text("/x"), text("/t")])
    );
    assert_eq!(
        spawned(Operation::RemoveTree { path: text("/x.old-config-mapper") }),
        (text("rm"), vec![text("-rf"), text("/x.old-config-mapper")])
    );
    assert_eq!(
        spawned(Operation::CreateSymlink { target: text("/t"), link_path: text("/x") }),
        (text("ln"), vec![text("-s"), text("/t"), text("/x")])
    );
    match invocation(&Operation::RenameAside { path: text("/x") }) {
        Invocation::Rename { from, to } => {
            assert_eq!(from, "/x");
            assert_eq!(to, "/x.old-config-mapper");
        }
        Invocation::Spawn { .. } => panic!("a program where a rename was expected"),
    }
}
