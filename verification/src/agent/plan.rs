//! The decision table: from what is observed for an entry to the operations
//! that bring it to the linked state.

use vstd::prelude::*;
use crate::agent::operation::{Observation, Operation, OperationView, Outcome, PathState, Stage, views_of};
use crate::parser::dto::{Config, ConfigView};
use crate::paths::{expand_tilde, sidecar, sidecar_path, tilde_expanded};

verus! {

/// The situation an entry is found in. Exactly one applies to any observation.
#[derive(Clone, Copy, Debug, PartialEq, Eq, Structural)]
pub enum Case {
    /// Neither path holds anything and no repository is declared.
    InvalidConfig,
    /// Neither path holds anything and a repository is declared.
    CloneThenLink,
    /// Only the link location holds content: it has to move to the target.
    ProvisionThenReplace,
    /// Only the target holds content.
    LinkOnly,
    /// Both hold content and the link location is not a link.
    ReplaceThenLink,
    /// The target holds content and the link location is a link.
    AlreadyLinked,
    /// The link location is a link and nothing is found at the target.
    DanglingLink,
}

/// The decision table. The target decides first, then the link location, then
/// whether a repository is declared; a declared repository is ignored once the
/// target holds content.
pub open spec fn case_of(observation: Observation, has_repo: bool) -> Case {
    match (observation.target, observation.external) {
        (PathState::Absent, PathState::Absent) => if has_repo {
            Case::CloneThenLink
        } else {
            Case::InvalidConfig
        },
        (PathState::Absent, PathState::RegularOrDirectory) => Case::ProvisionThenReplace,
        (PathState::Absent, PathState::Symlink) => Case::DanglingLink,
        (_, PathState::Absent) => Case::LinkOnly,
        (_, PathState::RegularOrDirectory) => Case::ReplaceThenLink,
        (_, PathState::Symlink) => Case::AlreadyLinked,
    }
}

/// An entry with a leading `~` replaced by `base` in each of its two paths.
pub open spec fn expanded(entry: ConfigView, base: Seq<char>) -> ConfigView {
    ConfigView {
        name: entry.name,
        target: tilde_expanded(entry.target, base),
        external: tilde_expanded(entry.external, base),
        repo: entry.repo,
    }
}

/// The step that places content at the target: a clone where a repository is
/// declared, else a copy of what the link location holds.
pub open spec fn provisioning(entry: ConfigView) -> OperationView {
    match entry.repo {
        Some(source) => OperationView::CloneRepository { source, destination: entry.target },
        None => OperationView::CopyTree { source: entry.external, destination: entry.target },
    }
}

/// The two steps that clear the link location: set its content aside, then
/// remove what was set aside.
pub open spec fn displacement(entry: ConfigView) -> Seq<OperationView> {
    seq![
        OperationView::RenameAside { path: entry.external },
        OperationView::RemoveTree { path: sidecar(entry.external) },
    ]
}

/// The step that creates the link.
pub open spec fn linking(entry: ConfigView) -> OperationView {
    OperationView::CreateSymlink { target: entry.target, link_path: entry.external }
}

/// The operations of a case, in the order in which they are performed.
pub open spec fn operations_of(case: Case, entry: ConfigView) -> Seq<OperationView> {
    match case {
        Case::InvalidConfig | Case::AlreadyLinked | Case::DanglingLink => Seq::empty(),
        Case::CloneThenLink => seq![provisioning(entry), linking(entry)],
        Case::ProvisionThenReplace => seq![provisioning(entry)] + displacement(entry) + seq![
            linking(entry),
        ],
        Case::LinkOnly => seq![linking(entry)],
        Case::ReplaceThenLink => displacement(entry) + seq![linking(entry)],
    }
}

/// The operations planned for an entry whose paths are already expanded.
pub open spec fn plan_of(entry: ConfigView, observation: Observation) -> Seq<OperationView> {
    operations_of(case_of(observation, entry.repo is Some), entry)
}

/// How an entry ends when no operation of its plan fails.
pub open spec fn settled(case: Case) -> Outcome {
    match case {
        Case::InvalidConfig => Outcome::Failed(Stage::Configuration),
        Case::AlreadyLinked => Outcome::Skipped,
        _ => Outcome::Converged,
    }
}

/// Classifies an observation by the decision table.
pub fn classify(observation: Observation, has_repo: bool) -> (case: Case)
    ensures
        case == case_of(observation, has_repo),
{
    match observation.target {
        PathState::Absent => match observation.external {
            PathState::Absent => if has_repo {
                Case::CloneThenLink
            } else {
                Case::InvalidConfig
            },
            PathState::RegularOrDirectory => Case::ProvisionThenReplace,
            PathState::Symlink => Case::DanglingLink,
        },
        _ => match observation.external {
            PathState::Absent => Case::LinkOnly,
            PathState::RegularOrDirectory => Case::ReplaceThenLink,
            PathState::Symlink => Case::AlreadyLinked,
        },
    }
}

/// How an entry of this case ends when no operation of its plan fails.
pub fn settle(case: Case) -> (outcome: Outcome)
    ensures
        outcome == settled(case),
{
    match case {
        Case::InvalidConfig => Outcome::Failed(Stage::Configuration),
        Case::AlreadyLinked => Outcome::Skipped,
        _ => Outcome::Converged,
    }
}

/// Plans the operations for `entry`, observed as `observation`, with a
/// leading `~` in its paths standing for `base`.
pub fn plan(entry: &Config, base: &str, observation: Observation) -> (operations: Vec<Operation>)
    ensures
        views_of(operations@) == plan_of(expanded(entry@, base@), observation),
{
    let case = classify(observation, entry.repo.is_some());
    let mut operations: Vec<Operation> = Vec::new();
    let ghost subject = expanded(entry@, base@);
    let provisions = matches!(case, Case::CloneThenLink | Case::ProvisionThenReplace);
    let displaces = matches!(case, Case::ProvisionThenReplace | Case::ReplaceThenLink);
    let links = provisions || displaces || matches!(case, Case::LinkOnly);
    if provisions {
        let destination = expand_tilde(entry.target.as_str(), base);
        let first = match &entry.repo {
            Some(source) => Operation::CloneRepository { source: source.clone(), destination },
            None => Operation::CopyTree {
                source: expand_tilde(entry.external.as_str(), base),
                destination,
            },
        };
        assert(first@ == provisioning(subject));
        operations.push(first);
    }
    if displaces {
        let path = expand_tilde(entry.external.as_str(), base);
        let aside = sidecar_path(path.as_str());
        operations.push(Operation::RenameAside { path });
        operations.push(Operation::RemoveTree { path: aside });
    }
    if links {
        operations.push(
            Operation::CreateSymlink {
                target: expand_tilde(entry.target.as_str(), base),
                link_path: expand_tilde(entry.external.as_str(), base),
            },
        );
    }
    assert(views_of(operations@) =~= plan_of(subject, observation));
    operations
}

} // verus!
