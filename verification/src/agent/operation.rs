//! What is observed at a path, what can be done to the filesystem, and how the
//! reconciliation of an entry ends.

use vstd::prelude::*;

verus! {

/// What a probe finds at a path.
#[derive(Clone, Copy, Debug, PartialEq, Eq, Structural)]
pub enum PathState {
    /// Nothing is there, or it could not be inspected.
    Absent,
    /// Content is there and the path itself is not a link.
    RegularOrDirectory,
    /// The path itself is a symbolic link.
    Symlink,
}

/// What was found for one entry, taken immediately before it is reconciled.
#[derive(Clone, Copy, Debug, PartialEq, Eq, Structural)]
pub struct Observation {
    /// The content location, probed through links: only its presence matters.
    pub target: PathState,
    /// The link location, probed without following it.
    pub external: PathState,
}

/// What a probe that does not follow links reports: nothing where the path
/// could not be inspected, else whether the path itself is a link.
pub open spec fn state_of(inspected: Option<bool>) -> PathState {
    match inspected {
        None => PathState::Absent,
        Some(true) => PathState::Symlink,
        Some(false) => PathState::RegularOrDirectory,
    }
}

/// What the two probes of an entry report together. The target is probed
/// through links, so that only its presence is known.
pub open spec fn observation_of(target_found: bool, external: Option<bool>) -> Observation {
    Observation {
        target: if target_found {
            PathState::RegularOrDirectory
        } else {
            PathState::Absent
        },
        external: state_of(external),
    }
}

impl PathState {
    /// Classifies the result of inspecting a path without following links:
    /// `None` where the inspection failed, for whatever reason, else whether
    /// the path itself is a link.
    pub fn from_probe(inspected: Option<bool>) -> (state: PathState)
        ensures
            state == state_of(inspected),
    {
        match inspected {
            None => PathState::Absent,
            Some(true) => PathState::Symlink,
            Some(false) => PathState::RegularOrDirectory,
        }
    }
}

impl Observation {
    /// Joins the results of the two probes of an entry: whether anything was
    /// found at the target, through links, and what inspecting the link
    /// location itself gave.
    pub fn from_probes(target_found: bool, external: Option<bool>) -> (observation: Observation)
        ensures
            observation == observation_of(target_found, external),
    {
        Observation {
            target: if target_found {
                PathState::RegularOrDirectory
            } else {
                PathState::Absent
            },
            external: PathState::from_probe(external),
        }
    }
}

/// An operation on the filesystem, with every path as a sequence of characters.
pub enum OperationView {
    CloneRepository { source: Seq<char>, destination: Seq<char> },
    CopyTree { source: Seq<char>, destination: Seq<char> },
    RenameAside { path: Seq<char> },
    RemoveTree { path: Seq<char> },
    CreateSymlink { target: Seq<char>, link_path: Seq<char> },
}

/// An operation on the filesystem that a run asks for.
#[derive(Clone, Debug)]
pub enum Operation {
    /// Materialise the repository `source` at `destination`.
    CloneRepository { source: String, destination: String },
    /// Duplicate the tree at `source` to `destination`.
    CopyTree { source: String, destination: String },
    /// Rename `path` to its sidecar name, in the same directory.
    RenameAside { path: String },
    /// Delete the tree at `path`.
    RemoveTree { path: String },
    /// Create at `link_path` a symbolic link that points to `target`.
    CreateSymlink { target: String, link_path: String },
}

impl View for Operation {
    type V = OperationView;

    open spec fn view(&self) -> OperationView {
        match *self {
            Operation::CloneRepository { source, destination } => OperationView::CloneRepository {
                source: source@,
                destination: destination@,
            },
            Operation::CopyTree { source, destination } => OperationView::CopyTree {
                source: source@,
                destination: destination@,
            },
            Operation::RenameAside { path } => OperationView::RenameAside { path: path@ },
            Operation::RemoveTree { path } => OperationView::RemoveTree { path: path@ },
            Operation::CreateSymlink { target, link_path } => OperationView::CreateSymlink {
                target: target@,
                link_path: link_path@,
            },
        }
    }
}

/// The step at which the reconciliation of an entry stopped.
#[derive(Clone, Copy, Debug, PartialEq, Eq, Structural)]
pub enum Stage {
    /// The entry declares nothing that could be provisioned or linked.
    Configuration,
    CloneRepository,
    CopyTree,
    RenameAside,
    RemoveTree,
    CreateSymlink,
}

/// How the reconciliation of an entry ended.
#[derive(Clone, Copy, Debug, PartialEq, Eq, Structural)]
pub enum Outcome {
    /// Every planned operation succeeded.
    Converged,
    /// The link was already in place: nothing was done.
    Skipped,
    /// The entry was given up at the named stage.
    Failed(Stage),
}

/// The stage that an operation belongs to.
pub open spec fn stage_of(operation: OperationView) -> Stage {
    match operation {
        OperationView::CloneRepository { .. } => Stage::CloneRepository,
        OperationView::CopyTree { .. } => Stage::CopyTree,
        OperationView::RenameAside { .. } => Stage::RenameAside,
        OperationView::RemoveTree { .. } => Stage::RemoveTree,
        OperationView::CreateSymlink { .. } => Stage::CreateSymlink,
    }
}

/// The operations of a sequence, each by its view.
pub open spec fn views_of(operations: Seq<Operation>) -> Seq<OperationView> {
    operations.map_values(|operation: Operation| operation@)
}

impl Operation {
    /// The stage that this operation belongs to.
    pub fn stage(&self) -> (stage: Stage)
        ensures
            stage == stage_of(self@),
    {
        match self {
            Operation::CloneRepository { .. } => Stage::CloneRepository,
            Operation::CopyTree { .. } => Stage::CopyTree,
            Operation::RenameAside { .. } => Stage::RenameAside,
            Operation::RemoveTree { .. } => Stage::RemoveTree,
            Operation::CreateSymlink { .. } => Stage::CreateSymlink,
        }
    }

    /// A copy of this operation with the same paths.
    pub fn duplicate(&self) -> (copy: Operation)
        ensures
            copy@ == self@,
    {
        match self {
            Operation::CloneRepository { source, destination } => Operation::CloneRepository {
                source: source.clone(),
                destination: destination.clone(),
            },
            Operation::CopyTree { source, destination } => Operation::CopyTree {
                source: source.clone(),
                destination: destination.clone(),
            },
            Operation::RenameAside { path } => Operation::RenameAside { path: path.clone() },
            Operation::RemoveTree { path } => Operation::RemoveTree { path: path.clone() },
            Operation::CreateSymlink { target, link_path } => Operation::CreateSymlink {
                target: target.clone(),
                link_path: link_path.clone(),
            },
        }
    }
}

} // verus!
