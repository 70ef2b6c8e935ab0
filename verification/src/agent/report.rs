//! The line of text that reports how an entry ended.

use vstd::prelude::*;
use vstd::string::*;
use crate::agent::operation::{Outcome, Stage};

verus! {

/// What is said of an outcome, after the name of the entry.
pub open spec fn remark(outcome: Outcome) -> Seq<char> {
    match outcome {
        Outcome::Converged => "done"@,
        Outcome::Skipped => "skip, symlink already exists"@,
        Outcome::Failed(Stage::Configuration) => "Invalid config, path and symlink don't exist"@,
        Outcome::Failed(Stage::CloneRepository) => "Error cloning git repo"@,
        Outcome::Failed(Stage::CopyTree) => "Error cloning item"@,
        Outcome::Failed(Stage::RenameAside) => "Error renaming item"@,
        Outcome::Failed(Stage::RemoveTree) => "Error deleting item"@,
        Outcome::Failed(Stage::CreateSymlink) => "Error creating symlink"@,
    }
}

/// What a line starts with: lines that follow work on the filesystem are marked.
pub open spec fn heading(outcome: Outcome) -> Seq<char> {
    match outcome {
        Outcome::Skipped | Outcome::Failed(Stage::Configuration) => "[Config Mapper] >>> "@,
        _ => "<<>>[Config Mapper] >>> "@,
    }
}

/// The line that reports `outcome` for the entry called `name`.
pub open spec fn diagnostic(name: Seq<char>, outcome: Outcome) -> Seq<char> {
    heading(outcome) + name + " >>> "@ + remark(outcome)
}

/// Says how the line for an outcome starts.
pub fn head(outcome: Outcome) -> (text: &'static str)
    ensures
        text@ == heading(outcome),
{
    match outcome {
        Outcome::Skipped | Outcome::Failed(Stage::Configuration) => "[Config Mapper] >>> ",
        _ => "<<>>[Config Mapper] >>> ",
    }
}

/// Says what happened, without the name of the entry.
pub fn describe(outcome: Outcome) -> (text: &'static str)
    ensures
        text@ == remark(outcome),
{
    match outcome {
        Outcome::Converged => "done",
        Outcome::Skipped => "skip, symlink already exists",
        Outcome::Failed(Stage::Configuration) => "Invalid config, path and symlink don't exist",
        Outcome::Failed(Stage::CloneRepository) => "Error cloning git repo",
        Outcome::Failed(Stage::CopyTree) => "Error cloning item",
        Outcome::Failed(Stage::RenameAside) => "Error renaming item",
        Outcome::Failed(Stage::RemoveTree) => "Error deleting item",
        Outcome::Failed(Stage::CreateSymlink) => "Error creating symlink",
    }
}

/// Builds the line that reports `outcome` for the entry called `name`.
pub fn report_line(name: &str, outcome: Outcome) -> (line: String)
    ensures
        line@ == diagnostic(name@, outcome),
{
    let mut line = String::from_str(head(outcome));
    line.append(name);
    line.append(" >>> ");
    line.append(describe(outcome));
    line
}

} // verus!
