//! How an operation is carried out and how its completion is judged: the
//! program and arguments that stand for it, and what an exit status means.

use vstd::prelude::*;
use vstd::string::*;
use crate::agent::operation::{Operation, OperationView};
use crate::paths::{sidecar, sidecar_path};

verus! {

/// The way to carry out an operation, with every string as a sequence of
/// characters.
pub enum InvocationView {
    Rename { from: Seq<char>, to: Seq<char> },
    Spawn { program: Seq<char>, arguments: Seq<Seq<char>> },
}

/// The way to carry out an operation.
#[derive(Clone, Debug)]
pub enum Invocation {
    /// Rename `from` to `to` in place.
    Rename { from: String, to: String },
    /// Run `program` with `arguments` and wait for it to exit.
    Spawn { program: String, arguments: Vec<String> },
}

impl View for Invocation {
    type V = InvocationView;

    open spec fn view(&self) -> InvocationView {
        match *self {
            Invocation::Rename { from, to } => InvocationView::Rename { from: from@, to: to@ },
            Invocation::Spawn { program, arguments } => InvocationView::Spawn {
                program: program@,
                arguments: arguments@.map_values(|argument: String| argument@),
            },
        }
    }
}

/// The way each operation is carried out: a rename to the sidecar name in
/// place, and one program for each of the others.
pub open spec fn invocation_of(operation: OperationView) -> InvocationView {
    match operation {
        OperationView::CloneRepository { source, destination } => InvocationView::Spawn {
            program: "git"@,
            arguments: seq!["clone"@, source, destination],
        },
        OperationView::CopyTree { source, destination } => InvocationView::Spawn {
            program: "cp"@,
            arguments: seq!["-r"@, source, destination],
        },
        OperationView::RenameAside { path } => InvocationView::Rename {
            from: path,
            to: sidecar(path),
        },
        OperationView::RemoveTree { path } => InvocationView::Spawn {
            program: "rm"@,
            arguments: seq!["-rf"@, path],
        },
        OperationView::CreateSymlink { target, link_path } => InvocationView::Spawn {
            program: "ln"@,
            arguments: seq!["-s"@, target, link_path],
        },
    }
}

/// The exit code that is taken for a program that ended without one.
pub open spec fn code_without_exit() -> int {
    128
}

/// The exit code of a program: the one it gave, or the one taken for a
/// program that ended without one.
pub open spec fn effective_code(code: Option<i32>) -> int {
    match code {
        Some(given) => given as int,
        None => code_without_exit(),
    }
}

/// How the attempt to carry out an operation ended.
#[derive(Clone, Copy, Debug, PartialEq, Eq, Structural)]
pub enum Completion {
    /// The program could not be started, or the rename was refused.
    NotStarted,
    /// The program was started and its end could not be awaited.
    NotAwaited,
    /// The program ended, with an exit code unless a signal ended it. A
    /// rename that was carried out counts as ended with code zero.
    Exited(Option<i32>),
}

/// An operation completed when its program ended with exit code zero.
pub open spec fn succeeded(completion: Completion) -> bool {
    completion matches Completion::Exited(code) && effective_code(code) == 0
}

/// The exit code of a program: the one it gave, or 128 for one that ended
/// without an exit code.
pub fn exit_code(code: Option<i32>) -> (effective: i32)
    ensures
        effective == effective_code(code),
{
    match code {
        Some(given) => given,
        None => 128,
    }
}

impl Completion {
    /// Whether the operation completed.
    pub fn succeeded(&self) -> (completed: bool)
        ensures
            completed == succeeded(*self),
    {
        match self {
            Completion::Exited(code) => exit_code(*code) == 0,
            _ => false,
        }
    }
}

/// Says how `operation` is carried out.
pub fn invocation(operation: &Operation) -> (way: Invocation)
    ensures
        way@ == invocation_of(operation@),
{
    match operation {
        Operation::RenameAside { path } => Invocation::Rename {
            from: path.clone(),
            to: sidecar_path(path.as_str()),
        },
        Operation::CloneRepository { source, destination } => spawn(
            "git",
            "clone",
            source,
            Some(destination),
        ),
        Operation::CopyTree { source, destination } => spawn("cp", "-r", source, Some(destination)),
        Operation::RemoveTree { path } => spawn("rm", "-rf", path, None),
        Operation::CreateSymlink { target, link_path } => spawn("ln", "-s", target, Some(link_path)),
    }
}

/// The invocation of `program` with `option` and one or two paths.
fn spawn(program: &str, option: &str, first: &String, second: Option<&String>) -> (way: Invocation)
    ensures
        way@ == (InvocationView::Spawn {
            program: program@,
            arguments: match second {
                Some(path) => seq![option@, first@, path@],
                None => seq![option@, first@],
            },
        }),
{
    let mut arguments: Vec<String> = Vec::new();
    arguments.push(String::from_str(option));
    arguments.push(first.clone());
    match second {
        Some(path) => {
            arguments.push(path.clone());
            assert(arguments@.map_values(|argument: String| argument@) =~= seq![
                option@,
                first@,
                path@,
            ]);
        },
        None => {
            assert(arguments@.map_values(|argument: String| argument@) =~= seq![
                option@,
                first@,
            ]);
        },
    }
    Invocation::Spawn { program: String::from_str(program), arguments }
}

} // verus!
