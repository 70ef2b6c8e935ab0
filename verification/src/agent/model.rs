//! A model of the filesystem, as far as a run can tell: what each path holds,
//! and what each operation changes when it succeeds. Where a link leads is
//! not modelled: a link found at the target is taken to lead nowhere.

use vstd::prelude::*;
use crate::agent::operation::{Observation, OperationView, Outcome, PathState};
use crate::agent::plan::{Case, case_of, displacement, linking, plan_of, provisioning, settled};
use crate::parser::dto::ConfigView;
use crate::paths::sidecar;

verus! {

/// What every path holds. A path that the map does not know holds nothing.
pub struct World {
    pub nodes: Map<Seq<char>, PathState>,
}

impl World {
    /// What a probe that does not follow links finds at `path`.
    pub open spec fn found(self, path: Seq<char>) -> PathState {
        if self.nodes.dom().contains(path) {
            self.nodes[path]
        } else {
            PathState::Absent
        }
    }

    /// The world in which `path` holds `state` and every other path is as before.
    pub open spec fn with(self, path: Seq<char>, state: PathState) -> World {
        World { nodes: self.nodes.insert(path, state) }
    }

    /// What is observed of an entry: of the target whether it holds content,
    /// the link location as it is found.
    pub open spec fn observe(self, entry: ConfigView) -> Observation {
        Observation {
            target: if self.found(entry.target) == PathState::RegularOrDirectory {
                PathState::RegularOrDirectory
            } else {
                PathState::Absent
            },
            external: self.found(entry.external),
        }
    }

    /// The world after `operation` has succeeded.
    pub open spec fn after(self, operation: OperationView) -> World {
        match operation {
            OperationView::CloneRepository { destination, .. } => self.with(
                destination,
                PathState::RegularOrDirectory,
            ),
            OperationView::CopyTree { destination, .. } => self.with(
                destination,
                PathState::RegularOrDirectory,
            ),
            OperationView::RenameAside { path } => self.with(sidecar(path), self.found(path)).with(
                path,
                PathState::Absent,
            ),
            OperationView::RemoveTree { path } => self.with(path, PathState::Absent),
            OperationView::CreateSymlink { link_path, .. } => self.with(
                link_path,
                PathState::Symlink,
            ),
        }
    }

    /// The world after each of `operations` has succeeded, in order.
    pub open spec fn after_all(self, operations: Seq<OperationView>) -> World
        decreases operations.len(),
    {
        if operations.len() == 0 {
            self
        } else {
            self.after_all(operations.drop_last()).after(operations.last())
        }
    }
}

/// The sidecar name of a path is another path.
pub proof fn lemma_sidecar_differs(path: Seq<char>)
    ensures
        sidecar(path) != path,
{
    reveal_strlit(".old-config-mapper");
    assert(sidecar(path).len() == path.len() + 18);
}

/// Whether the plan for `entry` in `world` leaves the entry linked when every
/// operation of it succeeds: the target and the link location are two paths,
/// something is planned or the link is in place already, and content that
/// has to be set aside is not set aside onto the target.
pub open spec fn converges(world: World, entry: ConfigView) -> bool {
    let case = case_of(world.observe(entry), entry.repo is Some);
    &&& entry.target != entry.external
    &&& case != Case::InvalidConfig
    &&& case != Case::DanglingLink
    &&& (case == Case::ProvisionThenReplace || case == Case::ReplaceThenLink) ==> entry.target
        != sidecar(entry.external)
}

/// Reconciling an entry a second time does nothing: once every operation
/// planned for an entry has succeeded, the entry is observed as linked, so
/// that its next plan is empty and it is skipped. The paths of `entry` are
/// taken as they stand, with `~` already replaced.
pub proof fn law_second_run_skips(world: World, entry: ConfigView)
    requires
        converges(world, entry),
    ensures
        ({
            let first = plan_of(entry, world.observe(entry));
            let second = world.after_all(first).observe(entry);
            &&& case_of(second, entry.repo is Some) == Case::AlreadyLinked
            &&& plan_of(entry, second) == Seq::<OperationView>::empty()
            &&& settled(case_of(second, entry.repo is Some)) == Outcome::Skipped
        }),
{
    lemma_world_after_plan(world, entry);
    lemma_sidecar_differs(entry.external);
}

/// No other entry is left linked by its plan: where `converges` does not
/// hold, the entry is not observed as linked once every operation planned for
/// it has succeeded.
pub proof fn law_second_run_skips_only_then(world: World, entry: ConfigView)
    requires
        !converges(world, entry),
    ensures
        case_of(
            world.after_all(plan_of(entry, world.observe(entry))).observe(entry),
            entry.repo is Some,
        ) != Case::AlreadyLinked,
{
    lemma_world_after_plan(world, entry);
    lemma_sidecar_differs(entry.external);
}

/// The world after every operation planned for an entry has succeeded, one
/// operation after the other.
proof fn lemma_world_after_plan(world: World, entry: ConfigView)
    ensures
        world.after_all(plan_of(entry, world.observe(entry))) == (match case_of(
            world.observe(entry),
            entry.repo is Some,
        ) {
            Case::CloneThenLink => world.after(provisioning(entry)).after(linking(entry)),
            Case::ProvisionThenReplace => world.after(provisioning(entry)).after(
                displacement(entry)[0],
            ).after(displacement(entry)[1]).after(linking(entry)),
            Case::LinkOnly => world.after(linking(entry)),
            Case::ReplaceThenLink => world.after(displacement(entry)[0]).after(
                displacement(entry)[1],
            ).after(linking(entry)),
            _ => world,
        }),
{
    let first = plan_of(entry, world.observe(entry));
    let none = Seq::<OperationView>::empty();
    let clear = displacement(entry);
    let provide = none.push(provisioning(entry));
    assert(world.after_all(none) == world);
    lemma_after_one_more(world, none, provisioning(entry));
    match case_of(world.observe(entry), entry.repo is Some) {
        Case::CloneThenLink => {
            lemma_after_one_more(world, provide, linking(entry));
            assert(provide.push(linking(entry)) =~= first);
        },
        Case::ProvisionThenReplace => {
            lemma_after_one_more(world, provide, clear[0]);
            lemma_after_one_more(world, provide.push(clear[0]), clear[1]);
            lemma_after_one_more(world, provide.push(clear[0]).push(clear[1]), linking(entry));
            assert(provide.push(clear[0]).push(clear[1]).push(linking(entry)) =~= first);
        },
        Case::LinkOnly => {
            lemma_after_one_more(world, none, linking(entry));
            assert(none.push(linking(entry)) =~= first);
        },
        Case::ReplaceThenLink => {
            lemma_after_one_more(world, none, clear[0]);
            lemma_after_one_more(world, none.push(clear[0]), clear[1]);
            lemma_after_one_more(world, none.push(clear[0]).push(clear[1]), linking(entry));
            assert(none.push(clear[0]).push(clear[1]).push(linking(entry)) =~= first);
        },
        _ => {
            assert(first =~= none);
        },
    }
}

/// The world after one more operation has succeeded.
pub proof fn lemma_after_one_more(
    world: World,
    operations: Seq<OperationView>,
    operation: OperationView,
)
    ensures
        world.after_all(operations.push(operation)) == world.after_all(operations).after(
            operation,
        ),
{
    assert(operations.push(operation).drop_last() =~= operations);
}

} // verus!
